use openjp2::event::{opj_event_mgr, Delivery, EventKind, Message, MsgHandler, Notice, Report};

#[test]
fn msg_routes_by_kind() {
    let mut m = opj_event_mgr::new();
    m.set_handler(EventKind::Warning, Some(0x77), 5);
    assert_eq!(m.msg(EventKind::Error, Notice::ReadHeaderNotDecompressor), 0);
    assert!(m.pending.is_empty());
    assert_eq!(m.msg(EventKind::Warning, Notice::ReadHeaderNotDecompressor), 1);
    assert_eq!(
        m.pending,
        vec![Delivery { callback: 0x77, user_data: 5, message: Message::Notice(Notice::ReadHeaderNotDecompressor) }]
    );
}

#[test]
fn take_pending_keeps_order_and_empties() {
    let mut m = opj_event_mgr::new();
    m.set_handler(EventKind::Error, Some(1), 2);
    m.msg(EventKind::Error, Notice::SetupDecoderNotDecompressor);
    m.msg(EventKind::Error, Notice::ColorTransformsUnsupported);
    let out = m.take_pending();
    assert_eq!(out.len(), 2);
    assert_eq!(out[0].message, Message::Notice(Notice::SetupDecoderNotDecompressor));
    assert_eq!(out[1].message, Message::Notice(Notice::ColorTransformsUnsupported));
    assert!(m.pending.is_empty());
    assert!(m.take_pending().is_empty());
    assert_eq!(m.handler(EventKind::Error), MsgHandler { callback: Some(1), user_data: 2 });
}

#[test]
fn notice_texts() {
    assert_eq!(
        Notice::SetupDecoderNotDecompressor.text(),
        "Codec provided to the opj_setup_decoder function is not a decompressor handler.\n"
    );
    assert_eq!(
        Notice::StrictModeNotDecompressor.text(),
        "Codec provided to the opj_decoder_set_strict_mode function is not a decompressor handler.\n"
    );
    assert_eq!(
        Notice::ReadHeaderNotDecompressor.text(),
        "Codec provided to the opj_read_header function is not a decompressor handler.\n"
    );
    assert_eq!(
        Notice::DecodedComponentsNotDecompressor.text(),
        "Codec provided to the opj_set_decoded_components function is not a decompressor handler.\n"
    );
    assert_eq!(
        Notice::ColorTransformsUnsupported.text(),
        "apply_color_transforms = OPJ_TRUE is not supported.\n"
    );
}

#[test]
fn none_handler_slot() {
    let h = MsgHandler::none();
    assert_eq!(h.callback, None);
    assert_eq!(h.user_data, 0);
}

#[test]
fn report_all_routes_in_order_by_kind() {
    let mut m = opj_event_mgr::new();
    m.set_handler(EventKind::Error, Some(1), 10);
    m.set_handler(EventKind::Info, Some(3), 30);
    m.report_all(vec![
        Report { kind: EventKind::Info, message: Message::Text("tile 0 decoded".to_string()) },
        Report { kind: EventKind::Warning, message: Message::Text("dropped".to_string()) },
        Report { kind: EventKind::Error, message: Message::Text("stream too short".to_string()) },
    ]);
    assert_eq!(
        m.pending,
        vec![
            Delivery { callback: 3, user_data: 30, message: Message::Text("tile 0 decoded".to_string()) },
            Delivery { callback: 1, user_data: 10, message: Message::Text("stream too short".to_string()) },
        ]
    );
}

#[test]
fn message_texts() {
    assert_eq!(Message::Text("abc".to_string()).text(), "abc");
    assert_eq!(
        Message::Notice(Notice::ColorTransformsUnsupported).text(),
        "apply_color_transforms = OPJ_TRUE is not supported.\n"
    );
}

#[test]
fn report_returns_whether_delivered() {
    let mut m = opj_event_mgr::new();
    assert_eq!(m.report(EventKind::Info, Message::Text("x".to_string())), 0);
    m.set_handler(EventKind::Info, Some(4), 0);
    assert_eq!(m.report(EventKind::Info, Message::Text("y".to_string())), 1);
    assert_eq!(m.pending, vec![Delivery { callback: 4, user_data: 0, message: Message::Text("y".to_string()) }]);
}
