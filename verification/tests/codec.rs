use openjp2::codec::{opj_codec_private, Codec, CodecFormat, Request, Step};
use openjp2::event::{Delivery, EventKind, Message, MsgHandler, Notice, Report};

fn decoder() -> opj_codec_private {
    opj_codec_private::new_decoder(CodecFormat::J2K)
}

fn encoder() -> opj_codec_private {
    opj_codec_private::new_encoder(CodecFormat::JP2)
}

#[test]
fn new_handles_have_no_handlers() {
    let d = decoder();
    assert!(matches!(d.m_codec, Codec::Decoder(CodecFormat::J2K)));
    assert_eq!(d.m_event_mgr.handler(EventKind::Error).callback, None);
    assert_eq!(d.m_event_mgr.handler(EventKind::Warning).callback, None);
    assert_eq!(d.m_event_mgr.handler(EventKind::Info).callback, None);
    assert!(d.m_event_mgr.pending.is_empty());
    let e = encoder();
    assert!(matches!(e.m_codec, Codec::Encoder(CodecFormat::JP2)));
}

#[test]
fn handler_setters_succeed_and_touch_one_slot() {
    let mut c = decoder();
    assert_eq!(c.set_info_handler(Some(0x10), 1), 1);
    assert_eq!(c.set_warning_handler(Some(0x20), 2), 1);
    assert_eq!(c.set_error_handler(Some(0x30), 3), 1);
    assert_eq!(c.m_event_mgr.handler(EventKind::Info), MsgHandler { callback: Some(0x10), user_data: 1 });
    assert_eq!(c.m_event_mgr.handler(EventKind::Warning), MsgHandler { callback: Some(0x20), user_data: 2 });
    assert_eq!(c.m_event_mgr.handler(EventKind::Error), MsgHandler { callback: Some(0x30), user_data: 3 });
    assert_eq!(c.set_info_handler(None, 4), 1);
    assert_eq!(c.m_event_mgr.handler(EventKind::Info), MsgHandler { callback: None, user_data: 4 });
    assert_eq!(c.m_event_mgr.handler(EventKind::Error), MsgHandler { callback: Some(0x30), user_data: 3 });
    assert!(matches!(c.m_codec, Codec::Decoder(CodecFormat::J2K)));
}

#[test]
fn set_threads_refuses_negative_counts() {
    let d = decoder();
    assert_eq!(d.set_threads(-1), Step::Done(0));
    assert_eq!(d.set_threads(0), Step::Forward(CodecFormat::J2K, Request::SetThreads { num_threads: 0 }));
    assert_eq!(d.set_threads(8), Step::Forward(CodecFormat::J2K, Request::SetThreads { num_threads: 8 }));
    let e = encoder();
    assert_eq!(e.set_threads(4), Step::Forward(CodecFormat::JP2, Request::SetThreads { num_threads: 4 }));
    assert_eq!(e.set_threads(i32::MIN), Step::Done(0));
    assert_eq!(
        e.set_threads(i32::MAX),
        Step::Forward(CodecFormat::JP2, Request::SetThreads { num_threads: 2147483647 })
    );
}

#[test]
fn info_requests_go_to_own_backend() {
    let d = decoder();
    let e = encoder();
    assert_eq!(d.dump_codec(3), Step::Forward(CodecFormat::J2K, Request::DumpCodec { info_flag: 3 }));
    assert_eq!(e.dump_codec(-1), Step::Forward(CodecFormat::JP2, Request::DumpCodec { info_flag: -1 }));
    assert_eq!(d.get_cstr_info(), Step::Forward(CodecFormat::J2K, Request::GetCstrInfo));
    assert_eq!(e.get_cstr_info(), Step::Forward(CodecFormat::JP2, Request::GetCstrInfo));
    assert_eq!(d.get_cstr_index(), Step::Forward(CodecFormat::J2K, Request::GetCstrIndex));
    assert_eq!(e.get_cstr_index(), Step::Forward(CodecFormat::JP2, Request::GetCstrIndex));
}

#[test]
fn setup_decoder_cases() {
    let mut d = decoder();
    assert_eq!(d.setup_decoder(true), Step::ForwardThen(CodecFormat::J2K, Request::SetupDecoder, 1));
    assert_eq!(d.setup_decoder(false), Step::Done(0));
    assert!(d.m_event_mgr.pending.is_empty());

    let mut e = encoder();
    e.set_error_handler(Some(0xabc), 42);
    assert_eq!(e.setup_decoder(true), Step::Done(0));
    assert_eq!(
        e.m_event_mgr.pending,
        vec![Delivery { callback: 0xabc, user_data: 42, message: Message::Notice(Notice::SetupDecoderNotDecompressor) }]
    );
}

#[test]
fn decoder_set_strict_mode_cases() {
    let mut d = decoder();
    assert_eq!(d.decoder_set_strict_mode(1), Step::ForwardThen(CodecFormat::J2K, Request::DecoderSetStrictMode { strict: 1 }, 1));
    let mut e = encoder();
    e.set_error_handler(Some(1), 2);
    assert_eq!(e.decoder_set_strict_mode(0), Step::Done(0));
    assert_eq!(e.m_event_mgr.pending[0].message, Message::Notice(Notice::StrictModeNotDecompressor));
}

#[test]
fn read_header_cases() {
    let mut d = decoder();
    assert_eq!(d.read_header(true), Step::Forward(CodecFormat::J2K, Request::ReadHeader));
    assert_eq!(d.read_header(false), Step::Done(0));
    let mut e = encoder();
    e.set_error_handler(Some(5), 6);
    assert_eq!(e.read_header(true), Step::Done(0));
    assert_eq!(e.m_event_mgr.pending[0].message, Message::Notice(Notice::ReadHeaderNotDecompressor));
}

#[test]
fn set_decoded_components_cases() {
    let mut d = decoder();
    d.set_error_handler(Some(9), 8);
    assert_eq!(d.set_decoded_components(3, 0), Step::Forward(CodecFormat::J2K, Request::SetDecodedComponents { numcomps: 3 }));
    assert!(d.m_event_mgr.pending.is_empty());
    assert_eq!(d.set_decoded_components(3, 1), Step::Done(0));
    assert_eq!(
        d.m_event_mgr.pending,
        vec![Delivery { callback: 9, user_data: 8, message: Message::Notice(Notice::ColorTransformsUnsupported) }]
    );
    let mut e = encoder();
    e.set_error_handler(Some(9), 8);
    assert_eq!(e.set_decoded_components(3, 0), Step::Done(0));
    assert_eq!(e.m_event_mgr.pending[0].message, Message::Notice(Notice::DecodedComponentsNotDecompressor));
}

#[test]
fn decompression_requests() {
    let d = decoder();
    let e = encoder();
    assert_eq!(d.decode(true), Step::Forward(CodecFormat::J2K, Request::Decode));
    assert_eq!(d.decode(false), Step::Done(0));
    assert_eq!(e.decode(true), Step::Done(0));
    assert_eq!(d.end_decompress(true), Step::Forward(CodecFormat::J2K, Request::EndDecompress));
    assert_eq!(d.end_decompress(false), Step::Done(0));
    assert_eq!(e.end_decompress(true), Step::Done(0));
    assert_eq!(d.set_decode_area(10, 20, 5, 40), Step::Forward(CodecFormat::J2K, Request::SetDecodeArea { start_x: 10, start_y: 20, end_x: 5, end_y: 40 }));
    assert_eq!(e.set_decode_area(0, 0, 8, 8), Step::Done(0));
    assert_eq!(d.get_decoded_tile(true, 7), Step::Forward(CodecFormat::J2K, Request::GetDecodedTile { tile_index: 7 }));
    assert_eq!(d.get_decoded_tile(false, 7), Step::Done(0));
    assert_eq!(e.get_decoded_tile(true, 7), Step::Done(0));
    assert_eq!(d.set_decoded_resolution_factor(2), Step::Forward(CodecFormat::J2K, Request::SetDecodedResolutionFactor { res_factor: 2 }));
    assert_eq!(e.set_decoded_resolution_factor(2), Step::Done(0));
}

#[test]
fn read_tile_header_needs_all_three() {
    let d = decoder();
    assert_eq!(d.read_tile_header(true, true, true), Step::Forward(CodecFormat::J2K, Request::ReadTileHeader));
    assert_eq!(d.read_tile_header(false, true, true), Step::Done(0));
    assert_eq!(d.read_tile_header(true, false, true), Step::Done(0));
    assert_eq!(d.read_tile_header(true, true, false), Step::Done(0));
    assert_eq!(encoder().read_tile_header(true, true, true), Step::Done(0));
}

#[test]
fn decode_tile_data_needs_stream_and_buffer() {
    let d = decoder();
    assert_eq!(d.decode_tile_data(true, 4, true, 1024), Step::Forward(CodecFormat::J2K, Request::DecodeTileData { tile_index: 4, data_size: 1024 }));
    assert_eq!(d.decode_tile_data(false, 4, true, 1024), Step::Done(0));
    assert_eq!(d.decode_tile_data(true, 4, false, 1024), Step::Done(0));
    assert_eq!(encoder().decode_tile_data(true, 4, true, 1024), Step::Done(0));
}

#[test]
fn compression_requests() {
    let d = decoder();
    let e = encoder();
    assert_eq!(e.setup_encoder(true, true), Step::Forward(CodecFormat::JP2, Request::SetupEncoder));
    assert_eq!(e.setup_encoder(false, true), Step::Done(0));
    assert_eq!(e.setup_encoder(true, false), Step::Done(0));
    assert_eq!(d.setup_encoder(true, true), Step::Done(0));
    assert_eq!(e.encoder_set_extra_options(), Step::Forward(CodecFormat::JP2, Request::EncoderSetExtraOptions));
    assert_eq!(d.encoder_set_extra_options(), Step::Done(0));
    assert_eq!(e.start_compress(true), Step::Forward(CodecFormat::JP2, Request::StartCompress));
    assert_eq!(e.start_compress(false), Step::Done(0));
    assert_eq!(d.start_compress(true), Step::Done(0));
    assert_eq!(e.encode(true), Step::Forward(CodecFormat::JP2, Request::Encode));
    assert_eq!(e.encode(false), Step::Done(0));
    assert_eq!(d.encode(true), Step::Done(0));
    assert_eq!(e.end_compress(true), Step::Forward(CodecFormat::JP2, Request::EndCompress));
    assert_eq!(e.end_compress(false), Step::Done(0));
    assert_eq!(d.end_compress(true), Step::Done(0));
    assert_eq!(e.write_tile(9, true, 256, true), Step::Forward(CodecFormat::JP2, Request::WriteTile { tile_index: 9, data_size: 256 }));
    assert_eq!(e.write_tile(9, false, 256, true), Step::Done(0));
    assert_eq!(e.write_tile(9, true, 256, false), Step::Done(0));
    assert_eq!(d.write_tile(9, true, 256, true), Step::Done(0));
}

#[test]
fn step_results() {
    assert_eq!(Step::Done(0).result(1), 0);
    assert_eq!(Step::Done(1).result(0), 1);
    assert_eq!(Step::Forward(CodecFormat::J2K, Request::Decode).result(1), 1);
    assert_eq!(Step::Forward(CodecFormat::J2K, Request::Decode).result(0), 0);
    assert_eq!(Step::ForwardThen(CodecFormat::JP2, Request::SetupDecoder, 1).result(0), 1);
    assert_eq!(Step::Done(0).backend(), None);
    assert_eq!(Step::Forward(CodecFormat::JP2, Request::Encode).backend(), Some((CodecFormat::JP2, Request::Encode)));
    assert_eq!(Step::ForwardThen(CodecFormat::J2K, Request::SetupDecoder, 1).backend(), Some((CodecFormat::J2K, Request::SetupDecoder)));
}

#[test]
fn misuse_without_error_handler_is_silent() {
    let mut e = encoder();
    e.set_info_handler(Some(1), 1);
    e.set_warning_handler(Some(2), 2);
    assert_eq!(e.setup_decoder(true), Step::Done(0));
    assert!(e.m_event_mgr.pending.is_empty());
}

#[test]
fn last_installed_error_handler_receives() {
    let mut e = encoder();
    e.set_error_handler(Some(1), 10);
    e.set_error_handler(Some(2), 20);
    e.read_header(true);
    e.set_error_handler(None, 30);
    e.read_header(true);
    assert_eq!(
        e.m_event_mgr.pending,
        vec![Delivery { callback: 2, user_data: 20, message: Message::Notice(Notice::ReadHeaderNotDecompressor) }]
    );
}

#[test]
fn complete_routes_backend_reports() {
    let mut d = decoder();
    d.set_warning_handler(Some(2), 20);
    let step = d.decode(true);
    let r = d.complete(
        step,
        1,
        vec![Report { kind: EventKind::Warning, message: Message::Text("truncated code-stream".to_string()) }],
    );
    assert_eq!(r, 1);
    assert_eq!(
        d.m_event_mgr.pending,
        vec![Delivery { callback: 2, user_data: 20, message: Message::Text("truncated code-stream".to_string()) }]
    );
}

#[test]
fn complete_of_refused_request_routes_nothing() {
    let mut e = encoder();
    e.set_warning_handler(Some(2), 20);
    let step = e.decode(true);
    let r = e.complete(
        step,
        1,
        vec![Report { kind: EventKind::Warning, message: Message::Text("never sent".to_string()) }],
    );
    assert_eq!(r, 0);
    assert!(e.m_event_mgr.pending.is_empty());
}

#[test]
fn complete_forward_then_keeps_fixed_result() {
    let mut d = decoder();
    let step = d.setup_decoder(true);
    assert_eq!(d.complete(step, 0, Vec::new()), 1);
}

#[test]
fn new_handles_start_empty() {
    let d = decoder();
    assert_eq!(d.m_event_mgr.handler(EventKind::Error), MsgHandler { callback: None, user_data: 0 });
    assert_eq!(d.m_event_mgr.handler(EventKind::Info), MsgHandler { callback: None, user_data: 0 });
}
