use vstd::prelude::*;

verus! {

/// OPJ_BOOL, as the C interface of OpenJPEG spells `true` and `false`.
pub type OPJ_BOOL = i32;

/// `b` as an OPJ_BOOL.
pub open spec fn bool_of(b: bool) -> OPJ_BOOL {
    if b { 1 } else { 0 }
}

/// The three kinds of message a codec reports.
#[derive(Clone, Copy, Debug, PartialEq, Eq, Structural)]
pub enum EventKind {
    Error,
    Warning,
    Info,
}

/// A message callback as the user installed it.
///
/// `callback` is the callback's address, `None` when no callback is installed
/// (a null callback); `user_data` is the client data handed to it.
#[derive(Clone, Copy, Debug, PartialEq, Eq, Structural)]
pub struct MsgHandler {
    pub callback: Option<usize>,
    pub user_data: usize,
}

impl MsgHandler {
    /// A slot with no callback installed.
    pub fn none() -> (h: MsgHandler)
        ensures
            h.callback is None,
            h.user_data == 0,
    {
        MsgHandler { callback: None, user_data: 0 }
    }
}

/// The messages a codec handle reports itself.
#[derive(Clone, Copy, Debug, PartialEq, Eq, Structural)]
pub enum Notice {
    /// `setup_decoder` was called on a compressor.
    SetupDecoderNotDecompressor,
    /// `decoder_set_strict_mode` was called on a compressor.
    StrictModeNotDecompressor,
    /// `read_header` was called on a compressor.
    ReadHeaderNotDecompressor,
    /// `set_decoded_components` was called on a compressor.
    DecodedComponentsNotDecompressor,
    /// `set_decoded_components` was asked to apply colour transforms.
    ColorTransformsUnsupported,
}

/// The text of a notice, as the user's callback receives it.
pub open spec fn notice_text(n: Notice) -> Seq<char> {
    match n {
        Notice::SetupDecoderNotDecompressor =>
            "Codec provided to the opj_setup_decoder function is not a decompressor handler.\n"@,
        Notice::StrictModeNotDecompressor =>
            "Codec provided to the opj_decoder_set_strict_mode function is not a decompressor handler.\n"@,
        Notice::ReadHeaderNotDecompressor =>
            "Codec provided to the opj_read_header function is not a decompressor handler.\n"@,
        Notice::DecodedComponentsNotDecompressor =>
            "Codec provided to the opj_set_decoded_components function is not a decompressor handler.\n"@,
        Notice::ColorTransformsUnsupported =>
            "apply_color_transforms = OPJ_TRUE is not supported.\n"@,
    }
}

impl Notice {
    /// The text of this notice.
    pub fn text(&self) -> (t: &'static str)
        ensures
            t@ == notice_text(*self),
    {
        match self {
            Notice::SetupDecoderNotDecompressor =>
                "Codec provided to the opj_setup_decoder function is not a decompressor handler.\n",
            Notice::StrictModeNotDecompressor =>
                "Codec provided to the opj_decoder_set_strict_mode function is not a decompressor handler.\n",
            Notice::ReadHeaderNotDecompressor =>
                "Codec provided to the opj_read_header function is not a decompressor handler.\n",
            Notice::DecodedComponentsNotDecompressor =>
                "Codec provided to the opj_set_decoded_components function is not a decompressor handler.\n",
            Notice::ColorTransformsUnsupported =>
                "apply_color_transforms = OPJ_TRUE is not supported.\n",
        }
    }
}

/// A message reported to the manager: one of the handle's own notices, or a
/// text that a backend reports while it serves a request.
#[derive(Debug, PartialEq, Eq)]
pub enum Message {
    Notice(Notice),
    Text(String),
}

/// The text of a message, as the user's callback receives it.
pub open spec fn message_text(m: Message) -> Seq<char> {
    match m {
        Message::Notice(n) => notice_text(n),
        Message::Text(t) => t@,
    }
}

impl Message {
    /// The text of this message.
    pub fn text(&self) -> (t: &str)
        ensures
            t@ == message_text(*self),
    {
        match self {
            Message::Notice(n) => n.text(),
            Message::Text(t) => t.as_str(),
        }
    }
}

/// A message of a given kind, as a backend reports it.
#[derive(Debug, PartialEq, Eq)]
pub struct Report {
    pub kind: EventKind,
    pub message: Message,
}

/// A message on its way to a callback: the callback to call, the client data
/// to hand it, and the message.
#[derive(Debug, PartialEq, Eq)]
pub struct Delivery {
    pub callback: usize,
    pub user_data: usize,
    pub message: Message,
}

/// The message manager of a codec: one handler per kind of message, and the
/// messages that were routed to a callback and not yet handed over.
pub struct opj_event_mgr {
    pub error_handler: MsgHandler,
    pub warning_handler: MsgHandler,
    pub info_handler: MsgHandler,
    pub pending: Vec<Delivery>,
}

/// What the event manager is, as a mathematical value.
pub struct EventMgrView {
    pub error_handler: MsgHandler,
    pub warning_handler: MsgHandler,
    pub info_handler: MsgHandler,
    pub pending: Seq<Delivery>,
}

impl View for opj_event_mgr {
    type V = EventMgrView;

    open spec fn view(&self) -> EventMgrView {
        EventMgrView {
            error_handler: self.error_handler,
            warning_handler: self.warning_handler,
            info_handler: self.info_handler,
            pending: self.pending@,
        }
    }
}

impl EventMgrView {
    /// A manager with no callback and no client data in any slot, and
    /// nothing waiting to be handed over.
    pub open spec fn empty() -> EventMgrView {
        EventMgrView {
            error_handler: MsgHandler { callback: None, user_data: 0 },
            warning_handler: MsgHandler { callback: None, user_data: 0 },
            info_handler: MsgHandler { callback: None, user_data: 0 },
            pending: Seq::empty(),
        }
    }

    /// The handler that receives messages of `kind`.
    pub open spec fn handler(self, kind: EventKind) -> MsgHandler {
        match kind {
            EventKind::Error => self.error_handler,
            EventKind::Warning => self.warning_handler,
            EventKind::Info => self.info_handler,
        }
    }

    /// The manager after the handler of `kind` is replaced by `h`.
    pub open spec fn with_handler(self, kind: EventKind, h: MsgHandler) -> EventMgrView {
        match kind {
            EventKind::Error => EventMgrView { error_handler: h, ..self },
            EventKind::Warning => EventMgrView { warning_handler: h, ..self },
            EventKind::Info => EventMgrView { info_handler: h, ..self },
        }
    }

    /// The manager after a message of `kind` is reported: it goes to the
    /// handler of that kind, or nowhere when that handler has no callback.
    pub open spec fn after_report(self, kind: EventKind, msg: Message) -> EventMgrView {
        let h = self.handler(kind);
        match h.callback {
            Some(cb) => EventMgrView {
                pending: self.pending.push(Delivery { callback: cb, user_data: h.user_data, message: msg }),
                ..self
            },
            None => self,
        }
    }

    /// The manager after the notice `n` of `kind` is reported.
    pub open spec fn after_message(self, kind: EventKind, n: Notice) -> EventMgrView {
        self.after_report(kind, Message::Notice(n))
    }

    /// The manager after the reports in `reports` are made, first to last.
    pub open spec fn after_reports(self, reports: Seq<Report>) -> EventMgrView
        decreases reports.len(),
    {
        if reports.len() == 0 {
            self
        } else {
            self.after_reports(reports.drop_last()).after_report(
                reports.last().kind,
                reports.last().message,
            )
        }
    }
}

impl opj_event_mgr {
    /// A manager with no handler installed.
    pub fn new() -> (m: opj_event_mgr)
        ensures
            m@ == EventMgrView::empty(),
            m@.error_handler.callback is None,
            m@.warning_handler.callback is None,
            m@.info_handler.callback is None,
            m@.pending.len() == 0,
    {
        opj_event_mgr {
            error_handler: MsgHandler::none(),
            warning_handler: MsgHandler::none(),
            info_handler: MsgHandler::none(),
            pending: Vec::new(),
        }
    }

    /// Installs `p_callback` with `p_user_data` as the handler of `kind`.
    pub fn set_handler(&mut self, kind: EventKind, p_callback: Option<usize>, p_user_data: usize)
        ensures
            final(self)@ == old(self)@.with_handler(
                kind,
                MsgHandler { callback: p_callback, user_data: p_user_data },
            ),
    {
        let h = MsgHandler { callback: p_callback, user_data: p_user_data };
        match kind {
            EventKind::Error => self.error_handler = h,
            EventKind::Warning => self.warning_handler = h,
            EventKind::Info => self.info_handler = h,
        }
    }

    /// The handler that receives messages of `kind`.
    pub fn handler(&self, kind: EventKind) -> (h: MsgHandler)
        ensures
            h == self@.handler(kind),
    {
        match kind {
            EventKind::Error => self.error_handler,
            EventKind::Warning => self.warning_handler,
            EventKind::Info => self.info_handler,
        }
    }

    /// Reports `message` of `kind`: it is routed to the callback installed
    /// for that kind, and dropped when there is none. Returns whether a
    /// callback received it.
    pub fn report(&mut self, kind: EventKind, message: Message) -> (delivered: OPJ_BOOL)
        ensures
            final(self)@ == old(self)@.after_report(kind, message),
            delivered == bool_of(old(self)@.handler(kind).callback.is_some()),
    {
        let h = self.handler(kind);
        match h.callback {
            Some(cb) => {
                self.pending.push(Delivery { callback: cb, user_data: h.user_data, message: message });
                1
            },
            None => 0,
        }
    }

    /// Reports the handle's own notice `n` of `kind`, as `report` does.
    pub fn msg(&mut self, kind: EventKind, n: Notice) -> (delivered: OPJ_BOOL)
        ensures
            final(self)@ == old(self)@.after_message(kind, n),
            delivered == bool_of(old(self)@.handler(kind).callback.is_some()),
    {
        self.report(kind, Message::Notice(n))
    }

    /// Makes the reports in `reports`, first to last, each as `report` does.
    pub fn report_all(&mut self, reports: Vec<Report>)
        ensures
            final(self)@ == old(self)@.after_reports(reports@),
    {
        let ghost all = reports@;
        let ghost start = self@;
        let mut rest = reports;
        let ghost mut i: int = 0;
        while rest.len() > 0
            invariant
                0 <= i <= all.len(),
                rest@.len() + i == all.len(),
                rest@ == all.skip(i),
                self@ == start.after_reports(all.take(i)),
            decreases rest.len(),
        {
            let r = rest.remove(0);
            proof {
                assert(all.take(i + 1).drop_last() =~= all.take(i));
                assert(all.take(i + 1).last() == all[i]);
                assert(rest@ =~= all.skip(i + 1));
            }
            self.report(r.kind, r.message);
            proof {
                i = i + 1;
            }
        }
        proof {
            assert(all.take(i) =~= all);
        }
    }

    /// Hands over the messages routed so far, oldest first, and forgets them.
    pub fn take_pending(&mut self) -> (out: Vec<Delivery>)
        ensures
            out@ == old(self)@.pending,
            final(self)@ == (EventMgrView { pending: Seq::empty(), ..old(self)@ }),
    {
        let mut out: Vec<Delivery> = Vec::new();
        std::mem::swap(&mut out, &mut self.pending);
        out
    }
}

} // verus!
