use vstd::prelude::*;

use crate::codec::{
    after_decoder_only, decoder_step, setup_decoder_step, strict_mode_step, encoder_step, format_of, step_result, Codec, CodecFormat, Request, Step,
};
use crate::event::{Delivery, EventKind, EventMgrView, Message, MsgHandler, Notice, Report, OPJ_BOOL};

verus! {

/// A message reported after a callback was installed for its kind reaches
/// that callback, with the client data installed beside it, after every
/// message routed before it.
pub proof fn installed_handler_receives(
    m: EventMgrView,
    kind: EventKind,
    cb: usize,
    data: usize,
    msg: Message,
)
    ensures
        m.with_handler(kind, MsgHandler { callback: Some(cb), user_data: data }).after_report(
            kind,
            msg,
        ).pending == m.pending.push(Delivery { callback: cb, user_data: data, message: msg }),
{
}

/// Installing a null callback for a kind silences that kind: its messages
/// are dropped.
pub proof fn null_handler_drops(m: EventMgrView, kind: EventKind, data: usize, msg: Message)
    ensures
        ({
            let m1 = m.with_handler(kind, MsgHandler { callback: None, user_data: data });
            m1.after_report(kind, msg) == m1
        }),
{
}

/// Installing a handler for one kind leaves the handlers of the other kinds
/// as they were.
pub proof fn handlers_are_independent(
    m: EventMgrView,
    k1: EventKind,
    k2: EventKind,
    h: MsgHandler,
)
    requires
        k1 != k2,
    ensures
        m.with_handler(k1, h).handler(k2) == m.handler(k2),
        m.with_handler(k1, h).pending == m.pending,
{
}

/// The handler installed last for a kind is the one that is kept.
pub proof fn last_handler_wins(m: EventMgrView, k: EventKind, h1: MsgHandler, h2: MsgHandler)
    ensures
        m.with_handler(k, h1).with_handler(k, h2) == m.with_handler(k, h2),
        m.with_handler(k, h2).handler(k) == h2,
{
}

/// Reporting a message never changes which handler is installed, and only
/// ever adds to what is pending.
pub proof fn reporting_keeps_handlers(m: EventMgrView, k: EventKind, k2: EventKind, msg: Message)
    ensures
        m.after_report(k, msg).handler(k2) == m.handler(k2),
        m.pending.is_prefix_of(m.after_report(k, msg).pending),
        m.after_report(k, msg).pending.len() <= m.pending.len() + 1,
{
}

/// What a sequence of reports delivers, in order: each report whose kind has
/// a callback installed goes to that callback with its client data; the
/// others are dropped.
pub open spec fn routed(m: EventMgrView, reports: Seq<Report>) -> Seq<Delivery>
    decreases reports.len(),
{
    if reports.len() == 0 {
        Seq::empty()
    } else {
        let r = reports.last();
        let h = m.handler(r.kind);
        match h.callback {
            Some(cb) => routed(m, reports.drop_last()).push(
                Delivery { callback: cb, user_data: h.user_data, message: r.message },
            ),
            None => routed(m, reports.drop_last()),
        }
    }
}

/// The messages a backend reports while it serves a request reach, in the
/// order reported, the handlers installed for their kinds, with their client
/// data, after every message routed before; messages of a kind with no
/// callback are dropped, and no handler changes.
pub proof fn reports_reach_installed_handlers(m: EventMgrView, reports: Seq<Report>)
    ensures
        m.after_reports(reports) == (EventMgrView { pending: m.pending + routed(m, reports), ..m }),
    decreases reports.len(),
{
    if reports.len() == 0 {
        assert(m.pending + Seq::<Delivery>::empty() =~= m.pending);
    } else {
        reports_reach_installed_handlers(m, reports.drop_last());
        let prev = routed(m, reports.drop_last());
        let r = reports.last();
        match m.handler(r.kind).callback {
            Some(cb) => {
                let d = Delivery { callback: cb, user_data: m.handler(r.kind).user_data, message: r.message };
                assert((m.pending + prev).push(d) =~= m.pending + prev.push(d));
            },
            None => {},
        }
    }
}

/// A request that only a decompressor serves fails with 0 on a compressor,
/// and one that only a compressor serves fails with 0 on a decompressor,
/// whatever the backend would have answered: no backend is called.
pub proof fn wrong_direction_fails(f: CodecFormat, ready: bool, req: Request, answer: OPJ_BOOL)
    ensures
        decoder_step(Codec::Encoder(f), ready, req) == Step::Done(0),
        step_result(decoder_step(Codec::Encoder(f), ready, req), answer) == 0,
        encoder_step(Codec::Decoder(f), ready, req) == Step::Done(0),
        step_result(encoder_step(Codec::Decoder(f), ready, req), answer) == 0,
{
}

/// A request is handed only to the backend of the codec's own format, with
/// the values it was made with, and only when the codec goes the right way
/// and the request is complete; the backend's answer is then the result.
pub proof fn forwarded_to_own_format(c: Codec, ready: bool, req: Request, answer: OPJ_BOOL)
    ensures
        decoder_step(c, ready, req) is Forward <==> (c is Decoder && ready),
        encoder_step(c, ready, req) is Forward <==> (c is Encoder && ready),
        decoder_step(c, ready, req) is Forward ==> decoder_step(c, ready, req) == Step::Forward(format_of(c), req),
        encoder_step(c, ready, req) is Forward ==> encoder_step(c, ready, req) == Step::Forward(format_of(c), req),
        decoder_step(c, ready, req) is Forward ==> step_result(decoder_step(c, ready, req), answer) == answer,
        encoder_step(c, ready, req) is Forward ==> step_result(encoder_step(c, ready, req), answer) == answer,
{
}

/// A request that only a decompressor serves, made of a compressor, is
/// reported to the error handler installed last, with its client data; made
/// of a decompressor, it reports nothing.
pub proof fn misuse_reaches_error_handler(
    m: EventMgrView,
    f: CodecFormat,
    cb: usize,
    data: usize,
    n: Notice,
)
    ensures
        after_decoder_only(
            Codec::Encoder(f),
            m.with_handler(EventKind::Error, MsgHandler { callback: Some(cb), user_data: data }),
            n,
        ).pending == m.pending.push(
            Delivery { callback: cb, user_data: data, message: Message::Notice(n) },
        ),
        after_decoder_only(Codec::Decoder(f), m, n) == m,
{
}

/// A request that ends in the handle has its own value as result, and one
/// that the backend serves with a fixed result has that result, whatever the
/// backend answered; a request whose result is the backend's answer has
/// exactly that answer as result. Two completions of one step that differ in
/// the backend's answer differ in result only where the step forwards the
/// answer.
pub proof fn result_depends_on_answer_only_when_forwarded(
    f: CodecFormat,
    r: Request,
    v: OPJ_BOOL,
    a1: OPJ_BOOL,
    a2: OPJ_BOOL,
)
    ensures
        step_result(Step::Done(v), a1) == v,
        step_result(Step::ForwardThen(f, r, v), a1) == v,
        step_result(Step::ForwardThen(f, r, v), a1) == step_result(Step::ForwardThen(f, r, v), a2),
        step_result(Step::Done(v), a1) == step_result(Step::Done(v), a2),
        step_result(Step::Forward(f, r), a1) == a1,
        a1 != a2 ==> step_result(Step::Forward(f, r), a1) != step_result(Step::Forward(f, r), a2),
{
}

/// Setting up a decompressor with parameters succeeds with 1 once its own
/// backend has taken them, whatever the backend answered; without parameters,
/// or on a compressor, it fails with 0 and calls no backend.
pub proof fn setup_decoder_result(f: CodecFormat, has_parameters: bool, answer: OPJ_BOOL)
    ensures
        has_parameters ==> step_result(setup_decoder_step(Codec::Decoder(f), has_parameters), answer) == 1,
        has_parameters ==> setup_decoder_step(Codec::Decoder(f), has_parameters)
            == Step::ForwardThen(f, Request::SetupDecoder, 1),
        !has_parameters ==> setup_decoder_step(Codec::Decoder(f), has_parameters) == Step::Done(0),
        step_result(setup_decoder_step(Codec::Decoder(f), false), answer) == 0,
        step_result(setup_decoder_step(Codec::Encoder(f), has_parameters), answer) == 0,
        setup_decoder_step(Codec::Encoder(f), has_parameters) == Step::Done(0),
{
}

/// Setting strict mode on a decompressor succeeds with 1 for every setting,
/// off included, whatever the backend answered, after its own backend took
/// the setting unchanged; on a compressor it fails with 0 and calls no
/// backend.
pub proof fn strict_mode_result(f: CodecFormat, strict: OPJ_BOOL, other: OPJ_BOOL, answer: OPJ_BOOL)
    ensures
        step_result(strict_mode_step(Codec::Decoder(f), strict), answer) == 1,
        step_result(strict_mode_step(Codec::Decoder(f), strict), answer)
            == step_result(strict_mode_step(Codec::Decoder(f), other), answer),
        strict_mode_step(Codec::Decoder(f), strict)
            == Step::ForwardThen(f, (Request::DecoderSetStrictMode { strict: strict }), 1),
        step_result(strict_mode_step(Codec::Encoder(f), strict), answer) == 0,
        strict_mode_step(Codec::Encoder(f), strict) == Step::Done(0),
{
}

} // verus!
