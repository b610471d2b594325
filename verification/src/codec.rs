use vstd::prelude::*;

use crate::event::{opj_event_mgr, EventKind, EventMgrView, MsgHandler, Notice, Report, OPJ_BOOL};

verus! {

/// The code-stream format a codec reads or writes, and so the backend that
/// does its work.
#[derive(Clone, Copy, Debug, PartialEq, Eq, Structural)]
pub enum CodecFormat {
    /// A raw JPEG 2000 code-stream.
    J2K,
    /// A JP2 file.
    JP2,
}

/// Whether a codec compresses or decompresses, and in which format.
#[derive(Clone, Copy, Debug, PartialEq, Eq, Structural)]
pub enum Codec {
    Encoder(CodecFormat),
    Decoder(CodecFormat),
}

/// A request as a backend receives it, with the plain values that the caller
/// gave for it. Buffers, streams, images and parameter blocks are not held
/// here: the caller hands them to the backend beside the request.
#[derive(Clone, Copy, Debug, PartialEq, Eq, Structural)]
pub enum Request {
    SetThreads { num_threads: u32 },
    DumpCodec { info_flag: i32 },
    GetCstrInfo,
    GetCstrIndex,
    SetupDecoder,
    DecoderSetStrictMode { strict: OPJ_BOOL },
    ReadHeader,
    SetDecodedComponents { numcomps: u32 },
    Decode,
    EndDecompress,
    SetDecodeArea { start_x: i32, start_y: i32, end_x: i32, end_y: i32 },
    ReadTileHeader,
    DecodeTileData { tile_index: u32, data_size: u32 },
    GetDecodedTile { tile_index: u32 },
    SetDecodedResolutionFactor { res_factor: u32 },
    SetupEncoder,
    EncoderSetExtraOptions,
    StartCompress,
    Encode,
    EndCompress,
    WriteTile { tile_index: u32, data_size: u32 },
}

/// What becomes of a request made to a codec handle.
///
/// The handle decides; the backend of the named format, which keeps the
/// codec's working state, does the work. What the backend reports while it
/// serves the request reaches the codec's handlers through
/// `opj_codec_private::complete`.
#[derive(Clone, Copy, Debug, PartialEq, Eq, Structural)]
pub enum Step {
    /// The request ends here, and this is its result.
    Done(OPJ_BOOL),
    /// The backend of this format serves the request, and its answer is the
    /// result.
    Forward(CodecFormat, Request),
    /// The backend of this format serves the request; the result is then the
    /// given value, whatever the backend answered.
    ForwardThen(CodecFormat, Request, OPJ_BOOL),
}

/// The format of a codec.
pub open spec fn format_of(c: Codec) -> CodecFormat {
    match c {
        Codec::Encoder(f) => f,
        Codec::Decoder(f) => f,
    }
}

/// A request that only a decompressor serves: it goes to the backend when the
/// codec decompresses and `ready` holds, and ends with 0 otherwise.
pub open spec fn decoder_step(c: Codec, ready: bool, req: Request) -> Step {
    match c {
        Codec::Decoder(f) => if ready { Step::Forward(f, req) } else { Step::Done(0) },
        Codec::Encoder(_) => Step::Done(0),
    }
}

/// A request that only a compressor serves: it goes to the backend when the
/// codec compresses and `ready` holds, and ends with 0 otherwise.
pub open spec fn encoder_step(c: Codec, ready: bool, req: Request) -> Step {
    match c {
        Codec::Encoder(f) => if ready { Step::Forward(f, req) } else { Step::Done(0) },
        Codec::Decoder(_) => Step::Done(0),
    }
}

/// The step of `setup_decoder`: on a decompressor given parameters, the
/// backend takes them and the call then succeeds with 1; 0 otherwise.
pub open spec fn setup_decoder_step(c: Codec, has_parameters: bool) -> Step {
    match c {
        Codec::Decoder(f) => if has_parameters {
            Step::ForwardThen(f, Request::SetupDecoder, 1)
        } else {
            Step::Done(0)
        },
        Codec::Encoder(_) => Step::Done(0),
    }
}

/// The step of `decoder_set_strict_mode`: on a decompressor, the backend
/// takes the setting and the call then succeeds with 1; 0 on a compressor.
pub open spec fn strict_mode_step(c: Codec, strict: OPJ_BOOL) -> Step {
    match c {
        Codec::Decoder(f) => Step::ForwardThen(f, (Request::DecoderSetStrictMode { strict: strict }), 1),
        Codec::Encoder(_) => Step::Done(0),
    }
}

/// The result of a request that took `step`, when the backend, if it was
/// called, answered `answer`.
pub open spec fn step_result(step: Step, answer: OPJ_BOOL) -> OPJ_BOOL {
    match step {
        Step::Done(v) => v,
        Step::Forward(_, _) => answer,
        Step::ForwardThen(_, _, v) => v,
    }
}

impl Step {
    /// The backend that the request goes to, with the request, if any.
    pub fn backend(&self) -> (b: Option<(CodecFormat, Request)>)
        ensures
            b == (match *self {
                Step::Done(_) => None,
                Step::Forward(f, r) => Some((f, r)),
                Step::ForwardThen(f, r, _) => Some((f, r)),
            }),
    {
        match self {
            Step::Done(_) => None,
            Step::Forward(f, r) => Some((*f, *r)),
            Step::ForwardThen(f, r, _) => Some((*f, *r)),
        }
    }

    /// The result of the request, given what the backend answered. Where the
    /// backend was not called, `answer` is not read.
    pub fn result(&self, answer: OPJ_BOOL) -> (r: OPJ_BOOL)
        ensures
            r == step_result(*self, answer),
            *self is Done ==> r == self->Done_0,
            *self is Forward ==> r == answer,
            *self is ForwardThen ==> r == self->ForwardThen_2,
    {
        match self {
            Step::Done(v) => *v,
            Step::Forward(_, _) => answer,
            Step::ForwardThen(_, _, v) => *v,
        }
    }
}

/// A codec handle: what it is, and where its messages go.
pub struct opj_codec_private {
    pub m_codec: Codec,
    pub m_event_mgr: opj_event_mgr,
}

impl opj_codec_private {
    /// A decompressor of `format` with no message handler installed.
    pub fn new_decoder(format: CodecFormat) -> (c: opj_codec_private)
        ensures
            c.m_codec == Codec::Decoder(format),
            c.m_event_mgr@ == EventMgrView::empty(),
            c.m_event_mgr@.error_handler.callback is None,
            c.m_event_mgr@.warning_handler.callback is None,
            c.m_event_mgr@.info_handler.callback is None,
            c.m_event_mgr@.pending.len() == 0,
    {
        opj_codec_private { m_codec: Codec::Decoder(format), m_event_mgr: opj_event_mgr::new() }
    }

    /// A compressor of `format` with no message handler installed.
    pub fn new_encoder(format: CodecFormat) -> (c: opj_codec_private)
        ensures
            c.m_codec == Codec::Encoder(format),
            c.m_event_mgr@ == EventMgrView::empty(),
            c.m_event_mgr@.error_handler.callback is None,
            c.m_event_mgr@.warning_handler.callback is None,
            c.m_event_mgr@.info_handler.callback is None,
            c.m_event_mgr@.pending.len() == 0,
    {
        opj_codec_private { m_codec: Codec::Encoder(format), m_event_mgr: opj_event_mgr::new() }
    }

    /// Completes a request that took `step`: the messages `reports` that the
    /// backend reported while it served the request go, first to last, to
    /// the handlers installed for their kinds (a request that ended in the
    /// handle called no backend, and routes nothing), and the result is the
    /// request's result given the backend's `answer`.
    pub fn complete(&mut self, step: Step, answer: OPJ_BOOL, reports: Vec<Report>) -> (r: OPJ_BOOL)
        ensures
            r == step_result(step, answer),
            final(self).m_codec == old(self).m_codec,
            final(self).m_event_mgr@ == (if step is Done {
                old(self).m_event_mgr@
            } else {
                old(self).m_event_mgr@.after_reports(reports@)
            }),
    {
        match step {
            Step::Done(v) => v,
            _ => {
                self.m_event_mgr.report_all(reports);
                step.result(answer)
            },
        }
    }

    /// Installs `p_callback` with `p_user_data` as the handler of info messages.
    /// Always succeeds.
    pub fn set_info_handler(&mut self, p_callback: Option<usize>, p_user_data: usize) -> (r: OPJ_BOOL)
        ensures
            r == 1,
            final(self).m_codec == old(self).m_codec,
            final(self).m_event_mgr@ == old(self).m_event_mgr@.with_handler(
                EventKind::Info,
                MsgHandler { callback: p_callback, user_data: p_user_data },
            ),
    {
        self.m_event_mgr.set_handler(EventKind::Info, p_callback, p_user_data);
        1i32
    }

    /// Installs `p_callback` with `p_user_data` as the handler of warnings.
    /// Always succeeds.
    pub fn set_warning_handler(&mut self, p_callback: Option<usize>, p_user_data: usize) -> (r: OPJ_BOOL)
        ensures
            r == 1,
            final(self).m_codec == old(self).m_codec,
            final(self).m_event_mgr@ == old(self).m_event_mgr@.with_handler(
                EventKind::Warning,
                MsgHandler { callback: p_callback, user_data: p_user_data },
            ),
    {
        self.m_event_mgr.set_handler(EventKind::Warning, p_callback, p_user_data);
        1i32
    }

    /// Installs `p_callback` with `p_user_data` as the handler of errors.
    /// Always succeeds.
    pub fn set_error_handler(&mut self, p_callback: Option<usize>, p_user_data: usize) -> (r: OPJ_BOOL)
        ensures
            r == 1,
            final(self).m_codec == old(self).m_codec,
            final(self).m_event_mgr@ == old(self).m_event_mgr@.with_handler(
                EventKind::Error,
                MsgHandler { callback: p_callback, user_data: p_user_data },
            ),
    {
        self.m_event_mgr.set_handler(EventKind::Error, p_callback, p_user_data);
        1i32
    }

    /// Sets the number of worker threads the backend may use: refused (0)
    /// for a negative count; otherwise the count, as an unsigned number, is
    /// handed to the backend, whichever the codec's direction.
    pub fn set_threads(&self, num_threads: i32) -> (step: Step)
        ensures
            step == (if num_threads >= 0 { Step::Forward(format_of(self.m_codec), (Request::SetThreads { num_threads: num_threads as u32 })) } else { Step::Done(0) }),
    {
        if num_threads >= 0i32 {
            match self.m_codec {
                Codec::Encoder(f) | Codec::Decoder(f) => Step::Forward(f, (Request::SetThreads { num_threads: num_threads as u32 })),
            }
        } else {
            Step::Done(0)
        }
    }

    /// Dumps the codec's state: the backend of the codec's format writes it,
    /// with the info flags `info_flag`.
    pub fn dump_codec(&self, info_flag: i32) -> (step: Step)
        ensures
            step == Step::Forward(format_of(self.m_codec), (Request::DumpCodec { info_flag: info_flag })),
    {
        match self.m_codec {
            Codec::Encoder(f) | Codec::Decoder(f) => Step::Forward(f, (Request::DumpCodec { info_flag: info_flag })),
        }
    }

    /// The code-stream information: the backend of the codec's format gives it.
    pub fn get_cstr_info(&self) -> (step: Step)
        ensures
            step == Step::Forward(format_of(self.m_codec), Request::GetCstrInfo),
    {
        match self.m_codec {
            Codec::Encoder(f) | Codec::Decoder(f) => Step::Forward(f, Request::GetCstrInfo),
        }
    }

    /// The code-stream index: the backend of the codec's format gives it.
    pub fn get_cstr_index(&self) -> (step: Step)
        ensures
            step == Step::Forward(format_of(self.m_codec), Request::GetCstrIndex),
    {
        match self.m_codec {
            Codec::Encoder(f) | Codec::Decoder(f) => Step::Forward(f, Request::GetCstrIndex),
        }
    }
}

/// The event manager after a request that only a decompressor serves was made
/// of `c`, when a compressor reports it with `n`.
pub open spec fn after_decoder_only(c: Codec, m: EventMgrView, n: Notice) -> EventMgrView {
    match c {
        Codec::Encoder(_) => m.after_message(EventKind::Error, n),
        Codec::Decoder(_) => m,
    }
}

// Requests that a decompressor serves.
impl opj_codec_private {
    /// Sets up a decompressor with decoding parameters (`has_parameters`:
    /// whether they were given). On a compressor, reports an error and
    /// fails; without parameters, fails; otherwise the backend takes them and
    /// the call succeeds.
    pub fn setup_decoder(&mut self, has_parameters: bool) -> (step: Step)
        ensures
            final(self).m_codec == old(self).m_codec,
            final(self).m_event_mgr@ == after_decoder_only(
                old(self).m_codec,
                old(self).m_event_mgr@,
                Notice::SetupDecoderNotDecompressor,
            ),
            step == setup_decoder_step(old(self).m_codec, has_parameters),
    {
        match self.m_codec {
            Codec::Encoder(_) => {
                self.m_event_mgr.msg(EventKind::Error, Notice::SetupDecoderNotDecompressor);
            },
            Codec::Decoder(dec) => {
                if has_parameters {
                    return Step::ForwardThen(dec, Request::SetupDecoder, 1);
                }
            },
        }
        Step::Done(0)
    }

    /// Sets strict decoding to `strict`. On a compressor, reports an error
    /// and fails; otherwise the backend takes the setting and the call
    /// succeeds.
    pub fn decoder_set_strict_mode(&mut self, strict: OPJ_BOOL) -> (step: Step)
        ensures
            final(self).m_codec == old(self).m_codec,
            final(self).m_event_mgr@ == after_decoder_only(
                old(self).m_codec,
                old(self).m_event_mgr@,
                Notice::StrictModeNotDecompressor,
            ),
            step == strict_mode_step(old(self).m_codec, strict),
    {
        match self.m_codec {
            Codec::Encoder(_) => {
                self.m_event_mgr.msg(EventKind::Error, Notice::StrictModeNotDecompressor);
                Step::Done(0)
            },
            Codec::Decoder(dec) => Step::ForwardThen(dec, (Request::DecoderSetStrictMode { strict: strict }), 1),
        }
    }

    /// Reads the main header from a stream (`has_stream`: whether one was
    /// given). On a compressor, reports an error and fails; without a
    /// stream, fails; otherwise the backend reads it and its answer is the
    /// result.
    pub fn read_header(&mut self, has_stream: bool) -> (step: Step)
        ensures
            final(self).m_codec == old(self).m_codec,
            final(self).m_event_mgr@ == after_decoder_only(
                old(self).m_codec,
                old(self).m_event_mgr@,
                Notice::ReadHeaderNotDecompressor,
            ),
            step == decoder_step(old(self).m_codec, has_stream, Request::ReadHeader),
    {
        match self.m_codec {
            Codec::Encoder(_) => {
                self.m_event_mgr.msg(EventKind::Error, Notice::ReadHeaderNotDecompressor);
            },
            Codec::Decoder(dec) => {
                if has_stream {
                    return Step::Forward(dec, Request::ReadHeader);
                }
            },
        }
        Step::Done(0)
    }

    /// Chooses the `numcomps` components to decode (their indices go to the
    /// backend beside the request). On a compressor, reports an error and
    /// fails. A request to apply colour transforms is not supported: it
    /// is reported as an error and fails. Otherwise the backend takes the
    /// choice and its answer is the result.
    pub fn set_decoded_components(&mut self, numcomps: u32, apply_color_transforms: OPJ_BOOL) -> (step: Step)
        ensures
            final(self).m_codec == old(self).m_codec,
            final(self).m_event_mgr@ == (match old(self).m_codec {
                Codec::Encoder(_) => old(self).m_event_mgr@.after_message(
                    EventKind::Error,
                    Notice::DecodedComponentsNotDecompressor,
                ),
                Codec::Decoder(_) => if apply_color_transforms != 0 {
                    old(self).m_event_mgr@.after_message(
                        EventKind::Error,
                        Notice::ColorTransformsUnsupported,
                    )
                } else {
                    old(self).m_event_mgr@
                },
            }),
            step == decoder_step(old(self).m_codec, apply_color_transforms == 0, (Request::SetDecodedComponents { numcomps: numcomps })),
    {
        match self.m_codec {
            Codec::Encoder(_) => {
                self.m_event_mgr.msg(EventKind::Error, Notice::DecodedComponentsNotDecompressor);
                Step::Done(0)
            },
            Codec::Decoder(dec) => {
                if apply_color_transforms != 0 {
                    self.m_event_mgr.msg(EventKind::Error, Notice::ColorTransformsUnsupported);
                    return Step::Done(0);
                }
                Step::Forward(dec, (Request::SetDecodedComponents { numcomps: numcomps }))
            },
        }
    }

    /// Decodes an image from a stream: the backend's answer on a
    /// decompressor given a stream, 0 otherwise.
    pub fn decode(&self, has_stream: bool) -> (step: Step)
        ensures
            step == decoder_step(self.m_codec, has_stream, Request::Decode),
    {
        match self.m_codec {
            Codec::Encoder(_) => (),
            Codec::Decoder(dec) => {
                if has_stream {
                    return Step::Forward(dec, Request::Decode);
                }
            },
        }
        Step::Done(0)
    }

    /// Ends decompression: the backend's answer on a decompressor given a
    /// stream, 0 otherwise.
    pub fn end_decompress(&self, has_stream: bool) -> (step: Step)
        ensures
            step == decoder_step(self.m_codec, has_stream, Request::EndDecompress),
    {
        match self.m_codec {
            Codec::Encoder(_) => (),
            Codec::Decoder(dec) => {
                if has_stream {
                    return Step::Forward(dec, Request::EndDecompress);
                }
            },
        }
        Step::Done(0)
    }

    /// Sets the area to decode, from (`p_start_x`, `p_start_y`) to
    /// (`p_end_x`, `p_end_y`): the backend's answer on a decompressor, 0 on a
    /// compressor. The coordinates are not checked here.
    pub fn set_decode_area(&self, p_start_x: i32, p_start_y: i32, p_end_x: i32, p_end_y: i32) -> (step: Step)
        ensures
            step == decoder_step(self.m_codec, true, (Request::SetDecodeArea { start_x: p_start_x, start_y: p_start_y, end_x: p_end_x, end_y: p_end_y })),
    {
        match self.m_codec {
            Codec::Encoder(_) => (),
            Codec::Decoder(dec) => {
                return Step::Forward(dec, (Request::SetDecodeArea { start_x: p_start_x, start_y: p_start_y, end_x: p_end_x, end_y: p_end_y }));
            },
        }
        Step::Done(0)
    }

    /// Reads the header of the next tile: the backend's answer on a
    /// decompressor given a stream and places for the tile index and the
    /// data size, 0 otherwise.
    pub fn read_tile_header(&self, has_stream: bool, has_tile_index: bool, has_data_size: bool) -> (step: Step)
        ensures
            step == decoder_step(self.m_codec, has_stream && has_data_size && has_tile_index, Request::ReadTileHeader),
    {
        match self.m_codec {
            Codec::Encoder(_) => (),
            Codec::Decoder(dec) => {
                if has_stream && has_data_size && has_tile_index {
                    return Step::Forward(dec, Request::ReadTileHeader);
                }
            },
        }
        Step::Done(0)
    }

    /// Decodes the data of tile `p_tile_index` into a buffer of
    /// `p_data_size` bytes: the backend's answer on a decompressor given a
    /// buffer and a stream, 0 otherwise.
    pub fn decode_tile_data(&self, has_stream: bool, p_tile_index: u32, has_data: bool, p_data_size: u32) -> (step: Step)
        ensures
            step == decoder_step(self.m_codec, has_data && has_stream, (Request::DecodeTileData { tile_index: p_tile_index, data_size: p_data_size })),
    {
        match self.m_codec {
            Codec::Encoder(_) => (),
            Codec::Decoder(dec) => {
                if has_data && has_stream {
                    return Step::Forward(dec, (Request::DecodeTileData { tile_index: p_tile_index, data_size: p_data_size }));
                }
            },
        }
        Step::Done(0)
    }

    /// Decodes tile `tile_index` into an image: the backend's answer on a
    /// decompressor given a stream, 0 otherwise.
    pub fn get_decoded_tile(&self, has_stream: bool, tile_index: u32) -> (step: Step)
        ensures
            step == decoder_step(self.m_codec, has_stream, (Request::GetDecodedTile { tile_index: tile_index })),
    {
        match self.m_codec {
            Codec::Encoder(_) => (),
            Codec::Decoder(dec) => {
                if has_stream {
                    return Step::Forward(dec, (Request::GetDecodedTile { tile_index: tile_index }));
                }
            },
        }
        Step::Done(0)
    }

    /// Sets the resolution reduction to `res_factor`: the backend's answer on
    /// a decompressor, 0 on a compressor. The factor is not checked here.
    pub fn set_decoded_resolution_factor(&self, res_factor: u32) -> (step: Step)
        ensures
            step == decoder_step(self.m_codec, true, (Request::SetDecodedResolutionFactor { res_factor: res_factor })),
    {
        match self.m_codec {
            Codec::Encoder(_) => Step::Done(0),
            Codec::Decoder(dec) => Step::Forward(dec, (Request::SetDecodedResolutionFactor { res_factor: res_factor })),
        }
    }
}

// Requests that a compressor serves.
impl opj_codec_private {
    /// Sets up a compressor with encoding parameters for an image: the
    /// backend's answer on a compressor given both, 0 otherwise.
    pub fn setup_encoder(&self, has_parameters: bool, has_image: bool) -> (step: Step)
        ensures
            step == encoder_step(self.m_codec, has_parameters && has_image, Request::SetupEncoder),
    {
        match self.m_codec {
            Codec::Encoder(enc) => {
                if has_parameters && has_image {
                    return Step::Forward(enc, Request::SetupEncoder);
                }
            },
            Codec::Decoder(_) => (),
        }
        Step::Done(0)
    }

    /// Sets extra encoder options: the backend's answer on a compressor, 0
    /// on a decompressor.
    pub fn encoder_set_extra_options(&self) -> (step: Step)
        ensures
            step == encoder_step(self.m_codec, true, Request::EncoderSetExtraOptions),
    {
        match self.m_codec {
            Codec::Encoder(enc) => Step::Forward(enc, Request::EncoderSetExtraOptions),
            Codec::Decoder(_) => Step::Done(0),
        }
    }

    /// Starts compressing an image to a stream: the backend's answer on a
    /// compressor given a stream, 0 otherwise.
    pub fn start_compress(&self, has_stream: bool) -> (step: Step)
        ensures
            step == encoder_step(self.m_codec, has_stream, Request::StartCompress),
    {
        match self.m_codec {
            Codec::Encoder(enc) => {
                if has_stream {
                    return Step::Forward(enc, Request::StartCompress);
                }
            },
            Codec::Decoder(_) => (),
        }
        Step::Done(0)
    }

    /// Encodes the image: the backend's answer on a compressor given a
    /// stream, 0 otherwise.
    pub fn encode(&self, has_stream: bool) -> (step: Step)
        ensures
            step == encoder_step(self.m_codec, has_stream, Request::Encode),
    {
        match self.m_codec {
            Codec::Encoder(enc) => {
                if has_stream {
                    return Step::Forward(enc, Request::Encode);
                }
            },
            Codec::Decoder(_) => (),
        }
        Step::Done(0)
    }

    /// Ends compression: the backend's answer on a compressor given a
    /// stream, 0 otherwise.
    pub fn end_compress(&self, has_stream: bool) -> (step: Step)
        ensures
            step == encoder_step(self.m_codec, has_stream, Request::EndCompress),
    {
        match self.m_codec {
            Codec::Encoder(enc) => {
                if has_stream {
                    return Step::Forward(enc, Request::EndCompress);
                }
            },
            Codec::Decoder(_) => (),
        }
        Step::Done(0)
    }

    /// Writes the `p_data_size` bytes of tile `p_tile_index`: the backend's
    /// answer on a compressor given a stream and a buffer, 0 otherwise.
    pub fn write_tile(&self, p_tile_index: u32, has_data: bool, p_data_size: u32, has_stream: bool) -> (step: Step)
        ensures
            step == encoder_step(self.m_codec, has_stream && has_data, (Request::WriteTile { tile_index: p_tile_index, data_size: p_data_size })),
    {
        match self.m_codec {
            Codec::Encoder(enc) => {
                if has_stream && has_data {
                    return Step::Forward(enc, (Request::WriteTile { tile_index: p_tile_index, data_size: p_data_size }));
                }
            },
            Codec::Decoder(_) => (),
        }
        Step::Done(0)
    }
}

} // verus!
