//! Screen capture: starting and ending a capture, and making images of the
//! frames that it delivers.

use crate::text::joined;
use crate::text::push_signed;
use vstd::arithmetic::div_mod::lemma_fundamental_div_mod_converse;
use vstd::prelude::*;
use vstd::slice::slice_subrange;
use vstd::string::*;

verus! {

/// The kind of buffer that holds a frame.
pub const VIDEO_BUFFER: i32 = 0;

/// The system's numbers for the pixel formats that frames come in.
pub const RGBA_8888: i32 = 12;

pub const RGBX_8888: i32 = 11;

pub const BGRA_8888: i32 = 20;

pub const BGRX_8888: i32 = 19;

/// The largest frame that is taken, in bytes.
pub const MAX_FRAME_BYTES: usize = 268435456;

/// Why there is no capture.
#[derive(Debug)]
pub enum CaptureError {
    /// The system offers no capture.
    Unavailable,
    /// The size of the display is not known.
    DisplaySizeUnavailable,
    /// A call to the system failed with this code.
    Failed { operation: String, code: i32 },
}

impl CaptureError {
    /// The text of the error.
    pub open spec fn text(self) -> Seq<char> {
        match self {
            CaptureError::Unavailable => "OHOS AVScreenCapture is unavailable"@,
            CaptureError::DisplaySizeUnavailable => "OHOS display size is unavailable"@,
            CaptureError::Failed { operation, code } => "OHOS AVScreenCapture failed to "@
                + operation@ + ": "@ + crate::text::decimal(code as int),
        }
    }

    /// The text of the error.
    pub fn message(&self) -> (r: String)
        ensures
            r@ == self.text(),
    {
        match self {
            CaptureError::Unavailable => "OHOS AVScreenCapture is unavailable".to_owned(),
            CaptureError::DisplaySizeUnavailable => "OHOS display size is unavailable".to_owned(),
            CaptureError::Failed { operation, code } => {
                let mut text = joined("OHOS AVScreenCapture failed to ", operation.as_str());
                text.append(": ");
                push_signed(&mut text, *code as i64);
                text
            },
        }
    }
}

/// Takes the code with which the system answered a call: zero is success.
pub fn check(code: i32, operation: &str) -> (r: Result<(), CaptureError>)
    ensures
        r is Ok <==> code == 0,
        r is Err ==> is_failure(r->Err_0, operation@, code),
{
    if code != 0 {
        return Err(CaptureError::Failed { operation: operation.to_owned(), code });
    }
    Ok(())
}

/// What there is to know of a display that can be captured.
#[derive(Debug, PartialEq, Eq)]
pub struct SourceMetadata {
    pub id: u64,
    pub label: Option<String>,
    pub is_main: Option<bool>,
    pub width: i32,
    pub height: i32,
}

/// A display that can be captured.
#[derive(Clone, Copy, Debug, PartialEq, Eq, Structural)]
pub struct OhosScreenCaptureSource {
    pub width: i32,
    pub height: i32,
}

impl OhosScreenCaptureSource {
    /// Whether this is what there is to know of the display.
    pub open spec fn is_described_by(self, metadata: SourceMetadata) -> bool {
        &&& metadata.id == 0
        &&& metadata.label is Some && metadata.label->0@ == "OpenHarmony display"@
        &&& metadata.is_main == Some(true)
        &&& metadata.width == self.width
        &&& metadata.height == self.height
    }

    /// What there is to know of the display.
    pub fn metadata(&self) -> (r: SourceMetadata)
        ensures
            self.is_described_by(r),
            r.id == 0,
            r.label is Some && r.label->0@ == "OpenHarmony display"@,
            r.is_main == Some(true),
            r.width == self.width,
            r.height == self.height,
    {
        SourceMetadata {
            id: 0,
            label: Some("OpenHarmony display".to_owned()),
            is_main: Some(true),
            width: self.width,
            height: self.height,
        }
    }
}

/// The displays that can be captured.
pub open spec fn sources_of(width: i32, height: i32) -> Seq<OhosScreenCaptureSource> {
    if width > 0 && height > 0 {
        seq![OhosScreenCaptureSource { width, height }]
    } else {
        seq![]
    }
}

/// The displays that can be captured: the one display, where its size is known.
pub fn sources(width: i32, height: i32) -> (r: Result<Vec<OhosScreenCaptureSource>, CaptureError>)
    ensures
        r is Ok <==> width > 0 && height > 0,
        r is Ok ==> r->Ok_0@ == seq![OhosScreenCaptureSource { width, height }],
        r is Ok ==> r->Ok_0@ == sources_of(width, height),
        r is Err ==> sources_of(width, height).len() == 0,
        r is Err ==> r->Err_0 is DisplaySizeUnavailable,
{
    if width > 0 && height > 0 {
        let mut found: Vec<OhosScreenCaptureSource> = Vec::new();
        found.push(OhosScreenCaptureSource { width, height });
        assert(found@ =~= seq![OhosScreenCaptureSource { width, height }]);
        Ok(found)
    } else {
        Err(CaptureError::DisplaySizeUnavailable)
    }
}

/// How sound is captured.
#[derive(Clone, Copy, Debug, PartialEq, Eq, Structural)]
pub struct AudioCaptureInfo {
    pub sample_rate: i32,
    pub channels: i32,
    pub source: i32,
}

/// How a capture is set up.
#[derive(Clone, Copy, Debug, PartialEq, Eq, Structural)]
pub struct ScreenCaptureConfig {
    pub capture_mode: i32,
    pub data_type: i32,
    pub microphone: AudioCaptureInfo,
    pub internal: AudioCaptureInfo,
    pub audio_bitrate: i32,
    pub audio_format: i32,
    pub display_id: u64,
    pub mission_ids_len: i32,
    pub width: i32,
    pub height: i32,
    pub video_source: i32,
    pub video_format: i32,
    pub video_bitrate: i32,
    pub frame_rate: i32,
    pub recorder_url_len: u32,
    pub recorder_format: i32,
}

/// A capture of the home screen as a raw stream of frames without sound and
/// without a file.
pub open spec fn capture_config(width: i32, height: i32) -> ScreenCaptureConfig {
    ScreenCaptureConfig {
        capture_mode: 0,
        data_type: 0,
        microphone: AudioCaptureInfo { sample_rate: 0, channels: 0, source: -1i32 },
        internal: AudioCaptureInfo { sample_rate: 0, channels: 0, source: -1i32 },
        audio_bitrate: 0,
        audio_format: 0,
        display_id: 0,
        mission_ids_len: 0,
        width,
        height,
        video_source: 2,
        video_format: 0,
        video_bitrate: 0,
        frame_rate: 0,
        recorder_url_len: 0,
        recorder_format: 0,
    }
}

/// A call to the system that starts a capture.
#[derive(Clone, Copy, Debug, PartialEq, Eq, Structural)]
pub enum CaptureCall {
    Create,
    SetDataCallback,
    SetStateCallback,
    SetErrorCallback,
    Init(ScreenCaptureConfig),
    Start,
}

/// A call to the system that ends a capture.
#[derive(Clone, Copy, Debug, PartialEq, Eq, Structural)]
pub enum EndCall {
    Stop,
    Release,
}

/// The calls that start a capture, in their order.
pub open spec fn start_calls(width: i32, height: i32) -> Seq<CaptureCall> {
    seq![
        CaptureCall::Create,
        CaptureCall::SetDataCallback,
        CaptureCall::SetStateCallback,
        CaptureCall::SetErrorCallback,
        CaptureCall::Init(capture_config(width, height)),
        CaptureCall::Start,
    ]
}

/// Why a call failed, given the code with which the system answered it. Without
/// a capture object there is nothing that could have failed.
pub open spec fn failure_of(call: CaptureCall, code: i32, error: CaptureError) -> bool {
    match call {
        CaptureCall::Create => error is Unavailable,
        CaptureCall::SetDataCallback => is_failure(error, "register video callback"@, code),
        CaptureCall::SetStateCallback => is_failure(error, "register state callback"@, code),
        CaptureCall::SetErrorCallback => is_failure(error, "register error callback"@, code),
        CaptureCall::Init(_) => is_failure(error, "initialize capture"@, code),
        CaptureCall::Start => is_failure(error, "start capture"@, code),
    }
}

/// Whether an error says that an operation failed with a code.
pub open spec fn is_failure(error: CaptureError, purpose: Seq<char>, code: i32) -> bool {
    error matches CaptureError::Failed { operation: o, code: c } && o@ == purpose && c == code
}

fn checked(call: &CaptureCall, code: i32) -> (r: Result<(), CaptureError>)
    ensures
        r is Ok <==> code == 0,
        r is Err ==> failure_of(*call, code, r->Err_0),
{
    match call {
        CaptureCall::Create => if code == 0 {
            Ok(())
        } else {
            Err(CaptureError::Unavailable)
        },
        CaptureCall::SetDataCallback => check(code, "register video callback"),
        CaptureCall::SetStateCallback => check(code, "register state callback"),
        CaptureCall::SetErrorCallback => check(code, "register error callback"),
        CaptureCall::Init(_) => check(code, "initialize capture"),
        CaptureCall::Start => check(code, "start capture"),
    }
}

/// A capture on its way.
pub struct CaptureView {
    /// The display that is captured.
    pub source: SourceMetadata,
    /// How many of the calls that start the capture have succeeded.
    pub completed: nat,
    /// Whether one of them has failed.
    pub failed: bool,
}

impl CaptureView {
    /// A capture of a display, before any call to the system.
    pub open spec fn initial(source: SourceMetadata) -> CaptureView {
        CaptureView { source, completed: 0, failed: false }
    }

    /// No more calls have succeeded than there are, and all of them only where none
    /// has failed.
    pub open spec fn wf(self) -> bool {
        &&& self.completed <= 6
        &&& self.failed ==> self.completed < 6
    }

    /// Whether the capture runs.
    pub open spec fn started(self) -> bool {
        self.completed == 6
    }

    /// The calls that start this capture.
    pub open spec fn calls(self) -> Seq<CaptureCall> {
        start_calls(self.source.width, self.source.height)
    }

    /// The next call; none once the capture runs, and none after a failure.
    pub open spec fn next(self) -> Option<CaptureCall> {
        if self.started() || self.failed {
            None
        } else {
            Some(self.calls()[self.completed as int])
        }
    }

    /// The capture after the system answered the next call.
    pub open spec fn after(self, code: i32) -> CaptureView {
        if code == 0 {
            CaptureView { completed: self.completed + 1, ..self }
        } else {
            CaptureView { failed: true, ..self }
        }
    }
}

/// A capture on its way: how many of the calls that start it have succeeded, and
/// whether one has failed.
#[derive(Debug)]
pub struct OhosScreenCaptureStream {
    metadata: SourceMetadata,
    completed: usize,
    failed: bool,
}

impl View for OhosScreenCaptureStream {
    type V = CaptureView;

    closed spec fn view(&self) -> CaptureView {
        CaptureView {
            source: self.metadata,
            completed: self.completed as nat,
            failed: self.failed,
        }
    }
}

impl OhosScreenCaptureStream {
    /// A capture of a display, before any call to the system.
    pub fn new(metadata: SourceMetadata) -> (r: OhosScreenCaptureStream)
        ensures
            r@ == CaptureView::initial(metadata),
            r@.wf(),
    {
        OhosScreenCaptureStream { metadata, completed: 0, failed: false }
    }

    /// The display that is captured.
    pub fn metadata(&self) -> (r: &SourceMetadata)
        ensures
            *r == self@.source,
    {
        &self.metadata
    }

    /// Tells whether the capture runs.
    pub fn is_started(&self) -> (r: bool)
        ensures
            r == self@.started(),
    {
        self.completed == 6
    }

    /// The next call that starts the capture; `None` once it runs, and `None` after
    /// a failure.
    pub fn next_call(&self) -> (r: Option<CaptureCall>)
        requires
            self@.wf(),
        ensures
            r == self@.next(),
    {
        if self.failed {
            return None;
        }
        let quiet = AudioCaptureInfo { sample_rate: 0, channels: 0, source: -1 };
        match self.completed {
            0 => Some(CaptureCall::Create),
            1 => Some(CaptureCall::SetDataCallback),
            2 => Some(CaptureCall::SetStateCallback),
            3 => Some(CaptureCall::SetErrorCallback),
            4 => Some(
                CaptureCall::Init(
                    ScreenCaptureConfig {
                        capture_mode: 0,
                        data_type: 0,
                        microphone: quiet,
                        internal: quiet,
                        audio_bitrate: 0,
                        audio_format: 0,
                        display_id: 0,
                        mission_ids_len: 0,
                        width: self.metadata.width,
                        height: self.metadata.height,
                        video_source: 2,
                        video_format: 0,
                        video_bitrate: 0,
                        frame_rate: 0,
                        recorder_url_len: 0,
                        recorder_format: 0,
                    },
                ),
            ),
            5 => Some(CaptureCall::Start),
            _ => None,
        }
    }

    /// Takes the code with which the system answered the next call: zero is
    /// success. No capture object counts as a failure of the first call.
    pub fn answer(&mut self, code: i32) -> (r: Result<(), CaptureError>)
        requires
            old(self)@.wf(),
            old(self)@.next() is Some,
        ensures
            final(self)@ == old(self)@.after(code),
            final(self)@.wf(),
            r is Ok <==> code == 0,
            r is Err ==> failure_of(old(self)@.next()->0, code, r->Err_0),
    {
        match self.next_call() {
            Some(call) => {
                let result = checked(&call, code);
                if code == 0 {
                    self.completed = self.completed + 1;
                } else {
                    self.failed = true;
                }
                result
            },
            None => Ok(()),
        }
    }

    /// The calls that end the capture: nothing where there is none, and only a
    /// running one is stopped before it is released.
    pub fn end_calls(&self) -> (r: Vec<EndCall>)
        requires
            self@.wf(),
        ensures
            r@ == ends(self@.completed),
    {
        let mut calls: Vec<EndCall> = Vec::new();
        if self.completed == 6 {
            calls.push(EndCall::Stop);
        }
        if self.completed > 0 {
            calls.push(EndCall::Release);
        }
        assert(calls@ =~= ends(self@.completed));
        calls
    }
}

/// The calls that end a capture of which so many starting calls succeeded.
pub open spec fn ends(completed: nat) -> Seq<EndCall> {
    if completed == 0 {
        seq![]
    } else if completed < 6 {
        seq![EndCall::Release]
    } else {
        seq![EndCall::Stop, EndCall::Release]
    }
}

/// How many starting calls succeed, given the system's answers in turn: those
/// before the first failure.
pub open spec fn successes(codes: Seq<i32>) -> nat
    decreases codes.len(),
{
    if codes.len() == 0 || codes[0] != 0 {
        0
    } else {
        1 + successes(codes.skip(1))
    }
}

/// A capture after the system's answers in turn, as far as there is a call to
/// answer.
pub open spec fn after_answers(state: CaptureView, codes: Seq<i32>) -> CaptureView
    decreases codes.len(),
{
    if codes.len() == 0 || state.next() is None {
        state
    } else {
        after_answers(state.after(codes[0]), codes.skip(1))
    }
}

/// The calls that the system is asked for while it gives its answers in turn.
pub open spec fn asked(state: CaptureView, codes: Seq<i32>) -> Seq<CaptureCall>
    decreases codes.len(),
{
    if codes.len() == 0 || state.next() is None {
        seq![]
    } else {
        seq![state.next()->0] + asked(state.after(codes[0]), codes.skip(1))
    }
}

/// How many calls of a capture were asked for, given how far it came.
pub open spec fn count_asked(state: CaptureView) -> int {
    state.completed + if state.failed {
        1int
    } else {
        0int
    }
}

proof fn lemma_answers(state: CaptureView, codes: Seq<i32>)
    requires
        state.wf(),
        !state.failed,
    ensures
        ({
            let end = after_answers(state, codes);
            let good = state.completed + successes(codes);
            &&& end.wf()
            &&& end.source == state.source
            &&& end.completed == if good < 6 {
                good
            } else {
                6
            }
            &&& end.failed == (good < 6 && successes(codes) < codes.len())
            &&& asked(state, codes) == state.calls().subrange(
                state.completed as int,
                count_asked(end),
            )
        }),
    decreases codes.len(),
{
    let end = after_answers(state, codes);
    if codes.len() > 0 && state.next() is Some {
        let next = state.after(codes[0]);
        let rest = codes.skip(1);
        if codes[0] == 0 {
            lemma_answers(next, rest);
            assert(asked(state, codes) =~= state.calls().subrange(
                state.completed as int,
                count_asked(end),
            ));
        } else {
            assert(after_answers(next, rest) == next);
            assert(asked(next, rest) == Seq::<CaptureCall>::empty());
            assert(asked(state, codes) =~= state.calls().subrange(
                state.completed as int,
                count_asked(end),
            ));
        }
    } else {
        assert(asked(state, codes) =~= state.calls().subrange(
            state.completed as int,
            count_asked(end),
        ));
    }
}

/// Whatever the system answers, the calls are asked for in their order, as many as
/// succeed and the first that fails, and none after that. The capture runs exactly
/// where all of them succeed.
pub proof fn law_first_failure_ends_start(source: SourceMetadata, codes: Seq<i32>)
    ensures
        ({
            let end = after_answers(CaptureView::initial(source), codes);
            &&& end.completed == if successes(codes) < 6 {
                successes(codes)
            } else {
                6
            }
            &&& end.failed == (successes(codes) < 6 && successes(codes) < codes.len())
            &&& end.failed ==> end.next() is None
            &&& end.started() <==> successes(codes) >= 6
            &&& asked(CaptureView::initial(source), codes) == start_calls(
                source.width,
                source.height,
            ).take(count_asked(end))
        }),
{
    lemma_answers(CaptureView::initial(source), codes);
}

/// Whatever the system answers, a capture that came to be is released once, as
/// the last call; it is stopped once, before that, where every call that starts
/// it succeeded, and not at all otherwise.
pub proof fn law_every_capture_is_released_once(source: SourceMetadata, codes: Seq<i32>)
    ensures
        ({
            let end = ends(after_answers(CaptureView::initial(source), codes).completed);
            &&& end.len() > 0 <==> codes.len() > 0 && codes[0] == 0
            &&& end.len() > 0 ==> end.last() is Release
            &&& forall|i: int| 0 <= i < end.len() - 1 ==> #[trigger] end[i] is Stop
            &&& end.contains(EndCall::Stop) <==> codes.len() >= 6 && forall|i: int|
                0 <= i < 6 ==> codes[i] == 0
            &&& end.len() <= 2
        }),
{
    lemma_answers(CaptureView::initial(source), codes);
    lemma_successes(codes, 6);
    lemma_successes(codes, 1);
    let end = ends(after_answers(CaptureView::initial(source), codes).completed);
    if successes(codes) >= 6 {
        assert(end[0] is Stop);
    }
}

/// At least so many calls succeed exactly where the first so many answers are good.
proof fn lemma_successes(codes: Seq<i32>, n: nat)
    ensures
        successes(codes) <= codes.len(),
        successes(codes) >= n <==> codes.len() >= n && forall|i: int|
            0 <= i < n ==> codes[i] == 0,
    decreases codes.len(),
{
    if codes.len() > 0 && codes[0] == 0 && n > 0 {
        let rest = codes.skip(1);
        lemma_successes(rest, (n - 1) as nat);
        if successes(codes) >= n {
            assert forall|i: int| 0 <= i < n implies codes[i] == 0 by {
                if i > 0 {
                    assert(rest[i - 1] == codes[i]);
                }
            }
        }
    } else if codes.len() > 0 && codes[0] == 0 {
        lemma_successes(codes.skip(1), 0);
    }
}

/// Whether a buffer of the system is a frame to look at.
pub open spec fn is_frame(buffer_type: i32, has_buffer: bool, has_receiver: bool) -> bool {
    buffer_type == VIDEO_BUFFER && has_buffer && has_receiver
}

/// Tells whether a buffer of the system is a frame to look at.
pub fn is_video_buffer(buffer_type: i32, has_buffer: bool, has_receiver: bool) -> (r: bool)
    ensures
        r == (buffer_type == VIDEO_BUFFER && has_buffer && has_receiver),
        r == is_frame(buffer_type, has_buffer, has_receiver),
{
    buffer_type == VIDEO_BUFFER && has_buffer && has_receiver
}

/// The size and format of a frame as the system reports them.
#[derive(Clone, Copy, Debug, PartialEq, Eq, Structural)]
pub struct NativeBufferConfig {
    pub width: i32,
    pub height: i32,
    pub format: i32,
    /// The distance from one row to the next, in bytes.
    pub stride: i32,
}

/// A frame that can be read.
#[derive(Clone, Copy, Debug, PartialEq, Eq, Structural)]
pub struct FrameLayout {
    /// In pixels.
    pub width: u32,
    pub height: u32,
    /// In bytes.
    pub stride: usize,
    pub row_bytes: usize,
    pub frame_bytes: usize,
    /// Whether blue comes first.
    pub blue_first: bool,
    /// Whether the fourth byte of a pixel means nothing.
    pub opaque: bool,
}

/// Why a frame is not read.
#[derive(Clone, Copy, Debug, PartialEq, Eq, Structural)]
pub enum FrameRefusal {
    /// The frame is empty or too large, or its rows overlap.
    BadSize,
    UnsupportedFormat,
}

impl NativeBufferConfig {
    /// Whether the size of the frame makes sense.
    pub open spec fn size_is_good(self) -> bool {
        &&& self.width > 0
        &&& self.height > 0
        &&& self.stride >= 4 * self.width
        &&& 4 * self.width * self.height <= MAX_FRAME_BYTES
    }

    /// Whether the frame comes in a format that can be read.
    pub open spec fn format_is_good(self) -> bool {
        ||| self.format == RGBA_8888
        ||| self.format == RGBX_8888
        ||| self.format == BGRA_8888
        ||| self.format == BGRX_8888
    }

    /// How the frame is laid out.
    pub open spec fn layout(self) -> FrameLayout {
        FrameLayout {
            width: self.width as u32,
            height: self.height as u32,
            stride: self.stride as usize,
            row_bytes: (4 * self.width) as usize,
            frame_bytes: (4 * self.width * self.height) as usize,
            blue_first: self.format == BGRA_8888 || self.format == BGRX_8888,
            opaque: self.format == RGBX_8888 || self.format == BGRX_8888,
        }
    }
}

/// Reads how a frame is laid out.
pub fn frame_layout(config: &NativeBufferConfig) -> (r: Result<FrameLayout, FrameRefusal>)
    ensures
        r is Ok <==> config.size_is_good() && config.format_is_good(),
        r is Ok ==> r->Ok_0 == config.layout() && r->Ok_0.wf(),
        r is Err ==> (r->Err_0 is BadSize <==> !config.size_is_good()),
{
    if config.width < 0 || config.height < 0 || config.stride < 0 {
        return Err(FrameRefusal::BadSize);
    }
    let width: usize = config.width as usize;
    let height: usize = config.height as usize;
    let stride: usize = config.stride as usize;
    let row_bytes: usize = match width.checked_mul(4) {
        Some(row_bytes) => row_bytes,
        None => {
            return Err(FrameRefusal::BadSize);
        },
    };
    let frame_bytes: usize = match row_bytes.checked_mul(height) {
        Some(frame_bytes) => frame_bytes,
        None => {
            assert(row_bytes * height > usize::MAX);
            return Err(FrameRefusal::BadSize);
        },
    };
    assert(frame_bytes == 4 * config.width * config.height);
    if width == 0 || height == 0 || stride < row_bytes || frame_bytes > MAX_FRAME_BYTES {
        return Err(FrameRefusal::BadSize);
    }
    let format: i32 = config.format;
    if !(format == RGBA_8888 || format == RGBX_8888 || format == BGRA_8888 || format == BGRX_8888) {
        return Err(FrameRefusal::UnsupportedFormat);
    }
    Ok(
        FrameLayout {
            width: config.width as u32,
            height: config.height as u32,
            stride,
            row_bytes,
            frame_bytes,
            blue_first: format == BGRA_8888 || format == BGRX_8888,
            opaque: format == RGBX_8888 || format == BGRX_8888,
        },
    )
}

impl FrameLayout {
    /// The lengths fit together.
    pub open spec fn wf(self) -> bool {
        &&& self.width > 0
        &&& self.height > 0
        &&& self.row_bytes == 4 * self.width
        &&& self.frame_bytes == self.row_bytes * self.height
        &&& self.stride >= self.row_bytes
        &&& self.frame_bytes <= MAX_FRAME_BYTES
    }

    /// How many bytes the rows take up where they lie in memory.
    pub open spec fn mapped_bytes(self) -> int {
        (self.height - 1) * self.stride + self.row_bytes
    }

    /// The rows of a frame one behind the other.
    pub open spec fn rows(self, mapped: Seq<u8>) -> Seq<u8> {
        Seq::new(
            self.frame_bytes as nat,
            |i: int|
                mapped[(i / self.row_bytes as int) * self.stride + i % self.row_bytes as int],
        )
    }

    /// The byte of an RGBA image that stands at an index: red and blue change
    /// places where blue comes first, and a fourth byte that means nothing
    /// becomes full opacity.
    pub open spec fn rgba_byte(self, bytes: Seq<u8>, i: int) -> u8 {
        if i % 4 == 3 && self.opaque {
            255
        } else if i % 4 == 0 && self.blue_first {
            bytes[i + 2]
        } else if i % 4 == 2 && self.blue_first {
            bytes[i - 2]
        } else {
            bytes[i]
        }
    }

    /// The bytes of an RGBA image made of the bytes of a frame.
    pub open spec fn rgba(self, bytes: Seq<u8>) -> Seq<u8> {
        Seq::new(bytes.len(), |i: int| self.rgba_byte(bytes, i))
    }
}

impl FrameLayout {
    /// How many bytes the rows take up where they lie in memory; `None` where that
    /// is more than memory can hold.
    pub fn mapped_len(&self) -> (r: Option<usize>)
        requires
            self.wf(),
        ensures
            r is Some <==> self.mapped_bytes() <= usize::MAX,
            r is Some ==> r->0 == self.mapped_bytes(),
    {
        assert(0 <= (self.height - 1) * self.stride) by (nonlinear_arith)
            requires
                self.height > 0,
        ;
        match (self.height as usize - 1).checked_mul(self.stride) {
            Some(before_last) => before_last.checked_add(self.row_bytes),
            None => None,
        }
    }
}

/// Copies the rows of a frame out of the memory where they lie.
pub fn copy_rows(layout: &FrameLayout, mapped: &[u8]) -> (r: Vec<u8>)
    requires
        layout.wf(),
        mapped@.len() >= layout.mapped_bytes(),
    ensures
        r@ == layout.rows(mapped@),
{
    let mut pixels: Vec<u8> = Vec::with_capacity(layout.frame_bytes);
    let mut row: usize = 0;
    let height: usize = layout.height as usize;
    let available: usize = mapped.len();
    while row < height
        invariant
            layout.wf(),
            height == layout.height,
            available == mapped@.len(),
            mapped@.len() >= layout.mapped_bytes(),
            row <= height,
            pixels@.len() == row * layout.row_bytes,
            forall|i: int|
                0 <= i < pixels@.len() ==> #[trigger] pixels@[i] == layout.rows(mapped@)[i],
        decreases height - row,
    {
        assert(row * layout.stride + layout.row_bytes <= mapped@.len()) by (nonlinear_arith)
            requires
                row + 1 <= layout.height,
                mapped@.len() >= (layout.height - 1) * layout.stride + layout.row_bytes,
        ;
        assert((row + 1) * layout.row_bytes <= layout.frame_bytes) by (nonlinear_arith)
            requires
                row + 1 <= layout.height,
                layout.frame_bytes == layout.row_bytes * layout.height,
        ;
        assert((row + 1) * layout.row_bytes == row * layout.row_bytes + layout.row_bytes)
            by (nonlinear_arith);
        assert(0 <= row * layout.stride) by (nonlinear_arith);
        let start: usize = row * layout.stride;
        let ghost before = pixels@;
        let source = slice_subrange(mapped, start, start + layout.row_bytes);
        pixels.extend_from_slice(source);
        proof {
            assert forall|i: int| 0 <= i < pixels@.len() implies #[trigger] pixels@[i]
                == layout.rows(mapped@)[i] by {
                if i < before.len() {
                    assert(pixels@[i] == before[i]);
                } else {
                    let j = i - before.len();
                    assert(cloned::<u8>(source@[j], pixels@[i]));
                    lemma_fundamental_div_mod_converse(
                        i,
                        layout.row_bytes as int,
                        row as int,
                        j,
                    );
                }
            }
        }
        row = row + 1;
    }
    proof {
        assert(height * layout.row_bytes == layout.frame_bytes) by (nonlinear_arith)
            requires
                height == layout.height,
                layout.frame_bytes == layout.row_bytes * layout.height,
        ;
        assert(pixels@ =~= layout.rows(mapped@));
    }
    pixels
}

/// Makes the bytes of a frame those of an RGBA image.
pub fn convert_pixels(layout: &FrameLayout, pixels: &mut Vec<u8>)
    requires
        old(pixels)@.len() % 4 == 0,
    ensures
        final(pixels)@ == layout.rgba(old(pixels)@),
{
    let ghost bytes = pixels@;
    let len: usize = pixels.len();
    let mut at: usize = 0;
    while at < len
        invariant
            len == bytes.len(),
            pixels@.len() == len,
            len % 4 == 0,
            at <= len,
            at % 4 == 0,
            forall|i: int| 0 <= i < at ==> #[trigger] pixels@[i] == layout.rgba_byte(bytes, i),
            forall|i: int| at <= i < len ==> #[trigger] pixels@[i] == bytes[i],
        decreases len - at,
    {
        assert(at + 4 <= len);
        if layout.blue_first {
            let first: u8 = pixels[at];
            let third: u8 = pixels[at + 2];
            pixels.set(at, third);
            pixels.set(at + 2, first);
        }
        if layout.opaque {
            pixels.set(at + 3, 255);
        }
        at = at + 4;
    }
    assert(pixels@ =~= layout.rgba(bytes));
}

/// A captured frame: an RGBA image of one byte per channel.
#[verifier::external_body]
#[derive(Debug)]
pub struct ScreenCaptureFrame {
    image: image::RgbaImage,
}

/// How many pixels a row of a frame has.
pub uninterp spec fn frame_width(frame: ScreenCaptureFrame) -> u32;

/// How many rows a frame has.
pub uninterp spec fn frame_height(frame: ScreenCaptureFrame) -> u32;

/// The bytes of a frame, four to a pixel, row by row.
pub uninterp spec fn frame_bytes(frame: ScreenCaptureFrame) -> Seq<u8>;

/// Calls `image::ImageBuffer::from_raw` for RGBA pixels of one byte per channel.
/// It gives an image of that width and height that holds the bytes as they are,
/// or nothing where there are fewer than four per pixel or where the bytes of a
/// row are more than a `usize` counts.
#[verifier::external_body]
fn image_from_raw(width: u32, height: u32, pixels: Vec<u8>) -> (r: Option<ScreenCaptureFrame>)
    ensures
        r is Some <==> (4 * width <= usize::MAX && 4 * width * height <= pixels@.len()),
        r is Some ==> frame_width(r->0) == width,
        r is Some ==> frame_height(r->0) == height,
        r is Some ==> frame_bytes(r->0) == pixels@,
{
    image::RgbaImage::from_raw(width, height, pixels).map(|image| ScreenCaptureFrame { image })
}

/// Calls `image::ImageBuffer::width`, which gives the width that the image was
/// made with.
#[verifier::external_body]
fn image_width(frame: &ScreenCaptureFrame) -> (r: u32)
    ensures
        r == frame_width(*frame),
{
    frame.image.width()
}

/// Calls `image::ImageBuffer::height`, which gives the height that the image was
/// made with.
#[verifier::external_body]
fn image_height(frame: &ScreenCaptureFrame) -> (r: u32)
    ensures
        r == frame_height(*frame),
{
    frame.image.height()
}

/// Calls `image::ImageBuffer::into_raw`, which gives back the bytes that the image
/// holds.
#[verifier::external_body]
fn image_into_raw(frame: ScreenCaptureFrame) -> (r: Vec<u8>)
    ensures
        r@ == frame_bytes(frame),
{
    frame.image.into_raw()
}

impl ScreenCaptureFrame {
    /// How many pixels a row of the frame has.
    pub fn width(&self) -> (r: u32)
        ensures
            r == frame_width(*self),
    {
        image_width(self)
    }

    /// How many rows the frame has.
    pub fn height(&self) -> (r: u32)
        ensures
            r == frame_height(*self),
    {
        image_height(self)
    }

    /// The bytes of the frame, four to a pixel, row by row.
    pub fn into_bytes(self) -> (r: Vec<u8>)
        ensures
            r@ == frame_bytes(self),
    {
        image_into_raw(self)
    }
}

/// Makes an image of the copied rows of a frame, unless the memory that they came
/// from could not be given back.
pub fn finish_frame(layout: &FrameLayout, rows: Vec<u8>, unmap_code: i32) -> (r: Option<
    ScreenCaptureFrame,
>)
    requires
        layout.wf(),
        rows@.len() == layout.frame_bytes,
    ensures
        r is Some <==> unmap_code == 0,
        r is Some ==> frame_width(r->0) == layout.width,
        r is Some ==> frame_height(r->0) == layout.height,
        r is Some ==> frame_bytes(r->0) == layout.rgba(rows@),
{
    if unmap_code != 0 {
        return None;
    }
    proof {
        lemma_frame_is_whole_pixels(*layout);
    }
    let mut pixels = rows;
    convert_pixels(layout, &mut pixels);
    image_from_raw(layout.width, layout.height, pixels)
}

proof fn lemma_frame_is_whole_pixels(layout: FrameLayout)
    requires
        layout.wf(),
    ensures
        layout.frame_bytes == 4 * layout.width * layout.height,
        layout.frame_bytes % 4 == 0,
{
    assert(layout.frame_bytes == 4 * (layout.width * layout.height)) by (nonlinear_arith)
        requires
            layout.frame_bytes == layout.row_bytes * layout.height,
            layout.row_bytes == 4 * layout.width,
    ;
    assert(4 * layout.width * layout.height == 4 * (layout.width * layout.height))
        by (nonlinear_arith);
}

/// Makes an image of a frame that lies in memory; `None` where the frame is not
/// one that can be read. `unmap_code` is what the system says to the memory being
/// given back.
pub fn copy_frame(config: &NativeBufferConfig, mapped: &[u8], unmap_code: i32) -> (r: Option<
    ScreenCaptureFrame,
>)
    requires
        config.size_is_good() && config.format_is_good() ==> mapped@.len()
            >= config.layout().mapped_bytes(),
    ensures
        r is Some <==> config.size_is_good() && config.format_is_good() && unmap_code == 0,
        r is Some ==> frame_width(r->0) == config.width,
        r is Some ==> frame_height(r->0) == config.height,
        r is Some ==> frame_bytes(r->0) == config.layout().rgba(config.layout().rows(mapped@)),
{
    match frame_layout(config) {
        Ok(layout) => {
            let rows = copy_rows(&layout, mapped);
            finish_frame(&layout, rows, unmap_code)
        },
        Err(_) => None,
    }
}

/// The byte of channel `k` of the pixel in row `y` and column `x` of an image
/// comes from the same pixel of the frame: red and blue from each other's place
/// where blue comes first, and full opacity where the fourth byte means nothing.
pub proof fn law_pixels_stay_in_place(layout: FrameLayout, mapped: Seq<u8>, x: int, y: int, k: int)
    requires
        layout.wf(),
        0 <= x < layout.width,
        0 <= y < layout.height,
        0 <= k < 4,
    ensures
        0 <= 4 * (y * layout.width + x) + k < layout.frame_bytes,
        layout.rgba(layout.rows(mapped))[4 * (y * layout.width + x) + k] == if k == 3
            && layout.opaque {
            255
        } else {
            mapped[y * layout.stride + 4 * x + if layout.blue_first && k == 0 {
                2
            } else if layout.blue_first && k == 2 {
                0
            } else {
                k
            }]
        },
{
    let width = layout.width as int;
    let row_bytes = layout.row_bytes as int;
    let i = 4 * (y * width + x) + k;
    let source = if layout.blue_first && k == 0 {
        2
    } else if layout.blue_first && k == 2 {
        0
    } else {
        k
    };
    let from = 4 * (y * width + x) + source;
    assert(4 * (y * width + x) == y * row_bytes + 4 * x) by (nonlinear_arith)
        requires
            row_bytes == 4 * width,
    ;
    assert(0 <= y * row_bytes) by (nonlinear_arith)
        requires
            0 <= y,
            0 <= row_bytes,
    ;
    assert(y * row_bytes + row_bytes <= layout.frame_bytes) by (nonlinear_arith)
        requires
            y + 1 <= layout.height,
            row_bytes == layout.row_bytes,
            layout.frame_bytes == layout.row_bytes * layout.height,
    ;
    lemma_fundamental_div_mod_converse(from, row_bytes, y, 4 * x + source);
    assert(layout.rows(mapped)[from] == mapped[y * layout.stride + (4 * x + source)]);
    assert(i % 4 == k);
}

/// The image of a frame of a good size has the frame's size: four bytes for each
/// of its pixels.
pub proof fn law_image_has_frame_size(config: NativeBufferConfig, mapped: Seq<u8>)
    requires
        config.size_is_good(),
    ensures
        config.layout().wf(),
        config.layout().width == config.width,
        config.layout().height == config.height,
        config.layout().rgba(config.layout().rows(mapped)).len() == 4 * config.width
            * config.height,
{
    assert(4 * config.width * config.height == (4 * config.width) * config.height)
        by (nonlinear_arith);
    assert(0 <= 4 * config.width * config.height) by (nonlinear_arith)
        requires
            config.width > 0,
            config.height > 0,
    ;
    assert(4 * config.width <= 4 * config.width * config.height) by (nonlinear_arith)
        requires
            config.width > 0,
            config.height > 0,
    ;
}

/// An image of a format without opacity is opaque throughout.
pub proof fn law_formats_without_opacity_are_opaque(layout: FrameLayout, bytes: Seq<u8>, i: int)
    requires
        layout.opaque,
        0 <= i < bytes.len(),
        i % 4 == 3,
    ensures
        layout.rgba(bytes)[i] == 255,
{
}

/// A capture asks for its calls in this order, one after each success: first for the
/// capture itself, then for the three callbacks, and it is set up before it starts.
pub proof fn law_calls_come_in_order(state: CaptureView)
    requires
        state.wf(),
        !state.failed,
    ensures
        state.completed == 0 ==> state.next() == Some(CaptureCall::Create),
        state.completed == 1 ==> state.next() == Some(CaptureCall::SetDataCallback),
        state.completed == 2 ==> state.next() == Some(CaptureCall::SetStateCallback),
        state.completed == 3 ==> state.next() == Some(CaptureCall::SetErrorCallback),
        state.completed == 4 ==> state.next() is Some && state.next()->0 is Init,
        state.completed == 5 ==> state.next() == Some(CaptureCall::Start),
        state.completed == 6 ==> state.next() is None,
{
}

/// A capture is set up for the whole display, at the size of its source, as frames
/// only: with no sound and no file.
pub proof fn law_capture_is_video_of_source(state: CaptureView)
    requires
        state.completed == 4,
        !state.failed,
    ensures
        state.next() matches Some(CaptureCall::Init(config)) && {
            &&& config.width == state.source.width
            &&& config.height == state.source.height
            &&& config.capture_mode == 0
            &&& config.data_type == 0
            &&& config.display_id == 0
            &&& config.mission_ids_len == 0
            &&& config.video_source == 2
            &&& config.video_format == 0
            &&& config.video_bitrate == 0
            &&& config.frame_rate == 0
            &&& config.microphone.source == -1 && config.internal.source == -1
            &&& config.microphone.channels == 0 && config.internal.channels == 0
            &&& config.microphone.sample_rate == 0 && config.internal.sample_rate == 0
            &&& config.audio_bitrate == 0
            &&& config.audio_format == 0
            &&& config.recorder_url_len == 0
            &&& config.recorder_format == 0
        },
{
}

/// A call that fails is told by its purpose and by the code with which the system
/// answered; without a capture object there is no code to tell.
pub proof fn law_failed_call_is_told(call: CaptureCall, code: i32, error: CaptureError)
    requires
        failure_of(call, code, error),
    ensures
        call is Create <==> error.text() == "OHOS AVScreenCapture is unavailable"@ && error
            is Unavailable,
        !(call is Create) ==> ({
            let purpose = match call {
                CaptureCall::SetDataCallback => "register video callback"@,
                CaptureCall::SetStateCallback => "register state callback"@,
                CaptureCall::SetErrorCallback => "register error callback"@,
                CaptureCall::Init(_) => "initialize capture"@,
                _ => "start capture"@,
            };
            &&& error matches CaptureError::Failed { operation, code: c } && operation@ == purpose
                && c == code
            &&& error.text() == "OHOS AVScreenCapture failed to "@ + purpose + ": "@
                + crate::text::decimal(code as int)
        }),
{
}

/// A frame can be read where it has pixels, where its rows do not overlap and where
/// it takes up no more than 256 MiB.
pub proof fn law_readable_sizes(config: NativeBufferConfig)
    ensures
        config.size_is_good() <==> config.width >= 1 && config.height >= 1 && config.stride >= 4
            * config.width && (4 * config.width) * config.height <= 256 * 1024 * 1024,
{
    assert(4 * config.width * config.height == (4 * config.width) * config.height)
        by (nonlinear_arith);
}

/// Frames can be read in four formats, by the system's numbers for them: red first
/// with opacity (12) and without (11), blue first with opacity (20) and without (19).
pub proof fn law_readable_formats(config: NativeBufferConfig)
    ensures
        config.format_is_good() <==> config.format == 11 || config.format == 12 || config.format
            == 19 || config.format == 20,
        config.layout().blue_first <==> config.format == 19 || config.format == 20,
        config.layout().opaque <==> config.format == 11 || config.format == 19,
{
}

/// The channels of the pixel in row `y` and column `x` of the image of a frame, by the
/// format of the frame: red and blue are the first and the third byte of the frame's
/// pixel or the other way round, green is the second, and the opacity is the fourth or
/// full.
pub proof fn law_channels_of_pixel(config: NativeBufferConfig, mapped: Seq<u8>, x: int, y: int)
    requires
        config.size_is_good(),
        config.format_is_good(),
        0 <= x < config.width,
        0 <= y < config.height,
    ensures
        ({
            let image = config.layout().rgba(config.layout().rows(mapped));
            let to = 4 * (y * config.width + x);
            let from = y * config.stride + 4 * x;
            &&& image.len() == 4 * config.width * config.height
            &&& 0 <= to && to + 3 < image.len()
            &&& config.format == 11 || config.format == 12 ==> image[to] == mapped[from] && image[to
                + 2] == mapped[from + 2]
            &&& config.format == 19 || config.format == 20 ==> image[to] == mapped[from + 2]
                && image[to + 2] == mapped[from]
            &&& image[to + 1] == mapped[from + 1]
            &&& config.format == 12 || config.format == 20 ==> image[to + 3] == mapped[from + 3]
            &&& config.format == 11 || config.format == 19 ==> image[to + 3] == 255
        }),
{
    law_image_has_frame_size(config, mapped);
    let layout = config.layout();
    law_pixels_stay_in_place(layout, mapped, x, y, 0);
    law_pixels_stay_in_place(layout, mapped, x, y, 1);
    law_pixels_stay_in_place(layout, mapped, x, y, 2);
    law_pixels_stay_in_place(layout, mapped, x, y, 3);
}

/// The memory of a frame reaches to the last byte of its last row and no further, so
/// that every byte of the frame lies in it.
pub proof fn law_memory_holds_every_pixel(layout: FrameLayout, x: int, y: int, k: int)
    requires
        layout.wf(),
        0 <= x < layout.width,
        0 <= y < layout.height,
        0 <= k < 4,
    ensures
        0 <= y * layout.stride + 4 * x + k < layout.mapped_bytes(),
        x == layout.width - 1 && y == layout.height - 1 && k == 3 ==> y * layout.stride + 4 * x + k
            == layout.mapped_bytes() - 1,
{
    let stride = layout.stride as int;
    let last = layout.height - 1;
    assert(0 <= y * stride <= last * stride) by (nonlinear_arith)
        requires
            0 <= y <= last,
            0 <= stride,
    ;
}

/// There is one display to capture, or none where its size is not known, and a capture
/// of it is set up at just that size, once the calls before succeeded.
pub proof fn law_display_is_captured_at_its_size(
    width: i32,
    height: i32,
    metadata: SourceMetadata,
    codes: Seq<i32>,
)
    requires
        codes.len() == 4,
        forall|i: int| 0 <= i < codes.len() ==> codes[i] == 0,
    ensures
        sources_of(width, height).len() == if width >= 1 && height >= 1 {
            1nat
        } else {
            0nat
        },
        sources_of(width, height).len() == 1 && sources_of(width, height)[0].is_described_by(
            metadata,
        ) ==> ({
            let state = after_answers(CaptureView::initial(metadata), codes);
            &&& metadata.width == width
            &&& metadata.height == height
            &&& metadata.is_main == Some(true)
            &&& metadata.id == 0
            &&& metadata.label is Some && metadata.label->0@ == "OpenHarmony display"@
            &&& state.next() matches Some(CaptureCall::Init(config)) && config.width == width
                && config.height == height
        }),
{
    lemma_answers(CaptureView::initial(metadata), codes);
    lemma_successes(codes, 4);
}

/// Only a video buffer that is there, with someone to take it, is a frame: by the
/// system's number for them, which is zero.
pub proof fn law_only_video_buffers_are_frames(
    buffer_type: i32,
    has_buffer: bool,
    has_receiver: bool,
)
    ensures
        !is_frame(buffer_type, has_buffer, has_receiver) <==> buffer_type != 0 || !has_buffer
            || !has_receiver,
{
}

} // verus!
