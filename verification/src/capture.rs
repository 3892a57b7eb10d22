//! The region-capture decision core. Two platform paths exist: an external
//! interactive screenshot tool that saves to a file, and a system snipping UI
//! followed by polling the clipboard for an image. Every subprocess, file
//! and clipboard access happens in the embedding; the embedding records what
//! it observed as a [`CaptureTrace`] and this module decides the outcome,
//! including base64 and PNG encoding of the captured bytes.
//!
//! Polling policy, chosen and fixed here: a transient clipboard access error
//! observed while polling counts as "no image yet" and is retried; the
//! deadline is the only hard stop, and reaching it yields
//! [`CaptureError::ClipboardTimeout`]. A clipboard that cannot be opened at
//! all, before any polling, is reported by the embedding as
//! [`CaptureError::ClipboardError`].

use vstd::prelude::*;
use vstd::string::*;

use base64::Engine;

use crate::text::{chars_of_str, push_str_chars, string_from_chars, trim_chars, trim_spec};

verus! {

/// The default clipboard-poll deadline, in milliseconds.
pub const DEFAULT_POLL_DEADLINE_MS: u64 = 25000;

/// The pause between two clipboard polls, in milliseconds.
pub const POLL_INTERVAL_MS: u64 = 250;

/// Why a region capture failed.
#[derive(Debug, Clone)]
pub enum CaptureError {
    /// The platform's interactive screenshot tool could not be launched.
    ToolNotFound,
    /// The tool ran but exited with a failure status; carries its output.
    ToolFailed(String),
    /// The tool's output file could not be read back.
    ReadFailed(String),
    /// Neither mechanism for opening the system snipping UI worked.
    SnipOpenFailed,
    /// The deadline passed with no valid image on the clipboard.
    ClipboardTimeout,
    /// The clipboard could not be opened at all.
    ClipboardError(String),
    /// The clipboard image could not be encoded as PNG.
    PngEncodeError(String),
    /// No capture mechanism exists for the running platform.
    NotSupported,
}

pub open spec fn capture_error_message_spec(e: CaptureError) -> Seq<char> {
    match e {
        CaptureError::ToolNotFound => "Spectacle not found (Linux/KDE). Install 'spectacle'."@,
        CaptureError::ToolFailed(m) => "Spectacle failed: "@ + m@,
        CaptureError::ReadFailed(m) => "Failed to read screenshot file: "@ + m@,
        CaptureError::SnipOpenFailed => "Windows: failed to open snipping UI"@,
        CaptureError::ClipboardTimeout => "Windows: no image found in clipboard (timeout)"@,
        CaptureError::ClipboardError(m) => "Windows: clipboard error: "@ + m@,
        CaptureError::PngEncodeError(m) => "Windows: failed to encode PNG: "@ + m@,
        CaptureError::NotSupported => "This OS is not supported yet"@,
    }
}

impl CaptureError {
    /// The human-readable rendering handed to the interface boundary.
    pub fn message(&self) -> (r: String)
        ensures
            r@ == capture_error_message_spec(*self),
    {
        match self {
            CaptureError::ToolNotFound => String::from_str(
                "Spectacle not found (Linux/KDE). Install 'spectacle'.",
            ),
            CaptureError::ToolFailed(m) => prefixed_message("Spectacle failed: ", m),
            CaptureError::ReadFailed(m) => prefixed_message("Failed to read screenshot file: ", m),
            CaptureError::SnipOpenFailed => String::from_str("Windows: failed to open snipping UI"),
            CaptureError::ClipboardTimeout => String::from_str(
                "Windows: no image found in clipboard (timeout)",
            ),
            CaptureError::ClipboardError(m) => prefixed_message("Windows: clipboard error: ", m),
            CaptureError::PngEncodeError(m) => prefixed_message(
                "Windows: failed to encode PNG: ",
                m,
            ),
            CaptureError::NotSupported => String::from_str("This OS is not supported yet"),
        }
    }
}

fn prefixed_message(prefix: &str, detail: &String) -> (r: String)
    ensures
        r@ == prefix@ + detail@,
{
    let mut v: Vec<char> = Vec::new();
    push_str_chars(&mut v, prefix);
    push_str_chars(&mut v, detail.as_str());
    string_from_chars(&v)
}

/// What the external screenshot tool path observed.
#[derive(Debug, Clone)]
pub enum FileOutcome {
    /// The saved file's bytes.
    Read(Vec<u8>),
    /// The file could not be read; carries the I/O error's description.
    Error(String),
}

/// The run of the external interactive screenshot tool.
#[derive(Debug, Clone)]
pub enum ToolTrace {
    /// The tool binary could not be located or launched.
    LaunchFailed,
    /// The tool exited with a failure status.
    Failed { stdout: String, stderr: String },
    /// The tool exited successfully and was asked to save a file.
    Saved { file: FileOutcome },
}

/// One clipboard poll as the embedding observed it.
#[derive(Debug, Clone)]
pub enum PollEvent {
    /// The clipboard held no image.
    NoImage,
    /// Reading the clipboard failed transiently; retried per the documented
    /// policy.
    AccessError(String),
    /// The clipboard held an image: dimensions and the 8-bit RGBA pixels.
    Image { width: u32, height: u32, rgba: Vec<u8> },
}

/// The snipping-UI path as the embedding observed it.
#[derive(Debug, Clone)]
pub enum SnipTrace {
    /// Both the primary and the fallback launch mechanism failed.
    OpenFailed,
    /// The UI opened; these polls were observed, in order, up to the
    /// deadline or to the first valid image.
    Polled { polls: Vec<PollEvent> },
}

/// Everything the embedding observed during one capture attempt.
#[derive(Debug, Clone)]
pub enum CaptureTrace {
    /// The running platform has no capture mechanism; nothing was attempted.
    Unsupported,
    /// The external-tool path ran.
    Tool(ToolTrace),
    /// The snipping-UI path ran.
    Snip(SnipTrace),
}

/// The base64 text of these bytes. A pure function of the input.
pub uninterp spec fn base64_of(bytes: Seq<u8>) -> Seq<char>;

/// Relies on the standard-alphabet padded engine of the base64 crate: the
/// base64 text of the input bytes, a function of the input alone.
#[verifier::external_body]
fn base64_encode(bytes: &Vec<u8>) -> (r: String)
    ensures
        r@ == base64_of(bytes@),
{
    base64::engine::general_purpose::STANDARD.encode(bytes)
}

/// The PNG encoding of an 8-bit RGBA buffer with the given dimensions, or
/// the encoder's error text. A pure function of the arguments.
pub uninterp spec fn png_encoding(width: u32, height: u32, rgba: Seq<u8>) -> Result<
    Seq<u8>,
    Seq<char>,
>;

/// Relies on `PngEncoder::write_image` of the image crate, with 8-bit RGBA
/// input: the PNG bytes, or the encoder's error description. The encoder
/// asserts that the buffer length matches the dimensions, hence the
/// precondition.
#[verifier::external_body]
fn encode_png_rgba(width: u32, height: u32, rgba: &Vec<u8>) -> (r: Result<Vec<u8>, String>)
    requires
        rgba@.len() == width * height * 4,
    ensures
        (match r {
            Ok(b) => png_encoding(width, height, rgba@) matches Ok(sb) && b@ == sb,
            Err(e) => png_encoding(width, height, rgba@) matches Err(se) && e@ == se,
        }),
{
    let mut out: Vec<u8> = Vec::new();
    let enc = image::codecs::png::PngEncoder::new(&mut out);
    match image::ImageEncoder::write_image(enc, rgba, width, height, image::ExtendedColorType::Rgba8)
    {
        Ok(()) => Ok(out),
        Err(e) => Err(e.to_string()),
    }
}

/// A clipboard entry counts as a captured image only when both dimensions
/// exceed one pixel (placeholder entries are 1x1 or empty) and the buffer
/// really holds 8-bit RGBA pixels for those dimensions.
pub open spec fn valid_image_event(ev: PollEvent) -> bool {
    match ev {
        PollEvent::Image { width, height, rgba } => width > 1 && height > 1 && rgba@.len() == width
            * height * 4,
        _ => false,
    }
}

/// Whether one poll observation counts as a captured image. The embedding
/// uses this to stop polling as soon as a capture arrives.
pub fn poll_event_is_valid(ev: &PollEvent) -> (r: bool)
    ensures
        r == valid_image_event(*ev),
{
    match ev {
        PollEvent::Image { width, height, rgba } => {
            let w = *width;
            let h = *height;
            proof {
                assert((w as u128) * (h as u128) * 4 < u128::MAX) by (nonlinear_arith)
                    requires
                        w <= u32::MAX,
                        h <= u32::MAX,
                ;
            }
            w > 1 && h > 1 && (rgba.len() as u128) == (w as u128) * (h as u128) * 4
        },
        _ => false,
    }
}

/// What a run of polls decides: the first valid image is PNG- and
/// base64-encoded; a run with no valid image means the deadline passed.
pub open spec fn poll_outcome(polls: Seq<PollEvent>, r: Result<String, CaptureError>) -> bool
    decreases polls.len(),
{
    if polls.len() == 0 {
        r matches Err(CaptureError::ClipboardTimeout)
    } else if valid_image_event(polls[0]) {
        match polls[0] {
            PollEvent::Image { width, height, rgba } => match png_encoding(width, height, rgba@) {
                Ok(b) => r matches Ok(s) && s@ == base64_of(b),
                Err(e) => r matches Err(CaptureError::PngEncodeError(m)) && m@ == e,
            },
            _ => false,
        }
    } else {
        poll_outcome(polls.drop_first(), r)
    }
}

proof fn lemma_poll_outcome_skip(polls: Seq<PollEvent>, k: int, r: Result<String, CaptureError>)
    requires
        0 <= k <= polls.len(),
        forall|j: int| 0 <= j < k ==> !valid_image_event(polls[j]),
    ensures
        poll_outcome(polls, r) == poll_outcome(polls.skip(k), r),
    decreases k,
{
    if k > 0 {
        assert(!valid_image_event(polls[0]));
        assert(polls.drop_first() =~= polls.skip(1));
        assert(forall|j: int| 0 <= j < k - 1 ==> !valid_image_event(polls.skip(1)[j]));
        lemma_poll_outcome_skip(polls.skip(1), k - 1, r);
        assert(polls.skip(1).skip(k - 1) =~= polls.skip(k));
    } else {
        assert(polls.skip(0) =~= polls);
    }
}

/// A polling run that never observes a valid image ends in
/// `ClipboardTimeout`: the deadline is the only hard stop, never a hang and
/// never another error.
pub proof fn lemma_no_valid_image_times_out(
    polls: Seq<PollEvent>,
    r: Result<String, CaptureError>,
)
    requires
        poll_outcome(polls, r),
        forall|j: int| 0 <= j < polls.len() ==> !valid_image_event(polls[j]),
    ensures
        r matches Err(CaptureError::ClipboardTimeout),
{
    lemma_poll_outcome_skip(polls, polls.len() as int, r);
    assert(polls.skip(polls.len() as int) =~= Seq::<PollEvent>::empty());
}

/// On an unsupported platform the result is `NotSupported`, whatever else
/// stands in the trace; no subprocess and no clipboard access is modelled,
/// because the trace for that platform records none.
pub proof fn lemma_unsupported_is_not_supported(r: Result<String, CaptureError>)
    requires
        capture_outcome(CaptureTrace::Unsupported, r),
    ensures
        r matches Err(CaptureError::NotSupported),
{
}

/// The failure text of the external tool: stderr when it says anything,
/// otherwise stdout.
pub open spec fn tool_failure_message_spec(stdout: Seq<char>, stderr: Seq<char>) -> Seq<char> {
    if trim_spec(stderr).len() == 0 {
        stdout
    } else {
        stderr
    }
}

/// The full capture decision, one clause per observation.
pub open spec fn capture_outcome(trace: CaptureTrace, r: Result<String, CaptureError>) -> bool {
    match trace {
        CaptureTrace::Unsupported => r matches Err(CaptureError::NotSupported),
        CaptureTrace::Tool(t) => match t {
            ToolTrace::LaunchFailed => r matches Err(CaptureError::ToolNotFound),
            ToolTrace::Failed { stdout, stderr } => r matches Err(CaptureError::ToolFailed(m))
                && m@ == tool_failure_message_spec(stdout@, stderr@),
            ToolTrace::Saved { file } => match file {
                FileOutcome::Read(bytes) => r matches Ok(s) && s@ == base64_of(bytes@),
                FileOutcome::Error(e) => r matches Err(CaptureError::ReadFailed(m)) && m@ == e@,
            },
        },
        CaptureTrace::Snip(s) => match s {
            SnipTrace::OpenFailed => r matches Err(CaptureError::SnipOpenFailed),
            SnipTrace::Polled { polls } => poll_outcome(polls@, r),
        },
    }
}

fn scan_polls(polls: &Vec<PollEvent>) -> (r: Result<String, CaptureError>)
    ensures
        poll_outcome(polls@, r),
{
    let n = polls.len();
    let mut i: usize = 0;
    while i < n
        invariant
            n == polls@.len(),
            i <= n,
            forall|j: int| 0 <= j < i ==> !valid_image_event(polls@[j]),
        decreases n - i,
    {
        match &polls[i] {
            PollEvent::Image { width, height, rgba } => {
                let w = *width;
                let h = *height;
                proof {
                    assert((w as u128) * (h as u128) * 4 < u128::MAX) by (nonlinear_arith)
                        requires
                            w <= u32::MAX,
                            h <= u32::MAX,
                    ;
                }
                if w > 1 && h > 1 && (rgba.len() as u128) == (w as u128) * (h as u128) * 4 {
                    proof {
                        assert(valid_image_event(polls@[i as int]));
                        assert(polls@.skip(i as int)[0] == polls@[i as int]);
                    }
                    let outcome = match encode_png_rgba(w, h, rgba) {
                        Ok(png) => Ok(base64_encode(&png)),
                        Err(e) => Err(CaptureError::PngEncodeError(e)),
                    };
                    proof {
                        lemma_poll_outcome_skip(polls@, i as int, outcome);
                    }
                    return outcome;
                }
            },
            _ => {},
        }
        i += 1;
    }
    proof {
        lemma_poll_outcome_skip(polls@, n as int, Err(CaptureError::ClipboardTimeout));
        assert(polls@.skip(n as int) =~= Seq::<PollEvent>::empty());
    }
    Err(CaptureError::ClipboardTimeout)
}

/// Decides a whole capture attempt from what the embedding observed: the
/// base64 PNG of the captured region, or why there is none. Platform
/// selection and every I/O step live in the embedding, which records them as
/// the trace; this function is the state machine over that record.
pub fn capture_region_png_base64(trace: &CaptureTrace) -> (r: Result<String, CaptureError>)
    ensures
        capture_outcome(*trace, r),
{
    match trace {
        CaptureTrace::Unsupported => Err(CaptureError::NotSupported),
        CaptureTrace::Tool(t) => match t {
            ToolTrace::LaunchFailed => Err(CaptureError::ToolNotFound),
            ToolTrace::Failed { stdout, stderr } => {
                let err_chars = chars_of_str(stderr.as_str());
                let trimmed = trim_chars(&err_chars);
                let msg = if trimmed.len() == 0 {
                    stdout.clone()
                } else {
                    stderr.clone()
                };
                Err(CaptureError::ToolFailed(msg))
            },
            ToolTrace::Saved { file } => match file {
                FileOutcome::Read(bytes) => Ok(base64_encode(bytes)),
                FileOutcome::Error(e) => Err(CaptureError::ReadFailed(e.clone())),
            },
        },
        CaptureTrace::Snip(s) => match s {
            SnipTrace::OpenFailed => Err(CaptureError::SnipOpenFailed),
            SnipTrace::Polled { polls } => scan_polls(polls),
        },
    }
}

} // verus!
