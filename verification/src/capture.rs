use vstd::prelude::*;

use crate::error::MdvewError;
use crate::geometry::DEFAULT_VIEWPORT_HEIGHT;
use crate::measure::{
    parse_dimensions, spec_parse_dimensions, DEFAULT_CONTENT_HEIGHT, DEFAULT_CONTENT_WIDTH,
};
use crate::theme::Theme;
use base64::Engine;

verus! {

/// What base64's standard-alphabet decoder yields on a given text: the
/// decoded bytes, or nothing when the text is not well-formed base64. The
/// decoding is a pure function of the text alone.
pub uninterp spec fn base64_standard_decoding(s: Seq<char>) -> Option<Seq<u8>>;

/// Relies on base64's `STANDARD` engine `decode`: a deterministic decoder
/// of the standard alphabet that rejects malformed input.
#[verifier::external_body]
fn decode_base64(s: &str) -> (r: Result<Vec<u8>, String>)
    ensures
        match r {
            Ok(v) => base64_standard_decoding(s@) == Some(v@),
            Err(_) => base64_standard_decoding(s@) is None,
        },
{
    match base64::engine::general_purpose::STANDARD.decode(s) {
        Ok(v) => Ok(v),
        Err(e) => Err(e.to_string()),
    }
}

/// Decodes the protocol's textual transport encoding of a screenshot into
/// raw image bytes; malformed encodings surface as a decode error.
pub fn decode_screenshot_payload(data: &str) -> (r: Result<Vec<u8>, MdvewError>)
    ensures
        base64_standard_decoding(data@) matches Some(b) ==> (r matches Ok(v) && v@ == b),
        base64_standard_decoding(data@) is None ==> (r matches Err(e) && e is Base64Decode),
{
    match decode_base64(data) {
        Ok(v) => Ok(v),
        Err(m) => Err(MdvewError::Base64Decode { message: m }),
    }
}

/// Where the capture stands: each phase waits for the outcome of exactly one
/// browser action, and the phases follow the hard causal order of the
/// pipeline — launch, open a page, set the color scheme, navigate, await
/// readiness, measure, capture.
#[derive(Debug, Clone, Copy, PartialEq, Eq, Structural)]
pub enum CapturePhase {
    Launching,
    OpeningTab,
    SettingScheme,
    Navigating,
    WaitingReady,
    Measuring,
    Capturing,
    Done,
    Failed,
}

/// The outcome of one browser action, reported back by the driver that
/// performs the protocol calls.
#[derive(Debug, Clone)]
pub enum BrowserEvent {
    Launched,
    LaunchFailed { message: String },
    TabOpened,
    TabFailed { message: String },
    SchemeSet,
    Navigated,
    NavigateFailed { message: String },
    BodyReady,
    WaitFailed { message: String },
    Measured { value: Option<String> },
    MeasureFailed { message: String },
    ScreenshotTaken { data: String },
    ScreenshotFailed { message: String },
}

/// The next browser action the driver must perform, or the final outcome of
/// the capture.
#[derive(Debug, Clone)]
pub enum BrowserCommand {
    /// Start the headless browser with the given window size.
    Launch { width: u32, height: u32 },
    /// Open an isolated page context in the running browser.
    OpenTab,
    /// Emulate the `prefers-color-scheme` media feature with this value.
    SetColorScheme { scheme: String },
    /// Navigate the page to this location.
    Navigate { url: String },
    /// Block until an element matching this selector exists.
    WaitForElement { selector: String },
    /// Evaluate this script and report its string value, if any.
    Measure { script: String },
    /// Capture a screenshot clipped to `(0, 0, width, height)` at 1:1 scale,
    /// allowing capture beyond the viewport bounds.
    Screenshot { width: u32, height: u32 },
    /// The capture succeeded with these raw image bytes.
    Finish { bytes: Vec<u8> },
    /// The capture failed; no further action must be taken.
    Abort { error: MdvewError },
}

/// The value handed to the emulated color-scheme preference for a theme.
pub open spec fn spec_theme_name(t: Theme) -> Seq<char> {
    if t is Light {
        "light"@
    } else {
        "dark"@
    }
}

/// The script that measures the rendered content extent.
pub open spec fn spec_measure_script() -> Seq<char> {
    "JSON.stringify([document.body.scrollWidth, document.body.scrollHeight])"@
}

/// Which events a phase can answer: exactly the outcomes of the one action
/// the phase is waiting for.
pub open spec fn spec_expects(phase: CapturePhase, event: BrowserEvent) -> bool {
    match (phase, event) {
        (CapturePhase::Launching, BrowserEvent::Launched) => true,
        (CapturePhase::Launching, BrowserEvent::LaunchFailed { .. }) => true,
        (CapturePhase::OpeningTab, BrowserEvent::TabOpened) => true,
        (CapturePhase::OpeningTab, BrowserEvent::TabFailed { .. }) => true,
        (CapturePhase::SettingScheme, BrowserEvent::SchemeSet) => true,
        (CapturePhase::Navigating, BrowserEvent::Navigated) => true,
        (CapturePhase::Navigating, BrowserEvent::NavigateFailed { .. }) => true,
        (CapturePhase::WaitingReady, BrowserEvent::BodyReady) => true,
        (CapturePhase::WaitingReady, BrowserEvent::WaitFailed { .. }) => true,
        (CapturePhase::Measuring, BrowserEvent::Measured { .. }) => true,
        (CapturePhase::Measuring, BrowserEvent::MeasureFailed { .. }) => true,
        (CapturePhase::Capturing, BrowserEvent::ScreenshotTaken { .. }) => true,
        (CapturePhase::Capturing, BrowserEvent::ScreenshotFailed { .. }) => true,
        _ => false,
    }
}

/// The transition relation of the capture controller. Every step keeps the
/// session parameters; the phase advances along the causal chain, a launch
/// failure surfaces as the distinct launch error, any later protocol failure
/// as a browser error, and a failed or unparseable measurement degrades to
/// the fixed default extent instead of failing the capture.
pub open spec fn spec_step(
    pre: CaptureSession,
    event: BrowserEvent,
    post: CaptureSession,
    cmd: BrowserCommand,
) -> bool {
    &&& post.viewport_width == pre.viewport_width
    &&& post.theme == pre.theme
    &&& post.url == pre.url
    &&& match (pre.phase, event) {
        (CapturePhase::Launching, BrowserEvent::Launched) => post.phase is OpeningTab
            && cmd is OpenTab,
        (CapturePhase::Launching, BrowserEvent::LaunchFailed { message }) => post.phase is Failed
            && (cmd matches BrowserCommand::Abort {
            error: MdvewError::BrowserLaunch { message: m },
        } && m@ == message@),
        (CapturePhase::OpeningTab, BrowserEvent::TabOpened) => post.phase is SettingScheme && (
        cmd matches BrowserCommand::SetColorScheme { scheme } && scheme@ == spec_theme_name(
            pre.theme,
        )),
        (CapturePhase::OpeningTab, BrowserEvent::TabFailed { message }) => post.phase is Failed && (
        cmd matches BrowserCommand::Abort { error: MdvewError::Browser { message: m } } && m@
            == message@),
        (CapturePhase::SettingScheme, BrowserEvent::SchemeSet) => post.phase is Navigating && (
        cmd matches BrowserCommand::Navigate { url } && url@ == pre.url@),
        (CapturePhase::Navigating, BrowserEvent::Navigated) => post.phase is WaitingReady && (
        cmd matches BrowserCommand::WaitForElement { selector } && selector@ == "body"@),
        (CapturePhase::Navigating, BrowserEvent::NavigateFailed { message }) => post.phase is Failed
            && (cmd matches BrowserCommand::Abort { error: MdvewError::Browser { message: m } }
            && m@ == message@),
        (CapturePhase::WaitingReady, BrowserEvent::BodyReady) => post.phase is Measuring && (
        cmd matches BrowserCommand::Measure { script } && script@ == spec_measure_script()),
        (CapturePhase::WaitingReady, BrowserEvent::WaitFailed { message }) => post.phase is Failed
            && (cmd matches BrowserCommand::Abort { error: MdvewError::Browser { message: m } }
            && m@ == message@),
        (CapturePhase::Measuring, BrowserEvent::Measured { value }) => post.phase is Capturing && (
        cmd matches BrowserCommand::Screenshot { width, height } && match value {
            Some(s) => (width, height) == spec_parse_dimensions(s@),
            None => width == DEFAULT_CONTENT_WIDTH && height == DEFAULT_CONTENT_HEIGHT,
        }),
        (CapturePhase::Measuring, BrowserEvent::MeasureFailed { .. }) => post.phase is Capturing
            && (cmd matches BrowserCommand::Screenshot { width, height } && width
            == DEFAULT_CONTENT_WIDTH && height == DEFAULT_CONTENT_HEIGHT),
        (CapturePhase::Capturing, BrowserEvent::ScreenshotTaken { data }) => match
            base64_standard_decoding(data@) {
            Some(b) => post.phase is Done && (cmd matches BrowserCommand::Finish { bytes }
                && bytes@ == b),
            None => post.phase is Failed && (cmd matches BrowserCommand::Abort { error }
                && error is Base64Decode),
        },
        (CapturePhase::Capturing, BrowserEvent::ScreenshotFailed { message }) => post.phase
            is Failed && (cmd matches BrowserCommand::Abort {
            error: MdvewError::Browser { message: m },
        } && m@ == message@),
        _ => false,
    }
}

/// The hard causal order of the protocol, read off the transition relation:
/// navigation is commanded only once the color scheme is set, the readiness
/// wait only once navigation is confirmed, the measurement only once the
/// page is ready, the clipped screenshot only once the measurement phase has
/// resolved the content extent, and the capture finishes only from the
/// screenshot phase.
pub proof fn lemma_step_causal_order(
    pre: CaptureSession,
    event: BrowserEvent,
    post: CaptureSession,
    cmd: BrowserCommand,
)
    requires
        spec_step(pre, event, post, cmd),
    ensures
        cmd is Navigate ==> pre.phase is SettingScheme && post.phase is Navigating,
        cmd is WaitForElement ==> pre.phase is Navigating && post.phase is WaitingReady,
        cmd is Measure ==> pre.phase is WaitingReady && post.phase is Measuring,
        cmd is Screenshot ==> pre.phase is Measuring && post.phase is Capturing,
        cmd is Finish ==> pre.phase is Capturing && post.phase is Done,
        cmd is Abort ==> post.phase is Failed,
{
}

/// One capture of one rendered page: the session parameters are fixed at
/// creation and the phase advances only through `step`. The driver performs
/// each returned command against the real browser and reports the outcome;
/// the controller makes every decision.
pub struct CaptureSession {
    pub phase: CapturePhase,
    pub viewport_width: u32,
    pub theme: Theme,
    pub url: String,
}

impl CaptureSession {
    /// Starts a capture of the page stored at `html_path`, to be rendered
    /// at `viewport_width` pixels under `theme`.
    pub fn new(html_path: &str, viewport_width: u32, theme: Theme) -> (s: Self)
        ensures
            s.phase is Launching,
            s.viewport_width == viewport_width,
            s.theme == theme,
            s.url@ == "file://"@ + html_path@,
    {
        let mut url = String::from_str("file://");
        url.append(html_path);
        CaptureSession { phase: CapturePhase::Launching, viewport_width, theme, url }
    }

    /// The first action of every capture: launch the browser, headless, at
    /// the requested width and the constant initial height.
    pub fn initial_command(&self) -> (cmd: BrowserCommand)
        requires
            self.phase is Launching,
        ensures
            cmd matches BrowserCommand::Launch { width, height } && width == self.viewport_width
                && height == DEFAULT_VIEWPORT_HEIGHT,
    {
        BrowserCommand::Launch { width: self.viewport_width, height: DEFAULT_VIEWPORT_HEIGHT }
    }

    /// Whether `event` answers the action this phase is waiting for.
    pub fn expects(&self, event: &BrowserEvent) -> (r: bool)
        ensures
            r == spec_expects(self.phase, *event),
    {
        match (self.phase, event) {
            (CapturePhase::Launching, BrowserEvent::Launched) => true,
            (CapturePhase::Launching, BrowserEvent::LaunchFailed { .. }) => true,
            (CapturePhase::OpeningTab, BrowserEvent::TabOpened) => true,
            (CapturePhase::OpeningTab, BrowserEvent::TabFailed { .. }) => true,
            (CapturePhase::SettingScheme, BrowserEvent::SchemeSet) => true,
            (CapturePhase::Navigating, BrowserEvent::Navigated) => true,
            (CapturePhase::Navigating, BrowserEvent::NavigateFailed { .. }) => true,
            (CapturePhase::WaitingReady, BrowserEvent::BodyReady) => true,
            (CapturePhase::WaitingReady, BrowserEvent::WaitFailed { .. }) => true,
            (CapturePhase::Measuring, BrowserEvent::Measured { .. }) => true,
            (CapturePhase::Measuring, BrowserEvent::MeasureFailed { .. }) => true,
            (CapturePhase::Capturing, BrowserEvent::ScreenshotTaken { .. }) => true,
            (CapturePhase::Capturing, BrowserEvent::ScreenshotFailed { .. }) => true,
            _ => false,
        }
    }

    /// Advances the capture by one step: consumes the outcome of the last
    /// action and decides the next one.
    pub fn step(&mut self, event: BrowserEvent) -> (cmd: BrowserCommand)
        requires
            spec_expects(old(self).phase, event),
        ensures
            spec_step(*old(self), event, *final(self), cmd),
    {
        match (self.phase, event) {
            (CapturePhase::Launching, BrowserEvent::Launched) => {
                self.phase = CapturePhase::OpeningTab;
                BrowserCommand::OpenTab
            },
            (CapturePhase::Launching, BrowserEvent::LaunchFailed { message }) => {
                self.phase = CapturePhase::Failed;
                BrowserCommand::Abort { error: MdvewError::BrowserLaunch { message } }
            },
            (CapturePhase::OpeningTab, BrowserEvent::TabOpened) => {
                self.phase = CapturePhase::SettingScheme;
                BrowserCommand::SetColorScheme { scheme: String::from_str(self.theme.as_str()) }
            },
            (CapturePhase::OpeningTab, BrowserEvent::TabFailed { message }) => {
                self.phase = CapturePhase::Failed;
                BrowserCommand::Abort { error: MdvewError::Browser { message } }
            },
            (CapturePhase::SettingScheme, BrowserEvent::SchemeSet) => {
                self.phase = CapturePhase::Navigating;
                BrowserCommand::Navigate { url: self.url.clone() }
            },
            (CapturePhase::Navigating, BrowserEvent::Navigated) => {
                self.phase = CapturePhase::WaitingReady;
                BrowserCommand::WaitForElement { selector: String::from_str("body") }
            },
            (CapturePhase::Navigating, BrowserEvent::NavigateFailed { message }) => {
                self.phase = CapturePhase::Failed;
                BrowserCommand::Abort { error: MdvewError::Browser { message } }
            },
            (CapturePhase::WaitingReady, BrowserEvent::BodyReady) => {
                self.phase = CapturePhase::Measuring;
                BrowserCommand::Measure {
                    script: String::from_str(
                        "JSON.stringify([document.body.scrollWidth, document.body.scrollHeight])",
                    ),
                }
            },
            (CapturePhase::WaitingReady, BrowserEvent::WaitFailed { message }) => {
                self.phase = CapturePhase::Failed;
                BrowserCommand::Abort { error: MdvewError::Browser { message } }
            },
            (CapturePhase::Measuring, BrowserEvent::Measured { value }) => {
                self.phase = CapturePhase::Capturing;
                match value {
                    Some(s) => {
                        let dims = parse_dimensions(s.as_str());
                        BrowserCommand::Screenshot { width: dims.0, height: dims.1 }
                    },
                    None => BrowserCommand::Screenshot {
                        width: DEFAULT_CONTENT_WIDTH,
                        height: DEFAULT_CONTENT_HEIGHT,
                    },
                }
            },
            (CapturePhase::Measuring, BrowserEvent::MeasureFailed { .. }) => {
                self.phase = CapturePhase::Capturing;
                BrowserCommand::Screenshot {
                    width: DEFAULT_CONTENT_WIDTH,
                    height: DEFAULT_CONTENT_HEIGHT,
                }
            },
            (CapturePhase::Capturing, BrowserEvent::ScreenshotTaken { data }) => {
                match decode_base64(data.as_str()) {
                    Ok(bytes) => {
                        self.phase = CapturePhase::Done;
                        BrowserCommand::Finish { bytes }
                    },
                    Err(m) => {
                        self.phase = CapturePhase::Failed;
                        BrowserCommand::Abort { error: MdvewError::Base64Decode { message: m } }
                    },
                }
            },
            (CapturePhase::Capturing, BrowserEvent::ScreenshotFailed { message }) => {
                self.phase = CapturePhase::Failed;
                BrowserCommand::Abort { error: MdvewError::Browser { message } }
            },
            // ruled out by the precondition: every expected event is matched above
            _ => {
                proof {
                    assert(false);
                }
                BrowserCommand::OpenTab
            },
        }
    }
}

} // verus!
