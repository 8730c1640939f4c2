//! The recorder's runtime state and the small value types it is made of.
use vstd::prelude::*;
use crate::text::same_text;

verus! {

/// Container format of a recording.
#[derive(Debug, Clone, Copy, PartialEq, Eq, Structural)]
pub enum OutputFormat {
    Mp4,
    Gif,
    WebM,
}

/// Encoding quality tier of a recording.
#[derive(Debug, Clone, Copy, PartialEq, Eq, Structural)]
pub enum Quality {
    Low,
    Medium,
    High,
}

/// A rectangle of the screen to record, in physical pixels.
#[derive(Debug, Clone, Copy, PartialEq, Eq, Structural)]
pub struct CaptureRegion {
    pub x: i32,
    pub y: i32,
    pub width: u32,
    pub height: u32,
}

/// The recording that the preview window is to show.
#[derive(Debug)]
pub struct PreviewInfo {
    /// absolute path to the recorded file
    pub path: String,
    /// "mp4", "webm" or "gif"
    pub format: String,
}

impl Clone for PreviewInfo {
    fn clone(&self) -> (c: Self)
        ensures
            c == *self,
    {
        PreviewInfo { path: self.path.clone(), format: self.format.clone() }
    }
}

impl Quality {
    /// The quality that a name selects: "high" and "low" name their tiers,
    /// every other text selects the medium tier.
    pub open spec fn spec_from_name(name: Seq<char>) -> Quality {
        if name == "high"@ {
            Quality::High
        } else if name == "low"@ {
            Quality::Low
        } else {
            Quality::Medium
        }
    }

    /// The name under which a quality is stored and shown.
    pub open spec fn spec_name(self) -> Seq<char> {
        match self {
            Quality::High => "high"@,
            Quality::Medium => "medium"@,
            Quality::Low => "low"@,
        }
    }

    /// Reads a quality from its name.
    pub fn from_name(name: &str) -> (q: Quality)
        ensures
            q == Quality::spec_from_name(name@),
    {
        if same_text(name, "high") {
            Quality::High
        } else if same_text(name, "low") {
            Quality::Low
        } else {
            Quality::Medium
        }
    }

    /// The name of this quality.
    pub fn name(&self) -> (s: &'static str)
        ensures
            s@ == self.spec_name(),
    {
        match self {
            Quality::High => "high",
            Quality::Medium => "medium",
            Quality::Low => "low",
        }
    }
}

impl OutputFormat {
    /// The format that a name selects: "gif" and "webm" name their formats,
    /// every other text selects MP4.
    pub open spec fn spec_from_name(name: Seq<char>) -> OutputFormat {
        if name == "gif"@ {
            OutputFormat::Gif
        } else if name == "webm"@ {
            OutputFormat::WebM
        } else {
            OutputFormat::Mp4
        }
    }

    /// The name of a format, which is also its file extension.
    pub open spec fn spec_name(self) -> Seq<char> {
        match self {
            OutputFormat::Mp4 => "mp4"@,
            OutputFormat::WebM => "webm"@,
            OutputFormat::Gif => "gif"@,
        }
    }

    /// Reads a format from its name.
    pub fn from_name(name: &str) -> (f: OutputFormat)
        ensures
            f == OutputFormat::spec_from_name(name@),
    {
        if same_text(name, "gif") {
            OutputFormat::Gif
        } else if same_text(name, "webm") {
            OutputFormat::WebM
        } else {
            OutputFormat::Mp4
        }
    }

    /// The name of this format (also the extension of its files).
    pub fn name(&self) -> (s: &'static str)
        ensures
            s@ == self.spec_name(),
    {
        match self {
            OutputFormat::Mp4 => "mp4",
            OutputFormat::WebM => "webm",
            OutputFormat::Gif => "gif",
        }
    }
}

/// The names written to the settings file and to profiles.
pub proof fn lemma_name_texts(q: Quality, f: OutputFormat)
    ensures
        q.spec_name() == match q {
            Quality::High => "high"@,
            Quality::Medium => "medium"@,
            Quality::Low => "low"@,
        },
        f.spec_name() == match f {
            OutputFormat::Mp4 => "mp4"@,
            OutputFormat::WebM => "webm"@,
            OutputFormat::Gif => "gif"@,
        },
{
}

/// A fresh session records MP4 at 30 fps in medium quality, with nothing
/// selected, no countdown and no capture running.
pub proof fn lemma_initial_state()
    ensures
        initial_state() == (StateView {
            region: None,
            recording: false,
            selected_display_index: None,
            save_folder: None,
            output_format: OutputFormat::Mp4,
            pending_preview: None,
            fps: 30,
            quality: Quality::Medium,
            countdown_enabled: false,
        }),
{
}

/// Reading the name of a quality gives that quality back.
pub proof fn lemma_quality_name_round_trip(q: Quality)
    ensures
        Quality::spec_from_name(q.spec_name()) == q,
{
    reveal_strlit("high");
    reveal_strlit("medium");
    reveal_strlit("low");
    assert("high"@.len() == 4 && "low"@.len() == 3 && "medium"@.len() == 6);
}

/// Reading the name of a format gives that format back.
pub proof fn lemma_format_name_round_trip(f: OutputFormat)
    ensures
        OutputFormat::spec_from_name(f.spec_name()) == f,
{
    reveal_strlit("mp4");
    reveal_strlit("webm");
    reveal_strlit("gif");
    assert("gif"@.len() == 3 && "webm"@.len() == 4 && "mp4"@.len() == 3);
    assert("mp4"@[0] == 'm' && "gif"@[0] == 'g');
}

/// The contents of a [`PreviewInfo`].
pub ghost struct PreviewView {
    pub path: Seq<char>,
    pub format: Seq<char>,
}

impl View for PreviewInfo {
    type V = PreviewView;

    open spec fn view(&self) -> PreviewView {
        PreviewView { path: self.path@, format: self.format@ }
    }
}

/// The characters of an optional string.
pub open spec fn opt_text(o: Option<String>) -> Option<Seq<char>> {
    match o {
        Some(s) => Some(s@),
        None => None,
    }
}

/// The contents of an optional preview.
pub open spec fn opt_preview(o: Option<PreviewInfo>) -> Option<PreviewView> {
    match o {
        Some(p) => Some(p@),
        None => None,
    }
}

/// Frame rate of a fresh session.
pub const DEFAULT_FPS: u32 = 30;

/// Everything the recorder remembers while it runs.
pub struct AppState {
    /// the part of the screen to record; `None` records the whole display
    pub region: Option<CaptureRegion>,
    /// whether a capture is running
    pub recording: bool,
    /// which display to capture; `None` lets the capturer pick
    pub selected_display_index: Option<usize>,
    /// user-chosen save folder; `None` means the platform's video folder
    pub save_folder: Option<String>,
    pub output_format: OutputFormat,
    /// the recording that the preview window is about to show
    pub pending_preview: Option<PreviewInfo>,
    pub fps: u32,
    pub quality: Quality,
    /// whether a 3-2-1 countdown precedes a recording
    pub countdown_enabled: bool,
}

/// The contents of an [`AppState`], with strings taken by their characters.
pub ghost struct StateView {
    pub region: Option<CaptureRegion>,
    pub recording: bool,
    pub selected_display_index: Option<usize>,
    pub save_folder: Option<Seq<char>>,
    pub output_format: OutputFormat,
    pub pending_preview: Option<PreviewView>,
    pub fps: u32,
    pub quality: Quality,
    pub countdown_enabled: bool,
}

impl View for AppState {
    type V = StateView;

    open spec fn view(&self) -> StateView {
        StateView {
            region: self.region,
            recording: self.recording,
            selected_display_index: self.selected_display_index,
            save_folder: opt_text(self.save_folder),
            output_format: self.output_format,
            pending_preview: opt_preview(self.pending_preview),
            fps: self.fps,
            quality: self.quality,
            countdown_enabled: self.countdown_enabled,
        }
    }
}

/// The state of a session that has just started.
pub open spec fn initial_state() -> StateView {
    StateView {
        region: None,
        recording: false,
        selected_display_index: None,
        save_folder: None,
        output_format: OutputFormat::Mp4,
        pending_preview: None,
        fps: DEFAULT_FPS,
        quality: Quality::Medium,
        countdown_enabled: false,
    }
}

impl AppState {
    /// A fresh session: nothing selected, not recording, MP4 at 30 fps in
    /// medium quality.
    pub fn new() -> (s: Self)
        ensures
            s@ == initial_state(),
    {
        AppState {
            region: None,
            recording: false,
            selected_display_index: None,
            save_folder: None,
            output_format: OutputFormat::Mp4,
            pending_preview: None,
            fps: DEFAULT_FPS,
            quality: Quality::Medium,
            countdown_enabled: false,
        }
    }

    /// Whether a capture is running.
    pub fn is_recording(&self) -> (r: bool)
        ensures
            r == self.recording,
    {
        self.recording
    }

    /// Marks the capture as running (once the capture thread is set up).
    pub fn begin_recording(&mut self)
        ensures
            final(self)@ == started(old(self)@),
    {
        self.recording = true;
    }

    /// Stops a running capture; returns whether one was running, that is,
    /// whether the capture thread must be told to stop. Without a running
    /// capture nothing changes.
    pub fn end_recording(&mut self) -> (was_running: bool)
        ensures
            was_running == old(self).recording,
            final(self)@ == stopped(old(self)@),
    {
        if !self.recording {
            return false;
        }
        self.recording = false;
        true
    }
}

impl AppState {
    /// The capture thread has ended by itself (capture error, encoder
    /// missing, permission refused): the session is no longer recording, so
    /// that the next start request starts a new capture.
    pub fn capture_ended(&mut self)
        ensures
            final(self)@ == stopped(old(self)@),
            !final(self).recording,
    {
        self.recording = false;
    }
}

/// The state once a capture runs.
pub open spec fn started(s: StateView) -> StateView {
    StateView { recording: true, ..s }
}

/// The state once no capture runs.
pub open spec fn stopped(s: StateView) -> StateView {
    StateView { recording: false, ..s }
}

/// Stopping a capture that was started from an idle session gives the idle
/// session back, and stopping twice is stopping once.
pub proof fn lemma_start_then_stop(s: StateView)
    requires
        !s.recording,
    ensures
        stopped(started(s)) == s,
        stopped(stopped(s)) == stopped(s),
        started(s).recording,
{
}

} // verus!
