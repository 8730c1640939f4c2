//! What each command of the recorder decides: monitor and region choice,
//! capture settings, saved profiles, the preview hand-over and the start and
//! stop of a recording. Windows, files and the capture thread are driven by
//! the caller with the values these functions return.
use vstd::prelude::*;
use crate::state::{
    AppState, CaptureRegion, OutputFormat, PreviewInfo, PreviewView, Quality, StateView,
    started, stopped,
    lemma_format_name_round_trip, lemma_quality_name_round_trip,
};
use std::path::PathBuf;
use crate::settings_store::{
    joined_path, path_join, Profile, ProfileView, SettingsFile, SettingsFileView, profile_views, stored_profiles,
};
use crate::text::{decimal, push_decimal, same_text};
use crate::profiles::{
    copy_profiles, find_named, find_profile, lemma_index_named, profiles_without, upserted,
    without_named,
};

verus! {

// ── Monitors and regions ─────────────────────────────────────────────────────

/// One connected monitor, as the monitor picker lists it.
#[derive(Debug)]
pub struct MonitorInfo {
    pub index: usize,
    pub name: String,
    pub width: u32,
    pub height: u32,
    /// position of the monitor in the global screen space; the primary
    /// monitor is at (0, 0)
    pub x: i32,
    pub y: i32,
}

/// The contents of a [`MonitorInfo`].
pub ghost struct MonitorView {
    pub index: usize,
    pub name: Seq<char>,
    pub width: u32,
    pub height: u32,
    pub x: i32,
    pub y: i32,
}

impl View for MonitorInfo {
    type V = MonitorView;

    open spec fn view(&self) -> MonitorView {
        MonitorView {
            index: self.index,
            name: self.name@,
            width: self.width,
            height: self.height,
            x: self.x,
            y: self.y,
        }
    }
}

/// The name shown for an unnamed monitor: "Display N", counting from 1.
pub open spec fn default_monitor_name(index: usize) -> Seq<char> {
    "Display "@ + decimal((index + 1) as nat)
}

/// The picker entry of the monitor at position `index`; a monitor without a
/// name is called after its position.
pub fn monitor_info(index: usize, name: Option<String>, width: u32, height: u32, x: i32, y: i32) -> (m: MonitorInfo)
    requires
        index < usize::MAX,
    ensures
        m@ == (MonitorView {
            index,
            name: match name {
                Some(n) => n@,
                None => default_monitor_name(index),
            },
            width,
            height,
            x,
            y,
        }),
{
    let name = match name {
        Some(n) => n,
        None => {
            let mut n = String::from_str("Display ");
            push_decimal(&mut n, (index + 1) as u64);
            n
        },
    };
    MonitorInfo { index, name, width, height, x, y }
}

/// The region that covers a whole monitor of the given size.
pub open spec fn full_region(width: u32, height: u32) -> CaptureRegion {
    CaptureRegion { x: 0, y: 0, width, height }
}

/// The error of a monitor choice past the end of the list.
pub open spec fn no_monitor_error(index: usize) -> Seq<char> {
    "No monitor at index "@ + decimal(index as nat)
}

/// Chooses the monitor at `index` of `monitors` for capture: the region
/// becomes the whole monitor and the monitor becomes the capture display.
pub fn select_monitor(state: &mut AppState, monitors: &Vec<MonitorInfo>, index: usize) -> (r: Result<CaptureRegion, String>)
    ensures
        index < monitors@.len() ==> {
            let reg = full_region(monitors@[index as int].width, monitors@[index as int].height);
            &&& r == Ok::<CaptureRegion, String>(reg)
            &&& final(state)@ == (StateView { region: Some(reg), selected_display_index: Some(index), ..old(state)@ })
        },
        index >= monitors@.len() ==> {
            &&& r matches Err(e) && e@ == no_monitor_error(index)
            &&& final(state)@ == old(state)@
        },
{
    if index < monitors.len() {
        let m = &monitors[index];
        let region = CaptureRegion { x: 0, y: 0, width: m.width, height: m.height };
        state.region = Some(region);
        state.selected_display_index = Some(index);
        Ok(region)
    } else {
        let mut e = String::from_str("No monitor at index ");
        push_decimal(&mut e, index as u64);
        Err(e)
    }
}

/// The monitor that the region-selection overlay covers: the chosen display
/// when it is still connected, else the first monitor.
pub open spec fn overlay_index(selected: Option<usize>, count: usize) -> Option<usize> {
    let idx = match selected {
        Some(i) => i,
        None => 0,
    };
    if idx < count {
        Some(idx)
    } else if count > 0 {
        Some(0)
    } else {
        None
    }
}

/// The overlay covers a connected monitor whenever there is one: the chosen
/// display when it is connected, the first monitor otherwise.
pub proof fn lemma_overlay_index(selected: Option<usize>, count: usize)
    ensures
        overlay_index(selected, count) is None <==> count == 0,
        overlay_index(selected, count) matches Some(i) ==> {
            &&& i < count
            &&& (selected is Some && selected->0 < count) ==> i == selected->0
            &&& (selected is None || selected->0 >= count) ==> i == 0
        },
{
}

/// An unnamed monitor is called "Display " followed by its position
/// counted from 1.
pub proof fn lemma_default_monitor_name(index: usize)
    requires
        index < usize::MAX,
    ensures
        default_monitor_name(index) == "Display "@ + decimal(index as nat + 1),
{
}

/// Which of `monitor_count` monitors the region-selection overlay covers.
pub fn overlay_monitor(state: &AppState, monitor_count: usize) -> (r: Result<usize, String>)
    ensures
        match overlay_index(state.selected_display_index, monitor_count) {
            Some(i) => r == Ok::<usize, String>(i),
            None => r matches Err(e) && e@ == "No monitors found"@,
        },
{
    let idx = match state.selected_display_index {
        Some(i) => i,
        None => 0,
    };
    if idx < monitor_count {
        Ok(idx)
    } else if monitor_count > 0 {
        Ok(0)
    } else {
        Err(String::from_str("No monitors found"))
    }
}

/// Records the region that the user dragged out on the overlay.
pub fn set_region(state: &mut AppState, x: i32, y: i32, width: u32, height: u32) -> (r: CaptureRegion)
    ensures
        r == (CaptureRegion { x, y, width, height }),
        final(state)@ == (StateView { region: Some(r), ..old(state)@ }),
{
    let region = CaptureRegion { x, y, width, height };
    state.region = Some(region);
    region
}

/// Makes the whole primary monitor (of the given size) the capture region.
pub fn select_full_screen(state: &mut AppState, primary_size: Option<(u32, u32)>) -> (r: Result<CaptureRegion, String>)
    ensures
        match primary_size {
            Some((w, h)) => {
                &&& r == Ok::<CaptureRegion, String>(full_region(w, h))
                &&& final(state)@ == (StateView { region: Some(full_region(w, h)), ..old(state)@ })
            },
            None => {
                &&& r matches Err(e) && e@ == "No primary monitor found"@
                &&& final(state)@ == old(state)@
            },
        },
{
    match primary_size {
        Some((w, h)) => {
            let full = CaptureRegion { x: 0, y: 0, width: w, height: h };
            state.region = Some(full);
            Ok(full)
        },
        None => Err(String::from_str("No primary monitor found")),
    }
}

/// The current capture region.
pub fn get_region(state: &AppState) -> (r: Option<CaptureRegion>)
    ensures
        r == state.region,
{
    state.region
}

// ── Settings ─────────────────────────────────────────────────────────────────

/// The capture settings as the settings panel shows them.
#[derive(Debug)]
pub struct Settings {
    pub fps: u32,
    pub quality: String,
    pub countdown: bool,
}

/// The contents of a [`Settings`].
pub ghost struct SettingsView {
    pub fps: u32,
    pub quality: Seq<char>,
    pub countdown: bool,
}

impl View for Settings {
    type V = SettingsView;

    open spec fn view(&self) -> SettingsView {
        SettingsView { fps: self.fps, quality: self.quality@, countdown: self.countdown }
    }
}

/// The settings panel's view of a state.
pub open spec fn settings_of(s: StateView) -> SettingsView {
    SettingsView { fps: s.fps, quality: s.quality.spec_name(), countdown: s.countdown_enabled }
}

/// Sets the capture frame rate.
pub fn set_fps(state: &mut AppState, fps: u32)
    ensures
        final(state)@ == (StateView { fps, ..old(state)@ }),
{
    state.fps = fps;
}

/// Sets the quality tier by name ("high", "low"; anything else is medium).
pub fn set_quality(state: &mut AppState, quality: &str)
    ensures
        final(state)@ == (StateView { quality: Quality::spec_from_name(quality@), ..old(state)@ }),
{
    state.quality = Quality::from_name(quality);
}

/// Turns the pre-recording countdown on or off.
pub fn set_countdown(state: &mut AppState, enabled: bool)
    ensures
        final(state)@ == (StateView { countdown_enabled: enabled, ..old(state)@ }),
{
    state.countdown_enabled = enabled;
}

/// Sets the output format by name ("gif", "webm"; anything else is MP4).
pub fn set_output_format(state: &mut AppState, format: &str)
    ensures
        final(state)@ == (StateView { output_format: OutputFormat::spec_from_name(format@), ..old(state)@ }),
{
    state.output_format = OutputFormat::from_name(format);
}

/// The name of the current output format.
pub fn get_output_format(state: &AppState) -> (s: String)
    ensures
        s@ == state.output_format.spec_name(),
{
    String::from_str(state.output_format.name())
}

/// Stores the folder that the user picked for recordings.
pub fn set_save_folder(state: &mut AppState, path: String)
    ensures
        final(state)@ == (StateView { save_folder: Some(path@), ..old(state)@ }),
{
    state.save_folder = Some(path);
}

/// The folder that the user picked, if any; without one the platform's video
/// folder is used.
pub fn get_save_folder(state: &AppState) -> (r: Option<String>)
    ensures
        r == state.save_folder,
{
    match &state.save_folder {
        Some(f) => Some(f.clone()),
        None => None,
    }
}

/// The current capture settings.
pub fn get_settings(state: &AppState) -> (s: Settings)
    ensures
        s@ == settings_of(state@),
{
    Settings { fps: state.fps, quality: String::from_str(state.quality.name()), countdown: state.countdown_enabled }
}

/// Whether a capture is running.
pub fn get_recording_status(state: &AppState) -> (r: bool)
    ensures
        r == state.recording,
{
    state.is_recording()
}

// ── Preview ──────────────────────────────────────────────────────────────────

/// Remembers the recording that the preview window is about to show.
pub fn open_preview_window(state: &mut AppState, path: String, format: String)
    ensures
        final(state)@ == (StateView {
            pending_preview: Some(PreviewView { path: path@, format: format@ }),
            ..old(state)@
        }),
{
    state.pending_preview = Some(PreviewInfo { path, format });
}

/// The recording that the preview window is to show.
pub fn get_preview_info(state: &AppState) -> (r: Option<PreviewInfo>)
    ensures
        r == state.pending_preview,
{
    match &state.pending_preview {
        Some(p) => Some(p.clone()),
        None => None,
    }
}

// ── Persistence ──────────────────────────────────────────────────────────────

/// The settings file after the current settings are written into `f`; its
/// profiles stay as they were.
pub open spec fn persisted(s: StateView, f: SettingsFileView) -> SettingsFileView {
    SettingsFileView {
        fps: Some(s.fps),
        quality: Some(s.quality.spec_name()),
        format: Some(s.output_format.spec_name()),
        save_folder: s.save_folder,
        countdown: Some(s.countdown_enabled),
        ..f
    }
}

/// Writes the current settings into the settings file.
pub fn persist(state: &AppState, file: &mut SettingsFile)
    ensures
        final(file)@ == persisted(state@, old(file)@),
{
    file.fps = Some(state.fps);
    file.quality = Some(String::from_str(state.quality.name()));
    file.format = Some(String::from_str(state.output_format.name()));
    file.save_folder = match &state.save_folder {
        Some(f) => Some(f.clone()),
        None => None,
    };
    file.countdown = Some(state.countdown_enabled);
}

/// The state after the saved settings of `f` are loaded into `s`: every entry
/// present in the file replaces the current setting.
pub open spec fn restored(s: StateView, f: SettingsFileView) -> StateView {
    StateView {
        fps: match f.fps {
            Some(v) => v,
            None => s.fps,
        },
        quality: match f.quality {
            Some(q) => Quality::spec_from_name(q),
            None => s.quality,
        },
        output_format: match f.format {
            Some(n) => OutputFormat::spec_from_name(n),
            None => s.output_format,
        },
        save_folder: match f.save_folder {
            Some(p) => Some(p),
            None => s.save_folder,
        },
        countdown_enabled: match f.countdown {
            Some(c) => c,
            None => s.countdown_enabled,
        },
        ..s
    }
}

/// Loads the saved settings into the session (done once at start-up).
pub fn restore_settings(state: &mut AppState, file: &SettingsFile)
    ensures
        final(state)@ == restored(old(state)@, file@),
{
    match file.fps {
        Some(v) => { state.fps = v; },
        None => {},
    }
    match &file.quality {
        Some(q) => { state.quality = Quality::from_name(q.as_str()); },
        None => {},
    }
    match &file.format {
        Some(n) => { state.output_format = OutputFormat::from_name(n.as_str()); },
        None => {},
    }
    match &file.save_folder {
        Some(p) => { state.save_folder = Some(p.clone()); },
        None => {},
    }
    match file.countdown {
        Some(c) => { state.countdown_enabled = c; },
        None => {},
    }
}

/// Settings survive a restart: loading a file that the settings of `s` were
/// written into gives back the frame rate, quality, format, countdown and
/// (when one was chosen) the save folder of `s`; the rest of the session is
/// untouched.
pub proof fn lemma_persist_then_restore(s: StateView, f: SettingsFileView, t: StateView)
    ensures
        restored(t, persisted(s, f)) == (StateView {
            fps: s.fps,
            quality: s.quality,
            output_format: s.output_format,
            countdown_enabled: s.countdown_enabled,
            save_folder: match s.save_folder {
                Some(p) => Some(p),
                None => t.save_folder,
            },
            ..t
        }),
{
    lemma_quality_name_round_trip(s.quality);
    lemma_format_name_round_trip(s.output_format);
}

// ── Profiles ─────────────────────────────────────────────────────────────────

/// All saved profiles, in file order.
pub fn get_profiles(file: &SettingsFile) -> (r: Vec<Profile>)
    ensures
        profile_views(r@) == stored_profiles(file@),
{
    match &file.profiles {
        Some(v) => copy_profiles(v),
        None => Vec::new(),
    }
}

/// The profile that saving the current settings under `name` stores.
pub open spec fn profile_of(s: StateView, name: Seq<char>) -> ProfileView {
    ProfileView {
        name,
        fps: s.fps,
        quality: s.quality.spec_name(),
        format: s.output_format.spec_name(),
    }
}

/// Saves the current frame rate, quality and format as the profile `name`,
/// replacing the first profile of that name or appending a new one.
pub fn save_profile(state: &AppState, file: &mut SettingsFile, name: String)
    ensures
        final(file)@ == (SettingsFileView {
            profiles: Some(upserted(stored_profiles(old(file)@), profile_of(state@, name@))),
            ..old(file)@
        }),
{
    let quality = String::from_str(state.quality.name());
    let format = String::from_str(state.output_format.name());
    let mut profiles = match file.profiles.take() {
        Some(v) => v,
        None => Vec::new(),
    };
    let ghost ps = profile_views(profiles@);
    let ghost p = profile_of(state@, name@);
    assert(ps =~= stored_profiles(old(file)@));
    match find_profile(&profiles, name.as_str()) {
        Some(i) => {
            let existing = profiles[i].name.clone();
            profiles.set(i, Profile { name: existing, fps: state.fps, quality, format });
            assert(profile_views(profiles@) =~= ps.update(i as int, p));
        },
        None => {
            profiles.push(Profile { name, fps: state.fps, quality, format });
            assert(profile_views(profiles@) =~= ps.push(p));
        },
    }
    file.profiles = Some(profiles);
}

/// The session after switching to profile `p`.
pub open spec fn applied(s: StateView, p: ProfileView) -> StateView {
    StateView {
        fps: p.fps,
        quality: Quality::spec_from_name(p.quality),
        output_format: OutputFormat::spec_from_name(p.format),
        ..s
    }
}

/// The error for a profile name that is not saved.
pub open spec fn profile_not_found(name: Seq<char>) -> Seq<char> {
    "Profile '"@ + name + "' not found"@
}

/// Switches the session to the saved profile `name` and returns the
/// resulting settings; a name that is not saved is an error.
pub fn apply_profile(state: &mut AppState, file: &SettingsFile, name: &str) -> (r: Result<Settings, String>)
    ensures
        match find_named(stored_profiles(file@), name@) {
            Some(p) => {
                &&& final(state)@ == applied(old(state)@, p)
                &&& r matches Ok(s) && s@ == settings_of(final(state)@)
            },
            None => {
                &&& final(state)@ == old(state)@
                &&& r matches Err(e) && e@ == profile_not_found(name@)
            },
        },
{
    match &file.profiles {
        Some(v) => {
            match find_profile(v, name) {
                Some(i) => {
                    let p = &v[i];
                    state.fps = p.fps;
                    state.quality = Quality::from_name(p.quality.as_str());
                    state.output_format = OutputFormat::from_name(p.format.as_str());
                    return Ok(get_settings(state));
                },
                None => {},
            }
        },
        None => {
            proof {
                lemma_index_named(stored_profiles(file@), name@);
            }
        },
    }
    let mut e = String::from_str("Profile '");
    e.append(name);
    e.append("' not found");
    Err(e)
}

/// A saved profile records the session's frame rate, and its quality and
/// format by their names ("high"/"medium"/"low", "mp4"/"webm"/"gif").
pub proof fn lemma_saved_profile_contents(s: StateView, name: Seq<char>)
    ensures
        profile_of(s, name) == (ProfileView {
            name,
            fps: s.fps,
            quality: match s.quality {
                Quality::High => "high"@,
                Quality::Medium => "medium"@,
                Quality::Low => "low"@,
            },
            format: match s.output_format {
                OutputFormat::Mp4 => "mp4"@,
                OutputFormat::WebM => "webm"@,
                OutputFormat::Gif => "gif"@,
            },
        }),
{
}

/// Applying a profile sets the frame rate, reads "high"/"low" as those tiers
/// (any other text as medium) and "gif"/"webm" as those formats (any other
/// text as MP4), and leaves the rest of the session alone.
pub proof fn lemma_applied_reads_names(t: StateView, p: ProfileView)
    ensures
        applied(t, p) == (StateView {
            fps: p.fps,
            quality: if p.quality == "high"@ {
                Quality::High
            } else if p.quality == "low"@ {
                Quality::Low
            } else {
                Quality::Medium
            },
            output_format: if p.format == "gif"@ {
                OutputFormat::Gif
            } else if p.format == "webm"@ {
                OutputFormat::WebM
            } else {
                OutputFormat::Mp4
            },
            ..t
        }),
{
}

/// Saving the settings of session `s` as a profile and then applying that
/// profile (by name) to any session `t` gives `t` the frame rate, quality and
/// format of `s`.
pub proof fn lemma_save_then_apply(ps: Seq<ProfileView>, s: StateView, t: StateView, name: Seq<char>)
    ensures
        find_named(upserted(ps, profile_of(s, name)), name) == Some(profile_of(s, name)),
        applied(t, profile_of(s, name)) == (StateView {
            fps: s.fps,
            quality: s.quality,
            output_format: s.output_format,
            ..t
        }),
{
    crate::profiles::lemma_save_then_find(ps, profile_of(s, name));
    lemma_quality_name_round_trip(s.quality);
    lemma_format_name_round_trip(s.output_format);
}

/// Deletes every profile called `name`.
pub fn delete_profile(file: &mut SettingsFile, name: &str)
    ensures
        final(file)@ == (SettingsFileView {
            profiles: match old(file)@.profiles {
                Some(ps) => Some(without_named(ps, name@)),
                None => None,
            },
            ..old(file)@
        }),
{
    match file.profiles.take() {
        Some(v) => {
            file.profiles = Some(profiles_without(&v, name));
        },
        None => {},
    }
}

// ── Recording ────────────────────────────────────────────────────────────────

/// Everything the capture thread needs, read from the session when a
/// recording starts.
#[derive(Debug)]
pub struct StartPlan {
    pub region: Option<CaptureRegion>,
    pub display_index: Option<usize>,
    pub format: OutputFormat,
    pub fps: u32,
    pub quality: Quality,
    /// the chosen folder, or `None` for the platform's video folder
    pub save_folder: Option<String>,
    /// name of the new file inside that folder
    pub file_name: String,
}

/// The name of a recording started at `timestamp` (seconds since the Unix
/// epoch): `pkap-<timestamp>.<extension>`.
pub open spec fn recording_file_name(timestamp: u64, format: OutputFormat) -> Seq<char> {
    "pkap-"@ + decimal(timestamp as nat) + "."@ + format.spec_name()
}

/// A recording's file name is `pkap-`, the start time in decimal, a dot,
/// and the extension of its format.
pub proof fn lemma_recording_file_name(timestamp: u64, format: OutputFormat)
    ensures
        recording_file_name(timestamp, format) == "pkap-"@ + decimal(timestamp as nat) + "."@ + match format {
            OutputFormat::Mp4 => "mp4"@,
            OutputFormat::WebM => "webm"@,
            OutputFormat::Gif => "gif"@,
        },
{
}

/// The file name of a recording started at `timestamp`.
pub fn output_file_name(timestamp: u64, format: OutputFormat) -> (s: String)
    ensures
        s@ == recording_file_name(timestamp, format),
{
    let mut s = String::from_str("pkap-");
    push_decimal(&mut s, timestamp);
    s.append(".");
    s.append(format.name());
    s
}

/// The path of a new recording: the file name inside the recording folder.
pub fn recording_path(dir: &PathBuf, file_name: &str) -> (p: PathBuf)
    ensures
        p == joined_path(*dir, file_name@),
{
    path_join(dir, file_name)
}

/// A session whose capture ended by itself accepts a new start request.
pub proof fn lemma_ended_capture_can_restart(s: StateView)
    requires
        s.recording,
    ensures
        !stopped(s).recording,
        stopped(started(stopped(s))) == stopped(s),
{
}

/// What a start request does: nothing while a capture runs, else it reads
/// the session's capture settings and names the new file after `timestamp`.
pub fn plan_start(state: &AppState, timestamp: u64) -> (r: Option<StartPlan>)
    ensures
        r is None <==> state.recording,
        r matches Some(p) ==> {
            &&& p.region == state.region
            &&& p.display_index == state.selected_display_index
            &&& p.format == state.output_format
            &&& p.fps == state.fps
            &&& p.quality == state.quality
            &&& p.save_folder == state.save_folder
            &&& p.file_name@ == recording_file_name(timestamp, state.output_format)
        },
{
    if state.is_recording() {
        return None;
    }
    Some(StartPlan {
        region: state.region,
        display_index: state.selected_display_index,
        format: state.output_format,
        fps: state.fps,
        quality: state.quality,
        save_folder: get_save_folder(state),
        file_name: output_file_name(timestamp, state.output_format),
    })
}

// ── Tray menu and global shortcut ────────────────────────────────────────────

/// What a tray menu entry asks for.
#[derive(Debug, Clone, Copy, PartialEq, Eq, Structural)]
pub enum TrayCommand {
    /// bring the main window to the front
    Show,
    /// stop the running capture
    Stop,
    /// leave the application
    Quit,
    /// an entry this menu does not know
    Ignore,
}

/// The command of the tray menu entry with the given id.
pub open spec fn spec_tray_command(id: Seq<char>) -> TrayCommand {
    if id == "show"@ {
        TrayCommand::Show
    } else if id == "stop"@ {
        TrayCommand::Stop
    } else if id == "quit"@ {
        TrayCommand::Quit
    } else {
        TrayCommand::Ignore
    }
}

/// The tray menu's entries are "show", "stop" and "quit"; any other id is
/// ignored.
pub proof fn lemma_tray_command_ids(id: Seq<char>)
    ensures
        spec_tray_command(id) == TrayCommand::Show <==> id == "show"@,
        id != "show"@ ==> (spec_tray_command(id) == TrayCommand::Stop <==> id == "stop"@),
        id != "show"@ && id != "stop"@ ==> (spec_tray_command(id) == TrayCommand::Quit <==> id == "quit"@),
        id != "show"@ && id != "stop"@ && id != "quit"@ ==> spec_tray_command(id) == TrayCommand::Ignore,
{
}

/// The command of the tray menu entry with the given id.
pub fn tray_command(id: &str) -> (c: TrayCommand)
    ensures
        c == spec_tray_command(id@),
{
    if same_text(id, "show") {
        TrayCommand::Show
    } else if same_text(id, "stop") {
        TrayCommand::Stop
    } else if same_text(id, "quit") {
        TrayCommand::Quit
    } else {
        TrayCommand::Ignore
    }
}

/// What the record shortcut asks for.
#[derive(Debug, Clone, Copy, PartialEq, Eq, Structural)]
pub enum ShortcutCommand {
    StartRecording,
    StopRecording,
    /// key releases do nothing
    Ignore,
}

/// The record shortcut toggles recording on key press.
pub fn shortcut_command(state: &AppState, pressed: bool) -> (c: ShortcutCommand)
    ensures
        c == (if !pressed {
            ShortcutCommand::Ignore
        } else if state.recording {
            ShortcutCommand::StopRecording
        } else {
            ShortcutCommand::StartRecording
        }),
{
    if !pressed {
        ShortcutCommand::Ignore
    } else if state.is_recording() {
        ShortcutCommand::StopRecording
    } else {
        ShortcutCommand::StartRecording
    }
}

} // verus!
