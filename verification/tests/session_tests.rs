use pkap::commands::{
    apply_profile, delete_profile, get_output_format, get_preview_info, get_profiles,
    get_recording_status, get_region, get_save_folder, get_settings, monitor_info,
    open_preview_window, output_file_name, recording_path, overlay_monitor, persist, plan_start,
    restore_settings, save_profile, select_full_screen, select_monitor, set_countdown, set_fps,
    set_output_format, set_quality, set_region, set_save_folder, shortcut_command, tray_command,
    MonitorInfo, ShortcutCommand, TrayCommand,
};
use pkap::settings_store::{settings_path, Profile, SettingsFile};
use pkap::state::{AppState, CaptureRegion, OutputFormat, Quality};
use std::path::PathBuf;

#[test]
fn new_state_defaults() {
    let s = AppState::new();
    assert!(!s.is_recording());
    assert_eq!(s.region, None);
    assert_eq!(s.selected_display_index, None);
    assert_eq!(s.save_folder, None);
    assert_eq!(s.output_format, OutputFormat::Mp4);
    assert!(s.pending_preview.is_none());
    assert_eq!(s.fps, 30);
    assert_eq!(s.quality, Quality::Medium);
    assert!(!s.countdown_enabled);
}

#[test]
fn quality_and_format_names_round_trip() {
    for q in [Quality::Low, Quality::Medium, Quality::High] {
        assert_eq!(Quality::from_name(q.name()), q);
    }
    for f in [OutputFormat::Mp4, OutputFormat::WebM, OutputFormat::Gif] {
        assert_eq!(OutputFormat::from_name(f.name()), f);
    }
    assert_eq!(Quality::from_name("ultra"), Quality::Medium);
    assert_eq!(Quality::from_name("HIGH"), Quality::Medium);
    assert_eq!(OutputFormat::from_name("avi"), OutputFormat::Mp4);
}

#[test]
fn settings_path_joins_file_name() {
    let p = settings_path(&PathBuf::from("/home/u/.config/pkap"));
    assert_eq!(p, PathBuf::from("/home/u/.config/pkap/settings.json"));
}

fn monitors() -> Vec<MonitorInfo> {
    vec![
        monitor_info(0, Some("Built-in".to_string()), 2880, 1800, 0, 0),
        monitor_info(1, None, 1920, 1080, 2880, 0),
    ]
}

#[test]
fn unnamed_monitor_is_named_by_position() {
    let m = monitors();
    assert_eq!(m[0].name, "Built-in");
    assert_eq!(m[1].name, "Display 2");
    assert_eq!(m[1].x, 2880);
}

#[test]
fn select_monitor_sets_full_region() {
    let mut s = AppState::new();
    let r = select_monitor(&mut s, &monitors(), 1).unwrap();
    assert_eq!(r, CaptureRegion { x: 0, y: 0, width: 1920, height: 1080 });
    assert_eq!(s.region, Some(r));
    assert_eq!(s.selected_display_index, Some(1));
}

#[test]
fn select_missing_monitor_is_an_error() {
    let mut s = AppState::new();
    assert_eq!(select_monitor(&mut s, &monitors(), 7), Err("No monitor at index 7".to_string()));
    assert_eq!(s.region, None);
    assert_eq!(s.selected_display_index, None);
}

#[test]
fn overlay_monitor_falls_back_to_first() {
    let mut s = AppState::new();
    assert_eq!(overlay_monitor(&s, 2), Ok(0));
    s.selected_display_index = Some(1);
    assert_eq!(overlay_monitor(&s, 2), Ok(1));
    assert_eq!(overlay_monitor(&s, 1), Ok(0));
    assert_eq!(overlay_monitor(&s, 0), Err("No monitors found".to_string()));
}

#[test]
fn region_commands() {
    let mut s = AppState::new();
    let r = set_region(&mut s, -10, 20, 300, 200);
    assert_eq!(get_region(&s), Some(r));
    assert_eq!(r, CaptureRegion { x: -10, y: 20, width: 300, height: 200 });
    assert_eq!(
        select_full_screen(&mut s, Some((1440, 900))),
        Ok(CaptureRegion { x: 0, y: 0, width: 1440, height: 900 })
    );
    assert_eq!(select_full_screen(&mut s, None), Err("No primary monitor found".to_string()));
    assert_eq!(s.region, Some(CaptureRegion { x: 0, y: 0, width: 1440, height: 900 }));
}

#[test]
fn setting_commands() {
    let mut s = AppState::new();
    set_fps(&mut s, 60);
    set_quality(&mut s, "high");
    set_countdown(&mut s, true);
    set_output_format(&mut s, "webm");
    set_save_folder(&mut s, "/videos".to_string());
    let st = get_settings(&s);
    assert_eq!(st.fps, 60);
    assert_eq!(st.quality, "high");
    assert!(st.countdown);
    assert_eq!(get_output_format(&s), "webm");
    assert_eq!(get_save_folder(&s), Some("/videos".to_string()));
    set_quality(&mut s, "low");
    assert_eq!(get_settings(&s).quality, "low");
    set_quality(&mut s, "whatever");
    assert_eq!(get_settings(&s).quality, "medium");
    set_output_format(&mut s, "gif");
    assert_eq!(get_output_format(&s), "gif");
    set_output_format(&mut s, "mov");
    assert_eq!(get_output_format(&s), "mp4");
}

#[test]
fn preview_hand_over() {
    let mut s = AppState::new();
    assert!(get_preview_info(&s).is_none());
    open_preview_window(&mut s, "/v/pkap-1.gif".to_string(), "gif".to_string());
    let p = get_preview_info(&s).unwrap();
    assert_eq!(p.path, "/v/pkap-1.gif");
    assert_eq!(p.format, "gif");
}

#[test]
fn persist_writes_settings_and_keeps_profiles() {
    let mut s = AppState::new();
    set_fps(&mut s, 15);
    set_quality(&mut s, "low");
    set_output_format(&mut s, "gif");
    set_countdown(&mut s, true);
    let mut f = SettingsFile::default();
    f.profiles = Some(vec![Profile { name: "a".into(), fps: 1, quality: "low".into(), format: "mp4".into() }]);
    persist(&s, &mut f);
    assert_eq!(f.fps, Some(15));
    assert_eq!(f.quality.as_deref(), Some("low"));
    assert_eq!(f.format.as_deref(), Some("gif"));
    assert_eq!(f.save_folder, None);
    assert_eq!(f.countdown, Some(true));
    assert_eq!(f.profiles.as_ref().unwrap().len(), 1);
}

#[test]
fn settings_survive_restart() {
    let mut s = AppState::new();
    set_fps(&mut s, 24);
    set_quality(&mut s, "high");
    set_output_format(&mut s, "webm");
    set_countdown(&mut s, true);
    set_save_folder(&mut s, "/rec".to_string());
    let mut f = SettingsFile::default();
    persist(&s, &mut f);
    let mut fresh = AppState::new();
    restore_settings(&mut fresh, &f);
    assert_eq!(fresh.fps, 24);
    assert_eq!(fresh.quality, Quality::High);
    assert_eq!(fresh.output_format, OutputFormat::WebM);
    assert!(fresh.countdown_enabled);
    assert_eq!(fresh.save_folder, Some("/rec".to_string()));
    assert!(!fresh.recording);
}

#[test]
fn restoring_an_empty_file_keeps_defaults() {
    let mut s = AppState::new();
    restore_settings(&mut s, &SettingsFile::default());
    assert_eq!(s.fps, 30);
    assert_eq!(s.quality, Quality::Medium);
    assert_eq!(s.output_format, OutputFormat::Mp4);
}

fn names(f: &SettingsFile) -> Vec<String> {
    get_profiles(f).into_iter().map(|p| p.name).collect()
}

#[test]
fn save_then_apply_profile() {
    let mut s = AppState::new();
    let mut f = SettingsFile::default();
    set_fps(&mut s, 60);
    set_quality(&mut s, "high");
    set_output_format(&mut s, "gif");
    save_profile(&s, &mut f, "demo".to_string());
    let mut other = AppState::new();
    let st = apply_profile(&mut other, &f, "demo").unwrap();
    assert_eq!(st.fps, 60);
    assert_eq!(st.quality, "high");
    assert_eq!(other.output_format, OutputFormat::Gif);
}

#[test]
fn saving_an_existing_name_replaces_it() {
    let mut s = AppState::new();
    let mut f = SettingsFile::default();
    save_profile(&s, &mut f, "a".to_string());
    save_profile(&s, &mut f, "b".to_string());
    set_fps(&mut s, 10);
    save_profile(&s, &mut f, "a".to_string());
    assert_eq!(names(&f), vec!["a", "b"]);
    let ps = get_profiles(&f);
    assert_eq!(ps[0].fps, 10);
    assert_eq!(ps[1].fps, 30);
}

#[test]
fn applying_a_missing_profile_is_an_error() {
    let mut s = AppState::new();
    let f = SettingsFile::default();
    let e = apply_profile(&mut s, &f, "nope").unwrap_err();
    assert_eq!(e, "Profile 'nope' not found");
    assert_eq!(s.fps, 30);
}

#[test]
fn delete_profile_removes_only_that_name() {
    let s = AppState::new();
    let mut f = SettingsFile::default();
    save_profile(&s, &mut f, "a".to_string());
    save_profile(&s, &mut f, "b".to_string());
    save_profile(&s, &mut f, "c".to_string());
    delete_profile(&mut f, "b");
    assert_eq!(names(&f), vec!["a", "c"]);
    let mut t = AppState::new();
    assert!(apply_profile(&mut t, &f, "b").is_err());
    assert!(apply_profile(&mut t, &f, "c").is_ok());
}

#[test]
fn delete_without_profiles_changes_nothing() {
    let mut f = SettingsFile::default();
    delete_profile(&mut f, "x");
    assert!(f.profiles.is_none());
    assert!(get_profiles(&f).is_empty());
}

#[test]
fn delete_undoes_save() {
    let s = AppState::new();
    let mut f = SettingsFile::default();
    save_profile(&s, &mut f, "a".to_string());
    save_profile(&s, &mut f, "b".to_string());
    delete_profile(&mut f, "b");
    assert_eq!(names(&f), vec!["a"]);
}

#[test]
fn start_and_stop_recording() {
    let mut s = AppState::new();
    set_output_format(&mut s, "webm");
    set_region(&mut s, 1, 2, 3, 4);
    let plan = plan_start(&s, 1717000000).unwrap();
    assert_eq!(plan.file_name, "pkap-1717000000.webm");
    assert_eq!(plan.format, OutputFormat::WebM);
    assert_eq!(plan.region, Some(CaptureRegion { x: 1, y: 2, width: 3, height: 4 }));
    assert_eq!(plan.fps, 30);
    assert_eq!(plan.save_folder, None);
    s.begin_recording();
    assert!(get_recording_status(&s));
    assert!(plan_start(&s, 5).is_none());
    assert!(s.end_recording());
    assert!(!s.is_recording());
    assert!(!s.end_recording());
    assert!(!s.is_recording());
}

#[test]
fn output_file_names() {
    assert_eq!(output_file_name(0, OutputFormat::Mp4), "pkap-0.mp4");
    assert_eq!(output_file_name(42, OutputFormat::Gif), "pkap-42.gif");
}

#[test]
fn tray_and_shortcut() {
    assert_eq!(tray_command("show"), TrayCommand::Show);
    assert_eq!(tray_command("stop"), TrayCommand::Stop);
    assert_eq!(tray_command("quit"), TrayCommand::Quit);
    assert_eq!(tray_command("other"), TrayCommand::Ignore);
    let mut s = AppState::new();
    assert_eq!(shortcut_command(&s, true), ShortcutCommand::StartRecording);
    assert_eq!(shortcut_command(&s, false), ShortcutCommand::Ignore);
    s.begin_recording();
    assert_eq!(shortcut_command(&s, true), ShortcutCommand::StopRecording);
}

#[test]
fn capture_ending_by_itself_allows_a_new_start() {
    let mut s = AppState::new();
    s.begin_recording();
    assert!(plan_start(&s, 1).is_none());
    s.capture_ended();
    assert!(!s.is_recording());
    assert_eq!(plan_start(&s, 2).unwrap().file_name, "pkap-2.mp4");
}

#[test]
fn recording_path_joins_folder_and_file() {
    let p = recording_path(&PathBuf::from("/home/u/Movies"), "pkap-5.gif");
    assert_eq!(p, PathBuf::from("/home/u/Movies/pkap-5.gif"));
}
