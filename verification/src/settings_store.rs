//! What the recorder keeps on disk between sessions: the settings file, its
//! named profiles, and where the file lives.
use vstd::prelude::*;
use std::path::PathBuf;
use crate::state::opt_text;

verus! {

#[verifier::external_type_specification]
#[verifier::external_body]
pub struct ExPathBuf(PathBuf);

/// The path that `Path::join` gives for `base` joined with `component`.
pub uninterp spec fn joined_path(base: PathBuf, component: Seq<char>) -> PathBuf;

/// Calls `Path::join`, a function of its two arguments alone; its result is
/// named by `joined_path` and nothing more is said of it here.
#[verifier::external_body]
pub(crate) fn path_join(base: &PathBuf, component: &str) -> (p: PathBuf)
    ensures
        p == joined_path(*base, component@),
{
    base.join(component)
}

/// The name of the settings file inside the configuration directory.
pub const SETTINGS_FILE_NAME: &'static str = "settings.json";

/// The path of the settings file inside the given configuration directory.
pub fn settings_path(config_dir: &PathBuf) -> (p: PathBuf)
    ensures
        p == joined_path(*config_dir, SETTINGS_FILE_NAME@),
{
    path_join(config_dir, SETTINGS_FILE_NAME)
}

/// A named set of capture settings that the user can switch to.
#[derive(Debug)]
pub struct Profile {
    pub name: String,
    pub fps: u32,
    pub quality: String,
    pub format: String,
}

/// The contents of a [`Profile`].
pub ghost struct ProfileView {
    pub name: Seq<char>,
    pub fps: u32,
    pub quality: Seq<char>,
    pub format: Seq<char>,
}

impl View for Profile {
    type V = ProfileView;

    open spec fn view(&self) -> ProfileView {
        ProfileView { name: self.name@, fps: self.fps, quality: self.quality@, format: self.format@ }
    }
}

impl Clone for Profile {
    fn clone(&self) -> (c: Self)
        ensures
            c == *self,
    {
        Profile {
            name: self.name.clone(),
            fps: self.fps,
            quality: self.quality.clone(),
            format: self.format.clone(),
        }
    }
}

impl Default for Profile {
    fn default() -> (p: Self)
        ensures
            p@ == (ProfileView { name: seq![], fps: 0, quality: seq![], format: seq![] }),
    {
        Profile { name: String::new(), fps: 0, quality: String::new(), format: String::new() }
    }
}

/// The contents of a list of profiles.
pub open spec fn profile_views(v: Seq<Profile>) -> Seq<ProfileView> {
    v.map_values(|p: Profile| p@)
}

/// The settings file: every entry is optional, an absent entry keeps the
/// built-in default.
#[derive(Debug)]
pub struct SettingsFile {
    pub fps: Option<u32>,
    pub quality: Option<String>,
    pub format: Option<String>,
    pub save_folder: Option<String>,
    pub countdown: Option<bool>,
    pub profiles: Option<Vec<Profile>>,
}

/// The contents of a [`SettingsFile`].
pub ghost struct SettingsFileView {
    pub fps: Option<u32>,
    pub quality: Option<Seq<char>>,
    pub format: Option<Seq<char>>,
    pub save_folder: Option<Seq<char>>,
    pub countdown: Option<bool>,
    pub profiles: Option<Seq<ProfileView>>,
}

impl View for SettingsFile {
    type V = SettingsFileView;

    open spec fn view(&self) -> SettingsFileView {
        SettingsFileView {
            fps: self.fps,
            quality: opt_text(self.quality),
            format: opt_text(self.format),
            save_folder: opt_text(self.save_folder),
            countdown: self.countdown,
            profiles: match self.profiles {
                Some(v) => Some(profile_views(v@)),
                None => None,
            },
        }
    }
}

/// A settings file with no entry at all.
pub open spec fn empty_settings() -> SettingsFileView {
    SettingsFileView {
        fps: None,
        quality: None,
        format: None,
        save_folder: None,
        countdown: None,
        profiles: None,
    }
}

impl Default for SettingsFile {
    fn default() -> (f: Self)
        ensures
            f@ == empty_settings(),
    {
        SettingsFile {
            fps: None,
            quality: None,
            format: None,
            save_folder: None,
            countdown: None,
            profiles: None,
        }
    }
}

/// The saved profiles, in file order; a file without a profile list has none.
pub open spec fn stored_profiles(f: SettingsFileView) -> Seq<ProfileView> {
    match f.profiles {
        Some(ps) => ps,
        None => seq![],
    }
}

} // verus!
