//! Recording-session logic of the pkap screen recorder: capture settings,
//! saved profiles, the recording state machine and the ffmpeg command line.
pub mod text;
pub mod state;
pub mod settings_store;
pub mod capture;
pub mod profiles;
pub mod commands;
