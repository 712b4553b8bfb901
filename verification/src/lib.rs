//! FixText: the settings, prompt profiles, shortcut handling, request
//! building and response reading behind a small clipboard rewrite tool.
pub mod text;
pub mod json;
pub mod shortcut;
pub mod settings;
pub mod defaults;
pub mod generation;
pub mod utf16;
pub mod keys;
pub mod activity;
pub mod clock;
pub mod paths;
pub mod flow;
