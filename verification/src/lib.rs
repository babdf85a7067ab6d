use vstd::prelude::*;

pub mod chars;
pub mod text;
pub mod ocr_text;
pub mod providers;
pub mod settings;
pub mod cli;
pub mod hotkey;
pub mod pixels;
pub mod control;
pub mod models;
pub mod runtime;
pub mod shell;
pub mod launch;
pub mod logging;
pub mod launcher;
pub mod toolbar;
pub mod pin_text;
pub mod pin_launch;
pub mod capture_flow;
pub mod pin_session;
pub mod overlay;

verus! {
} // verus!
