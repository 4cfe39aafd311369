//! Verified core of the WhatsApp Desktop shell: the settings model, the
//! menu and tray decisions, the start-up plan and the issue-report text.

pub mod encoding;
pub mod menu;
pub mod report;
pub mod settings;
pub mod startup;
pub mod text;
pub mod tray;
