//! The persisted settings: their keys, their defaults and how a stored value
//! is read.

use vstd::prelude::*;

verus! {

/// The file of the settings store.
pub const SETTINGS_STORE_FILE: &'static str = "settings.json";

/// Every setting is on until the user turns it off.
pub const SETTING_DEFAULT: bool = true;

/// The keys under which settings are stored.
#[derive(Clone, Copy, Debug, PartialEq, Eq, Structural)]
pub enum SettingKey {
    /// Show the tray icon (and keep running in the tray when the window is closed).
    TrayEnabled,
    /// Launch the application on startup.
    AutostartEnabled,
    /// When launched on startup, start hidden in the tray.
    AutostartHidden,
}

/// The name of a key in the store.
pub open spec fn key_name_text(key: SettingKey) -> Seq<char> {
    match key {
        SettingKey::TrayEnabled => "tray_enabled"@,
        SettingKey::AutostartEnabled => "autostart_enabled"@,
        SettingKey::AutostartHidden => "autostart_hidden"@,
    }
}

impl SettingKey {
    /// The name of this key in the store.
    pub fn name(&self) -> (name: &'static str)
        ensures
            name@ == key_name_text(*self),
    {
        match self {
            SettingKey::TrayEnabled => "tray_enabled",
            SettingKey::AutostartEnabled => "autostart_enabled",
            SettingKey::AutostartHidden => "autostart_hidden",
        }
    }
}

/// The value of a setting given what the store holds for it: the stored
/// boolean, or `default` when there is none (the store could not be opened,
/// the key is absent, or its value is not a boolean).
pub fn get(stored: Option<bool>, default: bool) -> (value: bool)
    ensures
        value == match stored {
            Some(v) => v,
            None => default,
        },
{
    match stored {
        Some(v) => v,
        None => default,
    }
}

/// The values of all settings, with defaults applied.
#[derive(Clone, Copy, Debug, PartialEq, Eq, Structural)]
pub struct Settings {
    pub tray_enabled: bool,
    pub autostart_enabled: bool,
    pub autostart_hidden: bool,
}

impl Settings {
    /// These settings with one of them replaced.
    pub open spec fn with(self, key: SettingKey, value: bool) -> Settings {
        match key {
            SettingKey::TrayEnabled => Settings { tray_enabled: value, ..self },
            SettingKey::AutostartEnabled => Settings { autostart_enabled: value, ..self },
            SettingKey::AutostartHidden => Settings { autostart_hidden: value, ..self },
        }
    }

    /// The settings read from what the store holds for each key, each
    /// defaulting to `SETTING_DEFAULT`.
    pub fn from_stored(
        tray_enabled: Option<bool>,
        autostart_enabled: Option<bool>,
        autostart_hidden: Option<bool>,
    ) -> (settings: Settings)
        ensures
            settings.tray_enabled == tray_enabled.unwrap_or(SETTING_DEFAULT),
            settings.autostart_enabled == autostart_enabled.unwrap_or(SETTING_DEFAULT),
            settings.autostart_hidden == autostart_hidden.unwrap_or(SETTING_DEFAULT),
    {
        Settings {
            tray_enabled: get(tray_enabled, SETTING_DEFAULT),
            autostart_enabled: get(autostart_enabled, SETTING_DEFAULT),
            autostart_hidden: get(autostart_hidden, SETTING_DEFAULT),
        }
    }

}

} // verus!
