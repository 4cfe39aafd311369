//! The application menu: its items, their initial state, and what each
//! menu event does to the settings, the menu and the tray.

use vstd::prelude::*;
use crate::settings::{SettingKey, Settings};
use crate::text::same_text;

verus! {

/// Id of the "Show tray icon" check item.
pub const TRAY_ENABLED_ID: &'static str = "tray-enabled";

/// Id of the "Launch on startup" check item.
pub const AUTOSTART_ENABLED_ID: &'static str = "autostart-enabled";

/// Id of the "Launch hidden in tray icon on startup" check item.
pub const AUTOSTART_HIDDEN_ID: &'static str = "autostart-hidden";

/// Id of the "Reload" item.
pub const RELOAD_ID: &'static str = "reload";

/// Id of the "About" item.
pub const ABOUT_ID: &'static str = "about";

/// Title of the settings submenu.
pub const SETTINGS_MENU_TITLE: &'static str = "Settings";

/// Label of the tray check item.
pub const TRAY_ENABLED_LABEL: &'static str = "Show tray icon";

/// Label of the autostart check item.
pub const AUTOSTART_ENABLED_LABEL: &'static str = "Launch on startup";

/// Label of the hidden-autostart check item.
pub const AUTOSTART_HIDDEN_LABEL: &'static str = "Launch hidden in tray icon on startup";

/// Label of the reload item.
pub const RELOAD_LABEL: &'static str = "Reload";

/// Keyboard shortcut of the reload item.
pub const RELOAD_ACCELERATOR: &'static str = "CmdOrCtrl+R";

/// Label of the about item.
pub const ABOUT_LABEL: &'static str = "About";

/// Title of the about dialog.
pub const ABOUT_TITLE: &'static str = "About WhatsApp Desktop";

/// The initial state of the settings check items.
#[derive(Clone, Copy, Debug, PartialEq, Eq, Structural)]
pub struct MenuSetup {
    /// The tray item can always be used.
    pub tray_enabled: bool,
    pub tray_checked: bool,
    /// The autostart item can always be used.
    pub autostart_enabled: bool,
    pub autostart_checked: bool,
    /// The hidden-autostart item can only be used while autostart is on.
    pub autostart_hidden_enabled: bool,
    pub autostart_hidden_checked: bool,
}

/// Launching hidden takes autostart, the tray icon and the setting itself.
pub open spec fn launches_hidden(settings: Settings) -> bool {
    settings.autostart_enabled && settings.tray_enabled && settings.autostart_hidden
}

/// The state in which the settings check items are created.
pub fn setup_menu(settings: &Settings) -> (setup: MenuSetup)
    ensures
        setup == (MenuSetup {
            tray_enabled: true,
            tray_checked: settings.tray_enabled,
            autostart_enabled: true,
            autostart_checked: settings.autostart_enabled,
            autostart_hidden_enabled: settings.autostart_enabled,
            autostart_hidden_checked: launches_hidden(*settings),
        }),
        setup.tray_enabled && setup.autostart_enabled,
        setup.tray_checked == settings.tray_enabled,
        setup.autostart_checked == settings.autostart_enabled,
        setup.autostart_hidden_enabled == settings.autostart_enabled,
        setup.autostart_hidden_checked == (settings.autostart_enabled && settings.tray_enabled
            && settings.autostart_hidden),
{
    MenuSetup {
        tray_enabled: true,
        tray_checked: settings.tray_enabled,
        autostart_enabled: true,
        autostart_checked: settings.autostart_enabled,
        autostart_hidden_enabled: settings.autostart_enabled,
        autostart_hidden_checked: settings.autostart_enabled && settings.tray_enabled
            && settings.autostart_hidden,
    }
}

/// What a menu item's id asks for.
#[derive(Clone, Copy, Debug, PartialEq, Eq, Structural)]
pub enum MenuCommand {
    ToggleTray,
    ToggleAutostart,
    ToggleAutostartHidden,
    Reload,
    About,
    Unknown,
}

/// The command of a menu item id.
pub open spec fn menu_command_of(id: Seq<char>) -> MenuCommand {
    if id == TRAY_ENABLED_ID@ {
        MenuCommand::ToggleTray
    } else if id == AUTOSTART_ENABLED_ID@ {
        MenuCommand::ToggleAutostart
    } else if id == AUTOSTART_HIDDEN_ID@ {
        MenuCommand::ToggleAutostartHidden
    } else if id == RELOAD_ID@ {
        MenuCommand::Reload
    } else if id == ABOUT_ID@ {
        MenuCommand::About
    } else {
        MenuCommand::Unknown
    }
}

/// Each command comes from its own item id and from no other.
pub proof fn menu_commands_come_only_from_their_ids(id: Seq<char>)
    ensures
        menu_command_of(id) == MenuCommand::ToggleTray <==> id == "tray-enabled"@,
        menu_command_of(id) == MenuCommand::ToggleAutostart <==> id == "autostart-enabled"@,
        menu_command_of(id) == MenuCommand::ToggleAutostartHidden <==> id == "autostart-hidden"@,
        menu_command_of(id) == MenuCommand::Reload <==> id == "reload"@,
        menu_command_of(id) == MenuCommand::About <==> id == "about"@,
{
    reveal_strlit("tray-enabled");
    reveal_strlit("autostart-enabled");
    reveal_strlit("autostart-hidden");
    reveal_strlit("reload");
    reveal_strlit("about");
    assert("tray-enabled"@.len() == 12);
    assert("autostart-enabled"@.len() == 17);
    assert("autostart-hidden"@.len() == 16);
    assert("reload"@.len() == 6);
    assert("about"@.len() == 5);
}

/// The command of a menu item id.
pub fn menu_command(id: &str) -> (command: MenuCommand)
    ensures
        command == menu_command_of(id@),
        command == MenuCommand::ToggleTray <==> id@ == "tray-enabled"@,
        command == MenuCommand::ToggleAutostart <==> id@ == "autostart-enabled"@,
        command == MenuCommand::ToggleAutostartHidden <==> id@ == "autostart-hidden"@,
        command == MenuCommand::Reload <==> id@ == "reload"@,
        command == MenuCommand::About <==> id@ == "about"@,
{
    proof {
        menu_commands_come_only_from_their_ids(id@);
    }
    if same_text(id, TRAY_ENABLED_ID) {
        MenuCommand::ToggleTray
    } else if same_text(id, AUTOSTART_ENABLED_ID) {
        MenuCommand::ToggleAutostart
    } else if same_text(id, AUTOSTART_HIDDEN_ID) {
        MenuCommand::ToggleAutostartHidden
    } else if same_text(id, RELOAD_ID) {
        MenuCommand::Reload
    } else if same_text(id, ABOUT_ID) {
        MenuCommand::About
    } else {
        MenuCommand::Unknown
    }
}

/// What the application observed when a menu event arrived.
#[derive(Clone, Copy, Debug, PartialEq, Eq, Structural)]
pub struct MenuObservations {
    /// The settings check items have been created and registered.
    pub items_ready: bool,
    /// Whether the system has the application registered to launch on
    /// startup; `None` when that could not be determined.
    pub autostart_registered: Option<bool>,
    /// The tray icon exists.
    pub tray_present: bool,
    /// The main window exists.
    pub window_present: bool,
    /// The application has a menu.
    pub menu_present: bool,
}

/// One step of handling a menu event, performed in order by the caller.
#[derive(Clone, Copy, Debug, PartialEq, Eq, Structural)]
pub enum MenuAction {
    /// Show or hide the tray icon.
    SetTrayVisible(bool),
    /// Check or uncheck the tray item.
    CheckTray(bool),
    /// Check or uncheck the autostart item.
    CheckAutostart(bool),
    /// Check or uncheck the hidden-autostart item.
    CheckAutostartHidden(bool),
    /// Enable or disable the hidden-autostart item.
    EnableAutostartHiddenItem(bool),
    /// Register (`true`) or unregister the application to launch on startup.
    RegisterAutostart(bool),
    /// Set the menu again so that the changed items are shown.
    RefreshMenu,
    /// Write a setting to the store.
    Store(SettingKey, bool),
    /// Reload the main window.
    ReloadWindow,
    /// Show the about dialog.
    ShowAbout,
}

/// The steps that handle `command`, given the settings and what was observed.
pub open spec fn menu_actions(
    command: MenuCommand,
    settings: Settings,
    observed: MenuObservations,
) -> Seq<MenuAction> {
    if !observed.items_ready {
        seq![]
    } else {
        match command {
            MenuCommand::ToggleTray => {
                let on = !settings.tray_enabled;
                if on && observed.tray_present {
                    seq![
                        MenuAction::SetTrayVisible(true),
                        MenuAction::CheckTray(true),
                        MenuAction::Store(SettingKey::TrayEnabled, true),
                    ]
                } else if on {
                    seq![
                        MenuAction::CheckTray(true),
                        MenuAction::Store(SettingKey::TrayEnabled, true),
                    ]
                } else if observed.tray_present {
                    seq![
                        MenuAction::SetTrayVisible(false),
                        MenuAction::CheckTray(false),
                        MenuAction::Store(SettingKey::TrayEnabled, false),
                        MenuAction::CheckAutostartHidden(false),
                        MenuAction::Store(SettingKey::AutostartHidden, false),
                    ]
                } else {
                    seq![
                        MenuAction::CheckTray(false),
                        MenuAction::Store(SettingKey::TrayEnabled, false),
                        MenuAction::CheckAutostartHidden(false),
                        MenuAction::Store(SettingKey::AutostartHidden, false),
                    ]
                }
            },
            MenuCommand::ToggleAutostart => {
                let on = !observed.autostart_registered.unwrap_or(false);
                if on && observed.menu_present {
                    seq![
                        MenuAction::RegisterAutostart(true),
                        MenuAction::CheckAutostart(true),
                        MenuAction::EnableAutostartHiddenItem(true),
                        MenuAction::RefreshMenu,
                        MenuAction::Store(SettingKey::AutostartEnabled, true),
                    ]
                } else if on {
                    seq![
                        MenuAction::RegisterAutostart(true),
                        MenuAction::CheckAutostart(true),
                        MenuAction::EnableAutostartHiddenItem(true),
                        MenuAction::Store(SettingKey::AutostartEnabled, true),
                    ]
                } else if observed.menu_present {
                    seq![
                        MenuAction::RegisterAutostart(false),
                        MenuAction::CheckAutostart(false),
                        MenuAction::EnableAutostartHiddenItem(false),
                        MenuAction::CheckAutostartHidden(false),
                        MenuAction::RefreshMenu,
                        MenuAction::Store(SettingKey::AutostartEnabled, false),
                        MenuAction::Store(SettingKey::AutostartHidden, false),
                    ]
                } else {
                    seq![
                        MenuAction::RegisterAutostart(false),
                        MenuAction::CheckAutostart(false),
                        MenuAction::EnableAutostartHiddenItem(false),
                        MenuAction::CheckAutostartHidden(false),
                        MenuAction::Store(SettingKey::AutostartEnabled, false),
                        MenuAction::Store(SettingKey::AutostartHidden, false),
                    ]
                }
            },
            MenuCommand::ToggleAutostartHidden => {
                let on = !settings.autostart_hidden;
                if on && observed.tray_present {
                    seq![
                        MenuAction::CheckAutostartHidden(true),
                        MenuAction::SetTrayVisible(true),
                        MenuAction::CheckTray(true),
                        MenuAction::Store(SettingKey::TrayEnabled, true),
                        MenuAction::Store(SettingKey::AutostartHidden, true),
                    ]
                } else {
                    seq![
                        MenuAction::CheckAutostartHidden(on),
                        MenuAction::Store(SettingKey::AutostartHidden, on),
                    ]
                }
            },
            MenuCommand::Reload => {
                if observed.window_present {
                    seq![MenuAction::ReloadWindow]
                } else {
                    seq![]
                }
            },
            MenuCommand::About => seq![MenuAction::ShowAbout],
            MenuCommand::Unknown => seq![],
        }
    }
}

/// Decides how to handle the menu event with item id `id`: the steps, in
/// order, that the caller performs. Nothing happens before the menu items
/// exist.
pub fn handle_menu_event(id: &str, settings: &Settings, observed: &MenuObservations) -> (actions:
    Vec<MenuAction>)
    ensures
        actions@ == menu_actions(menu_command_of(id@), *settings, *observed),
{
    let command = menu_command(id);
    let mut actions: Vec<MenuAction> = Vec::new();
    if !observed.items_ready {
        return actions;
    }
    match command {
        MenuCommand::ToggleTray => {
            let enabled = !settings.tray_enabled;
            if observed.tray_present {
                actions.push(MenuAction::SetTrayVisible(enabled));
            }
            actions.push(MenuAction::CheckTray(enabled));
            actions.push(MenuAction::Store(SettingKey::TrayEnabled, enabled));
            if !enabled {
                actions.push(MenuAction::CheckAutostartHidden(false));
                actions.push(MenuAction::Store(SettingKey::AutostartHidden, false));
            }
        },
        MenuCommand::ToggleAutostart => {
            let registered = match observed.autostart_registered {
                Some(r) => r,
                None => false,
            };
            let enabled = !registered;
            actions.push(MenuAction::RegisterAutostart(enabled));
            actions.push(MenuAction::CheckAutostart(enabled));
            actions.push(MenuAction::EnableAutostartHiddenItem(enabled));
            if !enabled {
                actions.push(MenuAction::CheckAutostartHidden(false));
            }
            if observed.menu_present {
                actions.push(MenuAction::RefreshMenu);
            }
            actions.push(MenuAction::Store(SettingKey::AutostartEnabled, enabled));
            if !enabled {
                actions.push(MenuAction::Store(SettingKey::AutostartHidden, false));
            }
        },
        MenuCommand::ToggleAutostartHidden => {
            let enabled = !settings.autostart_hidden;
            actions.push(MenuAction::CheckAutostartHidden(enabled));
            if enabled && observed.tray_present {
                actions.push(MenuAction::SetTrayVisible(true));
                actions.push(MenuAction::CheckTray(true));
                actions.push(MenuAction::Store(SettingKey::TrayEnabled, true));
            }
            actions.push(MenuAction::Store(SettingKey::AutostartHidden, enabled));
        },
        MenuCommand::Reload => {
            if observed.window_present {
                actions.push(MenuAction::ReloadWindow);
            }
        },
        MenuCommand::About => {
            actions.push(MenuAction::ShowAbout);
        },
        MenuCommand::Unknown => {},
    }
    actions
}


/// The text of the about dialog.
pub open spec fn about_message_text(
    description: Seq<char>,
    version: Seq<char>,
    authors: Seq<char>,
    license: Seq<char>,
    repository: Seq<char>,
) -> Seq<char> {
    description + "\n\nVersion: "@ + version + "\nAuthor: "@ + authors + "\nLicense: "@ + license
        + "\nRepository: "@ + repository
}

/// The text of the about dialog, from the package's description, version,
/// authors, license and repository.
pub fn about_message(
    description: &str,
    version: &str,
    authors: &str,
    license: &str,
    repository: &str,
) -> (message: String)
    ensures
        message@ == about_message_text(description@, version@, authors@, license@, repository@),
{
    let mut message = String::from_str(description);
    message.append("\n\nVersion: ");
    message.append(version);
    message.append("\nAuthor: ");
    message.append(authors);
    message.append("\nLicense: ");
    message.append(license);
    message.append("\nRepository: ");
    message.append(repository);
    message
}

/// The settings once the `Store` steps among `actions` are written.
pub open spec fn settings_after(settings: Settings, actions: Seq<MenuAction>) -> Settings
    decreases actions.len(),
{
    if actions.len() == 0 {
        settings
    } else {
        let next = match actions[0] {
            MenuAction::Store(key, value) => settings.with(key, value),
            _ => settings,
        };
        settings_after(next, actions.drop_first())
    }
}

/// What the user sees of the settings: the check items and the tray icon.
#[derive(Clone, Copy, Debug, PartialEq, Eq, Structural)]
pub struct Shown {
    pub menu: MenuSetup,
    pub tray_visible: bool,
}

/// What is shown once the menu and tray steps among `actions` are done.
pub open spec fn shown_after(shown: Shown, actions: Seq<MenuAction>) -> Shown
    decreases actions.len(),
{
    if actions.len() == 0 {
        shown
    } else {
        let menu = shown.menu;
        let next = match actions[0] {
            MenuAction::SetTrayVisible(v) => Shown { tray_visible: v, ..shown },
            MenuAction::CheckTray(v) => Shown { menu: MenuSetup { tray_checked: v, ..menu }, ..shown },
            MenuAction::CheckAutostart(v) => Shown {
                menu: MenuSetup { autostart_checked: v, ..menu },
                ..shown
            },
            MenuAction::CheckAutostartHidden(v) => Shown {
                menu: MenuSetup { autostart_hidden_checked: v, ..menu },
                ..shown
            },
            MenuAction::EnableAutostartHiddenItem(v) => Shown {
                menu: MenuSetup { autostart_hidden_enabled: v, ..menu },
                ..shown
            },
            _ => shown,
        };
        shown_after(next, actions.drop_first())
    }
}

/// The tray and autostart check items, and the tray icon where there is one,
/// agree with the settings.
pub open spec fn shown_in_step(shown: Shown, settings: Settings, tray_present: bool) -> bool {
    &&& shown.menu.tray_checked == settings.tray_enabled
    &&& shown.menu.autostart_checked == settings.autostart_enabled
    &&& tray_present ==> shown.tray_visible == settings.tray_enabled
}

/// Each toggle flips the setting it is named after: the tray and
/// hidden-autostart settings from their stored value, the autostart setting
/// from whether the system has the application registered.
pub proof fn toggles_flip_their_setting(settings: Settings, observed: MenuObservations)
    requires
        observed.items_ready,
    ensures
        settings_after(settings, menu_actions(MenuCommand::ToggleTray, settings, observed)).tray_enabled
            == !settings.tray_enabled,
        settings_after(
            settings,
            menu_actions(MenuCommand::ToggleAutostart, settings, observed),
        ).autostart_enabled == !observed.autostart_registered.unwrap_or(false),
        settings_after(
            settings,
            menu_actions(MenuCommand::ToggleAutostartHidden, settings, observed),
        ).autostart_hidden == !settings.autostart_hidden,
{
    reveal_with_fuel(settings_after, 8);
}

/// Toggling the tray icon twice gives back the tray setting.
pub proof fn toggle_tray_twice_restores_it(settings: Settings, observed: MenuObservations)
    ensures
        ({
            let once = settings_after(
                settings,
                menu_actions(MenuCommand::ToggleTray, settings, observed),
            );
            let twice = settings_after(once, menu_actions(MenuCommand::ToggleTray, once, observed));
            twice.tray_enabled == settings.tray_enabled
        }),
{
    reveal_with_fuel(settings_after, 8);
}

/// Launching hidden is only set where it can take effect: with the tray icon
/// and autostart on.
pub open spec fn hidden_launch_consistent(settings: Settings) -> bool {
    settings.autostart_hidden ==> settings.tray_enabled && settings.autostart_enabled
}

/// Every menu event keeps `hidden_launch_consistent`, except turning hidden
/// launch on while the tray icon is missing or autostart is off (the menu
/// disables that item while autostart is off).
pub proof fn menu_events_keep_hidden_launch_consistent(
    command: MenuCommand,
    settings: Settings,
    observed: MenuObservations,
)
    requires
        hidden_launch_consistent(settings),
        command == MenuCommand::ToggleAutostartHidden ==> observed.tray_present
            && settings.autostart_enabled,
    ensures
        hidden_launch_consistent(settings_after(settings, menu_actions(command, settings, observed))),
{
    reveal_with_fuel(settings_after, 8);
}

/// The tray toggle keeps what is shown in step with the settings.
proof fn toggle_tray_keeps_shown_in_step(
    settings: Settings,
    observed: MenuObservations,
    shown: Shown,
)
    requires
        observed.items_ready,
        shown_in_step(shown, settings, observed.tray_present),
    ensures
        shown_in_step(
            shown_after(shown, menu_actions(MenuCommand::ToggleTray, settings, observed)),
            settings_after(settings, menu_actions(MenuCommand::ToggleTray, settings, observed)),
            observed.tray_present,
        ),
{
    reveal_with_fuel(settings_after, 6);
    reveal_with_fuel(shown_after, 6);
}

proof fn toggle_autostart_keeps_shown_in_step(
    settings: Settings,
    observed: MenuObservations,
    shown: Shown,
)
    requires
        observed.items_ready,
        shown_in_step(shown, settings, observed.tray_present),
    ensures
        shown_in_step(
            shown_after(shown, menu_actions(MenuCommand::ToggleAutostart, settings, observed)),
            settings_after(
                settings,
                menu_actions(MenuCommand::ToggleAutostart, settings, observed),
            ),
            observed.tray_present,
        ),
{
    reveal_with_fuel(settings_after, 8);
    reveal_with_fuel(shown_after, 8);
}

proof fn toggle_autostart_hidden_keeps_shown_in_step(
    settings: Settings,
    observed: MenuObservations,
    shown: Shown,
)
    requires
        observed.items_ready,
        shown_in_step(shown, settings, observed.tray_present),
    ensures
        shown_in_step(
            shown_after(
                shown,
                menu_actions(MenuCommand::ToggleAutostartHidden, settings, observed),
            ),
            settings_after(
                settings,
                menu_actions(MenuCommand::ToggleAutostartHidden, settings, observed),
            ),
            observed.tray_present,
        ),
{
    reveal_with_fuel(settings_after, 6);
    reveal_with_fuel(shown_after, 6);
}

/// Every menu event keeps the tray and autostart check items, and the tray
/// icon, in step with the settings.
pub proof fn menu_events_keep_shown_in_step(
    command: MenuCommand,
    settings: Settings,
    observed: MenuObservations,
    shown: Shown,
)
    requires
        shown_in_step(shown, settings, observed.tray_present),
    ensures
        shown_in_step(
            shown_after(shown, menu_actions(command, settings, observed)),
            settings_after(settings, menu_actions(command, settings, observed)),
            observed.tray_present,
        ),
{
    reveal_with_fuel(settings_after, 2);
    reveal_with_fuel(shown_after, 2);
    if observed.items_ready {
        match command {
            MenuCommand::ToggleTray => toggle_tray_keeps_shown_in_step(settings, observed, shown),
            MenuCommand::ToggleAutostart => toggle_autostart_keeps_shown_in_step(
                settings,
                observed,
                shown,
            ),
            MenuCommand::ToggleAutostartHidden => toggle_autostart_hidden_keeps_shown_in_step(
                settings,
                observed,
                shown,
            ),
            _ => {},
        }
    }
}


/// A step that shows or registers something agrees with `settings`: the tray
/// icon and the tray item with the tray setting, the autostart item, the
/// system registration and the usability of the hidden-launch item with the
/// autostart setting, the hidden-launch item with its setting.
pub open spec fn step_agrees_with(step: MenuAction, settings: Settings) -> bool {
    match step {
        MenuAction::SetTrayVisible(v) => v == settings.tray_enabled,
        MenuAction::CheckTray(v) => v == settings.tray_enabled,
        MenuAction::CheckAutostart(v) => v == settings.autostart_enabled,
        MenuAction::CheckAutostartHidden(v) => v == settings.autostart_hidden,
        MenuAction::EnableAutostartHiddenItem(v) => v == settings.autostart_enabled,
        MenuAction::RegisterAutostart(v) => v == settings.autostart_enabled,
        _ => true,
    }
}

/// Every step of the event shows, or registers with the system, exactly
/// the settings that the same event leaves stored: the tray icon, the check
/// items and the system's autostart entry never contradict the settings.
pub proof fn menu_steps_agree_with_stored_settings(
    command: MenuCommand,
    settings: Settings,
    observed: MenuObservations,
)
    ensures
        ({
            let steps = menu_actions(command, settings, observed);
            let stored = settings_after(settings, steps);
            forall|i: int| 0 <= i < steps.len() ==> step_agrees_with(#[trigger] steps[i], stored)
        }),
{
    reveal_with_fuel(settings_after, 8);
    let steps = menu_actions(command, settings, observed);
    let stored = settings_after(settings, steps);
    assert forall|i: int| 0 <= i < steps.len() implies step_agrees_with(
        #[trigger] steps[i],
        stored,
    ) by {
        if i == 0 {
        } else if i == 1 {
        } else if i == 2 {
        } else if i == 3 {
        } else if i == 4 {
        } else if i == 5 {
        } else {
        }
    }
}

/// Toggling "Launch on startup" registers the application with the system
/// exactly when it was not registered (or that could not be told), and
/// checks the item and stores the setting with that same value.
pub proof fn autostart_toggle_registers_the_new_setting(
    settings: Settings,
    observed: MenuObservations,
)
    requires
        observed.items_ready,
    ensures
        ({
            let on = match observed.autostart_registered {
                Some(registered) => !registered,
                None => true,
            };
            let steps = menu_actions(MenuCommand::ToggleAutostart, settings, observed);
            &&& steps[0] == MenuAction::RegisterAutostart(on)
            &&& steps[1] == MenuAction::CheckAutostart(on)
            &&& steps.contains(MenuAction::Store(SettingKey::AutostartEnabled, on))
            &&& !steps.contains(MenuAction::RegisterAutostart(!on))
            &&& settings_after(settings, steps).autostart_enabled == on
        }),
{
    reveal_with_fuel(settings_after, 8);
    let on = match observed.autostart_registered {
        Some(registered) => !registered,
        None => true,
    };
    let steps = menu_actions(MenuCommand::ToggleAutostart, settings, observed);
    let k = if on {
        steps.len() - 1
    } else {
        steps.len() - 2
    };
    assert(steps[k] == MenuAction::Store(SettingKey::AutostartEnabled, on));
    assert forall|i: int| 0 <= i < steps.len() implies steps[i] != MenuAction::RegisterAutostart(
        !on,
    ) by {
        if i == 0 {
        } else if i == 1 {
        } else if i == 2 {
        } else if i == 3 {
        } else if i == 4 {
        } else if i == 5 {
        } else {
        }
    }
}

/// Only the toggles write settings: reloading, the about dialog, ids of no
/// item, and events before the items exist leave the settings as they are.
/// The window is reloaded only for "reload" and only when it exists, and
/// the about dialog is shown only for "about".
pub proof fn only_toggles_change_settings(
    command: MenuCommand,
    settings: Settings,
    observed: MenuObservations,
)
    ensures
        ({
            let steps = menu_actions(command, settings, observed);
            &&& (!observed.items_ready || command == MenuCommand::Reload || command
                == MenuCommand::About || command == MenuCommand::Unknown) ==> settings_after(
                settings,
                steps,
            ) == settings
            &&& steps.contains(MenuAction::ReloadWindow) <==> (observed.items_ready && command
                == MenuCommand::Reload && observed.window_present)
            &&& steps.contains(MenuAction::ShowAbout) <==> (observed.items_ready && command
                == MenuCommand::About)
        }),
{
    reveal_with_fuel(settings_after, 8);
    let steps = menu_actions(command, settings, observed);
    if observed.items_ready && command == MenuCommand::Reload && observed.window_present {
        assert(steps[0] == MenuAction::ReloadWindow);
    }
    if observed.items_ready && command == MenuCommand::About {
        assert(steps[0] == MenuAction::ShowAbout);
    }
    assert forall|i: int| 0 <= i < steps.len() implies (steps[i] == MenuAction::ReloadWindow
        ==> command == MenuCommand::Reload) && (steps[i] == MenuAction::ShowAbout ==> command
        == MenuCommand::About) by {
        if i == 0 {
        } else if i == 1 {
        } else if i == 2 {
        } else if i == 3 {
        } else if i == 4 {
        } else if i == 5 {
        } else {
        }
    }
}


/// Turning the tray icon or autostart off also turns hidden launch off, both
/// the setting and its check item. Toggling autostart makes the hidden-launch
/// item usable exactly when autostart ends up on, and refreshes the menu
/// when there is one; no other event refreshes it.
pub proof fn turning_off_clears_hidden_launch(
    command: MenuCommand,
    settings: Settings,
    observed: MenuObservations,
)
    requires
        observed.items_ready,
    ensures
        ({
            let steps = menu_actions(command, settings, observed);
            let stored = settings_after(settings, steps);
            let autostart_off = match observed.autostart_registered {
                Some(registered) => registered,
                None => false,
            };
            &&& (command == MenuCommand::ToggleTray && settings.tray_enabled) || (command
                == MenuCommand::ToggleAutostart && autostart_off) ==> steps.contains(
                MenuAction::CheckAutostartHidden(false),
            ) && !stored.autostart_hidden
            &&& command == MenuCommand::ToggleAutostart ==> steps.contains(
                MenuAction::EnableAutostartHiddenItem(stored.autostart_enabled),
            )
            &&& steps.contains(MenuAction::RefreshMenu) <==> (command == MenuCommand::ToggleAutostart
                && observed.menu_present)
        }),
{
    reveal_with_fuel(settings_after, 8);
    let steps = menu_actions(command, settings, observed);
    if command == MenuCommand::ToggleTray && settings.tray_enabled {
        if observed.tray_present {
            assert(steps[3] == MenuAction::CheckAutostartHidden(false));
        } else {
            assert(steps[2] == MenuAction::CheckAutostartHidden(false));
        }
    }
    if command == MenuCommand::ToggleAutostart {
        assert(steps[2] is EnableAutostartHiddenItem);
        if !observed.autostart_registered.unwrap_or(false) {
            if observed.menu_present {
                assert(steps[3] == MenuAction::RefreshMenu);
            }
        } else {
            assert(steps[3] == MenuAction::CheckAutostartHidden(false));
            if observed.menu_present {
                assert(steps[4] == MenuAction::RefreshMenu);
            }
        }
    }
    assert forall|i: int| 0 <= i < steps.len() implies (steps[i] == MenuAction::RefreshMenu
        ==> command == MenuCommand::ToggleAutostart && observed.menu_present) by {
        if i == 0 {
        } else if i == 1 {
        } else if i == 2 {
        } else if i == 3 {
        } else if i == 4 {
        } else if i == 5 {
        } else {
        }
    }
}

} // verus!
