use whatsapp_desktop::menu::{
    about_message, handle_menu_event, menu_command, setup_menu, MenuAction, MenuCommand,
    MenuObservations, MenuSetup,
};
use whatsapp_desktop::settings::{SettingKey, Settings};

fn all_on() -> Settings {
    Settings { tray_enabled: true, autostart_enabled: true, autostart_hidden: true }
}

fn observed(registered: Option<bool>, tray: bool) -> MenuObservations {
    MenuObservations {
        items_ready: true,
        autostart_registered: registered,
        tray_present: tray,
        window_present: true,
        menu_present: true,
    }
}

#[test]
fn menu_ids_map_to_commands() {
    assert_eq!(menu_command("tray-enabled"), MenuCommand::ToggleTray);
    assert_eq!(menu_command("autostart-enabled"), MenuCommand::ToggleAutostart);
    assert_eq!(menu_command("autostart-hidden"), MenuCommand::ToggleAutostartHidden);
    assert_eq!(menu_command("reload"), MenuCommand::Reload);
    assert_eq!(menu_command("about"), MenuCommand::About);
    assert_eq!(menu_command("show"), MenuCommand::Unknown);
    assert_eq!(menu_command(""), MenuCommand::Unknown);
}

#[test]
fn nothing_happens_before_the_items_exist() {
    let mut obs = observed(Some(true), true);
    obs.items_ready = false;
    assert!(handle_menu_event("tray-enabled", &all_on(), &obs).is_empty());
    assert!(handle_menu_event("about", &all_on(), &obs).is_empty());
}

#[test]
fn turning_the_tray_off_also_turns_hidden_launch_off() {
    let actions = handle_menu_event("tray-enabled", &all_on(), &observed(Some(true), true));
    assert_eq!(
        actions,
        vec![
            MenuAction::SetTrayVisible(false),
            MenuAction::CheckTray(false),
            MenuAction::Store(SettingKey::TrayEnabled, false),
            MenuAction::CheckAutostartHidden(false),
            MenuAction::Store(SettingKey::AutostartHidden, false),
        ]
    );
}

#[test]
fn turning_the_tray_on_without_a_tray_icon() {
    let settings = Settings { tray_enabled: false, ..all_on() };
    let actions = handle_menu_event("tray-enabled", &settings, &observed(None, false));
    assert_eq!(
        actions,
        vec![MenuAction::CheckTray(true), MenuAction::Store(SettingKey::TrayEnabled, true)]
    );
}

#[test]
fn turning_autostart_off() {
    let actions = handle_menu_event("autostart-enabled", &all_on(), &observed(Some(true), true));
    assert_eq!(
        actions,
        vec![
            MenuAction::RegisterAutostart(false),
            MenuAction::CheckAutostart(false),
            MenuAction::EnableAutostartHiddenItem(false),
            MenuAction::CheckAutostartHidden(false),
            MenuAction::RefreshMenu,
            MenuAction::Store(SettingKey::AutostartEnabled, false),
            MenuAction::Store(SettingKey::AutostartHidden, false),
        ]
    );
}

#[test]
fn autostart_turns_on_when_its_registration_is_unknown() {
    let mut obs = observed(None, true);
    obs.menu_present = false;
    let actions = handle_menu_event("autostart-enabled", &all_on(), &obs);
    assert_eq!(
        actions,
        vec![
            MenuAction::RegisterAutostart(true),
            MenuAction::CheckAutostart(true),
            MenuAction::EnableAutostartHiddenItem(true),
            MenuAction::Store(SettingKey::AutostartEnabled, true),
        ]
    );
}

#[test]
fn turning_hidden_launch_on_shows_the_tray() {
    let settings =
        Settings { tray_enabled: false, autostart_enabled: true, autostart_hidden: false };
    let actions = handle_menu_event("autostart-hidden", &settings, &observed(Some(true), true));
    assert_eq!(
        actions,
        vec![
            MenuAction::CheckAutostartHidden(true),
            MenuAction::SetTrayVisible(true),
            MenuAction::CheckTray(true),
            MenuAction::Store(SettingKey::TrayEnabled, true),
            MenuAction::Store(SettingKey::AutostartHidden, true),
        ]
    );
}

#[test]
fn turning_hidden_launch_off() {
    let actions = handle_menu_event("autostart-hidden", &all_on(), &observed(Some(true), true));
    assert_eq!(
        actions,
        vec![
            MenuAction::CheckAutostartHidden(false),
            MenuAction::Store(SettingKey::AutostartHidden, false),
        ]
    );
}

#[test]
fn reload_and_about() {
    let mut obs = observed(None, true);
    assert_eq!(handle_menu_event("reload", &all_on(), &obs), vec![MenuAction::ReloadWindow]);
    obs.window_present = false;
    assert!(handle_menu_event("reload", &all_on(), &obs).is_empty());
    assert_eq!(handle_menu_event("about", &all_on(), &obs), vec![MenuAction::ShowAbout]);
    assert!(handle_menu_event("something-else", &all_on(), &obs).is_empty());
}

#[test]
fn menu_setup_reflects_settings() {
    let settings =
        Settings { tray_enabled: false, autostart_enabled: true, autostart_hidden: true };
    assert_eq!(
        setup_menu(&settings),
        MenuSetup {
            tray_enabled: true,
            tray_checked: false,
            autostart_enabled: true,
            autostart_checked: true,
            autostart_hidden_enabled: true,
            autostart_hidden_checked: false,
        }
    );
    assert_eq!(
        setup_menu(&all_on()),
        MenuSetup {
            tray_enabled: true,
            tray_checked: true,
            autostart_enabled: true,
            autostart_checked: true,
            autostart_hidden_enabled: true,
            autostart_hidden_checked: true,
        }
    );
}

#[test]
fn toggling_the_tray_twice_restores_it() {
    let obs = observed(Some(true), true);
    let first = handle_menu_event("tray-enabled", &all_on(), &obs);
    assert!(first.contains(&MenuAction::Store(SettingKey::TrayEnabled, false)));
    let after = Settings { tray_enabled: false, autostart_hidden: false, ..all_on() };
    let second = handle_menu_event("tray-enabled", &after, &obs);
    assert!(second.contains(&MenuAction::Store(SettingKey::TrayEnabled, true)));
}

#[test]
fn about_message_layout() {
    let message = about_message("A desktop app", "1.2.3", "Someone", "MIT", "https://x.y");
    assert_eq!(
        message,
        "A desktop app\n\nVersion: 1.2.3\nAuthor: Someone\nLicense: MIT\nRepository: https://x.y"
    );
}
