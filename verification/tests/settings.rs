use whatsapp_desktop::settings::{get, SettingKey, Settings, SETTINGS_STORE_FILE};
use whatsapp_desktop::startup::{has_autostart_flag, hide_on_close, startup_plan};
use whatsapp_desktop::text::{same_text, trim};
use whatsapp_desktop::tray::{tray_command, TrayCommand};

#[test]
fn stored_value_wins_over_default() {
    assert!(get(Some(true), false));
    assert!(!get(Some(false), true));
    assert!(get(None, true));
    assert!(!get(None, false));
}

#[test]
fn settings_default_to_on() {
    let settings = Settings::from_stored(None, Some(false), None);
    assert_eq!(
        settings,
        Settings { tray_enabled: true, autostart_enabled: false, autostart_hidden: true }
    );
}

#[test]
fn setting_key_names() {
    assert_eq!(SettingKey::TrayEnabled.name(), "tray_enabled");
    assert_eq!(SettingKey::AutostartEnabled.name(), "autostart_enabled");
    assert_eq!(SettingKey::AutostartHidden.name(), "autostart_hidden");
    assert_eq!(SETTINGS_STORE_FILE, "settings.json");
}

fn args(list: &[&str]) -> Vec<String> {
    list.iter().map(|a| a.to_string()).collect()
}

#[test]
fn launched_hidden_only_by_autostart_with_everything_on() {
    let on = Settings { tray_enabled: true, autostart_enabled: true, autostart_hidden: true };
    let plan = startup_plan(&args(&["app", "--autostart"]), &on);
    assert!(plan.launched_hidden);
    assert!(!plan.window_visible);
    assert!(plan.register_autostart);
    assert!(plan.tray_visible);

    let plan = startup_plan(&args(&["app"]), &on);
    assert!(!plan.launched_hidden);
    assert!(plan.window_visible);

    let no_tray = Settings { tray_enabled: false, ..on };
    let plan = startup_plan(&args(&["app", "--autostart"]), &no_tray);
    assert!(!plan.launched_hidden);
    assert!(plan.window_visible);
    assert!(!plan.tray_visible);

    let no_autostart = Settings { autostart_enabled: false, ..on };
    let plan = startup_plan(&args(&["app", "--autostart"]), &no_autostart);
    assert!(!plan.launched_hidden);
    assert!(!plan.register_autostart);
    assert!(!plan.menu.autostart_hidden_enabled);
}

#[test]
fn autostart_flag_must_match_exactly() {
    assert!(has_autostart_flag(&args(&["--autostart"])));
    assert!(!has_autostart_flag(&args(&["--autostart=1", "autostart"])));
    assert!(!has_autostart_flag(&args(&[])));
}

#[test]
fn closing_hides_while_the_tray_is_on() {
    let on = Settings { tray_enabled: true, autostart_enabled: false, autostart_hidden: false };
    assert!(hide_on_close(&on));
    assert!(!hide_on_close(&Settings { tray_enabled: false, ..on }));
}

#[test]
fn tray_menu_commands() {
    assert_eq!(tray_command("show"), TrayCommand::Show);
    assert_eq!(tray_command("quit"), TrayCommand::Quit);
    assert_eq!(tray_command("reload"), TrayCommand::Unknown);
}

#[test]
fn trim_removes_unicode_white_space_only() {
    assert_eq!(trim("  a b\t\n"), "a b");
    assert_eq!(trim("\u{a0}\u{2028}x\u{205f}"), "x");
    assert_eq!(trim("\u{200b}x"), "\u{200b}x");
    assert_eq!(trim("   "), "");
    assert_eq!(trim(""), "");
    for s in ["  a\u{3000}", "\u{85}b c\u{1680}", "\u{b}\u{c}d", "e\u{200a}\u{202f}"] {
        assert_eq!(trim(s), s.trim());
    }
}

#[test]
fn same_text_compares_characters() {
    assert!(same_text("abc", "abc"));
    assert!(!same_text("abc", "abd"));
    assert!(!same_text("abc", "ab"));
}
