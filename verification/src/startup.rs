//! What the application does when it starts and when its window is closed.

use vstd::prelude::*;
use crate::menu::{launches_hidden, setup_menu, shown_in_step, MenuSetup, Shown};
use crate::settings::Settings;
use crate::text::same_text;

verus! {

/// The argument that the system's autostart entry launches the application with.
pub const AUTOSTART_ARG: &'static str = "--autostart";

/// Label of the main window (and id of the tray icon).
pub const MAIN_WINDOW_LABEL: &'static str = "main";

/// The page the main window shows.
pub const WHATSAPP_WEB_URL: &'static str = "https://web.whatsapp.com";

/// What the application sets up when it starts.
#[derive(Clone, Copy, Debug, PartialEq, Eq, Structural)]
pub struct StartupPlan {
    /// The application was started by autostart and is to stay in the tray.
    pub launched_hidden: bool,
    /// The main window is created visible.
    pub window_visible: bool,
    /// Register (`true`) or unregister the application to launch on startup,
    /// bringing the system in line with the setting.
    pub register_autostart: bool,
    /// The tray icon is shown.
    pub tray_visible: bool,
    /// The initial state of the settings check items.
    pub menu: MenuSetup,
}

/// Some argument is the autostart flag.
pub open spec fn has_autostart_arg(args: Seq<String>) -> bool {
    exists|i: int| 0 <= i < args.len() && (#[trigger] args[i])@ == AUTOSTART_ARG@
}

/// The start-up plan for the given command-line arguments and settings.
pub open spec fn startup_plan_of(args: Seq<String>, settings: Settings) -> StartupPlan {
    let hidden = has_autostart_arg(args) && launches_hidden(settings);
    StartupPlan {
        launched_hidden: hidden,
        window_visible: !hidden,
        register_autostart: settings.autostart_enabled,
        tray_visible: settings.tray_enabled,
        menu: MenuSetup {
            tray_enabled: true,
            tray_checked: settings.tray_enabled,
            autostart_enabled: true,
            autostart_checked: settings.autostart_enabled,
            autostart_hidden_enabled: settings.autostart_enabled,
            autostart_hidden_checked: launches_hidden(settings),
        },
    }
}

/// Whether some argument is the autostart flag.
pub fn has_autostart_flag(args: &Vec<String>) -> (found: bool)
    ensures
        found == has_autostart_arg(args@),
{
    let mut i: usize = 0;
    while i < args.len()
        invariant
            0 <= i <= args.len(),
            forall|k: int| 0 <= k < i ==> (#[trigger] args@[k])@ != AUTOSTART_ARG@,
        decreases args.len() - i,
    {
        if same_text(args[i].as_str(), AUTOSTART_ARG) {
            return true;
        }
        i = i + 1;
    }
    false
}

/// Decides how the application starts: it stays hidden in the tray only when
/// launched by autostart with autostart, the tray icon and hidden launch all
/// on; autostart registration follows the setting; the tray icon follows its
/// setting.
pub fn startup_plan(args: &Vec<String>, settings: &Settings) -> (plan: StartupPlan)
    ensures
        plan == startup_plan_of(args@, *settings),
        plan.register_autostart == settings.autostart_enabled,
        plan.tray_visible == settings.tray_enabled,
        plan.launched_hidden == ((exists|i: int|
            0 <= i < args@.len() && (#[trigger] args@[i])@ == "--autostart"@)
            && settings.autostart_enabled && settings.tray_enabled && settings.autostart_hidden),
        plan.window_visible == !plan.launched_hidden,
        plan.menu.autostart_hidden_checked == (settings.autostart_enabled && settings.tray_enabled
            && settings.autostart_hidden),
{
    proof {
        startup_follows_settings(args@, *settings);
    }
    let menu = setup_menu(settings);
    let launched_hidden = has_autostart_flag(args) && settings.autostart_enabled
        && settings.tray_enabled && settings.autostart_hidden;
    StartupPlan {
        launched_hidden,
        window_visible: !launched_hidden,
        register_autostart: settings.autostart_enabled,
        tray_visible: settings.tray_enabled,
        menu,
    }
}

/// Whether closing the main window hides it instead, leaving the application
/// running in the tray: so it is while the tray icon is on.
pub fn hide_on_close(settings: &Settings) -> (hide: bool)
    ensures
        hide == settings.tray_enabled,
{
    settings.tray_enabled
}

/// At start-up the menu and the tray icon agree with the settings, and the
/// window starts hidden exactly when the application was launched by
/// autostart and the menu shows hidden launch checked.
pub proof fn startup_shows_settings(args: Seq<String>, settings: Settings)
    ensures
        ({
            let plan = startup_plan_of(args, settings);
            &&& shown_in_step(
                Shown { menu: plan.menu, tray_visible: plan.tray_visible },
                settings,
                true,
            )
            &&& plan.launched_hidden == (has_autostart_arg(args)
                && plan.menu.autostart_hidden_checked)
            &&& plan.window_visible == !plan.launched_hidden
        }),
{
}


/// Whatever the arguments, start-up registers the application to launch on
/// startup exactly when that setting is on, and shows the tray icon exactly
/// when its setting is on. The window starts hidden, and hidden launch shows
/// checked, only when hidden launch, autostart and the tray icon are all on;
/// the window starts hidden exactly when, besides, the application was
/// launched with `--autostart`.
pub proof fn startup_follows_settings(args: Seq<String>, settings: Settings)
    ensures
        ({
            let plan = startup_plan_of(args, settings);
            &&& plan.register_autostart == settings.autostart_enabled
            &&& plan.tray_visible == settings.tray_enabled
            &&& plan.launched_hidden == ((exists|i: int|
                0 <= i < args.len() && (#[trigger] args[i])@ == "--autostart"@)
                && settings.autostart_enabled && settings.tray_enabled
                && settings.autostart_hidden)
            &&& plan.window_visible == !plan.launched_hidden
            &&& plan.menu.autostart_hidden_checked == (settings.autostart_enabled
                && settings.tray_enabled && settings.autostart_hidden)
            &&& plan.menu.autostart_hidden_checked ==> settings.autostart_hidden
            &&& plan.launched_hidden ==> settings.autostart_hidden
        }),
{
    reveal_strlit("--autostart");
}

} // verus!
