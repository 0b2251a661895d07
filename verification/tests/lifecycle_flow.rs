//! Scenario tests for the window registry, the lifecycle controller and the
//! tray menu.

use axie_shell::lifecycle::{
    ControllerConfig, HostAction, HostModel, LifecycleEvent, SystemTrayEvent, TrayMenuId,
};
use axie_shell::registry::{LogEvent, Visibility, WindowId, WindowRegistry};
use axie_shell::tray::{create_system_tray, menu_id_str, parse_menu_id, TrayMenuEntry};

fn default_config() -> ControllerConfig {
    ControllerConfig { tray_active: true, debug: false }
}

/// A host with both windows created: the splash screen visible, the main
/// window still hidden behind it.
fn host_in_splash_phase() -> HostModel {
    let mut h = HostModel::new();
    h.registry.register_window(WindowId::Splashscreen);
    h.registry.show_by_id(WindowId::Splashscreen);
    h.registry.register_window(WindowId::Main);
    h
}

#[test]
fn show_of_never_created_window_is_logged_not_fatal() {
    let mut reg = WindowRegistry::new();
    let log = reg.show_window("splashscreen");
    assert_eq!(log, Some(LogEvent::WindowNotFound { name: String::from("splashscreen") }));
    assert_eq!(reg.splashscreen.visibility, Visibility::Uninitialized);
    assert_eq!(reg.main.visibility, Visibility::Uninitialized);
}

#[test]
fn hide_of_unknown_name_is_logged_not_fatal() {
    let mut reg = WindowRegistry::new();
    let log = reg.hide_window("settings");
    assert_eq!(log, Some(LogEvent::WindowNotFound { name: String::from("settings") }));
    assert_eq!(reg.main.visibility, Visibility::Uninitialized);
}

#[test]
fn show_of_closed_window_is_logged_not_fatal() {
    let mut reg = WindowRegistry::new();
    reg.register_window(WindowId::Splashscreen);
    reg.close_by_id(WindowId::Splashscreen);
    let log = reg.show_window("splashscreen");
    assert_eq!(log, Some(LogEvent::WindowNotFound { name: String::from("splashscreen") }));
    assert_eq!(reg.splashscreen.visibility, Visibility::Closed);
}

#[test]
fn show_and_hide_cycle_keeps_window_resident() {
    let mut reg = WindowRegistry::new();
    reg.register_window(WindowId::Main);
    assert_eq!(reg.show_window("main"), None);
    assert_eq!(reg.main.visibility, Visibility::Shown);
    assert!(reg.main.focused);
    assert_eq!(reg.hide_window("main"), None);
    assert_eq!(reg.main.visibility, Visibility::Hidden);
    assert_eq!(reg.show_window("main"), None);
    assert_eq!(reg.main.visibility, Visibility::Shown);
}

#[test]
fn close_to_tray_hides_main_and_keeps_process_alive() {
    let cfg = default_config();
    let mut h = HostModel::new();
    h.registry.register_window(WindowId::Main);
    h.registry.show_by_id(WindowId::Main);
    let actions =
        axie_shell::lifecycle::handle_lifecycle_event(&cfg, LifecycleEvent::CloseRequested {
            window: WindowId::Main,
        });
    assert_eq!(actions, vec![HostAction::PreventClose, HostAction::HideWindow {
        window: WindowId::Main,
    }]);
    let logs = h.run_actions(&actions);
    assert!(logs.is_empty());
    assert!(h.alive);
    assert!(h.close_prevented);
    assert_eq!(h.registry.main.visibility, Visibility::Hidden);
}

#[test]
fn splash_close_closes_splash_before_showing_main() {
    let cfg = default_config();
    let mut h = host_in_splash_phase();
    let actions =
        axie_shell::lifecycle::handle_lifecycle_event(&cfg, LifecycleEvent::SplashCloseRequested);
    // The close of the splash screen is ordered before the show of main.
    assert_eq!(actions[0], HostAction::CloseWindow { window: WindowId::Splashscreen });
    assert_eq!(actions[1], HostAction::ShowWindow { window: WindowId::Main });
    let logs = h.run_actions(&actions);
    assert!(logs.is_empty());
    assert_eq!(h.registry.splashscreen.visibility, Visibility::Closed);
    assert_eq!(h.registry.main.visibility, Visibility::Shown);
    assert!(h.registry.main.focused);
}

#[test]
fn splash_close_with_splash_already_gone_still_shows_main() {
    let cfg = default_config();
    let mut h = HostModel::new();
    h.registry.register_window(WindowId::Main);
    let actions =
        axie_shell::lifecycle::handle_lifecycle_event(&cfg, LifecycleEvent::SplashCloseRequested);
    let logs = h.run_actions(&actions);
    // The missing splash screen is logged, and main is shown anyway.
    assert_eq!(logs, vec![LogEvent::WindowNotFound { name: String::from("splashscreen") }]);
    assert!(h.alive);
    assert_eq!(h.registry.main.visibility, Visibility::Shown);
}

#[test]
fn tray_quit_terminates_the_process() {
    let cfg = default_config();
    let mut h = host_in_splash_phase();
    let actions = axie_shell::lifecycle::handle_system_tray_event(
        &cfg,
        SystemTrayEvent::MenuItemClick { id: TrayMenuId::Quit },
    );
    assert_eq!(actions, vec![HostAction::ExitProcess]);
    h.run_actions(&actions);
    assert!(!h.alive);
}

#[test]
fn tray_show_and_hide_never_touch_the_splash_window() {
    let cfg = default_config();
    let mut h = host_in_splash_phase();
    let splash_before = h.registry.splashscreen;

    let show_actions = axie_shell::lifecycle::handle_system_tray_event(
        &cfg,
        SystemTrayEvent::MenuItemClick { id: TrayMenuId::Show },
    );
    h.run_actions(&show_actions);
    assert_eq!(h.registry.splashscreen, splash_before);
    assert_eq!(h.registry.main.visibility, Visibility::Shown);
    assert!(h.alive);

    let hide_actions = axie_shell::lifecycle::handle_system_tray_event(
        &cfg,
        SystemTrayEvent::MenuItemClick { id: TrayMenuId::Hide },
    );
    h.run_actions(&hide_actions);
    assert_eq!(h.registry.splashscreen, splash_before);
    assert_eq!(h.registry.main.visibility, Visibility::Hidden);
    assert!(h.alive);
}

#[test]
fn tray_left_click_shows_and_focuses_main() {
    let cfg = default_config();
    let mut h = HostModel::new();
    h.registry.register_window(WindowId::Main);
    let actions =
        axie_shell::lifecycle::handle_system_tray_event(&cfg, SystemTrayEvent::LeftClick);
    h.run_actions(&actions);
    assert_eq!(h.registry.main.visibility, Visibility::Shown);
    assert!(h.registry.main.focused);
    assert!(h.alive);
}

#[test]
fn unknown_menu_id_is_ignored() {
    let cfg = default_config();
    let actions = axie_shell::lifecycle::handle_system_tray_event(
        &cfg,
        SystemTrayEvent::MenuItemClick { id: parse_menu_id("bogus") },
    );
    assert!(actions.is_empty());
}

#[test]
fn run_actions_logs_every_miss_in_order() {
    // Nothing is live: both the splash close and the main show must be
    // logged, in the order the actions ran, and nothing else.
    let cfg = default_config();
    let mut h = HostModel::new();
    let actions =
        axie_shell::lifecycle::handle_lifecycle_event(&cfg, LifecycleEvent::SplashCloseRequested);
    let logs = h.run_actions(&actions);
    assert_eq!(logs, vec![
        LogEvent::WindowNotFound { name: String::from("splashscreen") },
        LogEvent::WindowNotFound { name: String::from("main") },
        LogEvent::WindowNotFound { name: String::from("main") },
    ]);
    assert!(h.alive);
}

#[test]
fn setup_shows_main_and_opens_devtools_only_in_debug() {
    let release = ControllerConfig { tray_active: true, debug: false };
    let debug = ControllerConfig { tray_active: true, debug: true };
    let release_actions =
        axie_shell::lifecycle::handle_lifecycle_event(&release, LifecycleEvent::SetupComplete);
    assert_eq!(release_actions, vec![
        HostAction::ShowWindow { window: WindowId::Main },
        HostAction::FocusWindow { window: WindowId::Main },
    ]);
    let debug_actions =
        axie_shell::lifecycle::handle_lifecycle_event(&debug, LifecycleEvent::SetupComplete);
    assert_eq!(debug_actions.len(), 3);
    assert_eq!(debug_actions[2], HostAction::OpenDevtools);
}

#[test]
fn tray_menu_has_show_hide_separator_quit_in_order() {
    let menu = create_system_tray();
    assert_eq!(menu.entries.len(), 4);
    assert_eq!(menu.entries[0], TrayMenuEntry::Item {
        id: TrayMenuId::Show,
        label: String::from("Show Axie Studio"),
    });
    assert_eq!(menu.entries[1], TrayMenuEntry::Item {
        id: TrayMenuId::Hide,
        label: String::from("Hide Axie Studio"),
    });
    assert_eq!(menu.entries[2], TrayMenuEntry::Separator);
    assert_eq!(menu.entries[3], TrayMenuEntry::Item {
        id: TrayMenuId::Quit,
        label: String::from("Quit Axie Studio"),
    });
}

#[test]
fn menu_id_strings_round_trip() {
    for id in [TrayMenuId::Show, TrayMenuId::Hide, TrayMenuId::Quit] {
        assert_eq!(parse_menu_id(menu_id_str(id).as_str()), id);
    }
    assert_eq!(parse_menu_id("quit"), TrayMenuId::Quit);
    assert_eq!(parse_menu_id("show"), TrayMenuId::Show);
    assert_eq!(parse_menu_id("hide"), TrayMenuId::Hide);
    assert_eq!(parse_menu_id(""), TrayMenuId::Other);
}
