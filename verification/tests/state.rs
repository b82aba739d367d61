use whatsapp_linux::state::{
    configure_linux_runtime, menu_action, toggle_window_action, unread_display,
    wants_chromium_user_agent, AppState, MenuAction, WindowAction, MENU_PRIVACY, MENU_QUIT,
    MENU_TOGGLE,
};

#[test]
fn default_state_is_quiet() {
    let s = AppState::default();
    assert!(!s.is_quitting && !s.privacy_enabled && !s.tray_available);
    assert_eq!(s.unread, 0);
}

#[test]
fn privacy_toggle_twice_restores_state() {
    let mut s = AppState::default();
    let before = s;
    assert!(s.toggle_privacy());
    assert!(s.privacy_enabled);
    assert!(!s.toggle_privacy());
    assert_eq!(s, before);
}

#[test]
fn close_hides_only_with_a_tray_and_before_quitting() {
    let mut s = AppState::default();
    assert!(!s.close_hides_window());
    s.set_tray_available();
    assert!(s.close_hides_window());
    s.begin_quit();
    assert!(!s.close_hides_window());
}

#[test]
fn repeated_counts_update_once() {
    let mut s = AppState::default();
    assert!(s.update_unread(0).is_none());
    let shown = s.update_unread(3).expect("new count");
    assert_eq!(shown.count, 3);
    assert!(s.update_unread(3).is_none());
    assert_eq!(s.unread, 3);
    let reset = s.update_unread(0).expect("reset");
    assert_eq!(reset.title, "WhatsApp Linux");
}

#[test]
fn unread_texts() {
    let d = unread_display(0);
    assert_eq!(d.title, "WhatsApp Linux");
    assert_eq!(d.tooltip, "WhatsApp Linux");
    assert_eq!(d.tray_title, None);
    let d = unread_display(42);
    assert_eq!(d.title, "WhatsApp Linux (42 unread)");
    assert_eq!(d.tooltip, "WhatsApp \u{2014} 42 unread");
    assert_eq!(d.tray_title.as_deref(), Some("42"));
}

#[test]
fn tray_menu_items() {
    assert_eq!(menu_action(MENU_TOGGLE), Some(MenuAction::ToggleWindow));
    assert_eq!(menu_action(MENU_PRIVACY), Some(MenuAction::TogglePrivacy));
    assert_eq!(menu_action(MENU_QUIT), Some(MenuAction::Quit));
    assert_eq!(menu_action("quit "), None);
    assert_eq!(menu_action(""), None);
}

#[test]
fn window_toggle() {
    assert_eq!(toggle_window_action(true), WindowAction::Hide);
    assert_eq!(toggle_window_action(false), WindowAction::Show);
}

#[test]
fn chromium_user_agent_flag() {
    let args: Vec<String> = vec!["app".into(), "--chromium-user-agent".into()];
    assert!(wants_chromium_user_agent(&args));
    let args: Vec<String> = vec!["app".into(), "--chromium-user-agent=1".into()];
    assert!(!wants_chromium_user_agent(&args));
    assert!(!wants_chromium_user_agent(&Vec::new()));
}

#[test]
fn gstreamer_path_respects_the_user() {
    assert_eq!(configure_linux_runtime(false), Some("/usr/lib/gstreamer-1.0"));
    assert_eq!(configure_linux_runtime(true), None);
}
