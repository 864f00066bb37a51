use intime_desktop::commands::{copy_to_clipboard, get_system_info, phone_call_target};
use intime_desktop::tray::{
    create_system_tray, handle_system_tray_event, menu_action, MenuAction, TrayEvent,
    TrayMenuEntry,
};
use intime_desktop::window::{
    handle_window_event, minimize_to_tray, request_attention, set_always_on_top,
    toggle_main_window, Effect, Route, UiEvent, WindowEvent, WindowState,
};

fn hidden() -> WindowState {
    WindowState { visible: false, focused: false, always_on_top: false }
}

fn shown() -> WindowState {
    WindowState { visible: true, focused: true, always_on_top: false }
}

fn click(id: &str) -> TrayEvent {
    TrayEvent::MenuItemClick(id.to_string())
}

#[test]
fn make_phone_call_strips_spaces() {
    assert_eq!(phone_call_target("555 123 4567"), "tel:5551234567");
}

#[test]
fn phone_call_target_edge_cases() {
    assert_eq!(phone_call_target(""), "tel:");
    assert_eq!(phone_call_target("   "), "tel:");
    assert_eq!(phone_call_target("+1-555"), "tel:+1-555");
    assert_eq!(phone_call_target(" 0 1 "), "tel:01");
}

#[test]
fn tray_menu_layout() {
    let menu = create_system_tray();
    assert_eq!(
        menu,
        vec![
            TrayMenuEntry::Item(MenuAction::Open),
            TrayMenuEntry::Separator,
            TrayMenuEntry::Item(MenuAction::Inbox),
            TrayMenuEntry::Item(MenuAction::QuickAdd),
            TrayMenuEntry::Separator,
            TrayMenuEntry::Item(MenuAction::Quit),
        ]
    );
    assert_eq!(MenuAction::Open.label(), "Open InTime");
    assert_eq!(MenuAction::Inbox.label(), "Go to Inbox");
    assert_eq!(MenuAction::QuickAdd.label(), "Quick Add...");
    assert_eq!(MenuAction::Quit.label(), "Quit");
}

#[test]
fn menu_ids_round_trip() {
    for a in [MenuAction::Open, MenuAction::Inbox, MenuAction::QuickAdd, MenuAction::Quit] {
        assert_eq!(menu_action(a.id()), Some(a));
    }
    assert_eq!(menu_action(""), None);
    assert_eq!(menu_action("Open"), None);
    assert_eq!(menu_action("quick-add"), None);
    assert_eq!(menu_action("quit "), None);
}

#[test]
fn unknown_menu_items_do_nothing() {
    for id in ["", "settings", "OPEN", "inbox2", "qui"] {
        let step = handle_system_tray_event(Some(hidden()), &click(id));
        assert!(step.effects.is_empty());
        assert_eq!(step.window, Some(hidden()));
    }
}

#[test]
fn left_click_and_open_show_the_window() {
    for event in [TrayEvent::LeftClick, click("open")] {
        let step = handle_system_tray_event(Some(hidden()), &event);
        assert_eq!(step.effects, vec![Effect::Show, Effect::Focus]);
        assert_eq!(step.window, Some(shown()));
    }
}

#[test]
fn other_clicks_do_nothing() {
    for event in [TrayEvent::RightClick, TrayEvent::DoubleClick, TrayEvent::Other] {
        let step = handle_system_tray_event(Some(hidden()), &event);
        assert!(step.effects.is_empty());
        assert_eq!(step.window, Some(hidden()));
    }
}

#[test]
fn inbox_navigates_after_showing() {
    let step = handle_system_tray_event(Some(hidden()), &click("inbox"));
    let nav = UiEvent::Navigate(Route::Inbox);
    assert_eq!(step.effects, vec![Effect::Show, Effect::Focus, Effect::Emit(nav)]);
    assert_eq!(nav.name(), "navigate");
    assert_eq!(Route::Inbox.path(), "/employee/inbox");
    assert_eq!(step.window, Some(shown()));
}

#[test]
fn quick_add_opens_palette_on_a_shown_window() {
    let step = handle_system_tray_event(Some(hidden()), &click("quick_add"));
    assert_eq!(
        step.effects,
        vec![Effect::Show, Effect::Focus, Effect::Emit(UiEvent::OpenCommandPalette)]
    );
    assert_eq!(UiEvent::OpenCommandPalette.name(), "open-command-palette");
    assert_eq!(step.window, Some(shown()));
}

#[test]
fn missing_window_is_skipped() {
    for event in [TrayEvent::LeftClick, click("open"), click("inbox"), click("quick_add")] {
        let step = handle_system_tray_event(None, &event);
        assert!(step.effects.is_empty());
        assert_eq!(step.window, None);
    }
    let step = toggle_main_window(None);
    assert!(step.effects.is_empty());
    assert_eq!(step.window, None);
}

#[test]
fn quit_exits_with_zero() {
    for window in [None, Some(hidden()), Some(shown())] {
        let step = handle_system_tray_event(window, &click("quit"));
        assert_eq!(step.effects, vec![Effect::Exit(0)]);
        assert_eq!(step.window, window);
    }
}

#[test]
fn close_request_hides_and_keeps_running() {
    let w = WindowState { visible: true, focused: true, always_on_top: true };
    let step = handle_window_event(w, WindowEvent::CloseRequested);
    assert_eq!(step.effects, vec![Effect::Hide, Effect::PreventClose]);
    assert!(!step.effects.iter().any(|e| matches!(e, Effect::Exit(_))));
    assert_eq!(
        step.window,
        Some(WindowState { visible: false, focused: false, always_on_top: true })
    );
    let step = handle_window_event(w, WindowEvent::Other);
    assert!(step.effects.is_empty());
    assert_eq!(step.window, Some(w));
}

#[test]
fn shortcut_toggles_visibility() {
    let step = toggle_main_window(Some(shown()));
    assert_eq!(step.effects, vec![Effect::Hide]);
    assert_eq!(step.window, Some(hidden()));
    let step = toggle_main_window(Some(hidden()));
    assert_eq!(step.effects, vec![Effect::Show, Effect::Focus]);
    assert_eq!(step.window, Some(shown()));
}

#[test]
fn shortcut_twice_restores_visibility() {
    for w in [hidden(), shown()] {
        let once = toggle_main_window(Some(w));
        let twice = toggle_main_window(once.window);
        assert_eq!(twice.window.map(|v| v.visible), Some(w.visible));
    }
}

#[test]
fn window_commands() {
    let step = set_always_on_top(hidden(), true);
    assert_eq!(step.effects, vec![Effect::SetAlwaysOnTop(true)]);
    assert_eq!(
        step.window,
        Some(WindowState { visible: false, focused: false, always_on_top: true })
    );
    let step = minimize_to_tray(shown());
    assert_eq!(step.effects, vec![Effect::Hide]);
    assert_eq!(step.window, Some(hidden()));
    let step = request_attention(hidden());
    assert_eq!(step.effects, vec![Effect::RequestAttention]);
    assert_eq!(step.window, Some(hidden()));
}

#[test]
fn window_commands_repeat_as_one() {
    let once = minimize_to_tray(shown()).window.unwrap();
    assert_eq!(minimize_to_tray(once).window, Some(once));
    let once = set_always_on_top(shown(), true).window.unwrap();
    assert_eq!(set_always_on_top(once, true).window, Some(once));
}

#[test]
fn clipboard_always_succeeds() {
    assert_eq!(copy_to_clipboard("anything"), Ok(()));
    assert_eq!(copy_to_clipboard(""), Ok(()));
}

#[test]
fn system_info_has_the_given_fields() {
    let info = get_system_info("linux", "x86_64", "unix").unwrap();
    let obj = info.as_object().unwrap();
    assert_eq!(obj.len(), 3);
    assert_eq!(info["os"], "linux");
    assert_eq!(info["arch"], "x86_64");
    assert_eq!(info["family"], "unix");
}
