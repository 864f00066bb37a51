//! Properties of the shell that hold for every window state and every event.
use vstd::prelude::*;
use crate::tray::{
    MenuAction, TrayEvent, action_id, action_of_id, is_menu_click, lemma_action_ids_distinct,
    tray_effects,
};
use crate::window::{
    Effect, UiEvent, WindowEvent, WindowState, apply_effects, exits, toggle_effects,
    window_event_effects,
};

verus! {

/// Clicking a tray menu item whose identifier is none of "open", "inbox",
/// "quick_add" and "quit" does nothing: no effect, no event, the window as it
/// was.
pub proof fn unknown_menu_item_does_nothing(window: Option<WindowState>, id: String)
    requires
        id@ != "open"@,
        id@ != "inbox"@,
        id@ != "quick_add"@,
        id@ != "quit"@,
    ensures
        tray_effects(window, TrayEvent::MenuItemClick(id)) == Seq::<Effect>::empty(),
        apply_effects(window, tray_effects(window, TrayEvent::MenuItemClick(id))) == window,
{
    assert(action_of_id(id@) is None);
    assert(tray_effects(window, TrayEvent::MenuItemClick(id)) =~= Seq::<Effect>::empty());
}

/// No tray interaction emits the command-palette event unless the window has
/// been shown and focused by the effects before it; and "quick_add" does emit
/// it whenever the window exists.
pub proof fn palette_opens_on_a_shown_window(window: Option<WindowState>, event: TrayEvent)
    ensures
        forall|i: int|
            0 <= i < tray_effects(window, event).len() && tray_effects(window, event)[i]
                == Effect::Emit(UiEvent::OpenCommandPalette) ==> {
                let before = apply_effects(window, tray_effects(window, event).take(i));
                &&& before is Some
                &&& before->0.visible
                &&& before->0.focused
            },
        window is Some && is_menu_click(event, "quick_add"@) ==> tray_effects(window, event) == seq![
            Effect::Show,
            Effect::Focus,
            Effect::Emit(UiEvent::OpenCommandPalette),
        ],
{
    let es = tray_effects(window, event);
    lemma_action_ids_distinct();
    assert(action_of_id(action_id(MenuAction::QuickAdd)) == Some(MenuAction::QuickAdd));
    reveal_with_fuel(apply_effects, 3);
    assert forall|i: int|
        0 <= i < es.len() && es[i] == Effect::Emit(UiEvent::OpenCommandPalette) implies {
            let before = apply_effects(window, es.take(i));
            &&& before is Some
            &&& before->0.visible
            &&& before->0.focused
        } by {
        assert(i == 2);
        assert(es.take(2) =~= seq![Effect::Show, Effect::Focus]);
        assert(es.take(2).drop_last() =~= seq![Effect::Show]);
        assert(es.take(2).drop_last().drop_last() =~= Seq::<Effect>::empty());
    }
    if window is Some && is_menu_click(event, "quick_add"@) {
        assert(es =~= seq![Effect::Show, Effect::Focus, Effect::Emit(UiEvent::OpenCommandPalette)]);
    }
}

/// A close request on the main window never ends the process: it hides the
/// window and keeps it open.
pub proof fn closing_the_window_never_exits(window: WindowState)
    ensures
        !exits(window_event_effects(WindowEvent::CloseRequested)),
        window_event_effects(WindowEvent::CloseRequested).contains(Effect::PreventClose),
        apply_effects(Some(window), window_event_effects(WindowEvent::CloseRequested)) == Some(
            WindowState { visible: false, focused: false, ..window },
        ),
{
    let es = window_event_effects(WindowEvent::CloseRequested);
    assert(es[1] == Effect::PreventClose);
    reveal_with_fuel(apply_effects, 3);
    assert(es.drop_last() =~= seq![Effect::Hide]);
    assert(es.drop_last().drop_last() =~= Seq::<Effect>::empty());
}

/// Among tray interactions, the "quit" item is the one that ends the process,
/// and no window event nor the shortcut's toggle ever does.
pub proof fn only_quit_exits(window: Option<WindowState>, event: TrayEvent, wevent: WindowEvent)
    ensures
        exits(tray_effects(window, event)) <==> is_menu_click(event, action_id(MenuAction::Quit)),
        !exits(window_event_effects(wevent)),
        !exits(toggle_effects(window)),
{
    let es = tray_effects(window, event);
    if is_menu_click(event, action_id(MenuAction::Quit)) {
        lemma_action_ids_distinct();
        assert(action_of_id(action_id(MenuAction::Quit)) == Some(MenuAction::Quit));
        assert(es[0] is Exit);
    } else {
        if let TrayEvent::MenuItemClick(id) = event {
            assert(action_of_id(id@) != Some(MenuAction::Quit));
        }
        assert forall|i: int| 0 <= i < es.len() implies !(es[i] is Exit) by {
            if i >= 2 {
                assert(es[i] is Emit);
            }
        }
    }
    let ws = window_event_effects(wevent);
    assert forall|i: int| 0 <= i < ws.len() implies !(ws[i] is Exit) by {}
    let ts = toggle_effects(window);
    assert forall|i: int| 0 <= i < ts.len() implies !(ts[i] is Exit) by {}
}

/// Pressing the global shortcut twice leaves the window's visibility as it
/// was before.
pub proof fn toggle_twice_restores_visibility(window: Option<WindowState>)
    ensures
        ({
            let once = apply_effects(window, toggle_effects(window));
            let twice = apply_effects(once, toggle_effects(once));
            &&& (twice is Some <==> window is Some)
            &&& window is Some ==> twice->0.visible == window->0.visible
        }),
{
    reveal_with_fuel(apply_effects, 3);
    let once = apply_effects(window, toggle_effects(window));
    let hide = seq![Effect::Hide];
    let reveal = seq![Effect::Show, Effect::Focus];
    assert(hide.drop_last() =~= Seq::<Effect>::empty());
    assert(reveal.drop_last() =~= seq![Effect::Show]);
    assert(reveal.drop_last().drop_last() =~= Seq::<Effect>::empty());
}

/// Hiding the window, setting its always-on-top flag, and asking for
/// attention each leave the window as one call did when repeated.
pub proof fn window_commands_are_idempotent(window: WindowState, always_on_top: bool)
    ensures
        ({
            let hide = seq![Effect::Hide];
            apply_effects(apply_effects(Some(window), hide), hide) == apply_effects(Some(window), hide)
        }),
        ({
            let pin = seq![Effect::SetAlwaysOnTop(always_on_top)];
            apply_effects(apply_effects(Some(window), pin), pin) == apply_effects(Some(window), pin)
        }),
        ({
            let ask = seq![Effect::RequestAttention];
            apply_effects(apply_effects(Some(window), ask), ask) == apply_effects(Some(window), ask)
        }),
{
    reveal_with_fuel(apply_effects, 2);
    assert(seq![Effect::Hide].drop_last() =~= Seq::<Effect>::empty());
    assert(seq![Effect::SetAlwaysOnTop(always_on_top)].drop_last() =~= Seq::<Effect>::empty());
    assert(seq![Effect::RequestAttention].drop_last() =~= Seq::<Effect>::empty());
}

} // verus!
