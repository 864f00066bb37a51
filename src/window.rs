//! The main window's state and the effects that handlers ask the host runtime
//! to carry out on it.
use vstd::prelude::*;

verus! {

/// What the shell knows of the single main window.
#[derive(Clone, Copy, PartialEq, Eq, Structural, Debug)]
pub struct WindowState {
    pub visible: bool,
    pub focused: bool,
    pub always_on_top: bool,
}

/// A route of the hosted frontend that the shell can navigate to.
#[derive(Clone, Copy, PartialEq, Eq, Structural, Debug)]
pub enum Route {
    Inbox,
}

/// An event emitted to the hosted frontend.
#[derive(Clone, Copy, PartialEq, Eq, Structural, Debug)]
pub enum UiEvent {
    /// Asks the frontend's router to show the route.
    Navigate(Route),
    /// Asks the frontend to open its command palette; carries no payload.
    OpenCommandPalette,
}

/// One step that the host runtime performs, in the order given.
#[derive(Clone, Copy, PartialEq, Eq, Structural, Debug)]
pub enum Effect {
    Show,
    Focus,
    Hide,
    SetAlwaysOnTop(bool),
    /// Requests the user's attention at informational severity.
    RequestAttention,
    /// Suppresses the default action of a close request.
    PreventClose,
    Emit(UiEvent),
    /// Terminates the process with the exit code.
    Exit(i32),
}

/// What a handler decided: the window as it stands once the effects are
/// performed (`None` where no main window could be found), and the effects.
pub struct Step {
    pub window: Option<WindowState>,
    pub effects: Vec<Effect>,
}

pub open spec fn route_path(r: Route) -> Seq<char> {
    match r {
        Route::Inbox => "/employee/inbox"@,
    }
}

pub open spec fn event_name(e: UiEvent) -> Seq<char> {
    match e {
        UiEvent::Navigate(_) => "navigate"@,
        UiEvent::OpenCommandPalette => "open-command-palette"@,
    }
}

impl Route {
    /// The path of the route in the frontend's router.
    pub fn path(&self) -> (r: &'static str)
        ensures
            r@ == route_path(*self),
    {
        match self {
            Route::Inbox => "/employee/inbox",
        }
    }
}

impl UiEvent {
    /// The name under which the event is emitted.
    pub fn name(&self) -> (r: &'static str)
        ensures
            r@ == event_name(*self),
    {
        match self {
            UiEvent::Navigate(_) => "navigate",
            UiEvent::OpenCommandPalette => "open-command-palette",
        }
    }
}

/// The window after one effect.
pub open spec fn apply_effect(w: WindowState, e: Effect) -> WindowState {
    match e {
        Effect::Show => WindowState { visible: true, ..w },
        Effect::Focus => WindowState { focused: true, ..w },
        Effect::Hide => WindowState { visible: false, focused: false, ..w },
        Effect::SetAlwaysOnTop(on) => WindowState { always_on_top: on, ..w },
        _ => w,
    }
}

/// The window after the effects, performed in order; an absent window stays
/// absent.
pub open spec fn apply_effects(w: Option<WindowState>, es: Seq<Effect>) -> Option<WindowState>
    decreases es.len(),
{
    if es.len() == 0 {
        w
    } else {
        match apply_effects(w, es.drop_last()) {
            Some(v) => Some(apply_effect(v, es.last())),
            None => None,
        }
    }
}

/// Whether the effects end the process.
pub open spec fn exits(es: Seq<Effect>) -> bool {
    exists|i: int| 0 <= i < es.len() && es[i] is Exit
}

/// What the global shortcut does: hide a visible window, otherwise show and
/// focus it; nothing when no window is found.
pub open spec fn toggle_effects(w: Option<WindowState>) -> Seq<Effect> {
    match w {
        None => seq![],
        Some(v) => if v.visible {
            seq![Effect::Hide]
        } else {
            seq![Effect::Show, Effect::Focus]
        },
    }
}

/// A close request on the window is turned into a hide.
pub open spec fn close_effects() -> Seq<Effect> {
    seq![Effect::Hide, Effect::PreventClose]
}

/// Events of the window's own lifecycle that the shell acts on.
#[derive(Clone, Copy, PartialEq, Eq, Structural, Debug)]
pub enum WindowEvent {
    CloseRequested,
    Other,
}

pub open spec fn window_event_effects(e: WindowEvent) -> Seq<Effect> {
    match e {
        WindowEvent::CloseRequested => close_effects(),
        WindowEvent::Other => seq![],
    }
}

/// The step for the effects `es` on `w`.
pub(crate) fn effects_step(w: Option<WindowState>, es: Vec<Effect>) -> (r: Step)
    ensures
        r.effects@ == es@,
        r.window == apply_effects(w, es@),
{
    let mut cur = w;
    let mut i: usize = 0;
    while i < es.len()
        invariant
            i <= es@.len(),
            cur == apply_effects(w, es@.subrange(0, i as int)),
        decreases es@.len() - i,
    {
        let e = es[i];
        assert(es@.subrange(0, i + 1).drop_last() =~= es@.subrange(0, i as int));
        cur = match cur {
            Some(v) => Some(
                match e {
                    Effect::Show => WindowState { visible: true, ..v },
                    Effect::Focus => WindowState { focused: true, ..v },
                    Effect::Hide => WindowState { visible: false, focused: false, ..v },
                    Effect::SetAlwaysOnTop(on) => WindowState { always_on_top: on, ..v },
                    _ => v,
                },
            ),
            None => None,
        };
        i = i + 1;
    }
    assert(es@.subrange(0, es@.len() as int) =~= es@);
    Step { window: cur, effects: es }
}

/// The global shortcut's toggle of the main window.
pub fn toggle_main_window(window: Option<WindowState>) -> (r: Step)
    ensures
        r.effects@ == toggle_effects(window),
        r.window == apply_effects(window, r.effects@),
{
    let es = match window {
        None => Vec::new(),
        Some(v) => if v.visible {
            vec![Effect::Hide]
        } else {
            vec![Effect::Show, Effect::Focus]
        },
    };
    assert(es@ =~= toggle_effects(window));
    effects_step(window, es)
}

/// Handles an event of the main window's lifecycle: a close request hides the
/// window and keeps it from closing; other events do nothing.
pub fn handle_window_event(window: WindowState, event: WindowEvent) -> (r: Step)
    ensures
        r.effects@ == window_event_effects(event),
        r.window == apply_effects(Some(window), r.effects@),
{
    let es = match event {
        WindowEvent::CloseRequested => vec![Effect::Hide, Effect::PreventClose],
        WindowEvent::Other => Vec::new(),
    };
    assert(es@ =~= window_event_effects(event));
    effects_step(Some(window), es)
}

/// Sets whether the window stays above others.
pub fn set_always_on_top(window: WindowState, always_on_top: bool) -> (r: Step)
    ensures
        r.effects@ == seq![Effect::SetAlwaysOnTop(always_on_top)],
        r.window == Some(WindowState { always_on_top, ..window }),
{
    let r = effects_step(Some(window), vec![Effect::SetAlwaysOnTop(always_on_top)]);
    proof { reveal_with_fuel(apply_effects, 2); }
    r
}

/// Hides the window; the tray icon stays.
pub fn minimize_to_tray(window: WindowState) -> (r: Step)
    ensures
        r.effects@ == seq![Effect::Hide],
        r.window == Some(WindowState { visible: false, focused: false, ..window }),
{
    let r = effects_step(Some(window), vec![Effect::Hide]);
    proof { reveal_with_fuel(apply_effects, 2); }
    r
}

/// Asks for the user's attention at informational severity; the window is
/// left as it is.
pub fn request_attention(window: WindowState) -> (r: Step)
    ensures
        r.effects@ == seq![Effect::RequestAttention],
        r.window == Some(window),
{
    let r = effects_step(Some(window), vec![Effect::RequestAttention]);
    proof { reveal_with_fuel(apply_effects, 2); }
    r
}

} // verus!
