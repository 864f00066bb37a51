//! The system tray: its menu and what each tray interaction does to the main
//! window.
use vstd::prelude::*;
use vstd::string::*;
use crate::window::{Effect, Route, Step, UiEvent, WindowState, apply_effects};

verus! {

/// The entries of the tray menu that the shell acts on.
#[derive(Clone, Copy, PartialEq, Eq, Structural, Debug)]
pub enum MenuAction {
    Open,
    Inbox,
    QuickAdd,
    Quit,
}

/// One line of the tray menu.
#[derive(Clone, Copy, PartialEq, Eq, Structural, Debug)]
pub enum TrayMenuEntry {
    Item(MenuAction),
    Separator,
}

/// An interaction with the tray icon, as the host runtime reports it.
pub enum TrayEvent {
    LeftClick,
    RightClick,
    DoubleClick,
    /// A click on the menu item with the given identifier.
    MenuItemClick(String),
    /// Any interaction that the shell does not act on.
    Other,
}

pub open spec fn action_id(a: MenuAction) -> Seq<char> {
    match a {
        MenuAction::Open => "open"@,
        MenuAction::Inbox => "inbox"@,
        MenuAction::QuickAdd => "quick_add"@,
        MenuAction::Quit => "quit"@,
    }
}

pub open spec fn action_label(a: MenuAction) -> Seq<char> {
    match a {
        MenuAction::Open => "Open InTime"@,
        MenuAction::Inbox => "Go to Inbox"@,
        MenuAction::QuickAdd => "Quick Add..."@,
        MenuAction::Quit => "Quit"@,
    }
}

/// The action whose identifier is `id`, if any.
pub open spec fn action_of_id(id: Seq<char>) -> Option<MenuAction> {
    if id == action_id(MenuAction::Open) {
        Some(MenuAction::Open)
    } else if id == action_id(MenuAction::Inbox) {
        Some(MenuAction::Inbox)
    } else if id == action_id(MenuAction::QuickAdd) {
        Some(MenuAction::QuickAdd)
    } else if id == action_id(MenuAction::Quit) {
        Some(MenuAction::Quit)
    } else {
        None
    }
}

/// No two menu actions share an identifier.
pub proof fn lemma_action_ids_distinct()
    ensures
        forall|a: MenuAction, b: MenuAction| action_id(a) == action_id(b) ==> a == b,
        forall|a: MenuAction| #[trigger] action_of_id(action_id(a)) == Some(a),
{
    reveal_strlit("open");
    reveal_strlit("inbox");
    reveal_strlit("quick_add");
    reveal_strlit("quit");
    assert("open"@.len() != "inbox"@.len());
    assert("open"@[0] != "quick_add"@[0]);
    assert("open"@[0] != "quit"@[0]);
    assert("inbox"@.len() != "quick_add"@.len());
    assert("inbox"@[0] != "quit"@[0]);
    assert("quick_add"@.len() != "quit"@.len());
}

/// The tray menu, top to bottom.
pub open spec fn tray_menu() -> Seq<TrayMenuEntry> {
    seq![
        TrayMenuEntry::Item(MenuAction::Open),
        TrayMenuEntry::Separator,
        TrayMenuEntry::Item(MenuAction::Inbox),
        TrayMenuEntry::Item(MenuAction::QuickAdd),
        TrayMenuEntry::Separator,
        TrayMenuEntry::Item(MenuAction::Quit),
    ]
}

/// Showing and focusing the window, then the effects `then`; nothing at all
/// when there is no window.
pub open spec fn reveal_then(w: Option<WindowState>, then: Seq<Effect>) -> Seq<Effect> {
    match w {
        None => seq![],
        Some(_) => seq![Effect::Show, Effect::Focus] + then,
    }
}

/// What a menu action does.
pub open spec fn action_effects(w: Option<WindowState>, a: MenuAction) -> Seq<Effect> {
    match a {
        MenuAction::Open => reveal_then(w, seq![]),
        MenuAction::Inbox => reveal_then(w, seq![Effect::Emit(UiEvent::Navigate(Route::Inbox))]),
        MenuAction::QuickAdd => reveal_then(w, seq![Effect::Emit(UiEvent::OpenCommandPalette)]),
        MenuAction::Quit => seq![Effect::Exit(0)],
    }
}

/// Whether the interaction is a click on the menu item with identifier `id`.
pub open spec fn is_menu_click(e: TrayEvent, id: Seq<char>) -> bool {
    match e {
        TrayEvent::MenuItemClick(s) => s@ == id,
        _ => false,
    }
}

/// What a tray interaction does.
pub open spec fn tray_effects(w: Option<WindowState>, e: TrayEvent) -> Seq<Effect> {
    match e {
        TrayEvent::LeftClick => reveal_then(w, seq![]),
        TrayEvent::MenuItemClick(id) => match action_of_id(id@) {
            Some(a) => action_effects(w, a),
            None => seq![],
        },
        _ => seq![],
    }
}

impl MenuAction {
    /// The identifier of the menu item.
    pub fn id(&self) -> (r: &'static str)
        ensures
            r@ == action_id(*self),
    {
        match self {
            MenuAction::Open => "open",
            MenuAction::Inbox => "inbox",
            MenuAction::QuickAdd => "quick_add",
            MenuAction::Quit => "quit",
        }
    }

    /// The text shown for the menu item.
    pub fn label(&self) -> (r: &'static str)
        ensures
            r@ == action_label(*self),
    {
        match self {
            MenuAction::Open => "Open InTime",
            MenuAction::Inbox => "Go to Inbox",
            MenuAction::QuickAdd => "Quick Add...",
            MenuAction::Quit => "Quit",
        }
    }
}

/// Whether two texts hold the same characters.
fn same_text(a: &str, b: &str) -> (r: bool)
    ensures
        r == (a@ == b@),
{
    let n = a.unicode_len();
    if n != b.unicode_len() {
        return false;
    }
    let mut i: usize = 0;
    while i < n
        invariant
            n == a@.len(),
            n == b@.len(),
            i <= n,
            forall|j: int| 0 <= j < i ==> a@[j] == b@[j],
        decreases n - i,
    {
        if a.get_char(i) != b.get_char(i) {
            return false;
        }
        i = i + 1;
    }
    assert(a@ =~= b@);
    true
}

/// The menu action whose identifier is `id`; `None` for any other identifier.
pub fn menu_action(id: &str) -> (r: Option<MenuAction>)
    ensures
        r == action_of_id(id@),
{
    if same_text(id, MenuAction::Open.id()) {
        Some(MenuAction::Open)
    } else if same_text(id, MenuAction::Inbox.id()) {
        Some(MenuAction::Inbox)
    } else if same_text(id, MenuAction::QuickAdd.id()) {
        Some(MenuAction::QuickAdd)
    } else if same_text(id, MenuAction::Quit.id()) {
        Some(MenuAction::Quit)
    } else {
        None
    }
}

/// The tray menu: open, a separator, inbox, quick add, a separator, quit.
pub fn create_system_tray() -> (r: Vec<TrayMenuEntry>)
    ensures
        r@ == tray_menu(),
{
    let r = vec![
        TrayMenuEntry::Item(MenuAction::Open),
        TrayMenuEntry::Separator,
        TrayMenuEntry::Item(MenuAction::Inbox),
        TrayMenuEntry::Item(MenuAction::QuickAdd),
        TrayMenuEntry::Separator,
        TrayMenuEntry::Item(MenuAction::Quit),
    ];
    assert(r@ =~= tray_menu());
    r
}

/// Decides what a tray interaction does to the main window (`None` when it
/// cannot be found): a left click, "open", "inbox" and "quick_add" show and
/// focus it, the last two then emit their event; "quit" ends the process with
/// exit code 0; anything else does nothing.
pub fn handle_system_tray_event(window: Option<WindowState>, event: &TrayEvent) -> (r: Step)
    ensures
        r.effects@ == tray_effects(window, *event),
        r.window == apply_effects(window, r.effects@),
{
    let action = match event {
        TrayEvent::LeftClick => Some(MenuAction::Open),
        TrayEvent::MenuItemClick(id) => menu_action(id.as_str()),
        _ => None,
    };
    let then = match action {
        Some(MenuAction::Inbox) => vec![Effect::Emit(UiEvent::Navigate(Route::Inbox))],
        Some(MenuAction::QuickAdd) => vec![Effect::Emit(UiEvent::OpenCommandPalette)],
        _ => Vec::new(),
    };
    let es = match action {
        None => Vec::new(),
        Some(MenuAction::Quit) => vec![Effect::Exit(0)],
        Some(_) => match window {
            None => Vec::new(),
            Some(_) => {
                let mut v = vec![Effect::Show, Effect::Focus];
                let mut then = then;
                v.append(&mut then);
                v
            },
        },
    };
    assert(es@ =~= tray_effects(window, *event));
    crate::window::effects_step(window, es)
}

} // verus!
