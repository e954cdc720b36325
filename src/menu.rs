use vstd::prelude::*;
use vstd::string::StringExecFns;
use crate::text::str_equals;

verus! {

/// Name of the event on which the tray bridge talks to the UI.
pub const TRAY_EVENT: &'static str = "cadence:tray";

/// Minutes added by the tray's "extend" entry.
pub const EXTEND_MINUTES: u32 = 1;

/// Exit code of a quit chosen from the tray.
pub const QUIT_EXIT_CODE: i32 = 0;

/// What a tray menu entry asks for.
#[derive(Clone, Copy, Debug, PartialEq, Eq, Structural)]
pub enum MenuAction {
    Start,
    Pause,
    Skip,
    Extend(u32),
    ToggleMini,
    Quit,
}

/// What the bridge does with one menu selection.
#[derive(Clone, Copy, Debug, PartialEq, Eq, Structural)]
pub enum TrayOutcome {
    /// Send the action's payload to the UI on the tray event.
    Emit(MenuAction),
    /// End the process with this code; nothing is sent to the UI.
    Exit(i32),
    /// An identifier the menu does not know: nothing happens.
    Ignore,
}

/// Payload sent to the UI: `{"action": ..}`, with `minutes` for extend.
#[derive(Debug)]
pub struct TrayEvent {
    pub action: String,
    pub minutes: Option<u32>,
}

/// The fixed table from menu identifier to action.
pub open spec fn action_of(id: Seq<char>) -> Option<MenuAction> {
    if id == "start"@ {
        Some(MenuAction::Start)
    } else if id == "pause"@ {
        Some(MenuAction::Pause)
    } else if id == "skip"@ {
        Some(MenuAction::Skip)
    } else if id == "extend"@ {
        Some(MenuAction::Extend(EXTEND_MINUTES))
    } else if id == "toggle_mini"@ {
        Some(MenuAction::ToggleMini)
    } else if id == "quit"@ {
        Some(MenuAction::Quit)
    } else {
        None
    }
}

/// What a selection of `id` leads to.
pub open spec fn outcome_of(id: Seq<char>) -> TrayOutcome {
    match action_of(id) {
        Some(MenuAction::Quit) => TrayOutcome::Exit(QUIT_EXIT_CODE),
        Some(a) => TrayOutcome::Emit(a),
        None => TrayOutcome::Ignore,
    }
}

/// The `action` field of the payload of `a`.
pub open spec fn action_name(a: MenuAction) -> Seq<char> {
    match a {
        MenuAction::Start => "start"@,
        MenuAction::Pause => "pause"@,
        MenuAction::Skip => "skip"@,
        MenuAction::Extend(_) => "extend"@,
        MenuAction::ToggleMini => "toggle_mini"@,
        MenuAction::Quit => "quit"@,
    }
}

/// The `minutes` field of the payload of `a`, where it has one.
pub open spec fn payload_minutes(a: MenuAction) -> Option<u32> {
    match a {
        MenuAction::Extend(m) => Some(m),
        _ => None,
    }
}

/// Looks `id` up in the menu's table.
pub fn parse_menu_id(id: &str) -> (r: Option<MenuAction>)
    ensures
        r == action_of(id@),
{
    if str_equals(id, "start") {
        Some(MenuAction::Start)
    } else if str_equals(id, "pause") {
        Some(MenuAction::Pause)
    } else if str_equals(id, "skip") {
        Some(MenuAction::Skip)
    } else if str_equals(id, "extend") {
        Some(MenuAction::Extend(EXTEND_MINUTES))
    } else if str_equals(id, "toggle_mini") {
        Some(MenuAction::ToggleMini)
    } else if str_equals(id, "quit") {
        Some(MenuAction::Quit)
    } else {
        None
    }
}

/// Decides what a selection of the menu entry `id` does.
pub fn dispatch(id: &str) -> (r: TrayOutcome)
    ensures
        r == outcome_of(id@),
{
    match parse_menu_id(id) {
        Some(MenuAction::Quit) => TrayOutcome::Exit(QUIT_EXIT_CODE),
        Some(a) => TrayOutcome::Emit(a),
        None => TrayOutcome::Ignore,
    }
}

impl MenuAction {
    /// The menu identifier of this action.
    pub fn id(&self) -> (r: &'static str)
        ensures
            r@ == action_name(*self),
    {
        match self {
            MenuAction::Start => "start",
            MenuAction::Pause => "pause",
            MenuAction::Skip => "skip",
            MenuAction::Extend(_) => "extend",
            MenuAction::ToggleMini => "toggle_mini",
            MenuAction::Quit => "quit",
        }
    }

    /// The payload that the UI receives for this action.
    pub fn payload(&self) -> (r: TrayEvent)
        requires
            *self != MenuAction::Quit,
        ensures
            r.action@ == action_name(*self),
            r.minutes == payload_minutes(*self),
    {
        let minutes = match self {
            MenuAction::Extend(m) => Some(*m),
            _ => None,
        };
        TrayEvent { action: String::from_str(self.id()), minutes }
    }
}

/// The tray menu's entries, in the order they are shown.
pub open spec fn menu_spec() -> Seq<MenuAction> {
    seq![
        MenuAction::Start,
        MenuAction::Pause,
        MenuAction::Skip,
        MenuAction::Extend(EXTEND_MINUTES),
        MenuAction::ToggleMini,
        MenuAction::Quit,
    ]
}

/// The text shown for `a` in the menu.
pub open spec fn label_of(a: MenuAction) -> Seq<char> {
    match a {
        MenuAction::Start => "Start"@,
        MenuAction::Pause => "Pause"@,
        MenuAction::Skip => "Skip"@,
        MenuAction::Extend(_) => "Extend +1m"@,
        MenuAction::ToggleMini => "Toggle Mini"@,
        MenuAction::Quit => "Quit"@,
    }
}

/// The tray menu's entries, in the order they are shown.
pub fn menu_entries() -> (r: Vec<MenuAction>)
    ensures
        r@ == menu_spec(),
{
    let r = vec![
        MenuAction::Start,
        MenuAction::Pause,
        MenuAction::Skip,
        MenuAction::Extend(EXTEND_MINUTES),
        MenuAction::ToggleMini,
        MenuAction::Quit,
    ];
    assert(r@ =~= menu_spec());
    r
}

impl MenuAction {
    /// The text shown for this action in the menu.
    pub fn label(&self) -> (r: &'static str)
        ensures
            r@ == label_of(*self),
    {
        match self {
            MenuAction::Start => "Start",
            MenuAction::Pause => "Pause",
            MenuAction::Skip => "Skip",
            MenuAction::Extend(_) => "Extend +1m",
            MenuAction::ToggleMini => "Toggle Mini",
            MenuAction::Quit => "Quit",
        }
    }
}

proof fn lemma_menu_ids_distinct()
    ensures
        "start"@ != "pause"@,
        "start"@ != "skip"@,
        "start"@ != "extend"@,
        "start"@ != "toggle_mini"@,
        "start"@ != "quit"@,
        "pause"@ != "skip"@,
        "pause"@ != "extend"@,
        "pause"@ != "toggle_mini"@,
        "pause"@ != "quit"@,
        "skip"@ != "extend"@,
        "skip"@ != "toggle_mini"@,
        "skip"@ != "quit"@,
        "extend"@ != "toggle_mini"@,
        "extend"@ != "quit"@,
        "toggle_mini"@ != "quit"@,
{
    reveal_strlit("start");
    reveal_strlit("pause");
    reveal_strlit("skip");
    reveal_strlit("extend");
    reveal_strlit("toggle_mini");
    reveal_strlit("quit");
    assert("start"@[0] != "pause"@[0]);
    assert("start"@[1] != "skip"@[1]);
    assert("start"@[0] != "extend"@[0]);
    assert("start"@[0] != "toggle_mini"@[0]);
    assert("start"@[0] != "quit"@[0]);
    assert("pause"@[0] != "skip"@[0]);
    assert("pause"@[0] != "extend"@[0]);
    assert("pause"@[0] != "toggle_mini"@[0]);
    assert("pause"@[0] != "quit"@[0]);
    assert("skip"@[0] != "extend"@[0]);
    assert("skip"@[0] != "toggle_mini"@[0]);
    assert("skip"@[0] != "quit"@[0]);
    assert("extend"@[0] != "toggle_mini"@[0]);
    assert("extend"@[0] != "quit"@[0]);
    assert("toggle_mini"@[0] != "quit"@[0]);
}

/// Each entry of the menu is found again under its own identifier: a
/// selection of it sends that entry's payload to the UI, except for quit,
/// which ends the process with code 0.
pub proof fn lemma_menu_dispatch(i: int)
    requires
        0 <= i < menu_spec().len(),
    ensures
        action_of(action_name(menu_spec()[i])) == Some(menu_spec()[i]),
        menu_spec()[i] == MenuAction::Quit ==> outcome_of(action_name(menu_spec()[i]))
            == TrayOutcome::Exit(0),
        menu_spec()[i] != MenuAction::Quit ==> outcome_of(action_name(menu_spec()[i]))
            == TrayOutcome::Emit(menu_spec()[i]),
{
    lemma_menu_ids_distinct();
}

/// A selection of "quit" ends the process with code 0 and sends nothing;
/// no other identifier ends the process, and only "quit" sends nothing
/// among the known ones.
pub proof fn lemma_quit_exits(id: Seq<char>)
    ensures
        id == "quit"@ ==> outcome_of(id) == TrayOutcome::Exit(0),
        outcome_of(id) is Exit <==> id == "quit"@,
        outcome_of(id) is Exit ==> outcome_of(id)->Exit_0 == 0,
{
    lemma_menu_ids_distinct();
}

/// An identifier that names no entry of the menu is ignored: no event and
/// no error.
pub proof fn lemma_unknown_ignored(id: Seq<char>)
    requires
        forall|i: int| 0 <= i < menu_spec().len() ==> id != action_name(#[trigger] menu_spec()[i]),
    ensures
        outcome_of(id) == TrayOutcome::Ignore,
{
    assert(id != action_name(menu_spec()[0]));
    assert(id != action_name(menu_spec()[1]));
    assert(id != action_name(menu_spec()[2]));
    assert(id != action_name(menu_spec()[3]));
    assert(id != action_name(menu_spec()[4]));
    assert(id != action_name(menu_spec()[5]));
}

} // verus!
