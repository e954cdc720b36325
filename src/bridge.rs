use vstd::prelude::*;
use crate::effect::{plan_of, resolve_effect, EffectPlan};
use crate::menu::{dispatch, outcome_of, TrayOutcome};
use crate::platform::OsFamily;

verus! {

/// What the tray bridge holds, as seen by contracts.
pub struct TrayBridgeView {
    /// Whether startup has built the menu and the tray icon.
    pub active: bool,
    /// The tooltip last set on the tray icon, if any.
    pub tooltip: Option<Seq<char>>,
}

/// State of the tray bridge, owned by the application for its lifetime.
///
/// It starts uninitialized and becomes active once, when startup has built
/// the menu and the tray icon; menu events and the commands of the UI are
/// handled only once it is active.
pub struct TrayBridge {
    active: bool,
    tooltip: Option<String>,
}

impl View for TrayBridge {
    type V = TrayBridgeView;

    closed spec fn view(&self) -> TrayBridgeView {
        TrayBridgeView {
            active: self.active,
            tooltip: match self.tooltip {
                Some(t) => Some(t@),
                None => None,
            },
        }
    }
}

/// The bridge after a tooltip request for `text` whose native call
/// returned `applied`: the tooltip is replaced on success, kept on failure.
pub open spec fn after_tooltip(
    v: TrayBridgeView,
    text: Seq<char>,
    applied: Result<(), String>,
) -> TrayBridgeView {
    match applied {
        Ok(_) => TrayBridgeView { active: v.active, tooltip: Some(text) },
        Err(_) => v,
    }
}

impl TrayBridge {
    /// A bridge before startup.
    pub fn new() -> (r: TrayBridge)
        ensures
            r@ == (TrayBridgeView { active: false, tooltip: None }),
    {
        TrayBridge { active: false, tooltip: None }
    }

    /// Tells whether startup has completed.
    pub fn is_active(&self) -> (r: bool)
        ensures
            r == self@.active,
    {
        self.active
    }

    /// The tooltip last set on the tray icon.
    pub fn tooltip(&self) -> (r: Option<String>)
        ensures
            match r {
                Some(t) => self@.tooltip == Some(t@),
                None => self@.tooltip is None,
            },
    {
        match &self.tooltip {
            Some(t) => Some(t.clone()),
            None => None,
        }
    }

    /// Records that startup built the menu and the tray icon: the one
    /// transition of the bridge.
    pub fn activate(&mut self)
        requires
            !old(self)@.active,
        ensures
            final(self)@ == (TrayBridgeView { active: true, tooltip: None }),
    {
        self.active = true;
        self.tooltip = None;
    }

    /// Decides what a selection of the menu entry `id` does.
    pub fn on_menu_event(&self, id: &str) -> (r: TrayOutcome)
        requires
            self@.active,
        ensures
            r == outcome_of(id@),
    {
        dispatch(id)
    }

    /// Decides what a request of the UI for the window effect `name` does on
    /// `os`; such a request can come only once startup has completed.
    pub fn window_effect(&self, os: OsFamily, name: &str) -> (r: EffectPlan)
        requires
            self@.active,
        ensures
            r == plan_of(os, name@),
    {
        resolve_effect(os, name)
    }

    /// Records a tooltip request of the UI for `text`, given what setting it
    /// on the tray icon returned, and returns that to the UI.
    pub fn set_tray_tooltip(&mut self, text: String, applied: Result<(), String>) -> (r: Result<
        (),
        String,
    >)
        requires
            old(self)@.active,
        ensures
            r == applied,
            final(self)@ == after_tooltip(old(self)@, text@, applied),
    {
        if applied.is_ok() {
            self.tooltip = Some(text);
        }
        applied
    }
}

/// Of two tooltip requests, the second one that succeeds decides the
/// tooltip, and nothing is left of the first.
pub proof fn lemma_tooltip_last_write_wins(
    v: TrayBridgeView,
    first: Seq<char>,
    second: Seq<char>,
    first_applied: Result<(), String>,
)
    ensures
        after_tooltip(after_tooltip(v, first, first_applied), second, Ok(())).tooltip == Some(
            second,
        ),
        after_tooltip(after_tooltip(v, first, first_applied), second, Ok(())) == after_tooltip(
            v,
            second,
            Ok(()),
        ),
{
}

} // verus!
