//! The panic hotkey: one press hides the overlay at once, the next brings it
//! back where it was, in a safe state.

use vstd::prelude::*;
use crate::hover::{RevealAction, RevealState, action_for, agrees, applied, hover_tick, start_state};

verus! {

/// What one press of the panic hotkey does to the overlay window.
#[derive(Clone, Copy, Debug, PartialEq, Eq, Structural)]
pub enum TogglePlan {
    /// Hide the window (it is not destroyed, so page and scroll survive),
    /// then write the settings to disk as a checkpoint.
    Hide,
    /// Show and focus the window, apply the stealth window settings again
    /// (they can be dropped across hide/show), then start ghosted: clicks pass
    /// through and the page is told "ghost", until the next tick decides.
    Show,
}

impl TogglePlan {
    /// Whether the window is shown once the plan is carried out.
    pub open spec fn leaves_visible(self) -> bool {
        self == TogglePlan::Show
    }

    /// The click-through and page state that the plan sets, if any.
    pub open spec fn action(self) -> Option<RevealAction> {
        if self == TogglePlan::Show {
            Some(RevealAction::ToGhost)
        } else {
            None
        }
    }

    /// Whether the polling loop is to forget its state before its next tick
    /// (see [`crate::hover::start_state`]): on every show.
    pub fn resets_hover_loop(&self) -> (r: bool)
        ensures
            r == (*self == TogglePlan::Show),
    {
        match self {
            TogglePlan::Hide => false,
            TogglePlan::Show => true,
        }
    }

    /// Whether the settings are written to disk.
    pub fn persists_settings(&self) -> (r: bool)
        ensures
            r == (*self == TogglePlan::Hide),
    {
        match self {
            TogglePlan::Hide => true,
            TogglePlan::Show => false,
        }
    }

    /// Whether the window settings (size, always-on-top, all workspaces,
    /// content protection) are applied to the window again.
    pub fn reapplies_window_settings(&self) -> (r: bool)
        ensures
            r == (*self == TogglePlan::Show),
    {
        match self {
            TogglePlan::Hide => false,
            TogglePlan::Show => true,
        }
    }

    /// The click-through and page state to set: ghost on every show, none on
    /// a hide.
    pub fn reveal_action(&self) -> (r: Option<RevealAction>)
        ensures
            r == self.action(),
            *self == TogglePlan::Show ==> r == Some(RevealAction::ToGhost),
            *self == TogglePlan::Hide ==> r is None,
    {
        match self {
            TogglePlan::Hide => None,
            TogglePlan::Show => Some(RevealAction::ToGhost),
        }
    }
}

/// The plan for a press of the panic hotkey, given whether the overlay is
/// visible now: hide a visible overlay, show a hidden one.
pub fn toggle_overlay(visible: bool) -> (plan: TogglePlan)
    ensures
        plan == (if visible {
            TogglePlan::Hide
        } else {
            TogglePlan::Show
        }),
{
    if visible {
        TogglePlan::Hide
    } else {
        TogglePlan::Show
    }
}

/// The plan chosen for a given visibility.
pub open spec fn toggle_spec(visible: bool) -> TogglePlan {
    if visible {
        TogglePlan::Hide
    } else {
        TogglePlan::Show
    }
}

/// Each press flips the overlay's visibility, so two presses bring it back
/// to where it was.
pub proof fn lemma_toggle_flips_visibility(visible: bool)
    ensures
        toggle_spec(visible).leaves_visible() == !visible,
        toggle_spec(toggle_spec(visible).leaves_visible()).leaves_visible() == visible,
{
}

/// A re-shown overlay comes back ghosted and click-through, and no longer
/// than until the next poll: the show tells the loop to forget its state, so
/// the first visible tick with the panel closed and the cursor read brings the
/// window to the cursor's side of the hot-zone, whatever the loop believed
/// and whether or not a tick saw the overlay hidden.
pub proof fn lemma_reshow_starts_ghosted(
    loop_state: RevealState,
    window: Option<RevealAction>,
    inside: bool,
)
    ensures
        ({
            let plan = toggle_spec(false);
            let shown = applied(window, plan.action());
            let o = hover_tick(start_state(loop_state, plan == TogglePlan::Show), true, false, Some(inside));
            &&& shown == Some(RevealAction::ToGhost)
            &&& o.action == Some(action_for(inside))
            &&& applied(shown, o.action) == Some(action_for(inside))
            &&& agrees(o.next, applied(shown, o.action))
        }),
{
}

} // verus!
