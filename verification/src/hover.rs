//! The reveal state machine. The overlay is click-through, so no hover event
//! reaches it: a polling loop reads the cursor and the loop decides, on each
//! tick, whether the overlay flips between Ghost (dim, clicks pass through)
//! and Revealed (sharp, clicks caught). It acts on edges only.

use vstd::prelude::*;

verus! {

/// What the polling loop last made the overlay show. `Unknown` is the state
/// before the first decision and after a hide: the next visible tick decides
/// afresh.
#[derive(Clone, Copy, Debug, PartialEq, Eq, Structural)]
pub enum RevealState {
    Unknown,
    Ghosted,
    Revealed,
}

/// A change that the windowing layer carries out: set whether the window
/// ignores cursor events and tell the page which state it is now in.
#[derive(Clone, Copy, Debug, PartialEq, Eq, Structural)]
pub enum RevealAction {
    /// Click-through on, page told "ghost".
    ToGhost,
    /// Click-through off, page told "revealed".
    ToRevealed,
}

impl RevealAction {
    /// The state that the overlay shows once the action is carried out.
    pub open spec fn target(self) -> RevealState {
        match self {
            RevealAction::ToGhost => RevealState::Ghosted,
            RevealAction::ToRevealed => RevealState::Revealed,
        }
    }

    /// Whether the window ignores cursor events (lets clicks through) after
    /// the action.
    pub fn ignores_cursor_events(&self) -> (r: bool)
        ensures
            r == (*self == RevealAction::ToGhost),
    {
        match self {
            RevealAction::ToGhost => true,
            RevealAction::ToRevealed => false,
        }
    }

    /// The payload of the state-change event sent to the page.
    pub fn label(&self) -> (r: &'static str)
        ensures
            r@ == (match *self {
                RevealAction::ToGhost => "ghost"@,
                RevealAction::ToRevealed => "revealed"@,
            }),
    {
        match self {
            RevealAction::ToGhost => "ghost",
            RevealAction::ToRevealed => "revealed",
        }
    }
}

/// The action that brings the overlay to the cursor's side of the hot-zone:
/// revealed inside it, ghosted outside.
pub open spec fn action_for(inside: bool) -> RevealAction {
    if inside {
        RevealAction::ToRevealed
    } else {
        RevealAction::ToGhost
    }
}

/// The state of the loop after a tick, and what to do now, if anything.
#[derive(Clone, Copy, Debug, PartialEq, Eq, Structural)]
pub struct HoverOutcome {
    pub next: RevealState,
    pub action: Option<RevealAction>,
}

/// One tick of the loop. `visible` is whether the overlay is shown,
/// `settings_open` whether the settings panel is open, `inside` whether the
/// cursor is in the hot-zone (`None` where the cursor could not be read).
///
/// Hidden: forget the state, do nothing. Settings panel open: hold the
/// overlay revealed and click-catching, whatever the cursor does. Otherwise:
/// follow the cursor, acting only when its side of the hot-zone changed.
pub open spec fn hover_tick(prev: RevealState, visible: bool, settings_open: bool, inside: Option<bool>) -> HoverOutcome {
    if !visible {
        HoverOutcome { next: RevealState::Unknown, action: None }
    } else if settings_open {
        if prev == RevealState::Revealed {
            HoverOutcome { next: prev, action: None }
        } else {
            HoverOutcome { next: RevealState::Revealed, action: Some(RevealAction::ToRevealed) }
        }
    } else {
        match inside {
            None => HoverOutcome { next: prev, action: None },
            Some(b) => {
                let a = action_for(b);
                if a.target() == prev {
                    HoverOutcome { next: prev, action: None }
                } else {
                    HoverOutcome { next: a.target(), action: Some(a) }
                }
            },
        }
    }
}

/// The state that a tick starts from: the loop's own, unless the panic hotkey
/// showed the overlay again since the last tick. A re-show puts the window in
/// the ghost state behind the loop's back (and a hide and a re-show can both
/// fall between two ticks), so the loop forgets what it believed and decides
/// afresh.
pub open spec fn start_state(prev: RevealState, shown_again: bool) -> RevealState {
    if shown_again {
        RevealState::Unknown
    } else {
        prev
    }
}

/// The first half of a tick, before the cursor is read.
#[derive(Clone, Copy, Debug, PartialEq, Eq, Structural)]
pub enum HoverPoll {
    /// The tick is decided without the cursor.
    Settled(HoverOutcome),
    /// Read the cursor against the hot-zone, then call [`hover_after_cursor`].
    ReadCursor,
}

/// Start a tick: decide it outright when the overlay is hidden or the
/// settings panel is open, else ask for the cursor. `shown_again` is whether
/// the panic hotkey showed the overlay since the last tick.
pub fn hover_poll(prev: RevealState, shown_again: bool, visible: bool, settings_open: bool) -> (p: HoverPoll)
    ensures
        visible && !settings_open ==> p == HoverPoll::ReadCursor,
        !(visible && !settings_open) ==> p == HoverPoll::Settled(
            hover_tick(start_state(prev, shown_again), visible, settings_open, None),
        ),
{
    let prev = if shown_again {
        RevealState::Unknown
    } else {
        prev
    };
    if !visible {
        HoverPoll::Settled(HoverOutcome { next: RevealState::Unknown, action: None })
    } else if settings_open {
        if prev == RevealState::Revealed {
            HoverPoll::Settled(HoverOutcome { next: prev, action: None })
        } else {
            HoverPoll::Settled(HoverOutcome { next: RevealState::Revealed, action: Some(RevealAction::ToRevealed) })
        }
    } else {
        HoverPoll::ReadCursor
    }
}

/// Finish a tick of a visible overlay with the settings panel closed, once
/// the cursor was read: `inside` is whether it is in the hot-zone, `None`
/// where it could not be read (then nothing changes beyond forgetting the
/// state after a re-show). `shown_again` is as for [`hover_poll`].
pub fn hover_after_cursor(prev: RevealState, shown_again: bool, inside: Option<bool>) -> (o: HoverOutcome)
    ensures
        o == hover_tick(start_state(prev, shown_again), true, false, inside),
{
    let prev = if shown_again {
        RevealState::Unknown
    } else {
        prev
    };
    match inside {
        None => HoverOutcome { next: prev, action: None },
        Some(b) => {
            let a = if b {
                RevealAction::ToRevealed
            } else {
                RevealAction::ToGhost
            };
            let target = match a {
                RevealAction::ToGhost => RevealState::Ghosted,
                RevealAction::ToRevealed => RevealState::Revealed,
            };
            if target == prev {
                HoverOutcome { next: prev, action: None }
            } else {
                HoverOutcome { next: target, action: Some(a) }
            }
        },
    }
}

/// What the overlay does at once when the page reports the settings panel
/// opened or closed: on open, reveal and catch clicks without waiting for the
/// next tick; on close, nothing (the loop takes over again).
pub fn settings_open_action(open: bool) -> (r: Option<RevealAction>)
    ensures
        r == (if open {
            Some(RevealAction::ToRevealed)
        } else {
            None
        }),
{
    if open {
        Some(RevealAction::ToRevealed)
    } else {
        None
    }
}

/// The window's last applied action, updated by one more optional action.
pub open spec fn applied(window: Option<RevealAction>, action: Option<RevealAction>) -> Option<RevealAction> {
    match action {
        Some(a) => Some(a),
        None => window,
    }
}

/// The loop's state agrees with the window: either the loop claims nothing
/// (`Unknown`) or the window's last action produced the state it claims.
pub open spec fn agrees(state: RevealState, window: Option<RevealAction>) -> bool {
    state == RevealState::Unknown || (window matches Some(a) && a.target() == state)
}

/// Edge triggering: a tick acts exactly when it moves the loop to a new,
/// known state, and the action it takes produces that state.
pub proof fn lemma_hover_acts_on_edges_only(prev: RevealState, visible: bool, settings_open: bool, inside: Option<bool>)
    ensures
        ({
            let o = hover_tick(prev, visible, settings_open, inside);
            &&& (o.action is Some <==> (o.next != prev && o.next != RevealState::Unknown))
            &&& (o.action matches Some(a) ==> a.target() == o.next)
        }),
{
}

/// Repeating a tick changes nothing: from the state a tick reached, the same
/// inputs take no action and keep the state.
pub proof fn lemma_hover_repeat_is_quiet(prev: RevealState, visible: bool, settings_open: bool, inside: Option<bool>)
    ensures
        ({
            let o = hover_tick(prev, visible, settings_open, inside);
            let again = hover_tick(o.next, visible, settings_open, inside);
            again.action is None && again.next == o.next
        }),
{
}

/// The loop never loses track of the window: if its state agrees with the
/// window's last action before a tick, it agrees after the tick's action is
/// carried out.
pub proof fn lemma_hover_keeps_window_in_step(
    prev: RevealState,
    window: Option<RevealAction>,
    visible: bool,
    settings_open: bool,
    inside: Option<bool>,
)
    requires
        agrees(prev, window),
    ensures
        ({
            let o = hover_tick(prev, visible, settings_open, inside);
            agrees(o.next, applied(window, o.action))
        }),
{
}

/// While the settings panel is open on a visible overlay, the overlay is
/// revealed and catching clicks after the tick, wherever the cursor is.
pub proof fn lemma_settings_open_holds_revealed(
    prev: RevealState,
    window: Option<RevealAction>,
    inside: Option<bool>,
)
    requires
        agrees(prev, window),
    ensures
        ({
            let o = hover_tick(prev, true, true, inside);
            &&& o.next == RevealState::Revealed
            &&& applied(window, o.action) == Some(RevealAction::ToRevealed)
        }),
{
}

/// A tick that sees the overlay hidden suspends the loop: it forgets the
/// state and does nothing.
pub proof fn lemma_hidden_tick_forgets(prev: RevealState, shown_again: bool, settings_open: bool, inside: Option<bool>)
    ensures
        hover_tick(start_state(prev, shown_again), false, settings_open, inside) == (HoverOutcome {
            next: RevealState::Unknown,
            action: None,
        }),
{
}

/// The first visible tick after the overlay was shown again re-evaluates,
/// whatever the loop believed before (even when no tick saw the overlay
/// hidden): with the settings panel closed and the cursor read, it acts on
/// the cursor's side of the hot-zone; with the panel open, it reveals.
pub proof fn lemma_reshow_reevaluates(prev: RevealState, settings_open: bool, inside: bool)
    ensures
        ({
            let o = hover_tick(start_state(prev, true), true, settings_open, Some(inside));
            if settings_open {
                o.next == RevealState::Revealed && o.action == Some(RevealAction::ToRevealed)
            } else {
                o.next == action_for(inside).target() && o.action == Some(action_for(inside))
            }
        }),
{
}

/// The cursor inside the hot-zone reveals, outside it ghosts: after a
/// re-show, the first tick with the cursor read takes the reveal action
/// (click-through off, page told "revealed") exactly when the cursor is in
/// the hot-zone, and the ghost action (click-through on, page told "ghost")
/// otherwise.
pub proof fn lemma_cursor_side_picks_action(prev: RevealState, inside: bool)
    ensures
        hover_tick(start_state(prev, true), true, false, Some(inside)).action == Some(
            if inside {
                RevealAction::ToRevealed
            } else {
                RevealAction::ToGhost
            },
        ),
        RevealAction::ToRevealed.target() == RevealState::Revealed,
        RevealAction::ToGhost.target() == RevealState::Ghosted,
{
}

/// Without a re-show, a tick whose cursor cannot be read keeps the loop's
/// state and does nothing.
pub proof fn lemma_unreadable_cursor_changes_nothing(prev: RevealState)
    ensures
        hover_tick(start_state(prev, false), true, false, None) == (HoverOutcome { next: prev, action: None }),
{
}

/// Once a tick, re-show or not, has decided, the next tick with the same
/// inputs and no re-show in between takes no action and keeps the state.
pub proof fn lemma_next_tick_without_reshow_is_quiet(
    prev: RevealState,
    shown_again: bool,
    visible: bool,
    settings_open: bool,
    inside: Option<bool>,
)
    ensures
        ({
            let o = hover_tick(start_state(prev, shown_again), visible, settings_open, inside);
            let again = hover_tick(start_state(o.next, false), visible, settings_open, inside);
            again.action is None && again.next == o.next
        }),
{
}

/// Outside the settings panel, a known cursor position decides the state:
/// revealed exactly when the cursor is in the hot-zone.
pub proof fn lemma_cursor_decides_state(prev: RevealState, inside: bool)
    ensures
        hover_tick(prev, true, false, Some(inside)).next == (if inside {
            RevealState::Revealed
        } else {
            RevealState::Ghosted
        }),
{
}

} // verus!
