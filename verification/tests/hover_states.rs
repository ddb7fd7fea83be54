use peekaboo::hover::{
    hover_after_cursor, hover_poll, settings_open_action, HoverOutcome, HoverPoll, RevealAction,
    RevealState,
};

fn tick(prev: RevealState, visible: bool, settings_open: bool, inside: Option<bool>) -> HoverOutcome {
    match hover_poll(prev, false, visible, settings_open) {
        HoverPoll::Settled(o) => o,
        HoverPoll::ReadCursor => hover_after_cursor(prev, false, inside),
    }
}

#[test]
fn hidden_overlay_forgets_state_and_does_nothing() {
    let o = tick(RevealState::Revealed, false, false, Some(true));
    assert_eq!(o, HoverOutcome { next: RevealState::Unknown, action: None });
    let o = tick(RevealState::Ghosted, false, true, None);
    assert_eq!(o, HoverOutcome { next: RevealState::Unknown, action: None });
}

#[test]
fn visible_overlay_with_panel_closed_reads_cursor() {
    assert_eq!(hover_poll(RevealState::Unknown, false, true, false), HoverPoll::ReadCursor);
    assert_eq!(hover_poll(RevealState::Revealed, false, true, false), HoverPoll::ReadCursor);
}

#[test]
fn cursor_entering_hot_zone_reveals() {
    let o = hover_after_cursor(RevealState::Ghosted, false, Some(true));
    assert_eq!(o, HoverOutcome { next: RevealState::Revealed, action: Some(RevealAction::ToRevealed) });
}

#[test]
fn cursor_leaving_hot_zone_ghosts() {
    let o = hover_after_cursor(RevealState::Revealed, false, Some(false));
    assert_eq!(o, HoverOutcome { next: RevealState::Ghosted, action: Some(RevealAction::ToGhost) });
}

#[test]
fn unchanged_side_takes_no_action() {
    assert_eq!(
        hover_after_cursor(RevealState::Revealed, false, Some(true)),
        HoverOutcome { next: RevealState::Revealed, action: None }
    );
    assert_eq!(
        hover_after_cursor(RevealState::Ghosted, false, Some(false)),
        HoverOutcome { next: RevealState::Ghosted, action: None }
    );
}

#[test]
fn first_tick_after_show_always_acts() {
    let o = hover_after_cursor(RevealState::Unknown, false, Some(false));
    assert_eq!(o, HoverOutcome { next: RevealState::Ghosted, action: Some(RevealAction::ToGhost) });
    let o = hover_after_cursor(RevealState::Unknown, false, Some(true));
    assert_eq!(o.action, Some(RevealAction::ToRevealed));
}

#[test]
fn unreadable_cursor_keeps_state() {
    for prev in [RevealState::Unknown, RevealState::Ghosted, RevealState::Revealed] {
        assert_eq!(hover_after_cursor(prev, false, None), HoverOutcome { next: prev, action: None });
    }
}

#[test]
fn open_settings_panel_holds_revealed() {
    let o = tick(RevealState::Ghosted, true, true, Some(false));
    assert_eq!(o, HoverOutcome { next: RevealState::Revealed, action: Some(RevealAction::ToRevealed) });
    let again = tick(o.next, true, true, Some(false));
    assert_eq!(again, HoverOutcome { next: RevealState::Revealed, action: None });
}

#[test]
fn repeating_a_tick_is_quiet() {
    let o = tick(RevealState::Unknown, true, false, Some(true));
    assert!(o.action.is_some());
    let again = tick(o.next, true, false, Some(true));
    assert_eq!(again, HoverOutcome { next: o.next, action: None });
}

#[test]
fn settings_panel_open_reveals_at_once() {
    assert_eq!(settings_open_action(true), Some(RevealAction::ToRevealed));
    assert_eq!(settings_open_action(false), None);
}

#[test]
fn actions_set_click_through_and_page_state() {
    assert!(RevealAction::ToGhost.ignores_cursor_events());
    assert!(!RevealAction::ToRevealed.ignores_cursor_events());
    assert_eq!(RevealAction::ToGhost.label(), "ghost");
    assert_eq!(RevealAction::ToRevealed.label(), "revealed");
}

#[test]
fn reshow_within_one_poll_reevaluates() {
    // Hidden and shown again between two ticks: the loop never saw the
    // overlay hidden and still believes Revealed, while the show ghosted it.
    assert_eq!(hover_poll(RevealState::Revealed, true, true, false), HoverPoll::ReadCursor);
    let o = hover_after_cursor(RevealState::Revealed, true, Some(true));
    assert_eq!(o, HoverOutcome { next: RevealState::Revealed, action: Some(RevealAction::ToRevealed) });
    let o = hover_after_cursor(RevealState::Ghosted, true, Some(false));
    assert_eq!(o, HoverOutcome { next: RevealState::Ghosted, action: Some(RevealAction::ToGhost) });
}

#[test]
fn reshow_forgets_state_even_without_cursor() {
    let o = hover_after_cursor(RevealState::Revealed, true, None);
    assert_eq!(o, HoverOutcome { next: RevealState::Unknown, action: None });
    let p = hover_poll(RevealState::Revealed, true, true, true);
    assert_eq!(
        p,
        HoverPoll::Settled(HoverOutcome { next: RevealState::Revealed, action: Some(RevealAction::ToRevealed) })
    );
    let p = hover_poll(RevealState::Revealed, true, false, false);
    assert_eq!(p, HoverPoll::Settled(HoverOutcome { next: RevealState::Unknown, action: None }));
}
