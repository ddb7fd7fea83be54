use peekaboo::overlay::{toggle_overlay, TogglePlan};
use peekaboo::hover::RevealAction;
use peekaboo::settings::Settings;
use peekaboo::shortcut::{fall_back_shortcut, save_settings, shortcut_changed};

fn with_key(key: &str) -> Settings {
    let mut s = Settings::default();
    s.panic_shortcut = key.to_string();
    s
}

#[test]
fn unchanged_key_needs_no_registration() {
    let current = Settings::default();
    let mut new = Settings::default();
    new.url = "https://x.test".to_string();
    assert!(!shortcut_changed(&current, &new));
    assert!(shortcut_changed(&current, &with_key("Alt+P")));
}

#[test]
fn save_with_same_key_stores_new_settings() {
    let mut current = Settings::default();
    let mut new = Settings::default();
    new.url = "https://x.test".to_string();
    new.bookmarks.push("https://a.test".to_string());
    let effects = save_settings(&mut current, new, None).expect("accepted");
    assert!(effects.unregister.is_none());
    assert_eq!(current.url, "https://x.test");
    assert_eq!(current.bookmarks, vec!["https://a.test".to_string()]);
}

#[test]
fn save_with_new_key_releases_old_one() {
    let mut current = Settings::default();
    let effects = save_settings(&mut current, with_key("Alt+P"), Some(Ok(()))).expect("accepted");
    assert_eq!(effects.unregister.as_deref(), Some("CmdOrControl+Shift+H"));
    assert_eq!(current.panic_shortcut, "Alt+P");
}

#[test]
fn refused_key_keeps_everything() {
    let mut current = Settings::default();
    let mut new = with_key("Bogus+");
    new.url = "https://x.test".to_string();
    let r = save_settings(&mut current, new, Some(Err("invalid accelerator".to_string())));
    assert_eq!(r.unwrap_err(), "invalid accelerator");
    assert_eq!(current.panic_shortcut, "CmdOrControl+Shift+H");
    assert_eq!(current.url, "https://example.com");
}

#[test]
fn startup_keeps_a_working_saved_key() {
    let mut s = with_key("Alt+P");
    assert_eq!(fall_back_shortcut(&mut s, true), None);
    assert_eq!(s.panic_shortcut, "Alt+P");
}

#[test]
fn startup_falls_back_to_default_key() {
    let mut s = with_key("Bogus+");
    s.record_move(5, 6);
    assert_eq!(fall_back_shortcut(&mut s, false).as_deref(), Some("CmdOrControl+Shift+H"));
    assert_eq!(s.panic_shortcut, "CmdOrControl+Shift+H");
    assert_eq!((s.x, s.y), (Some(5), Some(6)));
}

#[test]
fn panic_hotkey_toggles_visibility() {
    assert_eq!(toggle_overlay(true), TogglePlan::Hide);
    assert_eq!(toggle_overlay(false), TogglePlan::Show);
    let hide = toggle_overlay(true);
    assert!(hide.persists_settings());
    assert!(!hide.reapplies_window_settings());
    assert_eq!(hide.reveal_action(), None);
    assert!(!hide.resets_hover_loop());
}

#[test]
fn reshow_starts_ghosted() {
    let show = toggle_overlay(false);
    assert!(show.reapplies_window_settings());
    assert!(!show.persists_settings());
    assert_eq!(show.reveal_action(), Some(RevealAction::ToGhost));
    assert!(show.resets_hover_loop());
}
