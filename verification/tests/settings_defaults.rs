use peekaboo::monitor::{restore_position, MonitorRect};
use peekaboo::settings::{default_panic_shortcut, Settings};

#[test]
fn defaults_of_a_fresh_install() {
    let s = Settings::default();
    assert_eq!(s.url, "https://example.com");
    assert_eq!(s.panic_shortcut, "CmdOrControl+Shift+H");
    assert_eq!(s.bookmarks.len(), 0);
    assert!(s.content_protected && s.always_on_top && s.spaces_global);
    assert_eq!(s.x, None);
    assert_eq!(s.y, None);
    assert_eq!(default_panic_shortcut(), "CmdOrControl+Shift+H");
}

#[test]
fn moving_records_position() {
    let mut s = Settings::default();
    s.record_move(123, -45);
    assert_eq!(s.x, Some(123));
    assert_eq!(s.y, Some(-45));
    assert_eq!(s.url, "https://example.com");
    s.record_move(7, 8);
    assert_eq!((s.x, s.y), (Some(7), Some(8)));
}

#[test]
fn recorded_move_restores_on_a_covering_display() {
    let mut s = Settings::default();
    s.record_move(123, 45);
    let ms = Some(vec![MonitorRect { x: 0, y: 0, width: 1440, height: 900 }]);
    assert_eq!(restore_position(s.x, s.y, &ms), Some((123, 45)));
}
