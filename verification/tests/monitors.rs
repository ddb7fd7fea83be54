use peekaboo::monitor::{point_on_any_monitor, restore_position, MonitorRect};

fn two_displays() -> Option<Vec<MonitorRect>> {
    Some(vec![
        MonitorRect { x: 0, y: 0, width: 1920, height: 1080 },
        MonitorRect { x: 1920, y: -200, width: 2560, height: 1440 },
    ])
}

#[test]
fn point_inside_a_display() {
    let ms = two_displays();
    assert!(point_on_any_monitor(&ms, 0, 0));
    assert!(point_on_any_monitor(&ms, 1919, 1079));
    assert!(point_on_any_monitor(&ms, 1920, -200));
    assert!(point_on_any_monitor(&ms, 4479, 1239));
}

#[test]
fn far_edges_are_outside() {
    let ms = Some(vec![MonitorRect { x: 0, y: 0, width: 1920, height: 1080 }]);
    assert!(!point_on_any_monitor(&ms, 1920, 10));
    assert!(!point_on_any_monitor(&ms, 10, 1080));
    assert!(!point_on_any_monitor(&ms, -1, 10));
}

#[test]
fn point_off_every_display() {
    let ms = two_displays();
    assert!(!point_on_any_monitor(&ms, 100, 1500));
    assert!(!point_on_any_monitor(&ms, 4480, 0));
    assert!(!point_on_any_monitor(&Some(Vec::new()), 0, 0));
}

#[test]
fn unknown_layout_never_blocks() {
    assert!(point_on_any_monitor(&None, -50000, 90000));
}

#[test]
fn restore_needs_both_coordinates() {
    let ms = two_displays();
    assert_eq!(restore_position(Some(123), None, &ms), None);
    assert_eq!(restore_position(None, Some(45), &ms), None);
    assert_eq!(restore_position(None, None, &ms), None);
}

#[test]
fn restore_on_and_off_screen() {
    let ms = two_displays();
    assert_eq!(restore_position(Some(123), Some(45), &ms), Some((123, 45)));
    assert_eq!(restore_position(Some(2000), Some(-100), &ms), Some((2000, -100)));
    assert_eq!(restore_position(Some(123), Some(-45), &ms), None);
    assert_eq!(restore_position(Some(123), Some(-45), &None), Some((123, -45)));
}

#[test]
fn displays_past_the_point_are_not_tested() {
    let ms = Some(vec![
        MonitorRect { x: 0, y: 0, width: 1920, height: 1080 },
        MonitorRect { x: i32::MAX - 10, y: 0, width: 100, height: 100 },
    ]);
    assert!(point_on_any_monitor(&ms, 10, 10));
    assert_eq!(restore_position(Some(10), Some(10), &ms), Some((10, 10)));
}

#[test]
fn display_right_of_the_point_computes_no_edge() {
    let ms = Some(vec![MonitorRect { x: i32::MAX - 10, y: 0, width: 100, height: 100 }]);
    assert!(!point_on_any_monitor(&ms, 10, 10));
}
