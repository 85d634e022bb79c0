use sayit_overlay::{
    event_age_ms, find_target_monitor, overlay_bounds_in_work_area, placement_in_range,
    try_overlay_bounds_in_work_area, window_intersects_any_monitor,
    MonitorBounds, MonitorRect, OverlayBounds, ScaledMetrics, WindowPosition, WindowSize,
    WindowSnapshot, WorkArea,
};

const WORK: WorkArea = WorkArea { left: 0, top: 0, right: 2560, bottom: 1318 };

fn metrics(width: i64, height: i64) -> ScaledMetrics {
    ScaledMetrics { margin: 12, bottom_gap: 108, width, height }
}

#[test]
fn placement_is_bottom_centred() {
    let b = overlay_bounds_in_work_area(WORK, metrics(540, 96));
    assert_eq!(b, OverlayBounds { x: 1010, y: 1114, width: 540, height: 96 });
}

#[test]
fn placement_caps_size_and_keeps_margin() {
    let b = overlay_bounds_in_work_area(WORK, metrics(5000, 5000));
    assert_eq!(b, OverlayBounds { x: 12, y: 12, width: 2536, height: 1294 });
}

#[test]
fn placement_pushes_tall_window_up_to_margin() {
    // 1318 - 108 - 1250 = -40 < 12: clamped to the top margin.
    let b = overlay_bounds_in_work_area(WORK, metrics(100, 1250));
    assert_eq!(b.y, 12);
    assert_eq!(b.height, 1250);
}

#[test]
fn placement_floors_small_values() {
    let work = WorkArea { left: 100, top: 50, right: 300, bottom: 250 };
    let b = overlay_bounds_in_work_area(
        work,
        ScaledMetrics { margin: 0, bottom_gap: -3, width: -7, height: 0 },
    );
    // margin 1, gap 1, size 1x1, anchored at 250 - 1 - 1.
    assert_eq!(b, OverlayBounds { x: 199, y: 248, width: 1, height: 1 });
}

#[test]
fn placement_in_offset_work_area() {
    let work = WorkArea { left: -1920, top: 200, right: 0, bottom: 1240 };
    let b = overlay_bounds_in_work_area(work, ScaledMetrics { margin: 8, bottom_gap: 72, width: 360, height: 64 });
    assert_eq!(b, OverlayBounds { x: -1140, y: 1104, width: 360, height: 64 });
}

#[test]
fn short_work_area_puts_window_at_top_margin() {
    // 20 px tall, margins 12: no room below the top margin.
    let work = WorkArea { left: 0, top: 100, right: 800, bottom: 120 };
    let b = overlay_bounds_in_work_area(work, metrics(300, 96));
    assert_eq!(b, OverlayBounds { x: 250, y: 112, width: 300, height: 1 });
    let flat = WorkArea { left: 0, top: 50, right: 800, bottom: 50 };
    assert_eq!(overlay_bounds_in_work_area(flat, metrics(300, 96)).y, 62);
}

#[test]
fn checked_placement_refuses_only_overflow() {
    assert!(placement_in_range(WORK, metrics(540, 96)));
    assert_eq!(
        try_overlay_bounds_in_work_area(WORK, metrics(540, 96)),
        Some(OverlayBounds { x: 1010, y: 1114, width: 540, height: 96 })
    );
    let short = WorkArea { left: 0, top: 100, right: 800, bottom: 120 };
    assert_eq!(
        try_overlay_bounds_in_work_area(short, metrics(300, 96)).map(|b| b.y),
        Some(112)
    );
    let huge = WorkArea { left: i64::MIN, top: 0, right: i64::MAX, bottom: 1000 };
    assert!(!placement_in_range(huge, metrics(10, 10)));
    assert_eq!(try_overlay_bounds_in_work_area(huge, metrics(10, 10)), None);
    let deep = WorkArea { left: 0, top: 0, right: 100, bottom: i64::MIN + 5 };
    assert_eq!(try_overlay_bounds_in_work_area(deep, metrics(10, 10)), None);
    let gap = ScaledMetrics { margin: 1, bottom_gap: i64::MAX, width: 10, height: 10 };
    assert!(try_overlay_bounds_in_work_area(WORK, gap).is_some());
    let below = WorkArea { left: 0, top: -3000, right: 800, bottom: -2000 };
    assert_eq!(try_overlay_bounds_in_work_area(below, gap), None);
}

fn monitors() -> Vec<MonitorRect> {
    vec![
        MonitorRect { x: 0, y: 0, width: 2560, height: 1440 },
        MonitorRect { x: 2560, y: 0, width: 1920, height: 1080 },
        MonitorRect { x: 2560, y: 0, width: 1920, height: 1080 },
    ]
}

#[test]
fn target_monitor_holds_work_area_centre() {
    let right = MonitorBounds { left: 2560, top: 0, right: 4480, bottom: 1040 };
    assert_eq!(find_target_monitor(&right, &monitors()), Some(1));
    let left = MonitorBounds { left: 0, top: 0, right: 2560, bottom: 1318 };
    assert_eq!(find_target_monitor(&left, &monitors()), Some(0));
    let nowhere = MonitorBounds { left: -3000, top: 0, right: -1000, bottom: 100 };
    assert_eq!(find_target_monitor(&nowhere, &monitors()), None);
    assert_eq!(find_target_monitor(&left, &Vec::new()), None);
}

#[test]
fn window_on_or_off_monitors() {
    let size = Some(WindowSize { width: 540, height: 96 });
    assert!(window_intersects_any_monitor(Some(WindowPosition { x: 4000, y: 900 }), size, &monitors()));
    assert!(!window_intersects_any_monitor(Some(WindowPosition { x: -540, y: 0 }), size, &monitors()));
    assert!(window_intersects_any_monitor(Some(WindowPosition { x: -539, y: 0 }), size, &monitors()));
    assert!(!window_intersects_any_monitor(Some(WindowPosition { x: 4480, y: 0 }), size, &monitors()));
    assert!(!window_intersects_any_monitor(None, size, &monitors()));
    assert!(!window_intersects_any_monitor(Some(WindowPosition { x: 0, y: 0 }), None, &monitors()));
    let snapshot =
        WindowSnapshot::of_window(Some(true), Some(WindowPosition { x: 0, y: -200 }), size, &monitors());
    assert_eq!(snapshot.intersects_any_monitor, Some(false));
    assert_eq!(snapshot.handle_exists, Some(true));
    let missing = WindowSnapshot::missing();
    assert_eq!(missing.handle_exists, Some(false));
    assert!(missing.position.is_none());
}

#[test]
fn event_ages() {
    assert_eq!(event_age_ms(1_000, 0), -1);
    assert_eq!(event_age_ms(1_000, -5), -1);
    assert_eq!(event_age_ms(1_000, 400), 600);
    assert_eq!(event_age_ms(100, 400), -300);
    assert_eq!(event_age_ms(i64::MIN, 1), i64::MIN);
}
