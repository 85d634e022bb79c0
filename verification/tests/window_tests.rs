use sayit_overlay::{
    classify_overlay_failure, overlay_bounds_in_work_area as place_in_work_area, DesignWidth,
    OverlayLayout, ScaledMetrics, WindowPosition, WindowSize, WindowSnapshot, WorkArea,
    OVERLAY_BASE_HEIGHT, OVERLAY_BOTTOM_GAP, OVERLAY_DEFAULT_BASE_WIDTH,
    OVERLAY_ROOT_PADDING_BOTTOM, OVERLAY_SCREEN_MARGIN,
};

/// 2560x1440 at 150 %, with the task bar taking the bottom 122 px.
const WORK: (i64, i64, i64, i64) = (0, 0, 2560, 1318);
const SCALE: f64 = 1.5;
/// The extra webview zoom measured with Windows text size at 123 %
/// (dpr 1.8427 / scale 1.5).
const TEXT_SCALE_123: f64 = 1.2285;
/// The pill's `min-height: 38px`.
const OVERLAY_PILL_MIN_HEIGHT: f64 = 38.0;

/// Design size of a layout in CSS px for a base width.
fn dimensions(layout: OverlayLayout, base_width: f64) -> (f64, f64) {
    let width = match layout.design_width() {
        DesignWidth::Base => base_width,
        DesignWidth::BaseAtLeast(at_least) => base_width.max(at_least as f64),
        DesignWidth::Fixed(width) => width as f64,
    };
    (width, layout.design_height() as f64)
}

/// Scales the design size to physical pixels for one monitor and places it.
fn overlay_bounds_in_work_area(
    work: (i64, i64, i64, i64),
    scale: f64,
    design: (f64, f64),
    css_zoom: f64,
) -> (i32, i32, u32, u32) {
    let (left, top, right, bottom) = work;
    let scaled = ScaledMetrics {
        margin: (OVERLAY_SCREEN_MARGIN as f64 * scale).round() as i64,
        bottom_gap: (OVERLAY_BOTTOM_GAP as f64 * scale).round() as i64,
        width: (design.0 * css_zoom * scale).ceil() as i64,
        height: (design.1 * css_zoom * scale).ceil() as i64,
    };
    let b = place_in_work_area(WorkArea { left, top, right, bottom }, scaled);
    (b.x as i32, b.y as i32, b.width as u32, b.height as u32)
}

fn required_css_height() -> f64 {
    OVERLAY_ROOT_PADDING_BOTTOM as f64 + OVERLAY_PILL_MIN_HEIGHT
}

fn default_base_width() -> f64 {
    OVERLAY_DEFAULT_BASE_WIDTH as f64
}

#[test]
fn base_window_fits_pill_at_default_scale() {
    let (_, _, _, height) = overlay_bounds_in_work_area(
        WORK,
        SCALE,
        dimensions(OverlayLayout::Base, default_base_width()),
        1.0,
    );
    let css_height = height as f64 / SCALE;
    assert!(
        css_height >= required_css_height(),
        "base window {}px physical = {}css < required {}css",
        height,
        css_height,
        required_css_height(),
    );
}

#[test]
fn base_window_still_fits_pill_when_os_text_scale_enlarges_css_px() {
    let (_, _, _, height) = overlay_bounds_in_work_area(
        WORK,
        SCALE,
        dimensions(OverlayLayout::Base, default_base_width()),
        TEXT_SCALE_123,
    );
    let css_height = height as f64 / (SCALE * TEXT_SCALE_123);
    assert!(
        css_height >= required_css_height(),
        "scaled base window {}px physical = {}css < required {}css",
        height,
        css_height,
        required_css_height(),
    );
    assert!(
        height > (OVERLAY_BASE_HEIGHT as f64 * SCALE) as u32,
        "window did not grow with css_zoom: {}",
        height,
    );
}

#[test]
fn every_layout_fits_its_content_under_os_text_scale() {
    let padding = OVERLAY_ROOT_PADDING_BOTTOM as f64;
    let cases = [
        ("base", OverlayLayout::Base, required_css_height()),
        ("mic_hint", OverlayLayout::BaseWithMicHint, required_css_height() + 8.0 + 30.0),
        ("fallback", OverlayLayout::Fallback, padding + 149.0),
        ("streaming", OverlayLayout::Streaming, required_css_height() + 8.0 + 110.0),
        (
            "streaming_mic_hint",
            OverlayLayout::StreamingWithMicHint,
            required_css_height() + 8.0 + 110.0 + 8.0 + 30.0,
        ),
    ];
    for (name, layout, required) in cases {
        let (_, _, _, height) = overlay_bounds_in_work_area(
            WORK,
            SCALE,
            dimensions(layout, default_base_width()),
            TEXT_SCALE_123,
        );
        let css_height = height as f64 / (SCALE * TEXT_SCALE_123);
        assert!(
            css_height >= required,
            "{}: {}css available < {}css required",
            name,
            css_height,
            required,
        );
    }
}

#[test]
fn bottom_edge_stays_put_regardless_of_css_zoom() {
    let bottom_of = |css_zoom: f64| {
        let (_, y, _, height) = overlay_bounds_in_work_area(
            WORK,
            SCALE,
            dimensions(OverlayLayout::Base, default_base_width()),
            css_zoom,
        );
        y as i64 + height as i64
    };
    assert_eq!(bottom_of(1.0), bottom_of(TEXT_SCALE_123));
    assert_eq!(bottom_of(1.0), bottom_of(2.25));
}

#[test]
fn extreme_css_zoom_stays_inside_work_area() {
    let (x, y, width, height) = overlay_bounds_in_work_area(
        WORK,
        SCALE,
        dimensions(OverlayLayout::StreamingWithMicHint, default_base_width()),
        4.0,
    );
    assert!(x >= 0, "x={}", x);
    assert!(y >= 0, "y={}", y);
    assert!(x as i64 + width as i64 <= 2560, "right={}", x as i64 + width as i64);
    assert!(y as i64 + height as i64 <= 1318, "bottom={}", y as i64 + height as i64);
}

fn native_window() -> WindowSnapshot {
    WindowSnapshot {
        handle_exists: Some(true),
        visible: Some(true),
        intersects_any_monitor: Some(true),
        position: Some(WindowPosition { x: 10, y: 20 }),
        size: Some(WindowSize { width: 200, height: 56 }),
    }
}

#[test]
fn classifies_phantom_tauri_handle_as_native_create_failure() {
    let window = WindowSnapshot {
        handle_exists: Some(true),
        visible: None,
        intersects_any_monitor: Some(false),
        position: None,
        size: None,
    };
    assert_eq!(
        classify_overlay_failure(&window, false, false, false),
        "native_create_failed"
    );
}

#[test]
fn classifies_page_and_renderer_stages() {
    let window = native_window();
    assert_eq!(
        classify_overlay_failure(&window, false, false, false),
        "page_load_not_started"
    );
    assert_eq!(
        classify_overlay_failure(&window, true, false, false),
        "page_load_incomplete"
    );
    assert_eq!(
        classify_overlay_failure(&window, true, true, false),
        "renderer_not_ready"
    );
    assert_eq!(
        classify_overlay_failure(&window, true, true, true),
        "render_ack_missing"
    );
}

#[test]
fn classifies_visible_but_offscreen_window() {
    let mut window = native_window();
    window.intersects_any_monitor = Some(false);
    assert_eq!(
        classify_overlay_failure(&window, true, true, true),
        "visibility_or_position"
    );
}
