use vstd::prelude::*;

verus! {

/// A monitor's rectangle in physical pixels.
#[derive(Clone, Copy, Debug, PartialEq, Eq, Structural)]
pub struct MonitorRect {
    pub x: i32,
    pub y: i32,
    pub width: u32,
    pub height: u32,
}

/// Whether a window rectangle overlaps a monitor rectangle by at least one
/// pixel.
pub open spec fn overlaps_monitor(x: int, y: int, width: int, height: int, m: MonitorRect) -> bool {
    &&& x + width > m.x
    &&& x < m.x + m.width
    &&& y + height > m.y
    &&& y < m.y + m.height
}

/// A window's outer position in physical pixels.
#[derive(Clone, Copy, Debug, PartialEq, Eq, Structural)]
pub struct WindowPosition {
    pub x: i32,
    pub y: i32,
}

/// A window's outer size in physical pixels.
#[derive(Clone, Copy, Debug, PartialEq, Eq, Structural)]
pub struct WindowSize {
    pub width: u32,
    pub height: u32,
}

pub open spec fn spec_overlaps_any(p: WindowPosition, s: WindowSize, monitors: Seq<MonitorRect>) -> bool {
    exists|i: int|
        0 <= i < monitors.len() && #[trigger] overlaps_monitor(
            p.x as int,
            p.y as int,
            s.width as int,
            s.height as int,
            monitors[i],
        )
}

pub open spec fn spec_intersects_any(
    position: Option<WindowPosition>,
    size: Option<WindowSize>,
    monitors: Seq<MonitorRect>,
) -> bool {
    match (position, size) {
        (Some(p), Some(s)) => spec_overlaps_any(p, s, monitors),
        _ => false,
    }
}

/// Whether a window at `position` with `size` shows on any of `monitors`;
/// false when either is unknown.
pub fn window_intersects_any_monitor(
    position: Option<WindowPosition>,
    size: Option<WindowSize>,
    monitors: &Vec<MonitorRect>,
) -> (b: bool)
    ensures
        b == spec_intersects_any(position, size, monitors@),
{
    match (position, size) {
        (Some(p), Some(s)) => {
            let x = p.x as i64;
            let y = p.y as i64;
            let right = x + s.width as i64;
            let bottom = y + s.height as i64;
            let mut i: usize = 0;
            while i < monitors.len()
                invariant
                    i <= monitors@.len(),
                    position == Some(p),
                    size == Some(s),
                    x == p.x,
                    y == p.y,
                    right == p.x + s.width,
                    bottom == p.y + s.height,
                    forall|j: int|
                        0 <= j < i ==> !#[trigger] overlaps_monitor(
                            p.x as int,
                            p.y as int,
                            s.width as int,
                            s.height as int,
                            monitors@[j],
                        ),
                decreases monitors@.len() - i,
            {
                let m = monitors[i];
                let m_right = m.x as i64 + m.width as i64;
                let m_bottom = m.y as i64 + m.height as i64;
                if right > m.x as i64 && x < m_right && bottom > m.y as i64 && y < m_bottom {
                    assert(overlaps_monitor(
                        p.x as int,
                        p.y as int,
                        s.width as int,
                        s.height as int,
                        monitors@[i as int],
                    ));
                    return true;
                }
                i = i + 1;
            }
            false
        },
        _ => false,
    }
}

/// What is known of the native overlay window. Each field is `None` where
/// the window system could not report it.
pub struct WindowSnapshot {
    pub handle_exists: Option<bool>,
    pub visible: Option<bool>,
    pub intersects_any_monitor: Option<bool>,
    pub position: Option<WindowPosition>,
    pub size: Option<WindowSize>,
}

impl WindowSnapshot {
    /// The snapshot taken when no overlay window is registered: it reports
    /// only that the handle is missing.
    pub fn missing() -> (w: WindowSnapshot)
        ensures
            w.handle_exists == Some(false),
            w.visible is None,
            w.intersects_any_monitor is None,
            w.position is None,
            w.size is None,
    {
        WindowSnapshot {
            handle_exists: Some(false),
            visible: None,
            intersects_any_monitor: None,
            position: None,
            size: None,
        }
    }

    /// The snapshot of a registered window from what the window system
    /// reported of it and the monitors it knows.
    pub fn of_window(
        visible: Option<bool>,
        position: Option<WindowPosition>,
        size: Option<WindowSize>,
        monitors: &Vec<MonitorRect>,
    ) -> (w: WindowSnapshot)
        ensures
            w.handle_exists == Some(true),
            w.visible == visible,
            w.intersects_any_monitor == Some(spec_intersects_any(position, size, monitors@)),
            w.position == position,
            w.size == size,
    {
        let intersects = window_intersects_any_monitor(position, size, monitors);
        WindowSnapshot {
            handle_exists: Some(true),
            visible,
            intersects_any_monitor: Some(intersects),
            position,
            size,
        }
    }
}

/// Why an overlay show has not been confirmed by a render acknowledgement,
/// in the order the stages are checked.
#[derive(Clone, Copy, Debug, PartialEq, Eq, Structural)]
pub enum FailureClass {
    HandleMissing,
    /// A window label is registered but the native window never reported a
    /// position or size: a phantom handle.
    NativeCreateFailed,
    PageLoadNotStarted,
    PageLoadIncomplete,
    RendererNotReady,
    VisibilityOrPosition,
    RenderAckMissing,
}

pub open spec fn spec_classify(
    window: WindowSnapshot,
    page_load_started: bool,
    page_load_finished: bool,
    renderer_ready: bool,
) -> FailureClass {
    if window.handle_exists != Some(true) {
        FailureClass::HandleMissing
    } else if window.position is None || window.size is None {
        FailureClass::NativeCreateFailed
    } else if !page_load_started {
        FailureClass::PageLoadNotStarted
    } else if !page_load_finished {
        FailureClass::PageLoadIncomplete
    } else if !renderer_ready {
        FailureClass::RendererNotReady
    } else if window.visible != Some(true) || window.intersects_any_monitor != Some(true) {
        FailureClass::VisibilityOrPosition
    } else {
        FailureClass::RenderAckMissing
    }
}

impl FailureClass {
    pub open spec fn name(self) -> Seq<char> {
        match self {
            FailureClass::HandleMissing => "handle_missing"@,
            FailureClass::NativeCreateFailed => "native_create_failed"@,
            FailureClass::PageLoadNotStarted => "page_load_not_started"@,
            FailureClass::PageLoadIncomplete => "page_load_incomplete"@,
            FailureClass::RendererNotReady => "renderer_not_ready"@,
            FailureClass::VisibilityOrPosition => "visibility_or_position"@,
            FailureClass::RenderAckMissing => "render_ack_missing"@,
        }
    }

    /// The name the health report and the logs use for this class.
    pub fn as_str(&self) -> (s: &'static str)
        ensures
            s@ == self.name(),
    {
        match self {
            FailureClass::HandleMissing => "handle_missing",
            FailureClass::NativeCreateFailed => "native_create_failed",
            FailureClass::PageLoadNotStarted => "page_load_not_started",
            FailureClass::PageLoadIncomplete => "page_load_incomplete",
            FailureClass::RendererNotReady => "renderer_not_ready",
            FailureClass::VisibilityOrPosition => "visibility_or_position",
            FailureClass::RenderAckMissing => "render_ack_missing",
        }
    }
}

/// Classifies the stage at which an overlay show has stalled.
pub fn failure_class_of(
    window: &WindowSnapshot,
    page_load_started: bool,
    page_load_finished: bool,
    renderer_ready: bool,
) -> (c: FailureClass)
    ensures
        c == spec_classify(*window, page_load_started, page_load_finished, renderer_ready),
{
    if !matches!(window.handle_exists, Some(true)) {
        FailureClass::HandleMissing
    } else if window.position.is_none() || window.size.is_none() {
        FailureClass::NativeCreateFailed
    } else if !page_load_started {
        FailureClass::PageLoadNotStarted
    } else if !page_load_finished {
        FailureClass::PageLoadIncomplete
    } else if !renderer_ready {
        FailureClass::RendererNotReady
    } else if !matches!(window.visible, Some(true)) || !matches!(
        window.intersects_any_monitor,
        Some(true)
    ) {
        FailureClass::VisibilityOrPosition
    } else {
        FailureClass::RenderAckMissing
    }
}

/// The name of the stage at which an overlay show has stalled: no handle, a
/// phantom native window, page load not started or unfinished, renderer not
/// ready, window hidden or off every monitor, or otherwise a missing
/// acknowledgement.
pub fn classify_overlay_failure(
    window: &WindowSnapshot,
    page_load_started: bool,
    page_load_finished: bool,
    renderer_ready: bool,
) -> (s: &'static str)
    ensures
        s@ == spec_classify(*window, page_load_started, page_load_finished, renderer_ready).name(),
{
    failure_class_of(window, page_load_started, page_load_finished, renderer_ready).as_str()
}

pub open spec fn spec_event_age(current_ms: i64, event_ms: i64) -> i64 {
    if event_ms <= 0 {
        -1i64
    } else if current_ms - event_ms < i64::MIN {
        i64::MIN
    } else if current_ms - event_ms > i64::MAX {
        i64::MAX
    } else {
        (current_ms - event_ms) as i64
    }
}

/// How long ago an event happened, or -1 when it has not happened (its
/// timestamp is not positive). The difference saturates at the `i64` range.
pub fn event_age_ms(current_ms: i64, event_ms: i64) -> (age: i64)
    ensures
        age == spec_event_age(current_ms, event_ms),
{
    if event_ms <= 0 {
        -1
    } else if current_ms < i64::MIN + event_ms {
        i64::MIN
    } else {
        current_ms - event_ms
    }
}

} // verus!
