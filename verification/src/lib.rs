//! Decision logic of the SayIt dictation overlay window: which layout the
//! overlay takes for a status payload, the show / render-acknowledgement /
//! recovery lifecycle, failure classification, and placement of the window
//! inside a monitor's work area.

pub mod diagnostics;
pub mod geometry;
pub mod laws;
pub mod layout;
pub mod lifecycle;
pub mod text;

pub use diagnostics::{
    classify_overlay_failure, event_age_ms, failure_class_of, window_intersects_any_monitor,
    FailureClass, MonitorRect, WindowPosition, WindowSize, WindowSnapshot,
};
pub use geometry::{
    find_target_monitor, overlay_bounds_in_work_area, placement_in_range,
    try_overlay_bounds_in_work_area, MonitorBounds, OverlayBounds, ScaledMetrics,
    WorkArea,
};
pub use layout::{
    choose_layout, phase_of, DesignWidth, OverlayLayout, OverlayPayload, OverlayPhase, PayloadView,
    OVERLAY_BASE_HEIGHT, OVERLAY_BOTTOM_GAP, OVERLAY_DEFAULT_BASE_WIDTH, OVERLAY_FALLBACK_HEIGHT,
    OVERLAY_FALLBACK_WIDTH, OVERLAY_MIC_HINT_HEIGHT, OVERLAY_MIC_HINT_WIDTH,
    OVERLAY_ROOT_PADDING_BOTTOM, OVERLAY_SCREEN_MARGIN, OVERLAY_STREAMING_HEIGHT,
    OVERLAY_STREAMING_MIC_HINT_HEIGHT, OVERLAY_STREAMING_WIDTH,
};
pub use lifecycle::{
    record_overlay_pong, stale_handle_wait, AckOutcome, DiagnosticSnapshot, EmitTags,
    HealthSnapshot, PageLoadStage, ReadyAction, RenderAck, StaleHandleWait, StateUpdate,
    VisibleAction, WatchdogAction, WatchdogStage, WindowModel, WindowState, RECOVERY_HANDLE_POLLS,
    RECOVERY_HANDLE_POLL_INTERVAL_MS,
};
pub use text::{char_is_whitespace, is_blank, text_equals};
