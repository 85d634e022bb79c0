use sayit_overlay::{
    record_overlay_pong, stale_handle_wait, AckOutcome, VisibleAction, StaleHandleWait, RECOVERY_HANDLE_POLLS, FailureClass, OverlayLayout, OverlayPayload, PageLoadStage, ReadyAction,
    RenderAck, WatchdogAction, WatchdogStage, WindowPosition, WindowSize, WindowSnapshot,
    WindowState,
};

fn payload(state: &str) -> OverlayPayload {
    OverlayPayload {
        state: Some(state.to_string()),
        streaming: None,
        streaming_text: None,
        mic_source_label: None,
    }
}

fn listening_with(streaming: bool, mic_label: Option<&str>) -> OverlayPayload {
    OverlayPayload {
        state: Some("listening".to_string()),
        streaming: Some(streaming),
        streaming_text: None,
        mic_source_label: mic_label.map(str::to_string),
    }
}

fn healthy(show_id: u64, generation: u64) -> RenderAck {
    RenderAck { show_id, generation, healthy: true }
}

fn shown_window() -> WindowSnapshot {
    WindowSnapshot {
        handle_exists: Some(true),
        visible: Some(true),
        intersects_any_monitor: Some(true),
        position: Some(WindowPosition { x: 0, y: 0 }),
        size: Some(WindowSize { width: 540, height: 96 }),
    }
}

#[test]
fn show_ids_increase_from_one() {
    let mut state = WindowState::new();
    assert_eq!(state.present_overlay(payload("waiting"), 10), 1);
    assert_eq!(state.present_overlay(payload("listening"), 20), 2);
    assert_eq!(state.show_overlay(30), 3);
    assert_eq!(state.active_show_id(), 3);
    assert_eq!(state.shows_presented(), 3);
}

#[test]
fn present_resets_acknowledgement() {
    let mut state = WindowState::new();
    let first = state.present_overlay(payload("waiting"), 1_000);
    assert_eq!(state.record_render_ack(healthy(first, 0), 1_250), AckOutcome::Accepted);
    assert!(state.is_acked(first, 0));
    assert_eq!(state.ack_latency_ms(), 250);
    let second = state.present_overlay(payload("listening"), 2_000);
    assert!(!state.is_acked(second, 0));
    assert_eq!(state.ack_latency_ms(), -1);
    let health = state.health_snapshot(second, &shown_window(), 2_100);
    assert!(!health.acked);
    assert_eq!(health.ack_latency_ms, -1);
    assert!(!health.recovery_started);
}

#[test]
fn ack_for_previous_show_is_stale() {
    let mut state = WindowState::new();
    let first = state.present_overlay(payload("waiting"), 10);
    let second = state.present_overlay(payload("waiting"), 20);
    assert_eq!(state.record_render_ack(healthy(first, 0), 30), AckOutcome::Stale);
    assert!(!state.is_acked(first, 0));
    assert!(!state.is_acked(second, 0));
    assert_eq!(state.record_render_ack(healthy(second, 1), 30), AckOutcome::Stale);
    assert_eq!(state.render_ack_outcome(healthy(second, 0)), AckOutcome::Accepted);
}

#[test]
fn unhealthy_ack_is_not_recorded() {
    let mut state = WindowState::new();
    let id = state.present_overlay(payload("waiting"), 10);
    let ack = RenderAck { show_id: id, generation: 0, healthy: false };
    assert_eq!(state.record_render_ack(ack, 20), AckOutcome::Unhealthy);
    assert!(!state.is_acked(id, 0));
    assert_eq!(state.watchdog_step(id, WatchdogStage::FirstAckTimeout), WatchdogAction::Reprobe);
}

#[test]
fn watchdog_escalates_then_recovers() {
    let mut state = WindowState::new();
    let id = state.present_overlay(payload("waiting"), 100);
    assert_eq!(state.watchdog_step(id, WatchdogStage::FirstAckTimeout), WatchdogAction::Reprobe);
    assert_eq!(state.watchdog_step(id, WatchdogStage::SecondAckTimeout), WatchdogAction::Recover);
    assert!(state.recover_overlay(id));
    assert!(state.is_active(id, 1));
    assert!(!state.recover_overlay(id));
    assert_eq!(
        state.watchdog_step(id, WatchdogStage::RecoveryAckTimeout),
        WatchdogAction::RecoveryFailed
    );
    assert_eq!(state.record_render_ack(healthy(id, 0), 150), AckOutcome::Stale);
    let health = state.health_snapshot(id, &shown_window(), 160);
    assert!(health.recovery_started);
    assert!(!health.recovery_succeeded);
    assert_eq!(state.record_render_ack(healthy(id, 1), 3_100), AckOutcome::Accepted);
    assert_eq!(
        state.watchdog_step(id, WatchdogStage::RecoveryAckTimeout),
        WatchdogAction::RecoveryConfirmed
    );
    let health = state.health_snapshot(id, &shown_window(), 3_200);
    assert!(health.acked);
    assert!(health.recovery_succeeded);
    assert_eq!(health.ack_generation, 1);
    assert_eq!(health.ack_latency_ms, 3_000);
    assert_eq!(health.active_generation, 1);
}

#[test]
fn acked_show_stops_watchdog() {
    let mut state = WindowState::new();
    let id = state.present_overlay(payload("waiting"), 100);
    state.record_render_ack(healthy(id, 0), 180);
    assert_eq!(state.watchdog_step(id, WatchdogStage::FirstAckTimeout), WatchdogAction::Stop);
    assert_eq!(state.watchdog_step(id, WatchdogStage::SecondAckTimeout), WatchdogAction::Stop);
    assert_eq!(state.watchdog_step(id, WatchdogStage::RecoveryAckTimeout), WatchdogAction::Stop);
}

#[test]
fn hide_ends_the_show() {
    let mut state = WindowState::new();
    let id = state.present_overlay(listening_with(true, Some("USB mic")), 10);
    assert_eq!(state.layout(), OverlayLayout::StreamingWithMicHint);
    assert!(state.is_showing(id));
    assert!(state.reassert_overlay_topmost_if_visible());
    assert_eq!(state.hide_overlay(), OverlayLayout::StreamingWithMicHint);
    assert_eq!(state.layout(), OverlayLayout::Base);
    assert!(!state.is_showing(id));
    assert!(!state.reassert_overlay_topmost_if_visible());
    assert_eq!(state.watchdog_step(id, WatchdogStage::FirstAckTimeout), WatchdogAction::Stop);
    assert_eq!(state.overlay_ready(500), ReadyAction::HideWindow);
}

#[test]
fn ready_during_show_replays() {
    let mut state = WindowState::new();
    assert_eq!(state.overlay_ready(5), ReadyAction::HideWindow);
    let id = state.present_overlay(payload("waiting"), 10);
    assert_eq!(state.overlay_ready(20), ReadyAction::EnsureVisible(id));
}

#[test]
fn prewarm_only_when_idle_and_missing() {
    let mut state = WindowState::new();
    assert!(state.prewarm_overlay(false));
    assert!(!state.prewarm_overlay(true));
    state.present_overlay(payload("waiting"), 10);
    assert!(!state.prewarm_overlay(false));
}

#[test]
fn update_reapplies_geometry_only_on_change() {
    let mut state = WindowState::new();
    let first = state.update_overlay_state(listening_with(true, None), true);
    assert!(first.reapply_layout);
    assert_eq!(first.layout, OverlayLayout::Streaming);
    assert!(!first.interactive);
    assert!(!first.show_window);
    assert!(first.emit);
    let again = state.update_overlay_state(listening_with(true, None), true);
    assert!(!again.reapply_layout);
    assert!(again.emit);
    let card = state.update_overlay_state(payload("fallback"), true);
    assert!(card.reapply_layout);
    assert!(card.interactive);
    assert!(card.show_window);
}

#[test]
fn update_without_window_touches_nothing_native() {
    let mut state = WindowState::new();
    let update = state.update_overlay_state(payload("fallback"), false);
    assert_eq!(update.layout, OverlayLayout::Fallback);
    assert!(!update.reapply_layout);
    assert!(!update.show_window);
    assert!(!update.emit);
    // The layout was never applied, so a window appearing later re-applies it.
    let later = state.update_overlay_state(payload("fallback"), true);
    assert!(later.reapply_layout);
}

#[test]
fn ensure_visible_applies_layout_only_with_window() {
    let mut state = WindowState::new();
    let id = state.present_overlay(payload("fallback"), 10);
    assert_eq!(state.ensure_visible(id, false), VisibleAction::CreateWindow);
    assert_eq!(state.ensure_visible(id, true), VisibleAction::ShowWindow);
    let update = state.update_overlay_state(payload("fallback"), true);
    assert!(!update.reapply_layout);
    state.hide_overlay();
    let after_hide = state.update_overlay_state(payload("fallback"), true);
    assert!(after_hide.reapply_layout);
}

#[test]
fn hidden_or_replaced_show_is_not_made_visible() {
    let mut state = WindowState::new();
    let first = state.present_overlay(payload("fallback"), 10);
    let second = state.present_overlay(payload("fallback"), 20);
    assert_eq!(state.ensure_visible(first, true), VisibleAction::NotShowing);
    assert_eq!(state.ensure_visible(first, false), VisibleAction::NotShowing);
    // Refusing applied no layout: the next update still re-applies it.
    assert!(state.update_overlay_state(payload("fallback"), true).reapply_layout);
    state.hide_overlay();
    assert_eq!(state.ensure_visible(second, true), VisibleAction::NotShowing);
    assert_eq!(state.ensure_visible(0, true), VisibleAction::NotShowing);
}

#[test]
fn emit_tags_follow_active_show() {
    let mut state = WindowState::new();
    assert!(state.payload_for_emit(true).is_none());
    let id = state.present_overlay(payload("waiting"), 10);
    let tags = state.payload_for_emit(true).unwrap();
    assert_eq!(tags.show_id, id);
    assert_eq!(tags.generation, 0);
    assert!(tags.probe);
    state.recover_overlay(id);
    let tags = state.payload_for_emit(false).unwrap();
    assert_eq!(tags.generation, 1);
    assert!(!tags.probe);
}

#[test]
fn latest_state_name_defaults_to_unknown() {
    let mut state = WindowState::new();
    assert_eq!(state.latest_state_name(), "unknown");
    state.update_overlay_state(payload("thinking"), false);
    assert_eq!(state.latest_state_name(), "thinking");
    let no_state = OverlayPayload {
        state: None,
        streaming: None,
        streaming_text: None,
        mic_source_label: None,
    };
    state.update_overlay_state(no_state, false);
    assert_eq!(state.latest_state_name(), "unknown");
}

#[test]
fn show_overlay_without_payload_uses_waiting() {
    let mut state = WindowState::new();
    state.show_overlay(5);
    assert_eq!(state.latest_state_name(), "waiting");
    assert_eq!(state.layout(), OverlayLayout::Base);
}

#[test]
fn renderer_milestones_drive_failure_class() {
    let mut state = WindowState::new();
    let window = shown_window();
    state.present_overlay(payload("waiting"), 1_000);
    assert_eq!(state.failure_class(&window), FailureClass::PageLoadNotStarted);
    state.record_page_load(PageLoadStage::Started, 1_010);
    assert_eq!(state.failure_class(&window), FailureClass::PageLoadIncomplete);
    state.record_page_load(PageLoadStage::Finished, 1_020);
    assert_eq!(state.failure_class(&window), FailureClass::RendererNotReady);
    state.overlay_ready(1_030);
    assert_eq!(state.failure_class(&window), FailureClass::RenderAckMissing);
    let diagnostic = state.diagnostic_snapshot(1_100);
    assert!(diagnostic.page_load_started);
    assert_eq!(diagnostic.page_load_started_age_ms, 90);
    assert_eq!(diagnostic.page_load_finished_age_ms, 80);
    assert_eq!(diagnostic.renderer_ready_age_ms, 70);
    state.reset_renderer_lifecycle();
    assert_eq!(state.failure_class(&window), FailureClass::PageLoadNotStarted);
    let diagnostic = state.diagnostic_snapshot(1_200);
    assert!(!diagnostic.renderer_ready);
    assert_eq!(diagnostic.renderer_ready_age_ms, -1);
    assert_eq!(
        state.health_snapshot(1, &WindowSnapshot::missing(), 1_200).failure_class,
        FailureClass::HandleMissing
    );
}

#[test]
fn record_overlay_pong_stores_the_reading() {
    let mut last_pong_ms: i64 = -5;
    record_overlay_pong(&mut last_pong_ms, 42, 1_700_000_000_123);
    assert_eq!(last_pong_ms, 1_700_000_000_123);
}

#[test]
fn stale_handle_wait_is_bounded() {
    assert_eq!(stale_handle_wait(false, 0), StaleHandleWait::CreateWindow);
    assert_eq!(stale_handle_wait(true, 0), StaleHandleWait::PollAgain);
    assert_eq!(stale_handle_wait(true, RECOVERY_HANDLE_POLLS - 1), StaleHandleWait::PollAgain);
    assert_eq!(stale_handle_wait(true, RECOVERY_HANDLE_POLLS), StaleHandleWait::GiveUp);
    assert_eq!(stale_handle_wait(false, RECOVERY_HANDLE_POLLS), StaleHandleWait::CreateWindow);
    // A handle that never goes away is given up on after exactly 20 waits.
    let mut polls = 0;
    while stale_handle_wait(true, polls) == StaleHandleWait::PollAgain {
        polls += 1;
    }
    assert_eq!(polls, 20);
}

#[test]
fn newer_show_ends_keeper_of_older_show() {
    let mut state = WindowState::new();
    let first = state.present_overlay(payload("waiting"), 10);
    assert!(state.is_showing(first));
    let second = state.present_overlay(payload("waiting"), 20);
    assert!(!state.is_showing(first));
    assert!(state.is_showing(second));
    assert!(!state.is_showing(0));
}
