use vstd::prelude::*;

use crate::diagnostics::{
    overlaps_monitor, spec_classify, spec_event_age, FailureClass, MonitorRect, WindowSnapshot,
};
use crate::geometry::{
    available_height, available_width, contains_point, placement_defined, spec_bounds,
    MonitorBounds, ScaledMetrics, WorkArea,
};
use crate::layout::{
    candidate_layout, next_layout, spec_phase, waiting_payload, DesignWidth, OverlayLayout, OverlayPhase,
    PayloadView,
};
use crate::lifecycle::{
    spec_stale_handle_wait, AckOutcome, StaleHandleWait, RECOVERY_HANDLE_POLLS, PageLoadStage, ReadyAction, RenderAck, VisibleAction, WatchdogAction,
    WatchdogStage, WindowModel,
};
use crate::text::unicode_white_space;

verus! {

// Laws stated from the inputs and results of each operation, independently of
// how the spec functions above spell the operation out.

/// The stages of a stalled show, checked in order: a missing handle; a
/// phantom window with no position or size; page load not started; page load
/// unfinished; renderer not ready; the window hidden (`visible` not known to
/// be true) or off every monitor; otherwise the acknowledgement is missing.
pub proof fn law_failure_stages(
    w: WindowSnapshot,
    started: bool,
    finished: bool,
    ready: bool,
)
    ensures
        w.handle_exists != Some(true) ==> spec_classify(w, started, finished, ready)
            == FailureClass::HandleMissing,
        w.handle_exists == Some(true) && (w.position is None || w.size is None) ==> spec_classify(
            w,
            started,
            finished,
            ready,
        ) == FailureClass::NativeCreateFailed,
        w.handle_exists == Some(true) && w.position is Some && w.size is Some && !started
            ==> spec_classify(w, started, finished, ready) == FailureClass::PageLoadNotStarted,
        w.handle_exists == Some(true) && w.position is Some && w.size is Some && started
            && !finished ==> spec_classify(w, started, finished, ready)
            == FailureClass::PageLoadIncomplete,
        w.handle_exists == Some(true) && w.position is Some && w.size is Some && started
            && finished && !ready ==> spec_classify(w, started, finished, ready)
            == FailureClass::RendererNotReady,
        w.handle_exists == Some(true) && w.position is Some && w.size is Some && started
            && finished && ready && w.visible != Some(true) ==> spec_classify(
            w,
            started,
            finished,
            ready,
        ) == FailureClass::VisibilityOrPosition,
        w.handle_exists == Some(true) && w.position is Some && w.size is Some && started
            && finished && ready && w.intersects_any_monitor != Some(true) ==> spec_classify(
            w,
            started,
            finished,
            ready,
        ) == FailureClass::VisibilityOrPosition,
        w.handle_exists == Some(true) && w.position is Some && w.size is Some && started
            && finished && ready && w.visible == Some(true) && w.intersects_any_monitor == Some(
            true,
        ) ==> spec_classify(w, started, finished, ready) == FailureClass::RenderAckMissing,
        spec_classify(w, started, finished, ready) == FailureClass::RenderAckMissing ==> w.visible
            == Some(true) && w.intersects_any_monitor == Some(true) && started && finished
            && ready,
{
}

/// The names the health report gives the failure classes.
pub proof fn law_failure_class_names()
    ensures
        FailureClass::HandleMissing.name() == "handle_missing"@,
        FailureClass::NativeCreateFailed.name() == "native_create_failed"@,
        FailureClass::PageLoadNotStarted.name() == "page_load_not_started"@,
        FailureClass::PageLoadIncomplete.name() == "page_load_incomplete"@,
        FailureClass::RendererNotReady.name() == "renderer_not_ready"@,
        FailureClass::VisibilityOrPosition.name() == "visibility_or_position"@,
        FailureClass::RenderAckMissing.name() == "render_ack_missing"@,
{
}

/// An event's age is -1 exactly when it has not happened (its timestamp is
/// not positive); otherwise it is the time elapsed since, where that fits.
pub proof fn law_event_age(current_ms: i64, event_ms: i64)
    ensures
        (spec_event_age(current_ms, event_ms) == -1 && event_ms <= 0) || event_ms > 0,
        event_ms <= 0 ==> spec_event_age(current_ms, event_ms) == -1,
        event_ms > 0 && i64::MIN <= current_ms - event_ms ==> spec_event_age(current_ms, event_ms)
            == current_ms - event_ms,
        event_ms > 0 && current_ms - event_ms < i64::MIN ==> spec_event_age(current_ms, event_ms)
            == i64::MIN,
{
}

/// Space, tab, line feed, carriage return and the no-break space are white
/// space; letters, digits and the zero-width space are not.
pub proof fn law_white_space_examples()
    ensures
        unicode_white_space(' '),
        unicode_white_space('\t'),
        unicode_white_space('\n'),
        unicode_white_space('\r'),
        unicode_white_space('\u{A0}'),
        unicode_white_space('\u{3000}'),
        !unicode_white_space('a'),
        !unicode_white_space('0'),
        !unicode_white_space('\u{200B}'),
        !unicode_white_space('\u{1C}'),
{
}

/// The state names are read exactly: each named phase comes from its own
/// lower-case name and no other string.
pub proof fn law_phase_names(s: Seq<char>)
    ensures
        spec_phase(None) == OverlayPhase::Missing,
        spec_phase(Some(s)) != OverlayPhase::Missing,
        spec_phase(Some("fallback"@)) == OverlayPhase::Fallback,
        spec_phase(Some("listening"@)) == OverlayPhase::Listening,
        spec_phase(Some("thinking"@)) == OverlayPhase::Thinking,
        spec_phase(Some("toast"@)) == OverlayPhase::Toast,
        spec_phase(Some("error"@)) == OverlayPhase::Error,
        spec_phase(Some("waiting"@)) == OverlayPhase::Other,
        spec_phase(Some(s)) == OverlayPhase::Fallback ==> s == "fallback"@,
        spec_phase(Some(s)) == OverlayPhase::Listening ==> s == "listening"@,
        spec_phase(Some(s)) == OverlayPhase::Thinking ==> s == "thinking"@,
        spec_phase(Some(s)) == OverlayPhase::Toast ==> s == "toast"@,
        spec_phase(Some(s)) == OverlayPhase::Error ==> s == "error"@,
{
    reveal_strlit("fallback");
    reveal_strlit("listening");
    reveal_strlit("thinking");
    reveal_strlit("toast");
    reveal_strlit("error");
    reveal_strlit("waiting");
    assert("listening"@.len() != "fallback"@.len());
    assert("thinking"@[0] != "fallback"@[0]);
    assert("thinking"@.len() != "listening"@.len());
    assert("toast"@.len() != "fallback"@.len());
    assert("toast"@.len() != "listening"@.len());
    assert("toast"@.len() != "thinking"@.len());
    assert("error"@.len() != "fallback"@.len());
    assert("error"@.len() != "listening"@.len());
    assert("error"@.len() != "thinking"@.len());
    assert("error"@[0] != "toast"@[0]);
    assert("waiting"@.len() != "fallback"@.len());
    assert("waiting"@.len() != "listening"@.len());
    assert("waiting"@.len() != "thinking"@.len());
    assert("waiting"@.len() != "toast"@.len());
    assert("waiting"@.len() != "error"@.len());
}

/// What each phase may ask for. Only a listening payload asks for a
/// streaming layout; only `fallback` asks for the card; a thinking payload
/// asks for the base window or, with an input-source label, the hint
/// window; every other phase asks for the base window.
pub proof fn law_layout_requests(p: PayloadView)
    ensures
        candidate_layout(p) == OverlayLayout::Streaming ==> spec_phase(p.state)
            == OverlayPhase::Listening,
        candidate_layout(p) == OverlayLayout::StreamingWithMicHint ==> spec_phase(p.state)
            == OverlayPhase::Listening,
        (candidate_layout(p) == OverlayLayout::Fallback) == (spec_phase(p.state)
            == OverlayPhase::Fallback),
        candidate_layout(p) == OverlayLayout::BaseWithMicHint ==> (spec_phase(p.state)
            == OverlayPhase::Listening || spec_phase(p.state) == OverlayPhase::Thinking)
            && p.mic_source_label is Some,
        candidate_layout(p) == OverlayLayout::StreamingWithMicHint ==> p.mic_source_label is Some
            && (p.streaming == Some(true) || p.streaming_text is Some),
        candidate_layout(p) == OverlayLayout::Streaming ==> (p.streaming == Some(true)
            || p.streaming_text is Some),
        spec_phase(p.state) == OverlayPhase::Thinking ==> candidate_layout(p)
            == OverlayLayout::Base || candidate_layout(p) == OverlayLayout::BaseWithMicHint,
        spec_phase(p.state) == OverlayPhase::Thinking && p.mic_source_label is None
            ==> candidate_layout(p) == OverlayLayout::Base,
        spec_phase(p.state) != OverlayPhase::Listening && spec_phase(p.state)
            != OverlayPhase::Thinking && spec_phase(p.state) != OverlayPhase::Fallback
            ==> candidate_layout(p) == OverlayLayout::Base,
{
}

/// Within the listening phase the flags decide: streaming on with no label
/// gives the streaming window, streaming on with a label that holds a
/// non-white-space character gives the streaming window with the hint, a
/// label alone gives the hint window, and nothing gives the base window.
/// A label of nothing but white space counts as no label.
pub proof fn law_listening_layouts(p: PayloadView, label: Seq<char>, i: int)
    requires
        spec_phase(p.state) == OverlayPhase::Listening,
    ensures
        p.streaming == Some(true) && p.mic_source_label is None ==> candidate_layout(p)
            == OverlayLayout::Streaming,
        p.streaming == Some(true) && p.mic_source_label == Some(label) && 0 <= i < label.len()
            && !unicode_white_space(label[i]) ==> candidate_layout(p)
            == OverlayLayout::StreamingWithMicHint,
        p.streaming != Some(true) && p.streaming_text is None && p.mic_source_label == Some(label)
            && 0 <= i < label.len() && !unicode_white_space(label[i]) ==> candidate_layout(p)
            == OverlayLayout::BaseWithMicHint,
        p.streaming != Some(true) && p.streaming_text is None && p.mic_source_label is None
            ==> candidate_layout(p) == OverlayLayout::Base,
        p.mic_source_label == Some(label) && (forall|j: int|
            0 <= j < label.len() ==> unicode_white_space(#[trigger] label[j])) ==> candidate_layout(
            p,
        ) != OverlayLayout::BaseWithMicHint && candidate_layout(p)
            != OverlayLayout::StreamingWithMicHint,
{
}

/// The layout after a payload is either the one it asks for or the current
/// one, and the current one is kept only to avoid shrinking a visible
/// overlay out of a hint layout. From the base window the payload's request
/// always wins, and the card shows exactly in the `fallback` state.
pub proof fn law_layout_transitions(current: OverlayLayout, p: PayloadView)
    ensures
        next_layout(current, p) == candidate_layout(p) || next_layout(current, p) == current,
        next_layout(OverlayLayout::Base, p) == candidate_layout(p),
        (next_layout(current, p) == OverlayLayout::Fallback) == (spec_phase(p.state)
            == OverlayPhase::Fallback),
        next_layout(current, p) != candidate_layout(p) ==> (current
            == OverlayLayout::BaseWithMicHint || current == OverlayLayout::StreamingWithMicHint),
        spec_phase(p.state) == OverlayPhase::Toast && current
            == OverlayLayout::StreamingWithMicHint ==> next_layout(current, p)
            == OverlayLayout::StreamingWithMicHint,
        spec_phase(p.state) == OverlayPhase::Error && current == OverlayLayout::BaseWithMicHint
            ==> next_layout(current, p) == OverlayLayout::BaseWithMicHint,
        spec_phase(p.state) == OverlayPhase::Other ==> next_layout(current, p)
            == OverlayLayout::Base,
        spec_phase(p.state) == OverlayPhase::Missing ==> next_layout(current, p)
            == OverlayLayout::Base,
{
}

/// Only the fallback card takes clicks; every other layout is click-through.
pub proof fn law_only_fallback_is_interactive(l: OverlayLayout)
    ensures
        l.spec_is_interactive() <==> l == OverlayLayout::Fallback,
{
}

/// The design sizes in CSS px: the base window follows the configured
/// width and is 64 tall; the hint window is at least 480 wide and 104 tall;
/// the card is 520 by 224; the streaming windows are 480 wide, 200 tall
/// without the hint and 244 with it.
pub proof fn law_design_sizes()
    ensures
        OverlayLayout::Base.spec_design_width() == DesignWidth::Base,
        OverlayLayout::BaseWithMicHint.spec_design_width() == DesignWidth::BaseAtLeast(480),
        OverlayLayout::Fallback.spec_design_width() == DesignWidth::Fixed(520),
        OverlayLayout::Streaming.spec_design_width() == DesignWidth::Fixed(480),
        OverlayLayout::StreamingWithMicHint.spec_design_width() == DesignWidth::Fixed(480),
        OverlayLayout::Base.spec_design_height() == 64,
        OverlayLayout::BaseWithMicHint.spec_design_height() == 104,
        OverlayLayout::Fallback.spec_design_height() == 224,
        OverlayLayout::Streaming.spec_design_height() == 200,
        OverlayLayout::StreamingWithMicHint.spec_design_height() == 244,
{
}

/// The health report of any show carries the state's own active show and
/// generation; it is acknowledged exactly when the last acknowledgement is
/// for that show at the active generation; its latency is -1 unless the last
/// acknowledgement is for that show; recovery counts as started only for the
/// show it was started for, and as successful only once that show has a
/// later-generation acknowledgement.
pub proof fn law_health_report(m: WindowModel, show_id: u64, w: WindowSnapshot, now: i64)
    ensures
        m.health(show_id, w, now).show_id == show_id,
        m.health(show_id, w, now).active_show_id == m.active_show_id,
        m.health(show_id, w, now).active_generation == m.active_generation,
        m.health(show_id, w, now).ack_generation == m.last_ack_generation,
        m.health(show_id, w, now).acked == (m.last_ack_show_id == show_id && m.last_ack_generation
            == m.active_generation),
        m.last_ack_show_id != show_id ==> m.health(show_id, w, now).ack_latency_ms == -1,
        m.last_ack_show_id == show_id && m.last_ack_at_ms > 0 && m.show_started_at_ms > 0
            ==> m.health(show_id, w, now).ack_latency_ms == m.last_ack_at_ms
            - m.show_started_at_ms,
        m.last_ack_at_ms <= 0 ==> m.health(show_id, w, now).ack_latency_ms == -1,
        m.health(show_id, w, now).recovery_started == (m.recovery_started_show_id == show_id),
        m.health(show_id, w, now).recovery_succeeded == (m.recovery_started_show_id == show_id
            && m.last_ack_show_id == show_id && m.last_ack_generation > 0),
        m.health(show_id, w, now).failure_class == spec_classify(
            w,
            m.page_load_started_at_ms > 0,
            m.page_load_finished_at_ms > 0,
            m.renderer_ready_at_ms > 0,
        ),
        m.health(show_id, w, now).diagnostic == m.diagnostic(now),
        m.hidden().health(show_id, w, now).active_show_id == 0,
{
}

/// The diagnostic snapshot reports each renderer milestone as having
/// happened exactly when its timestamp is positive, with its age.
pub proof fn law_diagnostic_report(m: WindowModel, now: i64)
    ensures
        m.diagnostic(now).page_load_started == (m.page_load_started_at_ms > 0),
        m.diagnostic(now).page_load_finished == (m.page_load_finished_at_ms > 0),
        m.diagnostic(now).renderer_ready == (m.renderer_ready_at_ms > 0),
        m.diagnostic(now).page_load_started_age_ms == spec_event_age(
            now,
            m.page_load_started_at_ms,
        ),
        m.diagnostic(now).page_load_finished_age_ms == spec_event_age(
            now,
            m.page_load_finished_at_ms,
        ),
        m.diagnostic(now).renderer_ready_age_ms == spec_event_age(now, m.renderer_ready_at_ms),
        m.renderer_reset().diagnostic(now).page_load_started_age_ms == -1,
        !m.renderer_reset().diagnostic(now).renderer_ready,
{
}

/// A new show changes only what a show owns: the layout (as the payload
/// decides), the latest payload, the show counter, the active show (the new
/// id, generation 0, started now) and the acknowledgement and recovery
/// records (cleared). The applied layout and the renderer's milestones are
/// kept.
pub proof fn law_present_frame(m: WindowModel, p: PayloadView, now: i64)
    requires
        m.show_seq < u64::MAX,
    ensures
        m.presented(p, now).layout == next_layout(m.layout, p),
        m.presented(p, now).latest_payload == Some(p),
        m.presented(p, now).show_seq == m.show_seq + 1,
        m.presented(p, now).active_show_id == m.show_seq + 1,
        m.presented(p, now).active_generation == 0,
        m.presented(p, now).show_started_at_ms == now,
        m.presented(p, now).last_ack_show_id == 0,
        m.presented(p, now).last_ack_generation == 0,
        m.presented(p, now).last_ack_at_ms == 0,
        m.presented(p, now).recovery_started_show_id == 0,
        m.presented(p, now).last_applied_layout == m.last_applied_layout,
        m.presented(p, now).page_load_started_at_ms == m.page_load_started_at_ms,
        m.presented(p, now).page_load_finished_at_ms == m.page_load_finished_at_ms,
        m.presented(p, now).renderer_ready_at_ms == m.renderer_ready_at_ms,
{
}

/// Hiding clears the active show, the applied layout and the layout itself,
/// and keeps everything else.
pub proof fn law_hide_frame(m: WindowModel)
    ensures
        m.hidden().active_show_id == 0,
        m.hidden().layout == OverlayLayout::Base,
        m.hidden().last_applied_layout is None,
        m.hidden().latest_payload == m.latest_payload,
        m.hidden().show_seq == m.show_seq,
        m.hidden().active_generation == m.active_generation,
        m.hidden().show_started_at_ms == m.show_started_at_ms,
        m.hidden().last_ack_show_id == m.last_ack_show_id,
        m.hidden().last_ack_generation == m.last_ack_generation,
        m.hidden().last_ack_at_ms == m.last_ack_at_ms,
        m.hidden().recovery_started_show_id == m.recovery_started_show_id,
        m.hidden().page_load_started_at_ms == m.page_load_started_at_ms,
        m.hidden().page_load_finished_at_ms == m.page_load_finished_at_ms,
        m.hidden().renderer_ready_at_ms == m.renderer_ready_at_ms,
{
}

/// A status update stores the payload and decides the layout, touches no
/// show, and reports: the new layout; click-through unless it is the card;
/// a relayout only for an existing window whose applied layout differs;
/// the window shown only for the card on such a relayout; and an emit
/// exactly when the window exists.
pub proof fn law_update(m: WindowModel, p: PayloadView, handle_exists: bool)
    ensures
        m.updated(p, handle_exists).layout == next_layout(m.layout, p),
        m.updated(p, handle_exists).latest_payload == Some(p),
        m.updated(p, handle_exists).show_seq == m.show_seq,
        m.updated(p, handle_exists).active_show_id == m.active_show_id,
        m.updated(p, handle_exists).active_generation == m.active_generation,
        m.updated(p, handle_exists).last_ack_show_id == m.last_ack_show_id,
        handle_exists ==> m.updated(p, handle_exists).last_applied_layout == Some(
            next_layout(m.layout, p),
        ),
        !handle_exists ==> m.updated(p, handle_exists).last_applied_layout
            == m.last_applied_layout,
        m.update_action(p, handle_exists).layout == next_layout(m.layout, p),
        m.update_action(p, handle_exists).interactive == (next_layout(m.layout, p)
            == OverlayLayout::Fallback),
        m.update_action(p, handle_exists).emit == handle_exists,
        m.update_action(p, handle_exists).reapply_layout == (handle_exists && m.last_applied_layout
            != Some(next_layout(m.layout, p))),
        m.update_action(p, handle_exists).show_window == (m.update_action(
            p,
            handle_exists,
        ).reapply_layout && next_layout(m.layout, p) == OverlayLayout::Fallback),
{
}

/// An acknowledgement is accepted exactly when it names the active show and
/// generation and reports a healthy render, is stale exactly when it names
/// anything else, and only an accepted one changes the state, recording its
/// show, generation and time and nothing more.
pub proof fn law_render_ack(m: WindowModel, ack: RenderAck, now: i64)
    ensures
        (m.ack_outcome(ack) == AckOutcome::Accepted) == (ack.show_id == m.active_show_id
            && ack.generation == m.active_generation && ack.healthy),
        (m.ack_outcome(ack) == AckOutcome::Stale) == (ack.show_id != m.active_show_id
            || ack.generation != m.active_generation),
        m.ack_outcome(ack) != AckOutcome::Accepted ==> m.after_ack(ack, now) == m,
        m.ack_outcome(ack) == AckOutcome::Accepted ==> m.after_ack(ack, now).last_ack_show_id
            == ack.show_id && m.after_ack(ack, now).last_ack_generation == ack.generation
            && m.after_ack(ack, now).last_ack_at_ms == now && m.after_ack(ack, now).active_show_id
            == m.active_show_id && m.after_ack(ack, now).active_generation == m.active_generation
            && m.after_ack(ack, now).layout == m.layout && m.after_ack(ack, now).show_seq
            == m.show_seq,
{
}

/// A ready page is kept hidden when nothing is shown and otherwise makes
/// the active show visible; readiness only records its time.
pub proof fn law_ready(m: WindowModel, now: i64)
    ensures
        (m.ready_action() == ReadyAction::HideWindow) == (m.active_show_id == 0),
        m.active_show_id != 0 ==> m.ready_action() == ReadyAction::EnsureVisible(
            m.active_show_id,
        ),
        m.renderer_ready(now).renderer_ready_at_ms == now,
        m.renderer_ready(now).active_show_id == m.active_show_id,
        m.renderer_ready(now).page_load_started_at_ms == m.page_load_started_at_ms,
{
}

/// Page-load events record their time in their own slot only; a renderer
/// reset clears the three milestones and nothing else.
pub proof fn law_renderer_milestones(m: WindowModel, now: i64)
    ensures
        m.page_loaded(PageLoadStage::Started, now).page_load_started_at_ms == now,
        m.page_loaded(PageLoadStage::Started, now).page_load_finished_at_ms
            == m.page_load_finished_at_ms,
        m.page_loaded(PageLoadStage::Finished, now).page_load_finished_at_ms == now,
        m.page_loaded(PageLoadStage::Finished, now).page_load_started_at_ms
            == m.page_load_started_at_ms,
        m.page_loaded(PageLoadStage::Started, now).renderer_ready_at_ms == m.renderer_ready_at_ms,
        m.renderer_reset().page_load_started_at_ms == 0,
        m.renderer_reset().page_load_finished_at_ms == 0,
        m.renderer_reset().renderer_ready_at_ms == 0,
        m.renderer_reset().active_show_id == m.active_show_id,
        m.renderer_reset().last_ack_show_id == m.last_ack_show_id,
{
}

/// The watchdog's decisions: it stops whenever its show is no longer active
/// at the generation it watches, or (before recovery) once the show is
/// acknowledged; it re-probes only at the first timeout, recovers only at
/// the second, and reports on recovery only at the last, confirming it
/// exactly when the recreated window was acknowledged.
pub proof fn law_watchdog(m: WindowModel, show_id: u64)
    ensures
        !m.is_active(show_id, 0) ==> m.watchdog(show_id, WatchdogStage::FirstAckTimeout)
            == WatchdogAction::Stop && m.watchdog(show_id, WatchdogStage::SecondAckTimeout)
            == WatchdogAction::Stop,
        m.is_acked(show_id, 0) ==> m.watchdog(show_id, WatchdogStage::FirstAckTimeout)
            == WatchdogAction::Stop && m.watchdog(show_id, WatchdogStage::SecondAckTimeout)
            == WatchdogAction::Stop,
        m.is_active(show_id, 0) && !m.is_acked(show_id, 0) ==> m.watchdog(
            show_id,
            WatchdogStage::FirstAckTimeout,
        ) == WatchdogAction::Reprobe && m.watchdog(show_id, WatchdogStage::SecondAckTimeout)
            == WatchdogAction::Recover,
        !m.is_active(show_id, 1) ==> m.watchdog(show_id, WatchdogStage::RecoveryAckTimeout)
            == WatchdogAction::Stop,
        m.is_active(show_id, 1) ==> (m.watchdog(show_id, WatchdogStage::RecoveryAckTimeout)
            == WatchdogAction::RecoveryConfirmed) == m.is_acked(show_id, 1),
        m.is_active(show_id, 1) && !m.is_acked(show_id, 1) ==> m.watchdog(
            show_id,
            WatchdogStage::RecoveryAckTimeout,
        ) == WatchdogAction::RecoveryFailed,
        m.watchdog(show_id, WatchdogStage::FirstAckTimeout) != WatchdogAction::Recover,
        m.watchdog(show_id, WatchdogStage::SecondAckTimeout) != WatchdogAction::Reprobe,
{
}

/// Recovery acts only on a show active at generation 0: it moves the show to
/// generation 1, clears its acknowledgement and notes the recovery, keeping
/// the show, layout and renderer records.
pub proof fn law_recovery(m: WindowModel, show_id: u64)
    ensures
        !m.is_active(show_id, 0) ==> m.recovery_begun(show_id) == m,
        m.is_active(show_id, 0) ==> m.recovery_begun(show_id).active_show_id == show_id
            && m.recovery_begun(show_id).active_generation == 1 && m.recovery_begun(
            show_id,
        ).last_ack_show_id == 0 && m.recovery_begun(show_id).last_ack_generation == 0
            && m.recovery_begun(show_id).recovery_started_show_id == show_id && m.recovery_begun(
            show_id,
        ).layout == m.layout && m.recovery_begun(show_id).show_seq == m.show_seq
            && m.recovery_begun(show_id).renderer_ready_at_ms == m.renderer_ready_at_ms,
{
}

/// Only the show on screen is made visible; for it, a missing window is
/// created and an existing one is shown with the current layout applied.
pub proof fn law_visibility(m: WindowModel, show_id: u64, handle_exists: bool)
    ensures
        (m.visible_action(show_id, handle_exists) == VisibleAction::NotShowing) == (show_id == 0
            || m.active_show_id != show_id),
        show_id != 0 && m.active_show_id == show_id && !handle_exists ==> m.visible_action(
            show_id,
            handle_exists,
        ) == VisibleAction::CreateWindow,
        show_id != 0 && m.active_show_id == show_id && handle_exists ==> m.visible_action(
            show_id,
            handle_exists,
        ) == VisibleAction::ShowWindow && m.made_visible(show_id, handle_exists).last_applied_layout
            == Some(m.layout),
        m.visible_action(show_id, handle_exists) != VisibleAction::ShowWindow ==> m.made_visible(
            show_id,
            handle_exists,
        ) == m,
{
}

/// Emitted payloads carry the active show and generation and the probe
/// flag, and there is nothing to emit before the first payload.
pub proof fn law_emit_tags(m: WindowModel, probe: bool)
    ensures
        (m.emit_tags(probe) is None) == (m.latest_payload is None),
        m.emit_tags(probe) matches Some(t) ==> t.show_id == m.active_show_id && t.generation
            == m.active_generation && t.probe == probe,
{
}

/// The state name in the logs is the latest payload's state, or `unknown`.
pub proof fn law_latest_state_name(m: WindowModel, p: PayloadView, s: Seq<char>)
    ensures
        m.latest_payload is None ==> m.latest_state_name() == "unknown"@,
        m.latest_payload == Some(p) && p.state == Some(s) ==> m.latest_state_name() == s,
        m.latest_payload == Some(p) && p.state is None ==> m.latest_state_name() == "unknown"@,
{
}

/// Live captions count as on when `streaming` is true, or when a
/// `streamingText` holds a character that is not white space; a blank text
/// does not turn them on.
pub proof fn law_streaming_text(p: PayloadView, text: Seq<char>, i: int)
    requires
        spec_phase(p.state) == OverlayPhase::Listening,
        p.streaming != Some(true),
        p.mic_source_label is None,
        p.streaming_text == Some(text),
    ensures
        0 <= i < text.len() && !unicode_white_space(text[i]) ==> candidate_layout(p)
            == OverlayLayout::Streaming,
        (forall|j: int| 0 <= j < text.len() ==> unicode_white_space(#[trigger] text[j]))
            ==> candidate_layout(p) == OverlayLayout::Base,
{
}

/// While the overlay stays visible (listening, thinking, toast or error) it
/// never shrinks out of the streaming-with-hint window, and the hint window
/// does not fall back to the base window; it may still grow.
pub proof fn law_visible_overlay_does_not_shrink(current: OverlayLayout, p: PayloadView)
    requires
        spec_phase(p.state) == OverlayPhase::Listening || spec_phase(p.state)
            == OverlayPhase::Thinking || spec_phase(p.state) == OverlayPhase::Toast || spec_phase(
            p.state,
        ) == OverlayPhase::Error,
    ensures
        current == OverlayLayout::StreamingWithMicHint ==> next_layout(current, p)
            == OverlayLayout::StreamingWithMicHint,
        current == OverlayLayout::BaseWithMicHint ==> next_layout(current, p)
            != OverlayLayout::Base,
        current == OverlayLayout::BaseWithMicHint && (candidate_layout(p)
            == OverlayLayout::Streaming || candidate_layout(p)
            == OverlayLayout::StreamingWithMicHint) ==> next_layout(current, p)
            == candidate_layout(p),
        current == OverlayLayout::Streaming ==> next_layout(current, p) == candidate_layout(p),
{
}

/// A plain show replays the latest payload, or the `waiting` state when no
/// payload has arrived.
pub proof fn law_replay_payload(m: WindowModel, p: PayloadView)
    ensures
        m.latest_payload == Some(p) ==> m.replay_payload() == p,
        m.latest_payload is None ==> m.replay_payload().state == Some("waiting"@),
        waiting_payload().streaming is None,
        waiting_payload().streaming_text is None,
        waiting_payload().mic_source_label is None,
{
}

/// Recovery waits for the old handle at most twenty times before giving up,
/// and goes on as soon as the handle is gone.
pub proof fn law_stale_handle_wait(handle_exists: bool, polls_done: u32)
    ensures
        RECOVERY_HANDLE_POLLS == 20,
        !handle_exists ==> spec_stale_handle_wait(handle_exists, polls_done)
            == StaleHandleWait::CreateWindow,
        handle_exists && polls_done < 20 ==> spec_stale_handle_wait(handle_exists, polls_done)
            == StaleHandleWait::PollAgain,
        handle_exists && polls_done >= 20 ==> spec_stale_handle_wait(handle_exists, polls_done)
            == StaleHandleWait::GiveUp,
{
}

/// The placed window is centred: its left and right gaps inside the work
/// area differ by at most one pixel. A requested size that fits between the
/// margins is kept exactly; a window that fits above the bottom gap ends the
/// bottom gap above the work area's bottom; one that does not is pushed no
/// higher than the top margin.
pub proof fn law_placement(work: WorkArea, s: ScaledMetrics)
    requires
        placement_defined(work, s),
    ensures
        work.right - work.left >= 1 ==> 0 <= (work.right - (spec_bounds(work, s).x + spec_bounds(
            work,
            s,
        ).width)) - (spec_bounds(work, s).x - work.left) <= 1,
        1 <= s.width <= available_width(work, s) ==> spec_bounds(work, s).width == s.width,
        1 <= s.height <= available_height(work, s) ==> spec_bounds(work, s).height == s.height,
        s.width > available_width(work, s) ==> spec_bounds(work, s).width == available_width(
            work,
            s,
        ),
        work.bottom - s.eff_gap() - spec_bounds(work, s).height >= work.top + s.eff_margin()
            ==> spec_bounds(work, s).y + spec_bounds(work, s).height == work.bottom
            - s.eff_gap(),
        work.bottom - s.eff_gap() - spec_bounds(work, s).height < work.top + s.eff_margin()
            ==> spec_bounds(work, s).y == work.top + s.eff_margin(),
        s.eff_margin() >= 1,
        s.eff_gap() >= s.eff_margin(),
        s.margin >= 1 ==> s.eff_margin() == s.margin,
        s.bottom_gap >= s.eff_margin() ==> s.eff_gap() == s.bottom_gap,
{
}

/// Monitors are half-open rectangles: a point on the left or top edge is
/// inside, one on the right or bottom edge is not. A window touching a
/// monitor only along an edge does not overlap it.
pub proof fn law_monitor_edges(m: MonitorRect, px: int, py: int)
    ensures
        m.width > 0 && m.height > 0 ==> contains_point(m, m.x as int, m.y as int),
        !contains_point(m, m.x + m.width, py),
        !contains_point(m, px, m.y + m.height),
        !contains_point(m, m.x - 1, py),
        !overlaps_monitor(m.x + m.width, py, 10, 10, m),
        !overlaps_monitor(m.x - 10, py, 10, 10, m),
        m.width > 0 && m.height > 0 ==> overlaps_monitor(m.x - 10, m.y as int, 11, 1, m),
{
}

/// The target monitor is found by the centre of the work area, which lies
/// between its edges (halfway, rounding toward the left or top edge).
pub proof fn law_work_area_centre(b: MonitorBounds)
    ensures
        b.left <= b.right ==> b.left <= b.center_x() <= b.right && 0 <= 2 * (b.center_x()
            - b.left) - (b.right - b.left) + 1 <= 1,
        b.top <= b.bottom ==> b.top <= b.center_y() <= b.bottom && 0 <= 2 * (b.center_y()
            - b.top) - (b.bottom - b.top) + 1 <= 1,
{
}

} // verus!
