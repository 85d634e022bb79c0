use vstd::prelude::*;

use crate::diagnostics::{
    event_age_ms, failure_class_of, spec_classify, spec_event_age, FailureClass, WindowSnapshot,
};
use crate::layout::{
    choose_layout, next_layout, waiting_payload, OverlayLayout, OverlayPayload, PayloadView,
};

verus! {

/// A render acknowledgement from the overlay page. Fields missing from the
/// message read as show 0, generation 0 and unhealthy.
#[derive(Clone, Copy, Debug, PartialEq, Eq, Structural)]
pub struct RenderAck {
    pub show_id: u64,
    pub generation: u64,
    pub healthy: bool,
}

/// What became of a render acknowledgement.
#[derive(Clone, Copy, Debug, PartialEq, Eq, Structural)]
pub enum AckOutcome {
    /// It names another show or generation than the active one; ignored.
    Stale,
    /// It is current but the page reported itself unhealthy; not recorded.
    Unhealthy,
    /// Recorded as the acknowledgement of the active show.
    Accepted,
}

/// The page-load events of the overlay webview.
#[derive(Clone, Copy, Debug, PartialEq, Eq, Structural)]
pub enum PageLoadStage {
    Started,
    Finished,
}

/// What to do once the overlay page reports that its listeners are ready.
#[derive(Clone, Copy, Debug, PartialEq, Eq, Structural)]
pub enum ReadyAction {
    /// Nothing is being shown (an idle prewarm): keep the window hidden.
    HideWindow,
    /// Make sure the window of this show is visible and replay the latest
    /// state with a probe.
    EnsureVisible(u64),
}

/// The stages at which the render watchdog of a show wakes up.
#[derive(Clone, Copy, Debug, PartialEq, Eq, Structural)]
pub enum WatchdogStage {
    /// After the first acknowledgement timeout.
    FirstAckTimeout,
    /// After the second acknowledgement timeout.
    SecondAckTimeout,
    /// After the timeout given to a recreated window.
    RecoveryAckTimeout,
}

/// What making a show's window visible takes.
#[derive(Clone, Copy, Debug, PartialEq, Eq, Structural)]
pub enum VisibleAction {
    /// The show is no longer on screen; leave the window alone.
    NotShowing,
    /// No window exists; create it, shown.
    CreateWindow,
    /// Apply the current layout's geometry, show the window and raise it.
    ShowWindow,
}

/// What the render watchdog does when it wakes.
#[derive(Clone, Copy, Debug, PartialEq, Eq, Structural)]
pub enum WatchdogAction {
    /// The show is over or confirmed; the watchdog ends.
    Stop,
    /// Re-send the latest state asking for an acknowledgement.
    Reprobe,
    /// Destroy and recreate the overlay window.
    Recover,
    /// The recreated window acknowledged its render.
    RecoveryConfirmed,
    /// The recreated window never acknowledged.
    RecoveryFailed,
}

/// What to do to the native window after a status update.
#[derive(Clone, Copy, Debug, PartialEq, Eq, Structural)]
pub struct StateUpdate {
    /// The layout now in force.
    pub layout: OverlayLayout,
    /// Re-apply the native geometry (the layout differs from the one last
    /// applied).
    pub reapply_layout: bool,
    /// Whether the window takes clicks.
    pub interactive: bool,
    /// Show the window (the fallback card appears even mid-hide).
    pub show_window: bool,
    /// Send the latest state to the page.
    pub emit: bool,
}

/// The markers added to a state payload before it is sent to the page.
#[derive(Clone, Copy, Debug, PartialEq, Eq, Structural)]
pub struct EmitTags {
    pub show_id: u64,
    pub generation: u64,
    pub probe: bool,
}

/// Which renderer milestones have happened and how long ago (-1 when not).
#[derive(Clone, Copy, Debug, PartialEq, Eq, Structural)]
pub struct DiagnosticSnapshot {
    pub page_load_started: bool,
    pub page_load_finished: bool,
    pub renderer_ready: bool,
    pub page_load_started_age_ms: i64,
    pub page_load_finished_age_ms: i64,
    pub renderer_ready_age_ms: i64,
}

/// The health of one show, as reported to the frontend.
#[derive(Clone, Copy, Debug, PartialEq, Eq, Structural)]
pub struct HealthSnapshot {
    pub show_id: u64,
    pub active_show_id: u64,
    pub active_generation: u64,
    pub acked: bool,
    pub ack_generation: u64,
    pub ack_latency_ms: i64,
    pub recovery_started: bool,
    pub recovery_succeeded: bool,
    pub failure_class: FailureClass,
    pub diagnostic: DiagnosticSnapshot,
}

/// The overlay's lifecycle state as plain values.
pub struct WindowModel {
    pub layout: OverlayLayout,
    pub last_applied_layout: Option<OverlayLayout>,
    pub latest_payload: Option<PayloadView>,
    /// How many shows have been numbered so far.
    pub show_seq: u64,
    /// The show on screen, 0 when hidden.
    pub active_show_id: u64,
    /// 0 for the first window of a show, 1 once it has been recreated.
    pub active_generation: u64,
    pub show_started_at_ms: i64,
    pub last_ack_show_id: u64,
    pub last_ack_generation: u64,
    pub last_ack_at_ms: i64,
    pub recovery_started_show_id: u64,
    pub page_load_started_at_ms: i64,
    pub page_load_finished_at_ms: i64,
    pub renderer_ready_at_ms: i64,
}

impl WindowModel {
    pub open spec fn initial() -> WindowModel {
        WindowModel {
            layout: OverlayLayout::Base,
            last_applied_layout: None,
            latest_payload: None,
            show_seq: 0,
            active_show_id: 0,
            active_generation: 0,
            show_started_at_ms: 0,
            last_ack_show_id: 0,
            last_ack_generation: 0,
            last_ack_at_ms: 0,
            recovery_started_show_id: 0,
            page_load_started_at_ms: 0,
            page_load_finished_at_ms: 0,
            renderer_ready_at_ms: 0,
        }
    }

    /// Every show id in the state has been handed out, and generations are
    /// 0 or 1.
    pub open spec fn wf(self) -> bool {
        &&& self.active_show_id <= self.show_seq
        &&& self.last_ack_show_id <= self.show_seq
        &&& self.recovery_started_show_id <= self.show_seq
        &&& self.active_generation <= 1
        &&& self.last_ack_generation <= 1
    }

    pub open spec fn is_active(self, show_id: u64, generation: u64) -> bool {
        self.active_show_id == show_id && self.active_generation == generation
    }

    pub open spec fn is_acked(self, show_id: u64, generation: u64) -> bool {
        self.last_ack_show_id == show_id && self.last_ack_generation == generation
    }

    pub open spec fn is_showing(self, show_id: u64) -> bool {
        show_id != 0 && self.active_show_id == show_id
    }

    /// Milliseconds from the start of the show to its acknowledgement, -1
    /// while either is unset.
    pub open spec fn ack_latency(self) -> i64 {
        if self.last_ack_at_ms <= 0 || self.show_started_at_ms <= 0 {
            -1i64
        } else {
            (self.last_ack_at_ms - self.show_started_at_ms) as i64
        }
    }

    /// The state after `p` is stored as the latest payload and decides the
    /// layout.
    pub open spec fn with_payload(self, p: PayloadView) -> WindowModel {
        WindowModel { layout: next_layout(self.layout, p), latest_payload: Some(p), ..self }
    }

    /// A new show: the next show id becomes active at generation 0, started
    /// at `now`, with no acknowledgement and no recovery.
    pub open spec fn presented(self, p: PayloadView, now: i64) -> WindowModel {
        let id = (self.show_seq + 1) as u64;
        WindowModel {
            show_seq: id,
            active_show_id: id,
            active_generation: 0,
            show_started_at_ms: now,
            last_ack_show_id: 0,
            last_ack_generation: 0,
            last_ack_at_ms: 0,
            recovery_started_show_id: 0,
            ..self.with_payload(p)
        }
    }

    /// The payload a plain show replays: the latest one, or `waiting`.
    pub open spec fn replay_payload(self) -> PayloadView {
        match self.latest_payload {
            Some(p) => p,
            None => waiting_payload(),
        }
    }

    pub open spec fn hidden(self) -> WindowModel {
        WindowModel {
            active_show_id: 0,
            last_applied_layout: None,
            layout: OverlayLayout::Base,
            ..self
        }
    }

    /// Whether an update must re-apply the native geometry: the window
    /// exists and the layout differs from the one last applied.
    pub open spec fn relayout_needed(self, p: PayloadView, handle_exists: bool) -> bool {
        handle_exists && self.with_payload(p).last_applied_layout != Some(
            self.with_payload(p).layout,
        )
    }

    pub open spec fn updated(self, p: PayloadView, handle_exists: bool) -> WindowModel {
        if self.relayout_needed(p, handle_exists) {
            self.with_payload(p).layout_applied(self.with_payload(p).layout)
        } else {
            self.with_payload(p)
        }
    }

    pub open spec fn update_action(self, p: PayloadView, handle_exists: bool) -> StateUpdate {
        let layout = next_layout(self.layout, p);
        let relayout = self.relayout_needed(p, handle_exists);
        StateUpdate {
            layout,
            reapply_layout: relayout,
            interactive: layout.spec_is_interactive(),
            show_window: relayout && layout == OverlayLayout::Fallback,
            emit: handle_exists,
        }
    }

    pub open spec fn layout_applied(self, layout: OverlayLayout) -> WindowModel {
        WindowModel { last_applied_layout: Some(layout), ..self }
    }

    pub open spec fn visible_action(self, show_id: u64, handle_exists: bool) -> VisibleAction {
        if !self.is_showing(show_id) {
            VisibleAction::NotShowing
        } else if !handle_exists {
            VisibleAction::CreateWindow
        } else {
            VisibleAction::ShowWindow
        }
    }

    pub open spec fn made_visible(self, show_id: u64, handle_exists: bool) -> WindowModel {
        if self.visible_action(show_id, handle_exists) == VisibleAction::ShowWindow {
            self.layout_applied(self.layout)
        } else {
            self
        }
    }

    pub open spec fn renderer_ready(self, now: i64) -> WindowModel {
        WindowModel { renderer_ready_at_ms: now, ..self }
    }

    pub open spec fn ready_action(self) -> ReadyAction {
        if self.active_show_id == 0 {
            ReadyAction::HideWindow
        } else {
            ReadyAction::EnsureVisible(self.active_show_id)
        }
    }

    pub open spec fn ack_outcome(self, ack: RenderAck) -> AckOutcome {
        if !self.is_active(ack.show_id, ack.generation) {
            AckOutcome::Stale
        } else if !ack.healthy {
            AckOutcome::Unhealthy
        } else {
            AckOutcome::Accepted
        }
    }

    pub open spec fn after_ack(self, ack: RenderAck, now: i64) -> WindowModel {
        if self.ack_outcome(ack) == AckOutcome::Accepted {
            WindowModel {
                last_ack_show_id: ack.show_id,
                last_ack_generation: ack.generation,
                last_ack_at_ms: now,
                ..self
            }
        } else {
            self
        }
    }

    pub open spec fn page_loaded(self, stage: PageLoadStage, now: i64) -> WindowModel {
        match stage {
            PageLoadStage::Started => WindowModel { page_load_started_at_ms: now, ..self },
            PageLoadStage::Finished => WindowModel { page_load_finished_at_ms: now, ..self },
        }
    }

    pub open spec fn renderer_reset(self) -> WindowModel {
        WindowModel {
            page_load_started_at_ms: 0,
            page_load_finished_at_ms: 0,
            renderer_ready_at_ms: 0,
            ..self
        }
    }

    /// Recovery of a show whose first window never acknowledged: the show
    /// moves to generation 1, its acknowledgement is cleared and the
    /// recovery is noted. Any other show is left alone.
    pub open spec fn recovery_begun(self, show_id: u64) -> WindowModel {
        if self.is_active(show_id, 0) {
            WindowModel {
                active_generation: 1,
                last_ack_show_id: 0,
                last_ack_generation: 0,
                recovery_started_show_id: show_id,
                ..self
            }
        } else {
            self
        }
    }

    pub open spec fn watchdog(self, show_id: u64, stage: WatchdogStage) -> WatchdogAction {
        match stage {
            WatchdogStage::FirstAckTimeout => if !self.is_active(show_id, 0) || self.is_acked(
                show_id,
                0,
            ) {
                WatchdogAction::Stop
            } else {
                WatchdogAction::Reprobe
            },
            WatchdogStage::SecondAckTimeout => if !self.is_active(show_id, 0) || self.is_acked(
                show_id,
                0,
            ) {
                WatchdogAction::Stop
            } else {
                WatchdogAction::Recover
            },
            WatchdogStage::RecoveryAckTimeout => if !self.is_active(show_id, 1) {
                WatchdogAction::Stop
            } else if self.is_acked(show_id, 1) {
                WatchdogAction::RecoveryConfirmed
            } else {
                WatchdogAction::RecoveryFailed
            },
        }
    }

    pub open spec fn failure_class(self, window: WindowSnapshot) -> FailureClass {
        spec_classify(
            window,
            self.page_load_started_at_ms > 0,
            self.page_load_finished_at_ms > 0,
            self.renderer_ready_at_ms > 0,
        )
    }

    pub open spec fn diagnostic(self, now: i64) -> DiagnosticSnapshot {
        DiagnosticSnapshot {
            page_load_started: self.page_load_started_at_ms > 0,
            page_load_finished: self.page_load_finished_at_ms > 0,
            renderer_ready: self.renderer_ready_at_ms > 0,
            page_load_started_age_ms: spec_event_age(now, self.page_load_started_at_ms),
            page_load_finished_age_ms: spec_event_age(now, self.page_load_finished_at_ms),
            renderer_ready_age_ms: spec_event_age(now, self.renderer_ready_at_ms),
        }
    }

    pub open spec fn health(self, show_id: u64, window: WindowSnapshot, now: i64) -> HealthSnapshot {
        let recovery_started = self.recovery_started_show_id == show_id;
        HealthSnapshot {
            show_id,
            active_show_id: self.active_show_id,
            active_generation: self.active_generation,
            acked: self.last_ack_show_id == show_id && self.last_ack_generation
                == self.active_generation,
            ack_generation: self.last_ack_generation,
            ack_latency_ms: if self.last_ack_show_id == show_id {
                self.ack_latency()
            } else {
                -1i64
            },
            recovery_started,
            recovery_succeeded: recovery_started && self.last_ack_show_id == show_id
                && self.last_ack_generation > 0,
            failure_class: self.failure_class(window),
            diagnostic: self.diagnostic(now),
        }
    }

    /// The `state` of the latest payload, `unknown` when there is none.
    pub open spec fn latest_state_name(self) -> Seq<char> {
        match self.latest_payload {
            Some(p) => match p.state {
                Some(s) => s,
                None => "unknown"@,
            },
            None => "unknown"@,
        }
    }

    pub open spec fn emit_tags(self, probe: bool) -> Option<EmitTags> {
        if self.latest_payload is Some {
            Some(
                EmitTags {
                    show_id: self.active_show_id,
                    generation: self.active_generation,
                    probe,
                },
            )
        } else {
            None
        }
    }
}

/// The overlay window's lifecycle: its layout, the numbered shows and their
/// render acknowledgements, recovery, and the renderer's milestones.
/// Show ids are numbered by the state itself, from 1; an application keeps
/// one `WindowState` per process, which makes them unique in the process.
pub struct WindowState {
    overlay_layout: OverlayLayout,
    last_applied_layout: Option<OverlayLayout>,
    latest_overlay_payload: Option<OverlayPayload>,
    show_seq: u64,
    active_show_id: u64,
    active_generation: u64,
    show_started_at_ms: i64,
    last_ack_show_id: u64,
    last_ack_generation: u64,
    last_ack_at_ms: i64,
    recovery_started_show_id: u64,
    page_load_started_at_ms: i64,
    page_load_finished_at_ms: i64,
    renderer_ready_at_ms: i64,
}

impl View for WindowState {
    type V = WindowModel;

    closed spec fn view(&self) -> WindowModel {
        WindowModel {
            layout: self.overlay_layout,
            last_applied_layout: self.last_applied_layout,
            latest_payload: match self.latest_overlay_payload {
                Some(p) => Some(p@),
                None => None,
            },
            show_seq: self.show_seq,
            active_show_id: self.active_show_id,
            active_generation: self.active_generation,
            show_started_at_ms: self.show_started_at_ms,
            last_ack_show_id: self.last_ack_show_id,
            last_ack_generation: self.last_ack_generation,
            last_ack_at_ms: self.last_ack_at_ms,
            recovery_started_show_id: self.recovery_started_show_id,
            page_load_started_at_ms: self.page_load_started_at_ms,
            page_load_finished_at_ms: self.page_load_finished_at_ms,
            renderer_ready_at_ms: self.renderer_ready_at_ms,
        }
    }
}

impl WindowState {
    pub fn new() -> (s: WindowState)
        ensures
            s@ == WindowModel::initial(),
            s@.wf(),
    {
        WindowState {
            overlay_layout: OverlayLayout::Base,
            last_applied_layout: None,
            latest_overlay_payload: None,
            show_seq: 0,
            active_show_id: 0,
            active_generation: 0,
            show_started_at_ms: 0,
            last_ack_show_id: 0,
            last_ack_generation: 0,
            last_ack_at_ms: 0,
            recovery_started_show_id: 0,
            page_load_started_at_ms: 0,
            page_load_finished_at_ms: 0,
            renderer_ready_at_ms: 0,
        }
    }

    /// How many shows have been numbered.
    pub fn shows_presented(&self) -> (n: u64)
        ensures
            n == self@.show_seq,
    {
        self.show_seq
    }

    pub fn layout(&self) -> (l: OverlayLayout)
        ensures
            l == self@.layout,
    {
        self.overlay_layout
    }

    pub fn active_show_id(&self) -> (id: u64)
        ensures
            id == self@.active_show_id,
    {
        self.active_show_id
    }

    pub fn active_generation(&self) -> (g: u64)
        ensures
            g == self@.active_generation,
    {
        self.active_generation
    }

    fn apply_payload(&mut self, payload: OverlayPayload)
        ensures
            final(self)@ == old(self)@.with_payload(payload@),
    {
        self.overlay_layout = choose_layout(self.overlay_layout, &payload);
        self.latest_overlay_payload = Some(payload);
    }

    /// Stores `payload` and starts a new show at time `now` (the caller's
    /// clock reading in milliseconds since the Unix epoch); returns its id.
    pub fn present_overlay(&mut self, payload: OverlayPayload, now: i64) -> (show_id: u64)
        requires
            old(self)@.show_seq < u64::MAX,
        ensures
            final(self)@ == old(self)@.presented(payload@, now),
            show_id == final(self)@.active_show_id,
            show_id == old(self)@.show_seq + 1,
    {
        self.apply_payload(payload);
        let show_id = self.show_seq + 1;
        self.show_seq = show_id;
        self.active_show_id = show_id;
        self.active_generation = 0;
        self.show_started_at_ms = now;
        self.last_ack_show_id = 0;
        self.last_ack_generation = 0;
        self.last_ack_at_ms = 0;
        self.recovery_started_show_id = 0;
        show_id
    }

    fn replay_payload(&self) -> (p: OverlayPayload)
        ensures
            p@ == self@.replay_payload(),
    {
        match &self.latest_overlay_payload {
            Some(p) => p.duplicate(),
            None => OverlayPayload::waiting(),
        }
    }

    /// Starts a new show at `now` with the latest payload, or with the
    /// `waiting` state when none has arrived.
    pub fn show_overlay(&mut self, now: i64) -> (show_id: u64)
        requires
            old(self)@.show_seq < u64::MAX,
        ensures
            final(self)@ == old(self)@.presented(old(self)@.replay_payload(), now),
            show_id == old(self)@.show_seq + 1,
    {
        let payload = self.replay_payload();
        self.present_overlay(payload, now)
    }

    /// Ends the current show: nothing is active, the layout returns to the
    /// base size and the next show re-applies its geometry. Returns the
    /// layout that was in force.
    pub fn hide_overlay(&mut self) -> (previous: OverlayLayout)
        ensures
            final(self)@ == old(self)@.hidden(),
            previous == old(self)@.layout,
    {
        self.active_show_id = 0;
        self.last_applied_layout = None;
        let previous = self.overlay_layout;
        self.overlay_layout = OverlayLayout::Base;
        previous
    }

    /// Stores a status update and says what the native window needs:
    /// geometry is re-applied only when the layout changed since it was last
    /// applied, and nothing is done to a window that does not exist.
    pub fn update_overlay_state(&mut self, payload: OverlayPayload, handle_exists: bool) -> (u:
        StateUpdate)
        ensures
            final(self)@ == old(self)@.updated(payload@, handle_exists),
            u == old(self)@.update_action(payload@, handle_exists),
    {
        let ghost p = payload@;
        self.apply_payload(payload);
        let layout = self.overlay_layout;
        let changed = handle_exists && match self.last_applied_layout {
            Some(applied) => applied != layout,
            None => true,
        };
        if changed {
            self.last_applied_layout = Some(layout);
        }
        StateUpdate {
            layout,
            reapply_layout: changed,
            interactive: layout.is_interactive(),
            show_window: changed && layout == OverlayLayout::Fallback,
            emit: handle_exists,
        }
    }

    /// Notes that the native geometry of `layout` has been applied.
    pub fn record_applied_layout(&mut self, layout: OverlayLayout)
        ensures
            final(self)@ == old(self)@.layout_applied(layout),
    {
        self.last_applied_layout = Some(layout);
    }

    /// What it takes to make the window of `show_id` visible. Nothing is
    /// done for a show that is no longer on screen (hidden or replaced
    /// meanwhile); a missing window has to be created first; an existing one
    /// gets the geometry of the current layout.
    pub fn ensure_visible(&mut self, show_id: u64, handle_exists: bool) -> (a: VisibleAction)
        ensures
            a == old(self)@.visible_action(show_id, handle_exists),
            final(self)@ == old(self)@.made_visible(show_id, handle_exists),
    {
        if !self.is_showing(show_id) {
            VisibleAction::NotShowing
        } else if !handle_exists {
            VisibleAction::CreateWindow
        } else {
            self.last_applied_layout = Some(self.overlay_layout);
            VisibleAction::ShowWindow
        }
    }

    /// The overlay page registered its listeners at `now`.
    pub fn overlay_ready(&mut self, now: i64) -> (a: ReadyAction)
        ensures
            final(self)@ == old(self)@.renderer_ready(now),
            a == old(self)@.ready_action(),
    {
        self.renderer_ready_at_ms = now;
        if self.active_show_id == 0 {
            ReadyAction::HideWindow
        } else {
            ReadyAction::EnsureVisible(self.active_show_id)
        }
    }

    /// What a render acknowledgement would come to now, without recording it.
    pub fn render_ack_outcome(&self, ack: RenderAck) -> (o: AckOutcome)
        ensures
            o == self@.ack_outcome(ack),
    {
        if ack.show_id != self.active_show_id || ack.generation != self.active_generation {
            AckOutcome::Stale
        } else if !ack.healthy {
            AckOutcome::Unhealthy
        } else {
            AckOutcome::Accepted
        }
    }

    /// Handles a render acknowledgement received at `now`.
    pub fn record_render_ack(&mut self, ack: RenderAck, now: i64) -> (o: AckOutcome)
        ensures
            final(self)@ == old(self)@.after_ack(ack, now),
            o == old(self)@.ack_outcome(ack),
    {
        if ack.show_id != self.active_show_id || ack.generation != self.active_generation {
            return AckOutcome::Stale;
        }
        if !ack.healthy {
            return AckOutcome::Unhealthy;
        }
        self.last_ack_show_id = ack.show_id;
        self.last_ack_generation = ack.generation;
        self.last_ack_at_ms = now;
        AckOutcome::Accepted
    }

    /// A fresh webview is about to be created: its page-load and renderer
    /// milestones start over.
    pub fn reset_renderer_lifecycle(&mut self)
        ensures
            final(self)@ == old(self)@.renderer_reset(),
    {
        self.page_load_started_at_ms = 0;
        self.page_load_finished_at_ms = 0;
        self.renderer_ready_at_ms = 0;
    }

    pub fn record_page_load(&mut self, stage: PageLoadStage, now: i64)
        ensures
            final(self)@ == old(self)@.page_loaded(stage, now),
    {
        match stage {
            PageLoadStage::Started => {
                self.page_load_started_at_ms = now;
            },
            PageLoadStage::Finished => {
                self.page_load_finished_at_ms = now;
            },
        }
    }

    /// Milliseconds from the start of the show to its acknowledgement, -1
    /// while either is unset.
    pub fn ack_latency_ms(&self) -> (ms: i64)
        ensures
            ms == self@.ack_latency(),
    {
        if self.last_ack_at_ms <= 0 || self.show_started_at_ms <= 0 {
            -1
        } else {
            self.last_ack_at_ms - self.show_started_at_ms
        }
    }

    pub fn is_acked(&self, show_id: u64, generation: u64) -> (b: bool)
        ensures
            b == self@.is_acked(show_id, generation),
    {
        self.last_ack_show_id == show_id && self.last_ack_generation == generation
    }

    /// Whether `show_id` is still the show on screen, at any generation.
    pub fn is_showing(&self, show_id: u64) -> (b: bool)
        ensures
            b == self@.is_showing(show_id),
    {
        show_id != 0 && self.active_show_id == show_id
    }

    pub fn is_active(&self, show_id: u64, generation: u64) -> (b: bool)
        ensures
            b == self@.is_active(show_id, generation),
    {
        self.active_show_id == show_id && self.active_generation == generation
    }

    /// Whether the overlay should be raised back to the top of the topmost
    /// band: only while something is shown.
    pub fn reassert_overlay_topmost_if_visible(&self) -> (b: bool)
        ensures
            b == (self@.active_show_id != 0),
    {
        self.active_show_id != 0
    }

    /// Whether to create the hidden overlay webview ahead of the first show:
    /// only when nothing is shown and no window exists yet.
    pub fn prewarm_overlay(&self, handle_exists: bool) -> (b: bool)
        ensures
            b == (self@.active_show_id == 0 && !handle_exists),
    {
        self.active_show_id == 0 && !handle_exists
    }

    /// Starts recovering `show_id` if it is still active at generation 0;
    /// returns whether it did.
    pub fn recover_overlay(&mut self, show_id: u64) -> (began: bool)
        ensures
            began == old(self)@.is_active(show_id, 0),
            final(self)@ == old(self)@.recovery_begun(show_id),
    {
        if !self.is_active(show_id, 0) {
            return false;
        }
        self.active_generation = 1;
        self.last_ack_show_id = 0;
        self.last_ack_generation = 0;
        self.recovery_started_show_id = show_id;
        true
    }

    /// What the render watchdog of `show_id` does at `stage`.
    pub fn watchdog_step(&self, show_id: u64, stage: WatchdogStage) -> (a: WatchdogAction)
        ensures
            a == self@.watchdog(show_id, stage),
    {
        match stage {
            WatchdogStage::FirstAckTimeout => if !self.is_active(show_id, 0) || self.is_acked(
                show_id,
                0,
            ) {
                WatchdogAction::Stop
            } else {
                WatchdogAction::Reprobe
            },
            WatchdogStage::SecondAckTimeout => if !self.is_active(show_id, 0) || self.is_acked(
                show_id,
                0,
            ) {
                WatchdogAction::Stop
            } else {
                WatchdogAction::Recover
            },
            WatchdogStage::RecoveryAckTimeout => if !self.is_active(show_id, 1) {
                WatchdogAction::Stop
            } else if self.is_acked(show_id, 1) {
                WatchdogAction::RecoveryConfirmed
            } else {
                WatchdogAction::RecoveryFailed
            },
        }
    }

    /// The stage at which the current show has stalled, given the native
    /// window's snapshot.
    pub fn failure_class(&self, window: &WindowSnapshot) -> (c: FailureClass)
        ensures
            c == self@.failure_class(*window),
    {
        failure_class_of(
            window,
            self.page_load_started_at_ms > 0,
            self.page_load_finished_at_ms > 0,
            self.renderer_ready_at_ms > 0,
        )
    }

    pub fn diagnostic_snapshot(&self, now: i64) -> (d: DiagnosticSnapshot)
        ensures
            d == self@.diagnostic(now),
    {
        DiagnosticSnapshot {
            page_load_started: self.page_load_started_at_ms > 0,
            page_load_finished: self.page_load_finished_at_ms > 0,
            renderer_ready: self.renderer_ready_at_ms > 0,
            page_load_started_age_ms: event_age_ms(now, self.page_load_started_at_ms),
            page_load_finished_age_ms: event_age_ms(now, self.page_load_finished_at_ms),
            renderer_ready_age_ms: event_age_ms(now, self.renderer_ready_at_ms),
        }
    }

    pub fn health_snapshot(&self, show_id: u64, window: &WindowSnapshot, now: i64) -> (h:
        HealthSnapshot)
        ensures
            h == self@.health(show_id, *window, now),
    {
        let recovery_started = self.recovery_started_show_id == show_id;
        HealthSnapshot {
            show_id,
            active_show_id: self.active_show_id,
            active_generation: self.active_generation,
            acked: self.last_ack_show_id == show_id && self.last_ack_generation
                == self.active_generation,
            ack_generation: self.last_ack_generation,
            ack_latency_ms: if self.last_ack_show_id == show_id {
                self.ack_latency_ms()
            } else {
                -1
            },
            recovery_started,
            recovery_succeeded: recovery_started && self.last_ack_show_id == show_id
                && self.last_ack_generation > 0,
            failure_class: self.failure_class(window),
            diagnostic: self.diagnostic_snapshot(now),
        }
    }

    /// The `state` of the latest payload, `unknown` when there is none.
    pub fn latest_state_name(&self) -> (name: String)
        ensures
            name@ == self@.latest_state_name(),
    {
        match &self.latest_overlay_payload {
            Some(p) => match &p.state {
                Some(s) => s.clone(),
                None => String::from_str("unknown"),
            },
            None => String::from_str("unknown"),
        }
    }

    /// The markers for sending the latest payload to the page, or `None`
    /// when no payload has arrived yet.
    pub fn payload_for_emit(&self, probe: bool) -> (t: Option<EmitTags>)
        ensures
            t == self@.emit_tags(probe),
    {
        match &self.latest_overlay_payload {
            Some(_) => Some(
                EmitTags {
                    show_id: self.active_show_id,
                    generation: self.active_generation,
                    probe,
                },
            ),
            None => None,
        }
    }
}

/// Records when the overlay last answered a ping: `now`, the caller's clock
/// reading. The sequence number is not used; the timestamp is kept for
/// comparison with historical logs.
pub fn record_overlay_pong(last_pong_ms: &mut i64, _seq: u64, now: i64)
    ensures
        *final(last_pong_ms) == now,
{
    *last_pong_ms = now;
}

/// How many times recovery polls for the destroyed overlay's handle to go
/// away before it gives up.
pub const RECOVERY_HANDLE_POLLS: u32 = 20;

/// Milliseconds between two of those polls.
pub const RECOVERY_HANDLE_POLL_INTERVAL_MS: u64 = 25;

/// What recovery does after destroying the old overlay window.
#[derive(Clone, Copy, Debug, PartialEq, Eq, Structural)]
pub enum StaleHandleWait {
    /// The old handle is gone: create the new window.
    CreateWindow,
    /// The handle is still registered: wait one interval and poll again.
    PollAgain,
    /// The handle outlived every poll: recovery fails with a stale handle.
    GiveUp,
}

pub open spec fn spec_stale_handle_wait(handle_exists: bool, polls_done: u32) -> StaleHandleWait {
    if !handle_exists {
        StaleHandleWait::CreateWindow
    } else if polls_done < RECOVERY_HANDLE_POLLS {
        StaleHandleWait::PollAgain
    } else {
        StaleHandleWait::GiveUp
    }
}

/// The bounded wait for a destroyed window's handle: given whether the
/// handle is still registered and how many intervals have been waited.
pub fn stale_handle_wait(handle_exists: bool, polls_done: u32) -> (w: StaleHandleWait)
    ensures
        w == spec_stale_handle_wait(handle_exists, polls_done),
{
    if !handle_exists {
        StaleHandleWait::CreateWindow
    } else if polls_done < RECOVERY_HANDLE_POLLS {
        StaleHandleWait::PollAgain
    } else {
        StaleHandleWait::GiveUp
    }
}

/// The wait is bounded: once every poll has been spent it never asks for
/// another, and a vanished handle always lets recovery go on.
pub proof fn lemma_stale_handle_wait_is_bounded(handle_exists: bool, polls_done: u32)
    ensures
        polls_done >= RECOVERY_HANDLE_POLLS ==> spec_stale_handle_wait(handle_exists, polls_done)
            != StaleHandleWait::PollAgain,
        !handle_exists ==> spec_stale_handle_wait(handle_exists, polls_done)
            == StaleHandleWait::CreateWindow,
{
}

/// The topmost keeper of a show stops once a newer show starts or the
/// overlay is hidden: the show it was started for is then no longer showing.
/// A show that is on screen in a well-formed state is ended by the next one.
pub proof fn lemma_keeper_stops_after_newer_show_or_hide(
    m: WindowModel,
    p: PayloadView,
    now: i64,
    show_id: u64,
)
    requires
        m.show_seq < u64::MAX,
    ensures
        show_id <= m.show_seq ==> !m.presented(p, now).is_showing(show_id),
        !m.hidden().is_showing(show_id),
        m.wf() && m.is_showing(show_id) ==> !m.presented(p, now).is_showing(show_id),
{
}

/// A show that was hidden or replaced is never made visible again, and
/// asking leaves the state unchanged; the current show's window is shown
/// with its layout applied.
pub proof fn lemma_only_current_show_becomes_visible(
    m: WindowModel,
    p: PayloadView,
    now: i64,
    show_id: u64,
    handle_exists: bool,
)
    requires
        m.show_seq < u64::MAX,
    ensures
        m.hidden().visible_action(show_id, handle_exists) == VisibleAction::NotShowing,
        m.hidden().made_visible(show_id, handle_exists) == m.hidden(),
        show_id <= m.show_seq ==> m.presented(p, now).visible_action(show_id, handle_exists)
            == VisibleAction::NotShowing,
        ({
            let n = m.presented(p, now);
            &&& n.visible_action(n.active_show_id, true) == VisibleAction::ShowWindow
            &&& n.made_visible(n.active_show_id, true).last_applied_layout == Some(n.layout)
            &&& n.visible_action(n.active_show_id, false) == VisibleAction::CreateWindow
        }),
{
}

/// Every operation keeps the state well formed: show ids in the state have
/// all been handed out and generations stay 0 or 1.
pub proof fn lemma_operations_preserve_wf(
    m: WindowModel,
    p: PayloadView,
    now: i64,
    handle_exists: bool,
    layout: OverlayLayout,
    ack: RenderAck,
    stage: PageLoadStage,
    show_id: u64,
)
    requires
        m.wf(),
    ensures
        m.show_seq < u64::MAX ==> m.presented(p, now).wf(),
        m.show_seq < u64::MAX ==> m.presented(m.replay_payload(), now).wf(),
        m.hidden().wf(),
        m.updated(p, handle_exists).wf(),
        m.layout_applied(layout).wf(),
        m.made_visible(show_id, handle_exists).wf(),
        m.renderer_ready(now).wf(),
        m.after_ack(ack, now).wf(),
        m.page_loaded(stage, now).wf(),
        m.renderer_reset().wf(),
        m.recovery_begun(show_id).wf(),
{
}

/// Each show gets an id above every id handed out before, so no earlier
/// show can be mistaken for it.
pub proof fn lemma_show_ids_are_fresh(m: WindowModel, p: PayloadView, now: i64)
    requires
        m.wf(),
        m.show_seq < u64::MAX,
    ensures
        m.presented(p, now).active_show_id > m.show_seq,
        m.presented(p, now).active_show_id > m.active_show_id,
        m.presented(p, now).active_show_id > m.last_ack_show_id,
        m.presented(p, now).active_show_id > m.recovery_started_show_id,
        m.presented(p, now).show_seq == m.presented(p, now).active_show_id,
{
}

/// A new show starts unconfirmed at generation 0 with no recovery, so its
/// watchdog keeps probing until an acknowledgement arrives.
pub proof fn lemma_new_show_awaits_ack(
    m: WindowModel,
    p: PayloadView,
    now: i64,
    window: WindowSnapshot,
    later: i64,
)
    requires
        m.show_seq < u64::MAX,
    ensures
        ({
            let n = m.presented(p, now);
            let id = n.active_show_id;
            &&& id != 0
            &&& n.is_active(id, 0)
            &&& n.is_showing(id)
            &&& !n.is_acked(id, 0)
            &&& !n.health(id, window, later).acked
            &&& !n.health(id, window, later).recovery_started
            &&& n.health(id, window, later).ack_latency_ms == -1
            &&& n.watchdog(id, WatchdogStage::FirstAckTimeout) == WatchdogAction::Reprobe
            &&& n.watchdog(id, WatchdogStage::SecondAckTimeout) == WatchdogAction::Recover
            &&& n.ready_action() == ReadyAction::EnsureVisible(id)
        }),
{
}

/// An acknowledgement for any show or generation other than the active one
/// is answered `Stale` and changes nothing.
pub proof fn lemma_stale_ack_changes_nothing(m: WindowModel, ack: RenderAck, now: i64)
    requires
        ack.show_id != m.active_show_id || ack.generation != m.active_generation,
    ensures
        m.ack_outcome(ack) == AckOutcome::Stale,
        m.after_ack(ack, now) == m,
{
}

/// An unhealthy acknowledgement changes nothing either.
pub proof fn lemma_unhealthy_ack_changes_nothing(m: WindowModel, ack: RenderAck, now: i64)
    requires
        !ack.healthy,
    ensures
        m.ack_outcome(ack) != AckOutcome::Accepted,
        m.after_ack(ack, now) == m,
{
}

/// Once a new show starts, acknowledgements for every earlier show are
/// stale.
pub proof fn lemma_earlier_show_acks_become_stale(
    m: WindowModel,
    p: PayloadView,
    now: i64,
    ack: RenderAck,
)
    requires
        m.wf(),
        m.show_seq < u64::MAX,
        ack.show_id <= m.show_seq,
    ensures
        m.presented(p, now).ack_outcome(ack) == AckOutcome::Stale,
{
}

/// A healthy acknowledgement of the active show confirms it: the health
/// report says acknowledged, and its watchdog stops (or reports a
/// successful recovery for a recreated window).
pub proof fn lemma_accepted_ack_confirms_show(
    m: WindowModel,
    ack: RenderAck,
    now: i64,
    window: WindowSnapshot,
    later: i64,
)
    requires
        m.is_active(ack.show_id, ack.generation),
        ack.healthy,
    ensures
        m.ack_outcome(ack) == AckOutcome::Accepted,
        m.after_ack(ack, now).is_acked(ack.show_id, ack.generation),
        m.after_ack(ack, now).health(ack.show_id, window, later).acked,
        ack.generation == 0 ==> m.after_ack(ack, now).watchdog(
            ack.show_id,
            WatchdogStage::FirstAckTimeout,
        ) == WatchdogAction::Stop && m.after_ack(ack, now).watchdog(
            ack.show_id,
            WatchdogStage::SecondAckTimeout,
        ) == WatchdogAction::Stop,
        ack.generation == 1 ==> m.after_ack(ack, now).watchdog(
            ack.show_id,
            WatchdogStage::RecoveryAckTimeout,
        ) == WatchdogAction::RecoveryConfirmed,
{
}

/// Hiding ends every show: its watchdog and topmost keeper stop, a ready
/// page is kept hidden, and the layout returns to the base size.
pub proof fn lemma_hide_ends_show(m: WindowModel, show_id: u64, stage: WatchdogStage)
    requires
        show_id != 0,
    ensures
        !m.hidden().is_showing(show_id),
        m.hidden().watchdog(show_id, stage) == WatchdogAction::Stop,
        m.hidden().active_show_id == 0,
        m.hidden().ready_action() == ReadyAction::HideWindow,
        m.hidden().layout == OverlayLayout::Base,
        m.hidden().last_applied_layout is None,
{
}

/// Recovery moves a stalled show to generation 1: acknowledgements of the
/// first window become stale, the health report shows the recovery as
/// started but not yet successful, and a second recovery of the same show
/// does nothing.
pub proof fn lemma_recovery_moves_to_second_generation(
    m: WindowModel,
    show_id: u64,
    ack: RenderAck,
    window: WindowSnapshot,
    now: i64,
)
    requires
        m.is_active(show_id, 0),
        ack.show_id == show_id,
        ack.generation == 0,
    ensures
        m.recovery_begun(show_id).is_active(show_id, 1),
        m.recovery_begun(show_id).ack_outcome(ack) == AckOutcome::Stale,
        m.recovery_begun(show_id).health(show_id, window, now).recovery_started,
        !m.recovery_begun(show_id).health(show_id, window, now).recovery_succeeded,
        m.recovery_begun(show_id).recovery_begun(show_id) == m.recovery_begun(show_id),
{
}

/// A healthy acknowledgement from the recreated window makes the recovery
/// successful.
pub proof fn lemma_recovery_succeeds_on_ack(
    m: WindowModel,
    show_id: u64,
    now: i64,
    window: WindowSnapshot,
    later: i64,
)
    requires
        m.is_active(show_id, 0),
        show_id != 0,
    ensures
        ({
            let r = m.recovery_begun(show_id);
            let a = r.after_ack(RenderAck { show_id, generation: 1, healthy: true }, now);
            &&& a.health(show_id, window, later).recovery_succeeded
            &&& a.health(show_id, window, later).acked
        }),
{
}

/// Sending the same update twice re-applies the native geometry at most
/// once: the second time the layout is unchanged.
pub proof fn lemma_repeated_update_does_not_relayout(m: WindowModel, p: PayloadView)
    ensures
        !m.updated(p, true).relayout_needed(p, true),
        m.updated(p, true).updated(p, true) == m.updated(p, true),
{
    crate::layout::lemma_layout_choice_idempotent(m.layout, p);
}

} // verus!
