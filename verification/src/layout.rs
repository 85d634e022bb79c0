use vstd::prelude::*;

use crate::text::{is_blank, spec_blank, text_equals};

verus! {

/// The shapes the overlay window can take. Each has its own design size
/// (kept beside the floating-point geometry outside this crate).
#[derive(Clone, Copy, Debug, PartialEq, Eq, Structural)]
pub enum OverlayLayout {
    Base,
    BaseWithMicHint,
    Fallback,
    /// Live streaming captions: bubble plus waveform, larger and click-through.
    Streaming,
    StreamingWithMicHint,
}

/// Width of the base pill window, in CSS px, unless the user configured
/// another.
pub const OVERLAY_DEFAULT_BASE_WIDTH: u32 = 360;

/// Height of the base window. It leaves room above the bottom-anchored pill
/// (16 px bottom padding plus a 38 px pill) so scaling errors do not clip it.
pub const OVERLAY_BASE_HEIGHT: u32 = 64;

pub const OVERLAY_FALLBACK_WIDTH: u32 = 520;

pub const OVERLAY_FALLBACK_HEIGHT: u32 = 224;

pub const OVERLAY_STREAMING_WIDTH: u32 = 480;

pub const OVERLAY_STREAMING_HEIGHT: u32 = 200;

pub const OVERLAY_MIC_HINT_WIDTH: u32 = 480;

pub const OVERLAY_MIC_HINT_HEIGHT: u32 = 104;

pub const OVERLAY_STREAMING_MIC_HINT_HEIGHT: u32 = 244;

/// Distance kept from every edge of the work area, in logical px.
pub const OVERLAY_SCREEN_MARGIN: u32 = 8;

/// Distance from the window's bottom edge to the work area's bottom, in
/// logical px.
pub const OVERLAY_BOTTOM_GAP: u32 = 72;

/// The overlay page's root bottom padding (`pb-4`), mirrored here for the
/// test that content fits.
pub const OVERLAY_ROOT_PADDING_BOTTOM: u32 = 16;

/// How a layout's design width is found.
#[derive(Clone, Copy, Debug, PartialEq, Eq, Structural)]
pub enum DesignWidth {
    /// The configured base width.
    Base,
    /// The configured base width, but at least this many CSS px.
    BaseAtLeast(u32),
    /// A fixed width in CSS px.
    Fixed(u32),
}

impl OverlayLayout {
    pub open spec fn spec_design_width(self) -> DesignWidth {
        match self {
            OverlayLayout::Base => DesignWidth::Base,
            OverlayLayout::BaseWithMicHint => DesignWidth::BaseAtLeast(OVERLAY_MIC_HINT_WIDTH),
            OverlayLayout::Fallback => DesignWidth::Fixed(OVERLAY_FALLBACK_WIDTH),
            OverlayLayout::Streaming => DesignWidth::Fixed(OVERLAY_STREAMING_WIDTH),
            OverlayLayout::StreamingWithMicHint => DesignWidth::Fixed(OVERLAY_STREAMING_WIDTH),
        }
    }

    pub open spec fn spec_design_height(self) -> u32 {
        match self {
            OverlayLayout::Base => OVERLAY_BASE_HEIGHT,
            OverlayLayout::BaseWithMicHint => OVERLAY_MIC_HINT_HEIGHT,
            OverlayLayout::Fallback => OVERLAY_FALLBACK_HEIGHT,
            OverlayLayout::Streaming => OVERLAY_STREAMING_HEIGHT,
            OverlayLayout::StreamingWithMicHint => OVERLAY_STREAMING_MIC_HINT_HEIGHT,
        }
    }

    /// The design width rule of this layout, in CSS px. The window's logical
    /// size is the design size times the webview's CSS zoom.
    pub fn design_width(&self) -> (w: DesignWidth)
        ensures
            w == self.spec_design_width(),
    {
        match self {
            OverlayLayout::Base => DesignWidth::Base,
            OverlayLayout::BaseWithMicHint => DesignWidth::BaseAtLeast(OVERLAY_MIC_HINT_WIDTH),
            OverlayLayout::Fallback => DesignWidth::Fixed(OVERLAY_FALLBACK_WIDTH),
            OverlayLayout::Streaming => DesignWidth::Fixed(OVERLAY_STREAMING_WIDTH),
            OverlayLayout::StreamingWithMicHint => DesignWidth::Fixed(OVERLAY_STREAMING_WIDTH),
        }
    }

    /// The design height of this layout, in CSS px.
    pub fn design_height(&self) -> (h: u32)
        ensures
            h == self.spec_design_height(),
    {
        match self {
            OverlayLayout::Base => OVERLAY_BASE_HEIGHT,
            OverlayLayout::BaseWithMicHint => OVERLAY_MIC_HINT_HEIGHT,
            OverlayLayout::Fallback => OVERLAY_FALLBACK_HEIGHT,
            OverlayLayout::Streaming => OVERLAY_STREAMING_HEIGHT,
            OverlayLayout::StreamingWithMicHint => OVERLAY_STREAMING_MIC_HINT_HEIGHT,
        }
    }

    pub open spec fn spec_is_interactive(self) -> bool {
        self is Fallback
    }

    /// Only the fallback card takes clicks; every other layout lets the
    /// cursor through.
    pub fn is_interactive(&self) -> (b: bool)
        ensures
            b == self.spec_is_interactive(),
    {
        match self {
            OverlayLayout::Fallback => true,
            _ => false,
        }
    }
}

/// The phase named by the payload's `state` field, as far as layout cares.
#[derive(Clone, Copy, Debug, PartialEq, Eq, Structural)]
pub enum OverlayPhase {
    Fallback,
    Listening,
    Thinking,
    Toast,
    Error,
    /// A state name this logic gives no special meaning (such as `waiting`).
    Other,
    /// No `state` string in the payload.
    Missing,
}

pub open spec fn spec_phase(state: Option<Seq<char>>) -> OverlayPhase {
    match state {
        None => OverlayPhase::Missing,
        Some(s) => if s == "fallback"@ {
            OverlayPhase::Fallback
        } else if s == "listening"@ {
            OverlayPhase::Listening
        } else if s == "thinking"@ {
            OverlayPhase::Thinking
        } else if s == "toast"@ {
            OverlayPhase::Toast
        } else if s == "error"@ {
            OverlayPhase::Error
        } else {
            OverlayPhase::Other
        },
    }
}

/// Reads a state name.
pub fn phase_of(state: Option<&str>) -> (p: OverlayPhase)
    ensures
        p == spec_phase(
            match state {
                Some(s) => Some(s@),
                None => None,
            },
        ),
{
    match state {
        None => OverlayPhase::Missing,
        Some(s) => if text_equals(s, "fallback") {
            OverlayPhase::Fallback
        } else if text_equals(s, "listening") {
            OverlayPhase::Listening
        } else if text_equals(s, "thinking") {
            OverlayPhase::Thinking
        } else if text_equals(s, "toast") {
            OverlayPhase::Toast
        } else if text_equals(s, "error") {
            OverlayPhase::Error
        } else {
            OverlayPhase::Other
        },
    }
}

/// The fields of an overlay status payload that decide the layout. Each is
/// `None` where the payload lacks the key or holds another JSON type there.
pub struct OverlayPayload {
    pub state: Option<String>,
    pub streaming: Option<bool>,
    pub streaming_text: Option<String>,
    pub mic_source_label: Option<String>,
}

pub struct PayloadView {
    pub state: Option<Seq<char>>,
    pub streaming: Option<bool>,
    pub streaming_text: Option<Seq<char>>,
    pub mic_source_label: Option<Seq<char>>,
}

pub open spec fn opt_text_view(s: Option<String>) -> Option<Seq<char>> {
    match s {
        Some(t) => Some(t@),
        None => None,
    }
}

impl View for OverlayPayload {
    type V = PayloadView;

    open spec fn view(&self) -> PayloadView {
        PayloadView {
            state: opt_text_view(self.state),
            streaming: self.streaming,
            streaming_text: opt_text_view(self.streaming_text),
            mic_source_label: opt_text_view(self.mic_source_label),
        }
    }
}

fn clone_text(s: &Option<String>) -> (r: Option<String>)
    ensures
        opt_text_view(r) == opt_text_view(*s),
{
    match s {
        Some(t) => Some(t.clone()),
        None => None,
    }
}

fn text_present(s: &Option<String>) -> (b: bool)
    ensures
        b == (opt_text_view(*s) matches Some(t) && !spec_blank(t)),
{
    match s {
        Some(t) => !is_blank(t.as_str()),
        None => false,
    }
}

/// The payload `{"state": "waiting", "elapsedSec": 0}` shown when there is
/// nothing more recent.
pub open spec fn waiting_payload() -> PayloadView {
    PayloadView {
        state: Some("waiting"@),
        streaming: None,
        streaming_text: None,
        mic_source_label: None,
    }
}

impl OverlayPayload {
    pub fn duplicate(&self) -> (r: OverlayPayload)
        ensures
            r@ == self@,
    {
        OverlayPayload {
            state: clone_text(&self.state),
            streaming: self.streaming,
            streaming_text: clone_text(&self.streaming_text),
            mic_source_label: clone_text(&self.mic_source_label),
        }
    }

    pub fn waiting() -> (r: OverlayPayload)
        ensures
            r@ == waiting_payload(),
    {
        OverlayPayload {
            state: Some(String::from_str("waiting")),
            streaming: None,
            streaming_text: None,
            mic_source_label: None,
        }
    }

    pub fn phase(&self) -> (p: OverlayPhase)
        ensures
            p == spec_phase(self@.state),
    {
        match &self.state {
            Some(s) => phase_of(Some(s.as_str())),
            None => phase_of(None),
        }
    }
}

/// Live captions are on when `streaming` is `true` from the start of a
/// recording, or when the payload carries a `streamingText` that is not blank.
pub open spec fn streaming_on(p: PayloadView) -> bool {
    p.streaming == Some(true) || (p.streaming_text matches Some(t) && !spec_blank(t))
}

/// The input-source hint shows when `micSourceLabel` is not blank.
pub open spec fn mic_hint_on(p: PayloadView) -> bool {
    p.mic_source_label matches Some(t) && !spec_blank(t)
}

/// The layout a payload asks for on its own.
pub open spec fn candidate_layout(p: PayloadView) -> OverlayLayout {
    let phase = spec_phase(p.state);
    if phase == OverlayPhase::Fallback {
        OverlayLayout::Fallback
    } else if phase == OverlayPhase::Listening && streaming_on(p) && mic_hint_on(p) {
        OverlayLayout::StreamingWithMicHint
    } else if phase == OverlayPhase::Listening && streaming_on(p) {
        OverlayLayout::Streaming
    } else if (phase == OverlayPhase::Listening || phase == OverlayPhase::Thinking) && mic_hint_on(
        p,
    ) {
        OverlayLayout::BaseWithMicHint
    } else {
        OverlayLayout::Base
    }
}

/// Phases in which the overlay stays on screen.
pub open spec fn stable_visible_phase(phase: OverlayPhase) -> bool {
    phase == OverlayPhase::Listening || phase == OverlayPhase::Thinking || phase
        == OverlayPhase::Toast || phase == OverlayPhase::Error
}

/// The shrinking moves that are held back while the overlay stays visible.
pub open spec fn keeps_expanded(current: OverlayLayout, candidate: OverlayLayout) -> bool {
    ||| (current == OverlayLayout::BaseWithMicHint && candidate == OverlayLayout::Base)
    ||| (current == OverlayLayout::StreamingWithMicHint && candidate == OverlayLayout::Streaming)
    ||| (current == OverlayLayout::StreamingWithMicHint && candidate
        == OverlayLayout::BaseWithMicHint)
    ||| (current == OverlayLayout::StreamingWithMicHint && candidate == OverlayLayout::Base)
}

/// The layout after a payload arrives: the one it asks for, except that a
/// visible overlay does not shrink from a hint layout (the window is anchored
/// at its bottom edge, and a shrink would show an intermediate frame).
pub open spec fn next_layout(current: OverlayLayout, p: PayloadView) -> OverlayLayout {
    let candidate = candidate_layout(p);
    if stable_visible_phase(spec_phase(p.state)) && keeps_expanded(current, candidate) {
        current
    } else {
        candidate
    }
}

/// Decides the layout for `payload` given the current one.
pub fn choose_layout(current: OverlayLayout, payload: &OverlayPayload) -> (next: OverlayLayout)
    ensures
        next == next_layout(current, payload@),
{
    let phase = payload.phase();
    let streaming = match payload.streaming {
        Some(b) => b,
        None => false,
    } || text_present(&payload.streaming_text);
    let mic_hint = text_present(&payload.mic_source_label);
    let listening = match phase {
        OverlayPhase::Listening => true,
        _ => false,
    };
    let candidate = match phase {
        OverlayPhase::Fallback => OverlayLayout::Fallback,
        _ => if listening && streaming && mic_hint {
            OverlayLayout::StreamingWithMicHint
        } else if listening && streaming {
            OverlayLayout::Streaming
        } else if (listening || phase == OverlayPhase::Thinking) && mic_hint {
            OverlayLayout::BaseWithMicHint
        } else {
            OverlayLayout::Base
        },
    };
    let stable = match phase {
        OverlayPhase::Listening | OverlayPhase::Thinking | OverlayPhase::Toast
        | OverlayPhase::Error => true,
        _ => false,
    };
    let keep = match (current, candidate) {
        (OverlayLayout::BaseWithMicHint, OverlayLayout::Base)
        | (OverlayLayout::StreamingWithMicHint, OverlayLayout::Streaming)
        | (OverlayLayout::StreamingWithMicHint, OverlayLayout::BaseWithMicHint)
        | (OverlayLayout::StreamingWithMicHint, OverlayLayout::Base) => true,
        _ => false,
    };
    if stable && keep {
        current
    } else {
        candidate
    }
}

/// Choosing the layout twice for the same payload changes nothing the
/// second time.
pub proof fn lemma_layout_choice_idempotent(current: OverlayLayout, p: PayloadView)
    ensures
        next_layout(next_layout(current, p), p) == next_layout(current, p),
{
}

/// A payload in the `fallback` state always shows the fallback card, which
/// is the one interactive layout.
pub proof fn lemma_fallback_state_shows_card(current: OverlayLayout, p: PayloadView)
    requires
        p.state == Some("fallback"@),
    ensures
        next_layout(current, p) == OverlayLayout::Fallback,
        next_layout(current, p).spec_is_interactive(),
{
}

/// Outside the visible phases the layout is exactly what the payload asks
/// for, whatever it was before.
pub proof fn lemma_layout_follows_payload_outside_visible_phases(
    a: OverlayLayout,
    b: OverlayLayout,
    p: PayloadView,
)
    requires
        !stable_visible_phase(spec_phase(p.state)),
    ensures
        next_layout(a, p) == next_layout(b, p),
        next_layout(a, p) == candidate_layout(p),
{
}

} // verus!
