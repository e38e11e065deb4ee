//! Properties of the interaction state machine over single steps and whole
//! pointer sessions.
use vstd::prelude::*;
use crate::interaction::{
    core_wf, mouse_step, ControlSignal, InteractionCore, InteractionState, PointerReading,
    CAPTURE_RELEASE_TICKS,
};

verus! {

/// The machine after a session of pointer samples, taken in order.
pub open spec fn run(c: InteractionCore, pinned: bool, rs: Seq<PointerReading>, delay_ms: u64) -> InteractionCore
    decreases rs.len(),
{
    if rs.len() == 0 {
        c
    } else {
        let next = mouse_step(c, pinned, rs[0], delay_ms).0;
        run(next, pinned, rs.drop_first(), delay_ms)
    }
}

/// Whether any step of a session pushes the widget away.
pub open spec fn run_repels(c: InteractionCore, pinned: bool, rs: Seq<PointerReading>, delay_ms: u64) -> bool
    decreases rs.len(),
{
    if rs.len() == 0 {
        false
    } else {
        let (next, _, repel) = mouse_step(c, pinned, rs[0], delay_ms);
        repel || run_repels(next, pinned, rs.drop_first(), delay_ms)
    }
}

/// Every step keeps the release counter below the release threshold.
pub proof fn lemma_step_preserves_wf(c: InteractionCore, pinned: bool, r: PointerReading, delay_ms: u64)
    requires
        core_wf(c),
    ensures
        core_wf(mouse_step(c, pinned, r, delay_ms).0),
{
}

/// While the user drags the widget, pointer samples change nothing and produce nothing.
pub proof fn lemma_dragging_ignores_pointer(c: InteractionCore, pinned: bool, r: PointerReading, delay_ms: u64)
    requires
        c.state == InteractionState::Dragging,
    ensures
        mouse_step(c, pinned, r, delay_ms) == (c, Seq::<ControlSignal>::empty(), false),
{
}

/// A whole session while dragging leaves the machine unchanged and never moves the widget.
pub proof fn lemma_dragging_ignores_session(c: InteractionCore, pinned: bool, rs: Seq<PointerReading>, delay_ms: u64)
    requires
        c.state == InteractionState::Dragging,
    ensures
        run(c, pinned, rs, delay_ms) == c,
        !run_repels(c, pinned, rs, delay_ms),
    decreases rs.len(),
{
    if rs.len() > 0 {
        lemma_dragging_ignores_session(c, pinned, rs.drop_first(), delay_ms);
    }
}

/// A pinned widget (not being dragged) stays pinned, is never pushed away, and
/// only asks for focus when the pointer enters the capture circle.
pub proof fn lemma_pinned_never_moves(c: InteractionCore, pinned: bool, r: PointerReading, delay_ms: u64)
    requires
        pinned || c.state == InteractionState::Pinned,
        c.state != InteractionState::Dragging,
    ensures
        ({
            let (n, s, repel) = mouse_step(c, pinned, r, delay_ms);
            &&& n.state == InteractionState::Pinned
            &&& !repel
            &&& n.visuals == c.visuals
            &&& s == (if r.in_capture && !r.was_in_capture {
                seq![ControlSignal::RequestFocus]
            } else {
                Seq::<ControlSignal>::empty()
            })
        }),
{
}

/// Over a whole session a pinned machine stays pinned and never moves the widget.
pub proof fn lemma_pinned_session_never_moves(c: InteractionCore, pinned: bool, rs: Seq<PointerReading>, delay_ms: u64)
    requires
        c.state == InteractionState::Pinned,
    ensures
        run(c, pinned, rs, delay_ms).state == InteractionState::Pinned,
        !run_repels(c, pinned, rs, delay_ms),
    decreases rs.len(),
{
    if rs.len() > 0 {
        let n = mouse_step(c, pinned, rs[0], delay_ms).0;
        lemma_pinned_session_never_moves(n, pinned, rs.drop_first(), delay_ms);
    }
}

/// The widget is pushed away exactly when it is free to move, evasion is on, it
/// is not captured, and the pointer moves within reach, outside the capture
/// circle, without aiming at it.
pub proof fn lemma_repel_exactly_when(c: InteractionCore, pinned: bool, r: PointerReading, delay_ms: u64)
    ensures
        mouse_step(c, pinned, r, delay_ms).2 <==> {
            &&& c.state != InteractionState::Dragging
            &&& c.state != InteractionState::Pinned
            &&& c.state != InteractionState::Captured
            &&& !pinned
            &&& c.evasion_enabled
            &&& !r.in_capture
            &&& !r.beyond_influence
            &&& !r.nearly_still
            &&& !r.aims_at_capture
        },
{
}

/// When the pointer's intent is ambiguous (nearly still) or it aims at the
/// capture surface, the widget does not move.
pub proof fn lemma_ambiguous_or_aiming_does_not_move(c: InteractionCore, pinned: bool, r: PointerReading, delay_ms: u64)
    requires
        r.nearly_still || r.aims_at_capture,
    ensures
        !mouse_step(c, pinned, r, delay_ms).2,
{
}

/// A free, uncaptured widget with evasion on is captured as soon as the pointer
/// reaches the capture circle, and the editor is asked for focus.
pub proof fn lemma_capture_on_entry(c: InteractionCore, r: PointerReading, delay_ms: u64)
    requires
        c.state != InteractionState::Dragging,
        c.state != InteractionState::Pinned,
        c.state != InteractionState::Captured,
        c.evasion_enabled,
        r.in_capture,
    ensures
        ({
            let (n, s, repel) = mouse_step(c, false, r, delay_ms);
            &&& n.state == InteractionState::Captured
            &&& !repel
            &&& !n.visuals.pre_capture
            &&& n.outside_capture_ticks == 0
            &&& s.len() > 0
            &&& s.last() == ControlSignal::RequestFocus
        }),
{
}

/// Focus is only ever requested for a sample in the capture circle.
pub proof fn lemma_focus_only_in_capture(c: InteractionCore, pinned: bool, r: PointerReading, delay_ms: u64, i: int)
    requires
        0 <= i < mouse_step(c, pinned, r, delay_ms).1.len(),
        mouse_step(c, pinned, r, delay_ms).1[i] == ControlSignal::RequestFocus,
    ensures
        r.in_capture,
{
}

/// The visual-hint signals report exactly the changes of the pre-capture hint:
/// there is one when the hint changes, it carries the new value, and there is
/// none otherwise.
pub proof fn lemma_visual_signals_report_changes(c: InteractionCore, pinned: bool, r: PointerReading, delay_ms: u64)
    ensures
        ({
            let (n, s, _) = mouse_step(c, pinned, r, delay_ms);
            &&& s.len() <= 2
            &&& (forall|i: int| 0 <= i < s.len() && (#[trigger] s[i]) is SetVisual ==> s[i] == (
            ControlSignal::SetVisual { pre_capture: n.visuals.pre_capture }))
            &&& (c.visuals.pre_capture != n.visuals.pre_capture <==> exists|i: int|
                0 <= i < s.len() && (#[trigger] s[i]) is SetVisual)
        }),
{
    let (n, s, _) = mouse_step(c, pinned, r, delay_ms);
    if c.visuals.pre_capture != n.visuals.pre_capture {
        assert(s[0] is SetVisual);
    }
}

/// The pre-capture hint only switches on while the pointer aims at the capture
/// surface, and only once a quarter of the pre-capture delay has passed since
/// the aiming began.
pub proof fn lemma_hint_waits_for_delay(c: InteractionCore, pinned: bool, r: PointerReading, delay_ms: u64)
    requires
        !c.visuals.pre_capture,
        mouse_step(c, pinned, r, delay_ms).0.visuals.pre_capture,
    ensures
        ({
            let n = mouse_step(c, pinned, r, delay_ms).0;
            &&& r.aims_at_capture
            &&& n.state == InteractionState::PreCapture
            &&& n.pre_capture_since_ms matches Some(since) && r.t_ms.saturating_sub(since) >= delay_ms / 4
        }),
{
}

/// A reading inside the widget keeps a capture and resets the release count.
pub proof fn lemma_capture_survives_return(c: InteractionCore, r: PointerReading, delay_ms: u64)
    requires
        c.state == InteractionState::Captured,
        c.evasion_enabled,
        r.near_widget,
    ensures
        mouse_step(c, false, r, delay_ms) == (
        InteractionCore { outside_capture_ticks: 0, ..c }, Seq::<ControlSignal>::empty(), false),
{
}

/// Capture hysteresis: while the pointer stays away from the widget, a capture
/// holds for fewer than `CAPTURE_RELEASE_TICKS` consecutive samples (counting
/// those already seen), and is released to idle at exactly that many.
pub proof fn lemma_capture_hysteresis(c: InteractionCore, rs: Seq<PointerReading>, delay_ms: u64)
    requires
        core_wf(c),
        c.state == InteractionState::Captured,
        c.evasion_enabled,
        c.outside_capture_ticks + rs.len() <= CAPTURE_RELEASE_TICKS,
        forall|i: int| 0 <= i < rs.len() ==> !(#[trigger] rs[i]).near_widget,
    ensures
        c.outside_capture_ticks + rs.len() < CAPTURE_RELEASE_TICKS ==> run(c, false, rs, delay_ms)
            == (InteractionCore {
            outside_capture_ticks: (c.outside_capture_ticks + rs.len()) as u32,
            ..c
        }),
        c.outside_capture_ticks + rs.len() == CAPTURE_RELEASE_TICKS ==> {
            let e = run(c, false, rs, delay_ms);
            &&& e.state == InteractionState::Idle
            &&& e.outside_capture_ticks == 0
            &&& !e.visuals.pre_capture
        },
        !run_repels(c, false, rs, delay_ms),
    decreases rs.len(),
{
    if rs.len() > 0 {
        let n = mouse_step(c, false, rs[0], delay_ms).0;
        let rest = rs.drop_first();
        assert forall|i: int| 0 <= i < rest.len() implies !(#[trigger] rest[i]).near_widget by {
            assert(rest[i] == rs[i + 1]);
        }
        if c.outside_capture_ticks + 1 < CAPTURE_RELEASE_TICKS {
            lemma_capture_hysteresis(n, rest, delay_ms);
        } else {
            assert(rest.len() == 0);
            assert(run(n, false, rest, delay_ms) == n);
            assert(!run_repels(n, false, rest, delay_ms));
        }
    }
}

/// A free machine (not dragged, pinned or captured, evasion on) whose pointer
/// is outside the capture circle and beyond the widget's influence becomes
/// idle, whatever its state was: nothing moves, the pre-capture hint goes off
/// (reported when it was on), and the release count is untouched.
pub proof fn lemma_beyond_influence_idles(c: InteractionCore, r: PointerReading, delay_ms: u64)
    requires
        c.state != InteractionState::Dragging,
        c.state != InteractionState::Pinned,
        c.state != InteractionState::Captured,
        c.evasion_enabled,
        !r.in_capture,
        r.beyond_influence,
    ensures
        ({
            let (n, s, repel) = mouse_step(c, false, r, delay_ms);
            &&& n.state == InteractionState::Idle
            &&& !repel
            &&& !n.visuals.pre_capture
            &&& n.evasion_enabled
            &&& n.outside_capture_ticks == c.outside_capture_ticks
            &&& s == (if c.visuals.pre_capture {
                seq![ControlSignal::SetVisual { pre_capture: false }]
            } else {
                Seq::<ControlSignal>::empty()
            })
        }),
{
}

/// From a fresh capture, 17 consecutive samples away from the widget keep the
/// capture and the 18th releases it to idle.
pub proof fn lemma_capture_released_at_eighteenth_sample(c: InteractionCore, rs: Seq<PointerReading>, delay_ms: u64)
    requires
        c.state == InteractionState::Captured,
        c.evasion_enabled,
        c.outside_capture_ticks == 0,
        rs.len() == 18,
        forall|i: int| 0 <= i < rs.len() ==> !(#[trigger] rs[i]).near_widget,
    ensures
        run(c, false, rs.take(17), delay_ms).state == InteractionState::Captured,
        run(c, false, rs, delay_ms).state == InteractionState::Idle,
{
    let first = rs.take(17);
    assert forall|i: int| 0 <= i < first.len() implies !(#[trigger] first[i]).near_widget by {
        assert(first[i] == rs[i]);
    }
    lemma_capture_hysteresis(c, first, delay_ms);
    lemma_capture_hysteresis(c, rs, delay_ms);
}

} // verus!
