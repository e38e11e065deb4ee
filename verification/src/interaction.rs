//! The interaction state machine of the floating note.
//!
//! Geometry is measured by the host in physical pixels; what the machine reads of
//! each pointer sample is the set of yes/no facts in [`PointerReading`], and what
//! it answers is a [`MouseDecision`]: the signals for the native adapter and
//! whether the widget has to be pushed away from the pointer.
use vstd::prelude::*;

verus! {

/// Number of consecutive samples with the pointer away from the widget after
/// which a capture is released.
pub const CAPTURE_RELEASE_TICKS: u32 = 18;

/// Phase of the interaction state machine.
#[derive(Debug, Clone, Copy, PartialEq, Eq, Structural)]
pub enum InteractionState {
    Idle,
    Evaluating,
    PreCapture,
    Captured,
    Repelling,
    Dragging,
    Pinned,
}

/// Visual hints shown by the widget.
#[derive(Debug, Clone, Copy, PartialEq, Eq, Structural)]
pub struct VisualHints {
    pub pre_capture: bool,
}

impl Default for VisualHints {
    fn default() -> (v: Self)
        ensures
            !v.pre_capture,
    {
        VisualHints { pre_capture: false }
    }
}

/// A command for the native adapter that carries no geometry.
#[derive(Debug, Clone, Copy, PartialEq, Eq, Structural)]
pub enum ControlSignal {
    SetVisual { pre_capture: bool },
    RequestFocus,
}

/// What the machine needs to know of one pointer sample.
#[derive(Debug, Clone, Copy, PartialEq, Eq, Structural)]
pub struct PointerReading {
    /// Time stamp of the sample in milliseconds.
    pub t_ms: u64,
    /// The sample lies in the capture circle around the widget's center.
    pub in_capture: bool,
    /// The previous sample lay in the capture circle (false when there was none).
    pub was_in_capture: bool,
    /// The sample lies in the widget's rectangle grown by the capture margin.
    pub near_widget: bool,
    /// The sample lies farther from the widget's center than its influence reaches.
    pub beyond_influence: bool,
    /// The pointer moves slower than the stillness threshold.
    pub nearly_still: bool,
    /// The pointer's direction of travel leads into the capture circle.
    pub aims_at_capture: bool,
}

/// The answer of the machine to one pointer sample.
pub struct MouseDecision {
    /// Signals for the native adapter, in order.
    pub signals: Vec<ControlSignal>,
    /// The widget must be pushed away from the pointer.
    pub repel: bool,
}

/// The discrete part of the interaction controller.
#[derive(Debug, Clone, Copy, PartialEq, Eq, Structural)]
pub struct InteractionCore {
    pub state: InteractionState,
    pub visuals: VisualHints,
    pub evasion_enabled: bool,
    /// Time at which the pointer started aiming at the capture surface.
    pub pre_capture_since_ms: Option<u64>,
    /// Consecutive samples with the pointer outside the widget while captured.
    pub outside_capture_ticks: u32,
}

/// The machine's state is well formed: the release counter stays below the
/// release threshold.
pub open spec fn core_wf(c: InteractionCore) -> bool {
    c.outside_capture_ticks < CAPTURE_RELEASE_TICKS
}

/// The machine as it is created for a widget that is pinned or not.
pub open spec fn initial_core(pinned: bool) -> InteractionCore {
    InteractionCore {
        state: if pinned { InteractionState::Pinned } else { InteractionState::Idle },
        visuals: VisualHints { pre_capture: false },
        evasion_enabled: true,
        pre_capture_since_ms: None,
        outside_capture_ticks: 0,
    }
}

/// The pre-capture hint switched off, with the signal that reports it when it was on.
pub open spec fn hint_off(c: InteractionCore) -> (InteractionCore, Seq<ControlSignal>) {
    if c.visuals.pre_capture {
        (
            InteractionCore { visuals: VisualHints { pre_capture: false }, ..c },
            seq![ControlSignal::SetVisual { pre_capture: false }],
        )
    } else {
        (c, Seq::empty())
    }
}

/// One step of the machine on a pointer sample: the next state, the signals in
/// order, and whether the widget is pushed away.
///
/// `pinned` is the pin flag of the widget's pose; `delay_ms` is the pre-capture
/// delay, of which a quarter must pass while aiming before the hint shows.
pub open spec fn mouse_step(
    c: InteractionCore,
    pinned: bool,
    r: PointerReading,
    delay_ms: u64,
) -> (InteractionCore, Seq<ControlSignal>, bool) {
    if c.state == InteractionState::Dragging {
        (c, Seq::empty(), false)
    } else if pinned || c.state == InteractionState::Pinned {
        (
            InteractionCore { state: InteractionState::Pinned, ..c },
            if r.in_capture && !r.was_in_capture {
                seq![ControlSignal::RequestFocus]
            } else {
                Seq::empty()
            },
            false,
        )
    } else if !c.evasion_enabled {
        (c, Seq::empty(), false)
    } else if c.state == InteractionState::Captured {
        if r.near_widget {
            (InteractionCore { outside_capture_ticks: 0, ..c }, Seq::empty(), false)
        } else {
            let ticks = c.outside_capture_ticks.saturating_add(1);
            if ticks >= CAPTURE_RELEASE_TICKS {
                let (h, s) = hint_off(c);
                (
                    InteractionCore {
                        state: InteractionState::Idle,
                        outside_capture_ticks: 0,
                        ..h
                    },
                    s,
                    false,
                )
            } else {
                (InteractionCore { outside_capture_ticks: ticks, ..c }, Seq::empty(), false)
            }
        }
    } else if r.in_capture {
        let (h, s) = hint_off(c);
        (
            InteractionCore {
                state: InteractionState::Captured,
                outside_capture_ticks: 0,
                pre_capture_since_ms: None,
                ..h
            },
            s.push(ControlSignal::RequestFocus),
            false,
        )
    } else if r.beyond_influence {
        if c.visuals.pre_capture {
            (
                InteractionCore {
                    state: InteractionState::Idle,
                    visuals: VisualHints { pre_capture: false },
                    pre_capture_since_ms: None,
                    ..c
                },
                seq![ControlSignal::SetVisual { pre_capture: false }],
                false,
            )
        } else {
            (InteractionCore { state: InteractionState::Idle, ..c }, Seq::empty(), false)
        }
    } else if r.nearly_still {
        (
            InteractionCore {
                state: if c.visuals.pre_capture {
                    InteractionState::Evaluating
                } else {
                    InteractionState::Idle
                },
                ..c
            },
            Seq::empty(),
            false,
        )
    } else if r.aims_at_capture {
        let since = match c.pre_capture_since_ms {
            Some(s) => s,
            None => r.t_ms,
        };
        let show = !c.visuals.pre_capture && r.t_ms.saturating_sub(since) >= delay_ms / 4;
        (
            InteractionCore {
                state: InteractionState::PreCapture,
                pre_capture_since_ms: Some(since),
                visuals: VisualHints { pre_capture: c.visuals.pre_capture || show },
                ..c
            },
            if show {
                seq![ControlSignal::SetVisual { pre_capture: true }]
            } else {
                Seq::empty()
            },
            false,
        )
    } else {
        let (h, s) = hint_off(c);
        (
            InteractionCore {
                state: InteractionState::Repelling,
                pre_capture_since_ms: None,
                ..h
            },
            s,
            true,
        )
    }
}

impl InteractionCore {
    /// The machine for a new widget: pinned widgets start pinned, others idle.
    pub fn new(pinned: bool) -> (c: Self)
        ensures
            c == initial_core(pinned),
            core_wf(c),
    {
        InteractionCore {
            state: if pinned { InteractionState::Pinned } else { InteractionState::Idle },
            visuals: VisualHints { pre_capture: false },
            evasion_enabled: true,
            pre_capture_since_ms: None,
            outside_capture_ticks: 0,
        }
    }

    /// Whether the host's move target follows the real window position: it does
    /// unless the widget is being pushed away.
    pub fn follows_window(&self) -> (r: bool)
        ensures
            r == (self.state != InteractionState::Repelling),
    {
        self.state != InteractionState::Repelling
    }

    /// Pin or unpin the widget. Pinning clears the pre-capture hint; unpinning
    /// a pinned machine makes it idle.
    pub fn set_pinned(&mut self, pinned: bool)
        ensures
            pinned ==> *final(self) == (InteractionCore {
                state: InteractionState::Pinned,
                visuals: VisualHints { pre_capture: false },
                pre_capture_since_ms: None,
                ..*old(self)
            }),
            !pinned && old(self).state == InteractionState::Pinned ==> *final(self) == (
            InteractionCore { state: InteractionState::Idle, ..*old(self) }),
            !pinned && old(self).state != InteractionState::Pinned ==> *final(self) == *old(self),
            core_wf(*old(self)) ==> core_wf(*final(self)),
    {
        if pinned {
            self.state = InteractionState::Pinned;
            self.visuals.pre_capture = false;
            self.pre_capture_since_ms = None;
        } else if self.state == InteractionState::Pinned {
            self.state = InteractionState::Idle;
        }
    }

    /// Start a drag by the user: every pointer sample is ignored until the drag ends.
    pub fn begin_drag(&mut self)
        ensures
            *final(self) == (InteractionCore {
                state: InteractionState::Dragging,
                visuals: VisualHints { pre_capture: false },
                pre_capture_since_ms: None,
                outside_capture_ticks: 0,
                ..*old(self)
            }),
            core_wf(*final(self)),
    {
        self.state = InteractionState::Dragging;
        self.visuals.pre_capture = false;
        self.pre_capture_since_ms = None;
        self.outside_capture_ticks = 0;
    }

    /// End a drag: the machine is pinned if the widget is, idle otherwise.
    pub fn end_drag(&mut self, pinned: bool)
        ensures
            *final(self) == (InteractionCore {
                state: if pinned { InteractionState::Pinned } else { InteractionState::Idle },
                ..*old(self)
            }),
            core_wf(*old(self)) ==> core_wf(*final(self)),
    {
        self.state = if pinned {
            InteractionState::Pinned
        } else {
            InteractionState::Idle
        };
    }

    fn clear_hint(&mut self, signals: &mut Vec<ControlSignal>)
        ensures
            *final(self) == hint_off(*old(self)).0,
            final(signals)@ == old(signals)@ + hint_off(*old(self)).1,
    {
        if self.visuals.pre_capture {
            self.visuals.pre_capture = false;
            signals.push(ControlSignal::SetVisual { pre_capture: false });
        }
    }

    /// One tick of the machine on a pointer sample.
    pub fn on_mouse(&mut self, pinned: bool, reading: PointerReading, pre_capture_delay_ms: u64) -> (d:
        MouseDecision)
        ensures
            ({
                let (c, s, repel) = mouse_step(*old(self), pinned, reading, pre_capture_delay_ms);
                &&& *final(self) == c
                &&& d.signals@ == s
                &&& d.repel == repel
            }),
            core_wf(*old(self)) ==> core_wf(*final(self)),
    {
        let mut signals: Vec<ControlSignal> = Vec::new();
        if self.state == InteractionState::Dragging {
            return MouseDecision { signals, repel: false };
        }
        if pinned || self.state == InteractionState::Pinned {
            self.state = InteractionState::Pinned;
            if reading.in_capture && !reading.was_in_capture {
                signals.push(ControlSignal::RequestFocus);
            }
            return MouseDecision { signals, repel: false };
        }
        if !self.evasion_enabled {
            return MouseDecision { signals, repel: false };
        }
        if self.state == InteractionState::Captured {
            if reading.near_widget {
                self.outside_capture_ticks = 0;
            } else {
                self.outside_capture_ticks = self.outside_capture_ticks.saturating_add(1);
                if self.outside_capture_ticks >= CAPTURE_RELEASE_TICKS {
                    self.state = InteractionState::Idle;
                    self.outside_capture_ticks = 0;
                    self.clear_hint(&mut signals);
                }
            }
            return MouseDecision { signals, repel: false };
        }
        if reading.in_capture {
            self.state = InteractionState::Captured;
            self.outside_capture_ticks = 0;
            self.pre_capture_since_ms = None;
            self.clear_hint(&mut signals);
            signals.push(ControlSignal::RequestFocus);
            return MouseDecision { signals, repel: false };
        }
        if reading.beyond_influence {
            self.state = InteractionState::Idle;
            if self.visuals.pre_capture {
                self.visuals.pre_capture = false;
                self.pre_capture_since_ms = None;
                signals.push(ControlSignal::SetVisual { pre_capture: false });
            }
            return MouseDecision { signals, repel: false };
        }
        self.state = InteractionState::Evaluating;
        if reading.nearly_still {
            if !self.visuals.pre_capture {
                self.state = InteractionState::Idle;
            }
            return MouseDecision { signals, repel: false };
        }
        if reading.aims_at_capture {
            let since = match self.pre_capture_since_ms {
                Some(s) => s,
                None => reading.t_ms,
            };
            self.pre_capture_since_ms = Some(since);
            self.state = InteractionState::PreCapture;
            if !self.visuals.pre_capture && reading.t_ms.saturating_sub(since)
                >= pre_capture_delay_ms / 4 {
                self.visuals.pre_capture = true;
                signals.push(ControlSignal::SetVisual { pre_capture: true });
            }
            return MouseDecision { signals, repel: false };
        }
        self.pre_capture_since_ms = None;
        self.clear_hint(&mut signals);
        self.state = InteractionState::Repelling;
        MouseDecision { signals, repel: true }
    }
}

} // verus!
