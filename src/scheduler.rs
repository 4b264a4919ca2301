//! Frame pacing: which event starts a sample, draw and present cycle, so that
//! at most one cycle is ever in flight.
use crate::framebuffer::Geometry;
use vstd::prelude::*;

verus! {

/// Where the scheduler stands.
#[derive(Clone, Copy, Debug, PartialEq, Eq)]
pub enum Phase {
    /// No frame in flight; waiting to be configured.
    Idle,
    /// A sample, draw and present cycle is running.
    Rendering,
    /// A frame was handed off; waiting for the compositor to consume it.
    AwaitingPresentation,
}

/// What can happen to the scheduler.
#[derive(Clone, Copy, Debug, PartialEq, Eq)]
pub enum Event {
    /// The compositor set the surface's logical size.
    Configure { width: u32, height: u32 },
    /// The output's scale factor changed.
    Rescale { factor: i32 },
    /// The running cycle ended, whether it presented a frame or failed.
    CycleDone,
    /// The compositor consumed the last frame: another one may come.
    Consumed,
}

/// What the caller has to do next.
#[derive(Clone, Copy, Debug, PartialEq, Eq)]
pub enum Action {
    /// Nothing.
    Wait,
    /// Sample, draw and present a frame of this geometry, then report
    /// `CycleDone`.
    Render(Geometry),
    /// Wait out the pacing interval, then register for the compositor's next
    /// readiness signal.
    PaceThenArm,
}

/// The scheduler's state: its phase, the geometry the next frame gets, and
/// whether the compositor has configured the surface yet.
#[derive(Clone, Copy, Debug, PartialEq, Eq)]
pub struct Scheduler {
    pub phase: Phase,
    pub geometry: Geometry,
    pub configured: bool,
}

/// The state that starting a cycle leaves, and the action that starts it.
pub open spec fn start_cycle(s: Scheduler) -> (Scheduler, Action) {
    (Scheduler { phase: Phase::Rendering, ..s }, Action::Render(s.geometry))
}

/// The transition for event `e` in state `s`. A size or scale change starts a
/// cycle when idle and configured, and is otherwise kept for the next one; the
/// end of a cycle leads to waiting for presentation; the compositor's
/// consumption of the frame ends that wait and starts the next cycle. Events
/// that come in any other phase are dropped.
pub open spec fn next(s: Scheduler, e: Event) -> (Scheduler, Action) {
    match e {
        Event::Configure { width, height } => {
            let t = Scheduler {
                geometry: Geometry { width, height, ..s.geometry },
                configured: true,
                ..s
            };
            if s.phase == Phase::Idle {
                start_cycle(t)
            } else {
                (t, Action::Wait)
            }
        },
        Event::Rescale { factor } => {
            let t = Scheduler { geometry: Geometry { scale: factor, ..s.geometry }, ..s };
            if s.phase == Phase::Idle && s.configured {
                start_cycle(t)
            } else {
                (t, Action::Wait)
            }
        },
        Event::CycleDone => {
            if s.phase == Phase::Rendering {
                (Scheduler { phase: Phase::AwaitingPresentation, ..s }, Action::PaceThenArm)
            } else {
                (s, Action::Wait)
            }
        },
        Event::Consumed => {
            if s.phase == Phase::AwaitingPresentation {
                start_cycle(Scheduler { phase: Phase::Idle, ..s })
            } else {
                (s, Action::Wait)
            }
        },
    }
}

/// Only a configured scheduler leaves `Idle`.
pub open spec fn sched_wf(s: Scheduler) -> bool {
    s.phase != Phase::Idle ==> s.configured
}

impl Scheduler {
    /// An idle, unconfigured scheduler with an empty surface at scale one.
    pub fn new() -> (r: Self)
        ensures
            r.phase == Phase::Idle,
            r.geometry == (Geometry { width: 0, height: 0, scale: 1 }),
            !r.configured,
    {
        Scheduler { phase: Phase::Idle, geometry: Geometry { width: 0, height: 0, scale: 1 }, configured: false }
    }

    /// Applies `e` and returns what the caller has to do, as [`next`] states.
    pub fn step(&mut self, e: Event) -> (r: Action)
        ensures
            (*final(self), r) == next(*old(self), e),
    {
        match e {
            Event::Configure { width, height } => {
                self.geometry = Geometry { width, height, scale: self.geometry.scale };
                self.configured = true;
                match self.phase {
                    Phase::Idle => {
                        self.phase = Phase::Rendering;
                        Action::Render(self.geometry)
                    },
                    _ => Action::Wait,
                }
            },
            Event::Rescale { factor } => {
                self.geometry = Geometry { width: self.geometry.width, height: self.geometry.height, scale: factor };
                match self.phase {
                    Phase::Idle => if self.configured {
                        self.phase = Phase::Rendering;
                        Action::Render(self.geometry)
                    } else {
                        Action::Wait
                    },
                    _ => Action::Wait,
                }
            },
            Event::CycleDone => match self.phase {
                Phase::Rendering => {
                    self.phase = Phase::AwaitingPresentation;
                    Action::PaceThenArm
                },
                _ => Action::Wait,
            },
            Event::Consumed => match self.phase {
                Phase::AwaitingPresentation => {
                    self.phase = Phase::Rendering;
                    Action::Render(self.geometry)
                },
                _ => Action::Wait,
            },
        }
    }
}

/// At most one cycle is in flight: a cycle starts only outside `Rendering`,
/// always leads into `Rendering`, and once it has ended nothing but the
/// compositor's consumption of the frame starts the next one. Every step keeps
/// the scheduler well formed.
pub proof fn lemma_one_cycle_in_flight(s: Scheduler, e: Event)
    requires
        sched_wf(s),
    ensures
        sched_wf(next(s, e).0),
        next(s, e).1 is Render ==> s.phase != Phase::Rendering && next(s, e).0.phase
            == Phase::Rendering,
        next(s, e).1 is Render ==> next(s, e).1->Render_0 == next(s, e).0.geometry,
        s.phase == Phase::Rendering ==> !(next(s, e).1 is Render),
        s.phase == Phase::AwaitingPresentation && !(e is Consumed) ==> !(next(s, e).1 is Render)
            && next(s, e).0.phase == Phase::AwaitingPresentation,
{
}

} // verus!
