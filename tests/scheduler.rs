use sysgauge::framebuffer::Geometry;
use sysgauge::scheduler::{Action, Event, Phase, Scheduler};

#[test]
fn initial_configure_runs_one_cycle_until_consumed() {
    let mut s = Scheduler::new();
    let g = Geometry { width: 800, height: 600, scale: 1 };
    assert_eq!(s.step(Event::Rescale { factor: 1 }), Action::Wait);
    assert_eq!(s.phase, Phase::Idle);
    assert_eq!(s.step(Event::Configure { width: 800, height: 600 }), Action::Render(g));
    assert_eq!(s.phase, Phase::Rendering);
    assert_eq!(s.step(Event::Configure { width: 800, height: 600 }), Action::Wait);
    assert_eq!(s.step(Event::CycleDone), Action::PaceThenArm);
    assert_eq!(s.phase, Phase::AwaitingPresentation);
    assert_eq!(s.step(Event::CycleDone), Action::Wait);
    assert_eq!(s.step(Event::Rescale { factor: 1 }), Action::Wait);
    assert_eq!(s.phase, Phase::AwaitingPresentation);
    assert_eq!(s.step(Event::Consumed), Action::Render(g));
    assert_eq!(s.phase, Phase::Rendering);
}

#[test]
fn readiness_bursts_are_dropped() {
    let mut s = Scheduler::new();
    assert_eq!(s.step(Event::Consumed), Action::Wait);
    s.step(Event::Configure { width: 10, height: 10 });
    assert_eq!(s.step(Event::Consumed), Action::Wait);
    s.step(Event::CycleDone);
    assert!(matches!(s.step(Event::Consumed), Action::Render(_)));
    assert_eq!(s.step(Event::Consumed), Action::Wait);
}

#[test]
fn resize_while_waiting_applies_to_next_cycle() {
    let mut s = Scheduler::new();
    s.step(Event::Configure { width: 800, height: 600 });
    s.step(Event::CycleDone);
    assert_eq!(s.step(Event::Configure { width: 1024, height: 768 }), Action::Wait);
    assert_eq!(s.step(Event::Rescale { factor: 2 }), Action::Wait);
    assert_eq!(
        s.step(Event::Consumed),
        Action::Render(Geometry { width: 1024, height: 768, scale: 2 })
    );
}

#[test]
fn failed_cycle_still_moves_on() {
    let mut s = Scheduler::new();
    s.step(Event::Configure { width: 1, height: 1 });
    // a failed draw reports the end of its cycle like a successful one
    assert_eq!(s.step(Event::CycleDone), Action::PaceThenArm);
    assert_eq!(s.phase, Phase::AwaitingPresentation);
}
