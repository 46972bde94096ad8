use jade::functions::partition::{create_partitions, mount_disks};
use jade::run::{Run, Status};
use jade::step::Step;

fn perform(plan: Vec<Step>, fail_at: Option<usize>) -> (Vec<Step>, Run) {
    let mut run = Run::new(plan);
    let mut fired = Vec::new();
    while let Some(step) = run.next() {
        fired.push(step.clone());
        let ok = fail_at != Some(fired.len() - 1);
        run.report(ok);
    }
    (fired, run)
}

#[test]
fn run_hands_out_every_step_in_order() {
    let plan = mount_disks(true, false);
    let (fired, run) = perform(plan.clone(), None);
    assert_eq!(fired, plan);
    assert_eq!(run.status(), Status::Finished);
    assert_eq!(run.failure(), None);
}

#[test]
fn run_stops_at_the_failing_step() {
    let plan = mount_disks(true, true);
    for at in 0..plan.len() {
        let (fired, run) = perform(plan.clone(), Some(at));
        assert_eq!(fired, plan[..=at].to_vec());
        assert_eq!(run.status(), Status::Aborted);
        assert_eq!(run.failure(), Some(&plan[at]));
        assert_eq!(run.next(), None);
    }
}

#[test]
fn reports_after_a_failure_change_nothing() {
    let plan = create_partitions("/dev/sda", true);
    let mut run = Run::new(plan.clone());
    assert_eq!(run.status(), Status::Running);
    assert_eq!(run.next(), Some(&plan[0]));
    run.report(true);
    assert_eq!(run.next(), Some(&plan[1]));
    run.report(false);
    assert_eq!(run.next(), None);
    for outcome in [true, true, false, true] {
        run.report(outcome);
        assert_eq!(run.next(), None);
        assert_eq!(run.status(), Status::Aborted);
        assert_eq!(run.failure(), Some(&plan[1]));
    }
}

#[test]
fn empty_run_is_finished_at_once() {
    let mut run = Run::new(Vec::new());
    assert_eq!(run.status(), Status::Finished);
    assert_eq!(run.next(), None);
    run.report(false);
    assert_eq!(run.status(), Status::Finished);
    assert_eq!(run.failure(), None);
}
