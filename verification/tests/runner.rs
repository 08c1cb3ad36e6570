use bgjobs::notification::Notification;
use bgjobs::single_job::{AsyncSingleJob, Job, JobOutput, SyntaxText};

fn job(path: &str) -> Job {
    Job { content: format!("text of {}", path), path: path.to_string() }
}

fn output(path: &str) -> JobOutput {
    JobOutput {
        path: path.to_string(),
        text: Some(SyntaxText { path: path.to_string(), styled: format!("styled {}", path) }),
    }
}

#[test]
fn single_flight_last_write_wins() {
    let mut runner = AsyncSingleJob::new(Notification::SyntaxHighlighting);
    let w1 = runner.spawn(job("a"));
    let w2 = runner.spawn(job("b"));
    assert!(runner.is_pending());
    // the superseded worker finishes first; the tracked one is still in flight
    let n = runner.complete(w1.ticket, output("a"));
    assert_eq!(n, Notification::SyntaxHighlighting);
    assert!(runner.is_pending());
    runner.complete(w2.ticket, output("b"));
    assert!(!runner.is_pending());
    // the slot holds the chronologically last write, whole
    assert_eq!(runner.take_last_result(), Some(output("b")));
    assert_eq!(runner.take_last_result(), None);
}

#[test]
fn slow_superseded_worker_wins_slot_but_component_guards() {
    // if the abandoned worker lands last, the slot holds its output —
    // rejecting it is the consumer's staleness guard, not the runner's job
    let mut runner = AsyncSingleJob::new(Notification::SyntaxHighlighting);
    let w1 = runner.spawn(job("a"));
    let w2 = runner.spawn(job("b"));
    runner.complete(w2.ticket, output("b"));
    runner.complete(w1.ticket, output("a"));
    assert_eq!(runner.take_last_result(), Some(output("a")));
}

#[test]
fn consume_once() {
    let mut runner = AsyncSingleJob::new(Notification::SyntaxHighlighting);
    let w = runner.spawn(job("a"));
    runner.complete(w.ticket, output("a"));
    assert_eq!(runner.take_last_result(), Some(output("a")));
    assert_eq!(runner.take_last_result(), None);
}

#[test]
fn take_without_any_spawn_is_none() {
    let mut runner = AsyncSingleJob::new(Notification::SyntaxHighlighting);
    assert_eq!(runner.take_last_result(), None);
    assert!(!runner.is_pending());
}

#[test]
fn spawn_replaces_tracking() {
    let mut runner = AsyncSingleJob::new(Notification::SyntaxHighlighting);
    let w1 = runner.spawn(job("a"));
    // completing the old ticket after a new spawn keeps the new one pending
    let _w2 = runner.spawn(job("b"));
    runner.complete(w1.ticket, output("a"));
    assert!(runner.is_pending());
}
