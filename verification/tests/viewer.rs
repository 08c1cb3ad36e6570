use bgjobs::keys::{Key, KeyConfig};
use bgjobs::notification::Notification;
use bgjobs::single_job::{JobOutput, SyntaxText};
use bgjobs::syntax_text::{EventState, FileContent, InputEvent, SyntaxTextComponent};

fn keys() -> KeyConfig {
    KeyConfig { move_down: Key { code: 1 }, move_up: Key { code: 2 } }
}

fn highlight_of(path: &str) -> JobOutput {
    JobOutput {
        path: path.to_string(),
        text: Some(SyntaxText { path: path.to_string(), styled: format!("hl {}", path) }),
    }
}

#[test]
fn staleness_guard() {
    let mut c = SyntaxTextComponent::new(keys());
    let wa = c.load_file("a".to_string(), Ok("content a".to_string())).unwrap();
    let _wb = c.load_file("b".to_string(), Ok("content b".to_string())).unwrap();
    // the job spawned for a completes only now, after b took the display
    c.async_highlighting.complete(wa.ticket, highlight_of("a"));
    c.update(Notification::SyntaxHighlighting);
    assert_eq!(
        c.current_file,
        Some(("b".to_string(), FileContent::RawText("content b".to_string())))
    );
}

#[test]
fn fresh_result_applies() {
    let mut c = SyntaxTextComponent::new(keys());
    let w = c.load_file("a".to_string(), Ok("content a".to_string())).unwrap();
    assert_eq!(w.job.content, "content a");
    assert_eq!(w.job.path, "a");
    c.async_highlighting.complete(w.ticket, highlight_of("a"));
    c.update(Notification::SyntaxHighlighting);
    match &c.current_file {
        Some((p, FileContent::HighlightedText(s))) => {
            assert_eq!(p, "a");
            assert_eq!(s.path, "a");
            assert_eq!(s.styled, "hl a");
        }
        other => panic!("expected highlighted text for a, got {:?}", other),
    }
}

#[test]
fn idempotent_reload() {
    let mut c = SyntaxTextComponent::new(keys());
    let w1 = c.load_file("a".to_string(), Ok("one".to_string()));
    assert!(w1.is_some());
    let w2 = c.load_file("a".to_string(), Ok("two".to_string()));
    assert!(w2.is_none());
    assert_eq!(
        c.current_file,
        Some(("a".to_string(), FileContent::RawText("one".to_string())))
    );
    // no second job was spawned
    assert_eq!(c.async_highlighting.next_ticket, 1);
}

#[test]
fn fetch_error_shown_inline() {
    let mut c = SyntaxTextComponent::new(keys());
    let w = c.load_file("x".to_string(), Err("disk gone".to_string()));
    assert!(w.is_none());
    assert!(!c.any_work_pending());
    assert_eq!(
        c.current_file,
        Some(("x".to_string(), FileContent::RawText("error loading file: disk gone".to_string())))
    );
}

#[test]
fn no_highlight_available_keeps_raw() {
    let mut c = SyntaxTextComponent::new(keys());
    let w = c.load_file("a".to_string(), Ok("raw".to_string())).unwrap();
    c.async_highlighting.complete(w.ticket, JobOutput { path: "a".to_string(), text: None });
    c.update(Notification::SyntaxHighlighting);
    assert_eq!(
        c.current_file,
        Some(("a".to_string(), FileContent::RawText("raw".to_string())))
    );
}

#[test]
fn unrelated_notification_leaves_slot_alone() {
    let mut c = SyntaxTextComponent::new(keys());
    let w = c.load_file("a".to_string(), Ok("raw".to_string())).unwrap();
    c.async_highlighting.complete(w.ticket, highlight_of("a"));
    c.update(Notification::OtherBackgroundWork);
    // the slot was not consumed and the display is still raw
    assert!(c.async_highlighting.last_result.is_some());
    assert_eq!(
        c.current_file,
        Some(("a".to_string(), FileContent::RawText("raw".to_string())))
    );
}

#[test]
fn clear_keeps_job_running_and_guard_drops_result() {
    let mut c = SyntaxTextComponent::new(keys());
    let w = c.load_file("a".to_string(), Ok("raw".to_string())).unwrap();
    c.clear();
    assert_eq!(c.current_file, None);
    // clearing cancels nothing
    assert!(c.any_work_pending());
    c.async_highlighting.complete(w.ticket, highlight_of("a"));
    c.update(Notification::SyntaxHighlighting);
    assert_eq!(c.current_file, None);
}

#[test]
fn scroll_saturation() {
    let mut c = SyntaxTextComponent::new(keys());
    // one scroll up from zero stays at zero
    let r = c.event(InputEvent::Key(Key { code: 2 }));
    assert_eq!(r, EventState::NotConsumed);
    assert_eq!(c.scroll_top, 0);
    // five down, three up lands on two
    for _ in 0..5 {
        c.event(InputEvent::Key(Key { code: 1 }));
    }
    for _ in 0..3 {
        c.event(InputEvent::Key(Key { code: 2 }));
    }
    assert_eq!(c.scroll_top, 2);
    // unbound keys and non-key events change nothing
    c.event(InputEvent::Key(Key { code: 99 }));
    c.event(InputEvent::Other);
    assert_eq!(c.scroll_top, 2);
}

#[test]
fn loaded_query_matches_display() {
    let mut c = SyntaxTextComponent::new(keys());
    assert!(!c.is_file_loaded(&"a".to_string()));
    c.load_file("a".to_string(), Ok("raw".to_string()));
    assert!(c.is_file_loaded(&"a".to_string()));
    assert!(!c.is_file_loaded(&"b".to_string()));
    c.clear();
    assert!(!c.is_file_loaded(&"a".to_string()));
}
