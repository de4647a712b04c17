use heyo::event::{Event, KeyCode};
use heyo::mux::{Multiplexer, Next};

fn label(event: &Event) -> String {
    match event {
        Event::KeyPress(KeyCode::Char(c)) => format!("key {}", c),
        Event::KeyPress(_) => "key".to_string(),
        Event::Tick => "tick".to_string(),
        Event::ProcessOutputLine(text) => format!("line {}", text),
        Event::ProcessExited => "exited".to_string(),
    }
}

#[test]
fn delivers_in_order_of_arrival() {
    let mut mux = Multiplexer::new();
    assert!(mux.is_empty());
    assert!(mux.send(0, Event::Tick));
    assert!(mux.send(1, Event::ProcessOutputLine("a".to_string())));
    assert!(mux.send(2, Event::KeyPress(KeyCode::Char('q'))));
    assert!(mux.send(1, Event::ProcessOutputLine("b".to_string())));
    assert_eq!(mux.len(), 4);
    let mut seen = Vec::new();
    while let Some(envelope) = mux.receive() {
        seen.push((envelope.source, label(&envelope.event)));
    }
    assert_eq!(
        seen,
        vec![
            (0, "tick".to_string()),
            (1, "line a".to_string()),
            (2, "key q".to_string()),
            (1, "line b".to_string()),
        ]
    );
    assert!(mux.is_empty());
    assert!(mux.receive().is_none());
}

#[test]
fn simultaneous_ticks_are_not_merged() {
    let mut mux = Multiplexer::new();
    mux.send(0, Event::Tick);
    mux.send(3, Event::Tick);
    mux.send(0, Event::Tick);
    assert_eq!(mux.len(), 3);
    let sources: Vec<u32> = std::iter::from_fn(|| mux.receive()).map(|e| e.source).collect();
    assert_eq!(sources, vec![0, 3, 0]);
}

#[test]
fn per_source_order_is_kept_when_sends_and_receives_interleave() {
    let mut mux = Multiplexer::new();
    let mut delivered = Vec::new();
    mux.send(1, Event::ProcessOutputLine("1".to_string()));
    mux.send(2, Event::Tick);
    delivered.push(mux.receive().map(|e| (e.source, label(&e.event))));
    mux.send(1, Event::ProcessOutputLine("2".to_string()));
    delivered.push(mux.receive().map(|e| (e.source, label(&e.event))));
    mux.send(1, Event::ProcessOutputLine("3".to_string()));
    delivered.push(mux.receive().map(|e| (e.source, label(&e.event))));
    delivered.push(mux.receive().map(|e| (e.source, label(&e.event))));
    delivered.push(mux.receive().map(|e| (e.source, label(&e.event))));
    let from_one: Vec<String> =
        delivered.iter().flatten().filter(|(s, _)| *s == 1).map(|(_, l)| l.clone()).collect();
    assert_eq!(from_one, vec!["line 1", "line 2", "line 3"]);
    assert_eq!(delivered.iter().flatten().count(), 4);
    assert_eq!(delivered[4], None);
}

#[test]
fn closed_multiplexer_refuses_sends_and_still_drains() {
    let mut mux = Multiplexer::new();
    assert!(!mux.is_closed());
    assert!(mux.send(0, Event::ProcessExited));
    mux.close();
    assert!(mux.is_closed());
    assert!(!mux.send(0, Event::Tick));
    assert_eq!(mux.len(), 1);
    assert_eq!(mux.receive().map(|e| label(&e.event)), Some("exited".to_string()));
    assert!(mux.receive().is_none());
}

#[test]
fn poll_tells_waiting_from_done() {
    let mut mux = Multiplexer::new();
    assert!(matches!(mux.poll(), Next::Wait));
    mux.send(4, Event::Tick);
    match mux.poll() {
        Next::Event(envelope) => {
            assert_eq!(envelope.source, 4);
            assert_eq!(label(&envelope.event), "tick");
        }
        _ => panic!("a pending envelope was not delivered"),
    }
    assert!(matches!(mux.poll(), Next::Wait));
    mux.send(5, Event::ProcessExited);
    mux.close();
    assert!(matches!(mux.poll(), Next::Event(_)));
    assert!(matches!(mux.poll(), Next::Done));
    assert!(matches!(mux.poll(), Next::Done));
}
