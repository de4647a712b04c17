use heyo::app::{App, InputMode, TickSample};
use heyo::event::{Event, KeyCode};
use heyo::locks::LockRow;
use heyo::process::{ProcessSample, ProcessSummary, BYTES_PER_MEGABYTE};
use heyo::series::Point;

fn row(wait_event: &str, state: &str, query: &str) -> LockRow {
    LockRow {
        wait_event: wait_event.to_string(),
        state: state.to_string(),
        query: query.to_string(),
    }
}

fn cells(rows: &[LockRow]) -> Vec<(String, String, String)> {
    rows.iter()
        .map(|r| (r.wait_event.clone(), r.state.clone(), r.query.clone()))
        .collect()
}

fn quiet_sample() -> TickSample {
    TickSample { process: None, locks: Ok(Vec::new()), elu_ppm: 0 }
}

#[test]
fn fresh_state_holds_placeholders() {
    let app = App::new("npm start");
    assert_eq!(app.cmd, "npm start");
    assert_eq!(app.input_mode, InputMode::Normal);
    assert_eq!(app.logs().len(), 0);
    assert_eq!(app.logs().window_size(), 10);
    assert_eq!(app.process(), ProcessSummary::Fetching);
    assert!(!app.locks().is_failure());
    assert_eq!(app.locks().len(), 0);
    assert_eq!(app.series().latest(), 0);
    assert!(!app.should_exit());
    assert!(app.child_alive());
}

#[test]
fn log_length_counts_output_lines_only() {
    let mut app = App::new("x");
    let events = vec![
        Event::ProcessOutputLine("a".to_string()),
        Event::Tick,
        Event::ProcessOutputLine(String::new()),
        Event::KeyPress(KeyCode::Char('x')),
        Event::ProcessExited,
        Event::ProcessOutputLine(String::new()),
        Event::Tick,
        Event::ProcessOutputLine("b".to_string()),
    ];
    let mut lines = 0;
    for event in events {
        if matches!(event, Event::ProcessOutputLine(_)) {
            lines += 1;
        }
        let needs_sample = app.apply_event(event);
        if needs_sample {
            app.apply_tick(quiet_sample());
        }
        assert_eq!(app.logs().len(), lines);
    }
    assert_eq!(app.logs().len(), 4);
    assert_eq!(app.logs().scroll_position(), 4);
}

#[test]
fn apply_event_asks_for_a_sample_only_on_tick() {
    let mut app = App::new("x");
    assert!(app.apply_event(Event::Tick));
    assert_eq!(app.series().latest(), 0);
    assert!(!app.apply_event(Event::KeyPress(KeyCode::Enter)));
    assert!(!app.apply_event(Event::ProcessOutputLine("l".to_string())));
    assert!(!app.apply_event(Event::ProcessExited));
}

#[test]
fn update_logs_appends_a_line() {
    let mut app = App::new("x");
    app.update_logs("running");
    app.update_logs("");
    assert_eq!(app.logs().len(), 2);
    assert_eq!(app.logs().line(0).map(|s| s.as_str()), Some("running"));
    assert_eq!(app.logs().last().map(|s| s.as_str()), Some(""));
}

#[test]
fn quit_key_sets_the_flag_and_other_keys_do_not() {
    let mut app = App::new("x");
    app.apply_key_press(KeyCode::Char('Q'));
    app.apply_key_press(KeyCode::Esc);
    app.apply_key_press(KeyCode::Other);
    assert!(!app.should_exit());
    app.apply_key_press(KeyCode::Char('q'));
    assert!(app.should_exit());
    app.apply_key_press(KeyCode::Char('a'));
    assert!(app.should_exit());
    assert_eq!(app.input_mode, InputMode::Normal);
}

#[test]
fn failed_poll_becomes_sentinel_and_next_success_replaces_it() {
    let mut app = App::new("x");
    app.apply_tick(TickSample {
        process: None,
        locks: Ok(vec![row("Lock", "active", "select 1")]),
        elu_ppm: 0,
    });
    assert_eq!(app.locks().len(), 1);

    app.apply_tick(TickSample {
        process: None,
        locks: Err("connection refused".to_string()),
        elu_ppm: 0,
    });
    assert!(app.locks().is_failure());
    assert_eq!(app.locks().len(), 1);
    assert_eq!(app.locks().error_message().map(|s| s.as_str()), Some("connection refused"));
    assert_eq!(
        cells(&app.locks().table()),
        vec![("error".to_string(), "error".to_string(), "connection refused".to_string())]
    );

    app.apply_tick(TickSample {
        process: None,
        locks: Ok(vec![row("ClientRead", "idle", "select 2"), row("Lock", "active", "update t")]),
        elu_ppm: 0,
    });
    assert!(!app.locks().is_failure());
    assert!(app.locks().error_message().is_none());
    assert_eq!(
        cells(&app.locks().table()),
        vec![
            ("ClientRead".to_string(), "idle".to_string(), "select 2".to_string()),
            ("Lock".to_string(), "active".to_string(), "update t".to_string()),
        ]
    );
}

#[test]
fn tick_replaces_snapshot_whatever_was_there() {
    let mut a = App::new("x");
    let mut b = App::new("x");
    a.update_lock_snapshot(Ok(vec![row("a", "b", "c"), row("d", "e", "f")]));
    b.update_lock_snapshot(Err("boom".to_string()));
    for app in [&mut a, &mut b] {
        app.apply_tick(TickSample {
            process: None,
            locks: Ok(vec![row("new", "row", "only")]),
            elu_ppm: 1,
        });
    }
    assert_eq!(cells(&a.locks().table()), cells(&b.locks().table()));
    assert_eq!(
        cells(&a.locks().table()),
        vec![("new".to_string(), "row".to_string(), "only".to_string())]
    );
}

#[test]
fn tick_replaces_summary_and_feeds_the_series() {
    let mut app = App::new("x");
    let sample = ProcessSample { pid: 42, memory_bytes: 3 * BYTES_PER_MEGABYTE + 5, cpu_ppm: 125_000 };
    app.apply_tick(TickSample { process: Some(sample), locks: Ok(Vec::new()), elu_ppm: 700_000 });
    assert_eq!(app.process(), ProcessSummary::Known(sample));
    assert_eq!(app.process().sample().map(|s| s.memory_megabytes()), Some(3));
    assert_eq!(app.series().elu_points(), &vec![Point { x: 1, y: 700_000 }]);
    assert_eq!(app.series().cpu_points(), &vec![Point { x: 1, y: 125_000 }]);

    app.apply_tick(TickSample { process: None, locks: Ok(Vec::new()), elu_ppm: 10 });
    assert_eq!(app.process(), ProcessSummary::Fetching);
    assert_eq!(app.series().elu_points()[1], Point { x: 2, y: 10 });
    assert_eq!(app.series().cpu_points()[1], Point { x: 2, y: 0 });
}

#[test]
fn direct_setters() {
    let mut app = App::new("x");
    let sample = ProcessSample { pid: 1, memory_bytes: 0, cpu_ppm: 0 };
    app.update_process_summary(ProcessSummary::Known(sample));
    assert_eq!(app.process(), ProcessSummary::Known(sample));
    app.update_process_summary(ProcessSummary::Fetching);
    assert_eq!(app.process(), ProcessSummary::Fetching);
    app.push_time_series_point(3, 4);
    assert_eq!(app.series().latest(), 1);
    assert_eq!(app.series().elu_points(), &vec![Point { x: 1, y: 3 }]);
    assert_eq!(app.series().cpu_points(), &vec![Point { x: 1, y: 4 }]);
    app.process_exited();
    assert!(!app.child_alive());
}

#[test]
fn process_summary_from_sample() {
    let sample = ProcessSample { pid: 9, memory_bytes: 1_048_575, cpu_ppm: 1 };
    assert_eq!(sample.memory_megabytes(), 0);
    assert_eq!(ProcessSample { pid: 9, memory_bytes: 1_048_576, cpu_ppm: 1 }.memory_megabytes(), 1);
    assert_eq!(ProcessSample { pid: 9, memory_bytes: u64::MAX, cpu_ppm: 1 }.memory_megabytes(), 17_592_186_044_415);
    assert_eq!(ProcessSummary::from_sample(Some(sample)), ProcessSummary::Known(sample));
    assert_eq!(ProcessSummary::from_sample(None), ProcessSummary::Fetching);
    assert_eq!(ProcessSummary::Fetching.sample(), None);
    assert_eq!(ProcessSummary::placeholder_text(), "still fetching...");
}

#[test]
fn missing_utilisation_reading_charts_one_half() {
    assert_eq!(heyo::app::elu_or_fallback(None), 500_000);
    assert_eq!(heyo::app::elu_or_fallback(Some(0)), 0);
    assert_eq!(heyo::app::elu_or_fallback(Some(123_456)), 123_456);
}

#[test]
fn apply_takes_observations_only_for_ticks() {
    let mut app = App::new("x");
    let failing = || TickSample { process: None, locks: Err("down".to_string()), elu_ppm: 9 };
    app.apply(Event::ProcessOutputLine("l".to_string()), failing());
    assert_eq!(app.logs().len(), 1);
    assert!(!app.locks().is_failure());
    assert_eq!(app.series().latest(), 0);
    app.apply(Event::Tick, failing());
    assert!(app.locks().is_failure());
    assert_eq!(app.series().latest(), 1);
    assert_eq!(app.series().elu_points(), &vec![Point { x: 1, y: 9 }]);
    app.apply(Event::KeyPress(KeyCode::Char('q')), failing());
    assert!(app.should_exit());
    assert_eq!(app.series().latest(), 1);
    app.apply(Event::ProcessExited, failing());
    assert!(!app.child_alive());
}
