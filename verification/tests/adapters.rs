use heyo::adapters::{read_event, without_line_ending};
use heyo::event::Event;

fn line_of(event: Event) -> Option<String> {
    match event {
        Event::ProcessOutputLine(text) => Some(text),
        _ => None,
    }
}

#[test]
fn line_endings_are_removed() {
    assert_eq!(without_line_ending("hello\n"), "hello");
    assert_eq!(without_line_ending("hello\r\n"), "hello");
    assert_eq!(without_line_ending("hello"), "hello");
    assert_eq!(without_line_ending("\n"), "");
    assert_eq!(without_line_ending("\r\n"), "");
    assert_eq!(without_line_ending(""), "");
}

#[test]
fn only_the_closing_line_ending_is_removed() {
    assert_eq!(without_line_ending("a\n\n"), "a\n");
    assert_eq!(without_line_ending("a\r"), "a\r");
    assert_eq!(without_line_ending("a\n\r"), "a\n\r");
    assert_eq!(without_line_ending("a\r\r\n"), "a\r");
    assert_eq!(without_line_ending("ü\r\n"), "ü");
}

#[test]
fn end_of_stream_means_the_process_is_gone() {
    assert!(matches!(read_event(0, ""), Event::ProcessExited));
    assert!(matches!(read_event(0, "ignored"), Event::ProcessExited));
}

#[test]
fn a_read_line_is_an_output_line() {
    assert_eq!(line_of(read_event(6, "hello\n")), Some("hello".to_string()));
    assert_eq!(line_of(read_event(1, "\n")), Some(String::new()));
    assert_eq!(line_of(read_event(3, "eof")), Some("eof".to_string()));
}
