use vstd::prelude::*;

verus! {

/// The code carried by a key-down event.
#[derive(Clone, Copy, Debug, PartialEq, Eq, Structural)]
pub enum KeyCode {
    Char(char),
    Enter,
    Esc,
    Backspace,
    Tab,
    Other,
}

impl KeyCode {
    /// The key that asks the dashboard to shut down.
    pub open spec fn quits(self) -> bool {
        self == KeyCode::Char('q')
    }

    /// Whether this is the key that asks the dashboard to shut down.
    pub fn is_quit(self) -> (r: bool)
        ensures
            r == self.quits(),
    {
        match self {
            KeyCode::Char(c) => c == 'q',
            _ => false,
        }
    }
}

/// What the event sources report to the render loop.
#[derive(Clone, Debug)]
pub enum Event {
    /// A key went down.
    KeyPress(KeyCode),
    /// A periodic timer fired.
    Tick,
    /// The supervised process wrote a line; the line may be empty.
    ProcessOutputLine(String),
    /// The supervised process ended by itself.
    ProcessExited,
}

/// An event as a plain value.
pub enum EventView {
    KeyPress(KeyCode),
    Tick,
    ProcessOutputLine(Seq<char>),
    ProcessExited,
}

impl View for Event {
    type V = EventView;

    open spec fn view(&self) -> EventView {
        match *self {
            Event::KeyPress(code) => EventView::KeyPress(code),
            Event::Tick => EventView::Tick,
            Event::ProcessOutputLine(text) => EventView::ProcessOutputLine(text@),
            Event::ProcessExited => EventView::ProcessExited,
        }
    }
}

/// How many events of `events` are lines of process output.
pub open spec fn count_output_lines(events: Seq<EventView>) -> nat
    decreases events.len(),
{
    if events.len() == 0 {
        0
    } else {
        count_output_lines(events.drop_last()) + if events.last() is ProcessOutputLine {
            1nat
        } else {
            0nat
        }
    }
}

} // verus!
