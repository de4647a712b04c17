use vstd::prelude::*;
use vstd::string::StrSliceExecFns;
use crate::event::{Event, EventView};

verus! {

/// `text` without the line ending that closes it: a line feed, with the
/// carriage return before it if there is one.
pub open spec fn strip_line_ending(text: Seq<char>) -> Seq<char> {
    if text.len() >= 2 && text[text.len() - 2] == '\r' && text.last() == '\n' {
        text.take(text.len() - 2)
    } else if text.len() >= 1 && text.last() == '\n' {
        text.drop_last()
    } else {
        text
    }
}

/// What the process-output source reports for one read of a line: the end
/// of the stream, where nothing was read, means that the process is gone;
/// anything else is a line of output, given without its line ending and
/// possibly empty.
pub open spec fn output_event(bytes_read: nat, text: Seq<char>) -> EventView {
    if bytes_read == 0 {
        EventView::ProcessExited
    } else {
        EventView::ProcessOutputLine(strip_line_ending(text))
    }
}

/// Removes the line ending that closes `text`, if there is one.
pub fn without_line_ending(text: &str) -> (r: String)
    ensures
        r@ == strip_line_ending(text@),
{
    let n: usize = text.unicode_len();
    if n >= 1 && text.get_char(n - 1) == '\n' {
        if n >= 2 && text.get_char(n - 2) == '\r' {
            text.substring_char(0, n - 2).to_owned()
        } else {
            text.substring_char(0, n - 1).to_owned()
        }
    } else {
        text.to_owned()
    }
}

/// The event for one read of a line from the supervised process's output,
/// given how many bytes the read took and the text it gave.
pub fn read_event(bytes_read: usize, text: &str) -> (r: Event)
    ensures
        r@ == output_event(bytes_read as nat, text@),
{
    if bytes_read == 0 {
        Event::ProcessExited
    } else {
        Event::ProcessOutputLine(without_line_ending(text))
    }
}

} // verus!
