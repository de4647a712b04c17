use vstd::prelude::*;
use crate::event::{Event, EventView, KeyCode};

verus! {

/// What happened to a key.
#[derive(Clone, Copy, Debug, PartialEq, Eq, Structural)]
pub enum KeyKind {
    Press,
    Repeat,
    Release,
}

/// What the keyboard source reports for a key event of the terminal: a
/// key that went down is a key press, repeats and releases are dropped.
pub open spec fn key_event(kind: KeyKind, code: KeyCode) -> Option<EventView> {
    if kind == KeyKind::Press {
        Some(EventView::KeyPress(code))
    } else {
        None
    }
}

/// The event, if any, for a key event with the given kind and code.
pub fn key_press(kind: KeyKind, code: KeyCode) -> (r: Option<Event>)
    ensures
        match r {
            Some(event) => key_event(kind, code) == Some(event@),
            None => key_event(kind, code) is None,
        },
{
    match kind {
        KeyKind::Press => Some(Event::KeyPress(code)),
        _ => None,
    }
}

/// Reads the `kind` field of a `crossterm::event::KeyEvent`, variant for
/// variant: the result is the kind that the key event holds.
#[verifier::external_body]
fn kind_of(key: &crossterm::event::KeyEvent) -> (r: KeyKind)
    ensures
        r == key_kind(*key),
{
    match key.kind {
        crossterm::event::KeyEventKind::Press => KeyKind::Press,
        crossterm::event::KeyEventKind::Repeat => KeyKind::Repeat,
        crossterm::event::KeyEventKind::Release => KeyKind::Release,
    }
}

/// Reads the `code` field of a `crossterm::event::KeyEvent`: the result is
/// the code that the key event holds; codes not told apart give `Other`.
#[verifier::external_body]
fn code_of(key: &crossterm::event::KeyEvent) -> (r: KeyCode)
    ensures
        r == key_code(*key),
{
    match key.code {
        crossterm::event::KeyCode::Char(c) => KeyCode::Char(c),
        crossterm::event::KeyCode::Enter => KeyCode::Enter,
        crossterm::event::KeyCode::Esc => KeyCode::Esc,
        crossterm::event::KeyCode::Backspace => KeyCode::Backspace,
        crossterm::event::KeyCode::Tab => KeyCode::Tab,
        _ => KeyCode::Other,
    }
}

/// The event, if any, for a key event of the terminal: a key press with the
/// code that the key event holds where it reports a key that went down, and
/// nothing where it reports a repeat or a release.
pub fn from_key_event(key: &crossterm::event::KeyEvent) -> (r: Option<Event>)
    ensures
        match r {
            Some(event) => key_event(key_kind(*key), key_code(*key)) == Some(event@),
            None => key_event(key_kind(*key), key_code(*key)) is None,
        },
{
    key_press(kind_of(key), code_of(key))
}

/// `crossterm::event::KeyEvent`, a key event as the terminal reports it.
/// Nothing is known of a value but what the two names below say.
#[verifier::external_type_specification]
#[verifier::external_body]
pub struct ExKeyEvent(crossterm::event::KeyEvent);

/// The kind that a `crossterm::event::KeyEvent` holds in its field `kind`.
pub uninterp spec fn key_kind(key: crossterm::event::KeyEvent) -> KeyKind;

/// The code that a `crossterm::event::KeyEvent` holds in its field `code`,
/// as far as the dashboard tells codes apart.
pub uninterp spec fn key_code(key: crossterm::event::KeyEvent) -> KeyCode;

} // verus!
