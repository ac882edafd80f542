//! The event source's decision logic: what one item of the merged
//! input-and-timer stream turns into. The stream itself (terminal input,
//! the render clock, the task that pumps them into a channel) runs outside;
//! it hands every item to [`message_for_signal`] and sends exactly what
//! comes back.

use vstd::prelude::*;

verus! {

/// The keys the pages react to, read off a terminal key event.
#[derive(Debug, Clone, Copy, PartialEq, Eq, Structural)]
pub enum KeyCode {
    Char(char),
    Up,
    Down,
    Left,
    Right,
    Enter,
    Esc,
    Backspace,
    Other,
}

/// A terminal key event: which key, and whether this is the press kind of
/// the event (as opposed to a release or repeat).
#[derive(Debug, Clone, Copy, PartialEq, Eq, Structural)]
pub struct KeyEvent {
    pub code: KeyCode,
    pub is_press: bool,
}

/// An event as the terminal layer reports it.
#[derive(Debug, Clone)]
pub enum NikaEvent {
    Quit,
    Error,
    Closed,
    Render,
    FocusGained,
    FocusLost,
    Paste(String),
    Key(KeyEvent),
    Resize(u16, u16),
}

/// What the event source sends over its channel.
#[derive(Debug, Clone)]
pub enum NikaMessage {
    Render,
    Error,
    Key(KeyEvent),
}

/// One item of the merged stream the event source consumes: a render tick,
/// an input event, a failure of the input stream, or its end.
#[derive(Debug, Clone)]
pub enum TermSignal {
    Tick,
    Input(NikaEvent),
    InputError,
    Closed,
}

/// What the event source emits for one stream item: every render tick
/// becomes exactly one Render message, every press-kind key event exactly
/// one Key message, every stream error an Error message, and everything
/// else nothing.
pub open spec fn message_of_signal(s: TermSignal) -> Option<NikaMessage> {
    match s {
        TermSignal::Tick => Some(NikaMessage::Render),
        TermSignal::InputError => Some(NikaMessage::Error),
        TermSignal::Input(NikaEvent::Key(k)) => if k.is_press {
            Some(NikaMessage::Key(k))
        } else {
            None
        },
        TermSignal::Input(_) => None,
        TermSignal::Closed => None,
    }
}

/// Decides what to send for one item of the merged event stream.
pub fn message_for_signal(s: &TermSignal) -> (r: Option<NikaMessage>)
    ensures
        r == message_of_signal(*s),
{
    match s {
        TermSignal::Tick => Some(NikaMessage::Render),
        TermSignal::InputError => Some(NikaMessage::Error),
        TermSignal::Input(NikaEvent::Key(k)) => {
            if k.is_press {
                Some(NikaMessage::Key(*k))
            } else {
                None
            }
        },
        TermSignal::Input(_) => None,
        TermSignal::Closed => None,
    }
}

} // verus!
