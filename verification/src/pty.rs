//! The opening message of a browser terminal session, which gives the size of
//! the terminal as two numbers.
use vstd::prelude::*;
use crate::text::{chars_of, parse_u16, parse_u16_spec, split_whitespace, words};

verus! {

/// Why a terminal session could not start.
#[derive(Debug, PartialEq, Eq, Structural)]
pub enum HandlerError {
    /// The opening message was not text of the form `{x} {y}`.
    InvalidDimentionsMessage,
}

/// The size that an opening message gives: its first two words read as 16-bit
/// numbers. Words after the second are ignored.
pub open spec fn initial_dimensions(text: Seq<char>) -> Option<(u16, u16)> {
    let w = words(text);
    if w.len() < 2 {
        None
    } else {
        match (parse_u16_spec(w[0]), parse_u16_spec(w[1])) {
            (Some(x), Some(y)) => Some((x, y)),
            _ => None,
        }
    }
}

/// Reads the terminal size from the opening message of a session. `msg` is
/// the message's text, or `None` when the message was not text.
pub fn parse_initial_msg(msg: Option<&str>) -> (res: Result<(u16, u16), HandlerError>)
    ensures
        match msg {
            None => res == Err::<(u16, u16), HandlerError>(HandlerError::InvalidDimentionsMessage),
            Some(text) => match initial_dimensions(text@) {
                Some(d) => res == Ok::<(u16, u16), HandlerError>(d),
                None => res == Err::<(u16, u16), HandlerError>(
                    HandlerError::InvalidDimentionsMessage,
                ),
            },
        },
{
    let text = match msg {
        None => return Err(HandlerError::InvalidDimentionsMessage),
        Some(t) => t,
    };
    let chars = chars_of(text);
    let ws = split_whitespace(chars.as_slice());
    if ws.len() < 1 {
        return Err(HandlerError::InvalidDimentionsMessage);
    }
    let x = match parse_u16(ws[0].as_slice()) {
        None => return Err(HandlerError::InvalidDimentionsMessage),
        Some(x) => x,
    };
    if ws.len() < 2 {
        return Err(HandlerError::InvalidDimentionsMessage);
    }
    let y = match parse_u16(ws[1].as_slice()) {
        None => return Err(HandlerError::InvalidDimentionsMessage),
        Some(y) => y,
    };
    Ok((x, y))
}

} // verus!
