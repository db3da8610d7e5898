use vstd::prelude::*;

use crate::error::SwtchrError;

verus! {

/// A parsed external control message. The protocol is a small closed set of
/// textual tokens carried in one datagram each: `show` raises the switcher
/// overlay, `hide` dismisses it.
#[derive(Clone, Copy, Debug, PartialEq, Eq, Structural)]
pub enum Command {
    Show,
    Hide,
}

/// The bytes of the `show` token.
pub open spec fn show_token() -> Seq<u8> {
    seq!['s' as u8, 'h' as u8, 'o' as u8, 'w' as u8]
}

/// The bytes of the `hide` token.
pub open spec fn hide_token() -> Seq<u8> {
    seq!['h' as u8, 'i' as u8, 'd' as u8, 'e' as u8]
}

/// The command grammar: a payload is exactly one token, nothing more and
/// nothing less; anything else is a decode error.
pub open spec fn spec_parse_command(payload: Seq<u8>) -> Result<Command, SwtchrError> {
    if payload == show_token() {
        Ok(Command::Show)
    } else if payload == hide_token() {
        Ok(Command::Hide)
    } else {
        Err(SwtchrError::Decode)
    }
}

/// Whether the payload is exactly the four given bytes.
fn matches4(payload: &[u8], b0: u8, b1: u8, b2: u8, b3: u8) -> (r: bool)
    ensures
        r == (payload@ == seq![b0, b1, b2, b3]),
{
    if payload.len() != 4 {
        return false;
    }
    let r = payload[0] == b0 && payload[1] == b1 && payload[2] == b2 && payload[3] == b3;
    proof {
        if r {
            assert(payload@ =~= seq![b0, b1, b2, b3]);
        }
    }
    r
}

/// Parses one control datagram. Returns the command the payload spells, and
/// a decode error for any other payload; a malformed datagram is reported,
/// never fatal to the listener.
pub fn parse_command(payload: &[u8]) -> (r: Result<Command, SwtchrError>)
    ensures
        r == spec_parse_command(payload@),
{
    if matches4(payload, 's' as u8, 'h' as u8, 'o' as u8, 'w' as u8) {
        Ok(Command::Show)
    } else if matches4(payload, 'h' as u8, 'i' as u8, 'd' as u8, 'e' as u8) {
        Ok(Command::Hide)
    } else {
        Err(SwtchrError::Decode)
    }
}

} // verus!
