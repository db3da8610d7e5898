use vstd::prelude::*;

verus! {

/// Failure taxonomy of the switcher core.
///
/// `Connection` covers failures to reach the window manager or to bind the
/// control endpoint; `Decode` covers malformed notifications and malformed
/// control payloads; `ActorTerminated` reports that a background actor is
/// gone, so a query can no longer be served by a live round trip;
/// `SharedStateCorrupted` reports that a participant vanished in the middle
/// of a query round trip; `CommandRejected` reports that the window manager
/// accepted the connection but refused a command.
#[derive(Clone, Copy, Debug, PartialEq, Eq, Structural)]
pub enum SwtchrError {
    Connection,
    Decode,
    ActorTerminated,
    SharedStateCorrupted,
    CommandRejected,
}

impl SwtchrError {
    /// A short human-readable description, for callers that report errors.
    pub fn describe(&self) -> (r: &'static str)
        ensures
            r@ == match *self {
                SwtchrError::Connection => "failed reaching the window manager or control endpoint"@,
                SwtchrError::Decode => "malformed notification or control payload"@,
                SwtchrError::ActorTerminated => "background actor has terminated"@,
                SwtchrError::SharedStateCorrupted => "a participant failed during a query round trip"@,
                SwtchrError::CommandRejected => "the window manager rejected the command"@,
            },
    {
        match *self {
            SwtchrError::Connection => "failed reaching the window manager or control endpoint",
            SwtchrError::Decode => "malformed notification or control payload",
            SwtchrError::ActorTerminated => "background actor has terminated",
            SwtchrError::SharedStateCorrupted => "a participant failed during a query round trip",
            SwtchrError::CommandRejected => "the window manager rejected the command",
        }
    }
}

} // verus!
