//! The errors that a room reports to the caller that caused them.

use vstd::prelude::*;

verus! {

/// Why an event fails.  A failed event leaves the room's state as it was.
#[derive(Debug, Clone, Copy, PartialEq, Eq, Structural)]
pub enum RoomError {
    /// An upgrade request that supplies no client identifier.
    MissingClientId,
    /// An inbound message whose payload is not a room state.
    MalformedMessage,
    /// The durable store failed while the room needed it.
    Storage,
}

impl RoomError {
    /// The text of the error.
    pub fn message(&self) -> (text: String)
        ensures
            text@ == match *self {
                RoomError::MissingClientId => "No client_id param"@,
                RoomError::MalformedMessage => "Malformed room state"@,
                RoomError::Storage => "Durable store failed"@,
            },
    {
        match self {
            RoomError::MissingClientId => "No client_id param".to_owned(),
            RoomError::MalformedMessage => "Malformed room state".to_owned(),
            RoomError::Storage => "Durable store failed".to_owned(),
        }
    }
}

} // verus!
