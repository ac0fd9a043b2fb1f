//! The first snapshot of a room.
use vstd::prelude::*;
use crate::delimited::OwnedRoomId;

verus! {

/// What asks for the first snapshot of a room.
#[derive(Debug)]
pub struct Request {
    /// The ID of the room.
    pub room_id: OwnedRoomId,
    /// Limit messages chunks size.
    pub limit: Option<usize>,
}

} // verus!
