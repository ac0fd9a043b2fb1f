//! Getting a single event of a room by its identifier.
use vstd::prelude::*;
use crate::delimited::OwnedRoomId;
use crate::event_id::OwnedEventId;

verus! {

/// What asks for one event of a room.
#[derive(Debug)]
pub struct Request {
    /// The ID of the room the event is in.
    pub room_id: OwnedRoomId,
    /// The ID of the event.
    pub event_id: OwnedEventId,
    /// Whether the server should return the redacted content of the requested
    /// event.
    pub include_unredacted_content: Option<bool>,
}

impl Request {
    /// Creates a new `Request` with the given room ID and event ID.
    pub fn new(
        room_id: OwnedRoomId,
        event_id: OwnedEventId,
        include_unredacted_content: Option<bool>,
    ) -> (request: Self)
        ensures
            request.room_id == room_id,
            request.event_id == event_id,
            request.include_unredacted_content == include_unredacted_content,
    {
        Self { room_id, event_id, include_unredacted_content }
    }
}

} // verus!
