//! Retrieving a single event from another server.
use vstd::prelude::*;
use crate::event_id::OwnedEventId;

verus! {

/// What asks another server for one event.
#[derive(Debug)]
pub struct Request {
    /// The event ID to get.
    pub event_id: OwnedEventId,
    /// Whether the server should return the redacted content of the requested
    /// event.
    pub include_unredacted_content: Option<bool>,
}

impl Request {
    /// Creates a new `Request` with the given event id.
    pub fn new(event_id: OwnedEventId, include_unredacted_content: Option<bool>) -> (request: Self)
        ensures
            request.event_id == event_id,
            request.include_unredacted_content == include_unredacted_content,
    {
        Self { event_id, include_unredacted_content }
    }
}

} // verus!
