//! Looking up one state event of a room: the request and the format of the
//! answer.
use vstd::prelude::*;
use vstd::string::StringSliceAdditionalSpecFns;
use crate::delimited::{OwnedRoomId, RoomId, RoomIdKind};
use crate::error::IdParseError;
use crate::kind::IdKind;
use crate::text::str_eq;

verus! {

/// What looks up one state event: the room, the type of the state, and its key.
#[derive(Debug)]
pub struct Request {
    /// The room to look up the state for.
    pub room_id: OwnedRoomId,
    /// The type of state to look up.
    pub event_type: String,
    /// The key of the state to look up.
    pub state_key: String,
}

/// Why the arguments of a request path are not a request.
#[derive(Clone, Copy, Debug, PartialEq, Eq)]
pub enum PathArgsError {
    /// There are neither two nor three arguments.
    WrongNumber,
    /// The first argument is not a room identifier.
    RoomId(IdParseError),
}

impl Request {
    /// Creates a new `Request` with the given room ID, event type and state
    /// key.
    pub fn new(room_id: OwnedRoomId, event_type: String, state_key: String) -> (request: Self)
        ensures
            request.room_id == room_id,
            request.event_type == event_type,
            request.state_key == state_key,
    {
        Self { room_id, event_type, state_key }
    }

    /// Whether `outcome` is what the path arguments `args` stand for. Three
    /// arguments are the room, the event type and the state key; with two the
    /// state key is empty. The room identifier is validated before the
    /// arguments are counted, so that a malformed one is reported whatever
    /// their number.
    pub open spec fn reads_path_args(args: Seq<&str>, outcome: Result<Self, PathArgsError>) -> bool {
        if args.len() == 0 {
            outcome == Err::<Self, PathArgsError>(PathArgsError::WrongNumber)
        } else if !RoomIdKind::grammar(args[0].spec_bytes()) {
            match outcome {
                Err(PathArgsError::RoomId(e)) => e.kind@ == RoomIdKind::spec_name() && e.rule
                    == RoomIdKind::broken_rule(args[0].spec_bytes()),
                _ => false,
            }
        } else if args.len() == 2 || args.len() == 3 {
            match outcome {
                Ok(request) => {
                    &&& request.room_id@ == args[0]@
                    &&& request.event_type@ == args[1]@
                    &&& request.state_key@ == if args.len() == 3 {
                        args[2]@
                    } else {
                        Seq::<char>::empty()
                    }
                },
                Err(_) => false,
            }
        } else {
            outcome == Err::<Self, PathArgsError>(PathArgsError::WrongNumber)
        }
    }

    /// Reads a request out of the arguments of its path.
    pub fn from_path_args(args: &[&str]) -> (outcome: Result<Self, PathArgsError>)
        ensures
            Self::reads_path_args(args@, outcome),
    {
        if args.len() == 0 {
            return Err(PathArgsError::WrongNumber);
        }
        let room_id = match RoomId::parse(args[0]) {
            Ok(id) => id,
            Err(e) => {
                return Err(PathArgsError::RoomId(e));
            },
        };
        if args.len() == 3 {
            Ok(
                Self {
                    room_id,
                    event_type: args[1].to_owned(),
                    state_key: args[2].to_owned(),
                },
            )
        } else if args.len() == 2 {
            Ok(Self { room_id, event_type: args[1].to_owned(), state_key: String::new() })
        } else {
            Err(PathArgsError::WrongNumber)
        }
    }
}

/// The format to use for the returned data.
#[derive(Debug, PartialEq, Eq, Clone, Copy, Structural)]
pub enum StateEventFormat {
    /// Will return only the content of the state event.
    ///
    /// This is the default value if the format is unspecified in the request.
    Content,
    /// Will return the entire event in the usual format suitable for clients,
    /// including fields like event ID, sender and timestamp.
    Event,
}

impl Default for StateEventFormat {
    fn default() -> (format: Self)
        ensures
            format == StateEventFormat::Content,
    {
        StateEventFormat::Content
    }
}

impl StateEventFormat {
    /// The lower-case word that stands for each format on the wire.
    pub open spec fn spec_as_str(self) -> Seq<char> {
        match self {
            StateEventFormat::Content => "content"@,
            StateEventFormat::Event => "event"@,
        }
    }

    /// The format that a word of the wire stands for, if it is one of the two.
    pub open spec fn spec_from_word(word: Seq<char>) -> Option<Self> {
        if word == "content"@ {
            Some(StateEventFormat::Content)
        } else if word == "event"@ {
            Some(StateEventFormat::Event)
        } else {
            None
        }
    }

    /// Reads the word that stands for a format on the wire.
    pub fn from_word(word: &str) -> (format: Option<Self>)
        ensures
            format == Self::spec_from_word(word@),
    {
        if str_eq(word, "content") {
            Some(StateEventFormat::Content)
        } else if str_eq(word, "event") {
            Some(StateEventFormat::Event)
        } else {
            None
        }
    }

    /// The word that stands for the format on the wire.
    pub fn as_str(self) -> (word: &'static str)
        ensures
            word@ == self.spec_as_str(),
    {
        match self {
            StateEventFormat::Content => "content",
            StateEventFormat::Event => "event",
        }
    }
}

} // verus!
