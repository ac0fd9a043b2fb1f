//! Event identifiers: a `$` and either an opaque text, or a local part, a `:`
//! and a server name.
use vstd::prelude::*;
use vstd::string::StringSliceAdditionalSpecFns;
use crate::ascii::{find_byte, first_of, COLON};
use crate::borrowed::Id;
use crate::delimited::{check_delimited, delimited_rule};
use crate::error::{IdParseError, Rule};
use crate::kind::IdKind;
use crate::owned::OwnedId;

verus! {

/// `$`, the sigil of event identifiers.
pub const EVENT_ID_SIGIL: u8 = 0x24;

/// The first rule that `s` breaks as an event identifier, if any. An event
/// identifier starts with `$`. Where it holds a `:`, it is a local part, a `:`
/// and a server name, as a room identifier is; where it holds none, what
/// follows the `$` is opaque and must not be empty.
pub open spec fn event_id_rule(s: Seq<u8>) -> Option<Rule> {
    if s.len() == 0 || s[0] != EVENT_ID_SIGIL {
        Some(Rule::MissingSigil)
    } else if 0 <= first_of(s, COLON) < s.len() {
        delimited_rule(s, EVENT_ID_SIGIL)
    } else if s.len() == 1 {
        Some(Rule::EmptySegment)
    } else {
        None
    }
}

/// Whether `s` is an event identifier.
pub open spec fn is_event_id(s: Seq<u8>) -> bool {
    event_id_rule(s) is None
}

/// Computes [`event_id_rule`]: validates an event identifier.
pub fn check_event_id(s: &[u8]) -> (rule: Option<Rule>)
    ensures
        rule == event_id_rule(s@),
{
    if s.len() == 0 || s[0] != EVENT_ID_SIGIL {
        Some(Rule::MissingSigil)
    } else if find_byte(s, COLON) < s.len() {
        check_delimited(s, EVENT_ID_SIGIL)
    } else if s.len() == 1 {
        Some(Rule::EmptySegment)
    } else {
        None
    }
}

/// The kind of event identifiers, such as `$h29iv0s8:example.com`.
#[derive(Clone, Copy, Debug, PartialEq, Eq, PartialOrd, Ord, Hash)]
pub struct EventIdKind;

impl IdKind for EventIdKind {
    open spec fn spec_name() -> Seq<char> {
        "EventId"@
    }

    open spec fn grammar(bytes: Seq<u8>) -> bool {
        is_event_id(bytes)
    }

    open spec fn broken_rule(bytes: Seq<u8>) -> Rule {
        event_id_rule(bytes).unwrap()
    }

    fn name() -> (name: &'static str) {
        "EventId"
    }

    fn validate(text: &str) -> (verdict: Result<(), IdParseError>) {
        match check_event_id(text.as_bytes()) {
            None => Ok(()),
            Some(rule) => Err(IdParseError { kind: "EventId", rule }),
        }
    }
}

/// A borrowed event identifier.
pub type EventId<'a> = Id<'a, EventIdKind>;

/// An owned event identifier.
pub type OwnedEventId = OwnedId<EventIdKind>;

} // verus!
