//! Typed, validated, text-backed identifiers for a federated messaging
//! protocol, and the few consumers that show how they are used.
//!
//! An identifier kind is a name and a grammar over bytes ([`kind::IdKind`]).
//! A handle of a kind exists in five forms that carry the same text: a
//! borrowed view ([`borrowed::Id`]), a compact owned handle
//! ([`owned::OwnedId`]), and an exclusively owned, a single-thread shared and a
//! multi-thread shared heap form ([`shared`]). Every handle that executable
//! code holds satisfies the grammar of its kind; the only ways to make one are
//! the validator and the constructors whose callers answer for the grammar.
//! Conversions between the forms ([`bridge`], [`convert`]) keep the text and
//! never validate again, and comparisons ([`compare`], [`order`]) look at the
//! text alone.
//!
//! The grammars at hand are those of server names ([`server_name`]) and of the
//! identifiers made of a sigil, a local part and a server name
//! ([`delimited`], [`event_id`]); [`opaque`] holds the kinds without a grammar
//! of their own.
//! [`meta`] is what a generator of kind declarations decides. The users of
//! identifiers here are the access-control list of a room ([`server_acl`]) and
//! the requests of four endpoints ([`state_event`], [`room_event`],
//! [`federation_event`], [`initial_sync`]).

pub mod ascii;
pub mod error;
pub mod ip;
pub mod kind;
pub mod text;

pub mod delimited;
pub mod event_id;
pub mod opaque;
pub mod server_name;

pub mod borrowed;
pub mod bridge;
pub mod owned;
pub mod shared;
pub mod storage;

pub mod compare;
pub mod convert;
pub mod hashing;
pub mod json;
pub mod order;

pub mod federation_event;
pub mod initial_sync;
pub mod meta;
pub mod or_empty;
pub mod room_event;
pub mod server_acl;
pub mod state_event;
