//! The one error of identifier construction.
use vstd::prelude::*;

verus! {

/// The category of structural rule that a candidate text breaks.
#[derive(Clone, Copy, Debug, PartialEq, Eq, Hash, Structural)]
pub enum Rule {
    /// The text does not start with the sigil of its kind.
    MissingSigil,
    /// The delimiter between the local part and the server name is absent.
    MissingDelimiter,
    /// A segment that must hold at least one byte is empty.
    EmptySegment,
    /// A byte stands where the grammar does not allow it.
    IllegalCharacter,
    /// The bracketed part of a server name is not an IPv6 address.
    InvalidIpLiteral,
    /// The port of a server name is not a decimal number below 65536.
    InvalidPort,
    /// The server-name component of a compound identifier is malformed.
    InvalidServerName,
}

impl Rule {
    /// The words that describe each rule.
    pub open spec fn spec_description(self) -> Seq<char> {
        match self {
            Rule::MissingSigil => "missing leading sigil"@,
            Rule::MissingDelimiter => "missing delimiter"@,
            Rule::EmptySegment => "empty segment"@,
            Rule::IllegalCharacter => "illegal character"@,
            Rule::InvalidIpLiteral => "invalid IP literal"@,
            Rule::InvalidPort => "invalid port"@,
            Rule::InvalidServerName => "invalid server name"@,
        }
    }

    /// A human-readable description of the rule.
    pub fn description(self) -> (text: &'static str)
        ensures
            text@ == self.spec_description(),
    {
        match self {
            Rule::MissingSigil => "missing leading sigil",
            Rule::MissingDelimiter => "missing delimiter",
            Rule::EmptySegment => "empty segment",
            Rule::IllegalCharacter => "illegal character",
            Rule::InvalidIpLiteral => "invalid IP literal",
            Rule::InvalidPort => "invalid port",
            Rule::InvalidServerName => "invalid server name",
        }
    }
}

/// A text is not an identifier of the kind it was offered as.
#[derive(Clone, Copy, Debug, PartialEq, Eq)]
pub struct IdParseError {
    /// The name of the kind whose grammar rejected the text.
    pub kind: &'static str,
    /// The rule that the text breaks.
    pub rule: Rule,
}

impl IdParseError {
    /// The text of [`IdParseError::message`].
    pub open spec fn spec_message(self) -> Seq<char> {
        "invalid "@ + self.kind@ + ": "@ + self.rule.spec_description()
    }

    /// A sentence that names the kind and the broken rule.
    pub fn message(&self) -> (text: String)
        ensures
            text@ == self.spec_message(),
    {
        let mut text = String::from_str("invalid ");
        text.append(self.kind);
        text.append(": ");
        text.append(self.rule.description());
        text
    }
}

} // verus!
