//! The two ways in which a lookup fails.

use vstd::prelude::*;

verus! {

/// Which of the two lookups is under way.
#[derive(Clone, Copy, Debug, PartialEq, Eq, Structural)]
pub enum Lookup {
    /// A player's skills, from the hiscore service.
    Player,
    /// The catalogue's items under a letter.
    Items,
}

impl Lookup {
    /// How the message starts when the request brought no response.
    pub open spec fn send_failure_prefix(self) -> Seq<char> {
        match self {
            Lookup::Player => "Failed to fetch player stats: "@,
            Lookup::Items => "Failed to fetch items: "@,
        }
    }

    /// How the message starts when the response's body could not be read.
    pub open spec fn read_failure_prefix(self) -> Seq<char> {
        match self {
            Lookup::Player => "Failed to read response: "@,
            Lookup::Items => "Failed to fetch items: "@,
        }
    }

    /// How the message starts when the body is not the response asked for.
    pub open spec fn parse_failure_prefix(self) -> Seq<char> {
        match self {
            Lookup::Player => "Failed to parse response: "@,
            Lookup::Items => "Failed to parse items: "@,
        }
    }
}

/// Why a lookup failed. Each kind carries the message for the caller: what
/// failed, a colon, and the cause in words.
#[derive(Clone, Debug, PartialEq, Eq)]
pub enum LookupError {
    /// No response body could be had.
    Fetch(String),
    /// A body was had, and it is not the response asked for.
    Parse(String),
}

/// A `LookupError` as a mathematical value.
pub enum LookupErrorView {
    Fetch(Seq<char>),
    Parse(Seq<char>),
}

impl View for LookupError {
    type V = LookupErrorView;

    open spec fn view(&self) -> LookupErrorView {
        match self {
            LookupError::Fetch(message) => LookupErrorView::Fetch(message@),
            LookupError::Parse(message) => LookupErrorView::Parse(message@),
        }
    }
}

impl LookupErrorView {
    /// The error for a request that brought no response.
    pub open spec fn send_failed(lookup: Lookup, cause: Seq<char>) -> LookupErrorView {
        LookupErrorView::Fetch(lookup.send_failure_prefix() + cause)
    }

    /// The error for a response whose body could not be read.
    pub open spec fn read_failed(lookup: Lookup, cause: Seq<char>) -> LookupErrorView {
        LookupErrorView::Fetch(lookup.read_failure_prefix() + cause)
    }

    /// The error for a body that is not the response asked for.
    pub open spec fn parse_failed(lookup: Lookup, cause: Seq<char>) -> LookupErrorView {
        LookupErrorView::Parse(lookup.parse_failure_prefix() + cause)
    }

    /// The message for the caller.
    pub open spec fn message(self) -> Seq<char> {
        match self {
            LookupErrorView::Fetch(message) => message,
            LookupErrorView::Parse(message) => message,
        }
    }
}

impl LookupError {
    /// The error for a request that brought no response.
    pub fn send_failed(lookup: Lookup, cause: &str) -> (e: LookupError)
        ensures
            e@ == LookupErrorView::send_failed(lookup, cause@),
    {
        let prefix = match lookup {
            Lookup::Player => "Failed to fetch player stats: ",
            Lookup::Items => "Failed to fetch items: ",
        };
        LookupError::Fetch(String::from_str(prefix).concat(cause))
    }

    /// The error for a response whose body could not be read.
    pub fn read_failed(lookup: Lookup, cause: &str) -> (e: LookupError)
        ensures
            e@ == LookupErrorView::read_failed(lookup, cause@),
    {
        let prefix = match lookup {
            Lookup::Player => "Failed to read response: ",
            Lookup::Items => "Failed to fetch items: ",
        };
        LookupError::Fetch(String::from_str(prefix).concat(cause))
    }

    /// The error for a body that is not the response asked for.
    pub fn parse_failed(lookup: Lookup, cause: &str) -> (e: LookupError)
        ensures
            e@ == LookupErrorView::parse_failed(lookup, cause@),
    {
        let prefix = match lookup {
            Lookup::Player => "Failed to parse response: ",
            Lookup::Items => "Failed to parse items: ",
        };
        LookupError::Parse(String::from_str(prefix).concat(cause))
    }

    /// The message for the caller.
    pub fn message(&self) -> (r: &String)
        ensures
            r@ == self@.message(),
    {
        match self {
            LookupError::Fetch(message) => message,
            LookupError::Parse(message) => message,
        }
    }

    /// The message for the caller, by value.
    pub fn into_message(self) -> (r: String)
        ensures
            r@ == self@.message(),
    {
        match self {
            LookupError::Fetch(message) => message,
            LookupError::Parse(message) => message,
        }
    }

    /// Whether no response body could be had.
    pub fn is_fetch(&self) -> (r: bool)
        ensures
            r == (self@ is Fetch),
    {
        match self {
            LookupError::Fetch(_) => true,
            LookupError::Parse(_) => false,
        }
    }

    /// Whether a body was had that is not the response asked for.
    pub fn is_parse(&self) -> (r: bool)
        ensures
            r == (self@ is Parse),
    {
        match self {
            LookupError::Fetch(_) => false,
            LookupError::Parse(_) => true,
        }
    }
}

} // verus!
