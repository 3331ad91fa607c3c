use vstd::prelude::*;

verus! {

/// Why a set of feed descriptors was rejected before the engine started.
#[derive(Clone, Copy, PartialEq, Eq, Structural, Debug)]
pub enum ConfigError {
    /// No feed was declared.
    NoFeeds,
    /// A feed declared an interval below one second.
    ZeroInterval,
    /// Two feeds share one source url.
    DuplicateUrl,
}

/// A fetched document that neither the Atom nor the RSS parser recognized.
#[derive(Clone, Copy, PartialEq, Eq, Structural, Debug)]
pub struct ParseError;

/// A failure reported by the story store while a row was written.
#[derive(Clone, Copy, PartialEq, Eq, Structural, Debug)]
pub struct DatabaseError;

} // verus!
