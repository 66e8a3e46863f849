//! Whether an edit page was reached right after creating the record.

use vstd::prelude::*;

verus! {

/// The query of an edit page: `initial` is set when the page follows the creation of
/// the record.
#[derive(Debug)]
pub struct InitialEditQuery {
    initial: Option<bool>,
}

impl InitialEditQuery {
    /// Whether the page follows the creation of the record.
    pub closed spec fn initial(&self) -> Option<bool> {
        self.initial
    }

    /// A query with the given `initial` value.
    pub fn new(initial: Option<bool>) -> (q: Self)
        ensures
            q.initial() == initial,
    {
        InitialEditQuery { initial }
    }

    /// The `initial` value of the query.
    pub fn initial_value(&self) -> (o: Option<bool>)
        ensures
            o == self.initial(),
    {
        self.initial
    }

    /// The page warns unless it follows the creation of the record (an absent value
    /// counts as not following it).
    pub fn should_warn(&self) -> (b: bool)
        ensures
            b == !(self.initial() == Some(true)),
    {
        !self.initial.unwrap_or(false)
    }
}

impl Default for InitialEditQuery {
    /// The query of a page that follows the creation of the record.
    fn default() -> (q: Self)
        ensures
            q.initial() == Some(true),
    {
        InitialEditQuery { initial: Some(true) }
    }
}

} // verus!
