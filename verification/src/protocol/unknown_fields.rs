//! Members of a message that the library does not model but keeps.
use vstd::prelude::*;

use crate::json::{members_view, Json, JsonValue};

verus! {

/// Additional members of a message, each name once, in the order they came.
///
/// A list of pairs stands in for a map keyed by name: vstd specifies std's
/// `HashMap` only for keys whose hashing and equality it models, and
/// `String` is not among them. The type invariant keeps each name once, as
/// a map's keys are.
#[derive(Debug)]
pub struct UnknownFields(Vec<(String, JsonValue)>);

impl UnknownFields {
    /// The members as names and JSON models.
    pub closed spec fn members(&self) -> Seq<(Seq<char>, Json)> {
        members_view(self.0@)
    }

    /// No name occurs twice.
    #[verifier::type_invariant]
    spec fn names_unique(&self) -> bool {
        forall|i: int, j: int|
            0 <= i < j < self.0@.len() ==> #[trigger] self.0@[i].0@ != #[trigger] self.0@[j].0@
    }

    /// No additional members.
    pub fn empty() -> (r: UnknownFields)
        ensures
            r.members().len() == 0,
    {
        let r = UnknownFields(Vec::new());
        assert(r.members() =~= Seq::<(Seq<char>, Json)>::empty());
        r
    }

    /// Whether there is no additional member.
    pub fn is_empty(&self) -> (r: bool)
        ensures
            r == (self.members().len() == 0),
    {
        self.0.len() == 0
    }
}

impl Default for UnknownFields {
    /// No additional members.
    fn default() -> (r: UnknownFields)
        ensures
            r.members().len() == 0,
    {
        UnknownFields::empty()
    }
}

} // verus!
