//! What the library takes from its surroundings: the clock and random ids.
use vstd::prelude::*;

verus! {

/// The seconds since the Unix epoch (`SystemTime::now`, 0 if the clock is
/// before the epoch). Nothing is stated of the value: it is the time.
#[verifier::external_body]
pub fn unix_time_secs() -> (r: u64) {
    std::time::SystemTime::now().duration_since(std::time::UNIX_EPOCH).unwrap_or_default().as_secs()
}

/// A random version-4 UUID in its hyphenated text form (`uuid::Uuid::new_v4`
/// and its `Display`): 36 characters, which `uuid` documents as
/// `xxxxxxxx-xxxx-xxxx-xxxx-xxxxxxxxxxxx`. Which UUID is left open: it is random.
#[verifier::external_body]
pub fn uuid_v4_text() -> (r: String)
    ensures
        r@.len() == 36,
{
    uuid::Uuid::new_v4().to_string()
}

/// The text that `Debug` gives for a string: quoted, with escapes.
pub uninterp spec fn str_debug_text(s: Seq<char>) -> Seq<char>;

/// `format!("{:?}", s)` for a string: std's `Debug` of `str`.
#[verifier::external_body]
pub fn str_debug(s: &str) -> (r: String)
    ensures
        r@ == str_debug_text(s@),
{
    format!("{:?}", s)
}

} // verus!
