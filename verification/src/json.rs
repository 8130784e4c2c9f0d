//! JSON text handled through serde_json, and the ids the store hands out.

use vstd::prelude::*;

verus! {

#[verifier::external_type_specification]
#[verifier::external_body]
pub struct ExJsonValue(serde_json::Value);

/// What serde_json says of `text` as one JSON value (with nothing but
/// whitespace around it): `None` when it accepts the text, otherwise the
/// message of its error.
pub uninterp spec fn json_parse_error(text: Seq<char>) -> Option<Seq<char>>;

/// Whether serde_json accepts `text` as one JSON value.
pub open spec fn json_parses(text: Seq<char>) -> bool {
    json_parse_error(text) is None
}

/// Parses JSON text with `serde_json::from_str::<serde_json::Value>`.
/// Trusted: whether the call succeeds, and the message (`Display`) of its
/// error, depend on the text alone. The parsed value is not described.
#[verifier::external_body]
pub(crate) fn parse_json(text: &str) -> (r: Result<serde_json::Value, String>)
    ensures
        r is Ok <==> json_parses(text@),
        r matches Err(message) ==> json_parse_error(text@) == Some(message@),
{
    match serde_json::from_str::<serde_json::Value>(text) {
        Ok(value) => Ok(value),
        Err(error) => Err(error.to_string()),
    }
}

pub open spec fn is_lower_hex(c: char) -> bool {
    ('0' <= c <= '9') || ('a' <= c <= 'f')
}

/// An id of the store's shape: the prefix followed by 32 lowercase hex digits.
pub open spec fn is_prefixed_id(id: Seq<char>, prefix: Seq<char>) -> bool {
    &&& id.len() == prefix.len() + 32
    &&& id.subrange(0, prefix.len() as int) == prefix
    &&& forall|i: int| prefix.len() <= i < id.len() ==> is_lower_hex(#[trigger] id[i])
}

/// Whether `s` is 32 lowercase hex digits, the simple form of a UUID.
pub open spec fn is_simple_uuid(s: Seq<char>) -> bool {
    &&& s.len() == 32
    &&& forall|i: int| 0 <= i < s.len() ==> is_lower_hex(#[trigger] s[i])
}

/// The version 7 UUIDs drawn through one clock, by their simple form.
pub struct UuidClock {
    issued: Ghost<Set<Seq<char>>>,
}

impl UuidClock {
    /// The simple forms of the UUIDs drawn through this clock so far.
    pub closed spec fn issued(&self) -> Set<Seq<char>> {
        self.issued@
    }

    /// A clock that has issued nothing yet.
    pub fn new() -> (c: UuidClock)
        ensures
            c.issued() == Set::<Seq<char>>::empty(),
    {
        UuidClock { issued: Ghost(Set::empty()) }
    }

    /// A fresh version 7 UUID (`uuid::Uuid::now_v7`) in its simple form
    /// (`Uuid::simple`, written with `to_string`). Trusted: the simple form is
    /// 32 lowercase hex digits, and the uuid crate documents that all UUIDs
    /// that `now_v7` generates in one process are ordered by their creation
    /// (its shared context increments a counter, or moves to a later
    /// millisecond, on every call), so the new UUID is none of those this clock
    /// drew before. Which UUID comes out depends on the clock and on chance and
    /// is not described.
    #[verifier::external_body]
    fn next_simple(&mut self) -> (s: String)
        ensures
            is_simple_uuid(s@),
            !old(self).issued().contains(s@),
            final(self).issued() == old(self).issued().insert(s@),
    {
        uuid::Uuid::now_v7().simple().to_string()
    }
}

/// The UUID part of an id made with the given prefix.
pub open spec fn uuid_part(id: Seq<char>, prefix: Seq<char>) -> Seq<char> {
    id.subrange(prefix.len() as int, id.len() as int)
}

/// A fresh time-ordered id: `prefix` followed by a version 7 UUID in its
/// simple form, drawn through `clock`.
pub(crate) fn uuid7_str(clock: &mut UuidClock, prefix: &str) -> (id: String)
    ensures
        is_prefixed_id(id@, prefix@),
        !old(clock).issued().contains(uuid_part(id@, prefix@)),
        final(clock).issued() == old(clock).issued().insert(uuid_part(id@, prefix@)),
{
    let uuid = clock.next_simple();
    let mut id = String::from_str(prefix);
    id.append(uuid.as_str());
    assert(id@.subrange(0, prefix@.len() as int) =~= prefix@);
    assert(uuid_part(id@, prefix@) =~= uuid@);
    assert forall|i: int| prefix@.len() <= i < id@.len() implies is_lower_hex(#[trigger] id@[i]) by {
        assert(id@[i] == uuid@[i - prefix@.len()]);
    }
    id
}

} // verus!
