//! Reading JSON objects member by member. The JSON grammar is serde_json's;
//! the lookup of members is ours.
use serde_json::value::RawValue;
use std::collections::BTreeMap;
use vstd::prelude::*;

verus! {

/// The members of a JSON object text, by key, each value as its raw JSON
/// text; `None` when the text is not one JSON object.
pub uninterp spec fn json_members_of(text: Seq<char>) -> Option<Seq<(Seq<char>, Seq<char>)>>;

/// The integer from 0 to 255 that a JSON text holds; `None` for any other text.
pub uninterp spec fn json_u8_of(text: Seq<char>) -> Option<u8>;

/// Whether a text is one JSON number.
pub uninterp spec fn is_json_number(text: Seq<char>) -> bool;

pub open spec fn members_view(ms: Seq<(String, String)>) -> Seq<(Seq<char>, Seq<char>)> {
    ms.map_values(|p: (String, String)| (p.0@, p.1@))
}

pub open spec fn option_view(o: Option<String>) -> Option<Seq<char>> {
    match o {
        Some(s) => Some(s@),
        None => None,
    }
}

/// The value of the first member named `key`.
pub open spec fn lookup(ms: Seq<(Seq<char>, Seq<char>)>, key: Seq<char>) -> Option<Seq<char>>
    decreases ms.len(),
{
    if ms.len() == 0 {
        None
    } else if ms[0].0 == key {
        Some(ms[0].1)
    } else {
        lookup(ms.drop_first(), key)
    }
}

/// The raw text of member `key` of the JSON object `text`.
pub open spec fn member_of(text: Seq<char>, key: Seq<char>) -> Option<Seq<char>> {
    match json_members_of(text) {
        Some(ms) => lookup(ms, key),
        None => None,
    }
}

/// Relies on serde_json::from_str, read as a `BTreeMap<String, Box<RawValue>>`:
/// a JSON object gives its members, each value as its raw text; other text is refused.
#[verifier::external_body]
fn object_members(text: &str) -> (r: Option<Vec<(String, String)>>)
    ensures
        json_members_of(text@) == match r {
            Some(v) => Some(members_view(v@)),
            None => None::<Seq<(Seq<char>, Seq<char>)>>,
        },
{
    serde_json::from_str::<BTreeMap<String, Box<RawValue>>>(text).ok().map(
        |m| m.into_iter().map(|(k, v)| (k, v.get().to_string())).collect(),
    )
}

/// Relies on serde_json::from_str, read as a `u8`.
#[verifier::external_body]
pub(crate) fn parse_u8(text: &str) -> (r: Option<u8>)
    ensures
        r == json_u8_of(text@),
{
    serde_json::from_str::<u8>(text).ok()
}

/// Relies on serde_json::from_str, read as a `serde_json::Number`.
#[verifier::external_body]
pub(crate) fn parse_number(text: &str) -> (r: bool)
    ensures
        r == is_json_number(text@),
{
    serde_json::from_str::<serde_json::Number>(text).is_ok()
}

/// The value of the first member named `key` among `members`.
pub fn find_member(members: &Vec<(String, String)>, key: &str) -> (r: Option<String>)
    ensures
        option_view(r) == lookup(members_view(members@), key@),
{
    let ghost all = members_view(members@);
    let wanted = String::from_str(key);
    let mut i: usize = 0;
    assert(all.subrange(0, all.len() as int) =~= all);
    while i < members.len()
        invariant
            i <= members.len(),
            all == members_view(members@),
            wanted@ == key@,
            lookup(all, key@) == lookup(all.subrange(i as int, all.len() as int), key@),
        decreases members.len() - i,
    {
        let ghost rest = all.subrange(i as int, all.len() as int);
        assert(rest[0] == all[i as int]);
        if members[i].0 == wanted {
            return Some(members[i].1.clone());
        }
        assert(rest.drop_first() =~= all.subrange(i + 1, all.len() as int));
        i = i + 1;
    }
    assert(all.subrange(i as int, all.len() as int).len() == 0);
    None
}

/// The raw text of member `key` of the JSON object `text`.
pub fn member(text: &str, key: &str) -> (r: Option<String>)
    ensures
        option_view(r) == member_of(text@, key@),
{
    match object_members(text) {
        Some(members) => find_member(&members, key),
        None => None,
    }
}

} // verus!
