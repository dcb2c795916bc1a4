//! The JSON bodies of the remote service, read through serde_json.
use vstd::prelude::*;

verus! {

/// What the adapter reads of one member's value.
#[derive(Debug, Clone, PartialEq, Eq)]
pub enum JsonScalar {
    Null,
    Flag(bool),
    Text(String),
    /// A number, an array or an object.
    Other,
}

/// One member of a JSON object.
#[derive(Debug, Clone, PartialEq, Eq)]
pub struct JsonMember {
    pub key: String,
    pub value: JsonScalar,
}

/// A member as (key, its string if it is one, its boolean if it is one,
/// whether it is `null`).
pub type MemberView = (Seq<char>, Option<Seq<char>>, Option<bool>, bool);

impl View for JsonMember {
    type V = MemberView;

    open spec fn view(&self) -> MemberView {
        match self.value {
            JsonScalar::Null => (self.key@, None, None, true),
            JsonScalar::Flag(b) => (self.key@, None, Some(b), false),
            JsonScalar::Text(s) => (self.key@, Some(s@), None, false),
            JsonScalar::Other => (self.key@, None, None, false),
        }
    }
}

/// The members of the JSON object written in `text`, in the order that
/// serde_json's map gives them, or `None` when `text` is not a JSON object.
pub uninterp spec fn json_object_members(text: Seq<char>) -> Option<
    Seq<(Seq<char>, Option<Seq<char>>, Option<bool>, bool)>,
>;

/// The views of the members, in order.
pub open spec fn members_view(ms: Seq<JsonMember>) -> Seq<MemberView> {
    ms.map_values(|m: JsonMember| m@)
}

/// Relies on `serde_json::from_str::<serde_json::Value>`: the members of the
/// object that `text` holds, each value reduced to what the adapter reads.
#[verifier::external_body]
pub(crate) fn parse_object(text: &str) -> (r: Option<Vec<JsonMember>>)
    ensures
        r is Some <==> json_object_members(text@) is Some,
        r matches Some(ms) ==> members_view(ms@) == json_object_members(text@)->0,
{
    match serde_json::from_str::<serde_json::Value>(text) {
        Ok(serde_json::Value::Object(map)) => Some(map.into_iter().map(|(key, v)| JsonMember {
            key,
            value: match v {
                serde_json::Value::Null => JsonScalar::Null,
                serde_json::Value::Bool(b) => JsonScalar::Flag(b),
                serde_json::Value::String(s) => JsonScalar::Text(s),
                _ => JsonScalar::Other,
            },
        }).collect()),
        _ => None,
    }
}

/// The first member of `ms` whose key is `key`.
pub open spec fn member(ms: Seq<MemberView>, key: Seq<char>) -> Option<MemberView>
    decreases ms.len(),
{
    if ms.len() == 0 {
        None
    } else if ms[0].0 == key {
        Some(ms[0])
    } else {
        member(ms.skip(1), key)
    }
}

/// The first member of `ms` whose key is `key`.
pub fn find_member<'a>(ms: &'a Vec<JsonMember>, key: &str) -> (r: Option<&'a JsonMember>)
    ensures
        match r {
            Some(m) => member(members_view(ms@), key@) == Some(m@),
            None => member(members_view(ms@), key@) is None,
        },
{
    let k = key.to_string();
    let mut i: usize = 0;
    assert(members_view(ms@).skip(0) =~= members_view(ms@));
    while i < ms.len()
        invariant
            i <= ms@.len(),
            k@ == key@,
            member(members_view(ms@), key@) == member(members_view(ms@).skip(i as int), key@),
        decreases ms@.len() - i,
    {
        let ghost rest = members_view(ms@).skip(i as int);
        assert(rest[0] == ms@[i as int]@);
        assert(rest.skip(1) =~= members_view(ms@).skip(i + 1));
        if ms[i].key == k {
            return Some(&ms[i]);
        }
        i = i + 1;
    }
    None
}

} // verus!
