//! The members of a JSON object, as far as header and claim decoding reads
//! them.
use vstd::prelude::*;

verus! {

#[verifier::external_type_specification]
#[verifier::external_body]
pub struct ExJsonError(serde_json::Error);

/// One member value of a JSON object. Numbers keep their JSON text; arrays
/// and objects keep their compact JSON text.
#[derive(Debug)]
pub enum JsonItem {
    Null,
    Bool(bool),
    Number(String),
    Str(String),
    Other(String),
}

impl JsonItem {
    /// A copy of the item.
    pub fn copy(&self) -> (r: JsonItem)
        ensures
            r@ == self@,
    {
        match self {
            JsonItem::Null => JsonItem::Null,
            JsonItem::Bool(b) => JsonItem::Bool(*b),
            JsonItem::Number(t) => JsonItem::Number(t.clone()),
            JsonItem::Str(s) => JsonItem::Str(s.clone()),
            JsonItem::Other(t) => JsonItem::Other(t.clone()),
        }
    }
}

/// The mathematical value of a [`JsonItem`].
pub enum JsonItemModel {
    Null,
    Bool(bool),
    Number(Seq<char>),
    Str(Seq<char>),
    Other(Seq<char>),
}

impl View for JsonItem {
    type V = JsonItemModel;

    open spec fn view(&self) -> JsonItemModel {
        match self {
            JsonItem::Null => JsonItemModel::Null,
            JsonItem::Bool(b) => JsonItemModel::Bool(*b),
            JsonItem::Number(t) => JsonItemModel::Number(t@),
            JsonItem::Str(s) => JsonItemModel::Str(s@),
            JsonItem::Other(t) => JsonItemModel::Other(t@),
        }
    }
}

/// The members of an object: names with their values, in order.
pub type Members = Seq<(Seq<char>, JsonItemModel)>;

pub open spec fn members_view(v: Seq<(String, JsonItem)>) -> Members {
    v.map_values(|p: (String, JsonItem)| (p.0@, p.1@))
}

/// The members of the JSON object that `text` holds, or `None` where `text`
/// is not one JSON object. The object is read into a map, so a name given
/// twice keeps its last value.
pub uninterp spec fn json_object_members(text: Seq<char>) -> Option<Members>;

/// Relies on `serde_json::from_str` into a map from names to
/// `serde_json::Value`: it succeeds exactly on the texts that hold one JSON
/// object, and what it yields depends on the text alone.
#[verifier::external_body]
pub(crate) fn parse_object(text: &str) -> (r: Result<Vec<(String, JsonItem)>, serde_json::Error>)
    ensures
        r is Ok <==> json_object_members(text@) is Some,
        r is Ok ==> members_view(r->Ok_0@) == json_object_members(text@)->Some_0,
{
    let map: std::collections::BTreeMap<String, serde_json::Value> = serde_json::from_str(text)?;
    Ok(map.into_iter().map(|(k, v)| (k, match v {
        serde_json::Value::Null => JsonItem::Null,
        serde_json::Value::Bool(b) => JsonItem::Bool(b),
        serde_json::Value::Number(n) => JsonItem::Number(n.to_string()),
        serde_json::Value::String(s) => JsonItem::Str(s),
        other => JsonItem::Other(other.to_string()),
    })).collect())
}

/// The value of the first member named `name`.
pub open spec fn lookup(m: Members, name: Seq<char>) -> Option<JsonItemModel>
    decreases m.len(),
{
    if m.len() == 0 {
        None
    } else if m[0].0 == name {
        Some(m[0].1)
    } else {
        lookup(m.drop_first(), name)
    }
}

/// Whether two texts are equal.
pub(crate) fn str_eq(a: &str, b: &str) -> (r: bool)
    ensures
        r == (a@ == b@),
{
    a.to_owned() == b.to_owned()
}

/// The position of the first member named `name`.
pub(crate) fn find_member(m: &Vec<(String, JsonItem)>, name: &str) -> (r: Option<usize>)
    ensures
        match r {
            None => lookup(members_view(m@), name@) is None,
            Some(i) => i < m@.len() && lookup(members_view(m@), name@) == Some(m@[i as int].1@),
        },
{
    let ghost mv = members_view(m@);
    assert(mv.subrange(0, mv.len() as int) =~= mv);
    let mut i: usize = 0;
    while i < m.len()
        invariant
            i <= m@.len(),
            mv == members_view(m@),
            mv.len() == m@.len(),
            lookup(mv, name@) == lookup(mv.subrange(i as int, mv.len() as int), name@),
        decreases m@.len() - i,
    {
        let ghost rest = mv.subrange(i as int, mv.len() as int);
        assert(rest.drop_first() =~= mv.subrange(i + 1, mv.len() as int));
        if str_eq(m[i].0.as_str(), name) {
            return Some(i);
        }
        i = i + 1;
    }
    None
}

/// A member that may be absent or null, else must be a string.
pub open spec fn optional_string(m: Members, name: Seq<char>) -> Option<Option<Seq<char>>> {
    match lookup(m, name) {
        None => Some(None),
        Some(JsonItemModel::Null) => Some(None),
        Some(JsonItemModel::Str(s)) => Some(Some(s)),
        _ => None,
    }
}

/// A member that must be present and a string.
pub open spec fn required_string(m: Members, name: Seq<char>) -> Option<Seq<char>> {
    match lookup(m, name) {
        Some(JsonItemModel::Str(s)) => Some(s),
        _ => None,
    }
}

/// A member that may be absent or null, else must be a number that is an
/// unsigned 64-bit integer.
pub open spec fn optional_u64(m: Members, name: Seq<char>) -> Option<Option<u64>> {
    match lookup(m, name) {
        None => Some(None),
        Some(JsonItemModel::Null) => Some(None),
        Some(JsonItemModel::Number(t)) => match crate::decimal::parse_unsigned(
            t,
            u64::MAX as nat,
        ) {
            Ok(v) => Some(Some(v as u64)),
            Err(_) => None,
        },
        _ => None,
    }
}

pub(crate) fn read_optional_string(m: &Vec<(String, JsonItem)>, name: &str) -> (r: Option<
    Option<String>,
>)
    ensures
        match (r, optional_string(members_view(m@), name@)) {
            (None, None) => true,
            (Some(None), Some(None)) => true,
            (Some(Some(s)), Some(Some(t))) => s@ == t,
            _ => false,
        },
{
    match find_member(m, name) {
        None => Some(None),
        Some(i) => match &m[i].1 {
            JsonItem::Null => Some(None),
            JsonItem::Str(s) => Some(Some(s.clone())),
            _ => None,
        },
    }
}

pub(crate) fn read_required_string(m: &Vec<(String, JsonItem)>, name: &str) -> (r: Option<String>)
    ensures
        match (r, required_string(members_view(m@), name@)) {
            (None, None) => true,
            (Some(s), Some(t)) => s@ == t,
            _ => false,
        },
{
    match find_member(m, name) {
        None => None,
        Some(i) => match &m[i].1 {
            JsonItem::Str(s) => Some(s.clone()),
            _ => None,
        },
    }
}

pub(crate) fn read_optional_u64(m: &Vec<(String, JsonItem)>, name: &str) -> (r: Option<Option<u64>>)
    ensures
        r == optional_u64(members_view(m@), name@),
{
    match find_member(m, name) {
        None => Some(None),
        Some(i) => match &m[i].1 {
            JsonItem::Null => Some(None),
            JsonItem::Number(t) => match crate::decimal::parse_unsigned_text(t.as_str(), u64::MAX) {
                Ok(v) => Some(Some(v)),
                Err(_) => None,
            },
            _ => None,
        },
    }
}

} // verus!
