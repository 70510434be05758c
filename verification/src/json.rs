//! Reading and writing JSON text.
//!
//! JSON is read one level at a time: a value's shape is known, and what
//! lies inside a list or a mapping is kept as JSON text until it is read
//! in turn.

use vstd::prelude::*;
use serde_json::Value;
use crate::text::{distinct, same_text, texts};

verus! {

/// `serde_json::Error`, the error of reading or writing JSON. Nothing is
/// claimed of what it holds: it is only told apart from success.
#[verifier::external_type_specification]
#[verifier::external_body]
pub struct ExJsonError(serde_json::Error);

/// A JSON value, one level deep. A number is kept as the text that writes
/// it. The items of a list and the members of a mapping are kept as JSON
/// text, the members in the order of the mapping.
pub enum JsonShape {
    Null,
    Flag(bool),
    Number(String),
    Text(String),
    List(Vec<String>),
    Object(Vec<(String, String)>),
}

/// A shape as plain values.
pub enum JsonShapeView {
    Null,
    Flag(bool),
    Number(Seq<char>),
    Text(Seq<char>),
    List(Seq<Seq<char>>),
    Object(Seq<(Seq<char>, Seq<char>)>),
}

/// The members of a mapping as pairs of key and JSON text.
pub open spec fn members_view(members: Seq<(String, String)>) -> Seq<(Seq<char>, Seq<char>)> {
    Seq::new(members.len(), |i: int| (members[i].0@, members[i].1@))
}

/// The keys of a mapping's members, in order.
pub open spec fn keys_of(members: Seq<(Seq<char>, Seq<char>)>) -> Seq<Seq<char>> {
    Seq::new(members.len(), |i: int| members[i].0)
}

impl View for JsonShape {
    type V = JsonShapeView;

    open spec fn view(&self) -> JsonShapeView {
        match self {
            JsonShape::Null => JsonShapeView::Null,
            JsonShape::Flag(b) => JsonShapeView::Flag(*b),
            JsonShape::Number(n) => JsonShapeView::Number(n@),
            JsonShape::Text(s) => JsonShapeView::Text(s@),
            JsonShape::List(items) => JsonShapeView::List(texts(items@)),
            JsonShape::Object(members) => JsonShapeView::Object(members_view(members@)),
        }
    }
}

/// The view of a shape that may be missing.
pub open spec fn shape_view(shape: Option<JsonShape>) -> Option<JsonShapeView> {
    match shape {
        Some(s) => Some(s@),
        None => None,
    }
}

impl JsonShapeView {
    /// In a mapping no key occurs twice.
    pub open spec fn well_formed(self) -> bool {
        self matches JsonShapeView::Object(members) ==> distinct(keys_of(members))
    }
}

/// The shape that `serde_json` reads from a text; `None` for a text that
/// it refuses.
pub uninterp spec fn json_shape(text: Seq<char>) -> Option<JsonShapeView>;

/// The JSON string literal that `serde_json` writes for a text, quotes
/// included; `None` where it writes none.
pub uninterp spec fn json_quoted(text: Seq<char>) -> Option<Seq<char>>;

/// Calls `serde_json::from_str` for a `serde_json::Value` and hands out
/// the value's top level: its variant, a number as `Display` writes it, and
/// each item or member as the compact JSON text that `Display` writes for
/// it. The contract claims that the same text always gives the same
/// answer, shape or error, and that the keys of a mapping are distinct, as
/// they are in `serde_json::Map`.
#[verifier::external_body]
fn read_json(text: &str) -> (r: Result<JsonShape, serde_json::Error>)
    ensures
        match r {
            Ok(shape) => json_shape(text@) == Some(shape@) && shape@.well_formed(),
            Err(_) => json_shape(text@) is None,
        },
{
    Ok(match serde_json::from_str::<Value>(text)? {
        Value::Null => JsonShape::Null,
        Value::Bool(b) => JsonShape::Flag(b),
        Value::Number(n) => JsonShape::Number(n.to_string()),
        Value::String(s) => JsonShape::Text(s),
        Value::Array(a) => JsonShape::List(a.iter().map(|x| x.to_string()).collect()),
        Value::Object(m) => JsonShape::Object(
            m.iter().map(|(k, x)| (k.clone(), x.to_string())).collect(),
        ),
    })
}

/// Calls `serde_json::to_string` on a string slice, which writes it as a
/// JSON string literal with the escapes that JSON asks for. The contract
/// claims only that the same text always gives the same literal.
#[verifier::external_body]
fn quote_json(text: &str) -> (r: Result<String, serde_json::Error>)
    ensures
        match r {
            Ok(literal) => json_quoted(text@) == Some(literal@),
            Err(_) => json_quoted(text@) is None,
        },
{
    serde_json::to_string(text)
}

/// The JSON text of the first member with the given key.
pub open spec fn member_of(members: Seq<(Seq<char>, Seq<char>)>, key: Seq<char>) -> Option<Seq<char>>
    decreases members.len(),
{
    if members.len() == 0 {
        None
    } else if members[0].0 == key {
        Some(members[0].1)
    } else {
        member_of(members.drop_first(), key)
    }
}

/// What a mapping holds under a key.
pub enum Member {
    /// There is no member with the key.
    Absent,
    /// There is one, and this is its shape.
    Present(JsonShape),
    /// There is one, but its text writes no JSON value.
    Unreadable,
}

/// A member as plain values.
pub enum MemberView {
    Absent,
    Present(JsonShapeView),
    Unreadable,
}

impl View for Member {
    type V = MemberView;

    open spec fn view(&self) -> MemberView {
        match self {
            Member::Absent => MemberView::Absent,
            Member::Present(shape) => MemberView::Present(shape@),
            Member::Unreadable => MemberView::Unreadable,
        }
    }
}

/// What the members of a mapping hold under a key.
pub open spec fn member_in(members: Seq<(Seq<char>, Seq<char>)>, key: Seq<char>) -> MemberView {
    match member_of(members, key) {
        None => MemberView::Absent,
        Some(text) => match json_shape(text) {
            Some(shape) => MemberView::Present(shape),
            None => MemberView::Unreadable,
        },
    }
}

/// What a parameter text holds under a key. A text that writes `null`
/// holds nothing; one that writes neither `null` nor a mapping cannot be
/// read as parameters.
pub open spec fn parameter_in(parameters: Seq<char>, key: Seq<char>) -> MemberView {
    match json_shape(parameters) {
        Some(JsonShapeView::Null) => MemberView::Absent,
        Some(JsonShapeView::Object(members)) => member_in(members, key),
        _ => MemberView::Unreadable,
    }
}

/// Finds the JSON text of the first member with the given key.
pub fn find_member<'a>(members: &'a Vec<(String, String)>, key: &str) -> (r: Option<&'a String>)
    ensures
        match r {
            Some(text) => member_of(members_view(members@), key@) == Some(text@),
            None => member_of(members_view(members@), key@) is None,
        },
{
    let ghost all = members_view(members@);
    let mut i: usize = 0;
    assert(all.skip(0) =~= all);
    while i < members.len()
        invariant
            i <= members.len(),
            all == members_view(members@),
            member_of(all, key@) == member_of(all.skip(i as int), key@),
        decreases members.len() - i,
    {
        let ghost rest = all.skip(i as int);
        assert(rest[0] == (members[i as int].0@, members[i as int].1@));
        if same_text(members[i].0.as_str(), key) {
            return Some(&members[i].1);
        }
        assert(rest.drop_first() =~= all.skip(i as int + 1));
        i += 1;
    }
    assert(all.skip(i as int).len() == 0);
    None
}

impl JsonShape {
    /// Reads the top level of a JSON text. `None` where the text writes no
    /// JSON value.
    pub fn parse(text: &str) -> (r: Option<JsonShape>)
        ensures
            match r {
                Some(shape) => json_shape(text@) == Some(shape@) && shape@.well_formed(),
                None => json_shape(text@) is None,
            },
    {
        match read_json(text) {
            Ok(shape) => Some(shape),
            Err(_) => None,
        }
    }
}

/// Reads what the members of a mapping hold under a key.
pub fn read_member(members: &Vec<(String, String)>, key: &str) -> (r: Member)
    ensures
        r@ == member_in(members_view(members@), key@),
{
    match find_member(members, key) {
        None => Member::Absent,
        Some(text) => match JsonShape::parse(text.as_str()) {
            Some(shape) => Member::Present(shape),
            None => Member::Unreadable,
        },
    }
}

/// Reads what a parameter text holds under a key.
pub fn read_parameter(parameters: &str, key: &str) -> (r: Member)
    ensures
        r@ == parameter_in(parameters@, key@),
{
    match JsonShape::parse(parameters) {
        Some(JsonShape::Null) => Member::Absent,
        Some(JsonShape::Object(members)) => read_member(&members, key),
        _ => Member::Unreadable,
    }
}

/// Writes a text as a JSON string literal. `None` where it cannot be written.
pub fn quote(text: &str) -> (r: Option<String>)
    ensures
        match r {
            Some(literal) => json_quoted(text@) == Some(literal@),
            None => json_quoted(text@) is None,
        },
{
    match quote_json(text) {
        Ok(literal) => Some(literal),
        Err(_) => None,
    }
}

} // verus!
