use vstd::prelude::*;

verus! {

/// Declares `serde_json::Value` to Verus: a JSON document as `serde_json` reads it.
#[verifier::external_type_specification]
#[verifier::external_body]
pub struct ExJsonValue(serde_json::Value);

/// One step down into a JSON document: a member of an object by its name,
/// or an element of an array by its position.
pub enum JsonStep {
    Key(Seq<char>),
    Index(usize),
}

/// What stands at one place of a JSON document: a value of one of JSON's
/// kinds, a number by what it reads as a signed and as an unsigned 64-bit
/// integer (none for a float or where it does not fit) and by the text
/// `serde_json` writes for it, an array by its length.
pub enum JsonNode {
    Null,
    Bool(bool),
    Number(Option<i64>, Option<u64>, Seq<char>),
    Text(Seq<char>),
    Array(usize),
    Object,
}

/// A JSON document as what stands at each of its places, the empty path being the whole.
pub type JsonTree = Map<Seq<JsonStep>, JsonNode>;

/// What a `serde_json::Value` holds, place by place.
pub uninterp spec fn json_tree(v: serde_json::Value) -> JsonTree;

/// What `serde_json` reads from a text: the document, or its error message.
pub uninterp spec fn parsed_json(text: Seq<char>) -> Result<JsonTree, Seq<char>>;

/// The compact JSON text `serde_json` writes for a document.
pub uninterp spec fn json_display(t: JsonTree) -> Seq<char>;

/// The part of a document below one step.
pub open spec fn below(t: JsonTree, step: JsonStep) -> JsonTree {
    Map::new(|p: Seq<JsonStep>| t.dom().contains(seq![step] + p), |p: Seq<JsonStep>| t[seq![step] + p])
}

/// What stands at the top of a document, if anything does.
pub open spec fn root_node(t: JsonTree) -> Option<JsonNode> {
    if t.dom().contains(Seq::<JsonStep>::empty()) {
        Some(t[Seq::<JsonStep>::empty()])
    } else {
        None
    }
}

/// The member of an object by its name (empty when there is none).
pub open spec fn member(t: JsonTree, name: Seq<char>) -> JsonTree {
    below(t, JsonStep::Key(name))
}

/// An element of an array by its position.
pub open spec fn item(t: JsonTree, i: usize) -> JsonTree {
    below(t, JsonStep::Index(i))
}

/// The length of the array at the top, if an array stands there.
pub open spec fn array_len(t: JsonTree) -> Option<usize> {
    match root_node(t) {
        Some(JsonNode::Array(n)) => Some(n),
        _ => None,
    }
}

/// A member as text (`as_str`), if it is a string.
pub open spec fn text_member(t: JsonTree, name: Seq<char>) -> Option<Seq<char>> {
    match root_node(member(t, name)) {
        Some(JsonNode::Text(s)) => Some(s),
        _ => None,
    }
}

/// A member as an unsigned integer (`as_u64`).
pub open spec fn u64_member(t: JsonTree, name: Seq<char>) -> Option<u64> {
    match root_node(member(t, name)) {
        Some(JsonNode::Number(_, u, _)) => u,
        _ => None,
    }
}

/// A member as a signed integer (`as_i64`).
pub open spec fn i64_member(t: JsonTree, name: Seq<char>) -> Option<i64> {
    match root_node(member(t, name)) {
        Some(JsonNode::Number(i, _, _)) => i,
        _ => None,
    }
}

/// What stands at the top of a JSON value, as plain values.
pub enum JsonKind {
    Null,
    Bool(bool),
    Number(Option<i64>, Option<u64>, String),
    Text(String),
    Array(usize),
    Object,
}

/// The node a kind stands for.
pub open spec fn node_of(k: JsonKind) -> JsonNode {
    match k {
        JsonKind::Null => JsonNode::Null,
        JsonKind::Bool(b) => JsonNode::Bool(b),
        JsonKind::Number(i, u, t) => JsonNode::Number(i, u, t@),
        JsonKind::Text(s) => JsonNode::Text(s@),
        JsonKind::Array(n) => JsonNode::Array(n),
        JsonKind::Object => JsonNode::Object,
    }
}

/// Reads a JSON text.
///
/// Trusted: `serde_json::from_str` into a `serde_json::Value`, its error as
/// text. Claimed: the document or the message is `parsed_json` of the text.
#[verifier::external_body]
pub(crate) fn parse_json(text: &str) -> (r: Result<serde_json::Value, String>)
    ensures
        match r {
            Ok(v) => parsed_json(text@) == Ok::<JsonTree, Seq<char>>(json_tree(v)),
            Err(e) => parsed_json(text@) == Err::<JsonTree, Seq<char>>(e@),
        },
{
    match serde_json::from_str::<serde_json::Value>(text) {
        Ok(v) => Ok(v),
        Err(e) => Err(e.to_string()),
    }
}

/// What stands at the top of a JSON value.
///
/// Trusted: a `match` on `serde_json::Value`'s variants, a number read with
/// `Number::as_i64`, `Number::as_u64` and its `Display`, a string copied, an
/// array's `len`. Claimed: a value always has a top, and it is the kind returned.
#[verifier::external_body]
pub(crate) fn json_root(v: &serde_json::Value) -> (r: JsonKind)
    ensures
        root_node(json_tree(*v)) == Some(node_of(r)),
{
    match v {
        serde_json::Value::Null => JsonKind::Null,
        serde_json::Value::Bool(b) => JsonKind::Bool(*b),
        serde_json::Value::Number(n) => JsonKind::Number(n.as_i64(), n.as_u64(), n.to_string()),
        serde_json::Value::String(s) => JsonKind::Text(s.clone()),
        serde_json::Value::Array(a) => JsonKind::Array(a.len()),
        serde_json::Value::Object(_) => JsonKind::Object,
    }
}

/// An element of an array.
///
/// Trusted: `serde_json::Value`'s indexing by position. Claimed: on an
/// array and a position below its length, the element is the part of the
/// document below that position.
#[verifier::external_body]
pub(crate) fn json_item(v: &serde_json::Value, i: usize) -> (r: &serde_json::Value)
    requires
        array_len(json_tree(*v)) matches Some(n) && i < n,
    ensures
        json_tree(*r) == item(json_tree(*v), i),
{
    &v[i]
}

/// A member of an object by its name.
///
/// Trusted: `serde_json::Value::get` with a name. Claimed: it gives the part
/// of the document below that name when there is one, and none otherwise.
#[verifier::external_body]
pub(crate) fn json_get<'a>(v: &'a serde_json::Value, name: &str) -> (r: Option<&'a serde_json::Value>)
    ensures
        match r {
            Some(c) => json_tree(*c) == member(json_tree(*v), name@) && root_node(
                member(json_tree(*v), name@),
            ) is Some,
            None => root_node(member(json_tree(*v), name@)) is None,
        },
{
    v.get(name)
}

/// A JSON value as compact JSON text.
///
/// Trusted: `serde_json::Value`'s `Display`. Claimed: the text is
/// `json_display` of the document.
#[verifier::external_body]
pub(crate) fn json_text(v: &serde_json::Value) -> (r: String)
    ensures
        r@ == json_display(json_tree(*v)),
{
    v.to_string()
}

/// An optional string by its text.
pub open spec fn opt_text(o: Option<String>) -> Option<Seq<char>> {
    match o {
        Some(s) => Some(s@),
        None => None,
    }
}

/// A member as text, if it is a string.
pub fn text_at(v: &serde_json::Value, name: &str) -> (r: Option<String>)
    ensures
        opt_text(r) == text_member(json_tree(*v), name@),
{
    match json_get(v, name) {
        Some(c) => match json_root(c) {
            JsonKind::Text(s) => Some(s),
            _ => None,
        },
        None => None,
    }
}

/// A member as an unsigned integer, if it is one.
pub fn u64_at(v: &serde_json::Value, name: &str) -> (r: Option<u64>)
    ensures
        r == u64_member(json_tree(*v), name@),
{
    match json_get(v, name) {
        Some(c) => match json_root(c) {
            JsonKind::Number(_, u, _) => u,
            _ => None,
        },
        None => None,
    }
}

/// A member as a signed integer, if it is one.
pub fn i64_at(v: &serde_json::Value, name: &str) -> (r: Option<i64>)
    ensures
        r == i64_member(json_tree(*v), name@),
{
    match json_get(v, name) {
        Some(c) => match json_root(c) {
            JsonKind::Number(i, _, _) => i,
            _ => None,
        },
        None => None,
    }
}

/// The length of a value, if it is an array.
pub fn array_length(v: &serde_json::Value) -> (r: Option<usize>)
    ensures
        r == array_len(json_tree(*v)),
{
    match json_root(v) {
        JsonKind::Array(n) => Some(n),
        _ => None,
    }
}

} // verus!
