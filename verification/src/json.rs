//! A generic JSON tree of plain values, and the trusted parse that builds it.

use vstd::prelude::*;

verus! {

broadcast use vstd::std_specs::vec::axiom_vec_index_decreases;

/// One parsed JSON value. Numbers are split three ways so that the decoder can
/// tell non-negative integers, negative integers and non-integer numbers
/// apart; a non-integer number is carried as its canonical decimal text, since
/// only its sign is ever inspected and the text round-trips exactly.
#[derive(Debug, PartialEq, Eq)]
pub enum Json {
    Null,
    Bool(bool),
    UInt(u64),
    NegInt(i64),
    Decimal(String),
    Str(String),
    Arr(Vec<Json>),
    Obj(Vec<(String, Json)>),
}

/// The mathematical shape of a parsed JSON value.
pub enum JsonV {
    Null,
    Bool(bool),
    UInt(u64),
    NegInt(i64),
    Decimal(Seq<char>),
    Str(Seq<char>),
    Arr(Seq<JsonV>),
    Obj(Seq<(Seq<char>, JsonV)>),
}

impl Json {
    /// The mathematical value of this tree.
    pub open spec fn deep(self) -> JsonV
        decreases self,
    {
        match self {
            Json::Null => JsonV::Null,
            Json::Bool(b) => JsonV::Bool(b),
            Json::UInt(u) => JsonV::UInt(u),
            Json::NegInt(i) => JsonV::NegInt(i),
            Json::Decimal(t) => JsonV::Decimal(t@),
            Json::Str(s) => JsonV::Str(s@),
            Json::Arr(items) => JsonV::Arr(deep_arr(items@)),
            Json::Obj(fields) => JsonV::Obj(deep_obj(fields@)),
        }
    }
}

/// The mathematical values of a sequence of trees, in order.
pub open spec fn deep_arr(items: Seq<Json>) -> Seq<JsonV>
    decreases items,
{
    if items.len() == 0 {
        Seq::empty()
    } else {
        seq![items[0].deep()] + deep_arr(items.drop_first())
    }
}

/// The mathematical values of a sequence of keyed trees, in order.
pub open spec fn deep_obj(fields: Seq<(String, Json)>) -> Seq<(Seq<char>, JsonV)>
    decreases fields,
{
    if fields.len() == 0 {
        Seq::empty()
    } else {
        seq![(fields[0].0@, fields[0].1.deep())] + deep_obj(fields.drop_first())
    }
}

#[verifier::external_type_specification]
#[verifier::external_body]
pub struct ExValue(serde_json::Value);

/// The tree that `serde_json` parses from these bytes, or `None` where they
/// are not well-formed JSON. The parse is a pure function of the bytes alone,
/// so the tree has a name here and the contracts of the decoder speak of it.
pub uninterp spec fn json_tree(bytes: Seq<u8>) -> Option<JsonV>;

/// Relies on the shape of `serde_json::Value` alone: each variant is copied
/// into the crate's own tree, one arm per variant. A number is read through
/// `Number::as_u64` and `Number::as_i64` (exact integers), and otherwise
/// carried as the text that `Number`'s `Display` prints, which is a canonical
/// rendering of the one non-integer value the number holds.
#[verifier::external_body]
fn json_of_value(v: serde_json::Value) -> Json {
    match v {
        serde_json::Value::Null => Json::Null,
        serde_json::Value::Bool(b) => Json::Bool(b),
        serde_json::Value::Number(n) => match (n.as_u64(), n.as_i64()) {
            (Some(u), _) => Json::UInt(u),
            (None, Some(i)) => Json::NegInt(i),
            (None, None) => Json::Decimal(n.to_string()),
        },
        serde_json::Value::String(s) => Json::Str(s),
        serde_json::Value::Array(a) => Json::Arr(a.into_iter().map(json_of_value).collect()),
        serde_json::Value::Object(m) => Json::Obj(
            m.into_iter().map(|(k, x)| (k, json_of_value(x))).collect(),
        ),
    }
}

/// Relies on `serde_json::from_slice::<serde_json::Value>`: it returns `Ok`
/// exactly when the bytes are well-formed JSON, and the value it returns is a
/// function of the bytes alone. `json_of_value` copies that value into the
/// crate's own tree, so the result here is the named tree of the bytes.
#[verifier::external_body]
pub(crate) fn parse_json(bytes: &[u8]) -> (r: Option<Json>)
    ensures
        r is Some <==> json_tree(bytes@) is Some,
        r matches Some(t) ==> json_tree(bytes@) == Some(t.deep()),
{
    match serde_json::from_slice::<serde_json::Value>(bytes) {
        Ok(v) => Some(json_of_value(v)),
        Err(_) => None,
    }
}

/// Each element of `deep_arr` is the deep value of the matching element.
pub proof fn lemma_deep_arr(items: Seq<Json>)
    ensures
        deep_arr(items).len() == items.len(),
        forall|i: int| 0 <= i < items.len() ==> deep_arr(items)[i] == #[trigger] items[i].deep(),
    decreases items.len(),
{
    if items.len() > 0 {
        lemma_deep_arr(items.drop_first());
        assert forall|i: int| 0 <= i < items.len() implies deep_arr(items)[i]
            == #[trigger] items[i].deep() by {
            if i > 0 {
                assert(items.drop_first()[i - 1] == items[i]);
                assert(deep_arr(items)[i] == deep_arr(items.drop_first())[i - 1]);
            }
        }
    }
}

/// Each element of `deep_obj` pairs the key's view with the value's deep value.
pub proof fn lemma_deep_obj(fields: Seq<(String, Json)>)
    ensures
        deep_obj(fields).len() == fields.len(),
        forall|i: int| 0 <= i < fields.len() ==> deep_obj(fields)[i]
            == (#[trigger] fields[i].0@, fields[i].1.deep()),
    decreases fields.len(),
{
    if fields.len() > 0 {
        lemma_deep_obj(fields.drop_first());
        assert forall|i: int| 0 <= i < fields.len() implies deep_obj(fields)[i]
            == (#[trigger] fields[i].0@, fields[i].1.deep()) by {
            if i > 0 {
                assert(fields.drop_first()[i - 1] == fields[i]);
                assert(deep_obj(fields)[i] == deep_obj(fields.drop_first())[i - 1]);
            }
        }
    }
}

} // verus!
