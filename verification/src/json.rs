//! JSON documents, as the command channel answers with them.

use vstd::prelude::*;

use crate::error::{DecodeError, DecodeErrorView};

verus! {

/// `serde_json::Value`, of which nothing is seen but through `outermost`.
#[verifier::external_type_specification]
#[verifier::external_body]
pub struct ExValue(serde_json::Value);

/// A JSON document, with what this library reads of it.
#[derive(Debug, PartialEq, Eq)]
pub enum Json {
    Null,
    Bool(bool),
    /// A number. Where it is a whole number of 64 bits, signed, this holds
    /// it; of any other number it holds nothing.
    Number(Option<i64>),
    Text(String),
    Array(Vec<Json>),
    /// An object: its members, each with its name.
    Object(Vec<(String, Json)>),
}

/// A JSON document as a value of mathematics.
pub enum JsonView {
    Null,
    Bool(bool),
    Number(Option<i64>),
    Text(Seq<char>),
    Array(Seq<JsonView>),
    Object(Seq<(Seq<char>, JsonView)>),
}

/// The document that `json` holds.
pub open spec fn json_view(json: Json) -> JsonView
    decreases json,
{
    match json {
        Json::Null => JsonView::Null,
        Json::Bool(flag) => JsonView::Bool(flag),
        Json::Number(number) => JsonView::Number(number),
        Json::Text(text) => JsonView::Text(text@),
        Json::Array(items) => JsonView::Array(
            Seq::new(
                items.len() as nat,
                |i: int|
                    if 0 <= i < items.len() {
                        json_view(items[i])
                    } else {
                        JsonView::Null
                    },
            ),
        ),
        Json::Object(members) => JsonView::Object(
            Seq::new(
                members.len() as nat,
                |i: int|
                    if 0 <= i < members.len() {
                        (members[i].0@, json_view(members[i].1))
                    } else {
                        (Seq::empty(), JsonView::Null)
                    },
            ),
        ),
    }
}

impl View for Json {
    type V = JsonView;

    open spec fn view(&self) -> JsonView {
        json_view(*self)
    }
}

/// The view of an array is made of the views of its items.
pub proof fn lemma_array_view(json: Json)
    requires
        json is Array,
    ensures
        json@ is Array,
        json@->Array_0.len() == json->Array_0.len(),
        forall|i: int|
            0 <= i < json->Array_0.len() ==> #[trigger] json@->Array_0[i] == json->Array_0[i]@,
{
    let items = json->Array_0;
    let views = Seq::new(items.len() as nat, |i: int| items[i]@);
    assert(json@->Array_0 =~= views);
}

/// The view of an object is made of the names of its members and of the
/// views of their values.
pub proof fn lemma_object_view(json: Json)
    requires
        json is Object,
    ensures
        json@ is Object,
        json@->Object_0.len() == json->Object_0.len(),
        forall|i: int|
            0 <= i < json->Object_0.len() ==> #[trigger] json@->Object_0[i] == (
                json->Object_0[i].0@,
                json->Object_0[i].1@,
            ),
{
    let members = json->Object_0;
    let views = Seq::new(members.len() as nat, |i: int| (members[i].0@, members[i].1@));
    assert(json@->Object_0 =~= views);
}

/// What `serde_json::from_slice` makes of a text: the document it holds, or
/// what the parser says against it.
pub uninterp spec fn json_document(text: Seq<u8>) -> Result<JsonView, Seq<char>>;

/// The document that a `serde_json::Value` holds.
pub uninterp spec fn value_model(value: serde_json::Value) -> JsonView;

/// Calls `serde_json::from_slice` for a `serde_json::Value`, and hands out
/// a `serde_json::Error` as the text that it displays. The contract claims
/// that the outcome depends on the text alone: the same text gives the same
/// document, or the same complaint.
#[verifier::external_body]
fn value_from_slice(text: &[u8]) -> (r: Result<serde_json::Value, String>)
    ensures
        match r {
            Ok(value) => json_document(text@) == Ok::<JsonView, Seq<char>>(value_model(value)),
            Err(message) => json_document(text@) == Err::<JsonView, Seq<char>>(message@),
        },
{
    match serde_json::from_slice::<serde_json::Value>(text) {
        Ok(value) => Ok(value),
        Err(error) => Err(error.to_string()),
    }
}

/// The outermost layer of a `serde_json::Value`: which of the six kinds of
/// value it is, and what it is made of.
enum Layer<'a> {
    Null,
    Bool(bool),
    Number(Option<i64>),
    Text(&'a str),
    Array(&'a Vec<serde_json::Value>),
    Object(Vec<(&'a String, &'a serde_json::Value)>),
}

/// The documents that values hold, in their order.
pub open spec fn item_models(items: Seq<serde_json::Value>) -> Seq<JsonView> {
    Seq::new(items.len(), |i: int| value_model(items[i]))
}

/// The names of members and the documents that their values hold, in their
/// order.
pub open spec fn member_models(members: Seq<(&String, &serde_json::Value)>) -> Seq<
    (Seq<char>, JsonView),
> {
    Seq::new(members.len(), |i: int| (members[i].0@, value_model(*members[i].1)))
}

/// Tells the variants of a `serde_json::Value` apart and hands out what each
/// holds: of a number what `serde_json::Number::as_i64` gives, of an object
/// its members in the order of `serde_json::Map::iter`. The contract claims
/// that the document of the value is made of these parts.
#[verifier::external_body]
fn outermost<'a>(value: &'a serde_json::Value) -> (layer: Layer<'a>)
    ensures
        value_model(*value) == match layer {
            Layer::Null => JsonView::Null,
            Layer::Bool(flag) => JsonView::Bool(flag),
            Layer::Number(number) => JsonView::Number(number),
            Layer::Text(text) => JsonView::Text(text@),
            Layer::Array(items) => JsonView::Array(item_models(items@)),
            Layer::Object(members) => JsonView::Object(member_models(members@)),
        },
{
    match value {
        serde_json::Value::Null => Layer::Null,
        serde_json::Value::Bool(flag) => Layer::Bool(*flag),
        serde_json::Value::Number(number) => Layer::Number(number.as_i64()),
        serde_json::Value::String(text) => Layer::Text(text.as_str()),
        serde_json::Value::Array(items) => Layer::Array(items),
        serde_json::Value::Object(members) => Layer::Object(members.iter().collect()),
    }
}

/// Copies the document that a `serde_json::Value` holds.
fn json_from_value(value: &serde_json::Value) -> (json: Json)
    ensures
        json@ == value_model(*value),
    decreases value_model(*value),
{
    match outermost(value) {
        Layer::Null => Json::Null,
        Layer::Bool(flag) => Json::Bool(flag),
        Layer::Number(number) => Json::Number(number),
        Layer::Text(text) => Json::Text(text.to_owned()),
        Layer::Array(items) => {
            let ghost models = item_models(items@);
            let mut out: Vec<Json> = Vec::new();
            let mut i: usize = 0;
            while i < items.len()
                invariant
                    i <= items.len(),
                    out.len() == i,
                    value_model(*value) == JsonView::Array(models),
                    models == item_models(items@),
                    forall|k: int| 0 <= k < i ==> (#[trigger] out[k])@ == models[k],
                decreases items.len() - i,
            {
                assert(decreases_to!(
                    value_model(*value) => value_model(*value)->Array_0[i as int]
                ));
                let item = json_from_value(&items[i]);
                out.push(item);
                i = i + 1;
            }
            let json = Json::Array(out);
            proof {
                lemma_array_view(json);
                assert(json@->Array_0 =~= models);
            }
            json
        },
        Layer::Object(members) => {
            let ghost models = member_models(members@);
            let mut out: Vec<(String, Json)> = Vec::new();
            let mut i: usize = 0;
            while i < members.len()
                invariant
                    i <= members.len(),
                    out.len() == i,
                    value_model(*value) == JsonView::Object(models),
                    models == member_models(members@),
                    forall|k: int|
                        0 <= k < i ==> ((#[trigger] out[k]).0@, out[k].1@) == models[k],
                decreases members.len() - i,
            {
                assert(decreases_to!(
                    value_model(*value) => value_model(*value)->Object_0[i as int].1
                ));
                let name = members[i].0.clone();
                let item = json_from_value(members[i].1);
                out.push((name, item));
                i = i + 1;
            }
            let json = Json::Object(out);
            proof {
                lemma_object_view(json);
                assert(json@->Object_0 =~= models);
            }
            json
        },
    }
}

/// What reading a text as JSON comes to: the document, or the failure that
/// holds what the parser said.
pub open spec fn parsed(text: Seq<u8>) -> Result<JsonView, DecodeErrorView> {
    match json_document(text) {
        Ok(document) => Ok(document),
        Err(message) => Err(DecodeErrorView::InvalidJson(message)),
    }
}

/// Reads a text as JSON.
pub fn parse(text: &[u8]) -> (r: Result<Json, DecodeError>)
    ensures
        match r {
            Ok(json) => parsed(text@) == Ok::<JsonView, DecodeErrorView>(json@),
            Err(e) => parsed(text@) == Err::<JsonView, DecodeErrorView>(e@),
        },
{
    match value_from_slice(text) {
        Ok(value) => Ok(json_from_value(&value)),
        Err(message) => Err(DecodeError::InvalidJson(message)),
    }
}

} // verus!
