//! In-memory JSON documents and their mathematical model.
//!
//! Every on-disk file of the store is a JSON document. The library works
//! on [`JsonNode`] values; contracts speak of [`JsonSpec`], the
//! mathematical view of a document. Parsing text into a document is the
//! one step done by an outside crate, behind the trusted items at the
//! bottom of this file.

use vstd::prelude::*;

verus! {

/// Mathematical model of a JSON document.
///
/// A number keeps its value only when it is a non-negative integer that
/// fits in `u64`; the store's logic never reads any other number.
#[verifier::ext_equal]
pub enum JsonSpec {
    Null,
    Bool(bool),
    Num(Option<u64>),
    Str(Seq<char>),
    Arr(Seq<JsonSpec>),
    Obj(Seq<(Seq<char>, JsonSpec)>),
}

/// A JSON document held in memory.
///
/// Object fields keep their order and may in principle repeat a key;
/// field lookup takes the first match.
pub enum JsonNode {
    Null,
    Bool(bool),
    Num(Option<u64>),
    Str(String),
    Arr(Vec<JsonNode>),
    Obj(Vec<(String, JsonNode)>),
}

/// The view of a document: the same tree over mathematical sequences.
pub open spec fn json_view(n: JsonNode) -> JsonSpec
    decreases n,
{
    match n {
        JsonNode::Null => JsonSpec::Null,
        JsonNode::Bool(b) => JsonSpec::Bool(b),
        JsonNode::Num(o) => JsonSpec::Num(o),
        JsonNode::Str(s) => JsonSpec::Str(s@),
        JsonNode::Arr(v) => JsonSpec::Arr(
            Seq::new(
                v@.len(),
                |i: int|
                    if 0 <= i < v@.len() {
                        json_view(v@[i])
                    } else {
                        JsonSpec::Null
                    },
            ),
        ),
        JsonNode::Obj(v) => JsonSpec::Obj(
            Seq::new(
                v@.len(),
                |i: int|
                    if 0 <= i < v@.len() {
                        (v@[i].0@, json_view(v@[i].1))
                    } else {
                        (Seq::empty(), JsonSpec::Null)
                    },
            ),
        ),
    }
}

impl View for JsonNode {
    type V = JsonSpec;

    open spec fn view(&self) -> JsonSpec {
        json_view(*self)
    }
}

impl DeepView for JsonNode {
    type V = JsonSpec;

    open spec fn deep_view(&self) -> JsonSpec {
        json_view(*self)
    }
}

/// An array document's view is the sequence of its elements' views.
pub proof fn lemma_arr_view(v: Vec<JsonNode>)
    ensures
        json_view(JsonNode::Arr(v)) == JsonSpec::Arr(v.deep_view()),
{
    assert(json_view(JsonNode::Arr(v))->Arr_0 =~= v.deep_view());
}

/// An object document's view is the sequence of its fields' views.
pub proof fn lemma_obj_view(v: Vec<(String, JsonNode)>)
    ensures
        json_view(JsonNode::Obj(v)) == JsonSpec::Obj(v.deep_view()),
{
    assert(json_view(JsonNode::Obj(v))->Obj_0 =~= v.deep_view());
}

/// First-match lookup of a key in a sequence of object fields.
pub open spec fn spec_fields_get(fields: Seq<(Seq<char>, JsonSpec)>, key: Seq<char>) -> Option<
    JsonSpec,
>
    decreases fields.len(),
{
    if fields.len() == 0 {
        None
    } else if fields[0].0 == key {
        Some(fields[0].1)
    } else {
        spec_fields_get(fields.drop_first(), key)
    }
}

/// Lookup of a key in a document: `None` unless the document is an
/// object holding the key.
pub open spec fn spec_get(j: JsonSpec, key: Seq<char>) -> Option<JsonSpec> {
    match j {
        JsonSpec::Obj(fields) => spec_fields_get(fields, key),
        _ => None,
    }
}

/// Compares two string slices by their character sequences.
pub fn str_eq(a: &str, b: &str) -> (r: bool)
    ensures
        r == (a@ == b@),
{
    let sa = String::from_str(a);
    let sb = String::from_str(b);
    sa == sb
}

proof fn lemma_fields_get_skip(fields: Seq<(Seq<char>, JsonSpec)>, key: Seq<char>, i: int)
    requires
        0 <= i < fields.len(),
        fields[i].0 != key,
    ensures
        spec_fields_get(fields.skip(i), key) == spec_fields_get(fields.skip(i + 1), key),
{
    assert(fields.skip(i)[0] == fields[i]);
    assert(fields.skip(i).drop_first() =~= fields.skip(i + 1));
}

impl JsonNode {
    /// Looks a key up in this document: the first field of that name
    /// when the document is an object, `None` otherwise.
    pub fn get<'a>(&'a self, key: &str) -> (r: Option<&'a JsonNode>)
        ensures
            match r {
                Some(v) => spec_get(self@, key@) == Some(v@),
                None => spec_get(self@, key@) is None,
            },
    {
        match self {
            JsonNode::Obj(fields) => {
                let ghost fv = self@->Obj_0;
                let mut i: usize = 0;
                proof {
                    assert(self@ == JsonSpec::Obj(fv));
                    assert(fv.len() == fields@.len());
                    assert(fv.skip(0) =~= fv);
                }
                while i < fields.len()
                    invariant
                        0 <= i <= fields.len(),
                        fv.len() == fields@.len(),
                        forall|k: int|
                            0 <= k < fv.len() ==> #[trigger] fv[k] == (
                                fields@[k].0@,
                                json_view(fields@[k].1),
                            ),
                        self@ == JsonSpec::Obj(fv),
                        spec_fields_get(fv, key@) == spec_fields_get(fv.skip(i as int), key@),
                    decreases fields.len() - i,
                {
                    if str_eq(fields[i].0.as_str(), key) {
                        proof {
                            assert(fv.skip(i as int)[0] == fv[i as int]);
                        }
                        return Some(&fields[i].1);
                    }
                    proof {
                        lemma_fields_get_skip(fv, key@, i as int);
                    }
                    i = i + 1;
                }
                proof {
                    assert(fv.skip(fields@.len() as int) =~= Seq::<(Seq<char>, JsonSpec)>::empty());
                }
                None
            },
            _ => None,
        }
    }
}

// ---------------------------------------------------------------------
// Trusted boundary: parsing text with serde_json.
// ---------------------------------------------------------------------

#[verifier::external_type_specification]
#[verifier::external_body]
pub struct ExValue(serde_json::Value);

/// What `serde_json::from_str::<serde_json::Value>` returns on a given
/// text, converted into the library's model: `None` when the text is not
/// valid JSON. serde_json parses deterministically (its objects are
/// ordered maps, not seeded hash maps), so the result is a function of
/// the text alone.
pub uninterp spec fn json_of(s: Seq<char>) -> Option<JsonSpec>;

/// Converts a `serde_json::Value` into the library's document type, one
/// variant for one variant. A number keeps its value only when
/// `serde_json::Number::as_u64` gives one.
#[verifier::external_body]
fn value_to_node(v: serde_json::Value) -> JsonNode {
    match v {
        serde_json::Value::Null => JsonNode::Null,
        serde_json::Value::Bool(b) => JsonNode::Bool(b),
        serde_json::Value::Number(n) => JsonNode::Num(n.as_u64()),
        serde_json::Value::String(s) => JsonNode::Str(s),
        serde_json::Value::Array(a) => JsonNode::Arr(a.into_iter().map(value_to_node).collect()),
        serde_json::Value::Object(o) => JsonNode::Obj(
            o.into_iter().map(|p| (p.0, value_to_node(p.1))).collect(),
        ),
    }
}

/// Relies on `serde_json::from_str::<serde_json::Value>`: parses JSON
/// text, failing on malformed input and on well-formed input nested
/// deeper than the parser's recursion limit. The parsed document, in
/// the library's model, is named `json_of`.
#[verifier::external_body]
pub(crate) fn json_parse(s: &str) -> (r: Option<JsonNode>)
    ensures
        match r {
            Some(n) => json_of(s@) == Some(n@),
            None => json_of(s@) is None,
        },
{
    match serde_json::from_str::<serde_json::Value>(s) {
        Ok(v) => Some(value_to_node(v)),
        Err(_) => None,
    }
}

} // verus!
