//! Tolerant decoders for legacy JSON payloads.
//!
//! A legacy payload may come in one of three shapes, tried in a fixed
//! priority order, stopping at the first match: a bare array; an object
//! with the field under `data`; an object with the field at top level.
//! Projects are critical: an unmatched shape is an error. Named string
//! arrays are non-critical: an unmatched shape decodes as empty.

use vstd::prelude::*;
use crate::json::{json_of, json_parse, json_view, spec_get, JsonNode, JsonSpec};

verus! {

/// Why a legacy payload was rejected.
#[derive(Debug, Clone, Copy, PartialEq, Eq, Structural)]
pub enum ParseError {
    /// The text is not valid JSON.
    InvalidJson,
    /// No supported shape holds the expected field.
    UnrecognizedShape,
    /// The field was found but an element of it is malformed.
    BadElement,
}

/// Mathematical model of a project record.
#[verifier::ext_equal]
pub struct ProjectSpec {
    pub id: Seq<char>,
    pub name: Seq<char>,
}

/// One project of the projects collection.
#[derive(Debug, Clone, PartialEq, Eq)]
pub struct Project {
    pub id: String,
    pub name: String,
}

impl View for Project {
    type V = ProjectSpec;

    open spec fn view(&self) -> ProjectSpec {
        ProjectSpec { id: self.id@, name: self.name@ }
    }
}

impl DeepView for Project {
    type V = ProjectSpec;

    open spec fn deep_view(&self) -> ProjectSpec {
        self@
    }
}

/// The candidate value for a named sequence field, by the fixed shape
/// priority: the document itself when it is a bare array; else the field
/// under `data`; else the top-level field; else nothing.
pub open spec fn spec_locate(j: JsonSpec, field: Seq<char>) -> Option<JsonSpec> {
    if j is Arr {
        Some(j)
    } else {
        let under_data = match spec_get(j, "data"@) {
            Some(d) => spec_get(d, field),
            None => None,
        };
        if under_data is Some {
            under_data
        } else {
            spec_get(j, field)
        }
    }
}

/// A decoded project: an object holding string fields `id` and `name`.
pub open spec fn spec_decode_project(j: JsonSpec) -> Option<ProjectSpec> {
    match (spec_get(j, "id"@), spec_get(j, "name"@)) {
        (Some(JsonSpec::Str(i)), Some(JsonSpec::Str(n))) => Some(ProjectSpec { id: i, name: n }),
        _ => None,
    }
}

/// Whether every element of the array decodes as a project.
pub open spec fn all_projects_ok(a: Seq<JsonSpec>) -> bool {
    forall|i: int| 0 <= i < a.len() ==> spec_decode_project(#[trigger] a[i]) is Some
}

/// The projects decoded from an array whose elements all decode.
pub open spec fn decoded_projects(a: Seq<JsonSpec>) -> Seq<ProjectSpec> {
    Seq::new(a.len(), |i: int| spec_decode_project(a[i])->Some_0)
}

/// What parsing a legacy projects document yields.
pub open spec fn spec_parse_projects(j: JsonSpec) -> Result<Seq<ProjectSpec>, ParseError> {
    match spec_locate(j, "projects"@) {
        None => Err(ParseError::UnrecognizedShape),
        Some(v) => match v {
            JsonSpec::Arr(a) => if all_projects_ok(a) {
                Ok(decoded_projects(a))
            } else {
                Err(ParseError::BadElement)
            },
            _ => Err(ParseError::BadElement),
        },
    }
}

/// Whether every element of the array is a string.
pub open spec fn all_strings(a: Seq<JsonSpec>) -> bool {
    forall|i: int| 0 <= i < a.len() ==> #[trigger] a[i] is Str
}

/// The character sequences of an array of strings.
pub open spec fn decoded_strings(a: Seq<JsonSpec>) -> Seq<Seq<char>> {
    Seq::new(a.len(), |i: int| a[i]->Str_0)
}

/// What parsing a legacy named string-array document yields. An
/// unmatched shape decodes as the empty sequence: such data is
/// non-critical.
pub open spec fn spec_parse_string_array(j: JsonSpec, field: Seq<char>) -> Result<
    Seq<Seq<char>>,
    ParseError,
> {
    match spec_locate(j, field) {
        None => Ok(Seq::empty()),
        Some(v) => match v {
            JsonSpec::Arr(a) => if all_strings(a) {
                Ok(decoded_strings(a))
            } else {
                Err(ParseError::BadElement)
            },
            _ => Err(ParseError::BadElement),
        },
    }
}

fn locate<'a>(doc: &'a JsonNode, field: &str) -> (r: Option<&'a JsonNode>)
    ensures
        match r {
            Some(v) => spec_locate(doc@, field@) == Some(v@),
            None => spec_locate(doc@, field@) is None,
        },
{
    match doc {
        JsonNode::Arr(_) => Some(doc),
        _ => {
            let under_data = match doc.get("data") {
                Some(d) => d.get(field),
                None => None,
            };
            match under_data {
                Some(v) => Some(v),
                None => doc.get(field),
            }
        },
    }
}

fn decode_project(n: &JsonNode) -> (r: Option<Project>)
    ensures
        match r {
            Some(p) => spec_decode_project(n@) == Some(p@),
            None => spec_decode_project(n@) is None,
        },
{
    let id = match n.get("id") {
        Some(JsonNode::Str(s)) => s.clone(),
        _ => {
            return None;
        },
    };
    let name = match n.get("name") {
        Some(JsonNode::Str(s)) => s.clone(),
        _ => {
            return None;
        },
    };
    Some(Project { id, name })
}

/// Decodes a parsed legacy projects document, trying the three shapes in
/// priority order; fails when no shape matches or an element is not a
/// project record.
#[verifier::loop_isolation(false)]
pub fn decode_projects(doc: &JsonNode) -> (r: Result<Vec<Project>, ParseError>)
    ensures
        match r {
            Ok(v) => spec_parse_projects(doc@) == Ok::<_, ParseError>(v.deep_view()),
            Err(e) => spec_parse_projects(doc@) == Err::<Seq<ProjectSpec>, _>(e),
        },
{
    match locate(doc, "projects") {
        None => Err(ParseError::UnrecognizedShape),
        Some(v) => match v {
            JsonNode::Arr(items) => {
                let ghost a = v@->Arr_0;
                proof {
                    assert(v@ == JsonSpec::Arr(a));
                    assert(a.len() == items@.len());
                    assert forall|k: int| 0 <= k < a.len() implies a[k] == json_view(
                        #[trigger] items@[k],
                    ) by {}
                }
                let mut out: Vec<Project> = Vec::new();
                let mut i: usize = 0;
                while i < items.len()
                    invariant
                        i <= items.len(),
                        a.len() == items@.len(),
                        forall|k: int| 0 <= k < a.len() ==> a[k] == json_view(#[trigger] items@[k]),
                        forall|k: int|
                            0 <= k < i ==> spec_decode_project(#[trigger] a[k]) is Some,
                        out@.len() == i,
                        forall|k: int|
                            0 <= k < i ==> (#[trigger] out@[k])@ == spec_decode_project(
                                a[k],
                            )->Some_0,
                    decreases items.len() - i,
                {
                    match decode_project(&items[i]) {
                        Some(p) => {
                            out.push(p);
                        },
                        None => {
                            proof {
                                assert(spec_decode_project(a[i as int]) is None);
                                assert(!all_projects_ok(a));
                            }
                            return Err(ParseError::BadElement);
                        },
                    }
                    i = i + 1;
                }
                proof {
                    assert forall|k: int| 0 <= k < a.len() implies #[trigger] out.deep_view()[k]
                        == decoded_projects(a)[k] by {
                        assert(out.deep_view()[k] == out@[k]@);
                    }
                    assert(out.deep_view() =~= decoded_projects(a));
                }
                Ok(out)
            },
            _ => Err(ParseError::BadElement),
        },
    }
}

/// Decodes a parsed legacy named string-array document, trying the three
/// shapes in priority order; an unmatched shape decodes as empty.
#[verifier::loop_isolation(false)]
pub fn decode_string_array(doc: &JsonNode, field: &str) -> (r: Result<Vec<String>, ParseError>)
    ensures
        match r {
            Ok(v) => spec_parse_string_array(doc@, field@) == Ok::<_, ParseError>(v.deep_view()),
            Err(e) => spec_parse_string_array(doc@, field@) == Err::<Seq<Seq<char>>, _>(e),
        },
{
    match locate(doc, field) {
        None => {
            let out: Vec<String> = Vec::new();
            proof {
                assert(out.deep_view() =~= Seq::<Seq<char>>::empty());
            }
            Ok(out)
        },
        Some(v) => match v {
            JsonNode::Arr(items) => {
                let ghost a = v@->Arr_0;
                proof {
                    assert(v@ == JsonSpec::Arr(a));
                    assert(a.len() == items@.len());
                    assert forall|k: int| 0 <= k < a.len() implies a[k] == json_view(
                        #[trigger] items@[k],
                    ) by {}
                }
                let mut out: Vec<String> = Vec::new();
                let mut i: usize = 0;
                while i < items.len()
                    invariant
                        i <= items.len(),
                        a.len() == items@.len(),
                        forall|k: int| 0 <= k < a.len() ==> a[k] == json_view(#[trigger] items@[k]),
                        forall|k: int| 0 <= k < i ==> #[trigger] a[k] is Str,
                        out@.len() == i,
                        forall|k: int| 0 <= k < i ==> (#[trigger] out@[k])@ == a[k]->Str_0,
                    decreases items.len() - i,
                {
                    match &items[i] {
                        JsonNode::Str(s) => {
                            out.push(s.clone());
                        },
                        _ => {
                            proof {
                                assert(!(a[i as int] is Str));
                                assert(!all_strings(a));
                            }
                            return Err(ParseError::BadElement);
                        },
                    }
                    i = i + 1;
                }
                proof {
                    assert forall|k: int| 0 <= k < a.len() implies #[trigger] out.deep_view()[k]
                        == decoded_strings(a)[k] by {
                        assert(out.deep_view()[k] == out@[k]@);
                    }
                    assert(out.deep_view() =~= decoded_strings(a));
                }
                Ok(out)
            },
            _ => Err(ParseError::BadElement),
        },
    }
}

/// Parses legacy projects text: JSON parsing by the trusted boundary,
/// then shape-tolerant decoding.
pub fn parse_old_projects(content: &str) -> (r: Result<Vec<Project>, ParseError>)
    ensures
        match r {
            Ok(v) => json_of(content@) matches Some(j) && spec_parse_projects(j) == Ok::<
                _,
                ParseError,
            >(v.deep_view()),
            Err(e) => (e == ParseError::InvalidJson && json_of(content@) is None) || (json_of(
                content@,
            ) matches Some(j) && spec_parse_projects(j) == Err::<Seq<ProjectSpec>, _>(e)),
        },
{
    match json_parse(content) {
        None => Err(ParseError::InvalidJson),
        Some(n) => decode_projects(&n),
    }
}

/// Parses legacy named string-array text: JSON parsing by the trusted
/// boundary, then shape-tolerant decoding.
pub fn parse_old_string_array(content: &str, field: &str) -> (r: Result<Vec<String>, ParseError>)
    ensures
        match r {
            Ok(v) => json_of(content@) matches Some(j) && spec_parse_string_array(j, field@)
                == Ok::<_, ParseError>(v.deep_view()),
            Err(e) => (e == ParseError::InvalidJson && json_of(content@) is None) || (json_of(
                content@,
            ) matches Some(j) && spec_parse_string_array(j, field@) == Err::<Seq<Seq<char>>, _>(e)),
        },
{
    match json_parse(content) {
        None => Err(ParseError::InvalidJson),
        Some(n) => decode_string_array(&n, field),
    }
}

/// Shape equivalence for projects: the three supported legacy shapes of
/// one logical array decode to the same value.
pub proof fn lemma_projects_shape_equivalence(a: Seq<JsonSpec>)
    ensures
        spec_parse_projects(
            JsonSpec::Obj(
                seq![("data"@, JsonSpec::Obj(seq![("projects"@, JsonSpec::Arr(a))]))],
            ),
        ) == spec_parse_projects(JsonSpec::Arr(a)),
        spec_parse_projects(JsonSpec::Obj(seq![("projects"@, JsonSpec::Arr(a))]))
            == spec_parse_projects(JsonSpec::Arr(a)),
{
    reveal_strlit("data");
    reveal_strlit("projects");
    let inner = JsonSpec::Obj(seq![("projects"@, JsonSpec::Arr(a))]);
    let wrapped = JsonSpec::Obj(seq![("data"@, inner)]);
    assert(spec_get(wrapped, "data"@) == Some(inner));
    assert(spec_get(inner, "projects"@) == Some(JsonSpec::Arr(a)));
    assert(spec_locate(wrapped, "projects"@) == Some(JsonSpec::Arr(a)));
    assert("data"@.len() == 4);
    assert("projects"@.len() == 8);
    assert("projects"@ != "data"@);
    let fields = seq![("projects"@, JsonSpec::Arr(a))];
    assert(fields.drop_first() =~= Seq::<(Seq<char>, JsonSpec)>::empty());
    assert(crate::json::spec_fields_get(fields.drop_first(), "data"@) is None);
    assert(spec_get(inner, "data"@) is None);
    assert(spec_locate(inner, "projects"@) == Some(JsonSpec::Arr(a)));
}

/// Shape equivalence for named string arrays: the three supported legacy
/// shapes of one logical array decode to the same value, for any field
/// name other than `data` (an array stored under the name `data` itself
/// is found by the second shape first).
pub proof fn lemma_string_array_shape_equivalence(a: Seq<JsonSpec>, field: Seq<char>)
    requires
        field != "data"@,
    ensures
        spec_parse_string_array(
            JsonSpec::Obj(seq![("data"@, JsonSpec::Obj(seq![(field, JsonSpec::Arr(a))]))]),
            field,
        ) == spec_parse_string_array(JsonSpec::Arr(a), field),
        spec_parse_string_array(JsonSpec::Obj(seq![(field, JsonSpec::Arr(a))]), field)
            == spec_parse_string_array(JsonSpec::Arr(a), field),
{
    let inner = JsonSpec::Obj(seq![(field, JsonSpec::Arr(a))]);
    let wrapped = JsonSpec::Obj(seq![("data"@, inner)]);
    assert(spec_get(wrapped, "data"@) == Some(inner));
    assert(spec_get(inner, field) == Some(JsonSpec::Arr(a)));
    assert(spec_locate(wrapped, field) == Some(JsonSpec::Arr(a)));
    let fields = seq![(field, JsonSpec::Arr(a))];
    assert(fields.drop_first() =~= Seq::<(Seq<char>, JsonSpec)>::empty());
    assert(crate::json::spec_fields_get(fields.drop_first(), "data"@) is None);
    assert(spec_get(inner, "data"@) is None);
    assert(spec_locate(inner, field) == Some(JsonSpec::Arr(a)));
}

} // verus!
