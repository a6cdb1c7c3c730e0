//! Builders and decoders for the store's own documents.
//!
//! Every persisted file shares one envelope: an object holding the frozen
//! schema version, a timestamp, and the domain payload under `data`. The
//! migration marker's payload records the last migration version and one
//! record per performed migration.

use vstd::prelude::*;
use crate::json::{
    json_view, lemma_arr_view, lemma_obj_view, spec_get, spec_fields_get, JsonNode, JsonSpec,
};
use crate::CURRENT_VERSION;

verus! {

// ---------------------------------------------------------------------
// Small document constructors.
// ---------------------------------------------------------------------

/// An object document of one field.
pub fn obj1(k1: &str, v1: JsonNode) -> (r: JsonNode)
    ensures
        r@ == JsonSpec::Obj(seq![(k1@, v1@)]),
{
    let ghost g1 = v1@;
    let mut f: Vec<(String, JsonNode)> = Vec::new();
    f.push((String::from_str(k1), v1));
    proof {
        lemma_obj_view(f);
        assert(f.deep_view() =~= seq![(k1@, g1)]);
    }
    JsonNode::Obj(f)
}

/// An object document of two fields, in order.
pub fn obj2(k1: &str, v1: JsonNode, k2: &str, v2: JsonNode) -> (r: JsonNode)
    ensures
        r@ == JsonSpec::Obj(seq![(k1@, v1@), (k2@, v2@)]),
{
    let ghost g1 = v1@;
    let ghost g2 = v2@;
    let mut f: Vec<(String, JsonNode)> = Vec::new();
    f.push((String::from_str(k1), v1));
    f.push((String::from_str(k2), v2));
    proof {
        lemma_obj_view(f);
        assert(f.deep_view() =~= seq![(k1@, g1), (k2@, g2)]);
    }
    JsonNode::Obj(f)
}

/// An object document of three fields, in order.
pub fn obj3(k1: &str, v1: JsonNode, k2: &str, v2: JsonNode, k3: &str, v3: JsonNode) -> (r: JsonNode)
    ensures
        r@ == JsonSpec::Obj(seq![(k1@, v1@), (k2@, v2@), (k3@, v3@)]),
{
    let ghost g1 = v1@;
    let ghost g2 = v2@;
    let ghost g3 = v3@;
    let mut f: Vec<(String, JsonNode)> = Vec::new();
    f.push((String::from_str(k1), v1));
    f.push((String::from_str(k2), v2));
    f.push((String::from_str(k3), v3));
    proof {
        lemma_obj_view(f);
        assert(f.deep_view() =~= seq![(k1@, g1), (k2@, g2), (k3@, g3)]);
    }
    JsonNode::Obj(f)
}

/// An empty object: the default payload of the opaque domains.
pub fn empty_object() -> (r: JsonNode)
    ensures
        r@ == JsonSpec::Obj(Seq::empty()),
{
    let f: Vec<(String, JsonNode)> = Vec::new();
    proof {
        lemma_obj_view(f);
        assert(f.deep_view() =~= Seq::<(Seq<char>, JsonSpec)>::empty());
    }
    JsonNode::Obj(f)
}

// ---------------------------------------------------------------------
// The versioned envelope.
// ---------------------------------------------------------------------

/// The envelope of every persisted document: schema version, timestamp,
/// payload.
pub open spec fn spec_versioned_doc(payload: JsonSpec, now: Seq<char>) -> JsonSpec {
    JsonSpec::Obj(
        seq![
            ("version"@, JsonSpec::Num(Some(CURRENT_VERSION))),
            ("last_updated"@, JsonSpec::Str(now)),
            ("data"@, payload),
        ],
    )
}

/// Wraps a payload in the versioned envelope with the given timestamp.
pub fn versioned_doc(payload: JsonNode, now: &String) -> (r: JsonNode)
    ensures
        r@ == spec_versioned_doc(payload@, now@),
{
    obj3(
        "version",
        JsonNode::Num(Some(CURRENT_VERSION)),
        "last_updated",
        JsonNode::Str(now.clone()),
        "data",
        payload,
    )
}

// ---------------------------------------------------------------------
// Domain payloads.
// ---------------------------------------------------------------------

/// The document of one project record.
pub open spec fn spec_project_json(p: crate::parse::ProjectSpec) -> JsonSpec {
    JsonSpec::Obj(seq![("id"@, JsonSpec::Str(p.id)), ("name"@, JsonSpec::Str(p.name))])
}

/// The projects payload: the records under a `projects` field.
pub open spec fn spec_projects_payload(ps: Seq<crate::parse::ProjectSpec>) -> JsonSpec {
    JsonSpec::Obj(
        seq![("projects"@, JsonSpec::Arr(Seq::new(ps.len(), |i: int| spec_project_json(ps[i]))))],
    )
}

/// Builds the projects payload.
#[verifier::loop_isolation(false)]
pub fn projects_payload(ps: &Vec<crate::parse::Project>) -> (r: JsonNode)
    ensures
        r@ == spec_projects_payload(ps.deep_view()),
{
    let ghost psv = ps.deep_view();
    let mut items: Vec<JsonNode> = Vec::new();
    let mut i: usize = 0;
    while i < ps.len()
        invariant
            i <= ps.len(),
            items@.len() == i,
            forall|k: int|
                0 <= k < i ==> json_view(#[trigger] items@[k]) == spec_project_json(psv[k]),
        decreases ps.len() - i,
    {
        let node = obj2(
            "id",
            JsonNode::Str(ps[i].id.clone()),
            "name",
            JsonNode::Str(ps[i].name.clone()),
        );
        items.push(node);
        i = i + 1;
    }
    proof {
        lemma_arr_view(items);
        assert(items.deep_view() =~= Seq::new(psv.len(), |i: int| spec_project_json(psv[i])));
    }
    obj1("projects", JsonNode::Arr(items))
}

/// A named string-array payload: the strings under the given field.
pub open spec fn spec_string_array_payload(field: Seq<char>, xs: Seq<Seq<char>>) -> JsonSpec {
    JsonSpec::Obj(seq![(field, JsonSpec::Arr(Seq::new(xs.len(), |i: int| JsonSpec::Str(xs[i]))))])
}

/// Builds a named string-array payload.
#[verifier::loop_isolation(false)]
pub fn string_array_payload(field: &str, xs: &Vec<String>) -> (r: JsonNode)
    ensures
        r@ == spec_string_array_payload(field@, xs.deep_view()),
{
    let ghost xv = xs.deep_view();
    let mut items: Vec<JsonNode> = Vec::new();
    let mut i: usize = 0;
    while i < xs.len()
        invariant
            i <= xs.len(),
            items@.len() == i,
            forall|k: int| 0 <= k < i ==> json_view(#[trigger] items@[k]) == JsonSpec::Str(xv[k]),
        decreases xs.len() - i,
    {
        items.push(JsonNode::Str(xs[i].clone()));
        i = i + 1;
    }
    proof {
        lemma_arr_view(items);
        assert(items.deep_view() =~= Seq::new(xv.len(), |i: int| JsonSpec::Str(xv[i])));
    }
    obj1(field, JsonNode::Arr(items))
}

// ---------------------------------------------------------------------
// Credential profiles.
// ---------------------------------------------------------------------

/// The document of one environment: its profile records, kept whole,
/// under `profiles`. The store does not interpret a profile record:
/// whatever fields a record carries are migrated verbatim.
pub open spec fn spec_env_json(profiles: Seq<JsonSpec>) -> JsonSpec {
    JsonSpec::Obj(seq![("profiles"@, JsonSpec::Arr(profiles))])
}

/// The profiles payload: one field per environment under
/// `environments`, each holding that environment's document.
pub open spec fn spec_profiles_payload(envs: Seq<(Seq<char>, JsonSpec)>) -> JsonSpec {
    JsonSpec::Obj(seq![("environments"@, JsonSpec::Obj(envs))])
}

/// Builds one environment's document around its profile records.
pub fn env_doc(profiles: Vec<JsonNode>) -> (r: JsonNode)
    ensures
        r@ == spec_env_json(profiles.deep_view()),
{
    proof {
        lemma_arr_view(profiles);
    }
    obj1("profiles", JsonNode::Arr(profiles))
}

/// Builds the profiles payload from the collected environments, each
/// already holding its environment document.
pub fn profiles_payload(envs: Vec<(String, JsonNode)>) -> (r: JsonNode)
    ensures
        r@ == spec_profiles_payload(envs.deep_view()),
{
    proof {
        lemma_obj_view(envs);
    }
    obj1("environments", JsonNode::Obj(envs))
}

// ---------------------------------------------------------------------
// The migration marker.
// ---------------------------------------------------------------------

/// Mathematical model of one migration record.
#[verifier::ext_equal]
pub struct MigrationRecordSpec {
    pub id: Seq<char>,
    pub completed_at: Seq<char>,
    pub success: bool,
}

/// One performed migration.
#[derive(Debug, Clone, PartialEq, Eq)]
pub struct MigrationRecord {
    pub id: String,
    pub completed_at: String,
    pub success: bool,
}

impl View for MigrationRecord {
    type V = MigrationRecordSpec;

    open spec fn view(&self) -> MigrationRecordSpec {
        MigrationRecordSpec { id: self.id@, completed_at: self.completed_at@, success: self.success }
    }
}

impl DeepView for MigrationRecord {
    type V = MigrationRecordSpec;

    open spec fn deep_view(&self) -> MigrationRecordSpec {
        self@
    }
}

/// Mathematical model of the marker payload.
#[verifier::ext_equal]
pub struct MigrationDataSpec {
    pub last_migration_version: u64,
    pub migrations: Seq<MigrationRecordSpec>,
}

/// The marker payload: the last migration version, never decreasing, and
/// one record per performed migration. Version 0 means never migrated.
#[derive(Debug, Clone, PartialEq, Eq)]
pub struct MigrationData {
    pub last_migration_version: u64,
    pub migrations: Vec<MigrationRecord>,
}

impl View for MigrationData {
    type V = MigrationDataSpec;

    open spec fn view(&self) -> MigrationDataSpec {
        MigrationDataSpec {
            last_migration_version: self.last_migration_version,
            migrations: self.migrations.deep_view(),
        }
    }
}

impl MigrationData {
    /// The state of a store that was never migrated.
    pub open spec fn spec_initial() -> MigrationDataSpec {
        MigrationDataSpec { last_migration_version: 0, migrations: Seq::empty() }
    }

    /// A marker for a store that was never migrated.
    pub fn initial() -> (r: MigrationData)
        ensures
            r@ == MigrationData::spec_initial(),
    {
        let r = MigrationData { last_migration_version: 0, migrations: Vec::new() };
        proof {
            assert(r@.migrations =~= Seq::<MigrationRecordSpec>::empty());
        }
        r
    }
}

/// The document of one migration record.
pub open spec fn spec_record_json(r: MigrationRecordSpec) -> JsonSpec {
    JsonSpec::Obj(
        seq![
            ("id"@, JsonSpec::Str(r.id)),
            ("completed_at"@, JsonSpec::Str(r.completed_at)),
            ("success"@, JsonSpec::Bool(r.success)),
        ],
    )
}

/// The documents of a sequence of migration records.
pub open spec fn spec_records_json(rs: Seq<MigrationRecordSpec>) -> Seq<JsonSpec> {
    Seq::new(rs.len(), |i: int| spec_record_json(rs[i]))
}

/// The marker payload document.
pub open spec fn spec_marker_payload(md: MigrationDataSpec) -> JsonSpec {
    JsonSpec::Obj(
        seq![
            ("last_migration_version"@, JsonSpec::Num(Some(md.last_migration_version))),
            ("migrations"@, JsonSpec::Arr(spec_records_json(md.migrations))),
        ],
    )
}

/// The full marker document: the payload in the versioned envelope.
pub open spec fn spec_marker_doc(md: MigrationDataSpec, now: Seq<char>) -> JsonSpec {
    spec_versioned_doc(spec_marker_payload(md), now)
}

/// Builds the full marker document.
#[verifier::loop_isolation(false)]
pub fn marker_doc(md: &MigrationData, now: &String) -> (r: JsonNode)
    ensures
        r@ == spec_marker_doc(md@, now@),
{
    let ghost mv = md@;
    let mut items: Vec<JsonNode> = Vec::new();
    let mut i: usize = 0;
    while i < md.migrations.len()
        invariant
            i <= md.migrations.len(),
            items@.len() == i,
            forall|k: int|
                0 <= k < i ==> json_view(#[trigger] items@[k]) == spec_record_json(
                    mv.migrations[k],
                ),
        decreases md.migrations.len() - i,
    {
        let rec = &md.migrations[i];
        items.push(
            obj3(
                "id",
                JsonNode::Str(rec.id.clone()),
                "completed_at",
                JsonNode::Str(rec.completed_at.clone()),
                "success",
                JsonNode::Bool(rec.success),
            ),
        );
        i = i + 1;
    }
    proof {
        lemma_arr_view(items);
        assert(items.deep_view() =~= spec_records_json(mv.migrations));
    }
    let payload = obj2(
        "last_migration_version",
        JsonNode::Num(Some(md.last_migration_version)),
        "migrations",
        JsonNode::Arr(items),
    );
    proof {
        assert(payload@ =~~= spec_marker_payload(mv));
    }
    versioned_doc(payload, now)
}

/// A decoded migration record: an object with string fields `id` and
/// `completed_at` and a boolean `success`.
pub open spec fn spec_decode_record(j: JsonSpec) -> Option<MigrationRecordSpec> {
    match (spec_get(j, "id"@), spec_get(j, "completed_at"@), spec_get(j, "success"@)) {
        (
            Some(JsonSpec::Str(i)),
            Some(JsonSpec::Str(c)),
            Some(JsonSpec::Bool(s)),
        ) => Some(MigrationRecordSpec { id: i, completed_at: c, success: s }),
        _ => None,
    }
}

/// Whether every element of the array decodes as a migration record.
pub open spec fn all_records_ok(a: Seq<JsonSpec>) -> bool {
    forall|i: int| 0 <= i < a.len() ==> spec_decode_record(#[trigger] a[i]) is Some
}

/// The records decoded from an array whose elements all decode.
pub open spec fn decoded_records(a: Seq<JsonSpec>) -> Seq<MigrationRecordSpec> {
    Seq::new(a.len(), |i: int| spec_decode_record(a[i])->Some_0)
}

/// What decoding a marker document yields: nothing unless the envelope
/// holds a well-formed marker payload.
pub open spec fn spec_decode_marker(j: JsonSpec) -> Option<MigrationDataSpec> {
    match spec_get(j, "data"@) {
        Some(d) => match (
            spec_get(d, "last_migration_version"@),
            spec_get(d, "migrations"@),
        ) {
            (Some(JsonSpec::Num(Some(v))), Some(JsonSpec::Arr(rs))) => if all_records_ok(rs) {
                Some(
                    MigrationDataSpec {
                        last_migration_version: v,
                        migrations: decoded_records(rs),
                    },
                )
            } else {
                None
            },
            _ => None,
        },
        None => None,
    }
}

fn decode_record(n: &JsonNode) -> (r: Option<MigrationRecord>)
    ensures
        match r {
            Some(rec) => spec_decode_record(n@) == Some(rec@),
            None => spec_decode_record(n@) is None,
        },
{
    let id = match n.get("id") {
        Some(JsonNode::Str(s)) => s.clone(),
        _ => {
            return None;
        },
    };
    let completed_at = match n.get("completed_at") {
        Some(JsonNode::Str(s)) => s.clone(),
        _ => {
            return None;
        },
    };
    let success = match n.get("success") {
        Some(JsonNode::Bool(b)) => *b,
        _ => {
            return None;
        },
    };
    Some(MigrationRecord { id, completed_at, success })
}

/// Decodes a marker document; a malformed marker decodes as nothing and
/// the caller falls back to the never-migrated state.
#[verifier::loop_isolation(false)]
pub fn decode_marker(n: &JsonNode) -> (r: Option<MigrationData>)
    ensures
        match r {
            Some(md) => spec_decode_marker(n@) == Some(md@),
            None => spec_decode_marker(n@) is None,
        },
{
    let d = match n.get("data") {
        Some(d) => d,
        None => {
            return None;
        },
    };
    let version = match d.get("last_migration_version") {
        Some(JsonNode::Num(Some(v))) => *v,
        _ => {
            return None;
        },
    };
    match d.get("migrations") {
        Some(arr) => match arr {
            JsonNode::Arr(items) => {
                let ghost a = arr@->Arr_0;
                proof {
                    assert(arr@ == JsonSpec::Arr(a));
                    assert(a.len() == items@.len());
                    assert forall|k: int| 0 <= k < a.len() implies a[k] == json_view(
                        #[trigger] items@[k],
                    ) by {}
                }
                let mut out: Vec<MigrationRecord> = Vec::new();
                let mut i: usize = 0;
                while i < items.len()
                    invariant
                        i <= items.len(),
                        a.len() == items@.len(),
                        forall|k: int| 0 <= k < a.len() ==> a[k] == json_view(#[trigger] items@[k]),
                        forall|k: int| 0 <= k < i ==> spec_decode_record(#[trigger] a[k]) is Some,
                        out@.len() == i,
                        forall|k: int|
                            0 <= k < i ==> (#[trigger] out@[k])@ == spec_decode_record(
                                a[k],
                            )->Some_0,
                    decreases items.len() - i,
                {
                    match decode_record(&items[i]) {
                        Some(rec) => {
                            out.push(rec);
                        },
                        None => {
                            proof {
                                assert(spec_decode_record(a[i as int]) is None);
                                assert(!all_records_ok(a));
                            }
                            return None;
                        },
                    }
                    i = i + 1;
                }
                let md = MigrationData { last_migration_version: version, migrations: out };
                proof {
                    assert forall|k: int| 0 <= k < a.len() implies #[trigger] md@.migrations[k]
                        == decoded_records(a)[k] by {
                        assert(md@.migrations[k] == md.migrations@[k]@);
                    }
                    assert(md@.migrations =~= decoded_records(a));
                }
                Some(md)
            },
            _ => None,
        },
        None => None,
    }
}

// ---------------------------------------------------------------------
// Curated defaults.
// ---------------------------------------------------------------------

/// The curated default labels of a fresh install: ten common technology
/// names.
pub open spec fn spec_default_labels() -> Seq<Seq<char>> {
    seq![
        "Java"@,
        "Python"@,
        "JavaScript"@,
        "TypeScript"@,
        "Rust"@,
        "Go"@,
        "Vue"@,
        "React"@,
        "Spring Boot"@,
        "小程序"@,
    ]
}

/// The curated default categories of a fresh install.
pub open spec fn spec_default_categories() -> Seq<Seq<char>> {
    seq!["工作"@, "个人"@, "学习"@, "测试"@]
}

/// Builds the curated default labels.
pub fn default_labels() -> (r: Vec<String>)
    ensures
        r.deep_view() == spec_default_labels(),
{
    let mut v: Vec<String> = Vec::new();
    v.push(String::from_str("Java"));
    v.push(String::from_str("Python"));
    v.push(String::from_str("JavaScript"));
    v.push(String::from_str("TypeScript"));
    v.push(String::from_str("Rust"));
    v.push(String::from_str("Go"));
    v.push(String::from_str("Vue"));
    v.push(String::from_str("React"));
    v.push(String::from_str("Spring Boot"));
    v.push(String::from_str("小程序"));
    proof {
        assert(v.deep_view() =~= spec_default_labels());
    }
    v
}

/// Builds the curated default categories.
pub fn default_categories() -> (r: Vec<String>)
    ensures
        r.deep_view() == spec_default_categories(),
{
    let mut v: Vec<String> = Vec::new();
    v.push(String::from_str("工作"));
    v.push(String::from_str("个人"));
    v.push(String::from_str("学习"));
    v.push(String::from_str("测试"));
    proof {
        assert(v.deep_view() =~= spec_default_categories());
    }
    v
}

// ---------------------------------------------------------------------
// Round trip of the marker.
// ---------------------------------------------------------------------

proof fn lemma_record_round_trip(r: MigrationRecordSpec)
    ensures
        spec_decode_record(spec_record_json(r)) == Some(r),
{
    reveal_strlit("id");
    reveal_strlit("completed_at");
    reveal_strlit("success");
    assert("id"@.len() == 2);
    assert("completed_at"@.len() == 12);
    assert("success"@.len() == 7);
    let fs = spec_record_json(r)->Obj_0;
    assert(fs.drop_first() =~= seq![
        ("completed_at"@, JsonSpec::Str(r.completed_at)),
        ("success"@, JsonSpec::Bool(r.success)),
    ]);
    assert(fs.drop_first().drop_first() =~= seq![("success"@, JsonSpec::Bool(r.success))]);
    assert(spec_fields_get(fs, "id"@) == Some(JsonSpec::Str(r.id)));
    assert(spec_fields_get(fs.drop_first(), "completed_at"@) == Some(
        JsonSpec::Str(r.completed_at),
    ));
    assert(spec_fields_get(fs, "completed_at"@) == Some(JsonSpec::Str(r.completed_at)));
    assert(spec_fields_get(fs.drop_first().drop_first(), "success"@) == Some(
        JsonSpec::Bool(r.success),
    ));
    assert(spec_fields_get(fs.drop_first(), "success"@) == Some(JsonSpec::Bool(r.success)));
    assert(spec_fields_get(fs, "success"@) == Some(JsonSpec::Bool(r.success)));
}

/// Decoding a freshly written marker document gives back the marker
/// data that was written.
pub proof fn lemma_marker_round_trip(md: MigrationDataSpec, now: Seq<char>)
    ensures
        spec_decode_marker(spec_marker_doc(md, now)) == Some(md),
{
    reveal_strlit("version");
    reveal_strlit("last_updated");
    reveal_strlit("data");
    reveal_strlit("last_migration_version");
    reveal_strlit("migrations");
    assert("version"@.len() == 7);
    assert("last_updated"@.len() == 12);
    assert("data"@.len() == 4);
    assert("last_migration_version"@.len() == 22);
    assert("migrations"@.len() == 10);
    let payload = spec_marker_payload(md);
    let doc = spec_marker_doc(md, now);
    let fs = doc->Obj_0;
    assert(fs.drop_first() =~= seq![("last_updated"@, JsonSpec::Str(now)), ("data"@, payload)]);
    assert(fs.drop_first().drop_first() =~= seq![("data"@, payload)]);
    assert(spec_fields_get(fs.drop_first().drop_first(), "data"@) == Some(payload));
    assert(spec_fields_get(fs.drop_first(), "data"@) == Some(payload));
    assert(spec_fields_get(fs, "data"@) == Some(payload));
    assert(spec_get(doc, "data"@) == Some(payload));
    let ps = payload->Obj_0;
    assert(ps.drop_first() =~= seq![
        ("migrations"@, JsonSpec::Arr(spec_records_json(md.migrations))),
    ]);
    assert(spec_get(payload, "last_migration_version"@) == Some(
        JsonSpec::Num(Some(md.last_migration_version)),
    ));
    assert(spec_fields_get(ps.drop_first(), "migrations"@) == Some(
        JsonSpec::Arr(spec_records_json(md.migrations)),
    ));
    assert(spec_get(payload, "migrations"@) == Some(
        JsonSpec::Arr(spec_records_json(md.migrations)),
    ));
    let rs = spec_records_json(md.migrations);
    assert forall|i: int| 0 <= i < rs.len() implies spec_decode_record(#[trigger] rs[i]) is Some by {
        lemma_record_round_trip(md.migrations[i]);
    }
    assert(all_records_ok(rs));
    assert forall|i: int| 0 <= i < rs.len() implies #[trigger] decoded_records(rs)[i]
        == md.migrations[i] by {
        lemma_record_round_trip(md.migrations[i]);
    }
    assert(decoded_records(rs) =~= md.migrations);
    assert(spec_decode_marker(doc) == Some(md)) by {
        assert(spec_decode_marker(doc)->Some_0 =~~= md);
    }
}

} // verus!
