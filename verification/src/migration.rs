//! The one-time legacy migration and the self-healing backfill.
//!
//! Five domains are migratable: projects (critical), the stats cache,
//! credential profiles, labels and categories (all non-critical). Each
//! step is strictly create-if-absent. The marker document records that
//! the single defined transition ran, and is never advanced twice.

use vstd::prelude::*;
use crate::json::{json_of, json_parse, json_view, spec_get, JsonNode, JsonSpec};
use crate::parse::{
    parse_old_projects, parse_old_string_array, spec_parse_projects, spec_parse_string_array,
    ParseError, Project,
};
use crate::docs::{
    env_doc, profiles_payload, projects_payload, spec_default_categories, spec_default_labels,
    spec_env_json, spec_profiles_payload, spec_projects_payload, spec_string_array_payload,
    spec_versioned_doc, string_array_payload, versioned_doc,
};
use crate::store::{FileSlot, LegacySource, LegacySourceSpec, SlotSpec};
use crate::text::{
    has_prefix, has_suffix, spec_dec_digits, str_has_prefix, str_has_suffix, str_strip_prefix_all,
    str_strip_suffix_all, strip_prefix_all, strip_suffix_all, u64_to_string,
};

verus! {

// ---------------------------------------------------------------------
// The migration outcome.
// ---------------------------------------------------------------------

/// Mathematical model of a migration outcome.
#[verifier::ext_equal]
pub struct MigrationResultSpec {
    pub success: bool,
    pub migrated_items: Seq<Seq<char>>,
    pub errors: Seq<Seq<char>>,
    pub warnings: Seq<Seq<char>>,
}

/// The accumulated outcome of one migration run: overall success, a
/// description per migrated item, the errors of critical failures and
/// the warnings of non-critical ones.
#[derive(Debug, Clone, PartialEq, Eq)]
pub struct MigrationResult {
    pub success: bool,
    pub migrated_items: Vec<String>,
    pub errors: Vec<String>,
    pub warnings: Vec<String>,
}

impl View for MigrationResult {
    type V = MigrationResultSpec;

    open spec fn view(&self) -> MigrationResultSpec {
        MigrationResultSpec {
            success: self.success,
            migrated_items: self.migrated_items.deep_view(),
            errors: self.errors.deep_view(),
            warnings: self.warnings.deep_view(),
        }
    }
}

/// The outcome of a run that had nothing to do: success, nothing
/// migrated, no errors, no warnings.
pub open spec fn spec_default_result() -> MigrationResultSpec {
    MigrationResultSpec {
        success: true,
        migrated_items: Seq::empty(),
        errors: Seq::empty(),
        warnings: Seq::empty(),
    }
}

impl Default for MigrationResult {
    /// An all-succeeded, nothing-migrated outcome.
    fn default() -> (r: MigrationResult)
        ensures
            r@ == spec_default_result(),
    {
        let r = MigrationResult {
            success: true,
            migrated_items: Vec::new(),
            errors: Vec::new(),
            warnings: Vec::new(),
        };
        proof {
            assert(r@ =~~= spec_default_result());
        }
        r
    }
}

fn clone_string_vec(v: &Vec<String>) -> (r: Vec<String>)
    ensures
        r@ == v@,
{
    let mut r: Vec<String> = Vec::new();
    let mut i: usize = 0;
    while i < v.len()
        invariant
            i <= v.len(),
            r@.len() == i,
            forall|k: int| 0 <= k < i ==> r@[k] == v@[k],
        decreases v.len() - i,
    {
        r.push(v[i].clone());
        i = i + 1;
    }
    proof {
        assert(r@ =~= v@);
    }
    r
}

impl MigrationResult {
    /// An identical copy of this outcome.
    pub fn snapshot(&self) -> (r: MigrationResult)
        ensures
            r@ == self@,
    {
        MigrationResult {
            success: self.success,
            migrated_items: clone_string_vec(&self.migrated_items),
            errors: clone_string_vec(&self.errors),
            warnings: clone_string_vec(&self.warnings),
        }
    }
}

/// The view of one domain step's outcome: an optional migrated-item
/// description on success, a failure description otherwise.
pub open spec fn outcome_view(r: Result<Option<String>, String>) -> Result<
    Option<Seq<char>>,
    Seq<char>,
> {
    match r {
        Ok(None) => Ok(None),
        Ok(Some(s)) => Ok(Some(s@)),
        Err(e) => Err(e@),
    }
}

// ---------------------------------------------------------------------
// Failure and summary texts.
// ---------------------------------------------------------------------

/// The description of a rejected legacy payload.
pub open spec fn spec_parse_error_text(e: ParseError) -> Seq<char> {
    match e {
        ParseError::InvalidJson => "invalid JSON"@,
        ParseError::UnrecognizedShape => "unrecognized legacy format"@,
        ParseError::BadElement => "malformed element"@,
    }
}

fn parse_error_text(e: ParseError) -> (r: String)
    ensures
        r@ == spec_parse_error_text(e),
{
    match e {
        ParseError::InvalidJson => String::from_str("invalid JSON"),
        ParseError::UnrecognizedShape => String::from_str("unrecognized legacy format"),
        ParseError::BadElement => String::from_str("malformed element"),
    }
}

/// The description of an unreadable legacy source file.
pub open spec fn spec_unreadable_text() -> Seq<char> {
    "unreadable legacy file"@
}

fn unreadable_text() -> (r: String)
    ensures
        r@ == spec_unreadable_text(),
{
    String::from_str("unreadable legacy file")
}

fn count_msg(prefix: &str, n: u64, suffix: &str) -> (r: String)
    ensures
        r@ == prefix@ + spec_dec_digits(n as nat) + suffix@,
{
    let mut s = String::from_str(prefix);
    let num = u64_to_string(n);
    s.append(num.as_str());
    s.append(suffix);
    s
}

/// The migrated-item description of the projects domain.
pub open spec fn spec_projects_msg(n: nat) -> Seq<char> {
    "projects data ("@ + spec_dec_digits(n) + " projects)"@
}

/// The migrated-item description of the stats cache.
pub open spec fn spec_stats_msg() -> Seq<char> {
    "stats cache"@
}

/// The migrated-item description of the credential profiles.
pub open spec fn spec_profiles_msg(n: nat) -> Seq<char> {
    "credential profiles ("@ + spec_dec_digits(n) + " profiles)"@
}

/// The migrated-item description of the labels domain.
pub open spec fn spec_labels_msg(n: nat) -> Seq<char> {
    "labels ("@ + spec_dec_digits(n) + " labels)"@
}

/// The migrated-item description of the categories domain.
pub open spec fn spec_categories_msg(n: nat) -> Seq<char> {
    "categories ("@ + spec_dec_digits(n) + " categories)"@
}

// ---------------------------------------------------------------------
// Projects: the critical domain.
// ---------------------------------------------------------------------

fn slot_is_absent(slot: &FileSlot) -> (r: bool)
    ensures
        r == (slot@ is Absent),
{
    matches!(slot, FileSlot::Absent)
}

/// The default projects document: no projects.
pub open spec fn spec_default_projects_doc(now: Seq<char>) -> JsonSpec {
    spec_versioned_doc(spec_projects_payload(Seq::empty()), now)
}

/// What the projects step does to the slot and reports back.
pub open spec fn spec_migrate_projects(
    slot: SlotSpec,
    src: LegacySourceSpec,
    now: Seq<char>,
) -> (SlotSpec, Result<Option<Seq<char>>, Seq<char>>) {
    if slot.present() {
        (slot, Ok(None))
    } else {
        match src {
            LegacySourceSpec::Missing => (
                SlotSpec::Created(spec_default_projects_doc(now)),
                Ok(None),
            ),
            LegacySourceSpec::Unreadable => (slot, Err(spec_unreadable_text())),
            LegacySourceSpec::Found(text) => match json_of(text) {
                None => (slot, Err(spec_parse_error_text(ParseError::InvalidJson))),
                Some(j) => match spec_parse_projects(j) {
                    Ok(ps) => (
                        SlotSpec::Created(spec_versioned_doc(spec_projects_payload(ps), now)),
                        Ok(Some(spec_projects_msg(ps.len()))),
                    ),
                    Err(e) => (slot, Err(spec_parse_error_text(e))),
                },
            },
        }
    }
}

/// Migrates the projects domain: skips an existing destination, creates
/// an empty default when no legacy source exists, and otherwise migrates
/// the parsed legacy projects — or fails without touching the slot, this
/// domain being critical.
pub fn migrate_projects(slot: &mut FileSlot, src: &LegacySource, now: &String) -> (r: Result<
    Option<String>,
    String,
>)
    ensures
        ({
            let (s2, out) = spec_migrate_projects(old(slot)@, src@, now@);
            final(slot)@ == s2 && outcome_view(r) == out
        }),
{
    if !slot_is_absent(slot) {
        return Ok(None);
    }
    match src {
        LegacySource::Missing => {
            let empty: Vec<Project> = Vec::new();
            proof {
                assert(empty.deep_view() =~= Seq::<crate::parse::ProjectSpec>::empty());
            }
            let doc = versioned_doc(projects_payload(&empty), now);
            *slot = FileSlot::Created(doc);
            Ok(None)
        },
        LegacySource::Unreadable => Err(unreadable_text()),
        LegacySource::Found(text) => match parse_old_projects(text.as_str()) {
            Ok(ps) => {
                let n = ps.len();
                let doc = versioned_doc(projects_payload(&ps), now);
                *slot = FileSlot::Created(doc);
                Ok(Some(count_msg("projects data (", n as u64, " projects)")))
            },
            Err(e) => Err(parse_error_text(e)),
        },
    }
}

// ---------------------------------------------------------------------
// Stats cache: non-critical, kept as parsed.
// ---------------------------------------------------------------------

/// The default document of the opaque domains: an empty object payload.
pub open spec fn spec_default_plain_doc(now: Seq<char>) -> JsonSpec {
    spec_versioned_doc(JsonSpec::Obj(Seq::empty()), now)
}

/// What the stats-cache step does to the slot and reports back. A
/// parsed legacy cache is kept whole as the new payload.
pub open spec fn spec_migrate_stats_cache(
    slot: SlotSpec,
    src: LegacySourceSpec,
    now: Seq<char>,
) -> (SlotSpec, Result<Option<Seq<char>>, Seq<char>>) {
    if slot.present() {
        (slot, Ok(None))
    } else {
        match src {
            LegacySourceSpec::Missing => (SlotSpec::Created(spec_default_plain_doc(now)), Ok(None)),
            LegacySourceSpec::Unreadable => (slot, Err(spec_unreadable_text())),
            LegacySourceSpec::Found(text) => match json_of(text) {
                None => (slot, Err(spec_parse_error_text(ParseError::InvalidJson))),
                Some(j) => (
                    SlotSpec::Created(spec_versioned_doc(j, now)),
                    Ok(Some(spec_stats_msg())),
                ),
            },
        }
    }
}

/// Migrates the stats cache: skips an existing destination, creates an
/// empty default when no legacy source exists, and otherwise re-wraps
/// the parsed legacy cache. Unreadable or malformed input fails; the
/// caller downgrades that to a warning.
pub fn migrate_stats_cache(slot: &mut FileSlot, src: &LegacySource, now: &String) -> (r: Result<
    Option<String>,
    String,
>)
    ensures
        ({
            let (s2, out) = spec_migrate_stats_cache(old(slot)@, src@, now@);
            final(slot)@ == s2 && outcome_view(r) == out
        }),
{
    if !slot_is_absent(slot) {
        return Ok(None);
    }
    match src {
        LegacySource::Missing => {
            let doc = versioned_doc(crate::docs::empty_object(), now);
            *slot = FileSlot::Created(doc);
            Ok(None)
        },
        LegacySource::Unreadable => Err(unreadable_text()),
        LegacySource::Found(text) => match json_parse(text.as_str()) {
            None => Err(parse_error_text(ParseError::InvalidJson)),
            Some(n) => {
                let doc = versioned_doc(n, now);
                *slot = FileSlot::Created(doc);
                Ok(Some(String::from_str("stats cache")))
            },
        },
    }
}

// ---------------------------------------------------------------------
// Labels and categories: non-critical named string arrays.
// ---------------------------------------------------------------------

/// The default labels document: the curated ten-entry set.
pub open spec fn spec_default_labels_doc(now: Seq<char>) -> JsonSpec {
    spec_versioned_doc(spec_string_array_payload("labels"@, spec_default_labels()), now)
}

/// The default categories document: the curated four-entry set.
pub open spec fn spec_default_categories_doc(now: Seq<char>) -> JsonSpec {
    spec_versioned_doc(spec_string_array_payload("categories"@, spec_default_categories()), now)
}

/// What the labels step does to the slot and reports back.
pub open spec fn spec_migrate_labels(
    slot: SlotSpec,
    src: LegacySourceSpec,
    now: Seq<char>,
) -> (SlotSpec, Result<Option<Seq<char>>, Seq<char>>) {
    if slot.present() {
        (slot, Ok(None))
    } else {
        match src {
            LegacySourceSpec::Missing => (
                SlotSpec::Created(spec_default_labels_doc(now)),
                Ok(None),
            ),
            LegacySourceSpec::Unreadable => (slot, Err(spec_unreadable_text())),
            LegacySourceSpec::Found(text) => match json_of(text) {
                None => (slot, Err(spec_parse_error_text(ParseError::InvalidJson))),
                Some(j) => match spec_parse_string_array(j, "labels"@) {
                    Ok(xs) => (
                        SlotSpec::Created(
                            spec_versioned_doc(spec_string_array_payload("labels"@, xs), now),
                        ),
                        Ok(Some(spec_labels_msg(xs.len()))),
                    ),
                    Err(e) => (slot, Err(spec_parse_error_text(e))),
                },
            },
        }
    }
}

/// Migrates the labels: skips an existing destination, seeds the curated
/// defaults when no legacy source exists, and otherwise migrates the
/// decoded legacy labels. Failures are downgraded to warnings by the
/// caller.
pub fn migrate_labels(slot: &mut FileSlot, src: &LegacySource, now: &String) -> (r: Result<
    Option<String>,
    String,
>)
    ensures
        ({
            let (s2, out) = spec_migrate_labels(old(slot)@, src@, now@);
            final(slot)@ == s2 && outcome_view(r) == out
        }),
{
    if !slot_is_absent(slot) {
        return Ok(None);
    }
    match src {
        LegacySource::Missing => {
            let xs = crate::docs::default_labels();
            let doc = versioned_doc(string_array_payload("labels", &xs), now);
            *slot = FileSlot::Created(doc);
            Ok(None)
        },
        LegacySource::Unreadable => Err(unreadable_text()),
        LegacySource::Found(text) => match parse_old_string_array(text.as_str(), "labels") {
            Ok(xs) => {
                let n = xs.len();
                let doc = versioned_doc(string_array_payload("labels", &xs), now);
                *slot = FileSlot::Created(doc);
                Ok(Some(count_msg("labels (", n as u64, " labels)")))
            },
            Err(e) => Err(parse_error_text(e)),
        },
    }
}

/// The legacy source the categories step uses: the `categories.json`
/// candidate when it exists in any state, else the `tags.json` one.
pub open spec fn spec_pick_categories_source(
    cat: LegacySourceSpec,
    tags: LegacySourceSpec,
) -> LegacySourceSpec {
    if !(cat is Missing) {
        cat
    } else {
        tags
    }
}

/// What the categories step does to the slot and reports back.
pub open spec fn spec_migrate_categories(
    slot: SlotSpec,
    cat: LegacySourceSpec,
    tags: LegacySourceSpec,
    now: Seq<char>,
) -> (SlotSpec, Result<Option<Seq<char>>, Seq<char>>) {
    if slot.present() {
        (slot, Ok(None))
    } else {
        match spec_pick_categories_source(cat, tags) {
            LegacySourceSpec::Missing => (
                SlotSpec::Created(spec_default_categories_doc(now)),
                Ok(None),
            ),
            LegacySourceSpec::Unreadable => (slot, Err(spec_unreadable_text())),
            LegacySourceSpec::Found(text) => match json_of(text) {
                None => (slot, Err(spec_parse_error_text(ParseError::InvalidJson))),
                Some(j) => match spec_parse_string_array(j, "categories"@) {
                    Ok(xs) => (
                        SlotSpec::Created(
                            spec_versioned_doc(spec_string_array_payload("categories"@, xs), now),
                        ),
                        Ok(Some(spec_categories_msg(xs.len()))),
                    ),
                    Err(e) => (slot, Err(spec_parse_error_text(e))),
                },
            },
        }
    }
}

/// Migrates the categories, probing two legacy file names in order:
/// `categories.json` first, then `tags.json`. Otherwise as the labels.
pub fn migrate_categories(
    slot: &mut FileSlot,
    cat: &LegacySource,
    tags: &LegacySource,
    now: &String,
) -> (r: Result<Option<String>, String>)
    ensures
        ({
            let (s2, out) = spec_migrate_categories(old(slot)@, cat@, tags@, now@);
            final(slot)@ == s2 && outcome_view(r) == out
        }),
{
    if !slot_is_absent(slot) {
        return Ok(None);
    }
    let pick: &LegacySource = match cat {
        LegacySource::Missing => tags,
        _ => cat,
    };
    match pick {
        LegacySource::Missing => {
            let xs = crate::docs::default_categories();
            let doc = versioned_doc(string_array_payload("categories", &xs), now);
            *slot = FileSlot::Created(doc);
            Ok(None)
        },
        LegacySource::Unreadable => Err(unreadable_text()),
        LegacySource::Found(text) => match parse_old_string_array(text.as_str(), "categories") {
            Ok(xs) => {
                let n = xs.len();
                let doc = versioned_doc(string_array_payload("categories", &xs), now);
                *slot = FileSlot::Created(doc);
                Ok(Some(count_msg("categories (", n as u64, " categories)")))
            },
            Err(e) => Err(parse_error_text(e)),
        },
    }
}

// ---------------------------------------------------------------------
// Credential profiles: collected from the legacy configuration files.
// ---------------------------------------------------------------------

/// The environment name a legacy profile file name denotes: the name
/// between the `claude_profiles_` prefix and the `.json` suffix, with
/// repetitions of either affix stripped; nothing for any other file.
pub open spec fn spec_profile_env_name(name: Seq<char>) -> Option<Seq<char>> {
    if has_prefix(name, "claude_profiles_"@) && has_suffix(name, ".json"@) {
        Some(strip_suffix_all(strip_prefix_all(name, "claude_profiles_"@), ".json"@))
    } else {
        None
    }
}

fn profile_env_name(name: &str) -> (r: Option<String>)
    ensures
        match r {
            Some(s) => spec_profile_env_name(name@) == Some(s@),
            None => spec_profile_env_name(name@) is None,
        },
{
    if str_has_prefix(name, "claude_profiles_") && str_has_suffix(name, ".json") {
        proof {
            reveal_strlit("claude_profiles_");
            reveal_strlit(".json");
        }
        let stripped = str_strip_prefix_all(name, "claude_profiles_");
        let trimmed = str_strip_suffix_all(stripped, ".json");
        Some(String::from_str(trimmed))
    } else {
        None
    }
}

/// What one legacy profile file's text decodes to: its array of
/// profile records, kept whole — the store does not interpret a record,
/// so whatever fields it carries survive the migration — or nothing
/// when the text is malformed or not an array; such a file is skipped
/// silently.
pub open spec fn spec_decode_profiles(text: Seq<char>) -> Option<Seq<JsonSpec>> {
    match json_of(text) {
        Some(JsonSpec::Arr(a)) => Some(a),
        _ => None,
    }
}

fn parse_profiles(text: &str) -> (r: Option<Vec<JsonNode>>)
    ensures
        match r {
            Some(v) => spec_decode_profiles(text@) == Some(v.deep_view()),
            None => spec_decode_profiles(text@) is None,
        },
{
    let node = match json_parse(text) {
        Some(node) => node,
        None => {
            return None;
        },
    };
    match node {
        JsonNode::Arr(items) => {
            proof {
                crate::json::lemma_arr_view(items);
            }
            Some(items)
        },
        _ => None,
    }
}

/// The environments after one file's profiles are taken in: the first
/// entry of that name has its document replaced in place, or a new
/// entry is appended.
pub open spec fn spec_env_upsert(
    envs: Seq<(Seq<char>, JsonSpec)>,
    name: Seq<char>,
    doc: JsonSpec,
) -> Seq<(Seq<char>, JsonSpec)>
    decreases envs.len(),
{
    if envs.len() == 0 {
        seq![(name, doc)]
    } else if envs[0].0 == name {
        seq![(name, doc)] + envs.drop_first()
    } else {
        seq![envs[0]] + spec_env_upsert(envs.drop_first(), name, doc)
    }
}

proof fn lemma_env_upsert_no_match(envs: Seq<(Seq<char>, JsonSpec)>, name: Seq<char>, doc: JsonSpec)
    requires
        forall|k: int| 0 <= k < envs.len() ==> (#[trigger] envs[k]).0 != name,
    ensures
        spec_env_upsert(envs, name, doc) == envs.push((name, doc)),
    decreases envs.len(),
{
    if envs.len() == 0 {
        assert(spec_env_upsert(envs, name, doc) =~= envs.push((name, doc)));
    } else {
        lemma_env_upsert_no_match(envs.drop_first(), name, doc);
        assert(seq![envs[0]] + envs.drop_first().push((name, doc)) =~= envs.push((name, doc)));
    }
}

proof fn lemma_env_upsert_match(
    envs: Seq<(Seq<char>, JsonSpec)>,
    name: Seq<char>,
    doc: JsonSpec,
    idx: int,
)
    requires
        0 <= idx < envs.len(),
        envs[idx].0 == name,
        forall|k: int| 0 <= k < idx ==> (#[trigger] envs[k]).0 != name,
    ensures
        spec_env_upsert(envs, name, doc) == envs.update(idx, (name, doc)),
    decreases idx,
{
    if idx == 0 {
        assert(seq![(name, doc)] + envs.drop_first() =~= envs.update(0, (name, doc)));
    } else {
        lemma_env_upsert_match(envs.drop_first(), name, doc, idx - 1);
        assert(seq![envs[0]] + envs.drop_first().update(idx - 1, (name, doc)) =~= envs.update(
            idx,
            (name, doc),
        ));
    }
}

#[verifier::loop_isolation(false)]
fn env_upsert(envs: Vec<(String, JsonNode)>, name: String, doc: JsonNode) -> (r: Vec<
    (String, JsonNode),
>)
    ensures
        r.deep_view() == spec_env_upsert(envs.deep_view(), name@, doc@),
{
    let ghost ev = envs.deep_view();
    let ghost entry_v = (name@, doc@);
    let mut envs = envs;
    let mut i: usize = 0;
    while i < envs.len()
        invariant
            i <= envs.len(),
            ev == envs.deep_view(),
            ev.len() == envs@.len(),
            forall|k: int| 0 <= k < i ==> (#[trigger] ev[k]).0 != name@,
        decreases envs.len() - i,
    {
        proof {
            assert(ev[i as int] == envs@[i as int].deep_view());
            assert(ev[i as int].0 == envs@[i as int].0@);
        }
        if envs[i].0 == name {
            envs.set(i, (name, doc));
            proof {
                lemma_env_upsert_match(ev, entry_v.0, entry_v.1, i as int);
                assert(envs.deep_view() =~= ev.update(i as int, entry_v));
            }
            return envs;
        }
        i = i + 1;
    }
    envs.push((name, doc));
    proof {
        lemma_env_upsert_no_match(ev, entry_v.0, entry_v.1);
        assert(envs.deep_view() =~= ev.push(entry_v));
    }
    envs
}

/// A sum that stops at the largest representable count; only a
/// human-readable summary depends on it.
pub open spec fn spec_sat_add(a: u64, b: nat) -> u64 {
    if a + b > u64::MAX {
        u64::MAX
    } else {
        (a + b) as u64
    }
}

/// One legacy configuration file taken into the accumulated
/// environments and profile count.
pub open spec fn spec_collect_step(
    acc: (Seq<(Seq<char>, JsonSpec)>, u64),
    file: (Seq<char>, Seq<char>),
) -> (Seq<(Seq<char>, JsonSpec)>, u64) {
    match spec_profile_env_name(file.0) {
        None => acc,
        Some(env) => match spec_decode_profiles(file.1) {
            None => acc,
            Some(ps) => (
                spec_env_upsert(acc.0, env, spec_env_json(ps)),
                spec_sat_add(acc.1, ps.len()),
            ),
        },
    }
}

/// The environments and profile count collected from the legacy
/// configuration files, in order.
pub open spec fn spec_collect_envs(files: Seq<(Seq<char>, Seq<char>)>) -> (
    Seq<(Seq<char>, JsonSpec)>,
    u64,
)
    decreases files.len(),
{
    if files.len() == 0 {
        (Seq::empty(), 0u64)
    } else {
        spec_collect_step(spec_collect_envs(files.drop_last()), files.last())
    }
}

/// What the profiles step does to the slot and reports back. The
/// destination is written even when nothing was collected; a migrated
/// item is reported only for a positive count.
pub open spec fn spec_migrate_claude_profiles(
    slot: SlotSpec,
    files: Seq<(Seq<char>, Seq<char>)>,
    now: Seq<char>,
) -> (SlotSpec, Result<Option<Seq<char>>, Seq<char>>) {
    if slot.present() {
        (slot, Ok(None))
    } else {
        let (envs, count) = spec_collect_envs(files);
        (
            SlotSpec::Created(spec_versioned_doc(spec_profiles_payload(envs), now)),
            Ok(
                if count > 0 {
                    Some(spec_profiles_msg(count as nat))
                } else {
                    None
                },
            ),
        )
    }
}

/// Migrates the credential profiles: collects every legacy profile file
/// whose name denotes an environment, skipping unreadable or malformed
/// ones silently, and always writes the destination document.
#[verifier::loop_isolation(false)]
pub fn migrate_claude_profiles(
    slot: &mut FileSlot,
    files: &Vec<(String, String)>,
    now: &String,
) -> (r: Result<Option<String>, String>)
    ensures
        ({
            let (s2, out) = spec_migrate_claude_profiles(old(slot)@, files.deep_view(), now@);
            final(slot)@ == s2 && outcome_view(r) == out
        }),
{
    if !slot_is_absent(slot) {
        return Ok(None);
    }
    let ghost fv = files.deep_view();
    let mut envs: Vec<(String, JsonNode)> = Vec::new();
    let mut count: u64 = 0;
    let mut i: usize = 0;
    proof {
        assert(fv.take(0) =~= Seq::<(Seq<char>, Seq<char>)>::empty());
        assert(envs.deep_view() =~= Seq::<(Seq<char>, JsonSpec)>::empty());
    }
    while i < files.len()
        invariant
            i <= files.len(),
            fv.len() == files@.len(),
            envs.deep_view() == spec_collect_envs(fv.take(i as int)).0,
            count == spec_collect_envs(fv.take(i as int)).1,
        decreases files.len() - i,
    {
        let ghost prev_envs = envs.deep_view();
        let ghost prev_count = count;
        proof {
            assert(fv[i as int] == (files@[i as int].0@, files@[i as int].1@));
        }
        let pair = &files[i];
        if let Some(env) = profile_env_name(pair.0.as_str()) {
            if let Some(ps) = parse_profiles(pair.1.as_str()) {
                let l = ps.len();
                count = count.saturating_add(l as u64);
                let env_node = env_doc(ps);
                envs = env_upsert(envs, env, env_node);
            }
        }
        proof {
            assert(fv.take(i as int + 1).drop_last() =~= fv.take(i as int));
            assert(fv.take(i as int + 1).last() == fv[i as int]);
            assert((envs.deep_view(), count) == spec_collect_step(
                (prev_envs, prev_count),
                fv[i as int],
            ));
        }
        i = i + 1;
    }
    proof {
        assert(fv.take(fv.len() as int) =~= fv);
    }
    let payload = profiles_payload(envs);
    let doc = versioned_doc(payload, now);
    *slot = FileSlot::Created(doc);
    if count > 0 {
        Ok(Some(count_msg("credential profiles (", count, " profiles)")))
    } else {
        Ok(None)
    }
}

// ---------------------------------------------------------------------
// The one-time transition across all five migratable domains.
// ---------------------------------------------------------------------

/// The migrated-item descriptions one domain step contributes.
pub open spec fn opt_item(out: Result<Option<Seq<char>>, Seq<char>>) -> Seq<Seq<char>> {
    match out {
        Ok(Some(m)) => seq![m],
        _ => Seq::empty(),
    }
}

/// The failure descriptions one domain step contributes, under its
/// domain prefix.
pub open spec fn warn_item(prefix: Seq<char>, out: Result<Option<Seq<char>>, Seq<char>>) -> Seq<
    Seq<char>,
> {
    match out {
        Err(e) => seq![prefix + e],
        _ => Seq::empty(),
    }
}

/// What the whole transition does to the store and reports back: the
/// five domains in fixed order, each attempted independently; only a
/// projects failure makes the run unsuccessful; a stats-cache failure
/// additionally puts an empty default on disk at once.
pub open spec fn spec_migrate_v0_to_v1(s: crate::store::StoreSpec, l: crate::store::SnapshotSpec, now: Seq<char>) -> (
    crate::store::StoreSpec,
    MigrationResultSpec,
) {
    let p = spec_migrate_projects(s.projects, l.projects, now);
    let sc = spec_migrate_stats_cache(s.stats_cache, l.stats_cache, now);
    let sc_slot = if sc.1 is Err {
        SlotSpec::Created(spec_default_plain_doc(now))
    } else {
        sc.0
    };
    let cp = spec_migrate_claude_profiles(s.claude_profiles, l.profile_files, now);
    let lb = spec_migrate_labels(s.labels, l.labels, now);
    let ct = spec_migrate_categories(s.categories, l.categories, l.tags, now);
    let res = MigrationResultSpec {
        success: !(p.1 is Err),
        migrated_items: opt_item(p.1) + opt_item(sc.1) + opt_item(cp.1) + opt_item(lb.1)
            + opt_item(ct.1),
        errors: warn_item("projects migration failed: "@, p.1),
        warnings: warn_item("stats cache migration failed (will be rebuilt): "@, sc.1) + warn_item(
            "credential profiles migration failed: "@,
            cp.1,
        ) + warn_item("labels migration failed: "@, lb.1) + warn_item(
            "categories migration failed: "@,
            ct.1,
        ),
    };
    (
        crate::store::StoreSpec {
            projects: p.0,
            stats_cache: sc_slot,
            claude_profiles: cp.0,
            labels: lb.0,
            categories: ct.0,
            ..s
        },
        res,
    )
}

/// Performs the single defined transition: attempts every migratable
/// domain independently, in fixed order, downgrading non-critical
/// failures to warnings, and accumulates one outcome.
pub fn migrate_v0_to_v1(
    store: &mut crate::store::DataStore,
    legacy: &crate::store::LegacySnapshot,
    now: &String,
) -> (r: MigrationResult)
    ensures
        ({
            let (s2, res) = spec_migrate_v0_to_v1(old(store)@, legacy@, now@);
            final(store)@ == s2 && r@ == res
        }),
{
    let ghost s0 = store@;
    let ghost lv = legacy@;
    let ghost p = spec_migrate_projects(s0.projects, lv.projects, now@);
    let ghost sc = spec_migrate_stats_cache(s0.stats_cache, lv.stats_cache, now@);
    let ghost cp = spec_migrate_claude_profiles(s0.claude_profiles, lv.profile_files, now@);
    let ghost lb = spec_migrate_labels(s0.labels, lv.labels, now@);
    let ghost ct = spec_migrate_categories(s0.categories, lv.categories, lv.tags, now@);
    let mut result = MigrationResult::default();

    match migrate_projects(&mut store.projects, &legacy.projects, now) {
        Ok(Some(msg)) => result.migrated_items.push(msg),
        Ok(None) => {},
        Err(e) => {
            result.success = false;
            let mut m = String::from_str("projects migration failed: ");
            m.append(e.as_str());
            result.errors.push(m);
        },
    }
    proof {
        assert(result@.migrated_items =~= opt_item(p.1));
        assert(result@.errors =~= warn_item("projects migration failed: "@, p.1));
        assert(result@.warnings =~= Seq::<Seq<char>>::empty());
    }

    match migrate_stats_cache(&mut store.stats_cache, &legacy.stats_cache, now) {
        Ok(Some(msg)) => result.migrated_items.push(msg),
        Ok(None) => {},
        Err(e) => {
            let mut m = String::from_str("stats cache migration failed (will be rebuilt): ");
            m.append(e.as_str());
            result.warnings.push(m);
            create_empty_stats_cache_file(&mut store.stats_cache, now);
        },
    }
    proof {
        assert(result@.migrated_items =~= opt_item(p.1) + opt_item(sc.1));
        assert(result@.warnings =~= warn_item(
            "stats cache migration failed (will be rebuilt): "@,
            sc.1,
        ));
    }

    match migrate_claude_profiles(&mut store.claude_profiles, &legacy.profile_files, now) {
        Ok(Some(msg)) => result.migrated_items.push(msg),
        Ok(None) => {},
        Err(e) => {
            let mut m = String::from_str("credential profiles migration failed: ");
            m.append(e.as_str());
            result.warnings.push(m);
        },
    }
    proof {
        assert(result@.migrated_items =~= opt_item(p.1) + opt_item(sc.1) + opt_item(cp.1));
        assert(result@.warnings =~= warn_item(
            "stats cache migration failed (will be rebuilt): "@,
            sc.1,
        ) + warn_item("credential profiles migration failed: "@, cp.1));
    }

    match migrate_labels(&mut store.labels, &legacy.labels, now) {
        Ok(Some(msg)) => result.migrated_items.push(msg),
        Ok(None) => {},
        Err(e) => {
            let mut m = String::from_str("labels migration failed: ");
            m.append(e.as_str());
            result.warnings.push(m);
        },
    }
    proof {
        assert(result@.migrated_items =~= opt_item(p.1) + opt_item(sc.1) + opt_item(cp.1)
            + opt_item(lb.1));
        assert(result@.warnings =~= warn_item(
            "stats cache migration failed (will be rebuilt): "@,
            sc.1,
        ) + warn_item("credential profiles migration failed: "@, cp.1) + warn_item(
            "labels migration failed: "@,
            lb.1,
        ));
    }

    match migrate_categories(&mut store.categories, &legacy.categories, &legacy.tags, now) {
        Ok(Some(msg)) => result.migrated_items.push(msg),
        Ok(None) => {},
        Err(e) => {
            let mut m = String::from_str("categories migration failed: ");
            m.append(e.as_str());
            result.warnings.push(m);
        },
    }
    proof {
        let (s2, res) = spec_migrate_v0_to_v1(s0, lv, now@);
        assert(result@.migrated_items =~= res.migrated_items);
        assert(result@.warnings =~= res.warnings);
        assert(result@.errors =~= res.errors);
        assert(result@ =~~= res);
        assert(store@ =~~= s2);
    }
    result
}

// ---------------------------------------------------------------------
// The self-healing backfill.
// ---------------------------------------------------------------------

/// The default credential-profiles document: no environments.
pub open spec fn spec_default_profiles_doc(now: Seq<char>) -> JsonSpec {
    spec_versioned_doc(spec_profiles_payload(Seq::empty()), now)
}

/// A slot after the backfill: untouched when the file is present, a
/// default document otherwise.
pub open spec fn spec_ensure_slot(slot: SlotSpec, doc: JsonSpec) -> SlotSpec {
    if slot.present() {
        slot
    } else {
        SlotSpec::Created(doc)
    }
}

fn create_empty_projects_file(slot: &mut FileSlot, now: &String)
    ensures
        final(slot)@ == spec_ensure_slot(old(slot)@, spec_default_projects_doc(now@)),
{
    if slot_is_absent(slot) {
        let empty: Vec<Project> = Vec::new();
        proof {
            assert(empty.deep_view() =~= Seq::<crate::parse::ProjectSpec>::empty());
        }
        *slot = FileSlot::Created(versioned_doc(projects_payload(&empty), now));
    }
}

fn create_empty_stats_cache_file(slot: &mut FileSlot, now: &String)
    ensures
        final(slot)@ == spec_ensure_slot(old(slot)@, spec_default_plain_doc(now@)),
{
    if slot_is_absent(slot) {
        *slot = FileSlot::Created(versioned_doc(crate::docs::empty_object(), now));
    }
}

fn create_empty_claude_profiles_file(slot: &mut FileSlot, now: &String)
    ensures
        final(slot)@ == spec_ensure_slot(old(slot)@, spec_default_profiles_doc(now@)),
{
    if slot_is_absent(slot) {
        let empty: Vec<(String, JsonNode)> = Vec::new();
        proof {
            assert(empty.deep_view() =~= Seq::<(Seq<char>, JsonSpec)>::empty());
        }
        *slot = FileSlot::Created(versioned_doc(profiles_payload(empty), now));
    }
}

fn create_empty_labels_file(slot: &mut FileSlot, now: &String)
    ensures
        final(slot)@ == spec_ensure_slot(old(slot)@, spec_default_labels_doc(now@)),
{
    if slot_is_absent(slot) {
        let xs = crate::docs::default_labels();
        *slot = FileSlot::Created(versioned_doc(string_array_payload("labels", &xs), now));
    }
}

fn create_empty_categories_file(slot: &mut FileSlot, now: &String)
    ensures
        final(slot)@ == spec_ensure_slot(old(slot)@, spec_default_categories_doc(now@)),
{
    if slot_is_absent(slot) {
        let xs = crate::docs::default_categories();
        *slot = FileSlot::Created(versioned_doc(string_array_payload("categories", &xs), now));
    }
}

/// Backfills one opaque domain with the empty-object default.
fn create_empty_plain_file(slot: &mut FileSlot, now: &String)
    ensures
        final(slot)@ == spec_ensure_slot(old(slot)@, spec_default_plain_doc(now@)),
{
    if slot_is_absent(slot) {
        *slot = FileSlot::Created(versioned_doc(crate::docs::empty_object(), now));
    }
}

/// The whole store after the backfill: every absent domain file gets
/// its default document; nothing else changes, the marker included.
pub open spec fn spec_ensure_all(s: crate::store::StoreSpec, now: Seq<char>) -> crate::store::StoreSpec {
    crate::store::StoreSpec {
        marker: s.marker,
        projects: spec_ensure_slot(s.projects, spec_default_projects_doc(now)),
        stats_cache: spec_ensure_slot(s.stats_cache, spec_default_plain_doc(now)),
        claude_profiles: spec_ensure_slot(s.claude_profiles, spec_default_profiles_doc(now)),
        download_tasks: spec_ensure_slot(s.download_tasks, spec_default_plain_doc(now)),
        forward_rules: spec_ensure_slot(s.forward_rules, spec_default_plain_doc(now)),
        server_configs: spec_ensure_slot(s.server_configs, spec_default_plain_doc(now)),
        labels: spec_ensure_slot(s.labels, spec_default_labels_doc(now)),
        categories: spec_ensure_slot(s.categories, spec_default_categories_doc(now)),
        editors: spec_ensure_slot(s.editors, spec_default_plain_doc(now)),
        terminal: spec_ensure_slot(s.terminal, spec_default_plain_doc(now)),
        app_settings: spec_ensure_slot(s.app_settings, spec_default_plain_doc(now)),
        ui_state: spec_ensure_slot(s.ui_state, spec_default_plain_doc(now)),
        notifications: spec_ensure_slot(s.notifications, spec_default_plain_doc(now)),
        claude_quick_configs: spec_ensure_slot(s.claude_quick_configs, spec_default_plain_doc(now)),
        claude_installations_cache: spec_ensure_slot(
            s.claude_installations_cache,
            spec_default_plain_doc(now),
        ),
    }
}

/// Backfills every absent domain file with its default document. Run on
/// every startup; strictly idempotent: a present file is never touched.
pub fn ensure_all_data_files(store: &mut crate::store::DataStore, now: &String)
    ensures
        final(store)@ == spec_ensure_all(old(store)@, now@),
{
    create_empty_projects_file(&mut store.projects, now);
    create_empty_stats_cache_file(&mut store.stats_cache, now);
    create_empty_claude_profiles_file(&mut store.claude_profiles, now);
    create_empty_plain_file(&mut store.download_tasks, now);
    create_empty_plain_file(&mut store.forward_rules, now);
    create_empty_plain_file(&mut store.server_configs, now);
    create_empty_labels_file(&mut store.labels, now);
    create_empty_categories_file(&mut store.categories, now);
    create_empty_plain_file(&mut store.editors, now);
    create_empty_plain_file(&mut store.terminal, now);
    create_empty_plain_file(&mut store.app_settings, now);
    create_empty_plain_file(&mut store.ui_state, now);
    create_empty_plain_file(&mut store.notifications, now);
    create_empty_plain_file(&mut store.claude_quick_configs, now);
    create_empty_plain_file(&mut store.claude_installations_cache, now);
    proof {
        assert(store@ =~~= spec_ensure_all(old(store)@, now@));
    }
}

// ---------------------------------------------------------------------
// The run: marker, transition, backfill.
// ---------------------------------------------------------------------

/// The marker state a run starts from: the decoded marker document, or
/// the never-migrated state when there is none or it is malformed.
pub open spec fn spec_read_marker(m: crate::store::MarkerSpec) -> crate::docs::MigrationDataSpec {
    match m {
        crate::store::MarkerSpec::Absent => crate::docs::MigrationData::spec_initial(),
        crate::store::MarkerSpec::OnDisk(text) => match json_of(text) {
            Some(j) => match crate::docs::spec_decode_marker(j) {
                Some(md) => md,
                None => crate::docs::MigrationData::spec_initial(),
            },
            None => crate::docs::MigrationData::spec_initial(),
        },
        crate::store::MarkerSpec::Written(doc) => match crate::docs::spec_decode_marker(doc) {
            Some(md) => md,
            None => crate::docs::MigrationData::spec_initial(),
        },
    }
}

fn read_marker(m: &crate::store::MarkerSlot) -> (r: crate::docs::MigrationData)
    ensures
        r@ == spec_read_marker(m@),
{
    match m {
        crate::store::MarkerSlot::Absent => crate::docs::MigrationData::initial(),
        crate::store::MarkerSlot::OnDisk(text) => match json_parse(text.as_str()) {
            Some(node) => match crate::docs::decode_marker(&node) {
                Some(md) => md,
                None => crate::docs::MigrationData::initial(),
            },
            None => crate::docs::MigrationData::initial(),
        },
        crate::store::MarkerSlot::Written(doc) => match crate::docs::decode_marker(doc) {
            Some(md) => md,
            None => crate::docs::MigrationData::initial(),
        },
    }
}

/// The marker data recorded after a run that performed the transition.
pub open spec fn spec_advanced_marker(
    md: crate::docs::MigrationDataSpec,
    success: bool,
    now: Seq<char>,
) -> crate::docs::MigrationDataSpec {
    crate::docs::MigrationDataSpec {
        last_migration_version: 1,
        migrations: md.migrations.push(
            crate::docs::MigrationRecordSpec { id: "v1_initial"@, completed_at: now, success },
        ),
    }
}

/// What a whole run does to the store and reports back: when the marker
/// reads as never-migrated, the transition runs once and the marker is
/// written unconditionally; the backfill runs on every call.
pub open spec fn spec_run_migrations(s: crate::store::StoreSpec, l: crate::store::SnapshotSpec, now: Seq<char>) -> (
    crate::store::StoreSpec,
    MigrationResultSpec,
) {
    let md = spec_read_marker(s.marker);
    if md.last_migration_version == 0 {
        let (s1, res) = spec_migrate_v0_to_v1(s, l, now);
        let md2 = spec_advanced_marker(md, res.success, now);
        let s2 = crate::store::StoreSpec {
            marker: crate::store::MarkerSpec::Written(crate::docs::spec_marker_doc(md2, now)),
            ..s1
        };
        (spec_ensure_all(s2, now), res)
    } else {
        (spec_ensure_all(s, now), spec_default_result())
    }
}

/// Runs the migrations: performs the one-time transition when the
/// marker reads as never-migrated, records the outcome in the marker
/// unconditionally — the transition is never retried — and backfills
/// every missing domain file on every call.
pub fn run_migrations(
    store: &mut crate::store::DataStore,
    legacy: &crate::store::LegacySnapshot,
    now: &String,
) -> (r: MigrationResult)
    ensures
        ({
            let (s2, res) = spec_run_migrations(old(store)@, legacy@, now@);
            final(store)@ == s2 && r@ == res
        }),
{
    let ghost s0 = store@;
    let md = read_marker(&store.marker);
    let mut result = MigrationResult::default();
    if md.last_migration_version == 0 {
        let res = migrate_v0_to_v1(store, legacy, now);
        let mut md2 = md;
        md2.migrations.push(
            crate::docs::MigrationRecord {
                id: String::from_str("v1_initial"),
                completed_at: now.clone(),
                success: res.success,
            },
        );
        md2.last_migration_version = 1;
        proof {
            assert(md2@ =~~= spec_advanced_marker(spec_read_marker(s0.marker), res@.success, now@));
        }
        let doc = crate::docs::marker_doc(&md2, now);
        store.marker = crate::store::MarkerSlot::Written(doc);
        result = res;
    }
    ensure_all_data_files(store, now);
    proof {
        let (s2, res) = spec_run_migrations(s0, legacy@, now@);
        assert(store@ =~~= s2);
        assert(result@ =~~= res);
    }
    result
}

// ---------------------------------------------------------------------
// Laws of the engine.
// ---------------------------------------------------------------------

/// Idempotence of the backfill: a second pass changes nothing, whatever
/// timestamp it runs with, so the documents put on disk by the first
/// pass stay exactly as they are.
pub proof fn lemma_ensure_all_idempotent(s: crate::store::StoreSpec, n1: Seq<char>, n2: Seq<char>)
    ensures
        spec_ensure_all(spec_ensure_all(s, n1), n2) == spec_ensure_all(s, n1),
{
    assert(spec_ensure_all(spec_ensure_all(s, n1), n2) =~~= spec_ensure_all(s, n1));
}

/// Run-once guarantee: a run that starts from a never-migrated marker
/// leaves the marker reading as version 1; and whatever the first run
/// did, a second run changes nothing on disk and reports the default
/// outcome with an empty migrated-items list.
pub proof fn lemma_run_migrations_once(
    s: crate::store::StoreSpec,
    l1: crate::store::SnapshotSpec,
    l2: crate::store::SnapshotSpec,
    n1: Seq<char>,
    n2: Seq<char>,
)
    ensures
        ({
            let (s1, r1) = spec_run_migrations(s, l1, n1);
            let (s2, r2) = spec_run_migrations(s1, l2, n2);
            &&& spec_read_marker(s.marker).last_migration_version == 0
                ==> spec_read_marker(s1.marker).last_migration_version == 1
            &&& s2 == s1
            &&& r2 == spec_default_result()
        }),
{
    let md0 = spec_read_marker(s.marker);
    let (s1, r1) = spec_run_migrations(s, l1, n1);
    if md0.last_migration_version == 0 {
        let (sm, res) = spec_migrate_v0_to_v1(s, l1, n1);
        let md2 = spec_advanced_marker(md0, res.success, n1);
        crate::docs::lemma_marker_round_trip(md2, n1);
        assert(s1.marker == crate::store::MarkerSpec::Written(
            crate::docs::spec_marker_doc(md2, n1),
        ));
        assert(spec_read_marker(s1.marker) == md2);
    }
    assert(spec_read_marker(s1.marker).last_migration_version != 0);
    let (s2, r2) = spec_run_migrations(s1, l2, n2);
    assert(s2 =~~= s1);
}

/// Whether a slot holds only a document of the frozen schema version.
pub open spec fn slot_versioned(slot: SlotSpec) -> bool {
    slot matches SlotSpec::Created(doc) ==> spec_get(doc, "version"@) == Some(
        JsonSpec::Num(Some(crate::CURRENT_VERSION)),
    )
}

/// Schema-version invariant: every document a run creates carries the
/// frozen schema version, whatever the legacy data looked like; so after
/// any run, every created domain file and a written marker read back as
/// that version.
pub proof fn lemma_run_creates_versioned_docs(
    s: crate::store::StoreSpec,
    l: crate::store::SnapshotSpec,
    now: Seq<char>,
)
    requires
        slot_versioned(s.projects),
        slot_versioned(s.stats_cache),
        slot_versioned(s.claude_profiles),
        slot_versioned(s.download_tasks),
        slot_versioned(s.forward_rules),
        slot_versioned(s.server_configs),
        slot_versioned(s.labels),
        slot_versioned(s.categories),
        slot_versioned(s.editors),
        slot_versioned(s.terminal),
        slot_versioned(s.app_settings),
        slot_versioned(s.ui_state),
        slot_versioned(s.notifications),
        slot_versioned(s.claude_quick_configs),
        slot_versioned(s.claude_installations_cache),
        s.marker matches crate::store::MarkerSpec::Written(doc) ==> spec_get(doc, "version"@)
            == Some(JsonSpec::Num(Some(crate::CURRENT_VERSION))),
    ensures
        ({
            let (s2, res) = spec_run_migrations(s, l, now);
            &&& slot_versioned(s2.projects)
            &&& slot_versioned(s2.stats_cache)
            &&& slot_versioned(s2.claude_profiles)
            &&& slot_versioned(s2.download_tasks)
            &&& slot_versioned(s2.forward_rules)
            &&& slot_versioned(s2.server_configs)
            &&& slot_versioned(s2.labels)
            &&& slot_versioned(s2.categories)
            &&& slot_versioned(s2.editors)
            &&& slot_versioned(s2.terminal)
            &&& slot_versioned(s2.app_settings)
            &&& slot_versioned(s2.ui_state)
            &&& slot_versioned(s2.notifications)
            &&& slot_versioned(s2.claude_quick_configs)
            &&& slot_versioned(s2.claude_installations_cache)
            &&& (s2.marker matches crate::store::MarkerSpec::Written(doc) ==> spec_get(
                doc,
                "version"@,
            ) == Some(JsonSpec::Num(Some(crate::CURRENT_VERSION))))
        }),
{
    assert forall|payload: JsonSpec| #[trigger] spec_get(
        spec_versioned_doc(payload, now),
        "version"@,
    ) == Some(JsonSpec::Num(Some(crate::CURRENT_VERSION))) by {
        let fs = spec_versioned_doc(payload, now)->Obj_0;
        assert(fs[0].0 == "version"@);
    }
    let md0 = spec_read_marker(s.marker);
    if md0.last_migration_version == 0 {
        let (s1, res) = spec_migrate_v0_to_v1(s, l, now);
        assert(slot_versioned(s1.projects));
        assert(slot_versioned(s1.stats_cache));
        assert(slot_versioned(s1.claude_profiles));
        assert(slot_versioned(s1.labels));
        assert(slot_versioned(s1.categories));
        let md2 = spec_advanced_marker(md0, res.success, now);
        assert(spec_get(
            spec_versioned_doc(crate::docs::spec_marker_payload(md2), now),
            "version"@,
        ) == Some(JsonSpec::Num(Some(crate::CURRENT_VERSION))));
    }
}

/// Monotonicity of the marker: the last migration version a run leaves
/// behind never reads lower than the one it started from, and once it is
/// positive a run never changes the marker at all.
pub proof fn lemma_marker_version_monotone(
    s: crate::store::StoreSpec,
    l: crate::store::SnapshotSpec,
    now: Seq<char>,
)
    ensures
        ({
            let (s2, res) = spec_run_migrations(s, l, now);
            &&& spec_read_marker(s2.marker).last_migration_version >= spec_read_marker(
                s.marker,
            ).last_migration_version
            &&& spec_read_marker(s.marker).last_migration_version != 0 ==> s2.marker == s.marker
        }),
{
    let md0 = spec_read_marker(s.marker);
    if md0.last_migration_version == 0 {
        let (sm, res) = spec_migrate_v0_to_v1(s, l, now);
        let md2 = spec_advanced_marker(md0, res.success, now);
        crate::docs::lemma_marker_round_trip(md2, now);
    }
}

/// Criticality policy, projects: a corrupted legacy projects source —
/// text that is not valid JSON, or JSON of no recognized shape — makes
/// the transition unsuccessful with one error, and the transition itself
/// leaves no projects file behind; after a full run the backfill has
/// filled the slot with the empty default instead.
pub proof fn lemma_projects_criticality(
    s: crate::store::StoreSpec,
    l: crate::store::SnapshotSpec,
    now: Seq<char>,
)
    requires
        s.projects is Absent,
        l.projects matches LegacySourceSpec::Found(t) && match json_of(t) {
            None => true,
            Some(j) => spec_parse_projects(j) is Err,
        },
    ensures
        ({
            let (s1, res) = spec_migrate_v0_to_v1(s, l, now);
            &&& !res.success
            &&& res.errors.len() == 1
            &&& s1.projects == s.projects
        }),
        spec_read_marker(s.marker).last_migration_version == 0 ==> ({
            let (s2, res2) = spec_run_migrations(s, l, now);
            &&& !res2.success
            &&& res2.errors.len() == 1
            &&& s2.projects == SlotSpec::Created(spec_default_projects_doc(now))
        }),
{
}

/// Criticality policy, stats cache: a corrupted legacy stats-cache
/// source leaves the transition successful — as long as the projects
/// step did not fail — with at least one warning, and the transition
/// itself puts the empty default document on disk at once.
pub proof fn lemma_stats_cache_noncritical(
    s: crate::store::StoreSpec,
    l: crate::store::SnapshotSpec,
    now: Seq<char>,
)
    requires
        s.stats_cache is Absent,
        l.stats_cache matches LegacySourceSpec::Found(t) && json_of(t) is None,
        ({
            let p = spec_migrate_projects(s.projects, l.projects, now);
            !(p.1 is Err)
        }),
    ensures
        ({
            let (s1, res) = spec_migrate_v0_to_v1(s, l, now);
            &&& res.success
            &&& res.warnings.len() >= 1
            &&& s1.stats_cache == SlotSpec::Created(spec_default_plain_doc(now))
        }),
{
}

} // verus!
