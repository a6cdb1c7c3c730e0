//! The on-disk state that migration and backfill work on, as a value.
//!
//! The engine never reads a destination domain file: it only needs to
//! know whether one exists, and the content of any document it created
//! itself during this run. The migration marker is the one file that is
//! read back, so its slot carries the raw text found on disk. The caller
//! that owns the real directory fills a [`DataStore`] from it, runs the
//! engine, and writes out exactly the documents the engine created.

use vstd::prelude::*;
use crate::json::{JsonNode, JsonSpec};

verus! {

/// Mathematical model of one domain file slot.
#[verifier::ext_equal]
pub enum SlotSpec {
    /// The file does not exist.
    Absent,
    /// The file existed before this run; its content is never read.
    OnDisk,
    /// The engine created the file with this document during this run.
    Created(JsonSpec),
}

/// One domain file slot.
pub enum FileSlot {
    Absent,
    OnDisk,
    Created(JsonNode),
}

impl View for FileSlot {
    type V = SlotSpec;

    open spec fn view(&self) -> SlotSpec {
        match self {
            FileSlot::Absent => SlotSpec::Absent,
            FileSlot::OnDisk => SlotSpec::OnDisk,
            FileSlot::Created(n) => SlotSpec::Created(n@),
        }
    }
}

impl SlotSpec {
    /// Whether the file is present, already on disk or just created.
    pub open spec fn present(self) -> bool {
        !(self is Absent)
    }
}

/// Mathematical model of the migration marker slot.
#[verifier::ext_equal]
pub enum MarkerSpec {
    /// No marker file exists.
    Absent,
    /// A marker file existed before this run, with this raw text.
    OnDisk(Seq<char>),
    /// The engine wrote the marker with this document during this run.
    Written(JsonSpec),
}

/// The migration marker slot.
pub enum MarkerSlot {
    Absent,
    OnDisk(String),
    Written(JsonNode),
}

impl View for MarkerSlot {
    type V = MarkerSpec;

    open spec fn view(&self) -> MarkerSpec {
        match self {
            MarkerSlot::Absent => MarkerSpec::Absent,
            MarkerSlot::OnDisk(s) => MarkerSpec::OnDisk(s@),
            MarkerSlot::Written(n) => MarkerSpec::Written(n@),
        }
    }
}

/// Mathematical model of the whole store.
#[verifier::ext_equal]
pub struct StoreSpec {
    pub marker: MarkerSpec,
    pub projects: SlotSpec,
    pub stats_cache: SlotSpec,
    pub claude_profiles: SlotSpec,
    pub download_tasks: SlotSpec,
    pub forward_rules: SlotSpec,
    pub server_configs: SlotSpec,
    pub labels: SlotSpec,
    pub categories: SlotSpec,
    pub editors: SlotSpec,
    pub terminal: SlotSpec,
    pub app_settings: SlotSpec,
    pub ui_state: SlotSpec,
    pub notifications: SlotSpec,
    pub claude_quick_configs: SlotSpec,
    pub claude_installations_cache: SlotSpec,
}

/// The state of every domain file and of the migration marker.
pub struct DataStore {
    pub marker: MarkerSlot,
    pub projects: FileSlot,
    pub stats_cache: FileSlot,
    pub claude_profiles: FileSlot,
    pub download_tasks: FileSlot,
    pub forward_rules: FileSlot,
    pub server_configs: FileSlot,
    pub labels: FileSlot,
    pub categories: FileSlot,
    pub editors: FileSlot,
    pub terminal: FileSlot,
    pub app_settings: FileSlot,
    pub ui_state: FileSlot,
    pub notifications: FileSlot,
    pub claude_quick_configs: FileSlot,
    pub claude_installations_cache: FileSlot,
}

impl View for DataStore {
    type V = StoreSpec;

    open spec fn view(&self) -> StoreSpec {
        StoreSpec {
            marker: self.marker@,
            projects: self.projects@,
            stats_cache: self.stats_cache@,
            claude_profiles: self.claude_profiles@,
            download_tasks: self.download_tasks@,
            forward_rules: self.forward_rules@,
            server_configs: self.server_configs@,
            labels: self.labels@,
            categories: self.categories@,
            editors: self.editors@,
            terminal: self.terminal@,
            app_settings: self.app_settings@,
            ui_state: self.ui_state@,
            notifications: self.notifications@,
            claude_quick_configs: self.claude_quick_configs@,
            claude_installations_cache: self.claude_installations_cache@,
        }
    }
}

/// Mathematical model of one legacy source file.
#[verifier::ext_equal]
pub enum LegacySourceSpec {
    /// No such legacy file exists (or no legacy directory at all).
    Missing,
    /// The legacy file exists but could not be read.
    Unreadable,
    /// The legacy file exists with this raw text.
    Found(Seq<char>),
}

/// One legacy source file, as found by the caller in the previous
/// install's directories.
#[derive(Debug, Clone, PartialEq, Eq)]
pub enum LegacySource {
    Missing,
    Unreadable,
    Found(String),
}

impl View for LegacySource {
    type V = LegacySourceSpec;

    open spec fn view(&self) -> LegacySourceSpec {
        match self {
            LegacySource::Missing => LegacySourceSpec::Missing,
            LegacySource::Unreadable => LegacySourceSpec::Unreadable,
            LegacySource::Found(s) => LegacySourceSpec::Found(s@),
        }
    }
}

/// Mathematical model of the legacy snapshot.
#[verifier::ext_equal]
pub struct SnapshotSpec {
    pub projects: LegacySourceSpec,
    pub stats_cache: LegacySourceSpec,
    pub labels: LegacySourceSpec,
    pub categories: LegacySourceSpec,
    pub tags: LegacySourceSpec,
    pub profile_files: Seq<(Seq<char>, Seq<char>)>,
}

/// What the previous install left behind: the candidate source files of
/// the migratable domains, and the name and text of every readable file
/// of the previous install's configuration directory (unreadable ones
/// are skipped, as they would be by the engine).
pub struct LegacySnapshot {
    pub projects: LegacySource,
    pub stats_cache: LegacySource,
    pub labels: LegacySource,
    pub categories: LegacySource,
    pub tags: LegacySource,
    pub profile_files: Vec<(String, String)>,
}

impl View for LegacySnapshot {
    type V = SnapshotSpec;

    open spec fn view(&self) -> SnapshotSpec {
        SnapshotSpec {
            projects: self.projects@,
            stats_cache: self.stats_cache@,
            labels: self.labels@,
            categories: self.categories@,
            tags: self.tags@,
            profile_files: self.profile_files.deep_view(),
        }
    }
}

impl LegacySnapshot {
    /// A fresh install: nothing left behind.
    pub fn empty() -> (r: LegacySnapshot)
        ensures
            r@.projects == LegacySourceSpec::Missing,
            r@.stats_cache == LegacySourceSpec::Missing,
            r@.labels == LegacySourceSpec::Missing,
            r@.categories == LegacySourceSpec::Missing,
            r@.tags == LegacySourceSpec::Missing,
            r@.profile_files == Seq::<(Seq<char>, Seq<char>)>::empty(),
    {
        let r = LegacySnapshot {
            projects: LegacySource::Missing,
            stats_cache: LegacySource::Missing,
            labels: LegacySource::Missing,
            categories: LegacySource::Missing,
            tags: LegacySource::Missing,
            profile_files: Vec::new(),
        };
        proof {
            assert(r@.profile_files =~= Seq::<(Seq<char>, Seq<char>)>::empty());
        }
        r
    }
}

} // verus!
