//! Where to resume the transaction stream, and how a stream position is kept
//! in a signed 64-bit column.

use crate::pipeline::ProcessingResult;
use vstd::prelude::*;
use vstd::string::StringExecFns;

verus! {

/// Why a starting version was chosen.
#[derive(Clone, Copy, Debug, PartialEq, Eq, Structural)]
pub enum VersionSource {
    /// The operator's explicit override.
    Override,
    /// The checkpoint that the progress store returned.
    Checkpoint,
    /// The configured initial version.
    Initial,
    /// Nothing was given: the stream starts at zero.
    Default,
}

/// Starting positions that the operator can configure.
#[derive(Clone, Copy, Debug, PartialEq, Eq, Structural)]
pub struct CommonStorageConfig {
    /// Used when the progress store holds no checkpoint.
    pub initial_starting_version: Option<u64>,
    /// Used even when the progress store holds a checkpoint.
    pub starting_version_override: Option<u64>,
}

/// The first of override, stored checkpoint and configured initial version
/// that is present, with its origin; version zero when none is.
pub open spec fn resolved_start(
    config: CommonStorageConfig,
    from_store: Option<u64>,
) -> (u64, VersionSource) {
    if let Some(v) = config.starting_version_override {
        (v, VersionSource::Override)
    } else if let Some(v) = from_store {
        (v, VersionSource::Checkpoint)
    } else if let Some(v) = config.initial_starting_version {
        (v, VersionSource::Initial)
    } else {
        (0u64, VersionSource::Default)
    }
}

impl CommonStorageConfig {
    /// The version to start streaming from, together with the source that
    /// decided it, so that a caller can report the choice.
    pub fn resolve_starting_version(&self, starting_version_from_db: Option<u64>) -> (chosen: (
        u64,
        VersionSource,
    ))
        ensures
            chosen == resolved_start(*self, starting_version_from_db),
    {
        match self.starting_version_override {
            Some(version) => (version, VersionSource::Override),
            None => match starting_version_from_db {
                Some(version) => (version, VersionSource::Checkpoint),
                None => match self.initial_starting_version {
                    Some(version) => (version, VersionSource::Initial),
                    None => (0, VersionSource::Default),
                },
            },
        }
    }

    /// The version to start streaming from: the override if set, else the
    /// stored checkpoint, else the configured initial version, else zero.
    pub fn determine_starting_version(&self, starting_version_from_db: Option<u64>) -> (version:
        u64)
        ensures
            version == resolved_start(*self, starting_version_from_db).0,
    {
        self.resolve_starting_version(starting_version_from_db).0
    }
}

/// The key under which the processor's checkpoint is kept.
pub const PROCESSOR_NAME: &'static str = "SummitsProcessor";

/// How far a processor has come: the last version of the last batch that it
/// finished. The store keeps one such row per processor name and replaces it
/// on every write.
#[derive(Clone, Debug)]
pub struct ProcessingCheckpoint {
    pub processor_name: String,
    pub last_success_version: u64,
}

/// The checkpoint to write once a batch is done: the batch's end version,
/// under the processor's name.
pub fn checkpoint_after(result: ProcessingResult) -> (checkpoint: ProcessingCheckpoint)
    ensures
        checkpoint.processor_name@ == PROCESSOR_NAME@,
        checkpoint.last_success_version == result.end_version,
{
    ProcessingCheckpoint {
        processor_name: String::from_str(PROCESSOR_NAME),
        last_success_version: result.end_version,
    }
}

/// A version as the store's signed 64-bit column holds it: unchanged up to
/// the largest signed value, and wrapped into the negative numbers above it.
pub open spec fn column_of(version: u64) -> int {
    if version <= i64::MAX {
        version as int
    } else {
        version - 0x1_0000_0000_0000_0000
    }
}

/// The version that a stored column value stands for.
pub open spec fn version_of(stored: i64) -> int {
    if stored >= 0 {
        stored as int
    } else {
        stored + 0x1_0000_0000_0000_0000
    }
}

/// The value to store for `version`.
pub fn version_to_column(version: u64) -> (stored: i64)
    ensures
        stored == column_of(version),
        version_of(stored) == version,
{
    if version <= 0x7fff_ffff_ffff_ffff {
        version as i64
    } else {
        let above: u64 = version - 0x8000_0000_0000_0000;
        (above as i64) + (-0x7fff_ffff_ffff_ffff - 1)
    }
}

/// The version that was stored as `stored`.
pub fn version_from_column(stored: i64) -> (version: u64)
    ensures
        version == version_of(stored),
        column_of(version) == stored,
{
    if stored >= 0 {
        stored as u64
    } else {
        let above: i64 = stored - (-0x7fff_ffff_ffff_ffff - 1);
        (above as u64) + 0x8000_0000_0000_0000
    }
}

/// After a restart without an override the stream resumes at the version
/// that was last written, whatever initial version is configured.
pub proof fn lemma_resumes_from_checkpoint(config: CommonStorageConfig, written: u64)
    requires
        config.starting_version_override is None,
    ensures
        resolved_start(config, Some(written)) == (written, VersionSource::Checkpoint),
{
}

/// An override wins over everything else.
pub proof fn lemma_override_wins(config: CommonStorageConfig, from_store: Option<u64>)
    requires
        config.starting_version_override is Some,
    ensures
        resolved_start(config, from_store) == (
            config.starting_version_override->0,
            VersionSource::Override,
        ),
{
}

} // verus!
