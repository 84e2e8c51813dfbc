//! Retention cleanup: which stored artifacts may be deleted, what each step
//! records, and the tally of a cleanup run.
//!
//! A run first records every selected raw granule and tile set. When it
//! executes, each raw granule is deleted; each tile set is deleted blob by
//! blob, manifest last, unless its tiles cannot be listed on one page. The
//! listing, deletions and event records are performed by the caller; the
//! decisions between them are made here.
use vstd::prelude::*;

use crate::db::{RetentionEventAction, RetentionEventMode};
use crate::processing_message::UtcDateTime;
use crate::slippy_tiles::{
    manifest_blob_path, manifest_path, tile_math_error_text, tile_set_id_valid, TileMathError,
};
use crate::storage::{BlobListPage, DeleteBlobOutcome};
use crate::text::{chars_eq, chars_of, owned, push_str};

verus! {

/// Reason recorded for raw granule events.
pub const RAW_REASON: &'static str =
    "raw granule exceeds retention policy and requires re-ingest after deletion";

/// Reason recorded for tile-set events.
pub const TILE_SET_REASON: &'static str =
    "processed tile set exceeds retention policy and is outside latest/prior protection";

/// Reason recorded when a tile set is skipped.
pub const TILE_SET_SKIP_REASON: &'static str =
    "tile set has more blobs than RETENTION_TILE_BLOB_LIMIT or requires paged deletion";

/// A raw granule selected for deletion.
#[derive(Debug, Clone, PartialEq, Eq)]
pub struct RawBlobRetentionCandidate {
    pub blob_path: String,
    pub oldest_created_at: UtcDateTime,
    pub record_count: i64,
}

/// A processed tile set selected for deletion.
#[derive(Debug, Clone, PartialEq, Eq)]
pub struct TileSetRetentionCandidate {
    pub tile_set_id: String,
    pub classification_version: String,
    pub manifest_blob_path: String,
    pub created_at: UtcDateTime,
    pub tile_count: i32,
}

/// Why a retention run stopped.
#[derive(Debug, Clone, PartialEq, Eq)]
pub enum RetentionError {
    LatestManifestSelected { tile_set_id: String },
    ManifestPathMismatch { tile_set_id: String, expected: String, actual: String },
    TileMath(TileMathError),
}

/// The mode recorded with every event of a run.
pub fn retention_mode(execute: bool) -> (m: RetentionEventMode)
    ensures
        m == (if execute {
            RetentionEventMode::Execute
        } else {
            RetentionEventMode::DryRun
        }),
{
    if execute {
        RetentionEventMode::Execute
    } else {
        RetentionEventMode::DryRun
    }
}

/// One step of handling a retention candidate (a raw blob or a tile set).
#[derive(Debug, Clone, Copy, PartialEq, Eq, Structural)]
pub enum CandidateStep {
    /// Record the candidate as selected.
    RecordSelected,
    /// Delete what the candidate holds and record the outcome.
    Delete,
}

/// The steps for a candidate in a run of `mode`.
pub open spec fn candidate_steps_of(mode: RetentionEventMode) -> Seq<CandidateStep> {
    match mode {
        RetentionEventMode::Execute => seq![CandidateStep::RecordSelected, CandidateStep::Delete],
        RetentionEventMode::DryRun => seq![CandidateStep::RecordSelected],
    }
}

/// The steps for one candidate: it is always recorded as selected first,
/// and only an execute run goes on to delete it.
pub fn candidate_steps(mode: RetentionEventMode) -> (steps: Vec<CandidateStep>)
    ensures
        steps@ == candidate_steps_of(mode),
{
    let mut steps: Vec<CandidateStep> = Vec::new();
    steps.push(CandidateStep::RecordSelected);
    match mode {
        RetentionEventMode::Execute => steps.push(CandidateStep::Delete),
        RetentionEventMode::DryRun => {},
    }
    assert(steps@ =~= candidate_steps_of(mode));
    steps
}

/// A dry run deletes nothing: each candidate gets exactly one step, which
/// records it as selected. In every run the first step records the
/// selection, and a candidate is deleted exactly when the run executes.
pub proof fn lemma_dry_run_only_selects(mode: RetentionEventMode)
    ensures
        candidate_steps_of(mode)[0] == CandidateStep::RecordSelected,
        candidate_steps_of(mode).contains(CandidateStep::Delete) <==> mode
            == RetentionEventMode::Execute,
        mode == RetentionEventMode::DryRun ==> candidate_steps_of(mode) == seq![
            CandidateStep::RecordSelected,
        ],
{
    match mode {
        RetentionEventMode::Execute => {
            assert(candidate_steps_of(mode)[1] == CandidateStep::Delete);
        },
        RetentionEventMode::DryRun => {
            assert(candidate_steps_of(mode).len() == 1);
            if candidate_steps_of(mode).contains(CandidateStep::Delete) {
                let k = choose|k: int| 0 <= k < candidate_steps_of(mode).len()
                    && candidate_steps_of(mode)[k] == CandidateStep::Delete;
                assert(k == 0);
            }
        },
    }
}

/// The mode as shown to the operator.
pub fn retention_mode_label(execute: bool) -> (r: &'static str)
    ensures
        r@ == (if execute {
            "execute"@
        } else {
            "dry-run"@
        }),
{
    if execute {
        "execute"
    } else {
        "dry-run"
    }
}

/// Checks that a candidate's manifest is its own immutable manifest and
/// never the public latest pointer.
pub fn validate_manifest_path(candidate: &TileSetRetentionCandidate) -> (r: Result<
    (),
    RetentionError,
>)
    ensures
        candidate.manifest_blob_path@ == "manifests/latest.json"@ ==> (r matches Err(
            RetentionError::LatestManifestSelected { tile_set_id },
        ) && tile_set_id@ == candidate.tile_set_id@),
        candidate.manifest_blob_path@ != "manifests/latest.json"@ && !tile_set_id_valid(
            candidate.tile_set_id@,
        ) ==> r == Err::<(), RetentionError>(
            RetentionError::TileMath(TileMathError::InvalidTileSetId),
        ),
        candidate.manifest_blob_path@ != "manifests/latest.json"@ && tile_set_id_valid(
            candidate.tile_set_id@,
        ) && candidate.manifest_blob_path@ != manifest_path(candidate.tile_set_id@) ==> (r matches Err(
            RetentionError::ManifestPathMismatch { tile_set_id, expected, actual },
        ) && tile_set_id@ == candidate.tile_set_id@ && expected@ == manifest_path(
            candidate.tile_set_id@,
        ) && actual@ == candidate.manifest_blob_path@),
        r is Ok <==> (tile_set_id_valid(candidate.tile_set_id@) && candidate.manifest_blob_path@
            == manifest_path(candidate.tile_set_id@) && candidate.manifest_blob_path@
            != "manifests/latest.json"@),
{
    let actual = chars_of(candidate.manifest_blob_path.as_str());
    if chars_eq(&actual, &chars_of(crate::slippy_tiles::latest_manifest_blob_path())) {
        return Err(
            RetentionError::LatestManifestSelected {
                tile_set_id: owned(candidate.tile_set_id.as_str()),
            },
        );
    }
    let expected = match manifest_blob_path(candidate.tile_set_id.as_str()) {
        Ok(path) => path,
        Err(e) => {
            return Err(RetentionError::TileMath(e));
        },
    };
    if !chars_eq(&actual, &chars_of(expected.as_str())) {
        return Err(
            RetentionError::ManifestPathMismatch {
                tile_set_id: owned(candidate.tile_set_id.as_str()),
                expected,
                actual: owned(candidate.manifest_blob_path.as_str()),
            },
        );
    }
    Ok(())
}

/// `tiles/{id}/`: the blob prefix under which a tile set's tiles live.
pub open spec fn tile_prefix(tile_set_id: Seq<char>) -> Seq<char> {
    "tiles/"@ + tile_set_id + "/"@
}

/// The blob prefix of a tile set's tiles.
pub fn tile_set_prefix(tile_set_id: &str) -> (r: Result<String, RetentionError>)
    ensures
        tile_set_id_valid(tile_set_id@) ==> (r matches Ok(p) && p@ == tile_prefix(tile_set_id@)),
        !tile_set_id_valid(tile_set_id@) ==> r == Err::<String, RetentionError>(
            RetentionError::TileMath(TileMathError::InvalidTileSetId),
        ),
{
    if let Err(e) = manifest_blob_path(tile_set_id) {
        return Err(RetentionError::TileMath(e));
    }
    let mut out = String::new();
    push_str(&mut out, "tiles/");
    push_str(&mut out, tile_set_id);
    push_str(&mut out, "/");
    assert(out@ =~= tile_prefix(tile_set_id@));
    Ok(out)
}

/// The tally of a retention run.
#[derive(Debug, Clone, Copy, PartialEq, Eq, Structural)]
pub struct RetentionSummary {
    pub raw_deleted: usize,
    pub raw_missing: usize,
    pub tile_sets_deleted: usize,
    pub tile_sets_skipped: usize,
}

/// What became of a tile set in an executing run.
#[derive(Debug, Clone, Copy, PartialEq, Eq, Structural)]
pub enum TileSetCleanupOutcome {
    Deleted,
    Skipped,
}

/// The event recorded for a blob deletion.
pub open spec fn deletion_action(outcome: DeleteBlobOutcome) -> RetentionEventAction {
    match outcome {
        DeleteBlobOutcome::Deleted => RetentionEventAction::Deleted,
        DeleteBlobOutcome::Missing => RetentionEventAction::Missing,
    }
}

/// The event recorded for a blob deletion: deleted, or already missing.
pub fn deletion_event_action(outcome: DeleteBlobOutcome) -> (a: RetentionEventAction)
    ensures
        a == deletion_action(outcome),
{
    match outcome {
        DeleteBlobOutcome::Deleted => RetentionEventAction::Deleted,
        DeleteBlobOutcome::Missing => RetentionEventAction::Missing,
    }
}

impl RetentionSummary {
    /// A run that has done nothing yet.
    pub fn new() -> (s: Self)
        ensures
            s == (RetentionSummary {
                raw_deleted: 0,
                raw_missing: 0,
                tile_sets_deleted: 0,
                tile_sets_skipped: 0,
            }),
    {
        RetentionSummary { raw_deleted: 0, raw_missing: 0, tile_sets_deleted: 0, tile_sets_skipped: 0 }
    }

    /// Counts the deletion of a raw granule and returns the event to record.
    pub fn after_raw_deletion(&mut self, outcome: DeleteBlobOutcome) -> (a: RetentionEventAction)
        requires
            old(self).raw_deleted < usize::MAX,
            old(self).raw_missing < usize::MAX,
        ensures
            a == deletion_action(outcome),
            final(self).raw_deleted == old(self).raw_deleted + (if outcome
                == DeleteBlobOutcome::Deleted {
                1int
            } else {
                0int
            }),
            final(self).raw_missing == old(self).raw_missing + (if outcome
                == DeleteBlobOutcome::Missing {
                1int
            } else {
                0int
            }),
            final(self).tile_sets_deleted == old(self).tile_sets_deleted,
            final(self).tile_sets_skipped == old(self).tile_sets_skipped,
    {
        match outcome {
            DeleteBlobOutcome::Deleted => {
                self.raw_deleted = self.raw_deleted + 1;
                RetentionEventAction::Deleted
            },
            DeleteBlobOutcome::Missing => {
                self.raw_missing = self.raw_missing + 1;
                RetentionEventAction::Missing
            },
        }
    }

    /// Counts the outcome of a tile set's cleanup.
    pub fn after_tile_set_cleanup(&mut self, outcome: TileSetCleanupOutcome)
        requires
            old(self).tile_sets_deleted < usize::MAX,
            old(self).tile_sets_skipped < usize::MAX,
        ensures
            final(self).tile_sets_deleted == old(self).tile_sets_deleted + (if outcome
                == TileSetCleanupOutcome::Deleted {
                1int
            } else {
                0int
            }),
            final(self).tile_sets_skipped == old(self).tile_sets_skipped + (if outcome
                == TileSetCleanupOutcome::Skipped {
                1int
            } else {
                0int
            }),
            final(self).raw_deleted == old(self).raw_deleted,
            final(self).raw_missing == old(self).raw_missing,
    {
        match outcome {
            TileSetCleanupOutcome::Deleted => {
                self.tile_sets_deleted = self.tile_sets_deleted + 1;
            },
            TileSetCleanupOutcome::Skipped => {
                self.tile_sets_skipped = self.tile_sets_skipped + 1;
            },
        }
    }
}

/// What to do with a tile set once its tiles have been listed.
#[derive(Debug, Clone, PartialEq, Eq)]
pub enum TileSetCleanupPlan {
    /// Record a skip: the listing was incomplete or too long.
    Skip,
    /// Delete every listed tile blob, then the manifest, then mark the set
    /// deleted.
    Delete { tile_blob_paths: Vec<String>, manifest_blob_path: String },
}

/// Whether a listing is too long to delete in one pass.
pub open spec fn listing_exceeds_limit(page: BlobListPage, tile_blob_limit: u32) -> bool {
    page.has_more || page.blob_paths@.len() > tile_blob_limit
}

/// Decides the cleanup of a tile set from the page listing its tiles. A set
/// is deleted only when the whole listing fits within the tile-blob limit;
/// the manifest is deleted after every tile.
pub fn plan_tile_set_cleanup(
    candidate: &TileSetRetentionCandidate,
    page: BlobListPage,
    tile_blob_limit: u32,
) -> (p: TileSetCleanupPlan)
    ensures
        listing_exceeds_limit(page, tile_blob_limit) ==> p == TileSetCleanupPlan::Skip,
        !listing_exceeds_limit(page, tile_blob_limit) ==> (p matches TileSetCleanupPlan::Delete {
            tile_blob_paths,
            manifest_blob_path,
        } && tile_blob_paths@ == page.blob_paths@ && manifest_blob_path@
            == candidate.manifest_blob_path@),
{
    if page.has_more || page.blob_paths.len() > tile_blob_limit as usize {
        return TileSetCleanupPlan::Skip;
    }
    TileSetCleanupPlan::Delete {
        tile_blob_paths: page.blob_paths,
        manifest_blob_path: owned(candidate.manifest_blob_path.as_str()),
    }
}

/// The message of a retention error.
pub open spec fn retention_error_text(e: RetentionError) -> Seq<char> {
    match e {
        RetentionError::LatestManifestSelected { tile_set_id } =>
            "retention cleanup tried to select latest manifest pointer for tile set '"@ + tile_set_id@
            + "'"@,
        RetentionError::ManifestPathMismatch { tile_set_id, expected, actual } =>
            "retention cleanup manifest path mismatch for tile set '"@ + tile_set_id@
            + "': expected '"@ + expected@ + "', got '"@ + actual@ + "'"@,
        RetentionError::TileMath(error) => tile_math_error_text(error),
    }
}

impl RetentionError {
    /// The message shown for this error.
    pub fn message(&self) -> (r: String)
        ensures
            r@ == retention_error_text(*self),
    {
        let mut out = String::new();
        match self {
            RetentionError::LatestManifestSelected { tile_set_id } => {
                push_str(&mut out, "retention cleanup tried to select latest manifest pointer for tile set '");
                push_str(&mut out, tile_set_id.as_str());
                push_str(&mut out, "'");
            },
            RetentionError::ManifestPathMismatch { tile_set_id, expected, actual } => {
                push_str(&mut out, "retention cleanup manifest path mismatch for tile set '");
                push_str(&mut out, tile_set_id.as_str());
                push_str(&mut out, "': expected '");
                push_str(&mut out, expected.as_str());
                push_str(&mut out, "', got '");
                push_str(&mut out, actual.as_str());
                push_str(&mut out, "'");
            },
            RetentionError::TileMath(error) => return error.message(),
        }
        assert(out@ =~= retention_error_text(*self));
        out
    }
}

} // verus!
