//! Values that the service stores in PostgreSQL as text.
use vstd::prelude::*;

verus! {

/// Whether a tile set was rendered from one granule or mosaicked from many.
#[derive(Debug, Clone, Copy, PartialEq, Eq, Structural)]
pub enum TileSetKind {
    Granule,
    Mosaic,
}

/// The stored name of a tile-set kind.
pub open spec fn tile_set_kind_name(k: TileSetKind) -> Seq<char> {
    match k {
        TileSetKind::Granule => "granule"@,
        TileSetKind::Mosaic => "mosaic"@,
    }
}

impl TileSetKind {
    /// The stored name of this kind.
    pub fn as_str(self) -> (r: &'static str)
        ensures
            r@ == tile_set_kind_name(self),
    {
        match self {
            TileSetKind::Granule => "granule",
            TileSetKind::Mosaic => "mosaic",
        }
    }
}

/// Whether a retention run only reports or also deletes.
#[derive(Debug, Clone, Copy, PartialEq, Eq, Structural)]
pub enum RetentionEventMode {
    DryRun,
    Execute,
}

/// The stored name of a retention mode.
pub open spec fn retention_mode_name(m: RetentionEventMode) -> Seq<char> {
    match m {
        RetentionEventMode::DryRun => "dry_run"@,
        RetentionEventMode::Execute => "execute"@,
    }
}

impl RetentionEventMode {
    /// The stored name of this mode.
    pub fn as_str(self) -> (r: &'static str)
        ensures
            r@ == retention_mode_name(self),
    {
        match self {
            RetentionEventMode::DryRun => "dry_run",
            RetentionEventMode::Execute => "execute",
        }
    }
}

/// What a retention event is about.
#[derive(Debug, Clone, Copy, PartialEq, Eq, Structural)]
pub enum RetentionTargetKind {
    RawBlob,
    ProcessedTile,
    ProcessedManifest,
    TileSet,
}

/// The stored name of a retention target kind.
pub open spec fn retention_target_name(k: RetentionTargetKind) -> Seq<char> {
    match k {
        RetentionTargetKind::RawBlob => "raw_blob"@,
        RetentionTargetKind::ProcessedTile => "processed_tile"@,
        RetentionTargetKind::ProcessedManifest => "processed_manifest"@,
        RetentionTargetKind::TileSet => "tile_set"@,
    }
}

impl RetentionTargetKind {
    /// The stored name of this target kind.
    pub fn as_str(self) -> (r: &'static str)
        ensures
            r@ == retention_target_name(self),
    {
        match self {
            RetentionTargetKind::RawBlob => "raw_blob",
            RetentionTargetKind::ProcessedTile => "processed_tile",
            RetentionTargetKind::ProcessedManifest => "processed_manifest",
            RetentionTargetKind::TileSet => "tile_set",
        }
    }
}

/// What happened to a retention target.
#[derive(Debug, Clone, Copy, PartialEq, Eq, Structural)]
pub enum RetentionEventAction {
    Selected,
    Deleted,
    Missing,
    Skipped,
}

/// The stored name of a retention action.
pub open spec fn retention_action_name(a: RetentionEventAction) -> Seq<char> {
    match a {
        RetentionEventAction::Selected => "selected"@,
        RetentionEventAction::Deleted => "deleted"@,
        RetentionEventAction::Missing => "missing"@,
        RetentionEventAction::Skipped => "skipped"@,
    }
}

impl RetentionEventAction {
    /// The stored name of this action.
    pub fn as_str(self) -> (r: &'static str)
        ensures
            r@ == retention_action_name(self),
    {
        match self {
            RetentionEventAction::Selected => "selected",
            RetentionEventAction::Deleted => "deleted",
            RetentionEventAction::Missing => "missing",
            RetentionEventAction::Skipped => "skipped",
        }
    }
}

} // verus!
