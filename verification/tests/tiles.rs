use processing_svc::slippy_tiles::{
    latest_manifest_blob_path, manifest_blob_path, summarize_viirs_coverage, tile_blob_path,
    tiles_per_axis, validate_tile_coord, validate_tile_set_id, validate_viirs_tile, TileCoord,
    TileMathError, ViirsTileCoord,
};

const TILE_SET_ID: &str = "2026-05-21-radiance-dark-sky-v1-a1b2c3d4";

#[test]
fn tiles_validates_tile_bounds_at_zoom_edge() {
    assert!(validate_tile_coord(TileCoord { z: 3, x: 7, y: 7 }).is_ok());
    assert!(matches!(
        validate_tile_coord(TileCoord { z: 3, x: 8, y: 7 }),
        Err(TileMathError::XOutOfRange { .. })
    ));
}

#[test]
fn slippy_tiles_validates_tile_bounds_at_zoom_edge() {
    assert!(validate_tile_coord(TileCoord { z: 3, x: 7, y: 7 }).is_ok());
    assert!(matches!(
        validate_tile_coord(TileCoord { z: 3, x: 8, y: 7 }),
        Err(TileMathError::XOutOfRange { .. })
    ));
}

#[test]
fn tiles_builds_container_relative_tile_paths() {
    let path = tile_blob_path(TILE_SET_ID, TileCoord { z: 5, x: 8, y: 12 }).unwrap();

    assert_eq!(
        path,
        "tiles/2026-05-21-radiance-dark-sky-v1-a1b2c3d4/5/8/12.png"
    );
}

#[test]
fn slippy_tiles_builds_container_relative_tile_paths() {
    let path = tile_blob_path(TILE_SET_ID, TileCoord { z: 5, x: 8, y: 12 }).unwrap();

    assert_eq!(
        path,
        "tiles/2026-05-21-radiance-dark-sky-v1-a1b2c3d4/5/8/12.png"
    );
}

#[test]
fn builds_manifest_paths() {
    assert_eq!(
        manifest_blob_path(TILE_SET_ID).unwrap(),
        "manifests/2026-05-21-radiance-dark-sky-v1-a1b2c3d4.json"
    );
    assert_eq!(latest_manifest_blob_path(), "manifests/latest.json");
}

#[test]
fn tiles_rejects_container_prefixed_tile_set_ids() {
    assert!(matches!(
        manifest_blob_path("processed-tiles/2026-05-21-radiance-dark-sky-v1-a1b2c3d4"),
        Err(TileMathError::InvalidTileSetId)
    ));
}

#[test]
fn slippy_tiles_rejects_container_prefixed_tile_set_ids() {
    assert!(matches!(
        manifest_blob_path("processed-tiles/2026-05-21-radiance-dark-sky-v1-a1b2c3d4"),
        Err(TileMathError::InvalidTileSetId)
    ));
}

#[test]
fn rejects_unsafe_tile_set_ids() {
    for id in ["", "   ", "a/b", "a\\b", "a..b", "processed-tiles-x"] {
        assert_eq!(
            validate_tile_set_id(id),
            Err(TileMathError::InvalidTileSetId),
            "{id:?}"
        );
    }
    assert!(validate_tile_set_id(TILE_SET_ID).is_ok());
}

#[test]
fn rejects_tiles_beyond_supported_zoom_and_rows() {
    assert!(matches!(
        validate_tile_coord(TileCoord { z: 3, x: 7, y: 8 }),
        Err(TileMathError::YOutOfRange { z: 3, y: 8, max: 7 })
    ));
    assert_eq!(tiles_per_axis(3), Ok(8));
    assert!(matches!(
        tiles_per_axis(40),
        Err(TileMathError::ZoomTooLarge { z: 40 })
    ));
}

#[test]
fn slippy_tiles_rejects_invalid_viirs_tile_coordinates() {
    assert!(matches!(
        validate_viirs_tile(36, 6),
        Err(TileMathError::InvalidViirsTile { .. })
    ));
    assert!(matches!(
        validate_viirs_tile(5, 18),
        Err(TileMathError::InvalidViirsTile { .. })
    ));
    assert!(validate_viirs_tile(35, 17).is_ok());
}

fn coord(tile_h: i16, tile_v: i16) -> ViirsTileCoord {
    ViirsTileCoord { tile_h, tile_v }
}

#[test]
fn summarizes_missing_viirs_columns_and_tiles() {
    let expected = (5..=11)
        .flat_map(|tile_h| (4..=6).map(move |tile_v| coord(tile_h, tile_v)))
        .collect::<Vec<_>>();
    let present = vec![
        coord(6, 6),
        coord(7, 4),
        coord(7, 5),
        coord(9, 4),
        coord(9, 5),
        coord(9, 6),
        coord(10, 5),
        coord(11, 6),
        coord(11, 6),
        coord(6, 3),
    ];

    let summary = summarize_viirs_coverage(&expected, &present);

    assert_eq!(summary.expected_tile_count, 21);
    assert_eq!(summary.present_tile_count, 8);
    assert!(!summary.complete);
    assert_eq!(summary.missing_columns, vec![5, 8]);
    assert!(summary.missing_rows.is_empty());
    assert!(summary.missing_tiles.contains(&coord(5, 4)));
    assert!(summary.missing_tiles.contains(&coord(8, 6)));
}

#[test]
fn complete_coverage_has_nothing_missing() {
    let expected = vec![coord(5, 4), coord(5, 5)];
    let summary = summarize_viirs_coverage(&expected, &vec![coord(5, 5), coord(5, 4)]);

    assert!(summary.complete);
    assert!(summary.missing_tiles.is_empty());
    assert_eq!(summary.present_tile_count, 2);
}
