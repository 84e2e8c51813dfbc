use processing_svc::azure_storage::{shared_key_authorization, validate_queue_name};
use processing_svc::commands::CalendarDate;
use processing_svc::generate::GenerateError;
use processing_svc::mosaic::MosaicError;
use processing_svc::processing_message::ProcessingMessageValidationError;
use processing_svc::publish::PublishError;
use processing_svc::render::RenderError;
use processing_svc::retention::RetentionError;
use processing_svc::science::ScienceError;
use processing_svc::hdf::RasterShape;
use processing_svc::slippy_tiles::{TileCoord, TileMathError, TileRange};

#[test]
fn tile_math_messages_name_the_offending_values() {
    assert_eq!(TileMathError::InvalidBounds.message(), "invalid geographic bounds");
    assert_eq!(
        TileMathError::InvalidViirsTile { tile_h: 5, tile_v: 4 }.message(),
        "invalid VIIRS tile h05v04"
    );
    assert_eq!(
        TileMathError::InvalidViirsTile { tile_h: -1, tile_v: 18 }.message(),
        "invalid VIIRS tile h-1v18"
    );
    assert_eq!(TileMathError::InvalidTileSetId.message(), "invalid tile set id");
    assert_eq!(
        TileMathError::XOutOfRange { z: 2, x: 4, max: 3 }.message(),
        "tile x 4 is outside zoom 2 range 0..=3"
    );
    assert_eq!(
        TileMathError::YOutOfRange { z: 1, y: 9, max: 1 }.message(),
        "tile y 9 is outside zoom 1 range 0..=1"
    );
    assert_eq!(
        TileMathError::ZoomTooLarge { z: 23 }.message(),
        "tile zoom 23 exceeds supported maximum"
    );
}

#[test]
fn processing_message_errors_quote_the_message_fields() {
    assert_eq!(
        ProcessingMessageValidationError::TileMismatch {
            blob_tile_h: 11,
            blob_tile_v: 6,
            message_tile_h: 12,
            message_tile_v: 6,
        }
        .message(),
        "processing message tile mismatch: blob path has h11v06, message has h12v06"
    );
    assert_eq!(
        ProcessingMessageValidationError::UnsupportedProduct("VNP99".to_owned()).message(),
        "unsupported processing message product 'VNP99'"
    );
    assert_eq!(
        ProcessingMessageValidationError::MissingTileInBlobPath("a/b.h5".to_owned()).message(),
        "processing message blob_path 'a/b.h5' does not contain an hXXvYY tile"
    );
    assert_eq!(
        ProcessingMessageValidationError::InvalidJson("expected value".to_owned()).message(),
        "invalid processing message JSON: expected value"
    );
    assert_eq!(
        ProcessingMessageValidationError::InvalidBlobPath("/abs.h5".to_owned()).message(),
        "invalid processing message blob_path '/abs.h5': must be relative to raw-viirs and must not be absolute, URL-based, or prefixed with raw-viirs/"
    );
}

#[test]
fn azure_storage_errors_explain_the_refusal() {
    let error = validate_queue_name("ab").unwrap_err();
    assert_eq!(
        error.message(),
        "azure storage error: invalid queue name 'ab': queue names must be between 3 and 63 characters"
    );
    let error = shared_key_authorization("devstoreaccount1", "!!!not-base64", "GET\n").unwrap_err();
    let message = error.message();
    assert!(message.starts_with("azure storage error: failed to decode storage access key: "));
    assert!(message.len() > "azure storage error: failed to decode storage access key: ".len());
}

#[test]
fn generate_errors_show_counts_and_coordinates() {
    assert_eq!(
        GenerateError::SampleCountMismatch {
            radiance: 4,
            quality: 3,
            cloud: Some(4),
            observation_count: None,
        }
        .message(),
        "sample count mismatch: radiance=4, quality=3, cloud=Some(4), observation_count=None"
    );
    assert_eq!(
        GenerateError::RenderTile {
            coord: TileCoord { z: 3, x: 1, y: 2 },
            source: RenderError::InvalidTileSize,
        }
        .message(),
        "failed to render tile TileCoord { z: 3, x: 1, y: 2 }"
    );
    assert_eq!(
        GenerateError::TileOutsideRange {
            coord: TileCoord { z: 1, x: 2, y: 0 },
            range: TileRange { z: 1, min_x: 0, max_x: 1, min_y: 0, max_y: 1 },
        }
        .message(),
        "synthetic tile coordinate TileCoord { z: 1, x: 2, y: 0 } is outside requested tile range TileRange { z: 1, min_x: 0, max_x: 1, min_y: 0, max_y: 1 }"
    );
    assert_eq!(
        GenerateError::InvalidTileWindow { width: 3, height: 4 }.message(),
        "tile window must be square and fit in u16, got 3x4"
    );
    assert_eq!(
        GenerateError::TileCountOverflow { tile_count: 4294967296 }.message(),
        "planned tile count 4294967296 exceeds u32 range"
    );
    assert_eq!(
        GenerateError::ResizedSampleCountMismatch { dataset: "radiance", expected: 4, actual: 2 }
            .message(),
        "resized dataset 'radiance' returned 2 sample(s), expected 4"
    );
    assert_eq!(
        GenerateError::TileMath(TileMathError::InvalidTileSetId).message(),
        "invalid tile set id"
    );
    let science = ScienceError::DatasetShapeMismatch {
        reference_dataset: "a",
        compared_dataset: "b",
        reference_shape: RasterShape { width: 2, height: 2 },
        compared_shape: RasterShape { width: 1, height: 2 },
    };
    assert_eq!(GenerateError::Science(science).message(), science.message());
}

#[test]
fn mosaic_errors_name_product_date_and_tile() {
    let date = CalendarDate { year: 2026, month: 5, day: 21 };
    assert_eq!(
        MosaicError::TooFewSources { product: "VNP46A2".to_owned(), dataset_date: date, found: 1 }
            .message(),
        "mosaic error: found 1 processed source granule(s) for VNP46A2 2026-05-21; at least 2 are required"
    );
    assert_eq!(
        MosaicError::IncompletePublicCoverage {
            product: "VNP46A2".to_owned(),
            dataset_date: date,
            expected_tile_count: 4,
            present_tile_count: 3,
            missing_tiles: "h08v05".to_owned(),
        }
        .message(),
        "mosaic error: refusing to promote incomplete public latest for VNP46A2 2026-05-21: 3/4 expected VIIRS tile(s) present; missing tiles: h08v05"
    );
    assert_eq!(
        MosaicError::TileDimensionMismatch { z: 3, x: 1, y: 2, width: 128, height: 128, expected: 256 }
            .message(),
        "mosaic error: rendered tile z3/1/2 had dimensions 128x128, expected 256x256"
    );
    assert_eq!(
        MosaicError::UnsupportedProduct { product: "X".to_owned() }.message(),
        "mosaic error: unsupported product 'X'"
    );
    assert_eq!(
        MosaicError::NoEligibleDatasetDate { product: "VNP46A3".to_owned() }.message(),
        "mosaic error: no processed source date found for VNP46A3 with at least 2 eligible granule tile set(s)"
    );
}

#[test]
fn publish_and_retention_errors_quote_their_subjects() {
    assert_eq!(
        PublishError::UnsupportedProduct { product: "X".to_owned() }.message(),
        "unsupported tile publication product 'X'"
    );
    assert_eq!(
        PublishError::TileMath(TileMathError::ZoomTooLarge { z: 30 }).message(),
        "tile zoom 30 exceeds supported maximum"
    );
    assert_eq!(
        RetentionError::LatestManifestSelected { tile_set_id: "latest".to_owned() }.message(),
        "retention cleanup tried to select latest manifest pointer for tile set 'latest'"
    );
    assert_eq!(
        RetentionError::ManifestPathMismatch {
            tile_set_id: "ts".to_owned(),
            expected: "manifests/set-a.json".to_owned(),
            actual: "x".to_owned(),
        }
        .message(),
        "retention cleanup manifest path mismatch for tile set 'ts': expected 'manifests/set-a.json', got 'x'"
    );
}
