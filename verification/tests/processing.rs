use processing_svc::commands::CalendarDate;
use processing_svc::db::{RetentionEventAction, RetentionEventMode, RetentionTargetKind, TileSetKind};
use processing_svc::hdf::{hdf5_subdataset_name, RasterShape, RasterWindow};
use processing_svc::http_retry::{is_retryable_status, RetryConfig};
use processing_svc::manifest::{
    build_tile_url_template, manifest_checksums, LatestManifestPointer,
};
use processing_svc::mosaic::{
    enforce_public_coverage_policy, format_viirs_tiles, mosaic_tile_set_id,
    require_mosaic_sources, resolve_mosaic_dataset_date, MosaicError,
};
use processing_svc::processing::{
    processor_version, quality_gate_window, source_granule_for_message, tile_set_id_for_message,
    validate_dataset_shapes, validate_window_sample_counts,
};
use processing_svc::processing_message::{
    ProcessingMessage, ProcessingMessageValidationError, ProcessingProduct, ProductCadence,
    UtcDateTime,
};
use processing_svc::publish::{
    plan_manifest_publication, product_cadence, product_latest_manifest_blob_path,
    PublicationMode, PublishError, RenderedTile,
};
use processing_svc::retention::{
    plan_tile_set_cleanup, retention_mode, tile_set_prefix, validate_manifest_path,
    RetentionError, RetentionSummary, TileSetCleanupPlan, TileSetRetentionCandidate,
};
use processing_svc::science::{dataset_mapping_for_product, ScienceError};
use processing_svc::slippy_tiles::{
    summarize_viirs_coverage, tile_blob_path, TileCoord, TileMathError, ViirsTileCoord,
};
use processing_svc::storage::{BlobListPage, DeleteBlobOutcome};
use processing_svc::ui::{is_disabled_value, is_enabled_value, ui_enabled, ui_line};
use processing_svc::worker::{
    action_outcome, queue_message_action, should_deadletter, MessageResult, ProcessOnceOutcome,
    QueueMessageAction,
};

const TILE_SET_ID: &str = "2026-05-21-radiance-dark-sky-v1-a1b2c3d4";

fn may_21() -> UtcDateTime {
    UtcDateTime {
        year: 2026,
        month: 5,
        day: 21,
        hour: 0,
        minute: 0,
        second: 0,
        nanosecond: 0,
    }
}

fn ingest_id(text: &str) -> u128 {
    uuid::Uuid::parse_str(text).unwrap().as_u128()
}

fn message_for(blob_path: &str, product: &str, tile_h: i16, tile_v: i16) -> Result<ProcessingMessage, ProcessingMessageValidationError> {
    ProcessingMessage::new(
        ingest_id("018f7fd2-01d0-7cc7-9b37-00f86c3fd98b"),
        blob_path.to_owned(),
        product.to_owned(),
        may_21(),
        tile_h,
        tile_v,
    )
}

fn valid_message() -> ProcessingMessage {
    message_for("VNP46A2/2026-05-21/h11v06.h5", "VNP46A2", 11, 6).unwrap()
}

// --- processing messages ---------------------------------------------------

#[test]
fn parses_valid_message() {
    let message = valid_message();

    assert_eq!(message.product, "VNP46A2");
    assert_eq!(message.blob_path, "VNP46A2/2026-05-21/h11v06.h5");
    assert_eq!(message.tile_h, 11);
    assert_eq!(message.tile_v, 6);
}

#[test]
fn parses_supported_products() {
    for product in ["VNP46A2", "VJ146A2", "VNP46A3"] {
        let blob_path = format!("{product}/2026-05-21/h11v06.h5");
        let message = message_for(&blob_path, product, 11, 6).unwrap();

        assert_eq!(message.product, product);
        assert_eq!(message.product_kind().unwrap().as_str(), product);
    }
}

#[test]
fn exposes_typed_product_kind() {
    let message = valid_message();

    assert_eq!(message.product_kind().unwrap(), ProcessingProduct::Vnp46A2);
    assert_eq!(message.product_kind().unwrap().as_str(), "VNP46A2");
}

#[test]
fn rejects_container_prefixed_blob_path() {
    let error =
        message_for("raw-viirs/VNP46A2/2026-05-21/h11v06.h5", "VNP46A2", 11, 6).unwrap_err();

    assert!(matches!(
        error,
        ProcessingMessageValidationError::InvalidBlobPath(_)
    ));
}

#[test]
fn rejects_absolute_blob_path() {
    let error = message_for("/VNP46A2/2026-05-21/h11v06.h5", "VNP46A2", 11, 6).unwrap_err();

    assert!(matches!(
        error,
        ProcessingMessageValidationError::InvalidBlobPath(_)
    ));
}

#[test]
fn rejects_unsupported_product() {
    let error = message_for("UNKNOWN/2026-05-21/h11v06.h5", "UNKNOWN", 11, 6).unwrap_err();

    assert!(matches!(
        error,
        ProcessingMessageValidationError::UnsupportedProduct(product) if product == "UNKNOWN"
    ));
}

#[test]
fn rejects_tile_mismatch() {
    let error = message_for("VNP46A2/2026-05-21/h11v06.h5", "VNP46A2", 12, 6).unwrap_err();

    assert!(matches!(
        error,
        ProcessingMessageValidationError::TileMismatch {
            blob_tile_h: 11,
            blob_tile_v: 6,
            message_tile_h: 12,
            message_tile_v: 6,
        }
    ));
}

#[test]
fn rejects_missing_tile_in_blob_path() {
    let error = message_for("VNP46A2/2026-05-21/no-tile.h5", "VNP46A2", 11, 6).unwrap_err();

    assert!(matches!(
        error,
        ProcessingMessageValidationError::MissingTileInBlobPath(_)
    ));
}

#[test]
fn product_and_cadence_names_round_trip() {
    for product in [
        ProcessingProduct::Vnp46A2,
        ProcessingProduct::Vj146A2,
        ProcessingProduct::Vnp46A3,
    ] {
        assert_eq!(ProcessingProduct::parse(product.as_str()), Ok(product));
    }
    for cadence in [ProductCadence::Daily, ProductCadence::Monthly] {
        assert_eq!(ProductCadence::parse(cadence.as_str()), Some(cadence));
    }
}

// --- processing --------------------------------------------------------------

#[test]
fn processor_version_uses_package_version() {
    assert_eq!(processor_version(), "processing-svc:0.1.0");
}

#[test]
fn tile_set_id_is_deterministic_and_attempt_scoped() {
    let message = ProcessingMessage::new(
        ingest_id("00000000-0000-0000-0000-00000000abcd"),
        "VNP46A2/2026-05-21/h11v06.h5".to_owned(),
        "VNP46A2".to_owned(),
        may_21(),
        11,
        6,
    )
    .unwrap();

    let id = tile_set_id_for_message("radiance-dark-sky-v1", &message, 2);

    assert_eq!(id, "2026-05-21-radiance-dark-sky-v1-00000000-a2");
}

#[test]
fn tile_set_id_uses_the_leading_uuid_digits_and_counts_attempts_from_one() {
    let message = ProcessingMessage::new(
        ingest_id("018f7fd2-01d0-7cc7-9b37-00f86c3fd98b"),
        "VNP46A2/2026-05-21/h11v06.h5".to_owned(),
        "VNP46A2".to_owned(),
        may_21(),
        11,
        6,
    )
    .unwrap();

    assert_eq!(
        tile_set_id_for_message("radiance-dark-sky-v1", &message, 0),
        "2026-05-21-radiance-dark-sky-v1-018f7fd2-a1"
    );
    assert_eq!(
        tile_set_id_for_message("radiance-dark-sky-v1", &message, -3),
        "2026-05-21-radiance-dark-sky-v1-018f7fd2-a1"
    );
}

#[test]
fn source_granule_uses_processing_message_contract() {
    let message = valid_message();
    let source_granule = source_granule_for_message(&message);

    assert_eq!(source_granule.ingest_id, message.ingest_id);
    assert_eq!(source_granule.product, "VNP46A2");
    assert_eq!(source_granule.blob_path, "VNP46A2/2026-05-21/h11v06.h5");
}

#[test]
fn builds_hdf5_subdataset_name() {
    let name = hdf5_subdataset_name(
        "/tmp/sample.h5",
        "//HDFEOS/GRIDS/VIIRS_Grid_DNB_2d/Data_Fields/Gap_Filled_DNB_BRDF-Corrected_NTL",
    );

    assert_eq!(
        name,
        "HDF5:\"/tmp/sample.h5\"://HDFEOS/GRIDS/VIIRS_Grid_DNB_2d/Data_Fields/Gap_Filled_DNB_BRDF-Corrected_NTL"
    );
}

#[test]
fn quality_gate_checks_shapes_then_sample_counts() {
    let daily = dataset_mapping_for_product(ProcessingProduct::Vnp46A2);
    let shape = RasterShape {
        width: 2400,
        height: 2400,
    };
    let narrow = RasterShape {
        width: 1200,
        height: 2400,
    };

    assert!(validate_dataset_shapes(&daily, shape, shape, Some(shape), None).is_ok());
    assert!(matches!(
        validate_dataset_shapes(&daily, shape, shape, Some(narrow), None),
        Err(ScienceError::DatasetShapeMismatch { compared_shape, .. }) if compared_shape == narrow
    ));

    let window = quality_gate_window();
    assert_eq!(
        window,
        RasterWindow {
            x_offset: 0,
            y_offset: 0,
            width: 2,
            height: 2
        }
    );
    assert!(validate_window_sample_counts(&daily, window, 4, 4, Some(4), None).is_ok());
    assert!(matches!(
        validate_window_sample_counts(&daily, window, 4, 3, Some(4), None),
        Err(ScienceError::SampleWindowCountMismatch {
            expected_count: 4,
            actual_count: 3,
            ..
        })
    ));
}

// --- queue worker --------------------------------------------------------------

#[test]
fn deadletters_at_max_dequeue_count() {
    assert!(should_deadletter(5, 5));
}

#[test]
fn deadletters_after_max_dequeue_count() {
    assert!(should_deadletter(6, 5));
}

#[test]
fn retries_before_max_dequeue_count() {
    assert!(!should_deadletter(4, 5));
}

#[test]
fn missing_ingest_log_error_is_terminal_for_queue_messages() {
    assert_eq!(
        queue_message_action(MessageResult::MissingIngestLog, 1, 5),
        QueueMessageAction::Deadletter
    );
    assert_eq!(
        action_outcome(QueueMessageAction::Deadletter),
        Some(ProcessOnceOutcome::HandledMessage)
    );
}

#[test]
fn malformed_messages_retry_until_their_attempts_run_out() {
    assert_eq!(
        queue_message_action(MessageResult::Malformed, 4, 5),
        QueueMessageAction::LeaveForRetry
    );
    assert_eq!(action_outcome(QueueMessageAction::LeaveForRetry), None);
    assert_eq!(
        queue_message_action(MessageResult::Malformed, 5, 5),
        QueueMessageAction::Deadletter
    );
}

#[test]
fn failed_messages_record_their_failure() {
    assert_eq!(
        queue_message_action(MessageResult::Failed, 4, 5),
        QueueMessageAction::RecordFailureAndRetry
    );
    assert_eq!(
        queue_message_action(MessageResult::Failed, 5, 5),
        QueueMessageAction::RecordAndDeadletter
    );
    assert_eq!(
        queue_message_action(MessageResult::Processed, 9, 5),
        QueueMessageAction::DeleteProcessed
    );
}

// --- publication ---------------------------------------------------------------

#[test]
fn rendered_tile_uses_container_relative_blob_path() {
    let tile = RenderedTile {
        coord: TileCoord { z: 5, x: 8, y: 12 },
        png_bytes: vec![137, 80, 78, 71],
        renderable_pixel_count: 1,
    };

    let path = tile_blob_path(TILE_SET_ID, tile.coord).unwrap();

    assert_eq!(
        path,
        "tiles/2026-05-21-radiance-dark-sky-v1-a1b2c3d4/5/8/12.png"
    );
    assert_eq!(tile.png_bytes, vec![137, 80, 78, 71]);
    assert!(tile.has_renderable_evidence());
}

#[test]
fn publication_modes_expose_latest_promotion_intent() {
    let intermediate = PublicationMode::IntermediateGranule { product: "VNP46A2" };
    let mosaic = PublicationMode::ProductMosaic {
        product: "VNP46A2",
        promote_public_latest: true,
    };

    assert_eq!(intermediate.product(), "VNP46A2");
    assert_eq!(intermediate.tile_set_kind(), TileSetKind::Granule);
    assert!(!intermediate.promotes_product_latest());
    assert!(!intermediate.promotes_public_latest());
    assert_eq!(mosaic.product(), "VNP46A2");
    assert_eq!(mosaic.tile_set_kind(), TileSetKind::Mosaic);
    assert!(mosaic.promotes_product_latest());
    assert!(mosaic.promotes_public_latest());
    assert_eq!(
        product_latest_manifest_blob_path("VNP46A2"),
        "manifests/latest/VNP46A2.json"
    );
}

#[test]
fn plans_manifest_publication_for_each_mode() {
    let granule = plan_manifest_publication(
        TILE_SET_ID,
        PublicationMode::IntermediateGranule { product: "VNP46A2" },
    )
    .unwrap();
    assert_eq!(
        granule.manifest_blob_path,
        "manifests/2026-05-21-radiance-dark-sky-v1-a1b2c3d4.json"
    );
    assert_eq!(granule.cadence, ProductCadence::Daily);
    assert_eq!(granule.kind, TileSetKind::Granule);
    assert_eq!(granule.product_latest_blob_path, None);
    assert!(!granule.promote_public_latest);

    let mosaic = plan_manifest_publication(
        TILE_SET_ID,
        PublicationMode::ProductMosaic {
            product: "VNP46A3",
            promote_public_latest: false,
        },
    )
    .unwrap();
    assert_eq!(mosaic.cadence, ProductCadence::Monthly);
    assert_eq!(
        mosaic.product_latest_blob_path.as_deref(),
        Some("manifests/latest/VNP46A3.json")
    );
    assert!(!mosaic.promote_public_latest);

    assert_eq!(
        plan_manifest_publication(
            "processed-tiles/x",
            PublicationMode::IntermediateGranule { product: "UNKNOWN" },
        ),
        Err(PublishError::TileMath(TileMathError::InvalidTileSetId))
    );
    assert_eq!(
        product_cadence("UNKNOWN"),
        Err(PublishError::UnsupportedProduct {
            product: "UNKNOWN".to_owned()
        })
    );
}

// --- manifests -----------------------------------------------------------------

#[test]
fn builds_tile_url_template_from_cdn_and_tile_set_id() {
    let template = build_tile_url_template("https://tiles.lumenhorizon.com/", TILE_SET_ID).unwrap();

    assert_eq!(
        template,
        "https://tiles.lumenhorizon.com/tiles/2026-05-21-radiance-dark-sky-v1-a1b2c3d4/{z}/{x}/{y}.png"
    );
}

#[test]
fn rejects_container_prefixed_tile_set_id_in_url_template() {
    assert!(matches!(
        build_tile_url_template(
            "https://tiles.lumenhorizon.com",
            "processed-tiles/2026-05-21-radiance-dark-sky-v1-a1b2c3d4",
        ),
        Err(TileMathError::InvalidTileSetId)
    ));
}

#[test]
fn latest_manifest_pointer_has_fixed_blob_path() {
    assert_eq!(LatestManifestPointer::blob_path(), "manifests/latest.json");
}

#[test]
fn builds_latest_manifest_pointer_to_immutable_manifest() {
    let updated_at = UtcDateTime {
        hour: 10,
        ..may_21()
    };
    let checksums = manifest_checksums("{\"tile_set_id\":\"x\"}");

    let pointer =
        LatestManifestPointer::for_manifest(TILE_SET_ID, &checksums.manifest_sha256, updated_at)
            .unwrap();

    assert_eq!(pointer.tile_set_id, TILE_SET_ID);
    assert_eq!(
        pointer.manifest_blob_path,
        "manifests/2026-05-21-radiance-dark-sky-v1-a1b2c3d4.json"
    );
    assert_eq!(pointer.manifest_sha256, checksums.manifest_sha256);
    assert_eq!(pointer.updated_at, updated_at);
}

#[test]
fn computes_stable_manifest_checksum_for_same_input() {
    let first = manifest_checksums("{\"tile_set_id\":\"2026-05-21-radiance-dark-sky-v1-a1b2c3d4\"}");
    let second = manifest_checksums("{\"tile_set_id\":\"2026-05-21-radiance-dark-sky-v1-a1b2c3d4\"}");
    let other = manifest_checksums("{\"tile_set_id\":\"2026-05-21-radiance-dark-sky-v1-deadbeef\"}");

    assert_eq!(first, second);
    assert_eq!(first.manifest_sha256.len(), 64);
    assert_ne!(first, other);
    // The SHA-256 of the empty document.
    assert_eq!(
        manifest_checksums("").manifest_sha256,
        "e3b0c44298fc1c149afbf4c8996fb92427ae41e4649b934ca495991b7852b855"
    );
}

// --- mosaics -------------------------------------------------------------------

fn conus_tiles() -> Vec<ViirsTileCoord> {
    (5..=11)
        .flat_map(|tile_h| (4..=6).map(move |tile_v| ViirsTileCoord { tile_h, tile_v }))
        .collect()
}

#[test]
fn public_latest_gate_blocks_incomplete_coverage_without_override() {
    let coverage = summarize_viirs_coverage(
        &conus_tiles(),
        &vec![
            ViirsTileCoord { tile_h: 6, tile_v: 6 },
            ViirsTileCoord { tile_h: 11, tile_v: 6 },
        ],
    );
    let dataset_date = CalendarDate {
        year: 2026,
        month: 5,
        day: 1,
    };

    let error = enforce_public_coverage_policy("VNP46A3", dataset_date, true, false, &coverage)
        .unwrap_err();

    assert!(matches!(
        error,
        MosaicError::IncompletePublicCoverage {
            product,
            dataset_date: date,
            expected_tile_count: 21,
            present_tile_count: 2,
            missing_tiles,
        } if product == "VNP46A3" && date == dataset_date && missing_tiles.contains("h05v04")
    ));
    assert!(enforce_public_coverage_policy("VNP46A3", dataset_date, false, false, &coverage).is_ok());
    assert!(enforce_public_coverage_policy("VNP46A3", dataset_date, true, true, &coverage).is_ok());
}

#[test]
fn mosaic_coverage_summary_reports_missing_columns() {
    let present = [(6, 6), (7, 4), (7, 5), (9, 4), (9, 5), (9, 6), (10, 5), (11, 6)]
        .iter()
        .map(|&(tile_h, tile_v)| ViirsTileCoord { tile_h, tile_v })
        .collect::<Vec<_>>();

    let coverage = summarize_viirs_coverage(&conus_tiles(), &present);

    assert_eq!(coverage.expected_tile_count, 21);
    assert_eq!(coverage.present_tile_count, 8);
    assert!(!coverage.complete);
    assert_eq!(coverage.missing_columns, vec![5, 8]);
    assert!(coverage.missing_rows.is_empty());
    assert_eq!(
        format_viirs_tiles(&coverage.missing_tiles[..3].to_vec()),
        "h05v04,h05v05,h05v06"
    );
}

#[test]
fn mosaic_tile_set_id_is_stable_for_same_sources() {
    let dataset_date = CalendarDate {
        year: 2026,
        month: 5,
        day: 21,
    };
    let sources = vec!["tile-set-a".to_owned(), "tile-set-b".to_owned()];

    let first = mosaic_tile_set_id("radiance-dark-sky-v1", "tiles-v1", "VNP46A2", dataset_date, &sources);
    let second = mosaic_tile_set_id("radiance-dark-sky-v1", "tiles-v1", "VNP46A2", dataset_date, &sources);
    let reordered = mosaic_tile_set_id(
        "radiance-dark-sky-v1",
        "tiles-v1",
        "VNP46A2",
        dataset_date,
        &vec!["tile-set-b".to_owned(), "tile-set-a".to_owned()],
    );

    assert_eq!(first, second);
    assert!(first.starts_with("2026-05-21-radiance-dark-sky-v1-vnp46a2-mosaic-"));
    assert_eq!(first.len(), "2026-05-21-radiance-dark-sky-v1-vnp46a2-mosaic-".len() + 8);
    assert_ne!(first, reordered);
}

#[test]
fn mosaics_need_two_sources_and_a_date() {
    let date = CalendarDate {
        year: 2026,
        month: 5,
        day: 21,
    };

    assert!(require_mosaic_sources("VNP46A2", date, 2).is_ok());
    assert!(matches!(
        require_mosaic_sources("VNP46A2", date, 1),
        Err(MosaicError::TooFewSources { found: 1, .. })
    ));
    assert_eq!(
        resolve_mosaic_dataset_date("VNP46A2", Some(date), None).unwrap(),
        date
    );
    assert!(matches!(
        resolve_mosaic_dataset_date("VNP46A2", None, None),
        Err(MosaicError::NoEligibleDatasetDate { product }) if product == "VNP46A2"
    ));
}

// --- retention -----------------------------------------------------------------

fn candidate(tile_set_id: &str, manifest_blob_path: &str) -> TileSetRetentionCandidate {
    TileSetRetentionCandidate {
        tile_set_id: tile_set_id.to_owned(),
        classification_version: "radiance-dark-sky-v1".to_owned(),
        manifest_blob_path: manifest_blob_path.to_owned(),
        created_at: UtcDateTime {
            year: 2026,
            month: 1,
            day: 1,
            hour: 0,
            minute: 0,
            second: 0,
            nanosecond: 0,
        },
        tile_count: 10,
    }
}

#[test]
fn builds_prefix_for_valid_tile_set() {
    assert_eq!(
        tile_set_prefix(TILE_SET_ID).unwrap(),
        "tiles/2026-05-21-radiance-dark-sky-v1-a1b2c3d4/"
    );
}

#[test]
fn rejects_latest_manifest_pointer_as_retention_target() {
    let error = validate_manifest_path(&candidate(TILE_SET_ID, "manifests/latest.json")).unwrap_err();

    assert!(matches!(
        error,
        RetentionError::LatestManifestSelected { .. }
    ));
}

#[test]
fn rejects_manifest_path_mismatch() {
    let error = validate_manifest_path(&candidate(TILE_SET_ID, "manifests/other.json")).unwrap_err();

    assert!(matches!(error, RetentionError::ManifestPathMismatch { .. }));
    assert!(validate_manifest_path(&candidate(
        TILE_SET_ID,
        "manifests/2026-05-21-radiance-dark-sky-v1-a1b2c3d4.json"
    ))
    .is_ok());
}

#[test]
fn skips_tile_sets_whose_listing_is_incomplete_or_too_long() {
    let candidate = candidate(
        TILE_SET_ID,
        "manifests/2026-05-21-radiance-dark-sky-v1-a1b2c3d4.json",
    );
    let page = |count: usize, has_more: bool| BlobListPage {
        blob_paths: (0..count).map(|i| format!("tiles/x/{i}.png")).collect(),
        has_more,
    };

    assert_eq!(
        plan_tile_set_cleanup(&candidate, page(2, true), 5),
        TileSetCleanupPlan::Skip
    );
    assert_eq!(
        plan_tile_set_cleanup(&candidate, page(6, false), 5),
        TileSetCleanupPlan::Skip
    );
    assert_eq!(
        plan_tile_set_cleanup(&candidate, page(2, false), 5),
        TileSetCleanupPlan::Delete {
            tile_blob_paths: vec!["tiles/x/0.png".to_owned(), "tiles/x/1.png".to_owned()],
            manifest_blob_path: "manifests/2026-05-21-radiance-dark-sky-v1-a1b2c3d4.json"
                .to_owned(),
        }
    );
}

#[test]
fn tallies_retention_outcomes() {
    let mut summary = RetentionSummary::new();

    assert_eq!(
        summary.after_raw_deletion(DeleteBlobOutcome::Deleted),
        RetentionEventAction::Deleted
    );
    assert_eq!(
        summary.after_raw_deletion(DeleteBlobOutcome::Missing),
        RetentionEventAction::Missing
    );
    assert_eq!(summary.raw_deleted, 1);
    assert_eq!(summary.raw_missing, 1);
    assert_eq!(retention_mode(true), RetentionEventMode::Execute);
    assert_eq!(retention_mode(false).as_str(), "dry_run");
    assert_eq!(RetentionTargetKind::ProcessedManifest.as_str(), "processed_manifest");
    assert_eq!(RetentionEventAction::Skipped.as_str(), "skipped");
    assert_eq!(TileSetKind::Mosaic.as_str(), "mosaic");
}

// --- HTTP retries --------------------------------------------------------------

#[test]
fn classifies_retryable_status_codes() {
    assert!(is_retryable_status(408));
    assert!(is_retryable_status(429));
    assert!(is_retryable_status(500));
    assert!(is_retryable_status(502));
}

#[test]
fn rejects_non_retryable_status_codes() {
    assert!(!is_retryable_status(400));
    assert!(!is_retryable_status(401));
    assert!(!is_retryable_status(403));
    assert!(!is_retryable_status(404));
}

#[test]
fn caps_exponential_backoff() {
    let policy = RetryConfig {
        max_attempts: 5,
        base_delay_ms: 250,
        max_delay_ms: 1_000,
    };

    assert_eq!(policy.delay_for_attempt(1), 250);
    assert_eq!(policy.delay_for_attempt(2), 500);
    assert_eq!(policy.delay_for_attempt(3), 1_000);
    assert_eq!(policy.delay_for_attempt(4), 1_000);
}

// --- operator UI ---------------------------------------------------------------

#[test]
fn parses_processing_ui_boolean_values() {
    assert!(is_enabled_value("1"));
    assert!(is_enabled_value("true"));
    assert!(is_disabled_value("0"));
    assert!(is_disabled_value("false"));
}

#[test]
fn ui_setting_overrides_the_terminal_check() {
    assert!(is_enabled_value(" YES "));
    assert!(is_disabled_value("Off"));
    assert!(!is_enabled_value("maybe"));
    assert!(!ui_enabled(Some("off"), true));
    assert!(ui_enabled(Some("on"), false));
    assert!(ui_enabled(Some("maybe"), true));
    assert!(!ui_enabled(None, false));
    assert_eq!(ui_line("info", "ready"), "[processing-svc] info: ready");
}
