use processing_svc::azure_storage::escape_xml_text;
use processing_svc::commands::Command;
use processing_svc::config::{AppConfig, ConfigError};
use processing_svc::generate::{assemble_rendered_tiles, plan_tile_generation_from_ranges, plan_tile_coords};
use processing_svc::mosaic::{composite_rendered_tile, MosaicError, RgbaCanvas};
use processing_svc::publish::RenderedTile;
use processing_svc::render::{render_png_tile, RadianceClass, RenderPixel};
use processing_svc::slippy_tiles::{TileCoord, TileRange};
use processing_svc::http_retry::{next_retry_action, AttemptOutcome, RetryAction, RetryConfig};
use processing_svc::slippy_tiles::{summarize_viirs_coverage, ViirsTileCoord};

fn required_env() -> Vec<(String, String)> {
    vec![
        ("DATABASE_URL".to_owned(), "postgres://localhost/lumenhorizon".to_owned()),
        ("AZURE_STORAGE_ACCOUNT".to_owned(), "devstoreaccount1".to_owned()),
        ("AZURE_STORAGE_ACCESS_KEY".to_owned(), "a2V5".to_owned()),
    ]
}

fn assert_consistent(config: &AppConfig) {
    assert!(config.tile_min_zoom <= config.tile_max_native_zoom);
    assert!(config.tile_max_native_zoom <= config.tile_max_display_zoom);
    assert!(config.tile_max_display_zoom <= 22);
    assert!(config.tile_size > 0);
    assert_eq!(config.tile_format, "png");
    assert!(config.http_retry.max_attempts >= 1);
    assert!(config.http_retry.base_delay_ms <= config.http_retry.max_delay_ms);
    assert!((1..=5_000).contains(&config.retention_tile_blob_limit));
}

#[test]
fn loaded_default_config_is_consistent() {
    let config = AppConfig::from_lookup_for(&Command::Worker, &required_env(), Ok(()), Ok(())).unwrap();
    assert_consistent(&config);
    assert_eq!(
        (config.tile_min_zoom, config.tile_max_native_zoom, config.tile_max_display_zoom),
        (3, 10, 12)
    );
}

#[test]
fn loaded_custom_config_is_consistent() {
    let mut env = required_env();
    for (name, value) in [
        ("TILE_MIN_ZOOM", "7"),
        ("TILE_MAX_NATIVE_ZOOM", "7"),
        ("TILE_MAX_DISPLAY_ZOOM", "22"),
        ("TILE_FORMAT", " PNG "),
        ("HTTP_RETRY_BASE_DELAY_MS", "100"),
        ("HTTP_RETRY_MAX_DELAY_MS", "100"),
        ("RETENTION_TILE_BLOB_LIMIT", "5000"),
    ] {
        env.push((name.to_owned(), value.to_owned()));
    }
    let config = AppConfig::from_lookup_for(&Command::Worker, &env, Ok(()), Ok(())).unwrap();
    assert_consistent(&config);
    assert_eq!(config.tile_max_display_zoom, 22);
}

#[test]
fn config_is_not_loaded_when_a_numeric_check_fails() {
    let cloud = Err(ConfigError::InvalidValue {
        variable: "MAX_CLOUD_FRACTION",
        value: "1.5".to_owned(),
        expected: "must be between 0 and 1",
    });
    let error = AppConfig::from_lookup_for(&Command::Worker, &required_env(), cloud, Ok(())).unwrap_err();
    assert!(matches!(
        error,
        ConfigError::InvalidValue { variable: "MAX_CLOUD_FRACTION", .. }
    ));

    let bounds = Err(ConfigError::InvalidValue {
        variable: "TILE_BOUNDS",
        value: "1,2,0,3".to_owned(),
        expected: "west must be less than east",
    });
    let error = AppConfig::from_lookup_for(&Command::Worker, &required_env(), Ok(()), bounds).unwrap_err();
    assert!(matches!(error, ConfigError::InvalidValue { variable: "TILE_BOUNDS", .. }));
}

fn tiles(pairs: &[(i16, i16)]) -> Vec<ViirsTileCoord> {
    pairs
        .iter()
        .map(|&(tile_h, tile_v)| ViirsTileCoord { tile_h, tile_v })
        .collect()
}

#[test]
fn coverage_counts_are_sizes_of_distinct_tiles() {
    let expected = tiles(&[(6, 5), (5, 4), (6, 5), (5, 5), (5, 4)]);
    let present = tiles(&[(5, 4), (9, 9), (5, 4), (6, 5)]);

    let coverage = summarize_viirs_coverage(&expected, &present);

    assert_eq!(coverage.expected_tile_count, 3);
    assert_eq!(coverage.present_tile_count, 2);
    assert_eq!(coverage.missing_tiles, tiles(&[(5, 5)]));
    assert_eq!(
        coverage.missing_tiles.len(),
        coverage.expected_tile_count - coverage.present_tile_count
    );
    assert!(!coverage.complete);
}

#[test]
fn coverage_is_complete_when_every_expected_tile_is_present() {
    let expected = tiles(&[(5, 4), (5, 4), (6, 4)]);
    let present = tiles(&[(6, 4), (5, 4), (7, 7)]);

    let coverage = summarize_viirs_coverage(&expected, &present);

    assert_eq!(coverage.expected_tile_count, 2);
    assert_eq!(coverage.present_tile_count, 2);
    assert!(coverage.missing_tiles.is_empty());
    assert!(coverage.complete);
}

/// Runs the retry decisions over the outcomes of successive sends, as the
/// send loop does, and returns the attempts made and the waits between them.
fn run(config: RetryConfig, repeatable: bool, outcomes: &[AttemptOutcome]) -> (u32, Vec<u64>) {
    let mut attempt = 1;
    let mut waits = Vec::new();
    loop {
        let outcome = outcomes[(attempt - 1) as usize];
        match next_retry_action(config, attempt, outcome, repeatable) {
            RetryAction::Finish => return (attempt, waits),
            RetryAction::RetryAfter { delay_ms, next_attempt } => {
                assert_eq!(next_attempt, attempt + 1);
                waits.push(delay_ms);
                attempt = next_attempt;
            }
        }
    }
}

const UNAVAILABLE: AttemptOutcome = AttemptOutcome::Response { status: 503 };
const OK: AttemptOutcome = AttemptOutcome::Response { status: 200 };

#[test]
fn retry_run_makes_at_most_the_allowed_attempts() {
    let config = RetryConfig {
        max_attempts: 3,
        base_delay_ms: 10,
        max_delay_ms: 15,
    };
    assert_eq!(run(config, true, &[UNAVAILABLE; 8]), (3, vec![10, 15]));

    let once = RetryConfig {
        max_attempts: 0,
        ..config
    };
    assert_eq!(run(once, true, &[UNAVAILABLE; 8]), (1, vec![]));
}

#[test]
fn retry_run_stops_at_the_first_final_outcome() {
    let config = RetryConfig {
        max_attempts: 5,
        base_delay_ms: 10,
        max_delay_ms: 1_000,
    };
    assert_eq!(run(config, true, &[UNAVAILABLE, UNAVAILABLE, OK, UNAVAILABLE]), (3, vec![10, 20]));
    let refused = AttemptOutcome::Failure { transient: false };
    assert_eq!(run(config, true, &[refused, OK]), (1, vec![]));
    assert_eq!(run(config, false, &[UNAVAILABLE; 5]), (1, vec![]));
}

/// Reads escaped XML text back, entity by entity.
fn unescape(text: &str) -> String {
    let mut out = String::new();
    let mut rest = text;
    while let Some(c) = rest.chars().next() {
        let entity = [("&amp;", '&'), ("&lt;", '<'), ("&gt;", '>'), ("&quot;", '"'), ("&apos;", '\'')]
            .into_iter()
            .find(|(name, _)| rest.starts_with(name));
        match entity {
            Some((name, ch)) => {
                out.push(ch);
                rest = &rest[name.len()..];
            }
            None => {
                out.push(c);
                rest = &rest[c.len_utf8()..];
            }
        }
    }
    out
}

#[test]
fn xml_escape_reads_back_to_the_value() {
    for value in ["a&b<c>d\"e'f", "&amp; already", "<<>>", "plain text", "", "ünïcødé & 'quotes'"] {
        let escaped = escape_xml_text(value);
        assert_eq!(unescape(&escaped), value);
        assert!(!escaped.contains(['<', '>', '"', '\'']));
    }
    assert_eq!(escape_xml_text("nothing to escape"), "nothing to escape");
    assert_eq!(escape_xml_text("&amp;"), "&amp;amp;");
}

fn tile(coord: TileCoord, renderable_pixel_count: u32) -> RenderedTile {
    RenderedTile {
        coord,
        png_bytes: vec![renderable_pixel_count as u8],
        renderable_pixel_count,
    }
}

#[test]
fn assembled_tiles_keep_plan_order_and_native_coverage() {
    let plan = plan_tile_generation_from_ranges(vec![
        TileRange { z: 1, min_x: 0, max_x: 1, min_y: 0, max_y: 0 },
        TileRange { z: 2, min_x: 1, max_x: 2, min_y: 3, max_y: 3 },
    ])
    .unwrap();
    let coords = plan_tile_coords(&plan);
    assert_eq!(coords.len(), 4);
    let counts = [5, 0, 0, 7];
    // Jobs finish out of order.
    let results = [2usize, 0, 3, 1]
        .iter()
        .map(|&k| (k, tile(coords[k], counts[k])))
        .collect::<Vec<_>>();

    let assembled = assemble_rendered_tiles(&plan, results, 2);

    assert_eq!(assembled.tiles, vec![tile(coords[0], 5), tile(coords[3], 7)]);
    assert_eq!(assembled.coverage, vec![coords[3]]);
}

#[test]
fn assembled_coverage_falls_back_to_every_tile_below_native_zoom() {
    let plan = plan_tile_generation_from_ranges(vec![TileRange { z: 1, min_x: 0, max_x: 1, min_y: 1, max_y: 1 }])
        .unwrap();
    let coords = plan_tile_coords(&plan);
    let results = vec![(1, tile(coords[1], 2)), (0, tile(coords[0], 3))];

    let assembled = assemble_rendered_tiles(&plan, results, 4);

    assert_eq!(assembled.tiles, vec![tile(coords[0], 3), tile(coords[1], 2)]);
    assert_eq!(assembled.coverage, coords);
}

fn opaque_tile(coord: TileCoord) -> RenderedTile {
    let pixels = vec![
        RenderPixel { radiance: RadianceClass::Class(1), rejected: false },
        RenderPixel { radiance: RadianceClass::Missing, rejected: false },
        RenderPixel { radiance: RadianceClass::Missing, rejected: false },
        RenderPixel { radiance: RadianceClass::Class(3), rejected: false },
    ];
    RenderedTile {
        coord,
        png_bytes: render_png_tile(2, &pixels).unwrap(),
        renderable_pixel_count: 2,
    }
}

#[test]
fn compositing_lays_opaque_pixels_over_the_canvas() {
    let coord = TileCoord { z: 3, x: 1, y: 2 };
    let mut canvas = RgbaCanvas::transparent(2);
    composite_rendered_tile(&mut canvas, &opaque_tile(coord), 2).unwrap();
    assert_eq!(canvas.pixels[3], 255);
    assert_eq!(&canvas.pixels[4..12], &[0; 8]);
    assert_eq!(canvas.pixels[15], 255);
}

#[test]
fn compositing_reports_undecodable_tiles_and_keeps_the_canvas() {
    let coord = TileCoord { z: 3, x: 1, y: 2 };
    let mut canvas = RgbaCanvas::transparent(2);
    let broken = RenderedTile { coord, png_bytes: b"not a png".to_vec(), renderable_pixel_count: 1 };
    let error = composite_rendered_tile(&mut canvas, &broken, 2).unwrap_err();
    assert!(matches!(error, MosaicError::DecodeTile { z: 3, x: 1, y: 2, .. }));
    assert_eq!(canvas, RgbaCanvas::transparent(2));

    let mut large = RgbaCanvas::transparent(4);
    let error = composite_rendered_tile(&mut large, &opaque_tile(coord), 4).unwrap_err();
    assert!(matches!(
        error,
        MosaicError::TileDimensionMismatch { width: 2, height: 2, expected: 4, .. }
    ));
}
