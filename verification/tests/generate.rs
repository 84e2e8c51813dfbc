use processing_svc::generate::{
    expand_samples_to_tile, generate_synthetic_tile_set, generate_synthetic_tiles, non_empty_tiles,
    order_rendered_tiles, plan_tile_coords, plan_tile_generation_from_ranges,
    render_pixels_from_classifications, render_tile_from_pixels, tile_range_tile_count,
    tile_size_from_window, validate_aligned_sample_counts, whole_radiance_class, GenerateError,
    SyntheticTileInput, TileGenerationPlan, TilePixelWindow,
};
use processing_svc::hdf::RasterWindow;
use processing_svc::processing_message::ProcessingProduct;
use processing_svc::publish::RenderedTile;
use processing_svc::render::{RadianceClass, RenderError, RenderPixel};
use processing_svc::science::{classify_pixel_sample, dataset_mapping_for_product, PixelQuality};
use processing_svc::slippy_tiles::{tile_range_contains, TileCoord, TileRange};

fn sample_range() -> TileRange {
    TileRange {
        z: 5,
        min_x: 8,
        max_x: 9,
        min_y: 12,
        max_y: 13,
    }
}

fn sample_pixels() -> Vec<RenderPixel> {
    vec![
        RenderPixel {
            radiance: RadianceClass::Class(1),
            rejected: false,
        },
        RenderPixel {
            radiance: RadianceClass::Class(3),
            rejected: false,
        },
        RenderPixel {
            radiance: RadianceClass::Missing,
            rejected: false,
        },
        RenderPixel {
            radiance: RadianceClass::Class(9),
            rejected: true,
        },
    ]
}

/// Pixels of four daily samples with radiance 0.1, 0.5, 1.25 and 50.0
/// (classes 1, 3, 4 and 9), good quality and clear sky.
fn clear_daily_pixels() -> Vec<RenderPixel> {
    let mapping = dataset_mapping_for_product(ProcessingProduct::Vnp46A2);
    let classes = vec![
        RadianceClass::Class(1),
        RadianceClass::Class(3),
        RadianceClass::Class(4),
        RadianceClass::Class(9),
    ];
    let classifications = classes
        .iter()
        .map(|_| classify_pixel_sample(&mapping, PixelQuality::Valid, 0, Some(0), None))
        .collect::<Vec<_>>();
    render_pixels_from_classifications(&classifications, &classes)
}

#[test]
fn counts_tiles_in_inclusive_range() {
    assert_eq!(tile_range_tile_count(sample_range()), 4);
}

#[test]
fn checks_tile_range_membership() {
    let range = sample_range();

    assert!(tile_range_contains(range, TileCoord { z: 5, x: 8, y: 12 }));
    assert!(tile_range_contains(range, TileCoord { z: 5, x: 9, y: 13 }));
    assert!(!tile_range_contains(range, TileCoord { z: 4, x: 8, y: 12 }));
    assert!(!tile_range_contains(range, TileCoord { z: 5, x: 10, y: 12 }));
}

#[test]
fn derives_tile_size_from_square_window() {
    assert_eq!(
        tile_size_from_window(RasterWindow {
            x_offset: 0,
            y_offset: 0,
            width: 256,
            height: 256,
        })
        .unwrap(),
        256
    );
}

#[test]
fn rejects_non_square_tile_window() {
    assert!(matches!(
        tile_size_from_window(RasterWindow {
            x_offset: 0,
            y_offset: 0,
            width: 256,
            height: 128,
        }),
        Err(GenerateError::InvalidTileWindow {
            width: 256,
            height: 128,
        })
    ));
}

#[test]
fn render_tile_window_from_samples_rejects_non_square_window() {
    let error = tile_size_from_window(RasterWindow {
        x_offset: 0,
        y_offset: 0,
        width: 2,
        height: 1,
    })
    .unwrap_err();

    assert!(matches!(
        error,
        GenerateError::InvalidTileWindow {
            width: 2,
            height: 1,
        }
    ));
}

#[test]
fn rejects_windows_too_large_for_a_tile() {
    assert!(matches!(
        tile_size_from_window(RasterWindow {
            x_offset: 0,
            y_offset: 0,
            width: 70_000,
            height: 70_000,
        }),
        Err(GenerateError::InvalidTileWindow { .. })
    ));
}

#[test]
fn expands_partial_window_samples_into_full_tile_with_fill_value() {
    let expanded = expand_samples_to_tile(
        "test-dataset",
        &vec![1.0f32, 2.0f32],
        3,
        TilePixelWindow {
            x_offset: 1,
            y_offset: 1,
            width: 1,
            height: 2,
        },
        -999.9f32,
    )
    .unwrap();

    assert_eq!(expanded.len(), 9);
    assert_eq!(expanded[4], 1.0);
    assert_eq!(expanded[7], 2.0);
    assert_eq!(expanded[0], -999.9);
    assert_eq!(expanded[8], -999.9);
}

#[test]
fn rejects_resized_sample_count_mismatch() {
    let error = expand_samples_to_tile(
        "test-dataset",
        &vec![1.0f32],
        3,
        TilePixelWindow {
            x_offset: 1,
            y_offset: 1,
            width: 1,
            height: 2,
        },
        -999.9f32,
    )
    .unwrap_err();

    assert!(matches!(
        error,
        GenerateError::ResizedSampleCountMismatch {
            dataset: "test-dataset",
            expected: 2,
            actual: 1,
        }
    ));
}

#[test]
fn converts_aligned_samples_to_render_pixels() {
    let mapping = dataset_mapping_for_product(ProcessingProduct::Vnp46A2);
    // Radiance 0.1 (class 1), 1.25 (class 4) and -1.0 (below the valid minimum).
    let radiance_quality = [PixelQuality::Valid, PixelQuality::Valid, PixelQuality::Invalid];
    let radiance = vec![
        RadianceClass::Class(1),
        RadianceClass::Class(4),
        RadianceClass::Unclassified,
    ];
    let cloud = [0u16, 0b10 << 6, 0];
    let classifications = (0..3)
        .map(|i| classify_pixel_sample(&mapping, radiance_quality[i], 0, Some(cloud[i]), None))
        .collect::<Vec<_>>();

    let pixels = render_pixels_from_classifications(&classifications, &radiance);

    assert_eq!(
        pixels,
        vec![
            RenderPixel {
                radiance: RadianceClass::Class(1),
                rejected: false,
            },
            RenderPixel {
                radiance: RadianceClass::Missing,
                rejected: true,
            },
            RenderPixel {
                radiance: RadianceClass::Missing,
                rejected: true,
            },
        ]
    );
}

#[test]
fn rejects_mismatched_sample_counts() {
    let error = validate_aligned_sample_counts(2, 1, None, None).unwrap_err();

    assert!(matches!(
        error,
        GenerateError::SampleCountMismatch {
            radiance: 2,
            quality: 1,
            cloud: None,
            observation_count: None,
        }
    ));
    assert!(validate_aligned_sample_counts(2, 2, Some(2), None).is_ok());
    assert!(validate_aligned_sample_counts(2, 2, None, Some(3)).is_err());
}

#[test]
fn renders_tile_window_from_aligned_samples() {
    let tile_size = tile_size_from_window(RasterWindow {
        x_offset: 0,
        y_offset: 0,
        width: 2,
        height: 2,
    })
    .unwrap();
    let rendered =
        render_tile_from_pixels(TileCoord { z: 5, x: 8, y: 12 }, tile_size, &clear_daily_pixels())
            .unwrap();

    assert_eq!(rendered.coord, TileCoord { z: 5, x: 8, y: 12 });
    assert_eq!(rendered.renderable_pixel_count, 4);
    assert!(rendered.png_bytes.starts_with(b"\x89PNG\r\n\x1a\n"));
}

#[test]
fn renders_tile_from_samples_with_explicit_tile_size() {
    let rendered =
        render_tile_from_pixels(TileCoord { z: 5, x: 8, y: 12 }, 2, &clear_daily_pixels())
            .unwrap();

    assert_eq!(rendered.coord, TileCoord { z: 5, x: 8, y: 12 });
    assert_eq!(rendered.renderable_pixel_count, 4);
    assert!(rendered.png_bytes.starts_with(b"\x89PNG\r\n\x1a\n"));
}

#[test]
fn rendering_wraps_render_errors_with_tile_coordinate() {
    let error = render_tile_from_pixels(
        TileCoord { z: 5, x: 8, y: 12 },
        2,
        &vec![RenderPixel {
            radiance: RadianceClass::Class(1),
            rejected: false,
        }],
    )
    .unwrap_err();

    assert!(matches!(
        error,
        GenerateError::RenderTile {
            coord: TileCoord { z: 5, x: 8, y: 12 },
            source: RenderError::PixelCountMismatch { .. },
        }
    ));
}

#[test]
fn generates_png_tiles_for_synthetic_inputs() {
    let tiles = generate_synthetic_tiles(
        2,
        sample_range(),
        &vec![SyntheticTileInput {
            coord: TileCoord { z: 5, x: 8, y: 12 },
            pixels: sample_pixels(),
        }],
    )
    .unwrap();

    assert_eq!(tiles.len(), 1);
    assert_eq!(tiles[0].coord, TileCoord { z: 5, x: 8, y: 12 });
    assert!(tiles[0].png_bytes.starts_with(b"\x89PNG\r\n\x1a\n"));
}

#[test]
fn rejects_tiles_outside_requested_range() {
    let error = generate_synthetic_tiles(
        2,
        sample_range(),
        &vec![SyntheticTileInput {
            coord: TileCoord { z: 5, x: 10, y: 12 },
            pixels: sample_pixels(),
        }],
    )
    .unwrap_err();

    assert!(matches!(
        error,
        GenerateError::TileOutsideRange {
            coord: TileCoord { z: 5, x: 10, y: 12 },
            ..
        }
    ));
}

#[test]
fn synthetic_wraps_render_errors_with_tile_coordinate() {
    let error = generate_synthetic_tiles(
        2,
        sample_range(),
        &vec![SyntheticTileInput {
            coord: TileCoord { z: 5, x: 8, y: 12 },
            pixels: vec![RenderPixel {
                radiance: RadianceClass::Class(1),
                rejected: false,
            }],
        }],
    )
    .unwrap_err();

    assert!(matches!(
        error,
        GenerateError::RenderTile {
            coord: TileCoord { z: 5, x: 8, y: 12 },
            source: RenderError::PixelCountMismatch { .. },
        }
    ));
}

#[test]
fn generates_synthetic_tile_set_for_planned_ranges() {
    let plan = TileGenerationPlan {
        ranges: vec![sample_range()],
        tile_count: 4,
    };

    let tiles = generate_synthetic_tile_set(2, &plan).unwrap();

    assert_eq!(tiles.len(), 4);
    assert_eq!(tiles[0].coord, TileCoord { z: 5, x: 8, y: 12 });
    assert_eq!(tiles[1].coord, TileCoord { z: 5, x: 8, y: 13 });
    assert_eq!(tiles[2].coord, TileCoord { z: 5, x: 9, y: 12 });
    assert_eq!(tiles[3].coord, TileCoord { z: 5, x: 9, y: 13 });
    assert!(tiles
        .iter()
        .all(|tile| tile.png_bytes.starts_with(b"\x89PNG\r\n\x1a\n")));
}

#[test]
fn synthetic_tile_set_generation_is_deterministic() {
    let plan = TileGenerationPlan {
        ranges: vec![sample_range()],
        tile_count: 4,
    };

    let first = generate_synthetic_tile_set(2, &plan).unwrap();
    let second = generate_synthetic_tile_set(2, &plan).unwrap();

    assert_eq!(first, second);
}

#[test]
fn synthetic_tile_set_count_matches_plan_count() {
    let plan = plan_tile_generation_from_ranges(vec![
        TileRange {
            z: 3,
            min_x: 1,
            max_x: 2,
            min_y: 3,
            max_y: 3,
        },
        TileRange {
            z: 4,
            min_x: 3,
            max_x: 4,
            min_y: 6,
            max_y: 6,
        },
    ])
    .unwrap();

    let tiles = generate_synthetic_tile_set(2, &plan).unwrap();

    assert_eq!(tiles.len(), plan.tile_count as usize);
}

#[test]
fn synthetic_pattern_rejects_and_blanks_pixels_by_position() {
    let plan = TileGenerationPlan {
        ranges: vec![TileRange {
            z: 0,
            min_x: 0,
            max_x: 0,
            min_y: 0,
            max_y: 0,
        }],
        tile_count: 1,
    };

    let tiles = generate_synthetic_tile_set(4, &plan).unwrap();

    // Seed 0: values 0..16; 0, 7 and 14 are rejected and 11 has no data.
    assert_eq!(tiles[0].renderable_pixel_count, 12);
    assert_eq!(whole_radiance_class(0), RadianceClass::Class(1));
    assert_eq!(whole_radiance_class(2), RadianceClass::Class(4));
    assert_eq!(whole_radiance_class(59), RadianceClass::Class(9));
}

#[test]
fn plans_sum_range_tile_counts() {
    let plan = plan_tile_generation_from_ranges(vec![
        sample_range(),
        TileRange {
            z: 6,
            min_x: 16,
            max_x: 18,
            min_y: 24,
            max_y: 27,
        },
    ])
    .unwrap();

    assert_eq!(plan.ranges.len(), 2);
    assert_eq!(plan.tile_count, 4 + 12);
    assert_eq!(plan_tile_coords(&plan).len(), 16);
}

#[test]
fn rejects_plans_beyond_u32_tile_counts() {
    let error = plan_tile_generation_from_ranges(vec![TileRange {
        z: 20,
        min_x: 0,
        max_x: 1_048_575,
        min_y: 0,
        max_y: 1_048_575,
    }])
    .unwrap_err();

    assert_eq!(
        error,
        GenerateError::TileCountOverflow {
            tile_count: 1_048_576 * 1_048_576
        }
    );
}

fn tile(coord: TileCoord, renderable_pixel_count: u32) -> RenderedTile {
    RenderedTile {
        coord,
        png_bytes: vec![coord.x as u8],
        renderable_pixel_count,
    }
}

#[test]
fn keeps_only_tiles_with_renderable_evidence() {
    let tiles = non_empty_tiles(vec![
        tile(TileCoord { z: 3, x: 1, y: 1 }, 0),
        tile(TileCoord { z: 3, x: 2, y: 1 }, 5),
        tile(TileCoord { z: 3, x: 3, y: 1 }, 0),
        tile(TileCoord { z: 3, x: 4, y: 1 }, 1),
    ]);

    assert_eq!(
        tiles.iter().map(|tile| tile.coord.x).collect::<Vec<_>>(),
        vec![2, 4]
    );
}

#[test]
fn collects_rendered_tiles_in_plan_order_whatever_the_finish_order() {
    let a = tile(TileCoord { z: 3, x: 1, y: 1 }, 1);
    let b = tile(TileCoord { z: 3, x: 2, y: 1 }, 1);
    let c = tile(TileCoord { z: 3, x: 3, y: 1 }, 1);

    let finished_late_first = order_rendered_tiles(vec![(2, c.clone()), (0, a.clone()), (1, b.clone())]);
    let finished_in_order = order_rendered_tiles(vec![(0, a.clone()), (1, b.clone()), (2, c.clone())]);

    assert_eq!(finished_late_first, vec![a.clone(), b.clone(), c.clone()]);
    assert_eq!(finished_late_first, finished_in_order);
}
