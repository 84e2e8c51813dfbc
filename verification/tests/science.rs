use processing_svc::hdf::{RasterShape, RasterWindow};
use processing_svc::processing_message::{ProcessingProduct, ProductCadence};
use processing_svc::science::{
    classify_daily_quality, classify_monthly_quality, classify_pixel_sample,
    dataset_mapping_for_product, is_cloud_contaminated, is_renderable_sample, summarize_quality,
    validate_matching_shape, validate_sample_count, PixelQuality, PixelSampleClassification,
    ScienceError, DAILY_CLOUD_DATASET, DAILY_QUALITY_DATASET, DAILY_RADIANCE_DATASET,
    MONTHLY_OBSERVATION_COUNT_DATASET, MONTHLY_QUALITY_DATASET, MONTHLY_RADIANCE_DATASET,
    QUALITY_RULE_VERSION,
};

fn classification(
    radiance_quality: PixelQuality,
    quality_mask_quality: PixelQuality,
    quality_sample: u16,
    cloud_contaminated: Option<bool>,
) -> PixelSampleClassification {
    PixelSampleClassification {
        radiance_quality,
        quality_mask_quality,
        quality_sample,
        cloud_contaminated,
        observation_count_sample: None,
    }
}

#[test]
fn classifies_daily_mandatory_quality() {
    assert_eq!(classify_daily_quality(0), PixelQuality::Valid);
    assert_eq!(classify_daily_quality(1), PixelQuality::Invalid);
    assert_eq!(classify_daily_quality(2), PixelQuality::Invalid);
    assert_eq!(classify_daily_quality(5), PixelQuality::Invalid);
    assert_eq!(classify_daily_quality(255), PixelQuality::Invalid);
}

#[test]
fn classifies_monthly_quality() {
    assert_eq!(classify_monthly_quality(0), PixelQuality::Valid);
    assert_eq!(classify_monthly_quality(1), PixelQuality::Invalid);
    assert_eq!(classify_monthly_quality(2), PixelQuality::Valid);
    assert_eq!(classify_monthly_quality(255), PixelQuality::Invalid);
}

#[test]
fn detects_cloud_contamination_from_daily_cloud_mask_bits() {
    assert!(!is_cloud_contaminated(0b00 << 6));
    assert!(!is_cloud_contaminated(0b01 << 6));
    assert!(is_cloud_contaminated(0b10 << 6));
    assert!(is_cloud_contaminated(0b11 << 6));
}

#[test]
fn cloud_mask_ignores_bits_outside_detection_confidence() {
    assert!(!is_cloud_contaminated(0b0011_1111));
    assert!(!is_cloud_contaminated(0b1111_1111_0011_1111));
    assert!(is_cloud_contaminated(0b1111_1111_1011_1111));
}

#[test]
fn exposes_quality_rule_version() {
    assert_eq!(QUALITY_RULE_VERSION, "viirs-quality-v1");
}

#[test]
fn maps_vnp46a2_daily_datasets() {
    let mapping = dataset_mapping_for_product(ProcessingProduct::Vnp46A2);

    assert_eq!(mapping.product, ProcessingProduct::Vnp46A2);
    assert_eq!(mapping.cadence, ProductCadence::Daily);
    assert_eq!(mapping.radiance_dataset, DAILY_RADIANCE_DATASET);
    assert_eq!(mapping.quality_dataset, DAILY_QUALITY_DATASET);
    assert_eq!(mapping.cloud_dataset, Some(DAILY_CLOUD_DATASET));
    assert_eq!(mapping.observation_count_dataset, None);
    assert_eq!(mapping.radiance_fill_value.parse::<f32>().unwrap(), -999.9);
    assert_eq!(mapping.radiance_valid_min.parse::<f32>().unwrap(), 0.0);
    assert_eq!(mapping.radiance_scale_factor.parse::<f32>().unwrap(), 1.0);
    assert_eq!(mapping.radiance_offset.parse::<f32>().unwrap(), 0.0);
    assert_eq!(mapping.radiance_units, "nWatts/(cm^2 sr)");
    assert_eq!(mapping.quality_fill_value, 255);
    assert_eq!(mapping.cloud_fill_value, Some(65535));
    assert_eq!(mapping.observation_count_fill_value, None);
}

#[test]
fn maps_vj146a2_daily_datasets() {
    let mapping = dataset_mapping_for_product(ProcessingProduct::Vj146A2);

    assert_eq!(mapping.product, ProcessingProduct::Vj146A2);
    assert_eq!(mapping.cadence, ProductCadence::Daily);
    assert_eq!(mapping.radiance_dataset, DAILY_RADIANCE_DATASET);
    assert_eq!(mapping.quality_dataset, DAILY_QUALITY_DATASET);
    assert_eq!(mapping.cloud_dataset, Some(DAILY_CLOUD_DATASET));
    assert_eq!(mapping.observation_count_dataset, None);
}

#[test]
fn maps_vnp46a3_monthly_datasets() {
    let mapping = dataset_mapping_for_product(ProcessingProduct::Vnp46A3);

    assert_eq!(mapping.product, ProcessingProduct::Vnp46A3);
    assert_eq!(mapping.cadence, ProductCadence::Monthly);
    assert_eq!(mapping.radiance_dataset, MONTHLY_RADIANCE_DATASET);
    assert_eq!(mapping.quality_dataset, MONTHLY_QUALITY_DATASET);
    assert_eq!(mapping.cloud_dataset, None);
    assert_eq!(
        mapping.observation_count_dataset,
        Some(MONTHLY_OBSERVATION_COUNT_DATASET)
    );
    assert_eq!(mapping.observation_count_fill_value, Some(65535));
}

#[test]
fn classifies_daily_pixel_sample() {
    let mapping = dataset_mapping_for_product(ProcessingProduct::Vnp46A2);

    let classification =
        classify_pixel_sample(&mapping, PixelQuality::Valid, 0, Some(0b10 << 6), None);

    assert_eq!(classification.radiance_quality, PixelQuality::Valid);
    assert_eq!(classification.quality_mask_quality, PixelQuality::Valid);
    assert_eq!(classification.quality_sample, 0);
    assert_eq!(classification.cloud_contaminated, Some(true));
    assert_eq!(classification.observation_count_sample, None);
}

#[test]
fn classifies_monthly_pixel_sample() {
    let mapping = dataset_mapping_for_product(ProcessingProduct::Vnp46A3);

    let classification = classify_pixel_sample(&mapping, PixelQuality::Valid, 2, None, Some(12));

    assert_eq!(classification.radiance_quality, PixelQuality::Valid);
    assert_eq!(classification.quality_mask_quality, PixelQuality::Valid);
    assert_eq!(classification.quality_sample, 2);
    assert_eq!(classification.cloud_contaminated, None);
    assert_eq!(classification.observation_count_sample, Some(12));
}

#[test]
fn ignores_samples_of_datasets_the_product_lacks() {
    let daily = dataset_mapping_for_product(ProcessingProduct::Vnp46A2);
    let monthly = dataset_mapping_for_product(ProcessingProduct::Vnp46A3);

    assert_eq!(
        classify_pixel_sample(&daily, PixelQuality::Valid, 0, None, Some(12))
            .observation_count_sample,
        None
    );
    assert_eq!(
        classify_pixel_sample(&monthly, PixelQuality::Valid, 0, Some(0b11 << 6), None)
            .cloud_contaminated,
        None
    );
}

#[test]
fn large_quality_samples_count_as_flag_255() {
    let monthly = dataset_mapping_for_product(ProcessingProduct::Vnp46A3);

    let classification = classify_pixel_sample(&monthly, PixelQuality::Valid, 258, None, None);

    assert_eq!(classification.quality_sample, 258);
    assert_eq!(classification.quality_mask_quality, PixelQuality::Invalid);
}

#[test]
fn summarizes_quality_counts_only_valid_pixels_in_cloud_denominator() {
    let summary = summarize_quality(&vec![
        classification(PixelQuality::Valid, PixelQuality::Valid, 0, Some(false)),
        classification(PixelQuality::Valid, PixelQuality::Valid, 0, Some(true)),
        classification(PixelQuality::Invalid, PixelQuality::Valid, 0, Some(true)),
        classification(PixelQuality::Valid, PixelQuality::Invalid, 1, Some(true)),
    ]);

    assert_eq!(summary.total_pixel_count, 4);
    assert_eq!(summary.valid_pixel_count, 2);
    assert_eq!(summary.rejected_pixel_count, 2);
    assert_eq!(summary.cloud_contaminated_valid_pixel_count, 1);
    assert_eq!(
        summary.cloud_contaminated_valid_pixel_count as f32 / summary.valid_pixel_count as f32,
        0.5
    );
}

#[test]
fn summarizes_quality_with_zero_valid_pixels_as_zero_cloud_fraction() {
    let summary = summarize_quality(&vec![classification(
        PixelQuality::Invalid,
        PixelQuality::Invalid,
        1,
        Some(true),
    )]);

    assert_eq!(summary.total_pixel_count, 1);
    assert_eq!(summary.valid_pixel_count, 0);
    assert_eq!(summary.rejected_pixel_count, 1);
    assert_eq!(summary.cloud_contaminated_valid_pixel_count, 0);
}

#[test]
fn renderable_samples_are_valid_and_not_cloudy() {
    let samples = vec![
        classification(PixelQuality::Valid, PixelQuality::Valid, 0, None),
        classification(PixelQuality::Valid, PixelQuality::Valid, 0, Some(false)),
        classification(PixelQuality::Valid, PixelQuality::Valid, 0, Some(true)),
        classification(PixelQuality::Invalid, PixelQuality::Valid, 0, None),
    ];
    let renderable = samples.iter().filter(|s| is_renderable_sample(s)).count();
    let summary = summarize_quality(&samples);

    assert_eq!(renderable, 2);
    assert_eq!(
        renderable + summary.cloud_contaminated_valid_pixel_count,
        summary.valid_pixel_count
    );
}

#[test]
fn accepts_matching_dataset_shapes() {
    let shape = RasterShape {
        width: 2400,
        height: 2400,
    };

    validate_matching_shape("radiance", shape, "quality", shape).unwrap();
}

#[test]
fn rejects_mismatched_dataset_shapes() {
    let error = validate_matching_shape(
        "radiance",
        RasterShape {
            width: 2400,
            height: 2400,
        },
        "quality",
        RasterShape {
            width: 1200,
            height: 2400,
        },
    )
    .unwrap_err();

    assert!(matches!(
        error,
        ScienceError::DatasetShapeMismatch {
            reference_dataset: "radiance",
            compared_dataset: "quality",
            reference_shape: RasterShape {
                width: 2400,
                height: 2400,
            },
            compared_shape: RasterShape {
                width: 1200,
                height: 2400,
            },
        }
    ));

    assert!(error.message().contains("science dataset shape mismatch"));
    assert_eq!(
        error.message(),
        "science dataset shape mismatch: 'quality' has 1200x2400, expected 2400x2400 to match 'radiance'"
    );
}

#[test]
fn accepts_expected_sample_count() {
    let window = RasterWindow {
        x_offset: 0,
        y_offset: 0,
        width: 2,
        height: 3,
    };

    validate_sample_count("radiance", window, 6).unwrap();
}

#[test]
fn rejects_unexpected_sample_count() {
    let window = RasterWindow {
        x_offset: 0,
        y_offset: 0,
        width: 2,
        height: 3,
    };

    let error = validate_sample_count("radiance", window, 5).unwrap_err();

    assert!(matches!(
        error,
        ScienceError::SampleWindowCountMismatch {
            dataset: "radiance",
            expected_count: 6,
            actual_count: 5,
            ..
        }
    ));
    assert_eq!(
        error.message(),
        "science sample window count mismatch: 'radiance' returned 5 samples, expected 6 for window x=0, y=0, width=2, height=3"
    );
}
