//! VIIRS science rules: which HDF datasets a product uses, the checks that
//! aligned samples must pass, and the classification of pixel quality.
//!
//! Radiance values are floating point; they are classified by the caller and
//! arrive here as a [`PixelQuality`]. Integer quality, cloud-mask and
//! observation-count samples arrive already converted to `u16`.
use vstd::prelude::*;

use crate::hdf::{RasterShape, RasterWindow};
use crate::processing_message::{ProcessingProduct, ProductCadence};
use crate::text::{dec, push_dec, push_str};

verus! {

/// Version of the pixel-quality rules recorded with processing metadata.
pub const QUALITY_RULE_VERSION: &'static str = "viirs-quality-v1";

pub const DAILY_RADIANCE_DATASET: &'static str =
    "//HDFEOS/GRIDS/VIIRS_Grid_DNB_2d/Data_Fields/Gap_Filled_DNB_BRDF-Corrected_NTL";

pub const DAILY_QUALITY_DATASET: &'static str =
    "//HDFEOS/GRIDS/VIIRS_Grid_DNB_2d/Data_Fields/Mandatory_Quality_Flag";

pub const DAILY_CLOUD_DATASET: &'static str = "//HDFEOS/GRIDS/VIIRS_Grid_DNB_2d/Data_Fields/QF_Cloud_Mask";

pub const MONTHLY_RADIANCE_DATASET: &'static str =
    "//HDFEOS/GRIDS/VIIRS_Grid_DNB_2d/Data_Fields/AllAngle_Composite_Snow_Free";

pub const MONTHLY_QUALITY_DATASET: &'static str =
    "//HDFEOS/GRIDS/VIIRS_Grid_DNB_2d/Data_Fields/AllAngle_Composite_Snow_Free_Quality";

pub const MONTHLY_OBSERVATION_COUNT_DATASET: &'static str =
    "//HDFEOS/GRIDS/VIIRS_Grid_DNB_2d/Data_Fields/AllAngle_Composite_Snow_Free_Num";

pub const RADIANCE_UNITS: &'static str = "nWatts/(cm^2 sr)";

// ---------------------------------------------------------------------------
// Dataset mappings
// ---------------------------------------------------------------------------

/// The HDF datasets and sample conventions of one product.
///
/// The radiance conventions are floating-point numbers; they are held as the
/// decimal text of their `f32` values.
#[derive(Debug, Clone, Copy, PartialEq, Eq)]
pub struct DatasetMapping {
    pub product: ProcessingProduct,
    pub cadence: ProductCadence,
    pub radiance_dataset: &'static str,
    pub quality_dataset: &'static str,
    pub cloud_dataset: Option<&'static str>,
    pub observation_count_dataset: Option<&'static str>,
    pub radiance_fill_value: &'static str,
    pub radiance_valid_min: &'static str,
    pub radiance_scale_factor: &'static str,
    pub radiance_offset: &'static str,
    pub radiance_units: &'static str,
    pub quality_fill_value: u16,
    pub cloud_fill_value: Option<u16>,
    pub observation_count_fill_value: Option<u16>,
}

/// Whether `m` is the daily dataset contract of `product`.
pub open spec fn is_daily_mapping(m: DatasetMapping, product: ProcessingProduct) -> bool {
    &&& m.product == product
    &&& m.cadence == ProductCadence::Daily
    &&& m.radiance_dataset@ == DAILY_RADIANCE_DATASET@
    &&& m.quality_dataset@ == DAILY_QUALITY_DATASET@
    &&& m.cloud_dataset matches Some(d) && d@ == DAILY_CLOUD_DATASET@
    &&& m.observation_count_dataset is None
    &&& m.quality_fill_value == 255
    &&& m.cloud_fill_value == Some(65535u16)
    &&& m.observation_count_fill_value is None
}

/// Whether `m` is the monthly dataset contract of `product`.
pub open spec fn is_monthly_mapping(m: DatasetMapping, product: ProcessingProduct) -> bool {
    &&& m.product == product
    &&& m.cadence == ProductCadence::Monthly
    &&& m.radiance_dataset@ == MONTHLY_RADIANCE_DATASET@
    &&& m.quality_dataset@ == MONTHLY_QUALITY_DATASET@
    &&& m.cloud_dataset is None
    &&& m.observation_count_dataset matches Some(d) && d@ == MONTHLY_OBSERVATION_COUNT_DATASET@
    &&& m.quality_fill_value == 255
    &&& m.cloud_fill_value is None
    &&& m.observation_count_fill_value == Some(65535u16)
}

/// The radiance conventions shared by every supported product.
pub open spec fn has_radiance_conventions(m: DatasetMapping) -> bool {
    &&& m.radiance_fill_value@ == "-999.9"@
    &&& m.radiance_valid_min@ == "0.0"@
    &&& m.radiance_scale_factor@ == "1.0"@
    &&& m.radiance_offset@ == "0.0"@
    &&& m.radiance_units@ == RADIANCE_UNITS@
}

fn daily_mapping(product: ProcessingProduct) -> (m: DatasetMapping)
    ensures
        is_daily_mapping(m, product),
        has_radiance_conventions(m),
{
    DatasetMapping {
        product,
        cadence: ProductCadence::Daily,
        radiance_dataset: DAILY_RADIANCE_DATASET,
        quality_dataset: DAILY_QUALITY_DATASET,
        cloud_dataset: Some(DAILY_CLOUD_DATASET),
        observation_count_dataset: None,
        radiance_fill_value: "-999.9",
        radiance_valid_min: "0.0",
        radiance_scale_factor: "1.0",
        radiance_offset: "0.0",
        radiance_units: RADIANCE_UNITS,
        quality_fill_value: 255,
        cloud_fill_value: Some(65535),
        observation_count_fill_value: None,
    }
}

/// The HDF dataset contract of a supported product: daily products carry a
/// cloud mask, the monthly composite carries observation counts.
pub fn dataset_mapping_for_product(product: ProcessingProduct) -> (m: DatasetMapping)
    ensures
        has_radiance_conventions(m),
        product == ProcessingProduct::Vnp46A3 ==> is_monthly_mapping(m, product),
        product != ProcessingProduct::Vnp46A3 ==> is_daily_mapping(m, product),
{
    match product {
        ProcessingProduct::Vnp46A2 => daily_mapping(ProcessingProduct::Vnp46A2),
        ProcessingProduct::Vj146A2 => daily_mapping(ProcessingProduct::Vj146A2),
        ProcessingProduct::Vnp46A3 => DatasetMapping {
            product: ProcessingProduct::Vnp46A3,
            cadence: ProductCadence::Monthly,
            radiance_dataset: MONTHLY_RADIANCE_DATASET,
            quality_dataset: MONTHLY_QUALITY_DATASET,
            cloud_dataset: None,
            observation_count_dataset: Some(MONTHLY_OBSERVATION_COUNT_DATASET),
            radiance_fill_value: "-999.9",
            radiance_valid_min: "0.0",
            radiance_scale_factor: "1.0",
            radiance_offset: "0.0",
            radiance_units: RADIANCE_UNITS,
            quality_fill_value: 255,
            cloud_fill_value: None,
            observation_count_fill_value: Some(65535),
        },
    }
}

// ---------------------------------------------------------------------------
// Pixel quality
// ---------------------------------------------------------------------------

/// Whether a sample passed a quality rule.
#[derive(Debug, Clone, Copy, PartialEq, Eq, Structural)]
pub enum PixelQuality {
    Valid,
    Invalid,
}

/// Daily mandatory quality: only flag 0 is acceptable.
pub fn classify_daily_quality(quality_flag: u8) -> (q: PixelQuality)
    ensures
        q == (if quality_flag == 0 { PixelQuality::Valid } else { PixelQuality::Invalid }),
{
    match quality_flag {
        0 => PixelQuality::Valid,
        _ => PixelQuality::Invalid,
    }
}

/// Monthly composite quality: flags 0 and 2 are acceptable.
pub fn classify_monthly_quality(quality_flag: u8) -> (q: PixelQuality)
    ensures
        q == (if quality_flag == 0 || quality_flag == 2 {
            PixelQuality::Valid
        } else {
            PixelQuality::Invalid
        }),
{
    match quality_flag {
        0 | 2 => PixelQuality::Valid,
        _ => PixelQuality::Invalid,
    }
}

/// Bits 6 and 7 of the daily cloud mask: the cloud-detection confidence.
pub open spec fn cloud_detection_bits(qf_cloud_mask: u16) -> int {
    (qf_cloud_mask as int / 64) % 4
}

/// A daily cloud mask marks the pixel cloudy when its cloud-detection
/// confidence is 2 or 3.
pub fn is_cloud_contaminated(qf_cloud_mask: u16) -> (r: bool)
    ensures
        r == (cloud_detection_bits(qf_cloud_mask) >= 2),
{
    let bits = (qf_cloud_mask >> 6u16) & 0b11u16;
    assert(((qf_cloud_mask >> 6u16) & 0b11u16) == (qf_cloud_mask / 64) % 4) by (bit_vector);
    bits == 0b10 || bits == 0b11
}

/// The quality outcome of one aligned set of samples.
#[derive(Debug, Clone, Copy, PartialEq, Eq, Structural)]
pub struct PixelSampleClassification {
    pub radiance_quality: PixelQuality,
    pub quality_mask_quality: PixelQuality,
    pub quality_sample: u16,
    pub cloud_contaminated: Option<bool>,
    pub observation_count_sample: Option<u16>,
}

/// The quality flag read from a quality sample: values above 255 count as 255.
pub open spec fn quality_flag_of(quality_sample: u16) -> u8 {
    if quality_sample > 255 {
        255u8
    } else {
        quality_sample as u8
    }
}

/// The quality-mask outcome of `quality_sample` under the rules of `cadence`.
pub open spec fn mask_quality(cadence: ProductCadence, quality_sample: u16) -> PixelQuality {
    let flag = quality_flag_of(quality_sample);
    match cadence {
        ProductCadence::Daily => if flag == 0 {
            PixelQuality::Valid
        } else {
            PixelQuality::Invalid
        },
        ProductCadence::Monthly => if flag == 0 || flag == 2 {
            PixelQuality::Valid
        } else {
            PixelQuality::Invalid
        },
    }
}

/// Classifies one aligned set of samples. A cloud-mask sample counts only
/// for products with a cloud dataset, an observation count only for products
/// with an observation-count dataset; missing optional samples stay `None`.
pub fn classify_pixel_sample(
    mapping: &DatasetMapping,
    radiance_quality: PixelQuality,
    quality_sample: u16,
    cloud_mask_sample: Option<u16>,
    observation_count_sample: Option<u16>,
) -> (c: PixelSampleClassification)
    ensures
        c.radiance_quality == radiance_quality,
        c.quality_sample == quality_sample,
        c.quality_mask_quality == mask_quality(mapping.cadence, quality_sample),
        c.cloud_contaminated == (match (mapping.cloud_dataset, cloud_mask_sample) {
            (Some(_), Some(m)) => Some(cloud_detection_bits(m) >= 2),
            _ => None,
        }),
        c.observation_count_sample == (match (
            mapping.observation_count_dataset,
            observation_count_sample,
        ) {
            (Some(_), Some(n)) => Some(n),
            _ => None,
        }),
{
    let quality_flag: u8 = if quality_sample > 255 {
        255
    } else {
        quality_sample as u8
    };
    let quality_mask_quality = match mapping.cadence {
        ProductCadence::Daily => classify_daily_quality(quality_flag),
        ProductCadence::Monthly => classify_monthly_quality(quality_flag),
    };
    let cloud_contaminated = match (mapping.cloud_dataset, cloud_mask_sample) {
        (Some(_), Some(mask)) => Some(is_cloud_contaminated(mask)),
        _ => None,
    };
    let observation_count = match (mapping.observation_count_dataset, observation_count_sample) {
        (Some(_), Some(count)) => Some(count),
        _ => None,
    };
    PixelSampleClassification {
        radiance_quality,
        quality_mask_quality,
        quality_sample,
        cloud_contaminated,
        observation_count_sample: observation_count,
    }
}

/// Valid radiance and an acceptable quality mask.
pub open spec fn sample_valid(c: PixelSampleClassification) -> bool {
    c.radiance_quality == PixelQuality::Valid && c.quality_mask_quality == PixelQuality::Valid
}

/// A valid sample that the cloud mask marks cloudy.
pub open spec fn sample_cloudy_valid(c: PixelSampleClassification) -> bool {
    sample_valid(c) && c.cloud_contaminated == Some(true)
}

/// A sample whose radiance contributes to a tile.
pub open spec fn sample_renderable(c: PixelSampleClassification) -> bool {
    sample_valid(c) && c.cloud_contaminated != Some(true)
}

/// The number of valid samples.
pub open spec fn valid_count(s: Seq<PixelSampleClassification>) -> nat
    decreases s.len(),
{
    if s.len() == 0 {
        0
    } else {
        valid_count(s.drop_last()) + if sample_valid(s.last()) {
            1nat
        } else {
            0nat
        }
    }
}

/// The number of valid samples marked cloudy.
pub open spec fn cloudy_valid_count(s: Seq<PixelSampleClassification>) -> nat
    decreases s.len(),
{
    if s.len() == 0 {
        0
    } else {
        cloudy_valid_count(s.drop_last()) + if sample_cloudy_valid(s.last()) {
            1nat
        } else {
            0nat
        }
    }
}

/// The number of renderable samples.
pub open spec fn renderable_count(s: Seq<PixelSampleClassification>) -> nat
    decreases s.len(),
{
    if s.len() == 0 {
        0
    } else {
        renderable_count(s.drop_last()) + if sample_renderable(s.last()) {
            1nat
        } else {
            0nat
        }
    }
}

/// Counts of a classified sample window. The cloud fraction is
/// `cloud_contaminated_valid_pixel_count / valid_pixel_count`, and 0 when no
/// sample is valid, so invalid samples never dilute it.
#[derive(Debug, Clone, Copy, PartialEq, Eq, Structural)]
pub struct QualitySummary {
    pub total_pixel_count: usize,
    pub valid_pixel_count: usize,
    pub rejected_pixel_count: usize,
    pub cloud_contaminated_valid_pixel_count: usize,
}

/// Summarizes classifications for rejection decisions and metadata.
pub fn summarize_quality(classifications: &Vec<PixelSampleClassification>) -> (s: QualitySummary)
    ensures
        s.total_pixel_count == classifications@.len(),
        s.valid_pixel_count == valid_count(classifications@),
        s.rejected_pixel_count == classifications@.len() - valid_count(classifications@),
        s.cloud_contaminated_valid_pixel_count == cloudy_valid_count(classifications@),
{
    let total = classifications.len();
    let mut valid: usize = 0;
    let mut cloudy: usize = 0;
    let mut i: usize = 0;
    while i < total
        invariant
            total == classifications@.len(),
            i <= total,
            valid == valid_count(classifications@.take(i as int)),
            cloudy == cloudy_valid_count(classifications@.take(i as int)),
            cloudy <= valid <= i,
        decreases total - i,
    {
        let c = classifications[i];
        assert(classifications@.take(i + 1).drop_last() == classifications@.take(i as int));
        if c.radiance_quality == PixelQuality::Valid && c.quality_mask_quality
            == PixelQuality::Valid {
            valid = valid + 1;
            if c.cloud_contaminated == Some(true) {
                cloudy = cloudy + 1;
            }
        }
        i = i + 1;
    }
    assert(classifications@.take(total as int) == classifications@);
    QualitySummary {
        total_pixel_count: total,
        valid_pixel_count: valid,
        rejected_pixel_count: total - valid,
        cloud_contaminated_valid_pixel_count: cloudy,
    }
}

/// Whether a classified sample contributes radiance to a tile.
pub fn is_renderable_sample(classification: &PixelSampleClassification) -> (r: bool)
    ensures
        r == sample_renderable(*classification),
{
    classification.radiance_quality == PixelQuality::Valid && classification.quality_mask_quality
        == PixelQuality::Valid && classification.cloud_contaminated != Some(true)
}

/// Cloudy valid samples are a part of the valid samples, which are a part
/// of all samples; the renderable samples are exactly the valid samples that
/// are not cloudy.
pub proof fn lemma_quality_counts(s: Seq<PixelSampleClassification>)
    ensures
        cloudy_valid_count(s) <= valid_count(s) <= s.len(),
        renderable_count(s) + cloudy_valid_count(s) == valid_count(s),
    decreases s.len(),
{
    if s.len() > 0 {
        lemma_quality_counts(s.drop_last());
    }
}

// ---------------------------------------------------------------------------
// Sample alignment checks
// ---------------------------------------------------------------------------

/// Why aligned science samples could not be used.
#[derive(Debug, Clone, Copy, PartialEq, Eq)]
pub enum ScienceError {
    DatasetShapeMismatch {
        reference_dataset: &'static str,
        compared_dataset: &'static str,
        reference_shape: RasterShape,
        compared_shape: RasterShape,
    },
    SampleWindowCountMismatch {
        dataset: &'static str,
        window: RasterWindow,
        expected_count: usize,
        actual_count: usize,
    },
}

/// Two datasets must expose the same raster shape before aligned sampling.
pub fn validate_matching_shape(
    reference_dataset: &'static str,
    reference_shape: RasterShape,
    compared_dataset: &'static str,
    compared_shape: RasterShape,
) -> (r: Result<(), ScienceError>)
    ensures
        reference_shape == compared_shape ==> r is Ok,
        reference_shape != compared_shape ==> r == Err::<(), ScienceError>(
            ScienceError::DatasetShapeMismatch {
                reference_dataset,
                compared_dataset,
                reference_shape,
                compared_shape,
            },
        ),
{
    if reference_shape.width != compared_shape.width || reference_shape.height
        != compared_shape.height {
        return Err(
            ScienceError::DatasetShapeMismatch {
                reference_dataset,
                compared_dataset,
                reference_shape,
                compared_shape,
            },
        );
    }
    Ok(())
}

/// A sample window must return exactly one sample per pixel.
pub fn validate_sample_count(dataset: &'static str, window: RasterWindow, actual_count: usize) -> (r:
    Result<(), ScienceError>)
    requires
        window.width * window.height <= usize::MAX,
    ensures
        actual_count == window.width * window.height ==> r is Ok,
        actual_count != window.width * window.height ==> r == Err::<(), ScienceError>(
            ScienceError::SampleWindowCountMismatch {
                dataset,
                window,
                expected_count: (window.width * window.height) as usize,
                actual_count,
            },
        ),
{
    let expected_count = window.width * window.height;
    if actual_count != expected_count {
        return Err(
            ScienceError::SampleWindowCountMismatch { dataset, window, expected_count, actual_count },
        );
    }
    Ok(())
}

/// The message of a science error.
pub open spec fn science_error_text(e: ScienceError) -> Seq<char> {
    match e {
        ScienceError::DatasetShapeMismatch {
            reference_dataset,
            compared_dataset,
            reference_shape,
            compared_shape,
        } => "science dataset shape mismatch: '"@ + compared_dataset@ + "' has "@ + dec(
            compared_shape.width as nat,
        ) + "x"@ + dec(compared_shape.height as nat) + ", expected "@ + dec(
            reference_shape.width as nat,
        ) + "x"@ + dec(reference_shape.height as nat) + " to match '"@ + reference_dataset@
            + "'"@,
        ScienceError::SampleWindowCountMismatch { dataset, window, expected_count, actual_count } =>
        "science sample window count mismatch: '"@ + dataset@ + "' returned "@ + dec(
            actual_count as nat,
        ) + " samples, expected "@ + dec(expected_count as nat) + " for window x="@ + dec(
            window.x_offset as nat,
        ) + ", y="@ + dec(window.y_offset as nat) + ", width="@ + dec(window.width as nat)
            + ", height="@ + dec(window.height as nat),
    }
}

impl ScienceError {
    /// The message shown for this error.
    pub fn message(&self) -> (r: String)
        ensures
            r@ == science_error_text(*self),
    {
        let mut out = String::new();
        match *self {
            ScienceError::DatasetShapeMismatch {
                reference_dataset,
                compared_dataset,
                reference_shape,
                compared_shape,
            } => {
                push_str(&mut out, "science dataset shape mismatch: '");
                push_str(&mut out, compared_dataset);
                push_str(&mut out, "' has ");
                push_dec(&mut out, compared_shape.width as u64);
                push_str(&mut out, "x");
                push_dec(&mut out, compared_shape.height as u64);
                push_str(&mut out, ", expected ");
                push_dec(&mut out, reference_shape.width as u64);
                push_str(&mut out, "x");
                push_dec(&mut out, reference_shape.height as u64);
                push_str(&mut out, " to match '");
                push_str(&mut out, reference_dataset);
                push_str(&mut out, "'");
            },
            ScienceError::SampleWindowCountMismatch {
                dataset,
                window,
                expected_count,
                actual_count,
            } => {
                push_str(&mut out, "science sample window count mismatch: '");
                push_str(&mut out, dataset);
                push_str(&mut out, "' returned ");
                push_dec(&mut out, actual_count as u64);
                push_str(&mut out, " samples, expected ");
                push_dec(&mut out, expected_count as u64);
                push_str(&mut out, " for window x=");
                push_dec(&mut out, window.x_offset as u64);
                push_str(&mut out, ", y=");
                push_dec(&mut out, window.y_offset as u64);
                push_str(&mut out, ", width=");
                push_dec(&mut out, window.width as u64);
                push_str(&mut out, ", height=");
                push_dec(&mut out, window.height as u64);
            },
        }
        assert(out@ =~= science_error_text(*self));
        out
    }
}

} // verus!
