//! The checks and names of processing one granule: the quality gate over a
//! small sample window, and the identifiers recorded with the tile set.
//!
//! Downloading the granule, reading its datasets and rendering tiles are
//! performed by the caller between these steps.
use vstd::prelude::*;

use crate::hdf::{RasterShape, RasterWindow};
use crate::manifest::lower_hex_digit;
use crate::processing_message::ProcessingMessage;
use crate::science::{
    classify_pixel_sample, cloud_detection_bits, mask_quality, validate_matching_shape,
    validate_sample_count, DatasetMapping, PixelQuality, PixelSampleClassification, ScienceError,
};
use crate::text::{date_text, dec, lemma_dec_injective, owned, push_char, push_date, push_dec, push_str};

verus! {

/// The version of this package, recorded in the manifests it writes.
pub const PACKAGE_VERSION: &'static str = "0.1.0";

/// `processing-svc:{version}`: the processor named in tile manifests.
pub fn processor_version() -> (r: String)
    ensures
        r@ == "processing-svc:"@ + PACKAGE_VERSION@,
{
    let mut out = String::new();
    push_str(&mut out, "processing-svc:");
    push_str(&mut out, PACKAGE_VERSION);
    out
}

/// The window sampled by the quality gate: the 2x2 pixels at the origin.
pub fn quality_gate_window() -> (w: RasterWindow)
    ensures
        w == (RasterWindow { x_offset: 0, y_offset: 0, width: 2, height: 2 }),
{
    RasterWindow { x_offset: 0, y_offset: 0, width: 2, height: 2 }
}

/// The mismatch of `compared` against the radiance shape, if any.
pub open spec fn shape_mismatch(
    mapping: DatasetMapping,
    radiance: RasterShape,
    dataset: &'static str,
    compared: RasterShape,
) -> Option<ScienceError> {
    if compared != radiance {
        Some(
            ScienceError::DatasetShapeMismatch {
                reference_dataset: mapping.radiance_dataset,
                compared_dataset: dataset,
                reference_shape: radiance,
                compared_shape: compared,
            },
        )
    } else {
        None
    }
}

/// The first dataset whose shape differs from the radiance shape: quality,
/// then the cloud mask, then observation counts (each only when the
/// product has it and its shape was read).
pub open spec fn dataset_shape_error(
    mapping: DatasetMapping,
    radiance: RasterShape,
    quality: RasterShape,
    cloud: Option<RasterShape>,
    observation_count: Option<RasterShape>,
) -> Option<ScienceError> {
    if quality != radiance {
        shape_mismatch(mapping, radiance, mapping.quality_dataset, quality)
    } else if cloud is Some && mapping.cloud_dataset is Some && cloud->0 != radiance {
        shape_mismatch(mapping, radiance, mapping.cloud_dataset->0, cloud->0)
    } else if observation_count is Some && mapping.observation_count_dataset is Some
        && observation_count->0 != radiance {
        shape_mismatch(
            mapping,
            radiance,
            mapping.observation_count_dataset->0,
            observation_count->0,
        )
    } else {
        None
    }
}

/// Checks that every dataset of the product has the radiance shape.
pub fn validate_dataset_shapes(
    mapping: &DatasetMapping,
    radiance: RasterShape,
    quality: RasterShape,
    cloud: Option<RasterShape>,
    observation_count: Option<RasterShape>,
) -> (r: Result<(), ScienceError>)
    ensures
        match dataset_shape_error(*mapping, radiance, quality, cloud, observation_count) {
            Some(e) => r == Err::<(), ScienceError>(e),
            None => r is Ok,
        },
{
    validate_matching_shape(mapping.radiance_dataset, radiance, mapping.quality_dataset, quality)?;
    if let Some(shape) = cloud {
        if let Some(dataset) = mapping.cloud_dataset {
            validate_matching_shape(mapping.radiance_dataset, radiance, dataset, shape)?;
        }
    }
    if let Some(shape) = observation_count {
        if let Some(dataset) = mapping.observation_count_dataset {
            validate_matching_shape(mapping.radiance_dataset, radiance, dataset, shape)?;
        }
    }
    Ok(())
}

/// The number of samples a window must return.
pub open spec fn window_pixels(w: RasterWindow) -> int {
    w.width * w.height
}

/// The count error of `dataset`, if it did not return one sample per pixel.
pub open spec fn count_mismatch(dataset: &'static str, w: RasterWindow, actual: usize) -> Option<
    ScienceError,
> {
    if actual != window_pixels(w) {
        Some(
            ScienceError::SampleWindowCountMismatch {
                dataset,
                window: w,
                expected_count: window_pixels(w) as usize,
                actual_count: actual,
            },
        )
    } else {
        None
    }
}

/// The first dataset whose sample count differs from the window's pixel
/// count: radiance, quality, cloud mask, then observation counts.
pub open spec fn sample_count_error(
    mapping: DatasetMapping,
    w: RasterWindow,
    radiance: usize,
    quality: usize,
    cloud: Option<usize>,
    observation_count: Option<usize>,
) -> Option<ScienceError> {
    if radiance != window_pixels(w) {
        count_mismatch(mapping.radiance_dataset, w, radiance)
    } else if quality != window_pixels(w) {
        count_mismatch(mapping.quality_dataset, w, quality)
    } else if cloud is Some && mapping.cloud_dataset is Some && cloud->0 != window_pixels(w) {
        count_mismatch(mapping.cloud_dataset->0, w, cloud->0)
    } else if observation_count is Some && mapping.observation_count_dataset is Some
        && observation_count->0 != window_pixels(w) {
        count_mismatch(mapping.observation_count_dataset->0, w, observation_count->0)
    } else {
        None
    }
}

/// Checks that every sampled dataset returned one sample per window pixel.
pub fn validate_window_sample_counts(
    mapping: &DatasetMapping,
    window: RasterWindow,
    radiance: usize,
    quality: usize,
    cloud: Option<usize>,
    observation_count: Option<usize>,
) -> (r: Result<(), ScienceError>)
    requires
        window_pixels(window) <= usize::MAX,
    ensures
        match sample_count_error(*mapping, window, radiance, quality, cloud, observation_count) {
            Some(e) => r == Err::<(), ScienceError>(e),
            None => r is Ok,
        },
{
    validate_sample_count(mapping.radiance_dataset, window, radiance)?;
    validate_sample_count(mapping.quality_dataset, window, quality)?;
    if let Some(count) = cloud {
        if let Some(dataset) = mapping.cloud_dataset {
            validate_sample_count(dataset, window, count)?;
        }
    }
    if let Some(count) = observation_count {
        if let Some(dataset) = mapping.observation_count_dataset {
            validate_sample_count(dataset, window, count)?;
        }
    }
    Ok(())
}

/// The optional sample at `i`, absent when the dataset or the index is.
pub open spec fn sample_at(samples: Option<Vec<u16>>, i: int) -> Option<u16> {
    match samples {
        Some(v) => if 0 <= i < v@.len() {
            Some(v@[i])
        } else {
            None
        },
        None => None,
    }
}

/// The classification of pixel `i` of an aligned window.
pub open spec fn window_classification(
    mapping: DatasetMapping,
    radiance_quality: PixelQuality,
    quality_sample: u16,
    cloud_sample: Option<u16>,
    observation_count_sample: Option<u16>,
) -> PixelSampleClassification {
    PixelSampleClassification {
        radiance_quality,
        quality_mask_quality: mask_quality(mapping.cadence, quality_sample),
        quality_sample,
        cloud_contaminated: match (mapping.cloud_dataset, cloud_sample) {
            (Some(_), Some(m)) => Some(cloud_detection_bits(m) >= 2),
            _ => None,
        },
        observation_count_sample: match (
            mapping.observation_count_dataset,
            observation_count_sample,
        ) {
            (Some(_), Some(n)) => Some(n),
            _ => None,
        },
    }
}

/// Classifies every pixel of a sampled window: one classification per
/// radiance sample, with the quality sample at the same index and the cloud
/// and observation-count samples at that index when present.
pub fn classify_window_samples(
    mapping: &DatasetMapping,
    radiance_quality: &Vec<PixelQuality>,
    quality_samples: &Vec<u16>,
    cloud_samples: &Option<Vec<u16>>,
    observation_count_samples: &Option<Vec<u16>>,
) -> (r: Vec<PixelSampleClassification>)
    requires
        quality_samples@.len() >= radiance_quality@.len(),
    ensures
        r@.len() == radiance_quality@.len(),
        forall|i: int|
            0 <= i < r@.len() ==> #[trigger] r@[i] == window_classification(
                *mapping,
                radiance_quality@[i],
                quality_samples@[i],
                sample_at(*cloud_samples, i),
                sample_at(*observation_count_samples, i),
            ),
{
    let mut r: Vec<PixelSampleClassification> = Vec::new();
    let mut i: usize = 0;
    while i < radiance_quality.len()
        invariant
            i <= radiance_quality@.len(),
            quality_samples@.len() >= radiance_quality@.len(),
            r@.len() == i,
            forall|j: int|
                0 <= j < i ==> #[trigger] r@[j] == window_classification(
                    *mapping,
                    radiance_quality@[j],
                    quality_samples@[j],
                    sample_at(*cloud_samples, j),
                    sample_at(*observation_count_samples, j),
                ),
        decreases radiance_quality@.len() - i,
    {
        let cloud = match cloud_samples {
            Some(v) => if i < v.len() {
                Some(v[i])
            } else {
                None
            },
            None => None,
        };
        let observation_count = match observation_count_samples {
            Some(v) => if i < v.len() {
                Some(v[i])
            } else {
                None
            },
            None => None,
        };
        let c = classify_pixel_sample(
            mapping,
            radiance_quality[i],
            quality_samples[i],
            cloud,
            observation_count,
        );
        r.push(c);
        i = i + 1;
    }
    r
}

// ---------------------------------------------------------------------------
// Identifiers
// ---------------------------------------------------------------------------

/// The last `n` lowercase hexadecimal digits of `v`, most significant first.
pub open spec fn lower_hex_digits(v: nat, n: nat) -> Seq<char>
    decreases n,
{
    if n == 0 {
        Seq::empty()
    } else {
        lower_hex_digits(v / 16, (n - 1) as nat).push(lower_hex_digit((v % 16) as int))
    }
}

fn hex_char(d: u64) -> (c: char)
    requires
        d < 16,
    ensures
        c == lower_hex_digit(d as int),
{
    if d < 10 {
        ((48 + d) as u8) as char
    } else {
        ((87 + d) as u8) as char
    }
}

fn push_hex_digits(out: &mut String, v: u64, n: u64)
    ensures
        final(out)@ == old(out)@ + lower_hex_digits(v as nat, n as nat),
    decreases n,
{
    if n > 0 {
        push_hex_digits(out, v / 16, n - 1);
        push_char(out, hex_char(v % 16));
    }
}

/// The first eight digits of an ingest identifier's simple (hyphenless,
/// lowercase) UUID text: its most significant 32 bits.
pub open spec fn ingest_prefix(ingest_id: u128) -> Seq<char> {
    lower_hex_digits(ingest_id as nat / 0x1_0000_0000_0000_0000_0000_0000, 8)
}

/// `{granule date}-{classification version}-{ingest prefix}-a{attempt}`,
/// with attempts below 1 counted as 1.
pub open spec fn tile_set_id_text(
    classification_version: Seq<char>,
    message: ProcessingMessage,
    attempt: i32,
) -> Seq<char> {
    date_text(
        message.granule_date.year as int,
        message.granule_date.month as int,
        message.granule_date.day as int,
    ) + "-"@ + classification_version + "-"@ + ingest_prefix(message.ingest_id) + "-a"@ + dec(
        (if attempt < 1 {
            1
        } else {
            attempt
        }) as nat,
    )
}

/// The tile-set identifier of one processing attempt: stable for the same
/// message and attempt, distinct across attempts.
pub fn tile_set_id_for_message(
    classification_version: &str,
    message: &ProcessingMessage,
    attempt: i32,
) -> (r: String)
    ensures
        r@ == tile_set_id_text(classification_version@, *message, attempt),
{
    let mut out = String::new();
    push_date(
        &mut out,
        message.granule_date.year,
        message.granule_date.month,
        message.granule_date.day,
    );
    push_str(&mut out, "-");
    push_str(&mut out, classification_version);
    push_str(&mut out, "-");
    let id = message.ingest_id;
    let top: u64 = (id >> 96u128) as u64;
    assert((id >> 96u128) == id / 0x1_0000_0000_0000_0000_0000_0000u128) by (bit_vector);
    push_hex_digits(&mut out, top, 8);
    push_str(&mut out, "-a");
    let shown: i32 = if attempt < 1 {
        1
    } else {
        attempt
    };
    push_dec(&mut out, shown as u64);
    assert(out@ =~= tile_set_id_text(classification_version@, *message, attempt));
    out
}

/// Retries produce distinct artifacts: two processing attempts of the same
/// message, counted from 1, get different tile-set identifiers.
pub proof fn lemma_attempts_get_distinct_tile_sets(
    classification_version: Seq<char>,
    message: ProcessingMessage,
    a1: i32,
    a2: i32,
)
    requires
        1 <= a1,
        1 <= a2,
        a1 != a2,
    ensures
        tile_set_id_text(classification_version, message, a1) != tile_set_id_text(
            classification_version,
            message,
            a2,
        ),
{
    let prefix = date_text(
        message.granule_date.year as int,
        message.granule_date.month as int,
        message.granule_date.day as int,
    ) + "-"@ + classification_version + "-"@ + ingest_prefix(message.ingest_id) + "-a"@;
    let t1 = tile_set_id_text(classification_version, message, a1);
    let t2 = tile_set_id_text(classification_version, message, a2);
    assert(t1 == prefix + dec(a1 as nat));
    assert(t2 == prefix + dec(a2 as nat));
    if t1 == t2 {
        assert(dec(a1 as nat) == t1.subrange(prefix.len() as int, t1.len() as int));
        assert(dec(a2 as nat) == t2.subrange(prefix.len() as int, t2.len() as int));
        lemma_dec_injective(a1 as nat, a2 as nat);
    }
}

/// A granule that a tile set was made from.
#[derive(Debug, Clone, PartialEq, Eq)]
pub struct SourceGranule {
    pub ingest_id: u128,
    pub product: String,
    pub blob_path: String,
}

/// The source granule recorded for a processing message.
pub fn source_granule_for_message(message: &ProcessingMessage) -> (g: SourceGranule)
    ensures
        g.ingest_id == message.ingest_id,
        g.product@ == message.product@,
        g.blob_path@ == message.blob_path@,
{
    SourceGranule {
        ingest_id: message.ingest_id,
        product: owned(message.product.as_str()),
        blob_path: owned(message.blob_path.as_str()),
    }
}

} // verus!
