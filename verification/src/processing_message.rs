//! The processing-queue message contract and the VIIRS products it names.
use vstd::prelude::*;

use crate::text::{chars_of, has_prefix, owned, padded, push_padded, push_str, starts_with, str_eq};

verus! {

/// How often a product is produced.
#[derive(Debug, Clone, Copy, PartialEq, Eq, Structural)]
pub enum ProductCadence {
    Daily,
    Monthly,
}

/// The wire name of a cadence.
pub open spec fn cadence_name(c: ProductCadence) -> Seq<char> {
    match c {
        ProductCadence::Daily => "daily"@,
        ProductCadence::Monthly => "monthly"@,
    }
}

/// The cadence whose wire name is `s`, if any.
pub open spec fn cadence_named(s: Seq<char>) -> Option<ProductCadence> {
    if s == "daily"@ {
        Some(ProductCadence::Daily)
    } else if s == "monthly"@ {
        Some(ProductCadence::Monthly)
    } else {
        None
    }
}

/// The short names of the products verified for a cadence.
pub open spec fn cadence_products(c: ProductCadence) -> Seq<Seq<char>> {
    match c {
        ProductCadence::Daily => seq!["VNP46A2"@, "VJ146A2"@],
        ProductCadence::Monthly => seq!["VNP46A3"@],
    }
}

impl ProductCadence {
    /// The wire name of this cadence.
    pub fn as_str(self) -> (r: &'static str)
        ensures
            r@ == cadence_name(self),
    {
        match self {
            ProductCadence::Daily => "daily",
            ProductCadence::Monthly => "monthly",
        }
    }

    /// The cadence named `value`.
    pub fn parse(value: &str) -> (r: Option<Self>)
        ensures
            r == cadence_named(value@),
    {
        if str_eq(value, "daily") {
            Some(ProductCadence::Daily)
        } else if str_eq(value, "monthly") {
            Some(ProductCadence::Monthly)
        } else {
            None
        }
    }

    /// The short names of the products verified for this cadence.
    pub fn default_products(self) -> (r: Vec<&'static str>)
        ensures
            r@.map_values(|s: &str| s@) == cadence_products(self),
    {
        let r = match self {
            ProductCadence::Daily => vec!["VNP46A2", "VJ146A2"],
            ProductCadence::Monthly => vec!["VNP46A3"],
        };
        assert(r@.map_values(|s: &str| s@) =~= cadence_products(self));
        r
    }
}

/// A VIIRS product that the processing service accepts.
#[derive(Debug, Clone, Copy, PartialEq, Eq, Structural)]
pub enum ProcessingProduct {
    Vnp46A2,
    Vj146A2,
    Vnp46A3,
}

/// The short name of a product.
pub open spec fn product_name(p: ProcessingProduct) -> Seq<char> {
    match p {
        ProcessingProduct::Vnp46A2 => "VNP46A2"@,
        ProcessingProduct::Vj146A2 => "VJ146A2"@,
        ProcessingProduct::Vnp46A3 => "VNP46A3"@,
    }
}

/// The product whose short name is `s`, if any.
pub open spec fn product_named(s: Seq<char>) -> Option<ProcessingProduct> {
    if s == "VNP46A2"@ {
        Some(ProcessingProduct::Vnp46A2)
    } else if s == "VJ146A2"@ {
        Some(ProcessingProduct::Vj146A2)
    } else if s == "VNP46A3"@ {
        Some(ProcessingProduct::Vnp46A3)
    } else {
        None
    }
}

/// The cadence of a product.
pub open spec fn product_cadence_of(p: ProcessingProduct) -> ProductCadence {
    match p {
        ProcessingProduct::Vnp46A3 => ProductCadence::Monthly,
        _ => ProductCadence::Daily,
    }
}

impl ProcessingProduct {
    /// The short name of this product.
    pub fn as_str(self) -> (r: &'static str)
        ensures
            r@ == product_name(self),
    {
        match self {
            ProcessingProduct::Vnp46A2 => "VNP46A2",
            ProcessingProduct::Vj146A2 => "VJ146A2",
            ProcessingProduct::Vnp46A3 => "VNP46A3",
        }
    }

    /// The product named `product`; any other name is unsupported.
    pub fn parse(product: &str) -> (r: Result<Self, ProcessingMessageValidationError>)
        ensures
            match product_named(product@) {
                Some(p) => r == Ok::<Self, ProcessingMessageValidationError>(p),
                None => r matches Err(ProcessingMessageValidationError::UnsupportedProduct(name))
                    && name@ == product@,
            },
    {
        if str_eq(product, "VNP46A2") {
            Ok(ProcessingProduct::Vnp46A2)
        } else if str_eq(product, "VJ146A2") {
            Ok(ProcessingProduct::Vj146A2)
        } else if str_eq(product, "VNP46A3") {
            Ok(ProcessingProduct::Vnp46A3)
        } else {
            Err(ProcessingMessageValidationError::UnsupportedProduct(owned(product)))
        }
    }
}

/// A product together with its cadence and verification status.
#[derive(Debug, Clone, Copy, PartialEq, Eq)]
pub struct ProductDefinition {
    pub product: ProcessingProduct,
    pub short_name: &'static str,
    pub cadence: ProductCadence,
    pub science_mapping_verified: bool,
}

/// The definition of the product named `short_name`, if it is supported.
pub fn product_definition(short_name: &str) -> (r: Option<ProductDefinition>)
    ensures
        match product_named(short_name@) {
            Some(p) => r matches Some(d) && d.product == p && d.short_name@ == product_name(p)
                && d.cadence == product_cadence_of(p) && d.science_mapping_verified,
            None => r is None,
        },
{
    match ProcessingProduct::parse(short_name) {
        Ok(product) => Some(
            ProductDefinition {
                product,
                short_name: product.as_str(),
                cadence: match product {
                    ProcessingProduct::Vnp46A3 => ProductCadence::Monthly,
                    _ => ProductCadence::Daily,
                },
                science_mapping_verified: true,
            },
        ),
        Err(_) => None,
    }
}

/// Why a processing message was refused.
#[derive(Debug, Clone, PartialEq, Eq)]
pub enum ProcessingMessageValidationError {
    InvalidBlobPath(String),
    InvalidJson(String),
    MissingTileInBlobPath(String),
    TileMismatch { blob_tile_h: i16, blob_tile_v: i16, message_tile_h: i16, message_tile_v: i16 },
    UnsupportedProduct(String),
}

/// A UTC timestamp held as its calendar fields.
#[derive(Debug, Clone, Copy, PartialEq, Eq, Structural)]
pub struct UtcDateTime {
    pub year: i32,
    pub month: u32,
    pub day: u32,
    pub hour: u32,
    pub minute: u32,
    pub second: u32,
    pub nanosecond: u32,
}

/// A validated processing-queue message.
#[derive(Debug, Clone, PartialEq, Eq)]
pub struct ProcessingMessage {
    pub ingest_id: u128,
    pub blob_path: String,
    pub product: String,
    pub granule_date: UtcDateTime,
    pub tile_h: i16,
    pub tile_v: i16,
}

/// A blob path is refused when it is empty, absolute, URL-based, or carries
/// the raw container prefix.
pub open spec fn blob_path_invalid(p: Seq<char>) -> bool {
    ||| p.len() == 0
    ||| has_prefix(p, "/"@)
    ||| has_prefix(p, "http://"@)
    ||| has_prefix(p, "https://"@)
    ||| has_prefix(p, "raw-viirs/"@)
}

/// Whether a path is a URL: it begins with `http://` or `https://`.
pub open spec fn url_based(p: Seq<char>) -> bool {
    ||| p.len() >= 7 && p.subrange(0, 7) == "http://"@
    ||| p.len() >= 8 && p.subrange(0, 8) == "https://"@
}

/// A blob path is relative to the raw container: a URL (`http://` or
/// `https://`), an absolute path, an empty path or one that repeats the
/// container name is never a valid blob path.
pub proof fn lemma_url_blob_paths_refused(p: Seq<char>)
    ensures
        url_based(p) ==> blob_path_invalid(p),
        p.len() == 0 ==> blob_path_invalid(p),
        p.len() > 0 && p[0] == '/' ==> blob_path_invalid(p),
        p.len() >= 10 && p.subrange(0, 10) == "raw-viirs/"@ ==> blob_path_invalid(p),
{
    reveal_strlit("http://");
    reveal_strlit("https://");
    reveal_strlit("/");
    reveal_strlit("raw-viirs/");
    if p.len() > 0 && p[0] == '/' {
        assert(p.subrange(0, 1) =~= "/"@);
    }
}

/// A tile marker `hXXvYY` starts at index `i` of `s`.
pub open spec fn tile_marker_at(s: Seq<char>, i: int) -> bool {
    &&& 0 <= i
    &&& i + 6 <= s.len()
    &&& s[i] == 'h'
    &&& s[i + 3] == 'v'
    &&& crate::text::is_digit(s[i + 1])
    &&& crate::text::is_digit(s[i + 2])
    &&& crate::text::is_digit(s[i + 4])
    &&& crate::text::is_digit(s[i + 5])
}

/// The number written by two ASCII digits.
pub open spec fn two_digit_value(tens: char, ones: char) -> int {
    (crate::text::digit_value(tens) * 10 + crate::text::digit_value(ones)) as int
}

/// The tile of the first marker at or after index `i`.
pub open spec fn first_tile_from(s: Seq<char>, i: int) -> Option<(i16, i16)>
    decreases s.len() - i,
{
    if i < 0 || i + 6 > s.len() {
        None
    } else if tile_marker_at(s, i) {
        Some(
            (
                two_digit_value(s[i + 1], s[i + 2]) as i16,
                two_digit_value(s[i + 4], s[i + 5]) as i16,
            ),
        )
    } else {
        first_tile_from(s, i + 1)
    }
}

/// The tile of the first `hXXvYY` marker in a path.
pub open spec fn first_tile(s: Seq<char>) -> Option<(i16, i16)> {
    first_tile_from(s, 0)
}

/// Refuses a blob path that is empty, absolute, URL-based, or prefixed with
/// the raw container name.
pub fn validate_blob_path(path: &str) -> (r: Result<(), ProcessingMessageValidationError>)
    ensures
        r is Ok <==> !blob_path_invalid(path@),
        r matches Err(e) ==> e matches ProcessingMessageValidationError::InvalidBlobPath(p)
            && p@ == path@,
        url_based(path@) ==> r is Err,
{
    proof {
        lemma_url_blob_paths_refused(path@);
    }
    let cs = chars_of(path);
    let invalid = cs.len() == 0 || starts_with(&cs, &chars_of("/")) || starts_with(
        &cs,
        &chars_of("http://"),
    ) || starts_with(&cs, &chars_of("https://")) || starts_with(&cs, &chars_of("raw-viirs/"));
    if invalid {
        return Err(ProcessingMessageValidationError::InvalidBlobPath(owned(path)));
    }
    Ok(())
}

/// Refuses a product that is not supported.
pub fn validate_product(product: &str) -> (r: Result<(), ProcessingMessageValidationError>)
    ensures
        r is Ok <==> product_named(product@) is Some,
        r matches Err(e) ==> e matches ProcessingMessageValidationError::UnsupportedProduct(p)
            && p@ == product@,
{
    match ProcessingProduct::parse(product) {
        Ok(_) => Ok(()),
        Err(e) => Err(e),
    }
}

/// Whether `c` is an ASCII decimal digit.
pub fn is_ascii_digit(c: char) -> (b: bool)
    ensures
        b == crate::text::is_digit(c),
{
    '0' <= c && c <= '9'
}

/// The number written by two ASCII digits.
pub fn parse_two_digits(tens: char, ones: char) -> (r: i16)
    requires
        crate::text::is_digit(tens),
        crate::text::is_digit(ones),
    ensures
        r as int == two_digit_value(tens, ones),
{
    let t = (tens as u32 - 48) as i16;
    let o = (ones as u32 - 48) as i16;
    t * 10 + o
}

/// The tile of the first `hXXvYY` marker in `path`.
pub fn parse_first_tile(path: &str) -> (r: Option<(i16, i16)>)
    ensures
        r == first_tile(path@),
{
    let s = chars_of(path);
    let mut i: usize = 0;
    while i < s.len() && s.len() - i >= 6
        invariant
            s@ == path@,
            first_tile(s@) == first_tile_from(s@, i as int),
        decreases s.len() - i,
    {
        if s[i] == 'h' && s[i + 3] == 'v' && is_ascii_digit(s[i + 1]) && is_ascii_digit(s[i + 2])
            && is_ascii_digit(s[i + 4]) && is_ascii_digit(s[i + 5]) {
            let tile_h = parse_two_digits(s[i + 1], s[i + 2]);
            let tile_v = parse_two_digits(s[i + 4], s[i + 5]);
            return Some((tile_h, tile_v));
        }
        i += 1;
    }
    None
}

impl ProcessingMessage {
    /// Validates and builds a processing message: the blob path must be
    /// relative, the product supported, and the path's first `hXXvYY` marker
    /// must name the message's tile.
    pub fn new(
        ingest_id: u128,
        blob_path: String,
        product: String,
        granule_date: UtcDateTime,
        tile_h: i16,
        tile_v: i16,
    ) -> (r: Result<Self, ProcessingMessageValidationError>)
        ensures
            match r {
                Ok(m) => {
                    &&& !blob_path_invalid(blob_path@)
                    &&& product_named(product@) is Some
                    &&& first_tile(blob_path@) == Some((tile_h, tile_v))
                    &&& m.ingest_id == ingest_id
                    &&& m.blob_path@ == blob_path@
                    &&& m.product@ == product@
                    &&& m.granule_date == granule_date
                    &&& m.tile_h == tile_h
                    &&& m.tile_v == tile_v
                },
                Err(ProcessingMessageValidationError::InvalidBlobPath(p)) => {
                    &&& blob_path_invalid(blob_path@)
                    &&& p@ == blob_path@
                },
                Err(ProcessingMessageValidationError::UnsupportedProduct(p)) => {
                    &&& !blob_path_invalid(blob_path@)
                    &&& product_named(product@) is None
                    &&& p@ == product@
                },
                Err(ProcessingMessageValidationError::MissingTileInBlobPath(p)) => {
                    &&& !blob_path_invalid(blob_path@)
                    &&& product_named(product@) is Some
                    &&& first_tile(blob_path@) is None
                    &&& p@ == blob_path@
                },
                Err(
                    ProcessingMessageValidationError::TileMismatch {
                        blob_tile_h,
                        blob_tile_v,
                        message_tile_h,
                        message_tile_v,
                    },
                ) => {
                    &&& !blob_path_invalid(blob_path@)
                    &&& product_named(product@) is Some
                    &&& first_tile(blob_path@) == Some((blob_tile_h, blob_tile_v))
                    &&& (blob_tile_h != tile_h || blob_tile_v != tile_v)
                    &&& message_tile_h == tile_h
                    &&& message_tile_v == tile_v
                },
                Err(ProcessingMessageValidationError::InvalidJson(_)) => false,
            },
    {
        validate_blob_path(blob_path.as_str())?;
        validate_product(product.as_str())?;
        let (blob_tile_h, blob_tile_v) = match parse_first_tile(blob_path.as_str()) {
            Some(t) => t,
            None => {
                return Err(ProcessingMessageValidationError::MissingTileInBlobPath(blob_path));
            },
        };
        if blob_tile_h != tile_h || blob_tile_v != tile_v {
            return Err(
                ProcessingMessageValidationError::TileMismatch {
                    blob_tile_h,
                    blob_tile_v,
                    message_tile_h: tile_h,
                    message_tile_v: tile_v,
                },
            );
        }
        Ok(ProcessingMessage { ingest_id, blob_path, product, granule_date, tile_h, tile_v })
    }

    /// The typed product of this message.
    pub fn product_kind(&self) -> (r: Result<ProcessingProduct, ProcessingMessageValidationError>)
        ensures
            match product_named(self.product@) {
                Some(p) => r == Ok::<ProcessingProduct, ProcessingMessageValidationError>(p),
                None => r matches Err(ProcessingMessageValidationError::UnsupportedProduct(name))
                    && name@ == self.product@,
            },
    {
        ProcessingProduct::parse(self.product.as_str())
    }
}

/// Reading a product's short name back gives the product.
pub proof fn lemma_product_name_roundtrip(p: ProcessingProduct)
    ensures
        product_named(product_name(p)) == Some(p),
{
    reveal_strlit("VNP46A2");
    reveal_strlit("VJ146A2");
    reveal_strlit("VNP46A3");
    assert("VJ146A2"@[1] != "VNP46A2"@[1]);
    assert("VNP46A3"@[6] != "VNP46A2"@[6]);
    assert("VNP46A3"@[1] != "VJ146A2"@[1]);
}

/// Reading a cadence's wire name back gives the cadence.
pub proof fn lemma_cadence_name_roundtrip(c: ProductCadence)
    ensures
        cadence_named(cadence_name(c)) == Some(c),
{
    reveal_strlit("daily");
    reveal_strlit("monthly");
    assert("monthly"@.len() != "daily"@.len());
}

/// The message of a processing-message validation error.
pub open spec fn validation_error_text(e: ProcessingMessageValidationError) -> Seq<char> {
    match e {
        ProcessingMessageValidationError::InvalidBlobPath(path) =>
            "invalid processing message blob_path '"@ + path@
            + "': must be relative to raw-viirs and must not be absolute, URL-based, or prefixed with raw-viirs/"@,
        ProcessingMessageValidationError::InvalidJson(detail) =>
            "invalid processing message JSON: "@ + detail@,
        ProcessingMessageValidationError::MissingTileInBlobPath(path) =>
            "processing message blob_path '"@ + path@ + "' does not contain an hXXvYY tile"@,
        ProcessingMessageValidationError::TileMismatch {
            blob_tile_h,
            blob_tile_v,
            message_tile_h,
            message_tile_v,
        } => "processing message tile mismatch: blob path has h"@ + padded(blob_tile_h as int, 2, false)
            + "v"@ + padded(blob_tile_v as int, 2, false) + ", message has h"@ + padded(
            message_tile_h as int,
            2,
            false,
        ) + "v"@ + padded(message_tile_v as int, 2, false),
        ProcessingMessageValidationError::UnsupportedProduct(product) =>
            "unsupported processing message product '"@ + product@ + "'"@,
    }
}

impl ProcessingMessageValidationError {
    /// The message shown for this error.
    pub fn message(&self) -> (r: String)
        ensures
            r@ == validation_error_text(*self),
    {
        let mut out = String::new();
        match self {
            ProcessingMessageValidationError::InvalidBlobPath(path) => {
                push_str(&mut out, "invalid processing message blob_path '");
                push_str(&mut out, path.as_str());
                push_str(
                    &mut out,
                    "': must be relative to raw-viirs and must not be absolute, URL-based, or prefixed with raw-viirs/",
                );
            },
            ProcessingMessageValidationError::InvalidJson(detail) => {
                push_str(&mut out, "invalid processing message JSON: ");
                push_str(&mut out, detail.as_str());
            },
            ProcessingMessageValidationError::MissingTileInBlobPath(path) => {
                push_str(&mut out, "processing message blob_path '");
                push_str(&mut out, path.as_str());
                push_str(&mut out, "' does not contain an hXXvYY tile");
            },
            ProcessingMessageValidationError::TileMismatch {
                blob_tile_h,
                blob_tile_v,
                message_tile_h,
                message_tile_v,
            } => {
                push_str(&mut out, "processing message tile mismatch: blob path has h");
                push_padded(&mut out, *blob_tile_h as i64, 2, false);
                push_str(&mut out, "v");
                push_padded(&mut out, *blob_tile_v as i64, 2, false);
                push_str(&mut out, ", message has h");
                push_padded(&mut out, *message_tile_h as i64, 2, false);
                push_str(&mut out, "v");
                push_padded(&mut out, *message_tile_v as i64, 2, false);
            },
            ProcessingMessageValidationError::UnsupportedProduct(product) => {
                push_str(&mut out, "unsupported processing message product '");
                push_str(&mut out, product.as_str());
                push_str(&mut out, "'");
            },
        }
        assert(out@ =~= validation_error_text(*self));
        out
    }
}

} // verus!
