//! Service configuration read from environment variables.
//!
//! The floating-point settings (`MAX_CLOUD_FRACTION`, `TILE_BOUNDS`) are kept
//! as their text here; their numeric checks arrive as results so that the
//! order in which errors are reported stays the one of the full
//! configuration.
use vstd::prelude::*;

use crate::commands::Command;
use crate::http_retry::RetryConfig;
use crate::text::{
    ascii_lower_chars, ascii_lower_seq, chars_of, chars_eq, dec, owned, parse_unsigned,
    parse_unsigned_dec, push_dec, push_str, split_char, split_seq, string_of, trim, trim_chars,
};

verus! {

/// A required variable that was not set.
#[derive(Debug, Clone, Copy, PartialEq, Eq)]
pub struct MissingVariable {
    pub name: &'static str,
    pub purpose: &'static str,
}

/// Why the configuration could not be loaded.
#[derive(Debug, Clone, PartialEq, Eq)]
pub enum ConfigError {
    InvalidValue { variable: &'static str, value: String, expected: &'static str },
    MissingRequired { variables: Vec<MissingVariable> },
}

/// `e` reports `value` of `variable` as invalid, expecting `expected`.
pub open spec fn invalid_value(
    e: ConfigError,
    variable: Seq<char>,
    value: Seq<char>,
    expected: Seq<char>,
) -> bool {
    e matches ConfigError::InvalidValue { variable: v, value: x, expected: w } && v@ == variable
        && x@ == value && w@ == expected
}

// ---------------------------------------------------------------------------
// Environment lookup
// ---------------------------------------------------------------------------

/// The value of the first entry named `name`.
pub open spec fn env_lookup(env: Seq<(String, String)>, name: Seq<char>) -> Option<Seq<char>>
    decreases env.len(),
{
    if env.len() == 0 {
        None
    } else if env[0].0@ == name {
        Some(env[0].1@)
    } else {
        env_lookup(env.drop_first(), name)
    }
}

/// The value of `name` unless it is unset or blank.
pub open spec fn env_optional(env: Seq<(String, String)>, name: Seq<char>) -> Option<Seq<char>> {
    match env_lookup(env, name) {
        Some(v) => if trim(v).len() > 0 {
            Some(v)
        } else {
            None
        },
        None => None,
    }
}

/// The value of `name`, or `default` when it is unset or blank.
pub open spec fn env_or(env: Seq<(String, String)>, name: Seq<char>, default: Seq<char>) -> Seq<char> {
    match env_optional(env, name) {
        Some(v) => v,
        None => default,
    }
}

/// The value of the first entry named `name`.
pub fn lookup(env: &Vec<(String, String)>, name: &str) -> (r: Option<String>)
    ensures
        match r {
            Some(v) => env_lookup(env@, name@) == Some(v@),
            None => env_lookup(env@, name@) is None,
        },
{
    let mut i: usize = 0;
    assert(env@.subrange(0, env@.len() as int) == env@);
    while i < env.len()
        invariant
            i <= env.len(),
            env_lookup(env@, name@) == env_lookup(env@.subrange(i as int, env@.len() as int), name@),
        decreases env.len() - i,
    {
        assert(env@.subrange(i as int, env@.len() as int).drop_first() == env@.subrange(
            i + 1,
            env@.len() as int,
        ));
        if crate::text::str_eq(env[i].0.as_str(), name) {
            return Some(owned(env[i].1.as_str()));
        }
        i += 1;
    }
    None
}

/// The value of `name` unless it is unset or blank.
pub fn read_optional(env: &Vec<(String, String)>, name: &str) -> (r: Option<String>)
    ensures
        match r {
            Some(v) => env_optional(env@, name@) == Some(v@),
            None => env_optional(env@, name@) is None,
        },
{
    match lookup(env, name) {
        Some(v) => {
            if crate::text::is_blank(v.as_str()) {
                None
            } else {
                Some(v)
            }
        },
        None => None,
    }
}

/// The value of `name`, or `default` when it is unset or blank.
pub fn optional_or_default(env: &Vec<(String, String)>, name: &str, default: String) -> (r: String)
    ensures
        r@ == env_or(env@, name@, default@),
{
    match read_optional(env, name) {
        Some(v) => v,
        None => default,
    }
}

/// Reads a required variable; when it is unset or blank it is recorded in
/// `missing`.
pub fn read_required(
    env: &Vec<(String, String)>,
    name: &'static str,
    purpose: &'static str,
    missing: &mut Vec<MissingVariable>,
) -> (r: Option<String>)
    ensures
        match r {
            Some(v) => env_optional(env@, name@) == Some(v@) && final(missing)@ == old(missing)@,
            None => env_optional(env@, name@) is None && final(missing)@ == old(missing)@.push(
                MissingVariable { name, purpose },
            ),
        },
{
    match read_optional(env, name) {
        Some(v) => Some(v),
        None => {
            missing.push(MissingVariable { name, purpose });
            None
        },
    }
}

// ---------------------------------------------------------------------------
// Value parsers
// ---------------------------------------------------------------------------

/// A positive integer of at most `max`, or the expectation it fails.
pub open spec fn positive_outcome(text: Seq<char>, max: nat) -> Result<nat, Seq<char>> {
    match parse_unsigned(text, max) {
        None => Err("must be a positive integer"@),
        Some(n) => if n == 0 {
            Err("must be greater than zero"@)
        } else {
            Ok(n)
        },
    }
}

/// A positive integer of at most `bound` (itself at most `max`).
pub open spec fn bounded_outcome(text: Seq<char>, max: nat, bound: nat) -> Result<nat, Seq<char>> {
    match positive_outcome(text, max) {
        Ok(n) => if n > bound {
            Err("must be within the allowed range"@)
        } else {
            Ok(n)
        },
        Err(e) => Err(e),
    }
}

/// A non-negative integer of at most `max`.
pub open spec fn natural_outcome(text: Seq<char>, max: nat) -> Result<nat, Seq<char>> {
    match parse_unsigned(text, max) {
        None => Err("must be a non-negative integer"@),
        Some(n) => Ok(n),
    }
}

/// An integer in `min..=max` that fits a `u8`.
pub open spec fn u8_range_outcome(text: Seq<char>, min: nat, max: nat) -> Result<nat, Seq<char>> {
    match parse_unsigned(text, u8::MAX as nat) {
        None => Err("must be an integer within the allowed range"@),
        Some(n) => if n < min || n > max {
            Err("must be within the allowed range"@)
        } else {
            Ok(n)
        },
    }
}

/// `r` is `Ok(n)` or the invalid-value error that `outcome` describes.
pub open spec fn parsed_as<T>(
    r: Result<T, ConfigError>,
    outcome: Result<nat, Seq<char>>,
    variable: Seq<char>,
    value: Seq<char>,
    as_nat: spec_fn(T) -> nat,
) -> bool {
    match outcome {
        Ok(n) => r matches Ok(v) && as_nat(v) == n,
        Err(expected) => r matches Err(e) && invalid_value(e, variable, value, expected),
    }
}

fn invalid(variable: &'static str, value: String, expected: &'static str) -> (e: ConfigError)
    ensures
        invalid_value(e, variable@, value@, expected@),
{
    ConfigError::InvalidValue { variable, value, expected }
}

/// A positive `u64`.
pub fn parse_positive_u64(variable: &'static str, value: String) -> (r: Result<u64, ConfigError>)
    ensures
        parsed_as(r, positive_outcome(value@, u64::MAX as nat), variable@, value@, |v: u64| v as nat),
{
    let cs = chars_of(value.as_str());
    match parse_unsigned_dec(&cs, u64::MAX) {
        None => Err(invalid(variable, value, "must be a positive integer")),
        Some(n) => {
            if n == 0 {
                Err(invalid(variable, value, "must be greater than zero"))
            } else {
                Ok(n)
            }
        },
    }
}

/// A positive `u32`.
pub fn parse_positive_u32(variable: &'static str, value: String) -> (r: Result<u32, ConfigError>)
    ensures
        parsed_as(r, positive_outcome(value@, u32::MAX as nat), variable@, value@, |v: u32| v as nat),
{
    let cs = chars_of(value.as_str());
    match parse_unsigned_dec(&cs, u32::MAX as u64) {
        None => Err(invalid(variable, value, "must be a positive integer")),
        Some(n) => {
            if n == 0 {
                Err(invalid(variable, value, "must be greater than zero"))
            } else {
                Ok(n as u32)
            }
        },
    }
}

/// A positive `u32` of at most `max`.
pub fn parse_positive_u32_at_most(variable: &'static str, value: String, max: u32) -> (r: Result<
    u32,
    ConfigError,
>)
    ensures
        parsed_as(
            r,
            bounded_outcome(value@, u32::MAX as nat, max as nat),
            variable@,
            value@,
            |v: u32| v as nat,
        ),
{
    let copy = string_of(&chars_of(value.as_str()));
    let parsed = parse_positive_u32(variable, copy)?;
    if parsed > max {
        return Err(invalid(variable, value, "must be within the allowed range"));
    }
    Ok(parsed)
}

/// A `u32`, zero allowed.
pub fn parse_u32_allow_zero(variable: &'static str, value: String) -> (r: Result<u32, ConfigError>)
    ensures
        parsed_as(r, natural_outcome(value@, u32::MAX as nat), variable@, value@, |v: u32| v as nat),
{
    let cs = chars_of(value.as_str());
    match parse_unsigned_dec(&cs, u32::MAX as u64) {
        None => Err(invalid(variable, value, "must be a non-negative integer")),
        Some(n) => Ok(n as u32),
    }
}

/// A positive `usize`.
pub fn parse_positive_usize(variable: &'static str, value: String) -> (r: Result<usize, ConfigError>)
    ensures
        parsed_as(
            r,
            positive_outcome(value@, usize::MAX as nat),
            variable@,
            value@,
            |v: usize| v as nat,
        ),
{
    let cs = chars_of(value.as_str());
    let max: u64 = if usize::MAX as u64 <= u64::MAX {
        usize::MAX as u64
    } else {
        u64::MAX
    };
    match parse_unsigned_dec(&cs, max) {
        None => Err(invalid(variable, value, "must be a positive integer")),
        Some(n) => {
            if n == 0 {
                Err(invalid(variable, value, "must be greater than zero"))
            } else {
                Ok(n as usize)
            }
        },
    }
}

/// A positive `u16`.
pub fn parse_positive_u16(variable: &'static str, value: String) -> (r: Result<u16, ConfigError>)
    ensures
        parsed_as(r, positive_outcome(value@, u16::MAX as nat), variable@, value@, |v: u16| v as nat),
{
    let cs = chars_of(value.as_str());
    match parse_unsigned_dec(&cs, u16::MAX as u64) {
        None => Err(invalid(variable, value, "must be a positive integer")),
        Some(n) => {
            if n == 0 {
                Err(invalid(variable, value, "must be greater than zero"))
            } else {
                Ok(n as u16)
            }
        },
    }
}

/// A `u8` within `min..=max`.
pub fn parse_u8_range(variable: &'static str, value: String, min: u8, max: u8) -> (r: Result<
    u8,
    ConfigError,
>)
    ensures
        parsed_as(
            r,
            u8_range_outcome(value@, min as nat, max as nat),
            variable@,
            value@,
            |v: u8| v as nat,
        ),
{
    let cs = chars_of(value.as_str());
    match parse_unsigned_dec(&cs, u8::MAX as u64) {
        None => Err(invalid(variable, value, "must be an integer within the allowed range")),
        Some(n) => {
            if n < min as u64 || n > max as u64 {
                Err(invalid(variable, value, "must be within the allowed range"))
            } else {
                Ok(n as u8)
            }
        },
    }
}

/// The tile format text after trimming and lowercasing.
pub open spec fn normalized_format(text: Seq<char>) -> Seq<char> {
    ascii_lower_seq(trim(text))
}

/// Accepts only the PNG tile format, in any case and with surrounding
/// whitespace; the result is the normalized `png`.
pub fn parse_tile_format(value: String) -> (r: Result<String, ConfigError>)
    ensures
        normalized_format(value@) == "png"@ ==> (r matches Ok(f) && f@ == "png"@),
        normalized_format(value@) != "png"@ ==> (r matches Err(e) && invalid_value(
            e,
            "TILE_FORMAT"@,
            value@,
            "must be 'png'"@,
        )),
{
    let cs = chars_of(value.as_str());
    let normalized = ascii_lower_chars(&trim_chars(&cs));
    if !chars_eq(&normalized, &chars_of("png")) {
        return Err(invalid("TILE_FORMAT", value, "must be 'png'"));
    }
    Ok(string_of(&normalized))
}

/// `s` without trailing `c` characters (`trim_end_matches`).
pub open spec fn strip_trailing(s: Seq<char>, c: char) -> Seq<char>
    decreases s.len(),
{
    if s.len() > 0 && s.last() == c {
        strip_trailing(s.drop_last(), c)
    } else {
        s
    }
}

/// `s` without trailing `c` characters.
pub fn trim_end_char(s: &str, c: char) -> (r: String)
    ensures
        r@ == strip_trailing(s@, c),
{
    let cs = chars_of(s);
    let mut end = cs.len();
    assert(cs@.take(end as int) == cs@);
    while end > 0 && cs[end - 1] == c
        invariant
            end <= cs.len(),
            strip_trailing(cs@, c) == strip_trailing(cs@.take(end as int), c),
        decreases end,
    {
        assert(cs@.take(end as int).drop_last() == cs@.take(end - 1));
        end -= 1;
    }
    let mut out: Vec<char> = Vec::new();
    let mut i: usize = 0;
    while i < end
        invariant
            i <= end <= cs.len(),
            out@ == cs@.take(i as int),
        decreases end - i,
    {
        out.push(cs[i]);
        assert(cs@.take(i + 1) == cs@.take(i as int).push(cs@[i as int]));
        i += 1;
    }
    assert(strip_trailing(cs@.take(end as int), c) == cs@.take(end as int));
    string_of(&out)
}

// ---------------------------------------------------------------------------
// The whole configuration
// ---------------------------------------------------------------------------

/// The integer and text settings of the service. `max_cloud_fraction_text`
/// and `tile_bounds_text` hold the raw values of the floating-point
/// settings, whose checks were passed in.
#[derive(Debug, Clone, PartialEq, Eq)]
pub struct AppConfig {
    pub rust_log: String,
    pub database_url: String,
    pub azure_storage_account: String,
    pub azure_storage_access_key: String,
    pub azure_storage_emulator_host: Option<String>,
    pub azure_queue_name: String,
    pub azure_deadletter_queue_name: String,
    pub raw_viirs_container: String,
    pub processed_tiles_container: String,
    pub max_cloud_fraction_text: String,
    pub processing_visibility_timeout_seconds: u64,
    pub processing_max_dequeue_count: u32,
    pub processing_max_parallelism: usize,
    pub http_request_timeout_seconds: u64,
    pub http_retry: RetryConfig,
    pub tile_min_zoom: u8,
    pub tile_max_native_zoom: u8,
    pub tile_max_display_zoom: u8,
    pub tile_size: u16,
    pub tile_format: String,
    pub tile_classification_version: String,
    pub tile_render_version: String,
    pub tile_cdn_base_url: String,
    pub tile_bounds_text: String,
    pub tile_immutable_cache_control: String,
    pub tile_latest_cache_control: String,
    pub raw_granule_retention_days: u32,
    pub processed_tile_set_retention_days: u32,
    pub retention_protected_prior_tile_sets: u32,
    pub retention_batch_limit: u32,
    pub retention_tile_blob_limit: u32,
}

/// The upper bound on tile blobs listed per tile set.
pub const MAX_RETENTION_TILE_BLOB_LIMIT: u32 = 5_000;

/// The raw text of `MAX_CLOUD_FRACTION`, defaulted.
pub open spec fn cloud_fraction_text(env: Seq<(String, String)>) -> Seq<char> {
    env_or(env, "MAX_CLOUD_FRACTION"@, "0.4"@)
}

/// The raw text of `TILE_BOUNDS`, defaulted.
pub open spec fn tile_bounds_text(env: Seq<(String, String)>) -> Seq<char> {
    env_or(env, "TILE_BOUNDS"@, "-125,24,-66,50"@)
}

/// The text of `MAX_CLOUD_FRACTION` (default `0.4`), to be parsed as a
/// number by the caller.
pub fn max_cloud_fraction_text(env: &Vec<(String, String)>) -> (r: String)
    ensures
        r@ == cloud_fraction_text(env@),
{
    optional_or_default(env, "MAX_CLOUD_FRACTION", owned("0.4"))
}

/// The text of `TILE_BOUNDS` (default `-125,24,-66,50`), to be parsed as
/// numbers by the caller.
pub fn tile_bounds_value(env: &Vec<(String, String)>) -> (r: String)
    ensures
        r@ == tile_bounds_text(env@),
{
    optional_or_default(env, "TILE_BOUNDS", owned("-125,24,-66,50"))
}

/// The four trimmed comma-separated parts of a `TILE_BOUNDS` value
/// (`west,south,east,north`), whose numbers the caller reads.
pub fn tile_bounds_parts(value: &str) -> (r: Result<Vec<String>, ConfigError>)
    ensures
        split_seq(value@, ',').len() == 4 ==> (r matches Ok(parts) && parts@.map_values(
            |p: String| p@,
        ) == split_seq(value@, ',').map_values(|p: Seq<char>| trim(p))),
        split_seq(value@, ',').len() != 4 ==> (r matches Err(e) && invalid_value(
            e,
            "TILE_BOUNDS"@,
            value@,
            "must use west,south,east,north"@,
        )),
{
    let pieces = split_char(value, ',');
    if pieces.len() != 4 {
        return Err(invalid("TILE_BOUNDS", owned(value), "must use west,south,east,north"));
    }
    let mut parts: Vec<String> = Vec::new();
    let mut i: usize = 0;
    while i < pieces.len()
        invariant
            i <= pieces@.len(),
            pieces@.len() == 4,
            pieces@.map_values(|p: Vec<char>| p@) == split_seq(value@, ','),
            parts@.map_values(|s: String| s@) == pieces@.take(i as int).map_values(
                |p: Vec<char>| trim(p@),
            ),
        decreases pieces@.len() - i,
    {
        let t = trim_chars(&pieces[i]);
        let ghost before = parts@.map_values(|s: String| s@);
        parts.push(string_of(&t));
        proof {
            assert(pieces@.take(i + 1).map_values(|p: Vec<char>| trim(p@)) =~= pieces@.take(
                i as int,
            ).map_values(|p: Vec<char>| trim(p@)).push(trim(pieces@[i as int]@)));
            assert(parts@.map_values(|s: String| s@) =~= before.push(trim(pieces@[i as int]@)));
        }
        i = i + 1;
    }
    assert(pieces@.take(4) =~= pieces@);
    assert(pieces@.map_values(|p: Vec<char>| trim(p@)) =~= split_seq(value@, ',').map_values(
        |p: Seq<char>| trim(p),
    ));
    Ok(parts)
}

/// One integer setting: its variable, its text (defaulted), and its outcome.
pub open spec fn setting(env: Seq<(String, String)>, name: Seq<char>, default: Seq<char>) -> Seq<char> {
    env_or(env, name, default)
}

/// The first error that loading the configuration reports once the
/// required variables are present, as (variable, value, expected).
pub open spec fn first_config_error(
    env: Seq<(String, String)>,
    cloud_error: Option<(Seq<char>, Seq<char>, Seq<char>)>,
    bounds_error: Option<(Seq<char>, Seq<char>, Seq<char>)>,
) -> Option<(Seq<char>, Seq<char>, Seq<char>)> {
    let min_text = setting(env, "TILE_MIN_ZOOM"@, "3"@);
    let min_out = u8_range_outcome(min_text, 0, 22);
    let native_text = setting(env, "TILE_MAX_NATIVE_ZOOM"@, "10"@);
    let display_text = setting(env, "TILE_MAX_DISPLAY_ZOOM"@, "12"@);
    let vis_text = setting(env, "PROCESSING_VISIBILITY_TIMEOUT_SECONDS"@, "900"@);
    let deq_text = setting(env, "PROCESSING_MAX_DEQUEUE_COUNT"@, "5"@);
    let par_text = setting(env, "PROCESSING_MAX_PARALLELISM"@, "1"@);
    let timeout_text = setting(env, "HTTP_REQUEST_TIMEOUT_SECONDS"@, "30"@);
    let attempts_text = setting(env, "HTTP_RETRY_MAX_ATTEMPTS"@, "3"@);
    let base_text = setting(env, "HTTP_RETRY_BASE_DELAY_MS"@, "250"@);
    let max_text = setting(env, "HTTP_RETRY_MAX_DELAY_MS"@, "5000"@);
    let size_text = setting(env, "TILE_SIZE"@, "256"@);
    let format_text = setting(env, "TILE_FORMAT"@, "png"@);
    let raw_text = setting(env, "RAW_GRANULE_RETENTION_DAYS"@, "90"@);
    let processed_text = setting(env, "PROCESSED_TILE_SET_RETENTION_DAYS"@, "180"@);
    let protected_text = setting(env, "RETENTION_PROTECTED_PRIOR_TILE_SETS"@, "2"@);
    let batch_text = setting(env, "RETENTION_BATCH_LIMIT"@, "500"@);
    let blob_text = setting(env, "RETENTION_TILE_BLOB_LIMIT"@, "5000"@);
    if let Err(e) = min_out {
        Some(("TILE_MIN_ZOOM"@, min_text, e))
    } else if let Err(e) = u8_range_outcome(native_text, min_out->Ok_0, 22) {
        Some(("TILE_MAX_NATIVE_ZOOM"@, native_text, e))
    } else if let Err(e) = u8_range_outcome(
        display_text,
        u8_range_outcome(native_text, min_out->Ok_0, 22)->Ok_0,
        22,
    ) {
        Some(("TILE_MAX_DISPLAY_ZOOM"@, display_text, e))
    } else if cloud_error is Some {
        cloud_error
    } else if let Err(e) = positive_outcome(vis_text, u64::MAX as nat) {
        Some(("PROCESSING_VISIBILITY_TIMEOUT_SECONDS"@, vis_text, e))
    } else if let Err(e) = positive_outcome(deq_text, u32::MAX as nat) {
        Some(("PROCESSING_MAX_DEQUEUE_COUNT"@, deq_text, e))
    } else if let Err(e) = positive_outcome(par_text, usize::MAX as nat) {
        Some(("PROCESSING_MAX_PARALLELISM"@, par_text, e))
    } else if let Err(e) = positive_outcome(timeout_text, u64::MAX as nat) {
        Some(("HTTP_REQUEST_TIMEOUT_SECONDS"@, timeout_text, e))
    } else if let Err(e) = positive_outcome(attempts_text, u32::MAX as nat) {
        Some(("HTTP_RETRY_MAX_ATTEMPTS"@, attempts_text, e))
    } else if let Err(e) = positive_outcome(base_text, u64::MAX as nat) {
        Some(("HTTP_RETRY_BASE_DELAY_MS"@, base_text, e))
    } else if let Err(e) = positive_outcome(max_text, u64::MAX as nat) {
        Some(("HTTP_RETRY_MAX_DELAY_MS"@, max_text, e))
    } else if positive_outcome(base_text, u64::MAX as nat)->Ok_0 > positive_outcome(
        max_text,
        u64::MAX as nat,
    )->Ok_0 {
        Some(
            (
                "HTTP_RETRY_BASE_DELAY_MS"@,
                dec(positive_outcome(base_text, u64::MAX as nat)->Ok_0),
                "must be less than or equal to HTTP_RETRY_MAX_DELAY_MS"@,
            ),
        )
    } else if let Err(e) = positive_outcome(size_text, u16::MAX as nat) {
        Some(("TILE_SIZE"@, size_text, e))
    } else if normalized_format(format_text) != "png"@ {
        Some(("TILE_FORMAT"@, format_text, "must be 'png'"@))
    } else if bounds_error is Some {
        bounds_error
    } else if let Err(e) = positive_outcome(raw_text, u32::MAX as nat) {
        Some(("RAW_GRANULE_RETENTION_DAYS"@, raw_text, e))
    } else if let Err(e) = positive_outcome(processed_text, u32::MAX as nat) {
        Some(("PROCESSED_TILE_SET_RETENTION_DAYS"@, processed_text, e))
    } else if let Err(e) = natural_outcome(protected_text, u32::MAX as nat) {
        Some(("RETENTION_PROTECTED_PRIOR_TILE_SETS"@, protected_text, e))
    } else if let Err(e) = positive_outcome(batch_text, u32::MAX as nat) {
        Some(("RETENTION_BATCH_LIMIT"@, batch_text, e))
    } else if let Err(e) = bounded_outcome(
        blob_text,
        u32::MAX as nat,
        MAX_RETENTION_TILE_BLOB_LIMIT as nat,
    ) {
        Some(("RETENTION_TILE_BLOB_LIMIT"@, blob_text, e))
    } else {
        None
    }
}

/// The required variables that are unset or blank, in order.
pub open spec fn missing_required(env: Seq<(String, String)>) -> Seq<Seq<char>> {
    let a = if env_optional(env, "DATABASE_URL"@) is None {
        seq!["DATABASE_URL"@]
    } else {
        Seq::empty()
    };
    let b = if env_optional(env, "AZURE_STORAGE_ACCOUNT"@) is None {
        seq!["AZURE_STORAGE_ACCOUNT"@]
    } else {
        Seq::empty()
    };
    let c = if env_optional(env, "AZURE_STORAGE_ACCESS_KEY"@) is None {
        seq!["AZURE_STORAGE_ACCESS_KEY"@]
    } else {
        Seq::empty()
    };
    a + b + c
}

/// The error reported by a numeric check of a floating-point setting, as
/// (variable, value, expected).
pub open spec fn check_error(check: Result<(), ConfigError>) -> Option<(Seq<char>, Seq<char>, Seq<char>)> {
    match check {
        Err(ConfigError::InvalidValue { variable, value, expected }) => Some(
            (variable@, value@, expected@),
        ),
        _ => None,
    }
}

/// The fields of a loaded configuration.
pub open spec fn loaded_from(c: AppConfig, env: Seq<(String, String)>) -> bool {
    &&& c.rust_log@ == env_or(env, "RUST_LOG"@, "processing_svc=info"@)
    &&& env_optional(env, "DATABASE_URL"@) == Some(c.database_url@)
    &&& env_optional(env, "AZURE_STORAGE_ACCOUNT"@) == Some(c.azure_storage_account@)
    &&& env_optional(env, "AZURE_STORAGE_ACCESS_KEY"@) == Some(c.azure_storage_access_key@)
    &&& match c.azure_storage_emulator_host {
        Some(h) => env_optional(env, "AZURE_STORAGE_EMULATOR_HOST"@) == Some(h@),
        None => env_optional(env, "AZURE_STORAGE_EMULATOR_HOST"@) is None,
    }
    &&& c.azure_queue_name@ == env_or(env, "AZURE_QUEUE_NAME"@, "viirs-processing"@)
    &&& c.azure_deadletter_queue_name@ == env_or(
        env,
        "AZURE_DEADLETTER_QUEUE_NAME"@,
        "viirs-processing-deadletter"@,
    )
    &&& c.raw_viirs_container@ == env_or(env, "RAW_VIIRS_CONTAINER"@, "raw-viirs"@)
    &&& c.processed_tiles_container@ == env_or(env, "PROCESSED_TILES_CONTAINER"@, "processed-tiles"@)
    &&& c.max_cloud_fraction_text@ == cloud_fraction_text(env)
    &&& positive_outcome(setting(env, "PROCESSING_VISIBILITY_TIMEOUT_SECONDS"@, "900"@), u64::MAX as nat) == Ok::<nat, Seq<char>>(c.processing_visibility_timeout_seconds as nat)
    &&& positive_outcome(setting(env, "PROCESSING_MAX_DEQUEUE_COUNT"@, "5"@), u32::MAX as nat) == Ok::<nat, Seq<char>>(c.processing_max_dequeue_count as nat)
    &&& positive_outcome(setting(env, "PROCESSING_MAX_PARALLELISM"@, "1"@), usize::MAX as nat) == Ok::<nat, Seq<char>>(c.processing_max_parallelism as nat)
    &&& positive_outcome(setting(env, "HTTP_REQUEST_TIMEOUT_SECONDS"@, "30"@), u64::MAX as nat) == Ok::<nat, Seq<char>>(c.http_request_timeout_seconds as nat)
    &&& positive_outcome(setting(env, "HTTP_RETRY_MAX_ATTEMPTS"@, "3"@), u32::MAX as nat) == Ok::<nat, Seq<char>>(c.http_retry.max_attempts as nat)
    &&& positive_outcome(setting(env, "HTTP_RETRY_BASE_DELAY_MS"@, "250"@), u64::MAX as nat) == Ok::<nat, Seq<char>>(c.http_retry.base_delay_ms as nat)
    &&& positive_outcome(setting(env, "HTTP_RETRY_MAX_DELAY_MS"@, "5000"@), u64::MAX as nat) == Ok::<nat, Seq<char>>(c.http_retry.max_delay_ms as nat)
    &&& c.http_retry.base_delay_ms <= c.http_retry.max_delay_ms
    &&& u8_range_outcome(setting(env, "TILE_MIN_ZOOM"@, "3"@), 0, 22) == Ok::<nat, Seq<char>>(c.tile_min_zoom as nat)
    &&& u8_range_outcome(setting(env, "TILE_MAX_NATIVE_ZOOM"@, "10"@), c.tile_min_zoom as nat, 22) == Ok::<nat, Seq<char>>(c.tile_max_native_zoom as nat)
    &&& u8_range_outcome(setting(env, "TILE_MAX_DISPLAY_ZOOM"@, "12"@), c.tile_max_native_zoom as nat, 22) == Ok::<nat, Seq<char>>(c.tile_max_display_zoom as nat)
    &&& positive_outcome(setting(env, "TILE_SIZE"@, "256"@), u16::MAX as nat) == Ok::<nat, Seq<char>>(c.tile_size as nat)
    &&& c.tile_format@ == "png"@
    &&& c.tile_classification_version@ == env_or(env, "TILE_CLASSIFICATION_VERSION"@, "radiance-dark-sky-v1"@)
    &&& c.tile_render_version@ == env_or(env, "TILE_RENDER_VERSION"@, "tiles-v1"@)
    &&& c.tile_cdn_base_url@ == strip_trailing(env_or(env, "TILE_CDN_BASE_URL"@, "https://tiles.lumenhorizon.com"@), '/')
    &&& c.tile_bounds_text@ == tile_bounds_text(env)
    &&& c.tile_immutable_cache_control@ == env_or(env, "TILE_IMMUTABLE_CACHE_CONTROL"@, "public, max-age=31536000, immutable"@)
    &&& c.tile_latest_cache_control@ == env_or(env, "TILE_LATEST_CACHE_CONTROL"@, "public, max-age=300, must-revalidate"@)
    &&& positive_outcome(setting(env, "RAW_GRANULE_RETENTION_DAYS"@, "90"@), u32::MAX as nat) == Ok::<nat, Seq<char>>(c.raw_granule_retention_days as nat)
    &&& positive_outcome(setting(env, "PROCESSED_TILE_SET_RETENTION_DAYS"@, "180"@), u32::MAX as nat) == Ok::<nat, Seq<char>>(c.processed_tile_set_retention_days as nat)
    &&& natural_outcome(setting(env, "RETENTION_PROTECTED_PRIOR_TILE_SETS"@, "2"@), u32::MAX as nat) == Ok::<nat, Seq<char>>(c.retention_protected_prior_tile_sets as nat)
    &&& positive_outcome(setting(env, "RETENTION_BATCH_LIMIT"@, "500"@), u32::MAX as nat) == Ok::<nat, Seq<char>>(c.retention_batch_limit as nat)
    &&& bounded_outcome(setting(env, "RETENTION_TILE_BLOB_LIMIT"@, "5000"@), u32::MAX as nat, MAX_RETENTION_TILE_BLOB_LIMIT as nat) == Ok::<nat, Seq<char>>(c.retention_tile_blob_limit as nat)
}

/// The settings of a configuration agree with one another: the zoom levels
/// are ordered and at most 22, every count, delay and period is positive, the
/// tile format is PNG, the base retry delay is not above the maximum, and the
/// tile blob limit lies in `1..=5000`.
pub open spec fn consistent(c: AppConfig) -> bool {
    &&& c.tile_min_zoom <= c.tile_max_native_zoom
    &&& c.tile_max_native_zoom <= c.tile_max_display_zoom
    &&& c.tile_max_display_zoom <= 22
    &&& c.tile_size > 0
    &&& c.tile_format@ == "png"@
    &&& c.processing_visibility_timeout_seconds > 0
    &&& c.processing_max_dequeue_count > 0
    &&& c.processing_max_parallelism > 0
    &&& c.http_request_timeout_seconds > 0
    &&& c.http_retry.max_attempts >= 1
    &&& c.http_retry.base_delay_ms > 0
    &&& c.http_retry.base_delay_ms <= c.http_retry.max_delay_ms
    &&& c.raw_granule_retention_days > 0
    &&& c.processed_tile_set_retention_days > 0
    &&& c.retention_batch_limit > 0
    &&& 1 <= c.retention_tile_blob_limit <= MAX_RETENTION_TILE_BLOB_LIMIT
}

/// Every configuration loaded from any environment is consistent: zoom levels
/// ordered within 0..=22, positive tile size, counts, delays and periods, PNG
/// tiles, base retry delay not above the maximum, and a tile blob limit of at
/// most 5000.
pub proof fn lemma_loaded_config_consistent(c: AppConfig, env: Seq<(String, String)>)
    requires
        loaded_from(c, env),
    ensures
        consistent(c),
{
}

impl AppConfig {
    /// Loads the configuration from environment entries. The numeric checks
    /// of `MAX_CLOUD_FRACTION` and `TILE_BOUNDS` (whose texts
    /// [`max_cloud_fraction_text`] and [`tile_bounds_value`] give) are passed
    /// in and reported in their place among the other checks.
    pub fn from_lookup_for(
        _command: &Command,
        env: &Vec<(String, String)>,
        max_cloud_fraction_check: Result<(), ConfigError>,
        tile_bounds_check: Result<(), ConfigError>,
    ) -> (r: Result<Self, ConfigError>)
        requires
            max_cloud_fraction_check is Err ==> max_cloud_fraction_check->Err_0 is InvalidValue,
            tile_bounds_check is Err ==> tile_bounds_check->Err_0 is InvalidValue,
        ensures
            missing_required(env@).len() > 0 ==> (r matches Err(
                ConfigError::MissingRequired { variables },
            ) && variables@.map_values(|m: MissingVariable| m.name@) == missing_required(env@)),
            missing_required(env@).len() == 0 ==> match first_config_error(
                env@,
                check_error(max_cloud_fraction_check),
                check_error(tile_bounds_check),
            ) {
                Some((variable, value, expected)) => r matches Err(e) && invalid_value(
                    e,
                    variable,
                    value,
                    expected,
                ),
                None => r matches Ok(c) && loaded_from(c, env@),
            },
        r matches Ok(c) ==> consistent(c) && max_cloud_fraction_check is Ok
            && tile_bounds_check is Ok,
    {
        let mut missing: Vec<MissingVariable> = Vec::new();
        let database_url = read_required(
            env,
            "DATABASE_URL",
            "PostgreSQL connection for ingest, processing, and tile metadata",
            &mut missing,
        );
        let azure_storage_account = read_required(
            env,
            "AZURE_STORAGE_ACCOUNT",
            "storage account used for raw VIIRS blobs, processed tiles, and queue access",
            &mut missing,
        );
        let azure_storage_access_key = read_required(
            env,
            "AZURE_STORAGE_ACCESS_KEY",
            "storage access key used for blob and queue access",
            &mut missing,
        );
        assert(missing@.map_values(|m: MissingVariable| m.name@) =~= missing_required(env@));
        let (database_url, azure_storage_account, azure_storage_access_key) = match (
            database_url,
            azure_storage_account,
            azure_storage_access_key,
        ) {
            (Some(a), Some(b), Some(c)) => (a, b, c),
            _ => {
                return Err(ConfigError::MissingRequired { variables: missing });
            },
        };
        let tile_min_zoom = parse_u8_range(
            "TILE_MIN_ZOOM",
            optional_or_default(env, "TILE_MIN_ZOOM", owned("3")),
            0,
            22,
        )?;
        let tile_max_native_zoom = parse_u8_range(
            "TILE_MAX_NATIVE_ZOOM",
            optional_or_default(env, "TILE_MAX_NATIVE_ZOOM", owned("10")),
            tile_min_zoom,
            22,
        )?;
        let tile_max_display_zoom = parse_u8_range(
            "TILE_MAX_DISPLAY_ZOOM",
            optional_or_default(env, "TILE_MAX_DISPLAY_ZOOM", owned("12")),
            tile_max_native_zoom,
            22,
        )?;
        let rust_log = optional_or_default(env, "RUST_LOG", owned("processing_svc=info"));
        let azure_storage_emulator_host = read_optional(env, "AZURE_STORAGE_EMULATOR_HOST");
        let azure_queue_name = optional_or_default(env, "AZURE_QUEUE_NAME", owned("viirs-processing"));
        let azure_deadletter_queue_name = optional_or_default(
            env,
            "AZURE_DEADLETTER_QUEUE_NAME",
            owned("viirs-processing-deadletter"),
        );
        let raw_viirs_container = optional_or_default(env, "RAW_VIIRS_CONTAINER", owned("raw-viirs"));
        let processed_tiles_container = optional_or_default(
            env,
            "PROCESSED_TILES_CONTAINER",
            owned("processed-tiles"),
        );
        let max_cloud_fraction_text = max_cloud_fraction_text(env);
        match max_cloud_fraction_check {
            Err(e) => {
                return Err(e);
            },
            Ok(()) => {},
        }
        let processing_visibility_timeout_seconds = parse_positive_u64(
            "PROCESSING_VISIBILITY_TIMEOUT_SECONDS",
            optional_or_default(env, "PROCESSING_VISIBILITY_TIMEOUT_SECONDS", owned("900")),
        )?;
        let processing_max_dequeue_count = parse_positive_u32(
            "PROCESSING_MAX_DEQUEUE_COUNT",
            optional_or_default(env, "PROCESSING_MAX_DEQUEUE_COUNT", owned("5")),
        )?;
        let processing_max_parallelism = parse_positive_usize(
            "PROCESSING_MAX_PARALLELISM",
            optional_or_default(env, "PROCESSING_MAX_PARALLELISM", owned("1")),
        )?;
        let http_request_timeout_seconds = parse_positive_u64(
            "HTTP_REQUEST_TIMEOUT_SECONDS",
            optional_or_default(env, "HTTP_REQUEST_TIMEOUT_SECONDS", owned("30")),
        )?;
        let http_retry = parse_retry_config(env)?;
        let tile_size = parse_positive_u16(
            "TILE_SIZE",
            optional_or_default(env, "TILE_SIZE", owned("256")),
        )?;
        let tile_format = parse_tile_format(optional_or_default(env, "TILE_FORMAT", owned("png")))?;
        let tile_classification_version = optional_or_default(
            env,
            "TILE_CLASSIFICATION_VERSION",
            owned("radiance-dark-sky-v1"),
        );
        let tile_render_version = optional_or_default(env, "TILE_RENDER_VERSION", owned("tiles-v1"));
        let cdn = optional_or_default(env, "TILE_CDN_BASE_URL", owned("https://tiles.lumenhorizon.com"));
        let tile_cdn_base_url = trim_end_char(cdn.as_str(), '/');
        let tile_bounds_text = tile_bounds_value(env);
        match tile_bounds_check {
            Err(e) => {
                return Err(e);
            },
            Ok(()) => {},
        }
        let tile_immutable_cache_control = optional_or_default(
            env,
            "TILE_IMMUTABLE_CACHE_CONTROL",
            owned("public, max-age=31536000, immutable"),
        );
        let tile_latest_cache_control = optional_or_default(
            env,
            "TILE_LATEST_CACHE_CONTROL",
            owned("public, max-age=300, must-revalidate"),
        );
        let raw_granule_retention_days = parse_positive_u32(
            "RAW_GRANULE_RETENTION_DAYS",
            optional_or_default(env, "RAW_GRANULE_RETENTION_DAYS", owned("90")),
        )?;
        let processed_tile_set_retention_days = parse_positive_u32(
            "PROCESSED_TILE_SET_RETENTION_DAYS",
            optional_or_default(env, "PROCESSED_TILE_SET_RETENTION_DAYS", owned("180")),
        )?;
        let retention_protected_prior_tile_sets = parse_u32_allow_zero(
            "RETENTION_PROTECTED_PRIOR_TILE_SETS",
            optional_or_default(env, "RETENTION_PROTECTED_PRIOR_TILE_SETS", owned("2")),
        )?;
        let retention_batch_limit = parse_positive_u32(
            "RETENTION_BATCH_LIMIT",
            optional_or_default(env, "RETENTION_BATCH_LIMIT", owned("500")),
        )?;
        let retention_tile_blob_limit = parse_positive_u32_at_most(
            "RETENTION_TILE_BLOB_LIMIT",
            optional_or_default(env, "RETENTION_TILE_BLOB_LIMIT", owned("5000")),
            MAX_RETENTION_TILE_BLOB_LIMIT,
        )?;
        Ok(
            AppConfig {
                rust_log,
                database_url,
                azure_storage_account,
                azure_storage_access_key,
                azure_storage_emulator_host,
                azure_queue_name,
                azure_deadletter_queue_name,
                raw_viirs_container,
                processed_tiles_container,
                max_cloud_fraction_text,
                processing_visibility_timeout_seconds,
                processing_max_dequeue_count,
                processing_max_parallelism,
                http_request_timeout_seconds,
                http_retry,
                tile_min_zoom,
                tile_max_native_zoom,
                tile_max_display_zoom,
                tile_size,
                tile_format,
                tile_classification_version,
                tile_render_version,
                tile_cdn_base_url,
                tile_bounds_text,
                tile_immutable_cache_control,
                tile_latest_cache_control,
                raw_granule_retention_days,
                processed_tile_set_retention_days,
                retention_protected_prior_tile_sets,
                retention_batch_limit,
                retention_tile_blob_limit,
            },
        )
    }
}

/// The retry policy's settings, or the first of their errors.
pub open spec fn retry_outcome(env: Seq<(String, String)>) -> Option<(Seq<char>, Seq<char>, Seq<char>)> {
    let attempts_text = setting(env, "HTTP_RETRY_MAX_ATTEMPTS"@, "3"@);
    let base_text = setting(env, "HTTP_RETRY_BASE_DELAY_MS"@, "250"@);
    let max_text = setting(env, "HTTP_RETRY_MAX_DELAY_MS"@, "5000"@);
    if let Err(e) = positive_outcome(attempts_text, u32::MAX as nat) {
        Some(("HTTP_RETRY_MAX_ATTEMPTS"@, attempts_text, e))
    } else if let Err(e) = positive_outcome(base_text, u64::MAX as nat) {
        Some(("HTTP_RETRY_BASE_DELAY_MS"@, base_text, e))
    } else if let Err(e) = positive_outcome(max_text, u64::MAX as nat) {
        Some(("HTTP_RETRY_MAX_DELAY_MS"@, max_text, e))
    } else if positive_outcome(base_text, u64::MAX as nat)->Ok_0 > positive_outcome(
        max_text,
        u64::MAX as nat,
    )->Ok_0 {
        Some(
            (
                "HTTP_RETRY_BASE_DELAY_MS"@,
                dec(positive_outcome(base_text, u64::MAX as nat)->Ok_0),
                "must be less than or equal to HTTP_RETRY_MAX_DELAY_MS"@,
            ),
        )
    } else {
        None
    }
}

/// Reads the HTTP retry policy: attempts, base delay and maximum delay, the
/// base delay not above the maximum.
pub fn parse_retry_config(env: &Vec<(String, String)>) -> (r: Result<RetryConfig, ConfigError>)
    ensures
        match retry_outcome(env@) {
            Some((variable, value, expected)) => r matches Err(e) && invalid_value(
                e,
                variable,
                value,
                expected,
            ),
            None => r matches Ok(c) && positive_outcome(
                setting(env@, "HTTP_RETRY_MAX_ATTEMPTS"@, "3"@),
                u32::MAX as nat,
            ) == Ok::<nat, Seq<char>>(c.max_attempts as nat) && positive_outcome(
                setting(env@, "HTTP_RETRY_BASE_DELAY_MS"@, "250"@),
                u64::MAX as nat,
            ) == Ok::<nat, Seq<char>>(c.base_delay_ms as nat) && positive_outcome(
                setting(env@, "HTTP_RETRY_MAX_DELAY_MS"@, "5000"@),
                u64::MAX as nat,
            ) == Ok::<nat, Seq<char>>(c.max_delay_ms as nat) && c.base_delay_ms
                <= c.max_delay_ms,
        },
{
    let max_attempts = parse_positive_u32(
        "HTTP_RETRY_MAX_ATTEMPTS",
        optional_or_default(env, "HTTP_RETRY_MAX_ATTEMPTS", owned("3")),
    )?;
    let base_delay_ms = parse_positive_u64(
        "HTTP_RETRY_BASE_DELAY_MS",
        optional_or_default(env, "HTTP_RETRY_BASE_DELAY_MS", owned("250")),
    )?;
    let max_delay_ms = parse_positive_u64(
        "HTTP_RETRY_MAX_DELAY_MS",
        optional_or_default(env, "HTTP_RETRY_MAX_DELAY_MS", owned("5000")),
    )?;
    if base_delay_ms > max_delay_ms {
        return Err(
            invalid(
                "HTTP_RETRY_BASE_DELAY_MS",
                crate::text::dec_string(base_delay_ms),
                "must be less than or equal to HTTP_RETRY_MAX_DELAY_MS",
            ),
        );
    }
    Ok(RetryConfig { max_attempts, base_delay_ms, max_delay_ms })
}

/// Appends `s` followed by a line break.
fn push_line(out: &mut String, s: &str)
    ensures
        final(out)@ == old(out)@ + s@ + "\n"@,
{
    push_str(out, s);
    push_str(out, "\n");
}

/// The lines listing missing variables: `- {name}: {purpose}` each.
pub open spec fn missing_lines(vars: Seq<MissingVariable>) -> Seq<char>
    decreases vars.len(),
{
    if vars.len() == 0 {
        Seq::empty()
    } else {
        missing_lines(vars.drop_last()) + "- "@ + vars.last().name@ + ": "@ + vars.last().purpose@
            + "\n"@
    }
}

/// The message of a configuration error.
pub open spec fn config_error_text(e: ConfigError) -> Seq<char> {
    match e {
        ConfigError::InvalidValue { variable, value, expected } => "configuration error: invalid "@
            + variable@ + " value '"@ + value@ + "': "@ + expected@,
        ConfigError::MissingRequired { variables } =>
            "configuration error: missing required environment variables:"@ + "\n"@ + missing_lines(
            variables@,
        ),
    }
}

impl ConfigError {
    /// The message shown for this error.
    pub fn message(&self) -> (r: String)
        ensures
            r@ == config_error_text(*self),
    {
        let mut out = String::new();
        match self {
            ConfigError::InvalidValue { variable, value, expected } => {
                push_str(&mut out, "configuration error: invalid ");
                push_str(&mut out, variable);
                push_str(&mut out, " value '");
                push_str(&mut out, value.as_str());
                push_str(&mut out, "': ");
                push_str(&mut out, expected);
            },
            ConfigError::MissingRequired { variables } => {
                push_line(&mut out, "configuration error: missing required environment variables:");
                let mut i: usize = 0;
                while i < variables.len()
                    invariant
                        i <= variables@.len(),
                        out@ == "configuration error: missing required environment variables:"@
                            + "\n"@ + missing_lines(variables@.take(i as int)),
                    decreases variables@.len() - i,
                {
                    let v = variables[i];
                    push_str(&mut out, "- ");
                    push_str(&mut out, v.name);
                    push_str(&mut out, ": ");
                    push_line(&mut out, v.purpose);
                    assert(variables@.take(i + 1).drop_last() == variables@.take(i as int));
                    i += 1;
                }
                assert(variables@.take(variables@.len() as int) == variables@);
            },
        }
        assert(out@ =~= config_error_text(*self));
        out
    }
}

} // verus!
