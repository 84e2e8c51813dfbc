//! The log filter that structured tracing is set up with.
use vstd::prelude::*;
use tracing_subscriber::filter::ParseError;
use tracing_subscriber::EnvFilter;

verus! {

#[verifier::external_type_specification]
#[verifier::external_body]
pub struct ExEnvFilter(tracing_subscriber::EnvFilter);

#[verifier::external_type_specification]
#[verifier::external_body]
pub struct ExFilterParseError(tracing_subscriber::filter::ParseError);

/// Whether `tracing_subscriber` accepts these filter directives. The
/// directive grammar (targets, spans, fields, levels) is the crate's own; its
/// verdict depends on the text alone.
pub uninterp spec fn env_filter_accepts(directives: Seq<char>) -> bool;

/// `EnvFilter::try_new`: parses comma-separated filter directives. Claimed:
/// the result is `Ok` exactly when the directives are accepted, and the empty
/// text is accepted (`Builder::parse` returns a filter for it without
/// parsing any directive).
#[verifier::external_body]
fn env_filter_try_new(directives: &str) -> (r: Result<EnvFilter, ParseError>)
    ensures
        r is Ok <==> env_filter_accepts(directives@),
        directives@.len() == 0 ==> r is Ok,
{
    EnvFilter::try_new(directives)
}

/// Why structured tracing could not be set up.
#[derive(Debug)]
pub enum TracingInitError {
    InvalidFilter { filter: String },
}

pub open spec fn tracing_init_error_text(filter: Seq<char>) -> Seq<char> {
    "invalid tracing filter '"@ + filter + "'"@
}

impl TracingInitError {
    /// The error's text: `invalid tracing filter '<filter>'`.
    pub fn message(&self) -> (r: String)
        ensures
            match self {
                TracingInitError::InvalidFilter { filter } => r@ == tracing_init_error_text(filter@),
            },
    {
        match self {
            TracingInitError::InvalidFilter { filter } => {
                let mut out = String::new();
                crate::text::push_str(&mut out, "invalid tracing filter '");
                crate::text::push_str(&mut out, filter.as_str());
                crate::text::push_str(&mut out, "'");
                proof {
                    reveal_strlit("invalid tracing filter '");
                    reveal_strlit("'");
                }
                out
            },
        }
    }
}

/// What a parse of the filter `rust_log` gives the service: the filter
/// itself, or `InvalidFilter` naming the text that was refused.
pub fn tracing_filter_outcome(rust_log: &str, parsed: Result<EnvFilter, ParseError>) -> (r: Result<
    EnvFilter,
    TracingInitError,
>)
    ensures
        r is Ok <==> parsed is Ok,
        r matches Err(TracingInitError::InvalidFilter { filter }) ==> filter@ == rust_log@,
{
    match parsed {
        Ok(filter) => Ok(filter),
        Err(_) => Err(TracingInitError::InvalidFilter { filter: crate::text::owned(rust_log) }),
    }
}

/// Parses `RUST_LOG`-style directives into the filter that structured
/// tracing is set up with.
pub fn tracing_filter(rust_log: &str) -> (r: Result<EnvFilter, TracingInitError>)
    ensures
        r is Ok <==> env_filter_accepts(rust_log@),
        rust_log@.len() == 0 ==> r is Ok,
        r matches Err(TracingInitError::InvalidFilter { filter }) ==> filter@ == rust_log@,
{
    let parsed = env_filter_try_new(rust_log);
    tracing_filter_outcome(rust_log, parsed)
}

} // verus!
