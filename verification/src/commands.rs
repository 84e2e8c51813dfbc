//! Command-line parsing for the processing service.
use vstd::prelude::*;

use crate::text::{chars_of, owned, push_str, starts_with, str_eq};
#[allow(unused_imports)]
use chrono::Datelike;

verus! {

/// The usage line printed with every command error.
pub const USAGE: &'static str = "Usage: processing-svc [worker|process-once|process-message <json>|retention-cleanup [--execute]|publish-mosaic <product> [<YYYY-MM-DD>|latest] [--public-latest [--allow-incomplete-public-latest]]]";

/// A calendar date.
#[derive(Debug, Clone, Copy, PartialEq, Eq, Structural)]
pub struct CalendarDate {
    pub year: i32,
    pub month: u32,
    pub day: u32,
}

/// A command the service runs.
#[derive(Debug, Clone, PartialEq, Eq)]
pub enum Command {
    Worker,
    ProcessOnce,
    ProcessMessage { message: String },
    RetentionCleanup { execute: bool },
    PublishMosaic {
        product: String,
        dataset_date: Option<CalendarDate>,
        promote_public_latest: bool,
        allow_incomplete_public_latest: bool,
    },
}

/// The name of a command.
pub open spec fn command_name(c: Command) -> Seq<char> {
    match c {
        Command::Worker => "worker"@,
        Command::ProcessOnce => "process-once"@,
        Command::ProcessMessage { .. } => "process-message"@,
        Command::RetentionCleanup { .. } => "retention-cleanup"@,
        Command::PublishMosaic { .. } => "publish-mosaic"@,
    }
}

impl Command {
    /// The name of this command.
    pub fn as_str(&self) -> (r: &'static str)
        ensures
            r@ == command_name(*self),
    {
        match self {
            Command::Worker => "worker",
            Command::ProcessOnce => "process-once",
            Command::ProcessMessage { .. } => "process-message",
            Command::RetentionCleanup { .. } => "retention-cleanup",
            Command::PublishMosaic { .. } => "publish-mosaic",
        }
    }
}

/// What the command line asks for.
#[derive(Debug, Clone, PartialEq, Eq)]
pub enum CommandRequest {
    Run(Command),
    Help,
}

/// A command-line error; its text is followed by the usage line.
#[derive(Debug, Clone, PartialEq, Eq)]
pub struct CommandError {
    message: String,
}

impl CommandError {
    /// The explanation of the error.
    pub closed spec fn text(&self) -> Seq<char> {
        self.message@
    }

    fn new(message: String) -> (r: Self)
        ensures
            r.text() == message@,
    {
        CommandError { message }
    }

    /// The explanation of the error, without the usage line.
    pub fn message(&self) -> (r: &str)
        ensures
            r@ == self.text(),
    {
        self.message.as_str()
    }

    /// The error as shown to the user: the explanation, a line break, and
    /// the usage line.
    pub fn render(&self) -> (r: String)
        ensures
            r@ == self.text() + "\n"@ + USAGE@,
    {
        let mut out = String::new();
        push_str(&mut out, self.message.as_str());
        push_str(&mut out, "\n");
        push_str(&mut out, USAGE);
        assert(out@ =~= self.text() + "\n"@ + USAGE@);
        out
    }
}

/// The date that `NaiveDate::parse_from_str(s, "%Y-%m-%d")` reads from `s`,
/// if it accepts `s`.
pub uninterp spec fn ymd_date(s: Seq<char>) -> Option<CalendarDate>;

/// Reads a `YYYY-MM-DD` date with chrono (`NaiveDate::parse_from_str` with
/// `"%Y-%m-%d"`), returning its year, month and day.
#[verifier::external_body]
fn parse_ymd(value: &str) -> (r: Option<CalendarDate>)
    ensures
        r == ymd_date(value@),
{
    chrono::NaiveDate::parse_from_str(value, "%Y-%m-%d").ok().map(
        |d| CalendarDate { year: d.year(), month: d.month(), day: d.day() },
    )
}

/// The shape of a parsed command line, with strings as character sequences.
pub enum ParsedArgs {
    Help,
    Worker,
    ProcessOnce,
    ProcessMessage(Seq<char>),
    RetentionCleanup(bool),
    PublishMosaic(Seq<char>, Option<CalendarDate>, bool, bool),
    Fail(Seq<char>),
}

/// `s` is `-h` or `--help`.
pub open spec fn is_help(s: Seq<char>) -> bool {
    s == "-h"@ || s == "--help"@
}

/// `unexpected argument '{extra}' after publish-mosaic arguments`
pub open spec fn unexpected_publish_arg(extra: Seq<char>) -> Seq<char> {
    "unexpected argument '"@ + extra + "' after publish-mosaic arguments"@
}

/// The flags after the optional dataset date of `publish-mosaic`.
pub open spec fn publish_flags(product: Seq<char>, date: Option<CalendarDate>, rest: Seq<Seq<char>>) -> ParsedArgs {
    if rest.len() == 0 {
        ParsedArgs::PublishMosaic(product, date, false, false)
    } else if rest.len() == 1 && rest[0] == "--public-latest"@ {
        ParsedArgs::PublishMosaic(product, date, true, false)
    } else if rest.len() == 2 && rest[0] == "--public-latest"@ && rest[1]
        == "--allow-incomplete-public-latest"@ {
        ParsedArgs::PublishMosaic(product, date, true, true)
    } else if rest.len() == 1 && rest[0] == "--allow-incomplete-public-latest"@ {
        ParsedArgs::Fail("--allow-incomplete-public-latest requires --public-latest"@)
    } else {
        ParsedArgs::Fail(unexpected_publish_arg(rest[0]))
    }
}

/// The arguments of `publish-mosaic` after the product.
pub open spec fn publish_args(product: Seq<char>, args: Seq<Seq<char>>) -> ParsedArgs {
    if args.len() == 0 {
        publish_flags(product, None, args)
    } else if args[0] == "latest"@ {
        publish_flags(product, None, args.drop_first())
    } else if crate::text::has_prefix(args[0], "--"@) {
        publish_flags(product, None, args)
    } else {
        match ymd_date(args[0]) {
            Some(d) => publish_flags(product, Some(d), args.drop_first()),
            None => ParsedArgs::Fail("publish-mosaic dataset date must use YYYY-MM-DD"@),
        }
    }
}

/// What the command line `args` (without the program name) asks for.
pub open spec fn parse_args_spec(args: Seq<Seq<char>>) -> ParsedArgs {
    if args.len() == 0 {
        ParsedArgs::Worker
    } else if args.len() == 1 && is_help(args[0]) {
        ParsedArgs::Help
    } else if args.len() == 1 && args[0] == "worker"@ {
        ParsedArgs::Worker
    } else if args.len() == 1 && args[0] == "process-once"@ {
        ParsedArgs::ProcessOnce
    } else if args.len() == 1 && args[0] == "retention-cleanup"@ {
        ParsedArgs::RetentionCleanup(false)
    } else if args.len() == 2 && args[0] == "retention-cleanup"@ && args[1] == "--execute"@ {
        ParsedArgs::RetentionCleanup(true)
    } else if args.len() == 1 && args[0] == "publish-mosaic"@ {
        ParsedArgs::Fail("publish-mosaic requires a product"@)
    } else if args[0] == "publish-mosaic"@ {
        publish_args(args[1], args.subrange(2, args.len() as int))
    } else if args.len() == 1 && args[0] == "process-message"@ {
        ParsedArgs::Fail("process-message requires a JSON message argument"@)
    } else if args.len() == 2 && args[0] == "process-message"@ {
        ParsedArgs::ProcessMessage(args[1])
    } else if is_help(args[0]) {
        ParsedArgs::Fail("help does not accept additional arguments"@)
    } else if args[0] == "worker"@ || args[0] == "process-once"@ {
        ParsedArgs::Fail(
            "unexpected argument '"@ + args[1] + "' after command '"@ + args[0] + "'"@,
        )
    } else if args[0] == "retention-cleanup"@ {
        ParsedArgs::Fail("unexpected argument '"@ + args[1] + "' after retention-cleanup"@)
    } else if args[0] == "process-message"@ {
        ParsedArgs::Fail(
            "unexpected argument '"@ + args[1] + "' after process-message JSON payload"@,
        )
    } else {
        ParsedArgs::Fail("unknown command '"@ + args[0] + "'"@)
    }
}

/// `r` is what `p` describes.
pub open spec fn request_is(r: Result<CommandRequest, CommandError>, p: ParsedArgs) -> bool {
    match p {
        ParsedArgs::Help => r == Ok::<CommandRequest, CommandError>(CommandRequest::Help),
        ParsedArgs::Worker => r == Ok::<CommandRequest, CommandError>(
            CommandRequest::Run(Command::Worker),
        ),
        ParsedArgs::ProcessOnce => r == Ok::<CommandRequest, CommandError>(
            CommandRequest::Run(Command::ProcessOnce),
        ),
        ParsedArgs::ProcessMessage(m) => r matches Ok(
            CommandRequest::Run(Command::ProcessMessage { message }),
        ) && message@ == m,
        ParsedArgs::RetentionCleanup(e) => r == Ok::<CommandRequest, CommandError>(
            CommandRequest::Run(Command::RetentionCleanup { execute: e }),
        ),
        ParsedArgs::PublishMosaic(p, d, promote, allow) => r matches Ok(
            CommandRequest::Run(
                Command::PublishMosaic {
                    product,
                    dataset_date,
                    promote_public_latest,
                    allow_incomplete_public_latest,
                },
            ),
        ) && product@ == p && dataset_date == d && promote_public_latest == promote
            && allow_incomplete_public_latest == allow,
        ParsedArgs::Fail(msg) => r matches Err(e) && e.text() == msg,
    }
}

/// The character views of a list of strings.
pub open spec fn arg_views(args: Seq<String>) -> Seq<Seq<char>> {
    args.map_values(|a: String| a@)
}

fn concat3(a: &str, b: &str, c: &str) -> (r: String)
    ensures
        r@ == a@ + b@ + c@,
{
    let mut out = String::new();
    push_str(&mut out, a);
    push_str(&mut out, b);
    push_str(&mut out, c);
    assert(out@ =~= a@ + b@ + c@);
    out
}

fn fail(message: String) -> (r: Result<CommandRequest, CommandError>)
    ensures
        r matches Err(e) && e.text() == message@,
{
    Err(CommandError::new(message))
}

/// Parses the flags after the optional dataset date of `publish-mosaic`.
fn parse_publish_flags(
    product: &str,
    dataset_date: Option<CalendarDate>,
    rest: &[String],
) -> (r: Result<CommandRequest, CommandError>)
    ensures
        request_is(r, publish_flags(product@, dataset_date, arg_views(rest@))),
{
    let n = rest.len();
    let (promote, allow) = if n == 0 {
        (false, false)
    } else if n == 1 && str_eq(rest[0].as_str(), "--public-latest") {
        (true, false)
    } else if n == 2 && str_eq(rest[0].as_str(), "--public-latest") && str_eq(
        rest[1].as_str(),
        "--allow-incomplete-public-latest",
    ) {
        (true, true)
    } else if n == 1 && str_eq(rest[0].as_str(), "--allow-incomplete-public-latest") {
        return fail(owned("--allow-incomplete-public-latest requires --public-latest"));
    } else {
        return fail(
            concat3(
                "unexpected argument '",
                rest[0].as_str(),
                "' after publish-mosaic arguments",
            ),
        );
    };
    Ok(
        CommandRequest::Run(
            Command::PublishMosaic {
                product: owned(product),
                dataset_date,
                promote_public_latest: promote,
                allow_incomplete_public_latest: allow,
            },
        ),
    )
}

/// Parses the arguments of `publish-mosaic` after the product: an optional
/// `YYYY-MM-DD` date or `latest`, then the promotion flags.
pub fn parse_publish_mosaic_args(product: &str, args: &[String]) -> (r: Result<
    CommandRequest,
    CommandError,
>)
    ensures
        request_is(r, publish_args(product@, arg_views(args@))),
{
    if args.len() == 0 {
        return parse_publish_flags(product, None, args);
    }
    let first = args[0].as_str();
    let rest = slice_from(args, 1);
    assert(arg_views(rest@) == arg_views(args@).drop_first());
    if str_eq(first, "latest") {
        parse_publish_flags(product, None, rest)
    } else if starts_with(&chars_of(first), &chars_of("--")) {
        parse_publish_flags(product, None, args)
    } else {
        match parse_ymd(first) {
            Some(date) => parse_publish_flags(product, Some(date), rest),
            None => fail(owned("publish-mosaic dataset date must use YYYY-MM-DD")),
        }
    }
}

/// The arguments from index `start` on.
fn slice_from(args: &[String], start: usize) -> (r: &[String])
    requires
        start <= args@.len(),
    ensures
        r@ == args@.subrange(start as int, args@.len() as int),
{
    let (_, rest) = args.split_at(start);
    rest
}

/// Parses the command line (without the program name).
pub fn parse_args(args: Vec<String>) -> (r: Result<CommandRequest, CommandError>)
    ensures
        request_is(r, parse_args_spec(arg_views(args@))),
{
    let n = args.len();
    let ghost v = arg_views(args@);
    if n == 0 {
        return Ok(CommandRequest::Run(Command::Worker));
    }
    let a0 = args[0].as_str();
    assert(v[0] == a0@);
    let help0 = str_eq(a0, "-h") || str_eq(a0, "--help");
    if n == 1 && help0 {
        return Ok(CommandRequest::Help);
    }
    if n == 1 && str_eq(a0, "worker") {
        return Ok(CommandRequest::Run(Command::Worker));
    }
    if n == 1 && str_eq(a0, "process-once") {
        return Ok(CommandRequest::Run(Command::ProcessOnce));
    }
    if n == 1 && str_eq(a0, "retention-cleanup") {
        return Ok(CommandRequest::Run(Command::RetentionCleanup { execute: false }));
    }
    if n == 2 && str_eq(a0, "retention-cleanup") && str_eq(args[1].as_str(), "--execute") {
        return Ok(CommandRequest::Run(Command::RetentionCleanup { execute: true }));
    }
    if n == 1 && str_eq(a0, "publish-mosaic") {
        return fail(owned("publish-mosaic requires a product"));
    }
    if str_eq(a0, "publish-mosaic") {
        let rest = slice_from(args.as_slice(), 2);
        assert(arg_views(rest@) == v.subrange(2, v.len() as int));
        return parse_publish_mosaic_args(args[1].as_str(), rest);
    }
    if n == 1 && str_eq(a0, "process-message") {
        return fail(owned("process-message requires a JSON message argument"));
    }
    if n == 2 && str_eq(a0, "process-message") {
        return Ok(
            CommandRequest::Run(Command::ProcessMessage { message: owned(args[1].as_str()) }),
        );
    }
    if help0 {
        return fail(owned("help does not accept additional arguments"));
    }
    if n == 1 {
        return fail(concat3("unknown command '", a0, "'"));
    }
    let a1 = args[1].as_str();
    assert(v[1] == a1@);
    if str_eq(a0, "worker") || str_eq(a0, "process-once") {
        let mut m = concat3("unexpected argument '", a1, "' after command '");
        push_str(&mut m, a0);
        push_str(&mut m, "'");
        return fail(m);
    }
    if str_eq(a0, "retention-cleanup") {
        return fail(concat3("unexpected argument '", a1, "' after retention-cleanup"));
    }
    if str_eq(a0, "process-message") {
        return fail(concat3("unexpected argument '", a1, "' after process-message JSON payload"));
    }
    fail(concat3("unknown command '", a0, "'"))
}

} // verus!
