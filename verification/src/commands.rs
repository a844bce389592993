//! The driver's subcommands: what each argument list asks for, or why it is
//! refused.

use vstd::prelude::*;

use crate::args::{
    arg_error, first_offence, flag_kind, has_switch, last_value, lemma_last_value_stands,
    lemma_no_offence, number_limit, offence, parse_args, positional, positional_of, switch_given,
    token_views, tokens_of, value_of, ArgError, FlagKind, Subcommand, Token,
};
use crate::host::{IceProfile, IceProfileView};
use crate::orchestrate::{
    opt_text, run_id, run_id_of, self_exec_args, PeerKind, PeerKindView, RunContext,
};
use crate::text::{
    after_first, before_first, chars_of, contains_text, decimal, find_from, number_value,
    numbers_round_trip, occurs_at, parse_number, quote, quoted, same_text, split_first, text,
    text_between, texts_split_at_the_first, NumberError,
};

verus! {

/// Wall bound per case: the single-attempt hang guard. It must exceed the
/// hosts' own `wait-connected` timeouts, so genuine failures classify as
/// failures and only true hangs trip it.
pub const CASE_TIMEOUT_SECS: u64 = 90;

/// Execution (CPU) budget per case: generous for the composed target, where
/// the whole SCTP/DTLS stack burns guest cycles.
pub const BUDGET_SECS: u64 = 30;

/// A case's wall bound exceeds the time that a host waits for a connection.
pub proof fn case_timeout_exceeds_connect_timeout()
    ensures
        CASE_TIMEOUT_SECS > crate::context::DEFAULT_CONNECT_TIMEOUT_SECS,
{
}

/// Why a command line is refused. `T` is the type of its texts.
pub enum CommandError<T> {
    /// The argument list itself is wrong.
    Arg(ArgError<T>),
    /// No suite is named.
    MissingSuite,
    /// No pair suite is named.
    MissingPairSuite,
    /// No target is named.
    MissingTarget,
    /// No kind is named.
    MissingKind,
    /// No direction is named.
    MissingDirection,
    /// A composed leg without its artifact.
    ComposedNeedsArtifact,
    /// A Deno leg without its script.
    DenoNeedsScript,
    /// A browser leg without its script.
    BrowserNeedsScript,
    /// A kind that there is not.
    UnknownKind(T),
    /// A direction that does not name two sides.
    BadDirection,
    /// A composed side without its artifact.
    SideNeedsComposedPair,
    /// A Deno side without its script.
    SideNeedsDenoScript,
    /// A browser side without its script.
    SideNeedsBrowserScript,
    /// A side that there is not.
    UnknownSide(T),
    /// The pair suite was not found, and why.
    UnresolvedSuite(T, T),
    /// The pair suite's path is absolute where it has to be relative.
    AbsoluteSuite(T),
}

impl View for CommandError<String> {
    type V = CommandError<Seq<char>>;

    open spec fn view(&self) -> CommandError<Seq<char>> {
        match self {
            CommandError::Arg(e) => CommandError::Arg(e@),
            CommandError::MissingSuite => CommandError::MissingSuite,
            CommandError::MissingPairSuite => CommandError::MissingPairSuite,
            CommandError::MissingTarget => CommandError::MissingTarget,
            CommandError::MissingKind => CommandError::MissingKind,
            CommandError::MissingDirection => CommandError::MissingDirection,
            CommandError::ComposedNeedsArtifact => CommandError::ComposedNeedsArtifact,
            CommandError::DenoNeedsScript => CommandError::DenoNeedsScript,
            CommandError::BrowserNeedsScript => CommandError::BrowserNeedsScript,
            CommandError::UnknownKind(k) => CommandError::UnknownKind(k@),
            CommandError::BadDirection => CommandError::BadDirection,
            CommandError::SideNeedsComposedPair => CommandError::SideNeedsComposedPair,
            CommandError::SideNeedsDenoScript => CommandError::SideNeedsDenoScript,
            CommandError::SideNeedsBrowserScript => CommandError::SideNeedsBrowserScript,
            CommandError::UnknownSide(s) => CommandError::UnknownSide(s@),
            CommandError::UnresolvedSuite(s, why) => CommandError::UnresolvedSuite(s@, why@),
            CommandError::AbsoluteSuite(s) => CommandError::AbsoluteSuite(s@),
        }
    }
}

/// The driver's usage.
pub fn usage() -> (r: &'static str)
    ensures
        r@ == usage_text(),
        r@ == "usage: rtc-ct-driver exec <suite.wasm> [--jsonl] [--select prefix] [--role offerer|answerer --signaling url --run-id id] [--composed] [--suite-artifact path] [--jobs n] [--budget secs] [--case-timeout secs]\n        rtc-ct-driver loopback <suite.wasm> --target name --kind wasmtime|composed|polyengine-deno|polyengine-browser [--artifact path] [--script path] [-o out.jsonl]\n        rtc-ct-driver interop <pair-suite.wasm> --direction <offerer>-x-<answerer> [--composed-pair path] [--deno-script path] [--browser-script path] [--reference-bin path] [-o out.jsonl]"@,
{
    "usage: rtc-ct-driver exec <suite.wasm> [--jsonl] [--select prefix] [--role offerer|answerer --signaling url --run-id id] [--composed] [--suite-artifact path] [--jobs n] [--budget secs] [--case-timeout secs]\n        rtc-ct-driver loopback <suite.wasm> --target name --kind wasmtime|composed|polyengine-deno|polyengine-browser [--artifact path] [--script path] [-o out.jsonl]\n        rtc-ct-driver interop <pair-suite.wasm> --direction <offerer>-x-<answerer> [--composed-pair path] [--deno-script path] [--browser-script path] [--reference-bin path] [-o out.jsonl]"
}

/// The driver's usage.
pub open spec fn usage_text() -> Seq<char> {
    "usage: rtc-ct-driver exec <suite.wasm> [--jsonl] [--select prefix] [--role offerer|answerer --signaling url --run-id id] [--composed] [--suite-artifact path] [--jobs n] [--budget secs] [--case-timeout secs]\n        rtc-ct-driver loopback <suite.wasm> --target name --kind wasmtime|composed|polyengine-deno|polyengine-browser [--artifact path] [--script path] [-o out.jsonl]\n        rtc-ct-driver interop <pair-suite.wasm> --direction <offerer>-x-<answerer> [--composed-pair path] [--deno-script path] [--browser-script path] [--reference-bin path] [-o out.jsonl]"@
}

/// A number's error in words.
pub open spec fn number_error_text(e: NumberError) -> Seq<char> {
    match e {
        NumberError::Empty => "cannot parse integer from empty string"@,
        NumberError::InvalidDigit => "invalid digit found in string"@,
        NumberError::TooLarge => "number too large to fit in target type"@,
    }
}

/// Why a command line is refused, in words.
pub open spec fn command_message(e: CommandError<Seq<char>>) -> Seq<char> {
    match e {
        CommandError::Arg(ArgError::UnknownFlag(f)) => "unknown flag `"@ + f + "`\n"@
            + usage_text(),
        CommandError::Arg(ArgError::NeedsValue(f)) => f + " needs a value"@,
        CommandError::Arg(ArgError::Unexpected(t)) => "unexpected argument `"@ + t + "`"@,
        CommandError::Arg(ArgError::BadNumber(f, n)) => f + ": "@ + number_error_text(n),
        CommandError::MissingSuite => "missing suite.wasm"@,
        CommandError::MissingPairSuite => "missing pair-suite.wasm"@,
        CommandError::MissingTarget => "missing --target"@,
        CommandError::MissingKind => "missing --kind"@,
        CommandError::MissingDirection => "missing --direction"@,
        CommandError::ComposedNeedsArtifact => "--kind composed needs --artifact"@,
        CommandError::DenoNeedsScript => "--kind polyengine-deno needs --script"@,
        CommandError::BrowserNeedsScript => "--kind polyengine-browser needs --script"@,
        CommandError::UnknownKind(k) => "unknown --kind "@ + quoted(k),
        CommandError::BadDirection => "--direction must be <offerer>-x-<answerer>"@,
        CommandError::SideNeedsComposedPair =>
            "direction includes wasip3-guest: needs --composed-pair"@,
        CommandError::SideNeedsDenoScript =>
            "direction includes polyengine-deno: needs --deno-script"@,
        CommandError::SideNeedsBrowserScript =>
            "direction includes polyengine-browser: needs --browser-script"@,
        CommandError::UnknownSide(s) => "unknown interop side "@ + quoted(s),
        CommandError::UnresolvedSuite(s, why) => "resolving pair suite "@ + s + ": "@ + why,
        CommandError::AbsoluteSuite(s) => "pair suite "@ + s
            + " must be repo-root-relative for the browser child's static server"@,
    }
}

/// `head`, then `middle`, then `tail`.
fn joined(head: &str, middle: &str, tail: &str) -> (r: String)
    ensures
        r@ == head@ + middle@ + tail@,
{
    let mut r: String = text(head);
    r.append(middle);
    r.append(tail);
    r
}

impl CommandError<String> {
    /// Why the command line is refused, in words.
    pub fn message(&self) -> (r: String)
        ensures
            r@ == command_message(self@),
    {
        match self {
            CommandError::Arg(ArgError::UnknownFlag(f)) => {
                let mut r: String = joined("unknown flag `", f.as_str(), "`\n");
                r.append(usage());
                r
            },
            CommandError::Arg(ArgError::NeedsValue(f)) => {
                let mut r: String = f.clone();
                r.append(" needs a value");
                r
            },
            CommandError::Arg(ArgError::Unexpected(t)) => joined(
                "unexpected argument `",
                t.as_str(),
                "`",
            ),
            CommandError::Arg(ArgError::BadNumber(f, n)) => joined(
                f.as_str(),
                ": ",
                match n {
                    NumberError::Empty => "cannot parse integer from empty string",
                    NumberError::InvalidDigit => "invalid digit found in string",
                    NumberError::TooLarge => "number too large to fit in target type",
                },
            ),
            CommandError::MissingSuite => text("missing suite.wasm"),
            CommandError::MissingPairSuite => text("missing pair-suite.wasm"),
            CommandError::MissingTarget => text("missing --target"),
            CommandError::MissingKind => text("missing --kind"),
            CommandError::MissingDirection => text("missing --direction"),
            CommandError::ComposedNeedsArtifact => text("--kind composed needs --artifact"),
            CommandError::DenoNeedsScript => text("--kind polyengine-deno needs --script"),
            CommandError::BrowserNeedsScript => text("--kind polyengine-browser needs --script"),
            CommandError::UnknownKind(k) => {
                let mut r: String = text("unknown --kind ");
                r.append(quote(k.as_str()).as_str());
                r
            },
            CommandError::BadDirection => text("--direction must be <offerer>-x-<answerer>"),
            CommandError::SideNeedsComposedPair => text(
                "direction includes wasip3-guest: needs --composed-pair",
            ),
            CommandError::SideNeedsDenoScript => text(
                "direction includes polyengine-deno: needs --deno-script",
            ),
            CommandError::SideNeedsBrowserScript => text(
                "direction includes polyengine-browser: needs --browser-script",
            ),
            CommandError::UnknownSide(s) => {
                let mut r: String = text("unknown interop side ");
                r.append(quote(s.as_str()).as_str());
                r
            },
            CommandError::UnresolvedSuite(s, why) => {
                let mut r: String = joined("resolving pair suite ", s.as_str(), ": ");
                r.append(why.as_str());
                r
            },
            CommandError::AbsoluteSuite(s) => joined(
                "pair suite ",
                s.as_str(),
                " must be repo-root-relative for the browser child's static server",
            ),
        }
    }
}

/// The value that `flag` is given last, or `default`.
pub open spec fn value_or(
    tokens: Seq<Token<Seq<char>>>,
    flag: Seq<char>,
    default: Seq<char>,
) -> Seq<char> {
    match last_value(tokens, flag) {
        Some(v) => v,
        None => default,
    }
}

/// The value that `flag` is given last, or `default`.
fn text_or(tokens: &Vec<Token<String>>, flag: &str, default: &str) -> (r: String)
    ensures
        r@ == value_or(token_views(tokens@), flag@, default@),
{
    match value_of(tokens, flag) {
        Some(v) => v,
        None => text(default),
    }
}

/// The number that `flag` is given last, or `default`.
pub open spec fn number_or(
    tokens: Seq<Token<Seq<char>>>,
    flag: Seq<char>,
    limit: nat,
    default: nat,
) -> nat {
    match last_value(tokens, flag) {
        Some(v) => number_value(v, limit)->Ok_0,
        None => default,
    }
}

/// The number that `flag` is given last, or `default`.
fn value_as_number(
    command: Subcommand,
    tokens: &Vec<Token<String>>,
    flag: &str,
    kind: FlagKind,
    default: u64,
) -> (r: u64)
    requires
        kind == FlagKind::Count || kind == FlagKind::Seconds,
        flag_kind(command, flag@) == Some(kind),
        first_offence(command, token_views(tokens@), tokens@.len() as int) is None,
        default <= number_limit(kind),
    ensures
        r == number_or(token_views(tokens@), flag@, number_limit(kind), default as nat),
        r <= number_limit(kind),
{
    let limit: u64 = match kind {
        FlagKind::Count => usize::MAX as u64,
        _ => u64::MAX,
    };
    match value_of(tokens, flag) {
        None => default,
        Some(v) => {
            proof {
                let views = token_views(tokens@);
                let i = lemma_last_value_stands(views, flag@);
                lemma_no_offence(command, views, tokens@.len() as int, i);
                assert(offence(command, views, i) is None);
            }
            match parse_number(v.as_str(), limit) {
                Ok(n) => n,
                Err(_) => default,
            }
        },
    }
}

/// What `exec` is asked for.
#[derive(Debug)]
pub struct ExecArgs {
    /// The suite to run.
    pub suite: String,
    /// The target that the stream is of.
    pub target: String,
    /// The prefix of the cases to run.
    pub select: Option<String>,
    /// The side of a pair to play.
    pub role: Option<String>,
    /// The signaling server's base URL.
    pub signaling_url: Option<String>,
    /// The run's id.
    pub run_id: Option<String>,
    /// Whether the provider is in the artifact.
    pub composed: bool,
    /// The network shape.
    pub ice: Option<IceProfile>,
    /// The suite as it was before composition.
    pub suite_artifact: Option<String>,
    /// How many cases run at a time.
    pub jobs: usize,
    /// Execution budget per case.
    pub budget_secs: u64,
    /// Wall bound per case.
    pub case_timeout_secs: u64,
    /// Whether the stream is emitted as JSON lines.
    pub jsonl: bool,
}

/// A TURN server's URL, username and password: three parts with commas between
/// them, where the last may hold further commas and a missing one is empty.
pub open spec fn turn_parts(spec_text: Seq<char>) -> (Seq<char>, Seq<char>, Seq<char>) {
    let rest = after_first(spec_text, ',');
    (before_first(spec_text, ','), before_first(rest, ','), after_first(rest, ','))
}

/// The network shape that the flags give; none without any of them.
pub open spec fn ice_of(tokens: Seq<Token<Seq<char>>>) -> Option<IceProfileView> {
    let profile = IceProfileView {
        bind_addr: last_value(tokens, "--ice-bind"@),
        stun_url: last_value(tokens, "--ice-stun"@),
        turn: match last_value(tokens, "--ice-turn"@) {
            Some(t) => Some(turn_parts(t)),
            None => None,
        },
        relay_only: has_switch(tokens, "--ice-relay-only"@),
        disable_mdns: has_switch(tokens, "--disable-mdns"@),
    };
    if profile.bind_addr is Some || profile.stun_url is Some || profile.turn is Some
        || profile.relay_only || profile.disable_mdns {
        Some(profile)
    } else {
        None
    }
}

/// Whether `args` are what the tokens of an `exec` line ask for.
pub open spec fn exec_args_are(args: ExecArgs, tokens: Seq<Token<Seq<char>>>) -> bool {
    &&& positional_of(tokens) == Some(args.suite@)
    &&& args.target@ == value_or(tokens, "--target"@, "exec"@)
    &&& args.select.deep_view() == last_value(tokens, "--select"@)
    &&& args.role.deep_view() == last_value(tokens, "--role"@)
    &&& args.signaling_url.deep_view() == last_value(tokens, "--signaling"@)
    &&& args.run_id.deep_view() == last_value(tokens, "--run-id"@)
    &&& args.composed == has_switch(tokens, "--composed"@)
    &&& ice_of(tokens) == (match args.ice {
        Some(p) => Some(p@),
        None => None,
    })
    &&& args.suite_artifact.deep_view() == last_value(tokens, "--suite-artifact"@)
    &&& args.jobs == number_or(tokens, "--jobs"@, usize::MAX as nat, 1)
    &&& args.budget_secs == number_or(tokens, "--budget"@, u64::MAX as nat, BUDGET_SECS as nat)
    &&& args.case_timeout_secs == number_or(
        tokens,
        "--case-timeout"@,
        u64::MAX as nat,
        CASE_TIMEOUT_SECS as nat,
    )
    &&& args.jsonl == has_switch(tokens, "--jsonl"@)
}

/// Why a line is refused that has to name one thing, if it is: the first thing
/// wrong with it, or else the missing name.
pub open spec fn line_error(
    command: Subcommand,
    argv: Seq<Seq<char>>,
    missing: CommandError<Seq<char>>,
) -> Option<CommandError<Seq<char>>> {
    match arg_error(command, argv) {
        Some(e) => Some(CommandError::Arg(e)),
        None => if positional_of(tokens_of(command, argv)) is None {
            Some(missing)
        } else {
            None
        },
    }
}

/// The flags of `exec` by their lengths and the characters that tell those of
/// one length apart, and what each takes.
proof fn lemma_exec_flags()
    ensures
        "--jsonl"@.len() == 7,
        "--composed"@.len() == 10,
        "--ice-relay-only"@.len() == 16,
        "--disable-mdns"@.len() == 14,
        "--select"@.len() == 8,
        "--role"@.len() == 6,
        "--signaling"@.len() == 11,
        "--run-id"@.len() == 8,
        "--ice-bind"@.len() == 10,
        "--ice-stun"@.len() == 10,
        "--ice-turn"@.len() == 10,
        "--suite-artifact"@.len() == 16,
        "--target"@.len() == 8,
        "--jobs"@.len() == 6,
        "--budget"@.len() == 8,
        "--case-timeout"@.len() == 14,
        "--jsonl"@[2] == 'j',
        "--composed"@[2] == 'c',
        "--ice-relay-only"@[2] == 'i',
        "--disable-mdns"@[2] == 'd',
        "--select"@[2] == 's',
        "--role"@[2] == 'r',
        "--signaling"@[2] == 's',
        "--run-id"@[2] == 'r',
        "--ice-bind"@[2] == 'i',
        "--ice-stun"@[2] == 'i',
        "--ice-turn"@[2] == 'i',
        "--suite-artifact"@[2] == 's',
        "--target"@[2] == 't',
        "--jobs"@[2] == 'j',
        "--budget"@[2] == 'b',
        "--case-timeout"@[2] == 'c',
        "--ice-bind"@[6] == 'b',
        "--ice-stun"@[6] == 's',
        "--ice-turn"@[6] == 't',
        flag_kind(Subcommand::Exec, "--jsonl"@) == Some(FlagKind::Switch),
        flag_kind(Subcommand::Exec, "--composed"@) == Some(FlagKind::Switch),
        flag_kind(Subcommand::Exec, "--ice-relay-only"@) == Some(FlagKind::Switch),
        flag_kind(Subcommand::Exec, "--disable-mdns"@) == Some(FlagKind::Switch),
        flag_kind(Subcommand::Exec, "--select"@) == Some(FlagKind::Value),
        flag_kind(Subcommand::Exec, "--role"@) == Some(FlagKind::Value),
        flag_kind(Subcommand::Exec, "--signaling"@) == Some(FlagKind::Value),
        flag_kind(Subcommand::Exec, "--run-id"@) == Some(FlagKind::Value),
        flag_kind(Subcommand::Exec, "--ice-bind"@) == Some(FlagKind::Value),
        flag_kind(Subcommand::Exec, "--ice-stun"@) == Some(FlagKind::Value),
        flag_kind(Subcommand::Exec, "--ice-turn"@) == Some(FlagKind::Value),
        flag_kind(Subcommand::Exec, "--suite-artifact"@) == Some(FlagKind::Value),
        flag_kind(Subcommand::Exec, "--target"@) == Some(FlagKind::Value),
        flag_kind(Subcommand::Exec, "--jobs"@) == Some(FlagKind::Count),
        flag_kind(Subcommand::Exec, "--budget"@) == Some(FlagKind::Seconds),
        flag_kind(Subcommand::Exec, "--case-timeout"@) == Some(FlagKind::Seconds),
{
    reveal_strlit("--jsonl");
    reveal_strlit("--composed");
    reveal_strlit("--ice-relay-only");
    reveal_strlit("--disable-mdns");
    reveal_strlit("--select");
    reveal_strlit("--role");
    reveal_strlit("--signaling");
    reveal_strlit("--run-id");
    reveal_strlit("--ice-bind");
    reveal_strlit("--ice-stun");
    reveal_strlit("--ice-turn");
    reveal_strlit("--suite-artifact");
    reveal_strlit("--target");
    reveal_strlit("--jobs");
    reveal_strlit("--budget");
    reveal_strlit("--case-timeout");
    assert("--jsonl"@.len() == 7);
    assert("--composed"@.len() == 10);
    assert("--ice-relay-only"@.len() == 16);
    assert("--disable-mdns"@.len() == 14);
    assert("--select"@.len() == 8);
    assert("--role"@.len() == 6);
    assert("--signaling"@.len() == 11);
    assert("--run-id"@.len() == 8);
    assert("--ice-bind"@.len() == 10);
    assert("--ice-stun"@.len() == 10);
    assert("--ice-turn"@.len() == 10);
    assert("--suite-artifact"@.len() == 16);
    assert("--target"@.len() == 8);
    assert("--jobs"@.len() == 6);
    assert("--budget"@.len() == 8);
    assert("--case-timeout"@.len() == 14);
    assert("--jsonl"@[2] == 'j');
    assert("--composed"@[2] == 'c');
    assert("--ice-relay-only"@[2] == 'i');
    assert("--disable-mdns"@[2] == 'd');
    assert("--select"@[2] == 's');
    assert("--role"@[2] == 'r');
    assert("--signaling"@[2] == 's');
    assert("--run-id"@[2] == 'r');
    assert("--ice-bind"@[2] == 'i');
    assert("--ice-stun"@[2] == 'i');
    assert("--ice-turn"@[2] == 'i');
    assert("--suite-artifact"@[2] == 's');
    assert("--target"@[2] == 't');
    assert("--jobs"@[2] == 'j');
    assert("--budget"@[2] == 'b');
    assert("--case-timeout"@[2] == 'c');
    assert("--ice-bind"@[6] == 'b');
    assert("--ice-stun"@[6] == 's');
    assert("--ice-turn"@[6] == 't');
}

/// Splits a TURN server's parts.
fn split_turn(spec_text: &str) -> (r: (String, String, String))
    ensures
        (r.0@, r.1@, r.2@) == turn_parts(spec_text@),
{
    let (url, rest) = split_first(spec_text, ',');
    let (user, pass) = split_first(rest.as_str(), ',');
    (url, user, pass)
}

/// The network shape that the flags give.
fn ice_profile(tokens: &Vec<Token<String>>) -> (r: Option<IceProfile>)
    ensures
        ice_of(token_views(tokens@)) == (match r {
            Some(p) => Some(p@),
            None => None,
        }),
{
    let profile = IceProfile {
        bind_addr: value_of(tokens, "--ice-bind"),
        stun_url: value_of(tokens, "--ice-stun"),
        turn: match value_of(tokens, "--ice-turn") {
            Some(t) => Some(split_turn(t.as_str())),
            None => None,
        },
        relay_only: switch_given(tokens, "--ice-relay-only"),
        disable_mdns: switch_given(tokens, "--disable-mdns"),
    };
    if profile.bind_addr.is_some() || profile.stun_url.is_some() || profile.turn.is_some()
        || profile.relay_only || profile.disable_mdns {
        Some(profile)
    } else {
        None
    }
}

/// What an `exec` line asks for.
pub fn exec_cmd(argv: &Vec<String>) -> (r: Result<ExecArgs, CommandError<String>>)
    ensures
        match r {
            Ok(args) => line_error(
                Subcommand::Exec,
                argv.deep_view(),
                CommandError::MissingSuite,
            ) is None && exec_args_are(args, tokens_of(Subcommand::Exec, argv.deep_view())),
            Err(e) => line_error(Subcommand::Exec, argv.deep_view(), CommandError::MissingSuite)
                == Some(e@),
        },
{
    let tokens: Vec<Token<String>> = match parse_args(Subcommand::Exec, argv) {
        Ok(tokens) => tokens,
        Err(e) => {
            return Err(CommandError::Arg(e));
        },
    };
    let suite: String = match positional(&tokens) {
        Some(suite) => suite,
        None => {
            return Err(CommandError::MissingSuite);
        },
    };
    proof {
        lemma_exec_flags();
    }
    let jobs: u64 = value_as_number(Subcommand::Exec, &tokens, "--jobs", FlagKind::Count, 1);
    Ok(
        ExecArgs {
            suite,
            target: text_or(&tokens, "--target", "exec"),
            select: value_of(&tokens, "--select"),
            role: value_of(&tokens, "--role"),
            signaling_url: value_of(&tokens, "--signaling"),
            run_id: value_of(&tokens, "--run-id"),
            composed: switch_given(&tokens, "--composed"),
            ice: ice_profile(&tokens),
            suite_artifact: value_of(&tokens, "--suite-artifact"),
            jobs: jobs as usize,
            budget_secs: value_as_number(
                Subcommand::Exec,
                &tokens,
                "--budget",
                FlagKind::Seconds,
                BUDGET_SECS,
            ),
            case_timeout_secs: value_as_number(
                Subcommand::Exec,
                &tokens,
                "--case-timeout",
                FlagKind::Seconds,
                CASE_TIMEOUT_SECS,
            ),
            jsonl: switch_given(&tokens, "--jsonl"),
        },
    )
}

/// What `loopback` is asked for.
#[derive(Debug)]
pub struct LoopbackArgs {
    /// The suite to run.
    pub suite: String,
    /// The target that the stream is of.
    pub target: String,
    /// How every instance produces its stream.
    pub peer: PeerKind,
    /// Where the merged stream goes.
    pub out: Option<String>,
}

/// A [`LoopbackArgs`] by its texts.
pub struct LoopbackView {
    /// The suite to run.
    pub suite: Seq<char>,
    /// The target that the stream is of.
    pub target: Seq<char>,
    /// How every instance produces its stream.
    pub peer: PeerKindView,
    /// Where the merged stream goes.
    pub out: Option<Seq<char>>,
}

impl View for LoopbackArgs {
    type V = LoopbackView;

    open spec fn view(&self) -> LoopbackView {
        LoopbackView {
            suite: self.suite@,
            target: self.target@,
            peer: self.peer@,
            out: self.out.deep_view(),
        }
    }
}

/// How the instances of a loopback leg of that kind produce their streams.
pub open spec fn loopback_peer(
    kind: Seq<char>,
    suite: Seq<char>,
    artifact: Option<Seq<char>>,
    script: Option<Seq<char>>,
) -> Result<PeerKindView, CommandError<Seq<char>>> {
    if kind == "wasmtime"@ {
        Ok(PeerKindView::SelfExec { artifact: suite, composed: false, suite_artifact: None })
    } else if kind == "composed"@ {
        match artifact {
            None => Err(CommandError::ComposedNeedsArtifact),
            Some(a) => Ok(
                PeerKindView::SelfExec { artifact: a, composed: true, suite_artifact: Some(suite) },
            ),
        }
    } else if kind == "polyengine-deno"@ {
        match script {
            None => Err(CommandError::DenoNeedsScript),
            Some(s) => Ok(PeerKindView::Deno { script: s, args: seq![] }),
        }
    } else if kind == "polyengine-browser"@ {
        match script {
            None => Err(CommandError::BrowserNeedsScript),
            Some(s) => Ok(PeerKindView::Node { script: s, args: seq![] }),
        }
    } else {
        Err(CommandError::UnknownKind(kind))
    }
}

/// What a `loopback` line asks for, or why it is refused.
pub open spec fn loopback_outcome(argv: Seq<Seq<char>>) -> Result<
    LoopbackView,
    CommandError<Seq<char>>,
> {
    let tokens = tokens_of(Subcommand::Loopback, argv);
    match line_error(Subcommand::Loopback, argv, CommandError::MissingSuite) {
        Some(e) => Err(e),
        None => match (last_value(tokens, "--target"@), last_value(tokens, "--kind"@)) {
            (None, _) => Err(CommandError::MissingTarget),
            (Some(_), None) => Err(CommandError::MissingKind),
            (Some(target), Some(kind)) => {
                let suite = positional_of(tokens)->0;
                match loopback_peer(
                    kind,
                    suite,
                    last_value(tokens, "--artifact"@),
                    last_value(tokens, "--script"@),
                ) {
                    Err(e) => Err(e),
                    Ok(peer) => Ok(
                        LoopbackView { suite, target, peer, out: last_value(tokens, "-o"@) },
                    ),
                }
            },
        },
    }
}

/// How the instances of a loopback leg produce their streams.
fn loopback_kind(
    kind: &str,
    suite: &String,
    artifact: Option<String>,
    script: Option<String>,
) -> (r: Result<PeerKind, CommandError<String>>)
    ensures
        match r {
            Ok(peer) => loopback_peer(kind@, suite@, artifact.deep_view(), script.deep_view())
                == Ok::<PeerKindView, CommandError<Seq<char>>>(peer@),
            Err(e) => loopback_peer(kind@, suite@, artifact.deep_view(), script.deep_view())
                == Err::<PeerKindView, CommandError<Seq<char>>>(e@),
        },
{
    let args: Vec<String> = Vec::new();
    assert(args.deep_view() =~= seq![]);
    if same_text(kind, "wasmtime") {
        Ok(PeerKind::SelfExec { artifact: suite.clone(), composed: false, suite_artifact: None })
    } else if same_text(kind, "composed") {
        match artifact {
            None => Err(CommandError::ComposedNeedsArtifact),
            Some(artifact) => Ok(
                PeerKind::SelfExec {
                    artifact,
                    composed: true,
                    suite_artifact: Some(suite.clone()),
                },
            ),
        }
    } else if same_text(kind, "polyengine-deno") {
        match script {
            None => Err(CommandError::DenoNeedsScript),
            Some(script) => Ok(PeerKind::Deno { script, args }),
        }
    } else if same_text(kind, "polyengine-browser") {
        match script {
            None => Err(CommandError::BrowserNeedsScript),
            Some(script) => Ok(PeerKind::Node { script, args }),
        }
    } else {
        Err(CommandError::UnknownKind(text(kind)))
    }
}

/// What a `loopback` line asks for.
pub fn loopback_cmd(argv: &Vec<String>) -> (r: Result<LoopbackArgs, CommandError<String>>)
    ensures
        match r {
            Ok(args) => loopback_outcome(argv.deep_view()) == Ok::<
                LoopbackView,
                CommandError<Seq<char>>,
            >(args@),
            Err(e) => loopback_outcome(argv.deep_view()) == Err::<
                LoopbackView,
                CommandError<Seq<char>>,
            >(e@),
        },
{
    let tokens: Vec<Token<String>> = match parse_args(Subcommand::Loopback, argv) {
        Ok(tokens) => tokens,
        Err(e) => {
            return Err(CommandError::Arg(e));
        },
    };
    let suite: String = match positional(&tokens) {
        Some(suite) => suite,
        None => {
            return Err(CommandError::MissingSuite);
        },
    };
    let target: String = match value_of(&tokens, "--target") {
        Some(target) => target,
        None => {
            return Err(CommandError::MissingTarget);
        },
    };
    let kind: String = match value_of(&tokens, "--kind") {
        Some(kind) => kind,
        None => {
            return Err(CommandError::MissingKind);
        },
    };
    let artifact: Option<String> = value_of(&tokens, "--artifact");
    let script: Option<String> = value_of(&tokens, "--script");
    match loopback_kind(kind.as_str(), &suite, artifact, script) {
        Err(e) => Err(e),
        Ok(peer) => Ok(LoopbackArgs { suite, target, peer, out: value_of(&tokens, "-o") }),
    }
}

/// What `interop` is asked for.
#[derive(Debug)]
pub struct InteropArgs {
    /// The pair suite to run.
    pub suite: String,
    /// The kind of the offering side.
    pub offerer: String,
    /// The kind of the answering side.
    pub answerer: String,
    /// The target that the stream is of.
    pub target: String,
    /// The pair suite composed with the in-guest provider.
    pub composed_pair: Option<String>,
    /// The Deno leg's script.
    pub deno_script: Option<String>,
    /// The browser leg's script.
    pub browser_script: Option<String>,
    /// The reference peer.
    pub reference_bin: String,
    /// Where the merged stream goes.
    pub out: Option<String>,
}

/// Whether `direction` reads as the two sides `offerer` and `answerer`: they
/// stand before and after the first `-x-`.
pub open spec fn splits_as(
    direction: Seq<char>,
    offerer: Seq<char>,
    answerer: Seq<char>,
) -> bool {
    &&& direction == offerer + "-x-"@ + answerer
    &&& forall|j: int| 0 <= j < offerer.len() ==> !occurs_at(direction, "-x-"@, j)
}

/// Why an `interop` line is refused, if it is.
pub open spec fn interop_error(argv: Seq<Seq<char>>) -> Option<CommandError<Seq<char>>> {
    match line_error(Subcommand::Interop, argv, CommandError::MissingPairSuite) {
        Some(e) => Some(e),
        None => match last_value(tokens_of(Subcommand::Interop, argv), "--direction"@) {
            None => Some(CommandError::MissingDirection),
            Some(direction) => if !contains_text(direction, "-x-"@) {
                Some(CommandError::BadDirection)
            } else {
                None
            },
        },
    }
}

/// Whether `args` are what the tokens of an `interop` line ask for.
pub open spec fn interop_args_are(args: InteropArgs, tokens: Seq<Token<Seq<char>>>) -> bool {
    let direction = last_value(tokens, "--direction"@)->0;
    &&& positional_of(tokens) == Some(args.suite@)
    &&& splits_as(direction, args.offerer@, args.answerer@)
    &&& args.target@ == value_or(tokens, "--target"@, direction)
    &&& args.composed_pair.deep_view() == last_value(tokens, "--composed-pair"@)
    &&& args.deno_script.deep_view() == last_value(tokens, "--deno-script"@)
    &&& args.browser_script.deep_view() == last_value(tokens, "--browser-script"@)
    &&& args.reference_bin@ == value_or(
        tokens,
        "--reference-bin"@,
        "target/release/conformance-reference-peer"@,
    )
    &&& args.out.deep_view() == last_value(tokens, "-o"@)
}

/// What an `interop` line asks for.
pub fn interop_cmd(argv: &Vec<String>) -> (r: Result<InteropArgs, CommandError<String>>)
    ensures
        match r {
            Ok(args) => interop_error(argv.deep_view()) is None && interop_args_are(
                args,
                tokens_of(Subcommand::Interop, argv.deep_view()),
            ),
            Err(e) => interop_error(argv.deep_view()) == Some(e@),
        },
{
    let tokens: Vec<Token<String>> = match parse_args(Subcommand::Interop, argv) {
        Ok(tokens) => tokens,
        Err(e) => {
            return Err(CommandError::Arg(e));
        },
    };
    let suite: String = match positional(&tokens) {
        Some(suite) => suite,
        None => {
            return Err(CommandError::MissingPairSuite);
        },
    };
    let direction: String = match value_of(&tokens, "--direction") {
        Some(direction) => direction,
        None => {
            return Err(CommandError::MissingDirection);
        },
    };
    let target: String = text_or(&tokens, "--target", direction.as_str());
    let chars: Vec<char> = chars_of(direction.as_str());
    let mark: Vec<char> = chars_of("-x-");
    let at: usize = match find_from(&chars, &mark, 0) {
        Some(at) => at,
        None => {
            return Err(CommandError::BadDirection);
        },
    };
    let len: usize = chars.len();
    let offerer: String = text_between(&chars, 0, at);
    let answerer: String = text_between(&chars, at + mark.len(), len);
    proof {
        assert(direction@ =~= offerer@ + chars@.subrange(at as int, at + mark@.len()) + answerer@);
    }
    Ok(
        InteropArgs {
            suite,
            offerer,
            answerer,
            target,
            composed_pair: value_of(&tokens, "--composed-pair"),
            deno_script: value_of(&tokens, "--deno-script"),
            browser_script: value_of(&tokens, "--browser-script"),
            reference_bin: text_or(
                &tokens,
                "--reference-bin",
                "target/release/conformance-reference-peer",
            ),
            out: value_of(&tokens, "-o"),
        },
    )
}

/// How an interop child addresses the pair-suite artifact.
#[derive(Clone, Copy, Debug, PartialEq, Eq, Structural)]
pub enum PairSuitePath {
    /// By a filesystem path: the child runs in the script's directory, so the
    /// path must be absolute.
    Filesystem,
    /// By a path under the browser child's static server, which serves the
    /// repository root.
    Served,
}

/// What the filesystem says of the pair suite's path.
#[derive(Debug)]
pub struct SuitePath {
    /// The absolute path that it resolves to, or why it does not.
    pub canonical: Result<String, String>,
    /// Whether it is absolute.
    pub absolute: bool,
}

/// The child's choice of the pair-only suite, or why it cannot be made.
pub open spec fn pair_suite_choice(
    suite: Seq<char>,
    form: PairSuitePath,
    path: SuitePath,
) -> Result<Seq<Seq<char>>, CommandError<Seq<char>>> {
    let chosen = match form {
        PairSuitePath::Filesystem => match path.canonical {
            Ok(canonical) => Ok(canonical@),
            Err(why) => Err(CommandError::UnresolvedSuite(suite, why@)),
        },
        PairSuitePath::Served => if path.absolute {
            Err(CommandError::AbsoluteSuite(suite))
        } else {
            Ok("/"@ + suite)
        },
    };
    match chosen {
        Ok(arg) => Ok(seq!["--suite"@, arg, "--name"@, "conformance-guest-pair-ct"@]),
        Err(e) => Err(e),
    }
}

/// The script children's pair-artifact selection: the interop matrix runs the
/// pair-only suite.
pub fn pair_suite_args(suite: &str, form: PairSuitePath, path: &SuitePath) -> (r: Result<
    Vec<String>,
    CommandError<String>,
>)
    ensures
        match r {
            Ok(args) => pair_suite_choice(suite@, form, *path) == Ok::<
                Seq<Seq<char>>,
                CommandError<Seq<char>>,
            >(args.deep_view()),
            Err(e) => pair_suite_choice(suite@, form, *path) == Err::<
                Seq<Seq<char>>,
                CommandError<Seq<char>>,
            >(e@),
        },
{
    let suite_arg: String = match form {
        PairSuitePath::Filesystem => match &path.canonical {
            Ok(canonical) => canonical.clone(),
            Err(why) => {
                return Err(CommandError::UnresolvedSuite(text(suite), why.clone()));
            },
        },
        PairSuitePath::Served => {
            if path.absolute {
                return Err(CommandError::AbsoluteSuite(text(suite)));
            }
            let mut served: String = text("/");
            served.append(suite);
            served
        },
    };
    let ghost chosen = suite_arg@;
    let mut args: Vec<String> = Vec::new();
    args.push(text("--suite"));
    args.push(suite_arg);
    args.push(text("--name"));
    args.push(text("conformance-guest-pair-ct"));
    assert(args.deep_view() =~= seq![
        "--suite"@,
        chosen,
        "--name"@,
        "conformance-guest-pair-ct"@,
    ]);
    Ok(args)
}

/// How a side of that name produces its stream, or why it cannot.
pub open spec fn side_peer(name: Seq<char>, args: InteropArgs, path: SuitePath) -> Result<
    PeerKindView,
    CommandError<Seq<char>>,
> {
    if name == "wasmtime"@ {
        Ok(PeerKindView::SelfExec { artifact: args.suite@, composed: false, suite_artifact: None })
    } else if name == "wasip3-guest"@ {
        match args.composed_pair {
            None => Err(CommandError::SideNeedsComposedPair),
            Some(a) => Ok(
                PeerKindView::SelfExec {
                    artifact: a@,
                    composed: true,
                    suite_artifact: Some(args.suite@),
                },
            ),
        }
    } else if name == "polyengine-deno"@ {
        match args.deno_script {
            None => Err(CommandError::SideNeedsDenoScript),
            Some(s) => match pair_suite_choice(args.suite@, PairSuitePath::Filesystem, path) {
                Err(e) => Err(e),
                Ok(more) => Ok(PeerKindView::Deno { script: s@, args: more }),
            },
        }
    } else if name == "polyengine-browser"@ {
        match args.browser_script {
            None => Err(CommandError::SideNeedsBrowserScript),
            Some(s) => match pair_suite_choice(args.suite@, PairSuitePath::Served, path) {
                Err(e) => Err(e),
                Ok(more) => Ok(PeerKindView::Node { script: s@, args: more }),
            },
        }
    } else if name == "reference"@ {
        Ok(PeerKindView::Reference { bin: args.reference_bin@ })
    } else {
        Err(CommandError::UnknownSide(name))
    }
}

/// How a side of that name produces its stream.
fn side(name: &str, args: &InteropArgs, path: &SuitePath) -> (r: Result<
    PeerKind,
    CommandError<String>,
>)
    ensures
        match r {
            Ok(peer) => side_peer(name@, *args, *path) == Ok::<
                PeerKindView,
                CommandError<Seq<char>>,
            >(peer@),
            Err(e) => side_peer(name@, *args, *path) == Err::<
                PeerKindView,
                CommandError<Seq<char>>,
            >(e@),
        },
{
    if same_text(name, "wasmtime") {
        Ok(
            PeerKind::SelfExec {
                artifact: args.suite.clone(),
                composed: false,
                suite_artifact: None,
            },
        )
    } else if same_text(name, "wasip3-guest") {
        match &args.composed_pair {
            None => Err(CommandError::SideNeedsComposedPair),
            Some(artifact) => Ok(
                PeerKind::SelfExec {
                    artifact: artifact.clone(),
                    composed: true,
                    suite_artifact: Some(args.suite.clone()),
                },
            ),
        }
    } else if same_text(name, "polyengine-deno") {
        match &args.deno_script {
            None => Err(CommandError::SideNeedsDenoScript),
            Some(script) => match pair_suite_args(
                args.suite.as_str(),
                PairSuitePath::Filesystem,
                path,
            ) {
                Err(e) => Err(e),
                Ok(more) => Ok(PeerKind::Deno { script: script.clone(), args: more }),
            },
        }
    } else if same_text(name, "polyengine-browser") {
        match &args.browser_script {
            None => Err(CommandError::SideNeedsBrowserScript),
            Some(script) => match pair_suite_args(
                args.suite.as_str(),
                PairSuitePath::Served,
                path,
            ) {
                Err(e) => Err(e),
                Ok(more) => Ok(PeerKind::Node { script: script.clone(), args: more }),
            },
        }
    } else if same_text(name, "reference") {
        Ok(PeerKind::Reference { bin: args.reference_bin.clone() })
    } else {
        Err(CommandError::UnknownSide(text(name)))
    }
}

/// How the two sides of an interop direction produce their streams; the
/// offering side's refusal comes first.
pub fn interop_peers(args: &InteropArgs, path: &SuitePath) -> (r: Result<
    (PeerKind, PeerKind),
    CommandError<String>,
>)
    ensures
        match r {
            Ok((offerer, answerer)) => side_peer(args.offerer@, *args, *path) == Ok::<
                PeerKindView,
                CommandError<Seq<char>>,
            >(offerer@) && side_peer(args.answerer@, *args, *path) == Ok::<
                PeerKindView,
                CommandError<Seq<char>>,
            >(answerer@),
            Err(e) => match side_peer(args.offerer@, *args, *path) {
                Err(first) => e@ == first,
                Ok(_) => side_peer(args.answerer@, *args, *path) == Err::<
                    PeerKindView,
                    CommandError<Seq<char>>,
                >(e@),
            },
        },
{
    let offerer: PeerKind = match side(args.offerer.as_str(), args, path) {
        Ok(peer) => peer,
        Err(e) => {
            return Err(e);
        },
    };
    match side(args.answerer.as_str(), args, path) {
        Ok(answerer) => Ok((offerer, answerer)),
        Err(e) => Err(e),
    }
}

/// How a run of `target` is set up: a fresh id, from the process and the time,
/// and the bounds of every case.
pub fn run_context(target: &str, signaling_url: String, pid: u32, nanos: u128) -> (r: RunContext)
    ensures
        r.signaling_url == signaling_url,
        r.run_id@ == run_id_of(target@, pid as nat, nanos as nat),
        r.case_timeout_secs == CASE_TIMEOUT_SECS,
        r.budget_secs == BUDGET_SECS,
{
    RunContext {
        signaling_url,
        run_id: run_id(target, pid, nanos),
        case_timeout_secs: CASE_TIMEOUT_SECS,
        budget_secs: BUDGET_SECS,
    }
}

/// One stream of a run.
#[derive(Debug)]
pub struct StreamRequest {
    /// The prefix of the cases that it runs.
    pub select: &'static str,
    /// The side of a pair that it plays.
    pub role: Option<&'static str>,
    /// How many cases run at a time.
    pub jobs: usize,
}

/// The stream of a target's solo cases: one side alone, four cases at a time.
pub fn solo_stream() -> (r: StreamRequest)
    ensures
        r.select@ == "solo/"@,
        r.role is None,
        r.jobs == 4,
{
    StreamRequest { select: "solo/", role: None, jobs: 4 }
}

/// The streams of a target's pair cases: the offering side and the answering
/// side, each one case at a time, so that the two meet in every case.
pub fn pair_streams() -> (r: (StreamRequest, StreamRequest))
    ensures
        r.0.select@ == "pair/"@,
        opt_text(r.0.role) == Some("offerer"@),
        r.0.jobs == 1,
        r.1.select@ == "pair/"@,
        opt_text(r.1.role) == Some("answerer"@),
        r.1.jobs == 1,
{
    (
        StreamRequest { select: "pair/", role: Some("offerer"), jobs: 1 },
        StreamRequest { select: "pair/", role: Some("answerer"), jobs: 1 },
    )
}

/// What `shadow` is asked for.
#[derive(Debug)]
pub struct ShadowArgs {
    /// The pair suite to run.
    pub pair_suite: String,
    /// The pair suite composed with the in-guest provider.
    pub composed_pair: Option<String>,
    /// The kind of the offering side.
    pub offerer_kind: String,
    /// The kind of the answering side.
    pub answerer_kind: String,
    /// The target that the stream is of.
    pub target: String,
    /// The simulator.
    pub shadow_bin: String,
    /// The signaling server.
    pub signaling_bin: String,
    /// The reference peer.
    pub reference_bin: String,
    /// Where the simulator keeps its data.
    pub data_dir: String,
    /// Where the stream goes.
    pub out: Option<String>,
}

/// The target of a Shadow row that names none: its sides, once where they are
/// the same.
pub open spec fn shadow_target(offerer: Seq<char>, answerer: Seq<char>) -> Seq<char> {
    (if offerer == answerer {
        offerer
    } else {
        offerer + "-x-"@ + answerer
    }) + "-shadow"@
}

/// Whether `args` are what the tokens of a `shadow` line ask for.
pub open spec fn shadow_args_are(args: ShadowArgs, tokens: Seq<Token<Seq<char>>>) -> bool {
    let named = value_or(tokens, "--target"@, Seq::empty());
    &&& positional_of(tokens) == Some(args.pair_suite@)
    &&& args.composed_pair.deep_view() == last_value(tokens, "--composed-pair"@)
    &&& args.offerer_kind@ == value_or(tokens, "--offerer-kind"@, "wasmtime"@)
    &&& args.answerer_kind@ == value_or(tokens, "--answerer-kind"@, "wasmtime"@)
    &&& args.target@ == (if named.len() == 0 {
        shadow_target(args.offerer_kind@, args.answerer_kind@)
    } else {
        named
    })
    &&& args.shadow_bin@ == value_or(tokens, "--shadow-bin"@, "shadow"@)
    &&& args.signaling_bin@ == value_or(
        tokens,
        "--signaling-bin"@,
        "target/debug/conformance-signalingd"@,
    )
    &&& args.reference_bin@ == value_or(
        tokens,
        "--reference-bin"@,
        "target/release/conformance-reference-peer"@,
    )
    &&& args.data_dir@ == value_or(tokens, "--data-dir"@, "target/shadow-data"@)
    &&& args.out.deep_view() == last_value(tokens, "-o"@)
}

/// What a `shadow` line asks for.
pub fn shadow_cmd(argv: &Vec<String>) -> (r: Result<ShadowArgs, CommandError<String>>)
    ensures
        match r {
            Ok(args) => line_error(
                Subcommand::Shadow,
                argv.deep_view(),
                CommandError::MissingPairSuite,
            ) is None && shadow_args_are(args, tokens_of(Subcommand::Shadow, argv.deep_view())),
            Err(e) => line_error(
                Subcommand::Shadow,
                argv.deep_view(),
                CommandError::MissingPairSuite,
            ) == Some(e@),
        },
{
    let tokens: Vec<Token<String>> = match parse_args(Subcommand::Shadow, argv) {
        Ok(tokens) => tokens,
        Err(e) => {
            return Err(CommandError::Arg(e));
        },
    };
    let pair_suite: String = match positional(&tokens) {
        Some(suite) => suite,
        None => {
            return Err(CommandError::MissingPairSuite);
        },
    };
    let offerer_kind: String = text_or(&tokens, "--offerer-kind", "wasmtime");
    let answerer_kind: String = text_or(&tokens, "--answerer-kind", "wasmtime");
    let mut target: String = match value_of(&tokens, "--target") {
        Some(target) => target,
        None => String::new(),
    };
    if target.as_str().is_empty() {
        target = offerer_kind.clone();
        if !same_text(offerer_kind.as_str(), answerer_kind.as_str()) {
            target.append("-x-");
            target.append(answerer_kind.as_str());
        }
        target.append("-shadow");
    }
    Ok(
        ShadowArgs {
            pair_suite,
            composed_pair: value_of(&tokens, "--composed-pair"),
            offerer_kind,
            answerer_kind,
            target,
            shadow_bin: text_or(&tokens, "--shadow-bin", "shadow"),
            signaling_bin: text_or(
                &tokens,
                "--signaling-bin",
                "target/debug/conformance-signalingd",
            ),
            reference_bin: text_or(
                &tokens,
                "--reference-bin",
                "target/release/conformance-reference-peer",
            ),
            data_dir: text_or(&tokens, "--data-dir", "target/shadow-data"),
            out: value_of(&tokens, "-o"),
        },
    )
}

/// What `netns` is asked for.
#[derive(Debug)]
pub struct NetnsArgs {
    /// The pair suite to run.
    pub pair_suite: String,
    /// The scenario.
    pub scenario: String,
    /// The target that the stream is of.
    pub target: Option<String>,
    /// The signaling server.
    pub signaling_bin: String,
    /// Where the stream goes.
    pub out: Option<String>,
}

/// Whether `args` are what the tokens of a `netns` line ask for.
pub open spec fn netns_args_are(args: NetnsArgs, tokens: Seq<Token<Seq<char>>>) -> bool {
    &&& positional_of(tokens) == Some(args.pair_suite@)
    &&& args.scenario@ == value_or(tokens, "--scenario"@, "lan"@)
    &&& args.target.deep_view() == last_value(tokens, "--target"@)
    &&& args.signaling_bin@ == value_or(
        tokens,
        "--signaling-bin"@,
        "target/debug/conformance-signalingd"@,
    )
    &&& args.out.deep_view() == last_value(tokens, "-o"@)
}

/// What a `netns` line asks for.
pub fn netns_cmd(argv: &Vec<String>) -> (r: Result<NetnsArgs, CommandError<String>>)
    ensures
        match r {
            Ok(args) => line_error(
                Subcommand::Netns,
                argv.deep_view(),
                CommandError::MissingPairSuite,
            ) is None && netns_args_are(args, tokens_of(Subcommand::Netns, argv.deep_view())),
            Err(e) => line_error(
                Subcommand::Netns,
                argv.deep_view(),
                CommandError::MissingPairSuite,
            ) == Some(e@),
        },
{
    let tokens: Vec<Token<String>> = match parse_args(Subcommand::Netns, argv) {
        Ok(tokens) => tokens,
        Err(e) => {
            return Err(CommandError::Arg(e));
        },
    };
    let pair_suite: String = match positional(&tokens) {
        Some(suite) => suite,
        None => {
            return Err(CommandError::MissingPairSuite);
        },
    };
    Ok(
        NetnsArgs {
            pair_suite,
            scenario: text_or(&tokens, "--scenario", "lan"),
            target: value_of(&tokens, "--target"),
            signaling_bin: text_or(
                &tokens,
                "--signaling-bin",
                "target/debug/conformance-signalingd",
            ),
            out: value_of(&tokens, "-o"),
        },
    )
}

/// A list of arguments that begins with a flag and its value.
proof fn lemma_option_first(flag: Seq<char>, value: Seq<char>, rest: Seq<Seq<char>>)
    requires
        flag_kind(Subcommand::Exec, flag) is Some,
        flag_kind(Subcommand::Exec, flag) != Some(FlagKind::Switch),
    ensures
        tokens_of(Subcommand::Exec, seq![flag, value] + rest) == seq![
            Token::<Seq<char>>::Option(flag, value),
        ] + tokens_of(Subcommand::Exec, rest),
{
    assert((seq![flag, value] + rest).skip(2) =~= rest);
}

/// A list of arguments that begins with a switch.
proof fn lemma_switch_first(flag: Seq<char>, rest: Seq<Seq<char>>)
    requires
        flag_kind(Subcommand::Exec, flag) == Some(FlagKind::Switch),
    ensures
        tokens_of(Subcommand::Exec, seq![flag] + rest) == seq![Token::<Seq<char>>::Switch(flag)]
            + tokens_of(Subcommand::Exec, rest),
{
    assert((seq![flag] + rest).skip(1) =~= rest);
}

/// A flag's last value is the value of its only token.
proof fn lemma_only_value(tokens: Seq<Token<Seq<char>>>, at: int, flag: Seq<char>, value: Seq<char>)
    requires
        0 <= at < tokens.len(),
        tokens[at] == Token::<Seq<char>>::Option(flag, value),
        forall|j: int|
            at < j < tokens.len() ==> !(#[trigger] tokens[j] matches Token::Option(f, _) && f
                == flag),
    ensures
        last_value(tokens, flag) == Some(value),
    decreases tokens.len(),
{
    if at < tokens.len() - 1 {
        assert(!(tokens[tokens.len() - 1] matches Token::Option(f, _) && f == flag));
        lemma_only_value(tokens.drop_last(), at, flag, value);
    }
}

/// A flag without a token has no value.
proof fn lemma_no_value(tokens: Seq<Token<Seq<char>>>, flag: Seq<char>)
    requires
        forall|j: int|
            0 <= j < tokens.len() ==> !(#[trigger] tokens[j] matches Token::Option(f, _) && f
                == flag),
    ensures
        last_value(tokens, flag) is None,
    decreases tokens.len(),
{
    if tokens.len() > 0 {
        assert(!(tokens[tokens.len() - 1] matches Token::Option(f, _) && f == flag));
        lemma_no_value(tokens.drop_last(), flag);
    }
}

/// The first argument that is no flag is the one at the front.
proof fn lemma_positional_first(tokens: Seq<Token<Seq<char>>>, suite: Seq<char>)
    requires
        tokens.len() > 0,
        tokens[0] == Token::<Seq<char>>::Positional(suite),
    ensures
        positional_of(tokens) == Some(suite),
    decreases tokens.len(),
{
    if tokens.len() > 1 {
        lemma_positional_first(tokens.drop_last(), suite);
    } else {
        assert(positional_of(tokens.drop_last()) is None);
    }
}

/// A line whose tokens are all fine is fine.
proof fn lemma_all_fine(command: Subcommand, tokens: Seq<Token<Seq<char>>>, n: int)
    requires
        forall|i: int| 0 <= i < n ==> #[trigger] offence(command, tokens, i) is None,
    ensures
        first_offence(command, tokens, n) is None,
    decreases n,
{
    if n > 0 {
        lemma_all_fine(command, tokens, n - 1);
        assert(offence(command, tokens, n - 1) is None);
    }
}

/// The tokens of a self-exec child's arguments.
spec fn self_exec_tokens(
    artifact: Seq<char>,
    composed: bool,
    suite_artifact: Option<Seq<char>>,
    ctx: RunContext,
    select: Seq<char>,
    role: Option<Seq<char>>,
    jobs: nat,
) -> Seq<Token<Seq<char>>> {
    let base = seq![
        Token::Positional(artifact),
        Token::Switch("--jsonl"@),
        Token::Option("--select"@, select),
        Token::Option("--jobs"@, decimal(jobs)),
        Token::Option("--budget"@, decimal(ctx.budget_secs as nat)),
        Token::Option("--case-timeout"@, decimal(ctx.case_timeout_secs as nat)),
    ];
    let composed_tokens = if composed {
        seq![Token::Switch("--composed"@)]
    } else {
        seq![]
    };
    let artifact_tokens = match suite_artifact {
        Some(a) => seq![Token::Option("--suite-artifact"@, a)],
        None => seq![],
    };
    let role_tokens = match role {
        Some(r) => seq![
            Token::Option("--role"@, r),
            Token::Option("--signaling"@, ctx.signaling_url@),
            Token::Option("--run-id"@, ctx.run_id@),
        ],
        None => seq![],
    };
    base + composed_tokens + artifact_tokens + role_tokens
}

/// The arguments of a self-exec child read as those tokens.
proof fn lemma_self_exec_tokens(
    artifact: Seq<char>,
    composed: bool,
    suite_artifact: Option<Seq<char>>,
    ctx: RunContext,
    select: Seq<char>,
    role: Option<Seq<char>>,
    jobs: nat,
)
    requires
        artifact.len() == 0 || artifact[0] != '-',
    ensures
        tokens_of(
            Subcommand::Exec,
            self_exec_args(artifact, composed, suite_artifact, ctx, select, role, jobs).skip(1),
        ) == self_exec_tokens(artifact, composed, suite_artifact, ctx, select, role, jobs),
{
    lemma_exec_flags();
    let url = ctx.signaling_url@;
    let id = ctx.run_id@;
    let none = Seq::<Seq<char>>::empty();
    let role_args = match role {
        Some(r) => seq!["--role"@, r, "--signaling"@, url, "--run-id"@, id],
        None => none,
    };
    let role_tokens = match role {
        Some(r) => seq![
            Token::Option("--role"@, r),
            Token::Option("--signaling"@, url),
            Token::Option("--run-id"@, id),
        ],
        None => Seq::<Token<Seq<char>>>::empty(),
    };
    assert(tokens_of(Subcommand::Exec, none) =~= Seq::<Token<Seq<char>>>::empty());
    assert(tokens_of(Subcommand::Exec, role_args) == role_tokens) by {
        if let Some(r) = role {
            let third = seq!["--run-id"@, id] + none;
            let second = seq!["--signaling"@, url] + third;
            lemma_option_first("--run-id"@, id, none);
            lemma_option_first("--signaling"@, url, third);
            lemma_option_first("--role"@, r, second);
            assert(role_args =~= seq!["--role"@, r] + second);
            assert(tokens_of(Subcommand::Exec, role_args) =~= role_tokens);
        }
    }
    let artifact_args = match suite_artifact {
        Some(a) => seq!["--suite-artifact"@, a] + role_args,
        None => role_args,
    };
    let artifact_tokens = match suite_artifact {
        Some(a) => seq![Token::Option("--suite-artifact"@, a)] + role_tokens,
        None => role_tokens,
    };
    if let Some(a) = suite_artifact {
        lemma_option_first("--suite-artifact"@, a, role_args);
    }
    let composed_args = if composed {
        seq!["--composed"@] + artifact_args
    } else {
        artifact_args
    };
    let composed_tokens = if composed {
        seq![Token::Switch("--composed"@)] + artifact_tokens
    } else {
        artifact_tokens
    };
    if composed {
        lemma_switch_first("--composed"@, artifact_args);
    }
    let timeout = decimal(ctx.case_timeout_secs as nat);
    let budget = decimal(ctx.budget_secs as nat);
    let from_timeout = seq!["--case-timeout"@, timeout] + composed_args;
    let from_budget = seq!["--budget"@, budget] + from_timeout;
    let from_jobs = seq!["--jobs"@, decimal(jobs)] + from_budget;
    let from_select = seq!["--select"@, select] + from_jobs;
    let from_jsonl = seq!["--jsonl"@] + from_select;
    lemma_option_first("--case-timeout"@, timeout, composed_args);
    lemma_option_first("--budget"@, budget, from_timeout);
    lemma_option_first("--jobs"@, decimal(jobs), from_budget);
    lemma_option_first("--select"@, select, from_jobs);
    lemma_switch_first("--jsonl"@, from_select);
    let argv = seq![artifact] + from_jsonl;
    assert(argv =~= self_exec_args(
        artifact,
        composed,
        suite_artifact,
        ctx,
        select,
        role,
        jobs,
    ).skip(1));
    assert(flag_kind(Subcommand::Exec, artifact) is None) by {
        lemma_exec_flags_dashed();
        if flag_kind(Subcommand::Exec, artifact) is Some {
            assert(artifact[0] == '-');
        }
    }
    assert(argv.skip(1) =~= from_jsonl);
    assert(tokens_of(Subcommand::Exec, argv) =~= self_exec_tokens(
        artifact,
        composed,
        suite_artifact,
        ctx,
        select,
        role,
        jobs,
    ));
}

/// Every flag of `exec` begins with a dash.
proof fn lemma_exec_flags_dashed()
    ensures
        forall|f: Seq<char>|
            flag_kind(Subcommand::Exec, f) is Some ==> f.len() > 0 && #[trigger] f[0] == '-',
{
    reveal_strlit("--jsonl");
    assert("--jsonl"@[0] == '-');
    reveal_strlit("--composed");
    assert("--composed"@[0] == '-');
    reveal_strlit("--ice-relay-only");
    assert("--ice-relay-only"@[0] == '-');
    reveal_strlit("--disable-mdns");
    assert("--disable-mdns"@[0] == '-');
    reveal_strlit("--select");
    assert("--select"@[0] == '-');
    reveal_strlit("--role");
    assert("--role"@[0] == '-');
    reveal_strlit("--signaling");
    assert("--signaling"@[0] == '-');
    reveal_strlit("--run-id");
    assert("--run-id"@[0] == '-');
    reveal_strlit("--ice-bind");
    assert("--ice-bind"@[0] == '-');
    reveal_strlit("--ice-stun");
    assert("--ice-stun"@[0] == '-');
    reveal_strlit("--ice-turn");
    assert("--ice-turn"@[0] == '-');
    reveal_strlit("--suite-artifact");
    assert("--suite-artifact"@[0] == '-');
    reveal_strlit("--target");
    assert("--target"@[0] == '-');
    reveal_strlit("--jobs");
    assert("--jobs"@[0] == '-');
    reveal_strlit("--budget");
    assert("--budget"@[0] == '-');
    reveal_strlit("--case-timeout");
    assert("--case-timeout"@[0] == '-');
}

/// None of a self-exec child's arguments is wrong, and the artifact is the suite.
proof fn lemma_self_exec_fine(
    artifact: Seq<char>,
    composed: bool,
    suite_artifact: Option<Seq<char>>,
    ctx: RunContext,
    select: Seq<char>,
    role: Option<Seq<char>>,
    jobs: usize,
)
    ensures
        ({
            let tokens = self_exec_tokens(
                artifact,
                composed,
                suite_artifact,
                ctx,
                select,
                role,
                jobs as nat,
            );
            &&& first_offence(Subcommand::Exec, tokens, tokens.len() as int) is None
            &&& positional_of(tokens) == Some(artifact)
        }),
{
    let tokens = self_exec_tokens(
        artifact,
        composed,
        suite_artifact,
        ctx,
        select,
        role,
        jobs as nat,
    );
    lemma_exec_flags();
    numbers_round_trip(jobs as nat, usize::MAX as nat);
    numbers_round_trip(ctx.budget_secs as nat, u64::MAX as nat);
    numbers_round_trip(ctx.case_timeout_secs as nat, u64::MAX as nat);
    lemma_positional_first(tokens, artifact);
    assert forall|i: int| 0 <= i < tokens.len() implies #[trigger] offence(
        Subcommand::Exec,
        tokens,
        i,
    ) is None by {
        if i == 0 {
            assert(tokens.take(0).len() == 0);
        }
    }
    lemma_all_fine(Subcommand::Exec, tokens, tokens.len() as int);
}

/// What every self-exec child is given.
proof fn lemma_self_exec_base(
    artifact: Seq<char>,
    composed: bool,
    suite_artifact: Option<Seq<char>>,
    ctx: RunContext,
    select: Seq<char>,
    role: Option<Seq<char>>,
    jobs: usize,
)
    ensures
        ({
            let tokens = self_exec_tokens(
                artifact,
                composed,
                suite_artifact,
                ctx,
                select,
                role,
                jobs as nat,
            );
            &&& has_switch(tokens, "--jsonl"@)
            &&& last_value(tokens, "--select"@) == Some(select)
            &&& last_value(tokens, "--jobs"@) == Some(decimal(jobs as nat))
            &&& last_value(tokens, "--budget"@) == Some(decimal(ctx.budget_secs as nat))
            &&& last_value(tokens, "--case-timeout"@) == Some(
                decimal(ctx.case_timeout_secs as nat),
            )
        }),
{
    let tokens = self_exec_tokens(
        artifact,
        composed,
        suite_artifact,
        ctx,
        select,
        role,
        jobs as nat,
    );
    lemma_exec_flags();
    assert(tokens[1] == Token::Switch("--jsonl"@));
    lemma_only_value(tokens, 2, "--select"@, select);
    lemma_only_value(tokens, 3, "--jobs"@, decimal(jobs as nat));
    lemma_only_value(tokens, 4, "--budget"@, decimal(ctx.budget_secs as nat));
    lemma_only_value(tokens, 5, "--case-timeout"@, decimal(ctx.case_timeout_secs as nat));
}

/// What a self-exec child is given for a composed artifact and for a role.
proof fn lemma_self_exec_given(
    artifact: Seq<char>,
    composed: bool,
    suite_artifact: Option<Seq<char>>,
    ctx: RunContext,
    select: Seq<char>,
    role: Option<Seq<char>>,
    jobs: usize,
)
    ensures
        ({
            let tokens = self_exec_tokens(
                artifact,
                composed,
                suite_artifact,
                ctx,
                select,
                role,
                jobs as nat,
            );
            &&& has_switch(tokens, "--composed"@) == composed
            &&& last_value(tokens, "--suite-artifact"@) == suite_artifact
            &&& last_value(tokens, "--role"@) == role
            &&& last_value(tokens, "--signaling"@) == (if role is Some {
                Some(ctx.signaling_url@)
            } else {
                None
            })
            &&& last_value(tokens, "--run-id"@) == (if role is Some {
                Some(ctx.run_id@)
            } else {
                None
            })
        }),
{
    let tokens = self_exec_tokens(
        artifact,
        composed,
        suite_artifact,
        ctx,
        select,
        role,
        jobs as nat,
    );
    lemma_exec_flags();
    if composed {
        assert(tokens[6] == Token::Switch("--composed"@));
    }
    let artifact_at: int = if composed {
        7
    } else {
        6
    };
    match suite_artifact {
        Some(a) => {
            lemma_only_value(tokens, artifact_at, "--suite-artifact"@, a);
        },
        None => {
            lemma_no_value(tokens, "--suite-artifact"@);
        },
    }
    let role_at: int = if suite_artifact is Some {
        artifact_at + 1
    } else {
        artifact_at
    };
    match role {
        Some(r) => {
            lemma_only_value(tokens, role_at, "--role"@, r);
            lemma_only_value(tokens, role_at + 1, "--signaling"@, ctx.signaling_url@);
            lemma_only_value(tokens, role_at + 2, "--run-id"@, ctx.run_id@);
        },
        None => {
            lemma_no_value(tokens, "--role"@);
            lemma_no_value(tokens, "--signaling"@);
            lemma_no_value(tokens, "--run-id"@);
        },
    }
}

/// A self-exec child is given no network shape.
proof fn lemma_self_exec_absent(
    artifact: Seq<char>,
    composed: bool,
    suite_artifact: Option<Seq<char>>,
    ctx: RunContext,
    select: Seq<char>,
    role: Option<Seq<char>>,
    jobs: usize,
)
    ensures
        ({
            let tokens = self_exec_tokens(
                artifact,
                composed,
                suite_artifact,
                ctx,
                select,
                role,
                jobs as nat,
            );
            ice_of(tokens) is None
        }),
{
    let tokens = self_exec_tokens(
        artifact,
        composed,
        suite_artifact,
        ctx,
        select,
        role,
        jobs as nat,
    );
    lemma_exec_flags();
    lemma_no_value(tokens, "--ice-bind"@);
    lemma_no_value(tokens, "--ice-stun"@);
    lemma_no_value(tokens, "--ice-turn"@);
}

/// The driver understands the command lines that it writes: what a child is run
/// with is what the child reads. A path that looks like a flag is left out.
pub proof fn children_read_what_is_written(
    artifact: Seq<char>,
    composed: bool,
    suite_artifact: Option<Seq<char>>,
    ctx: RunContext,
    select: Seq<char>,
    role: Option<Seq<char>>,
    jobs: usize,
)
    requires
        artifact.len() == 0 || artifact[0] != '-',
    ensures
        ({
            let argv = self_exec_args(
                artifact,
                composed,
                suite_artifact,
                ctx,
                select,
                role,
                jobs as nat,
            );
            let tokens = tokens_of(Subcommand::Exec, argv.skip(1));
            &&& argv[0] == "exec"@
            &&& line_error(Subcommand::Exec, argv.skip(1), CommandError::MissingSuite) is None
            &&& positional_of(tokens) == Some(artifact)
            &&& has_switch(tokens, "--jsonl"@)
            &&& has_switch(tokens, "--composed"@) == composed
            &&& last_value(tokens, "--select"@) == Some(select)
            &&& number_or(tokens, "--jobs"@, usize::MAX as nat, 1) == jobs
            &&& number_or(tokens, "--budget"@, u64::MAX as nat, BUDGET_SECS as nat)
                == ctx.budget_secs
            &&& number_or(tokens, "--case-timeout"@, u64::MAX as nat, CASE_TIMEOUT_SECS as nat)
                == ctx.case_timeout_secs
            &&& last_value(tokens, "--suite-artifact"@) == suite_artifact
            &&& last_value(tokens, "--role"@) == role
            &&& last_value(tokens, "--signaling"@) == (if role is Some {
                Some(ctx.signaling_url@)
            } else {
                None
            })
            &&& last_value(tokens, "--run-id"@) == (if role is Some {
                Some(ctx.run_id@)
            } else {
                None
            })
            &&& ice_of(tokens) is None
        }),
{
    let argv = self_exec_args(artifact, composed, suite_artifact, ctx, select, role, jobs as nat);
    let tokens = tokens_of(Subcommand::Exec, argv.skip(1));
    lemma_self_exec_tokens(artifact, composed, suite_artifact, ctx, select, role, jobs as nat);
    lemma_self_exec_fine(artifact, composed, suite_artifact, ctx, select, role, jobs);
    lemma_self_exec_base(artifact, composed, suite_artifact, ctx, select, role, jobs);
    lemma_self_exec_given(artifact, composed, suite_artifact, ctx, select, role, jobs);
    lemma_self_exec_absent(artifact, composed, suite_artifact, ctx, select, role, jobs);
    numbers_round_trip(jobs as nat, usize::MAX as nat);
    numbers_round_trip(ctx.budget_secs as nat, u64::MAX as nat);
    numbers_round_trip(ctx.case_timeout_secs as nat, u64::MAX as nat);
}

/// A flag's value is the one given, and the default without one; a number's is the
/// number that its notation stands for.
pub proof fn defaults_yield_to_what_is_given(
    tokens: Seq<Token<Seq<char>>>,
    flag: Seq<char>,
    default: Seq<char>,
    limit: nat,
    number: nat,
    n: nat,
)
    requires
        n <= limit,
    ensures
        last_value(tokens, flag) is None ==> value_or(tokens, flag, default) == default,
        last_value(tokens, flag) is Some ==> value_or(tokens, flag, default) == last_value(
            tokens,
            flag,
        )->0,
        last_value(tokens, flag) is None ==> number_or(tokens, flag, limit, number) == number,
        last_value(tokens, flag) == Some(decimal(n)) ==> number_or(tokens, flag, limit, number)
            == n,
        last_value(tokens, flag) matches Some(v) ==> (number_value(v, limit) matches Ok(m)
            ==> number_or(tokens, flag, limit, number) == m),
{
    numbers_round_trip(n, limit);
}

/// A TURN server is given as its address, its user and its password, with commas
/// between them; the password may hold commas, and what is missing is empty.
pub proof fn turn_servers_are_given_in_three_parts(
    url: Seq<char>,
    user: Seq<char>,
    password: Seq<char>,
)
    requires
        !url.contains(','),
        !user.contains(','),
    ensures
        turn_parts(url + seq![','] + (user + seq![','] + password)) == (url, user, password),
        turn_parts(url + seq![','] + user) == (url, user, Seq::<char>::empty()),
        turn_parts(url) == (url, Seq::<char>::empty(), Seq::<char>::empty()),
{
    texts_split_at_the_first(url, ',', user + seq![','] + password);
    texts_split_at_the_first(url, ',', user);
    texts_split_at_the_first(user, ',', password);
    texts_split_at_the_first(Seq::empty(), ',', password);
}

/// There is a network shape exactly where one of its flags is given, and each of them
/// shapes its own part.
pub proof fn network_flags_shape_their_part(tokens: Seq<Token<Seq<char>>>)
    ensures
        ice_of(tokens) is None <==> last_value(tokens, "--ice-bind"@) is None && last_value(
            tokens,
            "--ice-stun"@,
        ) is None && last_value(tokens, "--ice-turn"@) is None && !has_switch(
            tokens,
            "--ice-relay-only"@,
        ) && !has_switch(tokens, "--disable-mdns"@),
        ice_of(tokens) matches Some(profile) ==> {
            &&& profile.bind_addr == last_value(tokens, "--ice-bind"@)
            &&& profile.stun_url == last_value(tokens, "--ice-stun"@)
            &&& profile.turn is Some <==> last_value(tokens, "--ice-turn"@) is Some
            &&& profile.turn is Some ==> profile.turn->0 == turn_parts(
                last_value(tokens, "--ice-turn"@)->0,
            )
            &&& profile.relay_only == has_switch(tokens, "--ice-relay-only"@)
            &&& profile.disable_mdns == has_switch(tokens, "--disable-mdns"@)
        },
{
}

/// A stream's run is what its flags ask for, each under its own name; one case runs at
/// a time, within half a minute of work and a minute and a half in all, unless the line
/// says otherwise.
pub proof fn streams_run_as_asked(args: ExecArgs, tokens: Seq<Token<Seq<char>>>)
    requires
        exec_args_are(args, tokens),
    ensures
        positional_of(tokens) == Some(args.suite@),
        args.target@ == (match last_value(tokens, "--target"@) {
            Some(target) => target,
            None => "exec"@,
        }),
        args.select.deep_view() == last_value(tokens, "--select"@),
        args.role.deep_view() == last_value(tokens, "--role"@),
        args.signaling_url.deep_view() == last_value(tokens, "--signaling"@),
        args.run_id.deep_view() == last_value(tokens, "--run-id"@),
        args.suite_artifact.deep_view() == last_value(tokens, "--suite-artifact"@),
        args.composed == has_switch(tokens, "--composed"@),
        args.jsonl == has_switch(tokens, "--jsonl"@),
        args.ice is Some <==> ice_of(tokens) is Some,
        args.ice is Some ==> args.ice->0@ == ice_of(tokens)->0,
        last_value(tokens, "--jobs"@) is None ==> args.jobs == 1,
        last_value(tokens, "--budget"@) is None ==> args.budget_secs == 30,
        last_value(tokens, "--case-timeout"@) is None ==> args.case_timeout_secs == 90,
        last_value(tokens, "--jobs"@) matches Some(v) ==> (number_value(
            v,
            usize::MAX as nat,
        ) matches Ok(n) ==> args.jobs == n),
        last_value(tokens, "--budget"@) matches Some(v) ==> (number_value(
            v,
            u64::MAX as nat,
        ) matches Ok(n) ==> args.budget_secs == n),
        last_value(tokens, "--case-timeout"@) matches Some(v) ==> (number_value(
            v,
            u64::MAX as nat,
        ) matches Ok(n) ==> args.case_timeout_secs == n),
{
}

/// A line is refused exactly where its arguments are wrong or it names no suite, and
/// for the arguments first.
pub proof fn lines_name_a_suite(
    command: Subcommand,
    argv: Seq<Seq<char>>,
    missing: CommandError<Seq<char>>,
)
    ensures
        line_error(command, argv, missing) is None <==> arg_error(command, argv) is None
            && positional_of(tokens_of(command, argv)) is Some,
        arg_error(command, argv) matches Some(e) ==> line_error(command, argv, missing) == Some(
            CommandError::Arg(e),
        ),
        arg_error(command, argv) is None && positional_of(tokens_of(command, argv)) is None
            ==> line_error(command, argv, missing) == Some(missing),
{
}

/// A loopback kind decides how the instances run, and what it needs is asked for: a
/// composed run its artifact, a script's run its script. There are no other kinds.
pub proof fn loopback_kinds_decide_the_peer(
    kind: Seq<char>,
    suite: Seq<char>,
    artifact: Option<Seq<char>>,
    script: Option<Seq<char>>,
)
    ensures
        loopback_peer("wasmtime"@, suite, artifact, script) == Ok::<
            PeerKindView,
            CommandError<Seq<char>>,
        >(PeerKindView::SelfExec { artifact: suite, composed: false, suite_artifact: None }),
        loopback_peer("composed"@, suite, artifact, script) == (match artifact {
            Some(a) => Ok(
                PeerKindView::SelfExec { artifact: a, composed: true, suite_artifact: Some(suite) },
            ),
            None => Err(CommandError::<Seq<char>>::ComposedNeedsArtifact),
        }),
        loopback_peer("polyengine-deno"@, suite, artifact, script) == (match script {
            Some(s) => Ok(PeerKindView::Deno { script: s, args: Seq::<Seq<char>>::empty() }),
            None => Err(CommandError::<Seq<char>>::DenoNeedsScript),
        }),
        loopback_peer("polyengine-browser"@, suite, artifact, script) == (match script {
            Some(s) => Ok(PeerKindView::Node { script: s, args: Seq::<Seq<char>>::empty() }),
            None => Err(CommandError::<Seq<char>>::BrowserNeedsScript),
        }),
        kind != "wasmtime"@ && kind != "composed"@ && kind != "polyengine-deno"@ && kind
            != "polyengine-browser"@ ==> loopback_peer(kind, suite, artifact, script) == Err::<
            PeerKindView,
            CommandError<Seq<char>>,
        >(CommandError::UnknownKind(kind)),
{
    lemma_peer_names();
}

/// The names of the peers are told apart by their lengths and first characters.
proof fn lemma_peer_names()
    ensures
        "wasmtime"@.len() == 8 && "wasmtime"@[0] == 'w',
        "composed"@.len() == 8 && "composed"@[0] == 'c',
        "wasip3-guest"@.len() == 12,
        "polyengine-deno"@.len() == 15,
        "polyengine-browser"@.len() == 18,
        "reference"@.len() == 9,
{
    reveal_strlit("wasmtime");
    reveal_strlit("composed");
    reveal_strlit("wasip3-guest");
    reveal_strlit("polyengine-deno");
    reveal_strlit("polyengine-browser");
    reveal_strlit("reference");
}

/// A loopback line is accepted exactly where it names a suite, a target, and a kind that
/// has what it needs; the first of these that fails is reported. What is accepted is
/// what the line says.
pub proof fn loopback_lines_are_read(argv: Seq<Seq<char>>)
    ensures
        ({
            let tokens = tokens_of(Subcommand::Loopback, argv);
            let suite = positional_of(tokens);
            let target = last_value(tokens, "--target"@);
            let kind = last_value(tokens, "--kind"@);
            let peer = loopback_peer(
                kind->0,
                suite->0,
                last_value(tokens, "--artifact"@),
                last_value(tokens, "--script"@),
            );
            match arg_error(Subcommand::Loopback, argv) {
                Some(e) => loopback_outcome(argv) == Err::<LoopbackView, CommandError<Seq<char>>>(
                    CommandError::Arg(e),
                ),
                None => if suite is None {
                    loopback_outcome(argv) == Err::<LoopbackView, CommandError<Seq<char>>>(
                        CommandError::MissingSuite,
                    )
                } else if target is None {
                    loopback_outcome(argv) == Err::<LoopbackView, CommandError<Seq<char>>>(
                        CommandError::MissingTarget,
                    )
                } else if kind is None {
                    loopback_outcome(argv) == Err::<LoopbackView, CommandError<Seq<char>>>(
                        CommandError::MissingKind,
                    )
                } else if peer is Err {
                    loopback_outcome(argv) == Err::<LoopbackView, CommandError<Seq<char>>>(
                        peer->Err_0,
                    )
                } else {
                    &&& loopback_outcome(argv) matches Ok(args)
                    &&& args.suite == suite->0
                    &&& args.target == target->0
                    &&& args.peer == peer->Ok_0
                    &&& args.out == last_value(tokens, "-o"@)
                },
            }
        }),
{
}

/// A direction reads as the two sides around its first `-x-`, and only as these.
pub proof fn directions_name_two_sides(
    offerer: Seq<char>,
    answerer: Seq<char>,
    direction: Seq<char>,
    first: Seq<char>,
    second: Seq<char>,
)
    ensures
        splits_as(direction, offerer, answerer) ==> direction == offerer + "-x-"@ + answerer,
        splits_as(direction, offerer, answerer) && splits_as(direction, first, second) ==> offerer
            == first && answerer == second,
        !contains_text(offerer + "-x"@, "-x-"@) ==> splits_as(
            offerer + "-x-"@ + answerer,
            offerer,
            answerer,
        ),
{
    reveal_strlit("-x-");
    reveal_strlit("-x");
    let (n, m) = (offerer.len() as int, first.len() as int);
    if splits_as(direction, offerer, answerer) && splits_as(direction, first, second) {
        assert(direction.subrange(n, n + 3) =~= "-x-"@);
        assert(direction.subrange(m, m + 3) =~= "-x-"@);
        assert(occurs_at(direction, "-x-"@, n));
        assert(occurs_at(direction, "-x-"@, m));
        assert(n == m);
        assert(offerer =~= direction.take(n));
        assert(first =~= direction.take(n));
        assert(answerer =~= direction.skip(n + 3));
        assert(second =~= direction.skip(n + 3));
    }
    let whole = offerer + "-x-"@ + answerer;
    if !contains_text(offerer + "-x"@, "-x-"@) {
        assert forall|j: int| 0 <= j < offerer.len() implies !occurs_at(whole, "-x-"@, j) by {
            if occurs_at(whole, "-x-"@, j) {
                assert((offerer + "-x"@).subrange(j, j + 3) =~= whole.subrange(j, j + 3));
                assert(occurs_at(offerer + "-x"@, "-x-"@, j));
            }
        }
    }
}

/// An interop line is accepted exactly where its arguments are right and it names a
/// suite and a direction of two sides; the first of these that fails is reported.
pub proof fn interop_lines_name_a_direction(argv: Seq<Seq<char>>)
    ensures
        ({
            let tokens = tokens_of(Subcommand::Interop, argv);
            let direction = last_value(tokens, "--direction"@);
            match arg_error(Subcommand::Interop, argv) {
                Some(e) => interop_error(argv) == Some(CommandError::Arg(e)),
                None => if positional_of(tokens) is None {
                    interop_error(argv) == Some(CommandError::<Seq<char>>::MissingPairSuite)
                } else if direction is None {
                    interop_error(argv) == Some(CommandError::<Seq<char>>::MissingDirection)
                } else if !contains_text(direction->0, "-x-"@) {
                    interop_error(argv) == Some(CommandError::<Seq<char>>::BadDirection)
                } else {
                    interop_error(argv) is None
                },
            }
        }),
{
}

/// An interop run is what its line asks for; its target is the direction unless the line
/// names another.
pub proof fn directions_run_as_asked(args: InteropArgs, tokens: Seq<Token<Seq<char>>>)
    requires
        interop_args_are(args, tokens),
    ensures
        positional_of(tokens) == Some(args.suite@),
        last_value(tokens, "--direction"@) matches Some(direction) ==> {
            &&& direction == args.offerer@ + "-x-"@ + args.answerer@
            &&& splits_as(direction, args.offerer@, args.answerer@)
            &&& args.target@ == (match last_value(tokens, "--target"@) {
                Some(target) => target,
                None => direction,
            })
        },
        args.composed_pair.deep_view() == last_value(tokens, "--composed-pair"@),
        args.deno_script.deep_view() == last_value(tokens, "--deno-script"@),
        args.browser_script.deep_view() == last_value(tokens, "--browser-script"@),
        args.reference_bin@ == (match last_value(tokens, "--reference-bin"@) {
            Some(bin) => bin,
            None => "target/release/conformance-reference-peer"@,
        }),
        args.out.deep_view() == last_value(tokens, "-o"@),
{
}

/// A script finds the pair suite by the path that it resolves to, or under the server's
/// root, for which it must be relative; either way under the suite's name.
pub proof fn scripts_find_the_pair_suite(suite: Seq<char>, form: PairSuitePath, path: SuitePath)
    ensures
        pair_suite_choice(suite, PairSuitePath::Filesystem, path) == (match path.canonical {
            Ok(found) => Ok(
                seq!["--suite"@, found@, "--name"@, "conformance-guest-pair-ct"@],
            ),
            Err(why) => Err(CommandError::UnresolvedSuite(suite, why@)),
        }),
        pair_suite_choice(suite, PairSuitePath::Served, path) == (if path.absolute {
            Err(CommandError::AbsoluteSuite(suite))
        } else {
            Ok(seq!["--suite"@, "/"@ + suite, "--name"@, "conformance-guest-pair-ct"@])
        }),
{
}

/// A side's name decides how it runs, and what it needs is asked for: the composed side
/// its artifact, a script's side its script and the pair suite. There are no other sides.
pub proof fn side_names_decide_the_peer(name: Seq<char>, args: InteropArgs, path: SuitePath)
    ensures
        side_peer("wasmtime"@, args, path) == Ok::<PeerKindView, CommandError<Seq<char>>>(
            PeerKindView::SelfExec { artifact: args.suite@, composed: false, suite_artifact: None },
        ),
        side_peer("wasip3-guest"@, args, path) == (match args.composed_pair {
            Some(a) => Ok(
                PeerKindView::SelfExec {
                    artifact: a@,
                    composed: true,
                    suite_artifact: Some(args.suite@),
                },
            ),
            None => Err(CommandError::<Seq<char>>::SideNeedsComposedPair),
        }),
        side_peer("polyengine-deno"@, args, path) == (match args.deno_script {
            Some(s) => match pair_suite_choice(args.suite@, PairSuitePath::Filesystem, path) {
                Ok(more) => Ok(PeerKindView::Deno { script: s@, args: more }),
                Err(e) => Err(e),
            },
            None => Err(CommandError::<Seq<char>>::SideNeedsDenoScript),
        }),
        side_peer("polyengine-browser"@, args, path) == (match args.browser_script {
            Some(s) => match pair_suite_choice(args.suite@, PairSuitePath::Served, path) {
                Ok(more) => Ok(PeerKindView::Node { script: s@, args: more }),
                Err(e) => Err(e),
            },
            None => Err(CommandError::<Seq<char>>::SideNeedsBrowserScript),
        }),
        side_peer("reference"@, args, path) == Ok::<PeerKindView, CommandError<Seq<char>>>(
            PeerKindView::Reference { bin: args.reference_bin@ },
        ),
        name != "wasmtime"@ && name != "wasip3-guest"@ && name != "polyengine-deno"@ && name
            != "polyengine-browser"@ && name != "reference"@ ==> side_peer(name, args, path)
            == Err::<PeerKindView, CommandError<Seq<char>>>(CommandError::UnknownSide(name)),
{
    lemma_peer_names();
}

/// A Shadow row is called after its sides, once where they are the same.
pub proof fn shadow_rows_are_called_after_their_sides(offerer: Seq<char>, answerer: Seq<char>)
    ensures
        shadow_target(offerer, offerer) == offerer + "-shadow"@,
        offerer != answerer ==> shadow_target(offerer, answerer) == offerer + "-x-"@ + answerer
            + "-shadow"@,
{
}

/// A Shadow row is run as its line asks; both sides are hosted, the programs are this
/// build's, and the row is called after its sides, unless the line says otherwise.
pub proof fn shadow_rows_run_as_asked(args: ShadowArgs, tokens: Seq<Token<Seq<char>>>)
    requires
        shadow_args_are(args, tokens),
    ensures
        positional_of(tokens) == Some(args.pair_suite@),
        args.composed_pair.deep_view() == last_value(tokens, "--composed-pair"@),
        args.offerer_kind@ == (match last_value(tokens, "--offerer-kind"@) {
            Some(kind) => kind,
            None => "wasmtime"@,
        }),
        args.answerer_kind@ == (match last_value(tokens, "--answerer-kind"@) {
            Some(kind) => kind,
            None => "wasmtime"@,
        }),
        args.target@ == (match last_value(tokens, "--target"@) {
            Some(target) => if target.len() > 0 {
                target
            } else {
                shadow_target(args.offerer_kind@, args.answerer_kind@)
            },
            None => shadow_target(args.offerer_kind@, args.answerer_kind@),
        }),
        args.shadow_bin@ == (match last_value(tokens, "--shadow-bin"@) {
            Some(bin) => bin,
            None => "shadow"@,
        }),
        args.signaling_bin@ == (match last_value(tokens, "--signaling-bin"@) {
            Some(bin) => bin,
            None => "target/debug/conformance-signalingd"@,
        }),
        args.reference_bin@ == (match last_value(tokens, "--reference-bin"@) {
            Some(bin) => bin,
            None => "target/release/conformance-reference-peer"@,
        }),
        args.data_dir@ == (match last_value(tokens, "--data-dir"@) {
            Some(dir) => dir,
            None => "target/shadow-data"@,
        }),
        args.out.deep_view() == last_value(tokens, "-o"@),
{
}

/// A netns row is run as its line asks, on a local network unless the line says
/// otherwise.
pub proof fn netns_rows_run_as_asked(args: NetnsArgs, tokens: Seq<Token<Seq<char>>>)
    requires
        netns_args_are(args, tokens),
    ensures
        positional_of(tokens) == Some(args.pair_suite@),
        args.scenario@ == (match last_value(tokens, "--scenario"@) {
            Some(scenario) => scenario,
            None => "lan"@,
        }),
        args.target.deep_view() == last_value(tokens, "--target"@),
        args.signaling_bin@ == (match last_value(tokens, "--signaling-bin"@) {
            Some(bin) => bin,
            None => "target/debug/conformance-signalingd"@,
        }),
        args.out.deep_view() == last_value(tokens, "-o"@),
{
}

/// A refused argument is named, and why it is refused said; with an unknown flag comes
/// the usage.
pub proof fn refused_arguments_are_named(arg: Seq<char>)
    ensures
        command_message(CommandError::Arg(ArgError::UnknownFlag(arg))) == "unknown flag `"@ + arg
            + "`\n"@ + usage_text(),
        command_message(CommandError::Arg(ArgError::NeedsValue(arg))) == arg + " needs a value"@,
        command_message(CommandError::Arg(ArgError::Unexpected(arg))) == "unexpected argument `"@
            + arg + "`"@,
        command_message(CommandError::Arg(ArgError::BadNumber(arg, NumberError::Empty))) == arg
            + ": "@ + "cannot parse integer from empty string"@,
        command_message(CommandError::Arg(ArgError::BadNumber(arg, NumberError::InvalidDigit)))
            == arg + ": "@ + "invalid digit found in string"@,
        command_message(CommandError::Arg(ArgError::BadNumber(arg, NumberError::TooLarge))) == arg
            + ": "@ + "number too large to fit in target type"@,
{
}

/// What a line lacks is named by its flag.
pub proof fn missing_arguments_are_named(e: CommandError<Seq<char>>)
    ensures
        match e {
            CommandError::MissingSuite => command_message(e) == "missing suite.wasm"@,
            CommandError::MissingPairSuite => command_message(e) == "missing pair-suite.wasm"@,
            CommandError::MissingTarget => command_message(e) == "missing --target"@,
            CommandError::MissingKind => command_message(e) == "missing --kind"@,
            CommandError::MissingDirection => command_message(e) == "missing --direction"@,
            CommandError::ComposedNeedsArtifact => command_message(e)
                == "--kind composed needs --artifact"@,
            CommandError::DenoNeedsScript => command_message(e)
                == "--kind polyengine-deno needs --script"@,
            CommandError::BrowserNeedsScript => command_message(e)
                == "--kind polyengine-browser needs --script"@,
            CommandError::BadDirection => command_message(e)
                == "--direction must be <offerer>-x-<answerer>"@,
            CommandError::SideNeedsComposedPair => command_message(e)
                == "direction includes wasip3-guest: needs --composed-pair"@,
            CommandError::SideNeedsDenoScript => command_message(e)
                == "direction includes polyengine-deno: needs --deno-script"@,
            CommandError::SideNeedsBrowserScript => command_message(e)
                == "direction includes polyengine-browser: needs --browser-script"@,
            CommandError::UnknownKind(kind) => command_message(e) == "unknown --kind "@ + quoted(
                kind,
            ),
            CommandError::UnknownSide(side) => command_message(e) == "unknown interop side "@
                + quoted(side),
            CommandError::UnresolvedSuite(suite, why) => command_message(e)
                == "resolving pair suite "@ + suite + ": "@ + why,
            CommandError::AbsoluteSuite(suite) => command_message(e) == "pair suite "@ + suite
                + " must be repo-root-relative for the browser child's static server"@,
            CommandError::Arg(_) => true,
        },
{
}

/// Refusals and loopback runs are seen as they are.
pub proof fn commands_are_seen_as_they_are(e: CommandError<String>, args: LoopbackArgs)
    ensures
        match e {
            CommandError::Arg(e1) => e@ == CommandError::Arg(e1@),
            CommandError::UnknownKind(k) => e@ == CommandError::UnknownKind(k@),
            CommandError::UnknownSide(s) => e@ == CommandError::UnknownSide(s@),
            CommandError::UnresolvedSuite(s, why) => e@ == CommandError::UnresolvedSuite(s@, why@),
            CommandError::AbsoluteSuite(s) => e@ == CommandError::AbsoluteSuite(s@),
            CommandError::MissingSuite => e@ is MissingSuite,
            CommandError::MissingPairSuite => e@ is MissingPairSuite,
            CommandError::MissingTarget => e@ is MissingTarget,
            CommandError::MissingKind => e@ is MissingKind,
            CommandError::MissingDirection => e@ is MissingDirection,
            CommandError::ComposedNeedsArtifact => e@ is ComposedNeedsArtifact,
            CommandError::DenoNeedsScript => e@ is DenoNeedsScript,
            CommandError::BrowserNeedsScript => e@ is BrowserNeedsScript,
            CommandError::BadDirection => e@ is BadDirection,
            CommandError::SideNeedsComposedPair => e@ is SideNeedsComposedPair,
            CommandError::SideNeedsDenoScript => e@ is SideNeedsDenoScript,
            CommandError::SideNeedsBrowserScript => e@ is SideNeedsBrowserScript,
        },
        args@.suite == args.suite@,
        args@.target == args.target@,
        args@.peer == args.peer@,
        args@.out == args.out.deep_view(),
{
}

} // verus!
