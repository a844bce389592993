//! The driver's command lines: the flags each subcommand takes, the reading
//! of an argument list into tokens, and the first thing wrong with one.

use vstd::prelude::*;

use crate::text::{number_value, parse_number, same_text, starts_with, NumberError};

verus! {

/// The driver's modes.
#[derive(Clone, Copy, Debug, PartialEq, Eq, Structural)]
pub enum Subcommand {
    /// Run one suite instance's stream.
    Exec,
    /// One loopback target.
    Loopback,
    /// One interop direction.
    Interop,
    /// One row of the Shadow lab.
    Shadow,
    /// One row of the netns lab.
    Netns,
}

/// What the first argument asks for.
#[derive(Clone, Copy, Debug, PartialEq, Eq, Structural)]
pub enum Invocation {
    /// Run a mode over the remaining arguments.
    Run(Subcommand),
    /// Print the usage.
    Help,
}

/// What `first` asks for, if anything.
pub open spec fn invocation_of(first: Option<Seq<char>>) -> Option<Invocation> {
    match first {
        None => None,
        Some(a) => if a == "exec"@ {
            Some(Invocation::Run(Subcommand::Exec))
        } else if a == "loopback"@ {
            Some(Invocation::Run(Subcommand::Loopback))
        } else if a == "interop"@ {
            Some(Invocation::Run(Subcommand::Interop))
        } else if a == "shadow"@ {
            Some(Invocation::Run(Subcommand::Shadow))
        } else if a == "netns"@ {
            Some(Invocation::Run(Subcommand::Netns))
        } else if a == "-h"@ || a == "--help"@ {
            Some(Invocation::Help)
        } else {
            None
        },
    }
}

/// Reads the driver's first argument; `None` calls for the usage as an error.
pub fn run(first: Option<&str>) -> (r: Option<Invocation>)
    ensures
        r == invocation_of(
            match first {
                Some(a) => Some(a@),
                None => None,
            },
        ),
{
    match first {
        None => None,
        Some(a) => if same_text(a, "exec") {
            Some(Invocation::Run(Subcommand::Exec))
        } else if same_text(a, "loopback") {
            Some(Invocation::Run(Subcommand::Loopback))
        } else if same_text(a, "interop") {
            Some(Invocation::Run(Subcommand::Interop))
        } else if same_text(a, "shadow") {
            Some(Invocation::Run(Subcommand::Shadow))
        } else if same_text(a, "netns") {
            Some(Invocation::Run(Subcommand::Netns))
        } else if same_text(a, "-h") || same_text(a, "--help") {
            Some(Invocation::Help)
        } else {
            None
        },
    }
}

/// What a flag takes.
#[derive(Clone, Copy, Debug, PartialEq, Eq, Structural)]
pub enum FlagKind {
    /// Nothing.
    Switch,
    /// The next argument, whatever it is.
    Value,
    /// The next argument, a number of things.
    Count,
    /// The next argument, a number of seconds.
    Seconds,
}

/// The flags of each subcommand.
pub open spec fn flag_kind(command: Subcommand, flag: Seq<char>) -> Option<FlagKind> {
    match command {
        Subcommand::Exec => if flag == "--jsonl"@ || flag == "--composed"@ || flag
            == "--ice-relay-only"@ || flag == "--disable-mdns"@ {
            Some(FlagKind::Switch)
        } else if flag == "--select"@ || flag == "--role"@ || flag == "--signaling"@ || flag
            == "--run-id"@ || flag == "--ice-bind"@ || flag == "--ice-stun"@ || flag
            == "--ice-turn"@ || flag == "--suite-artifact"@ || flag == "--target"@ {
            Some(FlagKind::Value)
        } else if flag == "--jobs"@ {
            Some(FlagKind::Count)
        } else if flag == "--budget"@ || flag == "--case-timeout"@ {
            Some(FlagKind::Seconds)
        } else {
            None
        },
        Subcommand::Loopback => if flag == "--target"@ || flag == "--kind"@ || flag
            == "--artifact"@ || flag == "--script"@ || flag == "-o"@ {
            Some(FlagKind::Value)
        } else {
            None
        },
        Subcommand::Interop => if flag == "--direction"@ || flag == "--composed-pair"@ || flag
            == "--deno-script"@ || flag == "--browser-script"@ || flag == "--reference-bin"@
            || flag == "--target"@ || flag == "-o"@ {
            Some(FlagKind::Value)
        } else {
            None
        },
        Subcommand::Shadow => if flag == "--composed-pair"@ || flag == "--offerer-kind"@ || flag
            == "--answerer-kind"@ || flag == "--target"@ || flag == "--shadow-bin"@ || flag
            == "--signaling-bin"@ || flag == "--reference-bin"@ || flag == "--data-dir"@ || flag
            == "-o"@ {
            Some(FlagKind::Value)
        } else {
            None
        },
        Subcommand::Netns => if flag == "--scenario"@ || flag == "--target"@ || flag
            == "--signaling-bin"@ || flag == "-o"@ {
            Some(FlagKind::Value)
        } else {
            None
        },
    }
}

/// Looks `flag` up among the flags of `command`.
fn lookup_flag(command: Subcommand, flag: &str) -> (r: Option<FlagKind>)
    ensures
        r == flag_kind(command, flag@),
{
    match command {
        Subcommand::Exec => if same_text(flag, "--jsonl") || same_text(flag, "--composed")
            || same_text(flag, "--ice-relay-only") || same_text(flag, "--disable-mdns") {
            Some(FlagKind::Switch)
        } else if same_text(flag, "--select") || same_text(flag, "--role") || same_text(
            flag,
            "--signaling",
        ) || same_text(flag, "--run-id") || same_text(flag, "--ice-bind") || same_text(
            flag,
            "--ice-stun",
        ) || same_text(flag, "--ice-turn") || same_text(flag, "--suite-artifact") || same_text(
            flag,
            "--target",
        ) {
            Some(FlagKind::Value)
        } else if same_text(flag, "--jobs") {
            Some(FlagKind::Count)
        } else if same_text(flag, "--budget") || same_text(flag, "--case-timeout") {
            Some(FlagKind::Seconds)
        } else {
            None
        },
        Subcommand::Loopback => if same_text(flag, "--target") || same_text(flag, "--kind")
            || same_text(flag, "--artifact") || same_text(flag, "--script") || same_text(
            flag,
            "-o",
        ) {
            Some(FlagKind::Value)
        } else {
            None
        },
        Subcommand::Interop => if same_text(flag, "--direction") || same_text(
            flag,
            "--composed-pair",
        ) || same_text(flag, "--deno-script") || same_text(flag, "--browser-script") || same_text(
            flag,
            "--reference-bin",
        ) || same_text(flag, "--target") || same_text(flag, "-o") {
            Some(FlagKind::Value)
        } else {
            None
        },
        Subcommand::Shadow => if same_text(flag, "--composed-pair") || same_text(
            flag,
            "--offerer-kind",
        ) || same_text(flag, "--answerer-kind") || same_text(flag, "--target") || same_text(
            flag,
            "--shadow-bin",
        ) || same_text(flag, "--signaling-bin") || same_text(flag, "--reference-bin") || same_text(
            flag,
            "--data-dir",
        ) || same_text(flag, "-o") {
            Some(FlagKind::Value)
        } else {
            None
        },
        Subcommand::Netns => if same_text(flag, "--scenario") || same_text(flag, "--target")
            || same_text(flag, "--signaling-bin") || same_text(flag, "-o") {
            Some(FlagKind::Value)
        } else {
            None
        },
    }
}

/// One element of a command line. `T` is the type of its texts.
pub enum Token<T> {
    /// A flag that takes nothing.
    Switch(T),
    /// A flag and its value.
    Option(T, T),
    /// An argument that is no flag.
    Positional(T),
    /// An argument that looks like a flag and is none; nothing after it is read.
    Unknown(T),
    /// A flag at the end of the line whose value is missing.
    Dangling(T),
}

impl View for Token<String> {
    type V = Token<Seq<char>>;

    open spec fn view(&self) -> Token<Seq<char>> {
        match self {
            Token::Switch(f) => Token::Switch(f@),
            Token::Option(f, v) => Token::Option(f@, v@),
            Token::Positional(t) => Token::Positional(t@),
            Token::Unknown(f) => Token::Unknown(f@),
            Token::Dangling(f) => Token::Dangling(f@),
        }
    }
}

/// The tokens of a vector, by their views.
pub open spec fn token_views(tokens: Seq<Token<String>>) -> Seq<Token<Seq<char>>> {
    tokens.map_values(|t: Token<String>| t@)
}

/// The first token of a non-empty argument list.
pub open spec fn head_token(command: Subcommand, argv: Seq<Seq<char>>) -> Token<Seq<char>> {
    match flag_kind(command, argv[0]) {
        Some(FlagKind::Switch) => Token::Switch(argv[0]),
        Some(_) => if argv.len() == 1 {
            Token::Dangling(argv[0])
        } else {
            Token::Option(argv[0], argv[1])
        },
        None => if argv[0].len() > 0 && argv[0][0] == '-' {
            Token::Unknown(argv[0])
        } else {
            Token::Positional(argv[0])
        },
    }
}

/// The tokens of an argument list.
pub open spec fn tokens_of(command: Subcommand, argv: Seq<Seq<char>>) -> Seq<Token<Seq<char>>>
    decreases argv.len(),
{
    if argv.len() == 0 {
        seq![]
    } else {
        let head = head_token(command, argv);
        match head {
            Token::Switch(_) | Token::Positional(_) => seq![head] + tokens_of(
                command,
                argv.skip(1),
            ),
            Token::Option(_, _) => seq![head] + tokens_of(command, argv.skip(2)),
            _ => seq![head],
        }
    }
}

/// What is wrong with a command line. `T` is the type of its texts.
pub enum ArgError<T> {
    /// A flag that the subcommand does not have.
    UnknownFlag(T),
    /// A flag without its value.
    NeedsValue(T),
    /// A second argument that is no flag.
    Unexpected(T),
    /// The value of a flag is not the number that it takes.
    BadNumber(T, NumberError),
}

impl View for ArgError<String> {
    type V = ArgError<Seq<char>>;

    open spec fn view(&self) -> ArgError<Seq<char>> {
        match self {
            ArgError::UnknownFlag(f) => ArgError::UnknownFlag(f@),
            ArgError::NeedsValue(f) => ArgError::NeedsValue(f@),
            ArgError::Unexpected(t) => ArgError::Unexpected(t@),
            ArgError::BadNumber(f, e) => ArgError::BadNumber(f@, *e),
        }
    }
}

/// The largest number that a flag takes.
pub open spec fn number_limit(kind: FlagKind) -> nat {
    if kind == FlagKind::Count {
        usize::MAX as nat
    } else {
        u64::MAX as nat
    }
}

/// The first argument that is no flag.
pub open spec fn positional_of(tokens: Seq<Token<Seq<char>>>) -> Option<Seq<char>>
    decreases tokens.len(),
{
    if tokens.len() == 0 {
        None
    } else {
        match (positional_of(tokens.drop_last()), tokens.last()) {
            (Some(t), _) => Some(t),
            (None, Token::Positional(t)) => Some(t),
            (None, _) => None,
        }
    }
}

/// What is wrong with the token at `i`, given those before it.
pub open spec fn offence(
    command: Subcommand,
    tokens: Seq<Token<Seq<char>>>,
    i: int,
) -> Option<ArgError<Seq<char>>> {
    match tokens[i] {
        Token::Switch(_) => None,
        Token::Option(f, v) => match flag_kind(command, f) {
            Some(FlagKind::Count) | Some(FlagKind::Seconds) => match number_value(
                v,
                number_limit(flag_kind(command, f)->0),
            ) {
                Err(e) => Some(ArgError::BadNumber(f, e)),
                Ok(_) => None,
            },
            _ => None,
        },
        Token::Positional(t) => if positional_of(tokens.take(i)) is Some {
            Some(ArgError::Unexpected(t))
        } else {
            None
        },
        Token::Unknown(f) => Some(ArgError::UnknownFlag(f)),
        Token::Dangling(f) => Some(ArgError::NeedsValue(f)),
    }
}

/// What is wrong with the first offending token among the first `n`.
pub open spec fn first_offence(
    command: Subcommand,
    tokens: Seq<Token<Seq<char>>>,
    n: int,
) -> Option<ArgError<Seq<char>>>
    decreases n,
{
    if n <= 0 {
        None
    } else {
        match first_offence(command, tokens, n - 1) {
            Some(e) => Some(e),
            None => offence(command, tokens, n - 1),
        }
    }
}

/// What is wrong with an argument list, if anything.
pub open spec fn arg_error(command: Subcommand, argv: Seq<Seq<char>>) -> Option<
    ArgError<Seq<char>>,
> {
    first_offence(command, tokens_of(command, argv), tokens_of(command, argv).len() as int)
}

/// The value that `flag` is given last.
pub open spec fn last_value(tokens: Seq<Token<Seq<char>>>, flag: Seq<char>) -> Option<Seq<char>>
    decreases tokens.len(),
{
    if tokens.len() == 0 {
        None
    } else {
        match tokens.last() {
            Token::Option(f, v) => if f == flag {
                Some(v)
            } else {
                last_value(tokens.drop_last(), flag)
            },
            _ => last_value(tokens.drop_last(), flag),
        }
    }
}

/// Whether the switch `flag` is given.
pub open spec fn has_switch(tokens: Seq<Token<Seq<char>>>, flag: Seq<char>) -> bool {
    tokens.contains(Token::Switch(flag))
}

/// An offence in the first `n` tokens of one line is the offence of a longer
/// line that begins with them.
proof fn lemma_offence_of_prefix(
    command: Subcommand,
    tokens: Seq<Token<Seq<char>>>,
    longer: Seq<Token<Seq<char>>>,
    n: int,
)
    requires
        0 <= n <= tokens.len() <= longer.len(),
        longer.take(tokens.len() as int) == tokens,
    ensures
        first_offence(command, longer, n) == first_offence(command, tokens, n),
    decreases n,
{
    if n > 0 {
        lemma_offence_of_prefix(command, tokens, longer, n - 1);
        assert(tokens[n - 1] == longer.take(tokens.len() as int)[n - 1]);
        assert(tokens.take(n - 1) =~= longer.take(n - 1));
    }
}

/// The first offence is found however far the search goes on.
proof fn lemma_offence_stays(
    command: Subcommand,
    tokens: Seq<Token<Seq<char>>>,
    n: int,
    m: int,
)
    requires
        0 <= n <= m,
        first_offence(command, tokens, n) is Some,
    ensures
        first_offence(command, tokens, m) == first_offence(command, tokens, n),
    decreases m - n,
{
    if n < m {
        lemma_offence_stays(command, tokens, n, m - 1);
    }
}

/// A line without an offence holds none at any token.
pub proof fn lemma_no_offence(
    command: Subcommand,
    tokens: Seq<Token<Seq<char>>>,
    n: int,
    i: int,
)
    requires
        0 <= i < n,
        first_offence(command, tokens, n) is None,
    ensures
        offence(command, tokens, i) is None,
    decreases n,
{
    if i < n - 1 {
        lemma_no_offence(command, tokens, n - 1, i);
    }
}

/// The last value of a flag stands at some token.
pub proof fn lemma_last_value_stands(tokens: Seq<Token<Seq<char>>>, flag: Seq<char>) -> (i: int)
    requires
        last_value(tokens, flag) is Some,
    ensures
        0 <= i < tokens.len(),
        tokens[i] == Token::<Seq<char>>::Option(flag, last_value(tokens, flag)->0),
    decreases tokens.len(),
{
    match tokens.last() {
        Token::Option(f, v) if f == flag => tokens.len() - 1,
        _ => lemma_last_value_stands(tokens.drop_last(), flag),
    }
}

/// Reads an argument list, or reports the first thing wrong with it.
pub fn parse_args(command: Subcommand, argv: &Vec<String>) -> (r: Result<
    Vec<Token<String>>,
    ArgError<String>,
>)
    ensures
        match r {
            Ok(tokens) => arg_error(command, argv.deep_view()) is None && token_views(tokens@)
                == tokens_of(command, argv.deep_view()),
            Err(e) => arg_error(command, argv.deep_view()) == Some(e@),
        },
{
    let ghost line = argv.deep_view();
    let ghost all = tokens_of(command, line);
    let mut tokens: Vec<Token<String>> = Vec::new();
    let mut positional: bool = false;
    let mut i: usize = 0;
    proof {
        assert(line.skip(0) =~= line);
        assert(token_views(tokens@) + all =~= all);
    }
    while i < argv.len()
        invariant
            line == argv.deep_view(),
            all == tokens_of(command, line),
            i <= argv@.len(),
            all == token_views(tokens@) + tokens_of(command, line.skip(i as int)),
            first_offence(command, token_views(tokens@), tokens@.len() as int) is None,
            positional == (positional_of(token_views(tokens@)) is Some),
        decreases argv@.len() - i,
    {
        let ghost before = token_views(tokens@);
        let ghost rest = line.skip(i as int);
        let ghost head = head_token(command, rest);
        let arg: &String = &argv[i];
        let kind: Option<FlagKind> = lookup_flag(command, arg.as_str());
        let len: usize = argv.len();
        proof {
            assert(rest[0] == arg@);
            assert(rest.skip(1) =~= line.skip(i + 1));
            if i + 1 < argv@.len() {
                assert(rest[1] == argv@[i + 1]@);
                assert(rest.skip(2) =~= line.skip(i + 2));
            }
            let next = before.push(head);
            assert(next.drop_last() =~= before);
            assert(next.take(before.len() as int) =~= before);
            assert(all.take(next.len() as int) =~= next);
            lemma_offence_of_prefix(command, before, next, before.len() as int);
            assert(first_offence(command, next, next.len() as int) == offence(
                command,
                next,
                before.len() as int,
            ));
            if first_offence(command, next, next.len() as int) is Some {
                lemma_offence_of_prefix(command, next, all, next.len() as int);
                lemma_offence_stays(command, all, next.len() as int, all.len() as int);
            }
        }
        match kind {
            Some(FlagKind::Switch) => {
                tokens.push(Token::Switch(arg.clone()));
                i += 1;
            },
            Some(k) => {
                if len - i < 2 {
                    return Err(ArgError::NeedsValue(arg.clone()));
                }
                let value: &String = &argv[i + 1];
                let limit: u64 = match k {
                    FlagKind::Count => usize::MAX as u64,
                    _ => u64::MAX,
                };
                match k {
                    FlagKind::Count | FlagKind::Seconds => {
                        match parse_number(value.as_str(), limit) {
                            Err(e) => {
                                return Err(ArgError::BadNumber(arg.clone(), e));
                            },
                            Ok(_) => {},
                        }
                    },
                    _ => {},
                }
                tokens.push(Token::Option(arg.clone(), value.clone()));
                i += 2;
            },
            None => {
                if starts_with(arg.as_str(), "-") {
                    proof {
                        reveal_strlit("-");
                        assert(arg@.subrange(0, 1)[0] == "-"@[0]);
                    }
                    return Err(ArgError::UnknownFlag(arg.clone()));
                }
                proof {
                    reveal_strlit("-");
                    if arg@.len() > 0 && arg@[0] == '-' {
                        assert(arg@.subrange(0, 1) =~= "-"@);
                    }
                }
                if positional {
                    return Err(ArgError::Unexpected(arg.clone()));
                }
                positional = true;
                tokens.push(Token::Positional(arg.clone()));
                i += 1;
            },
        }
        proof {
            assert(token_views(tokens@) =~= before.push(head));
            assert(all =~= token_views(tokens@) + tokens_of(command, line.skip(i as int)));
        }
    }
    assert(token_views(tokens@) + Seq::<Token<Seq<char>>>::empty() =~= token_views(tokens@));
    Ok(tokens)
}

/// The value that `flag` is given last.
pub fn value_of(tokens: &Vec<Token<String>>, flag: &str) -> (r: Option<String>)
    ensures
        r.deep_view() == last_value(token_views(tokens@), flag@),
{
    let ghost views = token_views(tokens@);
    let mut i: usize = tokens.len();
    assert(views.take(i as int) =~= views);
    while i > 0
        invariant
            views == token_views(tokens@),
            i <= tokens@.len(),
            last_value(views, flag@) == last_value(views.take(i as int), flag@),
        decreases i,
    {
        proof {
            assert(views.take(i as int).drop_last() =~= views.take(i - 1));
            assert(views.take(i as int).last() == tokens@[i - 1]@);
        }
        match &tokens[i - 1] {
            Token::Option(f, v) => {
                if same_text(f.as_str(), flag) {
                    return Some(v.clone());
                }
            },
            _ => {},
        }
        i -= 1;
    }
    None
}

/// Whether the switch `flag` is given.
pub fn switch_given(tokens: &Vec<Token<String>>, flag: &str) -> (r: bool)
    ensures
        r == has_switch(token_views(tokens@), flag@),
{
    let mut i: usize = 0;
    while i < tokens.len()
        invariant
            i <= tokens@.len(),
            forall|j: int| 0 <= j < i ==> tokens@[j]@ != Token::Switch(flag@),
        decreases tokens@.len() - i,
    {
        match &tokens[i] {
            Token::Switch(f) => {
                if same_text(f.as_str(), flag) {
                    assert(token_views(tokens@)[i as int] == Token::Switch(flag@));
                    return true;
                }
            },
            _ => {},
        }
        i += 1;
    }
    false
}

/// The first argument that is no flag.
pub fn positional(tokens: &Vec<Token<String>>) -> (r: Option<String>)
    ensures
        r.deep_view() == positional_of(token_views(tokens@)),
{
    let ghost views = token_views(tokens@);
    let mut r: Option<String> = None;
    let mut i: usize = 0;
    while i < tokens.len()
        invariant
            views == token_views(tokens@),
            i <= tokens@.len(),
            r.deep_view() == positional_of(views.take(i as int)),
        decreases tokens@.len() - i,
    {
        proof {
            assert(views.take(i + 1).drop_last() =~= views.take(i as int));
            assert(views.take(i + 1).last() == tokens@[i as int]@);
        }
        match (&tokens[i], &r) {
            (Token::Positional(t), None) => {
                r = Some(t.clone());
            },
            _ => {},
        }
        i += 1;
    }
    assert(views.take(i as int) =~= views);
    r
}

/// Each mode goes by its name, and the usage by either of its flags; nothing else, and
/// nothing at all, asks for anything.
pub proof fn modes_go_by_their_names(first: Seq<char>)
    ensures
        invocation_of(Some(first)) == Some(Invocation::Run(Subcommand::Exec)) <==> first
            == "exec"@,
        invocation_of(Some(first)) == Some(Invocation::Run(Subcommand::Loopback)) <==> first
            == "loopback"@,
        invocation_of(Some(first)) == Some(Invocation::Run(Subcommand::Interop)) <==> first
            == "interop"@,
        invocation_of(Some(first)) == Some(Invocation::Run(Subcommand::Shadow)) <==> first
            == "shadow"@,
        invocation_of(Some(first)) == Some(Invocation::Run(Subcommand::Netns)) <==> first
            == "netns"@,
        invocation_of(Some(first)) == Some(Invocation::Help) <==> first == "-h"@ || first
            == "--help"@,
        invocation_of(None) is None,
{
    reveal_strlit("exec");
    reveal_strlit("loopback");
    reveal_strlit("interop");
    reveal_strlit("shadow");
    reveal_strlit("netns");
    reveal_strlit("-h");
    reveal_strlit("--help");
    assert("exec"@[0] == 'e');
    assert("loopback"@[0] == 'l');
    assert("interop"@[0] == 'i');
    assert("shadow"@[0] == 's');
    assert("netns"@[0] == 'n');
    assert("-h"@[0] == '-');
    assert("--help"@[0] == '-');
}

/// The flags of a stream's run: four switches, and the rest with a value, of which one
/// is a number of things and two are numbers of seconds.
pub proof fn streams_have_these_flags(flag: Seq<char>)
    ensures
        ({
            let kind = flag_kind(Subcommand::Exec, flag);
            &&& kind == Some(FlagKind::Switch) <==> flag == "--jsonl"@ || flag == "--composed"@
                || flag == "--ice-relay-only"@ || flag == "--disable-mdns"@
            &&& kind == Some(FlagKind::Value) <==> flag == "--select"@ || flag == "--role"@ || flag
                == "--signaling"@ || flag == "--run-id"@ || flag == "--ice-bind"@ || flag
                == "--ice-stun"@ || flag == "--ice-turn"@ || flag == "--suite-artifact"@ || flag
                == "--target"@
            &&& kind == Some(FlagKind::Count) <==> flag == "--jobs"@
            &&& kind == Some(FlagKind::Seconds) <==> flag == "--budget"@ || flag
                == "--case-timeout"@
        }),
{
    reveal_strlit("--jsonl");
    reveal_strlit("--composed");
    reveal_strlit("--ice-relay-only");
    reveal_strlit("--disable-mdns");
    reveal_strlit("--select");
    reveal_strlit("--role");
    reveal_strlit("--signaling");
    reveal_strlit("--run-id");
    reveal_strlit("--ice-bind");
    reveal_strlit("--ice-stun");
    reveal_strlit("--ice-turn");
    reveal_strlit("--suite-artifact");
    reveal_strlit("--target");
    reveal_strlit("--jobs");
    reveal_strlit("--budget");
    reveal_strlit("--case-timeout");
    // flags of different kinds differ in their length or in their third character
    assert("--jsonl"@.len() == 7 && "--jsonl"@[2] == 'j');
    assert("--composed"@.len() == 10 && "--composed"@[2] == 'c');
    assert("--ice-relay-only"@.len() == 16 && "--ice-relay-only"@[2] == 'i');
    assert("--disable-mdns"@.len() == 14 && "--disable-mdns"@[2] == 'd');
    assert("--select"@.len() == 8 && "--select"@[2] == 's');
    assert("--role"@.len() == 6 && "--role"@[2] == 'r');
    assert("--signaling"@.len() == 11 && "--signaling"@[2] == 's');
    assert("--run-id"@.len() == 8 && "--run-id"@[2] == 'r');
    assert("--ice-bind"@.len() == 10 && "--ice-bind"@[2] == 'i');
    assert("--ice-stun"@.len() == 10 && "--ice-stun"@[2] == 'i');
    assert("--ice-turn"@.len() == 10 && "--ice-turn"@[2] == 'i');
    assert("--suite-artifact"@.len() == 16 && "--suite-artifact"@[2] == 's');
    assert("--target"@.len() == 8 && "--target"@[2] == 't');
    assert("--jobs"@.len() == 6 && "--jobs"@[2] == 'j');
    assert("--budget"@.len() == 8 && "--budget"@[2] == 'b');
    assert("--case-timeout"@.len() == 14 && "--case-timeout"@[2] == 'c');
}

/// The flags of the other modes, each with a value.
pub proof fn targets_have_these_flags(flag: Seq<char>)
    ensures
        flag_kind(Subcommand::Loopback, flag) == (if flag == "--target"@ || flag == "--kind"@
            || flag == "--artifact"@ || flag == "--script"@ || flag == "-o"@ {
            Some(FlagKind::Value)
        } else {
            None
        }),
        flag_kind(Subcommand::Interop, flag) == (if flag == "--direction"@ || flag
            == "--composed-pair"@ || flag == "--deno-script"@ || flag == "--browser-script"@ || flag
            == "--reference-bin"@ || flag == "--target"@ || flag == "-o"@ {
            Some(FlagKind::Value)
        } else {
            None
        }),
        flag_kind(Subcommand::Shadow, flag) == (if flag == "--composed-pair"@ || flag
            == "--offerer-kind"@ || flag == "--answerer-kind"@ || flag == "--target"@ || flag
            == "--shadow-bin"@ || flag == "--signaling-bin"@ || flag == "--reference-bin"@ || flag
            == "--data-dir"@ || flag == "-o"@ {
            Some(FlagKind::Value)
        } else {
            None
        }),
        flag_kind(Subcommand::Netns, flag) == (if flag == "--scenario"@ || flag == "--target"@
            || flag == "--signaling-bin"@ || flag == "-o"@ {
            Some(FlagKind::Value)
        } else {
            None
        }),
{
}

/// A line is read from the left: a switch stands for itself, any other flag takes what
/// follows it, whatever that is, and what is no flag stands for itself. What looks like
/// a flag and is none ends the reading, and so does a flag that nothing follows.
pub proof fn lines_are_read_from_the_left(
    command: Subcommand,
    arg: Seq<char>,
    value: Seq<char>,
    rest: Seq<Seq<char>>,
)
    ensures
        tokens_of(command, seq![]).len() == 0,
        match flag_kind(command, arg) {
            Some(FlagKind::Switch) => tokens_of(command, seq![arg] + rest) == seq![
                Token::Switch(arg),
            ] + tokens_of(command, rest),
            Some(_) => {
                &&& tokens_of(command, seq![arg, value] + rest) == seq![Token::Option(arg, value)]
                    + tokens_of(command, rest)
                &&& tokens_of(command, seq![arg]) == seq![Token::Dangling(arg)]
            },
            None => if arg.len() > 0 && arg[0] == '-' {
                tokens_of(command, seq![arg] + rest) == seq![Token::Unknown(arg)]
            } else {
                tokens_of(command, seq![arg] + rest) == seq![Token::Positional(arg)] + tokens_of(
                    command,
                    rest,
                )
            },
        },
{
    assert((seq![arg] + rest).skip(1) =~= rest);
    assert((seq![arg, value] + rest).skip(2) =~= rest);
    assert((seq![arg] + rest)[0] == arg);
    assert((seq![arg, value] + rest)[0] == arg);
    assert((seq![arg, value] + rest)[1] == value);
}

/// The first argument that is no flag is the one that counts.
pub proof fn first_positional_counts(
    before: Seq<Token<Seq<char>>>,
    arg: Seq<char>,
    after: Seq<Token<Seq<char>>>,
)
    requires
        forall|i: int| 0 <= i < before.len() ==> !(#[trigger] before[i] is Positional),
    ensures
        positional_of(before) is None,
        positional_of(before + seq![Token::Positional(arg)] + after) == Some(arg),
    decreases before.len() + after.len(),
{
    let whole = before + seq![Token::Positional(arg)] + after;
    if after.len() > 0 {
        first_positional_counts(before, arg, after.drop_last());
        assert(whole.drop_last() =~= before + seq![Token::Positional(arg)] + after.drop_last());
    } else {
        assert(whole.drop_last() =~= before);
        assert(whole.last() == Token::Positional(arg));
        if before.len() > 0 {
            assert(!(before.last() is Positional));
            assert forall|i: int| 0 <= i < before.drop_last().len() implies !(
            #[trigger] before.drop_last()[i] is Positional) by {
                assert(!(before[i] is Positional));
            }
            first_positional_counts(before.drop_last(), arg, after);
        }
    }
}

/// The value that a flag is given last is the one that counts.
pub proof fn last_value_counts(
    before: Seq<Token<Seq<char>>>,
    flag: Seq<char>,
    value: Seq<char>,
    after: Seq<Token<Seq<char>>>,
)
    requires
        forall|i: int|
            0 <= i < after.len() ==> (#[trigger] after[i] matches Token::Option(f, _) ==> f
                != flag),
    ensures
        last_value(after, flag) is None,
        last_value(before + seq![Token::Option(flag, value)] + after, flag) == Some(value),
    decreases after.len(),
{
    let whole = before + seq![Token::Option(flag, value)] + after;
    if after.len() > 0 {
        let shorter = after.drop_last();
        assert forall|i: int| 0 <= i < shorter.len() implies (
        #[trigger] shorter[i] matches Token::Option(f, _) ==> f != flag) by {
            assert(shorter[i] == after[i]);
        }
        last_value_counts(before, flag, value, shorter);
        assert(whole.drop_last() =~= before + seq![Token::Option(flag, value)] + shorter);
        assert(whole.last() == after.last());
        assert(after.last() == after[after.len() - 1]);
    } else {
        assert(whole.last() == Token::Option(flag, value));
    }
}

/// A switch is given where it stands, once or more.
pub proof fn switches_are_given_where_they_stand(tokens: Seq<Token<Seq<char>>>, flag: Seq<char>)
    ensures
        has_switch(tokens, flag) <==> exists|i: int|
            0 <= i < tokens.len() && #[trigger] tokens[i] == Token::Switch(flag),
{
}

/// What is wrong with a token: a flag that is unknown, a flag without its value, a second
/// argument that is no flag, or a number that cannot be read. Nothing else is.
pub proof fn offences_go_by_the_token(
    command: Subcommand,
    tokens: Seq<Token<Seq<char>>>,
    i: int,
)
    requires
        0 <= i < tokens.len(),
    ensures
        match tokens[i] {
            Token::Switch(_) => offence(command, tokens, i) is None,
            Token::Option(flag, value) => match flag_kind(command, flag) {
                Some(FlagKind::Count) => offence(command, tokens, i) == (match number_value(
                    value,
                    usize::MAX as nat,
                ) {
                    Ok(_) => None,
                    Err(e) => Some(ArgError::BadNumber(flag, e)),
                }),
                Some(FlagKind::Seconds) => offence(command, tokens, i) == (match number_value(
                    value,
                    u64::MAX as nat,
                ) {
                    Ok(_) => None,
                    Err(e) => Some(ArgError::BadNumber(flag, e)),
                }),
                _ => offence(command, tokens, i) is None,
            },
            Token::Positional(arg) => {
                &&& offence(command, tokens, i) == Some(ArgError::Unexpected(arg)) || offence(
                    command,
                    tokens,
                    i,
                ) is None
                &&& offence(command, tokens, i) is Some <==> exists|j: int|
                    0 <= j < i && #[trigger] tokens[j] is Positional
            },
            Token::Unknown(flag) => offence(command, tokens, i) == Some(
                ArgError::UnknownFlag(flag),
            ),
            Token::Dangling(flag) => offence(command, tokens, i) == Some(
                ArgError::NeedsValue(flag),
            ),
        },
        number_limit(FlagKind::Count) == usize::MAX,
        number_limit(FlagKind::Seconds) == u64::MAX,
{
    lemma_positional_stands(tokens.take(i));
    assert(forall|j: int| 0 <= j < i ==> tokens.take(i)[j] == #[trigger] tokens[j]);
}

/// There is a first argument that is no flag exactly where there is any.
proof fn lemma_positional_stands(tokens: Seq<Token<Seq<char>>>)
    ensures
        positional_of(tokens) is Some <==> exists|j: int|
            0 <= j < tokens.len() && #[trigger] tokens[j] is Positional,
    decreases tokens.len(),
{
    if tokens.len() > 0 {
        let shorter = tokens.drop_last();
        lemma_positional_stands(shorter);
        assert(forall|j: int| 0 <= j < shorter.len() ==> shorter[j] == #[trigger] tokens[j]);
        assert(tokens.last() == tokens[tokens.len() - 1]);
        if positional_of(shorter) is Some {
            let j = choose|j: int| 0 <= j < shorter.len() && #[trigger] shorter[j] is Positional;
            assert(tokens[j] is Positional);
        }
    }
}

/// A line is wrong exactly where one of its tokens is, and the first of them is
/// reported.
pub proof fn first_offences_are_reported(command: Subcommand, argv: Seq<Seq<char>>, i: int)
    requires
        0 <= i < tokens_of(command, argv).len(),
        forall|j: int|
            0 <= j < i ==> #[trigger] offence(command, tokens_of(command, argv), j) is None,
    ensures
        offence(command, tokens_of(command, argv), i) is Some ==> arg_error(command, argv)
            == offence(command, tokens_of(command, argv), i),
        i == tokens_of(command, argv).len() - 1 ==> arg_error(command, argv) == offence(
            command,
            tokens_of(command, argv),
            i,
        ),
        arg_error(command, seq![]) is None,
{
    let tokens = tokens_of(command, argv);
    lemma_none_before(command, tokens, i);
    assert(first_offence(command, tokens, i + 1) == offence(command, tokens, i));
    if offence(command, tokens, i) is Some {
        lemma_offence_stays(command, tokens, i + 1, tokens.len() as int);
    }
}

/// Tokens that are all right have no first offence.
proof fn lemma_none_before(command: Subcommand, tokens: Seq<Token<Seq<char>>>, n: int)
    requires
        0 <= n,
        forall|j: int| 0 <= j < n ==> #[trigger] offence(command, tokens, j) is None,
    ensures
        first_offence(command, tokens, n) is None,
    decreases n,
{
    if n > 0 {
        lemma_none_before(command, tokens, n - 1);
    }
}

/// Tokens and errors are seen as they are.
pub proof fn tokens_are_seen_as_they_are(
    tokens: Seq<Token<String>>,
    token: Token<String>,
    error: ArgError<String>,
    i: int,
)
    ensures
        token_views(tokens).len() == tokens.len(),
        0 <= i < tokens.len() ==> token_views(tokens)[i] == tokens[i]@,
        match token {
            Token::Switch(f) => token@ == Token::Switch(f@),
            Token::Option(f, v) => token@ == Token::Option(f@, v@),
            Token::Positional(t) => token@ == Token::Positional(t@),
            Token::Unknown(f) => token@ == Token::Unknown(f@),
            Token::Dangling(f) => token@ == Token::Dangling(f@),
        },
        match error {
            ArgError::UnknownFlag(f) => error@ == ArgError::UnknownFlag(f@),
            ArgError::NeedsValue(f) => error@ == ArgError::NeedsValue(f@),
            ArgError::Unexpected(t) => error@ == ArgError::Unexpected(t@),
            ArgError::BadNumber(f, e) => error@ == ArgError::BadNumber(f@, e),
        },
{
}

} // verus!
