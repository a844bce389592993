//! Orchestration of a run: which command produces each side's stream, what the
//! reference peer is driven with, and how the results of one target's streams
//! come together.

use vstd::prelude::*;

use crate::signaling::{is_room_char, room_char};
use crate::text::{
    after_first, after_last, chars_of, contains_text, decimal, decimal_text, find_from,
    later_lines_follow_the_first, lemma_decimal_digits, lemma_decimal_injective,
    lemma_text_less_asymmetric, lemma_text_less_total, lemma_text_less_transitive, lines,
    occurs_at, same_text, split_first, starts_with, tails_follow_the_last, text, text_after_last,
    text_before, text_less, texts_are_found_where_they_stand, texts_split_at_the_first,
    texts_stand_in_lines,
};

verus! {

/// How a case ended.
#[derive(Clone, Copy, Debug, PartialEq, Eq, Structural)]
pub enum Status {
    /// Every assertion held.
    Pass,
    /// An assertion failed.
    Fail,
    /// The suite declined the case.
    Skipped,
    /// The case was not among those selected.
    Deselected,
    /// The run ended before the case.
    NotReached,
}

/// The result of one case.
#[derive(Clone, Debug)]
pub struct CaseResult {
    /// The case's full name.
    pub case: String,
    /// How it ended.
    pub status: Status,
    /// What produced the verdict, where that is recorded.
    pub provenance: Option<String>,
    /// What the verdict says beyond its status.
    pub detail: Option<String>,
    /// The seed of a randomized case.
    pub seed: Option<u64>,
    /// How long it took.
    pub duration_ms: Option<u64>,
    /// What the case reported on the way.
    pub diagnostics: Vec<String>,
    /// Whether all of that was kept.
    pub diagnostics_complete: bool,
}

/// One results stream.
#[derive(Clone, Debug)]
pub struct Document {
    /// The target that the stream is of.
    pub target: String,
    /// The suite that it ran.
    pub suite: String,
    /// The cases' results.
    pub results: Vec<CaseResult>,
    /// What went wrong with the run itself.
    pub run_errors: Vec<String>,
    /// Statuses in the stream that are none of those known.
    pub unknown_statuses: Vec<String>,
    /// Whether the stream came to its end.
    pub terminated: bool,
}

/// How one side of a run produces its stream.
#[derive(Clone, Debug)]
pub enum PeerKind {
    /// Self-exec: the wasmtime leg (hosted or composed) over `artifact`.
    SelfExec { artifact: String, composed: bool, suite_artifact: Option<String> },
    /// A Node script (the browser leg's page driver).
    Node { script: String, args: Vec<String> },
    /// A Deno script, governed by the `deno.json` beside it.
    Deno { script: String, args: Vec<String> },
    /// The native reference peer: one process per case.
    Reference { bin: String },
}

/// A [`PeerKind`] by its texts.
pub enum PeerKindView {
    /// Self-exec.
    SelfExec { artifact: Seq<char>, composed: bool, suite_artifact: Option<Seq<char>> },
    /// A Node script.
    Node { script: Seq<char>, args: Seq<Seq<char>> },
    /// A Deno script.
    Deno { script: Seq<char>, args: Seq<Seq<char>> },
    /// The reference peer.
    Reference { bin: Seq<char> },
}

impl View for PeerKind {
    type V = PeerKindView;

    open spec fn view(&self) -> PeerKindView {
        match self {
            PeerKind::SelfExec { artifact, composed, suite_artifact } => PeerKindView::SelfExec {
                artifact: artifact@,
                composed: *composed,
                suite_artifact: suite_artifact.deep_view(),
            },
            PeerKind::Node { script, args } => PeerKindView::Node {
                script: script@,
                args: args.deep_view(),
            },
            PeerKind::Deno { script, args } => PeerKindView::Deno {
                script: script@,
                args: args.deep_view(),
            },
            PeerKind::Reference { bin } => PeerKindView::Reference { bin: bin@ },
        }
    }
}

/// What every stream of a run shares.
#[derive(Clone, Debug)]
pub struct RunContext {
    /// The signaling server's base URL.
    pub signaling_url: String,
    /// The run's id, from which its rooms are derived.
    pub run_id: String,
    /// Wall bound per case.
    pub case_timeout_secs: u64,
    /// Execution budget per case.
    pub budget_secs: u64,
}

/// A script's place on disk.
#[derive(Clone, Debug)]
pub struct ResolvedScript {
    /// The script's absolute path.
    pub script: String,
    /// The directory that holds it.
    pub dir: String,
}

/// What a child process runs.
#[derive(Clone, Debug)]
pub enum Program {
    /// This program itself.
    CurrentExe,
    /// The program of that name.
    Named(String),
}

/// A child process to run.
#[derive(Clone, Debug)]
pub struct ChildCommand {
    /// What it runs.
    pub program: Program,
    /// Its arguments.
    pub args: Vec<String>,
    /// The variables added to its environment.
    pub env: Vec<(String, String)>,
    /// The directory it runs in, unless it is this program's.
    pub dir: Option<String>,
    /// How reports name it.
    pub label: String,
}

/// A [`ChildCommand`] by its texts; no program name stands for this program.
pub struct ChildCommandView {
    /// The program's name.
    pub program: Option<Seq<char>>,
    /// Its arguments.
    pub args: Seq<Seq<char>>,
    /// The variables added to its environment.
    pub env: Seq<(Seq<char>, Seq<char>)>,
    /// The directory it runs in.
    pub dir: Option<Seq<char>>,
    /// How reports name it.
    pub label: Seq<char>,
}

impl View for ChildCommand {
    type V = ChildCommandView;

    open spec fn view(&self) -> ChildCommandView {
        ChildCommandView {
            program: match self.program {
                Program::CurrentExe => None,
                Program::Named(name) => Some(name@),
            },
            args: self.args.deep_view(),
            env: self.env.deep_view(),
            dir: self.dir.deep_view(),
            label: self.label@,
        }
    }
}

/// How a side's stream is to be had.
#[derive(Clone, Debug)]
pub enum ChildPlan {
    /// From one child process.
    Spawn(ChildCommand),
    /// From one process of the reference peer per case.
    PerCase { bin: String, role: String },
}

/// Why a side's stream cannot be had.
#[derive(Clone, Copy, Debug, PartialEq, Eq, Structural)]
pub enum ChildError {
    /// The script's place is not known.
    UnresolvedScript,
    /// The reference peer only runs pair roles.
    ReferenceNeedsRole,
}

impl ChildError {
    /// Why the stream cannot be had, in words.
    pub fn message(&self) -> (r: String)
        ensures
            r@ == (match self {
                ChildError::UnresolvedScript => "the child's script was not resolved"@,
                ChildError::ReferenceNeedsRole => "the reference peer only runs pair roles"@,
            }),
    {
        match self {
            ChildError::UnresolvedScript => text("the child's script was not resolved"),
            ChildError::ReferenceNeedsRole => text("the reference peer only runs pair roles"),
        }
    }
}

/// A [`ChildPlan`] by its texts.
pub enum ChildPlanView {
    /// From one child process.
    Spawn(ChildCommandView),
    /// From one process of the reference peer per case.
    PerCase { bin: Seq<char>, role: Seq<char> },
}

impl View for ChildPlan {
    type V = ChildPlanView;

    open spec fn view(&self) -> ChildPlanView {
        match self {
            ChildPlan::Spawn(c) => ChildPlanView::Spawn(c@),
            ChildPlan::PerCase { bin, role } => ChildPlanView::PerCase { bin: bin@, role: role@ },
        }
    }
}

/// The text of an optional text, by its view.
pub open spec fn opt_text(t: Option<&str>) -> Option<Seq<char>> {
    match t {
        Some(s) => Some(s@),
        None => None,
    }
}

/// How a child is named in reports: its kind and, in brackets, its role.
pub open spec fn child_label(kind: Seq<char>, role: Option<Seq<char>>) -> Seq<char> {
    kind + "["@ + (match role {
        Some(r) => r,
        None => "solo"@,
    }) + "]"@
}

/// The arguments of a self-exec child.
pub open spec fn self_exec_args(
    artifact: Seq<char>,
    composed: bool,
    suite_artifact: Option<Seq<char>>,
    ctx: RunContext,
    select: Seq<char>,
    role: Option<Seq<char>>,
    jobs: nat,
) -> Seq<Seq<char>> {
    let base = seq![
        "exec"@,
        artifact,
        "--jsonl"@,
        "--select"@,
        select,
        "--jobs"@,
        decimal(jobs),
        "--budget"@,
        decimal(ctx.budget_secs as nat),
        "--case-timeout"@,
        decimal(ctx.case_timeout_secs as nat),
    ];
    let composed_args = if composed {
        seq!["--composed"@]
    } else {
        seq![]
    };
    let artifact_args = match suite_artifact {
        Some(a) => seq!["--suite-artifact"@, a],
        None => seq![],
    };
    let role_args = match role {
        Some(r) => seq![
            "--role"@,
            r,
            "--signaling"@,
            ctx.signaling_url@,
            "--run-id"@,
            ctx.run_id@,
        ],
        None => seq![],
    };
    base + composed_args + artifact_args + role_args
}

/// The `deno.json` in a directory.
pub open spec fn deno_config(dir: Seq<char>) -> Seq<char> {
    if dir.len() > 0 && dir.last() != '/' {
        dir + "/deno.json"@
    } else {
        dir + "deno.json"@
    }
}

/// The variables that a script child finds in its environment.
pub open spec fn script_env(ctx: RunContext, role: Option<Seq<char>>) -> Seq<
    (Seq<char>, Seq<char>),
> {
    let base = seq![
        ("RTC_CT_SIGNALING_URL"@, ctx.signaling_url@),
        ("RTC_CT_RUN_ID"@, ctx.run_id@),
        ("RTC_CT_CASE_TIMEOUT_SECS"@, decimal(ctx.case_timeout_secs as nat)),
    ];
    match role {
        Some(r) => base.push(("RTC_CT_ROLE"@, r)),
        None => base,
    }
}

/// How the stream of `kind` is to be had.
pub open spec fn child_plan(
    kind: PeerKindView,
    ctx: RunContext,
    select: Seq<char>,
    role: Option<Seq<char>>,
    jobs: nat,
    script: Option<ResolvedScript>,
) -> Result<ChildPlanView, ChildError> {
    match kind {
        PeerKindView::SelfExec { artifact, composed, suite_artifact } => Ok(
            ChildPlanView::Spawn(
                ChildCommandView {
                    program: None,
                    args: self_exec_args(
                        artifact,
                        composed,
                        suite_artifact,
                        ctx,
                        select,
                        role,
                        jobs,
                    ),
                    env: seq![],
                    dir: None,
                    label: child_label("self-exec"@, role),
                },
            ),
        ),
        PeerKindView::Node { args, .. } => match script {
            None => Err(ChildError::UnresolvedScript),
            Some(s) => Ok(
                ChildPlanView::Spawn(
                    ChildCommandView {
                        program: Some("node"@),
                        args: seq![s.script@, "--select"@, select] + args,
                        env: script_env(ctx, role),
                        dir: Some(s.dir@),
                        label: child_label("node"@, role),
                    },
                ),
            ),
        },
        PeerKindView::Deno { args, .. } => match script {
            None => Err(ChildError::UnresolvedScript),
            Some(s) => Ok(
                ChildPlanView::Spawn(
                    ChildCommandView {
                        program: Some("deno"@),
                        args: seq![
                            "run"@,
                            "--allow-all"@,
                            "--frozen"@,
                            "--config"@,
                            deno_config(s.dir@),
                            s.script@,
                            "--select"@,
                            select,
                        ] + args,
                        env: script_env(ctx, role),
                        dir: Some(s.dir@),
                        label: child_label("deno"@, role),
                    },
                ),
            ),
        },
        PeerKindView::Reference { bin } => match role {
            None => Err(ChildError::ReferenceNeedsRole),
            Some(r) => Ok(ChildPlanView::PerCase { bin, role: r }),
        },
    }
}

/// The script that has to be found on disk before a stream of `kind` can be
/// had.
pub fn script_of(kind: &PeerKind) -> (r: Option<&str>)
    ensures
        opt_text(r) == match kind@ {
            PeerKindView::Node { script, .. } => Some(script),
            PeerKindView::Deno { script, .. } => Some(script),
            _ => None,
        },
{
    match kind {
        PeerKind::Node { script, .. } => Some(script.as_str()),
        PeerKind::Deno { script, .. } => Some(script.as_str()),
        _ => None,
    }
}

/// Names a child in reports.
fn label_of(kind: &str, role: Option<&str>) -> (r: String)
    ensures
        r@ == child_label(kind@, opt_text(role)),
{
    let mut r: String = text(kind);
    r.append("[");
    match role {
        Some(role) => r.append(role),
        None => r.append("solo"),
    }
    r.append("]");
    r
}

/// Adds the texts of `more` to `args`.
fn add_args(args: &mut Vec<String>, more: &Vec<String>)
    ensures
        final(args).deep_view() == old(args).deep_view() + more.deep_view(),
{
    let mut i: usize = 0;
    let ghost before = args.deep_view();
    assert(before + more.deep_view().take(0) =~= before);
    while i < more.len()
        invariant
            i <= more@.len(),
            args.deep_view() == before + more.deep_view().take(i as int),
        decreases more@.len() - i,
    {
        let ghost prior = args.deep_view();
        args.push(more[i].clone());
        assert(args.deep_view() =~= prior.push(more@[i as int]@));
        i += 1;
        assert(args.deep_view() =~= before + more.deep_view().take(i as int));
    }
    assert(more.deep_view().take(i as int) =~= more.deep_view());
}

/// The environment of a script child.
fn env_of(ctx: &RunContext, role: Option<&str>) -> (r: Vec<(String, String)>)
    ensures
        r.deep_view() == script_env(*ctx, opt_text(role)),
{
    let mut env: Vec<(String, String)> = Vec::new();
    env.push((text("RTC_CT_SIGNALING_URL"), ctx.signaling_url.clone()));
    env.push((text("RTC_CT_RUN_ID"), ctx.run_id.clone()));
    env.push(
        (text("RTC_CT_CASE_TIMEOUT_SECS"), decimal_text(ctx.case_timeout_secs as u128)),
    );
    if let Some(role) = role {
        env.push((text("RTC_CT_ROLE"), text(role)));
    }
    assert(env.deep_view() =~= script_env(*ctx, opt_text(role)));
    env
}

/// Where the `deno.json` in a directory is.
fn config_path(dir: &str) -> (r: String)
    ensures
        r@ == deno_config(dir@),
{
    let chars: Vec<char> = chars_of(dir);
    let mut r: String = text(dir);
    if chars.len() > 0 && chars[chars.len() - 1] != '/' {
        r.append("/deno.json");
    } else {
        r.append("deno.json");
    }
    r
}

/// The command of a self-exec child.
fn self_exec(
    artifact: &String,
    composed: bool,
    suite_artifact: &Option<String>,
    ctx: &RunContext,
    select: &str,
    role: Option<&str>,
    jobs: usize,
) -> (r: Vec<String>)
    ensures
        r.deep_view() == self_exec_args(
            artifact@,
            composed,
            suite_artifact.deep_view(),
            *ctx,
            select@,
            opt_text(role),
            jobs as nat,
        ),
{
    let mut args: Vec<String> = Vec::new();
    args.push(text("exec"));
    args.push(artifact.clone());
    args.push(text("--jsonl"));
    args.push(text("--select"));
    args.push(text(select));
    args.push(text("--jobs"));
    args.push(decimal_text(jobs as u128));
    args.push(text("--budget"));
    args.push(decimal_text(ctx.budget_secs as u128));
    args.push(text("--case-timeout"));
    args.push(decimal_text(ctx.case_timeout_secs as u128));
    if composed {
        args.push(text("--composed"));
    }
    if let Some(a) = suite_artifact {
        args.push(text("--suite-artifact"));
        args.push(a.clone());
    }
    if let Some(role) = role {
        args.push(text("--role"));
        args.push(text(role));
        args.push(text("--signaling"));
        args.push(ctx.signaling_url.clone());
        args.push(text("--run-id"));
        args.push(ctx.run_id.clone());
    }
    assert(args.deep_view() =~= self_exec_args(
        artifact@,
        composed,
        suite_artifact.deep_view(),
        *ctx,
        select@,
        opt_text(role),
        jobs as nat,
    ));
    args
}

/// How the stream of `kind` is to be had: over the cases that `select`
/// begins, as `role` of a pair or, without one, alone. `script` is where the
/// script of [`script_of`] was found.
pub fn child_stream(
    kind: &PeerKind,
    ctx: &RunContext,
    select: &str,
    role: Option<&str>,
    jobs: usize,
    script: &Option<ResolvedScript>,
) -> (r: Result<ChildPlan, ChildError>)
    ensures
        match r {
            Ok(plan) => child_plan(
                kind@,
                *ctx,
                select@,
                opt_text(role),
                jobs as nat,
                *script,
            ) == Ok::<ChildPlanView, ChildError>(plan@),
            Err(e) => child_plan(
                kind@,
                *ctx,
                select@,
                opt_text(role),
                jobs as nat,
                *script,
            ) == Err::<ChildPlanView, ChildError>(e),
        },
{
    match kind {
        PeerKind::SelfExec { artifact, composed, suite_artifact } => {
            let command: ChildCommand = ChildCommand {
                program: Program::CurrentExe,
                args: self_exec(artifact, *composed, suite_artifact, ctx, select, role, jobs),
                env: Vec::new(),
                dir: None,
                label: label_of("self-exec", role),
            };
            assert(command.env.deep_view() =~= seq![]);
            Ok(ChildPlan::Spawn(command))
        },
        PeerKind::Node { args: more, .. } => match script {
            None => Err(ChildError::UnresolvedScript),
            Some(s) => {
                let mut args: Vec<String> = Vec::new();
                args.push(s.script.clone());
                args.push(text("--select"));
                args.push(text(select));
                assert(args.deep_view() =~= seq![s.script@, "--select"@, select@]);
                add_args(&mut args, more);
                Ok(
                    ChildPlan::Spawn(
                        ChildCommand {
                            program: Program::Named(text("node")),
                            args,
                            env: env_of(ctx, role),
                            dir: Some(s.dir.clone()),
                            label: label_of("node", role),
                        },
                    ),
                )
            },
        },
        PeerKind::Deno { args: more, .. } => match script {
            None => Err(ChildError::UnresolvedScript),
            Some(s) => {
                let mut args: Vec<String> = Vec::new();
                args.push(text("run"));
                args.push(text("--allow-all"));
                args.push(text("--frozen"));
                args.push(text("--config"));
                args.push(config_path(s.dir.as_str()));
                args.push(s.script.clone());
                args.push(text("--select"));
                args.push(text(select));
                assert(args.deep_view() =~= seq![
                    "run"@,
                    "--allow-all"@,
                    "--frozen"@,
                    "--config"@,
                    deno_config(s.dir@),
                    s.script@,
                    "--select"@,
                    select@,
                ]);
                add_args(&mut args, more);
                Ok(
                    ChildPlan::Spawn(
                        ChildCommand {
                            program: Program::Named(text("deno")),
                            args,
                            env: env_of(ctx, role),
                            dir: Some(s.dir.clone()),
                            label: label_of("deno", role),
                        },
                    ),
                )
            },
        },
        PeerKind::Reference { bin } => match role {
            None => Err(ChildError::ReferenceNeedsRole),
            Some(role) => Ok(ChildPlan::PerCase { bin: bin.clone(), role: text(role) }),
        },
    }
}

/// The cases whose names begin with `prefix`, in suite order (the order every
/// side runs, so lockstep rendezvous holds).
pub fn selected_cases(names: &Vec<String>, prefix: &str) -> (r: Vec<String>)
    ensures
        r.deep_view() == names.deep_view().filter(|n: Seq<char>| prefix@.is_prefix_of(n)),
{
    let ghost keep = |n: Seq<char>| prefix@.is_prefix_of(n);
    let ghost all = names.deep_view();
    let mut r: Vec<String> = Vec::new();
    let mut i: usize = 0;
    proof {
        reveal(Seq::filter);
        assert(r.deep_view() =~= all.take(0).filter(keep));
    }
    while i < names.len()
        invariant
            i <= names@.len(),
            all == names.deep_view(),
            keep == (|n: Seq<char>| prefix@.is_prefix_of(n)),
            r.deep_view() == all.take(i as int).filter(keep),
        decreases names@.len() - i,
    {
        let ghost before = r.deep_view();
        proof {
            reveal(Seq::filter);
            assert(all.take(i + 1).drop_last() =~= all.take(i as int));
            assert(all.take(i + 1).last() == names@[i as int]@);
        }
        if starts_with(names[i].as_str(), prefix) {
            r.push(names[i].clone());
            assert(r.deep_view() =~= before.push(names@[i as int]@));
        }
        i += 1;
    }
    assert(all.take(i as int) =~= all);
    r
}

/// The per-case message count and size that the reference peer is driven with.
pub open spec fn params_of(leaf: Seq<char>) -> (u32, u32) {
    if leaf == "large-message"@ {
        (1, 16384)
    } else if leaf == "message-boundaries"@ || leaf == "ordering"@ || leaf == "payload-integrity"@
        || leaf == "concurrent-send-receive"@ || leaf == "interop-handshake"@ {
        (16, 512)
    } else {
        (4, 256)
    }
}

/// The per-case message count and size that the reference peer is driven
/// with. They must agree with the suite's own stimulus; a mismatch fails the
/// count-parameterized cases loudly on both sides.
pub fn reference_params(leaf: &str) -> (r: (u32, u32))
    ensures
        r == params_of(leaf@),
{
    if same_text(leaf, "large-message") {
        (1, 16384)
    } else if same_text(leaf, "message-boundaries") || same_text(leaf, "ordering") || same_text(
        leaf,
        "payload-integrity",
    ) || same_text(leaf, "concurrent-send-receive") || same_text(leaf, "interop-handshake") {
        (16, 512)
    } else {
        (4, 256)
    }
}

/// The mailbox room of a case.
pub open spec fn room_of(run_id: Seq<char>, leaf: Seq<char>) -> Seq<char> {
    run_id + "-"@ + leaf
}

/// The reference peer's arguments for one case.
pub open spec fn reference_args_of(ctx: RunContext, role: Seq<char>, case: Seq<char>) -> Seq<
    Seq<char>,
> {
    let leaf = after_last(case, '/');
    seq![
        "--test"@,
        leaf,
        "--role"@,
        role,
        "--server"@,
        ctx.signaling_url@,
        "--room"@,
        room_of(ctx.run_id@, leaf),
        "--message-count"@,
        decimal(params_of(leaf).0 as nat),
        "--message-size"@,
        decimal(params_of(leaf).1 as nat),
    ]
}

/// The reference peer's arguments for one case, which it knows by the last
/// segment of the case's name.
pub fn reference_args(ctx: &RunContext, role: &str, case: &str) -> (r: Vec<String>)
    ensures
        r.deep_view() == reference_args_of(*ctx, role@, case@),
{
    let leaf: String = text_after_last(case, '/');
    let (count, size) = reference_params(leaf.as_str());
    let mut room: String = ctx.run_id.clone();
    room.append("-");
    room.append(leaf.as_str());
    let mut args: Vec<String> = Vec::new();
    args.push(text("--test"));
    args.push(leaf);
    args.push(text("--role"));
    args.push(text(role));
    args.push(text("--server"));
    args.push(ctx.signaling_url.clone());
    args.push(text("--room"));
    args.push(room);
    args.push(text("--message-count"));
    args.push(decimal_text(count as u128));
    args.push(text("--message-size"));
    args.push(decimal_text(size as u128));
    assert(args.deep_view() =~= reference_args_of(*ctx, role@, case@));
    args
}

/// The stream made of the reference peer's results.
pub fn reference_stream(results: Vec<CaseResult>) -> (r: Document)
    ensures
        r.target@ == "reference"@,
        r.suite@ == ""@,
        r.results == results,
        r.run_errors@.len() == 0,
        r.unknown_statuses@.len() == 0,
        r.terminated,
{
    Document {
        target: text("reference"),
        suite: text(""),
        results,
        run_errors: Vec::new(),
        unknown_statuses: Vec::new(),
        terminated: true,
    }
}

/// The texts of `errors`, each behind `source` and a colon.
pub open spec fn labelled(source: Seq<char>, errors: Seq<Seq<char>>) -> Seq<Seq<char>> {
    errors.map_values(|e: Seq<char>| source + ": "@ + e)
}

/// Adds `errors` to `to`, each behind `source`.
fn add_labelled(to: &mut Vec<String>, source: &str, errors: &Vec<String>)
    ensures
        final(to).deep_view() == old(to).deep_view() + labelled(source@, errors.deep_view()),
{
    let ghost before = to.deep_view();
    let ghost all = labelled(source@, errors.deep_view());
    let mut i: usize = 0;
    assert(before + all.take(0) =~= before);
    while i < errors.len()
        invariant
            i <= errors@.len(),
            all == labelled(source@, errors.deep_view()),
            to.deep_view() == before + all.take(i as int),
        decreases errors@.len() - i,
    {
        let mut line: String = text(source);
        line.append(": ");
        line.append(errors[i].as_str());
        let ghost prior = to.deep_view();
        to.push(line);
        assert(to.deep_view() =~= prior.push(all[i as int]));
        i += 1;
        assert(to.deep_view() =~= before + all.take(i as int));
    }
    assert(all.take(i as int) =~= all);
}

/// What went wrong with the two runs of a pair, each behind the side's role.
pub fn pair_errors(offerer: &Vec<String>, answerer: &Vec<String>) -> (r: Vec<String>)
    ensures
        r.deep_view() == labelled("offerer"@, offerer.deep_view()) + labelled(
            "answerer"@,
            answerer.deep_view(),
        ),
{
    let mut r: Vec<String> = Vec::new();
    add_labelled(&mut r, "offerer", offerer);
    add_labelled(&mut r, "answerer", answerer);
    assert(r.deep_view() =~= labelled("offerer"@, offerer.deep_view()) + labelled(
        "answerer"@,
        answerer.deep_view(),
    ));
    r
}

/// The name of a suite: the stem of its artifact's file name, or `suite` where
/// there is none.
pub fn suite_name(stem: Option<String>) -> (r: String)
    ensures
        r@ == (match stem {
            Some(stem) => stem@,
            None => "suite"@,
        }),
{
    match stem {
        Some(stem) => stem,
        None => text("suite"),
    }
}

/// A text with a dash in place of each character that no room name holds.
pub open spec fn room_part(s: Seq<char>) -> Seq<char> {
    s.map_values(|c: char| if is_room_char(c) { c } else { '-' })
}

/// A run id: the target as a part of a room name, the process and the time, with
/// dashes between them.
pub open spec fn run_id_of(target: Seq<char>, pid: nat, nanos: nat) -> Seq<char> {
    room_part(target) + "-"@ + decimal(pid) + "-"@ + decimal(nanos)
}

/// A unique, room-charset-safe run id: of a run of `target` by the process `pid`,
/// started `nanos` after the epoch.
pub fn run_id(target: &str, pid: u32, nanos: u128) -> (r: String)
    ensures
        r@ == run_id_of(target@, pid as nat, nanos as nat),
{
    let chars: Vec<char> = chars_of(target);
    let mut r: String = String::new();
    let mut i: usize = 0;
    assert(r@ =~= room_part(target@).take(0));
    while i < chars.len()
        invariant
            i <= chars@.len(),
            chars@ == target@,
            r@ == room_part(target@).take(i as int),
        decreases chars@.len() - i,
    {
        let c: char = chars[i];
        r.push(
            if room_char(c) {
                c
            } else {
                '-'
            },
        );
        i += 1;
        assert(r@ =~= room_part(target@).take(i as int));
    }
    assert(room_part(target@).take(i as int) =~= room_part(target@));
    r.append("-");
    r.append(decimal_text(pid as u128).as_str());
    r.append("-");
    r.append(decimal_text(nanos).as_str());
    r
}

/// A letter or digit of ASCII.
pub open spec fn is_ascii_alphanumeric(c: char) -> bool {
    'a' <= c <= 'z' || 'A' <= c <= 'Z' || '0' <= c <= '9'
}

/// A label as a file name: a dash in place of each character that is no letter
/// or digit.
pub open spec fn file_name_of(label: Seq<char>) -> Seq<char> {
    label.map_values(|c: char| if is_ascii_alphanumeric(c) { c } else { '-' })
}

/// Where a child's stream is kept for debugging.
pub fn debug_path(dir: &str, label: &str, pid: u32) -> (r: String)
    ensures
        r@ == dir@ + "/"@ + file_name_of(label@) + "-"@ + decimal(pid as nat) + ".jsonl"@,
{
    let chars: Vec<char> = chars_of(label);
    let mut name: String = String::new();
    let mut i: usize = 0;
    assert(name@ =~= file_name_of(label@).take(0));
    while i < chars.len()
        invariant
            i <= chars@.len(),
            chars@ == label@,
            name@ == file_name_of(label@).take(i as int),
        decreases chars@.len() - i,
    {
        let c: char = chars[i];
        let alphanumeric: bool = ('a' <= c && c <= 'z') || ('A' <= c && c <= 'Z') || ('0' <= c
            && c <= '9');
        name.push(
            if alphanumeric {
                c
            } else {
                '-'
            },
        );
        i += 1;
        assert(name@ =~= file_name_of(label@).take(i as int));
    }
    assert(file_name_of(label@).take(i as int) =~= file_name_of(label@));
    let mut r: String = text(dir);
    r.append("/");
    r.append(name.as_str());
    r.append("-");
    r.append(decimal_text(pid as u128).as_str());
    r.append(".jsonl");
    r
}

/// A table of results, by case, once the row `r` has come in: a deselected row
/// does not displace a verdict.
pub open spec fn merge_row(
    table: Map<Seq<char>, CaseResult>,
    r: CaseResult,
) -> Map<Seq<char>, CaseResult> {
    if !table.contains_key(r.case@) || r.status != Status::Deselected || table[r.case@].status
        == Status::Deselected {
        table.insert(r.case@, r)
    } else {
        table
    }
}

/// The table of results, by case, that rows come to one after the other.
pub open spec fn merge_rows(rows: Seq<CaseResult>) -> Map<Seq<char>, CaseResult>
    decreases rows.len(),
{
    if rows.len() == 0 {
        Map::empty()
    } else {
        merge_row(merge_rows(rows.drop_last()), rows.last())
    }
}

/// Whether the rows stand in the order of their cases, each case once.
pub open spec fn in_case_order(rows: Seq<CaseResult>) -> bool {
    forall|i: int, j: int|
        0 <= i < j < rows.len() ==> text_less(#[trigger] rows[i].case@, #[trigger] rows[j].case@)
}

/// Whether the rows are those of the table.
pub open spec fn rows_of_table(
    rows: Seq<CaseResult>,
    table: Map<Seq<char>, CaseResult>,
) -> bool {
    &&& forall|i: int|
        0 <= i < rows.len() ==> table.contains_key(#[trigger] rows[i].case@)
            && table[rows[i].case@] == rows[i]
    &&& forall|k: Seq<char>| #[trigger]
        table.contains_key(k) ==> exists|i: int| 0 <= i < rows.len() && rows[i].case@ == k
}

/// Takes the row `r` into `rows`, which are those of `table`.
fn take_row(rows: &mut Vec<CaseResult>, r: CaseResult, Ghost(table): Ghost<
    Map<Seq<char>, CaseResult>,
>)
    requires
        in_case_order(old(rows)@),
        rows_of_table(old(rows)@, table),
    ensures
        in_case_order(final(rows)@),
        rows_of_table(final(rows)@, merge_row(table, r)),
{
    let ghost before = rows@;
    let mut at: usize = 0;
    while at < rows.len() && text_before(rows[at].case.as_str(), r.case.as_str())
        invariant
            at <= rows@.len(),
            rows@ == before,
            forall|j: int| 0 <= j < at ==> text_less(#[trigger] before[j].case@, r.case@),
        decreases rows@.len() - at,
    {
        at += 1;
    }
    if at < rows.len() && same_text(rows[at].case.as_str(), r.case.as_str()) {
        let replace: bool = r.status != Status::Deselected || rows[at].status
            == Status::Deselected;
        assert(table.contains_key(before[at as int].case@));
        if replace {
            let ghost row = r;
            rows.set(at, r);
            proof {
                let after = rows@;
                let merged = merge_row(table, row);
                assert forall|i: int, j: int| 0 <= i < j < after.len() implies text_less(
                    #[trigger] after[i].case@,
                    #[trigger] after[j].case@,
                ) by {
                    assert(text_less(before[i].case@, before[j].case@));
                }
                assert forall|i: int| 0 <= i < after.len() implies merged.contains_key(
                    #[trigger] after[i].case@,
                ) && merged[after[i].case@] == after[i] by {
                    if i != at {
                        assert(table.contains_key(before[i].case@));
                        if i < at {
                            assert(text_less(before[i].case@, before[at as int].case@));
                            lemma_text_less_asymmetric(before[i].case@, before[at as int].case@);
                        } else {
                            assert(text_less(before[at as int].case@, before[i].case@));
                            lemma_text_less_asymmetric(before[at as int].case@, before[i].case@);
                        }
                    }
                }
                assert forall|k: Seq<char>| #[trigger] merged.contains_key(k) implies exists|
                    i: int,
                | 0 <= i < after.len() && after[i].case@ == k by {
                    assert(table.contains_key(k));
                    let i = choose|i: int| 0 <= i < before.len() && before[i].case@ == k;
                    assert(after[i].case@ == k);
                }
            }
        }
    } else {
        proof {
            assert forall|j: int| at <= j < before.len() implies text_less(
                r.case@,
                #[trigger] before[j].case@,
            ) by {
                lemma_text_less_total(before[at as int].case@, r.case@);
                if j > at {
                    assert(text_less(before[at as int].case@, before[j].case@));
                    lemma_text_less_transitive(
                        r.case@,
                        before[at as int].case@,
                        before[j].case@,
                    );
                }
            }
            if table.contains_key(r.case@) {
                let i = choose|i: int| 0 <= i < before.len() && before[i].case@ == r.case@;
                lemma_text_less_asymmetric(r.case@, r.case@);
            }
        }
        let ghost row = r;
        rows.insert(at, r);
        proof {
            let after = rows@;
            let merged = merge_row(table, row);
            assert(after == before.insert(at as int, row));
            assert forall|i: int, j: int| 0 <= i < j < after.len() implies text_less(
                #[trigger] after[i].case@,
                #[trigger] after[j].case@,
            ) by {
                if i < at && j < at {
                    assert(text_less(before[i].case@, before[j].case@));
                } else if i < at && j > at {
                    assert(text_less(before[i].case@, before[j - 1].case@));
                } else if i > at {
                    assert(text_less(before[i - 1].case@, before[j - 1].case@));
                }
            }
            assert forall|i: int| 0 <= i < after.len() implies merged.contains_key(
                #[trigger] after[i].case@,
            ) && merged[after[i].case@] == after[i] by {
                if i < at {
                    assert(table.contains_key(before[i].case@));
                } else if i > at {
                    assert(after[i] == before[i - 1]);
                    assert(table.contains_key(before[i - 1].case@));
                }
            }
            assert forall|k: Seq<char>| #[trigger] merged.contains_key(k) implies exists|i: int|
                0 <= i < after.len() && after[i].case@ == k by {
                if k == row.case@ {
                    assert(after[at as int].case@ == k);
                } else {
                    assert(table.contains_key(k));
                    let i = choose|i: int| 0 <= i < before.len() && before[i].case@ == k;
                    if i < at {
                        assert(after[i].case@ == k);
                    } else {
                        assert(after[i + 1].case@ == k);
                    }
                }
            }
        }
    }
}

/// Takes the rows of `more` into `rows`.
fn take_rows(rows: &mut Vec<CaseResult>, more: Vec<CaseResult>, Ghost(before): Ghost<
    Seq<CaseResult>,
>)
    requires
        in_case_order(old(rows)@),
        rows_of_table(old(rows)@, merge_rows(before)),
    ensures
        in_case_order(final(rows)@),
        rows_of_table(final(rows)@, merge_rows(before + more@)),
{
    let ghost all = more@;
    assert(before + all.take(0) =~= before);
    for r in it: more
        invariant
            it.seq() == all,
            in_case_order(rows@),
            rows_of_table(rows@, merge_rows(before + all.take(it.index() as int))),
    {
        proof {
            let n = it.index() as int;
            let longer = before + all.take(n + 1);
            assert(longer.drop_last() =~= before + all.take(n));
            assert(longer.last() == r);
        }
        take_row(rows, r, Ghost(merge_rows(before + all.take(it.index() as int))));
    }
    assert(all.take(all.len() as int) =~= all);
}

/// One target's results, and what went wrong with its runs.
#[derive(Clone, Debug)]
pub struct MergedTarget {
    /// The results, in the order of their cases.
    pub results: Vec<CaseResult>,
    /// What went wrong with the runs.
    pub run_errors: Vec<String>,
}

/// The rows of a solo stream, if there is one.
pub open spec fn solo_rows(solo: Option<Document>) -> Seq<CaseResult> {
    match solo {
        Some(d) => d.results@,
        None => seq![],
    }
}

/// What went wrong with a solo run, if there was one.
pub open spec fn solo_errors(solo: Option<Document>) -> Seq<Seq<char>> {
    match solo {
        Some(d) => labelled("solo"@, d.run_errors.deep_view()),
        None => seq![],
    }
}

/// Merges a solo document and folded pair results into one target. The
/// streams carry disjoint selections over one census, and each reports the
/// rest of the census as deselected: a deselected row must not displace the
/// verdict from the stream selected to run the case.
pub fn merge_target(
    solo: Option<Document>,
    pair_results: Vec<CaseResult>,
    pair_errors: &Vec<String>,
) -> (r: MergedTarget)
    ensures
        in_case_order(r.results@),
        rows_of_table(r.results@, merge_rows(solo_rows(solo) + pair_results@)),
        r.run_errors.deep_view() == solo_errors(solo) + pair_errors.deep_view(),
{
    let mut results: Vec<CaseResult> = Vec::new();
    let mut run_errors: Vec<String> = Vec::new();
    let ghost rows = solo_rows(solo);
    let ghost errors = solo_errors(solo);
    assert(run_errors.deep_view() =~= seq![]);
    match solo {
        Some(document) => {
            add_labelled(&mut run_errors, "solo", &document.run_errors);
            take_rows(&mut results, document.results, Ghost(Seq::<CaseResult>::empty()));
            assert(Seq::<CaseResult>::empty() + rows =~= rows);
            assert(run_errors.deep_view() =~= errors);
        },
        None => {},
    }
    add_args(&mut run_errors, pair_errors);
    take_rows(&mut results, pair_results, Ghost(rows));
    MergedTarget { results, run_errors }
}

/// How the driver exits.
#[derive(Clone, Copy, Debug, PartialEq, Eq, Structural)]
pub enum Exit {
    /// Every case came out well.
    Success,
    /// A case failed, or the run did.
    Failure,
}

/// Whether a merged stream carries a failing case or a run error in any line
/// but its first. No mark holds a line break, so it stands in a line exactly
/// where it stands in the text.
pub open spec fn is_red(merged: Seq<char>) -> bool {
    let rest = after_first(merged, '\n');
    ||| contains_text(rest, "\"status\":\"fail\""@)
    ||| contains_text(rest, "\"status\":\"not-reached\""@)
    ||| contains_text(rest, "\"run-error\""@)
}

/// Whether `mark` stands in `s`.
fn has_mark(s: &Vec<char>, mark: &str) -> (r: bool)
    ensures
        r == contains_text(s@, mark@),
{
    let mark: Vec<char> = chars_of(mark);
    find_from(s, &mark, 0).is_some()
}

/// Exits red when the merged stream carries any failing case or run error.
pub fn exit_for(merged: &str) -> (r: Exit)
    ensures
        r == (if is_red(merged@) {
            Exit::Failure
        } else {
            Exit::Success
        }),
{
    let (_, rest) = split_first(merged, '\n');
    let rest: Vec<char> = chars_of(rest.as_str());
    if has_mark(&rest, "\"status\":\"fail\"") || has_mark(&rest, "\"status\":\"not-reached\"")
        || has_mark(&rest, "\"run-error\"") {
        Exit::Failure
    } else {
        Exit::Success
    }
}

/// The merged table holds exactly the cases that some row names, and each
/// entry is one of the rows of its case.
pub proof fn merged_rows_are_given_rows(rows: Seq<CaseResult>, case: Seq<char>)
    ensures
        merge_rows(rows).contains_key(case) <==> exists|i: int|
            0 <= i < rows.len() && (#[trigger] rows[i]).case@ == case,
        merge_rows(rows).contains_key(case) ==> exists|i: int|
            0 <= i < rows.len() && #[trigger] rows[i] == merge_rows(rows)[case] && rows[i].case@
                == case,
    decreases rows.len(),
{
    if rows.len() > 0 {
        let shorter = rows.drop_last();
        merged_rows_are_given_rows(shorter, case);
        if merge_rows(shorter).contains_key(case) {
            let i = choose|i: int|
                0 <= i < shorter.len() && #[trigger] shorter[i] == merge_rows(shorter)[case]
                    && shorter[i].case@ == case;
            assert(rows[i] == shorter[i]);
        }
        let last = rows.len() - 1;
        assert(rows[last] == rows.last());
        if exists|i: int| 0 <= i < rows.len() && (#[trigger] rows[i]).case@ == case {
            let i = choose|i: int| 0 <= i < rows.len() && (#[trigger] rows[i]).case@ == case;
            if i < last {
                assert(shorter[i] == rows[i]);
            }
        }
    }
}

/// A case stays deselected only when every stream deselected it.
pub proof fn deselected_only_by_all(rows: Seq<CaseResult>, case: Seq<char>)
    requires
        merge_rows(rows).contains_key(case),
    ensures
        merge_rows(rows)[case].status == Status::Deselected <==> forall|i: int|
            0 <= i < rows.len() && (#[trigger] rows[i]).case@ == case ==> rows[i].status
                == Status::Deselected,
    decreases rows.len(),
{
    let shorter = rows.drop_last();
    let last = rows.len() - 1;
    assert(rows[last] == rows.last());
    assert forall|i: int| 0 <= i < last implies #[trigger] shorter[i] == rows[i] by {}
    merged_rows_are_given_rows(shorter, case);
    if merge_rows(shorter).contains_key(case) {
        deselected_only_by_all(shorter, case);
    }
    if merge_rows(rows)[case].status == Status::Deselected {
        assert forall|i: int| 0 <= i < rows.len() && (#[trigger] rows[i]).case@ == case implies
            rows[i].status == Status::Deselected by {
            if i < last {
                assert(shorter[i].case@ == case);
            }
        }
    } else if rows.last().case@ != case || rows.last().status == Status::Deselected {
        let i = choose|i: int|
            0 <= i < shorter.len() && (#[trigger] shorter[i]).case@ == case && shorter[i].status
                != Status::Deselected;
        assert(rows[i].case@ == case);
    }
}

/// A verdict that no later verdict of its case follows is the one kept: rows
/// that deselect the case do not displace it.
pub proof fn last_verdict_is_kept(rows: Seq<CaseResult>, i: int)
    requires
        0 <= i < rows.len(),
        rows[i].status != Status::Deselected,
        forall|j: int|
            i < j < rows.len() && (#[trigger] rows[j]).case@ == rows[i].case@ ==> rows[j].status
                == Status::Deselected,
    ensures
        merge_rows(rows).contains_key(rows[i].case@),
        merge_rows(rows)[rows[i].case@] == rows[i],
    decreases rows.len(),
{
    if i < rows.len() - 1 {
        let shorter = rows.drop_last();
        assert forall|j: int|
            i < j < shorter.len() && (#[trigger] shorter[j]).case@ == shorter[i].case@ implies
            shorter[j].status == Status::Deselected by {
            assert(rows[j].case@ == rows[i].case@);
        }
        last_verdict_is_kept(shorter, i);
        assert(rows[rows.len() - 1] == rows.last());
    }
}

/// A run id is safe in a room name, whatever the target: it holds none but a room
/// name's characters, and neither does a case's room where the case's leaf holds
/// none other.
pub proof fn run_ids_are_room_safe(target: Seq<char>, pid: nat, nanos: nat, leaf: Seq<char>)
    requires
        forall|i: int| 0 <= i < leaf.len() ==> is_room_char(#[trigger] leaf[i]),
    ensures
        forall|i: int|
            0 <= i < run_id_of(target, pid, nanos).len() ==> is_room_char(
                #[trigger] run_id_of(target, pid, nanos)[i],
            ),
        forall|i: int|
            0 <= i < room_of(run_id_of(target, pid, nanos), leaf).len() ==> is_room_char(
                #[trigger] room_of(run_id_of(target, pid, nanos), leaf)[i],
            ),
{
    reveal_strlit("-");
    lemma_decimal_digits(pid);
    lemma_decimal_digits(nanos);
    let id = run_id_of(target, pid, nanos);
    assert forall|i: int| 0 <= i < id.len() implies is_room_char(#[trigger] id[i]) by {
        let first = target.len();
        let second = first + 1 + decimal(pid).len();
        if i < first {
            assert(id[i] == room_part(target)[i]);
        } else if first < i < second {
            assert(id[i] == decimal(pid)[i - first - 1]);
        } else if second < i {
            assert(id[i] == decimal(nanos)[i - second - 1]);
        }
    }
    let room = room_of(id, leaf);
    assert forall|i: int| 0 <= i < room.len() implies is_room_char(#[trigger] room[i]) by {
        if i < id.len() {
            assert(room[i] == id[i]);
        } else if id.len() < i {
            assert(room[i] == leaf[i - id.len() - 1]);
        }
    }
}

/// A target that fits a room name stands in its run ids as it is.
pub proof fn run_ids_keep_fitting_targets(target: Seq<char>)
    requires
        forall|i: int| 0 <= i < target.len() ==> is_room_char(#[trigger] target[i]),
    ensures
        room_part(target) == target,
{
    assert(room_part(target) =~= target);
}

/// Run ids are unique: two runs by different processes, or started at different
/// times, have different ids, whatever their targets.
pub proof fn run_ids_are_unique(
    target: Seq<char>,
    pid: nat,
    nanos: nat,
    target2: Seq<char>,
    pid2: nat,
    nanos2: nat,
)
    requires
        run_id_of(target, pid, nanos) == run_id_of(target2, pid2, nanos2),
    ensures
        pid == pid2,
        nanos == nanos2,
        room_part(target) == room_part(target2),
{
    reveal_strlit("-");
    lemma_decimal_digits(pid);
    lemma_decimal_digits(pid2);
    lemma_decimal_digits(nanos);
    lemma_decimal_digits(nanos2);
    let (head, head2) = (room_part(target) + "-"@ + decimal(pid), room_part(target2) + "-"@
        + decimal(pid2));
    lemma_last_dash(head, decimal(nanos), head2, decimal(nanos2));
    lemma_decimal_injective(nanos, nanos2);
    lemma_last_dash(room_part(target), decimal(pid), room_part(target2), decimal(pid2));
    lemma_decimal_injective(pid, pid2);
}

/// What stands behind the last dash of a text, and what before it, is fixed by
/// the text.
proof fn lemma_last_dash(before: Seq<char>, after: Seq<char>, before2: Seq<char>, after2: Seq<char>)
    requires
        before + "-"@ + after == before2 + "-"@ + after2,
        forall|i: int| 0 <= i < after.len() ==> #[trigger] after[i] != '-',
        forall|i: int| 0 <= i < after2.len() ==> #[trigger] after2[i] != '-',
    ensures
        before == before2,
        after == after2,
{
    reveal_strlit("-");
    let whole = before + "-"@ + after;
    let whole2 = before2 + "-"@ + after2;
    let (at, at2) = (before.len() as int, before2.len() as int);
    assert(whole.len() == whole2.len());
    assert(whole[at] == '-');
    assert(whole2[at2] == '-');
    if at2 < at {
        assert(at - at2 - 1 < after2.len());
        assert(whole2[at] == after2[at - at2 - 1]);
    }
    if at < at2 {
        assert(at2 - at - 1 < after.len());
        assert(whole[at2] == after[at2 - at - 1]);
    }
    assert(before =~= whole.take(at));
    assert(before2 =~= whole2.take(at));
    assert(after =~= whole.skip(at + 1));
    assert(after2 =~= whole2.skip(at + 1));
}

/// A run is red exactly where one of the stream's lines behind the first says that a
/// case failed, that a case was not reached, or that the run itself went wrong.
pub proof fn runs_are_red_by_their_lines(merged: Seq<char>)
    ensures
        is_red(merged) <==> exists|i: int|
            1 <= i < lines(merged).len() && {
                ||| contains_text(#[trigger] lines(merged)[i], "\"status\":\"fail\""@)
                ||| contains_text(lines(merged)[i], "\"status\":\"not-reached\""@)
                ||| contains_text(lines(merged)[i], "\"run-error\""@)
            },
        lines(merged).len() <= 1 ==> !is_red(merged),
{
    let rest = after_first(merged, '\n');
    let (all, later) = (lines(merged), lines(rest));
    reveal_strlit("\"status\":\"fail\"");
    reveal_strlit("\"status\":\"not-reached\"");
    reveal_strlit("\"run-error\"");
    texts_stand_in_lines(rest, "\"status\":\"fail\""@);
    texts_stand_in_lines(rest, "\"status\":\"not-reached\""@);
    texts_stand_in_lines(rest, "\"run-error\""@);
    later_lines_follow_the_first(merged);
    if is_red(merged) {
        let i = choose|i: int|
            0 <= i < later.len() && {
                ||| contains_text(#[trigger] later[i], "\"status\":\"fail\""@)
                ||| contains_text(later[i], "\"status\":\"not-reached\""@)
                ||| contains_text(later[i], "\"run-error\""@)
            };
        assert(later[i] == all[i + 1]);
    }
    assert forall|i: int| 1 <= i < all.len() implies #[trigger] all[i] == later[i - 1] by {
        assert(later[i - 1] == all[i - 1 + 1]);
    }
}

/// Each of the three marks makes a run red wherever it stands behind the first line,
/// and nothing in the first line does.
pub proof fn marks_make_runs_red(head: Seq<char>, before: Seq<char>, after: Seq<char>)
    requires
        !head.contains('\n'),
    ensures
        is_red(head + seq!['\n'] + (before + "\"status\":\"fail\""@ + after)),
        is_red(head + seq!['\n'] + (before + "\"status\":\"not-reached\""@ + after)),
        is_red(head + seq!['\n'] + (before + "\"run-error\""@ + after)),
        !is_red(head),
{
    let fail = before + "\"status\":\"fail\""@ + after;
    let missed = before + "\"status\":\"not-reached\""@ + after;
    let error = before + "\"run-error\""@ + after;
    texts_split_at_the_first(head, '\n', fail);
    texts_split_at_the_first(head, '\n', missed);
    texts_split_at_the_first(head, '\n', error);
    texts_are_found_where_they_stand(before, "\"status\":\"fail\""@, after, fail, 0);
    texts_are_found_where_they_stand(before, "\"status\":\"not-reached\""@, after, missed, 0);
    texts_are_found_where_they_stand(before, "\"run-error\""@, after, error, 0);
    reveal_strlit("\"status\":\"fail\"");
    reveal_strlit("\"status\":\"not-reached\"");
    reveal_strlit("\"run-error\"");
    assert(forall|pattern: Seq<char>, at: int|
        pattern.len() > 0 ==> !occurs_at(Seq::<char>::empty(), pattern, at));
}

/// The reference peer is told its side, whatever it is, and where and about which case
/// to meet the other: the two sides of one case are told the same but for the role.
pub proof fn reference_peers_are_told_their_side(
    ctx: RunContext,
    role: Seq<char>,
    other: Seq<char>,
    group: Seq<char>,
    leaf: Seq<char>,
)
    requires
        !leaf.contains('/'),
    ensures
        ({
            let case = group + seq!['/'] + leaf;
            let args = reference_args_of(ctx, role, case);
            let across = reference_args_of(ctx, other, case);
            &&& args.len() == 12
            &&& args[0] == "--test"@
            &&& args[1] == leaf
            &&& args[2] == "--role"@
            &&& args[3] == role
            &&& args[4] == "--server"@
            &&& args[5] == ctx.signaling_url@
            &&& args[6] == "--room"@
            &&& args[7] == ctx.run_id@ + "-"@ + leaf
            &&& args[8] == "--message-count"@
            &&& args[10] == "--message-size"@
            &&& role != other ==> args != across
            &&& forall|i: int| 0 <= i < 12 && i != 3 ==> #[trigger] args[i] == across[i]
            &&& reference_args_of(ctx, role, leaf) == args
        }),
{
    tails_follow_the_last(group, '/', leaf);
    let case = group + seq!['/'] + leaf;
    assert(reference_args_of(ctx, role, case)[3] == role);
    assert(reference_args_of(ctx, other, case)[3] == other);
}

/// Whatever the case is called, the reference peer's role is the one that was given.
pub proof fn roles_are_passed_on(ctx: RunContext, role: Seq<char>, case: Seq<char>)
    ensures
        reference_args_of(ctx, role, case).len() == 12,
        reference_args_of(ctx, role, case)[2] == "--role"@,
        reference_args_of(ctx, role, case)[3] == role,
{
}

/// The case decides how many messages the reference peer sends, and how large.
pub proof fn cases_decide_the_traffic(
    ctx: RunContext,
    role: Seq<char>,
    leaf: Seq<char>,
)
    requires
        !leaf.contains('/'),
    ensures
        params_of(leaf) == (1u32, 16384u32) <==> leaf == "large-message"@,
        params_of(leaf) == (16u32, 512u32) <==> leaf == "message-boundaries"@ || leaf
            == "ordering"@ || leaf == "payload-integrity"@ || leaf == "concurrent-send-receive"@
            || leaf == "interop-handshake"@,
        params_of(leaf) == (1u32, 16384u32) || params_of(leaf) == (16u32, 512u32) || params_of(leaf)
            == (4u32, 256u32),
        reference_args_of(ctx, role, leaf)[9] == decimal(params_of(leaf).0 as nat),
        reference_args_of(ctx, role, leaf)[11] == decimal(params_of(leaf).1 as nat),
{
    tails_follow_the_last(Seq::empty(), '/', leaf);
    reveal_strlit("large-message");
    reveal_strlit("message-boundaries");
    reveal_strlit("ordering");
    reveal_strlit("payload-integrity");
    reveal_strlit("concurrent-send-receive");
    reveal_strlit("interop-handshake");
    assert("message-boundaries"@[0] == 'm');
    assert("large-message"@[0] == 'l');
    assert("ordering"@[0] == 'o');
    assert("payload-integrity"@[0] == 'p');
    assert("concurrent-send-receive"@[0] == 'c');
    assert("interop-handshake"@[0] == 'i');
}

/// The two sides of a case meet in one room, and different cases of a run in
/// different ones.
pub proof fn rooms_part_cases(run_id: Seq<char>, leaf: Seq<char>, other: Seq<char>)
    ensures
        room_of(run_id, leaf) == run_id + "-"@ + leaf,
        room_of(run_id, leaf) == room_of(run_id, other) <==> leaf == other,
{
    let (a, b) = (room_of(run_id, leaf), room_of(run_id, other));
    let n = (run_id + "-"@).len();
    assert(a.skip(n as int) =~= leaf);
    assert(b.skip(n as int) =~= other);
}

/// A child is labelled by its kind and its side, or as one that runs alone.
pub proof fn children_are_labelled(kind: Seq<char>, role: Seq<char>)
    ensures
        child_label(kind, Some(role)) == kind + "["@ + role + "]"@,
        child_label(kind, None) == kind + "[solo]"@,
{
    reveal_strlit("[");
    reveal_strlit("]");
    reveal_strlit("solo");
    reveal_strlit("[solo]");
    assert(child_label(kind, None) =~= kind + "[solo]"@);
}

/// A copy of this program is told the artifact, the cases, how many of them run at
/// once, and both time limits.
pub proof fn self_exec_is_told_what_to_run(
    artifact: Seq<char>,
    composed: bool,
    suite_artifact: Option<Seq<char>>,
    ctx: RunContext,
    select: Seq<char>,
    role: Option<Seq<char>>,
    jobs: nat,
)
    ensures
        ({
            let args = self_exec_args(artifact, composed, suite_artifact, ctx, select, role, jobs);
            args.len() >= 11 && args.take(11) == seq![
                "exec"@,
                artifact,
                "--jsonl"@,
                "--select"@,
                select,
                "--jobs"@,
                decimal(jobs),
                "--budget"@,
                decimal(ctx.budget_secs as nat),
                "--case-timeout"@,
                decimal(ctx.case_timeout_secs as nat),
            ]
        }),
{
    let args = self_exec_args(artifact, composed, suite_artifact, ctx, select, role, jobs);
    assert(args.take(11) =~= seq![
        "exec"@,
        artifact,
        "--jsonl"@,
        "--select"@,
        select,
        "--jobs"@,
        decimal(jobs),
        "--budget"@,
        decimal(ctx.budget_secs as nat),
        "--case-timeout"@,
        decimal(ctx.case_timeout_secs as nat),
    ]);
}

/// A copy of this program is told to run composed, which suite to compose with, and
/// its side and where to meet the other, exactly where these are given.
pub proof fn self_exec_is_told_what_is_given(
    artifact: Seq<char>,
    suite: Seq<char>,
    ctx: RunContext,
    select: Seq<char>,
    role: Seq<char>,
    jobs: nat,
)
    ensures
        ({
            let plain = self_exec_args(artifact, false, None, ctx, select, None, jobs);
            let side = seq![
                "--role"@,
                role,
                "--signaling"@,
                ctx.signaling_url@,
                "--run-id"@,
                ctx.run_id@,
            ];
            &&& plain.len() == 11
            &&& self_exec_args(artifact, true, None, ctx, select, None, jobs) == plain + seq![
                "--composed"@,
            ]
            &&& self_exec_args(artifact, false, Some(suite), ctx, select, None, jobs) == plain
                + seq!["--suite-artifact"@, suite]
            &&& self_exec_args(artifact, true, Some(suite), ctx, select, None, jobs) == plain
                + seq!["--composed"@, "--suite-artifact"@, suite]
            &&& self_exec_args(artifact, false, None, ctx, select, Some(role), jobs) == plain + side
            &&& self_exec_args(artifact, true, None, ctx, select, Some(role), jobs) == plain + seq![
                "--composed"@,
            ] + side
            &&& self_exec_args(artifact, false, Some(suite), ctx, select, Some(role), jobs) == plain
                + seq!["--suite-artifact"@, suite] + side
            &&& self_exec_args(artifact, true, Some(suite), ctx, select, Some(role), jobs) == plain
                + seq!["--composed"@, "--suite-artifact"@, suite] + side
        }),
{
    let plain = self_exec_args(artifact, false, None, ctx, select, None, jobs);
    let side = seq![
        "--role"@,
        role,
        "--signaling"@,
        ctx.signaling_url@,
        "--run-id"@,
        ctx.run_id@,
    ];
    let both = seq!["--composed"@, "--suite-artifact"@, suite];
    assert(plain.len() == 11);
    assert(self_exec_args(artifact, true, None, ctx, select, None, jobs) =~= plain + seq![
        "--composed"@,
    ]);
    assert(self_exec_args(artifact, false, Some(suite), ctx, select, None, jobs) =~= plain + seq![
        "--suite-artifact"@,
        suite,
    ]);
    assert(self_exec_args(artifact, true, Some(suite), ctx, select, None, jobs) =~= plain + both);
    assert(self_exec_args(artifact, false, None, ctx, select, Some(role), jobs) =~= plain + side);
    assert(self_exec_args(artifact, true, None, ctx, select, Some(role), jobs) =~= plain + seq![
        "--composed"@,
    ] + side);
    assert(self_exec_args(artifact, false, Some(suite), ctx, select, Some(role), jobs) =~= plain
        + seq!["--suite-artifact"@, suite] + side);
    assert(self_exec_args(artifact, true, Some(suite), ctx, select, Some(role), jobs) =~= plain
        + both + side);
}

/// A script finds the server, the run and the time limit in its environment, and its
/// side where it has one.
pub proof fn scripts_find_their_run(ctx: RunContext, role: Seq<char>)
    ensures
        script_env(ctx, None) == seq![
            ("RTC_CT_SIGNALING_URL"@, ctx.signaling_url@),
            ("RTC_CT_RUN_ID"@, ctx.run_id@),
            ("RTC_CT_CASE_TIMEOUT_SECS"@, decimal(ctx.case_timeout_secs as nat)),
        ],
        script_env(ctx, Some(role)) == script_env(ctx, None) + seq![("RTC_CT_ROLE"@, role)],
{
    assert(script_env(ctx, Some(role)) =~= script_env(ctx, None) + seq![("RTC_CT_ROLE"@, role)]);
}

/// The configuration that governs a script lies in the script's directory.
pub proof fn configurations_lie_beside_scripts(dir: Seq<char>)
    ensures
        dir.len() == 0 || dir.last() == '/' ==> deno_config(dir) == dir + "deno.json"@,
        dir.len() > 0 && dir.last() != '/' ==> deno_config(dir) == dir + "/"@ + "deno.json"@
            && deno_config(dir) == deno_config(dir + "/"@),
{
    reveal_strlit("/");
    reveal_strlit("deno.json");
    reveal_strlit("/deno.json");
    if dir.len() > 0 && dir.last() != '/' {
        assert((dir + "/"@).last() == '/');
        assert(deno_config(dir) =~= dir + "/"@ + "deno.json"@);
        assert(deno_config(dir + "/"@) =~= deno_config(dir));
    }
}

/// A copy of this program is run as it is, in this environment and directory.
pub proof fn self_exec_runs_this_program(
    artifact: Seq<char>,
    composed: bool,
    suite_artifact: Option<Seq<char>>,
    ctx: RunContext,
    select: Seq<char>,
    role: Option<Seq<char>>,
    jobs: nat,
    script: Option<ResolvedScript>,
)
    ensures
        ({
            let kind = PeerKindView::SelfExec { artifact, composed, suite_artifact };
            &&& child_plan(kind, ctx, select, role, jobs, script) matches Ok(
                ChildPlanView::Spawn(child),
            )
            &&& child.program is None
            &&& child.env.len() == 0
            &&& child.dir is None
            &&& child.args == self_exec_args(
                artifact,
                composed,
                suite_artifact,
                ctx,
                select,
                role,
                jobs,
            )
            &&& child.label == "self-exec"@ + "["@ + (if role is Some {
                role->0
            } else {
                "solo"@
            }) + "]"@
        }),
{
}

/// A script is run by its interpreter, in its directory, on the selected cases, with
/// its own arguments behind; a script that was not found is not run.
pub proof fn scripts_run_in_their_directory(
    path: Seq<char>,
    args: Seq<Seq<char>>,
    ctx: RunContext,
    select: Seq<char>,
    role: Option<Seq<char>>,
    jobs: nat,
    found: ResolvedScript,
)
    ensures
        ({
            let node = PeerKindView::Node { script: path, args };
            let deno = PeerKindView::Deno { script: path, args };
            let of_node = child_plan(node, ctx, select, role, jobs, Some(found));
            let of_deno = child_plan(deno, ctx, select, role, jobs, Some(found));
            let label = "["@ + (if role is Some {
                role->0
            } else {
                "solo"@
            }) + "]"@;
            &&& of_node is Ok && of_node->Ok_0 is Spawn
            &&& of_deno is Ok && of_deno->Ok_0 is Spawn
            &&& {
                let child = of_node->Ok_0->Spawn_0;
                &&& child.program == Some("node"@)
                &&& child.args == seq![found.script@, "--select"@, select] + args
                &&& child.env == script_env(ctx, role)
                &&& child.dir == Some(found.dir@)
                &&& child.label == "node"@ + label
            }
            &&& {
                let child = of_deno->Ok_0->Spawn_0;
                &&& child.program == Some("deno"@)
                &&& child.args == seq![
                    "run"@,
                    "--allow-all"@,
                    "--frozen"@,
                    "--config"@,
                    deno_config(found.dir@),
                    found.script@,
                    "--select"@,
                    select,
                ] + args
                &&& child.env == script_env(ctx, role)
                &&& child.dir == Some(found.dir@)
                &&& child.label == "deno"@ + label
            }
            &&& child_plan(node, ctx, select, role, jobs, None) == Err::<
                ChildPlanView,
                ChildError,
            >(ChildError::UnresolvedScript)
            &&& child_plan(deno, ctx, select, role, jobs, None) == Err::<
                ChildPlanView,
                ChildError,
            >(ChildError::UnresolvedScript)
        }),
{
    let label = "["@ + (if role is Some {
        role->0
    } else {
        "solo"@
    }) + "]"@;
    assert(child_label("node"@, role) =~= "node"@ + label);
    assert(child_label("deno"@, role) =~= "deno"@ + label);
}

/// The reference peer is run case by case, on a side; it does not run alone.
pub proof fn reference_peers_take_a_side(
    bin: Seq<char>,
    ctx: RunContext,
    select: Seq<char>,
    role: Seq<char>,
    jobs: nat,
    script: Option<ResolvedScript>,
)
    ensures
        child_plan(PeerKindView::Reference { bin }, ctx, select, Some(role), jobs, script) == Ok::<
            ChildPlanView,
            ChildError,
        >(ChildPlanView::PerCase { bin, role }),
        child_plan(PeerKindView::Reference { bin }, ctx, select, None, jobs, script) == Err::<
            ChildPlanView,
            ChildError,
        >(ChildError::ReferenceNeedsRole),
{
}

/// Each error of a stream is kept, in its place, behind the stream's name.
pub proof fn errors_name_their_source(source: Seq<char>, errors: Seq<Seq<char>>, i: int)
    requires
        0 <= i < errors.len(),
    ensures
        labelled(source, errors).len() == errors.len(),
        labelled(source, errors)[i] == source + ": "@ + errors[i],
{
}

/// A target's part of a run id keeps the characters that a room name may hold and puts
/// a dash in the place of each other; a file name does so for letters and digits.
pub proof fn names_keep_fitting_characters(s: Seq<char>, i: int)
    requires
        0 <= i < s.len(),
    ensures
        room_part(s).len() == s.len(),
        room_part(s)[i] == (if 'a' <= s[i] <= 'z' || 'A' <= s[i] <= 'Z' || '0' <= s[i] <= '9'
            || s[i] == '.' || s[i] == '_' || s[i] == '-' {
            s[i]
        } else {
            '-'
        }),
        file_name_of(s).len() == s.len(),
        file_name_of(s)[i] == (if 'a' <= s[i] <= 'z' || 'A' <= s[i] <= 'Z' || '0' <= s[i] <= '9' {
            s[i]
        } else {
            '-'
        }),
{
}

/// A run id names the target, the process and the time, in this order.
pub proof fn run_ids_name_target_process_and_time(target: Seq<char>, pid: nat, nanos: nat)
    ensures
        run_id_of(target, pid, nanos) == room_part(target) + "-"@ + decimal(pid) + "-"@ + decimal(
            nanos,
        ),
        room_part(target).is_prefix_of(run_id_of(target, pid, nanos)),
{
    let id = run_id_of(target, pid, nanos);
    assert(id.take(room_part(target).len() as int) =~= room_part(target));
}

/// Of a case that every stream deselected, the last row is kept.
pub proof fn last_deselection_is_kept(rows: Seq<CaseResult>, i: int)
    requires
        0 <= i < rows.len(),
        forall|j: int|
            0 <= j < rows.len() && (#[trigger] rows[j]).case@ == rows[i].case@ ==> rows[j].status
                == Status::Deselected && j <= i,
    ensures
        merge_rows(rows).contains_key(rows[i].case@),
        merge_rows(rows)[rows[i].case@] == rows[i],
    decreases rows.len(),
{
    let shorter = rows.drop_last();
    let last = rows.len() - 1;
    assert(rows[last] == rows.last());
    if i < last {
        assert(shorter[i] == rows[i]);
        assert forall|j: int|
            0 <= j < shorter.len() && (#[trigger] shorter[j]).case@ == shorter[i].case@ implies
            shorter[j].status == Status::Deselected && j <= i by {
            assert(rows[j].case@ == rows[i].case@);
        }
        last_deselection_is_kept(shorter, i);
    } else {
        merged_rows_are_given_rows(shorter, rows[i].case@);
        if merge_rows(shorter).contains_key(rows[i].case@) {
            deselected_only_by_all(shorter, rows[i].case@);
            assert forall|j: int|
                0 <= j < shorter.len() && (#[trigger] shorter[j]).case@ == rows[i].case@ implies
                shorter[j].status == Status::Deselected by {
                assert(rows[j].case@ == rows[i].case@);
            }
        }
    }
}

/// Merged rows stand in the order of their cases' names, each case once, and they are
/// the entries of the table.
pub proof fn merged_rows_are_the_table_in_order(
    rows: Seq<CaseResult>,
    table: Map<Seq<char>, CaseResult>,
    i: int,
    j: int,
    case: Seq<char>,
)
    requires
        in_case_order(rows),
        rows_of_table(rows, table),
        0 <= i < j < rows.len(),
    ensures
        text_less(rows[i].case@, rows[j].case@),
        rows[i].case@ != rows[j].case@,
        table.contains_key(rows[i].case@) && table[rows[i].case@] == rows[i],
        table.contains_key(rows[j].case@) && table[rows[j].case@] == rows[j],
        table.contains_key(case) ==> exists|k: int|
            0 <= k < rows.len() && #[trigger] rows[k] == table[case],
{
    lemma_text_less_asymmetric(rows[i].case@, rows[j].case@);
    if table.contains_key(case) {
        let k = choose|k: int| 0 <= k < rows.len() && rows[k].case@ == case;
        assert(rows[k] == table[case]);
    }
}

/// A table has one list of rows: two merges of it that stand in the order of the
/// cases' names are the same, entry by entry.
pub proof fn merges_are_settled(
    rows: Seq<CaseResult>,
    others: Seq<CaseResult>,
    table: Map<Seq<char>, CaseResult>,
)
    requires
        in_case_order(rows),
        rows_of_table(rows, table),
        in_case_order(others),
        rows_of_table(others, table),
    ensures
        rows == others,
{
    lemma_order_fixes_rows(rows, others, table, rows.len());
    lemma_order_fixes_rows(others, rows, table, others.len());
    assert(rows =~= others);
}

/// The first `n` rows of a table's list are those of its other list.
proof fn lemma_order_fixes_rows(
    rows: Seq<CaseResult>,
    others: Seq<CaseResult>,
    table: Map<Seq<char>, CaseResult>,
    n: nat,
)
    requires
        in_case_order(rows),
        rows_of_table(rows, table),
        in_case_order(others),
        rows_of_table(others, table),
        n <= rows.len(),
    ensures
        n <= others.len(),
        forall|i: int| 0 <= i < n ==> rows[i] == others[i],
    decreases n,
{
    if n > 0 {
        let m = n - 1;
        lemma_order_fixes_rows(rows, others, table, m as nat);
        // the m-th row stands among the others, and not before the m-th
        let case = rows[m].case@;
        assert(table.contains_key(case));
        let k = choose|k: int| 0 <= k < others.len() && others[k].case@ == case;
        assert(others[k] == rows[m]);
        if k < m {
            assert(rows[k] == others[k]);
            lemma_text_less_asymmetric(rows[k].case@, rows[m].case@);
        }
        if k > m {
            // then the m-th of the others stands among the rows, before the m-th row
            let early = others[m].case@;
            assert(table.contains_key(early));
            let h = choose|h: int| 0 <= h < rows.len() && rows[h].case@ == early;
            assert(rows[h] == others[m]);
            assert(text_less(others[m].case@, others[k].case@));
            lemma_text_less_asymmetric(others[m].case@, others[k].case@);
            if h < m {
                assert(others[h] == rows[h]);
                lemma_text_less_asymmetric(others[h].case@, others[m].case@);
            } else if h > m {
                assert(text_less(rows[m].case@, rows[h].case@));
            }
        }
    }
}

/// A run of its own brings its rows, and its errors under its name; without one there
/// are none.
pub proof fn solo_runs_bring_rows_and_errors(solo: Document, i: int)
    ensures
        solo_rows(Some(solo)) == solo.results@,
        solo_rows(None).len() == 0,
        solo_errors(Some(solo)).len() == solo.run_errors@.len(),
        0 <= i < solo.run_errors@.len() ==> solo_errors(Some(solo))[i] == "solo"@ + ": "@
            + solo.run_errors@[i]@,
        solo_errors(None).len() == 0,
{
}

/// Peers, plans and optional texts are seen as they are.
pub proof fn plans_are_seen_as_they_are(
    kind: PeerKind,
    plan: ChildPlan,
    child: ChildCommand,
    some: &str,
)
    ensures
        match kind {
            PeerKind::SelfExec { artifact, composed, suite_artifact } => kind@
                == (PeerKindView::SelfExec {
                artifact: artifact@,
                composed,
                suite_artifact: match suite_artifact {
                    Some(a) => Some(a@),
                    None => None,
                },
            }),
            PeerKind::Node { script, args } => kind@ == (PeerKindView::Node {
                script: script@,
                args: args.deep_view(),
            }),
            PeerKind::Deno { script, args } => kind@ == (PeerKindView::Deno {
                script: script@,
                args: args.deep_view(),
            }),
            PeerKind::Reference { bin } => kind@ == (PeerKindView::Reference { bin: bin@ }),
        },
        match plan {
            ChildPlan::Spawn(c) => plan@ == ChildPlanView::Spawn(c@),
            ChildPlan::PerCase { bin, role } => plan@ == (ChildPlanView::PerCase {
                bin: bin@,
                role: role@,
            }),
        },
        child@.program == (match child.program {
            Program::CurrentExe => None,
            Program::Named(name) => Some(name@),
        }),
        child@.args == child.args.deep_view(),
        child@.env == child.env.deep_view(),
        child@.dir == (match child.dir {
            Some(dir) => Some(dir@),
            None => None,
        }),
        child@.label == child.label@,
        opt_text(Some(some)) == Some(some@),
        opt_text(None) is None,
{
}

} // verus!
