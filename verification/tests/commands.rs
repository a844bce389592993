use webrtc_datachannels::args::{run, ArgError, Invocation, Subcommand};
use webrtc_datachannels::commands::{
    exec_cmd, interop_cmd, interop_peers, loopback_cmd, netns_cmd, pair_streams, pair_suite_args,
    run_context, shadow_cmd, solo_stream, usage, CommandError, PairSuitePath, SuitePath,
    BUDGET_SECS, CASE_TIMEOUT_SECS,
};
use webrtc_datachannels::orchestrate::{
    child_stream, ChildPlan, PeerKind, Program, RunContext,
};
use webrtc_datachannels::text::NumberError;

fn argv(args: &[&str]) -> Vec<String> {
    args.iter().map(|a| a.to_string()).collect()
}

fn path(canonical: &str, absolute: bool) -> SuitePath {
    SuitePath { canonical: Ok(canonical.to_string()), absolute }
}

#[test]
fn first_argument_picks_the_subcommand() {
    assert!(matches!(run(Some("exec")), Some(Invocation::Run(Subcommand::Exec))));
    assert!(matches!(run(Some("loopback")), Some(Invocation::Run(Subcommand::Loopback))));
    assert!(matches!(run(Some("interop")), Some(Invocation::Run(Subcommand::Interop))));
    assert!(matches!(run(Some("shadow")), Some(Invocation::Run(Subcommand::Shadow))));
    assert!(matches!(run(Some("netns")), Some(Invocation::Run(Subcommand::Netns))));
    assert!(matches!(run(Some("-h")), Some(Invocation::Help)));
    assert!(matches!(run(Some("--help")), Some(Invocation::Help)));
    assert!(run(Some("help")).is_none());
    assert!(run(None).is_none());
}

#[test]
fn exec_defaults() {
    let args = exec_cmd(&argv(&["suite.wasm"])).unwrap_or_else(|e| panic!("{}", e.message()));
    assert_eq!(args.suite, "suite.wasm");
    assert_eq!(args.target, "exec");
    assert_eq!(args.jobs, 1);
    assert_eq!(args.budget_secs, 30);
    assert_eq!(args.case_timeout_secs, 90);
    assert_eq!((BUDGET_SECS, CASE_TIMEOUT_SECS), (30, 90));
    assert!(!args.jsonl && !args.composed);
    assert!(args.select.is_none() && args.role.is_none() && args.run_id.is_none());
    assert!(args.signaling_url.is_none() && args.suite_artifact.is_none());
    assert!(args.ice.is_none());
}

#[test]
fn exec_takes_every_flag() {
    let line = argv(&[
        "--jsonl", "--select", "solo/", "--role", "offerer", "--signaling", "http://s", "--run-id",
        "r-1", "--composed", "--ice-bind", "10.0.0.2", "--ice-stun", "stun:s", "--ice-turn",
        "turn:t,user,pa,ss", "--ice-relay-only", "--disable-mdns", "--suite-artifact", "orig.wasm",
        "--target", "lab", "--jobs", "+7", "--budget", "5", "--case-timeout", "6", "suite.wasm",
    ]);
    let args = exec_cmd(&line).unwrap_or_else(|e| panic!("{}", e.message()));
    assert!(args.jsonl && args.composed);
    assert_eq!(args.select.as_deref(), Some("solo/"));
    assert_eq!(args.role.as_deref(), Some("offerer"));
    assert_eq!(args.signaling_url.as_deref(), Some("http://s"));
    assert_eq!(args.run_id.as_deref(), Some("r-1"));
    assert_eq!(args.suite_artifact.as_deref(), Some("orig.wasm"));
    assert_eq!(args.target, "lab");
    assert_eq!((args.jobs, args.budget_secs, args.case_timeout_secs), (7, 5, 6));
    assert_eq!(args.suite, "suite.wasm");
    let ice = args.ice.unwrap();
    assert_eq!(ice.bind_addr.as_deref(), Some("10.0.0.2"));
    assert_eq!(ice.stun_url.as_deref(), Some("stun:s"));
    assert_eq!(
        ice.turn,
        Some(("turn:t".to_string(), "user".to_string(), "pa,ss".to_string()))
    );
    assert!(ice.relay_only && ice.disable_mdns);
}

#[test]
fn turn_parts_may_be_missing() {
    let args = exec_cmd(&argv(&["s", "--ice-turn", "turn:t"])).unwrap_or_else(|_| panic!());
    assert_eq!(
        args.ice.unwrap().turn,
        Some(("turn:t".to_string(), String::new(), String::new()))
    );
    let args = exec_cmd(&argv(&["s", "--ice-turn", ",u"])).unwrap_or_else(|_| panic!());
    assert_eq!(
        args.ice.unwrap().turn,
        Some((String::new(), "u".to_string(), String::new()))
    );
}

#[test]
fn the_last_value_of_a_flag_counts() {
    let args = exec_cmd(&argv(&["--jobs", "2", "s", "--jobs", "3"])).unwrap_or_else(|_| panic!());
    assert_eq!(args.jobs, 3);
}

#[test]
fn exec_refuses_what_is_wrong_first() {
    let refused = exec_cmd(&argv(&["--bogus", "--jobs"])).err().unwrap();
    assert!(matches!(&refused, CommandError::Arg(ArgError::UnknownFlag(f)) if f == "--bogus"));
    assert_eq!(refused.message(), format!("unknown flag `--bogus`\n{}", usage()));

    let refused = exec_cmd(&argv(&["a", "b", "--bogus"])).err().unwrap();
    assert_eq!(refused.message(), "unexpected argument `b`");

    let refused = exec_cmd(&argv(&["a", "--select"])).err().unwrap();
    assert_eq!(refused.message(), "--select needs a value");

    let refused = exec_cmd(&argv(&["a", "--jobs", "x"])).err().unwrap();
    assert!(matches!(
        &refused,
        CommandError::Arg(ArgError::BadNumber(_, NumberError::InvalidDigit))
    ));
    assert_eq!(refused.message(), "--jobs: invalid digit found in string");

    let refused = exec_cmd(&argv(&["a", "--budget", ""])).err().unwrap();
    assert_eq!(refused.message(), "--budget: cannot parse integer from empty string");

    let refused = exec_cmd(&argv(&["a", "--case-timeout", "18446744073709551616"])).err().unwrap();
    assert_eq!(
        refused.message(),
        "--case-timeout: number too large to fit in target type"
    );

    let refused = exec_cmd(&argv(&["--jsonl"])).err().unwrap();
    assert_eq!(refused.message(), "missing suite.wasm");
}

#[test]
fn loopback_kinds() {
    let args = loopback_cmd(&argv(&["s.wasm", "--target", "t", "--kind", "wasmtime", "-o", "out"]))
        .unwrap_or_else(|e| panic!("{}", e.message()));
    assert_eq!((args.suite.as_str(), args.target.as_str()), ("s.wasm", "t"));
    assert_eq!(args.out.as_deref(), Some("out"));
    assert!(matches!(
        &args.peer,
        PeerKind::SelfExec { artifact, composed: false, suite_artifact: None }
            if artifact == "s.wasm"
    ));

    let args = loopback_cmd(&argv(&[
        "s.wasm", "--target", "t", "--kind", "composed", "--artifact", "c.wasm",
    ]))
    .unwrap_or_else(|e| panic!("{}", e.message()));
    assert!(matches!(
        &args.peer,
        PeerKind::SelfExec { artifact, composed: true, suite_artifact: Some(s) }
            if artifact == "c.wasm" && s == "s.wasm"
    ));

    let args = loopback_cmd(&argv(&[
        "s.wasm", "--target", "t", "--kind", "polyengine-deno", "--script", "d.ts",
    ]))
    .unwrap_or_else(|e| panic!("{}", e.message()));
    assert!(matches!(
        &args.peer,
        PeerKind::Deno { script, args } if script == "d.ts" && args.is_empty()
    ));

    let args = loopback_cmd(&argv(&[
        "s.wasm", "--target", "t", "--kind", "polyengine-browser", "--script", "b.mjs",
    ]))
    .unwrap_or_else(|e| panic!("{}", e.message()));
    assert!(matches!(
        &args.peer,
        PeerKind::Node { script, args } if script == "b.mjs" && args.is_empty()
    ));
}

#[test]
fn loopback_refusals_in_their_order() {
    let message = |line: &[&str]| loopback_cmd(&argv(line)).err().unwrap().message();
    assert_eq!(message(&[]), "missing suite.wasm");
    assert_eq!(message(&["s"]), "missing --target");
    assert_eq!(message(&["s", "--target", "t"]), "missing --kind");
    assert_eq!(
        message(&["s", "--target", "t", "--kind", "composed"]),
        "--kind composed needs --artifact"
    );
    assert_eq!(
        message(&["s", "--target", "t", "--kind", "polyengine-deno"]),
        "--kind polyengine-deno needs --script"
    );
    assert_eq!(
        message(&["s", "--target", "t", "--kind", "polyengine-browser"]),
        "--kind polyengine-browser needs --script"
    );
    assert_eq!(
        message(&["s", "--target", "t", "--kind", "a \"b\""]),
        "unknown --kind \"a \\\"b\\\"\""
    );
    assert_eq!(
        message(&["s", "--jsonl"]),
        format!("unknown flag `--jsonl`\n{}", usage())
    );
}

#[test]
fn interop_reads_the_direction() {
    let args = interop_cmd(&argv(&["p.wasm", "--direction", "wasmtime-x-reference"]))
        .unwrap_or_else(|e| panic!("{}", e.message()));
    assert_eq!(args.suite, "p.wasm");
    assert_eq!((args.offerer.as_str(), args.answerer.as_str()), ("wasmtime", "reference"));
    assert_eq!(args.target, "wasmtime-x-reference");
    assert_eq!(args.reference_bin, "target/release/conformance-reference-peer");

    let args = interop_cmd(&argv(&["p", "--direction", "a-x-b-x-c", "--target", "t"]))
        .unwrap_or_else(|e| panic!("{}", e.message()));
    assert_eq!((args.offerer.as_str(), args.answerer.as_str()), ("a", "b-x-c"));
    assert_eq!(args.target, "t");

    let message = |line: &[&str]| interop_cmd(&argv(line)).err().unwrap().message();
    assert_eq!(message(&[]), "missing pair-suite.wasm");
    assert_eq!(message(&["p"]), "missing --direction");
    assert_eq!(
        message(&["p", "--direction", "a-b"]),
        "--direction must be <offerer>-x-<answerer>"
    );
}

#[test]
fn interop_sides() {
    let here = path("/repo/p.wasm", false);
    let args = interop_cmd(&argv(&[
        "p.wasm", "--direction", "polyengine-deno-x-polyengine-browser", "--deno-script", "d.ts",
        "--browser-script", "b.mjs",
    ]))
    .unwrap_or_else(|e| panic!("{}", e.message()));
    let (offerer, answerer) =
        interop_peers(&args, &here).unwrap_or_else(|e| panic!("{}", e.message()));
    assert!(matches!(
        &offerer,
        PeerKind::Deno { script, args } if script == "d.ts"
            && *args == argv(&["--suite", "/repo/p.wasm", "--name", "conformance-guest-pair-ct"])
    ));
    assert!(matches!(
        &answerer,
        PeerKind::Node { script, args } if script == "b.mjs"
            && *args == argv(&["--suite", "/p.wasm", "--name", "conformance-guest-pair-ct"])
    ));

    let args = interop_cmd(&argv(&[
        "p.wasm", "--direction", "wasip3-guest-x-reference", "--composed-pair", "c.wasm",
        "--reference-bin", "ref",
    ]))
    .unwrap_or_else(|e| panic!("{}", e.message()));
    let (offerer, answerer) =
        interop_peers(&args, &here).unwrap_or_else(|e| panic!("{}", e.message()));
    assert!(matches!(
        &offerer,
        PeerKind::SelfExec { artifact, composed: true, suite_artifact: Some(s) }
            if artifact == "c.wasm" && s == "p.wasm"
    ));
    assert!(matches!(&answerer, PeerKind::Reference { bin } if bin == "ref"));
}

#[test]
fn interop_side_refusals() {
    let refused = |direction: &str, more: &[&str], path: &SuitePath| {
        let mut line = argv(&["p.wasm", "--direction", direction]);
        line.extend(argv(more));
        let args = interop_cmd(&line).unwrap_or_else(|e| panic!("{}", e.message()));
        interop_peers(&args, path).err().unwrap().message()
    };
    let here = path("/repo/p.wasm", false);
    let there = path("/p.wasm", true);
    let gone = SuitePath { canonical: Err("no such file".to_string()), absolute: false };
    assert_eq!(
        refused("wasip3-guest-x-nope", &[], &here),
        "direction includes wasip3-guest: needs --composed-pair"
    );
    assert_eq!(
        refused("wasmtime-x-polyengine-deno", &[], &here),
        "direction includes polyengine-deno: needs --deno-script"
    );
    assert_eq!(
        refused("polyengine-browser-x-wasmtime", &[], &here),
        "direction includes polyengine-browser: needs --browser-script"
    );
    assert_eq!(refused("wasmtime-x-nope", &[], &here), "unknown interop side \"nope\"");
    assert_eq!(
        refused("wasmtime-x-polyengine-deno", &["--deno-script", "d"], &gone),
        "resolving pair suite p.wasm: no such file"
    );
    assert_eq!(
        refused("polyengine-browser-x-wasmtime", &["--browser-script", "b"], &there),
        "pair suite p.wasm must be repo-root-relative for the browser child's static server"
    );
}

#[test]
fn pair_suite_is_addressed_by_form() {
    let args = pair_suite_args("x/p.wasm", PairSuitePath::Served, &path("/r/x/p.wasm", false))
        .unwrap_or_else(|e| panic!("{}", e.message()));
    assert_eq!(args, argv(&["--suite", "/x/p.wasm", "--name", "conformance-guest-pair-ct"]));
    let args = pair_suite_args("x/p.wasm", PairSuitePath::Filesystem, &path("/r/x/p.wasm", true))
        .unwrap_or_else(|e| panic!("{}", e.message()));
    assert_eq!(args[1], "/r/x/p.wasm");
}

#[test]
fn shadow_targets() {
    let args = shadow_cmd(&argv(&["p"])).unwrap_or_else(|e| panic!("{}", e.message()));
    assert_eq!(args.target, "wasmtime-shadow");
    assert_eq!(args.shadow_bin, "shadow");
    assert_eq!(args.signaling_bin, "target/debug/conformance-signalingd");
    assert_eq!(args.reference_bin, "target/release/conformance-reference-peer");
    assert_eq!(args.data_dir, "target/shadow-data");
    assert!(args.composed_pair.is_none() && args.out.is_none());

    let args = shadow_cmd(&argv(&["p", "--answerer-kind", "reference", "--target", ""]))
        .unwrap_or_else(|e| panic!("{}", e.message()));
    assert_eq!(args.target, "wasmtime-x-reference-shadow");

    let args = shadow_cmd(&argv(&["p", "--target", "t", "--data-dir", "d"]))
        .unwrap_or_else(|e| panic!("{}", e.message()));
    assert_eq!((args.target.as_str(), args.data_dir.as_str()), ("t", "d"));

    assert_eq!(shadow_cmd(&argv(&[])).err().unwrap().message(), "missing pair-suite.wasm");
}

#[test]
fn netns_scenario() {
    let args = netns_cmd(&argv(&["p"])).unwrap_or_else(|e| panic!("{}", e.message()));
    assert_eq!(args.scenario, "lan");
    assert!(args.target.is_none());
    assert_eq!(args.signaling_bin, "target/debug/conformance-signalingd");
    let args = netns_cmd(&argv(&["p", "--scenario", "nat", "--target", "t"]))
        .unwrap_or_else(|e| panic!("{}", e.message()));
    assert_eq!((args.scenario.as_str(), args.target.as_deref()), ("nat", Some("t")));
}

#[test]
fn children_read_what_the_driver_writes() {
    let ctx = RunContext {
        signaling_url: "http://127.0.0.1:9".to_string(),
        run_id: "t-1-2".to_string(),
        case_timeout_secs: 91,
        budget_secs: 31,
    };
    let kind = PeerKind::SelfExec {
        artifact: "c.wasm".to_string(),
        composed: true,
        suite_artifact: Some("s.wasm".to_string()),
    };
    let plan = child_stream(&kind, &ctx, "pair/", Some("answerer"), 3, &None);
    let command = match plan {
        Ok(ChildPlan::Spawn(command)) => command,
        _ => panic!("not spawned"),
    };
    assert!(matches!(command.program, Program::CurrentExe));
    assert_eq!(command.args[0], "exec");
    let args =
        exec_cmd(&command.args[1..].to_vec()).unwrap_or_else(|e| panic!("{}", e.message()));
    assert_eq!(args.suite, "c.wasm");
    assert_eq!(args.suite_artifact.as_deref(), Some("s.wasm"));
    assert_eq!(args.select.as_deref(), Some("pair/"));
    assert_eq!(args.role.as_deref(), Some("answerer"));
    assert_eq!(args.signaling_url.as_deref(), Some("http://127.0.0.1:9"));
    assert_eq!(args.run_id.as_deref(), Some("t-1-2"));
    assert_eq!((args.jobs, args.budget_secs, args.case_timeout_secs), (3, 31, 91));
    assert!(args.jsonl && args.composed && args.ice.is_none());
}

#[test]
fn runs_and_their_streams() {
    let ctx = run_context("t", "http://s".to_string(), 12, 345);
    assert_eq!(ctx.run_id, "t-12-345");
    assert_eq!(ctx.signaling_url, "http://s");
    assert_eq!((ctx.case_timeout_secs, ctx.budget_secs), (90, 30));
    let solo = solo_stream();
    assert_eq!((solo.select, solo.role, solo.jobs), ("solo/", None, 4));
    let (offerer, answerer) = pair_streams();
    assert_eq!((offerer.select, offerer.role, offerer.jobs), ("pair/", Some("offerer"), 1));
    assert_eq!((answerer.select, answerer.role, answerer.jobs), ("pair/", Some("answerer"), 1));
}
