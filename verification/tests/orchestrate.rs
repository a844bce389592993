use webrtc_datachannels::orchestrate::{
    child_stream, debug_path, exit_for, merge_target, pair_errors, reference_args,
    reference_params, reference_stream, run_id, script_of, selected_cases, suite_name, CaseResult,
    ChildError, ChildPlan, Document, Exit, PeerKind, Program, ResolvedScript, RunContext, Status,
};
use webrtc_datachannels::signaling::valid_room;

fn texts(list: &[&str]) -> Vec<String> {
    list.iter().map(|a| a.to_string()).collect()
}

fn ctx() -> RunContext {
    RunContext {
        signaling_url: "http://127.0.0.1:4000".to_string(),
        run_id: "t-1-2".to_string(),
        case_timeout_secs: 90,
        budget_secs: 30,
    }
}

fn row(case: &str, status: Status, detail: &str) -> CaseResult {
    CaseResult {
        case: case.to_string(),
        status,
        provenance: None,
        detail: Some(detail.to_string()),
        seed: None,
        duration_ms: None,
        diagnostics: Vec::new(),
        diagnostics_complete: true,
    }
}

fn document(results: Vec<CaseResult>, run_errors: &[&str]) -> Document {
    let mut document = reference_stream(results);
    document.run_errors = texts(run_errors);
    document
}

#[test]
fn self_exec_solo_command() {
    let kind = PeerKind::SelfExec {
        artifact: "s.wasm".to_string(),
        composed: false,
        suite_artifact: None,
    };
    assert!(script_of(&kind).is_none());
    match child_stream(&kind, &ctx(), "solo/", None, 4, &None) {
        Ok(ChildPlan::Spawn(command)) => {
            assert!(matches!(command.program, Program::CurrentExe));
            assert_eq!(
                command.args,
                texts(&[
                    "exec", "s.wasm", "--jsonl", "--select", "solo/", "--jobs", "4", "--budget",
                    "30", "--case-timeout", "90",
                ])
            );
            assert!(command.env.is_empty());
            assert!(command.dir.is_none());
            assert_eq!(command.label, "self-exec[solo]");
        }
        other => panic!("{other:?}"),
    }
}

#[test]
fn script_commands() {
    let resolved = Some(ResolvedScript {
        script: "/x/d.ts".to_string(),
        dir: "/x".to_string(),
    });
    let deno = PeerKind::Deno { script: "d.ts".to_string(), args: texts(&["--suite", "p"]) };
    assert_eq!(script_of(&deno), Some("d.ts"));
    match child_stream(&deno, &ctx(), "pair/", Some("offerer"), 1, &resolved) {
        Ok(ChildPlan::Spawn(command)) => {
            assert!(matches!(&command.program, Program::Named(name) if name == "deno"));
            assert_eq!(
                command.args,
                texts(&[
                    "run", "--allow-all", "--frozen", "--config", "/x/deno.json", "/x/d.ts",
                    "--select", "pair/", "--suite", "p",
                ])
            );
            let env: Vec<(&str, &str)> =
                command.env.iter().map(|(k, v)| (k.as_str(), v.as_str())).collect();
            assert_eq!(
                env,
                vec![
                    ("RTC_CT_SIGNALING_URL", "http://127.0.0.1:4000"),
                    ("RTC_CT_RUN_ID", "t-1-2"),
                    ("RTC_CT_CASE_TIMEOUT_SECS", "90"),
                    ("RTC_CT_ROLE", "offerer"),
                ]
            );
            assert_eq!(command.dir.as_deref(), Some("/x"));
            assert_eq!(command.label, "deno[offerer]");
        }
        other => panic!("{other:?}"),
    }
    let node = PeerKind::Node { script: "b.mjs".to_string(), args: Vec::new() };
    match child_stream(&node, &ctx(), "solo/", None, 1, &resolved) {
        Ok(ChildPlan::Spawn(command)) => {
            assert!(matches!(&command.program, Program::Named(name) if name == "node"));
            assert_eq!(command.args, texts(&["/x/d.ts", "--select", "solo/"]));
            assert_eq!(command.env.len(), 3);
            assert_eq!(command.label, "node[solo]");
        }
        other => panic!("{other:?}"),
    }
    assert!(matches!(
        child_stream(&node, &ctx(), "solo/", None, 1, &None),
        Err(ChildError::UnresolvedScript)
    ));
}

#[test]
fn reference_peer_needs_a_role() {
    let kind = PeerKind::Reference { bin: "ref".to_string() };
    assert!(matches!(
        child_stream(&kind, &ctx(), "pair/", None, 1, &None),
        Err(ChildError::ReferenceNeedsRole)
    ));
    match child_stream(&kind, &ctx(), "pair/", Some("answerer"), 1, &None) {
        Ok(ChildPlan::PerCase { bin, role }) => {
            assert_eq!((bin.as_str(), role.as_str()), ("ref", "answerer"))
        }
        other => panic!("{other:?}"),
    }
    assert_eq!(
        ChildError::ReferenceNeedsRole.message(),
        "the reference peer only runs pair roles"
    );
    assert_eq!(ChildError::UnresolvedScript.message(), "the child's script was not resolved");
}

#[test]
fn reference_peer_is_driven_by_the_leaf() {
    assert_eq!(reference_params("large-message"), (1, 16384));
    for leaf in [
        "message-boundaries", "ordering", "payload-integrity", "concurrent-send-receive",
        "interop-handshake",
    ] {
        assert_eq!(reference_params(leaf), (16, 512));
    }
    assert_eq!(reference_params("echo"), (4, 256));
    assert_eq!(
        reference_args(&ctx(), "offerer", "pair/data/ordering"),
        texts(&[
            "--test", "ordering", "--role", "offerer", "--server", "http://127.0.0.1:4000",
            "--room", "t-1-2-ordering", "--message-count", "16", "--message-size", "512",
        ])
    );
}

#[test]
fn cases_are_selected_in_order() {
    let names = texts(&["pair/b", "solo/a", "pair/a", "pai"]);
    assert_eq!(selected_cases(&names, "pair/"), texts(&["pair/b", "pair/a"]));
    assert_eq!(selected_cases(&names, ""), names);
}

#[test]
fn reference_documents_are_complete() {
    let document = reference_stream(vec![row("a", Status::Pass, "")]);
    assert_eq!((document.target.as_str(), document.suite.as_str()), ("reference", ""));
    assert_eq!(document.results.len(), 1);
    assert!(document.run_errors.is_empty() && document.unknown_statuses.is_empty());
    assert!(document.terminated);
}

#[test]
fn errors_are_labelled_by_side() {
    assert_eq!(
        pair_errors(&texts(&["x", "y"]), &texts(&["z"])),
        texts(&["offerer: x", "offerer: y", "answerer: z"])
    );
}

#[test]
fn run_ids_fit_room_names() {
    let id = run_id("wasmtime", 77, 1234567890123456789);
    assert_eq!(id, "wasmtime-77-1234567890123456789");
    assert!(valid_room(&id));
    assert!(valid_room(&format!("{id}-ordering")));
    assert_ne!(run_id("t", 1, 23), run_id("t", 12, 3));
    assert_eq!(run_id("a/b c.d_é", 7, 8), "a-b-c.d_--7-8");
    assert!(valid_room(&run_id("a/b", 7, 8)));
    assert_ne!(run_id("t-1", 2, 3), run_id("t", 12, 3));
}

#[test]
fn debug_files_are_named_by_label() {
    assert_eq!(debug_path("/d", "self-exec[solo]", 9), "/d/self-exec-solo--9.jsonl");
    assert_eq!(debug_path("/d", "é_A1", 9), "/d/--A1-9.jsonl");
}

#[test]
fn verdicts_are_not_displaced_by_deselection() {
    let solo = document(
        vec![
            row("solo/a", Status::Pass, "solo"),
            row("pair/b", Status::Deselected, "solo"),
            row("none", Status::Deselected, "solo"),
        ],
        &["boom"],
    );
    let pair = vec![
        row("pair/b", Status::Fail, "pair"),
        row("solo/a", Status::Deselected, "pair"),
        row("none", Status::Deselected, "pair"),
        row("new", Status::Skipped, "pair"),
    ];
    let merged = merge_target(Some(solo), pair, &texts(&["offerer: late"]));
    let seen: Vec<(&str, Status, &str)> = merged
        .results
        .iter()
        .map(|r| (r.case.as_str(), r.status, r.detail.as_deref().unwrap()))
        .collect();
    assert_eq!(
        seen,
        vec![
            ("new", Status::Skipped, "pair"),
            ("none", Status::Deselected, "pair"),
            ("pair/b", Status::Fail, "pair"),
            ("solo/a", Status::Pass, "solo"),
        ]
    );
    assert_eq!(merged.run_errors, texts(&["solo: boom", "offerer: late"]));
}

#[test]
fn the_last_verdict_of_a_case_is_kept() {
    let pair = vec![
        row("a", Status::Pass, "first"),
        row("a", Status::Fail, "second"),
        row("a", Status::Deselected, "third"),
    ];
    let merged = merge_target(None, pair, &Vec::new());
    assert_eq!(merged.results.len(), 1);
    assert_eq!(merged.results[0].detail.as_deref(), Some("second"));
    assert!(merged.run_errors.is_empty());
}

#[test]
fn red_streams_exit_red() {
    assert!(matches!(exit_for(""), Exit::Success));
    assert!(matches!(exit_for("head\n{\"status\":\"pass\"}\n"), Exit::Success));
    assert!(matches!(exit_for("{\"status\":\"fail\"}\n"), Exit::Success));
    assert!(matches!(exit_for("head\n{\"status\":\"fail\"}\n"), Exit::Failure));
    assert!(matches!(exit_for("head\n{}\n{\"status\":\"not-reached\"}"), Exit::Failure));
    assert!(matches!(exit_for("head\n{\"run-error\":1}"), Exit::Failure));
    assert!(matches!(exit_for("head\n{\"status\":\n\"fail\"}"), Exit::Success));
}

#[test]
fn suites_are_named_by_their_artifact() {
    assert_eq!(suite_name(Some("solo".to_string())), "solo");
    assert_eq!(suite_name(None), "suite");
}
