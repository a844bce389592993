use webrtc_datachannels::orchestrate::Status;
use webrtc_datachannels::verdict::{judge, reference_case, reference_verdict, VerdictError};

#[test]
fn verdicts_by_tag_and_value() {
    assert!(matches!(judge(Some("pass"), Some("x")), Ok((Status::Pass, None))));
    assert!(matches!(
        judge(Some("fail"), Some("why")),
        Ok((Status::Fail, Some(d))) if d == "why"
    ));
    assert!(matches!(judge(Some("skipped"), None), Ok((Status::Skipped, None))));
    assert!(matches!(
        judge(Some("odd"), None),
        Err(VerdictError::UnknownTag(Some(t))) if t == "odd"
    ));
    assert!(matches!(judge(None, Some("x")), Err(VerdictError::UnknownTag(None))));
}

#[test]
fn the_last_line_is_the_verdict() {
    let stdout = "noise\n{\"tag\":\"fail\",\"val\":\"lost \\\"3\\\"\"}\n";
    let result = reference_verdict("pair/x", stdout, 12).unwrap_or_else(|_| panic!());
    assert_eq!(result.case, "pair/x");
    assert_eq!(result.status, Status::Fail);
    assert_eq!(result.detail.as_deref(), Some("lost \"3\""));
    assert_eq!(result.duration_ms, Some(12));
    assert!(result.provenance.is_none() && result.seed.is_none());
    assert!(result.diagnostics.is_empty() && result.diagnostics_complete);
}

#[test]
fn members_that_are_no_strings_do_not_count() {
    assert!(matches!(
        reference_verdict("c", "{\"tag\":1}", 0),
        Err(VerdictError::UnknownTag(None))
    ));
    assert!(matches!(
        reference_verdict("c", "[\"tag\"]", 0),
        Err(VerdictError::UnknownTag(None))
    ));
    let result =
        reference_verdict("c", "{\"tag\":\"fail\",\"val\":[]}", 0).unwrap_or_else(|_| panic!());
    assert!(result.detail.is_none());
}

#[test]
fn output_without_a_verdict() {
    let refused = reference_case("pair/x", b"", 0).err().unwrap();
    assert!(matches!(&refused, VerdictError::NoVerdict));
    assert_eq!(
        refused.message("pair/x", b"oops\"\n"),
        "reference peer emitted no verdict for pair/x (stdout: \"oops\\\"\\n\")"
    );
    let refused = reference_case("pair/x", b"{\"tag\":\"odd\"}", 0).err().unwrap();
    assert_eq!(
        refused.message("pair/x", b""),
        "reference peer verdict has unknown tag Some(\"odd\")"
    );
    let refused = reference_case("pair/x", b"{}", 0).err().unwrap();
    assert_eq!(refused.message("pair/x", b""), "reference peer verdict has unknown tag None");
}

#[test]
fn bytes_that_are_no_text_are_replaced() {
    let result = reference_case("c", b"\xff\xfe\n{\"tag\":\"fail\",\"val\":\"a\xffb\"}", 3)
        .unwrap_or_else(|_| panic!());
    assert_eq!(result.detail.as_deref(), Some("a\u{fffd}b"));
}
