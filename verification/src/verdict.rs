//! What a native peer reports of a case: the last line that it prints, read as JSON.

use vstd::prelude::*;

use crate::orchestrate::{CaseResult, Status};
use crate::text::{last_line, last_lines_stand_last, quote, quoted, same_text, text, text_last_line};

verus! {

/// A JSON document's value.
#[verifier::external_type_specification]
#[verifier::external_body]
pub struct ExJsonValue(serde_json::Value);

/// Why a text is no JSON document.
#[verifier::external_type_specification]
#[verifier::external_body]
pub struct ExJsonError(serde_json::Error);

/// The members of a JSON object whose values are strings; none for a value
/// that is no object.
pub uninterp spec fn text_members(value: serde_json::Value) -> Map<Seq<char>, Seq<char>>;

/// The string members of the JSON document that a text is, if it is one.
pub uninterp spec fn json_text_members(document: Seq<char>) -> Option<Map<Seq<char>, Seq<char>>>;

/// The text of bytes that are meant as UTF-8, with each ill-formed part
/// replaced.
pub uninterp spec fn lossy_text(bytes: Seq<u8>) -> Seq<char>;

/// `serde_json::from_str` into a `serde_json::Value`: the document's value, or
/// an error where the text is no JSON document. What the value holds depends
/// on the text alone.
#[verifier::external_body]
fn parse_json(document: &str) -> (r: Result<serde_json::Value, serde_json::Error>)
    ensures
        match r {
            Ok(value) => json_text_members(document@) == Some(text_members(value)),
            Err(_) => json_text_members(document@) is None,
        },
{
    serde_json::from_str(document)
}

/// `serde_json::Value::get` by a member's name, then `as_str`: the member of
/// that name of an object, where it is a string.
#[verifier::external_body]
fn text_member<'a>(value: &'a serde_json::Value, name: &str) -> (r: Option<&'a str>)
    ensures
        match r {
            Some(s) => text_members(*value).contains_key(name@) && text_members(*value)[name@]
                == s@,
            None => !text_members(*value).contains_key(name@),
        },
{
    value.get(name).and_then(|member| member.as_str())
}

/// `String::from_utf8_lossy`: the text of the bytes.
#[verifier::external_body]
fn decode_lossy(bytes: &[u8]) -> (r: String)
    ensures
        r@ == lossy_text(bytes@),
{
    String::from_utf8_lossy(bytes).into_owned()
}

/// Why a verdict cannot be had. `T` is the type of its texts.
pub enum VerdictError<T> {
    /// The peer's last line is no JSON document.
    NoVerdict,
    /// The verdict's tag is none that is known, or missing.
    UnknownTag(Option<T>),
}

impl View for VerdictError<String> {
    type V = VerdictError<Seq<char>>;

    open spec fn view(&self) -> VerdictError<Seq<char>> {
        match self {
            VerdictError::NoVerdict => VerdictError::NoVerdict,
            VerdictError::UnknownTag(t) => VerdictError::UnknownTag(t.deep_view()),
        }
    }
}

/// The member `name`, where there is one.
pub open spec fn member(members: Map<Seq<char>, Seq<char>>, name: Seq<char>) -> Option<Seq<char>> {
    if members.contains_key(name) {
        Some(members[name])
    } else {
        None
    }
}

/// The status and detail that a verdict's tag and value stand for.
pub open spec fn verdict_of(tag: Option<Seq<char>>, val: Option<Seq<char>>) -> Result<
    (Status, Option<Seq<char>>),
    VerdictError<Seq<char>>,
> {
    if tag == Some("pass"@) {
        Ok((Status::Pass, None))
    } else if tag == Some("fail"@) {
        Ok((Status::Fail, val))
    } else if tag == Some("skipped"@) {
        Ok((Status::Skipped, val))
    } else {
        Err(VerdictError::UnknownTag(tag))
    }
}

/// The status and detail of what the peer printed.
pub open spec fn stdout_verdict(stdout: Seq<char>) -> Result<
    (Status, Option<Seq<char>>),
    VerdictError<Seq<char>>,
> {
    match json_text_members(last_line(stdout)) {
        None => Err(VerdictError::NoVerdict),
        Some(members) => verdict_of(member(members, "tag"@), member(members, "val"@)),
    }
}

/// Whether `r` is the result of running `case`, judged by `verdict`.
pub open spec fn case_result_is(
    r: CaseResult,
    case: Seq<char>,
    verdict: (Status, Option<Seq<char>>),
    duration_ms: u64,
) -> bool {
    &&& r.case@ == case
    &&& r.status == verdict.0
    &&& r.provenance is None
    &&& r.detail.deep_view() == verdict.1
    &&& r.seed is None
    &&& r.duration_ms == Some(duration_ms)
    &&& r.diagnostics@.len() == 0
    &&& r.diagnostics_complete
}

/// Judges a verdict by its tag and value.
pub fn judge(tag: Option<&str>, val: Option<&str>) -> (r: Result<
    (Status, Option<String>),
    VerdictError<String>,
>)
    ensures
        ({
            let tag = match tag {
                Some(t) => Some(t@),
                None => None,
            };
            let val = match val {
                Some(v) => Some(v@),
                None => None,
            };
            match r {
                Ok(v) => verdict_of(tag, val) == Ok::<
                    (Status, Option<Seq<char>>),
                    VerdictError<Seq<char>>,
                >((v.0, v.1.deep_view())),
                Err(e) => verdict_of(tag, val) == Err::<
                    (Status, Option<Seq<char>>),
                    VerdictError<Seq<char>>,
                >(e@),
            }
        }),
{
    let detail: Option<String> = match val {
        Some(v) => Some(text(v)),
        None => None,
    };
    match tag {
        None => Err(VerdictError::UnknownTag(None)),
        Some(t) => if same_text(t, "pass") {
            Ok((Status::Pass, None))
        } else if same_text(t, "fail") {
            proof {
                reveal_strlit("pass");
                reveal_strlit("fail");
                assert("fail"@[0] != "pass"@[0]);
            }
            Ok((Status::Fail, detail))
        } else if same_text(t, "skipped") {
            Ok((Status::Skipped, detail))
        } else {
            Err(VerdictError::UnknownTag(Some(text(t))))
        },
    }
}

/// The result of a case that the reference peer ran: its verdict is the last
/// line of what it printed.
pub fn reference_verdict(case: &str, stdout: &str, duration_ms: u64) -> (r: Result<
    CaseResult,
    VerdictError<String>,
>)
    ensures
        match r {
            Ok(result) => stdout_verdict(stdout@) is Ok && case_result_is(
                result,
                case@,
                stdout_verdict(stdout@)->Ok_0,
                duration_ms,
            ),
            Err(e) => stdout_verdict(stdout@) == Err::<
                (Status, Option<Seq<char>>),
                VerdictError<Seq<char>>,
            >(e@),
        },
{
    let line: String = text_last_line(stdout);
    match parse_json(line.as_str()) {
        Err(_) => Err(VerdictError::NoVerdict),
        Ok(value) => {
            let tag: Option<&str> = text_member(&value, "tag");
            let val: Option<&str> = text_member(&value, "val");
            match judge(tag, val) {
                Err(e) => Err(e),
                Ok((status, detail)) => Ok(
                    CaseResult {
                        case: text(case),
                        status,
                        provenance: None,
                        detail,
                        seed: None,
                        duration_ms: Some(duration_ms),
                        diagnostics: Vec::new(),
                        diagnostics_complete: true,
                    },
                ),
            }
        },
    }
}

/// The result of a case that the reference peer ran, from the bytes that it
/// printed.
pub fn reference_case(case: &str, stdout: &[u8], duration_ms: u64) -> (r: Result<
    CaseResult,
    VerdictError<String>,
>)
    ensures
        match r {
            Ok(result) => stdout_verdict(lossy_text(stdout@)) is Ok && case_result_is(
                result,
                case@,
                stdout_verdict(lossy_text(stdout@))->Ok_0,
                duration_ms,
            ),
            Err(e) => stdout_verdict(lossy_text(stdout@)) == Err::<
                (Status, Option<Seq<char>>),
                VerdictError<Seq<char>>,
            >(e@),
        },
{
    let printed: String = decode_lossy(stdout);
    reference_verdict(case, printed.as_str(), duration_ms)
}

/// Why a verdict cannot be had, in words.
pub open spec fn verdict_message(
    e: VerdictError<Seq<char>>,
    case: Seq<char>,
    stdout: Seq<char>,
) -> Seq<char> {
    match e {
        VerdictError::NoVerdict => "reference peer emitted no verdict for "@ + case + " (stdout: "@
            + quoted(stdout) + ")"@,
        VerdictError::UnknownTag(Some(tag)) => "reference peer verdict has unknown tag Some("@
            + quoted(tag) + ")"@,
        VerdictError::UnknownTag(None) => "reference peer verdict has unknown tag None"@,
    }
}

impl VerdictError<String> {
    /// Why the verdict of a case cannot be had, in words; `stdout` is what the
    /// peer printed.
    pub fn message(&self, case: &str, stdout: &[u8]) -> (r: String)
        ensures
            r@ == verdict_message(self@, case@, lossy_text(stdout@)),
    {
        match self {
            VerdictError::NoVerdict => {
                let mut r: String = text("reference peer emitted no verdict for ");
                r.append(case);
                r.append(" (stdout: ");
                r.append(quote(decode_lossy(stdout).as_str()).as_str());
                r.append(")");
                r
            },
            VerdictError::UnknownTag(Some(tag)) => {
                let mut r: String = text("reference peer verdict has unknown tag Some(");
                r.append(quote(tag.as_str()).as_str());
                r.append(")");
                r
            },
            VerdictError::UnknownTag(None) => text("reference peer verdict has unknown tag None"),
        }
    }
}

/// A verdict is read by its tag: "pass" passes, and "fail" and "skipped" carry their
/// value on; no other tag, and no missing one, is a verdict.
pub proof fn verdicts_go_by_their_tag(tag: Seq<char>, val: Option<Seq<char>>)
    ensures
        verdict_of(Some(tag), val) is Ok <==> tag == "pass"@ || tag == "fail"@ || tag
            == "skipped"@,
        verdict_of(Some("pass"@), val) == Ok::<
            (Status, Option<Seq<char>>),
            VerdictError<Seq<char>>,
        >((Status::Pass, None)),
        verdict_of(Some("fail"@), val) == Ok::<
            (Status, Option<Seq<char>>),
            VerdictError<Seq<char>>,
        >((Status::Fail, val)),
        verdict_of(Some("skipped"@), val) == Ok::<
            (Status, Option<Seq<char>>),
            VerdictError<Seq<char>>,
        >((Status::Skipped, val)),
        verdict_of(Some(tag), val) matches Err(e) ==> e == VerdictError::UnknownTag(Some(tag)),
        verdict_of(None, val) == Err::<(Status, Option<Seq<char>>), VerdictError<Seq<char>>>(
            VerdictError::UnknownTag(None),
        ),
{
    reveal_strlit("pass");
    reveal_strlit("fail");
    reveal_strlit("skipped");
    assert("pass"@[0] == 'p');
    assert("fail"@[0] == 'f');
    assert("skipped"@[0] == 's');
}

/// A peer's verdict is the last line that it prints, whatever it printed before, and
/// its members "tag" and "val" decide.
pub proof fn last_lines_hold_the_verdict(before: Seq<char>, line: Seq<char>)
    requires
        before.len() == 0 || before.last() == '\n',
        !line.contains('\n'),
        line.len() > 0,
        line.last() != '\r',
    ensures
        ({
            let verdict = stdout_verdict(before + line + seq!['\n']);
            &&& stdout_verdict(before + line) == verdict
            &&& match json_text_members(line) {
                None => verdict == Err::<(Status, Option<Seq<char>>), VerdictError<Seq<char>>>(
                    VerdictError::NoVerdict,
                ),
                Some(members) => verdict == verdict_of(
                    if members.contains_key("tag"@) {
                        Some(members["tag"@])
                    } else {
                        None
                    },
                    if members.contains_key("val"@) {
                        Some(members["val"@])
                    } else {
                        None
                    },
                ),
            }
        }),
{
    last_lines_stand_last(before, line);
}

/// A case's result bears its name, its verdict and how long it took, and nothing else.
pub proof fn results_bear_their_verdict(
    r: CaseResult,
    case: Seq<char>,
    status: Status,
    detail: Option<Seq<char>>,
    duration_ms: u64,
)
    requires
        case_result_is(r, case, (status, detail), duration_ms),
    ensures
        r.case@ == case,
        r.status == status,
        r.detail is Some <==> detail is Some,
        r.detail is Some ==> r.detail->0@ == detail->0,
        r.duration_ms == Some(duration_ms),
        r.provenance is None,
        r.seed is None,
        r.diagnostics@.len() == 0,
        r.diagnostics_complete,
{
}

/// A failure to judge says which case and what the peer printed, or which tag it is
/// that nobody knows, and is seen as it is.
pub proof fn failures_to_judge_say_why(
    case: Seq<char>,
    stdout: Seq<char>,
    tag: Seq<char>,
    e: VerdictError<String>,
)
    ensures
        verdict_message(VerdictError::NoVerdict, case, stdout)
            == "reference peer emitted no verdict for "@ + case + " (stdout: "@ + quoted(stdout)
            + ")"@,
        verdict_message(VerdictError::UnknownTag(Some(tag)), case, stdout)
            == "reference peer verdict has unknown tag Some("@ + quoted(tag) + ")"@,
        verdict_message(VerdictError::UnknownTag(None), case, stdout)
            == "reference peer verdict has unknown tag None"@,
        match e {
            VerdictError::NoVerdict => e@ is NoVerdict,
            VerdictError::UnknownTag(None) => e@ == VerdictError::<Seq<char>>::UnknownTag(None),
            VerdictError::UnknownTag(Some(t)) => e@ == VerdictError::UnknownTag(Some(t@)),
        },
{
}

} // verus!
