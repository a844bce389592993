//! Session descriptions, and the errors of the WebRTC stack that reads them.

use vstd::prelude::*;

use rtc::peer_connection::sdp::RTCSessionDescription;

verus! {

/// An error of the stack.
#[verifier::external_type_specification]
#[verifier::external_body]
pub struct ExStackError(rtc::shared::error::Error);

/// A session description as the stack holds it.
#[verifier::external_type_specification]
#[verifier::external_body]
pub struct ExSessionDescription(RTCSessionDescription);

/// What an error of the stack says.
pub uninterp spec fn error_text(error: rtc::shared::error::Error) -> Seq<char>;

/// Why the stack does not take a text for a session description; none where it
/// does.
pub uninterp spec fn sdp_error(sdp: Seq<char>) -> Option<rtc::shared::error::Error>;

/// The SDP text of a session description.
pub uninterp spec fn description_sdp(description: RTCSessionDescription) -> Seq<char>;

/// Which kind of session description it is; none for one that is neither an
/// offer nor an answer of either kind.
pub uninterp spec fn description_kind(description: RTCSessionDescription) -> Option<SdpKind>;

/// The kind of SDP description passed to `set-local-description` /
/// `set-remote-description`, mirroring the applicable `session-description`
/// variants (`rollback` is rejected before reaching the host).
#[derive(Clone, Copy, Debug, PartialEq, Eq, Structural)]
pub enum SdpKind {
    /// An SDP offer.
    Offer,
    /// An SDP answer.
    Answer,
    /// A provisional SDP answer.
    Pranswer,
}

/// `rtc::shared::error::Error` through its `Display`: the text is a function of
/// the error.
#[verifier::external_body]
pub(crate) fn stack_error_text(error: &rtc::shared::error::Error) -> (r: String)
    ensures
        r@ == error_text(*error),
{
    format!("{error}")
}

/// `RTCSessionDescription::offer`: it fails exactly where the text does not
/// parse, and else holds the text as an offer.
#[verifier::external_body]
fn describe_offer(sdp: String) -> (r: Result<RTCSessionDescription, rtc::shared::error::Error>)
    ensures
        match r {
            Ok(d) => sdp_error(sdp@) is None && description_kind(d) == Some(SdpKind::Offer)
                && description_sdp(d) == sdp@,
            Err(e) => sdp_error(sdp@) == Some(e),
        },
{
    RTCSessionDescription::offer(sdp)
}

/// `RTCSessionDescription::answer`: it fails exactly where the text does not
/// parse, and else holds the text as an answer.
#[verifier::external_body]
fn describe_answer(sdp: String) -> (r: Result<RTCSessionDescription, rtc::shared::error::Error>)
    ensures
        match r {
            Ok(d) => sdp_error(sdp@) is None && description_kind(d) == Some(SdpKind::Answer)
                && description_sdp(d) == sdp@,
            Err(e) => sdp_error(sdp@) == Some(e),
        },
{
    RTCSessionDescription::answer(sdp)
}

/// `RTCSessionDescription::pranswer`: it fails exactly where the text does not
/// parse, and else holds the text as a provisional answer.
#[verifier::external_body]
fn describe_pranswer(sdp: String) -> (r: Result<RTCSessionDescription, rtc::shared::error::Error>)
    ensures
        match r {
            Ok(d) => sdp_error(sdp@) is None && description_kind(d) == Some(SdpKind::Pranswer)
                && description_sdp(d) == sdp@,
            Err(e) => sdp_error(sdp@) == Some(e),
        },
{
    RTCSessionDescription::pranswer(sdp)
}

/// The field `RTCSessionDescription::sdp`.
#[verifier::external_body]
pub(crate) fn sdp_text(description: RTCSessionDescription) -> (r: String)
    ensures
        r@ == description_sdp(description),
{
    description.sdp
}

/// Reads a session description of that kind.
pub fn describe(kind: SdpKind, sdp: String) -> (r: Result<
    RTCSessionDescription,
    rtc::shared::error::Error,
>)
    ensures
        match r {
            Ok(d) => sdp_error(sdp@) is None && description_kind(d) == Some(kind)
                && description_sdp(d) == sdp@,
            Err(e) => sdp_error(sdp@) == Some(e),
        },
{
    match kind {
        SdpKind::Offer => describe_offer(sdp),
        SdpKind::Answer => describe_answer(sdp),
        SdpKind::Pranswer => describe_pranswer(sdp),
    }
}

} // verus!
