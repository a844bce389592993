//! The runtime-agnostic sans-I/O peer: [`SansIoPeer`].
//!
//! It wraps a peer connection of the `rtc` stack and exposes what a driver needs
//! beside the socket: signaling primitives, the timers, message sends and what
//! drained events and messages tell. It performs no I/O and awaits nothing.
//!
//! The sans-I/O model has no interface enumeration, so candidates are supplied
//! by the driver through [`SansIoPeer::add_local_host_candidate`] rather than
//! gathered. Datagrams are exchanged, and events and messages polled, on
//! [`SansIoPeer::pc`] itself, where the driver has its socket; [`drain`] says what
//! the polled ones tell.

use vstd::prelude::*;
use vstd::utf8::encode_utf8;

use bytes::BytesMut;
use rtc::data_channel::RTCDataChannelInit;
use rtc::peer_connection::configuration::RTCConfigurationBuilder;
use rtc::peer_connection::sdp::RTCSessionDescription;
use rtc::peer_connection::transport::{RTCIceCandidate, RTCIceCandidateInit};
use rtc::peer_connection::{RTCPeerConnection, RTCPeerConnectionBuilder};
use rtc::sansio::Protocol;
use std::time::Instant;

use crate::candidate::{
    candidates_have_priority, description_ranks, host_candidate, host_trickled, line_has_priority,
    line_ranks, trickle,
};
use crate::description::{
    describe, description_kind, description_sdp, error_text, sdp_error, sdp_text,
    stack_error_text, SdpKind,
};
use crate::text::{decimal, decimal_text, lemma_decimal_injective, text};

verus! {

/// A peer connection of the stack.
#[verifier::external_type_specification]
#[verifier::external_body]
pub struct ExPeerConnection(RTCPeerConnection);

/// A point in time.
#[verifier::external_type_specification]
#[verifier::external_body]
pub struct ExInstant(Instant);

/// The calls that this module made on a connection, each with what it was given
/// and what it replied, in the order in which they were made.
pub uninterp spec fn calls(pc: RTCPeerConnection) -> Seq<StackCall>;

/// The data channels that a connection knows, by their ids, with their labels.
pub uninterp spec fn channel_labels(pc: RTCPeerConnection) -> Map<usize, Seq<char>>;

/// The data channels that a connection knows or knew, by their ids, with their
/// labels: no id is used twice, and no channel changes its label.
pub uninterp spec fn given_labels(pc: RTCPeerConnection) -> Map<usize, Seq<char>>;

/// The bytes of each data channel that a connection knows which it was handed
/// and has not released.
pub uninterp spec fn outstanding(pc: RTCPeerConnection) -> Map<usize, nat>;

/// A connection's local description.
pub uninterp spec fn local_description(pc: RTCPeerConnection) -> Option<RTCSessionDescription>;

/// The instant that many seconds after another, where there is one.
pub uninterp spec fn instant_later(at: Instant, secs: u64) -> Option<Instant>;

/// The longest, in seconds, that the stack sets a timer ahead.
pub const TIMER_SECS: u64 = 60;

/// Whether the stack can set its timers at an instant: there is one that much
/// later.
pub open spec fn is_timely(at: Instant) -> bool {
    instant_later(at, TIMER_SECS) is Some
}

/// Whether every channel has the label that it had.
pub open spec fn labels_kept(before: Map<usize, Seq<char>>, after: Map<usize, Seq<char>>) -> bool {
    forall|id: usize| #[trigger]
        before.contains_key(id) ==> after.contains_key(id) && after[id] == before[id]
}

/// What the stack reports of itself.
#[derive(Clone, Copy, Debug, PartialEq, Eq, Structural)]
pub enum StackEvent {
    /// The connection reached `connected`.
    Connected,
    /// The connection reached `failed`.
    Failed,
    /// The connection reached `disconnected`.
    Disconnected,
    /// The connection reached `closed`.
    Closed,
    /// The data channel of that id opened.
    ChannelOpened(usize),
    /// The data channel of that id closed.
    ChannelClosed(usize),
    /// Anything else.
    Other,
}

/// What the stack received.
#[derive(Debug)]
pub enum StackMessage {
    /// A message of a data channel.
    Channel {
        /// The channel's id.
        id: usize,
        /// Whether it was sent as text.
        text: bool,
        /// The payload.
        data: Vec<u8>,
    },
    /// Anything else.
    Other,
}

/// A [`StackMessage`] by its bytes.
pub enum StackMessageView {
    /// A message of a data channel.
    Channel {
        /// The channel's id.
        id: usize,
        /// Whether it was sent as text.
        text: bool,
        /// The payload.
        data: Seq<u8>,
    },
    /// Anything else.
    Other,
}

impl View for StackMessage {
    type V = StackMessageView;

    open spec fn view(&self) -> StackMessageView {
        match self {
            StackMessage::Channel { id, text, data } => StackMessageView::Channel {
                id: *id,
                text: *text,
                data: data@,
            },
            StackMessage::Other => StackMessageView::Other,
        }
    }
}

/// A call on a connection: what it was given and what it replied.
#[allow(inconsistent_fields)]
pub enum StackCall {
    /// A data channel was to be created.
    CreateDataChannel {
        /// Its label.
        label: Seq<char>,
        /// Whether its messages are delivered in order.
        ordered: bool,
        /// How often a message is sent again at most.
        max_retransmits: Option<u16>,
        /// Its id.
        reply: Result<usize, rtc::shared::error::Error>,
    },
    /// An offer was to be made.
    CreateOffer {
        /// The offer.
        reply: Result<RTCSessionDescription, rtc::shared::error::Error>,
    },
    /// An answer was to be made.
    CreateAnswer {
        /// The answer.
        reply: Result<RTCSessionDescription, rtc::shared::error::Error>,
    },
    /// A local description was to be set.
    SetLocalDescription {
        /// When.
        now: Instant,
        /// The description.
        description: RTCSessionDescription,
        /// Whether it was.
        reply: Result<(), rtc::shared::error::Error>,
    },
    /// A remote description was to be set.
    SetRemoteDescription {
        /// When.
        now: Instant,
        /// The description.
        description: RTCSessionDescription,
        /// Whether it was.
        reply: Result<(), rtc::shared::error::Error>,
    },
    /// A local candidate was to be added.
    AddLocalCandidate {
        /// Its line.
        candidate: Seq<char>,
        /// Whether it was.
        reply: Result<(), rtc::shared::error::Error>,
    },
    /// A remote candidate was to be added.
    AddRemoteCandidate {
        /// Its line.
        candidate: Seq<char>,
        /// Whether it was.
        reply: Result<(), rtc::shared::error::Error>,
    },
    /// Time advanced.
    HandleTimeout {
        /// To where.
        now: Instant,
    },
    /// A text message was to be sent.
    SendText {
        /// The channel's id.
        id: usize,
        /// When.
        now: Instant,
        /// The text.
        message: Seq<char>,
        /// Whether it was.
        reply: Result<(), rtc::shared::error::Error>,
    },
    /// A binary message was to be sent.
    SendBinary {
        /// The channel's id.
        id: usize,
        /// When.
        now: Instant,
        /// The payload.
        data: Seq<u8>,
        /// Whether it was.
        reply: Result<(), rtc::shared::error::Error>,
    },
    /// A data channel was closed.
    CloseChannel {
        /// The channel's id.
        id: usize,
    },
}

/// `Instant::now`: nothing is claimed of the time it gives.
#[verifier::external_body]
fn current_instant() -> (r: Instant) {
    Instant::now()
}

/// `Instant::checked_add`, of a number of seconds: a function of the two.
#[verifier::external_body]
fn add_seconds(at: Instant, secs: u64) -> (r: Option<Instant>)
    ensures
        r == instant_later(at, secs),
{
    at.checked_add(std::time::Duration::from_secs(secs))
}

/// `RTCPeerConnectionBuilder::build` on an `RTCConfigurationBuilder`'s default
/// configuration: a connection that it makes knows and knew no data channel and has
/// no local description, and no call was made on it. When it fails is not said.
#[verifier::external_body]
fn stack_build(now: Instant) -> (r: Result<RTCPeerConnection, rtc::shared::error::Error>)
    ensures
        match r {
            Ok(pc) => {
                &&& calls(pc).len() == 0
                &&& channel_labels(pc).dom() == Set::<usize>::empty()
                &&& given_labels(pc).dom() == Set::<usize>::empty()
                &&& outstanding(pc).dom() == Set::<usize>::empty()
                &&& local_description(pc) is None
            },
            Err(_) => true,
        },
{
    let config = RTCConfigurationBuilder::new().build();
    RTCPeerConnectionBuilder::new().with_configuration(config).build(now)
}

/// `RTCPeerConnection::create_data_channel`, with the other options at their
/// defaults: the new channel gets an id that no known channel has, and is known
/// under it with its label, and with nothing outstanding. When it fails is not
/// said.
#[verifier::external_body]
fn stack_create_data_channel(
    pc: &mut RTCPeerConnection,
    label: &str,
    ordered: bool,
    max_retransmits: Option<u16>,
) -> (r: Result<usize, rtc::shared::error::Error>)
    ensures
        labels_kept(given_labels(*old(pc)), given_labels(*final(pc))),
        calls(*final(pc)) == calls(*old(pc)).push(
            StackCall::CreateDataChannel { label: label@, ordered, max_retransmits, reply: r },
        ),
        match r {
            Ok(id) => {
                &&& !channel_labels(*old(pc)).contains_key(id)
                &&& channel_labels(*final(pc)) == channel_labels(*old(pc)).insert(id, label@)
                &&& outstanding(*final(pc)) == outstanding(*old(pc)).insert(id, 0)
                &&& !given_labels(*old(pc)).contains_key(id)
                &&& given_labels(*final(pc)).contains_key(id)
                &&& given_labels(*final(pc))[id] == label@
            },
            Err(_) => true,
        },
{
    let init = RTCDataChannelInit { ordered, max_retransmits, ..Default::default() };
    Ok(pc.create_data_channel(label, Some(init))?.id())
}

/// `RTCPeerConnection::create_offer` without options: what it makes is an offer.
/// What it offers is not said: it rests on chance. Its source shows no panic on
/// any connection that this module makes: what it cannot offer it refuses with an
/// error, and the media ids that it counts up are those of transceivers without
/// one, of which no call here leaves any.
#[verifier::external_body]
fn stack_create_offer(pc: &mut RTCPeerConnection) -> (r: Result<
    RTCSessionDescription,
    rtc::shared::error::Error,
>)
    ensures
        labels_kept(given_labels(*old(pc)), given_labels(*final(pc))),
        calls(*final(pc)) == calls(*old(pc)).push(StackCall::CreateOffer { reply: r }),
        match r {
            Ok(description) => description_kind(description) == Some(SdpKind::Offer),
            Err(_) => true,
        },
{
    pc.create_offer(None)
}

/// `RTCPeerConnection::create_answer` without options: what it makes is an
/// answer. What it answers is not said: it rests on chance. Its source shows no
/// panic on any connection: what it cannot answer it refuses with an error.
#[verifier::external_body]
fn stack_create_answer(pc: &mut RTCPeerConnection) -> (r: Result<
    RTCSessionDescription,
    rtc::shared::error::Error,
>)
    ensures
        labels_kept(given_labels(*old(pc)), given_labels(*final(pc))),
        calls(*final(pc)) == calls(*old(pc)).push(StackCall::CreateAnswer { reply: r }),
        match r {
            Ok(description) => description_kind(description) == Some(SdpKind::Answer),
            Err(_) => true,
        },
{
    pc.create_answer(None)
}

/// `RTCPeerConnection::set_local_description`: an offer or an answer that is set
/// becomes the local description, which is then of its kind. When it fails is
/// not said.
#[verifier::external_body]
fn stack_set_local_description(
    pc: &mut RTCPeerConnection,
    now: Instant,
    description: RTCSessionDescription,
) -> (r: Result<(), rtc::shared::error::Error>)
    ensures
        labels_kept(given_labels(*old(pc)), given_labels(*final(pc))),
        calls(*final(pc)) == calls(*old(pc)).push(
            StackCall::SetLocalDescription { now, description, reply: r },
        ),
        match r {
            Ok(_) => description_kind(description) is Some ==> local_description(*final(pc)) is Some
                && description_kind(local_description(*final(pc))->0) == description_kind(
                description,
            ),
            Err(_) => true,
        },
{
    pc.set_local_description(now, description)
}

/// `RTCPeerConnection::set_remote_description`. When it fails is not said. A
/// description with a candidate whose priority cannot be told is left out: to
/// pair the candidate, the priority is computed, which takes its component from
/// 256.
#[verifier::external_body]
fn stack_set_remote_description(
    pc: &mut RTCPeerConnection,
    now: Instant,
    description: RTCSessionDescription,
) -> (r: Result<(), rtc::shared::error::Error>)
    requires
        candidates_have_priority(description_sdp(description)),
    ensures
        labels_kept(given_labels(*old(pc)), given_labels(*final(pc))),
        calls(*final(pc)) == calls(*old(pc)).push(
            StackCall::SetRemoteDescription { now, description, reply: r },
        ),
{
    pc.set_remote_description(now, description)
}

/// `RTCPeerConnection::local_description`: a function of the connection.
#[verifier::external_body]
fn stack_local_description(pc: &RTCPeerConnection) -> (r: Option<RTCSessionDescription>)
    ensures
        r == local_description(*pc),
{
    pc.local_description()
}

/// `RTCPeerConnection::add_local_candidate`, with no field of the candidate but
/// its line. When it fails is not said. A line whose priority cannot be told is
/// left out: it is computed, which takes the component from 256.
#[verifier::external_body]
fn stack_add_local_candidate(pc: &mut RTCPeerConnection, candidate: String) -> (r: Result<
    (),
    rtc::shared::error::Error,
>)
    requires
        line_has_priority(candidate@),
    ensures
        labels_kept(given_labels(*old(pc)), given_labels(*final(pc))),
        calls(*final(pc)) == calls(*old(pc)).push(
            StackCall::AddLocalCandidate { candidate: candidate@, reply: r },
        ),
{
    pc.add_local_candidate(RTCIceCandidateInit { candidate, ..Default::default() })
}

/// `RTCPeerConnection::add_remote_candidate`, with no field of the candidate but
/// its line. When it fails is not said. A line whose priority cannot be told is
/// left out: it is computed, which takes the component from 256.
#[verifier::external_body]
fn stack_add_remote_candidate(pc: &mut RTCPeerConnection, candidate: String) -> (r: Result<
    (),
    rtc::shared::error::Error,
>)
    requires
        line_has_priority(candidate@),
    ensures
        labels_kept(given_labels(*old(pc)), given_labels(*final(pc))),
        calls(*final(pc)) == calls(*old(pc)).push(
            StackCall::AddRemoteCandidate { candidate: candidate@, reply: r },
        ),
{
    pc.add_remote_candidate(RTCIceCandidateInit { candidate, ..Default::default() })
}

/// `RTCPeerConnection::handle_timeout`; its reply is dropped. Its timers are set
/// anew at most a minute after `now` (the largest retransmission timeout of SCTP),
/// and an instant to which that cannot be added is left out. An instant before a
/// former one counts as no time passed.
#[verifier::external_body]
fn stack_handle_timeout(pc: &mut RTCPeerConnection, now: Instant)
    requires
        is_timely(now),
    ensures
        labels_kept(given_labels(*old(pc)), given_labels(*final(pc))),
        calls(*final(pc)) == calls(*old(pc)).push(StackCall::HandleTimeout { now }),
{
    let _ = pc.handle_timeout(now);
}

/// `RTCPeerConnection::data_channel` and `RTCDataChannel::label`: a lookup among
/// the known channels, which changes nothing.
#[verifier::external_body]
fn stack_channel_label(pc: &mut RTCPeerConnection, id: usize) -> (r: Option<String>)
    ensures
        *final(pc) == *old(pc),
        match r {
            Some(label) => channel_labels(*old(pc)).contains_key(id) && label@ == channel_labels(
                *old(pc),
            )[id] && given_labels(*old(pc)).contains_key(id) && given_labels(*old(pc))[id]
                == label@,
            None => !channel_labels(*old(pc)).contains_key(id),
        },
{
    pc.data_channel(id).map(|channel| channel.label().to_owned())
}

/// Whether a channel's outstanding bytes, and no other's, grew by `bytes`; of a
/// count that no longer fits nothing is said.
pub open spec fn charges(
    before: Map<usize, nat>,
    after: Map<usize, nat>,
    id: usize,
    bytes: nat,
) -> bool {
    before[id] + bytes <= usize::MAX ==> after == before.insert(id, before[id] + bytes)
}

/// `RTCPeerConnection::data_channel` and `RTCDataChannel::send_text`: there is a
/// reply exactly where the channel is known, and nothing is done where it is
/// not. A text that is sent adds the bytes of its UTF-8 to the channel's
/// outstanding ones, as long as their count fits; a send that fails adds none.
/// When the send itself fails is not said.
#[verifier::external_body]
fn stack_send_text(pc: &mut RTCPeerConnection, id: usize, now: Instant, message: &str) -> (r:
    Option<Result<(), rtc::shared::error::Error>>)
    ensures
        labels_kept(given_labels(*old(pc)), given_labels(*final(pc))),
        r is Some <==> channel_labels(*old(pc)).contains_key(id),
        match r {
            Some(reply) => calls(*final(pc)) == calls(*old(pc)).push(
                StackCall::SendText { id, now, message: message@, reply },
            ),
            None => *final(pc) == *old(pc),
        },
        channel_labels(*final(pc)) == channel_labels(*old(pc)),
        match r {
            Some(Ok(_)) => charges(
                outstanding(*old(pc)),
                outstanding(*final(pc)),
                id,
                encode_utf8(message@).len(),
            ),
            _ => outstanding(*final(pc)) == outstanding(*old(pc)),
        },
{
    pc.data_channel(id).map(|mut channel| channel.send_text(now, message))
}

/// `RTCPeerConnection::data_channel` and `RTCDataChannel::send`: there is a
/// reply exactly where the channel is known, and nothing is done where it is
/// not. A message that is sent adds its bytes to the channel's outstanding ones,
/// as long as their count fits; a send that fails adds none. When the send
/// itself fails is not said.
#[verifier::external_body]
fn stack_send_binary(pc: &mut RTCPeerConnection, id: usize, now: Instant, data: &[u8]) -> (r:
    Option<Result<(), rtc::shared::error::Error>>)
    ensures
        labels_kept(given_labels(*old(pc)), given_labels(*final(pc))),
        r is Some <==> channel_labels(*old(pc)).contains_key(id),
        match r {
            Some(reply) => calls(*final(pc)) == calls(*old(pc)).push(
                StackCall::SendBinary { id, now, data: data@, reply },
            ),
            None => *final(pc) == *old(pc),
        },
        channel_labels(*final(pc)) == channel_labels(*old(pc)),
        match r {
            Some(Ok(_)) => charges(
                outstanding(*old(pc)),
                outstanding(*final(pc)),
                id,
                data@.len(),
            ),
            _ => outstanding(*final(pc)) == outstanding(*old(pc)),
        },
{
    pc.data_channel(id).map(|mut channel| channel.send(now, BytesMut::from(data)))
}

/// `RTCPeerConnection::data_channel` and `RTCDataChannel::close`, whose reply is
/// dropped: nothing is done where the channel is not known.
#[verifier::external_body]
fn stack_close_channel(pc: &mut RTCPeerConnection, id: usize)
    ensures
        labels_kept(given_labels(*old(pc)), given_labels(*final(pc))),
        if channel_labels(*old(pc)).contains_key(id) {
            calls(*final(pc)) == calls(*old(pc)).push(StackCall::CloseChannel { id })
        } else {
            *final(pc) == *old(pc)
        },
{
    let _ = pc.data_channel(id).map(|mut channel| channel.close());
}

/// `RTCPeerConnection::data_channel` and `RTCDataChannel::outstanding_bytes`: a
/// lookup among the known channels, which changes nothing.
#[verifier::external_body]
fn stack_outstanding_bytes(pc: &mut RTCPeerConnection, id: usize) -> (r: Option<usize>)
    ensures
        *final(pc) == *old(pc),
        match r {
            Some(bytes) => channel_labels(*old(pc)).contains_key(id) && bytes == outstanding(
                *old(pc),
            )[id],
            None => !channel_labels(*old(pc)).contains_key(id),
        },
{
    pc.data_channel(id).map(|channel| channel.outstanding_bytes())
}

/// Why a peer did not do what it was asked for.
#[derive(Debug)]
pub enum PeerError {
    /// The stack failed.
    Stack(rtc::shared::error::Error),
    /// There is no data channel of that id.
    NoChannel(usize),
    /// There is no local description.
    NoLocalDescription,
    /// The priority of a candidate cannot be told.
    NoPriority,
}

/// Why a peer did not do what it was asked for, in words.
pub open spec fn peer_error_text(error: PeerError) -> Seq<char> {
    match error {
        PeerError::Stack(e) => error_text(e),
        PeerError::NoChannel(id) => "no data channel with id "@ + decimal(id as nat),
        PeerError::NoLocalDescription => "no local description available"@,
        PeerError::NoPriority => "a candidate of a component above 256 bears no priority"@,
    }
}

impl PeerError {
    /// Why the peer did not do what it was asked for, in words.
    pub fn message(&self) -> (r: String)
        ensures
            r@ == peer_error_text(*self),
    {
        match self {
            PeerError::Stack(e) => stack_error_text(e),
            PeerError::NoChannel(id) => {
                let mut r: String = text("no data channel with id ");
                r.append(decimal_text(*id as u128).as_str());
                r
            },
            PeerError::NoLocalDescription => text("no local description available"),
            PeerError::NoPriority => text("a candidate of a component above 256 bears no priority"),
        }
    }
}

/// An observable change drained from the peer after stepping it.
#[derive(Debug)]
pub enum PeerEvent {
    /// The connection reached the `connected` state.
    Connected,
    /// The connection failed.
    Failed,
    /// The connection closed or disconnected.
    Closed,
    /// A data channel opened; `id` addresses it for [`SansIoPeer::send_text`] /
    /// [`SansIoPeer::send_binary`].
    ChannelOpen {
        /// The channel's id.
        id: usize,
        /// The negotiated channel label.
        label: String,
    },
    /// A data channel closed (locally or by the remote peer).
    ChannelClosed {
        /// The channel's id.
        id: usize,
    },
    /// An inbound data-channel message.
    Message {
        /// The channel the message arrived on.
        id: usize,
        /// Whether the payload was sent as text (UTF-8) rather than binary.
        text: bool,
        /// The message payload.
        data: Vec<u8>,
    },
}

/// A [`PeerEvent`] by its texts and bytes.
pub enum PeerEventView {
    /// The connection reached the `connected` state.
    Connected,
    /// The connection failed.
    Failed,
    /// The connection closed or disconnected.
    Closed,
    /// A data channel opened.
    ChannelOpen {
        /// The channel's id.
        id: usize,
        /// The negotiated channel label.
        label: Seq<char>,
    },
    /// A data channel closed.
    ChannelClosed {
        /// The channel's id.
        id: usize,
    },
    /// An inbound data-channel message.
    Message {
        /// The channel the message arrived on.
        id: usize,
        /// Whether the payload was sent as text.
        text: bool,
        /// The message payload.
        data: Seq<u8>,
    },
}

impl View for PeerEvent {
    type V = PeerEventView;

    open spec fn view(&self) -> PeerEventView {
        match self {
            PeerEvent::Connected => PeerEventView::Connected,
            PeerEvent::Failed => PeerEventView::Failed,
            PeerEvent::Closed => PeerEventView::Closed,
            PeerEvent::ChannelOpen { id, label } => PeerEventView::ChannelOpen {
                id: *id,
                label: label@,
            },
            PeerEvent::ChannelClosed { id } => PeerEventView::ChannelClosed { id: *id },
            PeerEvent::Message { id, text, data } => PeerEventView::Message {
                id: *id,
                text: *text,
                data: data@,
            },
        }
    }
}

/// The views of a list of events.
pub open spec fn event_views(events: Seq<PeerEvent>) -> Seq<PeerEventView> {
    Seq::new(events.len(), |i: int| events[i]@)
}

/// What an event of the stack tells, but for an opened channel, of which the
/// label has yet to be asked for.
pub open spec fn event_tells(event: StackEvent) -> Option<PeerEventView> {
    match event {
        StackEvent::Connected => Some(PeerEventView::Connected),
        StackEvent::Failed => Some(PeerEventView::Failed),
        StackEvent::Disconnected => Some(PeerEventView::Closed),
        StackEvent::Closed => Some(PeerEventView::Closed),
        StackEvent::ChannelOpened(_) => None,
        StackEvent::ChannelClosed(id) => Some(PeerEventView::ChannelClosed { id }),
        StackEvent::Other => None,
    }
}

/// What an event of the stack tells, but for an opened channel.
pub fn event_told(event: StackEvent) -> (r: Option<PeerEvent>)
    ensures
        event_tells(event) == (match r {
            Some(told) => Some(told@),
            None => None,
        }),
{
    match event {
        StackEvent::Connected => Some(PeerEvent::Connected),
        StackEvent::Failed => Some(PeerEvent::Failed),
        StackEvent::Disconnected => Some(PeerEvent::Closed),
        StackEvent::Closed => Some(PeerEvent::Closed),
        StackEvent::ChannelOpened(_) => None,
        StackEvent::ChannelClosed(id) => Some(PeerEvent::ChannelClosed { id }),
        StackEvent::Other => None,
    }
}

/// What an opened channel tells: its label is empty where the channel is gone.
pub open spec fn channel_opening(id: usize, label: Option<Seq<char>>) -> PeerEventView {
    PeerEventView::ChannelOpen {
        id,
        label: match label {
            Some(label) => label,
            None => Seq::empty(),
        },
    }
}

/// What an opened channel tells.
pub fn channel_opened(id: usize, label: Option<String>) -> (r: PeerEvent)
    ensures
        r@ == channel_opening(id, label.deep_view()),
{
    match label {
        Some(label) => PeerEvent::ChannelOpen { id, label },
        None => PeerEvent::ChannelOpen { id, label: String::new() },
    }
}

/// What an inbound message tells.
pub open spec fn message_tells(message: StackMessageView) -> Option<PeerEventView> {
    match message {
        StackMessageView::Channel { id, text, data } => Some(
            PeerEventView::Message { id, text, data },
        ),
        StackMessageView::Other => None,
    }
}

/// What an inbound message tells.
pub fn message_told(message: StackMessage) -> (r: Option<PeerEvent>)
    ensures
        message_tells(message@) == (match r {
            Some(told) => Some(told@),
            None => None,
        }),
{
    match message {
        StackMessage::Channel { id, text, data } => Some(PeerEvent::Message { id, text, data }),
        StackMessage::Other => None,
    }
}

/// What a polled event tells: `label` is that of the channel that it opens, if it
/// opens one that is known.
pub open spec fn noticed_tells(noticed: (StackEvent, Option<Seq<char>>)) -> Option<PeerEventView> {
    match noticed.0 {
        StackEvent::ChannelOpened(id) => Some(channel_opening(id, noticed.1)),
        event => event_tells(event),
    }
}

/// What polled events tell, in their order.
pub open spec fn events_tell(noticed: Seq<(StackEvent, Option<Seq<char>>)>) -> Seq<PeerEventView>
    decreases noticed.len(),
{
    if noticed.len() == 0 {
        Seq::empty()
    } else {
        match noticed_tells(noticed.last()) {
            Some(event) => events_tell(noticed.drop_last()).push(event),
            None => events_tell(noticed.drop_last()),
        }
    }
}

/// What polled messages tell, in their order.
pub open spec fn messages_tell(messages: Seq<StackMessageView>) -> Seq<PeerEventView>
    decreases messages.len(),
{
    if messages.len() == 0 {
        Seq::empty()
    } else {
        match message_tells(messages.last()) {
            Some(event) => messages_tell(messages.drop_last()).push(event),
            None => messages_tell(messages.drop_last()),
        }
    }
}

/// A polled event by the text of its label.
pub open spec fn noticed_view(noticed: (StackEvent, Option<String>)) -> (
    StackEvent,
    Option<Seq<char>>,
) {
    (noticed.0, noticed.1.deep_view())
}

/// Polled events by the texts of their labels.
pub open spec fn noticed_views(noticed: Seq<(StackEvent, Option<String>)>) -> Seq<
    (StackEvent, Option<Seq<char>>),
> {
    Seq::new(noticed.len(), |i: int| noticed_view(noticed[i]))
}

/// Polled messages by their bytes.
pub open spec fn message_views(messages: Seq<StackMessage>) -> Seq<StackMessageView> {
    Seq::new(messages.len(), |i: int| messages[i]@)
}

/// What a drain tells: all that its events tell, and then all that its messages
/// tell.
pub open spec fn drain_tells(
    noticed: Seq<(StackEvent, Option<Seq<char>>)>,
    messages: Seq<StackMessageView>,
) -> Seq<PeerEventView> {
    events_tell(noticed) + messages_tell(messages)
}

/// Drain all currently available events (connection-state changes, opened data
/// channels, and inbound messages) into a single ordered list: `events` are the
/// polled events, as [`SansIoPeer::noticed`] gives them, and `messages` the polled
/// messages, each in the order in which they were polled.
pub fn drain(events: Vec<(StackEvent, Option<String>)>, messages: Vec<StackMessage>) -> (r: Vec<
    PeerEvent,
>)
    ensures
        event_views(r@) == drain_tells(noticed_views(events@), message_views(messages@)),
{
    let mut r: Vec<PeerEvent> = Vec::new();
    let ghost polled = noticed_views(events@);
    assert(event_views(r@) =~= events_tell(polled.take(0)));
    for noticed in it: events
        invariant
            polled == noticed_views(it.seq()),
            event_views(r@) == events_tell(polled.take(it.index() as int)),
    {
        let ghost prior = r@;
        let ghost at = it.index() as int;
        assert(polled.take(at + 1).drop_last() =~= polled.take(at));
        let (event, label): (StackEvent, Option<String>) = noticed;
        let told: Option<PeerEvent> = match event {
            StackEvent::ChannelOpened(id) => Some(channel_opened(id, label)),
            _ => event_told(event),
        };
        if let Some(told) = told {
            r.push(told);
            assert(event_views(r@) =~= event_views(prior).push(r@.last()@));
        }
    }
    assert(polled.take(polled.len() as int) =~= polled);
    let ghost received = message_views(messages@);
    assert(event_views(r@) =~= events_tell(polled) + messages_tell(received.take(0)));
    for message in it: messages
        invariant
            received == message_views(it.seq()),
            event_views(r@) == events_tell(polled) + messages_tell(
                received.take(it.index() as int),
            ),
    {
        let ghost prior = r@;
        let ghost at = it.index() as int;
        assert(received.take(at + 1).drop_last() =~= received.take(at));
        if let Some(told) = message_told(message) {
            r.push(told);
            assert(event_views(r@) =~= event_views(prior).push(r@.last()@));
        }
    }
    assert(received.take(received.len() as int) =~= received);
    r
}

/// What a description that was made and set as the local one comes to: `made` are
/// the calls that set it, `description` is what was made, and `local` is the
/// local description after them.
pub open spec fn set_as_local(
    made: Seq<StackCall>,
    description: RTCSessionDescription,
    local: Option<RTCSessionDescription>,
    r: Result<Seq<char>, PeerError>,
) -> bool {
    &&& made.len() == 1
    &&& made[0] matches StackCall::SetLocalDescription { description: set, reply, .. }
    &&& set == description
    &&& match (reply, local) {
        (Err(e), _) => r == Err::<Seq<char>, PeerError>(PeerError::Stack(e)),
        (Ok(_), None) => r == Err::<Seq<char>, PeerError>(PeerError::NoLocalDescription),
        (Ok(_), Some(d)) => r == Ok::<Seq<char>, PeerError>(description_sdp(d)),
    }
}

/// What asking for an offer comes to: the calls `made`, with the local
/// description `local` after them.
pub open spec fn offers(
    made: Seq<StackCall>,
    local: Option<RTCSessionDescription>,
    r: Result<Seq<char>, PeerError>,
) -> bool {
    &&& made.len() > 0
    &&& made[0] matches StackCall::CreateOffer { reply }
    &&& match reply {
        Err(e) => made.len() == 1 && r == Err::<Seq<char>, PeerError>(PeerError::Stack(e)),
        Ok(d) => set_as_local(made.skip(1), d, local, r),
    }
}

/// What asking for an answer comes to: the calls `made`, with the local
/// description `local` after them.
pub open spec fn answers(
    made: Seq<StackCall>,
    local: Option<RTCSessionDescription>,
    r: Result<Seq<char>, PeerError>,
) -> bool {
    &&& made.len() > 0
    &&& made[0] matches StackCall::CreateAnswer { reply }
    &&& match reply {
        Err(e) => made.len() == 1 && r == Err::<Seq<char>, PeerError>(PeerError::Stack(e)),
        Ok(d) => set_as_local(made.skip(1), d, local, r),
    }
}

/// What applying a remote description of that kind comes to: a text that does
/// not parse, or with a candidate whose priority cannot be told, is not handed
/// on.
pub open spec fn applies_remote(
    made: Seq<StackCall>,
    kind: SdpKind,
    sdp: Seq<char>,
    r: Result<(), PeerError>,
) -> bool {
    match sdp_error(sdp) {
        Some(e) => made.len() == 0 && r == Err::<(), PeerError>(PeerError::Stack(e)),
        None if !candidates_have_priority(sdp) => made.len() == 0 && r == Err::<(), PeerError>(
            PeerError::NoPriority,
        ),
        None => {
            &&& made.len() == 1
            &&& made[0] matches StackCall::SetRemoteDescription { description, reply, .. }
            &&& description_kind(description) == Some(kind)
            &&& description_sdp(description) == sdp
            &&& r == stack_outcome(reply)
        },
    }
}

/// What a reply of the stack comes to.
pub open spec fn stack_outcome<T>(reply: Result<T, rtc::shared::error::Error>) -> Result<
    T,
    PeerError,
> {
    match reply {
        Ok(value) => Ok(value),
        Err(e) => Err(PeerError::Stack(e)),
    }
}

/// What a reply of the stack comes to.
fn outcome<T>(reply: Result<T, rtc::shared::error::Error>) -> (r: Result<T, PeerError>)
    ensures
        r == stack_outcome(reply),
{
    match reply {
        Ok(value) => Ok(value),
        Err(e) => Err(PeerError::Stack(e)),
    }
}

/// What a send comes to, by the stack's reply; there is none where there is no
/// channel of that id.
pub open spec fn send_comes_to(
    id: usize,
    reply: Option<Result<(), rtc::shared::error::Error>>,
) -> Result<(), PeerError> {
    match reply {
        Some(reply) => stack_outcome(reply),
        None => Err(PeerError::NoChannel(id)),
    }
}

/// What a send comes to, by the stack's reply.
pub fn send_outcome(id: usize, reply: Option<Result<(), rtc::shared::error::Error>>) -> (r: Result<
    (),
    PeerError,
>)
    ensures
        r == send_comes_to(id, reply),
{
    match reply {
        Some(reply) => outcome(reply),
        None => Err(PeerError::NoChannel(id)),
    }
}

/// A result by the text that it brings.
pub open spec fn text_result(r: Result<String, PeerError>) -> Result<Seq<char>, PeerError> {
    match r {
        Ok(s) => Ok(s@),
        Err(e) => Err(e),
    }
}

/// The SDP text of the local description, if there is one.
pub fn local_sdp(description: Option<RTCSessionDescription>) -> (r: Result<String, PeerError>)
    ensures
        match description {
            Some(d) => text_result(r) == Ok::<Seq<char>, PeerError>(description_sdp(d)),
            None => text_result(r) == Err::<Seq<char>, PeerError>(PeerError::NoLocalDescription),
        },
{
    match description {
        Some(d) => Ok(sdp_text(d)),
        None => Err(PeerError::NoLocalDescription),
    }
}

/// A sans-I/O WebRTC peer wrapping a single connection of the stack.
pub struct SansIoPeer {
    /// The connection, on which the driver exchanges datagrams and polls.
    pub pc: RTCPeerConnection,
}

impl SansIoPeer {
    /// The calls that were made on the peer's connection.
    pub open spec fn calls(&self) -> Seq<StackCall> {
        calls(self.pc)
    }

    /// The data channels that the peer knows, with their labels.
    pub open spec fn channels(&self) -> Map<usize, Seq<char>> {
        channel_labels(self.pc)
    }

    /// The data channels that the peer knows or knew, with their labels.
    pub open spec fn labels(&self) -> Map<usize, Seq<char>> {
        given_labels(self.pc)
    }

    /// The bytes of each data channel that are outstanding.
    pub open spec fn outstanding(&self) -> Map<usize, nat> {
        outstanding(self.pc)
    }

    /// The local description.
    pub open spec fn description(&self) -> Option<RTCSessionDescription> {
        local_description(self.pc)
    }

    /// The calls that were made since the peer was as `before`.
    pub open spec fn made_since(&self, before: SansIoPeer) -> Seq<StackCall> {
        self.calls().skip(before.calls().len() as int)
    }

    /// Whether the peer is as `before` but for further calls.
    pub open spec fn continues(&self, before: SansIoPeer) -> bool {
        self.calls() =~= before.calls() + self.made_since(before)
    }

    /// Create a peer with no data channels. Either side of the exchange starts
    /// here: an offerer adds a channel via
    /// [`create_data_channel`](Self::create_data_channel) and produces an
    /// offer; an answerer receives the offer, adopts the remote-created
    /// channel via negotiation, and produces an answer.
    pub fn new() -> (r: Result<Self, PeerError>)
        ensures
            match r {
                Ok(peer) => {
                    &&& peer.calls() == Seq::<StackCall>::empty()
                    &&& peer.channels() == Map::<usize, Seq<char>>::empty()
                    &&& peer.labels() == Map::<usize, Seq<char>>::empty()
                    &&& peer.outstanding() == Map::<usize, nat>::empty()
                    &&& peer.description() is None
                },
                Err(e) => e is Stack,
            },
    {
        match stack_build(current_instant()) {
            Ok(pc) => Ok(SansIoPeer { pc }),
            Err(e) => Err(PeerError::Stack(e)),
        }
    }

    /// Create a data channel that will be negotiated in-band with the peer.
    /// Returns the channel's id, which addresses it for
    /// [`send_text`](Self::send_text) / [`send_binary`](Self::send_binary).
    pub fn create_data_channel(
        &mut self,
        label: &str,
        ordered: bool,
        max_retransmits: Option<u16>,
    ) -> (r: Result<usize, PeerError>)
        ensures
            labels_kept(old(self).labels(), final(self).labels()),
            final(self).continues(*old(self)),
            final(self).made_since(*old(self)).len() == 1,
            final(self).made_since(*old(self))[0] matches StackCall::CreateDataChannel {
                label: asked,
                ordered: in_order,
                max_retransmits: limit,
                reply,
            } && asked == label@ && in_order == ordered && limit == max_retransmits && r
                == stack_outcome(reply),
            match r {
                Ok(id) => {
                    &&& !old(self).channels().contains_key(id)
                    &&& final(self).channels() == old(self).channels().insert(id, label@)
                    &&& final(self).outstanding() == old(self).outstanding().insert(id, 0)
                    &&& !old(self).labels().contains_key(id)
                    &&& final(self).labels().contains_key(id)
                    &&& final(self).labels()[id] == label@
                },
                Err(e) => e is Stack,
            },
    {
        outcome(stack_create_data_channel(&mut self.pc, label, ordered, max_retransmits))
    }

    /// Produce an SDP offer (already set as the local description) describing
    /// the local peer's current channels.
    pub fn create_offer(&mut self) -> (r: Result<String, PeerError>)
        ensures
            labels_kept(old(self).labels(), final(self).labels()),
            final(self).continues(*old(self)),
            offers(
                final(self).made_since(*old(self)),
                final(self).description(),
                text_result(r),
            ),
            match r {
                Ok(_) => final(self).description() is Some && description_kind(
                    final(self).description()->0,
                ) == Some(SdpKind::Offer),
                Err(e) => e is Stack,
            },
    {
        let offer: RTCSessionDescription = match stack_create_offer(&mut self.pc) {
            Ok(offer) => offer,
            Err(e) => {
                return Err(PeerError::Stack(e));
            },
        };
        match stack_set_local_description(&mut self.pc, current_instant(), offer) {
            Ok(_) => local_sdp(stack_local_description(&self.pc)),
            Err(e) => Err(PeerError::Stack(e)),
        }
    }

    /// Apply the remote peer's SDP offer. Any ICE candidates embedded in the
    /// offer are picked up here, so a non-trickle remote needs no separate
    /// candidate exchange. An offer with one whose priority cannot be told is
    /// refused.
    pub fn set_remote_offer(&mut self, sdp: String) -> (r: Result<(), PeerError>)
        ensures
            labels_kept(old(self).labels(), final(self).labels()),
            final(self).continues(*old(self)),
            applies_remote(final(self).made_since(*old(self)), SdpKind::Offer, sdp@, r),
    {
        let ranked: bool = description_ranks(sdp.as_str());
        match describe(SdpKind::Offer, sdp) {
            Ok(offer) => if ranked {
                outcome(stack_set_remote_description(&mut self.pc, current_instant(), offer))
            } else {
                Err(PeerError::NoPriority)
            },
            Err(e) => Err(PeerError::Stack(e)),
        }
    }

    /// Apply the remote peer's SDP answer. One with a candidate whose priority
    /// cannot be told is refused.
    pub fn set_remote_answer(&mut self, sdp: String) -> (r: Result<(), PeerError>)
        ensures
            labels_kept(old(self).labels(), final(self).labels()),
            final(self).continues(*old(self)),
            applies_remote(final(self).made_since(*old(self)), SdpKind::Answer, sdp@, r),
    {
        let ranked: bool = description_ranks(sdp.as_str());
        match describe(SdpKind::Answer, sdp) {
            Ok(answer) => if ranked {
                outcome(stack_set_remote_description(&mut self.pc, current_instant(), answer))
            } else {
                Err(PeerError::NoPriority)
            },
            Err(e) => Err(PeerError::Stack(e)),
        }
    }

    /// Produce an SDP answer (already set as the local description) in response
    /// to a previously applied remote offer.
    pub fn create_answer(&mut self) -> (r: Result<String, PeerError>)
        ensures
            labels_kept(old(self).labels(), final(self).labels()),
            final(self).continues(*old(self)),
            answers(
                final(self).made_since(*old(self)),
                final(self).description(),
                text_result(r),
            ),
            match r {
                Ok(_) => final(self).description() is Some && description_kind(
                    final(self).description()->0,
                ) == Some(SdpKind::Answer),
                Err(e) => e is Stack,
            },
    {
        let answer: RTCSessionDescription = match stack_create_answer(&mut self.pc) {
            Ok(answer) => answer,
            Err(e) => {
                return Err(PeerError::Stack(e));
            },
        };
        match stack_set_local_description(&mut self.pc, current_instant(), answer) {
            Ok(_) => local_sdp(stack_local_description(&self.pc)),
            Err(e) => Err(PeerError::Stack(e)),
        }
    }

    /// Supply one local `host` candidate for the UDP socket bound at that IP
    /// address and port.
    ///
    /// The sans-I/O stack does not gather candidates itself, so the driver
    /// feeds the address of the socket it owns. Returns the candidate line, so
    /// the driver can trickle it to a remote peer that expects candidates out
    /// of band.
    pub fn add_local_host_candidate(&mut self, ip: &str, port: u16) -> (r: Result<
        String,
        PeerError,
    >)
        ensures
            labels_kept(old(self).labels(), final(self).labels()),
            final(self).continues(*old(self)),
            match host_trickled("udp"@, ip@, port, 1) {
                Err(e) => final(self).made_since(*old(self)).len() == 0 && r == Err::<
                    String,
                    PeerError,
                >(PeerError::Stack(e)),
                Ok(local) => {
                    &&& final(self).made_since(*old(self)).len() == 1
                    &&& final(self).made_since(*old(self))[0] matches StackCall::AddLocalCandidate {
                        candidate,
                        reply,
                    }
                    &&& candidate == local.candidate
                    &&& match reply {
                        Ok(_) => text_result(r) == Ok::<Seq<char>, PeerError>(local.candidate),
                        Err(e) => r == Err::<String, PeerError>(PeerError::Stack(e)),
                    }
                },
            },
    {
        let host: RTCIceCandidate = match host_candidate("udp", ip, port, 1) {
            Ok(host) => host,
            Err(e) => {
                return Err(PeerError::Stack(e));
            },
        };
        let line: String = match trickle(&host) {
            Ok(local) => local.candidate,
            Err(e) => {
                return Err(PeerError::Stack(e));
            },
        };
        match stack_add_local_candidate(&mut self.pc, line.clone()) {
            Ok(_) => Ok(line),
            Err(e) => Err(PeerError::Stack(e)),
        }
    }

    /// Add an ICE candidate received from the remote peer. A line whose priority
    /// cannot be told is refused.
    pub fn add_remote_candidate(&mut self, candidate: String) -> (r: Result<(), PeerError>)
        ensures
            labels_kept(old(self).labels(), final(self).labels()),
            if line_has_priority(candidate@) {
                &&& final(self).continues(*old(self))
                &&& final(self).made_since(*old(self)).len() == 1
                &&& final(self).made_since(*old(self))[0] matches StackCall::AddRemoteCandidate {
                    candidate: line,
                    reply,
                }
                &&& line == candidate@
                &&& r == stack_outcome(reply)
            } else {
                *final(self) == *old(self) && r == Err::<(), PeerError>(PeerError::NoPriority)
            },
    {
        if !line_ranks(candidate.as_str()) {
            return Err(PeerError::NoPriority);
        }
        outcome(stack_add_remote_candidate(&mut self.pc, candidate))
    }

    /// Notify the peer that time has advanced so its internal timers
    /// (retransmits, keep-alives) can fire. Says whether it was notified: it is
    /// not where `now` is so late that no timer can be set.
    pub fn handle_timeout(&mut self, now: Instant) -> (r: bool)
        ensures
            labels_kept(old(self).labels(), final(self).labels()),
            r == is_timely(now),
            r ==> final(self).calls() == old(self).calls().push(StackCall::HandleTimeout { now }),
            !r ==> *final(self) == *old(self),
    {
        match add_seconds(now, TIMER_SECS) {
            Some(_) => {
                stack_handle_timeout(&mut self.pc, now);
                true
            },
            None => false,
        }
    }

    /// A polled event, with the label of the channel that it opens, if it opens one
    /// that is known.
    pub fn noticed(&mut self, event: StackEvent) -> (r: (StackEvent, Option<String>))
        ensures
            *final(self) == *old(self),
            noticed_view(r) == (
                event,
                match event {
                    StackEvent::ChannelOpened(id) => if old(self).channels().contains_key(id) {
                        Some(old(self).channels()[id])
                    } else {
                        None
                    },
                    _ => None,
                },
            ),
            labelled_right(seq![noticed_view(r)], old(self).labels()),
    {
        match event {
            StackEvent::ChannelOpened(id) => (event, stack_channel_label(&mut self.pc, id)),
            _ => (event, None),
        }
    }

    /// Send a text (UTF-8) message on the given channel.
    pub fn send_text(&mut self, id: usize, message: &str) -> (r: Result<(), PeerError>)
        ensures
            labels_kept(old(self).labels(), final(self).labels()),
            if old(self).channels().contains_key(id) {
                &&& final(self).continues(*old(self))
                &&& final(self).made_since(*old(self)).len() == 1
                &&& final(self).made_since(*old(self))[0] matches StackCall::SendText {
                    id: to,
                    message: sent,
                    reply,
                    ..
                }
                &&& to == id
                &&& sent == message@
                &&& r == stack_outcome(reply)
                &&& final(self).channels() == old(self).channels()
                &&& if r is Ok {
                    charges(
                        old(self).outstanding(),
                        final(self).outstanding(),
                        id,
                        encode_utf8(message@).len(),
                    )
                } else {
                    final(self).outstanding() == old(self).outstanding()
                }
            } else {
                *final(self) == *old(self) && r == Err::<(), PeerError>(PeerError::NoChannel(id))
            },
    {
        send_outcome(id, stack_send_text(&mut self.pc, id, current_instant(), message))
    }

    /// Send a binary message on the given channel.
    pub fn send_binary(&mut self, id: usize, data: &[u8]) -> (r: Result<(), PeerError>)
        ensures
            labels_kept(old(self).labels(), final(self).labels()),
            if old(self).channels().contains_key(id) {
                &&& final(self).continues(*old(self))
                &&& final(self).made_since(*old(self)).len() == 1
                &&& final(self).made_since(*old(self))[0] matches StackCall::SendBinary {
                    id: to,
                    data: sent,
                    reply,
                    ..
                }
                &&& to == id
                &&& sent == data@
                &&& r == stack_outcome(reply)
                &&& final(self).channels() == old(self).channels()
                &&& if r is Ok {
                    charges(old(self).outstanding(), final(self).outstanding(), id, data@.len())
                } else {
                    final(self).outstanding() == old(self).outstanding()
                }
            } else {
                *final(self) == *old(self) && r == Err::<(), PeerError>(PeerError::NoChannel(id))
            },
    {
        send_outcome(id, stack_send_binary(&mut self.pc, id, current_instant(), data))
    }

    /// Close a single data channel, sending its SCTP stream reset to the peer.
    pub fn close_data_channel(&mut self, id: usize)
        ensures
            labels_kept(old(self).labels(), final(self).labels()),
            if old(self).channels().contains_key(id) {
                final(self).calls() == old(self).calls().push(StackCall::CloseChannel { id })
            } else {
                *final(self) == *old(self)
            },
    {
        stack_close_channel(&mut self.pc, id)
    }

    /// Bytes handed to the channel's sends that SCTP has not yet released:
    /// zero once everything queued has reached the wire (or been abandoned).
    pub fn channel_outstanding_bytes(&mut self, id: usize) -> (r: usize)
        ensures
            *final(self) == *old(self),
            r == (if old(self).channels().contains_key(id) {
                old(self).outstanding()[id]
            } else {
                0
            }),
    {
        match stack_outstanding_bytes(&mut self.pc, id) {
            Some(bytes) => bytes,
            None => 0,
        }
    }
}

/// Whether every label that was found is the one that its channel was given.
pub open spec fn labelled_right(
    noticed: Seq<(StackEvent, Option<Seq<char>>)>,
    labels: Map<usize, Seq<char>>,
) -> bool {
    forall|i: int|
        0 <= i < noticed.len() ==> (#[trigger] noticed[i] matches (
            StackEvent::ChannelOpened(id),
            Some(label),
        ) ==> labels.contains_key(id) && labels[id] == label)
}

/// No event tells of a message.
proof fn lemma_events_tell_no_message(noticed: Seq<(StackEvent, Option<Seq<char>>)>)
    ensures
        forall|i: int|
            0 <= i < events_tell(noticed).len() ==> !(#[trigger] events_tell(
                noticed,
            )[i] is Message),
    decreases noticed.len(),
{
    if noticed.len() > 0 {
        lemma_events_tell_no_message(noticed.drop_last());
    }
}

/// Messages tell of messages only.
proof fn lemma_messages_tell_messages(messages: Seq<StackMessageView>)
    ensures
        forall|i: int|
            0 <= i < messages_tell(messages).len() ==> #[trigger] messages_tell(
                messages,
            )[i] is Message,
    decreases messages.len(),
{
    if messages.len() > 0 {
        lemma_messages_tell_messages(messages.drop_last());
    }
}

/// A drained list is ordered: what became of the connection and its channels
/// stands before the messages.
pub proof fn messages_follow_events(
    noticed: Seq<(StackEvent, Option<Seq<char>>)>,
    messages: Seq<StackMessageView>,
)
    ensures
        forall|i: int, j: int|
            0 <= i < j < drain_tells(noticed, messages).len() && (#[trigger] drain_tells(
                noticed,
                messages,
            )[i]) is Message ==> (#[trigger] drain_tells(noticed, messages)[j]) is Message,
{
    lemma_events_tell_no_message(noticed);
    lemma_messages_tell_messages(messages);
    let first = events_tell(noticed).len();
    assert forall|i: int|
        0 <= i < drain_tells(noticed, messages).len() implies (#[trigger] drain_tells(
        noticed,
        messages,
    )[i] is Message) == (i >= first) by {
        if i < first {
            assert(drain_tells(noticed, messages)[i] == events_tell(noticed)[i]);
        } else {
            assert(drain_tells(noticed, messages)[i] == messages_tell(messages)[i - first]);
        }
    }
}

/// Every message that is polled is told exactly once, in the order in which it was
/// polled, with its channel, its kind and its payload as they came.
pub proof fn no_message_is_lost(
    messages: Seq<StackMessageView>,
    at: int,
    id: usize,
    text: bool,
    data: Seq<u8>,
)
    requires
        0 <= at < messages.len(),
        messages[at] == (StackMessageView::Channel { id, text, data }),
    ensures
        messages_tell(messages) == messages_tell(messages.take(at)).push(
            PeerEventView::Message { id, text, data },
        ) + messages_tell(messages.skip(at + 1)),
{
    assert(messages.take(at + 1).drop_last() =~= messages.take(at));
    assert(messages =~= messages.take(at + 1) + messages.skip(at + 1));
    lemma_messages_tell_adds(messages.take(at + 1), messages.skip(at + 1));
}

/// Every opening that is polled is told exactly once, in its place, and so is
/// every other event that tells anything.
pub proof fn no_event_is_lost(
    noticed: Seq<(StackEvent, Option<Seq<char>>)>,
    at: int,
    event: PeerEventView,
)
    requires
        0 <= at < noticed.len(),
        noticed_tells(noticed[at]) == Some(event),
    ensures
        events_tell(noticed) == events_tell(noticed.take(at)).push(event) + events_tell(
            noticed.skip(at + 1),
        ),
{
    assert(noticed.take(at + 1).drop_last() =~= noticed.take(at));
    assert(noticed =~= noticed.take(at + 1) + noticed.skip(at + 1));
    lemma_events_tell_adds(noticed.take(at + 1), noticed.skip(at + 1));
}

/// What was drained is not told again: a drain that follows another tells what was
/// polled since, and nothing where nothing was.
pub proof fn drains_tell_once(
    noticed: Seq<(StackEvent, Option<Seq<char>>)>,
    later: Seq<(StackEvent, Option<Seq<char>>)>,
    messages: Seq<StackMessageView>,
    later_messages: Seq<StackMessageView>,
)
    ensures
        events_tell(noticed + later) == events_tell(noticed) + events_tell(later),
        messages_tell(messages + later_messages) == messages_tell(messages) + messages_tell(
            later_messages,
        ),
        later.len() == 0 && later_messages.len() == 0 ==> drain_tells(
            later,
            later_messages,
        ).len() == 0,
{
    lemma_events_tell_adds(noticed, later);
    lemma_messages_tell_adds(messages, later_messages);
}

/// What a list of events tells is what its parts tell, one after the other.
proof fn lemma_events_tell_adds(
    first: Seq<(StackEvent, Option<Seq<char>>)>,
    second: Seq<(StackEvent, Option<Seq<char>>)>,
)
    ensures
        events_tell(first + second) == events_tell(first) + events_tell(second),
    decreases second.len(),
{
    if second.len() == 0 {
        assert(first + second =~= first);
        assert(events_tell(first) + events_tell(second) =~= events_tell(first));
    } else {
        assert((first + second).drop_last() =~= first + second.drop_last());
        lemma_events_tell_adds(first, second.drop_last());
        assert(events_tell(first + second) =~= events_tell(first) + events_tell(second));
    }
}

/// What a list of messages tells is what its parts tell, one after the other.
proof fn lemma_messages_tell_adds(first: Seq<StackMessageView>, second: Seq<StackMessageView>)
    ensures
        messages_tell(first + second) == messages_tell(first) + messages_tell(second),
    decreases second.len(),
{
    if second.len() == 0 {
        assert(first + second =~= first);
        assert(messages_tell(first) + messages_tell(second) =~= messages_tell(first));
    } else {
        assert((first + second).drop_last() =~= first + second.drop_last());
        lemma_messages_tell_adds(first, second.drop_last());
        assert(messages_tell(first + second) =~= messages_tell(first) + messages_tell(second));
    }
}

/// A channel opens under the label that it was created with, however long after:
/// `created` are the labels then, and `drained` those when `noticed` were polled.
/// Where the channel is gone by then the label is empty.
pub proof fn channels_open_under_their_label(
    created: Map<usize, Seq<char>>,
    drained: Map<usize, Seq<char>>,
    noticed: Seq<(StackEvent, Option<Seq<char>>)>,
    id: usize,
    at: int,
)
    requires
        created.contains_key(id),
        labels_kept(created, drained),
        labelled_right(noticed, drained),
        0 <= at < events_tell(noticed).len(),
        events_tell(noticed)[at] is ChannelOpen,
        events_tell(noticed)[at]->ChannelOpen_id == id,
    ensures
        events_tell(noticed)[at]->label == created[id] || events_tell(noticed)[at]->label.len()
            == 0,
    decreases noticed.len(),
{
    let before = noticed.drop_last();
    assert forall|i: int| 0 <= i < before.len() implies (#[trigger] before[i] matches (
        StackEvent::ChannelOpened(id),
        Some(label),
    ) ==> drained.contains_key(id) && drained[id] == label) by {
        assert(noticed[i] == before[i]);
    }
    if at < events_tell(before).len() {
        channels_open_under_their_label(created, drained, before, id, at);
    } else {
        assert(noticed[noticed.len() - 1] == noticed.last());
    }
}

/// An opening is told under the very label that was found for its channel; only
/// where none was found, since the channel is gone, is the label empty.
pub proof fn openings_bear_their_label(id: usize, label: Seq<char>)
    ensures
        noticed_tells((StackEvent::ChannelOpened(id), Some(label))) == Some(
            PeerEventView::ChannelOpen { id, label },
        ),
        noticed_tells((StackEvent::ChannelOpened(id), None)) == Some(
            PeerEventView::ChannelOpen { id, label: Seq::empty() },
        ),
{
}

/// A change of the connection is told by its name, whatever label comes with it: a
/// connection that is interrupted counts as closed, and what is neither a change of
/// the connection nor of a channel is not told.
pub proof fn changes_are_told_by_name(id: usize, label: Option<Seq<char>>)
    ensures
        noticed_tells((StackEvent::Connected, label)) == Some(PeerEventView::Connected),
        noticed_tells((StackEvent::Failed, label)) == Some(PeerEventView::Failed),
        noticed_tells((StackEvent::Closed, label)) == Some(PeerEventView::Closed),
        noticed_tells((StackEvent::Disconnected, label)) == Some(PeerEventView::Closed),
        noticed_tells((StackEvent::ChannelClosed(id), label)) == Some(
            PeerEventView::ChannelClosed { id },
        ),
        noticed_tells((StackEvent::Other, label)) is None,
        event_tells(StackEvent::ChannelOpened(id)) is None,
{
}

/// A drain makes nothing up: what tells nothing adds nothing, wherever it stands.
pub proof fn nothing_is_made_up(
    noticed: Seq<(StackEvent, Option<Seq<char>>)>,
    messages: Seq<StackMessageView>,
    at: int,
)
    ensures
        0 <= at < noticed.len() && noticed[at].0 == StackEvent::Other ==> events_tell(noticed)
            == events_tell(noticed.take(at)) + events_tell(noticed.skip(at + 1)),
        0 <= at < messages.len() && messages[at] is Other ==> messages_tell(messages)
            == messages_tell(messages.take(at)) + messages_tell(messages.skip(at + 1)),
        events_tell(noticed).len() <= noticed.len(),
        messages_tell(messages).len() <= messages.len(),
{
    lemma_tells_no_more(noticed, messages);
    if 0 <= at < noticed.len() && noticed[at].0 == StackEvent::Other {
        assert(noticed.take(at + 1).drop_last() =~= noticed.take(at));
        assert(noticed =~= noticed.take(at + 1) + noticed.skip(at + 1));
        lemma_events_tell_adds(noticed.take(at + 1), noticed.skip(at + 1));
    }
    if 0 <= at < messages.len() && messages[at] is Other {
        assert(messages.take(at + 1).drop_last() =~= messages.take(at));
        assert(messages =~= messages.take(at + 1) + messages.skip(at + 1));
        lemma_messages_tell_adds(messages.take(at + 1), messages.skip(at + 1));
    }
}

/// Each event and each message tells one thing at most.
proof fn lemma_tells_no_more(
    noticed: Seq<(StackEvent, Option<Seq<char>>)>,
    messages: Seq<StackMessageView>,
)
    ensures
        events_tell(noticed).len() <= noticed.len(),
        messages_tell(messages).len() <= messages.len(),
    decreases noticed.len() + messages.len(),
{
    if noticed.len() > 0 {
        lemma_tells_no_more(noticed.drop_last(), messages);
    } else if messages.len() > 0 {
        lemma_tells_no_more(noticed, messages.drop_last());
    }
}

/// A drain tells of its events as if there were no messages, and then of its messages
/// as if there were no events.
pub proof fn events_and_messages_are_told_apart(
    noticed: Seq<(StackEvent, Option<Seq<char>>)>,
    messages: Seq<StackMessageView>,
)
    ensures
        drain_tells(noticed, Seq::empty()) == events_tell(noticed),
        drain_tells(Seq::empty(), messages) == messages_tell(messages),
        drain_tells(noticed, messages) == drain_tells(noticed, Seq::empty()) + drain_tells(
            Seq::empty(),
            messages,
        ),
{
    assert(drain_tells(noticed, Seq::empty()) =~= events_tell(noticed));
    assert(drain_tells(Seq::empty(), messages) =~= messages_tell(messages));
}

/// What is drained is seen as it is: every event, label, kind and payload, one for
/// one.
pub proof fn drained_values_are_seen_as_they_are(
    events: Seq<PeerEvent>,
    noticed: Seq<(StackEvent, Option<String>)>,
    messages: Seq<StackMessage>,
    i: int,
)
    ensures
        event_views(events).len() == events.len(),
        0 <= i < events.len() ==> event_views(events)[i] == events[i]@ && match events[i] {
            PeerEvent::Connected => events[i]@ is Connected,
            PeerEvent::Failed => events[i]@ is Failed,
            PeerEvent::Closed => events[i]@ is Closed,
            PeerEvent::ChannelOpen { id, label } => events[i]@ == (PeerEventView::ChannelOpen {
                id,
                label: label@,
            }),
            PeerEvent::ChannelClosed { id } => events[i]@ == (PeerEventView::ChannelClosed { id }),
            PeerEvent::Message { id, text, data } => events[i]@ == (PeerEventView::Message {
                id,
                text,
                data: data@,
            }),
        },
        noticed_views(noticed).len() == noticed.len(),
        0 <= i < noticed.len() ==> noticed_views(noticed)[i].0 == noticed[i].0 && match (
            noticed[i].1,
            noticed_views(noticed)[i].1,
        ) {
            (Some(label), Some(seen)) => label@ == seen,
            (None, None) => true,
            _ => false,
        },
        message_views(messages).len() == messages.len(),
        0 <= i < messages.len() ==> match messages[i] {
            StackMessage::Channel { id, text, data } => message_views(messages)[i] == (
            StackMessageView::Channel { id, text, data: data@ }),
            StackMessage::Other => message_views(messages)[i] is Other,
        },
{
}

/// An offer is made, set as the local description, and its text handed out: that of
/// the local description after it was set. Where one of the steps fails, its error
/// is what the offer comes to and nothing follows it.
pub proof fn offers_are_made_and_set(
    made: Seq<StackCall>,
    local: Option<RTCSessionDescription>,
    r: Result<Seq<char>, PeerError>,
)
    requires
        offers(made, local, r),
    ensures
        made.len() > 0 && made[0] is CreateOffer,
        made[0]->CreateOffer_reply matches Err(e) ==> made.len() == 1 && r == Err::<
            Seq<char>,
            PeerError,
        >(PeerError::Stack(e)),
        made[0]->CreateOffer_reply matches Ok(offer) ==> made.len() == 2
            && made[1] is SetLocalDescription && made[1]->SetLocalDescription_description == offer
            && (made[1]->SetLocalDescription_reply matches Err(e) ==> r == Err::<
            Seq<char>,
            PeerError,
        >(PeerError::Stack(e))),
        r is Ok ==> made.len() == 2 && made[1]->SetLocalDescription_reply is Ok && local is Some
            && r->Ok_0 == description_sdp(local->0),
        made.len() == 2 && made[1]->SetLocalDescription_reply is Ok && local is Some ==> r is Ok,
{
    if made[0]->CreateOffer_reply is Ok {
        assert(made.skip(1)[0] == made[1]);
    }
}

/// An answer is made, set as the local description, and its text handed out, in the
/// same way.
pub proof fn answers_are_made_and_set(
    made: Seq<StackCall>,
    local: Option<RTCSessionDescription>,
    r: Result<Seq<char>, PeerError>,
)
    requires
        answers(made, local, r),
    ensures
        made.len() > 0 && made[0] is CreateAnswer,
        made[0]->CreateAnswer_reply matches Err(e) ==> made.len() == 1 && r == Err::<
            Seq<char>,
            PeerError,
        >(PeerError::Stack(e)),
        made[0]->CreateAnswer_reply matches Ok(answer) ==> made.len() == 2
            && made[1] is SetLocalDescription && made[1]->SetLocalDescription_description == answer
            && (made[1]->SetLocalDescription_reply matches Err(e) ==> r == Err::<
            Seq<char>,
            PeerError,
        >(PeerError::Stack(e))),
        r is Ok ==> made.len() == 2 && made[1]->SetLocalDescription_reply is Ok && local is Some
            && r->Ok_0 == description_sdp(local->0),
        made.len() == 2 && made[1]->SetLocalDescription_reply is Ok && local is Some ==> r is Ok,
{
    if made[0]->CreateAnswer_reply is Ok {
        assert(made.skip(1)[0] == made[1]);
    }
}

/// A remote description that parses, and whose priorities can be told, is handed to
/// the stack as it came and in its kind, and the stack decides; any other is refused
/// and reaches nothing.
pub proof fn remote_descriptions_are_handed_on(
    made: Seq<StackCall>,
    kind: SdpKind,
    sdp: Seq<char>,
    r: Result<(), PeerError>,
)
    requires
        applies_remote(made, kind, sdp, r),
    ensures
        made.len() == 1 <==> sdp_error(sdp) is None && candidates_have_priority(sdp),
        made.len() <= 1,
        made.len() == 1 ==> made[0] is SetRemoteDescription && description_kind(
            made[0]->SetRemoteDescription_description,
        ) == Some(kind) && description_sdp(made[0]->SetRemoteDescription_description) == sdp && (
        r is Ok <==> made[0]->SetRemoteDescription_reply is Ok) && (
        made[0]->SetRemoteDescription_reply matches Err(e) ==> r == Err::<(), PeerError>(
            PeerError::Stack(e),
        )),
        made.len() == 0 ==> r is Err,
        sdp_error(sdp) matches Some(e) ==> r == Err::<(), PeerError>(PeerError::Stack(e)),
        sdp_error(sdp) is None && !candidates_have_priority(sdp) ==> r == Err::<(), PeerError>(
            PeerError::NoPriority,
        ),
{
}

/// The stack's reply stands: its value, or its error as the stack's.
pub proof fn replies_stand(
    reply: Result<usize, rtc::shared::error::Error>,
    sent: Option<Result<(), rtc::shared::error::Error>>,
    id: usize,
)
    ensures
        reply matches Ok(value) ==> stack_outcome(reply) == Ok::<usize, PeerError>(value),
        reply matches Err(e) ==> stack_outcome(reply) == Err::<usize, PeerError>(
            PeerError::Stack(e),
        ),
        send_comes_to(id, None) == Err::<(), PeerError>(PeerError::NoChannel(id)),
        send_comes_to(id, Some(Ok(()))) == Ok::<(), PeerError>(()),
        sent matches Some(Err(e)) ==> send_comes_to(id, sent) == Err::<(), PeerError>(
            PeerError::Stack(e),
        ),
{
}

/// A send is charged to its channel in full, and to no other.
pub proof fn sends_are_charged_in_full(
    before: Map<usize, nat>,
    after: Map<usize, nat>,
    id: usize,
    other: usize,
    bytes: nat,
)
    requires
        charges(before, after, id, bytes),
        before[id] + bytes <= usize::MAX,
    ensures
        after.contains_key(id),
        after[id] == before[id] + bytes,
        other != id ==> after.contains_key(other) == before.contains_key(other) && (
        before.contains_key(other) ==> after[other] == before[other]),
{
}

/// A channel that was given a label keeps it, over any number of calls.
pub proof fn labels_last(
    first: Map<usize, Seq<char>>,
    second: Map<usize, Seq<char>>,
    third: Map<usize, Seq<char>>,
    id: usize,
)
    requires
        labels_kept(first, second),
        labels_kept(second, third),
        first.contains_key(id),
    ensures
        third.contains_key(id),
        third[id] == first[id],
        labels_kept(first, third),
{
}

/// An error says what is wrong, and which channel is missing.
pub proof fn errors_say_what_is_wrong(id: usize, other: usize, e: rtc::shared::error::Error)
    ensures
        peer_error_text(PeerError::Stack(e)) == error_text(e),
        peer_error_text(PeerError::NoChannel(id)) == "no data channel with id "@ + decimal(
            id as nat,
        ),
        peer_error_text(PeerError::NoChannel(id)) == peer_error_text(PeerError::NoChannel(other))
            ==> id == other,
        peer_error_text(PeerError::NoLocalDescription) == "no local description available"@,
{
    let head = "no data channel with id "@;
    let (one, two) = (decimal(id as nat), decimal(other as nat));
    if head + one == head + two {
        assert((head + one).skip(head.len() as int) =~= one);
        assert((head + two).skip(head.len() as int) =~= two);
        lemma_decimal_injective(id as nat, other as nat);
    }
}

/// The calls since a point are those that stand behind the earlier ones, and a peer
/// that continues another lost none of the other's.
pub proof fn calls_are_kept(before: SansIoPeer, after: SansIoPeer)
    requires
        after.continues(before),
    ensures
        before.calls().len() <= after.calls().len(),
        after.calls().take(before.calls().len() as int) == before.calls(),
        after.made_since(before) == after.calls().subrange(
            before.calls().len() as int,
            after.calls().len() as int,
        ),
{
    assert(after.calls().take(before.calls().len() as int) =~= before.calls());
    assert(after.made_since(before) =~= after.calls().subrange(
        before.calls().len() as int,
        after.calls().len() as int,
    ));
}

/// A result is seen with the text that it brings.
pub proof fn results_are_seen_with_their_text(r: Result<String, PeerError>)
    ensures
        r matches Ok(s) ==> text_result(r) == Ok::<Seq<char>, PeerError>(s@),
        r matches Err(e) ==> text_result(r) == Err::<Seq<char>, PeerError>(e),
{
}

/// An instant is timely where there is one a minute later.
pub proof fn timers_reach_a_minute_ahead(at: Instant)
    ensures
        is_timely(at) <==> instant_later(at, 60) is Some,
{
}

/// What is said of a peer is said of its connection: the calls made on it, the channels
/// that it knows and knew, the bytes outstanding and the local description.
pub proof fn peers_stand_for_their_connection(peer: SansIoPeer)
    ensures
        peer.calls() == calls(peer.pc),
        peer.channels() == channel_labels(peer.pc),
        peer.labels() == given_labels(peer.pc),
        peer.outstanding() == outstanding(peer.pc),
        peer.description() == local_description(peer.pc),
{
}

} // verus!
