//! The lifecycle of a `peer-connection` resource.
//!
//! A connection is built by a task of its own, while the resource is in use
//! already: a method waits for the build where it needs the connection. Here
//! stands what each method and each callback of the stack does to the resource
//! and what is to be done next; a host performs it.

use std::collections::VecDeque;

use rtc::peer_connection::configuration::{
    RTCConfiguration, RTCConfigurationBuilder, RTCIceServer, RTCIceTransportPolicy,
};
use rtc::peer_connection::sdp::RTCSessionDescription;
use rtc::peer_connection::transport::RTCIceCandidate;
use vstd::prelude::*;

use crate::candidate::{
    candidate_has_priority, candidate_ranks, trickle, trickled, LocalCandidate, LocalCandidateView,
};
use crate::context::{
    clone_servers, clone_texts, server_views, Duration, IceConfigView, IceServerView,
    WebrtcIceConfig, WebrtcIceServer,
};
use crate::description::{
    describe, description_kind, description_sdp, error_text, sdp_error, stack_error_text, SdpKind,
};
use crate::text::text;

verus! {

/// How long, in seconds, a close keeps the underlying connection alive after it
/// is observed locally, so messages already handed to the transport flush to
/// the wire before teardown discards the send queue.
pub const CLOSE_DRAIN_SECS: u64 = 1;

/// Size of the dedicated reactor pool every peer-connection driver runs on:
/// drivers never share the embedder's runtime, so one that stalls costs a pool
/// thread, not the host.
pub const DRIVER_REACTOR_POOL_SIZE: usize = 2;

/// Why an operation on a connection failed. `T` is the type of its texts.
#[derive(Debug)]
pub enum WebrtcError<T> {
    /// The connection is over.
    Closed,
    /// The connection was not reached in time.
    TimedOut,
    /// The signaling that was handed in is not valid.
    InvalidSignaling(T),
    /// Anything else.
    Other(T),
}

impl View for WebrtcError<String> {
    type V = WebrtcError<Seq<char>>;

    open spec fn view(&self) -> WebrtcError<Seq<char>> {
        match self {
            WebrtcError::Closed => WebrtcError::Closed,
            WebrtcError::TimedOut => WebrtcError::TimedOut,
            WebrtcError::InvalidSignaling(why) => WebrtcError::InvalidSignaling(why@),
            WebrtcError::Other(why) => WebrtcError::Other(why@),
        }
    }
}

impl Clone for WebrtcError<String> {
    fn clone(&self) -> (r: Self)
        ensures
            r@ == self@,
    {
        match self {
            WebrtcError::Closed => WebrtcError::Closed,
            WebrtcError::TimedOut => WebrtcError::TimedOut,
            WebrtcError::InvalidSignaling(why) => WebrtcError::InvalidSignaling(why.clone()),
            WebrtcError::Other(why) => WebrtcError::Other(why.clone()),
        }
    }
}

/// The connection lifecycle as observed by the host, backing
/// `peer-connection.state-changes`. `Failed` and `Closed` are terminal.
#[derive(Clone, Copy, Debug, PartialEq, Eq, Structural)]
pub enum ConnectionPhase {
    /// Nothing has happened yet.
    New,
    /// The connection is being established.
    Connecting,
    /// The connection is established.
    Connected,
    /// The connection is interrupted.
    Disconnected,
    /// The connection failed.
    Failed,
    /// The connection is closed.
    Closed,
}

impl ConnectionPhase {
    /// Whether the lifecycle ends here.
    pub open spec fn terminal(self) -> bool {
        self is Failed || self is Closed
    }

    /// The phase after one that is reported: a terminal one stays.
    pub open spec fn then_phase(self, reported: ConnectionPhase) -> ConnectionPhase {
        if self.terminal() {
            self
        } else {
            reported
        }
    }

    /// Whether the lifecycle ends here.
    pub fn is_terminal(self) -> (r: bool)
        ensures
            r == self.terminal(),
    {
        matches!(self, ConnectionPhase::Failed | ConnectionPhase::Closed)
    }

    /// Takes on a reported phase, unless the lifecycle has ended.
    fn set(&mut self, reported: ConnectionPhase)
        ensures
            *final(self) == old(self).then_phase(reported),
    {
        if !self.is_terminal() {
            *self = reported;
        }
    }
}

/// A connection state as the stack reports it.
#[derive(Clone, Copy, Debug, PartialEq, Eq, Structural)]
pub enum TransportState {
    /// None in particular.
    Unspecified,
    /// `new`.
    New,
    /// `connecting`.
    Connecting,
    /// `connected`.
    Connected,
    /// `disconnected`.
    Disconnected,
    /// `failed`.
    Failed,
    /// `closed`.
    Closed,
}

impl TransportState {
    /// The phase that the state stands for.
    pub open spec fn phase(self) -> Option<ConnectionPhase> {
        match self {
            TransportState::Unspecified => None,
            TransportState::New => Some(ConnectionPhase::New),
            TransportState::Connecting => Some(ConnectionPhase::Connecting),
            TransportState::Connected => Some(ConnectionPhase::Connected),
            TransportState::Disconnected => Some(ConnectionPhase::Disconnected),
            TransportState::Failed => Some(ConnectionPhase::Failed),
            TransportState::Closed => Some(ConnectionPhase::Closed),
        }
    }

    /// Whether the connection is over in this state.
    pub open spec fn ends(self) -> bool {
        self is Failed || self is Closed
    }

    /// The phase that the state stands for.
    fn to_phase(self) -> (r: Option<ConnectionPhase>)
        ensures
            r == self.phase(),
    {
        match self {
            TransportState::Unspecified => None,
            TransportState::New => Some(ConnectionPhase::New),
            TransportState::Connecting => Some(ConnectionPhase::Connecting),
            TransportState::Connected => Some(ConnectionPhase::Connected),
            TransportState::Disconnected => Some(ConnectionPhase::Disconnected),
            TransportState::Failed => Some(ConnectionPhase::Failed),
            TransportState::Closed => Some(ConnectionPhase::Closed),
        }
    }
}

/// How far the build of a connection is.
#[derive(Debug)]
pub enum Build<T> {
    /// It is under way.
    Pending,
    /// The connection exists.
    Built,
    /// There will be no connection.
    Failed(WebrtcError<T>),
}

impl View for Build<String> {
    type V = Build<Seq<char>>;

    open spec fn view(&self) -> Build<Seq<char>> {
        match self {
            Build::Pending => Build::Pending,
            Build::Built => Build::Built,
            Build::Failed(e) => Build::Failed(e@),
        }
    }
}

/// A connection resource by its texts.
pub struct Connection {
    /// How far the build is.
    pub build: Build<Seq<char>>,
    /// Whether the resource holds the built connection, to tear it down.
    pub held: bool,
    /// Whether `connected` was reached before the connection was over.
    pub connected: bool,
    /// Whether the connection is terminally over: closed, failed, or never to be.
    pub closed: bool,
    /// Whether it was closed on this side.
    pub shut: bool,
    /// The lifecycle.
    pub phase: ConnectionPhase,
    /// How many channels are being registered.
    pub pending_channels: nat,
    /// Whether ICE candidates are being gathered still.
    pub gathering: bool,
    /// Whether the candidate stream was taken.
    pub candidates_taken: bool,
    /// Whether the stream of incoming channels was taken.
    pub incoming_taken: bool,
    /// Whether the stream of state changes was taken.
    pub state_taken: bool,
    /// How long `wait-connected` waits.
    pub connect_timeout: Duration,
    /// The per-channel inbound buffer bound, in payload bytes.
    pub max_inbound_buffer_bytes: usize,
}

/// What happens to a connection resource.
pub enum Happening {
    /// The connection was built.
    Built,
    /// The build failed.
    BuildFailed(Seq<char>),
    /// The build was given up.
    BuildCancelled,
    /// The stack reports a state.
    State(TransportState),
    /// ICE gathering is complete.
    GatheringComplete,
    /// The resource is closed or dropped.
    Close,
    /// A channel is being registered.
    ChannelBegun,
    /// A channel is registered or was refused.
    ChannelSettled,
    /// The candidate stream is asked for.
    TakeCandidates,
    /// The stream of incoming channels is asked for.
    TakeIncoming,
    /// The stream of state changes is asked for.
    TakeStates,
}

/// The text of a build that was given up.
pub open spec fn cancelled_text() -> Seq<char> {
    "peer connection build was cancelled"@
}

/// The text of a build, or of a channel, that finds no runtime.
pub open spec fn no_runtime_text() -> Seq<char> {
    "peer connection requires a running tokio runtime"@
}

impl Connection {
    /// A fresh resource: with a runtime its build is under way, without one it
    /// has failed for good.
    pub open spec fn fresh(
        connect_timeout: Duration,
        max_inbound_buffer_bytes: usize,
        runtime: bool,
    ) -> Connection {
        Connection {
            build: if runtime {
                Build::Pending
            } else {
                Build::Failed(WebrtcError::Other(no_runtime_text()))
            },
            held: false,
            connected: false,
            closed: !runtime,
            shut: false,
            phase: if runtime {
                ConnectionPhase::New
            } else {
                ConnectionPhase::Failed
            },
            pending_channels: 0,
            gathering: true,
            candidates_taken: false,
            incoming_taken: false,
            state_taken: false,
            connect_timeout,
            max_inbound_buffer_bytes,
        }
    }

    /// What always holds of a resource: a connection is over exactly when its
    /// lifecycle has ended, and only a built connection is held.
    pub open spec fn wf(self) -> bool {
        &&& self.phase.terminal() <==> self.closed
        &&& self.shut ==> self.closed
        &&& self.held ==> self.build is Built
    }

    /// The resource after something happened.
    pub open spec fn step(self, happening: Happening) -> Connection {
        match happening {
            Happening::Built => Connection { build: Build::Built, held: !self.closed, ..self },
            Happening::BuildFailed(why) => Connection {
                build: Build::Failed(WebrtcError::Other(why)),
                phase: self.phase.then_phase(ConnectionPhase::Failed),
                closed: true,
                ..self
            },
            Happening::BuildCancelled => Connection {
                build: Build::Failed(WebrtcError::Other(cancelled_text())),
                ..self
            },
            Happening::State(state) => Connection {
                phase: match state.phase() {
                    Some(phase) => self.phase.then_phase(phase),
                    None => self.phase,
                },
                connected: self.connected || (state is Connected && !self.closed),
                closed: self.closed || state.ends(),
                ..self
            },
            Happening::GatheringComplete => Connection { gathering: false, ..self },
            Happening::Close => Connection {
                phase: self.phase.then_phase(ConnectionPhase::Closed),
                closed: true,
                shut: true,
                held: false,
                ..self
            },
            Happening::ChannelBegun => Connection {
                pending_channels: self.pending_channels + 1,
                ..self
            },
            Happening::ChannelSettled => Connection {
                pending_channels: (self.pending_channels - 1) as nat,
                ..self
            },
            Happening::TakeCandidates => Connection { candidates_taken: true, ..self },
            Happening::TakeIncoming => Connection { incoming_taken: true, ..self },
            Happening::TakeStates => Connection { state_taken: true, ..self },
        }
    }

    /// Whether it can happen: a build ends once, and only what was begun is
    /// settled.
    pub open spec fn can(self, happening: Happening) -> bool {
        match happening {
            Happening::Built | Happening::BuildFailed(_) | Happening::BuildCancelled =>
                self.build is Pending,
            Happening::ChannelSettled => self.pending_channels > 0,
            _ => true,
        }
    }

    /// Whether the built connection is torn down when it happens.
    pub open spec fn tears_down(self, happening: Happening) -> bool {
        match happening {
            Happening::Built => self.closed,
            Happening::Close => self.held,
            _ => false,
        }
    }

    /// The resource after a list of happenings.
    pub open spec fn run(self, happenings: Seq<Happening>) -> Connection
        decreases happenings.len(),
    {
        if happenings.len() == 0 {
            self
        } else {
            self.run(happenings.drop_last()).step(happenings.last())
        }
    }

    /// Whether each of a list of happenings can happen when its turn comes.
    pub open spec fn can_run(self, happenings: Seq<Happening>) -> bool
        decreases happenings.len(),
    {
        happenings.len() == 0 || (self.can_run(happenings.drop_last()) && self.run(
            happenings.drop_last(),
        ).can(happenings.last()))
    }

    /// How often the built connection is torn down in a list of happenings.
    pub open spec fn teardowns(self, happenings: Seq<Happening>) -> nat
        decreases happenings.len(),
    {
        if happenings.len() == 0 {
            0
        } else {
            let before = self.run(happenings.drop_last());
            self.teardowns(happenings.drop_last()) + (if before.tears_down(happenings.last()) {
                1nat
            } else {
                0nat
            })
        }
    }
}

/// How a connection is to be built.
#[derive(Debug)]
pub struct BuildPlan<H> {
    /// How the setting engine is adjusted first.
    pub hook: Option<H>,
    /// The STUN/TURN servers and the transport policy.
    pub configuration: RTCConfiguration,
    /// The UDP socket addresses to bind.
    pub udp_addrs: Vec<String>,
    /// The size of the reactor pool that the driver runs on.
    pub reactor_pool_size: usize,
}

/// A stack's configuration.
#[verifier::external_type_specification]
#[verifier::external_body]
pub struct ExConfiguration(RTCConfiguration);

/// A stack's configuration in the making.
#[verifier::external_type_specification]
#[verifier::external_body]
pub struct ExConfigurationBuilder(RTCConfigurationBuilder);

/// The servers of a configuration in the making.
pub uninterp spec fn drafted_servers(builder: RTCConfigurationBuilder) -> Seq<IceServerView>;

/// Whether a configuration in the making allows relay candidates only.
pub uninterp spec fn drafted_relay_only(builder: RTCConfigurationBuilder) -> bool;

/// The servers of a configuration.
pub uninterp spec fn configured_servers(configuration: RTCConfiguration) -> Seq<IceServerView>;

/// Whether a configuration allows relay candidates only.
pub uninterp spec fn configured_relay_only(configuration: RTCConfiguration) -> bool;

/// `RTCConfigurationBuilder::new`: no servers, and no policy that allows relay
/// candidates only.
#[verifier::external_body]
fn draft_configuration() -> (r: RTCConfigurationBuilder)
    ensures
        drafted_servers(r).len() == 0,
        !drafted_relay_only(r),
{
    RTCConfigurationBuilder::new()
}

/// `RTCConfigurationBuilder::with_ice_servers`: the servers are these, in their
/// order, and the policy stays.
#[verifier::external_body]
fn draft_servers(builder: RTCConfigurationBuilder, servers: Vec<WebrtcIceServer>) -> (r:
    RTCConfigurationBuilder)
    ensures
        drafted_servers(r) == server_views(servers@),
        drafted_relay_only(r) == drafted_relay_only(builder),
{
    builder.with_ice_servers(
        servers.into_iter().map(|server| RTCIceServer {
            urls: server.urls,
            username: server.username,
            credential: server.credential,
        }).collect(),
    )
}

/// `RTCConfigurationBuilder::with_ice_transport_policy`, with the policy
/// `Relay`: relay candidates only are allowed, and the servers stay.
#[verifier::external_body]
fn draft_relay_only(builder: RTCConfigurationBuilder) -> (r: RTCConfigurationBuilder)
    ensures
        drafted_servers(r) == drafted_servers(builder),
        drafted_relay_only(r),
{
    builder.with_ice_transport_policy(RTCIceTransportPolicy::Relay)
}

/// `RTCConfigurationBuilder::build`: the configuration as it was drafted.
#[verifier::external_body]
fn build_configuration(builder: RTCConfigurationBuilder) -> (r: RTCConfiguration)
    ensures
        configured_servers(r) == drafted_servers(builder),
        configured_relay_only(r) == drafted_relay_only(builder),
{
    builder.build()
}

/// The addresses to bind: those that the configuration names, or else an
/// ephemeral port on IPv4 loopback.
pub open spec fn bound_addrs(ice: IceConfigView) -> Seq<Seq<char>> {
    if ice.udp_addrs.len() == 0 {
        seq!["127.0.0.1:0"@]
    } else {
        ice.udp_addrs
    }
}

/// How a connection is to be built from a configuration of its network.
pub fn new_peer_connection_with<H>(hook: Option<H>, ice: WebrtcIceConfig) -> (r: BuildPlan<H>)
    ensures
        r.hook == hook,
        configured_servers(r.configuration) == ice@.ice_servers,
        configured_relay_only(r.configuration) == ice@.relay_only,
        r.udp_addrs.deep_view() == bound_addrs(ice@),
        r.reactor_pool_size == DRIVER_REACTOR_POOL_SIZE,
{
    let udp_addrs: Vec<String> = if ice.udp_addrs.len() == 0 {
        let mut addrs: Vec<String> = Vec::new();
        addrs.push(text("127.0.0.1:0"));
        assert(addrs.deep_view() =~= seq!["127.0.0.1:0"@]);
        addrs
    } else {
        clone_texts(&ice.udp_addrs)
    };
    let mut config: RTCConfigurationBuilder = draft_configuration();
    if ice.ice_servers.len() > 0 {
        config = draft_servers(config, clone_servers(&ice.ice_servers));
    }
    assert(drafted_servers(config) =~= ice@.ice_servers);
    if ice.relay_only {
        config = draft_relay_only(config);
    }
    BuildPlan {
        hook,
        configuration: build_configuration(config),
        udp_addrs,
        reactor_pool_size: DRIVER_REACTOR_POOL_SIZE,
    }
}

/// What becomes of a built connection.
#[derive(Clone, Copy, Debug, PartialEq, Eq, Structural)]
pub enum Teardown {
    /// Nothing.
    Nothing,
    /// It is torn down after that time, so that what was handed to the transport
    /// still reaches the wire.
    After(Duration),
    /// It is torn down at once.
    Now,
}

/// Where connections are torn down.
#[derive(Clone, Copy, Debug, PartialEq, Eq, Structural)]
pub enum CloseRun {
    /// Nowhere: there are none.
    Nowhere,
    /// On the running runtime.
    OnRuntime,
    /// On a thread of its own, with a small runtime of its own.
    OnOwnThread,
}

/// Where that many connections are torn down.
pub fn close_peer_connections(connections: usize, runtime: bool) -> (r: CloseRun)
    ensures
        r == (if connections == 0 {
            CloseRun::Nowhere
        } else if runtime {
            CloseRun::OnRuntime
        } else {
            CloseRun::OnOwnThread
        }),
{
    if connections == 0 {
        CloseRun::Nowhere
    } else if runtime {
        CloseRun::OnRuntime
    } else {
        CloseRun::OnOwnThread
    }
}

/// How far a method call is.
#[derive(Clone, Copy, Debug, PartialEq, Eq, Structural)]
pub enum Stage {
    /// It was just made.
    Called,
    /// It has waited.
    Waited,
}

/// What a method call does next.
#[derive(Debug)]
pub enum Next<W, T> {
    /// It waits for the build, or for a channel to be registered.
    Wait,
    /// It fails.
    Fail(WebrtcError<T>),
    /// It goes on to the connection.
    Go(W),
}

impl<W> View for Next<W, String> {
    type V = Next<W, Seq<char>>;

    open spec fn view(&self) -> Next<W, Seq<char>> {
        match self {
            Next::Wait => Next::Wait,
            Next::Fail(e) => Next::Fail(e@),
            Next::Go(work) => Next::Go(*work),
        }
    }
}

/// Why `wait-connected` looks at the connection.
#[derive(Clone, Copy, Debug, PartialEq, Eq, Structural)]
pub enum Wake {
    /// It was just called.
    Called,
    /// The state changed.
    Changed,
    /// The time that it waits is over.
    Deadline,
}

impl Wake {
    /// How far the call is by then.
    pub open spec fn stage(self) -> Stage {
        if self is Called {
            Stage::Called
        } else {
            Stage::Waited
        }
    }
}

impl Connection {
    /// Whether there will be no connection because its build failed.
    pub open spec fn never_was(self) -> bool {
        self.build is Failed && self.phase is Failed
    }

    /// What a method that needs the connection does next. On a connection that
    /// is over it fails as closed at once, whether it was just called or has
    /// waited; only a call that waited for a build that failed fails as the
    /// build did. On one that is not over it waits for the build.
    pub open spec fn next(self, stage: Stage) -> Next<(), Seq<char>> {
        if self.closed && (stage is Called || !self.never_was()) {
            Next::Fail(WebrtcError::Closed)
        } else {
            match self.build {
                Build::Pending => Next::Wait,
                Build::Failed(e) => Next::Fail(e),
                Build::Built => Next::Go(()),
            }
        }
    }

    /// What a method that produces a description does next: it also waits for
    /// the channels that are being registered.
    pub open spec fn next_described(self, stage: Stage) -> Next<(), Seq<char>> {
        match self.next(stage) {
            Next::Go(_) => if self.pending_channels > 0 {
                Next::Wait
            } else {
                Next::Go(())
            },
            other => other,
        }
    }

    /// What `wait-connected` does next. One that waits succeeds where the connection
    /// was reached, even if the stack has reported its end since; only a close on
    /// this side comes first. Else it goes as a method that needs the connection,
    /// and then by whether it was reached in time.
    pub open spec fn next_connected(self, wake: Wake) -> Next<(), Seq<char>> {
        if wake is Changed && self.build is Built && self.connected && !self.shut {
            Next::Go(())
        } else {
            self.next_reached(wake)
        }
    }

    /// What `wait-connected` does next where it has no success to tell of.
    pub open spec fn next_reached(self, wake: Wake) -> Next<(), Seq<char>> {
        match self.next(wake.stage()) {
            Next::Go(_) => if wake is Deadline {
                Next::Fail(WebrtcError::TimedOut)
            } else if self.connected {
                Next::Go(())
            } else {
                Next::Wait
            },
            other => other,
        }
    }
}

/// What a failed request for a description, or to set one, comes to.
pub fn other(why: &str) -> (r: WebrtcError<String>)
    ensures
        r@ == WebrtcError::Other(why@),
{
    WebrtcError::Other(text(why))
}

/// What a candidate that the connection refuses comes to.
pub fn invalid_signaling(why: &str) -> (r: WebrtcError<String>)
    ensures
        r@ == WebrtcError::InvalidSignaling(why@),
{
    WebrtcError::InvalidSignaling(text(why))
}

/// Reads a session description. One that does not parse is invalid signaling.
pub fn to_rtc_description(kind: SdpKind, sdp: String) -> (r: Result<
    RTCSessionDescription,
    WebrtcError<String>,
>)
    ensures
        match (r, sdp_error(sdp@)) {
            (Ok(d), None) => description_kind(d) == Some(kind) && description_sdp(d) == sdp@,
            (Err(e), Some(why)) => e@ == WebrtcError::InvalidSignaling(error_text(why)),
            _ => false,
        },
{
    match describe(kind, sdp) {
        Ok(d) => Ok(d),
        Err(e) => Err(WebrtcError::InvalidSignaling(stack_error_text(&e))),
    }
}

/// What is asked of a connection for a data channel.
#[derive(Debug)]
pub struct ChannelRequest {
    /// The channel's label.
    pub label: String,
    /// Whether its messages are delivered in order.
    pub ordered: bool,
    /// How often a message is sent again at most.
    pub max_retransmits: Option<u16>,
    /// The bound on its inbound buffer, in payload bytes.
    pub max_inbound_buffer_bytes: usize,
}

/// State behind a `peer-connection` resource.
#[derive(Debug)]
pub struct PeerConnection {
    build: Build<String>,
    held: bool,
    connected: bool,
    closed: bool,
    shut: bool,
    phase: ConnectionPhase,
    pending_channels: usize,
    gathering: bool,
    candidates_taken: bool,
    incoming_taken: bool,
    state_taken: bool,
    connect_timeout: Duration,
    max_inbound_buffer_bytes: usize,
}

impl View for PeerConnection {
    type V = Connection;

    closed spec fn view(&self) -> Connection {
        Connection {
            build: self.build@,
            held: self.held,
            connected: self.connected,
            closed: self.closed,
            shut: self.shut,
            phase: self.phase,
            pending_channels: self.pending_channels as nat,
            gathering: self.gathering,
            candidates_taken: self.candidates_taken,
            incoming_taken: self.incoming_taken,
            state_taken: self.state_taken,
            connect_timeout: self.connect_timeout,
            max_inbound_buffer_bytes: self.max_inbound_buffer_bytes,
        }
    }
}

impl PeerConnection {
    /// Construct a peer connection, and how it is to be built.
    ///
    /// `hook` adjusts the setting engine before the connection is built, and
    /// `ice` (bind addresses, STUN/TURN servers, relay-only policy) is applied
    /// when it is built. `connect_timeout` bounds `wait-connected` and
    /// `max_inbound_buffer_bytes` bounds each channel's inbound buffering.
    /// Without a running runtime nothing is built, and every subsequent
    /// operation fails.
    pub fn new_with<H>(
        hook: Option<H>,
        ice: WebrtcIceConfig,
        connect_timeout: Duration,
        max_inbound_buffer_bytes: usize,
        runtime: bool,
    ) -> (r: (Self, Option<BuildPlan<H>>))
        ensures
            r.0@ == Connection::fresh(connect_timeout, max_inbound_buffer_bytes, runtime),
            r.0@.wf(),
            match r.1 {
                Some(plan) => {
                    &&& runtime
                    &&& plan.hook == hook
                    &&& configured_servers(plan.configuration) == ice@.ice_servers
                    &&& configured_relay_only(plan.configuration) == ice@.relay_only
                    &&& plan.udp_addrs.deep_view() == bound_addrs(ice@)
                    &&& plan.reactor_pool_size == DRIVER_REACTOR_POOL_SIZE
                },
                None => !runtime,
            },
    {
        let connection = PeerConnection {
            build: if runtime {
                Build::Pending
            } else {
                Build::Failed(
                    WebrtcError::Other(text("peer connection requires a running tokio runtime")),
                )
            },
            held: false,
            connected: false,
            closed: !runtime,
            shut: false,
            phase: if runtime {
                ConnectionPhase::New
            } else {
                ConnectionPhase::Failed
            },
            pending_channels: 0,
            gathering: true,
            candidates_taken: false,
            incoming_taken: false,
            state_taken: false,
            connect_timeout,
            max_inbound_buffer_bytes,
        };
        let plan: Option<BuildPlan<H>> = if runtime {
            Some(new_peer_connection_with(hook, ice))
        } else {
            None
        };
        (connection, plan)
    }

    /// The connection was built. Says what becomes of it: a close may have
    /// come first, and found nothing to tear down.
    pub fn on_built(&mut self) -> (r: Teardown)
        requires
            old(self)@.wf(),
            old(self)@.can(Happening::Built),
        ensures
            final(self)@ == old(self)@.step(Happening::Built),
            final(self)@.wf(),
            r == (if old(self)@.tears_down(Happening::Built) {
                Teardown::Now
            } else {
                Teardown::Nothing
            }),
    {
        self.build = Build::Built;
        if self.closed {
            self.held = false;
            Teardown::Now
        } else {
            self.held = true;
            Teardown::Nothing
        }
    }

    /// The build failed: the connection can never connect.
    pub fn on_build_failed(&mut self, why: &str)
        requires
            old(self)@.wf(),
            old(self)@.can(Happening::BuildFailed(why@)),
        ensures
            final(self)@ == old(self)@.step(Happening::BuildFailed(why@)),
            final(self)@.wf(),
    {
        self.phase.set(ConnectionPhase::Failed);
        self.closed = true;
        self.build = Build::Failed(other(why));
    }

    /// The build was given up.
    pub fn on_build_cancelled(&mut self)
        requires
            old(self)@.wf(),
            old(self)@.can(Happening::BuildCancelled),
        ensures
            final(self)@ == old(self)@.step(Happening::BuildCancelled),
            final(self)@.wf(),
    {
        self.build = Build::Failed(other("peer connection build was cancelled"));
    }

    /// Whether the build is under way.
    pub fn is_building(&self) -> (r: bool)
        ensures
            r == (self@.build is Pending),
    {
        matches!(self.build, Build::Pending)
    }

    /// How many channels are being registered.
    pub fn pending_channels(&self) -> (r: usize)
        ensures
            r == self@.pending_channels,
    {
        self.pending_channels
    }

    /// The connection's lifecycle, backing `state-changes`.
    pub fn state_watch(&self) -> (r: ConnectionPhase)
        ensures
            r == self@.phase,
    {
        self.phase
    }

    /// How long `wait-connected` waits.
    pub fn connect_timeout(&self) -> (r: Duration)
        ensures
            r == self@.connect_timeout,
    {
        self.connect_timeout
    }

    /// Claim `state-changes`: `true` for the first caller only.
    pub fn take_state_stream(&mut self) -> (r: bool)
        requires
            old(self)@.wf(),
        ensures
            r == !old(self)@.state_taken,
            final(self)@ == old(self)@.step(Happening::TakeStates),
            final(self)@.wf(),
    {
        let first: bool = !self.state_taken;
        self.state_taken = true;
        first
    }

    /// Claim the locally gathered ICE candidates: `true` for the first caller
    /// only.
    pub fn take_local_candidates(&mut self) -> (r: bool)
        requires
            old(self)@.wf(),
        ensures
            r == !old(self)@.candidates_taken,
            final(self)@ == old(self)@.step(Happening::TakeCandidates),
            final(self)@.wf(),
    {
        let first: bool = !self.candidates_taken;
        self.candidates_taken = true;
        first
    }

    /// Claim the remote-opened data channels: `true` for the first caller only.
    pub fn take_incoming_channels(&mut self) -> (r: bool)
        requires
            old(self)@.wf(),
        ensures
            r == !old(self)@.incoming_taken,
            final(self)@ == old(self)@.step(Happening::TakeIncoming),
            final(self)@.wf(),
    {
        let first: bool = !self.incoming_taken;
        self.incoming_taken = true;
        first
    }

    /// Whether the connection is terminally over: closed by
    /// [`close`](Self::close) or failed. Methods called after that point fail
    /// as closed.
    pub fn is_closed(&self) -> (r: bool)
        ensures
            r == self@.closed,
    {
        self.closed
    }

    /// Gate a method on the connection being open.
    pub fn ensure_open(&self) -> (r: Result<(), WebrtcError<String>>)
        ensures
            match r {
                Ok(_) => !self@.closed,
                Err(e) => self@.closed && e is Closed,
            },
    {
        if self.closed {
            return Err(WebrtcError::Closed);
        }
        Ok(())
    }

    /// What a method that needs the connection does next.
    fn pc(&self, stage: Stage) -> (r: Next<(), String>)
        ensures
            r@ == self@.next(stage),
    {
        let never_was: bool = matches!(self.build, Build::Failed(_)) && matches!(
            self.phase,
            ConnectionPhase::Failed
        );
        if matches!(stage, Stage::Called) || !never_was {
            if let Err(e) = self.ensure_open() {
                return Next::Fail(e);
            }
        }
        match &self.build {
            Build::Pending => Next::Wait,
            Build::Failed(e) => Next::Fail(e.clone()),
            Build::Built => Next::Go(()),
        }
    }

    /// What a method that produces a description does next: what it produces
    /// covers every channel that was created before.
    fn described(&self, stage: Stage) -> (r: Next<(), String>)
        ensures
            r@ == self@.next_described(stage),
    {
        match self.pc(stage) {
            Next::Go(_) => if self.pending_channels > 0 {
                Next::Wait
            } else {
                Next::Go(())
            },
            next => next,
        }
    }

    /// Create a data channel to negotiate in-band with the peer. Says what is
    /// to be asked of the connection once it is built.
    pub fn create_data_channel(
        &mut self,
        label: String,
        ordered: bool,
        max_retransmits: Option<u16>,
        runtime: bool,
    ) -> (r: Result<ChannelRequest, WebrtcError<String>>)
        requires
            old(self)@.wf(),
            old(self)@.pending_channels < usize::MAX,
        ensures
            final(self)@.wf(),
            match r {
                Ok(request) => {
                    &&& runtime
                    &&& final(self)@ == old(self)@.step(Happening::ChannelBegun)
                    &&& request.label == label
                    &&& request.ordered == ordered
                    &&& request.max_retransmits == max_retransmits
                    &&& request.max_inbound_buffer_bytes == old(self)@.max_inbound_buffer_bytes
                },
                Err(e) => {
                    &&& !runtime
                    &&& final(self)@ == old(self)@
                    &&& e@ == WebrtcError::Other(no_runtime_text())
                },
            },
    {
        if runtime {
            self.pending_channels = self.pending_channels + 1;
            Ok(
                ChannelRequest {
                    label,
                    ordered,
                    max_retransmits,
                    max_inbound_buffer_bytes: self.max_inbound_buffer_bytes,
                },
            )
        } else {
            Err(other("peer connection requires a running tokio runtime"))
        }
    }

    /// What a channel that is being registered does next: where the connection
    /// is over, or the build failed, it is settled and fails.
    pub fn register_channel(&mut self) -> (r: Next<(), String>)
        requires
            old(self)@.wf(),
            old(self)@.can(Happening::ChannelSettled),
        ensures
            r@ == old(self)@.next(Stage::Waited),
            final(self)@ == (if r is Fail {
                old(self)@.step(Happening::ChannelSettled)
            } else {
                old(self)@
            }),
            final(self)@.wf(),
    {
        let next: Next<(), String> = self.pc(Stage::Waited);
        if let Next::Fail(_) = &next {
            self.pending_channels = self.pending_channels - 1;
        }
        next
    }

    /// The connection has registered a channel, or refused it.
    pub fn on_channel_registered(&mut self)
        requires
            old(self)@.wf(),
            old(self)@.can(Happening::ChannelSettled),
        ensures
            final(self)@ == old(self)@.step(Happening::ChannelSettled),
            final(self)@.wf(),
    {
        self.pending_channels = self.pending_channels - 1;
    }

    /// Produce an SDP offer. The caller applies it via `set-local-description`.
    pub fn create_offer(&self, stage: Stage) -> (r: Next<(), String>)
        ensures
            r@ == self@.next_described(stage),
    {
        self.described(stage)
    }

    /// Produce an SDP answer to a previously set remote offer.
    pub fn create_answer(&self, stage: Stage) -> (r: Next<(), String>)
        ensures
            r@ == self@.next_described(stage),
    {
        self.described(stage)
    }

    /// What setting a description does next.
    fn set_description(&self, stage: Stage, kind: SdpKind, sdp: String) -> (r: Next<
        RTCSessionDescription,
        String,
    >)
        ensures
            self@.next_set(stage, kind, sdp@, r@),
    {
        match self.pc(stage) {
            Next::Wait => Next::Wait,
            Next::Fail(e) => Next::Fail(e),
            Next::Go(_) => match to_rtc_description(kind, sdp) {
                Ok(description) => Next::Go(description),
                Err(e) => Next::Fail(e),
            },
        }
    }

    /// Apply a local description, starting ICE gathering (and, in turn, the
    /// trickled `local-ice-candidates`).
    pub fn set_local_description(&self, stage: Stage, kind: SdpKind, sdp: String) -> (r: Next<
        RTCSessionDescription,
        String,
    >)
        ensures
            self@.next_set(stage, kind, sdp@, r@),
    {
        self.set_description(stage, kind, sdp)
    }

    /// Apply the remote peer's description.
    pub fn set_remote_description(&self, stage: Stage, kind: SdpKind, sdp: String) -> (r: Next<
        RTCSessionDescription,
        String,
    >)
        ensures
            self@.next_set(stage, kind, sdp@, r@),
    {
        self.set_description(stage, kind, sdp)
    }

    /// Add an ICE candidate received from the remote peer.
    pub fn add_ice_candidate(&self, stage: Stage) -> (r: Next<(), String>)
        ensures
            r@ == self@.next(stage),
    {
        self.pc(stage)
    }

    /// Resolve once the connection reaches `connected`, or report a timeout /
    /// failure. Where a wait is pending the first of these stands: a connection
    /// that is reached and then fails before the wait looks has been reached. A
    /// call on a connection that is over fails at once, and so does one that waits
    /// when the connection is closed on this side.
    pub fn wait_connected(&self, wake: Wake) -> (r: Next<(), String>)
        ensures
            r@ == self@.next_connected(wake),
    {
        if matches!(wake, Wake::Changed) && matches!(self.build, Build::Built) && self.connected
            && !self.shut {
            return Next::Go(());
        }
        let stage: Stage = match wake {
            Wake::Called => Stage::Called,
            _ => Stage::Waited,
        };
        match self.pc(stage) {
            Next::Go(_) => if matches!(wake, Wake::Deadline) {
                Next::Fail(WebrtcError::TimedOut)
            } else if self.connected {
                Next::Go(())
            } else {
                Next::Wait
            },
            next => next,
        }
    }

    /// Close the peer connection. Idempotent.
    ///
    /// The close is observed locally at once: pending and subsequent operations
    /// on this side resolve as closed. But the teardown of a connection
    /// that is held is deferred, so that a message accepted just before still
    /// reaches the wire; without a runtime to defer it on, it is torn down at
    /// once. Dropping the resource does the same.
    pub fn close(&mut self, runtime: bool) -> (r: Teardown)
        requires
            old(self)@.wf(),
        ensures
            final(self)@ == old(self)@.step(Happening::Close),
            final(self)@.wf(),
            r == (if !old(self)@.tears_down(Happening::Close) {
                Teardown::Nothing
            } else if runtime {
                Teardown::After(Duration { secs: CLOSE_DRAIN_SECS, nanos: 0 })
            } else {
                Teardown::Now
            }),
    {
        self.phase.set(ConnectionPhase::Closed);
        self.closed = true;
        self.shut = true;
        let held: bool = self.held;
        self.held = false;
        if !held {
            return Teardown::Nothing;
        }
        if runtime {
            Teardown::After(Duration::from_secs(CLOSE_DRAIN_SECS))
        } else {
            Teardown::Now
        }
    }

    /// The stack gathered an ICE candidate. Says what to trickle, if anything:
    /// nothing is trickled once gathering is complete, nor a candidate whose
    /// priority cannot be told.
    pub fn on_ice_candidate(&self, candidate: &RTCIceCandidate) -> (r: Option<LocalCandidate>)
        ensures
            match r {
                Some(local) => self@.gathering && candidate_has_priority(*candidate) && trickled(
                    *candidate,
                ) == Ok::<LocalCandidateView, rtc::shared::error::Error>(local@),
                None => !self@.gathering || !candidate_has_priority(*candidate) || trickled(
                    *candidate,
                ) is Err,
            },
    {
        if !candidate_ranks(candidate) {
            return None;
        }
        match trickle(candidate) {
            Ok(local) => if self.gathering {
                Some(local)
            } else {
                None
            },
            Err(_) => None,
        }
    }

    /// ICE gathering is complete: the candidate stream ends.
    pub fn on_gathering_complete(&mut self)
        requires
            old(self)@.wf(),
        ensures
            final(self)@ == old(self)@.step(Happening::GatheringComplete),
            final(self)@.wf(),
    {
        self.gathering = false;
    }

    /// The stack reports a connection state. A failed or closed connection
    /// closes its channels too.
    pub fn on_connection_state(&mut self, state: TransportState)
        requires
            old(self)@.wf(),
        ensures
            final(self)@ == old(self)@.step(Happening::State(state)),
            final(self)@.wf(),
    {
        if let Some(phase) = state.to_phase() {
            self.phase.set(phase);
        }
        match state {
            TransportState::Connected => {
                if !self.closed {
                    self.connected = true;
                }
            },
            TransportState::Failed | TransportState::Closed => {
                self.closed = true;
            },
            _ => {},
        }
    }

    /// The channel that a remote peer opened, as the guest sees it: its label is
    /// empty where the connection no longer knows it.
    pub fn incoming_channel(&self, label: Option<String>) -> (r: IncomingChannel)
        ensures
            r.label@ == (match label {
                Some(label) => label@,
                None => Seq::empty(),
            }),
            r.max_inbound_buffer_bytes == self@.max_inbound_buffer_bytes,
    {
        IncomingChannel {
            label: match label {
                Some(label) => label,
                None => String::new(),
            },
            max_inbound_buffer_bytes: self.max_inbound_buffer_bytes,
        }
    }
}

impl Connection {
    /// Whether `next` is what setting a description does next: as a method that
    /// needs the connection, and then by whether the text parses.
    pub open spec fn next_set(
        self,
        stage: Stage,
        kind: SdpKind,
        sdp: Seq<char>,
        next: Next<RTCSessionDescription, Seq<char>>,
    ) -> bool {
        match self.next(stage) {
            Next::Wait => next is Wait,
            Next::Fail(e) => next == Next::<RTCSessionDescription, Seq<char>>::Fail(e),
            Next::Go(_) => match sdp_error(sdp) {
                Some(why) => next == Next::<RTCSessionDescription, Seq<char>>::Fail(
                    WebrtcError::InvalidSignaling(error_text(why)),
                ),
                None => {
                    &&& next matches Next::Go(description)
                    &&& description_kind(description) == Some(kind)
                    &&& description_sdp(description) == sdp
                },
            },
        }
    }
}

/// A channel that a remote peer opened.
#[derive(Debug)]
pub struct IncomingChannel {
    /// The channel's label.
    pub label: String,
    /// The bound on its inbound buffer, in payload bytes.
    pub max_inbound_buffer_bytes: usize,
}

/// The channels that a remote peer opened, waiting to be handed on one by one:
/// their labels have to be asked for, and a task per channel could reorder two
/// that open in quick succession.
#[derive(Debug)]
pub struct IncomingQueue<C> {
    waiting: VecDeque<C>,
    served: bool,
}

impl<C> IncomingQueue<C> {
    /// The channels that wait, in the order in which they opened.
    pub closed spec fn waiting(&self) -> Seq<C> {
        self.waiting@
    }

    /// Whether there is a task that hands them on.
    pub closed spec fn served(&self) -> bool {
        self.served
    }

    /// An empty queue; without a runtime nothing serves it.
    pub fn new(runtime: bool) -> (r: Self)
        ensures
            r.waiting() == Seq::<C>::empty(),
            r.served() == runtime,
    {
        IncomingQueue { waiting: VecDeque::new(), served: runtime }
    }

    /// A channel opened: it waits behind the others, or is lost where nothing
    /// serves the queue.
    pub fn on_data_channel(&mut self, channel: C)
        ensures
            final(self).served() == old(self).served(),
            final(self).waiting() == (if old(self).served() {
                old(self).waiting().push(channel)
            } else {
                old(self).waiting()
            }),
    {
        if self.served {
            self.waiting.push_back(channel);
        }
    }

    /// The channel that has waited longest, if any.
    pub fn next_channel(&mut self) -> (r: Option<C>)
        ensures
            final(self).served() == old(self).served(),
            match r {
                Some(channel) => old(self).waiting().len() > 0 && channel == old(
                    self,
                ).waiting()[0] && final(self).waiting() == old(self).waiting().skip(1),
                None => old(self).waiting().len() == 0 && final(self).waiting() == old(
                    self,
                ).waiting(),
            },
    {
        self.waiting.pop_front()
    }
}

/// Whatever happens to a valid resource leaves it valid.
pub proof fn validity_is_kept(c: Connection, happenings: Seq<Happening>)
    requires
        c.wf(),
        c.can_run(happenings),
    ensures
        c.run(happenings).wf(),
    decreases happenings.len(),
{
    if happenings.len() > 0 {
        validity_is_kept(c, happenings.drop_last());
    }
}

/// A connection that is over stays over, whatever happens, and every method that
/// is called then fails as closed.
pub proof fn closed_stays_closed(c: Connection, happenings: Seq<Happening>)
    requires
        c.closed,
    ensures
        c.run(happenings).closed,
        c.run(happenings).next(Stage::Called) == Next::<(), Seq<char>>::Fail(WebrtcError::Closed),
        c.run(happenings).next_described(Stage::Called) == Next::<(), Seq<char>>::Fail(
            WebrtcError::Closed,
        ),
        c.run(happenings).next_connected(Wake::Called) == Next::<(), Seq<char>>::Fail(
            WebrtcError::Closed,
        ),
    decreases happenings.len(),
{
    if happenings.len() > 0 {
        closed_stays_closed(c, happenings.drop_last());
    }
}

/// A close ends every operation, those that wait as those that are called later:
/// whatever happens after it, each of them fails as closed at once, and so does
/// `wait-connected`, whether or not the connection had been reached.
pub proof fn close_ends_every_operation(
    c: Connection,
    happenings: Seq<Happening>,
    stage: Stage,
    wake: Wake,
)
    requires
        c.wf(),
        !c.closed || c.build is Built,
        c.step(Happening::Close).can_run(happenings),
    ensures
        ({
            let after = c.step(Happening::Close).run(happenings);
            let closed = Next::<(), Seq<char>>::Fail(WebrtcError::Closed);
            &&& after.next(stage) == closed
            &&& after.next_described(stage) == closed
            &&& after.next_connected(wake) == closed
        }),
{
    let over = c.step(Happening::Close);
    closed_stays_closed(over, happenings);
    terminal_phase_stays(over, happenings);
    lemma_shut_stays(over, happenings);
    if c.closed {
        build_ends_once(over, happenings);
    }
}

/// What was closed on this side stays so.
proof fn lemma_shut_stays(c: Connection, happenings: Seq<Happening>)
    requires
        c.shut,
    ensures
        c.run(happenings).shut,
    decreases happenings.len(),
{
    if happenings.len() > 0 {
        lemma_shut_stays(c, happenings.drop_last());
    }
}

/// A connection that the stack reports as failed or closed ends every operation
/// in the same way, but for a pending `wait-connected` on one that had been
/// reached: that succeeds, unless the connection is closed on this side first.
pub proof fn failure_ends_every_operation(
    c: Connection,
    state: TransportState,
    happenings: Seq<Happening>,
    stage: Stage,
    wake: Wake,
)
    requires
        c.build is Built,
        state.ends(),
        c.step(Happening::State(state)).can_run(happenings),
    ensures
        ({
            let after = c.step(Happening::State(state)).run(happenings);
            let closed = Next::<(), Seq<char>>::Fail(WebrtcError::Closed);
            &&& after.next(stage) == closed
            &&& after.next_described(stage) == closed
            &&& after.next_connected(wake) == (if wake is Changed && c.connected && !after.shut {
                Next::<(), Seq<char>>::Go(())
            } else {
                closed
            })
        }),
{
    let over = c.step(Happening::State(state));
    closed_stays_closed(over, happenings);
    build_ends_once(over, happenings);
    first_decisive_state_stands(over, happenings);
}

/// Of the states that decide a wait, the first stands: whether a connection was
/// reached is settled once it is over.
pub proof fn first_decisive_state_stands(c: Connection, happenings: Seq<Happening>)
    requires
        c.closed,
    ensures
        c.run(happenings).connected == c.connected,
    decreases happenings.len(),
{
    if happenings.len() > 0 {
        first_decisive_state_stands(c, happenings.drop_last());
        closed_stays_closed(c, happenings.drop_last());
    }
}

/// A wait that is pending when `connected` is reported succeeds, whatever the
/// stack reports before it looks.
pub proof fn pending_wait_succeeds(c: Connection, happenings: Seq<Happening>)
    requires
        c.build is Built,
        !c.closed,
        c.step(Happening::State(TransportState::Connected)).can_run(happenings),
        !c.step(Happening::State(TransportState::Connected)).run(happenings).shut,
    ensures
        c.step(Happening::State(TransportState::Connected)).run(happenings).next_connected(
            Wake::Changed,
        ) == Next::<(), Seq<char>>::Go(()),
{
    let reached = c.step(Happening::State(TransportState::Connected));
    build_ends_once(reached, happenings);
    lemma_connected_stays(reached, happenings);
}

/// A terminal phase is the last one: nothing that is reported later replaces it,
/// so a close wins over a later failure.
pub proof fn terminal_phase_stays(c: Connection, happenings: Seq<Happening>)
    requires
        c.phase.terminal(),
    ensures
        c.run(happenings).phase == c.phase,
    decreases happenings.len(),
{
    if happenings.len() > 0 {
        terminal_phase_stays(c, happenings.drop_last());
    }
}

/// Closing is idempotent: a second close changes nothing and tears nothing down.
pub proof fn close_is_idempotent(c: Connection)
    ensures
        c.step(Happening::Close).step(Happening::Close) == c.step(Happening::Close),
        !c.step(Happening::Close).tears_down(Happening::Close),
{
}

/// A built connection is held, or was torn down, and never torn down twice.
pub proof fn torn_down_once(
    connect_timeout: Duration,
    max_inbound_buffer_bytes: usize,
    runtime: bool,
    happenings: Seq<Happening>,
)
    requires
        Connection::fresh(connect_timeout, max_inbound_buffer_bytes, runtime).can_run(happenings),
    ensures
        ({
            let c = Connection::fresh(connect_timeout, max_inbound_buffer_bytes, runtime);
            c.teardowns(happenings) == (if c.run(happenings).build is Built && !c.run(
                happenings,
            ).held {
                1nat
            } else {
                0nat
            })
        }),
    decreases happenings.len(),
{
    let c = Connection::fresh(connect_timeout, max_inbound_buffer_bytes, runtime);
    if happenings.len() > 0 {
        torn_down_once(
            connect_timeout,
            max_inbound_buffer_bytes,
            runtime,
            happenings.drop_last(),
        );
        validity_is_kept(c, happenings.drop_last());
    }
}

/// Whether the close comes before the build ends or after it, a connection that
/// was built is torn down once the resource is closed, and exactly once.
pub proof fn close_leaves_nothing_held(
    connect_timeout: Duration,
    max_inbound_buffer_bytes: usize,
    runtime: bool,
    happenings: Seq<Happening>,
    at: int,
)
    requires
        Connection::fresh(connect_timeout, max_inbound_buffer_bytes, runtime).can_run(happenings),
        0 <= at < happenings.len(),
        happenings[at] is Close,
    ensures
        ({
            let c = Connection::fresh(connect_timeout, max_inbound_buffer_bytes, runtime);
            &&& !c.run(happenings).held
            &&& c.run(happenings).build is Built ==> c.teardowns(happenings) == 1
        }),
{
    let c = Connection::fresh(connect_timeout, max_inbound_buffer_bytes, runtime);
    torn_down_once(connect_timeout, max_inbound_buffer_bytes, runtime, happenings);
    lemma_closed_releases(c, happenings, at);
}

/// After a close nothing is held.
proof fn lemma_closed_releases(c: Connection, happenings: Seq<Happening>, at: int)
    requires
        0 <= at < happenings.len(),
        happenings[at] is Close,
    ensures
        c.run(happenings).closed,
        !c.run(happenings).held,
    decreases happenings.len(),
{
    if at < happenings.len() - 1 {
        lemma_closed_releases(c, happenings.drop_last(), at);
    }
}

/// How often a stream is handed out, by which calls take it.
pub open spec fn grants(
    c: Connection,
    happenings: Seq<Happening>,
    take: Happening,
    taken: spec_fn(Connection) -> bool,
) -> nat
    decreases happenings.len(),
{
    if happenings.len() == 0 {
        0
    } else {
        grants(c, happenings.drop_last(), take, taken) + (if happenings.last() == take && !taken(
            c.run(happenings.drop_last()),
        ) {
            1nat
        } else {
            0nat
        })
    }
}

/// Each of the three streams is handed out at most once.
pub proof fn streams_are_taken_once(c: Connection, happenings: Seq<Happening>)
    ensures
        grants(
            c,
            happenings,
            Happening::TakeCandidates,
            |c: Connection| c.candidates_taken,
        ) <= 1,
        grants(c, happenings, Happening::TakeIncoming, |c: Connection| c.incoming_taken) <= 1,
        grants(c, happenings, Happening::TakeStates, |c: Connection| c.state_taken) <= 1,
{
    lemma_taken_once(c, happenings);
}

/// What is taken stays taken, and what was handed out is taken.
proof fn lemma_taken_once(c: Connection, happenings: Seq<Happening>)
    ensures
        ({
            let after = c.run(happenings);
            let candidates = grants(
                c,
                happenings,
                Happening::TakeCandidates,
                |c: Connection| c.candidates_taken,
            );
            let incoming = grants(
                c,
                happenings,
                Happening::TakeIncoming,
                |c: Connection| c.incoming_taken,
            );
            let states = grants(
                c,
                happenings,
                Happening::TakeStates,
                |c: Connection| c.state_taken,
            );
            &&& candidates == 0 || (candidates == 1 && after.candidates_taken)
            &&& incoming == 0 || (incoming == 1 && after.incoming_taken)
            &&& states == 0 || (states == 1 && after.state_taken)
        }),
    decreases happenings.len(),
{
    if happenings.len() > 0 {
        lemma_taken_once(c, happenings.drop_last());
    }
}

/// Once gathering is complete no candidate is trickled, whatever happens later.
pub proof fn gathering_ends_once(c: Connection, happenings: Seq<Happening>)
    requires
        !c.gathering,
    ensures
        !c.run(happenings).gathering,
    decreases happenings.len(),
{
    if happenings.len() > 0 {
        gathering_ends_once(c, happenings.drop_last());
    }
}

/// The first outcome of a build stands.
pub proof fn build_ends_once(c: Connection, happenings: Seq<Happening>)
    requires
        !(c.build is Pending),
        c.can_run(happenings),
    ensures
        c.run(happenings).build == c.build,
    decreases happenings.len(),
{
    if happenings.len() > 0 {
        build_ends_once(c, happenings.drop_last());
    }
}

/// A connection that was reached counts as reached for as long as it is not
/// over: `wait-connected` succeeds whenever it looks at it.
pub proof fn connected_stays_connected(c: Connection, happenings: Seq<Happening>)
    requires
        c.connected,
        c.build is Built,
        c.can_run(happenings),
        !c.run(happenings).closed,
    ensures
        c.run(happenings).next_connected(Wake::Called) == Next::<(), Seq<char>>::Go(()),
        c.run(happenings).next_connected(Wake::Changed) == Next::<(), Seq<char>>::Go(()),
{
    build_ends_once(c, happenings);
    lemma_connected_stays(c, happenings);
}

/// What was reached counts as reached.
proof fn lemma_connected_stays(c: Connection, happenings: Seq<Happening>)
    requires
        c.connected,
    ensures
        c.run(happenings).connected,
    decreases happenings.len(),
{
    if happenings.len() > 0 {
        lemma_connected_stays(c, happenings.drop_last());
    }
}

/// A description is produced only when every channel that was created before is
/// registered.
pub proof fn descriptions_cover_channels(c: Connection, stage: Stage)
    requires
        c.next_described(stage) is Go,
    ensures
        c.pending_channels == 0,
        c.build is Built,
{
}

/// A configuration that leaves every field at its default binds one ephemeral
/// port on IPv4 loopback and nothing else.
pub proof fn default_config_binds_loopback(ice: IceConfigView)
    requires
        ice == IceConfigView::default_view(),
    ensures
        bound_addrs(ice) == seq!["127.0.0.1:0"@],
        ice.ice_servers.len() == 0,
        !ice.relay_only,
{
}

/// What happens to a queue of incoming channels.
pub enum Arrival<C> {
    /// A channel opened.
    Opened(C),
    /// One is handed on, if any waits.
    HandedOn,
}

/// The channels that opened.
pub open spec fn opened<C>(arrivals: Seq<Arrival<C>>) -> Seq<C>
    decreases arrivals.len(),
{
    if arrivals.len() == 0 {
        Seq::empty()
    } else {
        match arrivals.last() {
            Arrival::Opened(channel) => opened(arrivals.drop_last()).push(channel),
            Arrival::HandedOn => opened(arrivals.drop_last()),
        }
    }
}

/// The channels that were handed on, and those that wait, of a queue that is
/// served and was empty.
pub open spec fn queue_after<C>(arrivals: Seq<Arrival<C>>) -> (Seq<C>, Seq<C>)
    decreases arrivals.len(),
{
    if arrivals.len() == 0 {
        (Seq::empty(), Seq::empty())
    } else {
        let (handed_on, waiting) = queue_after(arrivals.drop_last());
        match arrivals.last() {
            Arrival::Opened(channel) => (handed_on, waiting.push(channel)),
            Arrival::HandedOn => if waiting.len() > 0 {
                (handed_on.push(waiting[0]), waiting.skip(1))
            } else {
                (handed_on, waiting)
            },
        }
    }
}

/// Incoming channels are handed on in the order in which they opened, and none
/// is lost or handed on twice.
pub proof fn channels_are_handed_on_in_order<C>(arrivals: Seq<Arrival<C>>)
    ensures
        queue_after(arrivals).0 + queue_after(arrivals).1 == opened(arrivals),
    decreases arrivals.len(),
{
    if arrivals.len() > 0 {
        let before = arrivals.drop_last();
        channels_are_handed_on_in_order(before);
        let (handed_on, waiting) = queue_after(before);
        match arrivals.last() {
            Arrival::Opened(channel) => {
                assert(handed_on + waiting.push(channel) =~= (handed_on + waiting).push(channel));
            },
            Arrival::HandedOn => {
                if waiting.len() > 0 {
                    assert(handed_on.push(waiting[0]) + waiting.skip(1) =~= handed_on + waiting);
                }
            },
        }
    } else {
        assert(queue_after(arrivals).0 + queue_after(arrivals).1 =~= opened(arrivals));
    }
}

/// The lifecycle follows the stack: on a connection that is not over, the phase is
/// that of the state that was reported last, whichever it is. A state that stands
/// for none leaves it, and a connection that is over follows nothing.
pub proof fn lifecycle_follows_the_stack(c: Connection)
    requires
        c.wf(),
    ensures
        !c.closed ==> {
            &&& c.step(Happening::State(TransportState::New)).phase == ConnectionPhase::New
            &&& c.step(Happening::State(TransportState::Connecting)).phase
                == ConnectionPhase::Connecting
            &&& c.step(Happening::State(TransportState::Connected)).phase
                == ConnectionPhase::Connected
            &&& c.step(Happening::State(TransportState::Disconnected)).phase
                == ConnectionPhase::Disconnected
            &&& c.step(Happening::State(TransportState::Failed)).phase == ConnectionPhase::Failed
            &&& c.step(Happening::State(TransportState::Closed)).phase == ConnectionPhase::Closed
            &&& c.step(Happening::State(TransportState::Unspecified)).phase == c.phase
        },
        c.closed ==> forall|state: TransportState|
            (#[trigger] c.step(Happening::State(state))).phase == c.phase,
{
}

/// What the stack reports ends a connection exactly where it failed or closed, and
/// reaches it exactly where it connected before that.
pub proof fn reported_states_decide(c: Connection, state: TransportState)
    ensures
        c.step(Happening::State(state)).closed <==> c.closed || state == TransportState::Failed
            || state == TransportState::Closed,
        c.step(Happening::State(state)).connected <==> c.connected || (state
            == TransportState::Connected && !c.closed),
        c.step(Happening::State(state)).shut == c.shut,
{
}

/// Only what a phase is about is in it: the two that end the lifecycle are those of
/// a connection that failed or is closed.
pub proof fn two_phases_are_terminal(phase: ConnectionPhase, reported: ConnectionPhase)
    ensures
        phase.terminal() <==> phase == ConnectionPhase::Failed || phase == ConnectionPhase::Closed,
        phase == ConnectionPhase::Failed || phase == ConnectionPhase::Closed ==> phase.then_phase(
            reported,
        ) == phase,
        phase != ConnectionPhase::Failed && phase != ConnectionPhase::Closed ==> phase.then_phase(
            reported,
        ) == reported,
{
}

/// A fresh connection with a runtime is new and being built, so every method waits;
/// without one it has failed for good, and says so to a call that waits for it.
pub proof fn fresh_connections_wait_for_the_build(
    connect_timeout: Duration,
    max_inbound_buffer_bytes: usize,
    stage: Stage,
    wake: Wake,
)
    ensures
        ({
            let c = Connection::fresh(connect_timeout, max_inbound_buffer_bytes, true);
            &&& c.wf()
            &&& !c.closed && !c.shut && !c.held && !c.connected && c.gathering
            &&& c.phase == ConnectionPhase::New
            &&& c.pending_channels == 0
            &&& !c.candidates_taken && !c.incoming_taken && !c.state_taken
            &&& c.connect_timeout == connect_timeout
            &&& c.max_inbound_buffer_bytes == max_inbound_buffer_bytes
            &&& c.can(Happening::Built)
            &&& c.next(stage) is Wait
            &&& c.next_described(stage) is Wait
            &&& c.next_connected(wake) is Wait
        }),
        ({
            let c = Connection::fresh(connect_timeout, max_inbound_buffer_bytes, false);
            let why = WebrtcError::Other("peer connection requires a running tokio runtime"@);
            &&& c.wf()
            &&& c.closed && !c.shut
            &&& c.phase == ConnectionPhase::Failed
            &&& !c.can(Happening::Built)
            &&& c.connect_timeout == connect_timeout
            &&& c.max_inbound_buffer_bytes == max_inbound_buffer_bytes
            &&& c.next(Stage::Called) == Next::<(), Seq<char>>::Fail(WebrtcError::Closed)
            &&& c.next(Stage::Waited) == Next::<(), Seq<char>>::Fail(why)
            &&& c.next_connected(Wake::Changed) == Next::<(), Seq<char>>::Fail(why)
        }),
{
}

/// A build that succeeds lets every method that waited for it go on; one that fails
/// fails them with its error, and ends the connection; one that is given up fails
/// them too.
pub proof fn builds_settle_what_waits(c: Connection, why: Seq<char>, stage: Stage)
    requires
        c.wf(),
        !c.closed,
        c.build is Pending,
    ensures
        c.next(stage) is Wait,
        c.step(Happening::Built).next(stage) == Next::<(), Seq<char>>::Go(()),
        c.step(Happening::Built).held,
        !c.step(Happening::Built).closed,
        c.step(Happening::Built).phase == c.phase,
        c.step(Happening::BuildFailed(why)).next(Stage::Waited) == Next::<(), Seq<char>>::Fail(
            WebrtcError::Other(why),
        ),
        c.step(Happening::BuildFailed(why)).next(Stage::Called) == Next::<(), Seq<char>>::Fail(
            WebrtcError::Closed,
        ),
        c.step(Happening::BuildFailed(why)).phase == ConnectionPhase::Failed,
        c.step(Happening::BuildCancelled).next(stage) == Next::<(), Seq<char>>::Fail(
            WebrtcError::Other("peer connection build was cancelled"@),
        ),
        !c.step(Happening::BuildCancelled).closed,
{
}

/// A wait for the connection is decided by what comes first: on one that is built
/// and open it goes on waiting until the connection is reached, when it succeeds, or
/// until its time is over, when it says so.
pub proof fn waits_end_in_time(c: Connection)
    requires
        c.build is Built,
        !c.closed,
        !c.shut,
    ensures
        !c.connected ==> c.next_connected(Wake::Called) is Wait && c.next_connected(
            Wake::Changed,
        ) is Wait,
        c.connected ==> c.next_connected(Wake::Called) == Next::<(), Seq<char>>::Go(())
            && c.next_connected(Wake::Changed) == Next::<(), Seq<char>>::Go(()),
        c.next_connected(Wake::Deadline) == Next::<(), Seq<char>>::Fail(WebrtcError::TimedOut),
{
}

/// A method that produces a description goes on exactly where any method would and
/// no channel is being registered; it waits for those channels, and fails as any
/// method.
pub proof fn descriptions_wait_for_channels_only(c: Connection, stage: Stage)
    ensures
        c.next_described(stage) is Go <==> c.next(stage) is Go && c.pending_channels == 0,
        c.next(stage) is Go && c.pending_channels > 0 ==> c.next_described(stage) is Wait,
        c.next(stage) is Wait ==> c.next_described(stage) is Wait,
        c.next(stage) is Fail ==> c.next_described(stage) == c.next(stage),
{
}

/// A description is set as it was handed in, by a method that may go on: the text is
/// read then, and one that does not parse is invalid signaling.
pub proof fn descriptions_are_set_as_given(
    c: Connection,
    stage: Stage,
    kind: SdpKind,
    sdp: Seq<char>,
    next: Next<RTCSessionDescription, Seq<char>>,
)
    requires
        c.next_set(stage, kind, sdp, next),
    ensures
        next is Wait <==> c.next(stage) is Wait,
        next is Go <==> c.next(stage) is Go && sdp_error(sdp) is None,
        next matches Next::Go(description) ==> description_kind(description) == Some(kind)
            && description_sdp(description) == sdp,
        c.next(stage) matches Next::Fail(e) ==> next == Next::<
            RTCSessionDescription,
            Seq<char>,
        >::Fail(e),
        c.next(stage) is Go && sdp_error(sdp) is Some ==> next == Next::<
            RTCSessionDescription,
            Seq<char>,
        >::Fail(WebrtcError::InvalidSignaling(error_text(sdp_error(sdp)->0))),
{
}

/// What a resource was made with stays: no happening changes how long it waits, nor
/// how much it buffers.
pub proof fn settings_stay(c: Connection, happenings: Seq<Happening>)
    ensures
        c.run(happenings).connect_timeout == c.connect_timeout,
        c.run(happenings).max_inbound_buffer_bytes == c.max_inbound_buffer_bytes,
    decreases happenings.len(),
{
    if happenings.len() > 0 {
        settings_stay(c, happenings.drop_last());
    }
}

/// How often something is among happenings.
pub open spec fn how_often(happenings: Seq<Happening>, which: spec_fn(Happening) -> bool) -> nat
    decreases happenings.len(),
{
    if happenings.len() == 0 {
        0
    } else {
        how_often(happenings.drop_last(), which) + (if which(happenings.last()) {
            1nat
        } else {
            0nat
        })
    }
}

/// The channels that are being registered are those that were begun and have not
/// been settled.
pub proof fn channels_are_counted(c: Connection, happenings: Seq<Happening>)
    requires
        c.can_run(happenings),
    ensures
        c.run(happenings).pending_channels + how_often(
            happenings,
            |h: Happening| h is ChannelSettled,
        ) == c.pending_channels + how_often(happenings, |h: Happening| h is ChannelBegun),
    decreases happenings.len(),
{
    if happenings.len() > 0 {
        channels_are_counted(c, happenings.drop_last());
    }
}

/// Gathering is over exactly once it was reported complete.
pub proof fn gathering_lasts_until_complete(c: Connection, happenings: Seq<Happening>)
    requires
        c.gathering,
    ensures
        c.run(happenings).gathering <==> how_often(
            happenings,
            |h: Happening| h is GatheringComplete,
        ) == 0,
    decreases happenings.len(),
{
    if happenings.len() > 0 {
        gathering_lasts_until_complete(c, happenings.drop_last());
    }
}

/// Each of the three streams is handed to the first that asks for it.
pub proof fn first_taker_gets_the_stream(c: Connection, happenings: Seq<Happening>)
    ensures
        !c.candidates_taken ==> (c.run(happenings).candidates_taken <==> how_often(
            happenings,
            |h: Happening| h is TakeCandidates,
        ) > 0),
        !c.incoming_taken ==> (c.run(happenings).incoming_taken <==> how_often(
            happenings,
            |h: Happening| h is TakeIncoming,
        ) > 0),
        !c.state_taken ==> (c.run(happenings).state_taken <==> how_often(
            happenings,
            |h: Happening| h is TakeStates,
        ) > 0),
    decreases happenings.len(),
{
    if happenings.len() > 0 {
        first_taker_gets_the_stream(c, happenings.drop_last());
    }
}

/// What happens to one part of a resource leaves the others: channels, streams and
/// gathering have no say in the lifecycle, nor it in them.
pub proof fn happenings_keep_to_their_part(c: Connection, state: TransportState)
    ensures
        ({
            let quiet = seq![
                c.step(Happening::ChannelBegun),
                c.step(Happening::ChannelSettled),
                c.step(Happening::GatheringComplete),
                c.step(Happening::TakeCandidates),
                c.step(Happening::TakeIncoming),
                c.step(Happening::TakeStates),
            ];
            forall|i: int|
                0 <= i < quiet.len() ==> (#[trigger] quiet[i]).phase == c.phase && quiet[i].build
                    == c.build && quiet[i].held == c.held && quiet[i].closed == c.closed
                    && quiet[i].shut == c.shut && quiet[i].connected == c.connected
        }),
        ({
            let loud = seq![c.step(Happening::State(state)), c.step(Happening::Close)];
            forall|i: int|
                0 <= i < loud.len() ==> (#[trigger] loud[i]).build == c.build
                    && loud[i].pending_channels == c.pending_channels && loud[i].gathering
                    == c.gathering && loud[i].candidates_taken == c.candidates_taken
                    && loud[i].incoming_taken == c.incoming_taken && loud[i].state_taken
                    == c.state_taken
        }),
        c.step(Happening::State(state)).held == c.held,
        c.step(Happening::Close).connected == c.connected,
{
}

/// A close ends the lifecycle as closed, unless it had ended before; the connection
/// is then let go of, and torn down if it was held.
pub proof fn closes_end_the_lifecycle(c: Connection)
    requires
        c.wf(),
    ensures
        c.step(Happening::Close).closed,
        c.step(Happening::Close).shut,
        !c.step(Happening::Close).held,
        c.step(Happening::Close).phase == (if c.closed {
            c.phase
        } else {
            ConnectionPhase::Closed
        }),
        c.tears_down(Happening::Close) <==> c.held,
        c.tears_down(Happening::Built) <==> c.closed,
        forall|h: Happening|
            !(h is Close) && !(h is Built) ==> !#[trigger] c.tears_down(h),
{
}

/// A configuration's addresses are bound as they are, in their order, and only a
/// configuration without any binds loopback.
pub proof fn configured_addresses_are_bound(ice: IceConfigView)
    ensures
        ice.udp_addrs.len() > 0 ==> bound_addrs(ice) == ice.udp_addrs,
        ice.udp_addrs.len() == 0 ==> bound_addrs(ice) == seq!["127.0.0.1:0"@],
{
}

/// What a method does next is seen as it is: its work, and the kind and text of its
/// error.
pub proof fn outcomes_are_seen_as_they_are(
    next: Next<(), String>,
    error: WebrtcError<String>,
    build: Build<String>,
)
    ensures
        next@ is Wait <==> next is Wait,
        next@ is Go <==> next is Go,
        next matches Next::Fail(e) ==> next@ == Next::<(), Seq<char>>::Fail(e@),
        error@ is Closed <==> error is Closed,
        error@ is TimedOut <==> error is TimedOut,
        error matches WebrtcError::InvalidSignaling(why) ==> error@
            == WebrtcError::InvalidSignaling(why@),
        error matches WebrtcError::Other(why) ==> error@ == WebrtcError::Other(why@),
        build@ is Pending <==> build is Pending,
        build@ is Built <==> build is Built,
        build matches Build::Failed(e) ==> build@ == Build::Failed(e@),
{
}

/// In every resource, a lifecycle that has ended is a connection that is over, a
/// connection that was shut is over, and only a built connection is held.
pub proof fn resources_are_consistent(c: Connection)
    requires
        c.wf(),
    ensures
        c.closed <==> c.phase is Failed || c.phase is Closed,
        c.shut ==> c.closed,
        c.held ==> c.build is Built,
{
}

/// A build ends once, only what was begun is settled, and anything else can happen at
/// any time.
pub proof fn happenings_have_their_time(c: Connection, why: Seq<char>, state: TransportState)
    ensures
        c.can(Happening::Built) <==> c.build is Pending,
        c.can(Happening::BuildFailed(why)) <==> c.build is Pending,
        c.can(Happening::BuildCancelled) <==> c.build is Pending,
        c.can(Happening::ChannelSettled) <==> c.pending_channels > 0,
        c.can(Happening::State(state)),
        c.can(Happening::GatheringComplete),
        c.can(Happening::Close),
        c.can(Happening::ChannelBegun),
        c.can(Happening::TakeCandidates),
        c.can(Happening::TakeIncoming),
        c.can(Happening::TakeStates),
{
}

/// The channel that has waited longest is handed on next, whenever one waits.
pub proof fn longest_waiting_channel_is_handed_on<C>(arrivals: Seq<Arrival<C>>, channel: C)
    ensures
        queue_after(arrivals).1.len() > 0 ==> queue_after(arrivals.push(Arrival::HandedOn)).0
            == queue_after(arrivals).0.push(queue_after(arrivals).1[0]),
        queue_after(arrivals).1.len() == 0 ==> queue_after(arrivals.push(Arrival::HandedOn))
            == queue_after(arrivals),
        queue_after(arrivals.push(Arrival::Opened(channel))).0 == queue_after(arrivals).0,
        opened(arrivals.push(Arrival::Opened(channel))) == opened(arrivals).push(channel),
        opened(arrivals.push(Arrival::HandedOn)) == opened(arrivals),
{
    assert(arrivals.push(Arrival::HandedOn).drop_last() =~= arrivals);
    assert(arrivals.push(Arrival::Opened(channel)).drop_last() =~= arrivals);
}

} // verus!
