//! The host's configuration: ICE servers and transport policy, the per-store
//! context, and the options of channels and connections.

use vstd::prelude::*;

verus! {

/// A span of time.
#[derive(Clone, Copy, Debug, PartialEq, Eq, Structural)]
pub struct Duration {
    /// Whole seconds.
    pub secs: u64,
    /// The rest, in nanoseconds: less than a second.
    pub nanos: u32,
}

impl Duration {
    /// A span keeps less than a second in its nanoseconds.
    pub open spec fn wf(self) -> bool {
        self.nanos < 1_000_000_000
    }

    /// The whole span in nanoseconds.
    pub open spec fn as_nanos(self) -> nat {
        self.secs as nat * 1_000_000_000 + self.nanos as nat
    }

    /// A span of whole seconds.
    pub fn from_secs(secs: u64) -> (r: Self)
        ensures
            r.wf(),
            r.as_nanos() == secs as nat * 1_000_000_000,
            r == (Duration { secs, nanos: 0 }),
    {
        Duration { secs, nanos: 0 }
    }

    /// A span of whole milliseconds.
    pub fn from_millis(millis: u64) -> (r: Self)
        ensures
            r.wf(),
            r.as_nanos() == millis as nat * 1_000_000,
    {
        Duration { secs: millis / 1000, nanos: (millis % 1000) as u32 * 1_000_000 }
    }
}

/// A STUN/TURN server that a peer connection may gather server-reflexive and
/// relay candidates from. `username` and `credential` are ignored for
/// STUN-only URLs.
#[derive(Debug)]
pub struct WebrtcIceServer {
    /// STUN/TURN URLs, e.g. `stun:host:3478` or `turn:host:3478?transport=udp`.
    pub urls: Vec<String>,
    /// TURN long-term-credential username (empty for STUN-only servers).
    pub username: String,
    /// TURN long-term-credential secret (empty for STUN-only servers).
    pub credential: String,
}

/// A [`WebrtcIceServer`] by its texts.
pub struct IceServerView {
    /// Its URLs.
    pub urls: Seq<Seq<char>>,
    /// The TURN username.
    pub username: Seq<char>,
    /// The TURN secret.
    pub credential: Seq<char>,
}

impl View for WebrtcIceServer {
    type V = IceServerView;

    open spec fn view(&self) -> IceServerView {
        IceServerView {
            urls: self.urls.deep_view(),
            username: self.username@,
            credential: self.credential@,
        }
    }
}

/// Copies each text of a list.
pub fn clone_texts(texts: &Vec<String>) -> (r: Vec<String>)
    ensures
        r.deep_view() == texts.deep_view(),
{
    let mut r: Vec<String> = Vec::new();
    let mut i: usize = 0;
    while i < texts.len()
        invariant
            i <= texts@.len(),
            r@.len() == i,
            forall|j: int| 0 <= j < i ==> (#[trigger] r@[j])@ == texts@[j]@,
        decreases texts@.len() - i,
    {
        r.push(texts[i].clone());
        i += 1;
    }
    assert(r.deep_view() =~= texts.deep_view());
    r
}

impl Clone for WebrtcIceServer {
    fn clone(&self) -> (r: Self)
        ensures
            r@ == self@,
    {
        WebrtcIceServer {
            urls: clone_texts(&self.urls),
            username: self.username.clone(),
            credential: self.credential.clone(),
        }
    }
}

impl Default for WebrtcIceServer {
    fn default() -> (r: Self)
        ensures
            r@ == (IceServerView {
                urls: Seq::<Seq<char>>::empty(),
                username: Seq::<char>::empty(),
                credential: Seq::<char>::empty(),
            }),
    {
        let r = WebrtcIceServer {
            urls: Vec::new(),
            username: String::new(),
            credential: String::new(),
        };
        assert(r.urls.deep_view() =~= Seq::<Seq<char>>::empty());
        r
    }
}

/// The servers of a list, by their views.
pub open spec fn server_views(servers: Seq<WebrtcIceServer>) -> Seq<IceServerView> {
    servers.map_values(|s: WebrtcIceServer| s@)
}

/// Copies each server of a list.
pub fn clone_servers(servers: &Vec<WebrtcIceServer>) -> (r: Vec<WebrtcIceServer>)
    ensures
        server_views(r@) == server_views(servers@),
{
    let mut r: Vec<WebrtcIceServer> = Vec::new();
    let mut i: usize = 0;
    while i < servers.len()
        invariant
            i <= servers@.len(),
            r@.len() == i,
            forall|j: int| 0 <= j < i ==> (#[trigger] r@[j])@ == servers@[j]@,
        decreases servers@.len() - i,
    {
        r.push(servers[i].clone());
        i += 1;
    }
    assert(server_views(r@) =~= server_views(servers@));
    r
}

/// Network/ICE configuration applied when a peer connection is built.
///
/// The default value stands for the built-in behavior: bind a single ephemeral
/// UDP socket on IPv4 loopback, no STUN/TURN servers, and the `all` ICE
/// transport policy.
#[derive(Debug)]
pub struct WebrtcIceConfig {
    /// UDP socket addresses to bind and gather host candidates from. When
    /// empty, `127.0.0.1:0` is bound.
    pub udp_addrs: Vec<String>,
    /// STUN/TURN servers to gather server-reflexive and relay candidates from.
    pub ice_servers: Vec<WebrtcIceServer>,
    /// When `true`, only TURN relay candidates are used.
    pub relay_only: bool,
}

/// A [`WebrtcIceConfig`] by its texts.
pub struct IceConfigView {
    /// The addresses to bind.
    pub udp_addrs: Seq<Seq<char>>,
    /// The servers.
    pub ice_servers: Seq<IceServerView>,
    /// Whether only relay candidates are used.
    pub relay_only: bool,
}

impl View for WebrtcIceConfig {
    type V = IceConfigView;

    open spec fn view(&self) -> IceConfigView {
        IceConfigView {
            udp_addrs: self.udp_addrs.deep_view(),
            ice_servers: server_views(self.ice_servers@),
            relay_only: self.relay_only,
        }
    }
}

impl IceConfigView {
    /// The configuration that leaves every field at its default.
    pub open spec fn default_view() -> IceConfigView {
        IceConfigView { udp_addrs: seq![], ice_servers: seq![], relay_only: false }
    }
}

impl Clone for WebrtcIceConfig {
    fn clone(&self) -> (r: Self)
        ensures
            r@ == self@,
    {
        WebrtcIceConfig {
            udp_addrs: clone_texts(&self.udp_addrs),
            ice_servers: clone_servers(&self.ice_servers),
            relay_only: self.relay_only,
        }
    }
}

impl Default for WebrtcIceConfig {
    fn default() -> (r: Self)
        ensures
            r@ == IceConfigView::default_view(),
    {
        let r = WebrtcIceConfig {
            udp_addrs: Vec::new(),
            ice_servers: Vec::new(),
            relay_only: false,
        };
        assert(r.udp_addrs.deep_view() =~= seq![]);
        assert(server_views(r.ice_servers@) =~= seq![]);
        r
    }
}

impl WebrtcIceConfig {
    /// True when this configuration leaves every field at its default, in
    /// which case the built-in loopback behavior is used unchanged.
    pub fn is_default(&self) -> (r: bool)
        ensures
            r == (self@ == IceConfigView::default_view()),
    {
        let r: bool = self.udp_addrs.len() == 0 && self.ice_servers.len() == 0 && !self.relay_only;
        proof {
            let view = self@;
            assert(view.udp_addrs.len() == self.udp_addrs@.len());
            assert(view.ice_servers.len() == self.ice_servers@.len());
            if r {
                assert(view.udp_addrs =~= seq![]);
                assert(view.ice_servers =~= seq![]);
            }
        }
        r
    }
}

/// How long `wait-connected` waits before it reports a timeout, in seconds,
/// unless [`WebrtcCtx::set_connect_timeout`] says otherwise.
pub const DEFAULT_CONNECT_TIMEOUT_SECS: u64 = 30;

/// Configuration and per-store state for the data-channel host. `H` is the
/// hook run against a fresh setting engine before each peer connection is
/// created. Nothing here reads the environment: every knob is set by the
/// embedding host.
#[derive(Clone, Debug)]
pub struct WebrtcCtx<H> {
    setting_engine_hook: Option<H>,
    ice_config: WebrtcIceConfig,
    connect_timeout: Duration,
    max_inbound_buffer_bytes: usize,
}

/// What a [`WebrtcCtx`] holds.
pub struct CtxSettings<H> {
    /// The hook, if one is registered.
    pub setting_engine_hook: Option<H>,
    /// The network/ICE configuration.
    pub ice_config: IceConfigView,
    /// The `wait-connected` timeout.
    pub connect_timeout: Duration,
    /// The per-channel inbound buffer bound, in payload bytes.
    pub max_inbound_buffer_bytes: usize,
}

impl<H> View for WebrtcCtx<H> {
    type V = CtxSettings<H>;

    closed spec fn view(&self) -> CtxSettings<H> {
        CtxSettings {
            setting_engine_hook: self.setting_engine_hook,
            ice_config: self.ice_config@,
            connect_timeout: self.connect_timeout,
            max_inbound_buffer_bytes: self.max_inbound_buffer_bytes,
        }
    }
}

impl<H> WebrtcCtx<H> {
    /// A default context: no hook, the default configuration, a timeout of 30
    /// seconds. `max_inbound_buffer_bytes` is the bound of each channel's
    /// inbound buffer until it is set otherwise.
    pub fn new(max_inbound_buffer_bytes: usize) -> (r: Self)
        ensures
            r@ == (CtxSettings::<H> {
                setting_engine_hook: None,
                ice_config: IceConfigView::default_view(),
                connect_timeout: Duration { secs: DEFAULT_CONNECT_TIMEOUT_SECS, nanos: 0 },
                max_inbound_buffer_bytes,
            }),
    {
        WebrtcCtx {
            setting_engine_hook: None,
            ice_config: WebrtcIceConfig::default(),
            connect_timeout: Duration::from_secs(DEFAULT_CONNECT_TIMEOUT_SECS),
            max_inbound_buffer_bytes,
        }
    }

    /// Registers a hook run against a fresh setting engine before each peer
    /// connection that this context creates.
    pub fn set_setting_engine_hook(&mut self, hook: H)
        ensures
            final(self)@ == (CtxSettings { setting_engine_hook: Some(hook), ..old(self)@ }),
    {
        self.setting_engine_hook = Some(hook);
    }

    /// The registered hook, if any, cloned so callers can apply it without
    /// holding a borrow of the context.
    pub fn setting_engine_hook(&self) -> (r: Option<H>) where H: Clone
        ensures
            match (self@.setting_engine_hook, r) {
                (Some(hook), Some(copy)) => cloned(hook, copy),
                (None, None) => true,
                _ => false,
            },
    {
        match &self.setting_engine_hook {
            Some(hook) => Some(hook.clone()),
            None => None,
        }
    }

    /// Sets the network/ICE configuration applied to every peer connection
    /// that this context creates.
    pub fn set_ice_config(&mut self, config: WebrtcIceConfig)
        ensures
            final(self)@ == (CtxSettings { ice_config: config@, ..old(self)@ }),
    {
        self.ice_config = config;
    }

    /// The configured network/ICE configuration.
    pub fn ice_config(&self) -> (r: WebrtcIceConfig)
        ensures
            r@ == self@.ice_config,
    {
        self.ice_config.clone()
    }

    /// Sets how long `wait-connected` waits before it fails as timed out.
    pub fn set_connect_timeout(&mut self, timeout: Duration)
        ensures
            final(self)@ == (CtxSettings { connect_timeout: timeout, ..old(self)@ }),
    {
        self.connect_timeout = timeout;
    }

    /// The configured `wait-connected` timeout.
    pub fn connect_timeout(&self) -> (r: Duration)
        ensures
            r == self@.connect_timeout,
    {
        self.connect_timeout
    }

    /// Sets the per-channel inbound buffer bound, in payload bytes.
    pub fn set_max_inbound_buffer_bytes(&mut self, bytes: usize)
        ensures
            final(self)@ == (CtxSettings { max_inbound_buffer_bytes: bytes, ..old(self)@ }),
    {
        self.max_inbound_buffer_bytes = bytes;
    }

    /// The configured per-channel inbound buffer bound.
    pub fn max_inbound_buffer_bytes(&self) -> (r: usize)
        ensures
            r == self@.max_inbound_buffer_bytes,
    {
        self.max_inbound_buffer_bytes
    }
}

/// The type for which the data-channel interfaces are implemented.
#[derive(Clone, Copy, Debug, PartialEq, Eq, Structural)]
pub struct Webrtc;

/// The options of a data channel: built with defaults, adjusted, and handed to
/// a function that creates a channel.
#[derive(Debug)]
pub struct DataChannelOptions {
    /// The channel label. Both peers observe the same label.
    pub label: String,
    /// Whether messages are delivered in order.
    pub ordered: bool,
    /// The maximum number of retransmissions before a message is dropped, or
    /// `None` for fully reliable delivery.
    pub max_retransmits: Option<u16>,
}

impl Clone for DataChannelOptions {
    fn clone(&self) -> (r: Self)
        ensures
            r == *self,
    {
        DataChannelOptions {
            label: self.label.clone(),
            ordered: self.ordered,
            max_retransmits: self.max_retransmits,
        }
    }
}

impl Default for DataChannelOptions {
    fn default() -> (r: Self)
        ensures
            r.label@ == Seq::<char>::empty(),
            r.ordered,
            r.max_retransmits is None,
    {
        DataChannelOptions { label: String::new(), ordered: true, max_retransmits: None }
    }
}

/// The configuration that a peer connection is constructed with. Its setters
/// validate rather than reject.
#[derive(Debug)]
pub struct PeerConnectionConfig {
    /// The accepted STUN/TURN servers.
    pub ice_servers: Vec<WebrtcIceServer>,
    /// Whether only relay (TURN) candidates may be used.
    pub relay_only: bool,
}

impl Clone for PeerConnectionConfig {
    fn clone(&self) -> (r: Self)
        ensures
            server_views(r.ice_servers@) == server_views(self.ice_servers@),
            r.relay_only == self.relay_only,
    {
        PeerConnectionConfig {
            ice_servers: clone_servers(&self.ice_servers),
            relay_only: self.relay_only,
        }
    }
}

impl Default for PeerConnectionConfig {
    fn default() -> (r: Self)
        ensures
            r.ice_servers@.len() == 0,
            !r.relay_only,
    {
        PeerConnectionConfig { ice_servers: Vec::new(), relay_only: false }
    }
}

/// A span of time is its seconds and the nanoseconds beside them, of which there are
/// fewer than a second's; a second is a thousand million of them.
pub proof fn spans_are_seconds_and_nanoseconds(span: Duration, other: Duration)
    ensures
        span.wf() <==> span.nanos < 1_000_000_000,
        (Duration { secs: span.secs, nanos: 0 }).as_nanos() + span.nanos == span.as_nanos(),
        (Duration { secs: 0, nanos: span.nanos }).as_nanos() == span.nanos,
        span.secs > 0 ==> span.as_nanos() == 1_000_000_000 + (Duration {
            secs: (span.secs - 1) as u64,
            nanos: span.nanos,
        }).as_nanos(),
        span.wf() && other.wf() && span.as_nanos() == other.as_nanos() ==> span == other,
{
}

/// A configuration's texts are seen as they are: the addresses, and each server's
/// addresses, user and credential.
pub proof fn configurations_are_seen_as_they_are(
    server: WebrtcIceServer,
    servers: Seq<WebrtcIceServer>,
    config: WebrtcIceConfig,
    i: int,
)
    ensures
        server@.urls == server.urls.deep_view(),
        server@.username == server.username@,
        server@.credential == server.credential@,
        server_views(servers).len() == servers.len(),
        0 <= i < servers.len() ==> server_views(servers)[i] == servers[i]@,
        config@.udp_addrs == config.udp_addrs.deep_view(),
        config@.ice_servers == server_views(config.ice_servers@),
        config@.relay_only == config.relay_only,
{
}

/// The default configuration binds no address, names no server and leaves every kind
/// of candidate in use, and no other does.
pub proof fn default_configurations_are_empty(config: IceConfigView)
    ensures
        config == IceConfigView::default_view() <==> config.udp_addrs.len() == 0
            && config.ice_servers.len() == 0 && !config.relay_only,
{
    if config.udp_addrs.len() == 0 && config.ice_servers.len() == 0 && !config.relay_only {
        assert(config.udp_addrs =~= seq![]);
        assert(config.ice_servers =~= seq![]);
    }
}

} // verus!
