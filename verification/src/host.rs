//! What a suite instance runs with: the network shape of its peer, the
//! environment that it reads, and the host context that serves it.

use rtc::ice::mdns::MulticastDnsMode;
use rtc::peer_connection::configuration::setting_engine::SettingEngineBuilder;
use vstd::prelude::*;

use crate::connection::bound_addrs;
use crate::context::{
    server_views, CtxSettings, Duration, IceConfigView, IceServerView, WebrtcCtx, WebrtcIceConfig,
    WebrtcIceServer, DEFAULT_CONNECT_TIMEOUT_SECS,
};
use crate::text::{decimal, decimal_text, text};

verus! {

/// The inbound-buffer bound that every leg applies (and exports to the suite):
/// small enough that the overflow probe's flood overflows it.
pub const MAX_INBOUND_BUFFER_BYTES: usize = 524288;

/// A lab scenario's network shape: an explicit bind address (the simulated or
/// namespaced interface), optional STUN/TURN, relay-only, and whether mDNS
/// gathering must be off.
#[derive(Debug)]
pub struct IceProfile {
    /// The address to bind.
    pub bind_addr: Option<String>,
    /// A STUN server's URL.
    pub stun_url: Option<String>,
    /// A TURN server's URL, username and password.
    pub turn: Option<(String, String, String)>,
    /// Whether only relay candidates are used.
    pub relay_only: bool,
    /// Whether mDNS gathering is off.
    pub disable_mdns: bool,
}

/// An [`IceProfile`] by its texts.
pub struct IceProfileView {
    /// The address to bind.
    pub bind_addr: Option<Seq<char>>,
    /// A STUN server's URL.
    pub stun_url: Option<Seq<char>>,
    /// A TURN server's URL, username and password.
    pub turn: Option<(Seq<char>, Seq<char>, Seq<char>)>,
    /// Whether only relay candidates are used.
    pub relay_only: bool,
    /// Whether mDNS gathering is off.
    pub disable_mdns: bool,
}

impl View for IceProfile {
    type V = IceProfileView;

    open spec fn view(&self) -> IceProfileView {
        IceProfileView {
            bind_addr: self.bind_addr.deep_view(),
            stun_url: self.stun_url.deep_view(),
            turn: match self.turn {
                Some(t) => Some((t.0@, t.1@, t.2@)),
                None => None,
            },
            relay_only: self.relay_only,
            disable_mdns: self.disable_mdns,
        }
    }
}

impl Clone for IceProfile {
    fn clone(&self) -> (r: Self)
        ensures
            r@ == self@,
    {
        IceProfile {
            bind_addr: match &self.bind_addr {
                Some(a) => Some(a.clone()),
                None => None,
            },
            stun_url: match &self.stun_url {
                Some(u) => Some(u.clone()),
                None => None,
            },
            turn: match &self.turn {
                Some(t) => Some((t.0.clone(), t.1.clone(), t.2.clone())),
                None => None,
            },
            relay_only: self.relay_only,
            disable_mdns: self.disable_mdns,
        }
    }
}

impl Default for IceProfile {
    fn default() -> (r: Self)
        ensures
            r@ == (IceProfileView {
                bind_addr: None,
                stun_url: None,
                turn: None,
                relay_only: false,
                disable_mdns: false,
            }),
    {
        IceProfile {
            bind_addr: None,
            stun_url: None,
            turn: None,
            relay_only: false,
            disable_mdns: false,
        }
    }
}

/// The environment that a child instance hands the suite (role and signaling
/// for pair runs; the buffer bound always), plus the lab-provided ICE profile
/// when the peer runs on a routed, non-loopback path.
#[derive(Debug)]
pub struct SuiteEnv {
    /// The side of a pair that the instance plays.
    pub role: Option<String>,
    /// The signaling server's base URL.
    pub signaling_url: Option<String>,
    /// The run's id.
    pub run_id: Option<String>,
    /// Whether the provider is in the artifact.
    pub composed: bool,
    /// The lab's network shape.
    pub ice: Option<IceProfile>,
}

/// How the setting engine is adjusted before a connection is built.
#[derive(Clone, Copy, Debug, PartialEq, Eq, Structural)]
pub enum EngineHook {
    /// Loopback candidates are kept rather than discarded.
    IncludeLoopback,
    /// mDNS is not used.
    DisableMdns,
}

/// The stack's settings in the making.
#[verifier::external_type_specification]
#[verifier::external_body]
pub struct ExSettingEngineBuilder(SettingEngineBuilder);

/// Whether loopback candidates are kept.
pub uninterp spec fn keeps_loopback(engine: SettingEngineBuilder) -> bool;

/// Whether mDNS is not used.
pub uninterp spec fn mdns_disabled(engine: SettingEngineBuilder) -> bool;

/// `SettingEngineBuilder::with_include_loopback_candidate`: loopback candidates
/// are kept or not, as it is told, and mDNS is used as before.
#[verifier::external_body]
fn include_loopback_candidate(engine: SettingEngineBuilder, keep: bool) -> (r: SettingEngineBuilder)
    ensures
        keeps_loopback(r) == keep,
        mdns_disabled(r) == mdns_disabled(engine),
{
    engine.with_include_loopback_candidate(keep)
}

/// `SettingEngineBuilder::with_multicast_dns_mode`, with the mode `Disabled`:
/// mDNS is not used, and loopback candidates are kept or not as before.
#[verifier::external_body]
fn disable_multicast_dns(engine: SettingEngineBuilder) -> (r: SettingEngineBuilder)
    ensures
        mdns_disabled(r),
        keeps_loopback(r) == keeps_loopback(engine),
{
    engine.with_multicast_dns_mode(MulticastDnsMode::Disabled)
}

impl EngineHook {
    /// Adjusts the setting engine.
    pub fn apply(self, engine: SettingEngineBuilder) -> (r: SettingEngineBuilder)
        ensures
            match self {
                EngineHook::IncludeLoopback => keeps_loopback(r) && mdns_disabled(r)
                    == mdns_disabled(engine),
                EngineHook::DisableMdns => mdns_disabled(r) && keeps_loopback(r)
                    == keeps_loopback(engine),
            },
    {
        match self {
            EngineHook::IncludeLoopback => include_loopback_candidate(engine, true),
            EngineHook::DisableMdns => disable_multicast_dns(engine),
        }
    }
}

/// What an instance's store is provisioned with.
#[derive(Debug)]
pub struct StorePlan {
    /// The WebRTC host's context.
    pub webrtc: WebrtcCtx<EngineHook>,
    /// The variables that the suite finds in its environment.
    pub env: Vec<(String, String)>,
    /// Whether the instance reaches the network, name lookup included.
    pub network: bool,
}

/// The servers of a network shape: the STUN server, then the TURN server.
pub open spec fn profile_servers(profile: IceProfileView) -> Seq<IceServerView> {
    let stun = match profile.stun_url {
        Some(url) => seq![
            IceServerView {
                urls: seq![url],
                username: Seq::<char>::empty(),
                credential: Seq::<char>::empty(),
            },
        ],
        None => seq![],
    };
    let turn = match profile.turn {
        Some(t) => seq![IceServerView { urls: seq![t.0], username: t.1, credential: t.2 }],
        None => seq![],
    };
    stun + turn
}

/// The ICE configuration of a network shape: an ephemeral port of the address
/// to bind, the servers, and the policy.
pub open spec fn profile_config(profile: IceProfileView) -> IceConfigView {
    IceConfigView {
        udp_addrs: match profile.bind_addr {
            Some(a) => seq![a + ":0"@],
            None => seq![],
        },
        ice_servers: profile_servers(profile),
        relay_only: profile.relay_only,
    }
}

/// The context of an instance. Without a lab profile, loopback candidates are
/// kept, so two same-host peers pair deterministically; lab peers connect over
/// real interface addresses, without mDNS where it cannot be served.
pub open spec fn suite_settings(ice: Option<IceProfile>) -> CtxSettings<EngineHook> {
    CtxSettings {
        setting_engine_hook: match ice {
            None => Some(EngineHook::IncludeLoopback),
            Some(p) => if p.disable_mdns {
                Some(EngineHook::DisableMdns)
            } else {
                None
            },
        },
        ice_config: match ice {
            None => IceConfigView::default_view(),
            Some(p) => profile_config(p@),
        },
        connect_timeout: Duration { secs: DEFAULT_CONNECT_TIMEOUT_SECS, nanos: 0 },
        max_inbound_buffer_bytes: MAX_INBOUND_BUFFER_BYTES,
    }
}

/// A variable of that name, where it has a value.
pub open spec fn variable(name: Seq<char>, value: Option<Seq<char>>) -> Seq<
    (Seq<char>, Seq<char>),
> {
    match value {
        Some(v) => seq![(name, v)],
        None => seq![],
    }
}

/// The variables that the suite finds in its environment.
pub open spec fn suite_variables(env: SuiteEnv) -> Seq<(Seq<char>, Seq<char>)> {
    seq![("WEBRTC_MAX_INBOUND_BUFFER_BYTES"@, decimal(MAX_INBOUND_BUFFER_BYTES as nat))] + variable(
        "RTC_CT_ROLE"@,
        env.role.deep_view(),
    ) + variable("RTC_CT_SIGNALING_URL"@, env.signaling_url.deep_view()) + variable(
        "RTC_CT_RUN_ID"@,
        env.run_id.deep_view(),
    ) + variable(
        "WEBRTC_UDP_BIND_ADDR"@,
        match env.ice {
            Some(p) => if env.composed {
                p.bind_addr.deep_view()
            } else {
                None
            },
            None => None,
        },
    )
}

/// The servers of a network shape.
fn servers_of(profile: &IceProfile) -> (r: Vec<WebrtcIceServer>)
    ensures
        server_views(r@) == profile_servers(profile@),
{
    let mut servers: Vec<WebrtcIceServer> = Vec::new();
    if let Some(url) = &profile.stun_url {
        let mut urls: Vec<String> = Vec::new();
        urls.push(url.clone());
        assert(urls.deep_view() =~= seq![url@]);
        servers.push(
            WebrtcIceServer { urls, username: String::new(), credential: String::new() },
        );
    }
    if let Some(t) = &profile.turn {
        let mut urls: Vec<String> = Vec::new();
        urls.push(t.0.clone());
        assert(urls.deep_view() =~= seq![t.0@]);
        servers.push(
            WebrtcIceServer { urls, username: t.1.clone(), credential: t.2.clone() },
        );
    }
    assert(server_views(servers@) =~= profile_servers(profile@));
    servers
}

/// Adds a variable, where it has a value.
fn add_variable(env: &mut Vec<(String, String)>, name: &str, value: &Option<String>)
    ensures
        final(env).deep_view() == old(env).deep_view() + variable(name@, value.deep_view()),
{
    let ghost before = env.deep_view();
    if let Some(v) = value {
        env.push((text(name), v.clone()));
    }
    assert(env.deep_view() =~= before + variable(name@, value.deep_view()));
}

/// What an instance's store is provisioned with. Hosted runs restrict ICE to
/// loopback; composed runs get real network access instead, and the address
/// that the in-artifact provider binds.
pub fn make_data(env: &SuiteEnv) -> (r: StorePlan)
    ensures
        r.webrtc@ == suite_settings(env.ice),
        r.env.deep_view() == suite_variables(*env),
        r.network == env.composed,
{
    let mut webrtc: WebrtcCtx<EngineHook> = WebrtcCtx::new(MAX_INBOUND_BUFFER_BYTES);
    match &env.ice {
        None => {
            webrtc.set_setting_engine_hook(EngineHook::IncludeLoopback);
        },
        Some(ice) => {
            let mut udp_addrs: Vec<String> = Vec::new();
            if let Some(addr) = &ice.bind_addr {
                let mut bound: String = addr.clone();
                bound.append(":0");
                udp_addrs.push(bound);
            }
            assert(udp_addrs.deep_view() =~= profile_config(ice@).udp_addrs);
            webrtc.set_ice_config(
                WebrtcIceConfig {
                    udp_addrs,
                    ice_servers: servers_of(ice),
                    relay_only: ice.relay_only,
                },
            );
            if ice.disable_mdns {
                webrtc.set_setting_engine_hook(EngineHook::DisableMdns);
            }
        },
    }
    webrtc.set_max_inbound_buffer_bytes(MAX_INBOUND_BUFFER_BYTES);

    let mut variables: Vec<(String, String)> = Vec::new();
    variables.push(
        (
            text("WEBRTC_MAX_INBOUND_BUFFER_BYTES"),
            decimal_text(MAX_INBOUND_BUFFER_BYTES as u128),
        ),
    );
    assert(variables.deep_view() =~= seq![
        ("WEBRTC_MAX_INBOUND_BUFFER_BYTES"@, decimal(MAX_INBOUND_BUFFER_BYTES as nat)),
    ]);
    add_variable(&mut variables, "RTC_CT_ROLE", &env.role);
    add_variable(&mut variables, "RTC_CT_SIGNALING_URL", &env.signaling_url);
    add_variable(&mut variables, "RTC_CT_RUN_ID", &env.run_id);
    let ghost before = variables.deep_view();
    if env.composed {
        if let Some(ice) = &env.ice {
            add_variable(&mut variables, "WEBRTC_UDP_BIND_ADDR", &ice.bind_addr);
        }
    }
    assert(variables.deep_view() =~= suite_variables(*env));
    StorePlan { webrtc, env: variables, network: env.composed }
}

/// A peer without a lab profile binds loopback alone and keeps its loopback
/// candidates, so two peers on one host can only pair over loopback; one with a
/// profile is not forced onto loopback, and drops mDNS exactly where the profile
/// says.
pub proof fn hosted_peers_stay_on_loopback(ice: Option<IceProfile>)
    ensures
        match ice {
            None => {
                &&& bound_addrs(suite_settings(ice).ice_config) == seq!["127.0.0.1:0"@]
                &&& suite_settings(ice).ice_config.ice_servers.len() == 0
                &&& !suite_settings(ice).ice_config.relay_only
                &&& suite_settings(ice).setting_engine_hook == Some(EngineHook::IncludeLoopback)
            },
            Some(profile) => suite_settings(ice).setting_engine_hook == (if profile.disable_mdns {
                Some(EngineHook::DisableMdns)
            } else {
                None
            }),
        },
{
}

/// A lab peer binds the address of its shape, on any port, and asks the servers that
/// the shape names: STUN without credentials, TURN with its own.
pub proof fn profiles_shape_the_network(profile: IceProfileView)
    ensures
        ({
            let config = profile_config(profile);
            &&& config.relay_only == profile.relay_only
            &&& match profile.bind_addr {
                Some(addr) => config.udp_addrs == seq![addr + ":0"@],
                None => config.udp_addrs.len() == 0,
            }
            &&& config.ice_servers.len() == (if profile.stun_url is Some {
                1int
            } else {
                0int
            }) + (if profile.turn is Some {
                1int
            } else {
                0int
            })
            &&& profile.stun_url matches Some(url) ==> {
                &&& config.ice_servers[0].urls == seq![url]
                &&& config.ice_servers[0].username.len() == 0
                &&& config.ice_servers[0].credential.len() == 0
            }
            &&& profile.turn matches Some(turn) ==> {
                &&& config.ice_servers.last().urls == seq![turn.0]
                &&& config.ice_servers.last().username == turn.1
                &&& config.ice_servers.last().credential == turn.2
            }
        }),
{
}

/// Every instance waits half a minute for its peer and buffers half a mebibyte, and a
/// lab instance has the network of its shape.
pub proof fn instances_share_their_limits(ice: Option<IceProfile>)
    ensures
        suite_settings(ice).connect_timeout == (Duration { secs: 30, nanos: 0 }),
        suite_settings(ice).max_inbound_buffer_bytes == 512 * 1024,
        ice matches Some(profile) ==> suite_settings(ice).ice_config == profile_config(profile@),
{
}

/// A variable is there exactly where it has a value.
pub proof fn variables_have_values(name: Seq<char>, value: Seq<char>)
    ensures
        variable(name, Some(value)) == seq![(name, value)],
        variable(name, None).len() == 0,
{
}

/// The suite finds the buffer's bound in its environment, and what its run gives it: its
/// side, the server and the run's name, each under its own name and where it is given.
/// The address to bind is for composed instances alone.
pub proof fn suites_find_their_run(env: SuiteEnv, name: Seq<char>, value: Seq<char>)
    ensures
        suite_variables(env).contains((name, value)) <==> {
            ||| name == "WEBRTC_MAX_INBOUND_BUFFER_BYTES"@ && value == decimal(512 * 1024)
            ||| name == "RTC_CT_ROLE"@ && env.role is Some && value == env.role->0@
            ||| name == "RTC_CT_SIGNALING_URL"@ && env.signaling_url is Some && value
                == env.signaling_url->0@
            ||| name == "RTC_CT_RUN_ID"@ && env.run_id is Some && value == env.run_id->0@
            ||| name == "WEBRTC_UDP_BIND_ADDR"@ && env.composed && env.ice is Some
                && env.ice->0.bind_addr is Some && value == env.ice->0.bind_addr->0@
        },
{
    let bound = seq![
        ("WEBRTC_MAX_INBOUND_BUFFER_BYTES"@, decimal(MAX_INBOUND_BUFFER_BYTES as nat)),
    ];
    let role = variable("RTC_CT_ROLE"@, env.role.deep_view());
    let url = variable("RTC_CT_SIGNALING_URL"@, env.signaling_url.deep_view());
    let run = variable("RTC_CT_RUN_ID"@, env.run_id.deep_view());
    let address = variable(
        "WEBRTC_UDP_BIND_ADDR"@,
        match env.ice {
            Some(p) => if env.composed {
                p.bind_addr.deep_view()
            } else {
                None
            },
            None => None,
        },
    );
    let entry = (name, value);
    lemma_either_holds(bound, role, entry);
    lemma_either_holds(bound + role, url, entry);
    lemma_either_holds(bound + role + url, run, entry);
    lemma_either_holds(bound + role + url + run, address, entry);
    assert(bound[0] == ("WEBRTC_MAX_INBOUND_BUFFER_BYTES"@, decimal(512 * 1024)));
    lemma_variable_holds("RTC_CT_ROLE"@, env.role.deep_view(), entry);
    lemma_variable_holds("RTC_CT_SIGNALING_URL"@, env.signaling_url.deep_view(), entry);
    lemma_variable_holds("RTC_CT_RUN_ID"@, env.run_id.deep_view(), entry);
    if env.composed && env.ice is Some {
        lemma_variable_holds("WEBRTC_UDP_BIND_ADDR"@, env.ice->0.bind_addr.deep_view(), entry);
    }
}

/// Two lists together hold what either holds.
proof fn lemma_either_holds(
    a: Seq<(Seq<char>, Seq<char>)>,
    b: Seq<(Seq<char>, Seq<char>)>,
    entry: (Seq<char>, Seq<char>),
)
    ensures
        (a + b).contains(entry) <==> a.contains(entry) || b.contains(entry),
{
    if a.contains(entry) {
        let i = choose|i: int| 0 <= i < a.len() && a[i] == entry;
        assert((a + b)[i] == entry);
    }
    if b.contains(entry) {
        let i = choose|i: int| 0 <= i < b.len() && b[i] == entry;
        assert((a + b)[a.len() + i] == entry);
    }
    if (a + b).contains(entry) {
        let i = choose|i: int| 0 <= i < (a + b).len() && (a + b)[i] == entry;
        if i < a.len() {
            assert(a[i] == entry);
        } else {
            assert(b[i - a.len()] == entry);
        }
    }
}

/// A variable's list holds the variable, where it has a value.
proof fn lemma_variable_holds(
    name: Seq<char>,
    value: Option<Seq<char>>,
    entry: (Seq<char>, Seq<char>),
)
    ensures
        variable(name, value).contains(entry) <==> value is Some && entry == (name, value->0),
{
    if value is Some {
        assert(variable(name, value)[0] == (name, value->0));
    }
}

/// A network shape is seen as it is.
pub proof fn profiles_are_seen_as_they_are(profile: IceProfile)
    ensures
        profile@.bind_addr == (match profile.bind_addr {
            Some(t) => Some(t@),
            None => None,
        }),
        profile@.stun_url == (match profile.stun_url {
            Some(t) => Some(t@),
            None => None,
        }),
        profile@.turn == (match profile.turn {
            Some((url, user, password)) => Some((url@, user@, password@)),
            None => None,
        }),
        profile@.relay_only == profile.relay_only,
        profile@.disable_mdns == profile.disable_mdns,
{
}

} // verus!
