use rtc::ice::mdns::MulticastDnsMode;
use rtc::peer_connection::configuration::setting_engine::SettingEngineBuilder;
use webrtc_datachannels::context::{
    DataChannelOptions, Duration, PeerConnectionConfig, WebrtcCtx, WebrtcIceConfig,
    WebrtcIceServer,
};
use webrtc_datachannels::demo::{max_inbound_buffer_bytes_from_env, webrtc_ctx};
use webrtc_datachannels::host::{
    make_data, EngineHook, IceProfile, SuiteEnv, MAX_INBOUND_BUFFER_BYTES,
};

fn suite() -> SuiteEnv {
    SuiteEnv { role: None, signaling_url: None, run_id: None, composed: false, ice: None }
}

#[test]
fn durations() {
    assert_eq!(Duration::from_secs(3), Duration { secs: 3, nanos: 0 });
    assert_eq!(Duration::from_millis(1234), Duration { secs: 1, nanos: 234_000_000 });
}

#[test]
fn default_configuration() {
    let config = WebrtcIceConfig::default();
    assert!(config.is_default());
    let relay = WebrtcIceConfig { relay_only: true, ..WebrtcIceConfig::default() };
    assert!(!relay.is_default());
    let bound = WebrtcIceConfig { udp_addrs: vec![String::new()], ..WebrtcIceConfig::default() };
    assert!(!bound.is_default());
    let served = WebrtcIceConfig {
        ice_servers: vec![WebrtcIceServer::default()],
        ..WebrtcIceConfig::default()
    };
    assert!(!served.is_default());
    assert!(!served.clone().is_default());
}

#[test]
fn context_settings() {
    let mut ctx: WebrtcCtx<EngineHook> = WebrtcCtx::new(99);
    assert!(ctx.setting_engine_hook().is_none());
    assert!(ctx.ice_config().is_default());
    assert_eq!(ctx.connect_timeout(), Duration::from_secs(30));
    assert_eq!(ctx.max_inbound_buffer_bytes(), 99);
    ctx.set_setting_engine_hook(EngineHook::DisableMdns);
    ctx.set_ice_config(WebrtcIceConfig { relay_only: true, ..WebrtcIceConfig::default() });
    ctx.set_connect_timeout(Duration::from_secs(5));
    ctx.set_max_inbound_buffer_bytes(7);
    assert_eq!(ctx.setting_engine_hook(), Some(EngineHook::DisableMdns));
    assert!(ctx.ice_config().relay_only);
    assert_eq!(ctx.connect_timeout(), Duration::from_secs(5));
    assert_eq!(ctx.max_inbound_buffer_bytes(), 7);
}

#[test]
fn option_defaults() {
    let options = DataChannelOptions::default();
    assert_eq!(options.label, "");
    assert!(options.ordered);
    assert!(options.max_retransmits.is_none());
    let config = PeerConnectionConfig::default();
    assert!(config.ice_servers.is_empty() && !config.relay_only);
}

#[test]
fn hosted_instances_stay_on_loopback() {
    let plan = make_data(&suite());
    assert_eq!(plan.webrtc.setting_engine_hook(), Some(EngineHook::IncludeLoopback));
    assert!(plan.webrtc.ice_config().is_default());
    assert_eq!(plan.webrtc.max_inbound_buffer_bytes(), 524288);
    assert_eq!(MAX_INBOUND_BUFFER_BYTES, 512 * 1024);
    assert!(!plan.network);
    assert_eq!(
        plan.env,
        vec![("WEBRTC_MAX_INBOUND_BUFFER_BYTES".to_string(), "524288".to_string())]
    );
}

#[test]
fn lab_instances_follow_their_profile() {
    let env = SuiteEnv {
        role: Some("offerer".to_string()),
        signaling_url: Some("http://s".to_string()),
        run_id: Some("r".to_string()),
        composed: true,
        ice: Some(IceProfile {
            bind_addr: Some("10.0.0.2".to_string()),
            stun_url: Some("stun:s".to_string()),
            turn: Some(("turn:t".to_string(), "u".to_string(), "p".to_string())),
            relay_only: true,
            disable_mdns: true,
        }),
    };
    let plan = make_data(&env);
    assert_eq!(plan.webrtc.setting_engine_hook(), Some(EngineHook::DisableMdns));
    let ice = plan.webrtc.ice_config();
    assert_eq!(ice.udp_addrs, vec!["10.0.0.2:0".to_string()]);
    assert_eq!(ice.ice_servers.len(), 2);
    assert_eq!(ice.ice_servers[0].urls, vec!["stun:s".to_string()]);
    assert_eq!(ice.ice_servers[0].username, "");
    assert_eq!(ice.ice_servers[1].urls, vec!["turn:t".to_string()]);
    assert_eq!(ice.ice_servers[1].username, "u");
    assert_eq!(ice.ice_servers[1].credential, "p");
    assert!(ice.relay_only);
    assert!(plan.network);
    let env: Vec<(&str, &str)> = plan.env.iter().map(|(k, v)| (k.as_str(), v.as_str())).collect();
    assert_eq!(
        env,
        vec![
            ("WEBRTC_MAX_INBOUND_BUFFER_BYTES", "524288"),
            ("RTC_CT_ROLE", "offerer"),
            ("RTC_CT_SIGNALING_URL", "http://s"),
            ("RTC_CT_RUN_ID", "r"),
            ("WEBRTC_UDP_BIND_ADDR", "10.0.0.2"),
        ]
    );
}

#[test]
fn a_profile_may_say_nothing() {
    let env = SuiteEnv { ice: Some(IceProfile::default()), ..suite() };
    let plan = make_data(&env);
    assert!(plan.webrtc.setting_engine_hook().is_none());
    assert!(plan.webrtc.ice_config().is_default());
}

#[test]
fn hooks_adjust_the_setting_engine() {
    let quiet = EngineHook::DisableMdns.apply(SettingEngineBuilder::new()).build();
    assert!(matches!(quiet.multicast_dns().mode, MulticastDnsMode::Disabled));
    let loopback = EngineHook::IncludeLoopback.apply(SettingEngineBuilder::new()).build();
    assert!(!matches!(loopback.multicast_dns().mode, MulticastDnsMode::Disabled));
}

#[test]
fn demo_bound() {
    assert_eq!(max_inbound_buffer_bytes_from_env(None), Ok(None));
    assert_eq!(max_inbound_buffer_bytes_from_env(Some("")), Ok(None));
    assert_eq!(max_inbound_buffer_bytes_from_env(Some("4096")), Ok(Some(4096)));
    for bad in ["0", "x", "-1", " 1", "99999999999999999999999"] {
        assert_eq!(
            max_inbound_buffer_bytes_from_env(Some(bad)),
            Err(format!(
                "invalid WEBRTC_MAX_INBOUND_BUFFER_BYTES {bad:?}: expected a positive byte count"
            ))
        );
    }
}

#[test]
fn demo_context() {
    let ctx = webrtc_ctx(true, Some("12"), 9).unwrap_or_else(|e| panic!("{e}"));
    assert_eq!(ctx.setting_engine_hook(), Some(EngineHook::IncludeLoopback));
    assert_eq!(ctx.max_inbound_buffer_bytes(), 12);
    let ctx = webrtc_ctx(false, None, 9).unwrap_or_else(|e| panic!("{e}"));
    assert!(ctx.setting_engine_hook().is_none());
    assert_eq!(ctx.max_inbound_buffer_bytes(), 9);
    assert!(webrtc_ctx(false, Some("zero"), 9).is_err());
}
