use rtc::peer_connection::configuration::RTCIceTransportPolicy;
use rtc::peer_connection::transport::{CandidateConfig, CandidateHostConfig, RTCIceCandidate};
use webrtc_datachannels::connection::{
    close_peer_connections, invalid_signaling, new_peer_connection_with, other,
    to_rtc_description, BuildPlan, CloseRun, ConnectionPhase, IncomingQueue, Next, PeerConnection,
    Stage, Teardown, TransportState, Wake, WebrtcError, CLOSE_DRAIN_SECS,
    DRIVER_REACTOR_POOL_SIZE,
};
use webrtc_datachannels::context::{Duration, WebrtcIceConfig, WebrtcIceServer};
use webrtc_datachannels::description::SdpKind;
use webrtc_datachannels::host::EngineHook;
use webrtc_datachannels::peer::SansIoPeer;

fn fresh(runtime: bool) -> (PeerConnection, Option<BuildPlan<EngineHook>>) {
    PeerConnection::new_with(
        None,
        WebrtcIceConfig::default(),
        Duration::from_secs(5),
        1000,
        runtime,
    )
}

fn built() -> PeerConnection {
    let (mut pc, _) = fresh(true);
    assert!(pc.is_building());
    assert_eq!(pc.on_built(), Teardown::Nothing);
    pc
}

fn sdp() -> String {
    let mut peer = SansIoPeer::new().unwrap_or_else(|e| panic!("{}", e.message()));
    peer.create_data_channel("d", true, None).unwrap_or_else(|e| panic!("{}", e.message()));
    peer.create_offer().unwrap_or_else(|e| panic!("{}", e.message()))
}

#[test]
fn default_plan_binds_loopback() {
    let (_, plan) = fresh(true);
    let plan = plan.unwrap();
    assert_eq!(plan.udp_addrs, vec!["127.0.0.1:0".to_string()]);
    assert!(plan.configuration.ice_servers().is_empty());
    assert!(plan.configuration.ice_transport_policy() != RTCIceTransportPolicy::Relay);
    assert!(plan.hook.is_none());
}

#[test]
fn build_plan_engages_the_reactor_pool() {
    let (_, plan) = fresh(true);
    assert_eq!(plan.unwrap().reactor_pool_size, 2);
    assert_eq!(DRIVER_REACTOR_POOL_SIZE, 2);
}

#[test]
fn plan_takes_the_configured_network() {
    let ice = WebrtcIceConfig {
        udp_addrs: vec!["10.0.0.1:0".to_string(), "10.0.0.2:0".to_string()],
        ice_servers: vec![
            WebrtcIceServer {
                urls: vec!["stun:s".to_string()],
                username: String::new(),
                credential: String::new(),
            },
            WebrtcIceServer {
                urls: vec!["turn:a".to_string(), "turn:b".to_string()],
                username: "u".to_string(),
                credential: "p".to_string(),
            },
        ],
        relay_only: true,
    };
    let plan = new_peer_connection_with(Some(EngineHook::DisableMdns), ice);
    assert_eq!(plan.hook, Some(EngineHook::DisableMdns));
    assert_eq!(plan.udp_addrs, vec!["10.0.0.1:0".to_string(), "10.0.0.2:0".to_string()]);
    let servers = plan.configuration.ice_servers();
    assert_eq!(servers.len(), 2);
    assert_eq!(servers[0].urls, vec!["stun:s".to_string()]);
    assert_eq!(servers[1].urls, vec!["turn:a".to_string(), "turn:b".to_string()]);
    assert_eq!(servers[1].username, "u");
    assert_eq!(servers[1].credential, "p");
    assert!(plan.configuration.ice_transport_policy() == RTCIceTransportPolicy::Relay);
}

#[test]
fn without_a_runtime_nothing_is_built() {
    let (mut pc, plan) = fresh(false);
    assert!(plan.is_none());
    assert!(!pc.is_building());
    assert_eq!(pc.state_watch(), ConnectionPhase::Failed);
    assert!(pc.is_closed());
    for next in [pc.create_offer(Stage::Called), pc.wait_connected(Wake::Called)] {
        assert!(matches!(next, Next::Fail(WebrtcError::Closed)));
    }
    for next in [pc.create_offer(Stage::Waited), pc.wait_connected(Wake::Changed)] {
        assert!(matches!(
            next,
            Next::Fail(WebrtcError::Other(why))
                if why == "peer connection requires a running tokio runtime"
        ));
    }
    let refused = pc.create_data_channel("d".to_string(), true, None, false).err().unwrap();
    assert!(matches!(
        refused,
        WebrtcError::Other(why) if why == "peer connection requires a running tokio runtime"
    ));
    assert_eq!(pc.pending_channels(), 0);
}

#[test]
fn methods_wait_for_the_build() {
    let (mut pc, _) = fresh(true);
    assert!(matches!(pc.create_offer(Stage::Called), Next::Wait));
    assert!(matches!(pc.add_ice_candidate(Stage::Called), Next::Wait));
    assert!(matches!(pc.wait_connected(Wake::Called), Next::Wait));
    assert!(matches!(
        pc.set_remote_description(Stage::Called, SdpKind::Offer, "junk".to_string()),
        Next::Wait
    ));
    pc.on_build_failed("no socket");
    assert_eq!(pc.state_watch(), ConnectionPhase::Failed);
    assert!(matches!(
        pc.create_offer(Stage::Waited),
        Next::Fail(WebrtcError::Other(why)) if why == "no socket"
    ));
    assert!(matches!(
        pc.wait_connected(Wake::Changed),
        Next::Fail(WebrtcError::Other(why)) if why == "no socket"
    ));
    assert!(pc.is_closed());
    assert!(matches!(pc.create_offer(Stage::Called), Next::Fail(WebrtcError::Closed)));
    assert!(matches!(pc.wait_connected(Wake::Called), Next::Fail(WebrtcError::Closed)));
}

#[test]
fn a_build_may_be_cancelled() {
    let (mut pc, _) = fresh(true);
    pc.on_build_cancelled();
    assert_eq!(pc.state_watch(), ConnectionPhase::New);
    assert!(matches!(
        pc.create_answer(Stage::Waited),
        Next::Fail(WebrtcError::Other(why)) if why == "peer connection build was cancelled"
    ));
}

#[test]
fn descriptions_wait_for_channels() {
    let mut pc = built();
    let request = pc
        .create_data_channel("chat".to_string(), false, Some(3), true)
        .unwrap_or_else(|_| panic!());
    assert_eq!(request.label, "chat");
    assert!(!request.ordered);
    assert_eq!(request.max_retransmits, Some(3));
    assert_eq!(request.max_inbound_buffer_bytes, 1000);
    assert_eq!(pc.pending_channels(), 1);
    assert!(matches!(pc.create_offer(Stage::Called), Next::Wait));
    assert!(matches!(pc.create_answer(Stage::Called), Next::Wait));
    assert!(matches!(pc.add_ice_candidate(Stage::Called), Next::Go(())));
    assert!(matches!(pc.register_channel(), Next::Go(())));
    assert_eq!(pc.pending_channels(), 1);
    pc.on_channel_registered();
    assert!(matches!(pc.create_offer(Stage::Waited), Next::Go(())));
    assert!(matches!(pc.create_answer(Stage::Waited), Next::Go(())));
}

#[test]
fn a_failed_build_settles_its_channels() {
    let (mut pc, _) = fresh(true);
    assert!(pc.create_data_channel("d".to_string(), true, None, true).is_ok());
    assert!(matches!(pc.register_channel(), Next::Wait));
    pc.on_build_failed("gone");
    assert!(matches!(
        pc.register_channel(),
        Next::Fail(WebrtcError::Other(why)) if why == "gone"
    ));
    assert_eq!(pc.pending_channels(), 0);
}

#[test]
fn closing_is_idempotent_and_tears_down_once() {
    let mut pc = built();
    assert!(pc.ensure_open().is_ok());
    assert_eq!(pc.close(true), Teardown::After(Duration::from_secs(CLOSE_DRAIN_SECS)));
    assert_eq!(CLOSE_DRAIN_SECS, 1);
    assert_eq!(pc.close(true), Teardown::Nothing);
    assert_eq!(pc.close(false), Teardown::Nothing);
    assert!(pc.is_closed());
    assert!(matches!(pc.ensure_open(), Err(WebrtcError::Closed)));
    assert_eq!(pc.state_watch(), ConnectionPhase::Closed);
    assert!(matches!(pc.create_offer(Stage::Called), Next::Fail(WebrtcError::Closed)));
    assert!(matches!(pc.add_ice_candidate(Stage::Called), Next::Fail(WebrtcError::Closed)));
    let mut pc = built();
    assert_eq!(pc.close(false), Teardown::Now);
}

#[test]
fn a_close_that_races_the_build_still_tears_down() {
    let (mut pc, _) = fresh(true);
    assert_eq!(pc.close(true), Teardown::Nothing);
    assert!(pc.is_building());
    assert!(matches!(pc.create_offer(Stage::Waited), Next::Fail(WebrtcError::Closed)));
    assert!(matches!(pc.wait_connected(Wake::Changed), Next::Fail(WebrtcError::Closed)));
    assert_eq!(pc.on_built(), Teardown::Now);
    assert!(matches!(pc.create_answer(Stage::Waited), Next::Fail(WebrtcError::Closed)));
    assert_eq!(pc.close(true), Teardown::Nothing);
}

#[test]
fn terminal_phases_latch() {
    let mut pc = built();
    pc.on_connection_state(TransportState::Connecting);
    assert_eq!(pc.state_watch(), ConnectionPhase::Connecting);
    pc.on_connection_state(TransportState::Unspecified);
    assert_eq!(pc.state_watch(), ConnectionPhase::Connecting);
    pc.close(true);
    pc.on_connection_state(TransportState::Failed);
    assert_eq!(pc.state_watch(), ConnectionPhase::Closed);
    assert!(pc.state_watch().is_terminal());

    let mut pc = built();
    pc.on_connection_state(TransportState::Failed);
    pc.on_connection_state(TransportState::Connected);
    assert_eq!(pc.state_watch(), ConnectionPhase::Failed);
    assert!(pc.is_closed());
    assert_eq!(pc.close(true), Teardown::After(Duration::from_secs(1)));
    assert_eq!(pc.state_watch(), ConnectionPhase::Failed);
}

#[test]
fn waiting_for_the_connection() {
    let mut pc = built();
    assert_eq!(pc.connect_timeout(), Duration::from_secs(5));
    assert!(matches!(pc.wait_connected(Wake::Changed), Next::Wait));
    assert!(matches!(pc.wait_connected(Wake::Deadline), Next::Fail(WebrtcError::TimedOut)));
    pc.on_connection_state(TransportState::Disconnected);
    assert!(matches!(pc.wait_connected(Wake::Changed), Next::Wait));
    pc.on_connection_state(TransportState::Connected);
    assert!(matches!(pc.wait_connected(Wake::Changed), Next::Go(())));
    for end in [TransportState::Failed, TransportState::Closed] {
        let mut pc = built();
        pc.on_connection_state(TransportState::Connected);
        pc.on_connection_state(end);
        assert!(matches!(pc.wait_connected(Wake::Changed), Next::Go(())));
        assert!(matches!(pc.wait_connected(Wake::Called), Next::Fail(WebrtcError::Closed)));
        assert!(matches!(pc.create_offer(Stage::Waited), Next::Fail(WebrtcError::Closed)));
        pc.close(true);
        assert!(matches!(pc.wait_connected(Wake::Changed), Next::Fail(WebrtcError::Closed)));

        let mut pc = built();
        pc.on_connection_state(end);
        assert!(matches!(pc.wait_connected(Wake::Changed), Next::Fail(WebrtcError::Closed)));
        pc.on_connection_state(TransportState::Connected);
        assert!(matches!(pc.wait_connected(Wake::Changed), Next::Fail(WebrtcError::Closed)));
    }
}

#[test]
fn a_close_ends_every_operation() {
    for reached in [false, true] {
        let mut pc = built();
        assert!(pc.create_data_channel("d".to_string(), true, None, true).is_ok());
        if reached {
            pc.on_connection_state(TransportState::Connected);
        }
        pc.close(true);
        for wake in [Wake::Called, Wake::Changed, Wake::Deadline] {
            assert!(matches!(pc.wait_connected(wake), Next::Fail(WebrtcError::Closed)));
        }
        for stage in [Stage::Called, Stage::Waited] {
            assert!(matches!(pc.create_offer(stage), Next::Fail(WebrtcError::Closed)));
            assert!(matches!(pc.create_answer(stage), Next::Fail(WebrtcError::Closed)));
            assert!(matches!(pc.add_ice_candidate(stage), Next::Fail(WebrtcError::Closed)));
        }
        assert!(matches!(pc.register_channel(), Next::Fail(WebrtcError::Closed)));
        assert_eq!(pc.pending_channels(), 0);
    }
}

#[test]
fn streams_are_taken_once() {
    let mut pc = built();
    assert!(pc.take_local_candidates() && !pc.take_local_candidates());
    assert!(pc.take_incoming_channels() && !pc.take_incoming_channels());
    assert!(pc.take_state_stream() && !pc.take_state_stream());
}

#[test]
fn candidates_trickle_until_gathering_is_complete() {
    let mut pc = built();
    let host = CandidateHostConfig {
        base_config: CandidateConfig {
            network: "udp".to_string(),
            address: "192.0.2.1".to_string(),
            port: 4242,
            component: 1,
            ..Default::default()
        },
        ..Default::default()
    }
    .new_candidate_host()
    .unwrap();
    let candidate = RTCIceCandidate::from(&host);
    let local = pc.on_ice_candidate(&candidate).unwrap();
    assert!(local.candidate.starts_with("candidate:"));
    assert!(local.candidate.contains(" 192.0.2.1 4242 typ host"));
    assert_eq!(local.sdp_mid.as_deref(), Some(""));
    assert_eq!(local.sdp_mline_index, Some(0));
    let apart = RTCIceCandidate { component: 300, priority: 0, ..candidate.clone() };
    assert!(pc.on_ice_candidate(&apart).is_none());
    let ranked = RTCIceCandidate { component: 300, ..candidate.clone() };
    assert!(pc.on_ice_candidate(&ranked).unwrap().candidate.contains(" 300 udp "));
    pc.on_gathering_complete();
    assert!(pc.on_ice_candidate(&candidate).is_none());
}

#[test]
fn descriptions_are_read_once_the_connection_is_there() {
    let pc = built();
    let text = sdp();
    match pc.set_remote_description(Stage::Called, SdpKind::Offer, text.clone()) {
        Next::Go(description) => assert_eq!(description.sdp, text),
        _ => panic!("refused"),
    }
    for kind in [SdpKind::Offer, SdpKind::Answer, SdpKind::Pranswer] {
        let description = to_rtc_description(kind, text.clone()).unwrap_or_else(|_| panic!());
        let name = match kind {
            SdpKind::Offer => "offer",
            SdpKind::Answer => "answer",
            SdpKind::Pranswer => "pranswer",
        };
        assert_eq!(format!("{}", description.sdp_type), name);
        assert!(matches!(
            to_rtc_description(kind, "not an sdp".to_string()),
            Err(WebrtcError::InvalidSignaling(why)) if !why.is_empty()
        ));
    }
    assert!(matches!(
        pc.set_local_description(Stage::Called, SdpKind::Answer, "junk".to_string()),
        Next::Fail(WebrtcError::InvalidSignaling(_))
    ));
}

#[test]
fn failures_by_their_source() {
    assert!(matches!(other("a"), WebrtcError::Other(why) if why == "a"));
    assert!(matches!(invalid_signaling("b"), WebrtcError::InvalidSignaling(why) if why == "b"));
}

#[test]
fn where_connections_are_torn_down() {
    assert_eq!(close_peer_connections(0, true), CloseRun::Nowhere);
    assert_eq!(close_peer_connections(0, false), CloseRun::Nowhere);
    assert_eq!(close_peer_connections(1, true), CloseRun::OnRuntime);
    assert_eq!(close_peer_connections(2, false), CloseRun::OnOwnThread);
}

#[test]
fn incoming_channels_keep_their_order() {
    let mut queue = IncomingQueue::new(true);
    queue.on_data_channel("a");
    queue.on_data_channel("b");
    assert_eq!(queue.next_channel(), Some("a"));
    queue.on_data_channel("c");
    assert_eq!(queue.next_channel(), Some("b"));
    assert_eq!(queue.next_channel(), Some("c"));
    assert_eq!(queue.next_channel(), None);
    let mut lost = IncomingQueue::new(false);
    lost.on_data_channel("a");
    assert_eq!(lost.next_channel(), None);
}

#[test]
fn incoming_channels_are_labelled() {
    let pc = built();
    let channel = pc.incoming_channel(Some("chat".to_string()));
    assert_eq!((channel.label.as_str(), channel.max_inbound_buffer_bytes), ("chat", 1000));
    assert_eq!(pc.incoming_channel(None).label, "");
}
