use std::time::{Duration, Instant};

use bytes::BytesMut;
use rtc::peer_connection::event::{RTCDataChannelEvent, RTCPeerConnectionEvent};
use rtc::peer_connection::message::RTCMessage;
use rtc::peer_connection::state::RTCPeerConnectionState;
use rtc::sansio::Protocol;
use rtc::shared::{TaggedBytesMut, TransportContext, TransportProtocol};
use webrtc_datachannels::peer::{
    channel_opened, drain, event_told, local_sdp, message_told, send_outcome, PeerError, PeerEvent,
    SansIoPeer, StackEvent, StackMessage, TIMER_SECS,
};

const OFFERER: &str = "127.0.0.1:40001";
const ANSWERER: &str = "127.0.0.1:40002";

fn peer() -> SansIoPeer {
    SansIoPeer::new().unwrap_or_else(|e| panic!("{}", e.message()))
}

fn good<T>(r: Result<T, PeerError>) -> T {
    r.unwrap_or_else(|e| panic!("{}", e.message()))
}

/// Hands the datagrams of one peer to the other.
fn carry(from: &mut SansIoPeer, from_addr: &str, to: &mut SansIoPeer, to_addr: &str, now: Instant) {
    let transport = TransportContext {
        local_addr: to_addr.parse().unwrap(),
        peer_addr: from_addr.parse().unwrap(),
        ecn: None,
        transport_protocol: TransportProtocol::UDP,
    };
    while let Some(sent) = from.pc.poll_write() {
        if sent.transport.peer_addr == transport.local_addr {
            let message = BytesMut::from(&sent.message[..]);
            let _ = to.pc.handle_read(TaggedBytesMut { now, transport, message });
        }
    }
}

/// Polls a peer and drains what was polled.
fn drain_events(peer: &mut SansIoPeer) -> Vec<PeerEvent> {
    let mut events = Vec::new();
    while let Some(event) = peer.pc.poll_event() {
        let event = match event {
            RTCPeerConnectionEvent::OnConnectionStateChangeEvent(state) => match state {
                RTCPeerConnectionState::Connected => StackEvent::Connected,
                RTCPeerConnectionState::Closed => StackEvent::Closed,
                _ => StackEvent::Other,
            },
            RTCPeerConnectionEvent::OnDataChannel(RTCDataChannelEvent::OnOpen(id)) => {
                StackEvent::ChannelOpened(id)
            }
            RTCPeerConnectionEvent::OnDataChannel(RTCDataChannelEvent::OnClose(id)) => {
                StackEvent::ChannelClosed(id)
            }
            _ => StackEvent::Other,
        };
        events.push(peer.noticed(event));
    }
    let mut messages = Vec::new();
    while let Some(message) = peer.pc.poll_read() {
        messages.push(match message.message {
            RTCMessage::DataChannelMessage(id, message) => StackMessage::Channel {
                id,
                text: message.is_string,
                data: message.data.to_vec(),
            },
            _ => StackMessage::Other,
        });
    }
    drain(events, messages)
}

/// Steps both peers until a condition holds of what they reported.
fn step_until(
    a: &mut SansIoPeer,
    b: &mut SansIoPeer,
    seen: &mut (Vec<PeerEvent>, Vec<PeerEvent>),
    done: fn(&(Vec<PeerEvent>, Vec<PeerEvent>)) -> bool,
) {
    let mut now = Instant::now();
    for _ in 0..2000 {
        carry(a, OFFERER, b, ANSWERER, now);
        carry(b, ANSWERER, a, OFFERER, now);
        seen.0.extend(drain_events(a));
        seen.1.extend(drain_events(b));
        if done(seen) {
            return;
        }
        now += Duration::from_millis(10);
        assert!(a.handle_timeout(now) && b.handle_timeout(now));
    }
    panic!("the peers did not get there: {seen:?}");
}

fn opened(events: &[PeerEvent]) -> bool {
    events.iter().any(|e| matches!(e, PeerEvent::ChannelOpen { .. }))
}

fn messages(events: &[PeerEvent]) -> usize {
    events.iter().filter(|e| matches!(e, PeerEvent::Message { .. })).count()
}

/// Two peers with one open channel between them.
fn pair() -> (SansIoPeer, SansIoPeer, usize, (Vec<PeerEvent>, Vec<PeerEvent>)) {
    let (mut a, mut b) = (peer(), peer());
    let id = good(a.create_data_channel("chat", true, None));
    let line_a = good(a.add_local_host_candidate("127.0.0.1", 40001));
    let line_b = good(b.add_local_host_candidate("127.0.0.1", 40002));
    let offer = good(a.create_offer());
    good(b.set_remote_offer(offer));
    let answer = good(b.create_answer());
    good(a.set_remote_answer(answer));
    good(a.add_remote_candidate(line_b));
    good(b.add_remote_candidate(line_a));
    let mut seen = (Vec::new(), Vec::new());
    step_until(&mut a, &mut b, &mut seen, |s| opened(&s.0) && opened(&s.1));
    (a, b, id, seen)
}

#[test]
fn peers_connect_and_exchange_messages() {
    let (mut a, mut b, id, mut seen) = pair();
    assert!(seen.0.iter().any(|e| matches!(e, PeerEvent::Connected)));
    assert!(seen.0.iter().any(|e| matches!(
        e,
        PeerEvent::ChannelOpen { id: opened, label } if *opened == id && label == "chat"
    )));
    let remote = seen
        .1
        .iter()
        .find_map(|e| match e {
            PeerEvent::ChannelOpen { id, label } => Some((*id, label.clone())),
            _ => None,
        })
        .unwrap();
    assert_eq!(remote.1, "chat");
    seen = (Vec::new(), Vec::new());
    good(a.send_text(id, "héllo"));
    good(a.send_binary(id, &[0, 1, 255]));
    assert_eq!(a.channel_outstanding_bytes(id), 9);
    step_until(&mut a, &mut b, &mut seen, |s| messages(&s.1) == 2);
    let got: Vec<(usize, bool, Vec<u8>)> = seen
        .1
        .iter()
        .filter_map(|e| match e {
            PeerEvent::Message { id, text, data } => Some((*id, *text, data.clone())),
            _ => None,
        })
        .collect();
    assert_eq!(
        got,
        vec![(remote.0, true, "héllo".as_bytes().to_vec()), (remote.0, false, vec![0, 1, 255])]
    );
}

#[test]
fn closed_channels_and_peers_are_reported() {
    let (mut a, mut b, id, _) = pair();
    let mut seen = (Vec::new(), Vec::new());
    a.close_data_channel(id);
    step_until(&mut a, &mut b, &mut seen, |s| {
        s.1.iter().any(|e| matches!(e, PeerEvent::ChannelClosed { .. }))
    });
    let _ = a.pc.close();
    assert!(drain_events(&mut a).iter().any(|e| matches!(e, PeerEvent::Closed)));
    assert!(matches!(a.create_data_channel("late", true, None), Err(PeerError::Stack(_))));
}

#[test]
fn channels_get_ids_of_their_own() {
    let mut a = peer();
    let first = good(a.create_data_channel("x", true, None));
    let second = good(a.create_data_channel("x", false, Some(2)));
    assert_ne!(first, second);
    assert_eq!(a.channel_outstanding_bytes(first), 0);
}

#[test]
fn sends_need_a_channel_that_is_open() {
    let mut a = peer();
    let refused = a.send_text(7, "x").err().unwrap();
    assert!(matches!(refused, PeerError::NoChannel(7)));
    assert_eq!(refused.message(), "no data channel with id 7");
    assert!(matches!(a.send_binary(7, b"x"), Err(PeerError::NoChannel(7))));
    assert_eq!(a.channel_outstanding_bytes(7), 0);
    a.close_data_channel(7);
    let id = good(a.create_data_channel("x", true, None));
    let refused = a.send_text(id, "x").err().unwrap();
    assert!(matches!(&refused, PeerError::Stack(_)));
    assert!(!refused.message().is_empty());
    assert!(matches!(a.send_binary(id, b"x"), Err(PeerError::Stack(_))));
}

#[test]
fn descriptions_are_offered_and_answered() {
    let mut a = peer();
    good(a.create_data_channel("x", true, None));
    let offer = good(a.create_offer());
    assert!(offer.starts_with("v=0"));
    assert!(offer.contains("m=application"));
    let mut b = peer();
    assert!(matches!(b.create_answer(), Err(PeerError::Stack(_))));
    good(b.set_remote_offer(offer.clone()));
    let answer = good(b.create_answer());
    assert!(answer.contains("m=application"));
    assert!(matches!(a.set_remote_answer("junk".to_string()), Err(PeerError::Stack(_))));
    assert!(matches!(b.set_remote_offer("junk".to_string()), Err(PeerError::Stack(_))));
    good(a.set_remote_answer(answer));
}

#[test]
fn host_candidates_are_lines() {
    let mut a = peer();
    let line = good(a.add_local_host_candidate("192.0.2.7", 5000));
    assert!(line.starts_with("candidate:"));
    assert!(line.contains(" 1 udp "));
    assert!(line.contains(" 192.0.2.7 5000 typ host"));
    assert_eq!(good(peer().add_local_host_candidate("192.0.2.7", 5000)), line);
    assert!(matches!(a.add_local_host_candidate("not an ip", 1), Err(PeerError::Stack(_))));
}

#[test]
fn fresh_peers_hold_nothing() {
    let mut a = peer();
    assert!(drain_events(&mut a).is_empty());
    assert_eq!(a.noticed(StackEvent::ChannelOpened(0)), (StackEvent::ChannelOpened(0), None));
    assert_eq!(a.channel_outstanding_bytes(0), 0);
}

#[test]
fn a_drained_peer_has_nothing_more_to_tell() {
    let (mut a, mut b, id, _) = pair();
    drain_events(&mut a);
    drain_events(&mut b);
    assert!(drain_events(&mut a).is_empty());
    let mut seen = (Vec::new(), Vec::new());
    good(a.send_text(id, "once"));
    step_until(&mut a, &mut b, &mut seen, |s| messages(&s.1) == 1);
    assert!(drain_events(&mut b).is_empty());
    assert!(drain(Vec::new(), Vec::new()).is_empty());
}

#[test]
fn candidates_without_a_priority_are_refused() {
    let (mut a, mut b) = (peer(), peer());
    good(a.create_data_channel("x", true, None));
    good(b.add_local_host_candidate("127.0.0.1", 40002));
    let offer = good(a.create_offer());
    let line = "candidate:1 300 udp 0 10.0.0.1 9 typ host";
    let described = format!("{offer}a={line}\r\n");
    let refused = b.set_remote_offer(described).err().unwrap();
    assert!(matches!(refused, PeerError::NoPriority));
    assert_eq!(refused.message(), "a candidate of a component above 256 bears no priority");
    let at_session = offer.replacen("m=", &format!("a={line}\r\nm="), 1);
    good(peer().set_remote_offer(at_session));
    good(b.set_remote_offer(format!("{offer}a=candidate:1 300 udp 7 10.0.0.1 9 typ host\r\n")));
    assert!(matches!(b.add_remote_candidate(line.to_string()), Err(PeerError::NoPriority)));
    good(b.add_remote_candidate("candidate:1 300 udp 7 10.0.0.2 9 typ host".to_string()));
    good(b.add_remote_candidate("candidate:1 256 udp 0 10.0.0.3 9 typ host".to_string()));
    assert!(matches!(
        b.add_remote_candidate("1 70000 udp 0 10.0.0.4 9 typ host".to_string()),
        Err(PeerError::Stack(_))
    ));
    let answer = good(b.create_answer());
    assert!(matches!(
        a.set_remote_answer(format!("{answer}a={line}\r\n")),
        Err(PeerError::NoPriority)
    ));
    good(a.set_remote_answer(answer));
}

#[test]
fn instants_leave_room_for_timers() {
    let mut late = Instant::now();
    let mut step = u64::MAX / 2;
    while step > 0 {
        late = late.checked_add(Duration::from_secs(step)).unwrap_or(late);
        step /= 2;
    }
    let mut a = peer();
    assert!(!a.handle_timeout(late));
    assert!(a.handle_timeout(late - Duration::from_secs(TIMER_SECS)));
    assert!(a.handle_timeout(Instant::now()));
    assert_eq!(TIMER_SECS, 60);
}

#[test]
fn remote_candidates_need_a_remote_description() {
    let mut a = peer();
    let line = good(a.add_local_host_candidate("127.0.0.1", 1));
    assert!(matches!(a.add_remote_candidate(line), Err(PeerError::Stack(_))));
}

#[test]
fn polled_events_and_messages_are_drained_in_order() {
    let mut a = peer();
    let id = good(a.create_data_channel("chat", true, None));
    let events = vec![
        (StackEvent::Other, None),
        (StackEvent::Connected, None),
        a.noticed(StackEvent::ChannelOpened(id)),
        a.noticed(StackEvent::ChannelOpened(id + 1)),
        a.noticed(StackEvent::ChannelClosed(id)),
        (StackEvent::Disconnected, None),
        (StackEvent::Failed, None),
    ];
    let messages = vec![
        StackMessage::Channel { id, text: true, data: vec![104] },
        StackMessage::Other,
        StackMessage::Channel { id, text: false, data: vec![0] },
    ];
    let told: Vec<String> =
        drain(events, messages).iter().map(|event| format!("{event:?}")).collect();
    assert_eq!(
        told,
        vec![
            "Connected".to_string(),
            format!("ChannelOpen {{ id: {id}, label: \"chat\" }}"),
            format!("ChannelOpen {{ id: {}, label: \"\" }}", id + 1),
            format!("ChannelClosed {{ id: {id} }}"),
            "Closed".to_string(),
            "Failed".to_string(),
            format!("Message {{ id: {id}, text: true, data: [104] }}"),
            format!("Message {{ id: {id}, text: false, data: [0] }}"),
        ]
    );
}

#[test]
fn events_of_the_stack_by_what_they_tell() {
    assert!(matches!(event_told(StackEvent::Connected), Some(PeerEvent::Connected)));
    assert!(matches!(event_told(StackEvent::Failed), Some(PeerEvent::Failed)));
    assert!(matches!(event_told(StackEvent::Disconnected), Some(PeerEvent::Closed)));
    assert!(matches!(event_told(StackEvent::Closed), Some(PeerEvent::Closed)));
    assert!(matches!(
        event_told(StackEvent::ChannelClosed(3)),
        Some(PeerEvent::ChannelClosed { id: 3 })
    ));
    assert!(event_told(StackEvent::ChannelOpened(3)).is_none());
    assert!(event_told(StackEvent::Other).is_none());
    assert!(matches!(
        channel_opened(3, Some("l".to_string())),
        PeerEvent::ChannelOpen { id: 3, label } if label == "l"
    ));
    assert!(matches!(
        channel_opened(3, None),
        PeerEvent::ChannelOpen { id: 3, label } if label.is_empty()
    ));
}

#[test]
fn messages_of_the_stack_by_what_they_tell() {
    let message = StackMessage::Channel { id: 2, text: true, data: vec![104] };
    assert!(matches!(
        message_told(message),
        Some(PeerEvent::Message { id: 2, text: true, data }) if data == vec![104]
    ));
    assert!(message_told(StackMessage::Other).is_none());
}

#[test]
fn replies_of_the_stack_by_what_they_come_to() {
    assert!(send_outcome(1, Some(Ok(()))).is_ok());
    assert!(matches!(send_outcome(1, None), Err(PeerError::NoChannel(1))));
    let missing = local_sdp(None).err().unwrap();
    assert_eq!(missing.message(), "no local description available");
}

#[test]
fn drained_messages_follow_other_events() {
    let (mut a, mut b, id, _) = pair();
    let mut seen = (Vec::new(), Vec::new());
    for i in 0..5u8 {
        good(a.send_binary(id, &[i]));
    }
    step_until(&mut a, &mut b, &mut seen, |s| messages(&s.1) == 5);
    let order: Vec<u8> = seen
        .1
        .iter()
        .filter_map(|e| match e {
            PeerEvent::Message { data, .. } => Some(data[0]),
            _ => None,
        })
        .collect();
    assert_eq!(order, vec![0, 1, 2, 3, 4]);
}
