use webrtc_datachannels::candidate::{description_ranks, line_ranks};

#[test]
fn lines_by_whether_their_priority_can_be_told() {
    assert!(line_ranks("candidate:1 1 udp 2130706431 10.0.0.1 9 typ host"));
    assert!(line_ranks("candidate:1 256 udp 0 10.0.0.1 9 typ host"));
    assert!(!line_ranks("candidate:1 257 udp 0 10.0.0.1 9 typ host"));
    assert!(!line_ranks("1 65535 udp +000 10.0.0.1 9 typ host"));
    assert!(!line_ranks("candidate:\t1\u{a0}300  udp 0 10.0.0.1 9 typ host"));
    assert!(line_ranks("candidate:1 300 udp 1 10.0.0.1 9 typ host"));
    assert!(line_ranks("candidate:1 300 udp 0 10.0.0.1 9 typ"));
    assert!(line_ranks("candidate:1 65536 udp 0 10.0.0.1 9 typ host"));
    assert!(line_ranks("candidate:1 x udp 0 10.0.0.1 9 typ host"));
    assert!(line_ranks("candidate:1 300 udp 4294967296 10.0.0.1 9 typ host"));
    assert!(line_ranks(""));
}

#[test]
fn descriptions_by_whether_their_priorities_can_be_told() {
    let bad = "candidate:1 300 udp 0 10.0.0.1 9 typ host";
    let good = "candidate:1 1 udp 0 10.0.0.1 9 typ host";
    let media = "m=application 9 UDP/DTLS/SCTP webrtc-datachannel\r\n";
    assert!(description_ranks(""));
    assert!(description_ranks(&format!("v=0\r\n{media}a={good}\r\n")));
    assert!(!description_ranks(&format!("v=0\r\n{media}a={good}\r\na={bad}\r\n")));
    assert!(!description_ranks(&format!("{media}a= {bad}\na={good}")));
    assert!(!description_ranks(&format!("{media}\r\ra={bad}")));
    assert!(description_ranks(&format!("{media}s={bad}\n")));
    assert!(description_ranks(&format!("{media}a=x-{bad}\n")));
    assert!(description_ranks(&format!("v=0\r\na={bad}\r\n{media}a={good}\r\n")));
    assert!(description_ranks(&format!("{media}a={bad}\r\na=inactive\r\n")));
    assert!(description_ranks(&format!("{media}a=inactive:x\r\na={bad}\r\n")));
    assert!(!description_ranks(&format!("{media}a=inactive :x\r\na={bad}\r\n")));
    assert!(!description_ranks(&format!("{media}a=inactive\r\n{media}a={bad}\r\n")));
    assert!(!description_ranks(&format!("{media}a={bad}\r\n{media}a=inactive\r\n")));
}
