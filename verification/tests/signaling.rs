use webrtc_datachannels::context::Duration;
use webrtc_datachannels::mailbox::{
    mailbox_error, FetchStep, MailboxError, MailboxSession, PostOutcome,
};
use webrtc_datachannels::signaling::{
    base_url, delete_room, delete_room_reply, error, fetch, fetch_reply, healthz, mark_done,
    mark_done_reply, publish, publish_reply, role_str, valid_room, Body, Config, Fetch, Field,
    Publish, Response, Role,
};

fn members(response: &Response) -> Vec<(&str, String)> {
    match &response.body {
        Body::Json(members) => members
            .iter()
            .map(|(name, value)| {
                let value = match value {
                    Field::Text(t) => format!("{t:?}"),
                    Field::Number(n) => format!("{n}"),
                    Field::Flag(b) => format!("{b}"),
                };
                (name.as_str(), value)
            })
            .collect(),
        other => panic!("{other:?}"),
    }
}

fn headers(response: &Response) -> Vec<(&str, &str)> {
    response.headers.iter().map(|(k, v)| (k.as_str(), v.as_str())).collect()
}

#[test]
fn server_defaults() {
    let config = Config::with_limits(7u8);
    assert_eq!(config.long_poll, Duration::from_millis(25_000));
    assert_eq!(config.max_blob_bytes, 262_144);
    assert_eq!(config.limits, 7);
    assert_eq!(config.eviction_interval, Duration::from_secs(30));
    assert_eq!(base_url("127.0.0.1:81"), "http://127.0.0.1:81");
}

#[test]
fn room_names() {
    assert!(valid_room("a.B_9-"));
    assert!(valid_room(&"x".repeat(128)));
    for bad in ["", "a b", "a/b", "é", "a\n", &"x".repeat(129)] {
        assert!(!valid_room(bad), "{bad:?}");
    }
}

#[test]
fn roles_read_back() {
    for role in [Role::Offerer, Role::Answerer] {
        assert_eq!(Role::parse(role_str(role)), Some(role));
    }
    assert_eq!(Role::parse("Offerer"), None);
}

#[test]
fn health() {
    let up = healthz();
    assert_eq!(up.status, 200);
    assert!(matches!(&up.body, Body::Text(t) if t == "ok"));
}

#[test]
fn publishing() {
    assert!(matches!(publish("r", "offerer", 5, 5), Ok(Role::Offerer)));
    let refused = publish("", "nope", 9, 5).err().unwrap();
    assert_eq!(refused.status, 400);
    assert_eq!(members(&refused), vec![("error", "\"bad-room\"".to_string())]);
    let refused = publish("r", "nope", 9, 5).err().unwrap();
    assert_eq!(members(&refused), vec![("error", "\"bad-role\"".to_string())]);
    let refused = publish("r", "answerer", 6, 5).err().unwrap();
    assert_eq!(refused.status, 413);
    assert_eq!(
        members(&refused),
        vec![("error", "\"too-large\"".to_string()), ("limit", "5".to_string())]
    );
    let reply = publish_reply(Publish::Stored(3));
    assert_eq!(reply.status, 200);
    assert_eq!(members(&reply), vec![("seq", "3".to_string())]);
    let reply = publish_reply(Publish::Done);
    assert_eq!(reply.status, 409);
    assert_eq!(members(&reply), vec![("error", "\"done\"".to_string())]);
    let reply = publish_reply(Publish::Capacity);
    assert_eq!(reply.status, 429);
    assert_eq!(members(&reply), vec![("error", "\"capacity\"".to_string())]);
}

#[test]
fn fetching() {
    let long_poll = Duration::from_secs(25);
    let request = fetch("r", "answerer", Some("4"), None, long_poll).unwrap_or_else(|_| panic!());
    assert_eq!((request.role, request.seq, request.wait), (Role::Answerer, 4, long_poll));
    let request =
        fetch("r", "offerer", Some("0"), Some(1500), long_poll).unwrap_or_else(|_| panic!());
    assert_eq!((request.wait.secs, request.wait.nanos), (1, 500_000_000));
    for seq in [None, Some(""), Some("-1"), Some("x"), Some("99999999999999999999999")] {
        let refused = fetch("r", "offerer", seq, None, long_poll).err().unwrap();
        assert_eq!(refused.status, 400);
        assert_eq!(members(&refused), vec![("error", "\"bad-seq\"".to_string())]);
    }
    let refused = fetch("r r", "offerer", Some("0"), None, long_poll).err().unwrap();
    assert_eq!(members(&refused), vec![("error", "\"bad-room\"".to_string())]);

    let reply = fetch_reply(4, Fetch::Blob(vec![1, 2]));
    assert_eq!(reply.status, 200);
    assert_eq!(
        headers(&reply),
        vec![("x-seq", "4"), ("content-type", "application/octet-stream")]
    );
    assert!(matches!(&reply.body, Body::Bytes(b) if *b == vec![1, 2]));
    let reply = fetch_reply(4, Fetch::Done);
    assert_eq!((reply.status, headers(&reply)), (204, vec![("x-done", "true")]));
    assert!(matches!(&reply.body, Body::Empty));
    let reply = fetch_reply(4, Fetch::Pending);
    assert_eq!((reply.status, headers(&reply)), (304, vec![("x-seq", "4")]));
}

#[test]
fn marking_done_and_deleting() {
    assert!(matches!(mark_done("r", "answerer"), Ok(Role::Answerer)));
    assert_eq!(mark_done("r", "x").err().unwrap().status, 400);
    let reply = mark_done_reply(2);
    assert_eq!(
        members(&reply),
        vec![("done", "true".to_string()), ("len", "2".to_string())]
    );
    assert!(delete_room("r").is_none());
    assert_eq!(delete_room("").unwrap().status, 400);
    assert_eq!(members(&delete_room_reply(false)), vec![("deleted", "false".to_string())]);
}

#[test]
fn errors_carry_their_detail() {
    let refused = error(418, "teapot", Some("short"));
    assert_eq!(refused.status, 418);
    assert_eq!(
        members(&refused),
        vec![("error", "\"teapot\"".to_string()), ("detail", "\"short\"".to_string())]
    );
}

#[test]
fn sessions_meet_in_a_room() {
    let a = MailboxSession::open("http://h/", "r-1".to_string(), Role::Offerer);
    let b = MailboxSession::open("http://h", "r-1".to_string(), Role::Answerer);
    assert_eq!(a.send_url(), "http://h/rooms/r-1/offerer");
    assert_eq!(a.done_url(), "http://h/rooms/r-1/offerer/done");
    assert_eq!(b.recv_url(), "http://h/rooms/r-1/offerer?seq=0&wait=10000");
    assert_eq!(a.recv_url(), "http://h/rooms/r-1/answerer?seq=0&wait=10000");
    assert_eq!((a.own_role(), a.peer_role()), ("offerer", "answerer"));
}

#[test]
fn posts_and_what_they_come_to() {
    let s = MailboxSession::open("h", "r".to_string(), Role::Offerer);
    assert!(s.send(PostOutcome::Answered { status: 200, text: "200 OK" }).is_ok());
    let failed = s.send(PostOutcome::Answered { status: 409, text: "409 Conflict" }).err().unwrap();
    assert!(matches!(
        &failed,
        MailboxError::Other(d) if d == "mailbox: publish status 409 Conflict"
    ));
    let failed = s.done(PostOutcome::Failed("refused")).err().unwrap();
    assert!(matches!(&failed, MailboxError::Other(d) if d == "mailbox: refused"));
    let failed = s.done(PostOutcome::Answered { status: 300, text: "300" }).err().unwrap();
    assert!(matches!(&failed, MailboxError::Other(d) if d == "mailbox: done status 300"));
    assert!(matches!(mailbox_error("x"), MailboxError::Other(d) if d == "mailbox: x"));
}

#[test]
fn blobs_come_in_order() {
    let mut s = MailboxSession::open("h", "r".to_string(), Role::Answerer);
    assert!(matches!(s.fetch_next(304), FetchStep::Retry));
    assert!(matches!(s.fetch_next(200), FetchStep::ReadBlob));
    assert_eq!(s.take_blob(0, Ok(vec![7])).unwrap_or_default(), vec![7]);
    assert_eq!(s.recv_url(), "h/rooms/r/offerer?seq=1&wait=10000");
    assert!(s.take_blob(1, Err("cut".to_string())).is_err());
    assert_eq!(s.recv_seq, 1);
    assert!(matches!(s.fetch_next(204), FetchStep::Finished));
    assert!(matches!(
        s.fetch_next(500),
        FetchStep::Fail(MailboxError::Other(d)) if d == "mailbox: fetch status 500"
    ));
}

#[test]
fn sessions_understand_the_replies() {
    let s = MailboxSession::open("h", "r".to_string(), Role::Answerer);
    assert!(matches!(
        s.fetch_next(fetch_reply(0, Fetch::Blob(Vec::new())).status),
        FetchStep::ReadBlob
    ));
    assert!(matches!(s.fetch_next(fetch_reply(0, Fetch::Done).status), FetchStep::Finished));
    assert!(matches!(s.fetch_next(fetch_reply(0, Fetch::Pending).status), FetchStep::Retry));
}
