//! The signaling server's HTTP mailbox protocol: which requests are taken, and
//! how each outcome is answered.

use vstd::prelude::*;

use crate::context::Duration;
use crate::text::{
    chars_of, decimal, decimal_text, number_value, numbers_round_trip, parse_number, same_text,
    text,
};

verus! {

/// A side of a pair.
#[derive(Clone, Copy, Debug, PartialEq, Eq, Structural)]
pub enum Role {
    /// The side that makes the offer.
    Offerer,
    /// The side that answers it.
    Answerer,
}

impl Role {
    /// The path segment of a role.
    pub open spec fn name(self) -> Seq<char> {
        match self {
            Role::Offerer => "offerer"@,
            Role::Answerer => "answerer"@,
        }
    }

    /// The other side.
    pub open spec fn peer(self) -> Role {
        match self {
            Role::Offerer => Role::Answerer,
            Role::Answerer => Role::Offerer,
        }
    }

    /// The role that a path segment names.
    pub open spec fn named(segment: Seq<char>) -> Option<Role> {
        if segment == "offerer"@ {
            Some(Role::Offerer)
        } else if segment == "answerer"@ {
            Some(Role::Answerer)
        } else {
            None
        }
    }

    /// Reads a role's path segment.
    pub fn parse(segment: &str) -> (r: Option<Role>)
        ensures
            r == Role::named(segment@),
    {
        if same_text(segment, "offerer") {
            Some(Role::Offerer)
        } else if same_text(segment, "answerer") {
            Some(Role::Answerer)
        } else {
            None
        }
    }
}

/// The path segment of a role.
pub fn role_str(role: Role) -> (r: &'static str)
    ensures
        r@ == role.name(),
{
    match role {
        Role::Offerer => "offerer",
        Role::Answerer => "answerer",
    }
}

/// A role's path segment names that role and no other.
pub proof fn role_names_round_trip(role: Role)
    ensures
        Role::named(role.name()) == Some(role),
        role.peer() != role,
        role.peer().peer() == role,
        role.peer().name() != role.name(),
{
    reveal_strlit("offerer");
    reveal_strlit("answerer");
    assert("offerer"@[0] != "answerer"@[0]);
}

/// Server configuration. `L` is the store's limits.
#[derive(Clone, Copy, Debug)]
pub struct Config<L> {
    /// Long-poll upper bound when a request omits `wait`.
    pub long_poll: Duration,
    /// Maximum accepted publish body size, in bytes.
    pub max_blob_bytes: usize,
    /// Store limits.
    pub limits: L,
    /// Interval at which expired rooms are swept.
    pub eviction_interval: Duration,
}

impl<L> Config<L> {
    /// The default configuration over the given store limits.
    pub fn with_limits(limits: L) -> (r: Self)
        ensures
            r.long_poll.wf(),
            r.long_poll.as_nanos() == 25_000_000_000,
            r.max_blob_bytes == 262_144,
            r.limits == limits,
            r.eviction_interval.wf(),
            r.eviction_interval.as_nanos() == 30_000_000_000,
    {
        Config {
            long_poll: Duration::from_millis(25_000),
            max_blob_bytes: 262_144,
            limits,
            eviction_interval: Duration::from_secs(30),
        }
    }
}

/// The base URL of a server at `addr`.
pub fn base_url(addr: &str) -> (r: String)
    ensures
        r@ == "http://"@ + addr@,
{
    let mut r: String = text("http://");
    r.append(addr);
    r
}

/// A character that a room name may hold.
pub open spec fn is_room_char(c: char) -> bool {
    'a' <= c <= 'z' || 'A' <= c <= 'Z' || '0' <= c <= '9' || c == '.' || c == '_' || c == '-'
}

/// A room name: 1 to 128 letters, digits, dots, underscores and dashes.
pub open spec fn is_room(room: Seq<char>) -> bool {
    &&& 1 <= room.len() <= 128
    &&& forall|i: int| 0 <= i < room.len() ==> is_room_char(#[trigger] room[i])
}

/// Whether a room name may hold `c`.
pub fn room_char(c: char) -> (r: bool)
    ensures
        r == is_room_char(c),
{
    ('a' <= c && c <= 'z') || ('A' <= c && c <= 'Z') || ('0' <= c && c <= '9') || c == '.' || c
        == '_' || c == '-'
}

/// Whether `room` is a room name.
pub fn valid_room(room: &str) -> (r: bool)
    ensures
        r == is_room(room@),
{
    let chars: Vec<char> = chars_of(room);
    if chars.len() == 0 || chars.len() > 128 {
        return false;
    }
    let mut i: usize = 0;
    while i < chars.len()
        invariant
            i <= chars@.len(),
            chars@ == room@,
            forall|j: int| 0 <= j < i ==> is_room_char(#[trigger] chars@[j]),
        decreases chars@.len() - i,
    {
        if !room_char(chars[i]) {
            assert(!is_room_char(room@[i as int]));
            return false;
        }
        i += 1;
    }
    true
}

/// What a publish came to.
#[derive(Clone, Copy, Debug, PartialEq, Eq, Structural)]
pub enum Publish {
    /// The blob is stored under this number.
    Stored(usize),
    /// The mailbox is done and takes no more.
    Done,
    /// The store is full.
    Capacity,
}

/// What a fetch came to.
#[derive(Debug)]
pub enum Fetch {
    /// The blob.
    Blob(Vec<u8>),
    /// The mailbox is done, without a blob of that number.
    Done,
    /// The blob did not arrive in time.
    Pending,
}

/// A value in a JSON object. `T` is the type of its texts.
#[derive(Debug)]
pub enum Field<T> {
    /// A string.
    Text(T),
    /// A number.
    Number(u64),
    /// A truth value.
    Flag(bool),
}

/// A response's body.
#[derive(Debug)]
pub enum Body {
    /// None.
    Empty,
    /// Plain text.
    Text(String),
    /// Bytes as they are.
    Bytes(Vec<u8>),
    /// A JSON object, by its members.
    Json(Vec<(String, Field<String>)>),
}

/// An HTTP response.
#[derive(Debug)]
pub struct Response {
    /// The status code.
    pub status: u16,
    /// The headers set besides those that the body brings.
    pub headers: Vec<(String, String)>,
    /// The body.
    pub body: Body,
}

impl View for Field<String> {
    type V = Field<Seq<char>>;

    open spec fn view(&self) -> Field<Seq<char>> {
        match self {
            Field::Text(t) => Field::Text(t@),
            Field::Number(n) => Field::Number(*n),
            Field::Flag(b) => Field::Flag(*b),
        }
    }
}

/// A [`Body`] by its contents.
pub enum BodyView {
    /// None.
    Empty,
    /// Plain text.
    Text(Seq<char>),
    /// Bytes as they are.
    Bytes(Seq<u8>),
    /// A JSON object, by its members.
    Json(Seq<(Seq<char>, Field<Seq<char>>)>),
}

impl View for Body {
    type V = BodyView;

    open spec fn view(&self) -> BodyView {
        match self {
            Body::Empty => BodyView::Empty,
            Body::Text(t) => BodyView::Text(t@),
            Body::Bytes(b) => BodyView::Bytes(b@),
            Body::Json(members) => BodyView::Json(
                members@.map_values(|m: (String, Field<String>)| (m.0@, m.1@)),
            ),
        }
    }
}

/// A [`Response`] by its contents.
pub struct ResponseView {
    /// The status code.
    pub status: u16,
    /// The headers.
    pub headers: Seq<(Seq<char>, Seq<char>)>,
    /// The body.
    pub body: BodyView,
}

impl View for Response {
    type V = ResponseView;

    open spec fn view(&self) -> ResponseView {
        ResponseView {
            status: self.status,
            headers: self.headers.deep_view(),
            body: self.body@,
        }
    }
}

/// A response that holds a JSON object and no further header.
pub open spec fn json_view(
    status: u16,
    members: Seq<(Seq<char>, Field<Seq<char>>)>,
) -> ResponseView {
    ResponseView { status, headers: seq![], body: BodyView::Json(members) }
}

/// A refusal: a status, and its code as the member `error`.
pub open spec fn refusal(status: u16, code: Seq<char>) -> ResponseView {
    json_view(status, seq![("error"@, Field::Text(code))])
}

/// A response that holds a JSON object.
fn json(status: u16, members: Vec<(String, Field<String>)>) -> (r: Response)
    ensures
        r@ == json_view(
            status,
            members@.map_values(|m: (String, Field<String>)| (m.0@, m.1@)),
        ),
{
    let r = Response { status, headers: Vec::new(), body: Body::Json(members) };
    assert(r.headers.deep_view() =~= seq![]);
    r
}

/// A refusal with its code and, where there is one, its detail.
pub fn error(status: u16, code: &str, detail: Option<&str>) -> (r: Response)
    ensures
        r@ == (match detail {
            None => refusal(status, code@),
            Some(d) => json_view(
                status,
                seq![("error"@, Field::Text(code@)), ("detail"@, Field::Text(d@))],
            ),
        }),
{
    let mut members: Vec<(String, Field<String>)> = Vec::new();
    members.push((text("error"), Field::Text(text(code))));
    if let Some(d) = detail {
        members.push((text("detail"), Field::Text(text(d))));
    }
    let ghost views = members@.map_values(|m: (String, Field<String>)| (m.0@, m.1@));
    proof {
        match detail {
            None => {
                assert(views =~= seq![("error"@, Field::Text(code@))]);
            },
            Some(d) => {
                assert(views =~= seq![
                    ("error"@, Field::Text(code@)),
                    ("detail"@, Field::Text(d@)),
                ]);
            },
        }
    }
    json(status, members)
}

/// The answer of a server that is up.
pub fn healthz() -> (r: Response)
    ensures
        r@ == (ResponseView { status: 200, headers: seq![], body: BodyView::Text("ok"@) }),
{
    let r = Response { status: 200, headers: Vec::new(), body: Body::Text(text("ok")) };
    assert(r.headers.deep_view() =~= seq![]);
    r
}

/// Why a request on a mailbox is refused, if its path is.
pub open spec fn path_refusal(room: Seq<char>, role: Seq<char>) -> Option<ResponseView> {
    if !is_room(room) {
        Some(refusal(400, "bad-room"@))
    } else if Role::named(role) is None {
        Some(refusal(400, "bad-role"@))
    } else {
        None
    }
}

/// The mailbox that a path names, or its refusal.
fn mailbox_role(room: &str, role: &str) -> (r: Result<Role, Response>)
    ensures
        match r {
            Ok(named) => path_refusal(room@, role@) is None && Role::named(role@) == Some(named),
            Err(refused) => path_refusal(room@, role@) == Some(refused@),
        },
{
    if !valid_room(room) {
        return Err(error(400, "bad-room", None));
    }
    match Role::parse(role) {
        Some(role) => Ok(role),
        None => Err(error(400, "bad-role", None)),
    }
}

/// Why a publish is refused before it reaches the store.
pub open spec fn publish_refusal(
    room: Seq<char>,
    role: Seq<char>,
    body_len: nat,
    max_blob_bytes: usize,
) -> Option<ResponseView> {
    match path_refusal(room, role) {
        Some(refused) => Some(refused),
        None => if body_len > max_blob_bytes {
            Some(
                json_view(
                    413,
                    seq![
                        ("error"@, Field::Text("too-large"@)),
                        ("limit"@, Field::Number(max_blob_bytes as u64)),
                    ],
                ),
            )
        } else {
            None
        },
    }
}

/// Takes a publish of `body_len` bytes, or refuses it. The mailbox it is meant
/// for is the one of the role returned.
pub fn publish(room: &str, role: &str, body_len: usize, max_blob_bytes: usize) -> (r: Result<
    Role,
    Response,
>)
    ensures
        match r {
            Ok(named) => publish_refusal(
                room@,
                role@,
                body_len as nat,
                max_blob_bytes,
            ) is None && Role::named(role@) == Some(named),
            Err(refused) => publish_refusal(room@, role@, body_len as nat, max_blob_bytes)
                == Some(refused@),
        },
{
    let named: Role = match mailbox_role(room, role) {
        Ok(named) => named,
        Err(refused) => {
            return Err(refused);
        },
    };
    if body_len > max_blob_bytes {
        let mut members: Vec<(String, Field<String>)> = Vec::new();
        members.push((text("error"), Field::Text(text("too-large"))));
        members.push((text("limit"), Field::Number(max_blob_bytes as u64)));
        assert(members@.map_values(|m: (String, Field<String>)| (m.0@, m.1@)) =~= seq![
            ("error"@, Field::Text("too-large"@)),
            ("limit"@, Field::Number(max_blob_bytes as u64)),
        ]);
        return Err(json(413, members));
    }
    Ok(named)
}

/// The answer to what a publish came to.
pub open spec fn publish_answer(outcome: Publish) -> ResponseView {
    match outcome {
        Publish::Stored(seq) => json_view(200, seq![("seq"@, Field::Number(seq as u64))]),
        Publish::Done => refusal(409, "done"@),
        Publish::Capacity => refusal(429, "capacity"@),
    }
}

/// Answers what a publish came to.
pub fn publish_reply(outcome: Publish) -> (r: Response)
    ensures
        r@ == publish_answer(outcome),
{
    match outcome {
        Publish::Stored(seq) => {
            let mut members: Vec<(String, Field<String>)> = Vec::new();
            members.push((text("seq"), Field::Number(seq as u64)));
            assert(members@.map_values(|m: (String, Field<String>)| (m.0@, m.1@)) =~= seq![
                ("seq"@, Field::Number(seq as u64)),
            ]);
            json(200, members)
        },
        Publish::Done => error(409, "done", None),
        Publish::Capacity => error(429, "capacity", None),
    }
}

/// A fetch that was taken.
#[derive(Clone, Copy, Debug, PartialEq, Eq, Structural)]
pub struct FetchRequest {
    /// Whose mailbox.
    pub role: Role,
    /// Which blob.
    pub seq: usize,
    /// How long to wait for it.
    pub wait: Duration,
}

/// The blob number that a query asks for.
pub open spec fn query_seq(seq: Option<Seq<char>>) -> Option<nat> {
    match seq {
        None => None,
        Some(s) => match number_value(s, usize::MAX as nat) {
            Ok(n) => Some(n),
            Err(_) => None,
        },
    }
}

/// Why a fetch is refused.
pub open spec fn fetch_refusal(
    room: Seq<char>,
    role: Seq<char>,
    seq: Option<Seq<char>>,
) -> Option<ResponseView> {
    match path_refusal(room, role) {
        Some(refused) => Some(refused),
        None => if query_seq(seq) is None {
            Some(refusal(400, "bad-seq"@))
        } else {
            None
        },
    }
}

/// Takes a fetch, or refuses it. `seq` and `wait` are those of the query; a
/// query without `wait`, in milliseconds, waits for `long_poll`.
pub fn fetch(
    room: &str,
    role: &str,
    seq: Option<&str>,
    wait: Option<u64>,
    long_poll: Duration,
) -> (r: Result<FetchRequest, Response>)
    ensures
        ({
            let seq = match seq {
                Some(s) => Some(s@),
                None => None,
            };
            match r {
                Ok(request) => {
                    &&& fetch_refusal(room@, role@, seq) is None
                    &&& Role::named(role@) == Some(request.role)
                    &&& query_seq(seq) == Some(request.seq as nat)
                    &&& match wait {
                        Some(ms) => request.wait.wf() && request.wait.as_nanos() == ms as nat
                            * 1_000_000,
                        None => request.wait == long_poll,
                    }
                },
                Err(refused) => fetch_refusal(room@, role@, seq) == Some(refused@),
            }
        }),
{
    let role: Role = match mailbox_role(room, role) {
        Ok(named) => named,
        Err(refused) => {
            return Err(refused);
        },
    };
    let seq: usize = match seq {
        None => {
            return Err(error(400, "bad-seq", None));
        },
        Some(s) => match parse_number(s, usize::MAX as u64) {
            Err(_) => {
                return Err(error(400, "bad-seq", None));
            },
            Ok(n) => n as usize,
        },
    };
    let wait: Duration = match wait {
        Some(ms) => Duration::from_millis(ms),
        None => long_poll,
    };
    Ok(FetchRequest { role, seq, wait })
}

/// What a fetch came to, by its contents.
pub enum FetchView {
    /// The blob.
    Blob(Seq<u8>),
    /// The mailbox is done.
    Done,
    /// The blob did not arrive in time.
    Pending,
}

impl View for Fetch {
    type V = FetchView;

    open spec fn view(&self) -> FetchView {
        match self {
            Fetch::Blob(b) => FetchView::Blob(b@),
            Fetch::Done => FetchView::Done,
            Fetch::Pending => FetchView::Pending,
        }
    }
}

/// The answer to what a fetch of blob `seq` came to.
pub open spec fn fetch_answer(seq: nat, outcome: FetchView) -> ResponseView {
    match outcome {
        FetchView::Blob(bytes) => ResponseView {
            status: 200,
            headers: seq![
                ("x-seq"@, decimal(seq)),
                ("content-type"@, "application/octet-stream"@),
            ],
            body: BodyView::Bytes(bytes),
        },
        FetchView::Done => ResponseView {
            status: 204,
            headers: seq![("x-done"@, "true"@)],
            body: BodyView::Empty,
        },
        FetchView::Pending => ResponseView {
            status: 304,
            headers: seq![("x-seq"@, decimal(seq))],
            body: BodyView::Empty,
        },
    }
}

/// Answers what a fetch of blob `seq` came to.
pub fn fetch_reply(seq: usize, outcome: Fetch) -> (r: Response)
    ensures
        r@ == fetch_answer(seq as nat, outcome@),
{
    let ghost answer = fetch_answer(seq as nat, outcome@);
    let mut headers: Vec<(String, String)> = Vec::new();
    match outcome {
        Fetch::Blob(bytes) => {
            headers.push((text("x-seq"), decimal_text(seq as u128)));
            headers.push((text("content-type"), text("application/octet-stream")));
            assert(headers.deep_view() =~= answer.headers);
            Response { status: 200, headers, body: Body::Bytes(bytes) }
        },
        Fetch::Done => {
            headers.push((text("x-done"), text("true")));
            assert(headers.deep_view() =~= answer.headers);
            Response { status: 204, headers, body: Body::Empty }
        },
        Fetch::Pending => {
            headers.push((text("x-seq"), decimal_text(seq as u128)));
            assert(headers.deep_view() =~= answer.headers);
            Response { status: 304, headers, body: Body::Empty }
        },
    }
}

/// Takes a request to mark a mailbox done, or refuses it.
pub fn mark_done(room: &str, role: &str) -> (r: Result<Role, Response>)
    ensures
        match r {
            Ok(named) => path_refusal(room@, role@) is None && Role::named(role@) == Some(named),
            Err(refused) => path_refusal(room@, role@) == Some(refused@),
        },
{
    mailbox_role(room, role)
}

/// Answers a mailbox that was marked done with `len` blobs in it.
pub fn mark_done_reply(len: usize) -> (r: Response)
    ensures
        r@ == json_view(
            200,
            seq![("done"@, Field::Flag(true)), ("len"@, Field::Number(len as u64))],
        ),
{
    let mut members: Vec<(String, Field<String>)> = Vec::new();
    members.push((text("done"), Field::Flag(true)));
    members.push((text("len"), Field::Number(len as u64)));
    assert(members@.map_values(|m: (String, Field<String>)| (m.0@, m.1@)) =~= seq![
        ("done"@, Field::Flag(true)),
        ("len"@, Field::Number(len as u64)),
    ]);
    json(200, members)
}

/// Takes a request to delete a room (`None`), or refuses it.
pub fn delete_room(room: &str) -> (r: Option<Response>)
    ensures
        match r {
            None => is_room(room@),
            Some(refused) => !is_room(room@) && refused@ == refusal(400, "bad-room"@),
        },
{
    if valid_room(room) {
        None
    } else {
        Some(error(400, "bad-room", None))
    }
}

/// Answers the deletion of a room: whether there was one.
pub fn delete_room_reply(deleted: bool) -> (r: Response)
    ensures
        r@ == json_view(200, seq![("deleted"@, Field::Flag(deleted))]),
{
    let mut members: Vec<(String, Field<String>)> = Vec::new();
    members.push((text("deleted"), Field::Flag(deleted)));
    assert(members@.map_values(|m: (String, Field<String>)| (m.0@, m.1@)) =~= seq![
        ("deleted"@, Field::Flag(deleted)),
    ]);
    json(200, members)
}

/// A request that is refused is answered with an error status (400 to 499) and
/// a JSON object whose first member is the error's code; nothing that is not a
/// room name gets past any handler, whatever else the request holds.
pub proof fn refusals_are_errors(
    room: Seq<char>,
    role: Seq<char>,
    seq: Option<Seq<char>>,
    body_len: nat,
    max_blob_bytes: usize,
)
    ensures
        !is_room(room) ==> publish_refusal(room, role, body_len, max_blob_bytes) == Some(
            refusal(400, "bad-room"@),
        ) && fetch_refusal(room, role, seq) == Some(refusal(400, "bad-room"@)),
        forall|refused: ResponseView|
            publish_refusal(room, role, body_len, max_blob_bytes) == Some(refused)
                || fetch_refusal(room, role, seq) == Some(refused) ==> 400 <= refused.status < 500
                && refused.body is Json && refused.body->Json_0.len() > 0
                && refused.body->Json_0[0].0 == "error"@,
{
}

/// There are two sides, each named by its word and by nothing else.
pub proof fn sides_go_by_their_names(segment: Seq<char>)
    ensures
        Role::named(segment) == Some(Role::Offerer) <==> segment == "offerer"@,
        Role::named(segment) == Some(Role::Answerer) <==> segment == "answerer"@,
        Role::named(segment) is None <==> segment != "offerer"@ && segment != "answerer"@,
        Role::Offerer.name() == "offerer"@,
        Role::Answerer.name() == "answerer"@,
        Role::Offerer.peer() == Role::Answerer,
        Role::Answerer.peer() == Role::Offerer,
{
    role_names_round_trip(Role::Offerer);
}

/// A room name is 1 to 128 characters long, and each of them is an ASCII letter, an
/// ASCII digit, a dot, an underscore or a dash: every such text is one.
pub proof fn room_names_are_short_and_plain(room: Seq<char>)
    ensures
        is_room(room) <==> 0 < room.len() && room.len() <= 128 && forall|i: int|
            0 <= i < room.len() ==> {
                ||| 'a' <= #[trigger] room[i] <= 'z'
                ||| 'A' <= room[i] <= 'Z'
                ||| '0' <= room[i] <= '9'
                ||| room[i] == '.'
                ||| room[i] == '_'
                ||| room[i] == '-'
            },
{
    if is_room(room) {
        assert forall|i: int| 0 <= i < room.len() implies ('a' <= #[trigger] room[i] <= 'z' || 'A'
            <= room[i] <= 'Z' || '0' <= room[i] <= '9' || room[i] == '.' || room[i] == '_'
            || room[i] == '-') by {
            assert(is_room_char(room[i]));
        }
    } else if 0 < room.len() && room.len() <= 128 {
        let i = choose|i: int| 0 <= i < room.len() && !is_room_char(#[trigger] room[i]);
        assert(!('a' <= room[i] <= 'z'));
    }
}

/// Both sides can publish: a publish is taken exactly where the room is a room name,
/// the role names a side and the body is no longer than the limit. What is refused
/// is answered by the first of these that fails.
pub proof fn publishes_are_taken_from_both_sides(
    room: Seq<char>,
    role: Seq<char>,
    body_len: nat,
    max_blob_bytes: usize,
)
    ensures
        publish_refusal(room, role, body_len, max_blob_bytes) is None <==> is_room(room) && (role
            == "offerer"@ || role == "answerer"@) && body_len <= max_blob_bytes,
        !is_room(room) ==> refused_with(
            publish_refusal(room, role, body_len, max_blob_bytes),
            400,
            "bad-room"@,
        ),
        is_room(room) && role != "offerer"@ && role != "answerer"@ ==> refused_with(
            publish_refusal(room, role, body_len, max_blob_bytes),
            400,
            "bad-role"@,
        ),
        is_room(room) && (role == "offerer"@ || role == "answerer"@) && body_len > max_blob_bytes
            ==> refused_with(
            publish_refusal(room, role, body_len, max_blob_bytes),
            413,
            "too-large"@,
        ) && publish_refusal(room, role, body_len, max_blob_bytes)->0.body->Json_0 == seq![
            ("error"@, Field::Text("too-large"@)),
            ("limit"@, Field::Number(max_blob_bytes as u64)),
        ],
{
    sides_go_by_their_names(role);
}

/// Whether an answer is the refusal of that status and code.
pub open spec fn refused_with(answer: Option<ResponseView>, status: u16, code: Seq<char>) -> bool {
    &&& answer matches Some(refused)
    &&& refused.status == status
    &&& refused.headers.len() == 0
    &&& refused.body matches BodyView::Json(members)
    &&& members.len() > 0
    &&& members[0] == ("error"@, Field::Text(code))
}

/// Both sides can fetch, and mark their mailbox done: a fetch is taken exactly where
/// the room is a room name, the role names a side and the query holds a number.
pub proof fn fetches_are_taken_from_both_sides(
    room: Seq<char>,
    role: Seq<char>,
    seq: Option<Seq<char>>,
)
    ensures
        fetch_refusal(room, role, seq) is None <==> is_room(room) && (role == "offerer"@ || role
            == "answerer"@) && seq is Some && number_value(seq->0, usize::MAX as nat) is Ok,
        path_refusal(room, role) is None <==> is_room(room) && (role == "offerer"@ || role
            == "answerer"@),
        !is_room(room) ==> refused_with(fetch_refusal(room, role, seq), 400, "bad-room"@)
            && refused_with(path_refusal(room, role), 400, "bad-room"@),
        is_room(room) && role != "offerer"@ && role != "answerer"@ ==> refused_with(
            fetch_refusal(room, role, seq),
            400,
            "bad-role"@,
        ) && refused_with(path_refusal(room, role), 400, "bad-role"@),
        is_room(room) && (role == "offerer"@ || role == "answerer"@) && fetch_refusal(
            room,
            role,
            seq,
        ) is Some ==> refused_with(fetch_refusal(room, role, seq), 400, "bad-seq"@),
{
    sides_go_by_their_names(role);
}

/// A fetch asks for the blob that its query numbers: whatever the number, its
/// notation names it.
pub proof fn queries_number_blobs(n: nat, s: Seq<char>)
    requires
        n <= usize::MAX,
    ensures
        query_seq(Some(decimal(n))) == Some(n),
        query_seq(None) is None,
        query_seq(Some(s)) == (match number_value(s, usize::MAX as nat) {
            Ok(v) => Some(v),
            Err(_) => None,
        }),
{
    numbers_round_trip(n, usize::MAX as nat);
}

/// A stored blob is acknowledged with its number, and a mailbox that takes no more,
/// or a store that is full, is said to be so.
pub proof fn publishes_are_acknowledged(n: usize)
    ensures
        publish_answer(Publish::Stored(n)).status == 200,
        publish_answer(Publish::Stored(n)).body == BodyView::Json(
            seq![("seq"@, Field::Number(n as u64))],
        ),
        publish_answer(Publish::Stored(n)).headers.len() == 0,
        refused_with(Some(publish_answer(Publish::Done)), 409, "done"@),
        refused_with(Some(publish_answer(Publish::Capacity)), 429, "capacity"@),
        publish_answer(Publish::Done).body->Json_0.len() == 1,
        publish_answer(Publish::Capacity).body->Json_0.len() == 1,
{
}

/// A fetched blob comes back byte for byte, with its number; a mailbox that is done
/// and a blob that is not there yet are told apart from it, and from each other.
pub proof fn fetched_blobs_come_back_whole(n: nat, bytes: Seq<u8>)
    ensures
        fetch_answer(n, FetchView::Blob(bytes)).status == 200,
        fetch_answer(n, FetchView::Blob(bytes)).body == BodyView::Bytes(bytes),
        fetch_answer(n, FetchView::Blob(bytes)).headers == seq![
            ("x-seq"@, decimal(n)),
            ("content-type"@, "application/octet-stream"@),
        ],
        fetch_answer(n, FetchView::Done).status == 204,
        fetch_answer(n, FetchView::Done).body is Empty,
        fetch_answer(n, FetchView::Done).headers == seq![("x-done"@, "true"@)],
        fetch_answer(n, FetchView::Pending).status == 304,
        fetch_answer(n, FetchView::Pending).body is Empty,
        fetch_answer(n, FetchView::Pending).headers == seq![("x-seq"@, decimal(n))],
{
}

/// An answer in JSON holds its members, in their order, and a refusal its code.
pub proof fn answers_hold_their_members(
    status: u16,
    members: Seq<(Seq<char>, Field<Seq<char>>)>,
    code: Seq<char>,
)
    ensures
        json_view(status, members).status == status,
        json_view(status, members).headers.len() == 0,
        json_view(status, members).body == BodyView::Json(members),
        refused_with(Some(refusal(status, code)), status, code),
        refusal(status, code).body->Json_0.len() == 1,
{
}

/// What an answer holds is seen as it is: status, headers, bytes, texts and members.
pub proof fn answers_are_seen_as_they_are(
    response: Response,
    body: Body,
    field: Field<String>,
    fetched: Fetch,
    i: int,
)
    ensures
        response@.status == response.status,
        response@.headers == response.headers.deep_view(),
        response@.body == response.body@,
        match body {
            Body::Empty => body@ is Empty,
            Body::Text(t) => body@ == BodyView::Text(t@),
            Body::Bytes(b) => body@ == BodyView::Bytes(b@),
            Body::Json(members) => body@ is Json && body@->Json_0.len() == members@.len() && (0 <= i
                < members@.len() ==> body@->Json_0[i] == (members@[i].0@, members@[i].1@)),
        },
        match field {
            Field::Text(t) => field@ == Field::Text(t@),
            Field::Number(n) => field@ == Field::<Seq<char>>::Number(n),
            Field::Flag(b) => field@ == Field::<Seq<char>>::Flag(b),
        },
        match fetched {
            Fetch::Blob(b) => fetched@ == FetchView::Blob(b@),
            Fetch::Done => fetched@ is Done,
            Fetch::Pending => fetched@ is Pending,
        },
{
}

} // verus!
