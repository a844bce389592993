//! A joined mailbox session: the client's side of the signaling protocol, one
//! room and one role on a signaling server.

use vstd::prelude::*;

use crate::signaling::{
    fetch_answer, publish_answer, role_names_round_trip, role_str, FetchView, Publish, Role,
};
use crate::text::{
    decimal, decimal_text, lemma_decimal_injective, text, trim_end, trim_end_matches,
};

verus! {

/// A mailbox failure, as the guest sees it.
#[derive(Debug)]
pub enum MailboxError {
    /// What went wrong, in words.
    Other(String),
}

impl MailboxError {
    /// What went wrong, in words.
    pub open spec fn detail(self) -> Seq<char> {
        match self {
            MailboxError::Other(detail) => detail@,
        }
    }
}

/// Any host-side mailbox failure, as the guest sees it.
pub fn mailbox_error(detail: &str) -> (r: MailboxError)
    ensures
        r.detail() == "mailbox: "@ + detail@,
{
    let mut message: String = text("mailbox: ");
    message.append(detail);
    MailboxError::Other(message)
}

/// A joined mailbox session.
#[derive(Debug)]
pub struct MailboxSession {
    /// The server's base URL, without a slash at its end.
    pub base: String,
    /// The room.
    pub room: String,
    /// The side that this session plays.
    pub role: Role,
    /// The next sequence number to fetch from the peer's mailbox.
    pub recv_seq: usize,
}

/// The URL of a role's mailbox.
pub open spec fn mailbox_url(base: Seq<char>, room: Seq<char>, role: Role) -> Seq<char> {
    base + "/rooms/"@ + room + "/"@ + role.name()
}

/// The URL that fetches a blob from a role's mailbox.
pub open spec fn fetch_url_of(base: Seq<char>, room: Seq<char>, role: Role, seq: nat) -> Seq<char> {
    mailbox_url(base, room, role) + "?seq="@ + decimal(seq) + "&wait=10000"@
}

/// What a request that posts to the server came to.
pub enum PostOutcome<'a> {
    /// The server answered with this status; `text` is the status in words.
    Answered { status: u16, text: &'a str },
    /// There was no answer.
    Failed(&'a str),
}

/// Whether a status says that a request succeeded.
pub open spec fn is_success(status: u16) -> bool {
    200 <= status < 300
}

/// How the guest sees what a post came to: nothing to say, or why not.
pub open spec fn post_error(what: Seq<char>, outcome: PostOutcome) -> Option<Seq<char>> {
    match outcome {
        PostOutcome::Answered { status, text } => if is_success(status) {
            None
        } else {
            Some("mailbox: "@ + (what + " status "@ + text@))
        },
        PostOutcome::Failed(detail) => Some("mailbox: "@ + detail@),
    }
}

/// How the guest sees what a post came to.
fn post_result(what: &str, outcome: PostOutcome) -> (r: Result<(), MailboxError>)
    ensures
        match r {
            Ok(()) => post_error(what@, outcome) is None,
            Err(e) => post_error(what@, outcome) == Some(e.detail()),
        },
{
    match outcome {
        PostOutcome::Answered { status, text: words } => if 200 <= status && status < 300 {
            Ok(())
        } else {
            let mut detail: String = text(what);
            detail.append(" status ");
            detail.append(words);
            Err(mailbox_error(detail.as_str()))
        },
        PostOutcome::Failed(detail) => Err(mailbox_error(detail)),
    }
}

/// What to do about a fetch's status.
#[derive(Debug)]
pub enum FetchStep {
    /// Read the body, which is the blob.
    ReadBlob,
    /// There is no further blob: the peer marked its mailbox done.
    Finished,
    /// The blob is not there yet: ask again for the same one.
    Retry,
    /// Report this.
    Fail(MailboxError),
}

/// A [`FetchStep`] by its contents.
pub enum FetchStepView {
    /// Read the body.
    ReadBlob,
    /// There is no further blob.
    Finished,
    /// Ask again.
    Retry,
    /// Report this.
    Fail(Seq<char>),
}

impl View for FetchStep {
    type V = FetchStepView;

    open spec fn view(&self) -> FetchStepView {
        match self {
            FetchStep::ReadBlob => FetchStepView::ReadBlob,
            FetchStep::Finished => FetchStepView::Finished,
            FetchStep::Retry => FetchStepView::Retry,
            FetchStep::Fail(e) => FetchStepView::Fail(e.detail()),
        }
    }
}

/// What to do about a fetch's status.
pub open spec fn fetch_step(status: u16) -> FetchStepView {
    if status == 200 {
        FetchStepView::ReadBlob
    } else if status == 204 {
        FetchStepView::Finished
    } else if status == 304 {
        FetchStepView::Retry
    } else {
        FetchStepView::Fail("mailbox: "@ + ("fetch status "@ + decimal(status as nat)))
    }
}

impl MailboxSession {
    /// Joins `room` on `server` as `as_role`; the first blob to fetch is the
    /// peer's first.
    pub fn open(server: &str, room: String, as_role: Role) -> (r: MailboxSession)
        ensures
            r.base@ == trim_end(server@, '/'),
            r.room == room,
            r.role == as_role,
            r.recv_seq == 0,
    {
        MailboxSession {
            base: trim_end_matches(server, '/'),
            room,
            role: as_role,
            recv_seq: 0,
        }
    }

    /// The own role's path segment (the mailbox this session publishes to).
    pub fn own_role(&self) -> (r: &'static str)
        ensures
            r@ == self.role.name(),
    {
        role_str(self.role)
    }

    /// The peer's role path segment (the mailbox this session consumes).
    pub fn peer_role(&self) -> (r: &'static str)
        ensures
            r@ == self.role.peer().name(),
    {
        match self.role {
            Role::Offerer => "answerer",
            Role::Answerer => "offerer",
        }
    }

    /// The URL of a role's mailbox.
    fn url(&self, role: &str) -> (r: String)
        ensures
            r@ == self.base@ + "/rooms/"@ + self.room@ + "/"@ + role@,
    {
        let mut url: String = self.base.clone();
        url.append("/rooms/");
        url.append(self.room.as_str());
        url.append("/");
        url.append(role);
        url
    }

    /// Where a blob is posted.
    pub fn send_url(&self) -> (r: String)
        ensures
            r@ == mailbox_url(self.base@, self.room@, self.role),
    {
        self.url(self.own_role())
    }

    /// How the guest sees what posting a blob came to.
    pub fn send(&self, outcome: PostOutcome) -> (r: Result<(), MailboxError>)
        ensures
            match r {
                Ok(()) => post_error("publish"@, outcome) is None,
                Err(e) => post_error("publish"@, outcome) == Some(e.detail()),
            },
    {
        post_result("publish", outcome)
    }

    /// Where the own mailbox is marked done.
    pub fn done_url(&self) -> (r: String)
        ensures
            r@ == mailbox_url(self.base@, self.room@, self.role) + "/done"@,
    {
        let mut url: String = self.url(self.own_role());
        url.append("/done");
        url
    }

    /// How the guest sees what marking the own mailbox done came to.
    pub fn done(&self, outcome: PostOutcome) -> (r: Result<(), MailboxError>)
        ensures
            match r {
                Ok(()) => post_error("done"@, outcome) is None,
                Err(e) => post_error("done"@, outcome) == Some(e.detail()),
            },
    {
        post_result("done", outcome)
    }

    /// Where the next blob is fetched: the peer's mailbox, at the cursor.
    pub fn recv_url(&self) -> (r: String)
        ensures
            r@ == fetch_url_of(self.base@, self.room@, self.role.peer(), self.recv_seq as nat),
    {
        let mut url: String = self.url(self.peer_role());
        url.append("?seq=");
        url.append(decimal_text(self.recv_seq as u128).as_str());
        url.append("&wait=10000");
        url
    }

    /// What to do about the status that a fetch was answered with.
    pub fn fetch_next(&self, status: u16) -> (r: FetchStep)
        ensures
            r@ == fetch_step(status),
    {
        if status == 200 {
            FetchStep::ReadBlob
        } else if status == 204 {
            FetchStep::Finished
        } else if status == 304 {
            FetchStep::Retry
        } else {
            let mut detail: String = text("fetch status ");
            detail.append(decimal_text(status as u128).as_str());
            FetchStep::Fail(mailbox_error(detail.as_str()))
        }
    }

    /// Takes the blob fetched at `seq`, or the failure to read it. A blob moves
    /// the cursor behind it; a failure leaves the cursor where it is.
    pub fn take_blob(&mut self, seq: usize, body: Result<Vec<u8>, String>) -> (r: Result<
        Vec<u8>,
        MailboxError,
    >)
        requires
            seq < usize::MAX,
        ensures
            final(self).base == old(self).base,
            final(self).room == old(self).room,
            final(self).role == old(self).role,
            final(self).recv_seq == next_cursor(
                old(self).recv_seq as nat,
                seq as nat,
                FetchReply { status: 200, readable: body is Ok },
            ),
            match body {
                Ok(bytes) => r == Ok::<Vec<u8>, MailboxError>(bytes),
                Err(detail) => r is Err && r->Err_0.detail() == "mailbox: "@ + detail@,
            },
    {
        match body {
            Ok(bytes) => {
                self.recv_seq = seq + 1;
                Ok(bytes)
            },
            Err(detail) => Err(mailbox_error(detail.as_str())),
        }
    }
}

/// The two sides of a room rendezvous: what one publishes to is what the other
/// fetches from, and not what it fetches from itself.
pub proof fn sides_meet(a: MailboxSession, b: MailboxSession)
    requires
        a.base@ == b.base@,
        a.room@ == b.room@,
        a.role != b.role,
    ensures
        fetch_url_of(b.base@, b.room@, b.role.peer(), b.recv_seq as nat) == mailbox_url(
            a.base@,
            a.room@,
            a.role,
        ) + "?seq="@ + decimal(b.recv_seq as nat) + "&wait=10000"@,
        mailbox_url(a.base@, a.room@, a.role) != mailbox_url(a.base@, a.room@, a.role.peer()),
{
    role_names_round_trip(a.role);
    let own = mailbox_url(a.base@, a.room@, a.role);
    let other = mailbox_url(a.base@, a.room@, a.role.peer());
    let path = a.base@ + "/rooms/"@ + a.room@ + "/"@;
    assert(own.skip(path.len() as int) =~= a.role.name());
    assert(other.skip(path.len() as int) =~= a.role.peer().name());
}

/// What a session makes of the server's answers: a stored blob is a success and
/// a full or done mailbox is not; a fetched blob is read, a done mailbox ends
/// the reading, and a blob that is not there yet is asked for again.
pub proof fn sessions_understand_the_server(outcome: Publish, seq: nat, fetched: FetchView)
    ensures
        is_success(publish_answer(outcome).status) <==> outcome is Stored,
        fetch_step(fetch_answer(seq, fetched).status) == (match fetched {
            FetchView::Blob(_) => FetchStepView::ReadBlob,
            FetchView::Done => FetchStepView::Finished,
            FetchView::Pending => FetchStepView::Retry,
        }),
{
}

/// One reply to a fetch: its status, and whether its body could be read.
pub struct FetchReply {
    /// The status.
    pub status: u16,
    /// Whether the body could be read.
    pub readable: bool,
}

/// Whether a reply brings a blob.
pub open spec fn brings_blob(reply: FetchReply) -> bool {
    fetch_step(reply.status) is ReadBlob && reply.readable
}

/// The cursor after the reply to a fetch at `seq`.
pub open spec fn next_cursor(cursor: nat, seq: nat, reply: FetchReply) -> nat {
    if brings_blob(reply) {
        seq + 1
    } else {
        cursor
    }
}

/// The cursor after a number of replies, each to a fetch at the cursor.
pub open spec fn cursor_after(start: nat, replies: Seq<FetchReply>) -> nat
    decreases replies.len(),
{
    if replies.len() == 0 {
        start
    } else {
        let before = cursor_after(start, replies.drop_last());
        next_cursor(before, before, replies.last())
    }
}

/// A session reads the peer's blobs in order, none twice and none left out: the
/// cursor stands behind exactly as many blobs as the replies brought.
pub proof fn blobs_are_read_in_order(start: nat, replies: Seq<FetchReply>)
    ensures
        cursor_after(start, replies) == start + replies.filter(
            |reply: FetchReply| brings_blob(reply),
        ).len(),
    decreases replies.len(),
{
    reveal(Seq::filter);
    if replies.len() > 0 {
        blobs_are_read_in_order(start, replies.drop_last());
    }
}

/// A mailbox is addressed by its server, its room and its side.
pub proof fn mailboxes_are_addressed_by_room_and_side(base: Seq<char>, room: Seq<char>, seq: nat)
    ensures
        mailbox_url(base, room, Role::Offerer) == base + "/rooms/"@ + room + "/"@ + "offerer"@,
        mailbox_url(base, room, Role::Answerer) == base + "/rooms/"@ + room + "/"@ + "answerer"@,
        fetch_url_of(base, room, Role::Offerer, seq) == base + "/rooms/"@ + room + "/"@
            + "offerer"@ + "?seq="@ + decimal(seq) + "&wait=10000"@,
        fetch_url_of(base, room, Role::Answerer, seq) == base + "/rooms/"@ + room + "/"@
            + "answerer"@ + "?seq="@ + decimal(seq) + "&wait=10000"@,
{
}

/// Different blobs of a mailbox are fetched from different addresses.
pub proof fn blobs_are_addressed_by_number(
    base: Seq<char>,
    room: Seq<char>,
    role: Role,
    seq: nat,
    other: nat,
)
    requires
        fetch_url_of(base, room, role, seq) == fetch_url_of(base, room, role, other),
    ensures
        seq == other,
{
    let head = mailbox_url(base, room, role) + "?seq="@;
    let tail = "&wait=10000"@;
    let (one, two) = (decimal(seq), decimal(other));
    let (url, same) = (head + one + tail, head + two + tail);
    assert(url.len() == same.len());
    assert(url.subrange(head.len() as int, (head.len() + one.len()) as int) =~= one);
    assert(same.subrange(head.len() as int, (head.len() + two.len()) as int) =~= two);
    lemma_decimal_injective(seq, other);
}

/// A post succeeds exactly where the server answers with a status from 200 to 299;
/// any other answer is told by its status, and no answer by why there is none.
pub proof fn posts_succeed_by_their_status(
    what: Seq<char>,
    status: u16,
    words: &str,
    detail: &str,
)
    ensures
        is_success(status) <==> 200 <= status && status <= 299,
        200 <= status && status <= 299 <==> post_error(
            what,
            PostOutcome::Answered { status, text: words },
        ) is None,
        !(200 <= status && status <= 299) ==> post_error(
            what,
            PostOutcome::Answered { status, text: words },
        ) == Some("mailbox: "@ + (what + " status "@ + words@)),
        post_error(what, PostOutcome::Failed(detail)) == Some("mailbox: "@ + detail@),
{
}

/// A fetch is followed up by its status: 200 brings a blob, 204 ends the reading, 304
/// asks again for the same blob, and any other status is reported by its number.
pub proof fn fetches_are_followed_up_by_status(status: u16)
    ensures
        fetch_step(status) is ReadBlob <==> status == 200,
        fetch_step(status) is Finished <==> status == 204,
        fetch_step(status) is Retry <==> status == 304,
        fetch_step(status) matches FetchStepView::Fail(why) ==> why == "mailbox: "@ + (
        "fetch status "@ + decimal(status as nat)),
{
}

/// A blob that was read moves the cursor behind it, and nothing else moves it.
pub proof fn blobs_move_the_cursor(cursor: nat, seq: nat, status: u16, readable: bool)
    ensures
        next_cursor(cursor, seq, FetchReply { status, readable }) == (if status == 200 && readable {
            seq + 1
        } else {
            cursor
        }),
        brings_blob(FetchReply { status, readable }) <==> status == 200 && readable,
{
}

/// A failure is told in its words, and a step of a fetch seen as it is.
pub proof fn failures_are_told_in_words(detail: String, step: FetchStep)
    ensures
        MailboxError::Other(detail).detail() == detail@,
        match step {
            FetchStep::ReadBlob => step@ is ReadBlob,
            FetchStep::Finished => step@ is Finished,
            FetchStep::Retry => step@ is Retry,
            FetchStep::Fail(e) => step@ == FetchStepView::Fail(e.detail()),
        },
{
}

} // verus!
