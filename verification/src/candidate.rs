//! ICE candidates in the form in which peers exchange them.

use rtc::peer_connection::transport::{CandidateConfig, CandidateHostConfig, RTCIceCandidate};
use vstd::prelude::*;

use crate::text::{
    after_space, before_first, before_space, ends_are_trimmed, is_space, lines, number_value,
    parse_number, same_text, split_first, split_lines, split_words, strip_prefix,
    texts_split_at_the_first, trim, trim_start, words, NumberError,
};

verus! {

/// A locally gathered ICE candidate to trickle to the remote peer.
#[derive(Debug)]
pub struct LocalCandidate {
    /// The `candidate` attribute value.
    pub candidate: String,
    /// The media stream identification tag, if any.
    pub sdp_mid: Option<String>,
    /// The index of the media description this candidate is associated with.
    pub sdp_mline_index: Option<u16>,
}

/// A [`LocalCandidate`] by its texts.
pub struct LocalCandidateView {
    /// The `candidate` attribute value.
    pub candidate: Seq<char>,
    /// The media stream identification tag, if any.
    pub sdp_mid: Option<Seq<char>>,
    /// The index of the media description this candidate is associated with.
    pub sdp_mline_index: Option<u16>,
}

impl View for LocalCandidate {
    type V = LocalCandidateView;

    open spec fn view(&self) -> LocalCandidateView {
        LocalCandidateView {
            candidate: self.candidate@,
            sdp_mid: self.sdp_mid.deep_view(),
            sdp_mline_index: self.sdp_mline_index,
        }
    }
}

/// An ICE candidate as the stack holds it.
#[verifier::external_type_specification]
#[verifier::external_body]
pub struct ExIceCandidate(RTCIceCandidate);

/// A candidate in the form in which it is trickled, or why it has none.
pub uninterp spec fn trickled(candidate: RTCIceCandidate) -> Result<
    LocalCandidateView,
    rtc::shared::error::Error,
>;

/// The form in which a host candidate for a network, an address, a port and a
/// component is trickled, or why there is none.
pub uninterp spec fn host_trickled(
    network: Seq<char>,
    address: Seq<char>,
    port: u16,
    component: u16,
) -> Result<LocalCandidateView, rtc::shared::error::Error>;

/// The component of a candidate.
pub uninterp spec fn candidate_component(candidate: RTCIceCandidate) -> u16;

/// The priority of a candidate; zero where it bears none.
pub uninterp spec fn candidate_priority(candidate: RTCIceCandidate) -> u32;

/// Whether the priority of a candidate of that component can be told: it bears
/// one, or its component is at most 256, from which one can be computed.
pub open spec fn has_priority(component: nat, priority: nat) -> bool {
    component <= 256 || priority != 0
}

/// Whether the priority of a candidate attribute's value can be told. The second
/// and the fourth of at least eight words are the component and the priority; of
/// a value that holds no such numbers there is nothing to tell.
pub open spec fn value_has_priority(value: Seq<char>) -> bool {
    let fields = words(value);
    fields.len() >= 8 ==> match (
        number_value(fields[1], u16::MAX as nat),
        number_value(fields[3], u32::MAX as nat),
    ) {
        (Ok(component), Ok(priority)) => has_priority(component, priority),
        _ => true,
    }
}

/// The value in a candidate line: what stands behind `candidate:`, where the line
/// begins so.
pub open spec fn line_value(line: Seq<char>) -> Seq<char> {
    if "candidate:"@.is_prefix_of(line) {
        line.skip("candidate:"@.len() as int)
    } else {
        line
    }
}

/// Whether the priority of a candidate line can be told.
pub open spec fn line_has_priority(line: Seq<char>) -> bool {
    value_has_priority(line_value(line))
}

/// The attribute in a line of a session description, if there is one in it.
pub open spec fn line_attribute(line: Seq<char>) -> Option<Seq<char>> {
    let body = after_space(line);
    if "a="@.is_prefix_of(body) {
        Some(before_space(after_space(body.skip("a="@.len() as int))))
    } else {
        None
    }
}

/// Whether a line of a session description begins a media section.
pub open spec fn begins_media(line: Seq<char>) -> bool {
    "m="@.is_prefix_of(after_space(line))
}

/// Whether a line of a session description makes its section inactive.
pub open spec fn makes_inactive(line: Seq<char>) -> bool {
    line_attribute(line) matches Some(attribute) && before_first(attribute, ':') == "inactive"@
}

/// Whether the priority of the candidate in a line of a session description can be
/// told, if there is one in it.
pub open spec fn attribute_has_priority(line: Seq<char>) -> bool {
    line_attribute(line) matches Some(attribute) ==> "candidate:"@.is_prefix_of(attribute)
        ==> value_has_priority(attribute.skip("candidate:"@.len() as int))
}

/// Whether the priorities in a media section can be told: those of its candidates,
/// unless it is inactive, where none of them counts.
pub open spec fn section_has_priorities(section: Seq<Seq<char>>) -> bool {
    ||| exists|i: int| 0 <= i < section.len() && #[trigger] makes_inactive(section[i])
    ||| forall|i: int| 0 <= i < section.len() ==> #[trigger] attribute_has_priority(section[i])
}

/// The first line not before `from` that begins a media section, or the end without
/// one.
pub open spec fn next_media(description: Seq<Seq<char>>, from: int) -> int
    decreases description.len() - from,
{
    if from >= description.len() || begins_media(description[from]) {
        from
    } else {
        next_media(description, from + 1)
    }
}

/// Whether the priorities in the media sections from line `from` on can be told,
/// where a section, or what stands before all of them, begins there.
pub open spec fn sections_have_priorities(description: Seq<Seq<char>>, from: int) -> bool
    decreases description.len() - from,
{
    if from >= description.len() {
        true
    } else {
        proof {
            lemma_next_media_bounds(description, from + 1);
        }
        let end = next_media(description, from + 1);
        &&& begins_media(description[from]) ==> section_has_priorities(
            description.subrange(from, end),
        )
        &&& sections_have_priorities(description, end)
    }
}

/// The next media section begins in the rest of the description, or at its end.
pub proof fn lemma_next_media_bounds(description: Seq<Seq<char>>, from: int)
    requires
        from <= description.len(),
    ensures
        from <= next_media(description, from) <= description.len(),
    decreases description.len() - from,
{
    if from < description.len() && !begins_media(description[from]) {
        lemma_next_media_bounds(description, from + 1);
    }
}

/// Whether the priority of each candidate that counts in a session description can
/// be told: of those in its active media sections.
pub open spec fn candidates_have_priority(sdp: Seq<char>) -> bool {
    sections_have_priorities(lines(sdp), 0)
}

/// Tests whether the priority of a candidate attribute's value can be told.
fn value_ranks(value: &str) -> (r: bool)
    ensures
        r == value_has_priority(value@),
{
    let fields: Vec<String> = split_words(value);
    if fields.len() < 8 {
        return true;
    }
    match (
        parse_number(fields[1].as_str(), u16::MAX as u64),
        parse_number(fields[3].as_str(), u32::MAX as u64),
    ) {
        (Ok(component), Ok(priority)) => component <= 256 || priority != 0,
        _ => true,
    }
}

/// Tests whether the priority of a candidate line can be told.
pub fn line_ranks(line: &str) -> (r: bool)
    ensures
        r == line_has_priority(line@),
{
    match strip_prefix(line, "candidate:") {
        Some(value) => value_ranks(value.as_str()),
        None => value_ranks(line),
    }
}

/// Reads the attribute in a line of a session description.
fn attribute_of(line: &str) -> (r: Option<String>)
    ensures
        r.deep_view() == line_attribute(line@),
{
    let body: String = trim_start(line);
    match strip_prefix(body.as_str(), "a=") {
        Some(rest) => Some(trim(rest.as_str())),
        None => None,
    }
}

/// Tests whether the priority of the candidate in a line of a session description
/// can be told, and whether the line makes its section inactive.
fn read_attribute(line: &str) -> (r: (bool, bool))
    ensures
        r.0 == attribute_has_priority(line@),
        r.1 == makes_inactive(line@),
{
    match attribute_of(line) {
        Some(attribute) => {
            let (key, _): (String, String) = split_first(attribute.as_str(), ':');
            let inactive: bool = same_text(key.as_str(), "inactive");
            match strip_prefix(attribute.as_str(), "candidate:") {
                Some(value) => (value_ranks(value.as_str()), inactive),
                None => (true, inactive),
            }
        },
        None => (true, false),
    }
}

/// Tests whether the priority of each candidate that counts in a session description
/// can be told.
pub fn description_ranks(sdp: &str) -> (r: bool)
    ensures
        r == candidates_have_priority(sdp@),
{
    let description: Vec<String> = split_lines(sdp);
    let ghost all = description.deep_view();
    let mut from: usize = 0;
    while from < description.len()
        invariant
            all == description.deep_view(),
            all == lines(sdp@),
            from <= all.len() == description@.len(),
            sections_have_priorities(all, 0) == sections_have_priorities(all, from as int),
        decreases all.len() - from,
    {
        assert(all[from as int] == description@[from as int]@);
        let media: bool = strip_prefix(
            trim_start(description[from].as_str()).as_str(),
            "m=",
        ).is_some();
        let (mut ranks, mut inactive): (bool, bool) = read_attribute(description[from].as_str());
        let mut end: usize = from + 1;
        while end < description.len() && strip_prefix(
            trim_start(description[end].as_str()).as_str(),
            "m=",
        ).is_none()
            invariant
                all == description.deep_view(),
                from < end <= all.len() == description@.len(),
                next_media(all, from + 1) == next_media(all, end as int),
                ranks <==> (forall|i: int|
                    from <= i < end ==> #[trigger] attribute_has_priority(all[i])),
                inactive <==> (exists|i: int|
                    from <= i < end && #[trigger] makes_inactive(all[i])),
            decreases all.len() - end,
        {
            assert(all[end as int] == description@[end as int]@);
            let (ranked, silent): (bool, bool) = read_attribute(description[end].as_str());
            ranks = ranks && ranked;
            inactive = inactive || silent;
            end += 1;
        }
        assert(end < all.len() ==> all[end as int] == description@[end as int]@);
        assert(next_media(all, from + 1) == end);
        proof {
            lemma_section(all, from as int, end as int);
        }
        if media && !inactive && !ranks {
            return false;
        }
        from = end;
    }
    true
}

/// What holds of the lines of a section holds of it.
proof fn lemma_section(description: Seq<Seq<char>>, from: int, end: int)
    requires
        0 <= from <= end <= description.len(),
    ensures
        section_has_priorities(description.subrange(from, end)) <==> {
            ||| exists|i: int| from <= i < end && #[trigger] makes_inactive(description[i])
            ||| forall|i: int| from <= i < end ==> #[trigger] attribute_has_priority(description[i])
        },
{
    let section = description.subrange(from, end);
    if exists|i: int| from <= i < end && #[trigger] makes_inactive(description[i]) {
        let i = choose|i: int| from <= i < end && #[trigger] makes_inactive(description[i]);
        assert(makes_inactive(section[i - from]));
    }
    if exists|i: int| 0 <= i < section.len() && #[trigger] makes_inactive(section[i]) {
        let i = choose|i: int| 0 <= i < section.len() && #[trigger] makes_inactive(section[i]);
        assert(makes_inactive(description[from + i]));
    }
    if forall|i: int| from <= i < end ==> #[trigger] attribute_has_priority(description[i]) {
        assert forall|i: int| 0 <= i < section.len() implies #[trigger] attribute_has_priority(
            section[i],
        ) by {
            assert(attribute_has_priority(description[from + i]));
        }
    }
    if forall|i: int| 0 <= i < section.len() ==> #[trigger] attribute_has_priority(section[i]) {
        assert forall|i: int| from <= i < end implies #[trigger] attribute_has_priority(
            description[i],
        ) by {
            assert(attribute_has_priority(section[i - from]));
        }
    }
}

/// The field `RTCIceCandidate::component`.
#[verifier::external_body]
fn component_of(candidate: &RTCIceCandidate) -> (r: u16)
    ensures
        r == candidate_component(*candidate),
{
    candidate.component
}

/// The field `RTCIceCandidate::priority`.
#[verifier::external_body]
fn priority_of(candidate: &RTCIceCandidate) -> (r: u32)
    ensures
        r == candidate_priority(*candidate),
{
    candidate.priority
}

/// Whether the priority of a candidate of the stack can be told.
pub open spec fn candidate_has_priority(candidate: RTCIceCandidate) -> bool {
    has_priority(candidate_component(candidate) as nat, candidate_priority(candidate) as nat)
}

/// Tests whether the priority of a candidate of the stack can be told.
pub(crate) fn candidate_ranks(candidate: &RTCIceCandidate) -> (r: bool)
    ensures
        r == candidate_has_priority(*candidate),
{
    component_of(candidate) <= 256 || priority_of(candidate) != 0
}

/// `RTCIceCandidate::to_json`: its outcome is a function of the candidate. One
/// without a priority is left out unless its component is at most 256: the
/// priority that is computed for it takes the component from 256.
#[verifier::external_body]
pub(crate) fn trickle(candidate: &RTCIceCandidate) -> (r: Result<
    LocalCandidate,
    rtc::shared::error::Error,
>)
    requires
        candidate_has_priority(*candidate),
    ensures
        match r {
            Ok(local) => trickled(*candidate) == Ok::<
                LocalCandidateView,
                rtc::shared::error::Error,
            >(local@),
            Err(e) => trickled(*candidate) == Err::<
                LocalCandidateView,
                rtc::shared::error::Error,
            >(e),
        },
{
    let init = candidate.to_json()?;
    Ok(LocalCandidate {
        candidate: init.candidate,
        sdp_mid: init.sdp_mid,
        sdp_mline_index: init.sdp_mline_index,
    })
}

/// `CandidateHostConfig::new_candidate_host`, as an `RTCIceCandidate`. The
/// candidate gets an id by chance, which is not trickled: the form in which it
/// is trickled, or the error, is a function of these four values. It is of that
/// component, and the line in which it is trickled bears a priority. A component
/// above 256 is left out: the priority that is computed takes it from 256.
#[verifier::external_body]
pub(crate) fn host_candidate(network: &str, address: &str, port: u16, component: u16) -> (r: Result<
    RTCIceCandidate,
    rtc::shared::error::Error,
>)
    requires
        component <= 256,
    ensures
        match r {
            Ok(candidate) => {
                &&& host_trickled(network@, address@, port, component) == trickled(candidate)
                &&& candidate_component(candidate) == component
                &&& trickled(candidate) matches Ok(local) ==> line_has_priority(local.candidate)
            },
            Err(e) => host_trickled(network@, address@, port, component) == Err::<
                LocalCandidateView,
                rtc::shared::error::Error,
            >(e),
        },
{
    let (network, address) = (network.to_owned(), address.to_owned());
    let base_config = CandidateConfig { network, address, port, component, ..Default::default() };
    let config = CandidateHostConfig { base_config, ..Default::default() };
    Ok(RTCIceCandidate::from(&config.new_candidate_host()?))
}

/// A candidate's priority can be told exactly where it bears one or its component is
/// at most 256: its component and its priority are the second and fourth of its
/// words, of which there are at least eight.
pub proof fn priorities_are_read_from_their_words(
    value: Seq<char>,
    component: nat,
    priority: nat,
)
    requires
        words(value).len() >= 8,
        number_value(words(value)[1], 65535) == Ok::<nat, NumberError>(component),
        number_value(words(value)[3], 4294967295) == Ok::<nat, NumberError>(priority),
    ensures
        value_has_priority(value) <==> component <= 256 || priority > 0,
{
}

/// A value that the stack does not read as a candidate is not held against its
/// priority: one of too few words, or without the two numbers.
pub proof fn unread_values_pass(value: Seq<char>)
    ensures
        words(value).len() < 8 ==> value_has_priority(value),
        words(value).len() >= 8 && number_value(words(value)[1], 65535) is Err
            ==> value_has_priority(value),
        words(value).len() >= 8 && number_value(words(value)[3], 4294967295) is Err
            ==> value_has_priority(value),
{
}

/// A candidate line is judged by its value, with or without `candidate:` before it.
pub proof fn lines_are_judged_by_their_value(value: Seq<char>)
    ensures
        line_has_priority("candidate:"@ + value) == value_has_priority(value),
        !"candidate:"@.is_prefix_of(value) ==> line_has_priority(value) == value_has_priority(
            value,
        ),
{
    let line = "candidate:"@ + value;
    assert(line.skip("candidate:"@.len() as int) =~= value);
    assert("candidate:"@.is_prefix_of(line));
}

/// In a description whose priorities can be told, the priority of every candidate
/// can be that stands in a media section which no line makes inactive: `media` is
/// the section's first line and `end` the next section's.
pub proof fn ranked_candidates_have_priority(sdp: Seq<char>, media: int, end: int, at: int)
    requires
        candidates_have_priority(sdp),
        0 <= media <= at < end <= lines(sdp).len(),
        begins_media(lines(sdp)[media]),
        end == lines(sdp).len() || begins_media(lines(sdp)[end]),
        forall|i: int| media < i < end ==> !begins_media(#[trigger] lines(sdp)[i]),
        forall|i: int| media <= i < end ==> !makes_inactive(#[trigger] lines(sdp)[i]),
    ensures
        attribute_has_priority(lines(sdp)[at]),
{
    let all = lines(sdp);
    lemma_section_reached(all, 0, media);
    lemma_next_media_is(all, media + 1, end);
    lemma_section(all, media, end);
    assert(!makes_inactive(all[at]));
}

/// The media section that begins at a line is judged.
proof fn lemma_section_reached(description: Seq<Seq<char>>, from: int, media: int)
    requires
        0 <= from <= media < description.len(),
        sections_have_priorities(description, from),
        begins_media(description[media]),
    ensures
        sections_have_priorities(description, media),
    decreases description.len() - from,
{
    if from < media {
        lemma_next_media_bounds(description, from + 1);
        lemma_next_media_before(description, from + 1, media);
        lemma_section_reached(description, next_media(description, from + 1), media);
    }
}

/// The next media section begins no later than any.
proof fn lemma_next_media_before(description: Seq<Seq<char>>, from: int, media: int)
    requires
        from <= media < description.len(),
        begins_media(description[media]),
    ensures
        next_media(description, from) <= media,
    decreases description.len() - from,
{
    if from < media && !begins_media(description[from]) {
        lemma_next_media_before(description, from + 1, media);
    }
}

/// The next media section begins where the first line does that begins one.
proof fn lemma_next_media_is(description: Seq<Seq<char>>, from: int, end: int)
    requires
        0 <= from <= end <= description.len(),
        end == description.len() || begins_media(description[end]),
        forall|i: int| from <= i < end ==> !begins_media(#[trigger] description[i]),
    ensures
        next_media(description, from) == end,
    decreases end - from,
{
    if from < end {
        lemma_next_media_is(description, from + 1, end);
    }
}

/// A description is refused for nothing but such a candidate: one all of whose
/// candidates have a priority passes.
pub proof fn descriptions_with_priorities_pass(sdp: Seq<char>)
    requires
        forall|i: int|
            0 <= i < lines(sdp).len() ==> #[trigger] attribute_has_priority(lines(sdp)[i]),
    ensures
        candidates_have_priority(sdp),
{
    lemma_sections_pass(lines(sdp), 0);
}

/// Sections all of whose candidates have a priority pass.
proof fn lemma_sections_pass(description: Seq<Seq<char>>, from: int)
    requires
        0 <= from,
        forall|i: int|
            0 <= i < description.len() ==> #[trigger] attribute_has_priority(description[i]),
    ensures
        sections_have_priorities(description, from),
    decreases description.len() - from,
{
    if from < description.len() {
        lemma_next_media_bounds(description, from + 1);
        lemma_section(description, from, next_media(description, from + 1));
        lemma_sections_pass(description, next_media(description, from + 1));
    }
}

/// A candidate stands in a line as an attribute of that name, and a media section
/// begins with a line of its own.
pub proof fn attributes_stand_in_lines(value: Seq<char>, rest: Seq<char>)
    requires
        value.len() > 0,
        !is_space(value.last()),
    ensures
        attribute_has_priority("a=candidate:"@ + value) == value_has_priority(value),
        begins_media("m="@ + rest),
        makes_inactive("a=inactive"@),
{
    reveal_strlit("a=candidate:");
    reveal_strlit("candidate:");
    reveal_strlit("a=");
    reveal_strlit("m=");
    reveal_strlit("a=inactive");
    reveal_strlit("inactive");
    let line = "a=candidate:"@ + value;
    let attribute = "candidate:"@ + value;
    assert(after_space(line) == line);
    assert(line.skip(2) =~= attribute);
    assert("a="@.is_prefix_of(line)) by {
        assert(line.subrange(0, 2) =~= "a="@);
    }
    assert(after_space(attribute) == attribute);
    assert(attribute.last() == value.last());
    assert(before_space(attribute) == attribute);
    assert("candidate:"@.is_prefix_of(attribute)) by {
        assert(attribute.subrange(0, 10) =~= "candidate:"@);
    }
    assert(attribute.skip(10) =~= value);
    let media = "m="@ + rest;
    assert(after_space(media) == media);
    assert(media.subrange(0, 2) =~= "m="@);
    let silent = "a=inactive"@;
    assert(after_space(silent) == silent);
    assert(silent.subrange(0, 2) =~= "a="@);
    assert(silent.skip(2) =~= "inactive"@);
    assert(after_space("inactive"@) == "inactive"@);
    assert(before_space("inactive"@) == "inactive"@);
    texts_split_at_the_first("inactive"@, ':', Seq::empty());
}

/// A candidate to trickle is seen as it is: its line and where it belongs.
pub proof fn candidates_are_seen_as_they_are(local: LocalCandidate)
    ensures
        local@.candidate == local.candidate@,
        local@.sdp_mid == local.sdp_mid.deep_view(),
        local@.sdp_mline_index == local.sdp_mline_index,
{
}

/// Whether the line at `at` stands in the media section from `media` to `end`, and no
/// line makes that section inactive.
pub open spec fn in_active_section(
    description: Seq<Seq<char>>,
    media: int,
    end: int,
    at: int,
) -> bool {
    &&& 0 <= media <= at < end <= description.len()
    &&& begins_media(description[media])
    &&& end == description.len() || begins_media(description[end])
    &&& forall|i: int| media < i < end ==> !begins_media(#[trigger] description[i])
    &&& forall|i: int| media <= i < end ==> !makes_inactive(#[trigger] description[i])
}

/// A description passes exactly where the priority of every candidate can be told that
/// stands in an active media section. What stands before the first section, or in an
/// inactive one, is not held against it.
pub proof fn descriptions_are_judged_by_active_sections(sdp: Seq<char>)
    ensures
        candidates_have_priority(sdp) <==> forall|media: int, end: int, at: int| #[trigger]
            in_active_section(lines(sdp), media, end, at) ==> attribute_has_priority(
                lines(sdp)[at],
            ),
{
    let all = lines(sdp);
    if candidates_have_priority(sdp) {
        assert forall|media: int, end: int, at: int| #[trigger]
            in_active_section(all, media, end, at) implies attribute_has_priority(all[at]) by {
            ranked_candidates_have_priority(sdp, media, end, at);
        }
    }
    if forall|media: int, end: int, at: int| #[trigger]
        in_active_section(all, media, end, at) ==> attribute_has_priority(all[at]) {
        lemma_active_sections_pass(all, 0);
    }
}

/// Sections pass whose active candidates all have a priority.
proof fn lemma_active_sections_pass(description: Seq<Seq<char>>, from: int)
    requires
        0 <= from,
        forall|media: int, end: int, at: int| #[trigger]
            in_active_section(description, media, end, at) ==> attribute_has_priority(
                description[at],
            ),
    ensures
        sections_have_priorities(description, from),
    decreases description.len() - from,
{
    if from < description.len() {
        lemma_next_media_bounds(description, from + 1);
        lemma_next_media_found(description, from + 1);
        let end = next_media(description, from + 1);
        let section = description.subrange(from, end);
        if begins_media(description[from]) {
            if forall|i: int| 0 <= i < section.len() ==> !#[trigger] makes_inactive(section[i]) {
                assert forall|i: int| from <= i < end implies !makes_inactive(
                    #[trigger] description[i],
                ) by {
                    assert(section[i - from] == description[i]);
                }
                assert forall|i: int| 0 <= i < section.len() implies #[trigger]
                    attribute_has_priority(section[i]) by {
                    assert(in_active_section(description, from, end, from + i));
                }
            }
            assert(section_has_priorities(section));
        }
        lemma_active_sections_pass(description, end);
    }
}

/// Between a line and the next media section, no line begins one.
proof fn lemma_next_media_found(description: Seq<Seq<char>>, from: int)
    requires
        from <= description.len(),
    ensures
        next_media(description, from) < description.len() ==> begins_media(
            description[next_media(description, from)],
        ),
        forall|i: int|
            from <= i < next_media(description, from) ==> !begins_media(#[trigger] description[i]),
    decreases description.len() - from,
{
    if from < description.len() && !begins_media(description[from]) {
        lemma_next_media_found(description, from + 1);
    }
}

/// White space around a line, and behind `a=`, makes no difference.
pub proof fn attributes_may_be_spaced(line: Seq<char>, attribute: Seq<char>, c: char)
    requires
        is_space(c),
    ensures
        line_attribute(seq![c] + line) == line_attribute(line),
        begins_media(seq![c] + line) == begins_media(line),
        line_attribute("a="@ + (seq![c] + attribute)) == line_attribute("a="@ + attribute),
        line_attribute("a="@ + attribute.push(c)) == line_attribute("a="@ + attribute),
        attribute.len() > 0 && !is_space(attribute[0]) && !is_space(attribute.last())
            ==> line_attribute("a="@ + attribute) == Some(attribute),
{
    ends_are_trimmed(line, c);
    ends_are_trimmed(attribute, c);
    reveal_strlit("a=");
    lemma_attribute_of("a="@ + attribute, attribute);
    lemma_attribute_of("a="@ + (seq![c] + attribute), seq![c] + attribute);
    lemma_attribute_of("a="@ + attribute.push(c), attribute.push(c));
    lemma_space_behind(attribute, c);
}

/// The attribute of a line that begins with `a=`.
proof fn lemma_attribute_of(line: Seq<char>, attribute: Seq<char>)
    requires
        line == "a="@ + attribute,
    ensures
        line_attribute(line) == Some(before_space(after_space(attribute))),
{
    reveal_strlit("a=");
    assert(line[0] == 'a');
    assert(after_space(line) == line);
    assert(line.subrange(0, 2) =~= "a="@);
    assert(line.skip(2) =~= attribute);
}

/// White space behind a text goes with what surrounds it.
proof fn lemma_space_behind(s: Seq<char>, c: char)
    requires
        is_space(c),
    ensures
        before_space(after_space(s.push(c))) == before_space(after_space(s)),
    decreases s.len(),
{
    if s.len() == 0 {
        assert(s.push(c).skip(1) =~= s);
    } else if is_space(s[0]) {
        assert(s.push(c).skip(1) =~= s.skip(1).push(c));
        lemma_space_behind(s.skip(1), c);
    } else {
        assert(after_space(s.push(c)) == s.push(c));
        ends_are_trimmed(s, c);
    }
}

/// A line's attribute counts by its name alone: one named `inactive`, with or without a
/// value, makes its section inactive and no other does; a candidate is judged by its
/// value; and nothing else is judged.
pub proof fn attributes_count_by_their_name(line: Seq<char>, value: Seq<char>)
    ensures
        line_attribute(line) is None ==> attribute_has_priority(line) && !makes_inactive(line),
        line_attribute(line) matches Some(attribute) ==> {
            &&& makes_inactive(line) <==> before_first(attribute, ':') == "inactive"@
            &&& !"candidate:"@.is_prefix_of(attribute) ==> attribute_has_priority(line)
            &&& attribute == "candidate:"@ + value ==> attribute_has_priority(line)
                == value_has_priority(value)
        },
        line_attribute(line) is Some <==> "a="@.is_prefix_of(after_space(line)),
        begins_media(line) <==> "m="@.is_prefix_of(after_space(line)),
{
    let candidate = "candidate:"@ + value;
    assert(candidate.skip("candidate:"@.len() as int) =~= value);
    assert("candidate:"@.is_prefix_of(candidate));
}

/// A candidate's priority can be told for the components that a priority counts, and
/// otherwise where it has one.
pub proof fn priorities_count_components(component: nat, priority: nat)
    ensures
        component <= 256 ==> has_priority(component, priority),
        component > 256 ==> (has_priority(component, priority) <==> priority > 0),
{
}

/// A gathered candidate is judged by its component and its priority.
pub proof fn gathered_candidates_are_judged_alike(candidate: RTCIceCandidate)
    ensures
        candidate_has_priority(candidate) <==> candidate_component(candidate) <= 256
            || candidate_priority(candidate) > 0,
{
}

} // verus!
