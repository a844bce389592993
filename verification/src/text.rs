//! Text as sequences of characters: comparison, search, and the decimal
//! notation of numbers.

use vstd::prelude::*;

verus! {

/// Appends one character: `String::push` leaves the text followed by `c`.
pub assume_specification[ String::push ](s: &mut String, c: char)
    ensures
        final(s)@ == old(s)@.push(c),
;

/// A text in quotes, with its special characters escaped.
pub uninterp spec fn quoted(s: Seq<char>) -> Seq<char>;

/// The `Debug` notation of a `str`, through `format!`: the text in quotes, with
/// escapes, as it is read back by the compiler.
#[verifier::external_body]
pub(crate) fn quote(s: &str) -> (r: String)
    ensures
        r@ == quoted(s@),
{
    format!("{s:?}")
}

/// An owned copy of `s`.
pub fn text(s: &str) -> (r: String)
    ensures
        r@ == s@,
{
    s.to_owned()
}

/// Whether `a` and `b` hold the same characters.
pub fn same_text(a: &str, b: &str) -> (r: bool)
    ensures
        r == (a@ == b@),
{
    a.to_owned() == b.to_owned()
}

/// The characters of `s`, in order.
pub fn chars_of(s: &str) -> (r: Vec<char>)
    ensures
        r@ == s@,
{
    let mut r: Vec<char> = Vec::new();
    for c in it: s.chars()
        invariant
            it.seq() == s@,
            r@ == s@.take(it.index() as int),
    {
        r.push(c);
    }
    r
}

/// The text made of `chars[from..to]`.
pub fn text_between(chars: &Vec<char>, from: usize, to: usize) -> (r: String)
    requires
        from <= to <= chars@.len(),
    ensures
        r@ == chars@.subrange(from as int, to as int),
{
    let mut r: String = String::new();
    let mut i: usize = from;
    while i < to
        invariant
            from <= i <= to <= chars@.len(),
            r@ == chars@.subrange(from as int, i as int),
        decreases to - i,
    {
        r.push(chars[i]);
        i += 1;
    }
    r
}

/// Whether `pattern` stands in `s` at position `at`.
pub open spec fn occurs_at(s: Seq<char>, pattern: Seq<char>, at: int) -> bool {
    &&& 0 <= at
    &&& at + pattern.len() <= s.len()
    &&& s.subrange(at, at + pattern.len()) == pattern
}

/// Whether `pattern` stands somewhere in `s`.
pub open spec fn contains_text(s: Seq<char>, pattern: Seq<char>) -> bool {
    exists|at: int| occurs_at(s, pattern, at)
}

/// Compares `s` at position `at` with `pattern`.
fn matches_at(s: &Vec<char>, pattern: &Vec<char>, at: usize) -> (r: bool)
    requires
        at <= s@.len(),
    ensures
        r == occurs_at(s@, pattern@, at as int),
{
    let len: usize = s.len();
    if len - at < pattern.len() {
        return false;
    }
    let mut i: usize = 0;
    while i < pattern.len()
        invariant
            at + pattern@.len() <= len == s@.len(),
            i <= pattern@.len(),
            forall|j: int| 0 <= j < i ==> s@[at + j] == pattern@[j],
        decreases pattern@.len() - i,
    {
        if s[at + i] != pattern[i] {
            assert(s@.subrange(at as int, at + pattern@.len())[i as int] != pattern@[i as int]);
            return false;
        }
        i += 1;
    }
    assert(s@.subrange(at as int, at + pattern@.len()) =~= pattern@);
    true
}

/// The first position not before `from` at which `pattern` stands in `s`.
pub fn find_from(s: &Vec<char>, pattern: &Vec<char>, from: usize) -> (r: Option<usize>)
    requires
        from <= s@.len(),
    ensures
        match r {
            Some(at) => from <= at && occurs_at(s@, pattern@, at as int) && forall|j: int|
                from <= j < at ==> !occurs_at(s@, pattern@, j),
            None => forall|j: int| from <= j ==> !occurs_at(s@, pattern@, j),
        },
{
    let mut at: usize = from;
    while at < s.len()
        invariant
            from <= at <= s@.len(),
            forall|j: int| from <= j < at ==> !occurs_at(s@, pattern@, j),
        decreases s@.len() - at,
    {
        if matches_at(s, pattern, at) {
            return Some(at);
        }
        at += 1;
    }
    if matches_at(s, pattern, at) {
        return Some(at);
    }
    None
}

/// Whether `s` begins with `prefix`.
pub fn starts_with(s: &str, prefix: &str) -> (r: bool)
    ensures
        r == prefix@.is_prefix_of(s@),
{
    let s: Vec<char> = chars_of(s);
    let prefix: Vec<char> = chars_of(prefix);
    let r: bool = matches_at(&s, &prefix, 0);
    r
}

/// `s` without the run of `c` at its end.
pub open spec fn trim_end(s: Seq<char>, c: char) -> Seq<char>
    decreases s.len(),
{
    if s.len() > 0 && s.last() == c {
        trim_end(s.drop_last(), c)
    } else {
        s
    }
}

/// `s` without the run of `c` at its end.
pub fn trim_end_matches(s: &str, c: char) -> (r: String)
    ensures
        r@ == trim_end(s@, c),
{
    let chars: Vec<char> = chars_of(s);
    let mut end: usize = chars.len();
    assert(chars@.take(end as int) =~= s@);
    while end > 0 && chars[end - 1] == c
        invariant
            chars@ == s@,
            end <= chars@.len(),
            trim_end(chars@.take(end as int), c) == trim_end(s@, c),
        decreases end,
    {
        assert(chars@.take(end as int).drop_last() =~= chars@.take(end - 1));
        end -= 1;
    }
    assert(chars@.take(end as int) =~= chars@.subrange(0, end as int));
    text_between(&chars, 0, end)
}

/// The decimal digit with value `d`.
pub open spec fn digit(d: nat) -> char {
    (48 + d) as char
}

/// The decimal notation of `n`, without leading zeros.
pub open spec fn decimal(n: nat) -> Seq<char>
    decreases n,
{
    if n < 10 {
        seq![digit(n)]
    } else {
        decimal(n / 10).push(digit(n % 10))
    }
}

/// A decimal notation is made of digits, at least one.
pub proof fn lemma_decimal_digits(n: nat)
    ensures
        decimal(n).len() > 0,
        forall|i: int| 0 <= i < decimal(n).len() ==> '0' <= #[trigger] decimal(n)[i] <= '9',
    decreases n,
{
    if n >= 10 {
        lemma_decimal_digits(n / 10);
    }
}

/// Different numbers have different notations.
pub proof fn lemma_decimal_injective(a: nat, b: nat)
    requires
        decimal(a) == decimal(b),
    ensures
        a == b,
    decreases a,
{
    lemma_decimal_digits(a / 10);
    lemma_decimal_digits(b / 10);
    assert(decimal(a).last() == digit(a % 10));
    assert(decimal(b).last() == digit(b % 10));
    assert(a % 10 == b % 10);
    if a >= 10 && b >= 10 {
        assert(decimal(a).drop_last() =~= decimal(a / 10));
        assert(decimal(b).drop_last() =~= decimal(b / 10));
        lemma_decimal_injective(a / 10, b / 10);
    } else {
        assert(a < 10 ==> decimal(a).len() == 1);
        assert(b < 10 ==> decimal(b).len() == 1);
    }
}

/// The decimal notation of `n`.
pub fn decimal_text(n: u128) -> (r: String)
    ensures
        r@ == decimal(n as nat),
    decreases n,
{
    let mut r: String = String::new();
    if n >= 10 {
        r = decimal_text(n / 10);
    }
    r.push((48u8 + (n % 10) as u8) as char);
    r
}

/// Why a text is not a number.
#[derive(Clone, Copy, Debug, PartialEq, Eq, Structural)]
pub enum NumberError {
    /// There is no text.
    Empty,
    /// A character that is no decimal digit.
    InvalidDigit,
    /// The digits up to here exceed the largest value.
    TooLarge,
}

/// Whether `c` is a decimal digit.
pub open spec fn is_digit(c: char) -> bool {
    '0' <= c <= '9'
}

/// The value of a text of decimal digits, read from the left; the first
/// character that cannot be taken decides the error.
pub open spec fn digits_value(s: Seq<char>, max: nat) -> Result<nat, NumberError>
    decreases s.len(),
{
    if s.len() == 0 {
        Ok(0)
    } else {
        match digits_value(s.drop_last(), max) {
            Err(e) => Err(e),
            Ok(v) => if !is_digit(s.last()) {
                Err(NumberError::InvalidDigit)
            } else if v * 10 + (s.last() as nat - 48) > max {
                Err(NumberError::TooLarge)
            } else {
                Ok((v * 10 + (s.last() as nat - 48)) as nat)
            },
        }
    }
}

/// The value of a text as an unsigned number that is at most `max`: decimal
/// digits, with an optional `+` before them.
pub open spec fn number_value(s: Seq<char>, max: nat) -> Result<nat, NumberError> {
    if s.len() == 0 {
        Err(NumberError::Empty)
    } else if s[0] == '+' {
        if s.len() == 1 {
            Err(NumberError::InvalidDigit)
        } else {
            digits_value(s.skip(1), max)
        }
    } else {
        digits_value(s, max)
    }
}

/// The digits of a number's notation are worth the number.
proof fn lemma_decimal_digits_value(n: nat, max: nat)
    requires
        n <= max,
    ensures
        digits_value(decimal(n), max) == Ok::<nat, NumberError>(n),
    decreases n,
{
    if n < 10 {
        assert(decimal(n).drop_last() =~= Seq::<char>::empty());
        assert(digits_value(decimal(n).drop_last(), max) == Ok::<nat, NumberError>(0));
    } else {
        lemma_decimal_digits_value(n / 10, max);
        assert(decimal(n).drop_last() =~= decimal(n / 10));
        assert(decimal(n).last() == digit(n % 10));
    }
}

/// Reading a number's notation gives the number back.
pub proof fn numbers_round_trip(n: nat, max: nat)
    requires
        n <= max,
    ensures
        number_value(decimal(n), max) == Ok::<nat, NumberError>(n),
{
    lemma_decimal_digits(n);
    lemma_decimal_digits_value(n, max);
}

/// Reads `s` as an unsigned number that is at most `max`.
pub fn parse_number(s: &str, max: u64) -> (r: Result<u64, NumberError>)
    ensures
        match r {
            Ok(v) => number_value(s@, max as nat) == Ok::<nat, NumberError>(v as nat),
            Err(e) => number_value(s@, max as nat) == Err::<nat, NumberError>(e),
        },
{
    let chars: Vec<char> = chars_of(s);
    if chars.len() == 0 {
        return Err(NumberError::Empty);
    }
    let start: usize = if chars[0] == '+' {
        1
    } else {
        0
    };
    if start == chars.len() {
        return Err(NumberError::InvalidDigit);
    }
    let ghost body = chars@.skip(start as int);
    let mut value: u64 = 0;
    let mut i: usize = start;
    proof {
        assert(chars@.skip(0) =~= chars@);
        assert(body.take(0) =~= Seq::<char>::empty());
    }
    while i < chars.len()
        invariant
            start <= i <= chars@.len(),
            body == chars@.skip(start as int),
            number_value(s@, max as nat) == digits_value(body, max as nat),
            digits_value(body.take(i - start), max as nat) == Ok::<nat, NumberError>(
                value as nat,
            ),
            value <= max,
        decreases chars@.len() - i,
    {
        let c: char = chars[i];
        proof {
            let prefix = body.take(i + 1 - start);
            assert(prefix.drop_last() =~= body.take(i - start));
            assert(prefix.last() == c);
            if !is_digit(c) || value * 10 + (c as nat - 48) > max {
                lemma_error_stays(body, i + 1 - start, max as nat);
            }
        }
        if c < '0' || c > '9' {
            return Err(NumberError::InvalidDigit);
        }
        let d: u64 = (c as u32 - 48) as u64;
        if d > max || value > max / 10 || value * 10 > max - d {
            return Err(NumberError::TooLarge);
        }
        value = value * 10 + d;
        i += 1;
    }
    assert(body.take(i - start) =~= body);
    Ok(value)
}

/// An error met in the first `n` characters is the error of the whole text.
proof fn lemma_error_stays(s: Seq<char>, n: int, max: nat)
    requires
        0 <= n <= s.len(),
        digits_value(s.take(n), max) is Err,
    ensures
        digits_value(s, max) == digits_value(s.take(n), max),
    decreases s.len() - n,
{
    if n == s.len() {
        assert(s.take(n) =~= s);
    } else {
        assert(s.take(n + 1).drop_last() =~= s.take(n));
        lemma_error_stays(s, n + 1, max);
    }
}

/// What stands in `s` behind `prefix`, where `s` begins with it.
pub fn strip_prefix(s: &str, prefix: &str) -> (r: Option<String>)
    ensures
        match r {
            Some(rest) => prefix@.is_prefix_of(s@) && rest@ == s@.skip(prefix@.len() as int),
            None => !prefix@.is_prefix_of(s@),
        },
{
    let s: Vec<char> = chars_of(s);
    let prefix: Vec<char> = chars_of(prefix);
    if matches_at(&s, &prefix, 0) {
        let rest: String = text_between(&s, prefix.len(), s.len());
        assert(rest@ =~= s@.skip(prefix@.len() as int));
        Some(rest)
    } else {
        None
    }
}

/// Whether `c` is white space, by Unicode's property of that name.
pub open spec fn is_space(c: char) -> bool {
    ||| '\u{9}' <= c <= '\u{d}'
    ||| c == ' ' || c == '\u{85}' || c == '\u{a0}' || c == '\u{1680}'
    ||| '\u{2000}' <= c <= '\u{200a}'
    ||| c == '\u{2028}' || c == '\u{2029}' || c == '\u{202f}' || c == '\u{205f}' || c == '\u{3000}'
}

/// Whether `c` is white space.
fn space(c: char) -> (r: bool)
    ensures
        r == is_space(c),
{
    ('\u{9}' <= c && c <= '\u{d}') || c == ' ' || c == '\u{85}' || c == '\u{a0}' || c == '\u{1680}'
        || ('\u{2000}' <= c && c <= '\u{200a}') || c == '\u{2028}' || c == '\u{2029}' || c
        == '\u{202f}' || c == '\u{205f}' || c == '\u{3000}'
}

/// What stands in `s` behind the white space that it begins with.
pub open spec fn after_space(s: Seq<char>) -> Seq<char>
    decreases s.len(),
{
    if s.len() > 0 && is_space(s[0]) {
        after_space(s.skip(1))
    } else {
        s
    }
}

/// Takes away the white space that `s` begins with.
pub fn trim_start(s: &str) -> (r: String)
    ensures
        r@ == after_space(s@),
{
    let chars: Vec<char> = chars_of(s);
    let mut at: usize = 0;
    assert(chars@.skip(0) =~= chars@);
    while at < chars.len() && space(chars[at])
        invariant
            chars@ == s@,
            at <= chars@.len(),
            after_space(s@) == after_space(chars@.skip(at as int)),
        decreases chars@.len() - at,
    {
        assert(chars@.skip(at as int).skip(1) =~= chars@.skip(at + 1));
        at += 1;
    }
    let rest: String = text_between(&chars, at, chars.len());
    assert(rest@ =~= chars@.skip(at as int));
    rest
}

/// What stands in `s` before the white space that it ends with.
pub open spec fn before_space(s: Seq<char>) -> Seq<char>
    decreases s.len(),
{
    if s.len() > 0 && is_space(s.last()) {
        before_space(s.drop_last())
    } else {
        s
    }
}

/// Takes away the white space that `s` begins and ends with.
pub fn trim(s: &str) -> (r: String)
    ensures
        r@ == before_space(after_space(s@)),
{
    let start: String = trim_start(s);
    let chars: Vec<char> = chars_of(start.as_str());
    let mut end: usize = chars.len();
    assert(chars@.take(end as int) =~= chars@);
    while end > 0 && space(chars[end - 1])
        invariant
            chars@ == after_space(s@),
            end <= chars@.len(),
            before_space(after_space(s@)) == before_space(chars@.take(end as int)),
        decreases end,
    {
        assert(chars@.take(end as int).drop_last() =~= chars@.take(end - 1));
        end -= 1;
    }
    let kept: String = text_between(&chars, 0, end);
    assert(kept@ =~= chars@.take(end as int));
    kept
}

/// The lines of a text: what stands before, between and behind its newlines, but
/// for nothing behind the last.
pub open spec fn lines(s: Seq<char>) -> Seq<Seq<char>>
    decreases s.len(),
{
    if s.len() == 0 {
        Seq::empty()
    } else {
        proof {
            lemma_after_first_shorter(s, '\n');
        }
        seq![before_first(s, '\n')] + lines(after_first(s, '\n'))
    }
}

/// Splits a text into its lines.
pub fn split_lines(s: &str) -> (r: Vec<String>)
    ensures
        r.deep_view() == lines(s@),
{
    let mut r: Vec<String> = Vec::new();
    let mut rest: String = text(s);
    assert(r.deep_view() + lines(rest@) =~= lines(s@));
    while !rest.as_str().is_empty()
        invariant
            r.deep_view() + lines(rest@) == lines(s@),
        decreases rest@.len(),
    {
        let ghost done = r.deep_view();
        proof {
            lemma_after_first_shorter(rest@, '\n');
        }
        let (line, more): (String, String) = split_first(rest.as_str(), '\n');
        let ghost first = line@;
        r.push(line);
        assert(r.deep_view() =~= done.push(first));
        assert(r.deep_view() + lines(more@) =~= done + (seq![first] + lines(more@)));
        rest = more;
    }
    assert(r.deep_view() + lines(rest@) =~= r.deep_view());
    r
}

/// The words of a text: what stands between its white space.
pub open spec fn words(s: Seq<char>) -> Seq<Seq<char>>
    decreases s.len(),
{
    if s.len() == 0 {
        Seq::empty()
    } else {
        let before = words(s.drop_last());
        if is_space(s.last()) {
            before
        } else if s.len() == 1 || is_space(s[s.len() - 2]) {
            before.push(seq![s.last()])
        } else {
            before.drop_last().push(before.last().push(s.last()))
        }
    }
}

/// Splits a text into its words.
pub fn split_words(s: &str) -> (r: Vec<String>)
    ensures
        r.deep_view() == words(s@),
{
    let chars: Vec<char> = chars_of(s);
    let mut r: Vec<String> = Vec::new();
    let mut word: String = String::new();
    let mut i: usize = 0;
    assert(r.deep_view() =~= words(chars@.take(0)));
    while i < chars.len()
        invariant
            chars@ == s@,
            i <= chars@.len(),
            word@.len() == 0 <==> i == 0 || is_space(chars@[i - 1]),
            words(chars@.take(i as int)) == (if word@.len() == 0 {
                r.deep_view()
            } else {
                r.deep_view().push(word@)
            }),
        decreases chars@.len() - i,
    {
        let c: char = chars[i];
        let ghost prior = word@;
        let ghost done = r.deep_view();
        assert(chars@.take(i + 1).drop_last() =~= chars@.take(i as int));
        if space(c) {
            if !word.as_str().is_empty() {
                r.push(word);
                word = String::new();
                assert(r.deep_view() =~= done.push(prior));
            }
        } else {
            word.push(c);
            proof {
                if prior.len() == 0 {
                    assert(word@ =~= seq![c]);
                } else {
                    assert(done.push(prior).drop_last() =~= done);
                }
            }
        }
        i += 1;
    }
    assert(chars@.take(i as int) =~= s@);
    if !word.as_str().is_empty() {
        let ghost done = r.deep_view();
        let ghost last = word@;
        r.push(word);
        assert(r.deep_view() =~= done.push(last));
    }
    r
}

/// The position of the first `c` in `s`, or the length of `s` without one.
pub open spec fn first_index(s: Seq<char>, c: char) -> int
    decreases s.len(),
{
    if s.len() == 0 || s[0] == c {
        0
    } else {
        1 + first_index(s.skip(1), c)
    }
}

/// What stands in `s` before the first `c`: all of `s` without one.
pub open spec fn before_first(s: Seq<char>, c: char) -> Seq<char> {
    s.take(first_index(s, c))
}

/// What stands in `s` after the first `c`: nothing without one.
pub open spec fn after_first(s: Seq<char>, c: char) -> Seq<char> {
    if first_index(s, c) < s.len() {
        s.skip(first_index(s, c) + 1)
    } else {
        Seq::empty()
    }
}

/// The first `c` of a text stands in it, or at its end without one.
proof fn lemma_first_index_bounds(s: Seq<char>, c: char)
    ensures
        0 <= first_index(s, c) <= s.len(),
    decreases s.len(),
{
    if s.len() > 0 {
        lemma_first_index_bounds(s.skip(1), c);
    }
}

/// What stands after the first `c` of a text is shorter than the text.
pub proof fn lemma_after_first_shorter(s: Seq<char>, c: char)
    requires
        s.len() > 0,
    ensures
        after_first(s, c).len() < s.len(),
{
    lemma_first_index_bounds(s, c);
}

/// Splits `s` at the first `c` into what stands before and after it.
pub fn split_first(s: &str, c: char) -> (r: (String, String))
    ensures
        r.0@ == before_first(s@, c),
        r.1@ == after_first(s@, c),
{
    let chars: Vec<char> = chars_of(s);
    let mut at: usize = 0;
    assert(chars@.skip(0) =~= chars@);
    while at < chars.len() && chars[at] != c
        invariant
            chars@ == s@,
            at <= chars@.len(),
            first_index(s@, c) == at + first_index(chars@.skip(at as int), c),
        decreases chars@.len() - at,
    {
        assert(chars@.skip(at as int).skip(1) =~= chars@.skip(at + 1));
        at += 1;
    }
    assert(first_index(chars@.skip(at as int), c) == 0);
    let before: String = text_between(&chars, 0, at);
    assert(chars@.subrange(0, at as int) =~= s@.take(at as int));
    if at < chars.len() {
        let after: String = text_between(&chars, at + 1, chars.len());
        assert(after@ =~= s@.skip(at + 1));
        (before, after)
    } else {
        (before, String::new())
    }
}

/// What stands in `s` after the last `c`: all of `s` without one.
pub open spec fn after_last(s: Seq<char>, c: char) -> Seq<char>
    decreases s.len(),
{
    if s.len() == 0 || s.last() == c {
        Seq::empty()
    } else {
        after_last(s.drop_last(), c).push(s.last())
    }
}

/// Where in `chars[..end]` begins what stands after the last `c`.
fn tail_start(chars: &Vec<char>, end: usize, c: char) -> (r: usize)
    requires
        end <= chars@.len(),
    ensures
        r <= end,
        chars@.subrange(r as int, end as int) == after_last(chars@.take(end as int), c),
{
    let mut i: usize = end;
    assert(after_last(chars@.take(end as int), c) + chars@.subrange(end as int, end as int)
        =~= after_last(chars@.take(end as int), c));
    while i > 0 && chars[i - 1] != c
        invariant
            i <= end <= chars@.len(),
            after_last(chars@.take(end as int), c) == after_last(chars@.take(i as int), c)
                + chars@.subrange(i as int, end as int),
        decreases i,
    {
        proof {
            let shorter = chars@.take(i as int);
            assert(shorter.last() == chars@[i - 1]);
            assert(shorter.drop_last() =~= chars@.take(i - 1));
            assert(after_last(shorter, c) + chars@.subrange(i as int, end as int) =~= after_last(
                chars@.take(i - 1),
                c,
            ) + chars@.subrange(i - 1, end as int));
        }
        i -= 1;
    }
    assert(after_last(chars@.take(i as int), c) =~= Seq::<char>::empty());
    assert(chars@.subrange(i as int, end as int) =~= after_last(chars@.take(end as int), c));
    i
}

/// What stands in `s` after the last `c`.
pub fn text_after_last(s: &str, c: char) -> (r: String)
    ensures
        r@ == after_last(s@, c),
{
    let chars: Vec<char> = chars_of(s);
    let start: usize = tail_start(&chars, chars.len(), c);
    assert(chars@.take(chars@.len() as int) =~= s@);
    text_between(&chars, start, chars.len())
}

/// The last line of a text. A line ends with a line feed, or with a carriage
/// return and a line feed; the ending of the last one may be missing.
pub open spec fn last_line(s: Seq<char>) -> Seq<char> {
    if s.len() > 0 && s.last() == '\n' {
        let line = after_last(s.drop_last(), '\n');
        if line.len() > 0 && line.last() == '\r' {
            line.drop_last()
        } else {
            line
        }
    } else {
        after_last(s, '\n')
    }
}

/// The last line of a text, without its ending.
pub fn text_last_line(s: &str) -> (r: String)
    ensures
        r@ == last_line(s@),
{
    let chars: Vec<char> = chars_of(s);
    let len: usize = chars.len();
    assert(chars@.take(len as int) =~= s@);
    if len > 0 && chars[len - 1] == '\n' {
        assert(chars@.take(len - 1) =~= s@.drop_last());
        let start: usize = tail_start(&chars, len - 1, '\n');
        if start < len - 1 && chars[len - 2] == '\r' {
            assert(chars@.subrange(start as int, len - 2) =~= chars@.subrange(
                start as int,
                len - 1,
            ).drop_last());
            text_between(&chars, start, len - 2)
        } else {
            text_between(&chars, start, len - 1)
        }
    } else {
        let start: usize = tail_start(&chars, len, '\n');
        text_between(&chars, start, len)
    }
}

/// The order of texts by their characters' code points, which is also the
/// order of their UTF-8 bytes.
pub open spec fn text_less(a: Seq<char>, b: Seq<char>) -> bool
    decreases a.len(),
{
    &&& b.len() > 0
    &&& {
        ||| a.len() == 0
        ||| a[0] < b[0]
        ||| a[0] == b[0] && text_less(a.skip(1), b.skip(1))
    }
}

/// Of two different texts one stands before the other.
pub proof fn lemma_text_less_total(a: Seq<char>, b: Seq<char>)
    ensures
        a != b ==> text_less(a, b) || text_less(b, a),
    decreases a.len(),
{
    if a.len() > 0 && b.len() > 0 && a[0] == b[0] {
        lemma_text_less_total(a.skip(1), b.skip(1));
        if a.skip(1) == b.skip(1) {
            assert(a =~= seq![a[0]] + a.skip(1));
            assert(b =~= seq![b[0]] + b.skip(1));
        }
    } else if a.len() == 0 && b.len() == 0 {
        assert(a =~= b);
    }
}

/// No text stands before itself, nor two before each other.
pub proof fn lemma_text_less_asymmetric(a: Seq<char>, b: Seq<char>)
    requires
        text_less(a, b),
    ensures
        !text_less(b, a),
        a != b,
    decreases a.len(),
{
    if a.len() > 0 && a[0] == b[0] {
        lemma_text_less_asymmetric(a.skip(1), b.skip(1));
    }
}

/// The order carries over a text in between.
pub proof fn lemma_text_less_transitive(a: Seq<char>, b: Seq<char>, c: Seq<char>)
    requires
        text_less(a, b),
        text_less(b, c),
    ensures
        text_less(a, c),
    decreases a.len(),
{
    if a.len() > 0 && a[0] == b[0] && b[0] == c[0] {
        lemma_text_less_transitive(a.skip(1), b.skip(1), c.skip(1));
    }
}

/// Whether `a` stands before `b`.
pub fn text_before(a: &str, b: &str) -> (r: bool)
    ensures
        r == text_less(a@, b@),
{
    let x: Vec<char> = chars_of(a);
    let y: Vec<char> = chars_of(b);
    let mut i: usize = 0;
    proof {
        assert(x@.skip(0) =~= a@);
        assert(y@.skip(0) =~= b@);
    }
    while i < x.len() && i < y.len()
        invariant
            i <= x@.len(),
            i <= y@.len(),
            text_less(a@, b@) == text_less(x@.skip(i as int), y@.skip(i as int)),
        decreases x@.len() - i,
    {
        if x[i] < y[i] {
            return true;
        }
        if x[i] != y[i] {
            return false;
        }
        proof {
            assert(x@.skip(i as int).skip(1) =~= x@.skip(i + 1));
            assert(y@.skip(i as int).skip(1) =~= y@.skip(i + 1));
        }
        i += 1;
    }
    i < y.len()
}

/// A text splits at the first separator: what stands before it, which holds none,
/// and all that stands behind it. A text without one is all before.
pub proof fn texts_split_at_the_first(head: Seq<char>, c: char, rest: Seq<char>)
    requires
        !head.contains(c),
    ensures
        before_first(head + seq![c] + rest, c) == head,
        after_first(head + seq![c] + rest, c) == rest,
        before_first(head, c) == head,
        after_first(head, c) == Seq::<char>::empty(),
{
    let whole = head + seq![c] + rest;
    lemma_first_index_is(whole, c, head.len() as int);
    lemma_first_index_is(head, c, head.len() as int);
    assert(whole.take(head.len() as int) =~= head);
    assert(whole.skip(head.len() as int + 1) =~= rest);
    assert(head.take(head.len() as int) =~= head);
}

/// The first position at which a character stands is the first one.
proof fn lemma_first_index_is(s: Seq<char>, c: char, at: int)
    requires
        0 <= at <= s.len(),
        forall|i: int| 0 <= i < at ==> s[i] != c,
        at < s.len() ==> s[at] == c,
    ensures
        first_index(s, c) == at,
    decreases s.len(),
{
    if at > 0 {
        lemma_first_index_is(s.skip(1), c, at - 1);
    }
}

/// The tail of a text behind the last separator is what stands behind it, and
/// holds none; a text without one is all tail.
pub proof fn tails_follow_the_last(head: Seq<char>, c: char, tail: Seq<char>)
    requires
        !tail.contains(c),
    ensures
        after_last(head + seq![c] + tail, c) == tail,
        after_last(tail, c) == tail,
    decreases tail.len(),
{
    let whole = head + seq![c] + tail;
    if tail.len() == 0 {
        assert(whole.last() == c);
        assert(after_last(tail, c) =~= tail);
    } else {
        let shorter = tail.drop_last();
        assert(!shorter.contains(c)) by {
            if shorter.contains(c) {
                let i = choose|i: int| 0 <= i < shorter.len() && shorter[i] == c;
                assert(tail[i] == c);
            }
        }
        tails_follow_the_last(head, c, shorter);
        assert(tail.contains(tail.last()));
        assert(whole.drop_last() =~= head + seq![c] + shorter);
        assert(whole.last() == tail.last());
        assert(shorter.push(tail.last()) =~= tail);
    }
}

/// The last line of a text is what stands behind its last line ending, where a
/// text that ends with a line ending has no line behind it: `\n` and `\r\n` both
/// end a line.
pub proof fn last_lines_stand_last(before: Seq<char>, line: Seq<char>)
    requires
        before.len() == 0 || before.last() == '\n',
        !line.contains('\n'),
    ensures
        line.len() > 0 ==> last_line(before + line) == line,
        line.len() == 0 || line.last() != '\r' ==> last_line(before + line + seq!['\n']) == line,
        last_line(before + line + seq!['\r', '\n']) == line,
{
    lemma_tail_of_line(before, line);
    let open = before + line;
    if line.len() > 0 {
        assert(open.last() == line.last());
        assert(line.contains(line.last()));
    }
    let ended = before + line + seq!['\n'];
    assert(ended.drop_last() =~= open);
    let returned = line + seq!['\r'];
    assert(!returned.contains('\n')) by {
        if returned.contains('\n') {
            let i = choose|i: int| 0 <= i < returned.len() && returned[i] == '\n';
            assert(line[i] == '\n');
        }
    }
    lemma_tail_of_line(before, returned);
    let both = before + line + seq!['\r', '\n'];
    assert(both.drop_last() =~= before + returned);
    assert(returned.drop_last() =~= line);
}

/// The tail behind the last newline is the line that stands there.
proof fn lemma_tail_of_line(before: Seq<char>, line: Seq<char>)
    requires
        before.len() == 0 || before.last() == '\n',
        !line.contains('\n'),
    ensures
        after_last(before + line, '\n') == line,
{
    if before.len() == 0 {
        tails_follow_the_last(before, '\n', line);
        assert(before + line =~= line);
    } else {
        tails_follow_the_last(before.drop_last(), '\n', line);
        assert(before.drop_last() + seq!['\n'] + line =~= before + line);
    }
}

/// Trimming takes every trailing `c` away, and nothing else.
pub proof fn trimming_takes_the_trailing_away(s: Seq<char>, c: char)
    ensures
        trim_end(s.push(c), c) == trim_end(s, c),
        s.len() == 0 || s.last() != c ==> trim_end(s, c) == s,
{
    assert(s.push(c).drop_last() =~= s);
}

/// A decimal notation grows digit by digit: ten times a number and a digit is
/// written as the number and the digit.
pub proof fn decimals_grow_digit_by_digit(n: nat, d: nat)
    requires
        d < 10,
    ensures
        decimal(d).len() == 1,
        decimal(d)[0] as nat == '0' as nat + d,
        n > 0 ==> decimal(n * 10 + d) == decimal(n) + decimal(d),
{
    if n > 0 {
        assert((n * 10 + d) / 10 == n);
        assert((n * 10 + d) % 10 == d);
        assert(decimal(n * 10 + d) =~= decimal(n) + decimal(d));
    }
}

/// A number is read from the left, digit by digit: a further digit makes ten times
/// what was read and the digit, as long as that is at most `max`; a further
/// character that is none, or a digit too many, spoils it for good.
pub proof fn numbers_are_read_digit_by_digit(s: Seq<char>, c: char, max: nat)
    requires
        s.len() > 0,
        s != seq!['+'],
    ensures
        match number_value(s, max) {
            Err(e) => number_value(s.push(c), max) == Err::<nat, NumberError>(e),
            Ok(v) => number_value(s.push(c), max) == (if !('0' <= c <= '9') {
                Err(NumberError::InvalidDigit)
            } else if v * 10 + (c as nat - '0' as nat) <= max {
                Ok((v * 10 + (c as nat - '0' as nat)) as nat)
            } else {
                Err(NumberError::TooLarge)
            }),
        },
{
    if s[0] == '+' {
        if s.len() == 1 {
            assert(s =~= seq!['+']);
        }
        assert(s.push(c).skip(1) =~= s.skip(1).push(c));
        assert(s.skip(1).push(c).drop_last() =~= s.skip(1));
    } else {
        assert(s.push(c).drop_last() =~= s);
    }
}

/// A number begins with a digit, or with a `+` and a digit.
pub proof fn numbers_begin_with_a_digit(c: char, max: nat)
    ensures
        number_value(Seq::empty(), max) == Err::<nat, NumberError>(NumberError::Empty),
        number_value(seq!['+'], max) == Err::<nat, NumberError>(NumberError::InvalidDigit),
        c != '+' ==> number_value(seq![c], max) == number_value(seq!['+', c], max),
        c != '+' && !('0' <= c <= '9') ==> number_value(seq![c], max) == Err::<nat, NumberError>(
            NumberError::InvalidDigit,
        ),
        '0' <= c <= '9' && c as nat - '0' as nat <= max ==> number_value(seq![c], max) == Ok::<
            nat,
            NumberError,
        >((c as nat - '0' as nat) as nat),
        '0' <= c <= '9' && c as nat - '0' as nat > max ==> number_value(seq![c], max) == Err::<
            nat,
            NumberError,
        >(NumberError::TooLarge),
{
    assert(seq!['+', c].skip(1) =~= seq![c]);
    assert(seq![c].drop_last() =~= Seq::<char>::empty());
    assert(digits_value(Seq::<char>::empty(), max) == Ok::<nat, NumberError>(0));
}

/// A text is found exactly where it stands: a text holds another if and only if it
/// is made of something, the other, and something.
pub proof fn texts_are_found_where_they_stand(
    before: Seq<char>,
    pattern: Seq<char>,
    after: Seq<char>,
    s: Seq<char>,
    at: int,
)
    ensures
        occurs_at(before + pattern + after, pattern, before.len() as int),
        contains_text(before + pattern + after, pattern),
        occurs_at(s, pattern, at) ==> contains_text(s, pattern) && 0 <= at <= s.len() && s
            == s.take(at) + pattern + s.skip(at + pattern.len()),
        contains_text(s, pattern) ==> exists|at: int| #[trigger] occurs_at(s, pattern, at),
{
    let whole = before + pattern + after;
    assert(whole.subrange(before.len() as int, (before.len() + pattern.len()) as int)
        =~= pattern);
    assert(occurs_at(whole, pattern, before.len() as int));
    if occurs_at(s, pattern, at) {
        assert(s =~= s.take(at) + s.subrange(at, at + pattern.len()) + s.skip(at + pattern.len()));
    }
}

/// Texts are ordered by the first character in which they differ, and a text
/// stands before every longer one that begins with it.
pub proof fn texts_are_ordered_by_their_first_difference(
    common: Seq<char>,
    x: char,
    a: Seq<char>,
    y: char,
    b: Seq<char>,
)
    ensures
        x != y ==> (text_less(common + seq![x] + a, common + seq![y] + b) <==> x < y),
        text_less(common, common + seq![x] + a),
        !text_less(common + seq![x] + a, common),
        !text_less(common, common),
    decreases common.len(),
{
    let (left, right) = (common + seq![x] + a, common + seq![y] + b);
    if common.len() > 0 {
        texts_are_ordered_by_their_first_difference(common.skip(1), x, a, y, b);
        assert(left.skip(1) =~= common.skip(1) + seq![x] + a);
        assert(right.skip(1) =~= common.skip(1) + seq![y] + b);
    }
}

/// A text is split at each of its newlines.
pub proof fn lines_end_at_newlines(line: Seq<char>, rest: Seq<char>)
    requires
        !line.contains('\n'),
    ensures
        lines(line + seq!['\n'] + rest) == seq![line] + lines(rest),
        line.len() > 0 ==> lines(line) == seq![line],
        lines(Seq::empty()) == Seq::<Seq<char>>::empty(),
{
    texts_split_at_the_first(line, '\n', rest);
    if line.len() > 0 {
        assert(lines(line) =~= seq![line] + lines(Seq::empty()));
        assert(lines(Seq::<char>::empty()) =~= Seq::<Seq<char>>::empty());
    }
}

/// White space parts words and is in none of them; a text without any is one word.
pub proof fn white_space_parts_words(a: Seq<char>, c: char, b: Seq<char>)
    requires
        is_space(c),
    ensures
        words(a + seq![c] + b) == words(a) + words(b),
        words(Seq::empty()) == Seq::<Seq<char>>::empty(),
    decreases b.len(),
{
    let whole = a + seq![c] + b;
    if b.len() == 0 {
        assert(whole =~= a.push(c));
        assert(whole.drop_last() =~= a);
        assert(words(a) + words(b) =~= words(a));
    } else {
        let shorter = b.drop_last();
        white_space_parts_words(a, c, shorter);
        assert(whole.drop_last() =~= a + seq![c] + shorter);
        assert(whole.last() == b.last());
        if b.len() == 1 {
            assert(whole[whole.len() - 2] == c);
            assert(words(shorter) =~= Seq::<Seq<char>>::empty());
        } else {
            assert(whole[whole.len() - 2] == b[b.len() - 2]);
            if !is_space(b.last()) && !is_space(b[b.len() - 2]) {
                lemma_word_stands(shorter);
                assert((words(a) + words(shorter)).drop_last() =~= words(a) + words(
                    shorter,
                ).drop_last());
            }
        }
        assert(words(whole) =~= words(a) + words(b));
    }
}

/// A text that does not end in white space has a word.
proof fn lemma_word_stands(s: Seq<char>)
    requires
        s.len() > 0,
        !is_space(s.last()),
    ensures
        words(s).len() > 0,
{
}

/// A text without white space is one word.
pub proof fn texts_without_space_are_words(word: Seq<char>)
    requires
        word.len() > 0,
        forall|i: int| 0 <= i < word.len() ==> !is_space(#[trigger] word[i]),
    ensures
        words(word) == seq![word],
    decreases word.len(),
{
    let shorter = word.drop_last();
    if word.len() == 1 {
        assert(words(shorter) =~= Seq::<Seq<char>>::empty());
        assert(word =~= seq![word.last()]);
    } else {
        assert forall|i: int| 0 <= i < shorter.len() implies !is_space(#[trigger] shorter[i]) by {
            assert(!is_space(word[i]));
        }
        texts_without_space_are_words(shorter);
        assert(!is_space(word[word.len() - 2]));
        assert(!is_space(word[word.len() - 1]));
        assert(shorter.push(word.last()) =~= word);
        assert(words(word) =~= seq![word]);
    }
}

/// White space is taken from both ends of a text, and from nowhere else.
pub proof fn ends_are_trimmed(s: Seq<char>, c: char)
    ensures
        is_space(c) ==> after_space(seq![c] + s) == after_space(s),
        is_space(c) ==> before_space(s.push(c)) == before_space(s),
        s.len() == 0 || !is_space(s[0]) ==> after_space(s) == s,
        s.len() == 0 || !is_space(s.last()) ==> before_space(s) == s,
{
    assert((seq![c] + s).skip(1) =~= s);
    assert(s.push(c).drop_last() =~= s);
}

/// Of the ASCII characters, white space is the blank and those from the tab to the
/// carriage return.
pub proof fn ascii_white_space(c: char)
    requires
        (c as nat) < 128,
    ensures
        is_space(c) <==> c == ' ' || c == '\t' || c == '\n' || c == '\u{b}' || c == '\u{c}' || c
            == '\r',
{
}

/// White space is the characters that Unicode gives that property, and no others.
pub proof fn unicode_white_space(c: char)
    ensures
        is_space(c) <==> {
            let code = c as nat;
            ||| 0x09 <= code <= 0x0d
            ||| code == 0x20
            ||| code == 0x85
            ||| code == 0xa0
            ||| code == 0x1680
            ||| 0x2000 <= code <= 0x200a
            ||| code == 0x2028
            ||| code == 0x2029
            ||| code == 0x202f
            ||| code == 0x205f
            ||| code == 0x3000
        },
{
}

/// A text that holds no newline stands in a text exactly where it stands in one of
/// its lines.
pub proof fn texts_stand_in_lines(s: Seq<char>, pattern: Seq<char>)
    requires
        pattern.len() > 0,
        !pattern.contains('\n'),
    ensures
        contains_text(s, pattern) <==> exists|i: int|
            0 <= i < lines(s).len() && contains_text(#[trigger] lines(s)[i], pattern),
    decreases s.len(),
{
    if s.len() == 0 {
        assert(lines(s).len() == 0);
        if contains_text(s, pattern) {
            let at = choose|at: int| occurs_at(s, pattern, at);
            assert(false);
        }
    } else {
        let (head, rest) = (before_first(s, '\n'), after_first(s, '\n'));
        lemma_after_first_shorter(s, '\n');
        lemma_found_beside_newline(s, pattern);
        texts_stand_in_lines(rest, pattern);
        let (all, later) = (lines(s), lines(rest));
        assert(all == seq![head] + later);
        assert(all[0] == head);
        assert forall|i: int| 0 <= i < later.len() implies later[i] == #[trigger] all[i + 1] by {}
        if contains_text(rest, pattern) {
            let i = choose|i: int|
                0 <= i < later.len() && contains_text(#[trigger] later[i], pattern);
            assert(contains_text(all[i + 1], pattern));
        }
        if exists|i: int| 0 <= i < all.len() && contains_text(#[trigger] all[i], pattern) {
            let i = choose|i: int| 0 <= i < all.len() && contains_text(#[trigger] all[i], pattern);
            if i > 0 {
                assert(later[i - 1] == all[i - 1 + 1]);
                assert(contains_text(later[i - 1], pattern));
            }
        }
    }
}

/// A text that holds no newline stands before the first newline or behind it.
proof fn lemma_found_beside_newline(s: Seq<char>, pattern: Seq<char>)
    requires
        pattern.len() > 0,
        !pattern.contains('\n'),
    ensures
        contains_text(s, pattern) <==> contains_text(before_first(s, '\n'), pattern)
            || contains_text(after_first(s, '\n'), pattern),
{
    let n = first_index(s, '\n');
    let (head, rest) = (before_first(s, '\n'), after_first(s, '\n'));
    lemma_first_index_bounds(s, '\n');
    lemma_first_index_found(s, '\n');
    if contains_text(s, pattern) {
        let at = choose|at: int| occurs_at(s, pattern, at);
        let end = at + pattern.len();
        if end <= n {
            assert(head.subrange(at, end) =~= pattern);
            assert(occurs_at(head, pattern, at));
        } else if at > n {
            assert(rest.subrange(at - n - 1, end - n - 1) =~= s.subrange(at, end));
            assert(occurs_at(rest, pattern, at - n - 1));
        } else {
            assert(s.subrange(at, end)[n - at] == '\n');
            assert(pattern.contains(pattern[n - at]));
        }
    }
    if contains_text(head, pattern) {
        let at = choose|at: int| occurs_at(head, pattern, at);
        let end = at + pattern.len();
        assert(s.subrange(at, end) =~= head.subrange(at, end));
        assert(occurs_at(s, pattern, at));
    }
    if contains_text(rest, pattern) {
        let at = choose|at: int| occurs_at(rest, pattern, at);
        let end = at + pattern.len();
        assert(s.subrange(at + n + 1, end + n + 1) =~= rest.subrange(at, end));
        assert(occurs_at(s, pattern, at + n + 1));
    }
}

/// Where the first `c` stands in the text, `c` stands there.
proof fn lemma_first_index_found(s: Seq<char>, c: char)
    ensures
        first_index(s, c) < s.len() ==> s[first_index(s, c)] == c,
    decreases s.len(),
{
    if s.len() > 0 && s[0] != c {
        lemma_first_index_bounds(s.skip(1), c);
        lemma_first_index_found(s.skip(1), c);
    }
}

/// What stands behind the first newline of a text is its lines but the first.
pub proof fn later_lines_follow_the_first(s: Seq<char>)
    ensures
        lines(after_first(s, '\n')).len() + 1 == lines(s).len() || s.len() == 0,
        forall|i: int|
            0 <= i < lines(after_first(s, '\n')).len() ==> #[trigger] lines(
                after_first(s, '\n'),
            )[i] == lines(s)[i + 1],
{
    if s.len() == 0 {
        assert(after_first(s, '\n').len() == 0);
    }
}

} // verus!
