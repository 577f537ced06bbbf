//! Reading a permalink: which channel it names, which message, and under
//! which thread.
//!
//! The path of a permalink ends in the id of the channel and a token for the
//! message. The digits at the end of the token are the time at which the
//! message was posted, in microseconds: all but the last six count seconds.
//! The query may name the thread of the message as `thread_ts`, in seconds
//! with a decimal fraction.

use vstd::prelude::*;
use vstd::string::*;
use crate::error::{outcome, ResolveError};
use crate::text::{
    all_digits, char_is_digit, chars_of, count_trailing_digits, decimal_value, digit_run,
    digit_value, is_digit, lemma_all_digits_run, lemma_decimal_value_concat, lemma_trailing_digits,
    pow10, split, split_at_char, trailing_digits,
};

verus! {

/// How many digits of a timestamp count fractions of a second.
pub const FRACTION_DIGITS: usize = 6;

/// The name of the query parameter that holds the thread, with its `=`.
pub const THREAD_KEY: &'static str = "thread_ts=";

/// What `url::Url::parse` makes of a text: nothing where the text is no URL,
/// else what `Url::path_segments` (absent for a URL that cannot be a base)
/// and `Url::query` (absent for a URL without `?`) give for it.
pub uninterp spec fn url_parsed(text: Seq<char>) -> Option<
    (Option<Seq<Seq<char>>>, Option<Seq<char>>),
>;

/// Parses `text` with `url::Url::parse` and hands out the segments of its
/// path, as `Url::path_segments` yields them, and its query, as `Url::query`
/// gives it. The contract only names that result.
#[verifier::external_body]
fn parse_url(text: &str) -> (parts: Option<(Option<Vec<String>>, Option<String>)>)
    ensures
        parts.deep_view() == url_parsed(text@),
{
    match url::Url::parse(text) {
        Ok(url) => Some(
            (
                url.path_segments().map(|all| all.map(|one| one.to_string()).collect()),
                url.query().map(|query| query.to_string()),
            ),
        ),
        Err(_) => None,
    }
}

/// Where a permalink points.
#[derive(Debug)]
pub struct Location {
    /// The id of the channel.
    pub channel_id: String,
    /// The time of the message, in microseconds, as the permalink writes it:
    /// seven digits at least.
    pub ts: String,
    /// The time of the thread that holds the message, in seconds with an
    /// optional decimal fraction, where the permalink names one.
    pub thread_ts: Option<String>,
}

/// The mathematical value of a [`Location`].
pub struct LocationView {
    pub channel_id: Seq<char>,
    pub ts: Seq<char>,
    pub thread_ts: Option<Seq<char>>,
}

impl DeepView for Location {
    type V = LocationView;

    open spec fn deep_view(&self) -> LocationView {
        LocationView {
            channel_id: self.channel_id@,
            ts: self.ts@,
            thread_ts: self.thread_ts.deep_view(),
        }
    }
}

/// The segments of a path that count: those that are not empty, in their
/// order.
pub open spec fn meaningful(segments: Seq<Seq<char>>) -> Seq<Seq<char>>
    decreases segments.len(),
{
    if segments.len() == 0 {
        Seq::empty()
    } else if segments.last().len() > 0 {
        meaningful(segments.drop_last()).push(segments.last())
    } else {
        meaningful(segments.drop_last())
    }
}

/// Whether `value` writes a number of seconds: digits, or digits, a point
/// and digits.
pub open spec fn is_decimal(value: Seq<char>) -> bool {
    ||| value.len() > 0 && all_digits(value)
    ||| exists|point: int|
        0 < point < value.len() - 1 && #[trigger] value[point] == '.' && all_digits(
            value.take(point),
        ) && all_digits(value.skip(point + 1))
}

/// Whether a piece of a query sets the thread.
pub open spec fn sets_thread(pair: Seq<char>) -> bool {
    THREAD_KEY@.is_prefix_of(pair)
}

/// The thread that the pieces of a query name: what the first piece that
/// sets the thread holds, where that writes a number of seconds.
pub open spec fn thread_among(pairs: Seq<Seq<char>>) -> Option<Seq<char>>
    decreases pairs.len(),
{
    if pairs.len() == 0 {
        None
    } else if sets_thread(pairs[0]) {
        let value = pairs[0].skip(THREAD_KEY@.len() as int);
        if is_decimal(value) {
            Some(value)
        } else {
            None
        }
    } else {
        thread_among(pairs.skip(1))
    }
}

/// The thread that a query names, if it names one.
pub open spec fn thread_of(query: Option<Seq<char>>) -> Option<Seq<char>> {
    match query {
        Some(query) => thread_among(split(query, '&')),
        None => None,
    }
}

/// Where the permalink with the given path segments and query points: the
/// last segment that counts holds the time, the one before it names the
/// channel. There is no such place where fewer than two segments count, or
/// where fewer than seven digits stand at the end of the last one.
pub open spec fn located(segments: Option<Seq<Seq<char>>>, query: Option<Seq<char>>) -> Result<
    LocationView,
    ResolveError,
> {
    match segments {
        None => Err(ResolveError::MalformedLocation),
        Some(segments) => {
            let named = meaningful(segments);
            if named.len() < 2 {
                Err(ResolveError::MalformedLocation)
            } else if trailing_digits(named.last()) <= FRACTION_DIGITS {
                Err(ResolveError::MalformedLocation)
            } else {
                Ok(
                    LocationView {
                        channel_id: named[named.len() - 2],
                        ts: digit_run(named.last()),
                        thread_ts: thread_of(query),
                    },
                )
            }
        },
    }
}

impl LocationView {
    /// Whether the location holds what a permalink can hold: a time of seven
    /// digits at least, and, where it names a thread, a number of seconds.
    pub open spec fn well_formed(self) -> bool {
        &&& all_digits(self.ts)
        &&& self.ts.len() > FRACTION_DIGITS
        &&& self.thread_ts matches Some(thread) ==> is_decimal(thread)
    }
}

/// The thread that the pieces of a query name writes a number of seconds.
pub proof fn lemma_thread_is_decimal(pairs: Seq<Seq<char>>)
    ensures
        thread_among(pairs) matches Some(thread) ==> is_decimal(thread),
    decreases pairs.len(),
{
    if pairs.len() > 0 && !sets_thread(pairs[0]) {
        lemma_thread_is_decimal(pairs.skip(1));
    }
}

/// Every place that a permalink points to is well formed.
pub proof fn law_locations_are_well_formed(
    segments: Option<Seq<Seq<char>>>,
    query: Option<Seq<char>>,
)
    ensures
        located(segments, query) matches Ok(place) ==> place.well_formed(),
{
    if let Ok(place) = located(segments, query) {
        lemma_trailing_digits(meaningful(segments->0).last());
        if let Some(text) = query {
            lemma_thread_is_decimal(split(text, '&'));
        }
    }
}

/// Where the permalink `url` points.
pub open spec fn parsed(url: Seq<char>) -> Result<LocationView, ResolveError> {
    match url_parsed(url) {
        Some((segments, query)) => located(segments, query),
        None => Err(ResolveError::MalformedLocation),
    }
}

/// How many digits of a time written in microseconds count seconds: all but
/// the last six.
pub open spec fn seconds_digits(ts: Seq<char>) -> int {
    if ts.len() > FRACTION_DIGITS {
        ts.len() - FRACTION_DIGITS
    } else {
        0
    }
}

/// The seconds of a time written in microseconds: all but its last six
/// digits.
pub open spec fn seconds_part(ts: Seq<char>) -> Seq<char> {
    ts.take(seconds_digits(ts))
}

/// The fraction of a time written in microseconds: its last six digits.
pub open spec fn fraction_part(ts: Seq<char>) -> Seq<char> {
    ts.skip(seconds_digits(ts))
}

/// A time written in microseconds, rewritten in seconds: a point before the
/// last six digits.
pub open spec fn in_seconds(ts: Seq<char>) -> Seq<char> {
    seconds_part(ts) + "."@ + fraction_part(ts)
}

/// Tests whether every character from `from` on is a digit.
fn digits_from(chars: &Vec<char>, from: usize) -> (all: bool)
    requires
        from <= chars.len(),
    ensures
        all == all_digits(chars@.skip(from as int)),
{
    let mut index: usize = from;
    while index < chars.len()
        invariant
            from <= index <= chars.len(),
            forall|i: int| from <= i < index ==> is_digit(#[trigger] chars@[i]),
        decreases chars.len() - index,
    {
        if !char_is_digit(chars[index]) {
            assert(chars@.skip(from as int)[index - from] == chars@[index as int]);
            return false;
        }
        index = index + 1;
    }
    assert forall|i: int| 0 <= i < chars@.skip(from as int).len() implies is_digit(
        #[trigger] chars@.skip(from as int)[i],
    ) by {
        assert(chars@.skip(from as int)[i] == chars@[from + i]);
    }
    true
}

/// Tests whether `value` writes a number of seconds.
pub fn check_decimal(value: &str) -> (ok: bool)
    ensures
        ok == is_decimal(value@),
{
    let chars = chars_of(value);
    let mut point: usize = 0;
    while point < chars.len() && char_is_digit(chars[point])
        invariant
            point <= chars.len(),
            forall|i: int| 0 <= i < point ==> is_digit(#[trigger] chars@[i]),
        decreases chars.len() - point,
    {
        point = point + 1;
    }
    if point == chars.len() {
        assert(all_digits(chars@));
        assert(!exists|p: int|
            0 < p < chars@.len() - 1 && #[trigger] chars@[p] == '.' && all_digits(chars@.take(p))
                && all_digits(chars@.skip(p + 1)));
        return chars.len() > 0;
    }
    assert(!is_digit(chars@[point as int]));
    assert(!all_digits(chars@));
    assert forall|p: int|
        0 < p < chars@.len() - 1 && #[trigger] chars@[p] == '.' && all_digits(chars@.take(p))
            && all_digits(chars@.skip(p + 1)) implies p == point by {
        if p < point {
            assert(is_digit(chars@[p]));
        } else if p > point {
            assert(chars@.take(p)[point as int] == chars@[point as int]);
        }
    }
    if chars[point] != '.' || point == 0 || point + 1 >= chars.len() {
        return false;
    }
    let rest = digits_from(&chars, point + 1);
    if rest {
        assert forall|i: int| 0 <= i < chars@.take(point as int).len() implies is_digit(
            #[trigger] chars@.take(point as int)[i],
        ) by {
            assert(chars@.take(point as int)[i] == chars@[i]);
        }
        assert(chars@[point as int] == '.');
    }
    rest
}

/// Reads the thread out of one piece of a query, where the piece sets it.
fn read_thread(pair: &str) -> (out: Option<Option<String>>)
    ensures
        out is Some == sets_thread(pair@),
        out matches Some(thread) ==> thread.deep_view() == (if is_decimal(
            pair@.skip(THREAD_KEY@.len() as int),
        ) {
            Some(pair@.skip(THREAD_KEY@.len() as int))
        } else {
            None
        }),
{
    proof {
        reveal_strlit("thread_ts=");
    }
    let length = pair.unicode_len();
    if length < 10 {
        return None;
    }
    let key = String::from_str(pair.substring_char(0, 10));
    if key != String::from_str(THREAD_KEY) {
        assert(pair@.subrange(0, 10) != THREAD_KEY@);
        return None;
    }
    assert(pair@.subrange(0, 10) == THREAD_KEY@);
    let value = pair.substring_char(10, length);
    assert(value@ =~= pair@.skip(10));
    if check_decimal(value) {
        Some(Some(String::from_str(value)))
    } else {
        Some(None)
    }
}

/// Reads the thread that a query names.
pub fn parse_thread(query: &Option<String>) -> (thread: Option<String>)
    ensures
        thread.deep_view() == thread_of(query.deep_view()),
{
    match query {
        None => None,
        Some(text) => {
            let pairs = split_at_char(text.as_str(), '&');
            let mut index: usize = 0;
            assert(pairs.deep_view().skip(0) =~= pairs.deep_view());
            while index < pairs.len()
                invariant
                    index <= pairs.len(),
                    query.deep_view() == Some(text@),
                    pairs.deep_view() == split(text@, '&'),
                    thread_among(pairs.deep_view()) == thread_among(
                        pairs.deep_view().skip(index as int),
                    ),
                decreases pairs.len() - index,
            {
                let ghost rest = pairs.deep_view().skip(index as int);
                assert(rest[0] == pairs[index as int]@);
                assert(rest.skip(1) =~= pairs.deep_view().skip(index as int + 1));
                match read_thread(pairs[index].as_str()) {
                    Some(thread) => {
                        assert(sets_thread(rest[0]));
                        assert(thread_among(rest) == thread.deep_view());
                        return thread;
                    },
                    None => {},
                }
                index = index + 1;
            }
            None
        },
    }
}

/// Reads off the path segments and the query of a permalink where it points.
pub fn locate(segments: &Option<Vec<String>>, query: &Option<String>) -> (out: Result<
    Location,
    ResolveError,
>)
    ensures
        outcome(out) == located(segments.deep_view(), query.deep_view()),
{
    match segments {
        None => Err(ResolveError::MalformedLocation),
        Some(segments) => {
            let mut named: Vec<usize> = Vec::new();
            let mut index: usize = 0;
            while index < segments.len()
                invariant
                    index <= segments.len(),
                    named.len() == meaningful(segments.deep_view().take(index as int)).len(),
                    forall|k: int|
                        0 <= k < named.len() ==> 0 <= #[trigger] named[k] < index
                            && segments[named[k] as int]@ == meaningful(
                            segments.deep_view().take(index as int),
                        )[k],
                decreases segments.len() - index,
            {
                let ghost seen = segments.deep_view().take(index as int + 1);
                assert(seen.drop_last() =~= segments.deep_view().take(index as int));
                assert(seen.last() == segments[index as int]@);
                if !segments[index].as_str().is_empty() {
                    named.push(index);
                }
                index = index + 1;
            }
            assert(segments.deep_view().take(index as int) =~= segments.deep_view());
            if named.len() < 2 {
                return Err(ResolveError::MalformedLocation);
            }
            let channel = &segments[named[named.len() - 2]];
            let token = &segments[named[named.len() - 1]];
            let chars = chars_of(token.as_str());
            let count = count_trailing_digits(&chars);
            if count <= FRACTION_DIGITS {
                return Err(ResolveError::MalformedLocation);
            }
            proof {
                lemma_trailing_digits(token@);
            }
            let run = token.as_str().substring_char(chars.len() - count, chars.len());
            let ts = String::from_str(run);
            assert(ts@ =~= digit_run(token@));
            Ok(Location { channel_id: channel.clone(), ts, thread_ts: parse_thread(query) })
        },
    }
}

/// Reads where the permalink `url` points.
pub fn parse(url: &str) -> (out: Result<Location, ResolveError>)
    ensures
        outcome(out) == parsed(url@),
{
    match parse_url(url) {
        Some((segments, query)) => locate(&segments, &query),
        None => Err(ResolveError::MalformedLocation),
    }
}

/// Rewrites a time written in microseconds in seconds.
pub fn to_seconds(ts: &str) -> (out: String)
    ensures
        out@ == in_seconds(ts@),
{
    let length = ts.unicode_len();
    let cut = if length > FRACTION_DIGITS {
        length - FRACTION_DIGITS
    } else {
        0
    };
    let mut out = String::from_str(ts.substring_char(0, cut));
    out.append(".");
    out.append(ts.substring_char(cut, length));
    assert(ts@.subrange(0, cut as int) =~= seconds_part(ts@));
    assert(ts@.subrange(cut as int, length as int) =~= fraction_part(ts@));
    out
}

/// The number of a digit character.
fn digit_of(c: char) -> (d: i64)
    requires
        is_digit(c),
    ensures
        d == digit_value(c),
        0 <= d <= 9,
{
    if c == '0' {
        0
    } else if c == '1' {
        1
    } else if c == '2' {
        2
    } else if c == '3' {
        3
    } else if c == '4' {
        4
    } else if c == '5' {
        5
    } else if c == '6' {
        6
    } else if c == '7' {
        7
    } else if c == '8' {
        8
    } else {
        9
    }
}

/// The number that a longer numeral writes is no smaller than what any of
/// its beginnings writes.
proof fn lemma_decimal_value_grows(digits: Seq<char>, count: int)
    requires
        0 <= count <= digits.len(),
    ensures
        decimal_value(digits.take(count)) <= decimal_value(digits),
    decreases digits.len() - count,
{
    if count == digits.len() {
        assert(digits.take(count) =~= digits);
    } else {
        lemma_decimal_value_grows(digits, count + 1);
        assert(digits.take(count + 1).drop_last() =~= digits.take(count));
    }
}

/// Reads a time written in microseconds as a number. There is none where
/// the text holds anything but digits, or writes a number beyond the range
/// of `i64`.
pub fn to_micros(ts: &str) -> (out: Option<i64>)
    ensures
        out is Some <==> all_digits(ts@) && decimal_value(ts@) <= i64::MAX,
        out matches Some(micros) ==> micros == decimal_value(ts@),
{
    let chars = chars_of(ts);
    let mut value: i64 = 0;
    let mut index: usize = 0;
    assert(chars@.take(0) =~= Seq::<char>::empty());
    while index < chars.len()
        invariant
            chars@ == ts@,
            index <= chars.len(),
            0 <= value,
            value == decimal_value(chars@.take(index as int)),
            all_digits(chars@.take(index as int)),
        decreases chars.len() - index,
    {
        let c = chars[index];
        let ghost seen = chars@.take(index as int + 1);
        assert(seen.drop_last() =~= chars@.take(index as int));
        assert(seen.last() == c);
        if !char_is_digit(c) {
            assert(chars@[index as int] == c);
            return None;
        }
        let d = digit_of(c);
        if value > (i64::MAX - d) / 10 {
            proof {
                assert(decimal_value(seen) > i64::MAX);
                lemma_decimal_value_grows(chars@, index as int + 1);
            }
            return None;
        }
        value = value * 10 + d;
        index = index + 1;
        assert forall|i: int| 0 <= i < seen.len() implies is_digit(#[trigger] seen[i]) by {
            if i < seen.len() - 1 {
                assert(seen[i] == seen.drop_last()[i]);
            }
        }
    }
    assert(chars@.take(index as int) =~= chars@);
    Some(value)
}

/// A permalink whose last segment holds nothing but digits, seven at least,
/// points to the time that those digits write: to as many seconds as all but
/// the last six write, and as many further microseconds as the last six
/// write.
pub proof fn law_numeric_token_is_the_time(segments: Seq<Seq<char>>, query: Option<Seq<char>>)
    requires
        meaningful(segments).len() >= 2,
        all_digits(segments.last()),
        segments.len() > 0,
        segments.last().len() > FRACTION_DIGITS,
    ensures
        located(Some(segments), query) is Ok,
        located(Some(segments), query)->Ok_0.ts == segments.last(),
        seconds_part(segments.last()) == segments.last().take(
            segments.last().len() - FRACTION_DIGITS,
        ),
        fraction_part(segments.last()) == segments.last().skip(
            segments.last().len() - FRACTION_DIGITS,
        ),
        decimal_value(segments.last()) == decimal_value(seconds_part(segments.last())) * 1_000_000
            + decimal_value(fraction_part(segments.last())),
{
    let token = segments.last();
    lemma_all_digits_run(token);
    assert(meaningful(segments).last() == token);
    lemma_decimal_value_concat(seconds_part(token), fraction_part(token));
    assert(seconds_part(token) + fraction_part(token) =~= token);
    assert(pow10(6) == 1_000_000) by {
        reveal_with_fuel(pow10, 7);
    }
}

} // verus!
