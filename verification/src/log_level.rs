//! The verbosity of the guest's logger, read from a configuration string.
//!
//! The string has the form `name1=level1,name2=level2,bare_level`. The level
//! that is passed to the guest is the one given for the guest's logger; else
//! the one given for the host's logger; else the first segment that names no
//! logger. Whatever is picked is read as a level, and `Error` stands in where
//! it is none.

use std::str::FromStr;
use vstd::prelude::*;

verus! {

/// The name of the guest's logger.
pub const GUEST_LOGGER: &'static str = "hyperlight_guest";

/// The name of the host's logger.
pub const HOST_LOGGER: &'static str = "hyperlight_host";

/// The number of the level `Off`.
pub const LEVEL_OFF: u32 = 0;

/// The number of the level `Error`.
pub const LEVEL_ERROR: u32 = 1;

/// The number of the level `Warn`.
pub const LEVEL_WARN: u32 = 2;

/// The number of the level `Info`.
pub const LEVEL_INFO: u32 = 3;

/// The number of the level `Debug`.
pub const LEVEL_DEBUG: u32 = 4;

/// The number of the level `Trace`.
pub const LEVEL_TRACE: u32 = 5;

/// Whether `word` stands in `text` at the position `at`.
pub open spec fn occurs_at(text: Seq<char>, word: Seq<char>, at: int) -> bool {
    0 <= at && at + word.len() <= text.len() && text.subrange(at, at + word.len()) == word
}

/// Whether `word` stands somewhere in `text`.
pub open spec fn mentions(text: Seq<char>, word: Seq<char>) -> bool {
    exists|at: int| occurs_at(text, word, at)
}

/// Where the first `mark` stands in `text`; the length of `text` where it
/// holds none.
pub open spec fn first_mark(text: Seq<char>, mark: char) -> nat
    decreases text.len(),
{
    if text.len() == 0 || text[0] == mark {
        0
    } else {
        1 + first_mark(text.drop_first(), mark)
    }
}

/// The pieces of `text` between its `mark`s, in order. A text without a
/// `mark` is one piece, and so is the empty text.
pub open spec fn split(text: Seq<char>, mark: char) -> Seq<Seq<char>>
    decreases text.len(),
{
    let cut = first_mark(text, mark) as int;
    if cut >= text.len() {
        seq![text]
    } else {
        seq![text.take(cut)] + split(text.skip(cut + 1), mark)
    }
}

/// The first of the segments that mentions `word`.
pub open spec fn first_mentioning(segments: Seq<Seq<char>>, word: Seq<char>) -> Option<Seq<char>>
    decreases segments.len(),
{
    if segments.len() == 0 {
        None
    } else if mentions(segments[0], word) {
        Some(segments[0])
    } else {
        first_mentioning(segments.drop_first(), word)
    }
}

/// The first of the segments that holds no `=`.
pub open spec fn first_bare(segments: Seq<Seq<char>>) -> Option<Seq<char>>
    decreases segments.len(),
{
    if segments.len() == 0 {
        None
    } else if !segments[0].contains('=') {
        Some(segments[0])
    } else {
        first_bare(segments.drop_first())
    }
}

/// The level that a segment gives: what stands between its first `=` and its
/// second, or its end; nothing where it holds no `=`.
pub open spec fn value_of(segment: Seq<char>) -> Seq<char> {
    let pieces = split(segment, '=');
    if pieces.len() > 1 {
        pieces[1]
    } else {
        Seq::empty()
    }
}

/// The level that the first segment mentioning `word` gives; nothing where
/// none mentions it.
pub open spec fn level_for(val: Seq<char>, word: Seq<char>) -> Seq<char> {
    match first_mentioning(split(val, ','), word) {
        Some(segment) => value_of(segment),
        None => Seq::empty(),
    }
}

/// The part of the configuration string `val` that names the level for the
/// guest.
pub open spec fn level_token(val: Seq<char>) -> Seq<char> {
    if mentions(val, GUEST_LOGGER@) {
        level_for(val, GUEST_LOGGER@)
    } else if mentions(val, HOST_LOGGER@) {
        level_for(val, HOST_LOGGER@)
    } else {
        match first_bare(split(val, ',')) {
            Some(segment) => segment,
            None => Seq::empty(),
        }
    }
}

/// The code of a character with the upper-case ASCII letters folded onto the
/// lower-case ones.
pub open spec fn folded(c: char) -> u32 {
    if 65 <= c as u32 <= 90 {
        (c as u32 + 32) as u32
    } else {
        c as u32
    }
}

/// Whether two texts are the same but for the case of their ASCII letters.
pub open spec fn same_ignoring_ascii_case(a: Seq<char>, b: Seq<char>) -> bool {
    a.len() == b.len() && forall|i: int| 0 <= i < a.len() ==> folded(a[i]) == folded(b[i])
}

/// The number of the level that `token` names, in any mix of upper and lower
/// case; none where it names no level.
pub open spec fn level_of_name(token: Seq<char>) -> Option<u32> {
    if same_ignoring_ascii_case(token, "OFF"@) {
        Some(LEVEL_OFF)
    } else if same_ignoring_ascii_case(token, "ERROR"@) {
        Some(LEVEL_ERROR)
    } else if same_ignoring_ascii_case(token, "WARN"@) {
        Some(LEVEL_WARN)
    } else if same_ignoring_ascii_case(token, "INFO"@) {
        Some(LEVEL_INFO)
    } else if same_ignoring_ascii_case(token, "DEBUG"@) {
        Some(LEVEL_DEBUG)
    } else if same_ignoring_ascii_case(token, "TRACE"@) {
        Some(LEVEL_TRACE)
    } else {
        None
    }
}

/// The level for the guest that the configuration string `val` asks for.
pub open spec fn max_log_level(val: Seq<char>) -> u32 {
    match level_of_name(level_token(val)) {
        Some(level) => level,
        None => LEVEL_ERROR,
    }
}

/// `first_mark` is the one position before which no `mark` stands and at
/// which one stands, or the text ends.
proof fn lemma_first_mark(text: Seq<char>, mark: char, cut: int)
    requires
        0 <= cut <= text.len(),
        forall|j: int| 0 <= j < cut ==> text[j] != mark,
        cut < text.len() ==> text[cut] == mark,
    ensures
        first_mark(text, mark) == cut,
    decreases text.len(),
{
    if text.len() == 0 || text[0] == mark {
    } else {
        let rest = text.drop_first();
        assert forall|j: int| 0 <= j < cut - 1 implies rest[j] != mark by {
            assert(rest[j] == text[j + 1]);
        }
        lemma_first_mark(rest, mark, cut - 1);
    }
}

/// A text holds a `mark` exactly when its first `mark` stands before its end.
proof fn lemma_first_mark_contains(text: Seq<char>, mark: char)
    ensures
        first_mark(text, mark) <= text.len(),
        text.contains(mark) <==> first_mark(text, mark) < text.len(),
        first_mark(text, mark) < text.len() ==> text[first_mark(text, mark) as int] == mark,
    decreases text.len(),
{
    if text.len() == 0 || text[0] == mark {
    } else {
        let rest = text.drop_first();
        lemma_first_mark_contains(rest, mark);
        if text.contains(mark) {
            let i = choose|i: int| 0 <= i < text.len() && text[i] == mark;
            assert(rest[i - 1] == mark);
        }
        if rest.contains(mark) {
            let i = choose|i: int| 0 <= i < rest.len() && rest[i] == mark;
            assert(text[i + 1] == mark);
        }
    }
}

/// The segments of `text` from the position `from` on: the one that starts
/// there and ends at `cut`, then those past `cut`.
proof fn lemma_split_from(text: Seq<char>, mark: char, from: int, cut: int)
    requires
        0 <= from <= cut <= text.len(),
        forall|j: int| from <= j < cut ==> text[j] != mark,
        cut < text.len() ==> text[cut] == mark,
    ensures
        split(text.skip(from), mark)[0] == text.subrange(from, cut),
        cut == text.len() ==> split(text.skip(from), mark) == seq![text.subrange(from, cut)],
        cut < text.len() ==> split(text.skip(from), mark).drop_first() == split(
            text.skip(cut + 1),
            mark,
        ),
{
    let tail = text.skip(from);
    lemma_first_mark(tail, mark, cut - from);
    assert(tail.take(cut - from) =~= text.subrange(from, cut));
    if cut == text.len() {
        assert(tail =~= text.subrange(from, cut));
    } else {
        assert(tail.skip(cut - from + 1) =~= text.skip(cut + 1));
        let rest = split(text.skip(cut + 1), mark);
        assert((seq![tail.take(cut - from)] + rest).drop_first() =~= rest);
    }
}

/// The characters of `text`, one by one.
fn chars_of(text: &str) -> (chars: Vec<char>)
    ensures
        chars@ == text@,
{
    let mut chars: Vec<char> = Vec::new();
    for c in it: text.chars()
        invariant
            it.seq() == text@,
            chars@ == it.seq().take(it.index() as int),
    {
        chars.push(c);
    }
    chars
}

/// Whether `word` stands in `text` at `at`.
fn stands_at(text: &Vec<char>, at: usize, word: &Vec<char>) -> (same: bool)
    requires
        at + word.len() <= text.len(),
    ensures
        same == occurs_at(text@, word@, at as int),
{
    let mut k: usize = 0;
    while k < word.len()
        invariant
            k <= word.len(),
            at + word.len() <= text.len(),
            forall|j: int| 0 <= j < k ==> text@[at + j] == word@[j],
        decreases word.len() - k,
    {
        if text[at + k] != word[k] {
            assert(text@.subrange(at as int, at + word.len())[k as int] != word@[k as int]);
            return false;
        }
        k += 1;
    }
    assert(text@.subrange(at as int, at + word.len()) =~= word@);
    true
}

/// Whether `word` stands somewhere in `text` between `from` and `to`.
fn mentioned_within(text: &Vec<char>, from: usize, to: usize, word: &Vec<char>) -> (found: bool)
    requires
        from <= to <= text.len(),
    ensures
        found == mentions(text@.subrange(from as int, to as int), word@),
{
    let ghost window = text@.subrange(from as int, to as int);
    if word.len() > to - from {
        return false;
    }
    let last = to - word.len();
    let mut at = from;
    loop
        invariant
            from <= at <= last,
            last + word.len() == to,
            to <= text.len(),
            window == text@.subrange(from as int, to as int),
            forall|k: int| 0 <= k < at - from ==> !occurs_at(window, word@, k),
        decreases last - at,
    {
        assert(window.subrange(at - from, at - from + word.len()) =~= text@.subrange(
            at as int,
            at + word.len(),
        ));
        if stands_at(text, at, word) {
            assert(occurs_at(window, word@, at - from));
            return true;
        }
        if at == last {
            return false;
        }
        at += 1;
    }
}

/// The position of the first `mark` in `text` between `from` and `to`, or
/// `to` where none stands there.
fn find_mark(text: &Vec<char>, from: usize, to: usize, mark: char) -> (cut: usize)
    requires
        from <= to <= text.len(),
    ensures
        from <= cut <= to,
        forall|j: int| from <= j < cut ==> text@[j] != mark,
        cut < to ==> text@[cut as int] == mark,
{
    let mut cut = from;
    while cut < to
        invariant
            from <= cut <= to,
            to <= text.len(),
            forall|j: int| from <= j < cut ==> text@[j] != mark,
        decreases to - cut,
    {
        if text[cut] == mark {
            return cut;
        }
        cut += 1;
    }
    cut
}

/// The bounds of the first segment of `text` that mentions `word`.
fn find_mentioning(text: &Vec<char>, word: &Vec<char>) -> (found: Option<(usize, usize)>)
    ensures
        match found {
            Some((from, to)) => from <= to <= text.len() && first_mentioning(
                split(text@, ','),
                word@,
            ) == Some(text@.subrange(from as int, to as int)),
            None => first_mentioning(split(text@, ','), word@) is None,
        },
{
    let len = text.len();
    let mut from: usize = 0;
    assert(text@.skip(0) =~= text@);
    loop
        invariant
            from <= len,
            len == text.len(),
            first_mentioning(split(text@, ','), word@) == first_mentioning(
                split(text@.skip(from as int), ','),
                word@,
            ),
        decreases len - from,
    {
        let cut = find_mark(text, from, len, ',');
        proof {
            lemma_split_from(text@, ',', from as int, cut as int);
        }
        if mentioned_within(text, from, cut, word) {
            return Some((from, cut));
        }
        if cut == len {
            assert(first_mentioning(split(text@.skip(from as int), ',').drop_first(), word@)
                is None);
            return None;
        }
        from = cut + 1;
    }
}

/// The bounds of the first segment of `text` that holds no `=`.
fn find_bare(text: &Vec<char>) -> (found: Option<(usize, usize)>)
    ensures
        match found {
            Some((from, to)) => from <= to <= text.len() && first_bare(split(text@, ',')) == Some(
                text@.subrange(from as int, to as int),
            ),
            None => first_bare(split(text@, ',')) is None,
        },
{
    let len = text.len();
    let mut from: usize = 0;
    assert(text@.skip(0) =~= text@);
    loop
        invariant
            from <= len,
            len == text.len(),
            first_bare(split(text@, ',')) == first_bare(split(text@.skip(from as int), ',')),
        decreases len - from,
    {
        let cut = find_mark(text, from, len, ',');
        let sign = find_mark(text, from, cut, '=');
        proof {
            lemma_split_from(text@, ',', from as int, cut as int);
            let segment = text@.subrange(from as int, cut as int);
            lemma_first_mark_contains(segment, '=');
            assert forall|j: int| 0 <= j < sign - from implies segment[j] != '=' by {
                assert(segment[j] == text@[from + j]);
            }
            lemma_first_mark(segment, '=', sign - from);
        }
        if sign == cut {
            return Some((from, cut));
        }
        if cut == len {
            assert(first_bare(split(text@.skip(from as int), ',').drop_first()) is None);
            return None;
        }
        from = cut + 1;
    }
}

/// The bounds of the level that the segment of `text` between `from` and `to`
/// gives.
fn find_value(text: &Vec<char>, from: usize, to: usize) -> (bounds: (usize, usize))
    requires
        from <= to <= text.len(),
    ensures
        bounds.0 <= bounds.1 <= text.len(),
        text@.subrange(bounds.0 as int, bounds.1 as int) == value_of(
            text@.subrange(from as int, to as int),
        ),
{
    let ghost segment = text@.subrange(from as int, to as int);
    let sign = find_mark(text, from, to, '=');
    proof {
        assert forall|j: int| 0 <= j < sign - from implies segment[j] != '=' by {
            assert(segment[j] == text@[from + j]);
        }
        lemma_first_mark(segment, '=', sign - from);
    }
    if sign == to {
        assert(text@.subrange(from as int, from as int) =~= Seq::<char>::empty());
        return (from, from);
    }
    let start = sign + 1;
    let end = find_mark(text, start, to, '=');
    proof {
        let rest = segment.skip(sign - from + 1);
        assert(rest =~= text@.subrange(start as int, to as int));
        assert forall|j: int| start - from <= j < end - from implies segment[j] != '=' by {
            assert(segment[j] == text@[from + j]);
        }
        assert(end < to ==> segment[end - from] == '=');
        lemma_split_from(segment, '=', start - from, end - from);
        assert(segment.subrange(start - from, end - from) =~= text@.subrange(
            start as int,
            end as int,
        ));
        assert(split(segment, '=') == seq![segment.take(sign - from)] + split(rest, '='));
        assert(split(segment, '=')[1] == split(rest, '=')[0]);
    }
    (start, end)
}

/// The bounds of the level that the first segment of `text` mentioning
/// `word` gives.
fn find_level_for(text: &Vec<char>, word: &Vec<char>) -> (bounds: (usize, usize))
    ensures
        bounds.0 <= bounds.1 <= text.len(),
        text@.subrange(bounds.0 as int, bounds.1 as int) == level_for(text@, word@),
{
    match find_mentioning(text, word) {
        Some((from, to)) => find_value(text, from, to),
        None => {
            assert(text@.subrange(0, 0) =~= Seq::<char>::empty());
            (0, 0)
        },
    }
}

/// Picks from the configuration string `val` the part that names the level
/// for the guest: the level given for the guest's logger, else the level
/// given for the host's logger, else the first segment without `=`. The
/// result is empty where the string offers none of these.
pub fn guest_log_level_token<'a>(val: &'a str) -> (token: &'a str)
    ensures
        token@ == level_token(val@),
{
    let text = chars_of(val);
    let guest = chars_of(GUEST_LOGGER);
    let host = chars_of(HOST_LOGGER);
    assert(text@.subrange(0, text@.len() as int) =~= text@);
    let bounds = if mentioned_within(&text, 0, text.len(), &guest) {
        find_level_for(&text, &guest)
    } else if mentioned_within(&text, 0, text.len(), &host) {
        find_level_for(&text, &host)
    } else {
        match find_bare(&text) {
            Some(bounds) => bounds,
            None => {
                assert(text@.subrange(0, 0) =~= Seq::<char>::empty());
                (0, 0)
            },
        }
    };
    val.substring_char(bounds.0, bounds.1)
}

/// Calls `log::LevelFilter::from_str`, which compares `token` with the names
/// `OFF`, `ERROR`, `WARN`, `INFO`, `DEBUG` and `TRACE` without regard to the
/// case of ASCII letters, and gives the level of the first name that
/// matches. The level is handed back as its number, 0 for `OFF` to 5 for
/// `TRACE`; a token that matches no name gives none.
#[verifier::external_body]
fn parse_level_filter(token: &str) -> (level: Option<u32>)
    ensures
        level == level_of_name(token@),
{
    match log::LevelFilter::from_str(token) {
        Ok(filter) => Some(filter as u32),
        Err(_) => None,
    }
}

/// The level, as a number from 0 (`Off`) to 5 (`Trace`), at which the guest
/// is to log, for the configuration string `val`. Where the part of `val`
/// that is picked names no level, the level is `Error`.
pub fn get_max_log_level(val: &str) -> (level: u32)
    ensures
        level == max_log_level(val@),
{
    let token = guest_log_level_token(val);
    match parse_level_filter(token) {
        Some(level) => level,
        None => LEVEL_ERROR,
    }
}

/// Where every segment holds a `=`, none is bare.
proof fn lemma_no_bare_segment(segments: Seq<Seq<char>>)
    requires
        forall|i: int| 0 <= i < segments.len() ==> (#[trigger] segments[i]).contains('='),
    ensures
        first_bare(segments) is None,
    decreases segments.len(),
{
    if segments.len() > 0 {
        let rest = segments.drop_first();
        assert forall|i: int| 0 <= i < rest.len() implies (#[trigger] rest[i]).contains('=') by {
            assert(rest[i] == segments[i + 1]);
        }
        lemma_no_bare_segment(rest);
    }
}

/// The empty text names no level.
pub proof fn lemma_empty_names_no_level()
    ensures
        level_of_name(Seq::empty()) is None,
{
    reveal_strlit("OFF");
    reveal_strlit("ERROR");
    reveal_strlit("WARN");
    reveal_strlit("INFO");
    reveal_strlit("DEBUG");
    reveal_strlit("TRACE");
}

/// A configuration string that mentions neither logger and has no segment
/// without `=` asks for the level `Error`.
pub proof fn law_default_level_is_error(val: Seq<char>)
    requires
        !mentions(val, GUEST_LOGGER@),
        !mentions(val, HOST_LOGGER@),
        forall|i: int|
            0 <= i < split(val, ',').len() ==> (#[trigger] split(val, ',')[i]).contains('='),
    ensures
        level_token(val) == Seq::<char>::empty(),
        max_log_level(val) == LEVEL_ERROR,
{
    lemma_no_bare_segment(split(val, ','));
    lemma_empty_names_no_level();
}

/// The level that is asked for is one of the six levels.
pub proof fn law_level_in_range(val: Seq<char>)
    ensures
        LEVEL_OFF <= max_log_level(val) <= LEVEL_TRACE,
{
}

} // verus!
