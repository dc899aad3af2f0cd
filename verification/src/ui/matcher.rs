//! The fuzzy matcher behind the quick-add search, and the texts it can be given.
//!
//! The matcher counts scores in 16 bits and has an assertion that some texts violate. The spec
//! functions here follow it only as far as it takes to leave out the texts on which a score
//! would not fit or the assertion would fail; what it answers is left to it.
use vstd::prelude::*;

use crate::text;

verus! {

// --- what the matcher answers ---

/// What `nucleo::Matcher::fuzzy_match` answers with the default configuration: the score of
/// the best match of `needle` in `haystack`, or nothing where it does not match.
pub uninterp spec fn fuzzy_score(haystack: Seq<char>, needle: Seq<char>) -> Option<u16>;

/// Whether `nucleo::Utf32Str::new` keeps a text as bytes, as it does for ASCII text and for
/// text whose grapheme clusters all begin with an ASCII character.
pub uninterp spec fn kept_as_bytes(s: Seq<char>) -> bool;

/// The characters that `nucleo::Utf32Str::new` makes of a text: one for every byte, or the
/// first one of every grapheme cluster.
pub uninterp spec fn units_of(s: Seq<char>) -> Seq<char>;

/// What `nucleo::chars::normalize` makes of a character.
pub uninterp spec fn plain_char(c: char) -> char;

/// What `nucleo::chars::to_lower_case` makes of a character.
pub uninterp spec fn folded_char(c: char) -> char;

/// What `nucleo::chars::is_upper_case` says of a character.
pub uninterp spec fn uppercase_char(c: char) -> bool;

/// What `char::is_lowercase` says of a character.
pub uninterp spec fn lowercase_char(c: char) -> bool;

/// What `char::is_numeric` says of a character.
pub uninterp spec fn numeric_char(c: char) -> bool;

/// What `char::is_alphabetic` says of a character.
pub uninterp spec fn alphabetic_char(c: char) -> bool;

/// `char::is_lowercase` depends on the character alone; of ASCII, the letters `a` to `z` are in
/// lower case.
pub assume_specification[ char::is_lowercase ](c: char) -> (r: bool)
    ensures
        r == lowercase_char(c),
        c <= '\u{7f}' ==> r == ('a' <= c <= 'z'),
;

/// `char::is_numeric` depends on the character alone; of ASCII, the digits are numeric.
pub assume_specification[ char::is_numeric ](c: char) -> (r: bool)
    ensures
        r == numeric_char(c),
        c <= '\u{7f}' ==> r == ('0' <= c <= '9'),
;

/// `char::is_alphabetic` depends on the character alone; of ASCII, the letters are alphabetic.
pub assume_specification[ char::is_alphabetic ](c: char) -> (r: bool)
    ensures
        r == alphabetic_char(c),
        c <= '\u{7f}' ==> r == ('a' <= c <= 'z' || 'A' <= c <= 'Z'),
;

/// Calls `nucleo::chars::normalize`.
#[verifier::external_body]
fn plain(c: char) -> (r: char)
    ensures
        r == plain_char(c),
{
    nucleo::chars::normalize(c)
}

/// Calls `nucleo::chars::to_lower_case`.
#[verifier::external_body]
fn fold(c: char) -> (r: char)
    ensures
        r == folded_char(c),
{
    nucleo::chars::to_lower_case(c)
}

/// Calls `nucleo::chars::is_upper_case`.
#[verifier::external_body]
fn is_uppercase(c: char) -> (r: bool)
    ensures
        r == uppercase_char(c),
{
    nucleo::chars::is_upper_case(c)
}

/// Calls `nucleo::Utf32Str::new` and asks whether the text was kept as bytes. ASCII text always
/// is.
#[verifier::external_body]
fn is_kept_as_bytes(s: &str) -> (r: bool)
    ensures
        r == kept_as_bytes(s@),
        text::all_ascii(s@) ==> r,
{
    let mut buffer = Vec::new();
    nucleo::Utf32Str::new(s, &mut buffer).is_ascii()
}

/// Calls `nucleo::Utf32Str::new` and lists the characters it made of the text. For ASCII text
/// these are the characters themselves.
#[verifier::external_body]
fn units(s: &str) -> (r: Vec<char>)
    ensures
        r@ == units_of(s@),
        text::all_ascii(s@) ==> r@ == s@,
{
    let mut buffer = Vec::new();
    nucleo::Utf32Str::new(s, &mut buffer).chars().collect()
}

/// Calls `nucleo::Matcher::fuzzy_match` on a new matcher with `nucleo::Config::DEFAULT`. The
/// answer depends on the two texts alone. On the texts that [`accepted`] leaves out the call
/// stops the program, where arithmetic is checked: an assertion fails, or a score or the size
/// of a table leaves the range of the numbers.
#[verifier::external_body]
pub(crate) fn fuzzy_match(haystack: &str, needle: &str) -> (r: Option<u16>)
    requires
        accepted(haystack@, needle@),
    ensures
        r == fuzzy_score(haystack@, needle@),
{
    let mut matcher = nucleo::Matcher::new(nucleo::Config::DEFAULT);
    let (mut h, mut n) = (Vec::new(), Vec::new());
    matcher.fuzzy_match(nucleo::Utf32Str::new(haystack, &mut h), nucleo::Utf32Str::new(needle, &mut n))
}

// --- units ---

/// The units that the matcher compares, and whether they are bytes.
#[derive(Debug)]
pub struct Units {
    pub bytes: bool,
    pub list: Vec<char>,
}

/// Units as contracts speak of them.
#[verifier::ext_equal]
pub struct UnitData {
    pub bytes: bool,
    pub list: Seq<char>,
}

impl View for Units {
    type V = UnitData;

    open spec fn view(&self) -> UnitData {
        UnitData { bytes: self.bytes, list: self.list@ }
    }
}

pub open spec fn unit_data(s: Seq<char>) -> UnitData {
    UnitData { bytes: kept_as_bytes(s), list: units_of(s) }
}

fn units_from(s: &str) -> (r: Units)
    ensures
        r@ == unit_data(s@),
{
    Units { bytes: is_kept_as_bytes(s), list: units(s) }
}

/// What a unit is, where a bonus depends on it.
#[derive(Clone, Copy, Debug, PartialEq, Eq, Structural)]
pub enum Class {
    White,
    NonWord,
    Delimiter,
    Lower,
    Upper,
    Letter,
    Number,
}

pub open spec fn ascii_class(c: char) -> Class {
    if 'a' <= c <= 'z' {
        Class::Lower
    } else if 'A' <= c <= 'Z' {
        Class::Upper
    } else if '0' <= c <= '9' {
        Class::Number
    } else if c == ' ' || c == '\t' || c == '\n' || c == '\u{c}' || c == '\r' {
        Class::White
    } else if c == '/' || c == ',' || c == ':' || c == ';' || c == '|' {
        Class::Delimiter
    } else {
        Class::NonWord
    }
}

pub open spec fn class_of(bytes: bool, c: char) -> Class {
    if bytes || c <= '\u{7f}' {
        ascii_class(c)
    } else if lowercase_char(c) {
        Class::Lower
    } else if uppercase_char(c) {
        Class::Upper
    } else if numeric_char(c) {
        Class::Number
    } else if alphabetic_char(c) {
        Class::Letter
    } else if text::is_white(c) {
        Class::White
    } else {
        Class::NonWord
    }
}

/// The form in which a unit is compared: without accents and in lower case.
pub open spec fn compared(bytes: bool, c: char) -> char {
    if bytes || c <= '\u{7f}' {
        text::ascii_lower_char(c)
    } else {
        folded_char(plain_char(c))
    }
}

/// Whether the first search takes the unit `c` of the haystack for the unit `wanted` of the
/// needle. On bytes it looks for the byte itself and, for a small letter, for its capital.
pub open spec fn meets(bytes: bool, c: char, wanted: char) -> bool {
    if bytes {
        c == wanted || ('a' <= wanted <= 'z' && c as int == wanted as int - 32)
    } else {
        compared(false, c) == wanted
    }
}

fn class(bytes: bool, c: char) -> (r: Class)
    ensures
        r == class_of(bytes, c),
{
    if bytes || c <= '\u{7f}' {
        if 'a' <= c && c <= 'z' {
            Class::Lower
        } else if 'A' <= c && c <= 'Z' {
            Class::Upper
        } else if '0' <= c && c <= '9' {
            Class::Number
        } else if c == ' ' || c == '\t' || c == '\n' || c == '\u{c}' || c == '\r' {
            Class::White
        } else if c == '/' || c == ',' || c == ':' || c == ';' || c == '|' {
            Class::Delimiter
        } else {
            Class::NonWord
        }
    } else if c.is_lowercase() {
        Class::Lower
    } else if is_uppercase(c) {
        Class::Upper
    } else if c.is_numeric() {
        Class::Number
    } else if c.is_alphabetic() {
        Class::Letter
    } else if c.is_whitespace() {
        Class::White
    } else {
        Class::NonWord
    }
}

fn compare_as(bytes: bool, c: char) -> (r: char)
    ensures
        r == compared(bytes, c),
{
    if bytes || c <= '\u{7f}' {
        if 'A' <= c && c <= 'Z' {
            (c as u8 + 32u8) as char
        } else {
            c
        }
    } else {
        fold(plain(c))
    }
}

fn is_met(bytes: bool, c: char, wanted: char) -> (r: bool)
    ensures
        r == meets(bytes, c, wanted),
{
    if bytes {
        c == wanted || ('a' <= wanted && wanted <= 'z' && c == (wanted as u8 - 32u8) as char)
    } else {
        compare_as(false, c) == wanted
    }
}

// --- where a match is looked for ---

/// The first place from `from` on, before `end`, that meets `wanted`.
pub open spec fn next_meeting(h: UnitData, from: int, end: int, wanted: char) -> Option<int>
    decreases end - from,
{
    if from >= end {
        None
    } else if meets(h.bytes, h.list[from], wanted) {
        Some(from)
    } else {
        next_meeting(h, from + 1, end, wanted)
    }
}

/// Behind the last place from `from` on, before `end`, that meets `wanted`; `from` where there
/// is none.
pub open spec fn after_last_meeting(h: UnitData, from: int, end: int, wanted: char) -> int
    decreases end - from,
{
    if end <= from {
        from
    } else if meets(h.bytes, h.list[end - 1], wanted) {
        end
    } else {
        after_last_meeting(h, from, end - 1, wanted)
    }
}

/// Where the needle's units from `k` on end when each is taken at its first place from `from`
/// on.
pub open spec fn greedy_end(h: UnitData, from: int, n: Seq<char>, k: int) -> Option<int>
    decreases n.len() - k,
{
    if k >= n.len() {
        Some(from)
    } else {
        match next_meeting(h, from, h.list.len() as int, n[k]) {
            Some(i) => greedy_end(h, i + 1, n, k + 1),
            None => None,
        }
    }
}

/// Where a needle that ends before `i` begins when its units up to `k` are taken backwards, each
/// at its last place; `start` where they are not all there.
pub open spec fn latest_start(h: UnitData, n: Seq<char>, start: int, i: int, k: int) -> int
    decreases i - start,
{
    if i <= start {
        start
    } else if compared(h.bytes, h.list[i - 1]) != n[k] {
        latest_start(h, n, start, i - 1, k)
    } else if k == 0 {
        i - 1
    } else {
        latest_start(h, n, start, i - 1, k - 1)
    }
}

/// Whether the needle stands in the haystack from `start` on, without regard to accents and
/// case.
pub open spec fn stands_at(h: UnitData, n: UnitData, start: int) -> bool {
    forall|i: int|
        0 <= i < n.list.len() ==> compared(h.bytes, h.list[start + i]) == compared(
            n.bytes,
            #[trigger] n.list[i],
        )
}

/// How the matcher goes about two texts.
pub enum Course {
    /// No score is added up: there is no match, or at most one unit to match.
    Settled,
    /// A match of neighbouring units is scored.
    Scored { start: int, end: int },
    /// The best match between two places is searched for.
    Searched { start: int, end: int },
}

/// The part of the haystack in which a needle that is shorter than it is looked for.
pub open spec fn search_part(h: UnitData, n: UnitData) -> Option<(int, int)> {
    match next_meeting(h, 0, h.list.len() - n.list.len() + 1, n.list[0]) {
        None => None,
        Some(start) => if h.bytes {
            match greedy_end(h, start + 1, n.list, 1) {
                Some(g) => Some(
                    (start, after_last_meeting(h, g, h.list.len() as int, n.list.last())),
                ),
                None => None,
            }
        } else {
            let end = after_last_meeting(h, start + 1, h.list.len() as int, n.list.last());
            if end - start < n.list.len() {
                None
            } else {
                Some((start, end))
            }
        },
    }
}

pub open spec fn course(h: UnitData, n: UnitData) -> Course {
    let (long, short) = (h.list.len() as int, n.list.len() as int);
    if short > long || (h.bytes && !n.bytes) {
        Course::Settled
    } else if short == long {
        if short > 0 && stands_at(h, n, 0) {
            Course::Scored { start: 0, end: long }
        } else {
            Course::Settled
        }
    } else if short <= 1 {
        Course::Settled
    } else {
        match search_part(h, n) {
            None => Course::Settled,
            Some((start, end)) => if end - start != short {
                Course::Searched { start, end }
            } else if h.bytes || stands_at(h, n, start) {
                Course::Scored { start, end }
            } else {
                Course::Settled
            },
        }
    }
}

/// The match that is scored where the tables have no room for a search.
pub open spec fn greedy_part(h: UnitData, n: Seq<char>, start: int) -> Option<(int, int)> {
    match greedy_end(h, start + 1, n, 1) {
        Some(end) => Some((latest_start(h, n, start, end, n.len() - 1), end)),
        None => None,
    }
}

// --- scores ---

/// The bonus of a unit of class `at` that follows one of class `before`.
pub open spec fn bonus(before: Class, at: Class) -> int {
    match at {
        Class::White => 10,
        Class::NonWord => 8,
        Class::Delimiter => 0,
        _ => match before {
            Class::White => 10,
            Class::Delimiter => 9,
            Class::NonWord => 8,
            Class::Lower => if at == Class::Upper || at == Class::Number {
                5
            } else {
                0
            },
            Class::Number => 0,
            _ => if at == Class::Number {
                5
            } else {
                0
            },
        },
    }
}

/// The bonus of the unit at `i`. What stands before the first one counts as white space.
pub open spec fn bonus_at(h: UnitData, i: int) -> int {
    bonus(
        if i == 0 {
            Class::White
        } else {
            class_of(h.bytes, h.list[i - 1])
        },
        class_of(h.bytes, h.list[i]),
    )
}

/// A score that is being added up.
pub struct Tally {
    pub score: int,
    /// How many units of the needle are matched.
    pub matched: int,
    /// The bonus of the run of neighbouring units.
    pub run_bonus: int,
    pub in_run: bool,
    pub in_gap: bool,
}

/// The score once the unit at `i` is looked at.
pub open spec fn tallied(t: Tally, h: UnitData, n: Seq<char>, i: int) -> Tally {
    let wanted = n[if t.matched < n.len() { t.matched } else { n.len() - 1 }];
    let own = bonus_at(h, i);
    if compared(h.bytes, h.list[i]) != wanted {
        let penalty = if t.in_gap { 1int } else { 3int };
        Tally {
            score: if t.score > penalty { t.score - penalty } else { 0 },
            in_run: false,
            in_gap: true,
            ..t
        }
    } else {
        let run_bonus = if !t.in_run || (own >= 8 && own > t.run_bonus) {
            own
        } else {
            t.run_bonus
        };
        let given = if !t.in_run {
            own
        } else if own < 4 && run_bonus < 4 {
            4
        } else if own > run_bonus {
            own
        } else {
            run_bonus
        };
        Tally {
            score: t.score + 16 + given,
            matched: t.matched + 1,
            run_bonus,
            in_run: true,
            in_gap: false,
        }
    }
}

/// The score of the first unit of a match.
pub open spec fn opening(h: UnitData, start: int) -> Tally {
    Tally {
        score: 16 + 2 * bonus_at(h, start),
        matched: 1,
        run_bonus: bonus_at(h, start),
        in_run: true,
        in_gap: false,
    }
}

/// Whether the score stays in 16 bits from the unit at `i` on.
pub open spec fn stays_small(t: Tally, h: UnitData, n: Seq<char>, i: int, end: int) -> bool
    decreases end - i,
{
    i >= end || {
        let next = tallied(t, h, n, i);
        next.score <= u16::MAX && stays_small(next, h, n, i + 1, end)
    }
}

/// Whether the score of the match from `start` to `end` stays in 16 bits.
pub open spec fn score_fits(h: UnitData, n: Seq<char>, start: int, end: int) -> bool {
    stays_small(opening(h, start), h, n, start + 1, end)
}

// --- what can be matched ---

/// Whether the tables of a search have room for a needle of `n` bytes in `w` bytes of haystack.
pub open spec fn fits_tables(w: int, n: int) -> bool {
    &&& w * n <= 102400
    &&& w <= 65535
    &&& n <= 2048
    &&& (2 * w + 2 * n + 7) / 8 * 8 + (w + 1 - n) * (8 + n) <= 133120
}

pub open spec fn has_capital(n: Seq<char>) -> bool {
    exists|i: int| 0 <= i < n.len() && 'A' <= #[trigger] n[i] <= 'Z'
}

/// A needle of no more units than this keeps every score in 16 bits: no unit gets more than 26
/// points, but for 10 more that the first one may get.
pub const SHORT_NEEDLE: usize = 2520;

/// Whether the matcher can go its course: scores stay in 16 bits, the size of a table stays in
/// the range of the numbers, and no search in tables of bytes is for a capital letter, which the
/// first search finds and the second does not.
pub open spec fn can_go(h: UnitData, n: UnitData) -> bool {
    let short = n.list.len() <= SHORT_NEEDLE;
    match course(h, n) {
        Course::Settled => true,
        Course::Scored { start, end } => short || score_fits(h, n.list, start, end),
        Course::Searched { start, end } => {
            &&& (end - start) * n.list.len() <= usize::MAX
            &&& !(h.bytes && has_capital(n.list) && fits_tables(end - start, n.list.len() as int))
            &&& short || match greedy_part(h, n.list, start) {
                Some((first, behind)) => score_fits(h, n.list, first, behind),
                None => true,
            }
        },
    }
}

/// The texts that can be matched: the haystack is not too long, and the matcher can go its
/// course.
pub open spec fn accepted(haystack: Seq<char>, needle: Seq<char>) -> bool {
    units_of(haystack).len() <= u32::MAX && can_go(unit_data(haystack), unit_data(needle))
}

fn find_next(h: &Units, from: usize, end: usize, wanted: char) -> (r: Option<usize>)
    requires
        end <= h@.list.len(),
    ensures
        match (r, next_meeting(h@, from as int, end as int, wanted)) {
            (Some(a), Some(b)) => a == b && from <= a < end,
            (None, None) => true,
            _ => false,
        },
{
    let mut i: usize = from;
    while i < end
        invariant
            from <= i,
            end <= h@.list.len(),
            next_meeting(h@, from as int, end as int, wanted) == next_meeting(
                h@,
                i as int,
                end as int,
                wanted,
            ),
        decreases end - i,
    {
        if is_met(h.bytes, h.list[i], wanted) {
            return Some(i);
        }
        i = i + 1;
    }
    None
}

fn find_after_last(h: &Units, from: usize, wanted: char) -> (r: usize)
    requires
        from <= h@.list.len(),
    ensures
        r == after_last_meeting(h@, from as int, h@.list.len() as int, wanted),
        from <= r <= h@.list.len(),
{
    let mut end: usize = h.list.len();
    while from < end
        invariant
            from <= end <= h@.list.len(),
            after_last_meeting(h@, from as int, h@.list.len() as int, wanted)
                == after_last_meeting(h@, from as int, end as int, wanted),
        decreases end,
    {
        if is_met(h.bytes, h.list[end - 1], wanted) {
            return end;
        }
        end = end - 1;
    }
    from
}

fn find_greedy_end(h: &Units, from: usize, n: &Vec<char>) -> (r: Option<usize>)
    requires
        from <= h@.list.len(),
        n@.len() >= 1,
    ensures
        match (r, greedy_end(h@, from as int, n@, 1)) {
            (Some(a), Some(b)) => a == b && from + n@.len() - 1 <= a <= h@.list.len(),
            (None, None) => true,
            _ => false,
        },
{
    let mut at: usize = from;
    let len: usize = h.list.len();
    for k in 1..n.len()
        invariant
            len == h@.list.len(),
            from + k - 1 <= at <= len,
            n@.len() >= 1,
            greedy_end(h@, from as int, n@, 1) == greedy_end(h@, at as int, n@, k as int),
    {
        match find_next(h, at, len, n[k]) {
            Some(i) => {
                at = i + 1;
            },
            None => {
                return None;
            },
        }
    }
    Some(at)
}

fn find_latest_start(h: &Units, n: &Vec<char>, start: usize, end: usize) -> (r: usize)
    requires
        start < end <= h@.list.len(),
        n@.len() >= 1,
    ensures
        r == latest_start(h@, n@, start as int, end as int, n@.len() - 1),
        start <= r < end,
{
    let mut i: usize = end;
    let mut k: usize = n.len() - 1;
    while start < i
        invariant
            start <= i <= end <= h@.list.len(),
            k < n@.len(),
            start < end,
            latest_start(h@, n@, start as int, end as int, n@.len() - 1) == latest_start(
                h@,
                n@,
                start as int,
                i as int,
                k as int,
            ),
        decreases i,
    {
        i = i - 1;
        if compare_as(h.bytes, h.list[i]) == n[k] {
            if k == 0 {
                return i;
            }
            k = k - 1;
        }
    }
    start
}

fn is_at(h: &Units, n: &Units, start: usize) -> (r: bool)
    requires
        start + n@.list.len() <= h@.list.len(),
    ensures
        r == stands_at(h@, n@, start as int),
{
    let long: usize = h.list.len();
    for i in 0..n.list.len()
        invariant
            long == h@.list.len(),
            start + n@.list.len() <= long,
            forall|k: int|
                0 <= k < i ==> compared(h@.bytes, h@.list[start + k]) == compared(
                    n@.bytes,
                    #[trigger] n@.list[k],
                ),
    {
        if compare_as(h.bytes, h.list[start + i]) != compare_as(n.bytes, n.list[i]) {
            assert(compared(n@.bytes, n@.list[i as int]) != compared(
                h@.bytes,
                h@.list[start + i],
            ));
            return false;
        }
    }
    true
}

fn find_part(h: &Units, n: &Units) -> (r: Option<(usize, usize)>)
    requires
        2 <= n@.list.len() <= h@.list.len(),
    ensures
        match (r, search_part(h@, n@)) {
            (Some(a), Some(b)) => {
                &&& a.0 == b.0
                &&& a.1 == b.1
                &&& a.0 + n@.list.len() <= a.1 <= h@.list.len()
            },
            (None, None) => true,
            _ => false,
        },
{
    let limit: usize = h.list.len() - n.list.len() + 1;
    let last = n.list[n.list.len() - 1];
    match find_next(h, 0, limit, n.list[0]) {
        None => None,
        Some(start) => if h.bytes {
            match find_greedy_end(h, start + 1, &n.list) {
                None => None,
                Some(g) => Some((start, find_after_last(h, g, last))),
            }
        } else {
            let end: usize = find_after_last(h, start + 1, last);
            if end - start < n.list.len() {
                None
            } else {
                Some((start, end))
            }
        },
    }
}

fn bonus_of(before: Class, at: Class) -> (r: u32)
    ensures
        r == bonus(before, at),
{
    match at {
        Class::White => 10,
        Class::NonWord => 8,
        Class::Delimiter => 0,
        _ => match before {
            Class::White => 10,
            Class::Delimiter => 9,
            Class::NonWord => 8,
            Class::Lower => if at == Class::Upper || at == Class::Number {
                5
            } else {
                0
            },
            Class::Number => 0,
            _ => if at == Class::Number {
                5
            } else {
                0
            },
        },
    }
}

fn unit_bonus(h: &Units, i: usize) -> (r: u32)
    requires
        i < h@.list.len(),
    ensures
        r == bonus_at(h@, i as int),
        r <= 10,
{
    let before = if i == 0 {
        Class::White
    } else {
        class(h.bytes, h.list[i - 1])
    };
    bonus_of(before, class(h.bytes, h.list[i]))
}

fn has_small_score(h: &Units, n: &Vec<char>, start: usize, end: usize) -> (r: bool)
    requires
        start < end <= h@.list.len(),
        n@.len() >= 1,
    ensures
        r == score_fits(h@, n@, start as int, end as int),
{
    let mut run_bonus: u32 = unit_bonus(h, start);
    let mut score: u32 = 16 + 2 * run_bonus;
    let mut matched: usize = 1;
    let mut in_run = true;
    let mut in_gap = false;
    let mut i: usize = start + 1;
    while i < end
        invariant
            start < i <= end <= h@.list.len(),
            1 <= matched <= i - start,
            n@.len() >= 1,
            score <= u16::MAX,
            run_bonus <= 10,
            score_fits(h@, n@, start as int, end as int) == stays_small(
                Tally {
                    score: score as int,
                    matched: matched as int,
                    run_bonus: run_bonus as int,
                    in_run,
                    in_gap,
                },
                h@,
                n@,
                i as int,
                end as int,
            ),
        decreases end - i,
    {
        let wanted = n[if matched < n.len() {
            matched
        } else {
            n.len() - 1
        }];
        if compare_as(h.bytes, h.list[i]) != wanted {
            let penalty: u32 = if in_gap {
                1
            } else {
                3
            };
            score = if score > penalty {
                score - penalty
            } else {
                0
            };
            in_run = false;
            in_gap = true;
        } else {
            let own: u32 = unit_bonus(h, i);
            if !in_run || (own >= 8 && own > run_bonus) {
                run_bonus = own;
            }
            let given: u32 = if !in_run {
                own
            } else if own < 4 && run_bonus < 4 {
                4
            } else if own > run_bonus {
                own
            } else {
                run_bonus
            };
            score = score + 16 + given;
            matched = matched + 1;
            in_run = true;
            in_gap = false;
            if score > u16::MAX as u32 {
                return false;
            }
        }
        i = i + 1;
    }
    true
}

fn capital_in(n: &Vec<char>) -> (r: bool)
    ensures
        r == has_capital(n@),
{
    for i in 0..n.len()
        invariant
            forall|k: int| 0 <= k < i ==> !('A' <= #[trigger] n@[k] <= 'Z'),
    {
        if 'A' <= n[i] && n[i] <= 'Z' {
            return true;
        }
    }
    false
}

fn has_room(w: usize, n: usize) -> (r: bool)
    requires
        1 <= n <= w,
    ensures
        r == fits_tables(w as int, n as int),
{
    if w > 65535 || n > 2048 {
        return false;
    }
    let (w, n): (u64, u64) = (w as u64, n as u64);
    assert(w * n <= 65535 * 2048) by (nonlinear_arith)
        requires
            w <= 65535,
            n <= 2048,
    ;
    assert((w + 1 - n) * (8 + n) <= 65536 * 2056) by (nonlinear_arith)
        requires
            w <= 65535,
            n <= 2048,
            n <= w,
    ;
    w * n <= 102400 && (2 * w + 2 * n + 7) / 8 * 8 + (w + 1 - n) * (8 + n) <= 133120
}

fn can_search_part(h: &Units, n: &Units, start: usize, end: usize) -> (r: bool)
    requires
        h@.list.len() <= u32::MAX,
        2 <= n@.list.len(),
        start + n@.list.len() <= end <= h@.list.len(),
        course(h@, n@) == (Course::Searched { start: start as int, end: end as int }),
    ensures
        r == can_go(h@, n@),
{
    let (w, len) = (end - start, n.list.len());
    assert(w * len <= 4294967295 * 4294967295) by (nonlinear_arith)
        requires
            w <= 4294967295,
            len <= 4294967295,
    ;
    if (w as u64) * (len as u64) > usize::MAX as u64 {
        return false;
    }
    if h.bytes && capital_in(&n.list) && has_room(w, len) {
        return false;
    }
    if len <= SHORT_NEEDLE {
        return true;
    }
    match find_greedy_end(h, start + 1, &n.list) {
        None => true,
        Some(behind) => {
            let first: usize = find_latest_start(h, &n.list, start, behind);
            has_small_score(h, &n.list, first, behind)
        },
    }
}

/// Whether two texts can be matched.
pub fn can_match(haystack: &str, needle: &str) -> (r: bool)
    ensures
        r == accepted(haystack@, needle@),
{
    let (h, n) = (units_from(haystack), units_from(needle));
    let (long, short) = (h.list.len(), n.list.len());
    if long as u64 > u32::MAX as u64 {
        return false;
    }
    if short > long || (h.bytes && !n.bytes) {
        return true;
    }
    if short == long {
        return short <= SHORT_NEEDLE || !is_at(&h, &n, 0) || has_small_score(&h, &n.list, 0, long);
    }
    if short <= 1 {
        return true;
    }
    match find_part(&h, &n) {
        None => true,
        Some((start, end)) => if end - start != short {
            can_search_part(&h, &n, start, end)
        } else {
            short <= SHORT_NEEDLE || !(h.bytes || is_at(&h, &n, start)) || has_small_score(
                &h,
                &n.list,
                start,
                end,
            )
        },
    }
}

// --- laws ---

/// An ASCII unit is a letter of its case, a digit, white space, one of five delimiters, or none of
/// these; another unit is what the character properties say, in this order.
pub proof fn law_units_have_one_class(c: char)
    ensures
        forall|bytes: bool|
            c <= '\u{7f}' ==> {
                &&& (#[trigger] class_of(bytes, c) == Class::Lower <==> 'a' <= c <= 'z')
                &&& (class_of(bytes, c) == Class::Upper <==> 'A' <= c <= 'Z')
                &&& (class_of(bytes, c) == Class::Number <==> '0' <= c <= '9')
                &&& (class_of(bytes, c) == Class::White <==> c == ' ' || c == '\t' || c == '\n'
                    || c == '\u{c}' || c == '\r')
                &&& (class_of(bytes, c) == Class::Delimiter <==> c == '/' || c == ',' || c == ':'
                    || c == ';' || c == '|')
                &&& class_of(bytes, c) != Class::Letter
            },
        c > '\u{7f}' && lowercase_char(c) ==> class_of(false, c) == Class::Lower,
        c > '\u{7f}' && !lowercase_char(c) && uppercase_char(c) ==> class_of(false, c)
            == Class::Upper,
        c > '\u{7f}' && !lowercase_char(c) && !uppercase_char(c) && numeric_char(c) ==> class_of(
            false,
            c,
        ) == Class::Number,
        c > '\u{7f}' && !lowercase_char(c) && !uppercase_char(c) && !numeric_char(c)
            && alphabetic_char(c) ==> class_of(false, c) == Class::Letter,
        c > '\u{7f}' && !lowercase_char(c) && !uppercase_char(c) && !numeric_char(c)
            && !alphabetic_char(c) ==> class_of(false, c) == (if text::is_white(c) {
            Class::White
        } else {
            Class::NonWord
        }),
{
}

/// Units are compared without regard to case, and beyond ASCII without accents. On bytes the
/// first search takes a small letter's capital for it, but not the other way round.
pub proof fn law_units_are_compared_without_case(c: char, wanted: char)
    ensures
        'A' <= c <= 'Z' ==> compared(true, c) as int == c as int + 32 && compared(false, c) as int
            == c as int + 32,
        c <= '\u{7f}' && !('A' <= c <= 'Z') ==> compared(true, c) == c && compared(false, c) == c,
        c > '\u{7f}' ==> compared(false, c) == folded_char(plain_char(c)),
        meets(true, c, c),
        'a' <= wanted <= 'z' && c as int + 32 == wanted as int ==> meets(true, c, wanted),
        c != wanted && !('a' <= wanted <= 'z' && c as int + 32 == wanted as int) ==> !meets(
            true,
            c,
            wanted,
        ),
        meets(false, c, wanted) <==> compared(false, c) == wanted,
{
}

/// The search forwards finds the first place, and finds one wherever there is one.
pub proof fn law_next_meeting_is_the_first(h: UnitData, from: int, end: int, wanted: char)
    ensures
        next_meeting(h, from, end, wanted) matches Some(i) ==> from <= i < end && meets(
            h.bytes,
            h.list[i],
            wanted,
        ) && (forall|j: int|
            from <= j < i ==> !meets(h.bytes, #[trigger] h.list[j], wanted)),
        next_meeting(h, from, end, wanted) is None ==> forall|j: int|
            from <= j < end ==> !meets(h.bytes, #[trigger] h.list[j], wanted),
    decreases end - from,
{
    if from < end && !meets(h.bytes, h.list[from], wanted) {
        law_next_meeting_is_the_first(h, from + 1, end, wanted);
    }
}

/// The search backwards ends right behind the last place, or at its start where there is none.
pub proof fn law_last_meeting_is_the_last(h: UnitData, from: int, end: int, wanted: char)
    requires
        from <= end,
    ensures
        ({
            let behind = after_last_meeting(h, from, end, wanted);
            &&& from <= behind <= end
            &&& behind > from ==> meets(h.bytes, h.list[behind - 1], wanted)
            &&& forall|j: int| behind <= j < end ==> !meets(h.bytes, #[trigger] h.list[j], wanted)
        }),
    decreases end - from,
{
    if from < end && !meets(h.bytes, h.list[end - 1], wanted) {
        law_last_meeting_is_the_last(h, from, end - 1, wanted);
    }
}

/// Going forwards, each unit of the needle is taken at its first place behind the one before; the
/// needle ends there only where every unit has a place.
pub proof fn law_needle_is_taken_forwards(h: UnitData, from: int, n: Seq<char>, k: int, i: int)
    requires
        0 <= k,
    ensures
        k >= n.len() ==> greedy_end(h, from, n, k) == Some(from),
        k < n.len() && from <= i < h.list.len() && meets(h.bytes, h.list[i], n[k]) && (forall|j: int|
            from <= j < i ==> !meets(h.bytes, #[trigger] h.list[j], n[k])) ==> greedy_end(
            h,
            from,
            n,
            k,
        ) == greedy_end(h, i + 1, n, k + 1),
        k < n.len() && (forall|j: int|
            from <= j < h.list.len() ==> !meets(h.bytes, #[trigger] h.list[j], n[k]))
            ==> greedy_end(h, from, n, k) is None,
{
    if k < n.len() {
        law_next_meeting_is_the_first(h, from, h.list.len() as int, n[k]);
    }
}

/// Going backwards, each unit of the needle is taken at its last place before the one behind it;
/// where one has none, the match begins where the search does.
pub proof fn law_needle_is_taken_backwards(
    h: UnitData,
    n: Seq<char>,
    start: int,
    i: int,
    k: int,
    at: int,
)
    ensures
        start <= at < i && compared(h.bytes, h.list[at]) == n[k] && (forall|j: int|
            at < j < i ==> compared(h.bytes, #[trigger] h.list[j]) != n[k]) ==> latest_start(
            h,
            n,
            start,
            i,
            k,
        ) == (if k == 0 {
            at
        } else {
            latest_start(h, n, start, at, k - 1)
        }),
        (forall|j: int|
            start <= j < i ==> compared(h.bytes, #[trigger] h.list[j]) != n[k]) ==> latest_start(
            h,
            n,
            start,
            i,
            k,
        ) == start,
    decreases i - start,
{
    if i > start {
        if compared(h.bytes, h.list[i - 1]) != n[k] {
            law_needle_is_taken_backwards(h, n, start, i - 1, k, at);
        }
    }
}

/// A needle stands at a place where each of its units is the same there, but for accents and case.
pub proof fn law_needle_stands_unit_by_unit(h: UnitData, n: UnitData, start: int)
    ensures
        (forall|i: int|
            0 <= i < n.list.len() ==> compared(h.bytes, h.list[start + i]) == compared(
                n.bytes,
                #[trigger] n.list[i],
            )) ==> stands_at(h, n, start),
        forall|i: int|
            0 <= i < n.list.len() && compared(h.bytes, h.list[start + i]) != compared(
                n.bytes,
                #[trigger] n.list[i],
            ) ==> !stands_at(h, n, start),
{
}

proof fn lemma_forwards_end(h: UnitData, from: int, n: Seq<char>, k: int)
    requires
        0 <= k <= n.len(),
        0 <= from <= h.list.len(),
    ensures
        greedy_end(h, from, n, k) matches Some(e) ==> from + (n.len() - k) <= e <= h.list.len(),
    decreases n.len() - k,
{
    if k < n.len() {
        law_next_meeting_is_the_first(h, from, h.list.len() as int, n[k]);
        match next_meeting(h, from, h.list.len() as int, n[k]) {
            Some(i) => lemma_forwards_end(h, i + 1, n, k + 1),
            None => {},
        }
    }
}

/// The part of the haystack that is searched begins at the first place for the needle's first unit
/// that leaves room for the rest, has at least the needle's length, and ends behind the last place
/// for its last unit.
pub proof fn law_searched_part_holds_the_needle(h: UnitData, n: UnitData)
    requires
        1 < n.list.len() < h.list.len(),
    ensures
        search_part(h, n) matches Some((start, end)) ==> {
            &&& 0 <= start
            &&& start + n.list.len() <= end <= h.list.len()
            &&& meets(h.bytes, h.list[start], n.list[0])
            &&& forall|j: int| 0 <= j < start ==> !meets(h.bytes, #[trigger] h.list[j], n.list[0])
            &&& forall|j: int|
                end <= j < h.list.len() ==> !meets(h.bytes, #[trigger] h.list[j], n.list.last())
        },
        (forall|j: int|
            0 <= j <= h.list.len() - n.list.len() ==> !meets(
                h.bytes,
                #[trigger] h.list[j],
                n.list[0],
            )) ==> search_part(h, n) is None,
{
    let room = h.list.len() - n.list.len() + 1;
    law_next_meeting_is_the_first(h, 0, room, n.list[0]);
    match next_meeting(h, 0, room, n.list[0]) {
        Some(start) => {
            lemma_forwards_end(h, start + 1, n.list, 1);
            match greedy_end(h, start + 1, n.list, 1) {
                Some(g) => law_last_meeting_is_the_last(
                    h,
                    g,
                    h.list.len() as int,
                    n.list.last(),
                ),
                None => {},
            }
            law_last_meeting_is_the_last(h, start + 1, h.list.len() as int, n.list.last());
        },
        None => {},
    }
}

/// Nothing is added up for a needle that is longer than the haystack, that has no more than one
/// unit, or that no bytes can hold; one as long as the haystack is scored where it stands there;
/// a shorter one is scored where the part to search has its length, and searched for in a longer.
pub proof fn law_course_follows_the_lengths(h: UnitData, n: UnitData)
    ensures
        n.list.len() > h.list.len() ==> course(h, n) is Settled,
        h.bytes && !n.bytes ==> course(h, n) is Settled,
        n.list.len() < h.list.len() && n.list.len() <= 1 ==> course(h, n) is Settled,
        n.list.len() == h.list.len() && n.list.len() > 0 && !(h.bytes && !n.bytes) ==> (course(
            h,
            n,
        ) is Scored <==> stands_at(h, n, 0)),
        course(h, n) matches Course::Scored { start, end } ==> end - start == n.list.len() && 0
            <= start && end <= h.list.len() && n.list.len() > 0 && (!h.bytes || n.list.len()
            == h.list.len() ==> stands_at(h, n, start)),
        course(h, n) matches Course::Searched { start, end } ==> end - start > n.list.len() && 0
            <= start && end <= h.list.len() && n.list.len() > 1,
        1 < n.list.len() < h.list.len() && !(h.bytes && !n.bytes) && (search_part(
            h,
            n,
        ) matches Some(p) && p.1 - p.0 != n.list.len()) ==> course(h, n) is Searched,
{
    if 1 < n.list.len() < h.list.len() {
        law_searched_part_holds_the_needle(h, n);
    }
}

/// The bonus of a unit: white space and signs have one of their own; a letter or digit has the
/// more, the more clearly what stands before it sets it apart.
pub proof fn law_bonus_marks_beginnings(before: Class)
    ensures
        bonus(before, Class::White) == 10,
        bonus(before, Class::NonWord) == 8,
        bonus(before, Class::Delimiter) == 0,
        forall|at: Class|
            at == Class::Lower || at == Class::Upper || at == Class::Letter || at == Class::Number
                ==> #[trigger] bonus(Class::White, at) == 10 && bonus(Class::Delimiter, at) == 9
                && bonus(Class::NonWord, at) == 8,
        bonus(Class::Lower, Class::Upper) == 5,
        bonus(Class::Lower, Class::Number) == 5,
        bonus(Class::Upper, Class::Number) == 5,
        bonus(Class::Letter, Class::Number) == 5,
        bonus(Class::Lower, Class::Lower) == 0,
        bonus(Class::Lower, Class::Letter) == 0,
        bonus(Class::Upper, Class::Lower) == 0,
        bonus(Class::Upper, Class::Upper) == 0,
        bonus(Class::Upper, Class::Letter) == 0,
        bonus(Class::Letter, Class::Lower) == 0,
        bonus(Class::Letter, Class::Upper) == 0,
        bonus(Class::Letter, Class::Letter) == 0,
        bonus(Class::Number, Class::Lower) == 0,
        bonus(Class::Number, Class::Upper) == 0,
        bonus(Class::Number, Class::Letter) == 0,
        bonus(Class::Number, Class::Number) == 0,
{
}

/// The first unit of a text stands as if behind white space, any other behind the one before it.
pub proof fn law_text_begins_as_if_behind_white_space(h: UnitData, i: int)
    requires
        i > 0,
    ensures
        bonus_at(h, 0) == bonus(Class::White, class_of(h.bytes, h.list[0])),
        bonus_at(h, i) == bonus(
            class_of(h.bytes, h.list[i - 1]),
            class_of(h.bytes, h.list[i]),
        ),
{
}

/// A unit that does not match costs three points, or one where the gap is already open, and never
/// more than there are. A unit that does gains sixteen and its bonus: its own at the start of a
/// run, and within a run the better of its own and the run's, but at least four.
pub proof fn law_units_gain_and_cost(t: Tally, h: UnitData, n: Seq<char>, i: int)
    requires
        0 <= t.matched < n.len(),
        t.score >= 0,
    ensures
        compared(h.bytes, h.list[i]) != n[t.matched] ==> {
            let next = tallied(t, h, n, i);
            &&& !t.in_gap && t.score >= 3 ==> next.score == t.score - 3
            &&& t.in_gap && t.score >= 1 ==> next.score == t.score - 1
            &&& !t.in_gap && t.score < 3 ==> next.score == 0
            &&& t.score == 0 ==> next.score == 0
            &&& next.matched == t.matched
            &&& next.run_bonus == t.run_bonus
            &&& !next.in_run
            &&& next.in_gap
        },
        compared(h.bytes, h.list[i]) == n[t.matched] ==> {
            let next = tallied(t, h, n, i);
            &&& next.matched == t.matched + 1
            &&& next.in_run
            &&& !next.in_gap
            &&& !t.in_run ==> next.score == t.score + 16 + bonus_at(h, i) && next.run_bonus
                == bonus_at(h, i)
            &&& t.in_run ==> next.score >= t.score + 16 + 4
            &&& t.in_run && bonus_at(h, i) >= 4 && bonus_at(h, i) >= t.run_bonus ==> next.score
                == t.score + 16 + bonus_at(h, i)
            &&& t.in_run && t.run_bonus >= 4 && t.run_bonus >= bonus_at(h, i) ==> next.score
                == t.score + 16 + t.run_bonus
            &&& t.in_run && t.run_bonus < 4 && bonus_at(h, i) < 4 ==> next.score == t.score + 16
                + 4
            &&& t.in_run && bonus_at(h, i) >= 8 && bonus_at(h, i) > t.run_bonus ==> next.run_bonus
                == bonus_at(h, i)
            &&& t.in_run && !(bonus_at(h, i) >= 8 && bonus_at(h, i) > t.run_bonus)
                ==> next.run_bonus == t.run_bonus
        },
        opening(h, i).score == 16 + 2 * bonus_at(h, i),
        opening(h, i).matched == 1,
        opening(h, i).run_bonus == bonus_at(h, i),
        opening(h, i).in_run,
        !opening(h, i).in_gap,
{
}

/// A score fits where it is at most 65535 after every unit that is looked at, from the one behind
/// the first to the last.
pub proof fn law_scores_fit_unit_by_unit(
    t: Tally,
    h: UnitData,
    n: Seq<char>,
    i: int,
    start: int,
    end: int,
)
    ensures
        i >= end ==> stays_small(t, h, n, i, end),
        i < end && tallied(t, h, n, i).score > 65535 ==> !stays_small(t, h, n, i, end),
        i < end && tallied(t, h, n, i).score <= 65535 ==> (stays_small(t, h, n, i, end)
            <==> stays_small(tallied(t, h, n, i), h, n, i + 1, end)),
        score_fits(h, n, start, end) <==> stays_small(opening(h, start), h, n, start + 1, end),
{
}

/// The tables hold 102400 cells at most, for a haystack of up to 65535 units and a needle of up to
/// 2048; with the columns that a search keeps they have room for 133120 bytes.
pub proof fn law_tables_have_limits(w: int, n: int)
    requires
        0 < n <= w,
    ensures
        fits_tables(w, n) ==> w * n <= 102400 && w <= 65535 && n <= 2048,
        w * n > 102400 || w > 65535 || n > 2048 ==> !fits_tables(w, n),
        w * n <= 102400 && w <= 65535 && n <= 2048 ==> (fits_tables(w, n) <==> (2 * w + 2 * n + 7)
            / 8 * 8 + (w + 1 - n) * (8 + n) <= 133120),
{
}

/// A capital is a letter from `A` to `Z`, wherever in the needle it stands.
pub proof fn law_capitals_are_found(before: Seq<char>, c: char, after: Seq<char>)
    ensures
        'A' <= c <= 'Z' ==> has_capital(before + seq![c] + after),
        (forall|i: int|
            0 <= i < before.len() ==> !('A' <= #[trigger] before[i] <= 'Z')) ==> !has_capital(
            before,
        ),
{
    let whole = before + seq![c] + after;
    assert(whole[before.len() as int] == c);
}

/// A needle of up to 2520 units can always be scored, and so can every text that settles at once;
/// a search is refused for a capital among bytes where the tables would be used, and nowhere else
/// as long as the needle is that short and the tables can be measured.
pub proof fn law_short_needles_can_be_matched(h: UnitData, n: UnitData)
    ensures
        course(h, n) is Settled ==> can_go(h, n),
        course(h, n) is Scored && n.list.len() <= 2520 ==> can_go(h, n),
        course(h, n) matches Course::Scored { start, end } ==> (n.list.len() > 2520 ==> (can_go(h, n)
            <==> score_fits(h, n.list, start, end))),
        course(h, n) matches Course::Searched { start, end } && h.bytes && has_capital(n.list)
            && fits_tables(end - start, n.list.len() as int) ==> !can_go(h, n),
        course(h, n) matches Course::Searched { start, end } && (end - start) * n.list.len()
            > usize::MAX ==> !can_go(h, n),
        course(h, n) matches Course::Searched { start, end } && (end - start) * n.list.len()
            <= usize::MAX && n.list.len() <= 2520 && (!h.bytes || !has_capital(n.list)
            || !fits_tables(end - start, n.list.len() as int)) ==> can_go(h, n),
{
}

/// What can be matched is told from the units that the two texts are made of.
pub proof fn law_texts_are_taken_unit_by_unit(haystack: Seq<char>, needle: Seq<char>)
    ensures
        units_of(haystack).len() > 0xffff_ffff ==> !accepted(haystack, needle),
        units_of(haystack).len() <= 0xffff_ffff ==> (accepted(haystack, needle) <==> can_go(
            UnitData { bytes: kept_as_bytes(haystack), list: units_of(haystack) },
            UnitData { bytes: kept_as_bytes(needle), list: units_of(needle) },
        )),
{
}

/// Where the tables have no room, the needle is taken forwards from behind its first place to its
/// end, and backwards from there to where it begins.
pub proof fn law_match_without_tables(h: UnitData, n: Seq<char>, start: int, end: int)
    ensures
        greedy_end(h, start + 1, n, 1) == Some(end) ==> greedy_part(h, n, start) == Some(
            (latest_start(h, n, start, end, n.len() - 1), end),
        ),
        greedy_end(h, start + 1, n, 1) is None ==> greedy_part(h, n, start) is None,
{
}

} // verus!
