//! Quick add: one line that finds a task type and logs a tally with one keystroke.
use vstd::prelude::*;

use crate::text;

verus! {

/// The most result rows that are shown.
pub const MAX_ROWS: usize = 6;

// --- the query line ---

/// The value of a run of decimal digits.
pub open spec fn digits_value(s: Seq<char>) -> int
    decreases s.len(),
{
    if s.len() == 0 {
        0
    } else {
        digits_value(s.drop_last()) * 10 + (s.last() as int - 48)
    }
}

pub open spec fn all_digits(s: Seq<char>) -> bool {
    forall|i: int| 0 <= i < s.len() ==> '0' <= #[trigger] s[i] <= '9'
}

/// The integer that `s` writes: decimal digits, with a sign in front or without.
pub open spec fn written_integer(s: Seq<char>) -> Option<int> {
    let signed = s.len() > 0 && (s[0] == '-' || s[0] == '+');
    let digits = if signed {
        s.drop_first()
    } else {
        s
    };
    if digits.len() == 0 || !all_digits(digits) {
        None
    } else if signed && s[0] == '-' {
        Some(-digits_value(digits))
    } else {
        Some(digits_value(digits))
    }
}

/// A number that can be a count: from 1 to 9999, or negative for a removal.
pub open spec fn is_count(n: int) -> bool {
    1 <= n <= 9999 || -9999 <= n <= -1
}

/// The place of the last white-space character of `s`.
pub open spec fn last_white(s: Seq<char>) -> Option<int>
    decreases s.len(),
{
    if s.len() == 0 {
        None
    } else if text::is_white(s.last()) {
        Some(s.len() - 1)
    } else {
        last_white(s.drop_last())
    }
}

/// The search text and the count that a query line holds. The last word is the count if it is
/// a number that can be one and there is text before it; otherwise the whole line is search
/// text and the count is 1.
pub open spec fn query_parts(raw: Seq<char>) -> (Seq<char>, int) {
    let line = text::trimmed(raw);
    match last_white(line) {
        None => (line, 1),
        Some(i) => {
            let head = text::trim_end(line.take(i));
            let tail = text::trim_start(line.skip(i));
            match written_integer(tail) {
                Some(n) if head.len() > 0 && is_count(n) => (head, n),
                _ => (line, 1),
            }
        },
    }
}

fn digit_of(c: char) -> (r: Option<i64>)
    ensures
        match r {
            Some(d) => '0' <= c <= '9' && d == c as int - 48,
            None => !('0' <= c <= '9'),
        },
{
    let u: u32 = c as u32;
    if 48 <= u && u <= 57 {
        Some(u as i64 - 48)
    } else {
        None
    }
}

/// The count that the characters `from..to` write, if they write one.
fn count_in(chars: &Vec<char>, from: usize, to: usize) -> (r: Option<i64>)
    requires
        from <= to <= chars@.len(),
    ensures
        match (written_integer(chars@.subrange(from as int, to as int)), r) {
            (Some(n), Some(m)) => n == m && is_count(n),
            (Some(n), None) => !is_count(n),
            (None, Some(_)) => false,
            (None, None) => true,
        },
{
    let ghost s = chars@.subrange(from as int, to as int);
    let negative = from < to && chars[from] == '-';
    let signed = negative || (from < to && chars[from] == '+');
    let start: usize = if signed {
        from + 1
    } else {
        from
    };
    let ghost digits = chars@.subrange(start as int, to as int);
    assert(signed ==> s.drop_first() =~= digits);
    assert(!signed ==> s =~= digits);
    if start == to {
        return None;
    }
    let mut value: i64 = 0;
    let mut large = false;
    for i in start..to
        invariant
            start <= i <= to <= chars@.len(),
            s == chars@.subrange(from as int, to as int),
            signed == (s.len() > 0 && (s[0] == '-' || s[0] == '+')),
            digits == (if signed {
                s.drop_first()
            } else {
                s
            }),
            digits == chars@.subrange(start as int, to as int),
            all_digits(digits.take(i - start)),
            0 <= value <= 9999,
            !large ==> value == digits_value(digits.take(i - start)),
            large ==> digits_value(digits.take(i - start)) > 9999,
    {
        assert(digits.take(i - start + 1).drop_last() =~= digits.take(i - start));
        assert(digits[i - start] == chars@[i as int]);
        match digit_of(chars[i]) {
            None => {
                assert(!all_digits(digits)) by {
                    assert(!('0' <= digits[i - start] <= '9'));
                }
                return None;
            },
            Some(d) => {
                assert(all_digits(digits.take(i - start + 1))) by {
                    assert forall|k: int| 0 <= k < i - start + 1 implies '0'
                        <= #[trigger] digits.take(i - start + 1)[k] <= '9' by {
                        if k < i - start {
                            assert('0' <= digits.take(i - start)[k] <= '9');
                        }
                    }
                }
                if !large {
                    let next: i64 = value * 10 + d;
                    if next > 9999 {
                        large = true;
                    } else {
                        value = next;
                    }
                }
            },
        }
    }
    assert(digits.take(to - start) =~= digits);
    if large || value == 0 {
        None
    } else if negative {
        Some(-value)
    } else {
        Some(value)
    }
}

/// Splits a query line into its search text and its count.
///
/// A negative count removes: `konsultasi -3` takes three of today's tallies back off that type.
pub fn parse_query(raw: &str) -> (r: (String, i64))
    ensures
        (r.0@, r.1 as int) == query_parts(raw@),
{
    let chars = text::chars_of(text::trim(raw).as_str());
    let n: usize = chars.len();
    let ghost line = text::trimmed(raw@);
    let mut i: usize = n;
    assert(line.take(n as int) =~= line);
    while i > 0 && !chars[i - 1].is_whitespace()
        invariant
            i <= n,
            n == chars@.len(),
            chars@ == line,
            last_white(line) == last_white(line.take(i as int)),
        decreases i,
    {
        assert(line.take(i as int).drop_last() =~= line.take(i - 1));
        i = i - 1;
    }
    if i > 0 {
        let at: usize = i - 1;
        assert(last_white(line) == Some(at as int));
        let head_end: usize = text::drop_white(&chars, 0, at);
        let tail_start: usize = text::skip_white(&chars, at, n);
        assert(chars@.subrange(0, at as int) =~= line.take(at as int));
        assert(chars@.subrange(at as int, n as int) =~= line.skip(at as int));
        if head_end > 0 {
            if let Some(count) = count_in(&chars, tail_start, n) {
                return (text::string_of(&chars, 0, head_end), count);
            }
        }
    }
    let whole = text::string_of(&chars, 0, n);
    assert(whole@ =~= line);
    (whole, 1)
}

/// The count of a query is never zero and never beyond 9999 either way, and its text has no
/// white space around it.
pub proof fn law_query_is_normal(raw: Seq<char>)
    ensures
        is_count(query_parts(raw).1),
        text::trimmed(query_parts(raw).0) == query_parts(raw).0,
{
    let line = text::trimmed(raw);
    text::law_trimmed_is_stable(raw);
    if let Some(i) = last_white(line) {
        lemma_last_white(line);
        let head = text::trim_end(line.take(i));
        text::lemma_trim_end(line.take(i));
        if head.len() > 0 {
            assert(head[0] == line[0]);
            assert(text::trim_start(head) == head);
            assert(text::trim_end(head) == head);
        }
    }
}

proof fn lemma_last_white(s: Seq<char>)
    ensures
        last_white(s) matches Some(i) ==> 0 <= i < s.len() && text::is_white(s[i]),
    decreases s.len(),
{
    if s.len() > 0 && !text::is_white(s.last()) {
        lemma_last_white(s.drop_last());
    }
}

/// A line that holds no count is searched for as a whole, trimmed, and logs one tally.
pub proof fn law_query_without_count(raw: Seq<char>)
    requires
        last_white(text::trimmed(raw)) is None,
    ensures
        query_parts(raw) == (text::trimmed(raw), 1int),
{
}

/// A word that holds no white space.
pub open spec fn is_word(s: Seq<char>) -> bool {
    s.len() > 0 && forall|i: int| 0 <= i < s.len() ==> !text::is_white(#[trigger] s[i])
}

proof fn lemma_last_word(s: Seq<char>, word: Seq<char>)
    requires
        s.len() > 0,
        text::is_white(s.last()),
        forall|i: int| 0 <= i < word.len() ==> !text::is_white(#[trigger] word[i]),
    ensures
        last_white(s + word) == Some(s.len() - 1),
    decreases word.len(),
{
    if word.len() == 0 {
        assert(s + word =~= s);
    } else {
        assert((s + word).drop_last() =~= s + word.drop_last());
        assert((s + word).last() == word[word.len() - 1]);
        lemma_last_word(s, word.drop_last());
    }
}

/// What a line holds whose last word is `tail` and whose text before it is `head`.
proof fn lemma_line_parts(
    lead: Seq<char>,
    head: Seq<char>,
    gap: Seq<char>,
    tail: Seq<char>,
    trail: Seq<char>,
)
    requires
        text::all_white(lead),
        text::all_white(gap),
        text::all_white(trail),
        gap.len() > 0,
        head.len() > 0,
        text::trimmed(head) == head,
        is_word(tail),
    ensures
        text::trimmed(lead + head + gap + tail + trail) == head + gap + tail,
        last_white(head + gap + tail) == Some(head.len() + gap.len() - 1),
        text::trim_end((head + gap + tail).take(head.len() + gap.len() - 1)) == head,
        text::trim_start((head + gap + tail).skip(head.len() + gap.len() - 1)) == tail,
{
    let line = head + gap + tail;
    let at = head.len() + gap.len() - 1;
    text::law_trimmed_is_stable(head);
    assert(line[0] == head[0]);
    assert(line.last() == tail[tail.len() - 1]);
    assert(lead + head + gap + tail + trail =~= lead + line + trail);
    text::law_trimming_keeps_the_middle(lead, line, trail);
    assert((head + gap).last() == gap[gap.len() - 1]);
    lemma_last_word(head + gap, tail);
    assert(line.take(at) =~= head + gap.drop_last());
    text::lemma_trim_end_drops(head, gap.drop_last());
    assert(line.skip(at) =~= seq![gap.last()] + tail);
    text::lemma_trim_start_drops(seq![gap.last()], tail);
}

/// A line that ends in a number from 1 to 9999, or from -9999 to -1 for a removal, with text and
/// white space before it, is split there: the text is searched for, and the number is the count.
pub proof fn law_query_with_count(
    lead: Seq<char>,
    head: Seq<char>,
    gap: Seq<char>,
    tail: Seq<char>,
    trail: Seq<char>,
    n: int,
)
    requires
        text::all_white(lead),
        text::all_white(gap),
        text::all_white(trail),
        gap.len() > 0,
        head.len() > 0,
        text::trimmed(head) == head,
        written_integer(tail) == Some(n),
        1 <= n <= 9999 || -9999 <= n <= -1,
    ensures
        query_parts(lead + head + gap + tail + trail) == (head, n),
{
    assert(is_word(tail)) by {
        assert forall|i: int| 0 <= i < tail.len() implies !text::is_white(#[trigger] tail[i]) by {
            if tail[0] == '-' || tail[0] == '+' {
                if i > 0 {
                    assert('0' <= tail.drop_first()[i - 1] <= '9');
                }
            } else {
                assert('0' <= tail[i] <= '9');
            }
        }
    }
    lemma_line_parts(lead, head, gap, tail, trail);
}

proof fn lemma_digits_are_read(n: nat)
    ensures
        all_digits(text::digits(n)),
        digits_value(text::digits(n)) == n,
        text::digits(n).len() > 0,
    decreases n,
{
    if n >= 10 {
        lemma_digits_are_read(n / 10);
        let d = text::digits(n);
        assert(d.drop_last() =~= text::digits(n / 10));
        assert forall|i: int| 0 <= i < d.len() implies '0' <= #[trigger] d[i] <= '9' by {
            if i < d.len() - 1 {
                assert(d[i] == text::digits(n / 10)[i]);
            }
        }
    } else {
        let d = text::digits(n);
        assert(d.drop_last() =~= Seq::<char>::empty());
        assert(digits_value(d.drop_last()) == 0);
    }
}

/// A number is read as it is written in decimal, with a minus sign where it is negative; a plus
/// sign may stand in front of any other.
pub proof fn law_numbers_are_read_as_written(n: int)
    ensures
        written_integer(text::decimal(n)) == Some(n),
        n >= 0 ==> written_integer(seq!['+'] + text::decimal(n)) == Some(n),
{
    if n < 0 {
        let d = text::digits((-n) as nat);
        lemma_digits_are_read((-n) as nat);
        assert(text::decimal(n).drop_first() =~= d);
    } else {
        let d = text::digits(n as nat);
        lemma_digits_are_read(n as nat);
        assert('0' <= d[0] <= '9');
        assert((seq!['+'] + d).drop_first() =~= d);
    }
}

/// Only digits make a number, behind one sign at most.
pub proof fn law_only_digits_make_a_number(s: Seq<char>)
    requires
        written_integer(s) is Some,
    ensures
        s.len() > 0,
        forall|i: int| 1 <= i < s.len() ==> '0' <= #[trigger] s[i] <= '9',
        '0' <= s[0] <= '9' || (s.len() > 1 && (s[0] == '-' || s[0] == '+')),
        written_integer(s)->0 < 0 ==> s[0] == '-',
        s[0] == '-' ==> written_integer(s)->0 <= 0,
{
    let signed = s[0] == '-' || s[0] == '+';
    let d = if signed {
        s.drop_first()
    } else {
        s
    };
    assert(all_digits(d));
    lemma_value_is_not_negative(d);
    assert forall|i: int| 1 <= i < s.len() implies '0' <= #[trigger] s[i] <= '9' by {
        if signed {
            assert('0' <= d[i - 1] <= '9');
        } else {
            assert('0' <= d[i] <= '9');
        }
    }
    if !signed {
        assert('0' <= d[0] <= '9');
    }
}

proof fn lemma_value_is_not_negative(s: Seq<char>)
    requires
        all_digits(s),
    ensures
        digits_value(s) >= 0,
    decreases s.len(),
{
    if s.len() > 0 {
        assert('0' <= s[s.len() - 1] <= '9');
        assert(all_digits(s.drop_last())) by {
            assert forall|i: int| 0 <= i < s.len() - 1 implies '0' <= #[trigger] s.drop_last()[i]
                <= '9' by {
                assert('0' <= s[i] <= '9');
            }
        }
        lemma_value_is_not_negative(s.drop_last());
    }
}

/// Whatever text and number the user types, `text number` searches for the text and logs or
/// removes that many.
pub proof fn law_typed_count_is_taken(head: Seq<char>, n: int)
    requires
        head.len() > 0,
        text::trimmed(head) == head,
        1 <= n <= 9999 || -9999 <= n <= -1,
    ensures
        query_parts(head + seq![' '] + text::decimal(n)) == (head, n),
{
    law_numbers_are_read_as_written(n);
    let none = Seq::<char>::empty();
    law_query_with_count(none, head, seq![' '], text::decimal(n), none, n);
    assert(none + head + seq![' '] + text::decimal(n) + none =~= head + seq![' ']
        + text::decimal(n));
}

/// A line whose last word is no such number is searched for as a whole: zero, a number beyond
/// 9999 either way and a word of other characters belong to the text.
pub proof fn law_other_lines_are_searched_for(
    lead: Seq<char>,
    head: Seq<char>,
    gap: Seq<char>,
    tail: Seq<char>,
    trail: Seq<char>,
)
    requires
        text::all_white(lead),
        text::all_white(gap),
        text::all_white(trail),
        gap.len() > 0,
        head.len() > 0,
        text::trimmed(head) == head,
        is_word(tail),
        match written_integer(tail) {
            Some(n) => n == 0 || n > 9999 || n < -9999,
            None => true,
        },
    ensures
        query_parts(lead + head + gap + tail + trail) == (head + gap + tail, 1int),
{
    lemma_line_parts(lead, head, gap, tail, trail);
}

/// A single word is searched for, also where it is a number: a count needs text before it.
pub proof fn law_single_word_is_searched_for(word: Seq<char>)
    requires
        is_word(word),
    ensures
        query_parts(word) == (word, 1int),
{
    let none = Seq::<char>::empty();
    assert(none + word + none =~= word);
    text::law_trimming_keeps_the_middle(none, word, none);
    lemma_last_white(word);
}

// --- the preview ---

/// How many tallies a removal of `asked` takes when `removable` can be taken and the day holds
/// `today_count`.
pub open spec fn taken(asked: int, removable: int, today_count: int) -> int {
    let held = if removable < today_count {
        removable
    } else {
        today_count
    };
    if held < 0 {
        0
    } else if asked < held {
        asked
    } else {
        held
    }
}

/// The preview line: `+3 → 7` or `−3 → 4`.
pub open spec fn preview_of(today_count: int, removable: int, count: int) -> Seq<char> {
    if count >= 0 {
        "+"@ + text::decimal(count) + " \u{2192} "@ + text::decimal(today_count + count)
    } else {
        let take = taken(-count, removable, today_count);
        "\u{2212}"@ + text::decimal(take) + " \u{2192} "@ + text::decimal(today_count - take)
    }
}

/// The preview of what Enter will do. For a removal it shows what will happen, not what was
/// typed: no more than the day holds, and no more than can be taken.
pub fn preview_text(today_count: i64, removable: i64, count: i64) -> (r: String)
    requires
        count > i64::MIN,
        count >= 0 ==> today_count + count <= i64::MAX,
    ensures
        r@ == preview_of(today_count as int, removable as int, count as int),
{
    let mut s = String::new();
    if count >= 0 {
        text::push_text(&mut s, "+");
        text::push_decimal(&mut s, count);
        text::push_text(&mut s, " \u{2192} ");
        text::push_decimal(&mut s, today_count + count);
    } else {
        let asked: i64 = -count;
        let held: i64 = if removable < today_count {
            removable
        } else {
            today_count
        };
        let take: i64 = if held < 0 {
            0
        } else if asked < held {
            asked
        } else {
            held
        };
        text::push_text(&mut s, "\u{2212}");
        text::push_decimal(&mut s, take);
        text::push_text(&mut s, " \u{2192} ");
        text::push_decimal(&mut s, today_count - take);
    }
    assert(s@ =~= preview_of(today_count as int, removable as int, count as int));
    s
}

/// The preview never promises a removal that cannot happen: no more than was asked for, no more
/// than can be taken, no more than the day holds, and never a negative number.
pub proof fn law_preview_never_over_promises(asked: int, removable: int, today_count: int)
    requires
        asked >= 0,
    ensures
        0 <= taken(asked, removable, today_count) <= asked,
        removable >= 0 ==> taken(asked, removable, today_count) <= removable,
        today_count >= 0 ==> taken(asked, removable, today_count) <= today_count,
{
}

/// What a preview promises adds up: it begins with a plus or a minus sign, the number of tallies
/// that come or go, and then what the day holds afterwards.
pub proof fn law_preview_adds_up(today_count: int, removable: int, count: int)
    ensures
        count >= 0 ==> preview_of(today_count, removable, count) == "+"@ + text::decimal(count)
            + " \u{2192} "@ + text::decimal(today_count + count),
        count < 0 ==> exists|gone: int, left: int|
            gone + left == today_count && 0 <= gone <= -count && (gone == -count || gone == 0
                || gone == removable || gone == today_count)
                && #[trigger] removal_text(gone, left) == preview_of(today_count, removable, count),
        count < 0 && -count <= removable && -count <= today_count ==> preview_of(
            today_count,
            removable,
            count,
        ) == removal_text(-count, today_count + count),
{
    if count < 0 {
        let gone = taken(-count, removable, today_count);
        assert(removal_text(gone, today_count - gone) == preview_of(today_count, removable, count));
    }
}

/// `−gone → left`.
pub open spec fn removal_text(gone: int, left: int) -> Seq<char> {
    "\u{2212}"@ + text::decimal(gone) + " \u{2192} "@ + text::decimal(left)
}

} // verus!
