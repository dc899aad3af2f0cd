//! Text as sequences of characters: trimming, comparing, searching and writing numbers.
//! Nothing here works on byte offsets, so no function can split a character.
use vstd::prelude::*;

verus! {

/// The characters with the Unicode `White_Space` property.
pub open spec fn is_white(c: char) -> bool {
    let u = c as int;
    ||| 0x9 <= u <= 0xd
    ||| u == 0x20
    ||| u == 0x85
    ||| u == 0xa0
    ||| u == 0x1680
    ||| 0x2000 <= u <= 0x200a
    ||| u == 0x2028
    ||| u == 0x2029
    ||| u == 0x202f
    ||| u == 0x205f
    ||| u == 0x3000
}

/// `char::is_whitespace` answers whether a character has the `White_Space` property.
pub assume_specification[ char::is_whitespace ](c: char) -> (b: bool)
    ensures
        b == is_white(c),
;

/// `String::push` appends one character.
pub assume_specification[ String::push ](s: &mut String, c: char)
    ensures
        final(s)@ == old(s)@.push(c),
;

/// What `str::to_lowercase` makes of a text: every character replaced by its Unicode
/// lowercase form, which depends on the text alone.
pub uninterp spec fn lowercase_of(s: Seq<char>) -> Seq<char>;

/// `str::to_lowercase` gives the Unicode lowercase form of a text. On ASCII text only the
/// letters `A` to `Z` change.
pub assume_specification[ str::to_lowercase ](s: &str) -> (r: String)
    ensures
        r@ == lowercase_of(s@),
        all_ascii(s@) ==> r@ == ascii_lower(s@),
;

/// What `str::to_uppercase` makes of a text: every character replaced by its Unicode
/// uppercase form, which depends on the text alone.
pub uninterp spec fn uppercase_of(s: Seq<char>) -> Seq<char>;

/// `str::to_uppercase` gives the Unicode uppercase form of a text. On ASCII text only the
/// letters `a` to `z` change.
pub assume_specification[ str::to_uppercase ](s: &str) -> (r: String)
    ensures
        r@ == uppercase_of(s@),
        all_ascii(s@) ==> r@ == ascii_upper(s@),
;

pub open spec fn all_ascii(s: Seq<char>) -> bool {
    forall|i: int| 0 <= i < s.len() ==> (#[trigger] s[i] as int) < 128
}

pub open spec fn ascii_upper_char(c: char) -> char {
    if 'a' <= c <= 'z' {
        (c as int - 32) as char
    } else {
        c
    }
}

pub open spec fn ascii_upper(s: Seq<char>) -> Seq<char> {
    Seq::new(s.len(), |i: int| ascii_upper_char(s[i]))
}

pub open spec fn ascii_lower_char(c: char) -> char {
    if 'A' <= c <= 'Z' {
        (c as int + 32) as char
    } else {
        c
    }
}

/// An ASCII text in small letters.
pub open spec fn ascii_lower(s: Seq<char>) -> Seq<char> {
    Seq::new(s.len(), |i: int| ascii_lower_char(s[i]))
}

/// A text in lower case.
pub open spec fn lowered(s: Seq<char>) -> Seq<char> {
    if all_ascii(s) {
        ascii_lower(s)
    } else {
        lowercase_of(s)
    }
}

/// A text in capitals.
pub open spec fn raised(s: Seq<char>) -> Seq<char> {
    if all_ascii(s) {
        ascii_upper(s)
    } else {
        uppercase_of(s)
    }
}

/// A text in lower case.
pub fn lower(s: &str) -> (r: String)
    ensures
        r@ == lowered(s@),
{
    s.to_lowercase()
}

/// A text in capitals.
pub fn raise(s: &str) -> (r: String)
    ensures
        r@ == raised(s@),
{
    s.to_uppercase()
}

/// The characters of `s`, in order.
pub fn chars_of(s: &str) -> (r: Vec<char>)
    ensures
        r@ == s@,
{
    let mut r: Vec<char> = Vec::new();
    for c in it: s.chars()
        invariant
            r@ == it.seq().take(it.index()),
            it.seq() == s@,
    {
        r.push(c);
    }
    r
}

/// The characters `from..to` of `chars` as a string.
pub fn string_of(chars: &Vec<char>, from: usize, to: usize) -> (r: String)
    requires
        from <= to <= chars@.len(),
    ensures
        r@ == chars@.subrange(from as int, to as int),
{
    let mut r = String::new();
    for i in from..to
        invariant
            from <= i <= to <= chars@.len(),
            r@ == chars@.subrange(from as int, i as int),
    {
        r.push(chars[i]);
    }
    r
}

/// Appends `tail` to `s`.
pub fn push_text(s: &mut String, tail: &str)
    ensures
        final(s)@ == old(s)@ + tail@,
{
    let ghost start = s@;
    for c in it: tail.chars()
        invariant
            s@ == start + it.seq().take(it.index()),
            it.seq() == tail@,
            start == old(s)@,
    {
        s.push(c);
    }
}

/// Whether two texts are the same, character for character.
pub fn same_text(a: &str, b: &str) -> (r: bool)
    ensures
        r == (a@ == b@),
{
    let x = chars_of(a);
    let y = chars_of(b);
    if x.len() != y.len() {
        return false;
    }
    for i in 0..x.len()
        invariant
            x@ == a@,
            y@ == b@,
            x@.len() == y@.len(),
            forall|k: int| 0 <= k < i ==> x@[k] == y@[k],
    {
        if x[i] != y[i] {
            return false;
        }
    }
    assert(x@ =~= y@);
    true
}

/// The characters of an optional text.
pub open spec fn optional(s: Option<String>) -> Option<Seq<char>> {
    match s {
        Some(t) => Some(t@),
        None => None,
    }
}

/// Whether two optional texts are the same.
pub fn same_optional(a: &Option<String>, b: &Option<String>) -> (r: bool)
    ensures
        r == (optional(*a) == optional(*b)),
{
    match (a, b) {
        (Some(x), Some(y)) => same_text(x.as_str(), y.as_str()),
        (None, None) => true,
        _ => false,
    }
}

/// Whether two names are the same but for their case.
pub open spec fn same_name(a: Seq<char>, b: Seq<char>) -> bool {
    lowered(a) == lowered(b)
}

/// Whether two names are the same but for their case.
pub fn is_same_name(a: &str, b: &str) -> (r: bool)
    ensures
        r == same_name(a@, b@),
{
    same_text(lower(a).as_str(), lower(b).as_str())
}

// --- trimming ---

/// `s` without its leading white space.
pub open spec fn trim_start(s: Seq<char>) -> Seq<char>
    decreases s.len(),
{
    if s.len() > 0 && is_white(s[0]) {
        trim_start(s.drop_first())
    } else {
        s
    }
}

/// `s` without its trailing white space.
pub open spec fn trim_end(s: Seq<char>) -> Seq<char>
    decreases s.len(),
{
    if s.len() > 0 && is_white(s.last()) {
        trim_end(s.drop_last())
    } else {
        s
    }
}

/// `s` without its leading and trailing white space.
pub open spec fn trimmed(s: Seq<char>) -> Seq<char> {
    trim_end(trim_start(s))
}

/// Trimming at the end keeps a prefix whose last character is not white.
pub proof fn lemma_trim_end(s: Seq<char>)
    ensures
        trim_end(s).len() <= s.len(),
        trim_end(s) == s.take(trim_end(s).len() as int),
        trim_end(s).len() > 0 ==> !is_white(trim_end(s).last()),
    decreases s.len(),
{
    if s.len() > 0 && is_white(s.last()) {
        lemma_trim_end(s.drop_last());
        assert(trim_end(s) =~= s.take(trim_end(s).len() as int));
    } else {
        assert(s =~= s.take(s.len() as int));
    }
}

/// Trimming at the start keeps a suffix whose first character is not white.
pub proof fn lemma_trim_start(s: Seq<char>)
    ensures
        trim_start(s).len() <= s.len(),
        trim_start(s) == s.skip(s.len() - trim_start(s).len()),
        trim_start(s).len() > 0 ==> !is_white(trim_start(s)[0]),
    decreases s.len(),
{
    if s.len() > 0 && is_white(s[0]) {
        lemma_trim_start(s.drop_first());
        assert(trim_start(s) =~= s.skip(s.len() - trim_start(s).len()));
    } else {
        assert(s =~= s.skip(0));
    }
}

/// A trimmed text begins and ends with characters that are not white space, and trimming it
/// again changes nothing.
pub proof fn law_trimmed_is_stable(s: Seq<char>)
    ensures
        trimmed(s).len() > 0 ==> !is_white(trimmed(s)[0]) && !is_white(trimmed(s).last()),
        trimmed(trimmed(s)) == trimmed(s),
{
    lemma_trim_start(s);
    lemma_trim_end(trim_start(s));
}

/// Whether a text is nothing but white space.
pub open spec fn all_white(s: Seq<char>) -> bool {
    forall|i: int| 0 <= i < s.len() ==> is_white(#[trigger] s[i])
}

/// White space in front of a text goes when it is trimmed at the start, and nothing else.
pub proof fn lemma_trim_start_drops(lead: Seq<char>, rest: Seq<char>)
    requires
        all_white(lead),
        rest.len() > 0 ==> !is_white(rest[0]),
    ensures
        trim_start(lead + rest) == rest,
    decreases lead.len(),
{
    if lead.len() == 0 {
        assert(lead + rest =~= rest);
    } else {
        assert((lead + rest).drop_first() =~= lead.drop_first() + rest);
        lemma_trim_start_drops(lead.drop_first(), rest);
    }
}

/// White space behind a text goes when it is trimmed at the end, and nothing else.
pub proof fn lemma_trim_end_drops(rest: Seq<char>, trail: Seq<char>)
    requires
        all_white(trail),
        rest.len() > 0 ==> !is_white(rest.last()),
    ensures
        trim_end(rest + trail) == rest,
    decreases trail.len(),
{
    if trail.len() == 0 {
        assert(rest + trail =~= rest);
    } else {
        assert((rest + trail).drop_last() =~= rest + trail.drop_last());
        lemma_trim_end_drops(rest, trail.drop_last());
    }
}

/// Trimming drops the white space around a text and keeps everything between its first and its
/// last other character.
pub proof fn law_trimming_keeps_the_middle(lead: Seq<char>, middle: Seq<char>, trail: Seq<char>)
    requires
        all_white(lead),
        all_white(trail),
        middle.len() > 0 ==> !is_white(middle[0]) && !is_white(middle.last()),
    ensures
        trimmed(lead + middle + trail) == middle,
{
    if middle.len() == 0 {
        let all = lead + middle + trail;
        assert(all_white(all));
        lemma_trim_start_drops(all, Seq::empty());
        assert(all + Seq::<char>::empty() =~= all);
        assert(middle =~= Seq::<char>::empty());
    } else {
        lemma_trim_start_drops(lead, middle + trail);
        assert(lead + (middle + trail) =~= lead + middle + trail);
        lemma_trim_end_drops(middle, trail);
    }
}

/// The first place in `from..to` that holds no white space, or `to`.
pub fn skip_white(chars: &Vec<char>, from: usize, to: usize) -> (r: usize)
    requires
        from <= to <= chars@.len(),
    ensures
        from <= r <= to,
        chars@.subrange(r as int, to as int) == trim_start(
            chars@.subrange(from as int, to as int),
        ),
{
    let mut i: usize = from;
    while i < to && chars[i].is_whitespace()
        invariant
            from <= i <= to <= chars@.len(),
            trim_start(chars@.subrange(i as int, to as int)) == trim_start(
                chars@.subrange(from as int, to as int),
            ),
        decreases to - i,
    {
        assert(chars@.subrange(i as int, to as int).drop_first() =~= chars@.subrange(
            i + 1,
            to as int,
        ));
        i = i + 1;
    }
    i
}

/// The end of `from..to` once white space is dropped from its end.
pub fn drop_white(chars: &Vec<char>, from: usize, to: usize) -> (r: usize)
    requires
        from <= to <= chars@.len(),
    ensures
        from <= r <= to,
        chars@.subrange(from as int, r as int) == trim_end(chars@.subrange(from as int, to as int)),
{
    let mut j: usize = to;
    while from < j && chars[j - 1].is_whitespace()
        invariant
            from <= j <= to <= chars@.len(),
            trim_end(chars@.subrange(from as int, j as int)) == trim_end(
                chars@.subrange(from as int, to as int),
            ),
        decreases j,
    {
        assert(chars@.subrange(from as int, j as int).drop_last() =~= chars@.subrange(
            from as int,
            j - 1,
        ));
        j = j - 1;
    }
    j
}

/// `s` without its leading and trailing white space.
pub fn trim(s: &str) -> (r: String)
    ensures
        r@ == trimmed(s@),
{
    let chars = chars_of(s);
    let n: usize = chars.len();
    let from: usize = skip_white(&chars, 0, n);
    assert(chars@.subrange(0, n as int) =~= s@);
    let to: usize = drop_white(&chars, from, n);
    string_of(&chars, from, to)
}

/// Whether nothing but white space is left in `s`.
pub fn is_blank(s: &str) -> (r: bool)
    ensures
        r == (trimmed(s@).len() == 0),
{
    let t = trim(s);
    t.as_str().is_empty()
}

// --- searching ---

/// Whether `part` stands somewhere in `whole`, character for character.
pub open spec fn has_part(whole: Seq<char>, part: Seq<char>) -> bool {
    exists|i: int| part_at(whole, part, i)
}

pub open spec fn part_at(whole: Seq<char>, part: Seq<char>, i: int) -> bool {
    0 <= i && i + part.len() <= whole.len() && whole.subrange(i, i + part.len()) == part
}

fn is_part_at(whole: &Vec<char>, part: &Vec<char>, at: usize) -> (r: bool)
    requires
        at + part@.len() <= whole@.len(),
    ensures
        r == part_at(whole@, part@, at as int),
{
    let n: usize = whole.len();
    for k in 0..part.len()
        invariant
            n == whole@.len(),
            at + part@.len() <= n,
            forall|j: int| 0 <= j < k ==> whole@[at + j] == part@[j],
    {
        if whole[at + k] != part[k] {
            assert(whole@.subrange(at as int, at + part@.len())[k as int] != part@[k as int]);
            return false;
        }
    }
    assert(whole@.subrange(at as int, at + part@.len()) =~= part@);
    true
}

/// Whether `part` stands somewhere in `whole`.
pub fn contains(whole: &str, part: &str) -> (r: bool)
    ensures
        r == has_part(whole@, part@),
{
    let w = chars_of(whole);
    let p = chars_of(part);
    if p.len() > w.len() {
        assert forall|i: int| !part_at(w@, p@, i) by {}
        return false;
    }
    if p.len() == 0 {
        assert(w@.subrange(0, 0) =~= p@);
        assert(part_at(whole@, part@, 0));
        return true;
    }
    let last: usize = w.len() - p.len();
    for i in 0..last + 1
        invariant
            w@ == whole@,
            p@ == part@,
            last == w@.len() - p@.len(),
            forall|k: int| 0 <= k < i ==> !part_at(w@, p@, k),
    {
        if is_part_at(&w, &p, i) {
            assert(part_at(whole@, part@, i as int));
            return true;
        }
    }
    assert forall|i: int| !part_at(w@, p@, i) by {}
    false
}

// --- byte offsets ---

/// How many bytes a character takes in UTF-8.
pub open spec fn utf8_width(c: char) -> int {
    let u = c as int;
    if u < 0x80 {
        1
    } else if u < 0x800 {
        2
    } else if u < 0x10000 {
        3
    } else {
        4
    }
}

/// How many characters of `s` make up exactly `n` bytes of UTF-8, if some number does.
pub open spec fn chars_in_bytes(s: Seq<char>, n: int) -> Option<int>
    decreases s.len(),
{
    if n == 0 {
        Some(0)
    } else if s.len() == 0 || utf8_width(s[0]) > n {
        None
    } else {
        match chars_in_bytes(s.drop_first(), n - utf8_width(s[0])) {
            Some(k) => Some(k + 1),
            None => None,
        }
    }
}

/// The bytes `from..to` of `s`, where both ends fall between characters.
pub open spec fn byte_range(s: Seq<char>, from: int, to: int) -> Option<Seq<char>> {
    match (chars_in_bytes(s, from), chars_in_bytes(s, to)) {
        (Some(i), Some(j)) => Some(s.subrange(i, j)),
        _ => None,
    }
}

fn width_of(c: char) -> (r: usize)
    ensures
        r == utf8_width(c),
        1 <= r <= 4,
{
    let u: u32 = c as u32;
    if u < 0x80 {
        1
    } else if u < 0x800 {
        2
    } else if u < 0x10000 {
        3
    } else {
        4
    }
}

fn cut_at(chars: &Vec<char>, n: usize) -> (r: Option<usize>)
    ensures
        match (r, chars_in_bytes(chars@, n as int)) {
            (Some(a), Some(b)) => a == b && a <= chars@.len(),
            (None, None) => true,
            _ => false,
        },
{
    let mut i: usize = 0;
    let mut left: usize = n;
    assert(chars@.skip(0) =~= chars@);
    while left > 0
        invariant
            i <= chars@.len(),
            match (
                chars_in_bytes(chars@, n as int),
                chars_in_bytes(chars@.skip(i as int), left as int),
            ) {
                (Some(a), Some(b)) => a == b + i,
                (None, None) => true,
                _ => false,
            },
        decreases left,
    {
        if i >= chars.len() {
            return None;
        }
        let w: usize = width_of(chars[i]);
        if w > left {
            return None;
        }
        assert(chars@.skip(i as int).drop_first() =~= chars@.skip(i + 1));
        i = i + 1;
        left = left - w;
    }
    Some(i)
}

proof fn lemma_cut_grows(s: Seq<char>, a: int, b: int)
    requires
        0 <= a <= b,
        chars_in_bytes(s, a) is Some,
        chars_in_bytes(s, b) is Some,
    ensures
        0 <= chars_in_bytes(s, a)->0 <= chars_in_bytes(s, b)->0,
    decreases s.len(),
{
    if b > 0 && a > 0 {
        lemma_cut_grows(s.drop_first(), a - utf8_width(s[0]), b - utf8_width(s[0]));
    } else if b > 0 {
        lemma_cut_grows(s.drop_first(), 0, b - utf8_width(s[0]));
    }
}

/// The bytes `from..to` of `s` as a text, where both ends fall between characters.
pub fn byte_slice(s: &str, from: usize, to: usize) -> (r: Option<String>)
    requires
        from <= to,
    ensures
        optional(r) == byte_range(s@, from as int, to as int),
{
    let chars = chars_of(s);
    match (cut_at(&chars, from), cut_at(&chars, to)) {
        (Some(i), Some(j)) => {
            proof {
                lemma_cut_grows(s@, from as int, to as int);
            }
            Some(string_of(&chars, i, j))
        },
        _ => None,
    }
}

// --- order ---

/// Whether `a` comes before `b` in dictionary order of code points.
pub open spec fn text_before(a: Seq<char>, b: Seq<char>) -> bool
    decreases a.len(),
{
    if b.len() == 0 {
        false
    } else if a.len() == 0 {
        true
    } else if a[0] != b[0] {
        (a[0] as int) < (b[0] as int)
    } else {
        text_before(a.drop_first(), b.drop_first())
    }
}

/// Of two different texts exactly one comes before the other.
pub proof fn lemma_text_before_total(a: Seq<char>, b: Seq<char>)
    ensures
        a == b ==> !text_before(a, b),
        a != b ==> text_before(a, b) != text_before(b, a),
    decreases a.len(),
{
    if a.len() > 0 && b.len() > 0 {
        lemma_text_before_total(a.drop_first(), b.drop_first());
        assert(a =~= seq![a[0]] + a.drop_first());
        assert(b =~= seq![b[0]] + b.drop_first());
    } else {
        assert(a.len() == 0 && b.len() == 0 ==> a =~= b);
    }
}

/// The order of texts is transitive.
pub proof fn lemma_text_before_transitive(a: Seq<char>, b: Seq<char>, c: Seq<char>)
    requires
        text_before(a, b),
        text_before(b, c),
    ensures
        text_before(a, c),
    decreases a.len(),
{
    if a.len() > 0 && b.len() > 0 && c.len() > 0 && a[0] == b[0] && b[0] == c[0] {
        lemma_text_before_transitive(a.drop_first(), b.drop_first(), c.drop_first());
    }
}

/// Whether `a` comes before `b` in dictionary order of code points.
pub fn comes_before(a: &str, b: &str) -> (r: bool)
    ensures
        r == text_before(a@, b@),
{
    let x = chars_of(a);
    let y = chars_of(b);
    let mut i: usize = 0;
    assert(x@.skip(0) =~= a@ && y@.skip(0) =~= b@);
    while i < x.len() && i < y.len()
        invariant
            i <= x@.len(),
            i <= y@.len(),
            x@ == a@,
            y@ == b@,
            text_before(a@, b@) == text_before(x@.skip(i as int), y@.skip(i as int)),
        decreases x@.len() - i,
    {
        if x[i] != y[i] {
            return x[i] < y[i];
        }
        assert(x@.skip(i as int).drop_first() =~= x@.skip(i + 1));
        assert(y@.skip(i as int).drop_first() =~= y@.skip(i + 1));
        i = i + 1;
    }
    i < y.len()
}

// --- numbers ---

/// The character of one decimal digit.
pub open spec fn digit(d: int) -> char {
    (48 + d) as char
}

/// `n` in decimal, without leading zeros.
pub open spec fn digits(n: nat) -> Seq<char>
    decreases n,
{
    if n < 10 {
        seq![digit(n as int)]
    } else {
        digits(n / 10).push(digit((n % 10) as int))
    }
}

/// `n` in decimal, with a leading `-` where it is negative.
pub open spec fn decimal(n: int) -> Seq<char> {
    if n < 0 {
        seq!['-'] + digits((-n) as nat)
    } else {
        digits(n as nat)
    }
}

/// `s` with zeros in front until it is `width` characters long.
pub open spec fn zero_filled(s: Seq<char>, width: int) -> Seq<char> {
    if s.len() >= width {
        s
    } else {
        Seq::new((width - s.len()) as nat, |i: int| '0') + s
    }
}

/// `n` in decimal, zero-filled to `width` characters counting the sign.
pub open spec fn padded(n: int, width: int) -> Seq<char> {
    if n < 0 {
        seq!['-'] + zero_filled(digits((-n) as nat), width - 1)
    } else {
        zero_filled(digits(n as nat), width)
    }
}

fn digit_char(d: u64) -> (c: char)
    requires
        d < 10,
    ensures
        c == digit(d as int),
{
    (48u8 + d as u8) as char
}

/// Appends `n` in decimal.
pub fn push_digits(s: &mut String, n: u64)
    ensures
        final(s)@ == old(s)@ + digits(n as nat),
    decreases n,
{
    if n >= 10 {
        push_digits(s, n / 10);
    }
    s.push(digit_char(n % 10));
}

/// How far `n` is from zero.
pub fn magnitude(n: i64) -> (r: u64)
    ensures
        r == (if n < 0 { -n as int } else { n as int }),
{
    if n >= 0 {
        n as u64
    } else if n == i64::MIN {
        9223372036854775808u64
    } else {
        (-n) as u64
    }
}

/// Appends `n` in decimal, with its sign where it is negative.
pub fn push_decimal(s: &mut String, n: i64)
    ensures
        final(s)@ == old(s)@ + decimal(n as int),
{
    if n < 0 {
        s.push('-');
    }
    push_digits(s, magnitude(n));
}

/// How many digits `n` has.
fn digit_count(n: u64) -> (r: usize)
    ensures
        r == digits(n as nat).len(),
        r <= 20,
{
    let mut s = String::new();
    proof {
        lemma_digit_count(n as nat);
    }
    push_digits(&mut s, n);
    let chars = chars_of(s.as_str());
    chars.len()
}

proof fn lemma_digit_count(n: nat)
    requires
        n < 100000000000000000000,
    ensures
        1 <= digits(n).len() <= 20,
{
    reveal_with_fuel(digits, 21);
}

/// Appends `n` in decimal, zero-filled to `width` characters counting the sign.
pub fn push_padded(s: &mut String, n: i64, width: usize)
    requires
        width >= 1,
    ensures
        final(s)@ == old(s)@ + padded(n as int, width as int),
{
    let ghost start = s@;
    let m: u64 = magnitude(n);
    let mut fill: usize = width;
    if n < 0 {
        s.push('-');
        fill = width - 1;
    }
    let ghost signed = s@;
    let len: usize = digit_count(m);
    if len < fill {
        for i in 0..(fill - len)
            invariant
                s@ == signed + Seq::new(i as nat, |k: int| '0'),
        {
            s.push('0');
            assert(s@ =~= signed + Seq::new((i + 1) as nat, |k: int| '0'));
        }
    }
    push_digits(s, m);
    assert(s@ =~= start + padded(n as int, width as int));
}

// --- laws ---

/// Texts are ordered as in a dictionary: by the first character in which they differ, and a text
/// comes before any longer one that begins with it.
pub proof fn law_texts_are_ordered_as_in_a_dictionary(
    common: Seq<char>,
    a: char,
    b: char,
    x: Seq<char>,
    y: Seq<char>,
)
    ensures
        (a as int) < (b as int) ==> text_before(common + seq![a] + x, common + seq![b] + y)
            && !text_before(common + seq![b] + y, common + seq![a] + x),
        text_before(common, common + seq![a] + x),
        !text_before(common + seq![a] + x, common),
    decreases common.len(),
{
    let (p, q) = (common + seq![a] + x, common + seq![b] + y);
    if common.len() > 0 {
        let rest = common.drop_first();
        assert(p.drop_first() =~= rest + seq![a] + x);
        assert(q.drop_first() =~= rest + seq![b] + y);
        law_texts_are_ordered_as_in_a_dictionary(rest, a, b, x, y);
    }
}

/// A text stands in every text that it was written into.
pub proof fn law_parts_are_found(before: Seq<char>, part: Seq<char>, after: Seq<char>)
    ensures
        has_part(before + part + after, part),
{
    let whole = before + part + after;
    assert(whole.subrange(before.len() as int, (before.len() + part.len()) as int) =~= part);
    assert(part_at(whole, part, before.len() as int));
}

proof fn lemma_ascii_counts_bytes(s: Seq<char>, n: int)
    requires
        all_ascii(s),
        0 <= n <= s.len(),
    ensures
        chars_in_bytes(s, n) == Some(n),
    decreases n,
{
    if n > 0 {
        assert((s[0] as int) < 128);
        assert(all_ascii(s.drop_first())) by {
            assert forall|i: int| 0 <= i < s.len() - 1 implies (#[trigger] s.drop_first()[i] as int)
                < 128 by {
                assert((s[i + 1] as int) < 128);
            }
        }
        lemma_ascii_counts_bytes(s.drop_first(), n - 1);
    }
}

/// In ASCII text, bytes are characters.
pub proof fn law_ascii_bytes_are_characters(s: Seq<char>, from: int, to: int)
    requires
        all_ascii(s),
        0 <= from <= to <= s.len(),
    ensures
        byte_range(s, from, to) == Some(s.subrange(from, to)),
{
    lemma_ascii_counts_bytes(s, from);
    lemma_ascii_counts_bytes(s, to);
}

/// Two names that differ only in the case of ASCII letters are the same name, and two ASCII names
/// that differ in anything else are not.
pub proof fn law_names_ignore_case(a: Seq<char>, b: Seq<char>)
    requires
        all_ascii(a),
        all_ascii(b),
    ensures
        same_name(a, b) <==> a.len() == b.len() && forall|i: int|
            0 <= i < a.len() ==> #[trigger] a[i] == b[i] || ('A' <= a[i] <= 'Z' && b[i] as int
                == a[i] as int + 32) || ('A' <= b[i] <= 'Z' && a[i] as int == b[i] as int + 32),
{
    let (x, y) = (ascii_lower(a), ascii_lower(b));
    if same_name(a, b) {
        assert(x.len() == y.len());
        assert forall|i: int| 0 <= i < a.len() implies #[trigger] a[i] == b[i] || ('A' <= a[i]
            <= 'Z' && b[i] as int == a[i] as int + 32) || ('A' <= b[i] <= 'Z' && a[i] as int
            == b[i] as int + 32) by {
            assert(x[i] == y[i]);
        }
    } else if a.len() == b.len() {
        if forall|i: int|
            0 <= i < a.len() ==> #[trigger] a[i] == b[i] || ('A' <= a[i] <= 'Z' && b[i] as int
                == a[i] as int + 32) || ('A' <= b[i] <= 'Z' && a[i] as int == b[i] as int + 32) {
            assert(x =~= y);
        }
    }
}

/// Of ASCII, white space is the blank and the characters from the tab to the carriage return.
/// Beyond it, these are the spaces and separators of the other scripts.
pub proof fn law_white_space_is_blanks_and_breaks(c: char)
    ensures
        (c as int) < 128 ==> (is_white(c) <==> c == ' ' || c == '\t' || c == '\n' || c == '\u{b}'
            || c == '\u{c}' || c == '\r'),
        (c as int) >= 128 ==> (is_white(c) <==> c == '\u{85}' || c == '\u{a0}' || c == '\u{1680}' || (
        '\u{2000}' <= c && c <= '\u{200a}') || c == '\u{2028}' || c == '\u{2029}' || c == '\u{202f}'
            || c == '\u{205f}' || c == '\u{3000}'),
{
}

/// The ASCII capital of a small letter lies 32 before it; nothing else changes, and changing case
/// back and forth leads to the same letter.
pub proof fn law_case_is_a_step_of_32(c: char)
    ensures
        'a' <= c <= 'z' ==> ascii_upper_char(c) as int == c as int - 32,
        !('a' <= c <= 'z') ==> ascii_upper_char(c) == c,
        'A' <= c <= 'Z' ==> ascii_lower_char(c) as int == c as int + 32,
        !('A' <= c <= 'Z') ==> ascii_lower_char(c) == c,
        'a' <= c <= 'z' ==> ascii_lower_char(ascii_upper_char(c)) == c,
        'A' <= c <= 'Z' ==> ascii_upper_char(ascii_lower_char(c)) == c,
{
}

/// An ASCII text changes its case character by character; what another text becomes is left to the
/// Unicode tables.
pub proof fn law_ascii_text_changes_case_by_character(s: Seq<char>, i: int)
    ensures
        all_ascii(s) && 0 <= i < s.len() ==> lowered(s)[i] == ascii_lower_char(s[i]) && raised(s)[i]
            == ascii_upper_char(s[i]),
        all_ascii(s) ==> lowered(s).len() == s.len() && raised(s).len() == s.len(),
        !all_ascii(s) ==> lowered(s) == lowercase_of(s) && raised(s) == uppercase_of(s),
{
}

/// A number is written digit by digit, the highest first: appending a digit to a number that is not
/// zero multiplies it by ten and adds the digit. A negative number has a minus sign in front.
pub proof fn law_numbers_are_written_in_decimal(n: nat, d: nat)
    requires
        d <= 9,
    ensures
        digit(d as int) as int == 48 + d,
        digits(d) == seq![digit(d as int)],
        n > 0 ==> digits(10 * n + d) == digits(n).push(digit(d as int)),
        decimal(n as int) == digits(n),
        n > 0 ==> decimal(-n) == seq!['-'] + digits(n),
{
}

/// Zeros in front fill a text up to its width; one that has it, or more, stays as it is. A minus
/// sign counts to the width and stands before the zeros.
pub proof fn law_zeros_fill_up_to_the_width(s: Seq<char>, width: int, n: nat, i: int)
    ensures
        s.len() >= width ==> zero_filled(s, width) == s,
        s.len() <= width ==> zero_filled(s, width).len() == width,
        s.len() <= width && 0 <= i < width - s.len() ==> zero_filled(s, width)[i] == '0',
        s.len() <= width && width - s.len() <= i < width ==> zero_filled(s, width)[i] == s[i - (width
            - s.len())],
        padded(n as int, width) == zero_filled(digits(n), width),
        n > 0 ==> padded(-n, width) == seq!['-'] + zero_filled(digits(n), width - 1),
{
}

/// A character takes one byte up to 0x7f, two up to 0x7ff, three up to 0xffff and four beyond.
pub proof fn law_characters_take_one_to_four_bytes(c: char)
    ensures
        (c as int) <= 0x7f ==> utf8_width(c) == 1,
        0x80 <= c as int <= 0x7ff ==> utf8_width(c) == 2,
        0x800 <= c as int <= 0xffff ==> utf8_width(c) == 3,
        c as int >= 0x1_0000 ==> utf8_width(c) == 4,
{
}

} // verus!
