//! Text helpers: comparison, trimming, decimal numbers and small formatting pieces.

use vstd::prelude::*;
use vstd::string::*;
use vstd::utf8::*;

verus! {

/// `String::push` appends the given character to the end of the string.
pub assume_specification[ String::push ](s: &mut String, c: char)
    ensures
        final(s)@ == old(s)@.push(c),
;

/// Whether two texts hold the same characters.
pub fn same_text(a: &str, b: &str) -> (same: bool)
    ensures
        same == (a@ == b@),
{
    let x = a.as_bytes();
    let y = b.as_bytes();
    proof {
        encode_utf8_decode_utf8(a@);
        encode_utf8_decode_utf8(b@);
    }
    if x.len() != y.len() {
        return false;
    }
    let mut i: usize = 0;
    while i < x.len()
        invariant
            x@ == a.spec_bytes(),
            y@ == b.spec_bytes(),
            x.len() == y.len(),
            i <= x.len(),
            forall|j: int| 0 <= j < i ==> x@[j] == y@[j],
        decreases x.len() - i,
    {
        if x[i] != y[i] {
            return false;
        }
        i = i + 1;
    }
    assert(x@ =~= y@);
    true
}

/// The characters of a text, one by one.
pub fn chars_of(s: &str) -> (v: Vec<char>)
    ensures
        v@ == s@,
{
    let mut v: Vec<char> = Vec::new();
    for c in it: s.chars()
        invariant
            it.seq() == s@,
            v@ == s@.take(it.index() as int),
    {
        v.push(c);
    }
    assert(s@.take(s@.len() as int) =~= s@);
    v
}

/// The text made of the characters `from..to` of `chars`.
pub fn text_of(chars: &Vec<char>, from: usize, to: usize) -> (s: String)
    requires
        from <= to <= chars.len(),
    ensures
        s@ == chars@.subrange(from as int, to as int),
{
    let mut s = String::new();
    let mut i: usize = from;
    while i < to
        invariant
            from <= i <= to <= chars.len(),
            s@ == chars@.subrange(from as int, i as int),
        decreases to - i,
    {
        s.push(chars[i]);
        assert(chars@.subrange(from as int, i as int).push(chars@[i as int]) =~= chars@.subrange(
            from as int,
            i + 1,
        ));
        i = i + 1;
    }
    s
}

/// The view of an optional text.
pub open spec fn opt_text(s: Option<String>) -> Option<Seq<char>> {
    match s {
        Some(t) => Some(t@),
        None => None,
    }
}

/// A copy of an optional text.
pub fn copy_text(s: &Option<String>) -> (r: Option<String>)
    ensures
        opt_text(r) == opt_text(*s),
{
    match s {
        Some(t) => Some(t.clone()),
        None => None,
    }
}

/// `a` followed by `b`.
pub fn join2(a: &str, b: &str) -> (s: String)
    ensures
        s@ == a@ + b@,
{
    let mut s = a.to_string();
    s.append(b);
    s
}

/// `a`, `b` and `c`, one after the other.
pub fn join3(a: &str, b: &str, c: &str) -> (s: String)
    ensures
        s@ == a@ + b@ + c@,
{
    let mut s = join2(a, b);
    s.append(c);
    s
}

/// Whether `s` begins with `prefix`.
pub fn starts_with(s: &str, prefix: &str) -> (r: bool)
    ensures
        r == prefix@.is_prefix_of(s@),
{
    let x = chars_of(s);
    let p = chars_of(prefix);
    if p.len() > x.len() {
        return false;
    }
    let mut i: usize = 0;
    while i < p.len()
        invariant
            x@ == s@,
            p@ == prefix@,
            p.len() <= x.len(),
            i <= p.len(),
            forall|j: int| 0 <= j < i ==> p@[j] == x@[j],
        decreases p.len() - i,
    {
        if x[i] != p[i] {
            assert(prefix@[i as int] != s@.subrange(0, prefix@.len() as int)[i as int]);
            return false;
        }
        i = i + 1;
    }
    assert(prefix@ =~= s@.subrange(0, prefix@.len() as int));
    true
}

// ---------------------------------------------------------------------------------------------
// Places
// ---------------------------------------------------------------------------------------------

/// The place of the first `c`; the length of the text if there is none.
pub open spec fn first_place(s: Seq<char>, c: char) -> int
    decreases s.len(),
{
    if s.len() == 0 || s[0] == c {
        0
    } else {
        1 + first_place(s.drop_first(), c)
    }
}

/// No `c` stands before the first place of `c`.
pub proof fn lemma_first_place(s: Seq<char>, c: char, at: int)
    requires
        0 <= at <= s.len(),
        forall|i: int| 0 <= i < at ==> s[i] != c,
        at < s.len() ==> s[at] == c,
    ensures
        first_place(s, c) == at,
    decreases s.len(),
{
    if at > 0 {
        let rest = s.drop_first();
        assert forall|i: int| 0 <= i < at - 1 implies rest[i] != c by {
            assert(rest[i] == s[i + 1]);
        }
        lemma_first_place(rest, c, at - 1);
    }
}

/// The first place of `c` at or after `from`; the length of the text if there is none.
pub fn find_from(x: &Vec<char>, from: usize, c: char) -> (at: usize)
    requires
        from <= x.len(),
    ensures
        from <= at <= x.len(),
        at - from == first_place(x@.skip(from as int), c),
{
    let mut at: usize = from;
    while at < x.len() && x[at] != c
        invariant
            from <= at <= x.len(),
            forall|i: int| from <= i < at ==> x@[i] != c,
        decreases x.len() - at,
    {
        at = at + 1;
    }
    proof {
        let s = x@.skip(from as int);
        assert forall|i: int| 0 <= i < at - from implies s[i] != c by {
            assert(s[i] == x@[from + i]);
        }
        assert(at < x.len() ==> s[at - from] == x@[at as int]);
        lemma_first_place(s, c, at - from);
    }
    at
}

// ---------------------------------------------------------------------------------------------
// White space
// ---------------------------------------------------------------------------------------------

/// The characters with the Unicode property `White_Space`.
pub open spec fn white_space(c: char) -> bool {
    ||| '\u{9}' <= c <= '\u{d}'
    ||| c == ' '
    ||| c == '\u{85}'
    ||| c == '\u{a0}'
    ||| c == '\u{1680}'
    ||| '\u{2000}' <= c <= '\u{200a}'
    ||| c == '\u{2028}'
    ||| c == '\u{2029}'
    ||| c == '\u{202f}'
    ||| c == '\u{205f}'
    ||| c == '\u{3000}'
}

pub fn is_white_space(c: char) -> (r: bool)
    ensures
        r == white_space(c),
{
    let u: u32 = c as u32;
    (0x9 <= u && u <= 0xd) || u == 0x20 || u == 0x85 || u == 0xa0 || u == 0x1680 || (0x2000 <= u
        && u <= 0x200a) || u == 0x2028 || u == 0x2029 || u == 0x202f || u == 0x205f || u == 0x3000
}

/// A text without any character other than white space.
pub open spec fn blank(s: Seq<char>) -> bool {
    forall|i: int| 0 <= i < s.len() ==> white_space(#[trigger] s[i])
}

/// Whether nothing but white space stands in `s`.
pub fn is_blank(s: &str) -> (r: bool)
    ensures
        r == blank(s@),
{
    let x = chars_of(s);
    let mut i: usize = 0;
    while i < x.len()
        invariant
            x@ == s@,
            i <= x.len(),
            forall|j: int| 0 <= j < i ==> white_space(#[trigger] s@[j]),
        decreases x.len() - i,
    {
        if !is_white_space(x[i]) {
            assert(!white_space(s@[i as int]));
            return false;
        }
        i = i + 1;
    }
    true
}

/// `s` without the white space at either end.
pub open spec fn trimmed(s: Seq<char>) -> Seq<char>
    decreases s.len(),
{
    if s.len() > 0 && white_space(s.first()) {
        trimmed(s.drop_first())
    } else if s.len() > 0 && white_space(s.last()) {
        trimmed(s.drop_last())
    } else {
        s
    }
}

/// A text is blank exactly when trimming leaves nothing of it.
pub proof fn law_blank_iff_trimmed_to_nothing(s: Seq<char>)
    ensures
        blank(s) <==> trimmed(s).len() == 0,
    decreases s.len(),
{
    if s.len() > 0 && white_space(s.first()) {
        law_blank_iff_trimmed_to_nothing(s.drop_first());
        assert forall|i: int| blank(s.drop_first()) && 0 <= i < s.len() implies white_space(
            #[trigger] s[i],
        ) by {
            if i > 0 {
                assert(white_space(s.drop_first()[i - 1]));
            }
        }
        assert(blank(s) ==> blank(s.drop_first()));
    } else if s.len() > 0 && white_space(s.last()) {
        assert(!white_space(s[0]));
        law_blank_iff_trimmed_to_nothing(s.drop_last());
        assert(s.drop_last().len() > 0);
        assert(s.drop_last()[0] == s[0]);
    } else if s.len() > 0 {
        assert(!white_space(s[0]));
    }
}

/// Removes the white space at either end.
pub fn trim(s: &str) -> (r: String)
    ensures
        r@ == trimmed(s@),
{
    let x = chars_of(s);
    let mut from: usize = 0;
    let mut to: usize = x.len();
    assert(s@.subrange(0, s@.len() as int) =~= s@);
    while from < to && is_white_space(x[from])
        invariant
            x@ == s@,
            from <= to,
            to == x.len(),
            trimmed(s@) == trimmed(s@.subrange(from as int, to as int)),
        decreases to - from,
    {
        assert(s@.subrange(from as int, to as int).drop_first() =~= s@.subrange(
            from + 1,
            to as int,
        ));
        from = from + 1;
    }
    while from < to && is_white_space(x[to - 1])
        invariant
            x@ == s@,
            from <= to <= x.len(),
            from < to ==> !white_space(s@[from as int]),
            trimmed(s@) == trimmed(s@.subrange(from as int, to as int)),
        decreases to - from,
    {
        assert(s@.subrange(from as int, to as int).drop_last() =~= s@.subrange(
            from as int,
            to - 1,
        ));
        to = to - 1;
    }
    text_of(&x, from, to)
}

/// The text without the characters `c` at its beginning.
pub open spec fn without_leading(s: Seq<char>, c: char) -> Seq<char>
    decreases s.len(),
{
    if s.len() > 0 && s[0] == c {
        without_leading(s.drop_first(), c)
    } else {
        s
    }
}

/// The text without the characters `c` at its end.
pub open spec fn without_trailing(s: Seq<char>, c: char) -> Seq<char>
    decreases s.len(),
{
    if s.len() > 0 && s.last() == c {
        without_trailing(s.drop_last(), c)
    } else {
        s
    }
}

/// Takes the characters `c` away at the beginning.
pub fn trim_start_of(s: &str, c: char) -> (r: String)
    ensures
        r@ == without_leading(s@, c),
{
    let x = chars_of(s);
    let mut from: usize = 0;
    assert(x@.skip(0) =~= x@);
    while from < x.len() && x[from] == c
        invariant
            from <= x.len(),
            x@ == s@,
            without_leading(s@, c) == without_leading(x@.skip(from as int), c),
        decreases x.len() - from,
    {
        assert(x@.skip(from as int)[0] == x@[from as int]);
        assert(x@.skip(from as int).drop_first() =~= x@.skip(from + 1));
        from = from + 1;
    }
    assert(from < x.len() ==> x@.skip(from as int)[0] == x@[from as int]);
    assert(x@.subrange(from as int, x.len() as int) =~= x@.skip(from as int));
    text_of(&x, from, x.len())
}

/// Takes the characters `c` away at the end.
pub fn trim_end_of(s: &str, c: char) -> (r: String)
    ensures
        r@ == without_trailing(s@, c),
{
    let x = chars_of(s);
    let mut to: usize = x.len();
    assert(x@.take(to as int) =~= x@);
    while to > 0 && x[to - 1] == c
        invariant
            to <= x.len(),
            x@ == s@,
            without_trailing(s@, c) == without_trailing(x@.take(to as int), c),
        decreases to,
    {
        assert(x@.take(to as int).last() == x@[to - 1]);
        assert(x@.take(to as int).drop_last() =~= x@.take(to - 1));
        to = to - 1;
    }
    assert(to > 0 ==> x@.take(to as int).last() == x@[to - 1]);
    assert(x@.subrange(0, to as int) =~= x@.take(to as int));
    text_of(&x, 0, to)
}

// ---------------------------------------------------------------------------------------------
// Decimal numbers
// ---------------------------------------------------------------------------------------------

/// The character of a decimal digit.
pub open spec fn digit_char(d: nat) -> char {
    ('0' as nat + d) as char
}

/// The decimal digits of `n`, without leading zeros.
pub open spec fn decimal(n: nat) -> Seq<char>
    decreases n,
{
    if n < 10 {
        seq![digit_char(n)]
    } else {
        decimal(n / 10).push(digit_char(n % 10))
    }
}

/// The decimal form of an integer of either sign.
pub open spec fn signed_decimal(n: int) -> Seq<char> {
    if n < 0 {
        seq!['-'] + decimal((-n) as nat)
    } else {
        decimal(n as nat)
    }
}

/// Appends the decimal digits of `n` to `out`.
pub fn push_decimal(out: &mut String, n: u64)
    ensures
        final(out)@ == old(out)@ + decimal(n as nat),
    decreases n,
{
    if n >= 10 {
        push_decimal(out, n / 10);
    }
    let d: u64 = n % 10;
    out.push((48u8 + d as u8) as char);
    assert(out@ =~= old(out)@ + decimal(n as nat));
}

/// The decimal digits of `n`.
pub fn decimal_text(n: u64) -> (s: String)
    ensures
        s@ == decimal(n as nat),
{
    let mut s = String::new();
    push_decimal(&mut s, n);
    assert(s@ =~= decimal(n as nat));
    s
}

/// The decimal form of `n`.
pub fn signed_text(n: i64) -> (s: String)
    ensures
        s@ == signed_decimal(n as int),
{
    if n < 0 {
        let mut s = String::new();
        s.push('-');
        let magnitude: u64 = (-(n as i128)) as u64;
        push_decimal(&mut s, magnitude);
        assert(s@ =~= signed_decimal(n as int));
        s
    } else {
        decimal_text(n as u64)
    }
}

pub open spec fn is_digit(c: char) -> bool {
    '0' <= c <= '9'
}

/// The number that a sequence of decimal digits stands for.
pub open spec fn digits_value(s: Seq<char>) -> nat
    decreases s.len(),
{
    if s.len() == 0 {
        0
    } else {
        digits_value(s.drop_last()) * 10 + (s.last() as nat - '0' as nat) as nat
    }
}

/// The number that a text stands for: one or more decimal digits, which a plus sign may precede.
pub open spec fn unsigned_value(s: Seq<char>) -> Option<nat> {
    if all_digits(without_plus(s)) {
        Some(digits_value(without_plus(s)))
    } else {
        None
    }
}

pub open spec fn without_plus(s: Seq<char>) -> Seq<char> {
    if s.len() > 0 && s[0] == '+' {
        s.drop_first()
    } else {
        s
    }
}

/// One or more decimal digits and nothing else.
pub open spec fn all_digits(s: Seq<char>) -> bool {
    s.len() > 0 && forall|i: int| 0 <= i < s.len() ==> is_digit(#[trigger] s[i])
}

/// The number that `s` stands for, if it is one and does not exceed `max`.
pub open spec fn unsigned_within(s: Seq<char>, max: nat) -> Option<nat> {
    match unsigned_value(s) {
        Some(v) => if v <= max {
            Some(v)
        } else {
            None
        },
        None => None,
    }
}

proof fn lemma_digits_value_prefix(s: Seq<char>, i: int)
    requires
        0 <= i <= s.len(),
    ensures
        digits_value(s.take(i)) <= digits_value(s),
    decreases s.len() - i,
{
    if i < s.len() {
        lemma_digits_value_prefix(s, i + 1);
        assert(s.take(i + 1).drop_last() =~= s.take(i));
    } else {
        assert(s.take(i) =~= s);
    }
}

/// Reads an unsigned number that does not exceed `max`.
pub fn parse_unsigned(s: &str, max: u64) -> (r: Option<u64>)
    ensures
        r == (match unsigned_within(s@, max as nat) {
            Some(v) => Some(v as u64),
            None => None::<u64>,
        }),
{
    let x = chars_of(s);
    let mut i: usize = 0;
    if x.len() > 0 && x[0] == '+' {
        i = 1;
    }
    let from: usize = i;
    let ghost digits = without_plus(s@);
    assert(digits =~= s@.subrange(from as int, s@.len() as int));
    if i == x.len() {
        return None;
    }
    let mut value: u64 = 0;
    let mut fits: bool = true;
    while i < x.len()
        invariant
            x@ == s@,
            from <= i <= x.len(),
            digits == without_plus(s@),
            digits == s@.subrange(from as int, s@.len() as int),
            forall|j: int| 0 <= j < i - from ==> is_digit(#[trigger] digits[j]),
            fits ==> value == digits_value(digits.take(i - from)) && value <= max,
            !fits ==> digits_value(digits) > max,
        decreases x.len() - i,
    {
        let c = x[i];
        assert(digits[i - from] == c);
        if !(c >= '0' && c <= '9') {
            assert(!is_digit(digits[i - from]));
            return None;
        }
        let d: u64 = (c as u32 - 48) as u64;
        proof {
            assert(digits.take(i - from + 1).drop_last() =~= digits.take(i - from));
            lemma_digits_value_prefix(digits, i - from + 1);
        }
        if fits {
            let wide: u128 = value as u128 * 10 + d as u128;
            if wide > max as u128 {
                fits = false;
            } else {
                value = wide as u64;
            }
        }
        i = i + 1;
    }
    assert(digits.take(digits.len() as int) =~= digits);
    if fits {
        Some(value)
    } else {
        None
    }
}

/// Reading back the decimal digits of a number gives that number.
pub proof fn law_decimal_round_trip(n: nat)
    ensures
        unsigned_value(decimal(n)) == Some(n),
    decreases n,
{
    lemma_decimal(n);
    assert(decimal(n)[0] != '+');
}

/// The decimal digits of a number have no white space around them.
pub proof fn law_decimal_is_trimmed(n: nat)
    ensures
        trimmed(decimal(n)) == decimal(n),
{
    lemma_decimal(n);
    let s = decimal(n);
    assert(is_digit(s[0]));
    assert(is_digit(s[s.len() - 1]));
}

proof fn lemma_decimal(n: nat)
    ensures
        all_digits(decimal(n)),
        digits_value(decimal(n)) == n,
    decreases n,
{
    if n < 10 {
        assert(decimal(n).drop_last() =~= Seq::<char>::empty());
        assert(digits_value(Seq::<char>::empty()) == 0);
    } else {
        lemma_decimal(n / 10);
        assert(decimal(n).drop_last() =~= decimal(n / 10));
    }
}

// ---------------------------------------------------------------------------------------------
// Letter case and quoting
// ---------------------------------------------------------------------------------------------

/// The lower-case form of an ASCII letter; any other character as it is.
pub open spec fn lower(c: char) -> char {
    if 'A' <= c <= 'Z' {
        (c as nat + 32) as char
    } else {
        c
    }
}

/// Replaces the ASCII capitals by their lower-case forms.
pub fn to_ascii_lowercase(s: &str) -> (r: String)
    ensures
        r@ == s@.map_values(|c: char| lower(c)),
{
    let x = chars_of(s);
    let mut r = String::new();
    let mut i: usize = 0;
    let ghost low = s@.map_values(|c: char| lower(c));
    while i < x.len()
        invariant
            x@ == s@,
            i <= x.len(),
            low == s@.map_values(|c: char| lower(c)),
            r@ == low.take(i as int),
        decreases x.len() - i,
    {
        let c = x[i];
        if c >= 'A' && c <= 'Z' {
            r.push((c as u8 + 32) as char);
        } else {
            r.push(c);
        }
        assert(low.take(i as int).push(low[i as int]) =~= low.take(i + 1));
        i = i + 1;
    }
    assert(low.take(low.len() as int) =~= low);
    r
}

/// What `{:?}` prints of a text: the text in double quotes, with its special characters escaped.
pub uninterp spec fn debug_quoted(s: Seq<char>) -> Seq<char>;

/// Calls the `Debug` formatting of `str`. What it prints is a function of the text, which
/// `debug_quoted` names.
#[verifier::external_body]
pub(crate) fn quoted(s: &str) -> (r: String)
    ensures
        r@ == debug_quoted(s@),
{
    format!("{s:?}")
}

/// Trimming takes white space away at both ends and nothing else: what is left stands between two
/// places, what is taken away is white space, and what is left neither begins nor ends with it.
pub proof fn law_trimming_takes_white_space_at_the_ends(s: Seq<char>) -> (cut: (int, int))
    ensures
        0 <= cut.0 <= cut.1 <= s.len(),
        trimmed(s) == s.subrange(cut.0, cut.1),
        forall|i: int| 0 <= i < cut.0 ==> white_space(#[trigger] s[i]),
        forall|i: int| cut.1 <= i < s.len() ==> white_space(#[trigger] s[i]),
        trimmed(s).len() > 0 ==> !white_space(trimmed(s).first()) && !white_space(trimmed(s).last()),
    decreases s.len(),
{
    if s.len() > 0 && white_space(s.first()) {
        let rest = s.drop_first();
        let (from, to) = law_trimming_takes_white_space_at_the_ends(rest);
        assert(s.subrange(from + 1, to + 1) =~= rest.subrange(from, to));
        assert forall|i: int| 0 <= i < from + 1 implies white_space(#[trigger] s[i]) by {
            assert(i > 0 ==> white_space(rest[i - 1]));
        }
        assert forall|i: int| to + 1 <= i < s.len() implies white_space(#[trigger] s[i]) by {
            assert(white_space(rest[i - 1]));
        }
        (from + 1, to + 1)
    } else if s.len() > 0 && white_space(s.last()) {
        let rest = s.drop_last();
        let (from, to) = law_trimming_takes_white_space_at_the_ends(rest);
        assert(s.subrange(from, to) =~= rest.subrange(from, to));
        assert forall|i: int| 0 <= i < from implies white_space(#[trigger] s[i]) by {
            assert(white_space(rest[i]));
        }
        assert forall|i: int| to <= i < s.len() implies white_space(#[trigger] s[i]) by {
            assert(i < rest.len() ==> white_space(rest[i]));
        }
        (from, to)
    } else {
        assert(s.subrange(0, s.len() as int) =~= s);
        (0, s.len() as int)
    }
}

/// Among the ASCII characters, the tab, the ends of lines, and the space are white space.
pub proof fn law_ascii_white_space(c: char)
    requires
        (c as u32) < 128,
    ensures
        white_space(c) <==> 9 <= c as u32 <= 13 || c as u32 == 32,
{
}

/// The first place of a character holds that character, and none before it does. A text that does not
/// hold it has it at its end.
pub proof fn law_first_places_come_first(s: Seq<char>, c: char)
    ensures
        0 <= first_place(s, c) <= s.len(),
        first_place(s, c) < s.len() ==> s[first_place(s, c)] == c,
        forall|i: int| 0 <= i < first_place(s, c) ==> #[trigger] s[i] != c,
    decreases s.len(),
{
    if s.len() > 0 && s[0] != c {
        let rest = s.drop_first();
        law_first_places_come_first(rest, c);
        assert forall|i: int| 0 <= i < first_place(s, c) implies #[trigger] s[i] != c by {
            if i > 0 {
                assert(rest[i - 1] == s[i]);
            }
        }
    }
}

/// Digits stand for numbers place by place: each further digit counts once, and those before it ten
/// times as much. A plus sign before them changes nothing; a text without a digit is no number.
pub proof fn law_digits_count_by_tens(s: Seq<char>, d: u8)
    requires
        d < 10,
        all_digits(s),
    ensures
        all_digits(s.push((48 + d) as char)),
        unsigned_value(s.push((48 + d) as char)) == Some((unsigned_value(s)->0 * 10 + d) as nat),
        unsigned_value(seq!['+'] + s) == unsigned_value(s),
        unsigned_value(seq![]) is None,
        unsigned_value(seq!['-'] + s) is None,
{
    let c = (48 + d) as char;
    let longer = s.push(c);
    assert(is_digit(c));
    assert forall|i: int| 0 <= i < longer.len() implies is_digit(#[trigger] longer[i]) by {
        if i < s.len() {
            assert(is_digit(s[i]));
        }
    }
    assert(is_digit(s[0]));
    assert(longer[0] == s[0]);
    assert(longer.drop_last() =~= s);
    assert((seq!['+'] + s).drop_first() =~= s);
    let minus = seq!['-'] + s;
    assert(!is_digit(minus[0]));
}

} // verus!
