//! Text helpers: numbers as text, characters, comparison and joining.

use vstd::prelude::*;
#[allow(unused_imports)]
use vstd::utf8::{decode_utf8, encode_utf8_decode_utf8, valid_utf8};

verus! {

/// `String::push` appends one character.
pub assume_specification[ String::push ](s: &mut String, c: char)
    ensures
        final(s)@ == old(s)@.push(c),
;

/// The two texts are the same, character for character: their UTF-8 bytes are.
pub(crate) fn same(a: &str, b: &str) -> (r: bool)
    ensures
        r == (a@ == b@),
{
    proof {
        encode_utf8_decode_utf8(a@);
        encode_utf8_decode_utf8(b@);
    }
    same_bytes(a.as_bytes(), b.as_bytes())
}

/// The two byte strings are the same.
pub(crate) fn same_bytes(a: &[u8], b: &[u8]) -> (r: bool)
    ensures
        r == (a@ == b@),
{
    if a.len() != b.len() {
        return false;
    }
    let mut i: usize = 0;
    while i < a.len()
        invariant
            i <= a@.len(),
            a@.len() == b@.len(),
            forall|k: int| 0 <= k < i ==> #[trigger] a@[k] == b@[k],
        decreases a@.len() - i,
    {
        if a[i] != b[i] {
            return false;
        }
        i = i + 1;
    }
    assert(a@ =~= b@);
    true
}

/// Whether `c` is one of `0` to `9`.
pub open spec fn is_digit(c: char) -> bool {
    '0' <= c && c <= '9'
}

/// The character for a value below ten.
pub open spec fn digit(d: int) -> char
    recommends
        0 <= d < 10,
{
    (48 + d) as char
}

/// What a digit is worth.
pub open spec fn digit_value(c: char) -> nat
    recommends
        is_digit(c),
{
    (c as int - 48) as nat
}

/// A natural number in decimal, without leading zeros.
pub open spec fn decimal(n: nat) -> Seq<char>
    decreases n,
{
    if n < 10 {
        seq![digit(n as int)]
    } else {
        decimal(n / 10).push(digit((n % 10) as int))
    }
}

/// An integer in decimal, with a leading `-` when it is negative.
pub open spec fn integer(i: int) -> Seq<char> {
    if i < 0 {
        seq!['-'] + decimal((-i) as nat)
    } else {
        decimal(i as nat)
    }
}

/// Whether a text is one or more digits and nothing else.
pub open spec fn all_digits(s: Seq<char>) -> bool {
    s.len() > 0 && forall|i: int| 0 <= i < s.len() ==> is_digit(#[trigger] s[i])
}

/// What a text of digits is worth.
pub open spec fn digits_value(s: Seq<char>) -> nat
    decreases s.len(),
{
    if s.len() == 0 {
        0
    } else {
        10 * digits_value(s.drop_last()) + digit_value(s.last())
    }
}

/// The natural number that a text of digits spells.
pub open spec fn read_natural(s: Seq<char>) -> Option<nat> {
    if all_digits(s) {
        Some(digits_value(s))
    } else {
        None
    }
}

/// The integer that a text spells: digits, with a `-` in front or without.
pub open spec fn read_integer(s: Seq<char>) -> Option<int> {
    if s.len() > 0 && s[0] == '-' {
        match read_natural(s.skip(1)) {
            Some(n) => Some(-(n as int)),
            None => None,
        }
    } else {
        match read_natural(s) {
            Some(n) => Some(n as int),
            None => None,
        }
    }
}

/// A natural number in hexadecimal with lower-case letters, without leading
/// zeros.
pub open spec fn hexadecimal(n: nat) -> Seq<char>
    decreases n,
{
    if n < 16 {
        seq![hex_digit(n as int)]
    } else {
        hexadecimal(n / 16).push(hex_digit((n % 16) as int))
    }
}

/// The character for a value below sixteen.
pub open spec fn hex_digit(d: int) -> char
    recommends
        0 <= d < 16,
{
    if d < 10 {
        (48 + d) as char
    } else {
        (87 + d) as char
    }
}

/// Two hexadecimal characters for each byte.
pub open spec fn hex_text(bytes: Seq<u8>) -> Seq<char> {
    Seq::new(
        2 * bytes.len(),
        |i: int| hex_digit(if i % 2 == 0 { bytes[i / 2] as int / 16 } else { bytes[i / 2] as int % 16 }),
    )
}

proof fn decimal_shape(n: nat)
    ensures
        all_digits(decimal(n)),
        digits_value(decimal(n)) == n,
        decimal(n).len() > 1 ==> decimal(n)[0] != '0',
        n > 0 ==> decimal(n)[0] != '0',
    decreases n,
{
    reveal_with_fuel(digits_value, 2);
    if n >= 10 {
        decimal_shape(n / 10);
        let head = decimal(n / 10);
        assert(decimal(n).drop_last() =~= head);
        assert(decimal(n)[0] == head[0]);
    } else {
        assert(decimal(n).drop_last() =~= Seq::<char>::empty());
    }
}

/// A number written in decimal reads back as itself, whether it is negative or
/// not, and has no leading zero.
pub proof fn decimal_reads_back(i: int)
    ensures
        read_integer(integer(i)) == Some(i),
        i >= 0 ==> read_natural(integer(i)) == Some(i as nat),
        i >= 0 ==> all_digits(integer(i)),
        i < 0 ==> integer(i)[0] == '-' && all_digits(integer(i).skip(1)),
        i >= 0 && integer(i).len() > 1 ==> integer(i)[0] != '0',
        i < 0 ==> integer(i)[1] != '0',
{
    if i < 0 {
        decimal_shape((-i) as nat);
        assert(integer(i).skip(1) =~= decimal((-i) as nat));
    } else {
        decimal_shape(i as nat);
    }
}

proof fn hexadecimal_nonempty(n: nat)
    ensures
        hexadecimal(n).len() > 0,
    decreases n,
{
    if n >= 16 {
        hexadecimal_nonempty(n / 16);
    }
}

/// Different numbers have different hexadecimal texts.
pub proof fn hexadecimal_injective(a: nat, b: nat)
    requires
        hexadecimal(a) == hexadecimal(b),
    ensures
        a == b,
    decreases a,
{
    hexadecimal_nonempty(a / 16);
    hexadecimal_nonempty(b / 16);
    let s = hexadecimal(a);
    let t = hexadecimal(b);
    assert(s.last() == hex_digit((a % 16) as int));
    assert(t.last() == hex_digit((b % 16) as int));
    if a >= 16 {
        assert(s.drop_last() =~= hexadecimal(a / 16));
        assert(s.len() > 1);
        assert(b >= 16);
        assert(t.drop_last() =~= hexadecimal(b / 16));
        hexadecimal_injective(a / 16, b / 16);
    } else {
        assert(s.len() == 1);
        assert(b < 16) by {
            if b >= 16 {
                assert(t.len() > 1);
            }
        }
    }
}

fn digit_char(d: u8) -> (c: char)
    requires
        d < 10,
    ensures
        c == digit(d as int),
{
    (48 + d) as char
}

fn hex_char(d: u8) -> (c: char)
    requires
        d < 16,
    ensures
        c == hex_digit(d as int),
{
    if d < 10 {
        (48 + d) as char
    } else {
        (87 + d) as char
    }
}

/// Appends a natural number in decimal.
pub fn push_decimal(out: &mut String, n: u128)
    ensures
        final(out)@ == old(out)@ + decimal(n as nat),
    decreases n,
{
    if n >= 10 {
        push_decimal(out, n / 10);
    }
    out.push(digit_char((n % 10) as u8));
    assert(out@ =~= old(out)@ + decimal(n as nat));
}

/// A natural number in decimal.
pub fn decimal_text(n: u128) -> (s: String)
    ensures
        s@ == decimal(n as nat),
{
    let mut out = String::new();
    push_decimal(&mut out, n);
    assert(out@ =~= decimal(n as nat));
    out
}

/// An integer in decimal.
pub fn integer_text(i: i128) -> (s: String)
    ensures
        s@ == integer(i as int),
{
    let mut out = String::new();
    if i < 0 {
        out.push('-');
        if i == i128::MIN {
            push_decimal(&mut out, 0x8000_0000_0000_0000_0000_0000_0000_0000u128);
        } else {
            push_decimal(&mut out, (-i) as u128);
        }
    } else {
        push_decimal(&mut out, i as u128);
    }
    assert(out@ =~= integer(i as int));
    out
}

/// Appends a natural number in hexadecimal.
pub fn push_hexadecimal(out: &mut String, n: u64)
    ensures
        final(out)@ == old(out)@ + hexadecimal(n as nat),
    decreases n,
{
    if n >= 16 {
        push_hexadecimal(out, n / 16);
    }
    out.push(hex_char((n % 16) as u8));
    assert(out@ =~= old(out)@ + hexadecimal(n as nat));
}

/// Lower-case hexadecimal text of some bytes.
pub fn hex(bytes: &[u8]) -> (s: String)
    ensures
        s@ == hex_text(bytes@),
{
    let mut out = String::new();
    let mut i: usize = 0;
    while i < bytes.len()
        invariant
            i <= bytes@.len(),
            out@ == hex_text(bytes@.take(i as int)),
        decreases bytes@.len() - i,
    {
        let b: u8 = bytes[i];
        out.push(hex_char(b / 16));
        out.push(hex_char(b % 16));
        assert(out@ =~= hex_text(bytes@.take(i + 1)));
        i = i + 1;
    }
    assert(bytes@.take(i as int) =~= bytes@);
    out
}

/// The characters of a text, in order.
pub fn characters(s: &str) -> (r: Vec<char>)
    ensures
        r@ == s@,
{
    let mut out: Vec<char> = Vec::new();
    for c in it: s.chars()
        invariant
            out@ == it.seq().take(it.index() as int),
            it.seq() == s@,
    {
        out.push(c);
        assert(out@ =~= it.seq().take(it.index() as int + 1));
    }
    assert(out@ =~= s@);
    out
}

/// Reads a natural number no larger than `max`.
pub fn parse_natural(s: &str, max: u128) -> (r: Option<u128>)
    ensures
        r == (match read_natural(s@) {
            Some(n) => if n <= max { Some(n as u128) } else { None::<u128> },
            None => None::<u128>,
        }),
{
    let chars = characters(s);
    assert(chars@.skip(0) =~= chars@);
    parse_digits(&chars, 0, max)
}

fn parse_digits(chars: &Vec<char>, from: usize, max: u128) -> (r: Option<u128>)
    requires
        from <= chars@.len(),
    ensures
        r == (match read_natural(chars@.skip(from as int)) {
            Some(n) => if n <= max { Some(n as u128) } else { None::<u128> },
            None => None::<u128>,
        }),
{
    let ghost s = chars@.skip(from as int);
    if from == chars.len() {
        return None;
    }
    let mut value: u128 = 0;
    let mut over: bool = false;
    let mut i: usize = from;
    while i < chars.len()
        invariant
            from <= i <= chars@.len(),
            s == chars@.skip(from as int),
            forall|k: int| 0 <= k < i - from ==> is_digit(#[trigger] s[k]),
            over ==> digits_value(s.take(i - from)) > max,
            !over ==> value == digits_value(s.take(i - from)) && value <= max,
        decreases chars@.len() - i,
    {
        let c = chars[i];
        assert(s[i - from] == c);
        if !(c >= '0' && c <= '9') {
            return None;
        }
        assert(s.take(i + 1 - from).drop_last() =~= s.take(i - from));
        assert(s.take(i + 1 - from).last() == c);
        let d: u128 = (c as u32 - 48) as u128;
        if !over {
            if d > max || value > max / 10 || 10 * value > max - d {
                over = true;
            } else {
                value = 10 * value + d;
            }
        }
        i = i + 1;
    }
    assert(s.take(i - from) =~= s);
    if over {
        None
    } else {
        Some(value)
    }
}

/// Reads an integer in the range of an `i64`.
pub fn parse_i64(s: &str) -> (r: Option<i64>)
    ensures
        r == (match read_integer(s@) {
            Some(n) => if i64::MIN <= n <= i64::MAX { Some(n as i64) } else { None::<i64> },
            None => None::<i64>,
        }),
{
    let chars = characters(s);
    if chars.len() > 0 && chars[0] == '-' {
        match parse_digits(&chars, 1, 0x8000_0000_0000_0000u128) {
            Some(n) => {
                if n == 0x8000_0000_0000_0000u128 {
                    Some(i64::MIN)
                } else {
                    Some(-(n as i64))
                }
            },
            None => None,
        }
    } else {
        assert(chars@.skip(0) =~= chars@);
        match parse_digits(&chars, 0, 0x7fff_ffff_ffff_ffffu128) {
            Some(n) => Some(n as i64),
            None => None,
        }
    }
}

/// Joins two texts.
pub fn join(a: &str, b: &str) -> (s: String)
    ensures
        s@ == a@ + b@,
{
    let mut out = a.to_owned();
    out.append(b);
    out
}

/// Joins three texts.
pub fn join3(a: &str, b: &str, c: &str) -> (s: String)
    ensures
        s@ == a@ + b@ + c@,
{
    let mut out = a.to_owned();
    out.append(b);
    out.append(c);
    out
}

/// An owned copy of an optional text.
pub fn owned(s: Option<&str>) -> (r: Option<String>)
    ensures
        opt_view(r) == (match s { Some(t) => Some(t@), None => None::<Seq<char>> }),
{
    match s {
        Some(t) => Some(t.to_owned()),
        None => None,
    }
}

/// What an optional text holds.
pub open spec fn opt_view(s: Option<String>) -> Option<Seq<char>> {
    match s {
        Some(t) => Some(t@),
        None => None,
    }
}

/// A borrowed optional text.
pub fn borrowed(s: &Option<String>) -> (r: Option<&str>)
    ensures
        opt_view(*s) == (match r { Some(t) => Some(t@), None => None::<Seq<char>> }),
{
    match s {
        Some(t) => Some(t.as_str()),
        None => None,
    }
}

/// Whether two optional texts are the same.
pub fn same_option(a: &Option<String>, b: &Option<String>) -> (r: bool)
    ensures
        r == (opt_view(*a) == opt_view(*b)),
{
    match (a, b) {
        (Some(x), Some(y)) => same(x.as_str(), y.as_str()),
        (None, None) => true,
        _ => false,
    }
}

/// Whether a text comes before another in dictionary order, by the code points
/// of the characters.
pub open spec fn before(a: Seq<char>, b: Seq<char>) -> bool
    decreases a.len(),
{
    if b.len() == 0 {
        false
    } else if a.len() == 0 {
        true
    } else if a[0] != b[0] {
        a[0] < b[0]
    } else {
        before(a.skip(1), b.skip(1))
    }
}

/// Of two texts exactly one comes before the other, unless they are the same.
pub proof fn before_is_total(a: Seq<char>, b: Seq<char>)
    ensures
        a == b ==> !before(a, b),
        a != b ==> before(a, b) != before(b, a),
    decreases a.len(),
{
    if a.len() == 0 || b.len() == 0 {
        if a.len() == b.len() {
            assert(a =~= b);
        }
    } else if a[0] == b[0] {
        before_is_total(a.skip(1), b.skip(1));
        if a.skip(1) == b.skip(1) {
            assert forall|i: int| 0 <= i < a.len() implies a[i] == b[i] by {
                if i > 0 {
                    assert(a.skip(1)[i - 1] == b.skip(1)[i - 1]);
                }
            }
            assert(a.len() == a.skip(1).len() + 1 && b.len() == b.skip(1).len() + 1);
            assert(a =~= b);
        }
    }
}

/// The order of texts is transitive.
pub proof fn before_is_transitive(a: Seq<char>, b: Seq<char>, c: Seq<char>)
    requires
        before(a, b),
        before(b, c),
    ensures
        before(a, c),
    decreases a.len(),
{
    if a.len() > 0 && a[0] == b[0] && b[0] == c[0] {
        before_is_transitive(a.skip(1), b.skip(1), c.skip(1));
    }
}

/// Whether a text comes before another in dictionary order.
pub fn precedes(a: &str, b: &str) -> (r: bool)
    ensures
        r == before(a@, b@),
{
    let x = characters(a);
    let y = characters(b);
    let mut i: usize = 0;
    assert(x@.skip(0) =~= x@ && y@.skip(0) =~= y@);
    while i < x.len() && i < y.len() && x[i] == y[i]
        invariant
            i <= x@.len(),
            i <= y@.len(),
            before(x@, y@) == before(x@.skip(i as int), y@.skip(i as int)),
        decreases x@.len() - i,
    {
        assert(x@.skip(i as int).skip(1) =~= x@.skip(i + 1));
        assert(y@.skip(i as int).skip(1) =~= y@.skip(i + 1));
        i = i + 1;
    }
    if i == y.len() {
        false
    } else if i == x.len() {
        true
    } else {
        assert(x@.skip(i as int)[0] == x@[i as int] && y@.skip(i as int)[0] == y@[i as int]);
        x[i] < y[i]
    }
}

/// Whether a character is white space in Unicode.
pub open spec fn is_space(c: char) -> bool {
    ||| '\u{9}' <= c && c <= '\u{d}'
    ||| c == ' '
    ||| c == '\u{85}'
    ||| c == '\u{a0}'
    ||| c == '\u{1680}'
    ||| '\u{2000}' <= c && c <= '\u{200a}'
    ||| c == '\u{2028}'
    ||| c == '\u{2029}'
    ||| c == '\u{202f}'
    ||| c == '\u{205f}'
    ||| c == '\u{3000}'
}

/// A text without the white space in front.
pub open spec fn trim_start(s: Seq<char>) -> Seq<char>
    decreases s.len(),
{
    if s.len() > 0 && is_space(s[0]) {
        trim_start(s.skip(1))
    } else {
        s
    }
}

/// A text without the white space behind.
pub open spec fn trim_end(s: Seq<char>) -> Seq<char>
    decreases s.len(),
{
    if s.len() > 0 && is_space(s.last()) {
        trim_end(s.drop_last())
    } else {
        s
    }
}

/// A text without the white space around it.
pub open spec fn trim(s: Seq<char>) -> Seq<char> {
    trim_end(trim_start(s))
}

/// A text without any of this character behind.
pub open spec fn trim_char(s: Seq<char>, c: char) -> Seq<char>
    decreases s.len(),
{
    if s.len() > 0 && s.last() == c {
        trim_char(s.drop_last(), c)
    } else {
        s
    }
}

/// Where the first word of a text ends: at its first white space.
pub open spec fn word_end(s: Seq<char>, i: int) -> int
    decreases s.len() - i,
{
    if 0 <= i < s.len() && !is_space(s[i]) {
        word_end(s, i + 1)
    } else {
        i
    }
}

/// A character in upper case, if it is a letter of the basic alphabet.
pub open spec fn upper_char(c: char) -> char {
    if 'a' <= c && c <= 'z' {
        (c as int - 32) as char
    } else {
        c
    }
}

/// A text with the letters of the basic alphabet in upper case.
pub open spec fn upper(s: Seq<char>) -> Seq<char> {
    Seq::new(s.len(), |i: int| upper_char(s[i]))
}

/// Whether a character is white space in Unicode.
pub fn whitespace(c: char) -> (b: bool)
    ensures
        b == is_space(c),
{
    ('\u{9}' <= c && c <= '\u{d}') || c == ' ' || c == '\u{85}' || c == '\u{a0}' || c == '\u{1680}'
        || ('\u{2000}' <= c && c <= '\u{200a}') || c == '\u{2028}' || c == '\u{2029}' || c
        == '\u{202f}' || c == '\u{205f}' || c == '\u{3000}'
}

/// Characters between two places, without the white space around them: the
/// places where the rest begins and ends.
pub fn trim_between(c: &Vec<char>, from: usize, to: usize) -> (r: (usize, usize))
    requires
        from <= to <= c@.len(),
    ensures
        from <= r.0 <= r.1 <= to,
        c@.subrange(r.0 as int, r.1 as int) == trim(c@.subrange(from as int, to as int)),
{
    let ghost whole = c@.subrange(from as int, to as int);
    let mut i: usize = from;
    while i < to && whitespace(c[i])
        invariant
            from <= i <= to <= c@.len(),
            trim_start(c@.subrange(i as int, to as int)) == trim_start(whole),
        decreases to - i,
    {
        assert(c@.subrange(i as int, to as int).skip(1) =~= c@.subrange(i + 1, to as int));
        i = i + 1;
    }
    assert(trim_start(whole) == c@.subrange(i as int, to as int));
    let mut j: usize = to;
    while j > i && whitespace(c[j - 1])
        invariant
            from <= i <= j <= to <= c@.len(),
            trim_end(c@.subrange(i as int, j as int)) == trim(whole),
        decreases j - i,
    {
        assert(c@.subrange(i as int, j as int).drop_last() =~= c@.subrange(i as int, j - 1));
        j = j - 1;
    }
    (i, j)
}

/// Characters between two places, without any of one character behind: the
/// place where the rest ends.
pub fn trim_char_between(c: &Vec<char>, from: usize, to: usize, gone: char) -> (r: usize)
    requires
        from <= to <= c@.len(),
    ensures
        from <= r <= to,
        c@.subrange(from as int, r as int) == trim_char(c@.subrange(from as int, to as int), gone),
{
    let mut j: usize = to;
    while j > from && c[j - 1] == gone
        invariant
            from <= j <= to <= c@.len(),
            trim_char(c@.subrange(from as int, j as int), gone) == trim_char(
                c@.subrange(from as int, to as int),
                gone,
            ),
        decreases j - from,
    {
        assert(c@.subrange(from as int, j as int).drop_last() =~= c@.subrange(from as int, j - 1));
        j = j - 1;
    }
    j
}

/// The characters between two places as a text.
pub fn text_between(c: &Vec<char>, from: usize, to: usize) -> (s: String)
    requires
        from <= to <= c@.len(),
    ensures
        s@ == c@.subrange(from as int, to as int),
{
    let mut out = String::new();
    let mut i: usize = from;
    while i < to
        invariant
            from <= i <= to <= c@.len(),
            out@ == c@.subrange(from as int, i as int),
        decreases to - i,
    {
        out.push(c[i]);
        i = i + 1;
        assert(out@ =~= c@.subrange(from as int, i as int));
    }
    out
}

/// The first word between two places, in upper case.
pub fn upper_word_between(c: &Vec<char>, from: usize, to: usize) -> (s: String)
    requires
        from <= to <= c@.len(),
    ensures
        s@ == upper(
            c@.subrange(from as int, to as int).take(
                word_end(c@.subrange(from as int, to as int), 0),
            ),
        ),
{
    let ghost whole = c@.subrange(from as int, to as int);
    let mut out = String::new();
    let mut i: usize = from;
    while i < to && !whitespace(c[i])
        invariant
            from <= i <= to <= c@.len(),
            whole == c@.subrange(from as int, to as int),
            word_end(whole, 0) == word_end(whole, i - from),
            out@ == upper(whole.take(i - from)),
        decreases to - i,
    {
        let ch = c[i];
        assert(whole[i - from] == ch);
        if ch >= 'a' && ch <= 'z' {
            out.push(((ch as u32 - 32) as u8) as char);
        } else {
            out.push(ch);
        }
        i = i + 1;
        assert(out@ =~= upper(whole.take(i - from)));
    }
    out
}

/// Bytes as text, with U+FFFD in place of what is not UTF-8.
pub uninterp spec fn lossy_text(bytes: Seq<u8>) -> Seq<char>;

/// Calls `String::from_utf8_lossy`. The text depends on the bytes alone, and is
/// what they decode to when they are valid UTF-8.
#[verifier::external_body]
pub(crate) fn from_utf8_lossy(bytes: &[u8]) -> (s: String)
    ensures
        s@ == lossy_text(bytes@),
        valid_utf8(bytes@) ==> s@ == decode_utf8(bytes@),
{
    String::from_utf8_lossy(bytes).into_owned()
}

/// Calls `std::str::from_utf8`, which gives the text that bytes encode, or an
/// error when they are not valid UTF-8.
#[verifier::external_body]
pub(crate) fn from_utf8(bytes: &[u8]) -> (r: Option<&str>)
    ensures
        r is Some <==> valid_utf8(bytes@),
        r matches Some(s) ==> s@ == decode_utf8(bytes@),
{
    std::str::from_utf8(bytes).ok()
}

/// A number is written with its last digit after the rest of it.
pub proof fn decimals_are_written_digit_by_digit(n: nat, d: int)
    requires
        0 <= d < 10,
    ensures
        digit(d) == "0123456789"@[d],
        decimal(d as nat) == seq!["0123456789"@[d]],
        n > 0 ==> decimal(10 * n + d as nat) == decimal(n).push("0123456789"@[d]),
        n > 0 ==> integer(-(n as int)) == seq!['-'] + decimal(n),
        integer(n as int) == decimal(n),
{
    reveal_strlit("0123456789");
    assert((10 * n + d) / 10 == n as int);
    assert((10 * n + d) % 10 == d);
}

/// A natural number is read digit by digit, and a minus sign turns it over.
pub proof fn numbers_are_read_digit_by_digit(s: Seq<char>, d: int)
    requires
        0 <= d < 10,
    ensures
        read_natural(seq!["0123456789"@[d]]) == Some(d as nat),
        read_natural(s) matches Some(n) ==> {
            &&& read_natural(s.push("0123456789"@[d])) == Some(10 * n + d as nat)
            &&& read_integer(s) == Some(n as int)
            &&& read_integer(seq!['-'] + s) == Some(-(n as int))
        },
        read_natural(s) is Some <==> s.len() > 0 && forall|i: int|
            0 <= i < s.len() ==> '0' <= #[trigger] s[i] && s[i] <= '9',
        read_natural(s) is None ==> read_integer(seq!['-'] + s) is None,
        read_natural(s) is None && (s.len() == 0 || s[0] != '-') ==> read_integer(s) is None,
{
    reveal_strlit("0123456789");
    let c = "0123456789"@[d];
    let one = seq![c];
    assert(one.drop_last() =~= Seq::empty());
    assert(digits_value(one.drop_last()) == 0);
    assert(digit_value(one.last()) == d);
    assert(s.push(c).drop_last() =~= s);
    assert((seq!['-'] + s).skip(1) =~= s);
    if read_natural(s) is Some {
        assert(is_digit(s[0]));
        assert(all_digits(s.push(c)));
    }
}

/// A number in base sixteen is written with its last digit after the rest of it.
pub proof fn hexadecimals_are_written_digit_by_digit(n: nat, d: int)
    requires
        0 <= d < 16,
    ensures
        hex_digit(d) == "0123456789abcdef"@[d],
        hexadecimal(d as nat) == seq!["0123456789abcdef"@[d]],
        n > 0 ==> hexadecimal(16 * n + d as nat) == hexadecimal(n).push("0123456789abcdef"@[d]),
{
    reveal_strlit("0123456789abcdef");
    assert((16 * n + d) / 16 == n as int);
    assert((16 * n + d) % 16 == d);
}

/// Each byte is written as two digits, the higher first, after the bytes before it.
pub proof fn bytes_are_written_two_digits_each(bytes: Seq<u8>, b: u8)
    ensures
        hex_text(Seq::empty()).len() == 0,
        hex_text(bytes.push(b)) == hex_text(bytes).push("0123456789abcdef"@[b as int / 16]).push(
            "0123456789abcdef"@[b as int % 16],
        ),
{
    reveal_strlit("0123456789abcdef");
    let more = bytes.push(b);
    let n = bytes.len() as int;
    assert(hex_digit(b as int / 16) == "0123456789abcdef"@[b as int / 16]);
    assert(hex_digit(b as int % 16) == "0123456789abcdef"@[b as int % 16]);
    assert forall|i: int| 0 <= i < 2 * n implies hex_text(more)[i] == hex_text(bytes)[i] by {
        assert(more[i / 2] == bytes[i / 2]);
    }
    assert((2 * n) / 2 == n && (2 * n) % 2 == 0);
    assert((2 * n + 1) / 2 == n && (2 * n + 1) % 2 == 1);
    assert(hex_text(more) =~= hex_text(bytes).push("0123456789abcdef"@[b as int / 16]).push(
        "0123456789abcdef"@[b as int % 16],
    ));
}

/// Texts are ordered by the first character in which they differ, and a text comes
/// before what continues it.
pub proof fn texts_are_ordered_by_their_first_difference(
    common: Seq<char>,
    x: char,
    y: char,
    s: Seq<char>,
    t: Seq<char>,
)
    ensures
        x < y ==> before(common.push(x) + s, common.push(y) + t),
        before(common, common.push(x) + s),
        !before(common.push(x) + s, common),
        !before(common, common),
    decreases common.len(),
{
    let a = common.push(x) + s;
    let b = common.push(y) + t;
    if common.len() > 0 {
        texts_are_ordered_by_their_first_difference(common.skip(1), x, y, s, t);
        assert(a.skip(1) =~= common.skip(1).push(x) + s);
        assert(b.skip(1) =~= common.skip(1).push(y) + t);
    }
}

/// The characters that count as blank.
pub proof fn blanks_are_these(c: char)
    ensures
        is_space(c) <==> seq![
            '\u{9}', '\u{a}', '\u{b}', '\u{c}', '\u{d}', ' ', '\u{85}', '\u{a0}', '\u{1680}',
            '\u{2000}', '\u{2001}', '\u{2002}', '\u{2003}', '\u{2004}', '\u{2005}', '\u{2006}',
            '\u{2007}', '\u{2008}', '\u{2009}', '\u{200a}', '\u{2028}', '\u{2029}', '\u{202f}',
            '\u{205f}', '\u{3000}',
        ].contains(c),
{
    let all = seq![
        '\u{9}', '\u{a}', '\u{b}', '\u{c}', '\u{d}', ' ', '\u{85}', '\u{a0}', '\u{1680}',
        '\u{2000}', '\u{2001}', '\u{2002}', '\u{2003}', '\u{2004}', '\u{2005}', '\u{2006}',
        '\u{2007}', '\u{2008}', '\u{2009}', '\u{200a}', '\u{2028}', '\u{2029}', '\u{202f}',
        '\u{205f}', '\u{3000}',
    ];
    if is_space(c) {
        let i: int = if c <= '\u{d}' {
            c as int - 9
        } else if c == ' ' {
            5
        } else if c == '\u{85}' {
            6
        } else if c == '\u{a0}' {
            7
        } else if c == '\u{1680}' {
            8
        } else if c <= '\u{200a}' {
            c as int - 0x2000 + 9
        } else if c == '\u{2028}' {
            20
        } else if c == '\u{2029}' {
            21
        } else if c == '\u{202f}' {
            22
        } else if c == '\u{205f}' {
            23
        } else {
            24
        };
        assert(0 <= i < all.len());
        assert(all[i] == c);
    }
}

/// Trimming takes away every blank around a text, and nothing else.
pub proof fn trimming_takes_the_blanks_around(front: Seq<char>, core: Seq<char>, back: Seq<char>)
    requires
        forall|i: int| 0 <= i < front.len() ==> is_space(#[trigger] front[i]),
        forall|i: int| 0 <= i < back.len() ==> is_space(#[trigger] back[i]),
        core.len() > 0 ==> !is_space(core[0]) && !is_space(core.last()),
    ensures
        trim(front + core + back) == core,
    decreases front.len() + back.len(),
{
    let whole = front + core + back;
    if front.len() > 0 {
        trimming_takes_the_blanks_around(front.skip(1), core, back);
        assert(whole[0] == front[0]);
        assert(whole.skip(1) =~= front.skip(1) + core + back);
    } else if back.len() > 0 {
        if core.len() > 0 {
            trimming_takes_the_blanks_around(front, core, back.drop_last());
            assert(whole[0] == core[0]);
            let shorter = front + core + back.drop_last();
            assert(shorter[0] == core[0]);
            assert(whole.drop_last() =~= shorter);
            assert(whole.last() == back.last());
            assert(trim_start(whole) == whole);
            assert(trim_start(shorter) == shorter);
        } else {
            trimming_takes_the_blanks_around(front, core, back.skip(1));
            assert(whole[0] == back[0]);
            assert(whole.skip(1) =~= front + core + back.skip(1));
        }
    } else {
        assert(whole =~= core);
    }
}

/// Trimming a character takes away every occurrence of it at the end, and nothing
/// else.
pub proof fn trimming_a_character_takes_it_from_the_end(
    core: Seq<char>,
    back: Seq<char>,
    c: char,
)
    requires
        forall|i: int| 0 <= i < back.len() ==> #[trigger] back[i] == c,
        core.len() > 0 ==> core.last() != c,
    ensures
        trim_char(core + back, c) == core,
    decreases back.len(),
{
    let whole = core + back;
    if back.len() > 0 {
        trimming_a_character_takes_it_from_the_end(core, back.drop_last(), c);
        assert(whole.last() == back.last());
        assert(whole.drop_last() =~= core + back.drop_last());
    } else {
        assert(whole =~= core);
    }
}

/// A word goes on to the next blank, or to the end.
pub proof fn words_end_at_a_blank(s: Seq<char>, i: int)
    requires
        0 <= i <= s.len(),
    ensures
        i <= word_end(s, i) <= s.len(),
        forall|k: int| i <= k < word_end(s, i) ==> !is_space(#[trigger] s[k]),
        word_end(s, i) < s.len() ==> is_space(s[word_end(s, i)]),
    decreases s.len() - i,
{
    if i < s.len() && !is_space(s[i]) {
        words_end_at_a_blank(s, i + 1);
    }
}

/// Upper case changes the small letters of the alphabet alone, each to its capital.
pub proof fn upper_case_capitalises_letters(s: Seq<char>, i: int, k: int)
    requires
        0 <= i < s.len(),
        0 <= k < 26,
    ensures
        upper(s).len() == s.len(),
        s[i] == "abcdefghijklmnopqrstuvwxyz"@[k] ==> upper(s)[i] == "ABCDEFGHIJKLMNOPQRSTUVWXYZ"@[k],
        s[i] < 'a' || s[i] > 'z' ==> upper(s)[i] == s[i],
{
    reveal_strlit("abcdefghijklmnopqrstuvwxyz");
    reveal_strlit("ABCDEFGHIJKLMNOPQRSTUVWXYZ");
}

/// An optional text is seen as its characters, where there is one.
pub proof fn optional_texts_are_seen_whole(s: String)
    ensures
        opt_view(Some(s)) == Some(s@),
        opt_view(None) is None,
{
}

} // verus!
