//! Character-level helpers shared by the modules that read engine text.
use vstd::prelude::*;

verus! {

/// Whether two strings hold the same characters.
pub(crate) fn str_equals(a: &str, b: &str) -> (equal: bool)
    ensures
        equal == (a@ == b@),
{
    let left = chars_of(a);
    let right = chars_of(b);
    if left.len() != right.len() {
        return false;
    }
    let mut i: usize = 0;
    while i < left.len()
        invariant
            left@ == a@,
            right@ == b@,
            left.len() == right.len(),
            i <= left.len(),
            forall|j: int| 0 <= j < i ==> a@[j] == b@[j],
        decreases left.len() - i,
    {
        if left[i] != right[i] {
            return false;
        }
        i = i + 1;
    }
    assert(a@ =~= b@);
    true
}

/// The characters of a string, in order.
pub(crate) fn chars_of(text: &str) -> (chars: Vec<char>)
    ensures
        chars@ == text@,
{
    let mut chars: Vec<char> = Vec::new();
    for c in it: text.chars()
        invariant
            chars@ == it.seq().take(it.index() as int),
    {
        chars.push(c);
    }
    chars
}

/// Whether a character is white space in Unicode's sense (the
/// `White_Space` property), which is what `str::trim` removes.
pub open spec fn is_white_space(c: char) -> bool {
    let code = c as u32;
    ||| 0x9 <= code <= 0xd
    ||| code == 0x20
    ||| code == 0x85
    ||| code == 0xa0
    ||| code == 0x1680
    ||| 0x2000 <= code <= 0x200a
    ||| code == 0x2028
    ||| code == 0x2029
    ||| code == 0x202f
    ||| code == 0x205f
    ||| code == 0x3000
}

/// Whether a character is white space in Unicode's sense.
pub(crate) fn white_space(c: char) -> (space: bool)
    ensures
        space == is_white_space(c),
{
    let code = c as u32;
    (0x9 <= code && code <= 0xd) || code == 0x20 || code == 0x85 || code == 0xa0 || code == 0x1680
        || (0x2000 <= code && code <= 0x200a) || code == 0x2028 || code == 0x2029 || code
        == 0x202f || code == 0x205f || code == 0x3000
}

/// The text without its leading white space.
pub open spec fn trim_start(s: Seq<char>) -> Seq<char>
    decreases s.len(),
{
    if s.len() > 0 && is_white_space(s[0]) {
        trim_start(s.drop_first())
    } else {
        s
    }
}

/// The text without its trailing white space.
pub open spec fn trim_end(s: Seq<char>) -> Seq<char>
    decreases s.len(),
{
    if s.len() > 0 && is_white_space(s.last()) {
        trim_end(s.drop_last())
    } else {
        s
    }
}

/// The text without white space at either end, as `str::trim` gives it.
pub open spec fn trim(s: Seq<char>) -> Seq<char> {
    trim_end(trim_start(s))
}

/// The text without every leading occurrence of `c`, as
/// `str::trim_start_matches` gives it for a single character.
pub open spec fn strip_leading(s: Seq<char>, c: char) -> Seq<char>
    decreases s.len(),
{
    if s.len() > 0 && s[0] == c {
        strip_leading(s.drop_first(), c)
    } else {
        s
    }
}

/// Where the text `s[lo..hi]` starts once its leading white space is gone.
pub(crate) fn skip_leading_space(s: &Vec<char>, lo: usize, hi: usize) -> (start: usize)
    requires
        lo <= hi <= s.len(),
    ensures
        lo <= start <= hi,
        trim_start(s@.subrange(lo as int, hi as int)) == s@.subrange(start as int, hi as int),
{
    let mut i = lo;
    while i < hi && white_space(s[i])
        invariant
            lo <= i <= hi <= s.len(),
            trim_start(s@.subrange(lo as int, hi as int)) == trim_start(
                s@.subrange(i as int, hi as int),
            ),
        decreases hi - i,
    {
        assert(s@.subrange(i as int, hi as int).drop_first() =~= s@.subrange(
            i + 1,
            hi as int,
        ));
        i = i + 1;
    }
    i
}

/// Where the text `s[lo..hi]` ends once its trailing white space is gone.
pub(crate) fn skip_trailing_space(s: &Vec<char>, lo: usize, hi: usize) -> (end: usize)
    requires
        lo <= hi <= s.len(),
    ensures
        lo <= end <= hi,
        trim_end(s@.subrange(lo as int, hi as int)) == s@.subrange(lo as int, end as int),
{
    let mut j = hi;
    while j > lo && white_space(s[j - 1])
        invariant
            lo <= j <= hi <= s.len(),
            trim_end(s@.subrange(lo as int, hi as int)) == trim_end(
                s@.subrange(lo as int, j as int),
            ),
        decreases j - lo,
    {
        assert(s@.subrange(lo as int, j as int).drop_last() =~= s@.subrange(
            lo as int,
            j - 1,
        ));
        j = j - 1;
    }
    j
}

/// Where `s[lo..hi]` starts once every leading `c` is gone.
pub(crate) fn skip_leading_char(s: &Vec<char>, lo: usize, hi: usize, c: char) -> (start: usize)
    requires
        lo <= hi <= s.len(),
    ensures
        lo <= start <= hi,
        strip_leading(s@.subrange(lo as int, hi as int), c) == s@.subrange(start as int, hi as int),
{
    let mut i = lo;
    while i < hi && s[i] == c
        invariant
            lo <= i <= hi <= s.len(),
            strip_leading(s@.subrange(lo as int, hi as int), c) == strip_leading(
                s@.subrange(i as int, hi as int),
                c,
            ),
        decreases hi - i,
    {
        assert(s@.subrange(i as int, hi as int).drop_first() =~= s@.subrange(
            i + 1,
            hi as int,
        ));
        i = i + 1;
    }
    i
}

/// The range `lo..hi` of `s` with white space trimmed from both ends.
pub(crate) fn trim_range(s: &Vec<char>, lo: usize, hi: usize) -> (range: (usize, usize))
    requires
        lo <= hi <= s.len(),
    ensures
        lo <= range.0 <= range.1 <= hi,
        trim(s@.subrange(lo as int, hi as int)) == s@.subrange(range.0 as int, range.1 as int),
{
    let start = skip_leading_space(s, lo, hi);
    let end = skip_trailing_space(s, start, hi);
    (start, end)
}

/// Whether a character is an ASCII decimal digit.
pub open spec fn is_digit(c: char) -> bool {
    '0' <= c <= '9'
}

/// The value of an ASCII decimal digit.
pub open spec fn digit_value(c: char) -> int {
    c as int - '0' as int
}

/// The value of a run of decimal digits, most significant first.
pub open spec fn digits_value(s: Seq<char>) -> int
    decreases s.len(),
{
    if s.len() == 0 {
        0
    } else {
        digits_value(s.drop_last()) * 10 + digit_value(s.last())
    }
}

/// Whether every character is a decimal digit.
pub open spec fn all_digits(s: Seq<char>) -> bool {
    forall|i: int| 0 <= i < s.len() ==> is_digit(#[trigger] s[i])
}

/// What `i32::from_str` makes of the text: an optional `+` or `-`, then one or
/// more decimal digits, whose value must fit in an `i32`.
pub open spec fn parse_i32(s: Seq<char>) -> Option<i32> {
    let negative = s.len() > 0 && s[0] == '-';
    let signed = s.len() > 0 && (s[0] == '-' || s[0] == '+');
    let body = if signed {
        s.drop_first()
    } else {
        s
    };
    let magnitude = digits_value(body);
    let value = if negative {
        -magnitude
    } else {
        magnitude
    };
    if body.len() == 0 || !all_digits(body) || value < i32::MIN || value > i32::MAX {
        None
    } else {
        Some(value as i32)
    }
}

proof fn lemma_digits_value_nonneg(s: Seq<char>)
    requires
        all_digits(s),
    ensures
        digits_value(s) >= 0,
    decreases s.len(),
{
    if s.len() > 0 {
        assert(all_digits(s.drop_last()));
        lemma_digits_value_nonneg(s.drop_last());
    }
}

/// A longer run of digits is worth at least as much as its prefix.
proof fn lemma_digits_value_grows(s: Seq<char>, k: int)
    requires
        all_digits(s),
        0 <= k <= s.len(),
    ensures
        digits_value(s.take(k)) <= digits_value(s),
    decreases s.len(),
{
    if k < s.len() {
        assert(all_digits(s.drop_last()));
        assert(s.drop_last().take(k) =~= s.take(k));
        lemma_digits_value_grows(s.drop_last(), k);
        lemma_digits_value_nonneg(s.drop_last());
    } else {
        assert(s.take(k) =~= s);
    }
}

/// Parses `s[lo..hi]` as `i32::from_str` would.
pub(crate) fn parse_i32_range(s: &Vec<char>, lo: usize, hi: usize) -> (value: Option<i32>)
    requires
        lo <= hi <= s.len(),
    ensures
        value == parse_i32(s@.subrange(lo as int, hi as int)),
{
    let ghost text = s@.subrange(lo as int, hi as int);
    let mut i = lo;
    let mut negative = false;
    if lo < hi && (s[lo] == '-' || s[lo] == '+') {
        negative = s[lo] == '-';
        i = lo + 1;
    }
    assert(negative == (text.len() > 0 && text[0] == '-'));
    let ghost body = s@.subrange(i as int, hi as int);
    assert(body =~= (if text.len() > 0 && (text[0] == '-' || text[0] == '+') {
        text.drop_first()
    } else {
        text
    }));
    if i == hi {
        return None;
    }
    let start = i;
    let mut magnitude: i64 = 0;
    while i < hi
        invariant
            lo <= start <= i <= hi <= s.len(),
            start < hi,
            text == s@.subrange(lo as int, hi as int),
            body == s@.subrange(start as int, hi as int),
            body == (if text.len() > 0 && (text[0] == '-' || text[0] == '+') {
                text.drop_first()
            } else {
                text
            }),
            negative == (text.len() > 0 && text[0] == '-'),
            all_digits(s@.subrange(start as int, i as int)),
            magnitude == digits_value(s@.subrange(start as int, i as int)),
            0 <= magnitude <= 2147483648,
        decreases hi - i,
    {
        let c = s[i];
        if !('0' <= c && c <= '9') {
            assert(!all_digits(body)) by {
                assert(body[i - start] == c);
            }
            return None;
        }
        let d = (c as u32 - '0' as u32) as i64;
        proof {
            let next = s@.subrange(start as int, i + 1);
            assert(next.drop_last() =~= s@.subrange(start as int, i as int));
            assert(next.last() == c);
            assert(all_digits(next)) by {
                assert forall|j: int| 0 <= j < next.len() implies is_digit(#[trigger] next[j]) by {
                    if j < next.len() - 1 {
                        assert(next[j] == s@.subrange(start as int, i as int)[j]);
                    }
                }
            }
        }
        magnitude = magnitude * 10 + d;
        i = i + 1;
        if magnitude > 2147483648 {
            proof {
                if all_digits(body) {
                    let k = i - start;
                    assert(body.take(k) =~= s@.subrange(start as int, i as int));
                    lemma_digits_value_grows(body, k);
                }
            }
            return None;
        }
    }
    assert(s@.subrange(start as int, i as int) =~= body);
    if negative {
        Some((-magnitude) as i32)
    } else if magnitude <= 2147483647 {
        Some(magnitude as i32)
    } else {
        None
    }
}

/// The characters of `chars`, as a `String`.
///
/// Calls `String::from_iter` (std), whose documented behavior is to collect the
/// characters in the order the iterator yields them; `Vec<char>` yields them in
/// order.
#[verifier::external_body]
pub(crate) fn string_from_chars(chars: Vec<char>) -> (text: String)
    ensures
        text@ == chars@,
{
    String::from_iter(chars)
}

/// Appends the characters of `text`.
pub(crate) fn push_text(out: &mut Vec<char>, text: &str)
    ensures
        final(out)@ == old(out)@ + text@,
{
    let chars = chars_of(text);
    let ghost start = out@;
    let mut i: usize = 0;
    while i < chars.len()
        invariant
            chars@ == text@,
            i <= chars.len(),
            out@ == start + text@.take(i as int),
        decreases chars.len() - i,
    {
        out.push(chars[i]);
        proof {
            assert(text@.take(i + 1) =~= text@.take(i as int).push(text@[i as int]));
        }
        i = i + 1;
    }
    assert(text@.take(chars.len() as int) =~= text@);
}

/// The character for a digit below sixteen, in lower case.
pub open spec fn digit_char(d: nat) -> char {
    if d < 10 {
        (48 + d) as char
    } else {
        (87 + d) as char
    }
}

/// The decimal digits of `n`, most significant first, as `{}` writes them.
pub open spec fn decimal_digits(n: nat) -> Seq<char>
    decreases n,
{
    if n < 10 {
        seq![digit_char(n)]
    } else {
        decimal_digits(n / 10).push(digit_char(n % 10))
    }
}

/// The lower-case hexadecimal digits of `n`, most significant first.
pub open spec fn hex_digits(n: nat) -> Seq<char>
    decreases n,
{
    if n < 16 {
        seq![digit_char(n)]
    } else {
        hex_digits(n / 16).push(digit_char(n % 16))
    }
}

/// A signed number as `{}` writes it.
pub open spec fn signed_decimal(i: int) -> Seq<char> {
    if i < 0 {
        seq!['-'] + decimal_digits((-i) as nat)
    } else {
        decimal_digits(i as nat)
    }
}

/// A 32-bit number as `{:#x}` writes it: its two's-complement bits in
/// hexadecimal, after `0x`.
pub open spec fn alternate_hex(i: i32) -> Seq<char> {
    seq!['0', 'x'] + hex_digits((i as u32) as nat)
}

/// A 32-bit number as `{:#010x}` writes it: like `{:#x}`, with the digits
/// padded with zeros to eight.
pub open spec fn padded_hex(i: i32) -> Seq<char> {
    let digits = hex_digits((i as u32) as nat);
    seq!['0', 'x'] + Seq::new((8 - digits.len()) as nat, |k: int| '0') + digits
}

/// The decimal digits of a number are digits, at least one of them, and read
/// back as the number.
proof fn lemma_decimal_digits_read_back(n: nat)
    ensures
        decimal_digits(n).len() >= 1,
        all_digits(decimal_digits(n)),
        digits_value(decimal_digits(n)) == n,
    decreases n,
{
    let d = decimal_digits(n);
    let c = digit_char(n % 10);
    assert(is_digit(c) && digit_value(c) == n % 10);
    if n < 10 {
        assert(d.drop_last() =~= Seq::<char>::empty());
        assert(digits_value(d) == digits_value(Seq::<char>::empty()) * 10 + digit_value(c));
        assert(all_digits(d)) by {
            assert forall|i: int| 0 <= i < d.len() implies is_digit(#[trigger] d[i]) by {
                assert(d[i] == c);
            }
        }
    } else {
        lemma_decimal_digits_read_back(n / 10);
        let prefix = decimal_digits(n / 10);
        assert(d.drop_last() =~= prefix);
        assert(d.last() == c);
        assert(digits_value(d) == digits_value(prefix) * 10 + digit_value(c));
        assert(n == (n / 10) * 10 + n % 10);
        assert(all_digits(d)) by {
            assert forall|i: int| 0 <= i < d.len() implies is_digit(#[trigger] d[i]) by {
                if i < d.len() - 1 {
                    assert(d[i] == prefix[i]);
                }
            }
        }
    }
}

/// A number written as `{}` writes it is a run of digits, after a `-` when
/// it is negative, and reads back as the same number.
pub(crate) proof fn lemma_signed_decimal_reads_back(x: i32)
    ensures
        signed_decimal(x as int).len() >= 1,
        forall|i: int|
            0 <= i < signed_decimal(x as int).len() ==> is_digit(
                #[trigger] signed_decimal(x as int)[i],
            ) || (i == 0 && signed_decimal(x as int)[i] == '-'),
        is_digit(signed_decimal(x as int).last()),
        parse_i32(signed_decimal(x as int)) == Some(x),
{
    let s = signed_decimal(x as int);
    if x < 0 {
        let n = (-x) as nat;
        let d = decimal_digits(n);
        lemma_decimal_digits_read_back(n);
        assert(s.drop_first() =~= d);
        assert forall|i: int| 0 < i < s.len() implies is_digit(#[trigger] s[i]) by {
            assert(s[i] == d[i - 1]);
        }
        assert(s.last() == d.last());
        assert(is_digit(d[d.len() - 1]));
    } else {
        lemma_decimal_digits_read_back(x as nat);
        assert(is_digit(s[s.len() - 1]));
        assert(!(s[0] == '-' || s[0] == '+')) by {
            assert(is_digit(s[0]));
        }
    }
}

fn digit(d: u64) -> (c: char)
    requires
        d < 16,
    ensures
        c == digit_char(d as nat),
{
    match d {
        0 => '0',
        1 => '1',
        2 => '2',
        3 => '3',
        4 => '4',
        5 => '5',
        6 => '6',
        7 => '7',
        8 => '8',
        9 => '9',
        10 => 'a',
        11 => 'b',
        12 => 'c',
        13 => 'd',
        14 => 'e',
        _ => 'f',
    }
}

/// Appends the decimal digits of `n`.
pub(crate) fn push_decimal(out: &mut Vec<char>, n: u64)
    ensures
        final(out)@ == old(out)@ + decimal_digits(n as nat),
    decreases n,
{
    if n < 10 {
        out.push(digit(n));
        assert(decimal_digits(n as nat) =~= seq![digit_char(n as nat)]);
    } else {
        push_decimal(out, n / 10);
        out.push(digit(n % 10));
        assert(decimal_digits(n as nat) =~= decimal_digits((n / 10) as nat).push(
            digit_char((n % 10) as nat),
        ));
    }
}

/// Appends the hexadecimal digits of `n`.
pub(crate) fn push_hex(out: &mut Vec<char>, n: u64)
    ensures
        final(out)@ == old(out)@ + hex_digits(n as nat),
    decreases n,
{
    if n < 16 {
        out.push(digit(n));
        assert(hex_digits(n as nat) =~= seq![digit_char(n as nat)]);
    } else {
        push_hex(out, n / 16);
        out.push(digit(n % 16));
        assert(hex_digits(n as nat) =~= hex_digits((n / 16) as nat).push(
            digit_char((n % 16) as nat),
        ));
    }
}

/// Appends a signed number as `{}` writes it.
pub(crate) fn push_signed_decimal(out: &mut Vec<char>, i: i32)
    ensures
        final(out)@ == old(out)@ + signed_decimal(i as int),
{
    if i < 0 {
        out.push('-');
        let magnitude = (-(i as i64)) as u64;
        push_decimal(out, magnitude);
    } else {
        push_decimal(out, i as u64);
    }
}

spec fn power_of_sixteen(k: nat) -> nat
    decreases k,
{
    if k == 0 {
        1
    } else {
        16 * power_of_sixteen((k - 1) as nat)
    }
}

proof fn lemma_hex_digits_bounded(n: nat, k: nat)
    requires
        k >= 1,
        n < power_of_sixteen(k),
    ensures
        1 <= hex_digits(n).len() <= k,
    decreases n,
{
    if n >= 16 {
        let p = power_of_sixteen((k - 1) as nat);
        if k == 1 {
            assert(power_of_sixteen(1) == 16 * power_of_sixteen(0));
            assert(false);
        }
        assert(n / 16 < p) by (nonlinear_arith)
            requires
                n < 16 * p,
        ;
        lemma_hex_digits_bounded(n / 16, (k - 1) as nat);
    }
}

proof fn lemma_hex_digits_of_u32(n: nat)
    requires
        n < 0x1_0000_0000,
    ensures
        1 <= hex_digits(n).len() <= 8,
{
    reveal_with_fuel(power_of_sixteen, 9);
    lemma_hex_digits_bounded(n, 8);
}

/// Appends a 32-bit number as `{:#x}` writes it.
pub(crate) fn push_alternate_hex(out: &mut Vec<char>, i: i32)
    ensures
        final(out)@ == old(out)@ + alternate_hex(i),
{
    out.push('0');
    out.push('x');
    let bits = i as u32;
    push_hex(out, bits as u64);
}

/// Appends a 32-bit number as `{:#010x}` writes it.
pub(crate) fn push_padded_hex(out: &mut Vec<char>, i: i32)
    ensures
        final(out)@ == old(out)@ + padded_hex(i),
{
    let bits = i as u32;
    let mut digits: Vec<char> = Vec::new();
    push_hex(&mut digits, bits as u64);
    assert(digits@ =~= hex_digits(bits as nat));
    proof {
        lemma_hex_digits_of_u32(bits as nat);
    }
    let ghost start = out@;
    out.push('0');
    out.push('x');
    let mut padding: usize = 8 - digits.len();
    let ghost zeros = Seq::new((8 - digits@.len()) as nat, |k: int| '0');
    while padding > 0
        invariant
            padding <= 8 - digits.len(),
            digits.len() <= 8,
            zeros == Seq::new((8 - digits@.len()) as nat, |k: int| '0'),
            out@ == start + seq!['0', 'x'] + zeros.take((8 - digits.len() - padding) as int),
        decreases padding,
    {
        out.push('0');
        proof {
            let done = (8 - digits.len() - padding) as int;
            assert(zeros.take(done + 1) =~= zeros.take(done).push('0'));
        }
        padding = padding - 1;
    }
    assert(zeros.take((8 - digits.len()) as int) =~= zeros);
    let mut j: usize = 0;
    let ghost before = out@;
    while j < digits.len()
        invariant
            j <= digits.len(),
            out@ == before + digits@.take(j as int),
        decreases digits.len() - j,
    {
        out.push(digits[j]);
        proof {
            assert(digits@.take(j + 1) =~= digits@.take(j as int).push(digits@[j as int]));
        }
        j = j + 1;
    }
    assert(digits@.take(digits.len() as int) =~= digits@);
    assert(out@ =~= start + padded_hex(i));
}

} // verus!
