//! The shape of an array property, read from its bound strings.
//!
//! The engine writes one bracketed group per dimension, so a 1D array's bounds
//! read `[9]` and a 2D one's `[9][1]`; a group may also list several
//! dimensions separated by commas, as in `[2,4]`. An empty string, or `[]`,
//! means the array holds nothing. A non-array property reports zero
//! dimensions.
use vstd::prelude::*;

use crate::error::Error;
use crate::text::{
    chars_of, is_digit, is_white_space, lemma_signed_decimal_reads_back, parse_i32,
    parse_i32_range, signed_decimal, skip_leading_char, strip_leading, trim, trim_end, trim_range,
    trim_start,
};

verus! {

/// The pieces of `s` between occurrences of `sep`, as `str::split(sep)`
/// yields them, empty pieces included.
pub open spec fn split_at(s: Seq<char>, sep: char) -> Seq<Seq<char>>
    decreases s.len(),
{
    if s.len() == 0 {
        seq![Seq::<char>::empty()]
    } else {
        let pieces = split_at(s.drop_last(), sep);
        if s.last() == sep {
            pieces.push(Seq::<char>::empty())
        } else {
            pieces.update(pieces.len() - 1, pieces.last().push(s.last()))
        }
    }
}

/// The pieces that hold something other than white space.
pub open spec fn non_blank(pieces: Seq<Seq<char>>) -> Seq<Seq<char>>
    decreases pieces.len(),
{
    if pieces.len() == 0 {
        Seq::<Seq<char>>::empty()
    } else if trim(pieces.last()).len() > 0 {
        non_blank(pieces.drop_last()).push(pieces.last())
    } else {
        non_blank(pieces.drop_last())
    }
}

/// What a group holds between its brackets: the group trimmed, its opening
/// brackets dropped, trimmed again.
pub open spec fn group_text(group: Seq<char>) -> Seq<char> {
    trim(strip_leading(trim(group), '['))
}

/// The numbers a comma-separated list states, each piece trimmed and read as
/// an `i32`, or nothing when one of them does not parse.
pub open spec fn listed_values(pieces: Seq<Seq<char>>) -> Option<Seq<i32>>
    decreases pieces.len(),
{
    if pieces.len() == 0 {
        Some(Seq::<i32>::empty())
    } else {
        match (listed_values(pieces.drop_last()), parse_i32(trim(pieces.last()))) {
            (Some(values), Some(value)) => Some(values.push(value)),
            _ => None,
        }
    }
}

/// The bounds one group states: one per comma-separated number between its
/// brackets, so `[9]` states one bound and `[2,4]` two.
pub open spec fn group_values(group: Seq<char>) -> Option<Seq<i32>> {
    listed_values(split_at(group_text(group), ','))
}

/// The bounds of every group in order, or nothing when one of them does not
/// parse.
pub open spec fn group_bounds(groups: Seq<Seq<char>>) -> Option<Seq<i32>>
    decreases groups.len(),
{
    if groups.len() == 0 {
        Some(Seq::<i32>::empty())
    } else {
        match (group_bounds(groups.drop_last()), group_values(groups.last())) {
            (Some(bounds), Some(values)) => Some(bounds + values),
            _ => None,
        }
    }
}

/// The bounds a bound string states, one per dimension, or nothing when it is
/// malformed. Empty text and `[]` state no bounds at all.
pub open spec fn bounds_of(text: Seq<char>) -> Option<Seq<i32>> {
    let trimmed = trim(text);
    if trimmed.len() == 0 || trimmed == "[]"@ {
        Some(Seq::<i32>::empty())
    } else {
        group_bounds(non_blank(split_at(trimmed, ']')))
    }
}

/// The error a malformed bound string is reported with.
pub open spec fn malformed_bounds(error: Error) -> bool {
    error matches Error::UnexpectedType { expected, actual } && expected@
        == "one bracketed integer per dimension, e.g. [0][0]"@ && actual@
        == "an unparsable bound string"@
}

proof fn lemma_split_is_never_empty(s: Seq<char>, sep: char)
    ensures
        split_at(s, sep).len() >= 1,
    decreases s.len(),
{
    if s.len() > 0 {
        lemma_split_is_never_empty(s.drop_last(), sep);
    }
}

/// Reads the bounds the group `s[lo..hi]` states, appending them to `values`;
/// `false` when one of them does not parse.
fn read_group(s: &Vec<char>, lo: usize, hi: usize, values: &mut Vec<i32>) -> (ok: bool)
    requires
        lo <= hi <= s.len(),
    ensures
        ok == group_values(s@.subrange(lo as int, hi as int)) is Some,
        ok ==> final(values)@ == old(values)@ + group_values(
            s@.subrange(lo as int, hi as int),
        )->0,
{
    let (a, b) = trim_range(s, lo, hi);
    let c = skip_leading_char(s, a, b, '[');
    let (d, e) = trim_range(s, c, b);
    let ghost inner = s@.subrange(d as int, e as int);
    assert(inner == group_text(s@.subrange(lo as int, hi as int)));
    let ghost base = values@;
    let mut failed = false;
    let mut start = d;
    let mut i = d;
    let ghost mut done: Seq<Seq<char>> = Seq::empty();
    assert(s@.subrange(d as int, d as int) =~= Seq::<char>::empty());
    while i < e
        invariant
            d <= start <= i <= e <= s.len(),
            inner == s@.subrange(d as int, e as int),
            split_at(s@.subrange(d as int, i as int), ',') == done.push(
                s@.subrange(start as int, i as int),
            ),
            failed <==> listed_values(done) is None,
            !failed ==> values@ == base + listed_values(done)->0,
        decreases e - i,
    {
        let ghost before = s@.subrange(d as int, i as int);
        let ghost after = s@.subrange(d as int, i + 1);
        assert(after.drop_last() =~= before);
        assert(after.last() == s@[i as int]);
        if s[i] == ',' {
            let ghost piece = s@.subrange(start as int, i as int);
            let ghost old_done = done;
            let ghost old_values = values@;
            proof {
                done = done.push(piece);
                assert(done.drop_last() =~= old_done);
                assert(done.last() == piece);
            }
            if !failed {
                let (p, q) = trim_range(s, start, i);
                match parse_i32_range(s, p, q) {
                    Some(value) => {
                        values.push(value);
                        assert(values@ =~= base + listed_values(done)->0);
                    },
                    None => failed = true,
                }
            }
            assert(s@.subrange((i + 1) as int, (i + 1) as int) =~= Seq::<char>::empty());
            start = i + 1;
        } else {
            proof {
                let piece = s@.subrange(start as int, i as int);
                assert(s@.subrange(start as int, i + 1) =~= piece.push(s@[i as int]));
                let pieces = done.push(piece);
                assert(pieces.update(pieces.len() - 1, pieces.last().push(s@[i as int]))
                    =~= done.push(s@.subrange(start as int, i + 1)));
            }
        }
        i = i + 1;
    }
    let ghost piece = s@.subrange(start as int, e as int);
    let ghost pieces = done.push(piece);
    proof {
        assert(s@.subrange(d as int, i as int) == inner);
        assert(pieces.drop_last() =~= done);
        assert(pieces.last() == piece);
    }
    if !failed {
        let (p, q) = trim_range(s, start, e);
        match parse_i32_range(s, p, q) {
            Some(value) => {
                values.push(value);
                assert(values@ =~= base + listed_values(pieces)->0);
            },
            None => failed = true,
        }
    }
    assert(split_at(inner, ',') == pieces);
    !failed
}

/// Bound strings as the engine writes them: each number in brackets of its
/// own, written as `{}` writes it, one group after another.
pub open spec fn bracketed(values: Seq<i32>) -> Seq<char>
    decreases values.len(),
{
    if values.len() == 0 {
        Seq::<char>::empty()
    } else {
        bracketed(values.drop_last()) + opening(values.last()).push(']')
    }
}

/// A group up to its closing bracket: `[` and the number.
pub open spec fn opening(value: i32) -> Seq<char> {
    seq!['['] + signed_decimal(value as int)
}

/// The groups of a bracketed string, each cut at its closing bracket.
spec fn openings(values: Seq<i32>) -> Seq<Seq<char>> {
    Seq::new(values.len(), |i: int| opening(values[i]))
}

/// Appending text free of `sep` extends the last piece.
proof fn lemma_split_extends_last(s: Seq<char>, w: Seq<char>, sep: char)
    requires
        forall|i: int| 0 <= i < w.len() ==> w[i] != sep,
    ensures
        split_at(s + w, sep) == split_at(s, sep).update(
            split_at(s, sep).len() - 1,
            split_at(s, sep).last() + w,
        ),
    decreases w.len(),
{
    lemma_split_is_never_empty(s, sep);
    let q = split_at(s, sep);
    if w.len() == 0 {
        assert(s + w =~= s);
        assert(q.last() + w =~= q.last());
        assert(q.update(q.len() - 1, q.last()) =~= q);
    } else {
        let shorter = w.drop_last();
        lemma_split_extends_last(s, shorter, sep);
        assert((s + w).drop_last() =~= s + shorter);
        assert((s + w).last() == w.last());
        assert(w.last() == w[w.len() - 1]);
        let p = split_at(s + shorter, sep);
        assert((q.last() + shorter).push(w.last()) =~= q.last() + w);
        assert(p.update(p.len() - 1, p.last().push(w.last())) =~= q.update(
            q.len() - 1,
            q.last() + w,
        ));
    }
}

/// Text that neither starts nor ends with white space is its own trim.
proof fn lemma_trim_keeps(s: Seq<char>)
    requires
        s.len() > 0,
        !is_white_space(s[0]),
        !is_white_space(s.last()),
    ensures
        trim(s) == s,
{
    assert(trim_start(s) == s);
    assert(trim_end(s) == s);
}

/// A digit is not white space, nor a bracket or a comma.
proof fn lemma_digit_is_plain(c: char)
    requires
        is_digit(c),
    ensures
        !is_white_space(c),
        c != '[',
        c != ']',
        c != ',',
{
}

/// One group reads back as the number it holds.
proof fn lemma_opening_reads_back(value: i32)
    ensures
        group_values(opening(value)) == Some(seq![value]),
        trim(opening(value)).len() > 0,
        forall|i: int| 0 <= i < opening(value).len() ==> opening(value)[i] != ']',
{
    let digits = signed_decimal(value as int);
    let group = opening(value);
    lemma_signed_decimal_reads_back(value);
    lemma_digit_is_plain(digits.last());
    assert(group.last() == digits.last());
    assert(!is_white_space('['));
    lemma_trim_keeps(group);
    assert forall|i: int| 0 <= i < group.len() implies group[i] != ']' by {
        if i > 0 {
            assert(group[i] == digits[i - 1]);
            if is_digit(digits[i - 1]) {
                lemma_digit_is_plain(digits[i - 1]);
            }
        }
    }
    assert forall|i: int| 0 <= i < digits.len() implies digits[i] != ',' by {
        if is_digit(digits[i]) {
            lemma_digit_is_plain(digits[i]);
        }
    }
    assert(!is_white_space(digits[0]) && digits[0] != '[') by {
        if is_digit(digits[0]) {
            lemma_digit_is_plain(digits[0]);
        }
    }
    assert(group.drop_first() =~= digits);
    assert(strip_leading(digits, '[') == digits);
    assert(strip_leading(group, '[') == digits);
    lemma_trim_keeps(digits);
    assert(group_text(group) == digits);
    lemma_split_extends_last(Seq::<char>::empty(), digits, ',');
    assert(Seq::<char>::empty() + digits =~= digits);
    let pieces = split_at(digits, ',');
    assert(pieces =~= seq![digits]);
    assert(pieces.drop_last() =~= Seq::<Seq<char>>::empty());
    assert(pieces.last() == digits);
    assert(listed_values(Seq::<Seq<char>>::empty()) == Some(Seq::<i32>::empty()));
    assert(parse_i32(trim(pieces.last())) == Some(value));
    assert(listed_values(pieces) == Some(Seq::<i32>::empty().push(value)));
    assert(seq![value] =~= Seq::<i32>::empty().push(value));
}

/// Cutting a bracketed string at its closing brackets gives each group's
/// opening, and an empty piece after the last bracket.
proof fn lemma_bracketed_splits(values: Seq<i32>)
    ensures
        split_at(bracketed(values), ']') == openings(values).push(Seq::<char>::empty()),
    decreases values.len(),
{
    if values.len() == 0 {
        assert(openings(values).push(Seq::<char>::empty()) =~= seq![Seq::<char>::empty()]);
    } else {
        let rest = values.drop_last();
        let last = values.last();
        let front = bracketed(rest);
        let group = opening(last);
        let whole = bracketed(values);
        lemma_bracketed_splits(rest);
        lemma_opening_reads_back(last);
        lemma_split_extends_last(front, group, ']');
        assert(whole.drop_last() =~= front + group);
        assert(whole.last() == ']');
        let q = split_at(front, ']');
        assert(q.last() + group =~= group);
        assert(openings(rest).push(Seq::<char>::empty()).update(
            openings(rest).len() as int,
            group,
        ) =~= openings(values));
    }
}

/// No opening is blank, so none is dropped.
proof fn lemma_openings_are_kept(values: Seq<i32>)
    ensures
        non_blank(openings(values)) == openings(values),
    decreases values.len(),
{
    if values.len() > 0 {
        let rest = values.drop_last();
        lemma_openings_are_kept(rest);
        lemma_opening_reads_back(values.last());
        assert(openings(values).drop_last() =~= openings(rest));
        assert(openings(values).last() == opening(values.last()));
        assert(openings(rest).push(opening(values.last())) =~= openings(values));
    }
}

/// The openings read back as the numbers they hold.
proof fn lemma_openings_read_back(values: Seq<i32>)
    ensures
        group_bounds(openings(values)) == Some(values),
    decreases values.len(),
{
    if values.len() > 0 {
        let rest = values.drop_last();
        lemma_openings_read_back(rest);
        lemma_opening_reads_back(values.last());
        assert(openings(values).drop_last() =~= openings(rest));
        assert(openings(values).last() == opening(values.last()));
        assert(rest + seq![values.last()] =~= values);
    }
}

/// A non-empty bracketed string opens with `[` and a character that is not
/// `]`, and closes with `]`.
proof fn lemma_bracketed_shape(values: Seq<i32>)
    requires
        values.len() > 0,
    ensures
        bracketed(values).len() >= 3,
        bracketed(values)[0] == '[',
        bracketed(values)[1] != ']',
        bracketed(values).last() == ']',
    decreases values.len(),
{
    let rest = values.drop_last();
    let last = values.last();
    let tail = opening(last).push(']');
    lemma_opening_reads_back(last);
    lemma_signed_decimal_reads_back(last);
    if rest.len() == 0 {
        assert(bracketed(values) =~= tail);
        assert(tail[1] == opening(last)[1]);
    } else {
        lemma_bracketed_shape(rest);
        assert(bracketed(values)[0] == bracketed(rest)[0]);
        assert(bracketed(values)[1] == bracketed(rest)[1]);
    }
}

/// Bounds written the engine's way, each number in its own brackets, parse
/// back to the same numbers in the same order; no numbers write the empty
/// string, which parses to no bounds.
pub proof fn lemma_bracketed_bounds_read_back(values: Seq<i32>)
    ensures
        bounds_of(bracketed(values)) == Some(values),
{
    let text = bracketed(values);
    if values.len() == 0 {
        assert(trim_start(text) == text);
        assert(trim_end(text) == text);
        assert(values =~= Seq::<i32>::empty());
    } else {
        lemma_bracketed_shape(values);
        assert(!is_white_space('[') && !is_white_space(']'));
        lemma_trim_keeps(text);
        assert(text != "[]"@) by {
            reveal_strlit("[]");
            if text == "[]"@ {
                assert(text[1] == ']');
            }
        }
        lemma_bracketed_splits(values);
        let pieces = openings(values).push(Seq::<char>::empty());
        assert(pieces.drop_last() =~= openings(values));
        assert(trim(Seq::<char>::empty()).len() == 0) by {
            assert(trim_start(Seq::<char>::empty()) == Seq::<char>::empty());
            assert(trim_end(Seq::<char>::empty()) == Seq::<char>::empty());
        }
        assert(non_blank(pieces) == non_blank(openings(values)));
        lemma_openings_are_kept(values);
        lemma_openings_read_back(values);
    }
}

/// Parses a bound string into one number per dimension.
///
/// The engine writes one bracketed group per dimension, so a 1D array reads
/// `[9]` and a 2D one `[9][1]`; the numbers of one group may also be separated
/// by commas, so `[2,4]` reads as two dimensions. An empty string, or `[]`,
/// means the array holds nothing.
pub fn parse_bounds(text: &str) -> (bounds: Result<Vec<i32>, Error>)
    ensures
        match bounds {
            Ok(values) => bounds_of(text@) == Some(values@),
            Err(error) => bounds_of(text@) is None && malformed_bounds(error),
        },
{
    let chars = chars_of(text);
    let (lo, hi) = trim_range(&chars, 0, chars.len());
    let ghost trimmed = chars@.subrange(lo as int, hi as int);
    assert(chars@.subrange(0, chars@.len() as int) =~= text@);
    if lo == hi {
        return Ok(Vec::new());
    }
    if hi - lo == 2 && chars[lo] == '[' && chars[lo + 1] == ']' {
        proof {
            reveal_strlit("[]");
            assert(trimmed =~= "[]"@);
        }
        return Ok(Vec::new());
    }
    assert(trimmed != "[]"@) by {
        reveal_strlit("[]");
        if trimmed == "[]"@ {
            assert(trimmed[0] == '[' && trimmed[1] == ']');
        }
    }
    let mut values: Vec<i32> = Vec::new();
    let mut failed = false;
    let mut start = lo;
    let mut i = lo;
    let ghost mut done: Seq<Seq<char>> = Seq::empty();
    assert(chars@.subrange(lo as int, lo as int) =~= Seq::<char>::empty());
    while i < hi
        invariant
            lo <= start <= i <= hi <= chars.len(),
            trimmed == chars@.subrange(lo as int, hi as int),
            split_at(chars@.subrange(lo as int, i as int), ']') == done.push(
                chars@.subrange(start as int, i as int),
            ),
            failed <==> group_bounds(non_blank(done)) is None,
            !failed ==> group_bounds(non_blank(done)) == Some(values@),
        decreases hi - i,
    {
        let ghost before = chars@.subrange(lo as int, i as int);
        let ghost after = chars@.subrange(lo as int, i + 1);
        assert(after.drop_last() =~= before);
        assert(after.last() == chars@[i as int]);
        if chars[i] == ']' {
            let ghost group = chars@.subrange(start as int, i as int);
            let (a, b) = trim_range(&chars, start, i);
            let blank = a == b;
            let ghost old_done = done;
            proof {
                done = done.push(group);
                assert(done.drop_last() =~= old_done);
                assert(done.last() == group);
                if !blank {
                    let kept = non_blank(done);
                    assert(kept == non_blank(old_done).push(group));
                    assert(kept.drop_last() =~= non_blank(old_done));
                    assert(kept.last() == group);
                }
            }
            if !blank && !failed {
                if !read_group(&chars, start, i, &mut values) {
                    failed = true;
                }
            }
            assert(chars@.subrange((i + 1) as int, (i + 1) as int) =~= Seq::<char>::empty());
            start = i + 1;
        } else {
            proof {
                let group = chars@.subrange(start as int, i as int);
                assert(chars@.subrange(start as int, i + 1) =~= group.push(chars@[i as int]));
                let pieces = done.push(group);
                assert(pieces.update(pieces.len() - 1, pieces.last().push(chars@[i as int]))
                    =~= done.push(chars@.subrange(start as int, i + 1)));
            }
        }
        i = i + 1;
    }
    let ghost group = chars@.subrange(start as int, hi as int);
    let (a, b) = trim_range(&chars, start, hi);
    let ghost pieces = done.push(group);
    proof {
        assert(pieces.drop_last() =~= done);
        assert(pieces.last() == group);
        if a != b {
            let kept = non_blank(pieces);
            assert(kept == non_blank(done).push(group));
            assert(kept.drop_last() =~= non_blank(done));
            assert(kept.last() == group);
        }
    }
    if a != b && !failed {
        if !read_group(&chars, start, hi, &mut values) {
            failed = true;
        }
    }
    assert(failed <==> group_bounds(non_blank(pieces)) is None);
    assert(!failed ==> group_bounds(non_blank(pieces)) == Some(values@));
    if failed {
        Err(
            Error::UnexpectedType {
                expected: "one bracketed integer per dimension, e.g. [0][0]",
                actual: "an unparsable bound string",
            },
        )
    } else {
        Ok(values)
    }
}

/// The error for a lower and upper bound string that disagree on the number of
/// dimensions.
pub open spec fn mismatched_bounds(error: Error) -> bool {
    error matches Error::UnexpectedType { expected, actual } && expected@
        == "matching lower and upper bound counts"@ && actual@ == "differing bound counts"@
}

/// The length of every dimension spanned by the lower and upper bounds.
pub open spec fn spans(lower: Seq<i32>, upper: Seq<i32>) -> Seq<int> {
    Seq::new(lower.len(), |i: int| upper[i] - lower[i] + 1)
}

/// What the lower and upper bound strings of an array say its dimensions'
/// lengths are: an empty array reports a lower bound but no upper one, so
/// each of its dimensions holds nothing.
pub open spec fn lengths_stated(lower: Seq<i32>, upper: Seq<i32>) -> Option<Seq<int>> {
    if upper.len() == 0 {
        Some(Seq::new(lower.len(), |i: int| 0))
    } else if lower.len() != upper.len() {
        None
    } else {
        Some(spans(lower, upper))
    }
}

/// Every length fits in an `i32`.
pub open spec fn lengths_fit(lower: Seq<i32>, upper: Seq<i32>) -> bool {
    forall|i: int|
        0 <= i < lower.len() && i < upper.len() ==> i32::MIN <= #[trigger] upper[i] - lower[i] + 1
            <= i32::MAX
}

/// Whether every length the bound strings span fits in an `i32`, which is
/// what [`dimension_lengths`] asks of its inputs; malformed bound strings ask
/// nothing, since they are reported as errors.
pub fn dimension_lengths_fit(lower_bounds: &str, upper_bounds: &str) -> (fit: bool)
    ensures
        fit == (bounds_of(lower_bounds@) matches Some(lower) ==> bounds_of(upper_bounds@) matches Some(
            upper,
        ) ==> lengths_fit(lower, upper)),
{
    let lower = match parse_bounds(lower_bounds) {
        Ok(values) => values,
        Err(_) => return true,
    };
    let upper = match parse_bounds(upper_bounds) {
        Ok(values) => values,
        Err(_) => return true,
    };
    let mut i: usize = 0;
    while i < lower.len() && i < upper.len()
        invariant
            i <= lower.len(),
            bounds_of(lower_bounds@) == Some(lower@),
            bounds_of(upper_bounds@) == Some(upper@),
            forall|j: int|
                0 <= j < i && j < upper.len() ==> i32::MIN <= #[trigger] upper@[j] - lower@[j] + 1
                    <= i32::MAX,
        decreases lower.len() - i,
    {
        let span = upper[i] as i64 - lower[i] as i64 + 1;
        if span < i32::MIN as i64 || span > i32::MAX as i64 {
            assert(!lengths_fit(lower@, upper@)) by {
                let k = i as int;
                assert(upper@[k] - lower@[k] + 1 == span);
                assert(!(i32::MIN <= upper@[k] - lower@[k] + 1 <= i32::MAX));
            }
            return false;
        }
        i = i + 1;
    }
    true
}

/// The per-dimension lengths, derived from the bound strings.
///
/// `[0,0]`..`[2,4]` yields `[3, 5]`, as does `[0][0]`..`[2][4]`; an empty
/// array (`[0]`..`[]`) has a dimension of length zero.
pub fn dimension_lengths(lower_bounds: &str, upper_bounds: &str) -> (lengths: Result<
    Vec<i32>,
    Error,
>)
    requires
        bounds_of(lower_bounds@) matches Some(lower) ==> bounds_of(upper_bounds@) matches Some(
            upper,
        ) ==> lengths_fit(lower, upper),
    ensures
        match (bounds_of(lower_bounds@), bounds_of(upper_bounds@)) {
            (Some(lower), Some(upper)) => match lengths_stated(lower, upper) {
                Some(expected) => lengths matches Ok(found) && found@.len() == expected.len()
                    && forall|i: int| 0 <= i < expected.len() ==> found@[i] == expected[i],
                None => lengths matches Err(error) && mismatched_bounds(error),
            },
            _ => lengths matches Err(error) && malformed_bounds(error),
        },
{
    let lower = match parse_bounds(lower_bounds) {
        Ok(values) => values,
        Err(error) => return Err(error),
    };
    let upper = match parse_bounds(upper_bounds) {
        Ok(values) => values,
        Err(error) => return Err(error),
    };
    if upper.len() == 0 {
        let mut zeros: Vec<i32> = Vec::new();
        while zeros.len() < lower.len()
            invariant
                zeros.len() <= lower.len(),
                forall|i: int| 0 <= i < zeros.len() ==> zeros@[i] == 0,
            decreases lower.len() - zeros.len(),
        {
            zeros.push(0);
        }
        return Ok(zeros);
    }
    if lower.len() != upper.len() {
        return Err(
            Error::UnexpectedType {
                expected: "matching lower and upper bound counts",
                actual: "differing bound counts",
            },
        );
    }
    let mut lengths: Vec<i32> = Vec::new();
    let mut i: usize = 0;
    while i < lower.len()
        invariant
            lower.len() == upper.len(),
            i <= lower.len(),
            lengths.len() == i,
            lengths_fit(lower@, upper@),
            forall|j: int| 0 <= j < i ==> lengths@[j] == upper@[j] - lower@[j] + 1,
        decreases lower.len() - i,
    {
        assert(i32::MIN <= upper@[i as int] - lower@[i as int] + 1 <= i32::MAX);
        let span = (upper[i] as i64 - lower[i] as i64 + 1) as i32;
        lengths.push(span);
        i = i + 1;
    }
    Ok(lengths)
}

} // verus!
