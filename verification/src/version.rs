//! Dotted version strings and their order.
//!
//! A version string is cut at every `.`; each piece that reads as a
//! number contributes that number, every other piece contributes
//! nothing. Two versions are compared number by number, the shorter one
//! padded with zeros.

use vstd::prelude::*;
use crate::text::chars_of;

verus! {

/// `c` is one of `0` to `9`.
pub open spec fn is_digit(c: char) -> bool {
    '0' <= c && c <= '9'
}

/// The value of the digit `c`.
pub open spec fn digit_value(c: char) -> nat {
    (c as u32 - '0' as u32) as nat
}

/// The number that the digits `d` spell in base ten (0 for no digits).
pub open spec fn digits_value(d: Seq<char>) -> nat
    decreases d.len(),
{
    if d.len() == 0 {
        0
    } else {
        digits_value(d.drop_last()) * 10 + digit_value(d.last())
    }
}

/// Every character of `d` is a digit.
pub open spec fn all_digits(d: Seq<char>) -> bool {
    forall|i: int| 0 <= i < d.len() ==> is_digit(#[trigger] d[i])
}

/// `piece` without one leading `+`, if it has one.
pub open spec fn unsigned_part(piece: Seq<char>) -> Seq<char> {
    if piece.len() > 0 && piece[0] == '+' {
        piece.skip(1)
    } else {
        piece
    }
}

/// The number a piece of a version string stands for: an optional `+`,
/// then one or more digits, the value within `u32`. Any other piece,
/// the empty one included, stands for no number.
pub open spec fn piece_number(piece: Seq<char>) -> Option<u32> {
    let d = unsigned_part(piece);
    if d.len() > 0 && all_digits(d) && digits_value(d) <= u32::MAX {
        Some(digits_value(d) as u32)
    } else {
        None
    }
}

/// The pieces between the dots of `s`, in order. A string without a dot
/// is its own single piece; `n` dots give `n + 1` pieces.
pub open spec fn pieces(s: Seq<char>) -> Seq<Seq<char>>
    decreases s.len(),
{
    if s.len() == 0 {
        seq![Seq::<char>::empty()]
    } else {
        let before = pieces(s.drop_last());
        if s.last() == '.' {
            before.push(Seq::<char>::empty())
        } else {
            before.drop_last().push(before.last().push(s.last()))
        }
    }
}

/// The numbers of those pieces that stand for one, in order.
pub open spec fn numbers_of(parts: Seq<Seq<char>>) -> Seq<u32>
    decreases parts.len(),
{
    if parts.len() == 0 {
        Seq::<u32>::empty()
    } else {
        let before = numbers_of(parts.drop_last());
        match piece_number(parts.last()) {
            Some(n) => before.push(n),
            None => before,
        }
    }
}

/// The numbers a version string holds.
pub open spec fn version_numbers(s: Seq<char>) -> Seq<u32> {
    numbers_of(pieces(s))
}

/// The `i`-th number of `v`, zero past its end.
pub open spec fn number_at(v: Seq<u32>, i: int) -> int {
    if 0 <= i < v.len() {
        v[i] as int
    } else {
        0
    }
}

/// `latest` is ahead of `current`: at the first position where the two
/// differ, `latest` holds the larger number.
pub open spec fn numbers_newer(current: Seq<u32>, latest: Seq<u32>) -> bool {
    exists|i: int|
        0 <= i && #[trigger] number_at(latest, i) > number_at(current, i) && forall|j: int|
            0 <= j < i ==> #[trigger] number_at(latest, j) == number_at(current, j)
}

/// `latest` names a newer version than `current`.
pub open spec fn is_newer(current: Seq<char>, latest: Seq<char>) -> bool {
    numbers_newer(version_numbers(current), version_numbers(latest))
}

proof fn lemma_pieces_nonempty(s: Seq<char>)
    ensures
        pieces(s).len() >= 1,
    decreases s.len(),
{
    if s.len() > 0 {
        lemma_pieces_nonempty(s.drop_last());
    }
}

proof fn lemma_digits_value_grows(d: Seq<char>, k: int)
    requires
        0 <= k <= d.len(),
    ensures
        digits_value(d.take(k)) <= digits_value(d),
    decreases d.len(),
{
    if k == d.len() {
        assert(d.take(k) =~= d);
    } else {
        lemma_digits_value_grows(d.drop_last(), k);
        assert(d.drop_last().take(k) =~= d.take(k));
    }
}

/// Reads one piece of a version string.
fn parse_piece(piece: &Vec<char>) -> (n: Option<u32>)
    ensures
        n == piece_number(piece@),
{
    let len: usize = piece.len();
    let start: usize = if len > 0 && piece[0] == '+' {
        1
    } else {
        0
    };
    let ghost d = unsigned_part(piece@);
    assert(d =~= piece@.skip(start as int));
    if start == len {
        return None;
    }
    let mut acc: u32 = 0;
    let mut i: usize = start;
    while i < len
        invariant
            start <= i <= len,
            len == piece.len(),
            d == piece@.skip(start as int),
            d == unsigned_part(piece@),
            all_digits(d.take(i - start)),
            acc == digits_value(d.take(i - start)),
        decreases len - i,
    {
        let c: char = piece[i];
        let ghost k = i - start;
        assert(d[k] == c);
        if !(c >= '0' && c <= '9') {
            assert(!is_digit(d[k]));
            return None;
        }
        let v: u32 = c as u32 - '0' as u32;
        proof {
            assert(d.take(k + 1).drop_last() =~= d.take(k));
            assert(d.take(k + 1).last() == c);
            lemma_digits_value_grows(d, k + 1);
            assert(digits_value(d.take(k + 1)) == digits_value(d.take(k)) * 10 + digit_value(c));
            assert forall|j: int| 0 <= j < d.take(k + 1).len() implies is_digit(
                #[trigger] d.take(k + 1)[j],
            ) by {
                if j < k {
                    assert(d.take(k)[j] == d.take(k + 1)[j]);
                }
            }
        }
        if acc > (u32::MAX - v) / 10 {
            return None;
        }
        acc = acc * 10 + v;
        i += 1;
    }
    assert(d.take(len - start) =~= d);
    Some(acc)
}

/// Reads the numbers of a version string.
pub fn parse_version(s: &str) -> (v: Vec<u32>)
    ensures
        v@ == version_numbers(s@),
{
    let chars = chars_of(s);
    let mut done: Vec<u32> = Vec::new();
    let mut piece: Vec<char> = Vec::new();
    let mut i: usize = 0;
    proof {
        assert(chars@.take(0) =~= Seq::<char>::empty());
        assert(pieces(chars@.take(0)).drop_last() =~= Seq::<Seq<char>>::empty());
    }
    while i < chars.len()
        invariant
            i <= chars.len(),
            chars@ == s@,
            pieces(chars@.take(i as int)).len() >= 1,
            done@ == numbers_of(pieces(chars@.take(i as int)).drop_last()),
            piece@ == pieces(chars@.take(i as int)).last(),
        decreases chars.len() - i,
    {
        let c: char = chars[i];
        let ghost before = pieces(chars@.take(i as int));
        let ghost now = pieces(chars@.take(i + 1));
        proof {
            assert(chars@.take(i + 1).drop_last() =~= chars@.take(i as int));
            assert(chars@.take(i + 1).last() == c);
            lemma_pieces_nonempty(chars@.take(i + 1));
        }
        if c == '.' {
            let n = parse_piece(&piece);
            match n {
                Some(x) => {
                    done.push(x);
                },
                None => {},
            }
            piece = Vec::new();
            proof {
                assert(now == before.push(Seq::<char>::empty()));
                assert(now.drop_last() =~= before);
            }
        } else {
            piece.push(c);
            proof {
                assert(now == before.drop_last().push(before.last().push(c)));
                assert(now.drop_last() =~= before.drop_last());
            }
        }
        i += 1;
    }
    proof {
        assert(chars@.take(chars.len() as int) =~= chars@);
    }
    let n = parse_piece(&piece);
    match n {
        Some(x) => {
            done.push(x);
        },
        None => {},
    }
    done
}

/// The `i`-th number of `v`, zero past its end.
fn number_or_zero(v: &Vec<u32>, i: usize) -> (n: u32)
    ensures
        n == number_at(v@, i as int),
{
    if i < v.len() {
        v[i]
    } else {
        0
    }
}

/// Compares two lists of version numbers.
pub fn compare_numbers(current: &Vec<u32>, latest: &Vec<u32>) -> (newer: bool)
    ensures
        newer == numbers_newer(current@, latest@),
{
    let max_len: usize = if current.len() > latest.len() {
        current.len()
    } else {
        latest.len()
    };
    let mut i: usize = 0;
    while i < max_len
        invariant
            i <= max_len,
            max_len >= current.len(),
            max_len >= latest.len(),
            forall|j: int| 0 <= j < i ==> #[trigger] number_at(latest@, j) == number_at(current@, j),
        decreases max_len - i,
    {
        let c: u32 = number_or_zero(current, i);
        let l: u32 = number_or_zero(latest, i);
        if l > c {
            return true;
        } else if l < c {
            proof {
                assert forall|k: int|
                    0 <= k && #[trigger] number_at(latest@, k) > number_at(
                        current@,
                        k,
                    ) implies !(forall|j: int|
                    0 <= j < k ==> #[trigger] number_at(latest@, j) == number_at(current@, j)) by {
                    if k > i {
                        assert(number_at(latest@, i as int) != number_at(current@, i as int));
                    }
                }
            }
            return false;
        }
        i += 1;
    }
    false
}

/// Whether `latest` names a newer version than `current`.
///
/// Both strings are cut at their dots. A piece counts when it is an
/// optional `+` followed by digits with a value within `u32`; any other
/// piece is left out, not read as zero. The shorter list of numbers is
/// padded with zeros at its end, and the first position where the two
/// lists differ decides: the answer is `true` when `latest` holds the
/// larger number there, and `false` when it holds the smaller one or the
/// lists do not differ.
pub fn version_compare(current: &str, latest: &str) -> (newer: bool)
    ensures
        newer == is_newer(current@, latest@),
{
    let current_parts = parse_version(current);
    let latest_parts = parse_version(latest);
    compare_numbers(&current_parts, &latest_parts)
}

/// The pieces `parts` put together again, with a dot between every two.
pub open spec fn joined_by_dots(parts: Seq<Seq<char>>) -> Seq<char>
    decreases parts.len(),
{
    if parts.len() == 0 {
        Seq::<char>::empty()
    } else if parts.len() == 1 {
        parts[0]
    } else {
        joined_by_dots(parts.drop_last()) + seq!['.'] + parts.last()
    }
}

/// The pieces of a string are what lies between its dots: no piece
/// holds a dot, and the pieces put together again with dots between
/// them are the string.
pub proof fn lemma_pieces_split_at_dots(s: Seq<char>)
    ensures
        pieces(s).len() >= 1,
        joined_by_dots(pieces(s)) == s,
        forall|k: int, i: int|
            0 <= k < pieces(s).len() && 0 <= i < pieces(s)[k].len() ==> pieces(s)[k][i] != '.',
    decreases s.len(),
{
    if s.len() == 0 {
        assert(joined_by_dots(pieces(s)) =~= s);
    } else {
        let t = s.drop_last();
        let c = s.last();
        lemma_pieces_split_at_dots(t);
        let before = pieces(t);
        let now = pieces(s);
        assert(s =~= t.push(c));
        if c == '.' {
            assert(now.drop_last() =~= before);
            assert(joined_by_dots(now) =~= s);
        } else {
            if before.len() == 1 {
                assert(joined_by_dots(now) =~= s);
            } else {
                assert(now.drop_last() =~= before.drop_last());
                assert(joined_by_dots(now) =~= joined_by_dots(before).push(c));
            }
        }
        assert forall|k: int, i: int|
            0 <= k < now.len() && 0 <= i < now[k].len() implies now[k][i] != '.' by {
            if k < before.len() - 1 || (c == '.' && k < before.len()) {
                assert(now[k] == before[k]);
            } else if c != '.' {
                if i < before.last().len() {
                    assert(now[k][i] == before.last()[i]);
                }
            }
        }
    }
}

/// No version is newer than itself.
pub proof fn lemma_not_newer_than_itself(v: Seq<char>)
    ensures
        !is_newer(v, v),
{
}

/// Appending `.0` to a version string appends the number zero to its
/// numbers.
pub proof fn lemma_trailing_zero_numbers(v: Seq<char>)
    ensures
        version_numbers(v + ".0"@) == version_numbers(v).push(0u32),
{
    reveal_strlit(".0");
    let dotted = v.push('.');
    let full = dotted.push('0');
    assert(v + ".0"@ =~= full);
    assert(dotted.drop_last() =~= v);
    assert(full.drop_last() =~= dotted);
    lemma_pieces_nonempty(v);
    let zero = seq!['0'];
    assert(pieces(dotted) == pieces(v).push(Seq::<char>::empty()));
    assert(pieces(dotted).drop_last() =~= pieces(v));
    assert(Seq::<char>::empty().push('0') =~= zero);
    assert(pieces(full) == pieces(v).push(zero));
    assert(pieces(full).drop_last() =~= pieces(v));
    assert(unsigned_part(zero) == zero);
    assert(zero.drop_last() =~= Seq::<char>::empty());
    assert(digits_value(zero) == 0) by {
        reveal_with_fuel(digits_value, 2);
    }
    assert(piece_number(zero) == Some(0u32));
}

/// A version with `.0` appended is not newer than the version itself:
/// padding with a trailing zero changes nothing.
pub proof fn lemma_trailing_zero_not_newer(v: Seq<char>)
    ensures
        !is_newer(v, v + ".0"@),
{
    lemma_trailing_zero_numbers(v);
    let a = version_numbers(v);
    let b = a.push(0u32);
    assert forall|i: int| 0 <= i implies number_at(b, i) == number_at(a, i) by {}
}

} // verus!
