//! Verified text utilities: decimal rendering and parsing, substring search
//! and placeholder replacement. URL materialization and address normalization
//! are built on these.

use vstd::prelude::*;
use vstd::string::*;

verus! {

/// True for the ten ASCII digit characters.
pub open spec fn spec_is_digit(c: char) -> bool {
    48 <= c as u32 <= 57
}

/// Numeric value of a digit character; 0 for anything else.
pub open spec fn spec_digit_val(c: char) -> nat {
    if spec_is_digit(c) {
        (c as u32 - 48) as nat
    } else {
        0
    }
}

/// The character for a single decimal digit value.
pub open spec fn spec_digit_char(d: nat) -> char {
    if d == 0 { '0' }
    else if d == 1 { '1' }
    else if d == 2 { '2' }
    else if d == 3 { '3' }
    else if d == 4 { '4' }
    else if d == 5 { '5' }
    else if d == 6 { '6' }
    else if d == 7 { '7' }
    else if d == 8 { '8' }
    else { '9' }
}

/// Decimal digit characters of `n`, most significant first.
pub open spec fn spec_decimal(n: nat) -> Seq<char>
    decreases n,
{
    if n < 10 {
        seq![spec_digit_char(n)]
    } else {
        spec_decimal(n / 10).push(spec_digit_char(n % 10))
    }
}

/// Value of a sequence of digit characters, most significant first.
pub open spec fn spec_decimal_value(s: Seq<char>) -> nat
    decreases s.len(),
{
    if s.len() == 0 {
        0
    } else {
        spec_decimal_value(s.drop_last()) * 10 + spec_digit_val(s.last())
    }
}

/// All characters of `s` in the index range `[from, to)` are digits.
pub open spec fn spec_all_digits(s: Seq<char>, from: int, to: int) -> bool {
    forall|j: int| from <= j < to ==> spec_is_digit(s[j])
}

/// `p` occurs in `s` starting at index `i`.
pub open spec fn spec_match_at(s: Seq<char>, p: Seq<char>, i: int) -> bool {
    0 <= i && i + p.len() <= s.len() && s.subrange(i, i + p.len() as int) == p
}

/// `p` occurs somewhere in `s`.
pub open spec fn spec_contains(s: Seq<char>, p: Seq<char>) -> bool {
    exists|i: int| spec_match_at(s, p, i)
}

/// `s` starts with `p`.
pub open spec fn spec_has_prefix(s: Seq<char>, p: Seq<char>) -> bool {
    spec_match_at(s, p, 0)
}

/// `s` with every occurrence of `from` replaced by `to`, scanning left to
/// right and never rescanning replaced text.
pub open spec fn spec_replace(s: Seq<char>, from: Seq<char>, to: Seq<char>) -> Seq<char>
    decreases s.len(),
        when from.len() > 0
{
    if s.len() < from.len() {
        s
    } else if s.subrange(0, from.len() as int) == from {
        to + spec_replace(s.skip(from.len() as int), from, to)
    } else {
        seq![s[0]] + spec_replace(s.skip(1), from, to)
    }
}

/// One decimal digit as a string.
fn digit_to_string(d: u32) -> (s: String)
    requires
        d < 10,
    ensures
        s@ == seq![spec_digit_char(d as nat)],
{
    let s: &str = if d == 0 { "0" }
    else if d == 1 { "1" }
    else if d == 2 { "2" }
    else if d == 3 { "3" }
    else if d == 4 { "4" }
    else if d == 5 { "5" }
    else if d == 6 { "6" }
    else if d == 7 { "7" }
    else if d == 8 { "8" }
    else { "9" };
    proof {
        reveal_strlit("0");
        reveal_strlit("1");
        reveal_strlit("2");
        reveal_strlit("3");
        reveal_strlit("4");
        reveal_strlit("5");
        reveal_strlit("6");
        reveal_strlit("7");
        reveal_strlit("8");
        reveal_strlit("9");
        assert(s@ =~= seq![spec_digit_char(d as nat)]);
    }
    s.to_owned()
}

/// Renders `n` in decimal, e.g. 204 as "204".
pub fn u32_to_decimal(n: u32) -> (s: String)
    ensures
        s@ == spec_decimal(n as nat),
    decreases n,
{
    if n < 10 {
        digit_to_string(n)
    } else {
        let high = u32_to_decimal(n / 10);
        let low = digit_to_string(n % 10);
        high.concat(low.as_str())
    }
}

/// Checks whether `p` occurs in `s` at index `i`.
fn match_at(s: &str, p: &str, i: usize) -> (r: bool)
    requires
        i + p@.len() <= s@.len(),
    ensures
        r == spec_match_at(s@, p@, i as int),
{
    let p_len = p.unicode_len();
    let _s_len = s.unicode_len();
    let mut j: usize = 0;
    while j < p_len
        invariant
            j <= p_len,
            p_len == p@.len(),
            i + p@.len() <= s@.len(),
            s@.len() <= usize::MAX,
            forall|k: int| 0 <= k < j ==> s@[i + k] == p@[k],
        decreases p_len - j,
    {
        if s.get_char(i + j) != p.get_char(j) {
            proof {
                if spec_match_at(s@, p@, i as int) {
                    assert(s@.subrange(i as int, i + p@.len() as int)[j as int] == p@[j as int]);
                }
            }
            return false;
        }
        j += 1;
    }
    proof {
        assert(s@.subrange(i as int, i + p@.len() as int) =~= p@);
    }
    true
}

/// Checks whether `s` contains `p` as a substring.
pub fn contains_sub(s: &str, p: &str) -> (r: bool)
    ensures
        r == spec_contains(s@, p@),
{
    let s_len = s.unicode_len();
    let p_len = p.unicode_len();
    if p_len > s_len {
        proof {
            assert(forall|i: int| !spec_match_at(s@, p@, i));
        }
        return false;
    }
    if p_len == 0 {
        proof {
            assert(s@.subrange(0, 0) =~= p@);
            assert(spec_match_at(s@, p@, 0));
        }
        return true;
    }
    let mut i: usize = 0;
    while i <= s_len - p_len
        invariant
            i <= s_len - p_len + 1,
            0 < p_len <= s_len,
            s_len == s@.len(),
            p_len == p@.len(),
            forall|k: int| 0 <= k < i ==> !spec_match_at(s@, p@, k),
        decreases s_len - p_len + 1 - i,
    {
        if match_at(s, p, i) {
            return true;
        }
        i += 1;
    }
    proof {
        assert(forall|k: int| !spec_match_at(s@, p@, k));
    }
    false
}

/// Checks whether `s` starts with `p`.
pub fn has_prefix(s: &str, p: &str) -> (r: bool)
    ensures
        r == spec_has_prefix(s@, p@),
{
    let s_len = s.unicode_len();
    let p_len = p.unicode_len();
    if p_len > s_len {
        return false;
    }
    match_at(s, p, 0)
}

/// Parses the digit run `s[from..to]` as a number of at most `max`.
/// Returns `None` when the range is empty, holds a non-digit, or exceeds
/// `max`.
pub fn parse_decimal(s: &str, from: usize, to: usize, max: u64) -> (r: Option<u64>)
    requires
        from <= to <= s@.len(),
    ensures
        match r {
            Some(v) => from < to && spec_all_digits(s@, from as int, to as int)
                && v == spec_decimal_value(s@.subrange(from as int, to as int)) && v <= max,
            None => from == to || !spec_all_digits(s@, from as int, to as int)
                || spec_decimal_value(s@.subrange(from as int, to as int)) > max,
        },
{
    if from == to {
        return None;
    }
    let _s_len = s.unicode_len();
    let mut acc: u64 = 0;
    let mut i: usize = from;
    while i < to
        invariant
            from <= i <= to <= s@.len(),
            s@.len() <= usize::MAX,
            spec_all_digits(s@, from as int, i as int),
            acc == spec_decimal_value(s@.subrange(from as int, i as int)),
            acc <= max,
        decreases to - i,
    {
        let c = s.get_char(i);
        let u = c as u32;
        if !(48 <= u && u <= 57) {
            return None;
        }
        let d = (u - 48) as u64;
        proof {
            assert(s@.subrange(from as int, i + 1).drop_last() =~= s@.subrange(
                from as int,
                i as int,
            ));
            assert(s@.subrange(from as int, i + 1).last() == s@[i as int]);
        }
        if d > max || acc > (max - d) / 10 {
            proof {
                lemma_decimal_value_prefix_bound(s@.subrange(from as int, to as int), i + 1 - from);
                assert(s@.subrange(from as int, to as int).subrange(0, i + 1 - from) =~= s@.subrange(
                    from as int,
                    i + 1,
                ));
            }
            return None;
        }
        acc = acc * 10 + d;
        i += 1;
    }
    Some(acc)
}

/// The value of a digit string never falls when more digits follow.
proof fn lemma_decimal_value_prefix_bound(t: Seq<char>, k: int)
    requires
        0 <= k <= t.len(),
    ensures
        spec_decimal_value(t.subrange(0, k)) <= spec_decimal_value(t),
    decreases t.len() - k,
{
    if k == t.len() {
        assert(t.subrange(0, k) =~= t);
    } else {
        assert(t.subrange(0, k + 1).drop_last() =~= t.subrange(0, k));
        lemma_decimal_value_prefix_bound(t, k + 1);
    }
}

/// Replaces every occurrence of `from` in `s` by `to`.
pub fn replace_all(s: &str, from: &str, to: &str) -> (r: String)
    requires
        from@.len() > 0,
    ensures
        r@ == spec_replace(s@, from@, to@),
{
    let s_len = s.unicode_len();
    let from_len = from.unicode_len();
    let mut out = String::new();
    let mut i: usize = 0;
    proof {
        assert(s@.skip(0) =~= s@);
        assert(Seq::<char>::empty() + spec_replace(s@, from@, to@) =~= spec_replace(
            s@,
            from@,
            to@,
        ));
    }
    while i < s_len
        invariant
            i <= s_len,
            s_len == s@.len(),
            from_len == from@.len(),
            from@.len() > 0,
            out@ + spec_replace(s@.skip(i as int), from@, to@) == spec_replace(s@, from@, to@),
        decreases s_len - i,
    {
        let ghost t = s@.skip(i as int);
        if from_len <= s_len - i && match_at(s, from, i) {
            out.append(to);
            proof {
                assert(t.subrange(0, from@.len() as int) =~= s@.subrange(
                    i as int,
                    i + from@.len(),
                ));
                assert(t.skip(from@.len() as int) =~= s@.skip(i + from@.len()));
                assert(spec_replace(t, from@, to@) == to@ + spec_replace(
                    s@.skip(i + from@.len()),
                    from@,
                    to@,
                ));
                assert(out@ + spec_replace(s@.skip(i + from@.len()), from@, to@) =~= spec_replace(
                    s@,
                    from@,
                    to@,
                ));
            }
            i += from_len;
        } else {
            let piece = s.substring_char(i, i + 1);
            out.append(piece);
            proof {
                if t.len() >= from@.len() {
                    assert(t.subrange(0, from@.len() as int) =~= s@.subrange(
                        i as int,
                        i + from@.len(),
                    ));
                }
                assert(t.skip(1) =~= s@.skip(i + 1));
                assert(seq![t[0]] =~= piece@);
                assert(spec_replace(t, from@, to@) == piece@ + spec_replace(
                    s@.skip(i + 1),
                    from@,
                    to@,
                ));
                assert(out@ + spec_replace(s@.skip(i + 1), from@, to@) =~= spec_replace(
                    s@,
                    from@,
                    to@,
                ));
            }
            i += 1;
        }
    }
    proof {
        assert(s@.skip(i as int) =~= Seq::<char>::empty());
        assert(out@ + spec_replace(s@.skip(i as int), from@, to@) =~= out@);
    }
    out
}

} // verus!
