//! Line splitting and unsigned decimal numbers over character sequences.
//!
//! A text is cut at each `'\n'`; a line that ended in `"\r\n"` loses both
//! characters, and a last line without a terminator is kept as it stands.

use vstd::prelude::*;

verus! {

/// The index of the first `'\n'` in `s`, or the length of `s` if it holds none.
pub open spec fn newline_at(s: Seq<char>) -> nat
    decreases s.len(),
{
    if s.len() == 0 || s[0] == '\n' {
        0
    } else {
        1 + newline_at(s.skip(1))
    }
}

/// `l` without one trailing `'\r'`.
pub open spec fn without_cr(l: Seq<char>) -> Seq<char> {
    if l.len() > 0 && l.last() == '\r' {
        l.drop_last()
    } else {
        l
    }
}

/// The lines of `s`.
pub open spec fn text_lines(s: Seq<char>) -> Seq<Seq<char>>
    decreases s.len(),
{
    if s.len() == 0 {
        Seq::empty()
    } else {
        let n = newline_at(s) as int;
        if n >= s.len() {
            seq![s]
        } else {
            seq![without_cr(s.take(n))] + text_lines(s.skip(n + 1))
        }
    }
}

/// `newline_at` is the one position that no `'\n'` precedes and that is
/// either a `'\n'` or the end of the text.
pub proof fn lemma_newline_at(s: Seq<char>, n: int)
    requires
        0 <= n <= s.len(),
        forall|k: int| 0 <= k < n ==> s[k] != '\n',
        n < s.len() ==> s[n] == '\n',
    ensures
        newline_at(s) == n,
    decreases s.len(),
{
    if n > 0 {
        let t = s.skip(1);
        assert forall|k: int| 0 <= k < n - 1 implies t[k] != '\n' by {
            assert(t[k] == s[k + 1]);
        }
        lemma_newline_at(t, n - 1);
    }
}

/// A decimal digit.
pub open spec fn is_digit(c: char) -> bool {
    48 <= c as u32 <= 57
}

/// Every character of `d` is a decimal digit.
pub open spec fn all_digits(d: Seq<char>) -> bool {
    forall|i: int| 0 <= i < d.len() ==> is_digit(#[trigger] d[i])
}

/// The number that the digits `d` write in base ten.
pub open spec fn decimal_value(d: Seq<char>) -> int
    decreases d.len(),
{
    if d.len() == 0 {
        0
    } else {
        decimal_value(d.drop_last()) * 10 + (d.last() as u32 - 48)
    }
}

/// The `u64` that `t` writes: an optional `'+'`, then one or more decimal
/// digits whose value fits. Anything else writes no number.
pub open spec fn parse_decimal(t: Seq<char>) -> Option<u64> {
    let d = if t.len() > 0 && t[0] == '+' {
        t.skip(1)
    } else {
        t
    };
    if d.len() > 0 && all_digits(d) && decimal_value(d) <= u64::MAX {
        Some(decimal_value(d) as u64)
    } else {
        None
    }
}

/// Among digits, a longer text writes no smaller a number than its prefix.
pub proof fn lemma_decimal_value_grows(d: Seq<char>, k: int)
    requires
        0 <= k <= d.len(),
        all_digits(d),
    ensures
        0 <= decimal_value(d.take(k)) <= decimal_value(d),
    decreases d.len() - k,
{
    if k == d.len() {
        assert(d.take(k) =~= d);
        lemma_decimal_value_nonnegative(d);
    } else {
        lemma_decimal_value_grows(d, k + 1);
        let t = d.take(k + 1);
        assert(t.drop_last() =~= d.take(k));
        assert(t.last() == d[k]);
        assert(is_digit(d[k]));
        lemma_decimal_value_nonnegative(d.take(k));
    }
}

/// Digits write a number that is not negative.
pub proof fn lemma_decimal_value_nonnegative(d: Seq<char>)
    requires
        all_digits(d),
    ensures
        0 <= decimal_value(d),
    decreases d.len(),
{
    if d.len() > 0 {
        assert(is_digit(d.last()));
        lemma_decimal_value_nonnegative(d.drop_last());
    }
}

/// Reads the characters of `text` between `from` and `to` as a `u64`.
pub fn parse_decimal_range(text: &[char], from: usize, to: usize) -> (r: Option<u64>)
    requires
        from <= to <= text@.len(),
    ensures
        r == parse_decimal(text@.subrange(from as int, to as int)),
{
    let ghost t = text@.subrange(from as int, to as int);
    let mut i: usize = from;
    if from < to && text[from] == '+' {
        i = from + 1;
    }
    let start = i;
    let ghost d = text@.subrange(start as int, to as int);
    proof {
        if start > from {
            assert(t[0] == '+');
            assert(t.skip(1) =~= d);
        } else {
            assert(from < to ==> t[0] != '+');
            assert(t =~= d);
        }
    }
    if start == to {
        return None;
    }
    let ghost goal = parse_decimal(t);
    let mut acc: u64 = 0;
    proof {
        assert(d.take(0) =~= Seq::<char>::empty());
    }
    while i < to
        invariant
            from <= start <= i <= to <= text@.len(),
            d == text@.subrange(start as int, to as int),
            goal == parse_decimal(text@.subrange(from as int, to as int)),
            goal == if all_digits(d) && decimal_value(d) <= u64::MAX {
                Some(decimal_value(d) as u64)
            } else {
                None
            },
            all_digits(d.take(i - start)),
            acc == decimal_value(d.take(i - start)),
        decreases to - i,
    {
        let c = text[i];
        let v = c as u32;
        let ghost k = i - start;
        proof {
            assert(d[k] == c);
            assert(d.take(k + 1).drop_last() =~= d.take(k));
            assert(d.take(k + 1).last() == c);
        }
        if v < 48 || v > 57 {
            assert(!is_digit(d[k]));
            return None;
        }
        let digit = (v - 48) as u64;
        proof {
            assert forall|j: int| 0 <= j < k + 1 implies is_digit(#[trigger] d.take(k + 1)[j]) by {
                if j < k {
                    assert(d.take(k)[j] == d.take(k + 1)[j]);
                }
            }
            if all_digits(d) {
                lemma_decimal_value_grows(d, k + 1);
            }
        }
        if acc > (u64::MAX - digit) / 10 {
            return None;
        }
        acc = acc * 10 + digit;
        i += 1;
    }
    proof {
        assert(d.take(to - start) =~= d);
    }
    Some(acc)
}

/// The end of the line that begins at `from`: the position of the next
/// `'\n'`, or the end of the text.
pub fn find_newline(text: &[char], from: usize) -> (e: usize)
    requires
        from <= text@.len(),
    ensures
        from <= e <= text@.len(),
        e - from == newline_at(text@.skip(from as int)),
{
    let mut e: usize = from;
    while e < text.len() && text[e] != '\n'
        invariant
            from <= e <= text@.len(),
            forall|k: int| from <= k < e ==> text@[k] != '\n',
        decreases text@.len() - e,
    {
        e += 1;
    }
    proof {
        let s = text@.skip(from as int);
        assert forall|k: int| 0 <= k < e - from implies s[k] != '\n' by {
            assert(s[k] == text@[from + k]);
        }
        lemma_newline_at(s, e - from);
    }
    e
}

} // verus!
