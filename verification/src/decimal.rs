//! Exact decimal numbers and a verified parser for decimal literals such as
//! `"12.50"` or `"-3"`, the form in which bank records carry amounts and
//! exchange rates.

use vstd::prelude::*;
use vstd::arithmetic::div_mod::lemma_fundamental_div_mod;
use vstd::string::StrSliceExecFns;

verus! {

/// An exact decimal number: the value `mantissa * 10^(-scale)`.
#[derive(Clone, Copy, PartialEq, Eq, Structural, Debug)]
pub struct Decimal {
    pub mantissa: i64,
    pub scale: u32,
}

impl Decimal {
    /// A strictly positive decimal value.
    pub open spec fn is_positive(self) -> bool {
        self.mantissa > 0
    }
}

pub open spec fn is_digit(c: char) -> bool {
    48 <= c as int && c as int <= 57
}

pub open spec fn digit_val(c: char) -> int {
    c as int - 48
}

pub open spec fn all_digits(s: Seq<char>) -> bool {
    forall|i: int| 0 <= i < s.len() ==> is_digit(#[trigger] s[i])
}

/// The integer denoted by a sequence of decimal digits, most significant first.
pub open spec fn digits_val(s: Seq<char>) -> int
    decreases s.len(),
{
    if s.len() == 0 {
        0
    } else {
        digits_val(s.drop_last()) * 10 + digit_val(s.last())
    }
}

/// Index of the first `'.'` in `s`, or `s.len()` if there is none.
pub open spec fn find_dot(s: Seq<char>) -> int
    decreases s.len(),
{
    if s.len() == 0 {
        0
    } else if s[0] == '.' {
        0
    } else {
        1 + find_dot(s.drop_first())
    }
}

/// What `parse_decimal` returns: an optional leading `'-'`, at least one
/// digit, and at most one `'.'` with digits on both sides; the mantissa is
/// the digit string with the dot removed and must fit in `i64`.
pub open spec fn spec_parse_decimal(s: Seq<char>) -> Option<Decimal> {
    let neg = s.len() > 0 && s[0] == '-';
    let b = if neg { s.drop_first() } else { s };
    let k = find_dot(b);
    let digits = if k == b.len() { b } else { b.subrange(0, k) + b.subrange(k + 1, b.len() as int) };
    let scale = if k == b.len() { 0int } else { b.len() - k - 1 };
    if b.len() == 0 {
        None
    } else if k < b.len() && (k == 0 || k == b.len() - 1) {
        None
    } else if !all_digits(digits) {
        None
    } else if digits_val(digits) > i64::MAX {
        None
    } else if scale > u32::MAX {
        None
    } else {
        Some(
            Decimal {
                mantissa: (if neg { -digits_val(digits) } else { digits_val(digits) }) as i64,
                scale: scale as u32,
            },
        )
    }
}

proof fn lemma_all_digits_sub(s: Seq<char>, i: int, j: int)
    requires
        all_digits(s),
        0 <= i <= j <= s.len(),
    ensures
        all_digits(s.subrange(i, j)),
{
    assert forall|m: int| 0 <= m < s.subrange(i, j).len() implies is_digit(
        #[trigger] s.subrange(i, j)[m],
    ) by {
        assert(s.subrange(i, j)[m] == s[i + m]);
    }
}

proof fn lemma_digits_val_nonneg(s: Seq<char>)
    requires
        all_digits(s),
    ensures
        digits_val(s) >= 0,
    decreases s.len(),
{
    if s.len() > 0 {
        lemma_all_digits_sub(s, 0, s.len() - 1);
        lemma_digits_val_nonneg(s.drop_last());
    }
}

proof fn lemma_digits_val_push(s: Seq<char>, c: char)
    ensures
        digits_val(s.push(c)) == digits_val(s) * 10 + digit_val(c),
{
    assert(s.push(c).drop_last() =~= s);
    assert(s.push(c).last() == c);
}

/// The value of a digit string only grows as digits are appended.
proof fn lemma_digits_val_prefix_le(s: Seq<char>, j: int)
    requires
        all_digits(s),
        0 <= j <= s.len(),
    ensures
        digits_val(s.subrange(0, j)) <= digits_val(s),
    decreases s.len() - j,
{
    if j == s.len() {
        assert(s.subrange(0, j) =~= s);
    } else {
        lemma_digits_val_prefix_le(s, j + 1);
        assert(s.subrange(0, j + 1) =~= s.subrange(0, j).push(s[j]));
        lemma_digits_val_push(s.subrange(0, j), s[j]);
        lemma_all_digits_sub(s, 0, j);
        lemma_digits_val_nonneg(s.subrange(0, j));
    }
}

proof fn lemma_find_dot_at(s: Seq<char>, i: int)
    requires
        0 <= i <= s.len(),
        forall|j: int| 0 <= j < i ==> s[j] != '.',
        i < s.len() ==> s[i] == '.',
    ensures
        find_dot(s) == i,
    decreases s.len(),
{
    if s.len() == 0 {
    } else if s[0] == '.' {
    } else {
        assert(forall|j: int| 0 <= j < i - 1 ==> s.drop_first()[j] == s[j + 1]);
        if i < s.len() {
            assert(s.drop_first()[i - 1] == s[i]);
        }
        lemma_find_dot_at(s.drop_first(), i - 1);
    }
}

/// The digit string of `b` with the dot at `kb` (or `b.len()` for no dot)
/// removed, cut off after position `jb` of `b`.
spec fn dec_prefix(b: Seq<char>, kb: int, jb: int) -> Seq<char> {
    if jb <= kb {
        b.subrange(0, jb)
    } else {
        b.subrange(0, kb) + b.subrange(kb + 1, jb)
    }
}

/// Parse a decimal literal; returns `None` exactly on malformed input or
/// on a mantissa that does not fit in `i64`.
pub fn parse_decimal(s: &str) -> (r: Option<Decimal>)
    ensures
        r == spec_parse_decimal(s@),
{
    let n: usize = s.unicode_len();
    let neg: bool = n > 0 && s.get_char(0) == '-';
    let start: usize = if neg { 1 } else { 0 };
    let ghost bs: Seq<char> = if neg { s@.drop_first() } else { s@ };
    assert(bs.len() == n - start);
    if start == n {
        return None;
    }
    // find the first dot, as a position in `s`
    let mut k: usize = start;
    while k < n
        invariant
            n == s@.len(),
            start <= k <= n,
            forall|jj: int| start <= jj < k ==> s@[jj] != '.',
        ensures
            start <= k <= n,
            n == s@.len(),
            forall|jj: int| start <= jj < k ==> s@[jj] != '.',
            k < n ==> s@[k as int] == '.',
        decreases n - k,
    {
        if s.get_char(k) == '.' {
            break;
        }
        k += 1;
    }
    let ghost kb: int = k - start;
    proof {
        assert(forall|j: int| 0 <= j < kb ==> bs[j] == s@[j + start] && s@[j + start] != '.');
        if k < n {
            assert(bs[kb] == s@[k as int]);
        }
        lemma_find_dot_at(bs, kb);
    }
    if k < n && (k == start || k == n - 1) {
        return None;
    }
    let ghost dg: Seq<char> = if kb == bs.len() {
        bs
    } else {
        bs.subrange(0, kb) + bs.subrange(kb + 1, bs.len() as int)
    };
    let mut acc: i64 = 0;
    let mut j: usize = start;
    while j < n
        invariant
            n == s@.len(),
            start <= j <= n,
            start <= k <= n,
            k < n ==> k != start && k != n - 1,
            kb == k - start,
            bs.len() == n - start,
            bs.len() > 0,
            bs == (if neg { s@.drop_first() } else { s@ }),
            neg == (s@.len() > 0 && s@[0] == '-'),
            find_dot(bs) == kb,
            neg ==> start == 1,
            !neg ==> start == 0,
            dg == (if kb == bs.len() {
                bs
            } else {
                bs.subrange(0, kb) + bs.subrange(kb + 1, bs.len() as int)
            }),
            forall|i: int| 0 <= i < j - start && i != kb ==> is_digit(#[trigger] bs[i]),
            acc >= 0,
            acc == digits_val(dec_prefix(bs, kb, j - start)),
        decreases n - j,
    {
        let ghost jb: int = j - start;
        if j == k {
            proof {
                assert(dec_prefix(bs, kb, jb + 1) =~= dec_prefix(bs, kb, jb));
            }
            j += 1;
        } else {
            let c: char = s.get_char(j);
            proof {
                assert(bs[jb] == c);
            }
            let cv: u32 = c as u32;
            if cv < 48 || cv > 57 {
                proof {
                    assert(!is_digit(bs[jb]));
                    if jb < kb {
                        assert(dg[jb] == bs[jb]);
                    } else {
                        assert(dg[jb - 1] == bs[jb]);
                    }
                    assert(!all_digits(dg));
                }
                return None;
            }
            let d: i64 = (cv - 48) as i64;
            proof {
                assert(is_digit(bs[jb]));
                assert(d == digit_val(bs[jb]));
            }
            if acc > (i64::MAX - d) / 10 {
                proof {
                    lemma_fundamental_div_mod(i64::MAX - d, 10);
                    assert(acc * 10 + d > i64::MAX);
                    let pref1 = dec_prefix(bs, kb, jb).push(bs[jb]);
                    assert(pref1 =~= dec_prefix(bs, kb, jb + 1));
                    lemma_digits_val_push(dec_prefix(bs, kb, jb), bs[jb]);
                    assert(digits_val(pref1) > i64::MAX);
                    if all_digits(dg) {
                        let m = pref1.len() as int;
                        assert forall|i: int| 0 <= i < m implies pref1[i] == dg.subrange(0, m)[i] by {
                            if i < kb {
                                assert(dg[i] == bs[i]);
                            } else {
                                assert(dg[i] == bs[i + 1]);
                            }
                        }
                        assert(pref1 =~= dg.subrange(0, m));
                        lemma_digits_val_prefix_le(dg, m);
                        assert(digits_val(dg) > i64::MAX);
                    }
                }
                return None;
            }
            proof {
                lemma_fundamental_div_mod(i64::MAX - d, 10);
                assert(acc * 10 + d <= i64::MAX);
                lemma_digits_val_push(dec_prefix(bs, kb, jb), bs[jb]);
                assert(dec_prefix(bs, kb, jb).push(bs[jb]) =~= dec_prefix(bs, kb, jb + 1));
            }
            acc = acc * 10 + d;
            j += 1;
        }
    }
    proof {
        assert(dec_prefix(bs, kb, n - start) =~= dg);
        assert forall|i: int| 0 <= i < dg.len() implies is_digit(#[trigger] dg[i]) by {
            if i < kb {
                assert(dg[i] == bs[i]);
            } else {
                assert(dg[i] == bs[i + 1]);
            }
        }
        assert(all_digits(dg));
    }
    let mantissa: i64 = if neg {
        -acc
    } else {
        acc
    };
    if k < n {
        let sc: usize = n - 1 - k;
        if sc > u32::MAX as usize {
            return None;
        }
        Some(Decimal { mantissa, scale: sc as u32 })
    } else {
        Some(Decimal { mantissa, scale: 0 })
    }
}

} // verus!
