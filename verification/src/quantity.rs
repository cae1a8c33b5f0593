//! Quantity strings: `<non-negative integer><suffix>`, where the suffix is
//! looked up in one of the three multiplier tables and the result is the
//! integer scaled by the multiplier.
//!
//! The digits are the longest leading run of `0`–`9`; everything after them
//! is the suffix and must match a table entry exactly, so a shared prefix
//! (`m` against `min`) can never be misread.  A value that does not fit in
//! `u64` resolves to `None`.

use vstd::prelude::*;
use vstd::string::StrSliceExecFns;
use crate::tables::{
    iec_multiplier, si_multiplier, duration_multiplier, spec_iec_multiplier, spec_si_multiplier,
    spec_duration_multiplier,
};

verus! {

/// Which multiplier table a quantity is resolved under.
#[derive(PartialEq, Eq, Structural, Clone, Copy, Debug)]
pub enum QuantityTable {
    /// Binary byte sizes: `K` = 1024, `M` = 1024², ...
    IecBytes,
    /// Decimal byte sizes: `K` = 1000, `M` = 1000², ...
    SiBytes,
    /// Durations in nanoseconds: `ns`, `us`, `ms`, `s`, `m`, `min`, `h`.
    DurationNs,
}

/// A decimal digit.
pub open spec fn is_digit(c: char) -> bool {
    '0' <= c && c <= '9'
}

/// The numeric value of a digit character.
pub open spec fn digit_val(c: char) -> int {
    c as u32 - 48
}

/// The index of the first non-digit at or after `i`, or `s.len()`.
pub open spec fn digits_end(s: Seq<char>, i: int) -> int
    decreases s.len() - i when 0 <= i
{
    if i >= s.len() {
        s.len() as int
    } else if !is_digit(s[i]) {
        i
    } else {
        digits_end(s, i + 1)
    }
}

/// The value of an all-digit sequence read in base ten.
pub open spec fn dec_value(s: Seq<char>) -> int
    decreases s.len(),
{
    if s.len() == 0 {
        0
    } else {
        dec_value(s.drop_last()) * 10 + digit_val(s.last())
    }
}

/// The multiplier `table` assigns to `suffix`, if any.
pub open spec fn spec_table_multiplier(table: QuantityTable, suffix: Seq<char>) -> Option<u64> {
    match table {
        QuantityTable::IecBytes => spec_iec_multiplier(suffix),
        QuantityTable::SiBytes => spec_si_multiplier(suffix),
        QuantityTable::DurationNs => spec_duration_multiplier(suffix),
    }
}

/// What a quantity string resolves to under `table`: the leading digits
/// scaled by the suffix's multiplier; `None` when there are no digits, the
/// suffix is unknown, or the product exceeds `u64::MAX`.
pub open spec fn spec_quantity(table: QuantityTable, s: Seq<char>) -> Option<u64> {
    let k = digits_end(s, 0);
    if k == 0 {
        None
    } else {
        match spec_table_multiplier(table, s.subrange(k, s.len() as int)) {
            Option::None => None,
            Option::Some(m) => {
                let v = dec_value(s.subrange(0, k)) * m;
                if v <= u64::MAX {
                    Some(v as u64)
                } else {
                    None
                }
            },
        }
    }
}

/// The first non-digit never lies before the start of the search.
proof fn lemma_digits_end_bounds(s: Seq<char>, i: int)
    requires
        0 <= i <= s.len(),
    ensures
        i <= digits_end(s, i) <= s.len(),
    decreases s.len() - i,
{
    if i < s.len() && is_digit(s[i]) {
        lemma_digits_end_bounds(s, i + 1);
    }
}

/// Every table multiplier is at least one.
proof fn lemma_multiplier_positive(table: QuantityTable, suffix: Seq<char>, m: u64)
    requires
        spec_table_multiplier(table, suffix) == Some(m),
    ensures
        m >= 1,
{
}

/// Whether the character at `k` is a decimal digit.
fn digit_at(s: &str, k: usize) -> (r: bool)
    requires
        k < s@.len(),
    ensures
        r == is_digit(s@[k as int]),
{
    let c = s.get_char(k);
    c >= '0' && c <= '9'
}

/// Resolves a quantity string under the chosen table.
pub fn resolve_quantity(table: QuantityTable, s: &str) -> (r: Option<u64>)
    ensures
        r == spec_quantity(table, s@),
{
    let n = s.unicode_len();
    let mut k: usize = 0;
    let mut acc: u64 = 0;
    let mut overflow: bool = false;
    while k < n && digit_at(s, k)
        invariant
            k <= n,
            n == s@.len(),
            digits_end(s@, 0) == digits_end(s@, k as int),
            forall|j: int| 0 <= j < k ==> is_digit(#[trigger] s@[j]),
            !overflow ==> acc == dec_value(s@.take(k as int)),
            overflow ==> dec_value(s@.take(k as int)) > u64::MAX,
        decreases n - k,
    {
        let c = s.get_char(k);
        let d: u64 = (c as u32 - 48) as u64;
        proof {
            assert(s@.take(k as int + 1).drop_last() =~= s@.take(k as int));
            assert(dec_value(s@.take(k as int + 1)) == dec_value(s@.take(k as int)) * 10 + digit_val(
                s@[k as int],
            ));
        }
        if overflow {
            proof {
                let prev = dec_value(s@.take(k as int));
                assert(prev * 10 > u64::MAX) by (nonlinear_arith)
                    requires
                        prev > u64::MAX,
                ;
            }
        } else {
            match acc.checked_mul(10) {
                Some(t) => {
                    match t.checked_add(d) {
                        Some(v) => {
                            acc = v;
                        },
                        None => {
                            overflow = true;
                        },
                    }
                },
                None => {
                    overflow = true;
                    proof {
                        assert(acc * 10 + digit_val(s@[k as int]) > u64::MAX);
                    }
                },
            }
        }
        k += 1;
    }
    proof {
        if k == n {
            assert(digits_end(s@, k as int) == s@.len());
        }
        assert(digits_end(s@, 0) == k as int);
        lemma_digits_end_bounds(s@, 0);
        assert(s@.take(k as int) =~= s@.subrange(0, k as int));
    }
    if k == 0 {
        return None;
    }
    let suffix = s.substring_char(k, n);
    let mult = match table {
        QuantityTable::IecBytes => iec_multiplier(suffix),
        QuantityTable::SiBytes => si_multiplier(suffix),
        QuantityTable::DurationNs => duration_multiplier(suffix),
    };
    match mult {
        None => None,
        Some(m) => {
            proof {
                lemma_multiplier_positive(table, suffix@, m);
            }
            if overflow {
                proof {
                    let dec = dec_value(s@.subrange(0, k as int));
                    assert(dec * m > u64::MAX) by (nonlinear_arith)
                        requires
                            dec > u64::MAX,
                            m >= 1,
                    ;
                }
                None
            } else {
                acc.checked_mul(m)
            }
        },
    }
}

} // verus!
