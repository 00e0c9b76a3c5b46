//! Parsing of preprocessor numeric literals.
//!
//! A macro body number carries a C-style spelling: an optional hex prefix,
//! digits with optional interior separators, and an optional run of
//! unsigned and long suffix letters. The parse yields the narrowest
//! width and signedness the suffixes call for, as a typed value.

use vstd::prelude::*;
use vstd::string::{StrSliceExecFns};
use crate::error::Error;

verus! {

/// A parsed numeric literal, in the width and signedness its suffixes call
/// for: 32-bit by default, 64-bit under a long-long suffix, unsigned under
/// an unsigned suffix.
#[derive(Copy, Clone, PartialEq, Eq, Structural, Debug)]
pub enum MacroNumber {
    U32(u32),
    I32(i32),
    U64(u64),
    I64(i64),
}

/// The value of one digit character under a radix of at most sixteen.
pub open spec fn spec_digit_value(c: char) -> Option<u32> {
    if '0' <= c <= '9' {
        Some((c as u32 - '0' as u32) as u32)
    } else if 'a' <= c <= 'f' {
        Some((c as u32 - 'a' as u32 + 10) as u32)
    } else if 'A' <= c <= 'F' {
        Some((c as u32 - 'A' as u32 + 10) as u32)
    } else {
        None
    }
}

/// State of the suffix-and-digit scan.
pub ghost struct NumScan {
    /// The digit values kept, most significant first.
    pub digits: Seq<u32>,
    /// An unsigned suffix letter was seen.
    pub unsigned: bool,
    /// How many long suffix letters were seen.
    pub longs: int,
    /// No unsupported character combination was hit.
    pub ok: bool,
}

/// The scan state after one more character: separators are skipped,
/// decimal digits are kept, further hex digits are kept only under a hex
/// radix, suffix letters update the flags, a third long suffix letter is
/// unsupported, and any other character is passed over.
pub open spec fn spec_scan_step(st: NumScan, c: char, radix: u32) -> NumScan {
    if !st.ok {
        st
    } else if c == '\'' {
        st
    } else if '0' <= c <= '9' {
        NumScan { digits: st.digits.push(spec_digit_value(c).unwrap()), ..st }
    } else if ('a' <= c <= 'f') || ('A' <= c <= 'F') {
        if radix == 16 {
            NumScan { digits: st.digits.push(spec_digit_value(c).unwrap()), ..st }
        } else {
            NumScan { ok: false, ..st }
        }
    } else if c == 'u' || c == 'U' {
        NumScan { unsigned: true, ..st }
    } else if c == 'l' || c == 'L' {
        if st.longs >= 2 {
            NumScan { ok: false, ..st }
        } else {
            NumScan { longs: st.longs + 1, ..st }
        }
    } else {
        st
    }
}

/// The scan state after a whole spelling.
pub open spec fn spec_scan(s: Seq<char>, radix: u32) -> NumScan
    decreases s.len(),
{
    if s.len() == 0 {
        NumScan { digits: Seq::empty(), unsigned: false, longs: 0, ok: true }
    } else {
        spec_scan_step(spec_scan(s.drop_last(), radix), s.last(), radix)
    }
}

/// The value of a digit run under a radix, most significant digit first.
pub open spec fn spec_digits_value(digits: Seq<u32>, radix: u32) -> int
    decreases digits.len(),
{
    if digits.len() == 0 {
        0
    } else {
        spec_digits_value(digits.drop_last(), radix) * radix + digits.last()
    }
}

/// A digit run is worth at least as much as any of its prefixes.
proof fn lemma_digits_value_monotone(digits: Seq<u32>, radix: u32, i: int)
    requires
        0 <= i <= digits.len(),
        radix >= 2,
        forall|j: int| 0 <= j < digits.len() ==> #[trigger] digits[j] < radix,
    ensures
        spec_digits_value(digits, radix) >= spec_digits_value(digits.take(i), radix),
        spec_digits_value(digits, radix) >= 0,
    decreases digits.len() - i,
{
    if i < digits.len() {
        lemma_digits_value_monotone(digits, radix, i + 1);
        assert(digits.take(i + 1).drop_last() =~= digits.take(i));
        assert(digits.take(i + 1).last() == digits[i]);
        let v = spec_digits_value(digits.take(i), radix);
        assert(spec_digits_value(digits.take(i), radix) >= 0) by {
            lemma_digits_value_nonneg(digits.take(i), radix);
        }
        assert(v * radix + digits[i] >= v) by (nonlinear_arith)
            requires v >= 0, radix >= 2, digits[i] >= 0;
    } else {
        assert(digits.take(i) =~= digits);
        lemma_digits_value_nonneg(digits, radix);
    }
}

/// A digit run is never worth a negative amount.
proof fn lemma_digits_value_nonneg(digits: Seq<u32>, radix: u32)
    ensures
        spec_digits_value(digits, radix) >= 0,
    decreases digits.len(),
{
    if digits.len() > 0 {
        lemma_digits_value_nonneg(digits.drop_last(), radix);
        let v = spec_digits_value(digits.drop_last(), radix);
        assert(v * radix >= 0) by (nonlinear_arith)
            requires v >= 0, radix >= 0;
    }
}

/// Once the scan fails it stays failed, and its state stops changing.
proof fn lemma_scan_fail_persists(s: Seq<char>, radix: u32, i: int)
    requires
        0 <= i <= s.len(),
        !spec_scan(s.take(i), radix).ok,
    ensures
        spec_scan(s, radix) == spec_scan(s.take(i), radix),
    decreases s.len() - i,
{
    if i < s.len() {
        assert(s.take(i + 1).drop_last() =~= s.take(i));
        assert(s.take(i + 1).last() == s[i]);
        lemma_scan_fail_persists(s, radix, i + 1);
    } else {
        assert(s.take(i) =~= s);
    }
}

/// The radix a spelling selects, and where its digits start.
pub open spec fn spec_number_radix(s: Seq<char>) -> (u32, int) {
    if s.len() >= 2 && s[0] == '0' && (s[1] == 'x' || s[1] == 'X') {
        (16u32, 2int)
    } else {
        (10u32, 0int)
    }
}

/// The parsed numeric literal of a spelling: `None` when the scan hits an
/// unsupported combination, no digits remain, or the value exceeds the
/// widest supported range. A long-long suffix selects 64 bits, otherwise
/// the value is narrowed to 32 bits; an unsigned suffix selects the
/// unsigned reading.
pub open spec fn spec_parse_macro_number(s: Seq<char>) -> Option<MacroNumber> {
    let rx = spec_number_radix(s);
    let sc = spec_scan(s.skip(rx.1), rx.0);
    if !sc.ok || sc.digits.len() == 0 {
        None
    } else {
        let v = spec_digits_value(sc.digits, rx.0);
        if v > u128::MAX {
            None
        } else if sc.longs >= 2 {
            if sc.unsigned {
                Some(MacroNumber::U64((v % 0x1_0000_0000_0000_0000) as u64))
            } else {
                Some(MacroNumber::I64(((v % 0x1_0000_0000_0000_0000) as u64) as i64))
            }
        } else {
            if sc.unsigned {
                Some(MacroNumber::U32((v % 0x1_0000_0000) as u32))
            } else {
                Some(MacroNumber::I32(((v % 0x1_0000_0000) as u32) as i32))
            }
        }
    }
}

/// Parses one preprocessor numeric literal spelling.
///
/// `0x2AUL` parses to the unsigned 32-bit value 42; `123LL` parses to the
/// signed 64-bit value 123; a spelling worth the most negative 32-bit
/// value parses to that value without overflow.
pub fn parse_macro_number(s: &str) -> (r: Result<MacroNumber, Error>)
    ensures
        r matches Ok(v) ==> spec_parse_macro_number(s@) == Some(v),
        r is Err <==> spec_parse_macro_number(s@) is None,
{
    let n = s.unicode_len();
    let start: usize = if n >= 2 && s.get_char(0) == '0'
        && (s.get_char(1) == 'x' || s.get_char(1) == 'X') {
        2
    } else {
        0
    };
    let radix: u32 = if start == 2 {
        16
    } else {
        10
    };
    proof {
        assert(spec_number_radix(s@) == (radix, start as int));
    }
    let ghost rest = s@.skip(start as int);
    let mut digits: Vec<u32> = Vec::new();
    let mut unsigned: bool = false;
    let mut longs: u32 = 0;
    let mut i: usize = start;
    while i < n
        invariant
            start <= i <= n,
            n == s@.len(),
            rest == s@.skip(start as int),
            spec_number_radix(s@) == (radix, start as int),
            longs <= 2,
            ({
                let sc = spec_scan(s@.subrange(start as int, i as int), radix);
                &&& sc.ok
                &&& sc.digits == digits@
                &&& sc.unsigned == unsigned
                &&& sc.longs == longs
            }),
            forall|j: int| 0 <= j < digits@.len() ==> #[trigger] digits@[j] < radix,
            radix == 10 || radix == 16,
        decreases n - i,
    {
        let c = s.get_char(i);
        proof {
            assert(s@.subrange(start as int, i as int + 1).drop_last() =~= s@.subrange(
                start as int, i as int));
            assert(s@.subrange(start as int, i as int + 1).last() == s@[i as int]);
        }
        if c == '\'' {
        } else if '0' <= c && c <= '9' {
            digits.push(c as u32 - '0' as u32);
        } else if ('a' <= c && c <= 'f') || ('A' <= c && c <= 'F') {
            if radix == 16 {
                if 'a' <= c && c <= 'f' {
                    digits.push(c as u32 - 'a' as u32 + 10);
                } else {
                    digits.push(c as u32 - 'A' as u32 + 10);
                }
            } else {
                proof {
                    assert(!spec_scan(s@.subrange(start as int, i as int + 1), radix).ok);
                    assert(rest.take(i as int + 1 - start) =~= s@.subrange(start as int,
                        i as int + 1));
                    lemma_scan_fail_persists(rest, radix, i as int + 1 - start);
                }
                return Err(Error::bad("hex digits appear without a hex prefix"));
            }
        } else if c == 'u' || c == 'U' {
            unsigned = true;
        } else if c == 'l' || c == 'L' {
            if longs >= 2 {
                proof {
                    assert(!spec_scan(s@.subrange(start as int, i as int + 1), radix).ok);
                    assert(rest.take(i as int + 1 - start) =~= s@.subrange(start as int,
                        i as int + 1));
                    lemma_scan_fail_persists(rest, radix, i as int + 1 - start);
                }
                return Err(Error::bad("numeric literal has too many long suffix letters"));
            }
            longs += 1;
        }
        i += 1;
    }
    proof {
        assert(s@.subrange(start as int, n as int) =~= rest);
    }
    if digits.len() == 0 {
        return Err(Error::bad("numeric literal has no digits"));
    }
    let mut value: u128 = 0;
    let mut k: usize = 0;
    proof {
        assert(digits@.take(0) =~= Seq::<u32>::empty());
    }
    while k < digits.len()
        invariant
            k <= digits@.len(),
            forall|j: int| 0 <= j < digits@.len() ==> #[trigger] digits@[j] < radix,
            radix == 10 || radix == 16,
            value == spec_digits_value(digits@.take(k as int), radix),
            longs <= 2,
            ({
                let rx = spec_number_radix(s@);
                let sc = spec_scan(s@.skip(rx.1), rx.0);
                &&& sc.ok
                &&& sc.digits == digits@
                &&& sc.unsigned == unsigned
                &&& sc.longs == longs
                &&& rx.0 == radix
            }),
            digits@.len() > 0,
        decreases digits@.len() - k,
    {
        let d = digits[k];
        proof {
            assert(digits@.take(k as int + 1).drop_last() =~= digits@.take(k as int));
            assert(digits@.take(k as int + 1).last() == digits@[k as int]);
        }
        let scaled = match value.checked_mul(radix as u128) {
            Some(v) => v,
            None => {
                proof {
                    lemma_digits_value_monotone(digits@, radix, k as int + 1);
                    assert(spec_digits_value(digits@.take(k as int + 1), radix)
                        == value * radix + d);
                    assert(value * radix > u128::MAX) by (nonlinear_arith)
                        requires value * (radix as u128) > u128::MAX, radix >= 2;
                }
                return Err(Error::bad("numeric literal does not fit the widest range"));
            },
        };
        let next = match scaled.checked_add(d as u128) {
            Some(v) => v,
            None => {
                proof {
                    lemma_digits_value_monotone(digits@, radix, k as int + 1);
                }
                return Err(Error::bad("numeric literal does not fit the widest range"));
            },
        };
        value = next;
        k += 1;
    }
    proof {
        assert(digits@.take(digits@.len() as int) =~= digits@);
        let rx = spec_number_radix(s@);
        let sc = spec_scan(s@.skip(rx.1), rx.0);
        assert(sc.ok);
        assert(sc.digits == digits@);
        assert(sc.unsigned == unsigned);
        assert(sc.longs == longs);
        assert(spec_digits_value(sc.digits, rx.0) == value);
        assert(spec_digits_value(sc.digits, rx.0) <= u128::MAX);
    }
    if longs >= 2 {
        let w: u64 = (value % 0x1_0000_0000_0000_0000u128) as u64;
        if unsigned {
            Ok(MacroNumber::U64(w))
        } else {
            let wi: i64 = #[verifier::truncate] (w as i64);
            Ok(MacroNumber::I64(wi))
        }
    } else {
        let w: u32 = (value % 0x1_0000_0000u128) as u32;
        if unsigned {
            Ok(MacroNumber::U32(w))
        } else {
            let wi: i32 = #[verifier::truncate] (w as i32);
            Ok(MacroNumber::I32(wi))
        }
    }
}

} // verus!
