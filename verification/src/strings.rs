//! The string table: one contiguous byte range of NUL-terminated, UTF-8
//! encoded strings addressed by byte offset.

use vstd::prelude::*;
use vstd::slice::slice_subrange;
use crate::error::Error;

verus! {

/// Whether a byte sequence is well-formed UTF-8.
pub uninterp spec fn utf8_valid(bytes: Seq<u8>) -> bool;

/// The characters that a well-formed UTF-8 byte sequence encodes.
pub uninterp spec fn utf8_chars(bytes: Seq<u8>) -> Seq<char>;

/// Relies on `core::str::from_utf8`: it returns `Ok` exactly on well-formed
/// UTF-8 input, the returned slice reads back the given bytes, and ASCII
/// bytes decode one character per byte.
#[verifier::external_body]
pub(crate) fn utf8_to_str(v: &[u8]) -> (r: Option<&str>)
    ensures
        r is Some <==> utf8_valid(v@),
        r matches Some(s) ==> s@ == utf8_chars(v@),
        r is Some <== (forall|i: int| 0 <= i < v@.len() ==> v@[i] < 128),
        r matches Some(s) ==> ((forall|i: int| 0 <= i < v@.len() ==> v@[i] < 128) ==> (
            s@.len() == v@.len() && (forall|i: int|
                0 <= i < v@.len() ==> s@[i] == v@[i] as char))),
{
    core::str::from_utf8(v).ok()
}

/// Position of the first NUL byte at or after `i`, if any.
pub open spec fn spec_find_nul(s: Seq<u8>, i: int) -> Option<int>
    decreases s.len() - i,
{
    if i < 0 || i >= s.len() {
        None
    } else if s[i] == 0 {
        Some(i)
    } else {
        spec_find_nul(s, i + 1)
    }
}

/// The string starting at byte offset `off` of the table: the bytes up to
/// the next NUL, decoded as UTF-8. `None` when the offset is out of range,
/// no NUL follows it, or the bytes are not well-formed UTF-8.
pub open spec fn spec_string_at(strings: Seq<u8>, off: int) -> Option<Seq<char>> {
    if 0 <= off <= strings.len() {
        match spec_find_nul(strings, off) {
            Some(n) => if utf8_valid(strings.subrange(off, n)) {
                Some(utf8_chars(strings.subrange(off, n)))
            } else {
                None
            },
            None => None,
        }
    } else {
        None
    }
}

/// Looks up the NUL-terminated string at byte offset `off` of the table.
pub fn string_at(strings: &[u8], off: u32) -> (r: Result<&str, Error>)
    ensures
        r matches Ok(s) ==> spec_string_at(strings@, off as int) == Some(s@),
        r is Err ==> spec_string_at(strings@, off as int) is None,
{
    let n = strings.len();
    if (off as usize) > n {
        return Err(Error::bad("string offset was beyond bounds of string table"));
    }
    let mut i: usize = off as usize;
    while i < n
        invariant
            off <= i <= n,
            n == strings@.len(),
            spec_find_nul(strings@, off as int) == spec_find_nul(strings@, i as int),
        decreases n - i,
    {
        if strings[i] == 0 {
            let sb = slice_subrange(strings, off as usize, i);
            return match utf8_to_str(sb) {
                Some(s) => Ok(s),
                None => Err(Error::bad("string in the table is not well-formed UTF-8")),
            };
        }
        i += 1;
    }
    Err(Error::bad("string at end of string table was not NUL-terminated"))
}

} // verus!
