//! Row normalization for partitions whose on-disk record size differs from
//! the in-memory record size: short rows are zero-extended, long rows are
//! truncated, equal-sized rows are copied byte for byte.

use vstd::prelude::*;

verus! {

/// Row `k` of a partition image, brought to `mem` bytes: the first
/// `min(disk, mem)` bytes come from the on-disk row, the rest are zero.
pub open spec fn spec_row_bytes(data: Seq<u8>, disk: nat, mem: nat, k: int) -> Seq<u8> {
    Seq::new(mem, |j: int| if j < disk { data[k * disk + j] } else { 0u8 })
}

/// Extracts row `k` of the partition image, zero-extended or truncated to
/// `mem` bytes.
pub fn read_row(data: &[u8], disk: usize, mem: usize, k: usize) -> (r: Vec<u8>)
    requires
        (k + 1) * disk <= data@.len(),
    ensures
        r@ == spec_row_bytes(data@, disk as nat, mem as nat, k as int),
{
    let n = data.len();
    proof {
        assert((k + 1) * disk == k * disk + disk) by (nonlinear_arith);
    }
    let base: usize = k * disk;
    let mut r: Vec<u8> = Vec::new();
    let mut j: usize = 0;
    while j < mem
        invariant
            j <= mem,
            base == k * disk,
            base + disk <= data@.len(),
            data@.len() <= usize::MAX,
            r@.len() == j,
            forall|i: int|
                0 <= i < j ==> r@[i] == (if i < disk {
                    data@[k * disk + i]
                } else {
                    0u8
                }),
        decreases mem - j,
    {
        if j < disk {
            r.push(data[base + j]);
        } else {
            r.push(0u8);
        }
        j += 1;
    }
    proof {
        assert(r@ =~= spec_row_bytes(data@, disk as nat, mem as nat, k as int));
    }
    r
}

/// Normalizes a whole partition image of `num` rows of `disk` bytes into
/// `num` rows of `mem` bytes each.
///
/// A row smaller than expected is zero-extended, a larger one is truncated,
/// and an equal-sized one is copied byte for byte.
pub fn convert_record_data(data: &[u8], num: usize, disk: usize, mem: usize) -> (r: Vec<Vec<u8>>)
    requires
        data@.len() == num * disk,
    ensures
        r@.len() == num,
        forall|k: int|
            0 <= k < num ==> (#[trigger] r@[k])@ == spec_row_bytes(
                data@, disk as nat, mem as nat, k),
{
    let mut r: Vec<Vec<u8>> = Vec::new();
    let mut k: usize = 0;
    while k < num
        invariant
            k <= num,
            data@.len() == num * disk,
            r@.len() == k,
            forall|k2: int|
                0 <= k2 < k ==> (#[trigger] r@[k2])@ == spec_row_bytes(
                    data@, disk as nat, mem as nat, k2),
        decreases num - k,
    {
        proof {
            assert((k + 1) * disk <= num * disk) by (nonlinear_arith)
                requires k < num, disk >= 0;
        }
        let row = read_row(data, disk, mem, k);
        r.push(row);
        k += 1;
    }
    r
}

} // verus!
