//! Disk quota of one server.

use vstd::prelude::*;

verus! {

/// The disk usage of a server against its limit. A limit of zero means
/// unlimited.
#[derive(Debug, Clone, Copy, PartialEq, Eq, Structural)]
pub struct DiskUsage {
    pub used_bytes: u64,
    pub limit_bytes: u64,
}

impl DiskUsage {
    /// Whether `incoming` more bytes stay within the limit.
    pub open spec fn fits(self, incoming: u64) -> bool {
        self.limit_bytes == 0 || self.used_bytes + incoming <= self.limit_bytes
    }

    /// Usage as found by a walk of the data directory.
    pub fn new(used_bytes: u64, limit_bytes: u64) -> (d: Self)
        ensures
            d.used_bytes == used_bytes,
            d.limit_bytes == limit_bytes,
    {
        DiskUsage { used_bytes, limit_bytes }
    }

    /// Whether a write of `incoming` bytes is allowed by the quota.
    pub fn has_space_for(&self, incoming: u64) -> (ok: bool)
        ensures
            ok == self.fits(incoming),
    {
        if self.limit_bytes == 0 {
            true
        } else {
            match self.used_bytes.checked_add(incoming) {
                Some(total) => total <= self.limit_bytes,
                None => false,
            }
        }
    }

    /// The sum of the sizes of the files found by a walk; `None` when it does
    /// not fit 64 bits.
    pub fn calculate(sizes: &Vec<u64>) -> (total: Option<u64>)
        ensures
            match total {
                Some(t) => t == sum_of(sizes@),
                None => sum_of(sizes@) > u64::MAX,
            },
    {
        let mut total: u64 = 0;
        let mut i: usize = 0;
        assert(sizes@.subrange(0, 0) =~= Seq::<u64>::empty());
        while i < sizes.len()
            invariant
                i <= sizes@.len(),
                total == sum_of(sizes@.subrange(0, i as int)),
            decreases sizes@.len() - i,
        {
            proof {
                assert(sizes@.subrange(0, i + 1).drop_last() =~= sizes@.subrange(0, i as int));
                lemma_sum_monotone(sizes@, i + 1);
            }
            match total.checked_add(sizes[i]) {
                Some(t) => {
                    total = t;
                },
                None => {
                    return None;
                },
            }
            i = i + 1;
        }
        assert(sizes@.subrange(0, sizes@.len() as int) =~= sizes@);
        Some(total)
    }
}

/// The sum of the sizes.
pub open spec fn sum_of(sizes: Seq<u64>) -> int
    decreases sizes.len(),
{
    if sizes.len() == 0 {
        0
    } else {
        sum_of(sizes.drop_last()) + sizes.last()
    }
}

proof fn lemma_sum_monotone(sizes: Seq<u64>, i: int)
    requires
        0 <= i <= sizes.len(),
    ensures
        sum_of(sizes.subrange(0, i)) <= sum_of(sizes),
    decreases sizes.len() - i,
{
    if i < sizes.len() {
        lemma_sum_monotone(sizes, i + 1);
        assert(sizes.subrange(0, i + 1).drop_last() =~= sizes.subrange(0, i));
    } else {
        assert(sizes.subrange(0, i) =~= sizes);
    }
}

} // verus!
