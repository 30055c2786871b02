//! How many sockets a scan opens at the same time.
use vstd::prelude::*;

use crate::input::Opts;

verus! {

/// A batch size that fits most file descriptor limits.
pub const AVERAGE_BATCH_SIZE: usize = 3000;

/// The file descriptor limit that the scanner sets by default.
pub const DEFAULT_FILE_DESCRIPTORS_LIMIT: usize = 8000;

/// The batch size to use for a requested one under a file descriptor limit:
/// the requested one where the limit allows it; else half the limit under
/// the average batch size, the average batch size above the default limit,
/// and the limit less 100 between the two.
pub open spec fn spec_infer_batch_size(requested: usize, ulimit: usize) -> int {
    if ulimit < requested {
        if ulimit < AVERAGE_BATCH_SIZE {
            (ulimit / 2) as int
        } else if ulimit > DEFAULT_FILE_DESCRIPTORS_LIMIT {
            AVERAGE_BATCH_SIZE as int
        } else {
            ulimit - 100
        }
    } else {
        requested as int
    }
}

/// Lowers the requested batch size of the options to what the file
/// descriptor limit `ulimit` allows.
pub fn infer_batch_size(opts: &Opts, ulimit: usize) -> (batch_size: usize)
    ensures
        batch_size == spec_infer_batch_size(opts.batch_size, ulimit),
{
    let mut batch_size: usize = opts.batch_size;
    if ulimit < batch_size {
        if ulimit < AVERAGE_BATCH_SIZE {
            batch_size = ulimit / 2;
        } else if ulimit > DEFAULT_FILE_DESCRIPTORS_LIMIT {
            batch_size = AVERAGE_BATCH_SIZE;
        } else {
            batch_size = ulimit - 100;
        }
    }
    batch_size
}

/// The inferred batch size never exceeds the requested one nor the file
/// descriptor limit, and is the requested one exactly where the limit is not
/// below it.
pub proof fn lemma_batch_size_bounded(requested: usize, ulimit: usize)
    ensures
        0 <= spec_infer_batch_size(requested, ulimit) <= requested,
        spec_infer_batch_size(requested, ulimit) <= ulimit,
        requested <= ulimit ==> spec_infer_batch_size(requested, ulimit) == requested,
        ulimit < requested ==> spec_infer_batch_size(requested, ulimit) < requested,
{
}

} // verus!

verus! {

/// The batch size follows four rules, and below the requested size it
/// depends on the file descriptor limit alone: the requested size where the
/// limit is not below it; else half the limit under 3000, 3000 above 8000,
/// and the limit less 100 from 3000 to 8000.
pub proof fn lemma_batch_size_rules(requested: usize, ulimit: usize)
    ensures
        requested <= ulimit ==> spec_infer_batch_size(requested, ulimit) == requested,
        ulimit < requested && ulimit < 3000 ==> spec_infer_batch_size(requested, ulimit) == ulimit
            / 2,
        ulimit < requested && ulimit > 8000 ==> spec_infer_batch_size(requested, ulimit) == 3000,
        ulimit < requested && 3000 <= ulimit <= 8000 ==> spec_infer_batch_size(requested, ulimit)
            == ulimit - 100,
{
}

/// Two requests that the limit is below get the same batch size.
pub proof fn lemma_batch_size_independent_of_request_under_limit(
    first: usize,
    second: usize,
    ulimit: usize,
)
    requires
        ulimit < first,
        ulimit < second,
    ensures
        spec_infer_batch_size(first, ulimit) == spec_infer_batch_size(second, ulimit),
{
}

} // verus!
