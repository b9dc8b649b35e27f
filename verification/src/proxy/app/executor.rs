//! How many connection workers run, and with how much stack.
use vstd::prelude::*;

verus! {

/// Connection workers for a machine that reports `available_parallelism`
/// cores: two on up to two cores, else three; two when it reports none.
pub fn default_worker_count(available_parallelism: Option<usize>) -> (n: usize)
    ensures
        n == match available_parallelism {
            Some(p) => if p <= 2 {
                2usize
            } else {
                3usize
            },
            None => 2usize,
        },
{
    match available_parallelism {
        Some(p) => if p <= 2 {
            2
        } else {
            3
        },
        None => 2,
    }
}

/// Size in bytes of a worker thread's stack.
pub fn worker_stack_size() -> (size: usize)
    ensures
        size == 128 * 1024,
{
    128 * 1024
}

} // verus!
