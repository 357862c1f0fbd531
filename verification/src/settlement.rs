//! The settlement engine's cost computation.
//!
//! A `Privileged` file, or a `Normal` file no larger than the configured
//! size limit, is charged its flat base price. A larger `Normal` file is
//! charged the base price plus the configured price per byte above the
//! limit. All arithmetic is checked: an overflow aborts the operation, it
//! never wraps.

use vstd::prelude::*;

use crate::types::Config;
use crate::types::Error;
use crate::types::File;
use crate::types::FileType;

verus! {

/// Whether `f` is charged above its flat base price under `c`.
pub open spec fn charged_per_byte(f: File, c: Config) -> bool {
    f.file_type is Normal && f.file_size > c.file_size_limit
}

/// The amount a download of `f` costs under `c`, as an unbounded integer.
pub open spec fn charged_cost(f: File, c: Config) -> int {
    if charged_per_byte(f, c) {
        f.cost + (f.file_size - c.file_size_limit) * c.cost_per_byte
    } else {
        f.cost as int
    }
}

/// Computes the download cost of `f` under `c`. Fails exactly when the
/// size-tiered amount does not fit in 64 bits.
pub fn compute_cost(f: &File, c: &Config) -> (r: Result<u64, Error>)
    ensures
        r is Ok <==> charged_cost(*f, *c) <= u64::MAX,
        r is Ok ==> r->Ok_0 == charged_cost(*f, *c),
        r is Err ==> r->Err_0 == Error::InvalidOperation,
{
    match f.file_type {
        FileType::Privileged => Ok(f.cost),
        FileType::Normal => {
            if f.file_size <= c.file_size_limit {
                Ok(f.cost)
            } else {
                let size_difference = f.file_size - c.file_size_limit;
                let extra_cost = match size_difference.checked_mul(c.cost_per_byte) {
                    Some(x) => x,
                    None => {
                        return Err(Error::InvalidOperation);
                    },
                };
                match extra_cost.checked_add(f.cost) {
                    Some(total) => Ok(total),
                    None => Err(Error::InvalidOperation),
                }
            }
        },
    }
}

} // verus!
