//! Units and ratios shared by every component.
use vstd::prelude::*;

verus! {

/// Bytes in a mebibyte.
pub const MIB: u64 = 1048576;

/// Hundredths of a percent in a whole.
pub const FULL_SCALE: u64 = 10000;

/// `part / whole` in hundredths of a percent, rounded down; zero when the
/// whole is zero, and capped at `u64::MAX`.
pub open spec fn percent_hundredths(part: int, whole: int) -> int {
    if whole == 0 {
        0
    } else if part * 10000 / whole > u64::MAX {
        u64::MAX as int
    } else {
        part * 10000 / whole
    }
}

/// Share of `part` in `whole`, in hundredths of a percent (5000 is 50%).
pub fn usage_hundredths(part: u64, whole: u64) -> (r: u64)
    ensures
        r == percent_hundredths(part as int, whole as int),
{
    if whole == 0 {
        return 0;
    }
    assert(part as int * 10000 <= u64::MAX as int * 10000) by (nonlinear_arith);
    let scaled: u128 = (part as u128) * (FULL_SCALE as u128);
    let q: u128 = scaled / (whole as u128);
    if q > u64::MAX as u128 {
        u64::MAX
    } else {
        q as u64
    }
}

} // verus!
