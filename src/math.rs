use vstd::prelude::*;

verus! {

/// The value `from` stepped toward `to` by at most `delta`, never past `to`.
pub open spec fn move_toward_spec(from: int, to: int, delta: int) -> int {
    if from < to {
        if from + delta < to { from + delta } else { to }
    } else if from > to {
        if from - delta > to { from - delta } else { to }
    } else {
        to
    }
}

/// `v` raised to `min`, then lowered to `max`: when `min > max` the result is `max`.
pub open spec fn clamp_spec(v: int, min: int, max: int) -> int {
    let t = if v < min { min } else { v };
    if t > max { max } else { t }
}

/// Steps `from` toward `to` by at most `delta`, landing on `to` rather than passing it.
pub fn move_toward(from: i64, to: i64, delta: u64) -> (r: i64)
    ensures
        r == move_toward_spec(from as int, to as int, delta as int),
{
    let f = from as i128;
    let t = to as i128;
    let d = delta as i128;
    if f < t {
        if f + d < t { (f + d) as i64 } else { to }
    } else if f > t {
        if f - d > t { (f - d) as i64 } else { to }
    } else {
        to
    }
}

/// Bounds `v` below by `min` and then above by `max`.
pub fn clamp(v: i64, min: i64, max: i64) -> (r: i64)
    ensures
        r == clamp_spec(v as int, min as int, max as int),
        min <= max ==> min <= r <= max,
{
    let t = if v < min { min } else { v };
    if t > max { max } else { t }
}

/// `clamp` over wide intermediate values, whose bounds fit in an `i64`.
pub(crate) fn clamp_wide(v: i128, min: i64, max: i64) -> (r: i64)
    ensures
        r == clamp_spec(v as int, min as int, max as int),
{
    let t: i128 = if v < min as i128 { min as i128 } else { v };
    if t > max as i128 { max } else { t as i64 }
}

} // verus!
