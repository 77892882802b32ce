//! Range-checked conversions between the integer types of the caller and
//! those of the engine's interface.

use conv::UnwrapOrSaturate;
use conv::ValueInto;
use vstd::prelude::*;

verus! {

/// `conv::ValueInto::value_into` from `usize` to the engine's `int`, with
/// its error dropped: the same number where it fits, nothing where it lies
/// above the largest `int`.
#[verifier::external_body]
pub(crate) fn offset_to_c_int(n: usize) -> (r: Option<libc::c_int>)
    ensures
        n <= libc::c_int::MAX ==> r == Some(n as libc::c_int),
        n > libc::c_int::MAX ==> r is None,
{
    ValueInto::<libc::c_int>::value_into(n).ok()
}

/// `conv::ValueInto::value_into` from the engine's `unsigned int` to
/// `usize`, with its error dropped: the same number, which always fits.
#[verifier::external_body]
pub(crate) fn count_to_usize(n: libc::c_uint) -> (r: Option<usize>)
    ensures
        r == Some(n as usize),
{
    ValueInto::<usize>::value_into(n).ok()
}

/// `conv::ValueInto::value_into` from the engine's `unsigned int` to
/// `usize`, followed by `conv::UnwrapOrSaturate::unwrap_or_saturate`: the
/// same number, which always fits.
#[verifier::external_body]
pub(crate) fn count_to_usize_saturating(n: libc::c_uint) -> (r: usize)
    ensures
        r == n,
{
    ValueInto::<usize>::value_into(n).unwrap_or_saturate()
}

/// `conv::ValueInto::value_into` from a count of seconds to the engine's
/// `unsigned long`, followed by
/// `conv::UnwrapOrSaturate::unwrap_or_saturate`: the same number where it
/// fits, the largest `unsigned long` where it does not.
#[verifier::external_body]
pub(crate) fn secs_to_c_ulong_saturating(secs: u64) -> (r: libc::c_ulong)
    ensures
        secs <= libc::c_ulong::MAX ==> r == secs,
        secs > libc::c_ulong::MAX ==> r == libc::c_ulong::MAX,
{
    ValueInto::<libc::c_ulong>::value_into(secs).unwrap_or_saturate()
}

} // verus!
