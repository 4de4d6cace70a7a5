//! Return values of libssl.

use libc::c_int;
use vstd::prelude::*;

verus! {

/// A libssl call failed, and libssl's error queue says why. Whoever made the
/// call reads the queue.
#[derive(Clone, Copy, PartialEq, Eq, Structural, Debug)]
pub struct ErrorStack;

/// The result of a call that returns a pointer: null is a failure.
pub fn check_ptr(ptr: usize) -> (r: Result<usize, ErrorStack>)
    ensures
        r == (if ptr == 0 {
            Err::<usize, ErrorStack>(ErrorStack)
        } else {
            Ok(ptr)
        }),
{
    if ptr == 0 {
        Err(ErrorStack)
    } else {
        Ok(ptr)
    }
}

/// The result of a call that returns a positive number on success.
pub fn check_ret(ret: c_int) -> (r: Result<c_int, ErrorStack>)
    ensures
        r == (if ret <= 0 {
            Err::<c_int, ErrorStack>(ErrorStack)
        } else {
            Ok(ret)
        }),
{
    if ret <= 0 {
        Err(ErrorStack)
    } else {
        Ok(ret)
    }
}

/// A pointer is good unless it is null, a return value if it is positive; each is
/// then handed on as it is.
pub proof fn law_return_values(
    ptr: usize,
    ret: c_int,
    r1: Result<usize, ErrorStack>,
    r2: Result<c_int, ErrorStack>,
)
    requires
        call_ensures(check_ptr, (ptr,), r1),
        call_ensures(check_ret, (ret,), r2),
    ensures
        r1 is Ok <==> ptr != 0,
        r1 matches Ok(p) ==> p == ptr,
        r2 is Ok <==> ret >= 1,
        r2 matches Ok(n) ==> n == ret,
{
}

} // verus!
