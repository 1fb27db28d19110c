//! The convention of the kernel's call results: a non-negative value is
//! the answer, a negative one stands for a failure whose message the
//! caller has already read out of the thread's error slot.

use vstd::prelude::*;

verus! {

use crate::model::{ContainerRuntimeError, ContainerRuntimeResult};

/// Sorts a raw call result: the value where the call succeeded, the
/// failure carrying the given message where it did not.
pub fn wrap_libc_error(result: i32, error_message: String) -> (r: ContainerRuntimeResult<i32>)
    ensures
        match r {
            Ok(v) => result >= 0 && v == result,
            Err(e) => result < 0 && (e matches ContainerRuntimeError::Libc(m) && m@
                == error_message@),
        },
{
    if result >= 0 {
        Ok(result)
    } else {
        Err(ContainerRuntimeError::Libc(error_message))
    }
}

} // verus!
