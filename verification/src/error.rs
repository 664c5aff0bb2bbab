use vstd::prelude::*;

verus! {

/// An error reported by the OpenCL layer of the runtime: the nonzero status
/// code that a call returned.
#[derive(Debug, Clone, Copy, PartialEq, Eq, Structural)]
pub struct ClError {
    pub code: i32,
}

impl From<i32> for ClError {
    fn from(code: i32) -> (r: ClError) {
        ClError { code }
    }
}

impl vstd::std_specs::convert::FromSpecImpl<i32> for ClError {
    open spec fn obeys_from_spec() -> bool {
        true
    }

    open spec fn from_spec(v: i32) -> ClError {
        ClError { code: v }
    }
}

impl ClError {
    /// Turns the status code of a runtime call into a result: 0 is success,
    /// anything else is the error with that code.
    pub fn check(status: i32) -> (r: Result<(), ClError>)
        ensures
            r == status_result(status),
            status == 0 ==> r == Ok::<(), ClError>(()),
            status != 0 ==> r == Err::<(), ClError>(ClError { code: status }),
    {
        if status != 0 {
            Err(status.into())
        } else {
            Ok(())
        }
    }
}

/// The result that a runtime status code stands for.
pub open spec fn status_result(status: i32) -> Result<(), ClError> {
    if status == 0 {
        Ok(())
    } else {
        Err(ClError { code: status })
    }
}

/// A runtime status stands for success exactly when it is 0, and any other
/// status stands for the error that carries it.
pub proof fn lemma_status_success_only_at_zero(status: i32)
    ensures
        status_result(status) is Ok <==> status == 0,
        status != 0 ==> status_result(status) == Err::<(), ClError>(ClError { code: status }),
{
}

/// Turns the status code of a runtime call whose failure carries no detail
/// into a result: 0 is success.
pub fn unit_status(status: i32) -> (r: Result<(), ()>)
    ensures
        r is Ok <==> status == 0,
{
    if status == 0 {
        Ok(())
    } else {
        Err(())
    }
}

/// Error of a transfer between host memory and a device buffer.
#[derive(Debug, Clone, Copy, PartialEq, Eq, Structural)]
pub enum RWError {
    /// The transfer needs the first number of bytes, the device buffer holds
    /// only the second.
    SizeMismatch(usize, usize),
    /// The runtime refused the transfer.
    CLError(ClError),
}

} // verus!
