//! The hosted runtime's side of the boundary: its function identifiers and the
//! two-variant outcome that every call across the boundary reports.

use crate::value::FunctionParameter;
use crate::value::ReturnValue;
use vstd::prelude::*;
use vstd::std_specs::convert::FromSpec;

verus! {

/// Identifier of a static function, issued by the hosted runtime.
///
/// The value means something only to the runtime that issued it; the bridge
/// stores it and hands it back, and never compares it with an identifier of the
/// other side.
#[derive(Debug, Clone, Copy, PartialEq, Eq, Hash, Structural)]
pub struct DotnetFnId(pub u64);

/// The typed errors that a callee reports across the boundary.
#[derive(Debug, Clone, Copy, PartialEq, Eq, Hash, Structural)]
pub enum DotnetInteropError {
    StringIsNull,
    MethodNotFound,
    NotImplemented,
    ReturnTypeNotSupported,
}

impl DotnetInteropError {
    /// The number under which this error crosses the boundary: the errors are
    /// numbered from zero in the order in which they are declared.
    pub open spec fn spec_code(&self) -> i32 {
        match *self {
            DotnetInteropError::StringIsNull => 0,
            DotnetInteropError::MethodNotFound => 1,
            DotnetInteropError::NotImplemented => 2,
            DotnetInteropError::ReturnTypeNotSupported => 3,
        }
    }

    /// The error that crosses the boundary under `code`; `None` for a number
    /// outside the enumeration.
    pub open spec fn spec_from_code(code: i32) -> Option<DotnetInteropError> {
        if code == 0 {
            Some(DotnetInteropError::StringIsNull)
        } else if code == 1 {
            Some(DotnetInteropError::MethodNotFound)
        } else if code == 2 {
            Some(DotnetInteropError::NotImplemented)
        } else if code == 3 {
            Some(DotnetInteropError::ReturnTypeNotSupported)
        } else {
            None
        }
    }

    /// The number under which this error crosses the boundary.
    #[verifier::when_used_as_spec(spec_code)]
    pub fn code(&self) -> (code: i32)
        ensures
            code == self.spec_code(),
    {
        match *self {
            DotnetInteropError::StringIsNull => 0,
            DotnetInteropError::MethodNotFound => 1,
            DotnetInteropError::NotImplemented => 2,
            DotnetInteropError::ReturnTypeNotSupported => 3,
        }
    }

    /// The error that crosses the boundary under `code`; `None` for a number
    /// outside the enumeration.
    pub fn from_code(code: i32) -> (r: Option<DotnetInteropError>)
        ensures
            r == DotnetInteropError::spec_from_code(code),
            r matches Some(e) ==> e.spec_code() == code,
    {
        if code == 0 {
            Some(DotnetInteropError::StringIsNull)
        } else if code == 1 {
            Some(DotnetInteropError::MethodNotFound)
        } else if code == 2 {
            Some(DotnetInteropError::NotImplemented)
        } else if code == 3 {
            Some(DotnetInteropError::ReturnTypeNotSupported)
        } else {
            None
        }
    }

    /// Every error is the one that its own number stands for.
    pub proof fn lemma_from_code_of_code(self)
        ensures
            DotnetInteropError::spec_from_code(self.spec_code()) == Some(self),
    {
    }
}

/// Outcome of a call across the boundary: the payload, or a typed error.
#[derive(Debug, Clone)]
pub enum DotnetInteropResult<T> {
    Success(T),
    Failure(DotnetInteropError),
}

impl<T> DotnetInteropResult<T> {
    /// The payload of a successful outcome.
    pub fn unwrap(self) -> (t: T)
        requires
            self is Success,
        ensures
            t == self->Success_0,
    {
        match self {
            DotnetInteropResult::Success(t) => t,
            DotnetInteropResult::Failure(_) => unreached(),
        }
    }
}

impl<T> From<DotnetInteropResult<T>> for Result<T, DotnetInteropError> {
    fn from(value: DotnetInteropResult<T>) -> (r: Self) {
        match value {
            DotnetInteropResult::Success(t) => Ok(t),
            DotnetInteropResult::Failure(err) => Err(err),
        }
    }
}

impl<T> vstd::std_specs::convert::FromSpecImpl<DotnetInteropResult<T>> for Result<T, DotnetInteropError> {
    open spec fn obeys_from_spec() -> bool {
        true
    }

    open spec fn from_spec(v: DotnetInteropResult<T>) -> Self {
        match v {
            DotnetInteropResult::Success(t) => Ok(t),
            DotnetInteropResult::Failure(err) => Err(err),
        }
    }
}

/// What a callee answers that hands its one argument back as its result.
pub open spec fn echo(p: FunctionParameter) -> DotnetInteropResult<ReturnValue> {
    DotnetInteropResult::Success(ReturnValue::spec_from_parameter(p))
}

/// A parameter of any kind that is sent to a callee which echoes it comes
/// back as a result of the same kind with the same payload.
pub proof fn lemma_echo_round_trip(p: FunctionParameter)
    ensures
        Result::<ReturnValue, DotnetInteropError>::from_spec(echo(p)) matches Ok(r) && {
            &&& r.spec_kind() == Some(p.spec_kind())
            &&& r.spec_payload() == p.spec_payload()
            &&& r.spec_parameter() == Some(p)
        },
{
}

/// An error that a callee reports reaches the caller as it is, whatever the
/// payload's type.
pub proof fn lemma_error_is_propagated<T>(e: DotnetInteropError)
    ensures
        Result::<T, DotnetInteropError>::from_spec(DotnetInteropResult::Failure(e)) == Err::<
            T,
            DotnetInteropError,
        >(e),
{
}

} // verus!
