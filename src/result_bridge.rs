//! Uniform results from the three raw-return conventions of native calls:
//! a mutable pointer that may be null, a read-only pointer that may be null,
//! and a signed status code whose negative values are error codes.
//!
//! Pointers are handled as their addresses, with address zero standing for
//! null. In each conversion the error is built by a caller-supplied function
//! from the raw failing value, and that function runs on the failure path only.
use vstd::prelude::*;

verus! {

/// Declares `anyhow::Error`, the unified error type that every failure of a
/// native call can be turned into.
#[verifier::external_type_specification]
#[verifier::external_body]
pub struct ExAnyhowError(anyhow::Error);

/// The address of a native object, known not to be null.
pub struct NonNullAddr {
    addr: usize,
}

impl NonNullAddr {
    #[verifier::type_invariant]
    spec fn not_null(self) -> bool {
        self.addr != 0
    }

    /// The address held.
    pub closed spec fn spec_addr(self) -> usize {
        self.addr
    }

    /// The address held, which is never zero.
    pub fn addr(&self) -> (r: usize)
        ensures
            r == self.spec_addr(),
            r != 0,
    {
        proof {
            use_type_invariant(self);
        }
        self.addr
    }
}

/// Converts the result of a native call that returns a mutable pointer.
///
/// A non-null address succeeds and is handed back as a `NonNullAddr`, which
/// marks it as checked; a null one fails with the error that `make_err` builds
/// from it.
pub fn mut_ptr_into_result<E, F: FnOnce(usize) -> E>(addr: usize, make_err: F) -> (r: Result<
    NonNullAddr,
    E,
>)
    requires
        addr == 0 ==> make_err.requires((addr,)),
    ensures
        addr != 0 <==> r is Ok,
        r matches Ok(p) ==> p.spec_addr() == addr,
        r matches Err(e) ==> make_err.ensures((addr,), e),
{
    if addr != 0 {
        Ok(NonNullAddr { addr })
    } else {
        Err(make_err(addr))
    }
}

/// Converts the result of a native call that returns a read-only pointer.
///
/// A non-null address succeeds and is handed back unchanged; a null one fails
/// with the error that `make_err` builds from it.
pub fn const_ptr_into_result<E, F: FnOnce(usize) -> E>(addr: usize, make_err: F) -> (r: Result<
    usize,
    E,
>)
    requires
        addr == 0 ==> make_err.requires((addr,)),
    ensures
        addr != 0 <==> r is Ok,
        r matches Ok(a) ==> a == addr,
        r matches Err(e) ==> make_err.ensures((addr,), e),
{
    if addr != 0 {
        Ok(addr)
    } else {
        Err(make_err(addr))
    }
}

/// Converts a signed status code returned by a native call.
///
/// A value of zero or more succeeds and is handed back as the same number,
/// unsigned. A negative value is a native error code: the error is built by
/// `make_err` from that raw value.
pub fn int_into_result<E, F: FnOnce(i32) -> E>(raw: i32, make_err: F) -> (r: Result<u32, E>)
    requires
        raw < 0 ==> make_err.requires((raw,)),
    ensures
        raw >= 0 <==> r is Ok,
        r matches Ok(v) ==> v == raw,
        r matches Err(e) ==> make_err.ensures((raw,), e),
{
    if raw >= 0 {
        Ok(raw as u32)
    } else {
        Err(make_err(raw))
    }
}

/// Relies on `anyhow::Error::new`: wraps a typed error, keeping it as the cause.
#[verifier::external_body]
fn wrap_error<E: std::error::Error + Send + Sync + 'static>(e: E) -> (r: anyhow::Error) {
    anyhow::Error::new(e)
}

/// Turns the typed error of a conversion into the unified error type, leaving
/// a success as it is.
pub fn into_unified<T, E: std::error::Error + Send + Sync + 'static>(r: Result<T, E>) -> (u: Result<
    T,
    anyhow::Error,
>)
    ensures
        r is Ok <==> u is Ok,
        r matches Ok(v) ==> u == Ok::<T, anyhow::Error>(v),
{
    match r {
        Ok(v) => Ok(v),
        Err(e) => Err(wrap_error(e)),
    }
}

} // verus!
