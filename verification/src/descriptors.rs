//! The numbers of the standard descriptors, as the C library names them.

use vstd::prelude::*;

verus! {

/// The number of the standard-output descriptor. Trusted: `libc::STDOUT_FILENO`,
/// a constant of the C library bindings, which they define as 1.
#[verifier::external_body]
pub(crate) fn stdout_fileno() -> (fd: i32)
    ensures
        fd == 1,
{
    libc::STDOUT_FILENO
}

/// The number of the standard-error descriptor. Trusted: `libc::STDERR_FILENO`,
/// a constant of the C library bindings, which they define as 2.
#[verifier::external_body]
pub(crate) fn stderr_fileno() -> (fd: i32)
    ensures
        fd == 2,
{
    libc::STDERR_FILENO
}

} // verus!
