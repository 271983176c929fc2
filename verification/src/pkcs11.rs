//! Numbers of the token interface: the types of its plain values, return
//! values and flags.

use vstd::prelude::*;

verus! {

/// A return value of an entrypoint.
pub type CK_RV = u64;

/// A bit set.
pub type CK_FLAGS = u64;

/// The number of a slot.
pub type CK_SLOT_ID = u64;

/// The handle of a session.
pub type CK_SESSION_HANDLE = u64;

/// The handle of an object.
pub type CK_OBJECT_HANDLE = u64;

/// The number of a mechanism.
pub type CK_MECHANISM_TYPE = u64;

/// The kind of a user.
pub type CK_USER_TYPE = u64;

/// The kind of a notification.
pub type CK_NOTIFICATION = u64;

/// The call succeeded.
pub const CKR_OK: CK_RV = 0;

/// The module does not offer the function.
pub const CKR_FUNCTION_NOT_SUPPORTED: CK_RV = 0x54;

/// A session was asked for without the serial flag.
pub const CKR_SESSION_PARALLEL_NOT_SUPPORTED: CK_RV = 0xB4;

/// Session flag: the session is serial; every session must be.
pub const CKF_SERIAL_SESSION: CK_FLAGS = 0x4;

} // verus!
