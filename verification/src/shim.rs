//! The entries of the token interface that concern the module itself: the
//! query for its table of entries, which succeeds, and the queries about its
//! slot, token, mechanisms, sessions and objects, none of which it offers.

use crate::pkcs11::{
    CKR_FUNCTION_NOT_SUPPORTED, CKR_OK, CK_MECHANISM_TYPE, CK_OBJECT_HANDLE, CK_RV,
    CK_SESSION_HANDLE, CK_SLOT_ID,
};
use vstd::prelude::*;

verus! {

/// The entry `C_GetFunctionList`: the caller hands out the module's table of
/// entries, and the call succeeds.
pub fn C_GetFunctionList() -> (rv: CK_RV)
    ensures
        rv == CKR_OK,
{
    CKR_OK
}

/// The table's own entry for `C_GetFunctionList`: it answers as that does.
pub fn CK_C_GetFunctionList() -> (rv: CK_RV)
    ensures
        rv == CKR_OK,
{
    C_GetFunctionList()
}

/// The entry `C_GetInfo`, which the module does not offer.
pub fn CK_C_GetInfo() -> (rv: CK_RV)
    ensures
        rv == CKR_FUNCTION_NOT_SUPPORTED,
{
    CKR_FUNCTION_NOT_SUPPORTED
}

/// The entry `C_GetSlotList`, which the module does not offer.
pub fn CK_C_GetSlotList(token_present: u8) -> (rv: CK_RV)
    ensures
        rv == CKR_FUNCTION_NOT_SUPPORTED,
{
    CKR_FUNCTION_NOT_SUPPORTED
}

/// The entry `C_GetSlotInfo`, which the module does not offer.
pub fn CK_C_GetSlotInfo(slot_id: CK_SLOT_ID) -> (rv: CK_RV)
    ensures
        rv == CKR_FUNCTION_NOT_SUPPORTED,
{
    CKR_FUNCTION_NOT_SUPPORTED
}

/// The entry `C_GetTokenInfo`, which the module does not offer.
pub fn CK_C_GetTokenInfo(slot_id: CK_SLOT_ID) -> (rv: CK_RV)
    ensures
        rv == CKR_FUNCTION_NOT_SUPPORTED,
{
    CKR_FUNCTION_NOT_SUPPORTED
}

/// The entry `C_GetMechanismList`, which the module does not offer.
pub fn CK_C_GetMechanismList(slot_id: CK_SLOT_ID) -> (rv: CK_RV)
    ensures
        rv == CKR_FUNCTION_NOT_SUPPORTED,
{
    CKR_FUNCTION_NOT_SUPPORTED
}

/// The entry `C_GetMechanismInfo`, which the module does not offer.
pub fn CK_C_GetMechanismInfo(slot_id: CK_SLOT_ID, mechanism_type: CK_MECHANISM_TYPE) -> (rv: CK_RV)
    ensures
        rv == CKR_FUNCTION_NOT_SUPPORTED,
{
    CKR_FUNCTION_NOT_SUPPORTED
}

/// The entry `C_GetSessionInfo`, which the module does not offer.
pub fn CK_C_GetSessionInfo(session: CK_SESSION_HANDLE) -> (rv: CK_RV)
    ensures
        rv == CKR_FUNCTION_NOT_SUPPORTED,
{
    CKR_FUNCTION_NOT_SUPPORTED
}

/// The entry `C_FindObjectsInit`, which the module does not offer.
pub fn CK_C_FindObjectsInit(session: CK_SESSION_HANDLE, count: u64) -> (rv: CK_RV)
    ensures
        rv == CKR_FUNCTION_NOT_SUPPORTED,
{
    CKR_FUNCTION_NOT_SUPPORTED
}

/// The entry `C_FindObjects`, which the module does not offer.
pub fn CK_C_FindObjects(session: CK_SESSION_HANDLE, max_object_count: u64) -> (rv: CK_RV)
    ensures
        rv == CKR_FUNCTION_NOT_SUPPORTED,
{
    CKR_FUNCTION_NOT_SUPPORTED
}

/// The entry `C_FindObjectsFinal`, which the module does not offer.
pub fn CK_C_FindObjectsFinal(session: CK_SESSION_HANDLE) -> (rv: CK_RV)
    ensures
        rv == CKR_FUNCTION_NOT_SUPPORTED,
{
    CKR_FUNCTION_NOT_SUPPORTED
}

/// The entry `C_GetAttributeValue`, which the module does not offer.
pub fn CK_C_GetAttributeValue(
    session: CK_SESSION_HANDLE,
    object: CK_OBJECT_HANDLE,
    count: u64,
) -> (rv: CK_RV)
    ensures
        rv == CKR_FUNCTION_NOT_SUPPORTED,
{
    CKR_FUNCTION_NOT_SUPPORTED
}

} // verus!
