//! The entries of the token interface that the module does not offer: each
//! answers that the function is not supported, and does nothing else.
//!
//! An entry takes the plain values of its call; what a caller hands over by
//! address is not looked at.

use crate::pkcs11::{
    CKR_FUNCTION_NOT_SUPPORTED, CK_FLAGS, CK_NOTIFICATION, CK_OBJECT_HANDLE, CK_RV,
    CK_SESSION_HANDLE, CK_SLOT_ID, CK_USER_TYPE,
};
use vstd::prelude::*;

verus! {

/// The entry `CK_NOTIFY`, which the module does not offer.
pub fn CK_NOTIFY(session: CK_SESSION_HANDLE, event: CK_NOTIFICATION) -> (rv: CK_RV)
    ensures
        rv == CKR_FUNCTION_NOT_SUPPORTED,
{
    CKR_FUNCTION_NOT_SUPPORTED
}

/// The entry `C_WaitForSlotEvent`, which the module does not offer.
pub fn CK_C_WaitForSlotEvent(flags: CK_FLAGS) -> (rv: CK_RV)
    ensures
        rv == CKR_FUNCTION_NOT_SUPPORTED,
{
    CKR_FUNCTION_NOT_SUPPORTED
}

/// The entry `C_InitToken`, which the module does not offer.
pub fn CK_C_InitToken(slot_id: CK_SLOT_ID, pin_len: u64) -> (rv: CK_RV)
    ensures
        rv == CKR_FUNCTION_NOT_SUPPORTED,
{
    CKR_FUNCTION_NOT_SUPPORTED
}

/// The entry `C_InitPIN`, which the module does not offer.
pub fn CK_C_InitPIN(session: CK_SESSION_HANDLE, pin_len: u64) -> (rv: CK_RV)
    ensures
        rv == CKR_FUNCTION_NOT_SUPPORTED,
{
    CKR_FUNCTION_NOT_SUPPORTED
}

/// The entry `C_SetPIN`, which the module does not offer.
pub fn CK_C_SetPIN(session: CK_SESSION_HANDLE, old_len: u64, new_len: u64) -> (rv: CK_RV)
    ensures
        rv == CKR_FUNCTION_NOT_SUPPORTED,
{
    CKR_FUNCTION_NOT_SUPPORTED
}

/// The entry `C_CloseSession`, which the module does not offer.
pub fn CK_C_CloseSession(session: CK_SESSION_HANDLE) -> (rv: CK_RV)
    ensures
        rv == CKR_FUNCTION_NOT_SUPPORTED,
{
    CKR_FUNCTION_NOT_SUPPORTED
}

/// The entry `C_CloseAllSessions`, which the module does not offer.
pub fn CK_C_CloseAllSessions(slot_id: CK_SLOT_ID) -> (rv: CK_RV)
    ensures
        rv == CKR_FUNCTION_NOT_SUPPORTED,
{
    CKR_FUNCTION_NOT_SUPPORTED
}

/// The entry `C_GetOperationState`, which the module does not offer.
pub fn CK_C_GetOperationState(session: CK_SESSION_HANDLE) -> (rv: CK_RV)
    ensures
        rv == CKR_FUNCTION_NOT_SUPPORTED,
{
    CKR_FUNCTION_NOT_SUPPORTED
}

/// The entry `C_SetOperationState`, which the module does not offer.
pub fn CK_C_SetOperationState(
    session: CK_SESSION_HANDLE,
    operation_state_len: u64,
    encryption_key: CK_OBJECT_HANDLE,
    authentiation_key: CK_OBJECT_HANDLE,
) -> (rv: CK_RV)
    ensures
        rv == CKR_FUNCTION_NOT_SUPPORTED,
{
    CKR_FUNCTION_NOT_SUPPORTED
}

/// The entry `C_Login`, which the module does not offer.
pub fn CK_C_Login(session: CK_SESSION_HANDLE, user_type: CK_USER_TYPE, pin_len: u64) -> (rv: CK_RV)
    ensures
        rv == CKR_FUNCTION_NOT_SUPPORTED,
{
    CKR_FUNCTION_NOT_SUPPORTED
}

/// The entry `C_Logout`, which the module does not offer.
pub fn CK_C_Logout(session: CK_SESSION_HANDLE) -> (rv: CK_RV)
    ensures
        rv == CKR_FUNCTION_NOT_SUPPORTED,
{
    CKR_FUNCTION_NOT_SUPPORTED
}

/// The entry `C_CreateObject`, which the module does not offer.
pub fn CK_C_CreateObject(session: CK_SESSION_HANDLE, count: u64) -> (rv: CK_RV)
    ensures
        rv == CKR_FUNCTION_NOT_SUPPORTED,
{
    CKR_FUNCTION_NOT_SUPPORTED
}

/// The entry `C_CopyObject`, which the module does not offer.
pub fn CK_C_CopyObject(
    session: CK_SESSION_HANDLE,
    object: CK_OBJECT_HANDLE,
    count: u64,
) -> (rv: CK_RV)
    ensures
        rv == CKR_FUNCTION_NOT_SUPPORTED,
{
    CKR_FUNCTION_NOT_SUPPORTED
}

/// The entry `C_DestroyObject`, which the module does not offer.
pub fn CK_C_DestroyObject(session: CK_SESSION_HANDLE, object: CK_OBJECT_HANDLE) -> (rv: CK_RV)
    ensures
        rv == CKR_FUNCTION_NOT_SUPPORTED,
{
    CKR_FUNCTION_NOT_SUPPORTED
}

/// The entry `C_GetObjectSize`, which the module does not offer.
pub fn CK_C_GetObjectSize(session: CK_SESSION_HANDLE, object: CK_OBJECT_HANDLE) -> (rv: CK_RV)
    ensures
        rv == CKR_FUNCTION_NOT_SUPPORTED,
{
    CKR_FUNCTION_NOT_SUPPORTED
}

/// The entry `C_SetAttributeValue`, which the module does not offer.
pub fn CK_C_SetAttributeValue(
    session: CK_SESSION_HANDLE,
    object: CK_OBJECT_HANDLE,
    count: u64,
) -> (rv: CK_RV)
    ensures
        rv == CKR_FUNCTION_NOT_SUPPORTED,
{
    CKR_FUNCTION_NOT_SUPPORTED
}

/// The entry `C_EncryptInit`, which the module does not offer.
pub fn CK_C_EncryptInit(session: CK_SESSION_HANDLE, key: CK_OBJECT_HANDLE) -> (rv: CK_RV)
    ensures
        rv == CKR_FUNCTION_NOT_SUPPORTED,
{
    CKR_FUNCTION_NOT_SUPPORTED
}

/// The entry `C_Encrypt`, which the module does not offer.
pub fn CK_C_Encrypt(session: CK_SESSION_HANDLE, data_len: u64) -> (rv: CK_RV)
    ensures
        rv == CKR_FUNCTION_NOT_SUPPORTED,
{
    CKR_FUNCTION_NOT_SUPPORTED
}

/// The entry `C_EncryptUpdate`, which the module does not offer.
pub fn CK_C_EncryptUpdate(session: CK_SESSION_HANDLE, part_len: u64) -> (rv: CK_RV)
    ensures
        rv == CKR_FUNCTION_NOT_SUPPORTED,
{
    CKR_FUNCTION_NOT_SUPPORTED
}

/// The entry `C_EncryptFinal`, which the module does not offer.
pub fn CK_C_EncryptFinal(session: CK_SESSION_HANDLE) -> (rv: CK_RV)
    ensures
        rv == CKR_FUNCTION_NOT_SUPPORTED,
{
    CKR_FUNCTION_NOT_SUPPORTED
}

/// The entry `C_DecryptInit`, which the module does not offer.
pub fn CK_C_DecryptInit(session: CK_SESSION_HANDLE, key: CK_OBJECT_HANDLE) -> (rv: CK_RV)
    ensures
        rv == CKR_FUNCTION_NOT_SUPPORTED,
{
    CKR_FUNCTION_NOT_SUPPORTED
}

/// The entry `C_Decrypt`, which the module does not offer.
pub fn CK_C_Decrypt(session: CK_SESSION_HANDLE, encrypted_data_len: u64) -> (rv: CK_RV)
    ensures
        rv == CKR_FUNCTION_NOT_SUPPORTED,
{
    CKR_FUNCTION_NOT_SUPPORTED
}

/// The entry `C_DecryptUpdate`, which the module does not offer.
pub fn CK_C_DecryptUpdate(session: CK_SESSION_HANDLE, encrypted_part_len: u64) -> (rv: CK_RV)
    ensures
        rv == CKR_FUNCTION_NOT_SUPPORTED,
{
    CKR_FUNCTION_NOT_SUPPORTED
}

/// The entry `C_DecryptFinal`, which the module does not offer.
pub fn CK_C_DecryptFinal(session: CK_SESSION_HANDLE) -> (rv: CK_RV)
    ensures
        rv == CKR_FUNCTION_NOT_SUPPORTED,
{
    CKR_FUNCTION_NOT_SUPPORTED
}

/// The entry `C_DigestInit`, which the module does not offer.
pub fn CK_C_DigestInit(session: CK_SESSION_HANDLE) -> (rv: CK_RV)
    ensures
        rv == CKR_FUNCTION_NOT_SUPPORTED,
{
    CKR_FUNCTION_NOT_SUPPORTED
}

/// The entry `C_Digest`, which the module does not offer.
pub fn CK_C_Digest(session: CK_SESSION_HANDLE, data_len: u64) -> (rv: CK_RV)
    ensures
        rv == CKR_FUNCTION_NOT_SUPPORTED,
{
    CKR_FUNCTION_NOT_SUPPORTED
}

/// The entry `C_DigestUpdate`, which the module does not offer.
pub fn CK_C_DigestUpdate(session: CK_SESSION_HANDLE, part_len: u64) -> (rv: CK_RV)
    ensures
        rv == CKR_FUNCTION_NOT_SUPPORTED,
{
    CKR_FUNCTION_NOT_SUPPORTED
}

/// The entry `C_DigestKey`, which the module does not offer.
pub fn CK_C_DigestKey(session: CK_SESSION_HANDLE, key: CK_OBJECT_HANDLE) -> (rv: CK_RV)
    ensures
        rv == CKR_FUNCTION_NOT_SUPPORTED,
{
    CKR_FUNCTION_NOT_SUPPORTED
}

/// The entry `C_DigestFinal`, which the module does not offer.
pub fn CK_C_DigestFinal(session: CK_SESSION_HANDLE) -> (rv: CK_RV)
    ensures
        rv == CKR_FUNCTION_NOT_SUPPORTED,
{
    CKR_FUNCTION_NOT_SUPPORTED
}

/// The entry `C_SignInit`, which the module does not offer.
pub fn CK_C_SignInit(session: CK_SESSION_HANDLE, key: CK_OBJECT_HANDLE) -> (rv: CK_RV)
    ensures
        rv == CKR_FUNCTION_NOT_SUPPORTED,
{
    CKR_FUNCTION_NOT_SUPPORTED
}

/// The entry `C_Sign`, which the module does not offer.
pub fn CK_C_Sign(session: CK_SESSION_HANDLE, data_len: u64) -> (rv: CK_RV)
    ensures
        rv == CKR_FUNCTION_NOT_SUPPORTED,
{
    CKR_FUNCTION_NOT_SUPPORTED
}

/// The entry `C_SignUpdate`, which the module does not offer.
pub fn CK_C_SignUpdate(session: CK_SESSION_HANDLE, part_len: u64) -> (rv: CK_RV)
    ensures
        rv == CKR_FUNCTION_NOT_SUPPORTED,
{
    CKR_FUNCTION_NOT_SUPPORTED
}

/// The entry `C_SignFinal`, which the module does not offer.
pub fn CK_C_SignFinal(session: CK_SESSION_HANDLE) -> (rv: CK_RV)
    ensures
        rv == CKR_FUNCTION_NOT_SUPPORTED,
{
    CKR_FUNCTION_NOT_SUPPORTED
}

/// The entry `C_SignRecoverInit`, which the module does not offer.
pub fn CK_C_SignRecoverInit(session: CK_SESSION_HANDLE, key: CK_OBJECT_HANDLE) -> (rv: CK_RV)
    ensures
        rv == CKR_FUNCTION_NOT_SUPPORTED,
{
    CKR_FUNCTION_NOT_SUPPORTED
}

/// The entry `C_SignRecover`, which the module does not offer.
pub fn CK_C_SignRecover(session: CK_SESSION_HANDLE, data_len: u64) -> (rv: CK_RV)
    ensures
        rv == CKR_FUNCTION_NOT_SUPPORTED,
{
    CKR_FUNCTION_NOT_SUPPORTED
}

/// The entry `C_VerifyInit`, which the module does not offer.
pub fn CK_C_VerifyInit(session: CK_SESSION_HANDLE, key: CK_OBJECT_HANDLE) -> (rv: CK_RV)
    ensures
        rv == CKR_FUNCTION_NOT_SUPPORTED,
{
    CKR_FUNCTION_NOT_SUPPORTED
}

/// The entry `C_Verify`, which the module does not offer.
pub fn CK_C_Verify(session: CK_SESSION_HANDLE, data_len: u64, signature_len: u64) -> (rv: CK_RV)
    ensures
        rv == CKR_FUNCTION_NOT_SUPPORTED,
{
    CKR_FUNCTION_NOT_SUPPORTED
}

/// The entry `C_VerifyUpdate`, which the module does not offer.
pub fn CK_C_VerifyUpdate(session: CK_SESSION_HANDLE, part_len: u64) -> (rv: CK_RV)
    ensures
        rv == CKR_FUNCTION_NOT_SUPPORTED,
{
    CKR_FUNCTION_NOT_SUPPORTED
}

/// The entry `C_VerifyFinal`, which the module does not offer.
pub fn CK_C_VerifyFinal(session: CK_SESSION_HANDLE, signature_len: u64) -> (rv: CK_RV)
    ensures
        rv == CKR_FUNCTION_NOT_SUPPORTED,
{
    CKR_FUNCTION_NOT_SUPPORTED
}

/// The entry `C_VerifyRecoverInit`, which the module does not offer.
pub fn CK_C_VerifyRecoverInit(session: CK_SESSION_HANDLE, key: CK_OBJECT_HANDLE) -> (rv: CK_RV)
    ensures
        rv == CKR_FUNCTION_NOT_SUPPORTED,
{
    CKR_FUNCTION_NOT_SUPPORTED
}

/// The entry `C_VerifyRecover`, which the module does not offer.
pub fn CK_C_VerifyRecover(session: CK_SESSION_HANDLE, signature_len: u64) -> (rv: CK_RV)
    ensures
        rv == CKR_FUNCTION_NOT_SUPPORTED,
{
    CKR_FUNCTION_NOT_SUPPORTED
}

/// The entry `C_DigestEncryptUpdate`, which the module does not offer.
pub fn CK_C_DigestEncryptUpdate(session: CK_SESSION_HANDLE, part_len: u64) -> (rv: CK_RV)
    ensures
        rv == CKR_FUNCTION_NOT_SUPPORTED,
{
    CKR_FUNCTION_NOT_SUPPORTED
}

/// The entry `C_DecryptDigestUpdate`, which the module does not offer.
pub fn CK_C_DecryptDigestUpdate(session: CK_SESSION_HANDLE, encrypted_part_len: u64) -> (rv: CK_RV)
    ensures
        rv == CKR_FUNCTION_NOT_SUPPORTED,
{
    CKR_FUNCTION_NOT_SUPPORTED
}

/// The entry `C_SignEncryptUpdate`, which the module does not offer.
pub fn CK_C_SignEncryptUpdate(session: CK_SESSION_HANDLE, part_len: u64) -> (rv: CK_RV)
    ensures
        rv == CKR_FUNCTION_NOT_SUPPORTED,
{
    CKR_FUNCTION_NOT_SUPPORTED
}

/// The entry `C_DecryptVerifyUpdate`, which the module does not offer.
pub fn CK_C_DecryptVerifyUpdate(session: CK_SESSION_HANDLE, encrypted_part_len: u64) -> (rv: CK_RV)
    ensures
        rv == CKR_FUNCTION_NOT_SUPPORTED,
{
    CKR_FUNCTION_NOT_SUPPORTED
}

/// The entry `C_GenerateKey`, which the module does not offer.
pub fn CK_C_GenerateKey(session: CK_SESSION_HANDLE, count: u64) -> (rv: CK_RV)
    ensures
        rv == CKR_FUNCTION_NOT_SUPPORTED,
{
    CKR_FUNCTION_NOT_SUPPORTED
}

/// The entry `C_GenerateKeyPair`, which the module does not offer.
pub fn CK_C_GenerateKeyPair(
    session: CK_SESSION_HANDLE,
    public_key_attribute_count: u64,
    private_key_attribute_count: u64,
) -> (rv: CK_RV)
    ensures
        rv == CKR_FUNCTION_NOT_SUPPORTED,
{
    CKR_FUNCTION_NOT_SUPPORTED
}

/// The entry `C_WrapKey`, which the module does not offer.
pub fn CK_C_WrapKey(
    session: CK_SESSION_HANDLE,
    wrapping_key: CK_OBJECT_HANDLE,
    key: CK_OBJECT_HANDLE,
) -> (rv: CK_RV)
    ensures
        rv == CKR_FUNCTION_NOT_SUPPORTED,
{
    CKR_FUNCTION_NOT_SUPPORTED
}

/// The entry `C_UnwrapKey`, which the module does not offer.
pub fn CK_C_UnwrapKey(
    session: CK_SESSION_HANDLE,
    unwrapping_key: CK_OBJECT_HANDLE,
    wrapped_key_len: u64,
    attribute_count: u64,
) -> (rv: CK_RV)
    ensures
        rv == CKR_FUNCTION_NOT_SUPPORTED,
{
    CKR_FUNCTION_NOT_SUPPORTED
}

/// The entry `C_DeriveKey`, which the module does not offer.
pub fn CK_C_DeriveKey(
    session: CK_SESSION_HANDLE,
    base_key: CK_OBJECT_HANDLE,
    attribute_count: u64,
) -> (rv: CK_RV)
    ensures
        rv == CKR_FUNCTION_NOT_SUPPORTED,
{
    CKR_FUNCTION_NOT_SUPPORTED
}

/// The entry `C_SeedRandom`, which the module does not offer.
pub fn CK_C_SeedRandom(session: CK_SESSION_HANDLE, seed_len: u64) -> (rv: CK_RV)
    ensures
        rv == CKR_FUNCTION_NOT_SUPPORTED,
{
    CKR_FUNCTION_NOT_SUPPORTED
}

/// The entry `C_GenerateRandom`, which the module does not offer.
pub fn CK_C_GenerateRandom(session: CK_SESSION_HANDLE, random_len: u64) -> (rv: CK_RV)
    ensures
        rv == CKR_FUNCTION_NOT_SUPPORTED,
{
    CKR_FUNCTION_NOT_SUPPORTED
}

/// The entry `C_GetFunctionStatus`, which the module does not offer.
pub fn CK_C_GetFunctionStatus(session: CK_SESSION_HANDLE) -> (rv: CK_RV)
    ensures
        rv == CKR_FUNCTION_NOT_SUPPORTED,
{
    CKR_FUNCTION_NOT_SUPPORTED
}

/// The entry `C_CancelFunction`, which the module does not offer.
pub fn CK_C_CancelFunction(session: CK_SESSION_HANDLE) -> (rv: CK_RV)
    ensures
        rv == CKR_FUNCTION_NOT_SUPPORTED,
{
    CKR_FUNCTION_NOT_SUPPORTED
}

} // verus!
