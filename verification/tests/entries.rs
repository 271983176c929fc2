use kr_shim::pkcs11::{CKR_FUNCTION_NOT_SUPPORTED, CKR_OK};
use kr_shim::shim::{
    CK_C_FindObjects, CK_C_FindObjectsFinal, CK_C_FindObjectsInit, CK_C_GetAttributeValue,
    CK_C_GetFunctionList, CK_C_GetInfo, CK_C_GetMechanismInfo, CK_C_GetMechanismList,
    CK_C_GetSessionInfo, CK_C_GetSlotInfo, CK_C_GetSlotList, CK_C_GetTokenInfo, C_GetFunctionList,
};
use kr_shim::unsupported::{
    CK_C_CancelFunction, CK_C_CloseAllSessions, CK_C_CloseSession, CK_C_CopyObject,
    CK_C_CreateObject, CK_C_Decrypt, CK_C_DecryptDigestUpdate, CK_C_DecryptFinal, CK_C_DecryptInit,
    CK_C_DecryptUpdate, CK_C_DecryptVerifyUpdate, CK_C_DeriveKey, CK_C_DestroyObject, CK_C_Digest,
    CK_C_DigestEncryptUpdate, CK_C_DigestFinal, CK_C_DigestInit, CK_C_DigestKey, CK_C_DigestUpdate,
    CK_C_Encrypt, CK_C_EncryptFinal, CK_C_EncryptInit, CK_C_EncryptUpdate, CK_C_GenerateKey,
    CK_C_GenerateKeyPair, CK_C_GenerateRandom, CK_C_GetFunctionStatus, CK_C_GetObjectSize,
    CK_C_GetOperationState, CK_C_InitPIN, CK_C_InitToken, CK_C_Login, CK_C_Logout, CK_C_SeedRandom,
    CK_C_SetAttributeValue, CK_C_SetOperationState, CK_C_SetPIN, CK_C_Sign, CK_C_SignEncryptUpdate,
    CK_C_SignFinal, CK_C_SignInit, CK_C_SignRecover, CK_C_SignRecoverInit, CK_C_SignUpdate,
    CK_C_UnwrapKey, CK_C_Verify, CK_C_VerifyFinal, CK_C_VerifyInit, CK_C_VerifyRecover,
    CK_C_VerifyRecoverInit, CK_C_VerifyUpdate, CK_C_WaitForSlotEvent, CK_C_WrapKey, CK_NOTIFY,
};

#[test]
fn return_values() {
    assert_eq!(CKR_OK, 0);
    assert_eq!(CKR_FUNCTION_NOT_SUPPORTED, 0x54);
}

#[test]
fn function_list_is_handed_out() {
    assert_eq!(C_GetFunctionList(), CKR_OK);
    assert_eq!(CK_C_GetFunctionList(), CKR_OK);
}

#[test]
fn module_entries_are_not_supported() {
    let replies = [
        CK_C_GetInfo(),
        CK_C_GetSlotList(1),
        CK_C_GetSlotInfo(1),
        CK_C_GetTokenInfo(1),
        CK_C_GetMechanismList(1),
        CK_C_GetMechanismInfo(1, 2),
        CK_C_GetSessionInfo(1),
        CK_C_FindObjectsInit(1, 2),
        CK_C_FindObjects(1, 2),
        CK_C_FindObjectsFinal(1),
        CK_C_GetAttributeValue(1, 2, 3),
    ];
    assert_eq!(replies.len(), 11);
    assert!(replies.iter().all(|rv| *rv == 0x54));
}

#[test]
fn remaining_entries_are_not_supported() {
    let replies = [
        CK_NOTIFY(1, 2),
        CK_C_WaitForSlotEvent(1),
        CK_C_InitToken(1, 2),
        CK_C_InitPIN(1, 2),
        CK_C_SetPIN(1, 2, 3),
        CK_C_CloseSession(1),
        CK_C_CloseAllSessions(1),
        CK_C_GetOperationState(1),
        CK_C_SetOperationState(1, 2, 3, 4),
        CK_C_Login(1, 2, 3),
        CK_C_Logout(1),
        CK_C_CreateObject(1, 2),
        CK_C_CopyObject(1, 2, 3),
        CK_C_DestroyObject(1, 2),
        CK_C_GetObjectSize(1, 2),
        CK_C_SetAttributeValue(1, 2, 3),
        CK_C_EncryptInit(1, 2),
        CK_C_Encrypt(1, 2),
        CK_C_EncryptUpdate(1, 2),
        CK_C_EncryptFinal(1),
        CK_C_DecryptInit(1, 2),
        CK_C_Decrypt(1, 2),
        CK_C_DecryptUpdate(1, 2),
        CK_C_DecryptFinal(1),
        CK_C_DigestInit(1),
        CK_C_Digest(1, 2),
        CK_C_DigestUpdate(1, 2),
        CK_C_DigestKey(1, 2),
        CK_C_DigestFinal(1),
        CK_C_SignInit(1, 2),
        CK_C_Sign(1, 2),
        CK_C_SignUpdate(1, 2),
        CK_C_SignFinal(1),
        CK_C_SignRecoverInit(1, 2),
        CK_C_SignRecover(1, 2),
        CK_C_VerifyInit(1, 2),
        CK_C_Verify(1, 2, 3),
        CK_C_VerifyUpdate(1, 2),
        CK_C_VerifyFinal(1, 2),
        CK_C_VerifyRecoverInit(1, 2),
        CK_C_VerifyRecover(1, 2),
        CK_C_DigestEncryptUpdate(1, 2),
        CK_C_DecryptDigestUpdate(1, 2),
        CK_C_SignEncryptUpdate(1, 2),
        CK_C_DecryptVerifyUpdate(1, 2),
        CK_C_GenerateKey(1, 2),
        CK_C_GenerateKeyPair(1, 2, 3),
        CK_C_WrapKey(1, 2, 3),
        CK_C_UnwrapKey(1, 2, 3, 4),
        CK_C_DeriveKey(1, 2, 3),
        CK_C_SeedRandom(1, 2),
        CK_C_GenerateRandom(1, 2),
        CK_C_GetFunctionStatus(1),
        CK_C_CancelFunction(1),
    ];
    assert_eq!(replies.len(), 54);
    assert!(replies.iter().all(|rv| *rv == 0x54));
}
