use vstd::prelude::*;

use crate::error::ErrorCode;

verus! {

/// Whether `data` unpacks as an initialized token account, with or without
/// extensions, as the token program lays it out.
pub uninterp spec fn is_token_account(data: Seq<u8>) -> bool;

/// The size of a token account without extensions.
pub const TOKEN_ACCOUNT_LEN: usize = 165;

/// The size of a multisig account, which is never read as a token account.
pub const MULTISIG_LEN: usize = 355;

/// Relies on `AccountDeserialize::try_deserialize` of anchor_spl's interface
/// `TokenAccount`, which unpacks the bytes with spl-token-2022's
/// `StateWithExtensions::<Account>::unpack`: whether it succeeds depends on
/// the bytes alone, and data shorter than a token account, or of a
/// multisig's size, is refused.
#[verifier::external_body]
fn unpacks_as_token_account(data: &[u8]) -> (r: bool)
    ensures
        r == is_token_account(data@),
        data@.len() < TOKEN_ACCOUNT_LEN ==> !r,
        data@.len() == MULTISIG_LEN ==> !r,
{
    let mut slice: &[u8] = data;
    <anchor_spl::token_interface::TokenAccount as anchor_lang::AccountDeserialize>::try_deserialize(
        &mut slice,
    ).is_ok()
}

/// Checks that a recipient's data holds an initialized token account.
pub fn check_recipient(data: &[u8]) -> (r: Result<(), ErrorCode>)
    ensures
        r == (if is_token_account(data@) {
            Ok::<(), ErrorCode>(())
        } else {
            Err(ErrorCode::InvalidTokenAccount)
        }),
{
    if unpacks_as_token_account(data) {
        Ok(())
    } else {
        Err(ErrorCode::InvalidTokenAccount)
    }
}

/// Checks that there are as many recipient accounts as amounts.
pub fn check_arity(recipients: usize, amounts: usize) -> (r: Result<(), ErrorCode>)
    ensures
        r == (if recipients == amounts {
            Ok::<(), ErrorCode>(())
        } else {
            Err(ErrorCode::MismatchedRecipientAmounts)
        }),
{
    if recipients == amounts {
        Ok(())
    } else {
        Err(ErrorCode::MismatchedRecipientAmounts)
    }
}

} // verus!
