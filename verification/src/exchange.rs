use vstd::prelude::*;
use crate::address::Address;
use crate::authority::{
    authority_label, derived_address, lemma_exclusive_authority, AuthorityProof, DERIVATION_SALT,
};
use crate::error::ExchangeError;
use crate::token::{burn, covered, mint_to, TokenAccount, TokenMint};

verus! {

/// Whether a swap of `amount` is owed success: the user signed, owns the
/// source account, holds the amount, and the presented proof derives the
/// destination mint's authority.
pub open spec fn swap_permitted(
    source_account: TokenAccount,
    destination_mint: TokenMint,
    user: Address,
    user_signed: bool,
    proof: AuthorityProof,
    amount: u64,
) -> bool {
    &&& user_signed
    &&& source_account.owner@ == user@
    &&& amount <= source_account.balance
    &&& proof.authorizes(destination_mint.mint_authority@)
}

/// A swap is owed success only when its proof carries exactly the fixed
/// label and salt — the derivation that any verifier can reproduce for
/// itself — wherever the destination mint's authority is the exchange
/// authority. So minting never succeeds under a proof that is not
/// independently reproducible from the fixed label.
pub proof fn lemma_swap_only_with_reproducible_proof(
    source_account: TokenAccount,
    destination_mint: TokenMint,
    user: Address,
    user_signed: bool,
    proof: AuthorityProof,
    amount: u64,
)
    requires
        destination_mint.mint_authority@ == derived_address(authority_label(), DERIVATION_SALT),
        swap_permitted(source_account, destination_mint, user, user_signed, proof, amount),
    ensures
        proof.label@ == authority_label(),
        proof.salt == DERIVATION_SALT,
{
    lemma_exclusive_authority(proof);
}

/// The atomic swap at the core of the exchange: burn `amount` source tokens
/// from the user's account under the user's own signature, then mint the
/// same amount of destination tokens to the user under the exchange
/// authority's derived proof. The two phases take effect together or not at
/// all: a burn whose following mint is refused is rolled back, so a failed
/// call leaves every balance and supply exactly as it found them.
pub fn burn_and_mint(
    source_mint: &mut TokenMint,
    destination_mint: &mut TokenMint,
    user_source_account: &mut TokenAccount,
    user_destination_account: &mut TokenAccount,
    user: &Address,
    user_signed: bool,
    mint_authority_proof: &AuthorityProof,
    amount: u64,
) -> (r: Result<(), ExchangeError>)
    requires
        covered(*old(source_mint), *old(user_source_account)),
        covered(*old(destination_mint), *old(user_destination_account)),
        old(user_destination_account).balance + amount <= u64::MAX,
        old(destination_mint).supply + amount <= u64::MAX,
    ensures
        // success is owed exactly on the permitted inputs
        r is Ok <==> swap_permitted(
            *old(user_source_account),
            *old(destination_mint),
            *user,
            user_signed,
            *mint_authority_proof,
            amount,
        ),
        // fixed one-to-one rate: the source balance falls and the
        // destination balance rises by exactly `amount`
        r is Ok ==> final(user_source_account).balance == old(user_source_account).balance
            - amount,
        r is Ok ==> final(user_destination_account).balance == old(user_destination_account).balance
            + amount,
        // the burned amount leaves the source supply and the minted amount
        // enters the destination supply
        r is Ok ==> final(source_mint).supply == old(source_mint).supply - amount,
        r is Ok ==> final(destination_mint).supply == old(destination_mint).supply + amount,
        // conservation: the user's combined holdings are unchanged
        final(user_source_account).balance + final(user_destination_account).balance
            == old(user_source_account).balance + old(user_destination_account).balance,
        // atomicity: a failed call has no observable effect
        r is Err ==> *final(source_mint) == *old(source_mint),
        r is Err ==> *final(destination_mint) == *old(destination_mint),
        r is Err ==> *final(user_source_account) == *old(user_source_account),
        r is Err ==> *final(user_destination_account) == *old(user_destination_account),
        // error taxonomy: a burn without the holder's signature is refused
        !(user_signed && old(user_source_account).owner@ == user@)
            ==> r == Err::<(), ExchangeError>(ExchangeError::Unauthorized),
        // a burn beyond the holdings is refused before any mint is attempted
        user_signed && old(user_source_account).owner@ == user@
            && amount > old(user_source_account).balance
            ==> r == Err::<(), ExchangeError>(ExchangeError::InsufficientBalance),
        // a mint without a proof that derives the authority is refused
        user_signed && old(user_source_account).owner@ == user@
            && amount <= old(user_source_account).balance
            && !mint_authority_proof.authorizes(old(destination_mint).mint_authority@)
            ==> r == Err::<(), ExchangeError>(ExchangeError::Unauthorized),
        // no other state is touched
        final(user_source_account).owner == old(user_source_account).owner,
        final(user_destination_account).owner == old(user_destination_account).owner,
        final(source_mint).mint_authority == old(source_mint).mint_authority,
        final(destination_mint).mint_authority == old(destination_mint).mint_authority,
        covered(*final(source_mint), *final(user_source_account)),
        covered(*final(destination_mint), *final(user_destination_account)),
{
    match burn(source_mint, user_source_account, user, user_signed, amount) {
        Err(e) => Err(e),
        Ok(()) => match mint_to(
            destination_mint,
            user_destination_account,
            mint_authority_proof,
            amount,
        ) {
            Ok(()) => Ok(()),
            Err(e) => {
                // compensating rollback: the enclosing transition is
                // all-or-nothing, so a refused mint must undo the burn
                user_source_account.balance = user_source_account.balance + amount;
                source_mint.supply = source_mint.supply + amount;
                Err(e)
            },
        },
    }
}

} // verus!
