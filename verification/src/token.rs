use vstd::prelude::*;
use crate::address::Address;
use crate::authority::{verify_authority, AuthorityProof};
use crate::error::ExchangeError;

verus! {

/// One fungible token kind of the external token ledger: its outstanding
/// supply and the only identity allowed to increase it.
pub struct TokenMint {
    pub supply: u64,
    pub mint_authority: Address,
}

/// One holder's balance of a single token kind.
pub struct TokenAccount {
    pub owner: Address,
    pub balance: u64,
}

/// A balance is covered by its mint's outstanding supply.
pub open spec fn covered(mint: TokenMint, account: TokenAccount) -> bool {
    account.balance <= mint.supply
}

/// Burn: irreversibly debit `amount` from `from` and retire it from the
/// supply, authorized by the holder's own signature. On failure neither the
/// account nor the mint changes.
pub fn burn(
    mint: &mut TokenMint,
    from: &mut TokenAccount,
    authority: &Address,
    authority_signed: bool,
    amount: u64,
) -> (r: Result<(), ExchangeError>)
    requires
        covered(*old(mint), *old(from)),
    ensures
        r is Ok <==> (authority_signed && old(from).owner@ == authority@ && amount
            <= old(from).balance),
        r is Ok ==> final(from).balance == old(from).balance - amount && final(mint).supply == old(
            mint,
        ).supply - amount,
        !(authority_signed && old(from).owner@ == authority@) ==> r == Err::<
            (),
            ExchangeError,
        >(ExchangeError::Unauthorized),
        authority_signed && old(from).owner@ == authority@ && amount > old(from).balance ==> r
            == Err::<(), ExchangeError>(ExchangeError::InsufficientBalance),
        r is Err ==> *final(from) == *old(from) && *final(mint) == *old(mint),
        final(from).owner == old(from).owner,
        final(mint).mint_authority == old(mint).mint_authority,
        covered(*final(mint), *final(from)),
{
    if !authority_signed || !from.owner.equals(authority) {
        return Err(ExchangeError::Unauthorized);
    }
    if amount > from.balance {
        return Err(ExchangeError::InsufficientBalance);
    }
    from.balance = from.balance - amount;
    mint.supply = mint.supply - amount;
    Ok(())
}

/// Mint: credit `amount` to `to` and add it to the supply, authorized only
/// by a proof that derives the mint authority's address. On failure neither
/// the account nor the mint changes.
pub fn mint_to(
    mint: &mut TokenMint,
    to: &mut TokenAccount,
    proof: &AuthorityProof,
    amount: u64,
) -> (r: Result<(), ExchangeError>)
    requires
        old(to).balance + amount <= u64::MAX,
        old(mint).supply + amount <= u64::MAX,
        covered(*old(mint), *old(to)),
    ensures
        r is Ok <==> proof.authorizes(old(mint).mint_authority@),
        r is Ok ==> final(to).balance == old(to).balance + amount && final(mint).supply == old(
            mint,
        ).supply + amount,
        r is Err ==> r == Err::<(), ExchangeError>(ExchangeError::Unauthorized) && *final(to)
            == *old(to) && *final(mint) == *old(mint),
        final(to).owner == old(to).owner,
        final(mint).mint_authority == old(mint).mint_authority,
        covered(*final(mint), *final(to)),
{
    if !verify_authority(proof, &mint.mint_authority) {
        return Err(ExchangeError::Unauthorized);
    }
    to.balance = to.balance + amount;
    mint.supply = mint.supply + amount;
    Ok(())
}

} // verus!
