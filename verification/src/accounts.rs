use vstd::prelude::*;

use crate::address::{
    associated_token_address, derived_address, find_program_address,
    get_associated_token_address, lemma_seed_view,
};
use crate::pubkey::Pubkey;
use crate::utils::errors::StakingError;

verus! {

/// An account handed to an instruction: its address and the data it holds.
#[derive(Clone, Copy, Debug)]
pub struct Account<T> {
    pub key: Pubkey,
    pub data: T,
}

/// What the program reads of a token account: the mint of its tokens and the
/// authority that owns them.
#[derive(Clone, Copy, Debug)]
pub struct TokenAccount {
    pub mint: Pubkey,
    pub owner: Pubkey,
}

/// A transfer of tokens that an instruction asks the token program to make: `amount`
/// tokens from the token account `from` to the token account `to`, signed by `authority`.
#[derive(Clone, Copy, Debug, PartialEq, Eq)]
pub struct TokenTransfer {
    pub from: Pubkey,
    pub to: Pubkey,
    pub authority: Pubkey,
    pub amount: u64,
}

/// An instruction's context: the id of the program that runs it and its accounts.
#[derive(Clone, Copy, Debug)]
pub struct Context<T> {
    pub program_id: Pubkey,
    pub accounts: T,
}

/// The first error of two checks made in turn.
pub open spec fn and_then(
    first: Result<(), StakingError>,
    second: Result<(), StakingError>,
) -> Result<(), StakingError> {
    match first {
        Ok(()) => second,
        Err(e) => Err(e),
    }
}

/// The check that an account sits at the address derived from its seeds.
pub open spec fn seeds_check(key: Seq<u8>, seeds: Seq<Seq<u8>>, program_id: Seq<u8>) -> Result<
    (),
    StakingError,
> {
    match derived_address(seeds, program_id) {
        None => Err(StakingError::ProgramAddressNotFound),
        Some(address) => if key == address {
            Ok(())
        } else {
            Err(StakingError::ConstraintSeeds)
        },
    }
}

/// The check that an existing token account is the associated token account of
/// `wallet` for `mint`: first that `wallet` owns it, then its address.
pub open spec fn associated_token_check(
    account: Account<TokenAccount>,
    wallet: Seq<u8>,
    mint: Seq<u8>,
) -> Result<(), StakingError> {
    if account.data.owner@ != wallet {
        Err(StakingError::ConstraintTokenOwner)
    } else {
        match associated_token_address(wallet, mint) {
            None => Err(StakingError::ProgramAddressNotFound),
            Some(address) => if account.key@ == address {
                Ok(())
            } else {
                Err(StakingError::ConstraintAssociated)
            },
        }
    }
}

/// The check on a token account that the instruction creates if it is missing: its mint,
/// its owner, then its address as the associated token account of `wallet` for `mint`.
pub open spec fn created_associated_token_check(
    account: Account<TokenAccount>,
    wallet: Seq<u8>,
    mint: Seq<u8>,
) -> Result<(), StakingError> {
    if account.data.mint@ != mint {
        Err(StakingError::ConstraintTokenMint)
    } else if account.data.owner@ != wallet {
        Err(StakingError::ConstraintTokenOwner)
    } else {
        match associated_token_address(wallet, mint) {
            None => Err(StakingError::ProgramAddressNotFound),
            Some(address) => if account.key@ == address {
                Ok(())
            } else {
                Err(StakingError::AccountNotAssociatedTokenAccount)
            },
        }
    }
}

/// The seeds `prefix`, `first`, `second`.
pub fn three_seeds(prefix: Vec<u8>, first: &Pubkey, second: &Pubkey) -> (r: Vec<Vec<u8>>)
    ensures
        r.deep_view() == seq![prefix@, first@, second@],
{
    let mut r: Vec<Vec<u8>> = Vec::new();
    r.push(prefix);
    r.push(first.to_vec());
    r.push(second.to_vec());
    proof {
        lemma_seed_view(r@[0]);
        lemma_seed_view(r@[1]);
        lemma_seed_view(r@[2]);
    }
    assert(r.deep_view() =~= seq![prefix@, first@, second@]);
    r
}

/// Checks that `key` is the address derived from `seeds` for `program_id`.
pub fn check_seeds(key: &Pubkey, seeds: &Vec<Vec<u8>>, program_id: &Pubkey) -> (r: Result<
    (),
    StakingError,
>)
    ensures
        r == seeds_check(key@, seeds.deep_view(), program_id@),
{
    match find_program_address(seeds, program_id) {
        None => Err(StakingError::ProgramAddressNotFound),
        Some(address) => if *key == address {
            Ok(())
        } else {
            Err(StakingError::ConstraintSeeds)
        },
    }
}

/// Checks that an existing token account is the associated token account of `wallet`
/// for `mint`.
pub fn check_associated_token(account: &Account<TokenAccount>, wallet: &Pubkey, mint: &Pubkey) -> (r:
    Result<(), StakingError>)
    ensures
        r == associated_token_check(*account, wallet@, mint@),
{
    if account.data.owner != *wallet {
        return Err(StakingError::ConstraintTokenOwner);
    }
    match get_associated_token_address(wallet, mint) {
        None => Err(StakingError::ProgramAddressNotFound),
        Some(address) => if account.key == address {
            Ok(())
        } else {
            Err(StakingError::ConstraintAssociated)
        },
    }
}

/// Checks a token account that the instruction creates if it is missing.
pub fn check_created_associated_token(
    account: &Account<TokenAccount>,
    wallet: &Pubkey,
    mint: &Pubkey,
) -> (r: Result<(), StakingError>)
    ensures
        r == created_associated_token_check(*account, wallet@, mint@),
{
    if account.data.mint != *mint {
        return Err(StakingError::ConstraintTokenMint);
    }
    if account.data.owner != *wallet {
        return Err(StakingError::ConstraintTokenOwner);
    }
    match get_associated_token_address(wallet, mint) {
        None => Err(StakingError::ProgramAddressNotFound),
        Some(address) => if account.key == address {
            Ok(())
        } else {
            Err(StakingError::AccountNotAssociatedTokenAccount)
        },
    }
}

} // verus!
