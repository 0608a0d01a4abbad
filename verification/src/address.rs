use vstd::prelude::*;

use crate::pubkey::Pubkey;

verus! {

/// The address (and bump seed) that `Pubkey::try_find_program_address` of the Solana
/// program library derives from `seeds` for the program `program_id`, or `None` where
/// it finds none.
pub uninterp spec fn program_address(seeds: Seq<Seq<u8>>, program_id: Seq<u8>) -> Option<(Seq<u8>, u8)>;

/// The address part of [`program_address`].
pub open spec fn derived_address(seeds: Seq<Seq<u8>>, program_id: Seq<u8>) -> Option<Seq<u8>> {
    match program_address(seeds, program_id) {
        Some((key, _bump)) => Some(key),
        None => None,
    }
}

/// Calls `Pubkey::try_find_program_address` (solana-program, re-exported by anchor-lang):
/// the search, from bump 255 down, for the first bump seed whose derived address lies off
/// the ed25519 curve. The contract claims only that the result is the one named by
/// [`program_address`] for these seeds and this program id; what that address is (a
/// SHA-256 hash and a curve test) is left to the outside code.
#[verifier::external_body]
fn try_find_program_address(seeds: &Vec<Vec<u8>>, program_id: &Pubkey) -> (r: Option<(Pubkey, u8)>)
    ensures
        program_address(seeds.deep_view(), program_id@) == (match r {
            Some((key, bump)) => Some((key@, bump)),
            None => None,
        }),
{
    let seeds: Vec<&[u8]> = seeds.iter().map(|s| s.as_slice()).collect();
    let program_id = anchor_lang::prelude::Pubkey::new_from_array(program_id.0);
    match anchor_lang::prelude::Pubkey::try_find_program_address(&seeds, &program_id) {
        Some((key, bump)) => Some((Pubkey(key.to_bytes()), bump)),
        None => None,
    }
}

/// The bytes of the SPL token program's id, `TokenkegQfeZyiNwAJbNbGKPFXCWuBvf9Ss623VQ5DA`.
pub open spec fn token_program_key() -> Seq<u8> {
    seq![
        6u8, 221, 246, 225, 215, 101, 161, 147, 217, 203, 225, 70, 206, 235, 121, 172, 28, 180,
        133, 237, 95, 91, 55, 145, 58, 140, 245, 133, 126, 255, 0, 169,
    ]
}

/// The bytes of the associated token account program's id,
/// `ATokenGPvbdGVxr1b2hvZbsiqW5xWH25efTNsLJA8knL`.
pub open spec fn associated_token_program_key() -> Seq<u8> {
    seq![
        140u8, 151, 37, 143, 78, 36, 137, 241, 187, 61, 16, 41, 20, 142, 13, 131, 11, 90, 19, 153,
        218, 255, 16, 132, 4, 142, 123, 216, 219, 233, 248, 89,
    ]
}

/// Reads `anchor_spl::token::ID` (the id that spl-token declares). The contract claims its
/// 32 bytes, the base58 decoding of the id declared in spl-token's source.
#[verifier::external_body]
fn token_program_id() -> (r: Pubkey)
    ensures
        r@ == token_program_key(),
{
    Pubkey(anchor_spl::token::ID.to_bytes())
}

/// Reads `anchor_spl::associated_token::ID` (the id that spl-associated-token-account
/// declares). The contract claims its 32 bytes, the base58 decoding of the declared id.
#[verifier::external_body]
fn associated_token_program_id() -> (r: Pubkey)
    ensures
        r@ == associated_token_program_key(),
{
    Pubkey(anchor_spl::associated_token::ID.to_bytes())
}

/// The address of the associated token account of `wallet` for `mint`: the address derived
/// by the associated token account program from the seeds wallet, token program id, mint.
pub open spec fn associated_token_address(wallet: Seq<u8>, mint: Seq<u8>) -> Option<Seq<u8>> {
    derived_address(seq![wallet, token_program_key(), mint], associated_token_program_key())
}

/// The view of an optional address.
pub open spec fn key_of(r: Option<Pubkey>) -> Option<Seq<u8>> {
    match r {
        Some(key) => Some(key@),
        None => None,
    }
}

/// A byte seed is seen as its bytes.
pub proof fn lemma_seed_view(seed: Vec<u8>)
    ensures
        seed.deep_view() == seed@,
{
    assert(seed.deep_view() =~= seed@);
}

/// Derives the address of a program account from its seeds.
pub fn find_program_address(seeds: &Vec<Vec<u8>>, program_id: &Pubkey) -> (r: Option<Pubkey>)
    ensures
        key_of(r) == derived_address(seeds.deep_view(), program_id@),
{
    match try_find_program_address(seeds, program_id) {
        Some((key, _bump)) => Some(key),
        None => None,
    }
}

/// Derives the address of the associated token account of `wallet` for `mint`.
pub fn get_associated_token_address(wallet: &Pubkey, mint: &Pubkey) -> (r: Option<Pubkey>)
    ensures
        key_of(r) == associated_token_address(wallet@, mint@),
{
    let token_program = token_program_id();
    let ata_program = associated_token_program_id();
    let mut seeds: Vec<Vec<u8>> = Vec::new();
    seeds.push(wallet.to_vec());
    seeds.push(token_program.to_vec());
    seeds.push(mint.to_vec());
    proof {
        lemma_seed_view(seeds@[0]);
        lemma_seed_view(seeds@[1]);
        lemma_seed_view(seeds@[2]);
    }
    assert(seeds.deep_view() =~= seq![wallet@, token_program_key(), mint@]);
    find_program_address(&seeds, &ata_program)
}

} // verus!
