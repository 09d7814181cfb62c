//! Addresses on the ledger, and the address of the account that holds the
//! game record.

use crate::error::{DerivationError, Error};
use vstd::prelude::*;
use vstd::utf8::{encode_utf8, is_ascii_chars, is_ascii_chars_encode_utf8};

verus! {

/// An address on the ledger.
pub type Address = [u8; 32];

/// The longest seed, in bytes, from which an address can be derived.
pub const MAX_SEED_LEN: usize = 32;

/// The seed from which the address of the game record is derived.
pub open spec fn account_seed() -> Seq<char> {
    "black_jack"@
}

/// The bytes `ProgramDerivedAddress`, which mark the addresses that programs
/// derive for themselves.
pub open spec fn derived_marker() -> Seq<u8> {
    seq![
        80u8, 114u8, 111u8, 103u8, 114u8, 97u8, 109u8, 68u8, 101u8, 114u8, 105u8, 118u8, 101u8,
        100u8, 65u8, 100u8, 100u8, 114u8, 101u8, 115u8, 115u8,
    ]
}

/// Whether `owner` ends in the marker, so that nothing may be derived for it.
pub open spec fn is_reserved_owner(owner: Seq<u8>) -> bool {
    owner.len() >= 21 && owner.skip(owner.len() - 21) == derived_marker()
}

/// The thirty-two bytes that the ledger's hash makes of `base`, `seed` and
/// `owner`, one after the other.
pub uninterp spec fn seeded_digest(base: Seq<u8>, seed: Seq<u8>, owner: Seq<u8>) -> Seq<u8>;

/// `solana_program::pubkey::Pubkey::create_with_seed` on plain bytes. It
/// refuses a seed of more than `MAX_SEED_LEN` bytes, then an owner that ends
/// in the marker of derived addresses; otherwise the address is the hash of
/// base, seed and owner, which depends on these three alone. Nothing here
/// proves any of this: it is what the ledger's library does.
#[verifier::external_body]
fn create_with_seed(
    base: &Address,
    seed: &str,
    owner: &Address,
) -> (result: Result<Address, DerivationError>)
    ensures
        encode_utf8(seed@).len() > MAX_SEED_LEN ==> result matches Err(
            DerivationError::MaxSeedLengthExceeded,
        ),
        encode_utf8(seed@).len() <= MAX_SEED_LEN && is_reserved_owner(owner@)
            ==> result matches Err(DerivationError::IllegalOwner),
        encode_utf8(seed@).len() <= MAX_SEED_LEN && !is_reserved_owner(owner@) ==> result is Ok
            && result->Ok_0@ == seeded_digest(base@, encode_utf8(seed@), owner@),
{
    let base = solana_program::pubkey::Pubkey::new_from_array(*base);
    let owner = solana_program::pubkey::Pubkey::new_from_array(*owner);
    match solana_program::pubkey::Pubkey::create_with_seed(&base, seed, &owner) {
        Ok(key) => Ok(key.to_bytes()),
        Err(solana_program::pubkey::PubkeyError::MaxSeedLengthExceeded) => Err(
            DerivationError::MaxSeedLengthExceeded,
        ),
        Err(solana_program::pubkey::PubkeyError::InvalidSeeds) => Err(
            DerivationError::InvalidSeeds,
        ),
        Err(solana_program::pubkey::PubkeyError::IllegalOwner) => Err(
            DerivationError::IllegalOwner,
        ),
    }
}

/// The seed of the game record is ten bytes long.
pub proof fn lemma_account_seed_len()
    ensures
        account_seed().len() == 10,
        encode_utf8(account_seed()).len() == 10,
{
    reveal_strlit("black_jack");
    assert(is_ascii_chars(account_seed()));
    is_ascii_chars_encode_utf8(account_seed());
}

/// Gets the seed used to derive the address of the game record.
pub fn get_account_seed() -> (seed: &'static str)
    ensures
        seed@ == account_seed(),
{
    "black_jack"
}

/// Derives the address of the game record for a player and a program: the
/// address with the game's seed, based on the player and owned by the
/// program. A program whose address ends in the marker of derived addresses
/// has none.
pub fn get_account_public_key(
    player: &Address,
    program: &Address,
) -> (result: Result<Address, Error>)
    ensures
        is_reserved_owner(program@) ==> result matches Err(
            Error::KeyDerivationError(DerivationError::IllegalOwner),
        ),
        !is_reserved_owner(program@) ==> result is Ok && result->Ok_0@ == seeded_digest(
            player@,
            encode_utf8(account_seed()),
            program@,
        ),
{
    proof {
        lemma_account_seed_len();
    }
    match create_with_seed(player, get_account_seed(), program) {
        Ok(address) => Ok(address),
        Err(e) => Err(Error::KeyDerivationError(e)),
    }
}

} // verus!
