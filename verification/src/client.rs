//! What a participant works out between its calls to the ledger: how much
//! it must own, how much it must ask for, and what a notification holds.

use crate::actions::read_record;
use crate::error::Error;
use crate::record::{BlackJackAccountDataSchema, GameRecord};
use vstd::prelude::*;

verus! {

/// The number of signatures that a participant provides funds for.
pub const FUNDED_SIGNATURES: u64 = 100;

/// Reads the game record from the account bytes that a notification
/// carries.
pub fn process_solana_network_event(
    account_data: &[u8],
) -> (result: Result<BlackJackAccountDataSchema, Error>)
    ensures
        match GameRecord::decoding(account_data@) {
            Ok(record) => result matches Ok(read) && read@ == record,
            Err(e) => result matches Err(Error::SerializationError(f)) && f == e,
        },
{
    read_record(account_data)
}

/// Determines how much a participant must own: what keeps the account of
/// the game record free of rent, and the fee of a hundred signatures.
pub fn get_balance_requirement(account_fee: u64, lamports_per_signature: u64) -> (required: u64)
    requires
        lamports_per_signature * FUNDED_SIGNATURES + account_fee <= u64::MAX,
    ensures
        required == lamports_per_signature * FUNDED_SIGNATURES + account_fee,
{
    let transaction_fee = lamports_per_signature * FUNDED_SIGNATURES;
    transaction_fee + account_fee
}

/// Determines how much a participant must own, or nothing where the sum is
/// more than the ledger can count.
pub fn checked_balance_requirement(
    account_fee: u64,
    lamports_per_signature: u64,
) -> (required: Option<u64>)
    ensures
        match required {
            Some(sum) => sum == lamports_per_signature * FUNDED_SIGNATURES + account_fee,
            None => lamports_per_signature * FUNDED_SIGNATURES + account_fee > u64::MAX,
        },
{
    if lamports_per_signature > (u64::MAX - account_fee) / FUNDED_SIGNATURES {
        None
    } else {
        Some(get_balance_requirement(account_fee, lamports_per_signature))
    }
}

/// How much a participant that owns `balance` must ask for to own
/// `requirement`: the difference, or nothing where it owns enough.
pub fn funding_request(balance: u64, requirement: u64) -> (request: Option<u64>)
    ensures
        balance < requirement ==> request == Some((requirement - balance) as u64),
        balance >= requirement ==> request is None,
{
    if balance < requirement {
        Some(requirement - balance)
    } else {
        None
    }
}

/// What is said of a program whose account cannot be run.
pub open spec fn not_executable_message(keypair_path: Seq<char>) -> Seq<char> {
    "program with keypair ("@ + keypair_path + ") is not executable"@
}

/// Accepts the program of the key file `keypair_path` if its account can be
/// run; one that cannot is an invalid configuration.
pub fn require_executable(keypair_path: &str, executable: bool) -> (result: Result<(), Error>)
    ensures
        executable ==> result is Ok,
        !executable ==> (result matches Err(Error::InvalidConfig(message)) && message@
            == not_executable_message(keypair_path@)),
{
    if executable {
        Ok(())
    } else {
        let mut message = String::from_str("program with keypair (");
        message.append(keypair_path);
        message.append(") is not executable");
        Err(Error::InvalidConfig(message))
    }
}

} // verus!
