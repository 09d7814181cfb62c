//! What a participant sends to the program, and what it reads from the
//! account that holds the game.

use crate::deck::{generate_deck, is_full_deck};
use crate::error::Error;
use crate::record::{
    BlackJackAccountDataSchema, GameRecord, SendDeck, CLEAR_DATA, DEAL, SEND_DECK,
};
use crate::wire::{lemma_le_bytes_len, prefixed};
use vstd::prelude::*;

verus! {

/// The instruction that sends `deck`: the tag `SEND_DECK`, then the deck
/// behind its length.
pub open spec fn deck_instruction_bytes(deck: Seq<u8>) -> Seq<u8> {
    seq![SEND_DECK] + prefixed(deck)
}

/// The instruction that holds the one operation `operation` and no payload.
fn bare_instruction(operation: u8) -> (data: Vec<u8>)
    ensures
        data@ == seq![operation],
{
    let mut data: Vec<u8> = Vec::new();
    data.push(operation);
    assert(data@ =~= seq![operation]);
    data
}

/// The instruction that sends `deck` to the program. A deck too long for
/// its length field cannot be sent.
pub fn deck_instruction(deck: Vec<u8>) -> (result: Result<Vec<u8>, Error>)
    ensures
        deck@.len() <= u32::MAX ==> (result matches Ok(data) && data@ == deck_instruction_bytes(
            deck@,
        )),
        deck@.len() > u32::MAX ==> (result matches Err(Error::Error(message)) && message@
            == "Deck serialization error"@),
{
    let mut data = bare_instruction(SEND_DECK);
    let payload = SendDeck { deck };
    match payload.serialize(&mut data) {
        Ok(()) => Ok(data),
        Err(_) => Err(Error::Error(String::from_str("Deck serialization error"))),
    }
}

/// The instruction that sends a newly shuffled deck to the program: the tag
/// `SEND_DECK`, the number fifty-two in four bytes, and a full deck.
pub fn send_deck() -> (result: Result<Vec<u8>, Error>)
    ensures
        result matches Ok(data) && is_full_deck(data@.skip(5)) && data@ == deck_instruction_bytes(
            data@.skip(5),
        ),
{
    let deck = generate_deck();
    proof {
        lemma_le_bytes_len(52, 4);
        assert(deck_instruction_bytes(deck@).skip(5) =~= deck@);
    }
    deck_instruction(deck)
}

/// The instruction that starts the game: the program deals the cards.
pub fn deal() -> (data: Vec<u8>)
    ensures
        data@ == seq![DEAL],
{
    bare_instruction(DEAL)
}

/// The instruction that wipes the record for the next game.
pub fn clear_data() -> (data: Vec<u8>)
    ensures
        data@ == seq![CLEAR_DATA],
{
    bare_instruction(CLEAR_DATA)
}

/// The instruction by which the side that `operation` names takes a card.
pub fn hit(operation: u8) -> (data: Vec<u8>)
    ensures
        data@ == seq![operation],
{
    bare_instruction(operation)
}

/// The instruction by which the side that `operation` names takes no more
/// cards.
pub fn stand(operation: u8) -> (data: Vec<u8>)
    ensures
        data@ == seq![operation],
{
    bare_instruction(operation)
}

/// The instruction by which the side that `operation` names says that its
/// hand went over the limit.
pub fn busted(operation: u8) -> (data: Vec<u8>)
    ensures
        data@ == seq![operation],
{
    bare_instruction(operation)
}

/// Reads the game record from the bytes of its account. Bytes that hold no
/// record are a serialization error.
pub fn read_record(account_data: &[u8]) -> (result: Result<BlackJackAccountDataSchema, Error>)
    ensures
        match GameRecord::decoding(account_data@) {
            Ok(record) => result matches Ok(read) && read@ == record,
            Err(e) => result matches Err(Error::SerializationError(f)) && f == e,
        },
{
    match BlackJackAccountDataSchema::try_from_slice(account_data) {
        Ok(record) => Ok(record),
        Err(e) => Err(Error::SerializationError(e)),
    }
}

/// Gets the dealer's face-up card from the bytes of the account.
pub fn get_init_status(account_data: &[u8]) -> (result: Result<u8, Error>)
    ensures
        match GameRecord::decoding(account_data@) {
            Ok(record) => result matches Ok(card) && card == record.dealer_up_card,
            Err(e) => result matches Err(Error::SerializationError(f)) && f == e,
        },
{
    match read_record(account_data) {
        Ok(record) => Ok(record.dealer_up_card),
        Err(e) => Err(e),
    }
}

/// Whether the record in the account is under `DEAL`: the cards are dealt
/// and nothing has happened since.
pub fn is_deck_dealt(account_data: &[u8]) -> (result: Result<bool, Error>)
    ensures
        match GameRecord::decoding(account_data@) {
            Ok(record) => result matches Ok(dealt) && dealt == (record.last_operation == DEAL),
            Err(e) => result matches Err(Error::SerializationError(f)) && f == e,
        },
{
    match read_record(account_data) {
        Ok(record) => Ok(record.last_operation == DEAL),
        Err(e) => Err(e),
    }
}

} // verus!
