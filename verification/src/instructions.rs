//! The program that owns the game record: it takes an instruction, applies
//! the operation to the record in the account's bytes and writes it back.

use crate::actions::deck_instruction_bytes;
use crate::address::Address;
use crate::deck::is_full_deck;
use crate::record::{
    deck_decoding, lemma_decoding_of_encoding, lemma_deck_decoding_of_prefixed,
    lemma_encoding_len, lemma_encoding_of_decoding, lemma_first_deal_from_deck,
    lemma_operation_keeps_shape,
    BlackJackAccountData, GameRecord, SendDeck,
    CLEAR_DATA, DEAL, DEALER_BUSTED, DEALER_HIT, DEALER_STAND, PLAYER_BUSTED, PLAYER_HIT,
    PLAYER_STAND, SEND_DECK,
};
use crate::wire::{
    lemma_le_bytes_len, lemma_le_value_bound, lemma_pow256_values, prefixed,
};
use vstd::prelude::*;
use vstd::slice::slice_subrange;

verus! {

/// An account as the program sees it: who owns it, and its bytes. The number
/// of bytes is fixed when the account is made.
#[derive(Debug, Clone)]
pub struct Account {
    pub owner: Address,
    pub data: Vec<u8>,
}

/// Why the program refused an instruction.
#[derive(Debug, Clone, Copy, PartialEq, Eq, Structural)]
pub enum ProgramError {
    /// No account came with the instruction.
    NotEnoughAccountKeys,
    /// The account is not owned by this program.
    IncorrectProgramId,
    /// The instruction holds no operation.
    InvalidInstructionData,
}

/// `data` with `bytes` written over its front, or `data` itself where it is
/// too short to take them.
pub open spec fn overwritten(data: Seq<u8>, bytes: Seq<u8>) -> Seq<u8> {
    if bytes.len() <= data.len() {
        bytes + data.skip(bytes.len() as int)
    } else {
        data
    }
}

/// The account's bytes once a deck arrived in `payload`: the record of the
/// new deck over the front of the account. A payload that holds no deck, or
/// a deck whose record the account cannot take, changes nothing.
pub open spec fn data_after_send_deck(data: Seq<u8>, payload: Seq<u8>) -> Seq<u8> {
    match deck_decoding(payload) {
        Ok(deck) => overwritten(data, GameRecord::with_deck(deck).encoding()),
        Err(_) => data,
    }
}

/// The account's bytes once `change` was made to the record in them; bytes
/// that hold no record stay as they are.
pub open spec fn data_after(data: Seq<u8>, change: spec_fn(GameRecord) -> GameRecord) -> Seq<u8> {
    match GameRecord::decoding(data) {
        Ok(record) => change(record).encoding(),
        Err(_) => data,
    }
}

/// The account's bytes once the program ran `instruction`: its first byte is
/// the operation, the rest the payload.
pub open spec fn data_after_instruction(data: Seq<u8>, instruction: Seq<u8>) -> Seq<u8> {
    if instruction.len() == 0 {
        data
    } else if instruction[0] == SEND_DECK {
        data_after_send_deck(data, instruction.skip(1))
    } else {
        data_after(data, |record: GameRecord| record.after(instruction[0]))
    }
}

/// Whether two addresses are the same.
fn same_address(a: &Address, b: &Address) -> (same: bool)
    ensures
        same == (a@ == b@),
{
    let mut i: usize = 0;
    while i < 32
        invariant
            i <= 32,
            forall|k: int| 0 <= k < i ==> a@[k] == b@[k],
        decreases 32 - i,
    {
        if a[i] != b[i] {
            return false;
        }
        i = i + 1;
    }
    assert(a@ =~= b@);
    true
}

/// Writes `bytes` over the front of `data` if they fit.
fn overwrite(data: &mut Vec<u8>, bytes: &Vec<u8>)
    ensures
        final(data)@ == overwritten(old(data)@, bytes@),
{
    let count = bytes.len();
    if count <= data.len() {
        let mut i: usize = 0;
        while i < count
            invariant
                i <= count == bytes@.len(),
                count <= data@.len() == old(data)@.len(),
                forall|k: int| 0 <= k < i ==> data@[k] == bytes@[k],
                forall|k: int| i <= k < data@.len() ==> data@[k] == old(data)@[k],
            decreases count - i,
        {
            data[i] = bytes[i];
            i = i + 1;
        }
        assert(data@ =~= overwritten(old(data)@, bytes@));
    }
}

/// Writes `record` back over the bytes it was read from.
fn store(data: &mut Vec<u8>, record: &BlackJackAccountData)
    requires
        GameRecord::decoding(old(data)@) is Ok,
        record@.cards.len() == GameRecord::decoding(old(data)@)->Ok_0.cards.len(),
    ensures
        final(data)@ == record@.encoding(),
{
    proof {
        lemma_encoding_of_decoding(data@);
        lemma_le_bytes_len(record@.current_card, 8);
        lemma_le_bytes_len(record@.cards.len(), 4);
    }
    match record.try_to_vec() {
        Ok(bytes) => {
            overwrite(data, &bytes);
            assert(data@ =~= bytes@);
        },
        Err(_) => {},
    }
}

/// Stores the deck that `instruction_data` holds into the account, under the
/// tag `SEND_DECK`.
pub fn unpack_send_deck(instruction_data: &[u8], account_data: &mut Vec<u8>)
    ensures
        final(account_data)@ == data_after_send_deck(old(account_data)@, instruction_data@),
{
    match SendDeck::try_from_slice(instruction_data) {
        Ok(payload) => {
            let record = BlackJackAccountData::with_deck(payload.deck);
            match record.try_to_vec() {
                Ok(bytes) => overwrite(account_data, &bytes),
                Err(_) => {
                    proof {
                        lemma_le_value_bound(instruction_data@.subrange(0, 4));
                        lemma_pow256_values();
                    }
                },
            }
        },
        Err(_) => {},
    }
}

/// Deals the opening cards to dealer and player from the high end of the
/// deck in the account.
pub fn unpack_deal(account_data: &mut Vec<u8>)
    ensures
        final(account_data)@ == data_after(
            old(account_data)@,
            |record: GameRecord| record.deal(),
        ),
{
    match BlackJackAccountData::try_from_slice(account_data.as_slice()) {
        Ok(mut record) => {
            record.deal();
            store(account_data, &record);
        },
        Err(_) => {},
    }
}

/// Wipes the record in the account for the next game.
pub fn unpack_clear_data(account_data: &mut Vec<u8>)
    ensures
        final(account_data)@ == data_after(
            old(account_data)@,
            |record: GameRecord| record.cleared(),
        ),
{
    match BlackJackAccountData::try_from_slice(account_data.as_slice()) {
        Ok(mut record) => {
            record.clear();
            store(account_data, &record);
        },
        Err(_) => {},
    }
}

/// Draws one card for the side that `operation` names.
pub fn unpack_hit(account_data: &mut Vec<u8>, operation: u8)
    ensures
        final(account_data)@ == data_after(
            old(account_data)@,
            |record: GameRecord| record.hit(operation),
        ),
{
    match BlackJackAccountData::try_from_slice(account_data.as_slice()) {
        Ok(mut record) => {
            record.hit(operation);
            store(account_data, &record);
        },
        Err(_) => {},
    }
}

/// Records that the side that `operation` names takes no more cards.
pub fn unpack_stand(account_data: &mut Vec<u8>, operation: u8)
    ensures
        final(account_data)@ == data_after(
            old(account_data)@,
            |record: GameRecord| record.tagged(operation),
        ),
{
    match BlackJackAccountData::try_from_slice(account_data.as_slice()) {
        Ok(mut record) => {
            record.tag(operation);
            store(account_data, &record);
        },
        Err(_) => {},
    }
}

/// Records that the side that `operation` names went over the limit.
pub fn unpack_busted(account_data: &mut Vec<u8>, operation: u8)
    ensures
        final(account_data)@ == data_after(
            old(account_data)@,
            |record: GameRecord| record.tagged(operation),
        ),
{
    match BlackJackAccountData::try_from_slice(account_data.as_slice()) {
        Ok(mut record) => {
            record.tag(operation);
            store(account_data, &record);
        },
        Err(_) => {},
    }
}

/// Runs one instruction on the first of `accounts`, which must be owned by
/// the program `program_id`. The first byte of `instruction_data` names the
/// operation; an unknown one changes nothing.
pub fn process_instruction(
    program_id: &Address,
    accounts: &mut Vec<Account>,
    instruction_data: &[u8],
) -> (result: Result<(), ProgramError>)
    ensures
        old(accounts)@.len() == 0 ==> result matches Err(ProgramError::NotEnoughAccountKeys),
        old(accounts)@.len() > 0 && old(accounts)@[0].owner@ != program_id@ ==> result matches Err(
            ProgramError::IncorrectProgramId,
        ),
        old(accounts)@.len() > 0 && old(accounts)@[0].owner@ == program_id@
            && instruction_data@.len() == 0 ==> result matches Err(
            ProgramError::InvalidInstructionData,
        ),
        old(accounts)@.len() > 0 && old(accounts)@[0].owner@ == program_id@
            && instruction_data@.len() > 0 ==> result is Ok,
        result is Err ==> final(accounts)@ == old(accounts)@,
        final(accounts)@.len() == old(accounts)@.len(),
        forall|i: int| 1 <= i < old(accounts)@.len() ==> final(accounts)@[i] == old(accounts)@[i],
        result is Ok ==> final(accounts)@[0].owner == old(accounts)@[0].owner,
        result is Ok ==> final(accounts)@[0].data@ == data_after_instruction(
            old(accounts)@[0].data@,
            instruction_data@,
        ),
{
    if accounts.len() == 0 {
        return Err(ProgramError::NotEnoughAccountKeys);
    }
    if !same_address(&accounts[0].owner, program_id) {
        return Err(ProgramError::IncorrectProgramId);
    }
    if instruction_data.len() == 0 {
        return Err(ProgramError::InvalidInstructionData);
    }
    let operation = instruction_data[0];
    let account = &mut accounts[0];
    if operation == SEND_DECK {
        unpack_send_deck(
            slice_subrange(instruction_data, 1, instruction_data.len()),
            &mut account.data,
        );
    } else if operation == DEAL {
        unpack_deal(&mut account.data);
    } else if operation == CLEAR_DATA {
        unpack_clear_data(&mut account.data);
    } else if operation == DEALER_HIT || operation == PLAYER_HIT {
        unpack_hit(&mut account.data, operation);
    } else if operation == DEALER_STAND || operation == PLAYER_STAND {
        unpack_stand(&mut account.data, operation);
    } else if operation == PLAYER_BUSTED || operation == DEALER_BUSTED {
        unpack_busted(&mut account.data, operation);
    } else {
        proof {
            if GameRecord::decoding(account.data@) is Ok {
                lemma_encoding_of_decoding(account.data@);
            }
        }
    }
    Ok(())
}

/// The program never changes the number of bytes of the account.
pub proof fn lemma_account_keeps_size(data: Seq<u8>, instruction: Seq<u8>)
    ensures
        data_after_instruction(data, instruction).len() == data.len(),
{
    if instruction.len() > 0 && instruction[0] != SEND_DECK {
        if GameRecord::decoding(data) is Ok {
            let record = GameRecord::decoding(data)->Ok_0;
            lemma_encoding_of_decoding(data);
            lemma_encoding_len(record);
            lemma_encoding_len(record.after(instruction[0]));
            lemma_operation_keeps_shape(record, instruction[0]);
        }
    }
}

/// An account of the size of a record with `deck` holds, once the deck is
/// sent, the record of the new deck, whatever it held before.
pub proof fn lemma_sent_deck_is_stored(data: Seq<u8>, deck: Seq<u8>)
    requires
        deck.len() <= u32::MAX,
        data.len() == 16 + deck.len(),
    ensures
        GameRecord::decoding(data_after_send_deck(data, prefixed(deck))) matches Ok(stored)
            && stored == GameRecord::with_deck(deck),
{
    let record = GameRecord::with_deck(deck);
    lemma_deck_decoding_of_prefixed(deck);
    lemma_encoding_len(record);
    lemma_decoding_of_encoding(record);
    assert(overwritten(data, record.encoding()) =~= record.encoding());
}

/// What the program makes of an account that holds a record is the record
/// after the operation: reading the account back gives exactly that record.
pub proof fn lemma_operation_is_stored(data: Seq<u8>, operation: u8)
    requires
        GameRecord::decoding(data) is Ok,
        operation != SEND_DECK,
    ensures
        GameRecord::decoding(data_after_instruction(data, seq![operation])) matches Ok(stored)
            && stored == GameRecord::decoding(data)->Ok_0.after(operation),
{
    let record = GameRecord::decoding(data)->Ok_0;
    lemma_encoding_of_decoding(data);
    lemma_operation_keeps_shape(record, operation);
    lemma_decoding_of_encoding(record.after(operation));
}

/// Once the dealer has supplied cards, a full deck sent and then dealt, an
/// account of the size of the game record holds the opening deal: whatever it
/// held before, the last two cards of the deck are the dealer's, the two
/// before them the player's, and forty-eight cards are left.
pub proof fn lemma_supplied_cards_are_dealt(data: Seq<u8>, deck: Seq<u8>)
    requires
        is_full_deck(deck),
        data.len() == 68,
    ensures
        GameRecord::decoding(
            data_after_instruction(
                data_after_instruction(data, deck_instruction_bytes(deck)),
                seq![DEAL],
            ),
        ) matches Ok(dealt) && dealt == GameRecord::with_deck(deck).deal()
            && dealt.last_operation == DEAL && dealt.remaining() == 48,
{
    let sent = data_after_instruction(data, deck_instruction_bytes(deck));
    assert(deck_instruction_bytes(deck).skip(1) =~= prefixed(deck));
    lemma_sent_deck_is_stored(data, deck);
    lemma_operation_is_stored(sent, DEAL);
    lemma_first_deal_from_deck(deck);
}

} // verus!
