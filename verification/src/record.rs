//! The game record: the one shared value that holds a game, the operations
//! that change it, and its layout in bytes.

use crate::deck::{is_full_deck, is_rank, lemma_deck_holds_ranks};
use crate::error::Error;
use crate::wire::{
    le_bytes, le_value, lemma_le_bytes_len, lemma_le_bytes_of_value, lemma_le_value_bound,
    lemma_le_value_of_bytes, lemma_pow256_values, prefixed, push_le, read_le, WireError,
};
use vstd::prelude::*;
use vstd::slice::{slice_subrange, slice_to_vec};

verus! {

/// A deck arrives and replaces the cards of the record.
pub const SEND_DECK: u8 = 0;

/// The opening four cards are dealt.
pub const DEAL: u8 = 1;

/// An operation found too few cards: the dealer is to send a new deck.
pub const REQUEST_NEW_DECK: u8 = 2;

/// The record is wiped for the next game.
pub const CLEAR_DATA: u8 = 3;

/// The player takes a card.
pub const PLAYER_HIT: u8 = 4;

/// The player takes no more cards.
pub const PLAYER_STAND: u8 = 5;

/// The dealer takes a card.
pub const DEALER_HIT: u8 = 6;

/// The dealer takes no more cards.
pub const DEALER_STAND: u8 = 7;

/// The player's hand went over the limit.
pub const PLAYER_BUSTED: u8 = 8;

/// The dealer's hand went over the limit.
pub const DEALER_BUSTED: u8 = 9;

/// The number of cards in a deck.
pub const CARD_NUMBER: u8 = 52;

/// The sum of two card values as a hand holds it: in one byte, wrapping.
pub open spec fn hand_sum(a: u8, b: u8) -> u8 {
    ((a + b) % 256) as u8
}

/// The game record as a mathematical value.
pub struct GameRecord {
    /// The operation that was applied last.
    pub last_operation: u8,
    /// The dealer's hidden first card, then the running sum of the dealer's cards.
    pub dealer_hand: u8,
    /// The dealer's second card, which the player sees.
    pub dealer_up_card: u8,
    /// The running sum of the player's cards.
    pub player_hand: u8,
    /// The index of the next card to draw. It steps down with every draw and
    /// stays at zero once the card there is drawn.
    pub current_card: nat,
    /// The card slots; a drawn slot holds zero.
    pub cards: Seq<u8>,
}

impl GameRecord {
    /// Whether the deck is drawn out: the index points past the cards, or it
    /// stands at the lowest slot and that slot is drawn.
    pub open spec fn exhausted(self) -> bool {
        self.current_card >= self.cards.len() || (self.current_card == 0 && self.cards[0] == 0)
    }

    /// How many cards can still be drawn: none from a deck that is drawn
    /// out, else those from the index down to the lowest slot.
    pub open spec fn remaining(self) -> nat {
        if self.exhausted() {
            0
        } else {
            self.current_card + 1
        }
    }

    /// The index once the next `count` cards are drawn. It never passes below
    /// zero: there it stays, on a slot that is then drawn.
    pub open spec fn index_after(self, count: nat) -> nat {
        if self.current_card >= count {
            (self.current_card - count) as nat
        } else {
            0
        }
    }

    /// The card that the draw after `earlier` draws takes.
    pub open spec fn upcoming(self, earlier: nat) -> u8 {
        self.cards[self.current_card - earlier]
    }

    /// The cards once the next `count` of them are drawn: their slots hold zero.
    pub open spec fn cards_after(self, count: nat) -> Seq<u8> {
        Seq::new(
            self.cards.len(),
            |i: int|
                if self.current_card - count < i <= self.current_card {
                    0u8
                } else {
                    self.cards[i]
                },
        )
    }

    /// The record that holds a newly sent deck.
    pub open spec fn with_deck(deck: Seq<u8>) -> GameRecord {
        GameRecord {
            last_operation: SEND_DECK,
            dealer_hand: 0,
            dealer_up_card: 0,
            player_hand: 0,
            current_card: if deck.len() == 0 {
                0
            } else {
                (deck.len() - 1) as nat
            },
            cards: deck,
        }
    }

    /// The opening deal: four cards from the high end, to the dealer's hidden
    /// card, the dealer's up card and twice to the player. With fewer than
    /// four cards left nothing is drawn and a new deck is asked for.
    pub open spec fn deal(self) -> GameRecord {
        if self.remaining() >= 4 {
            GameRecord {
                last_operation: DEAL,
                dealer_hand: hand_sum(self.upcoming(0), self.upcoming(1)),
                dealer_up_card: self.upcoming(1),
                player_hand: hand_sum(self.upcoming(2), self.upcoming(3)),
                current_card: self.index_after(4),
                cards: self.cards_after(4),
            }
        } else {
            self.tagged(REQUEST_NEW_DECK)
        }
    }

    /// One card drawn under the tag `operation`: added to the player's hand
    /// for `PLAYER_HIT`, to the dealer's for `DEALER_HIT`. With no card left
    /// nothing is drawn and a new deck is asked for.
    pub open spec fn hit(self, operation: u8) -> GameRecord {
        if self.remaining() >= 1 {
            GameRecord {
                last_operation: operation,
                dealer_hand: if operation == DEALER_HIT {
                    hand_sum(self.dealer_hand, self.upcoming(0))
                } else {
                    self.dealer_hand
                },
                dealer_up_card: self.dealer_up_card,
                player_hand: if operation == PLAYER_HIT {
                    hand_sum(self.player_hand, self.upcoming(0))
                } else {
                    self.player_hand
                },
                current_card: self.index_after(1),
                cards: self.cards_after(1),
            }
        } else {
            self.tagged(REQUEST_NEW_DECK)
        }
    }

    /// The record wiped: as many card slots, all zero, and no hands.
    pub open spec fn cleared(self) -> GameRecord {
        GameRecord {
            last_operation: CLEAR_DATA,
            dealer_hand: 0,
            dealer_up_card: 0,
            player_hand: 0,
            current_card: 0,
            cards: Seq::new(self.cards.len(), |i: int| 0u8),
        }
    }

    /// The same record under another tag.
    pub open spec fn tagged(self, operation: u8) -> GameRecord {
        GameRecord { last_operation: operation, ..self }
    }

    /// The record after `operation`, for the operations that need no payload;
    /// any other tag leaves the record as it is.
    pub open spec fn after(self, operation: u8) -> GameRecord {
        if operation == DEAL {
            self.deal()
        } else if operation == CLEAR_DATA {
            self.cleared()
        } else if operation == PLAYER_HIT || operation == DEALER_HIT {
            self.hit(operation)
        } else if operation == PLAYER_STAND || operation == DEALER_STAND || operation
            == PLAYER_BUSTED || operation == DEALER_BUSTED {
            self.tagged(operation)
        } else {
            self
        }
    }

    /// Whether the record has a byte form: the index and the number of cards
    /// fit their fields.
    pub open spec fn encodable(self) -> bool {
        self.current_card <= usize::MAX && self.cards.len() <= u32::MAX
    }

    /// The bytes of the record: the tag, the three hand bytes, the index in
    /// eight bytes, the number of cards in four, then the cards.
    pub open spec fn encoding(self) -> Seq<u8> {
        seq![self.last_operation, self.dealer_hand, self.dealer_up_card, self.player_hand]
            + le_bytes(self.current_card, 8) + prefixed(self.cards)
    }

    /// The record that `bytes` hold, or why they hold none.
    pub open spec fn decoding(bytes: Seq<u8>) -> Result<GameRecord, WireError> {
        if bytes.len() < 12 {
            Err(WireError::UnexpectedLength)
        } else if le_value(bytes.subrange(4, 12)) > usize::MAX {
            Err(WireError::IndexOverflow)
        } else if bytes.len() < 16 || bytes.len() < 16 + le_value(bytes.subrange(12, 16)) {
            Err(WireError::UnexpectedLength)
        } else if bytes.len() > 16 + le_value(bytes.subrange(12, 16)) {
            Err(WireError::TrailingBytes)
        } else {
            Ok(
                GameRecord {
                    last_operation: bytes[0],
                    dealer_hand: bytes[1],
                    dealer_up_card: bytes[2],
                    player_hand: bytes[3],
                    current_card: le_value(bytes.subrange(4, 12)),
                    cards: bytes.skip(16),
                },
            )
        }
    }
}

/// The payload of `SEND_DECK` as a mathematical value: the deck that `bytes`
/// hold behind their length, or why they hold none.
pub open spec fn deck_decoding(bytes: Seq<u8>) -> Result<Seq<u8>, WireError> {
    if bytes.len() < 4 || bytes.len() < 4 + le_value(bytes.subrange(0, 4)) {
        Err(WireError::UnexpectedLength)
    } else if bytes.len() > 4 + le_value(bytes.subrange(0, 4)) {
        Err(WireError::TrailingBytes)
    } else {
        Ok(bytes.skip(4))
    }
}

/// Decoding the bytes of a record gives the record back.
pub proof fn lemma_decoding_of_encoding(record: GameRecord)
    requires
        record.encodable(),
    ensures
        GameRecord::decoding(record.encoding()) matches Ok(decoded) && decoded == record,
{
    let bytes = record.encoding();
    lemma_pow256_values();
    lemma_le_bytes_len(record.current_card, 8);
    lemma_le_bytes_len(record.cards.len(), 4);
    lemma_le_value_of_bytes(record.current_card, 8);
    lemma_le_value_of_bytes(record.cards.len(), 4);
    assert(bytes.subrange(4, 12) =~= le_bytes(record.current_card, 8));
    assert(bytes.subrange(12, 16) =~= le_bytes(record.cards.len(), 4));
    assert(bytes.skip(16) =~= record.cards);
    assert(bytes.len() == 16 + record.cards.len());
}

/// Bytes that hold a record are the bytes of that record, and of no other.
pub proof fn lemma_encoding_of_decoding(bytes: Seq<u8>)
    requires
        GameRecord::decoding(bytes) is Ok,
    ensures
        GameRecord::decoding(bytes)->Ok_0.encodable(),
        GameRecord::decoding(bytes)->Ok_0.encoding() == bytes,
{
    let record = GameRecord::decoding(bytes)->Ok_0;
    lemma_pow256_values();
    lemma_le_value_bound(bytes.subrange(12, 16));
    lemma_le_bytes_of_value(bytes.subrange(4, 12));
    lemma_le_bytes_of_value(bytes.subrange(12, 16));
    assert(record.encoding() =~= bytes);
}

/// Decoding the bytes of a deck gives the deck back.
pub proof fn lemma_deck_decoding_of_prefixed(deck: Seq<u8>)
    requires
        deck.len() <= u32::MAX,
    ensures
        deck_decoding(prefixed(deck)) matches Ok(decoded) && decoded == deck,
{
    let bytes = prefixed(deck);
    lemma_pow256_values();
    lemma_le_bytes_len(deck.len(), 4);
    lemma_le_value_of_bytes(deck.len(), 4);
    assert(bytes.subrange(0, 4) =~= le_bytes(deck.len(), 4));
    assert(bytes.skip(4) =~= deck);
}

/// With four or more cards left, a deal takes exactly the next four: their
/// slots hold zero, every other slot is as it was, and the record is under
/// `DEAL`. The index steps down by four where it can, and where the four
/// cards were the last it stays at zero on a deck that is drawn out.
pub proof fn lemma_deal_takes_four(record: GameRecord)
    requires
        record.remaining() >= 4,
    ensures
        3 <= record.current_card < record.cards.len(),
        record.deal().last_operation == DEAL,
        record.current_card >= 4 ==> record.deal().current_card == record.current_card - 4,
        record.current_card == 3 ==> record.deal().current_card == 0 && record.deal().exhausted(),
        record.cards[0] != 0 ==> record.deal().remaining() == record.remaining() - 4,
        record.deal().cards.len() == record.cards.len(),
        forall|i: int|
            0 <= i < record.cards.len() ==> #[trigger] record.deal().cards[i] == if record.current_card
                - 4 < i <= record.current_card {
                0u8
            } else {
                record.cards[i]
            },
        record.deal().dealer_up_card == record.cards[record.current_card - 1],
{
}

/// A deal is made wherever the index points at the fourth slot or higher,
/// inside the cards.
pub proof fn lemma_deal_needs_four_slots(record: GameRecord)
    ensures
        record.remaining() >= 4 <==> 3 <= record.current_card < record.cards.len(),
{
}

/// Where no byte overflows, a deal leaves in the dealer's hand the sum of
/// the first two cards drawn and in the player's the sum of the next two.
pub proof fn lemma_deal_sums(record: GameRecord)
    requires
        record.remaining() >= 4,
        record.upcoming(0) + record.upcoming(1) <= u8::MAX,
        record.upcoming(2) + record.upcoming(3) <= u8::MAX,
    ensures
        record.deal().dealer_hand == record.cards[record.current_card as int]
            + record.cards[record.current_card - 1],
        record.deal().player_hand == record.cards[record.current_card - 2]
            + record.cards[record.current_card - 3],
{
}

/// With fewer than four cards left, a deal draws nothing: the record is as
/// it was, but under `REQUEST_NEW_DECK`.
pub proof fn lemma_deal_short_of_cards(record: GameRecord)
    requires
        record.remaining() < 4,
    ensures
        record.deal().last_operation == REQUEST_NEW_DECK,
        record.deal().cards == record.cards,
        record.deal().current_card == record.current_card,
        record.deal().dealer_hand == record.dealer_hand,
        record.deal().dealer_up_card == record.dealer_up_card,
        record.deal().player_hand == record.player_hand,
{
}

/// With a card left, a hit takes exactly the next one: the card's slot holds
/// zero, every other slot is as it was, and the record is under the tag of
/// the hit. The index steps down by one where it can, and where the card was
/// the last it stays at zero on a deck that is drawn out. Only the hand of
/// the side that hit changes.
pub proof fn lemma_hit_takes_one(record: GameRecord, operation: u8)
    requires
        record.remaining() >= 1,
    ensures
        record.current_card < record.cards.len(),
        record.hit(operation).last_operation == operation,
        record.current_card >= 1 ==> record.hit(operation).current_card == record.current_card - 1,
        record.current_card == 0 ==> record.hit(operation).current_card == 0 && record.hit(
            operation,
        ).exhausted(),
        record.cards[0] != 0 ==> record.hit(operation).remaining() == record.remaining() - 1,
        record.hit(operation).cards == record.cards.update(record.current_card as int, 0u8),
        record.hit(operation).dealer_up_card == record.dealer_up_card,
        operation != PLAYER_HIT ==> record.hit(operation).player_hand == record.player_hand,
        operation != DEALER_HIT ==> record.hit(operation).dealer_hand == record.dealer_hand,
{
    assert(record.hit(operation).cards =~= record.cards.update(record.current_card as int, 0u8));
}

/// A card can be drawn wherever the index points into the cards, the lowest
/// slot included, unless it stands on the lowest slot and that is drawn.
pub proof fn lemma_hit_needs_a_card(record: GameRecord)
    ensures
        record.remaining() >= 1 <==> record.current_card < record.cards.len() && !(
        record.current_card == 0 && record.cards[0] == 0),
{
}

/// A deck that is drawn out answers every deal and every hit with the
/// request for a new deck and changes in nothing else, and so it stays
/// drawn out.
pub proof fn lemma_drawn_out_deck_asks_for_cards(record: GameRecord, operation: u8)
    requires
        record.exhausted(),
    ensures
        record.deal() == record.tagged(REQUEST_NEW_DECK),
        record.hit(operation) == record.tagged(REQUEST_NEW_DECK),
        record.deal().exhausted(),
        record.hit(operation).exhausted(),
{
}

/// Where the sum fits a byte, a hit adds exactly the value of the card it
/// takes to the hand of the side that hit.
pub proof fn lemma_hit_adds_card(record: GameRecord, operation: u8)
    requires
        record.remaining() >= 1,
    ensures
        operation == PLAYER_HIT && record.player_hand + record.upcoming(0) <= u8::MAX
            ==> record.hit(operation).player_hand == record.player_hand
            + record.cards[record.current_card as int],
        operation == DEALER_HIT && record.dealer_hand + record.upcoming(0) <= u8::MAX
            ==> record.hit(operation).dealer_hand == record.dealer_hand
            + record.cards[record.current_card as int],
{
}

/// With no card left, a hit draws nothing: the record is as it was, but
/// under `REQUEST_NEW_DECK`.
pub proof fn lemma_hit_out_of_cards(record: GameRecord, operation: u8)
    requires
        record.remaining() == 0,
    ensures
        record.hit(operation).last_operation == REQUEST_NEW_DECK,
        record.hit(operation).cards == record.cards,
        record.hit(operation).current_card == record.current_card,
        record.hit(operation).dealer_hand == record.dealer_hand,
        record.hit(operation).dealer_up_card == record.dealer_up_card,
        record.hit(operation).player_hand == record.player_hand,
{
}

/// Whatever the record held, once cleared it holds as many card slots, all
/// zero, no hands and no index, and is under `CLEAR_DATA`.
pub proof fn lemma_cleared_is_blank(record: GameRecord)
    ensures
        record.cleared().last_operation == CLEAR_DATA,
        record.cleared().dealer_hand == 0,
        record.cleared().dealer_up_card == 0,
        record.cleared().player_hand == 0,
        record.cleared().current_card == 0,
        record.cleared().cards.len() == record.cards.len(),
        forall|i: int| 0 <= i < record.cards.len() ==> #[trigger] record.cleared().cards[i] == 0,
{
}

/// No operation changes the number of card slots, none raises the index, and
/// none adds a card that can be drawn.
pub proof fn lemma_operation_keeps_shape(record: GameRecord, operation: u8)
    ensures
        record.after(operation).cards.len() == record.cards.len(),
        record.after(operation).current_card <= record.current_card,
        record.after(operation).remaining() <= record.remaining(),
        record.encodable() ==> record.after(operation).encodable(),
{
}

/// Every known operation leaves its own tag on the record, or the request
/// for a new deck where it found too few cards.
pub proof fn lemma_operation_leaves_tag(record: GameRecord, operation: u8)
    requires
        operation == DEAL || operation == CLEAR_DATA || operation == PLAYER_HIT || operation
            == DEALER_HIT || operation == PLAYER_STAND || operation == DEALER_STAND || operation
            == PLAYER_BUSTED || operation == DEALER_BUSTED,
    ensures
        record.after(operation).last_operation == operation || record.after(
            operation,
        ).last_operation == REQUEST_NEW_DECK,
        record.after(operation).last_operation == REQUEST_NEW_DECK ==> (operation == DEAL
            && record.remaining() < 4) || ((operation == PLAYER_HIT || operation == DEALER_HIT)
            && record.remaining() == 0),
{
}

/// Every card of a newly sent deck can be drawn, the lowest included. (A
/// deck of one slot that holds zero holds no card.)
pub proof fn lemma_new_deck_remaining(deck: Seq<u8>)
    requires
        deck.len() > 1 || (deck.len() == 1 && deck[0] != 0),
    ensures
        GameRecord::with_deck(deck).remaining() == deck.len(),
        GameRecord::with_deck(deck).cards == deck,
        GameRecord::with_deck(deck).last_operation == SEND_DECK,
{
}

/// The first deal from a newly sent deck takes its four highest cards, and
/// no hand wraps: the dealer holds the sum of the last two cards of the
/// deck, the player the sum of the two before them.
pub proof fn lemma_first_deal_from_deck(deck: Seq<u8>)
    requires
        is_full_deck(deck),
    ensures
        GameRecord::with_deck(deck).deal().last_operation == DEAL,
        GameRecord::with_deck(deck).deal().dealer_hand == deck[51] + deck[50],
        GameRecord::with_deck(deck).deal().dealer_up_card == deck[50],
        GameRecord::with_deck(deck).deal().player_hand == deck[49] + deck[48],
        GameRecord::with_deck(deck).deal().current_card == 47,
        GameRecord::with_deck(deck).deal().remaining() == 48,
{
    lemma_deck_holds_ranks(deck);
    assert(is_rank(deck[51]) && is_rank(deck[50]) && is_rank(deck[49]) && is_rank(deck[48]));
}

/// The bytes of a record are sixteen more than its cards.
pub proof fn lemma_encoding_len(record: GameRecord)
    ensures
        record.encoding().len() == 16 + record.cards.len(),
{
    lemma_le_bytes_len(record.current_card, 8);
    lemma_le_bytes_len(record.cards.len(), 4);
}

/// The payload of `SEND_DECK`: a deck of cards.
#[derive(Debug, Clone)]
pub struct SendDeck {
    pub deck: Vec<u8>,
}

impl View for SendDeck {
    type V = Seq<u8>;

    open spec fn view(&self) -> Seq<u8> {
        self.deck@
    }
}

impl SendDeck {
    /// Appends the bytes of the deck: its length in four bytes, then the cards.
    /// A deck too long for the length field is refused and nothing is written.
    pub fn serialize(&self, out: &mut Vec<u8>) -> (result: Result<(), WireError>)
        ensures
            self@.len() <= u32::MAX ==> result is Ok && final(out)@ == old(out)@ + prefixed(
                self@,
            ),
            self@.len() > u32::MAX ==> final(out)@ == old(out)@
            && result matches Err(WireError::LengthOverflow),
    {
        push_prefixed(out, &self.deck)
    }

    /// Reads a deck from exactly `data`.
    pub fn try_from_slice(data: &[u8]) -> (result: Result<SendDeck, WireError>)
        ensures
            match result {
                Ok(payload) => deck_decoding(data@) matches Ok(deck) && deck == payload@,
                Err(e) => deck_decoding(data@) matches Err(f) && f == e,
            },
    {
        if data.len() < 4 {
            return Err(WireError::UnexpectedLength);
        }
        let count = read_le(data, 0, 4);
        proof {
            lemma_le_value_bound(data@.subrange(0, 4));
            lemma_pow256_values();
        }
        let body = (data.len() - 4) as u64;
        if body < count {
            Err(WireError::UnexpectedLength)
        } else if body > count {
            Err(WireError::TrailingBytes)
        } else {
            let deck = slice_to_vec(slice_subrange(data, 4, data.len()));
            Ok(SendDeck { deck })
        }
    }
}

/// Appends `bytes` behind their length in four bytes, or nothing if they are
/// too many for the length field.
fn push_prefixed(out: &mut Vec<u8>, bytes: &Vec<u8>) -> (result: Result<(), WireError>)
    ensures
        bytes@.len() <= u32::MAX ==> result is Ok && final(out)@ == old(out)@ + prefixed(bytes@),
        bytes@.len() > u32::MAX ==> final(out)@ == old(out)@
            && result matches Err(WireError::LengthOverflow),
{
    let count = bytes.len();
    if count > u32::MAX as usize {
        return Err(WireError::LengthOverflow);
    }
    push_le(out, count as u64, 4);
    let ghost headed = out@;
    let mut i: usize = 0;
    while i < count
        invariant
            i <= count == bytes@.len(),
            out@ == headed + bytes@.take(i as int),
        decreases count - i,
    {
        out.push(bytes[i]);
        assert(bytes@.take(i + 1) =~= bytes@.take(i as int).push(bytes@[i as int]));
        i = i + 1;
    }
    assert(bytes@.take(count as int) =~= bytes@);
    assert(out@ =~= old(out)@ + prefixed(bytes@));
    Ok(())
}

/// Appends the bytes of the record with these fields, or nothing if its
/// cards are too many for the length field.
fn push_record(
    out: &mut Vec<u8>,
    last_operation: u8,
    dealer_hand: u8,
    dealer_up_card: u8,
    player_hand: u8,
    current_card: usize,
    cards: &Vec<u8>,
) -> (result: Result<(), WireError>)
    ensures
        ({
            let record = GameRecord {
                last_operation,
                dealer_hand,
                dealer_up_card,
                player_hand,
                current_card: current_card as nat,
                cards: cards@,
            };
            if record.encodable() {
                result is Ok && final(out)@ == old(out)@ + record.encoding()
            } else {
                final(out)@ == old(out)@ && result matches Err(WireError::LengthOverflow)
            }
        }),
{
    if cards.len() > u32::MAX as usize {
        return Err(WireError::LengthOverflow);
    }
    out.push(last_operation);
    out.push(dealer_hand);
    out.push(dealer_up_card);
    out.push(player_hand);
    push_le(out, current_card as u64, 8);
    let _ = push_prefixed(out, cards);
    assert(out@ =~= old(out)@ + seq![last_operation, dealer_hand, dealer_up_card, player_hand]
        + le_bytes(current_card as nat, 8) + prefixed(cards@));
    Ok(())
}

/// The game record as the program that owns it holds it.
#[derive(Debug, Clone)]
pub struct BlackJackAccountData {
    /// The operation that was applied last.
    pub last_operation: u8,
    /// The dealer's hidden first card, then the running sum of the dealer's cards.
    pub dealer_hand: u8,
    /// The dealer's second card, which the player sees.
    pub dealer_up_card: u8,
    /// The running sum of the player's cards.
    pub player_hand: u8,
    /// The index of the next card to draw; zero as well once the lowest
    /// card is drawn.
    pub current_card: usize,
    /// The card slots.
    pub cards: Vec<u8>,
}

impl View for BlackJackAccountData {
    type V = GameRecord;

    open spec fn view(&self) -> GameRecord {
        GameRecord {
            last_operation: self.last_operation,
            dealer_hand: self.dealer_hand,
            dealer_up_card: self.dealer_up_card,
            player_hand: self.player_hand,
            current_card: self.current_card as nat,
            cards: self.cards@,
        }
    }
}

/// The sum of two card values in one byte, wrapping.
fn add_cards(a: u8, b: u8) -> (sum: u8)
    ensures
        sum == hand_sum(a, b),
{
    ((a as u16 + b as u16) % 256) as u8
}

impl BlackJackAccountData {
    /// The record that holds a newly sent deck.
    pub fn with_deck(deck: Vec<u8>) -> (record: BlackJackAccountData)
        ensures
            record@ == GameRecord::with_deck(deck@),
    {
        let count = deck.len();
        BlackJackAccountData {
            last_operation: SEND_DECK,
            dealer_hand: 0,
            dealer_up_card: 0,
            player_hand: 0,
            current_card: if count == 0 {
                0
            } else {
                count - 1
            },
            cards: deck,
        }
    }

    /// The record as a participant reads it.
    pub fn into_schema(self) -> (record: BlackJackAccountDataSchema)
        ensures
            record@ == self@,
    {
        BlackJackAccountDataSchema {
            last_operation: self.last_operation,
            dealer_hand: self.dealer_hand,
            dealer_up_card: self.dealer_up_card,
            player_hand: self.player_hand,
            current_card: self.current_card,
            cards: self.cards,
        }
    }

    /// Whether the deck is drawn out.
    pub fn exhausted(&self) -> (out: bool)
        ensures
            out == self@.exhausted(),
    {
        self.current_card >= self.cards.len() || (self.current_card == 0 && self.cards[0] == 0)
    }

    /// How many cards can still be drawn.
    pub fn remaining(&self) -> (count: usize)
        ensures
            count == self@.remaining(),
    {
        let slots = self.cards.len();
        if self.exhausted() {
            0
        } else {
            assert(self.current_card < slots);
            self.current_card + 1
        }
    }

    /// Deals the opening four cards, or asks for a new deck.
    pub fn deal(&mut self)
        ensures
            final(self)@ == old(self)@.deal(),
    {
        let next = self.current_card;
        if next >= 3 && next < self.cards.len() {
            let hidden = self.cards[next];
            let up = self.cards[next - 1];
            let first = self.cards[next - 2];
            let second = self.cards[next - 3];
            self.cards[next] = 0;
            self.cards[next - 1] = 0;
            self.cards[next - 2] = 0;
            self.cards[next - 3] = 0;
            self.dealer_hand = add_cards(hidden, up);
            self.dealer_up_card = up;
            self.player_hand = add_cards(first, second);
            self.current_card = if next >= 4 {
                next - 4
            } else {
                0
            };
            self.last_operation = DEAL;
            assert(self.cards@ =~= old(self)@.cards_after(4));
        } else {
            self.last_operation = REQUEST_NEW_DECK;
        }
    }

    /// Draws one card under the tag `operation`, or asks for a new deck.
    pub fn hit(&mut self, operation: u8)
        ensures
            final(self)@ == old(self)@.hit(operation),
    {
        if !self.exhausted() {
            let next = self.current_card;
            let card = self.cards[next];
            if operation == PLAYER_HIT {
                self.player_hand = add_cards(self.player_hand, card);
            } else if operation == DEALER_HIT {
                self.dealer_hand = add_cards(self.dealer_hand, card);
            }
            self.cards[next] = 0;
            self.current_card = if next >= 1 {
                next - 1
            } else {
                0
            };
            self.last_operation = operation;
            assert(self.cards@ =~= old(self)@.cards_after(1));
        } else {
            self.last_operation = REQUEST_NEW_DECK;
        }
    }

    /// Wipes the record: every card slot and every hand is zero.
    pub fn clear(&mut self)
        ensures
            final(self)@ == old(self)@.cleared(),
    {
        let count = self.cards.len();
        let mut i: usize = 0;
        while i < count
            invariant
                i <= count == self.cards@.len(),
                count == old(self).cards@.len(),
                forall|k: int| 0 <= k < i ==> self.cards@[k] == 0,
            decreases count - i,
        {
            self.cards[i] = 0;
            i = i + 1;
        }
        self.last_operation = CLEAR_DATA;
        self.dealer_hand = 0;
        self.dealer_up_card = 0;
        self.player_hand = 0;
        self.current_card = 0;
        assert(self.cards@ =~= old(self)@.cleared().cards);
    }

    /// Puts the record under the tag `operation`.
    pub fn tag(&mut self, operation: u8)
        ensures
            final(self)@ == old(self)@.tagged(operation),
    {
        self.last_operation = operation;
    }

    /// Appends the bytes of the record. A record with more cards than the
    /// length field can say is refused and nothing is written.
    pub fn serialize(&self, out: &mut Vec<u8>) -> (result: Result<(), WireError>)
        ensures
            self@.encodable() ==> result is Ok && final(out)@ == old(out)@ + self@.encoding(),
            !self@.encodable() ==> final(out)@ == old(out)@
                && result matches Err(WireError::LengthOverflow),
    {
        push_record(
            out,
            self.last_operation,
            self.dealer_hand,
            self.dealer_up_card,
            self.player_hand,
            self.current_card,
            &self.cards,
        )
    }

    /// The bytes of the record.
    pub fn try_to_vec(&self) -> (result: Result<Vec<u8>, WireError>)
        ensures
            match result {
                Ok(bytes) => self@.encodable() && bytes@ == self@.encoding(),
                Err(e) => !self@.encodable() && e == WireError::LengthOverflow,
            },
    {
        let mut out: Vec<u8> = Vec::new();
        match self.serialize(&mut out) {
            Ok(()) => {
                assert(out@ =~= self@.encoding());
                Ok(out)
            },
            Err(e) => Err(e),
        }
    }

    /// Reads a record from exactly `data`.
    pub fn try_from_slice(data: &[u8]) -> (result: Result<BlackJackAccountData, WireError>)
        ensures
            match result {
                Ok(record) => GameRecord::decoding(data@) matches Ok(decoded) && decoded == record@,
                Err(e) => GameRecord::decoding(data@) matches Err(f) && f == e,
            },
    {
        let total = data.len();
        if total < 12 {
            return Err(WireError::UnexpectedLength);
        }
        let index = read_le(data, 4, 8);
        if index > usize::MAX as u64 {
            return Err(WireError::IndexOverflow);
        }
        if total < 16 {
            return Err(WireError::UnexpectedLength);
        }
        let count = read_le(data, 12, 4);
        let body = (total - 16) as u64;
        if body < count {
            Err(WireError::UnexpectedLength)
        } else if body > count {
            Err(WireError::TrailingBytes)
        } else {
            let cards = slice_to_vec(slice_subrange(data, 16, total));
            Ok(
                BlackJackAccountData {
                    last_operation: data[0],
                    dealer_hand: data[1],
                    dealer_up_card: data[2],
                    player_hand: data[3],
                    current_card: index as usize,
                    cards,
                },
            )
        }
    }
}

/// The game record as a participant reads it from the account.
#[derive(Debug, Clone)]
pub struct BlackJackAccountDataSchema {
    /// The operation that was applied last.
    pub last_operation: u8,
    /// The dealer's hidden first card, then the running sum of the dealer's cards.
    pub dealer_hand: u8,
    /// The dealer's second card, which the player sees.
    pub dealer_up_card: u8,
    /// The running sum of the player's cards.
    pub player_hand: u8,
    /// The index of the next card to draw; zero as well once the lowest
    /// card is drawn.
    pub current_card: usize,
    /// The card slots.
    pub cards: Vec<u8>,
}

impl View for BlackJackAccountDataSchema {
    type V = GameRecord;

    open spec fn view(&self) -> GameRecord {
        GameRecord {
            last_operation: self.last_operation,
            dealer_hand: self.dealer_hand,
            dealer_up_card: self.dealer_up_card,
            player_hand: self.player_hand,
            current_card: self.current_card as nat,
            cards: self.cards@,
        }
    }
}

impl BlackJackAccountDataSchema {
    /// The record as the program holds it.
    pub fn into_data(self) -> (record: BlackJackAccountData)
        ensures
            record@ == self@,
    {
        BlackJackAccountData {
            last_operation: self.last_operation,
            dealer_hand: self.dealer_hand,
            dealer_up_card: self.dealer_up_card,
            player_hand: self.player_hand,
            current_card: self.current_card,
            cards: self.cards,
        }
    }

    /// The bytes of the record.
    pub fn try_to_vec(&self) -> (result: Result<Vec<u8>, WireError>)
        ensures
            match result {
                Ok(bytes) => self@.encodable() && bytes@ == self@.encoding(),
                Err(e) => !self@.encodable() && e == WireError::LengthOverflow,
            },
    {
        let mut out: Vec<u8> = Vec::new();
        let written = push_record(
            &mut out,
            self.last_operation,
            self.dealer_hand,
            self.dealer_up_card,
            self.player_hand,
            self.current_card,
            &self.cards,
        );
        match written {
            Ok(()) => {
                assert(out@ =~= self@.encoding());
                Ok(out)
            },
            Err(e) => Err(e),
        }
    }

    /// Reads a record from exactly `data`.
    pub fn try_from_slice(data: &[u8]) -> (result: Result<BlackJackAccountDataSchema, WireError>)
        ensures
            match result {
                Ok(record) => GameRecord::decoding(data@) matches Ok(decoded) && decoded == record@,
                Err(e) => GameRecord::decoding(data@) matches Err(f) && f == e,
            },
    {
        match BlackJackAccountData::try_from_slice(data) {
            Ok(record) => Ok(record.into_schema()),
            Err(e) => Err(e),
        }
    }
}

/// The number of bytes of the account that holds a game: the bytes of a
/// record with a full deck of cards.
pub const ACCOUNT_SIZE: usize = 68;

/// Determines the size of the account that holds the game record, by
/// encoding a record with as many cards as a deck has.
pub fn get_blackjack_data_size() -> (result: Result<usize, Error>)
    ensures
        result matches Ok(size) && size == ACCOUNT_SIZE,
{
    let mut cards: Vec<u8> = Vec::new();
    let mut i: u8 = 0;
    while i < CARD_NUMBER
        invariant
            i <= CARD_NUMBER,
            cards@.len() == i,
        decreases CARD_NUMBER - i,
    {
        cards.push(i);
        i = i + 1;
    }
    let sample = BlackJackAccountDataSchema {
        last_operation: 0,
        dealer_hand: 0,
        dealer_up_card: 0,
        player_hand: 0,
        current_card: 0,
        cards,
    };
    proof {
        lemma_encoding_len(sample@);
    }
    match sample.try_to_vec() {
        Ok(encoded) => Ok(encoded.len()),
        Err(e) => Err(Error::SerializationError(e)),
    }
}

/// The bytes of a record with a deck's number of cards fill the account.
pub proof fn lemma_account_size(record: GameRecord)
    requires
        record.cards.len() == CARD_NUMBER,
    ensures
        record.encoding().len() == ACCOUNT_SIZE,
{
    lemma_encoding_len(record);
}

} // verus!
