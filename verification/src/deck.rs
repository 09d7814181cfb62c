//! The deck of cards: fifty-two values, four of each rank, in an order that
//! chance decides.

use vstd::multiset::group_multiset_axioms;
use vstd::prelude::*;
use vstd::seq_lib::to_multiset_build;

verus! {

/// The number of suits in a deck.
pub const SUITS: u8 = 4;

/// Whether `value` is the rank of a card: one to ten, twelve, thirteen or
/// fourteen.
pub open spec fn is_rank(value: u8) -> bool {
    1 <= value <= 14 && value != 11
}

/// The rank in place `place` of a suit, counted from zero.
pub open spec fn rank_at(place: int) -> u8 {
    if place < 10 {
        (place + 1) as u8
    } else {
        (place + 2) as u8
    }
}

/// The deck before it is shuffled: suit after suit, each with its ranks in
/// rising order.
pub open spec fn ordered_cards() -> Seq<u8> {
    Seq::new(52, |i: int| rank_at(i % 13))
}

/// Whether `cards` are a deck: fifty-two values, each rank four times and
/// nothing else.
pub open spec fn is_full_deck(cards: Seq<u8>) -> bool {
    &&& cards.len() == 52
    &&& forall|value: u8| #[trigger]
        cards.to_multiset().count(value) == if is_rank(value) {
            4nat
        } else {
            0nat
        }
}

/// How many ranks lie below `rank`.
spec fn ranks_below(rank: u8) -> int {
    if rank <= 11 {
        rank - 1
    } else {
        rank - 2
    }
}

/// The deck in its first order: suit after suit, the ranks rising.
pub fn ordered_deck() -> (deck: Vec<u8>)
    ensures
        deck@ == ordered_cards(),
        is_full_deck(deck@),
{
    broadcast use group_multiset_axioms;

    let mut deck: Vec<u8> = Vec::new();
    let mut suit: u8 = 0;
    proof {
        deck@.to_multiset_ensures();
        assert forall|value: u8| #[trigger] deck@.to_multiset().count(value) == 0 by {
            assert(deck@.to_multiset().count(value) <= deck@.to_multiset().len());
        }
    }
    while suit < SUITS
        invariant
            suit <= SUITS,
            deck@.len() == 13 * suit,
            forall|k: int| 0 <= k < deck@.len() ==> deck@[k] == rank_at(k % 13),
            forall|value: u8| #[trigger]
                deck@.to_multiset().count(value) == if is_rank(value) {
                    suit as nat
                } else {
                    0nat
                },
        decreases SUITS - suit,
    {
        let mut rank: u8 = 1;
        while rank < 15
            invariant
                suit < SUITS,
                1 <= rank <= 15,
                deck@.len() == 13 * suit + ranks_below(rank),
                forall|k: int| 0 <= k < deck@.len() ==> deck@[k] == rank_at(k % 13),
                forall|value: u8| #[trigger]
                    deck@.to_multiset().count(value) == if is_rank(value) {
                        if value < rank {
                            (suit + 1) as nat
                        } else {
                            suit as nat
                        }
                    } else {
                        0nat
                    },
            decreases 15 - rank,
        {
            if rank != 11 {
                proof {
                    to_multiset_build(deck@, rank);
                }
                deck.push(rank);
            }
            rank = rank + 1;
        }
        suit = suit + 1;
    }
    assert(deck@ =~= ordered_cards());
    deck
}

/// `rand::seq::SliceRandom::shuffle` on the cards, with the generator that
/// `rand::thread_rng` hands out. The shuffle only swaps cards with one
/// another, so every value is there as often as before; in which order is
/// for chance to say. This is taken on trust, as is that the generator can
/// be had.
#[verifier::external_body]
fn shuffle(cards: &mut Vec<u8>)
    ensures
        final(cards)@.to_multiset() == old(cards)@.to_multiset(),
{
    rand::seq::SliceRandom::shuffle(cards.as_mut_slice(), &mut rand::thread_rng());
}

/// Cards that hold the same values as a deck, as often, are a deck.
pub proof fn lemma_rearranged_deck(deck: Seq<u8>, cards: Seq<u8>)
    requires
        is_full_deck(deck),
        cards.to_multiset() == deck.to_multiset(),
    ensures
        is_full_deck(cards),
{
    deck.to_multiset_ensures();
    cards.to_multiset_ensures();
}

/// Every card of a deck is a rank.
pub proof fn lemma_deck_holds_ranks(cards: Seq<u8>)
    requires
        is_full_deck(cards),
    ensures
        forall|i: int| 0 <= i < cards.len() ==> is_rank(#[trigger] cards[i]),
{
    cards.to_multiset_ensures();
    assert forall|i: int| 0 <= i < cards.len() implies is_rank(#[trigger] cards[i]) by {
        assert(cards.contains(cards[i]));
        assert(cards.to_multiset().count(cards[i]) > 0);
    }
}

/// A deck of fifty-two cards, shuffled.
pub fn generate_deck() -> (deck: Vec<u8>)
    ensures
        is_full_deck(deck@),
{
    let mut deck = ordered_deck();
    let ghost ordered = deck@;
    shuffle(&mut deck);
    proof {
        lemma_rearranged_deck(ordered, deck@);
    }
    deck
}

} // verus!
