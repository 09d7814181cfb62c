use black_jack::deck::{generate_deck, ordered_deck};

fn count(cards: &[u8], value: u8) -> usize {
    cards.iter().filter(|card| **card == value).count()
}

#[test]
fn ordered_deck_is_four_suits_with_rising_ranks() {
    let suit: Vec<u8> = vec![1, 2, 3, 4, 5, 6, 7, 8, 9, 10, 12, 13, 14];
    let mut expected: Vec<u8> = Vec::new();
    for _ in 0..4 {
        expected.extend_from_slice(&suit);
    }
    assert_eq!(ordered_deck(), expected);
}

#[test]
fn generated_deck_has_fifty_two_cards() {
    assert_eq!(generate_deck().len(), 52);
}

#[test]
fn generated_deck_holds_each_rank_four_times_and_nothing_else() {
    for _ in 0..20 {
        let deck = generate_deck();
        for value in 0..=255u8 {
            let expected = if (1..=14).contains(&value) && value != 11 { 4 } else { 0 };
            assert_eq!(count(&deck, value), expected, "value {}", value);
        }
    }
}

#[test]
fn generated_deck_is_a_rearrangement_of_the_ordered_deck() {
    let mut deck = generate_deck();
    deck.sort();
    let mut ordered = ordered_deck();
    ordered.sort();
    assert_eq!(deck, ordered);
}

#[test]
fn generated_decks_come_out_shuffled() {
    let ordered = ordered_deck();
    let decks: Vec<Vec<u8>> = (0..8).map(|_| generate_deck()).collect();
    assert!(decks.iter().any(|deck| *deck != ordered));
    assert!(decks.iter().any(|deck| *deck != decks[0]));
}
