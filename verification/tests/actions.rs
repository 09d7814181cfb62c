use black_jack::actions::{
    busted, clear_data, deal, deck_instruction, get_init_status, hit, is_deck_dealt, read_record,
    send_deck, stand,
};
use black_jack::client::process_solana_network_event;
use black_jack::error::Error;
use black_jack::record::{
    BlackJackAccountData, CLEAR_DATA, DEAL, DEALER_BUSTED, DEALER_HIT, DEALER_STAND,
    PLAYER_BUSTED, PLAYER_HIT, PLAYER_STAND, SEND_DECK,
};
use black_jack::wire::WireError;

fn account(last_operation: u8) -> Vec<u8> {
    BlackJackAccountData {
        last_operation,
        dealer_hand: 19,
        dealer_up_card: 14,
        player_hand: 12,
        current_card: 47,
        cards: (0..52).collect(),
    }
    .try_to_vec()
    .unwrap()
}

#[test]
fn bare_instructions_hold_their_operation() {
    assert_eq!(deal(), vec![DEAL]);
    assert_eq!(clear_data(), vec![CLEAR_DATA]);
    assert_eq!(hit(PLAYER_HIT), vec![PLAYER_HIT]);
    assert_eq!(hit(DEALER_HIT), vec![DEALER_HIT]);
    assert_eq!(stand(PLAYER_STAND), vec![PLAYER_STAND]);
    assert_eq!(stand(DEALER_STAND), vec![DEALER_STAND]);
    assert_eq!(busted(PLAYER_BUSTED), vec![PLAYER_BUSTED]);
    assert_eq!(busted(DEALER_BUSTED), vec![DEALER_BUSTED]);
}

#[test]
fn deck_instruction_is_tag_length_and_cards() {
    assert_eq!(deck_instruction(vec![5, 6, 7]).unwrap(), vec![SEND_DECK, 3, 0, 0, 0, 5, 6, 7]);
    assert_eq!(deck_instruction(Vec::new()).unwrap(), vec![SEND_DECK, 0, 0, 0, 0]);
    let long = deck_instruction(vec![1; 300]).unwrap();
    assert_eq!(long[..5], [SEND_DECK, 44, 1, 0, 0]);
    assert_eq!(long[5..], [1u8; 300]);
}

#[test]
fn send_deck_sends_a_full_deck() {
    let instruction = send_deck().unwrap();
    assert_eq!(instruction.len(), 57);
    assert_eq!(instruction[..5], [SEND_DECK, 52, 0, 0, 0]);
    let mut cards = instruction[5..].to_vec();
    cards.sort();
    let mut expected: Vec<u8> = Vec::new();
    for rank in [1u8, 2, 3, 4, 5, 6, 7, 8, 9, 10, 12, 13, 14] {
        expected.extend_from_slice(&[rank; 4]);
    }
    assert_eq!(cards, expected);
}

#[test]
fn status_is_read_from_the_account() {
    let data = account(DEAL);
    assert!(matches!(get_init_status(&data), Ok(14)));
    assert!(matches!(is_deck_dealt(&data), Ok(true)));
    assert!(matches!(is_deck_dealt(&account(PLAYER_HIT)), Ok(false)));
    assert!(matches!(is_deck_dealt(&account(SEND_DECK)), Ok(false)));
    let record = read_record(&data).unwrap();
    assert_eq!(record.last_operation, DEAL);
    assert_eq!(record.dealer_hand, 19);
    assert_eq!(record.dealer_up_card, 14);
    assert_eq!(record.player_hand, 12);
    assert_eq!(record.current_card, 47);
    assert_eq!(record.cards, (0..52).collect::<Vec<u8>>());
    let event = process_solana_network_event(&data).unwrap();
    assert_eq!(event.try_to_vec().unwrap(), data);
}

#[test]
fn bytes_without_a_record_are_a_serialization_error() {
    let blank = vec![0u8; 68];
    assert!(matches!(
        get_init_status(&blank),
        Err(Error::SerializationError(WireError::TrailingBytes))
    ));
    assert!(matches!(
        is_deck_dealt(&blank),
        Err(Error::SerializationError(WireError::TrailingBytes))
    ));
    assert!(matches!(
        read_record(&blank[..10]),
        Err(Error::SerializationError(WireError::UnexpectedLength))
    ));
    assert!(matches!(
        process_solana_network_event(&[]),
        Err(Error::SerializationError(WireError::UnexpectedLength))
    ));
}
