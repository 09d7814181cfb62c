use black_jack::record::{
    get_blackjack_data_size, BlackJackAccountData, BlackJackAccountDataSchema, SendDeck,
    ACCOUNT_SIZE, CARD_NUMBER, CLEAR_DATA, DEAL, DEALER_BUSTED, DEALER_HIT, DEALER_STAND,
    PLAYER_BUSTED, PLAYER_HIT, PLAYER_STAND, REQUEST_NEW_DECK, SEND_DECK,
};
use black_jack::wire::WireError;
use borsh::{BorshDeserialize, BorshSerialize};

fn record(current_card: usize, cards: Vec<u8>) -> BlackJackAccountData {
    BlackJackAccountData {
        last_operation: SEND_DECK,
        dealer_hand: 0,
        dealer_up_card: 0,
        player_hand: 0,
        current_card,
        cards,
    }
}

fn fields(record: &BlackJackAccountData) -> (u8, u8, u8, u8, usize, Vec<u8>) {
    (
        record.last_operation,
        record.dealer_hand,
        record.dealer_up_card,
        record.player_hand,
        record.current_card,
        record.cards.clone(),
    )
}

#[test]
fn operation_tags_have_their_values() {
    assert_eq!(
        [
            SEND_DECK,
            DEAL,
            REQUEST_NEW_DECK,
            CLEAR_DATA,
            PLAYER_HIT,
            PLAYER_STAND,
            DEALER_HIT,
            DEALER_STAND,
            PLAYER_BUSTED,
            DEALER_BUSTED
        ],
        [0, 1, 2, 3, 4, 5, 6, 7, 8, 9]
    );
    assert_eq!(CARD_NUMBER, 52);
}

#[test]
fn new_deck_points_at_its_last_card() {
    let made = BlackJackAccountData::with_deck(vec![7; 52]);
    assert_eq!(fields(&made), (SEND_DECK, 0, 0, 0, 51, vec![7; 52]));
    assert_eq!(made.remaining(), 52);
    assert!(!made.exhausted());
    assert_eq!(BlackJackAccountData::with_deck(vec![7]).remaining(), 1);
}

#[test]
fn new_deck_without_cards_has_nothing_to_draw() {
    let made = BlackJackAccountData::with_deck(Vec::new());
    assert_eq!(fields(&made), (SEND_DECK, 0, 0, 0, 0, Vec::new()));
    assert_eq!(made.remaining(), 0);
    assert!(made.exhausted());
}

#[test]
fn deal_takes_four_cards_from_the_high_end() {
    let mut cards = vec![1u8; 48];
    cards.extend_from_slice(&[9, 3, 14, 5]);
    let mut game = record(51, cards);
    game.deal();
    assert_eq!(game.last_operation, DEAL);
    assert_eq!(game.dealer_hand, 19);
    assert_eq!(game.dealer_up_card, 14);
    assert_eq!(game.player_hand, 12);
    assert_eq!(game.current_card, 47);
    let mut expected = vec![1u8; 48];
    expected.extend_from_slice(&[0, 0, 0, 0]);
    assert_eq!(game.cards, expected);
}

#[test]
fn deal_replaces_the_hands_of_an_earlier_game() {
    let mut game = record(4, vec![2, 3, 4, 5, 6]);
    game.dealer_hand = 20;
    game.dealer_up_card = 10;
    game.player_hand = 18;
    game.deal();
    assert_eq!(fields(&game), (DEAL, 11, 5, 7, 0, vec![2, 0, 0, 0, 0]));
    assert_eq!(game.remaining(), 1);
}

#[test]
fn deal_with_exactly_four_cards_left_empties_the_deck() {
    let mut game = record(3, vec![9, 3, 14, 5]);
    game.dealer_hand = 20;
    game.dealer_up_card = 10;
    game.player_hand = 18;
    assert_eq!(game.remaining(), 4);
    game.deal();
    assert_eq!(fields(&game), (DEAL, 19, 14, 12, 0, vec![0, 0, 0, 0]));
    assert_eq!(game.remaining(), 0);
    assert!(game.exhausted());
    game.hit(PLAYER_HIT);
    assert_eq!(fields(&game), (REQUEST_NEW_DECK, 19, 14, 12, 0, vec![0, 0, 0, 0]));
    game.hit(DEALER_HIT);
    assert_eq!(fields(&game), (REQUEST_NEW_DECK, 19, 14, 12, 0, vec![0, 0, 0, 0]));
    game.deal();
    assert_eq!(fields(&game), (REQUEST_NEW_DECK, 19, 14, 12, 0, vec![0, 0, 0, 0]));
}

#[test]
fn deal_of_the_four_lowest_cards_leaves_the_higher_slots() {
    let mut game = record(3, vec![1, 2, 3, 4, 0, 0, 9]);
    game.deal();
    assert_eq!(fields(&game), (DEAL, 7, 3, 3, 0, vec![0, 0, 0, 0, 0, 0, 9]));
}

#[test]
fn deal_with_three_cards_left_draws_nothing() {
    let mut game = record(2, vec![1, 2, 3, 4, 5]);
    game.dealer_hand = 6;
    game.dealer_up_card = 2;
    game.player_hand = 9;
    assert_eq!(game.remaining(), 3);
    game.deal();
    assert_eq!(fields(&game), (REQUEST_NEW_DECK, 6, 2, 9, 2, vec![1, 2, 3, 4, 5]));
}

#[test]
fn every_card_of_a_deck_is_drawn() {
    let mut game = BlackJackAccountData::with_deck((1..=52).collect());
    for _ in 0..13 {
        game.deal();
        assert_eq!(game.last_operation, DEAL);
    }
    assert_eq!(game.current_card, 0);
    assert_eq!(game.cards, vec![0; 52]);
    assert_eq!(game.dealer_hand, 4 + 3);
    assert_eq!(game.dealer_up_card, 3);
    assert_eq!(game.player_hand, 2 + 1);
    game.deal();
    assert_eq!(game.last_operation, REQUEST_NEW_DECK);
}

#[test]
fn deal_with_an_index_past_the_cards_draws_nothing() {
    let mut game = record(52, vec![3; 52]);
    game.deal();
    assert_eq!(fields(&game), (REQUEST_NEW_DECK, 0, 0, 0, 52, vec![3; 52]));
    let mut game = record(usize::MAX, vec![3; 52]);
    game.deal();
    assert_eq!(fields(&game), (REQUEST_NEW_DECK, 0, 0, 0, usize::MAX, vec![3; 52]));
}

#[test]
fn player_hit_on_the_last_card_then_on_the_empty_deck() {
    let mut game = record(1, vec![0, 7]);
    game.last_operation = DEAL;
    game.player_hand = 10;
    game.dealer_hand = 15;
    game.dealer_up_card = 5;
    game.hit(PLAYER_HIT);
    assert_eq!(fields(&game), (PLAYER_HIT, 15, 5, 17, 0, vec![0, 0]));
    assert_eq!(game.remaining(), 0);
    game.hit(PLAYER_HIT);
    assert_eq!(fields(&game), (REQUEST_NEW_DECK, 15, 5, 17, 0, vec![0, 0]));
}

#[test]
fn hit_draws_the_card_in_the_lowest_slot() {
    let mut game = BlackJackAccountData::with_deck(vec![7]);
    game.player_hand = 10;
    game.dealer_hand = 15;
    assert_eq!(game.remaining(), 1);
    game.hit(DEALER_HIT);
    assert_eq!(fields(&game), (DEALER_HIT, 22, 0, 10, 0, vec![0]));
    assert!(game.exhausted());
    game.hit(DEALER_HIT);
    assert_eq!(fields(&game), (REQUEST_NEW_DECK, 22, 0, 10, 0, vec![0]));

    let mut game = record(1, vec![6, 7]);
    game.hit(PLAYER_HIT);
    assert_eq!(fields(&game), (PLAYER_HIT, 0, 0, 7, 0, vec![6, 0]));
    assert_eq!(game.remaining(), 1);
    game.hit(PLAYER_HIT);
    assert_eq!(fields(&game), (PLAYER_HIT, 0, 0, 13, 0, vec![0, 0]));
    assert_eq!(game.remaining(), 0);
    game.hit(PLAYER_HIT);
    assert_eq!(fields(&game), (REQUEST_NEW_DECK, 0, 0, 13, 0, vec![0, 0]));
}

#[test]
fn dealer_hit_adds_the_card_to_the_dealer_alone() {
    let mut game = record(2, vec![4, 5, 6]);
    game.player_hand = 10;
    game.dealer_hand = 15;
    game.hit(DEALER_HIT);
    assert_eq!(fields(&game), (DEALER_HIT, 21, 0, 10, 1, vec![4, 5, 0]));
}

#[test]
fn hit_under_another_tag_draws_for_nobody() {
    let mut game = record(2, vec![4, 5, 6]);
    game.player_hand = 10;
    game.dealer_hand = 15;
    game.hit(PLAYER_STAND);
    assert_eq!(fields(&game), (PLAYER_STAND, 15, 0, 10, 1, vec![4, 5, 0]));
}

#[test]
fn hit_with_an_index_past_the_cards_draws_nothing() {
    let mut game = record(3, vec![4, 5, 6]);
    game.hit(DEALER_HIT);
    assert_eq!(fields(&game), (REQUEST_NEW_DECK, 0, 0, 0, 3, vec![4, 5, 6]));
}

#[test]
fn hand_sums_wrap_in_one_byte() {
    let mut game = record(1, vec![0, 200]);
    game.player_hand = 100;
    game.hit(PLAYER_HIT);
    assert_eq!(game.player_hand, 44);
    let mut game = record(4, vec![0, 255, 255, 200, 100]);
    game.deal();
    assert_eq!(game.dealer_hand, 44);
    assert_eq!(game.dealer_up_card, 200);
    assert_eq!(game.player_hand, 254);
}

#[test]
fn clear_wipes_every_field_and_keeps_the_number_of_cards() {
    let mut game = record(40, vec![9; 52]);
    game.last_operation = DEALER_STAND;
    game.dealer_hand = 20;
    game.dealer_up_card = 10;
    game.player_hand = 19;
    game.clear();
    assert_eq!(fields(&game), (CLEAR_DATA, 0, 0, 0, 0, vec![0; 52]));
    let mut empty = record(usize::MAX, Vec::new());
    empty.clear();
    assert_eq!(fields(&empty), (CLEAR_DATA, 0, 0, 0, 0, Vec::new()));
}

#[test]
fn tag_changes_the_operation_alone() {
    for operation in [PLAYER_STAND, DEALER_STAND, PLAYER_BUSTED, DEALER_BUSTED, 200] {
        let mut game = record(2, vec![4, 5, 6]);
        game.player_hand = 23;
        game.tag(operation);
        assert_eq!(fields(&game), (operation, 0, 0, 23, 2, vec![4, 5, 6]));
    }
}

#[test]
fn record_bytes_are_header_index_length_and_cards() {
    let mut game = record(0x0102, vec![7, 8, 9]);
    game.last_operation = DEAL;
    game.dealer_hand = 19;
    game.dealer_up_card = 14;
    game.player_hand = 12;
    let bytes = game.try_to_vec().unwrap();
    assert_eq!(bytes, vec![1, 19, 14, 12, 2, 1, 0, 0, 0, 0, 0, 0, 3, 0, 0, 0, 7, 8, 9]);
    let mut out = vec![0xAA];
    game.serialize(&mut out).unwrap();
    assert_eq!(out[0], 0xAA);
    assert_eq!(out[1..], bytes[..]);
}

#[test]
fn record_bytes_are_what_borsh_writes_for_the_fields_in_order() {
    let mut game = record(47, (0..52).collect());
    game.last_operation = PLAYER_HIT;
    game.dealer_hand = 19;
    game.dealer_up_card = 14;
    game.player_hand = 12;
    let mut expected: Vec<u8> = Vec::new();
    BorshSerialize::serialize(&game.last_operation, &mut expected).unwrap();
    BorshSerialize::serialize(&game.dealer_hand, &mut expected).unwrap();
    BorshSerialize::serialize(&game.dealer_up_card, &mut expected).unwrap();
    BorshSerialize::serialize(&game.player_hand, &mut expected).unwrap();
    BorshSerialize::serialize(&game.current_card, &mut expected).unwrap();
    BorshSerialize::serialize(&game.cards, &mut expected).unwrap();
    assert_eq!(game.try_to_vec().unwrap(), expected);
    assert_eq!(expected.len(), ACCOUNT_SIZE);
}

#[test]
fn record_comes_back_from_its_bytes() {
    let mut game = record(usize::MAX, vec![1, 0, 255, 14]);
    game.last_operation = REQUEST_NEW_DECK;
    game.dealer_hand = 255;
    game.dealer_up_card = 1;
    game.player_hand = 128;
    let bytes = game.try_to_vec().unwrap();
    let back = BlackJackAccountData::try_from_slice(&bytes).unwrap();
    assert_eq!(fields(&back), fields(&game));
    assert_eq!(back.try_to_vec().unwrap(), bytes);
    let empty = record(0, Vec::new());
    let bytes = empty.try_to_vec().unwrap();
    assert_eq!(bytes, vec![0; 16]);
    assert_eq!(fields(&BlackJackAccountData::try_from_slice(&bytes).unwrap()), fields(&empty));
}

#[test]
fn record_comes_back_after_every_operation() {
    let mut game = BlackJackAccountData::with_deck((1..=52).collect());
    for operation in [DEAL, PLAYER_HIT, PLAYER_STAND, DEALER_HIT, DEALER_STAND, CLEAR_DATA] {
        match operation {
            DEAL => game.deal(),
            CLEAR_DATA => game.clear(),
            PLAYER_HIT | DEALER_HIT => game.hit(operation),
            _ => game.tag(operation),
        }
        let bytes = game.try_to_vec().unwrap();
        assert_eq!(bytes.len(), ACCOUNT_SIZE);
        let back = BlackJackAccountData::try_from_slice(&bytes).unwrap();
        assert_eq!(fields(&back), fields(&game));
    }
}

#[test]
fn short_bytes_hold_no_record() {
    let bytes = record(2, vec![4, 5, 6]).try_to_vec().unwrap();
    for cut in 0..bytes.len() {
        assert_eq!(
            BlackJackAccountData::try_from_slice(&bytes[..cut]).unwrap_err(),
            WireError::UnexpectedLength,
            "cut at {}",
            cut
        );
    }
}

#[test]
fn trailing_bytes_hold_no_record() {
    let mut bytes = record(2, vec![4, 5, 6]).try_to_vec().unwrap();
    bytes.push(0);
    assert_eq!(
        BlackJackAccountData::try_from_slice(&bytes).unwrap_err(),
        WireError::TrailingBytes
    );
    assert_eq!(
        BlackJackAccountData::try_from_slice(&[0u8; 68]).unwrap_err(),
        WireError::TrailingBytes
    );
}

#[test]
fn schema_reads_and_writes_the_same_bytes() {
    let mut game = record(47, (0..52).collect());
    game.last_operation = DEAL;
    game.dealer_hand = 19;
    game.dealer_up_card = 14;
    game.player_hand = 12;
    let bytes = game.try_to_vec().unwrap();
    let read = BlackJackAccountDataSchema::try_from_slice(&bytes).unwrap();
    assert_eq!(read.last_operation, DEAL);
    assert_eq!(read.dealer_hand, 19);
    assert_eq!(read.dealer_up_card, 14);
    assert_eq!(read.player_hand, 12);
    assert_eq!(read.current_card, 47);
    assert_eq!(read.cards, game.cards);
    assert_eq!(read.try_to_vec().unwrap(), bytes);
    assert_eq!(fields(&read.into_data()), fields(&game));
    assert_eq!(game.into_schema().try_to_vec().unwrap(), bytes);
    assert_eq!(
        BlackJackAccountDataSchema::try_from_slice(&bytes[..20]).unwrap_err(),
        WireError::UnexpectedLength
    );
}

#[test]
fn deck_payload_is_length_then_cards() {
    let payload = SendDeck { deck: vec![5, 6, 7] };
    let mut out = vec![SEND_DECK];
    payload.serialize(&mut out).unwrap();
    assert_eq!(out, vec![0, 3, 0, 0, 0, 5, 6, 7]);
    let mut expected = Vec::new();
    BorshSerialize::serialize(&payload.deck, &mut expected).unwrap();
    assert_eq!(out[1..], expected[..]);
    assert_eq!(SendDeck::try_from_slice(&out[1..]).unwrap().deck, vec![5, 6, 7]);
    assert_eq!(<Vec<u8> as BorshDeserialize>::try_from_slice(&out[1..]).unwrap(), vec![5, 6, 7]);
    assert_eq!(SendDeck::try_from_slice(&[0, 0, 0, 0]).unwrap().deck, Vec::<u8>::new());
}

#[test]
fn deck_payload_of_the_wrong_length_holds_no_deck() {
    assert_eq!(SendDeck::try_from_slice(&[]).unwrap_err(), WireError::UnexpectedLength);
    assert_eq!(SendDeck::try_from_slice(&[3, 0, 0]).unwrap_err(), WireError::UnexpectedLength);
    assert_eq!(
        SendDeck::try_from_slice(&[3, 0, 0, 0, 5, 6]).unwrap_err(),
        WireError::UnexpectedLength
    );
    assert_eq!(
        SendDeck::try_from_slice(&[3, 0, 0, 0, 5, 6, 7, 8]).unwrap_err(),
        WireError::TrailingBytes
    );
    assert_eq!(
        SendDeck::try_from_slice(&[255, 255, 255, 255, 1]).unwrap_err(),
        WireError::UnexpectedLength
    );
}

#[test]
fn account_size_is_that_of_a_record_with_a_deck() {
    assert_eq!(ACCOUNT_SIZE, 68);
    assert!(matches!(get_blackjack_data_size(), Ok(68)));
}
