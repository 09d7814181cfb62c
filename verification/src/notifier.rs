//! The listener of a participant: what it makes of each notification about
//! the game record, what it remembers, and which wait it releases.

use crate::client::process_solana_network_event;
use crate::record::{
    BlackJackAccountDataSchema, GameRecord, DEAL, DEALER_BUSTED, DEALER_HIT, DEALER_STAND,
    PLAYER_BUSTED, PLAYER_HIT, PLAYER_STAND, REQUEST_NEW_DECK,
};
use vstd::prelude::*;

verus! {

/// The highest sum of a hand that is not busted.
pub const BUST_LIMIT: u8 = 21;

/// How many seconds a listener waits for a notification before it looks
/// whether it was told to finish.
pub const POLL_SECONDS: u64 = 2;

/// What reaches a listener: the bytes of the account after a change, the end
/// of a wait in which nothing came, or the end of the subscription.
#[derive(Debug, Clone)]
pub enum Notification {
    Snapshot(Vec<u8>),
    Timeout,
    Disconnected,
}

/// The waits of the two drivers. Each counts its releases, so that every
/// release lets one wait pass.
#[derive(Debug, Clone, Copy, PartialEq, Eq, Structural)]
pub enum Wait {
    /// The player waits for the cards to be dealt.
    DeckDealt,
    /// The player waits for the card it asked for.
    PlayerHit,
    /// The dealer waits for the player to stand or to bust.
    PlayerDone,
    /// The dealer waits for the card it asked for.
    DealerHit,
    /// The player waits for the dealer to stand or to bust.
    DealerDone,
}

/// What a listener does after a notification.
#[derive(Debug, Clone, Copy, PartialEq, Eq, Structural)]
pub enum Reaction {
    /// Nothing: it listens on.
    Nothing,
    /// It releases one unit of a wait and listens on.
    Release(Wait),
    /// It sends the operations by which the dealer supplies cards, a new
    /// deck and its deal, and listens on.
    NewDeck,
    /// It stops listening.
    Stop,
}

/// What the dealer's listener remembers of the game.
#[derive(Debug, Clone, Copy, PartialEq, Eq, Structural)]
pub struct DealerWatch {
    /// Whether a hand went over the limit: the player's, as the player said,
    /// or the dealer's own after a card.
    pub is_busted: bool,
    /// The player's hand when the player stood.
    pub last_player_hand: u8,
    /// The dealer's hand as last seen.
    pub dealer_hand: u8,
}

/// What the player's listener remembers of the game.
#[derive(Debug, Clone, Copy, PartialEq, Eq, Structural)]
pub struct PlayerWatch {
    /// Whether the player's hand went over the limit after a card.
    pub busted: bool,
}

/// What the dealer's listener remembers once it has seen `record`.
pub open spec fn dealer_watch_after(watch: DealerWatch, record: GameRecord) -> DealerWatch {
    if record.last_operation == PLAYER_BUSTED {
        DealerWatch { is_busted: true, ..watch }
    } else if record.last_operation == PLAYER_STAND {
        DealerWatch {
            is_busted: watch.is_busted,
            last_player_hand: record.player_hand,
            dealer_hand: record.dealer_hand,
        }
    } else if record.last_operation == DEALER_HIT {
        DealerWatch {
            is_busted: watch.is_busted || record.dealer_hand > BUST_LIMIT,
            last_player_hand: watch.last_player_hand,
            dealer_hand: record.dealer_hand,
        }
    } else {
        watch
    }
}

/// What the dealer's listener does once it has seen `record`.
pub open spec fn dealer_reaction(record: GameRecord) -> Reaction {
    if record.last_operation == REQUEST_NEW_DECK {
        Reaction::NewDeck
    } else if record.last_operation == PLAYER_BUSTED || record.last_operation == PLAYER_STAND {
        Reaction::Release(Wait::PlayerDone)
    } else if record.last_operation == DEALER_HIT {
        Reaction::Release(Wait::DealerHit)
    } else {
        Reaction::Nothing
    }
}

/// What the player's listener remembers once it has seen `record`.
pub open spec fn player_watch_after(watch: PlayerWatch, record: GameRecord) -> PlayerWatch {
    if record.last_operation == PLAYER_HIT {
        PlayerWatch { busted: watch.busted || record.player_hand > BUST_LIMIT }
    } else {
        watch
    }
}

/// What the player's listener does once it has seen `record`.
pub open spec fn player_reaction(record: GameRecord) -> Reaction {
    if record.last_operation == DEAL {
        Reaction::Release(Wait::DeckDealt)
    } else if record.last_operation == PLAYER_HIT {
        Reaction::Release(Wait::PlayerHit)
    } else if record.last_operation == DEALER_BUSTED || record.last_operation == DEALER_STAND {
        Reaction::Release(Wait::DealerDone)
    } else {
        Reaction::Nothing
    }
}

/// What a listener does with a notification that brings no record: it stops
/// when the subscription ended, or when a wait ran out and it was told to
/// finish, and listens on otherwise.
pub open spec fn idle_reaction(notification: Notification, should_finish: bool) -> Reaction {
    match notification {
        Notification::Snapshot(_) => Reaction::Nothing,
        Notification::Timeout => if should_finish {
            Reaction::Stop
        } else {
            Reaction::Nothing
        },
        Notification::Disconnected => Reaction::Stop,
    }
}

/// The record that a notification brings, if it brings one.
pub open spec fn record_of(notification: Notification) -> Option<GameRecord> {
    match notification {
        Notification::Snapshot(bytes) => match GameRecord::decoding(bytes@) {
            Ok(record) => Some(record),
            Err(_) => None,
        },
        _ => None,
    }
}

/// The dealer's listener on a record: it notes what the player did and what
/// the dealer drew, and releases the wait that the driver is in.
pub fn dealer_observe(watch: &mut DealerWatch, record: &BlackJackAccountDataSchema) -> (reaction:
    Reaction)
    ensures
        *final(watch) == dealer_watch_after(*old(watch), record@),
        reaction == dealer_reaction(record@),
{
    let operation = record.last_operation;
    if operation == REQUEST_NEW_DECK {
        Reaction::NewDeck
    } else if operation == PLAYER_BUSTED {
        watch.is_busted = true;
        Reaction::Release(Wait::PlayerDone)
    } else if operation == PLAYER_STAND {
        watch.last_player_hand = record.player_hand;
        watch.dealer_hand = record.dealer_hand;
        Reaction::Release(Wait::PlayerDone)
    } else if operation == DEALER_HIT {
        watch.dealer_hand = record.dealer_hand;
        if record.dealer_hand > BUST_LIMIT {
            watch.is_busted = true;
        }
        Reaction::Release(Wait::DealerHit)
    } else {
        Reaction::Nothing
    }
}

/// The player's listener on a record: it notes whether a card busted the
/// player, and releases the wait that the driver is in.
pub fn player_observe(watch: &mut PlayerWatch, record: &BlackJackAccountDataSchema) -> (reaction:
    Reaction)
    ensures
        *final(watch) == player_watch_after(*old(watch), record@),
        reaction == player_reaction(record@),
{
    let operation = record.last_operation;
    if operation == DEAL {
        Reaction::Release(Wait::DeckDealt)
    } else if operation == PLAYER_HIT {
        if record.player_hand > BUST_LIMIT {
            watch.busted = true;
        }
        Reaction::Release(Wait::PlayerHit)
    } else if operation == DEALER_BUSTED || operation == DEALER_STAND {
        Reaction::Release(Wait::DealerDone)
    } else {
        Reaction::Nothing
    }
}

/// One turn of the dealer's listener. A snapshot that holds a record is
/// observed; one that holds none is passed over.
pub fn dealer_listen(
    watch: &mut DealerWatch,
    notification: &Notification,
    should_finish: bool,
) -> (reaction: Reaction)
    ensures
        match record_of(*notification) {
            Some(record) => *final(watch) == dealer_watch_after(*old(watch), record) && reaction
                == dealer_reaction(record),
            None => *final(watch) == *old(watch) && reaction == idle_reaction(
                *notification,
                should_finish,
            ),
        },
{
    match notification {
        Notification::Snapshot(bytes) => match process_solana_network_event(bytes.as_slice()) {
            Ok(record) => dealer_observe(watch, &record),
            Err(_) => Reaction::Nothing,
        },
        Notification::Timeout => if should_finish {
            Reaction::Stop
        } else {
            Reaction::Nothing
        },
        Notification::Disconnected => Reaction::Stop,
    }
}

/// One turn of the player's listener. A snapshot that holds a record is
/// observed; one that holds none is passed over.
pub fn player_listen(
    watch: &mut PlayerWatch,
    notification: &Notification,
    should_finish: bool,
) -> (reaction: Reaction)
    ensures
        match record_of(*notification) {
            Some(record) => *final(watch) == player_watch_after(*old(watch), record) && reaction
                == player_reaction(record),
            None => *final(watch) == *old(watch) && reaction == idle_reaction(
                *notification,
                should_finish,
            ),
        },
{
    match notification {
        Notification::Snapshot(bytes) => match process_solana_network_event(bytes.as_slice()) {
            Ok(record) => player_observe(watch, &record),
            Err(_) => Reaction::Nothing,
        },
        Notification::Timeout => if should_finish {
            Reaction::Stop
        } else {
            Reaction::Nothing
        },
        Notification::Disconnected => Reaction::Stop,
    }
}

/// A listener stops only when the subscription ended or when a wait ran out
/// after it was told to finish: no record makes it stop, and no bytes that
/// hold none.
pub proof fn lemma_listener_stops_on_request(notification: Notification, should_finish: bool)
    ensures
        idle_reaction(notification, should_finish) == Reaction::Stop <==> (notification
            is Disconnected || (notification is Timeout && should_finish)),
        forall|record: GameRecord| #[trigger]
            dealer_reaction(record) != Reaction::Stop && #[trigger] player_reaction(record)
                != Reaction::Stop,
{
}

/// When the player says that it busted, the dealer's listener notes it and
/// releases one unit of the wait for the player, whatever it held before.
pub proof fn lemma_dealer_hears_player_bust(watch: DealerWatch, record: GameRecord)
    requires
        record.last_operation == PLAYER_BUSTED,
    ensures
        dealer_reaction(record) == Reaction::Release(Wait::PlayerDone),
        dealer_watch_after(watch, record).is_busted,
{
}

} // verus!
