//! The drivers of dealer and player: which step follows which, what each
//! step sends to the program and which wait it then sits in.

use crate::notifier::{DealerWatch, PlayerWatch, Wait, BUST_LIMIT};
use crate::record::{
    CLEAR_DATA, DEAL, DEALER_BUSTED, DEALER_HIT, DEALER_STAND, PLAYER_BUSTED, PLAYER_HIT,
    PLAYER_STAND, SEND_DECK,
};
use vstd::prelude::*;

verus! {

/// What a participant picks from the menu.
#[derive(Debug, Clone, Copy, PartialEq, Eq, Structural)]
pub enum Choice {
    /// Take a card.
    Hit,
    /// Take no more cards.
    Stand,
    /// Leave the game.
    Exit,
    /// Anything else.
    Other,
}

/// The steps of the dealer's driver, once the deck is sent and dealt.
#[derive(Debug, Clone, Copy, PartialEq, Eq, Structural)]
pub enum DealerStep {
    /// Wait for the player to stand or to bust.
    AwaitPlayer,
    /// Ask for a choice from the menu.
    Ask,
    /// Take a card and wait for it.
    Hit,
    /// Say that the dealer's hand went over the limit.
    Bust,
    /// Take no more cards.
    Stand,
    /// Stop the listener and wipe the record.
    Clear,
    /// Leave.
    Exit,
}

/// The steps of the player's driver.
#[derive(Debug, Clone, Copy, PartialEq, Eq, Structural)]
pub enum PlayerStep {
    /// Wait for the cards to be dealt.
    AwaitDeal,
    /// Read the opening hand from the account.
    Look,
    /// Ask for a choice from the menu.
    Ask,
    /// Take a card and wait for it.
    Hit,
    /// Say that the player's hand went over the limit.
    Bust,
    /// Take no more cards and wait for the dealer to finish.
    Stand,
    /// Stop the listener and wipe the record.
    Clear,
    /// Leave.
    Exit,
}

/// The operations by which the dealer puts cards on the table, in their
/// order: a deck is sent, then it is dealt. The dealer opens the game with
/// them, and its listener answers a request for a new deck with them.
pub open spec fn dealer_supplies() -> Seq<u8> {
    seq![SEND_DECK, DEAL]
}

/// The dealer's step after `step`, given the choice that was made if the
/// step asked for one, and what the listener has seen by now.
pub open spec fn dealer_step_after(step: DealerStep, choice: Choice, watch: DealerWatch)
    -> DealerStep {
    match step {
        DealerStep::AwaitPlayer => if watch.is_busted {
            DealerStep::Clear
        } else {
            DealerStep::Ask
        },
        DealerStep::Ask => match choice {
            Choice::Hit => DealerStep::Hit,
            Choice::Stand => if watch.dealer_hand > watch.last_player_hand {
                DealerStep::Stand
            } else {
                DealerStep::Ask
            },
            _ => DealerStep::Ask,
        },
        DealerStep::Hit => if watch.is_busted {
            DealerStep::Bust
        } else {
            DealerStep::Ask
        },
        DealerStep::Bust => DealerStep::Clear,
        DealerStep::Stand => DealerStep::Clear,
        DealerStep::Clear => DealerStep::Exit,
        DealerStep::Exit => DealerStep::Exit,
    }
}

/// The operation that a step of the dealer sends to the program, if any.
pub open spec fn dealer_sends(step: DealerStep) -> Option<u8> {
    match step {
        DealerStep::Hit => Some(DEALER_HIT),
        DealerStep::Bust => Some(DEALER_BUSTED),
        DealerStep::Stand => Some(DEALER_STAND),
        DealerStep::Clear => Some(CLEAR_DATA),
        _ => None,
    }
}

/// The wait that a step of the dealer sits in, if any, after it has sent
/// its operation.
pub open spec fn dealer_awaits(step: DealerStep) -> Option<Wait> {
    match step {
        DealerStep::AwaitPlayer => Some(Wait::PlayerDone),
        DealerStep::Hit => Some(Wait::DealerHit),
        _ => None,
    }
}

/// What the dealer picks when left to itself: it stands once its hand is
/// more than the hand the player stood on, and takes a card until then.
pub open spec fn dealer_preference(watch: DealerWatch) -> Choice {
    if watch.dealer_hand > watch.last_player_hand {
        Choice::Stand
    } else {
        Choice::Hit
    }
}

/// The player's first step: it waits for the deal unless the cards are
/// dealt already.
pub open spec fn player_first_step(dealt: bool) -> PlayerStep {
    if dealt {
        PlayerStep::Look
    } else {
        PlayerStep::AwaitDeal
    }
}

/// The player's step after `step`, given the choice that was made if the
/// step asked for one, the hand that was read if the step looked at it, and
/// what the listener has seen by now.
pub open spec fn player_step_after(
    step: PlayerStep,
    choice: Choice,
    opening_hand: u8,
    watch: PlayerWatch,
) -> PlayerStep {
    match step {
        PlayerStep::AwaitDeal => PlayerStep::Look,
        PlayerStep::Look => if opening_hand > BUST_LIMIT {
            PlayerStep::Bust
        } else {
            PlayerStep::Ask
        },
        PlayerStep::Ask => match choice {
            Choice::Hit => PlayerStep::Hit,
            Choice::Stand => PlayerStep::Stand,
            Choice::Exit => PlayerStep::Clear,
            Choice::Other => PlayerStep::Ask,
        },
        PlayerStep::Hit => if watch.busted {
            PlayerStep::Bust
        } else {
            PlayerStep::Ask
        },
        PlayerStep::Bust => PlayerStep::Clear,
        PlayerStep::Stand => PlayerStep::Clear,
        PlayerStep::Clear => PlayerStep::Exit,
        PlayerStep::Exit => PlayerStep::Exit,
    }
}

/// The operation that a step of the player sends to the program, if any.
pub open spec fn player_sends(step: PlayerStep) -> Option<u8> {
    match step {
        PlayerStep::Hit => Some(PLAYER_HIT),
        PlayerStep::Bust => Some(PLAYER_BUSTED),
        PlayerStep::Stand => Some(PLAYER_STAND),
        PlayerStep::Clear => Some(CLEAR_DATA),
        _ => None,
    }
}

/// The wait that a step of the player sits in, if any, after it has sent
/// its operation.
pub open spec fn player_awaits(step: PlayerStep) -> Option<Wait> {
    match step {
        PlayerStep::AwaitDeal => Some(Wait::DeckDealt),
        PlayerStep::Hit => Some(Wait::PlayerHit),
        PlayerStep::Stand => Some(Wait::DealerDone),
        _ => None,
    }
}

/// The operations by which the dealer puts cards on the table, in their
/// order.
pub fn dealer_supply() -> (operations: Vec<u8>)
    ensures
        operations@ == dealer_supplies(),
{
    let mut operations: Vec<u8> = Vec::new();
    operations.push(SEND_DECK);
    operations.push(DEAL);
    assert(operations@ =~= dealer_supplies());
    operations
}

/// The dealer's next step.
pub fn dealer_next(step: DealerStep, choice: Choice, watch: &DealerWatch) -> (next: DealerStep)
    ensures
        next == dealer_step_after(step, choice, *watch),
{
    match step {
        DealerStep::AwaitPlayer => if watch.is_busted {
            DealerStep::Clear
        } else {
            DealerStep::Ask
        },
        DealerStep::Ask => match choice {
            Choice::Hit => DealerStep::Hit,
            Choice::Stand => if watch.dealer_hand > watch.last_player_hand {
                DealerStep::Stand
            } else {
                DealerStep::Ask
            },
            _ => DealerStep::Ask,
        },
        DealerStep::Hit => if watch.is_busted {
            DealerStep::Bust
        } else {
            DealerStep::Ask
        },
        DealerStep::Bust => DealerStep::Clear,
        DealerStep::Stand => DealerStep::Clear,
        DealerStep::Clear => DealerStep::Exit,
        DealerStep::Exit => DealerStep::Exit,
    }
}

/// The operation that the dealer sends in `step`.
pub fn dealer_operation(step: DealerStep) -> (operation: Option<u8>)
    ensures
        operation == dealer_sends(step),
{
    match step {
        DealerStep::Hit => Some(DEALER_HIT),
        DealerStep::Bust => Some(DEALER_BUSTED),
        DealerStep::Stand => Some(DEALER_STAND),
        DealerStep::Clear => Some(CLEAR_DATA),
        _ => None,
    }
}

/// The wait that the dealer sits in at the end of `step`.
pub fn dealer_wait(step: DealerStep) -> (wait: Option<Wait>)
    ensures
        wait == dealer_awaits(step),
{
    match step {
        DealerStep::AwaitPlayer => Some(Wait::PlayerDone),
        DealerStep::Hit => Some(Wait::DealerHit),
        _ => None,
    }
}

/// What the dealer picks when left to itself.
pub fn dealer_choice(watch: &DealerWatch) -> (choice: Choice)
    ensures
        choice == dealer_preference(*watch),
{
    if watch.dealer_hand > watch.last_player_hand {
        Choice::Stand
    } else {
        Choice::Hit
    }
}

/// The player's first step.
pub fn player_start(dealt: bool) -> (step: PlayerStep)
    ensures
        step == player_first_step(dealt),
{
    if dealt {
        PlayerStep::Look
    } else {
        PlayerStep::AwaitDeal
    }
}

/// The player's next step.
pub fn player_next(
    step: PlayerStep,
    choice: Choice,
    opening_hand: u8,
    watch: &PlayerWatch,
) -> (next: PlayerStep)
    ensures
        next == player_step_after(step, choice, opening_hand, *watch),
{
    match step {
        PlayerStep::AwaitDeal => PlayerStep::Look,
        PlayerStep::Look => if opening_hand > BUST_LIMIT {
            PlayerStep::Bust
        } else {
            PlayerStep::Ask
        },
        PlayerStep::Ask => match choice {
            Choice::Hit => PlayerStep::Hit,
            Choice::Stand => PlayerStep::Stand,
            Choice::Exit => PlayerStep::Clear,
            Choice::Other => PlayerStep::Ask,
        },
        PlayerStep::Hit => if watch.busted {
            PlayerStep::Bust
        } else {
            PlayerStep::Ask
        },
        PlayerStep::Bust => PlayerStep::Clear,
        PlayerStep::Stand => PlayerStep::Clear,
        PlayerStep::Clear => PlayerStep::Exit,
        PlayerStep::Exit => PlayerStep::Exit,
    }
}

/// The operation that the player sends in `step`.
pub fn player_operation(step: PlayerStep) -> (operation: Option<u8>)
    ensures
        operation == player_sends(step),
{
    match step {
        PlayerStep::Hit => Some(PLAYER_HIT),
        PlayerStep::Bust => Some(PLAYER_BUSTED),
        PlayerStep::Stand => Some(PLAYER_STAND),
        PlayerStep::Clear => Some(CLEAR_DATA),
        _ => None,
    }
}

/// The wait that the player sits in at the end of `step`.
pub fn player_wait(step: PlayerStep) -> (wait: Option<Wait>)
    ensures
        wait == player_awaits(step),
{
    match step {
        PlayerStep::AwaitDeal => Some(Wait::DeckDealt),
        PlayerStep::Hit => Some(Wait::PlayerHit),
        PlayerStep::Stand => Some(Wait::DealerDone),
        _ => None,
    }
}

/// Neither driver leaves before it has wiped the record: the step before
/// `Exit` is `Clear`, and `Clear` sends `CLEAR_DATA`.
pub proof fn lemma_drivers_clear_before_exit(
    dealer: DealerStep,
    player: PlayerStep,
    choice: Choice,
    opening_hand: u8,
    dealer_watch: DealerWatch,
    player_watch: PlayerWatch,
)
    requires
        dealer != DealerStep::Exit,
        player != PlayerStep::Exit,
    ensures
        dealer_step_after(dealer, choice, dealer_watch) == DealerStep::Exit ==> dealer
            == DealerStep::Clear,
        player_step_after(player, choice, opening_hand, player_watch) == PlayerStep::Exit
            ==> player == PlayerStep::Clear,
        dealer_sends(DealerStep::Clear) == Some(CLEAR_DATA),
        player_sends(PlayerStep::Clear) == Some(CLEAR_DATA),
{
}

/// A dealer that follows its own preference never asks twice in a row: it
/// takes a card while its hand is no more than the player's, and stands as
/// soon as it is more.
pub proof fn lemma_dealer_preference_moves(watch: DealerWatch)
    ensures
        dealer_step_after(DealerStep::Ask, dealer_preference(watch), watch) == if watch.dealer_hand
            > watch.last_player_hand {
            DealerStep::Stand
        } else {
            DealerStep::Hit
        },
{
}

/// A player whose hand a card took over the limit says so next, and to the
/// program it says `PLAYER_BUSTED`.
pub proof fn lemma_player_reports_bust(choice: Choice, opening_hand: u8, watch: PlayerWatch)
    requires
        watch.busted,
    ensures
        player_step_after(PlayerStep::Hit, choice, opening_hand, watch) == PlayerStep::Bust,
        player_sends(PlayerStep::Bust) == Some(PLAYER_BUSTED),
{
}

} // verus!
