//! What holds of the ledger across its operations. Each theorem is stated
//! over the same functions that the operations' contracts are stated over.

use crate::accounts::Accounts;
use crate::betting::PlaceBet;
use crate::custody::{ClosePlayerAccount, TopUpGameAccount};
use crate::error::PlinkoBetError;
use crate::registry::{InitializeGame, InitializePlayer};
use crate::settlement::DetermineResult;
use crate::identity::Identity;
use crate::state::{GameAccount, GameResult, PlayerAccount};
use vstd::prelude::*;

verus! {

/// An accepted bet takes exactly the amount from the player's balance and
/// adds exactly that amount to the custody. The account keeps its owner, and
/// the vault holds the amount as its pending bet.
pub proof fn lemma_bet_moves_exactly_the_amount(before: PlaceBet, bet_amount: u64)
    requires
        before.rejection(bet_amount) is None,
    ensures
        before.placed(bet_amount).player_account.balance == before.player_account.balance
            - bet_amount,
        before.placed(bet_amount).player_account.player == before.player_account.player,
        before.placed(bet_amount).game_account.custody == before.game_account.custody
            + bet_amount,
        before.placed(bet_amount).game_account.bet_amount == bet_amount,
        before.placed(bet_amount).game_account.result == GameResult::Pending,
        before.placed(bet_amount).game_account.multiplier == 0,
        before.placed(bet_amount).player_account.balance + before.placed(
            bet_amount,
        ).game_account.custody == before.player_account.balance + before.game_account.custody,
{
}

/// A bet is accepted exactly when the amount is positive, the vault idle,
/// the caller the owner, the balance sufficient, and the custody has room.
pub proof fn lemma_bet_accepted_iff(before: PlaceBet, bet_amount: u64)
    ensures
        before.rejection(bet_amount) is None <==> {
            &&& bet_amount > 0
            &&& before.game_account.bet_amount == 0
            &&& before.game_account.result == GameResult::Pending
            &&& before.player_account.player == before.signer
            &&& bet_amount <= before.player_account.balance
            &&& before.game_account.custody + bet_amount <= u64::MAX
        },
{
}

/// While a vault holds a bet, every further bet of a positive amount is
/// refused as `InvalidGameState`, whoever places it.
pub proof fn lemma_outstanding_bet_excludes_another(next: PlaceBet, bet_amount: u64)
    requires
        next.game_account.bet_amount != 0,
        bet_amount > 0,
    ensures
        next.rejection(bet_amount) == Some(PlinkoBetError::InvalidGameState),
{
}

/// After an accepted bet, a second bet on the same vault is refused as
/// `InvalidGameState`, whatever positive amount and whichever player it
/// names.
pub proof fn lemma_second_bet_is_refused(first: PlaceBet, first_amount: u64, second: PlaceBet, second_amount: u64)
    requires
        first.rejection(first_amount) is None,
        second.game_account == first.placed(first_amount).game_account,
        second_amount > 0,
    ensures
        second.rejection(second_amount) == Some(PlinkoBetError::InvalidGameState),
{
}

/// A resolved vault takes no bet until it is reset, even where its bet
/// amount is zero.
pub proof fn lemma_resolved_vault_takes_no_bet(next: PlaceBet, bet_amount: u64)
    requires
        next.game_account.spec_is_resolved(),
        bet_amount > 0,
    ensures
        next.rejection(bet_amount) == Some(PlinkoBetError::InvalidGameState),
{
}

/// Writing the accounts of an accepted bet back to a registry changes the
/// bettor's balance by exactly the amount and no other owner's account:
/// whoever had an account has it unchanged, and whoever had none has none.
pub proof fn lemma_bet_changes_no_other_account(
    accounts: Accounts,
    before: PlaceBet,
    bet_amount: u64,
    other: Identity,
)
    requires
        before.rejection(bet_amount) is None,
        accounts.player_account(before.player_account.player) == Some(before.player_account),
        other != before.player_account.player,
    ensures
        accounts.with_player(before.placed(bet_amount).player_account).player_account(other)
            == accounts.player_account(other),
        accounts.with_player(before.placed(bet_amount).player_account).player_account(
            before.player_account.player,
        ) == Some(
            PlayerAccount {
                player: before.player_account.player,
                balance: (before.player_account.balance - bet_amount) as u64,
            },
        ),
{
}

/// An owner has at most one account: once the registry holds an account of
/// an owner, opening another for that owner is `AlreadyInitialized`,
/// whatever balance is asked for, and every other owner's account is as it
/// was.
pub proof fn lemma_owner_has_one_account(
    accounts: Accounts,
    account: PlayerAccount,
    again: InitializePlayer,
    initial_balance: u64,
    other: Identity,
)
    requires
        again.player_account == accounts.with_player(account).player_account(account.player),
        other != account.player,
    ensures
        again.rejection(initial_balance) == Some(PlinkoBetError::AlreadyInitialized),
        accounts.with_player(account).player_account(account.player) == Some(account),
        accounts.with_player(account).player_account(other) == accounts.player_account(other),
        accounts.with_player(account).game_account == accounts.game_account,
{
}

/// A settlement by anyone but the resolver is `Unauthorized`, whatever the
/// state of the vault and whatever the multiplier.
pub proof fn lemma_only_the_resolver_settles(before: DetermineResult, multiplier: u64)
    requires
        before.signer != before.authority,
    ensures
        before.rejection(multiplier) == Some(PlinkoBetError::Unauthorized),
{
}

/// The resolver's settlement of a pending bet under a multiplier of at most
/// one is a loss: it is never refused, records the loss and the multiplier,
/// pays nothing, and leaves balance, custody and bet amount as they were.
pub proof fn lemma_loss_moves_nothing(before: DetermineResult, multiplier: u64)
    requires
        before.signer == before.authority,
        before.game_account.result == GameResult::Pending,
        multiplier <= 1,
    ensures
        before.rejection(multiplier) is None,
        before.payout(multiplier) == 0,
        before.settled(multiplier).game_account.result == GameResult::Loss,
        before.settled(multiplier).game_account.multiplier == multiplier,
        before.settled(multiplier).game_account.custody == before.game_account.custody,
        before.settled(multiplier).game_account.bet_amount == before.game_account.bet_amount,
        before.settled(multiplier).player_account == before.player_account,
{
}

/// The resolver's settlement of a pending bet under a multiplier above one
/// is a win, provided the custody covers the bet times the multiplier and
/// the player's balance can take it: the win and the multiplier are
/// recorded, the custody falls by exactly that product and the balance
/// rises by it.
pub proof fn lemma_win_pays_bet_times_multiplier(before: DetermineResult, multiplier: u64)
    requires
        before.signer == before.authority,
        before.game_account.result == GameResult::Pending,
        multiplier > 1,
        before.game_account.bet_amount * multiplier <= before.game_account.custody,
        before.player_account.balance + before.game_account.bet_amount * multiplier <= u64::MAX,
    ensures
        before.rejection(multiplier) is None,
        before.payout(multiplier) == before.game_account.bet_amount * multiplier,
        before.settled(multiplier).game_account.result == GameResult::Win,
        before.settled(multiplier).game_account.multiplier == multiplier,
        before.settled(multiplier).game_account.bet_amount == before.game_account.bet_amount,
        before.settled(multiplier).game_account.custody == before.game_account.custody
            - before.game_account.bet_amount * multiplier,
        before.settled(multiplier).player_account.balance == before.player_account.balance
            + before.game_account.bet_amount * multiplier,
        before.settled(multiplier).player_account.player == before.player_account.player,
{
}

/// Where the bet times the multiplier does not fit in 64 bits, the
/// resolver's settlement of a pending bet is refused as `Overflow`.
pub proof fn lemma_oversized_payout_is_overflow(before: DetermineResult, multiplier: u64)
    requires
        before.signer == before.authority,
        before.game_account.result == GameResult::Pending,
        before.game_account.bet_amount * multiplier > u64::MAX,
    ensures
        before.rejection(multiplier) == Some(PlinkoBetError::Overflow),
{
    assert(multiplier > 1) by (nonlinear_arith)
        requires
            before.game_account.bet_amount * multiplier > u64::MAX,
            before.game_account.bet_amount <= u64::MAX,
    ;
}

/// A winning payout that the custody does not cover is refused as
/// `InsufficientFunds`: nothing is ever paid that the vault does not hold.
pub proof fn lemma_uncovered_payout_is_refused(before: DetermineResult, multiplier: u64)
    requires
        before.signer == before.authority,
        before.game_account.result == GameResult::Pending,
        multiplier > 1,
        before.game_account.custody < before.game_account.bet_amount * multiplier <= u64::MAX,
    ensures
        before.rejection(multiplier) == Some(PlinkoBetError::InsufficientFunds),
{
}

/// An accepted settlement pays no more than the custody held, moves funds
/// only between the custody and the player, and leaves the vault resolved.
pub proof fn lemma_settlement_conserves_funds(before: DetermineResult, multiplier: u64)
    requires
        before.rejection(multiplier) is None,
    ensures
        0 <= before.payout(multiplier) <= before.game_account.custody,
        before.settled(multiplier).game_account.custody + before.settled(
            multiplier,
        ).player_account.balance == before.game_account.custody + before.player_account.balance,
        before.settled(multiplier).game_account.spec_is_resolved(),
        before.settled(multiplier).game_account.result == GameResult::spec_of_multiplier(
            multiplier,
        ),
{
}

/// A bet is resolved once: after an accepted settlement every further
/// settlement of the same vault is refused, as `InvalidGameState` where the
/// resolver asks for it.
pub proof fn lemma_bet_is_settled_once(
    first: DetermineResult,
    first_multiplier: u64,
    second: DetermineResult,
    second_multiplier: u64,
)
    requires
        first.rejection(first_multiplier) is None,
        second.game_account == first.settled(first_multiplier).game_account,
    ensures
        second.rejection(second_multiplier) is Some,
        second.signer == second.authority ==> second.rejection(second_multiplier) == Some(
            PlinkoBetError::InvalidGameState,
        ),
{
}

/// A reset yields the same vault whatever the bet, outcome and multiplier
/// were: no bet, pending, multiplier zero, custody untouched. The vault then
/// accepts a bet, and a second reset changes nothing.
pub proof fn lemma_reset_returns_to_idle(vault: GameAccount)
    ensures
        vault.cleared().bet_amount == 0,
        vault.cleared().result == GameResult::Pending,
        vault.cleared().multiplier == 0,
        vault.cleared().custody == vault.custody,
        vault.cleared().spec_accepts_bet(),
        vault.cleared().cleared() == vault.cleared(),
{
}

/// A top-up changes neither the bet nor its outcome, and the funds it adds
/// to the custody are exactly those that the payer gives up.
pub proof fn lemma_top_up_leaves_the_bet(before: TopUpGameAccount, amount: u64)
    requires
        before.rejection(amount) is None,
    ensures
        before.topped_up(amount).game_account.bet_amount == before.game_account.bet_amount,
        before.topped_up(amount).game_account.result == before.game_account.result,
        before.topped_up(amount).game_account.multiplier == before.game_account.multiplier,
        before.topped_up(amount).game_account.custody == before.game_account.custody + amount,
        before.topped_up(amount).payer_funds == before.payer_funds - amount,
{
}

/// A vault is opened idle, holding exactly the funding that the payer gave,
/// and cannot be opened a second time.
pub proof fn lemma_vault_is_opened_once(before: InitializeGame, initial_funding: u64, again: u64)
    requires
        before.rejection(initial_funding) is None,
    ensures
        before.opened(initial_funding).game_account == Some(
            GameAccount::spec_idle(initial_funding),
        ),
        before.opened(initial_funding).payer_funds == before.payer_funds - initial_funding,
        before.opened(initial_funding).rejection(again) == Some(
            PlinkoBetError::AlreadyInitialized,
        ),
{
}

/// A player's account is opened with the caller as its owner and a positive
/// balance, and cannot be opened a second time.
pub proof fn lemma_player_is_opened_once(before: InitializePlayer, initial_balance: u64, again: u64)
    requires
        before.rejection(initial_balance) is None,
    ensures
        initial_balance > 0,
        before.opened(initial_balance).player_account matches Some(account) && account.player
            == before.signer && account.balance == initial_balance,
        before.opened(initial_balance).rejection(again) == Some(
            PlinkoBetError::AlreadyInitialized,
        ),
{
}

/// Closing pays out exactly the balance, and is final: no bet can be placed
/// from a closed account.
pub proof fn lemma_closed_account_places_no_bet(before: ClosePlayerAccount, next: PlaceBet, bet_amount: u64)
    requires
        before.rejection() is None,
        next.player_account == before.closed().player_account,
    ensures
        before.closed().player_account.balance == 0,
        before.closed().owner_funds == before.owner_funds + before.player_account.balance,
        next.rejection(bet_amount) is Some,
{
}

} // verus!
