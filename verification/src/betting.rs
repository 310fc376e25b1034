//! The betting cycle of a vault: a bet is placed on an idle vault, stays
//! outstanding until it is resolved, and a reset makes the vault idle again.

use crate::error::PlinkoBetError;
use crate::identity::Identity;
use crate::ledger::{checked_credit, checked_debit};
use crate::registry::check_owner;
use crate::state::{GameAccount, GameResult, PlayerAccount};
use vstd::prelude::*;

verus! {

/// The accounts that a bet names: the vault, the player's account, and the
/// caller who claims to own that account.
#[derive(Clone, Copy, Debug, PartialEq, Eq)]
pub struct PlaceBet {
    pub game_account: GameAccount,
    pub player_account: PlayerAccount,
    pub signer: Identity,
}

/// The account that a reset names: the vault.
#[derive(Clone, Copy, Debug, PartialEq, Eq)]
pub struct ResetGame {
    pub game_account: GameAccount,
}

impl PlaceBet {
    /// Why a bet of `bet_amount` is refused, if it is. The amount must be
    /// positive, the vault idle, the caller the account's owner, the balance
    /// large enough, and the custody able to take the amount.
    pub open spec fn rejection(self, bet_amount: u64) -> Option<PlinkoBetError> {
        if bet_amount == 0 {
            Some(PlinkoBetError::InvalidBetAmount)
        } else if !self.game_account.spec_accepts_bet() {
            Some(PlinkoBetError::InvalidGameState)
        } else if self.player_account.player != self.signer {
            Some(PlinkoBetError::Unauthorized)
        } else if bet_amount > self.player_account.balance {
            Some(PlinkoBetError::InsufficientBalance)
        } else if self.game_account.custody + bet_amount > u64::MAX {
            Some(PlinkoBetError::Overflow)
        } else {
            None
        }
    }

    /// The accounts after a bet of `bet_amount` that was not refused: the
    /// amount has moved from the player's balance into the custody, and the
    /// vault holds the bet, pending.
    pub open spec fn placed(self, bet_amount: u64) -> PlaceBet {
        PlaceBet {
            game_account: GameAccount {
                bet_amount,
                result: GameResult::Pending,
                multiplier: 0,
                custody: (self.game_account.custody + bet_amount) as u64,
            },
            player_account: PlayerAccount {
                player: self.player_account.player,
                balance: (self.player_account.balance - bet_amount) as u64,
            },
            signer: self.signer,
        }
    }
}

/// Places a bet of `bet_amount` on the vault in the name of the player's
/// account. All tests come before the first change, so a refused bet leaves
/// every field as it was.
pub fn place_bet(ctx: &mut PlaceBet, bet_amount: u64) -> (r: Result<(), PlinkoBetError>)
    ensures
        match r {
            Ok(()) => {
                &&& old(ctx).rejection(bet_amount) is None
                &&& *final(ctx) == old(ctx).placed(bet_amount)
            },
            Err(e) => {
                &&& old(ctx).rejection(bet_amount) == Some(e)
                &&& *final(ctx) == *old(ctx)
            },
        },
{
    if bet_amount == 0 {
        return Err(PlinkoBetError::InvalidBetAmount);
    }
    if !ctx.game_account.accepts_bet() {
        return Err(PlinkoBetError::InvalidGameState);
    }
    match check_owner(&ctx.player_account, &ctx.signer) {
        Ok(()) => {},
        Err(e) => {
            return Err(e);
        },
    }
    let balance: u64 = match checked_debit(ctx.player_account.balance, bet_amount) {
        Ok(rest) => rest,
        Err(_) => {
            return Err(PlinkoBetError::InsufficientBalance);
        },
    };
    let custody: u64 = match checked_credit(ctx.game_account.custody, bet_amount) {
        Ok(sum) => sum,
        Err(e) => {
            return Err(e);
        },
    };
    ctx.player_account.balance = balance;
    ctx.game_account.custody = custody;
    ctx.game_account.bet_amount = bet_amount;
    ctx.game_account.result = GameResult::Pending;
    ctx.game_account.multiplier = 0;
    Ok(())
}

/// Clears the vault's bet, outcome and multiplier, whatever they were, so
/// that a new bet can be placed. The custody is not touched. A reset is
/// never refused.
pub fn reset_game(ctx: &mut ResetGame) -> (r: Result<(), PlinkoBetError>)
    ensures
        r is Ok,
        final(ctx).game_account == old(ctx).game_account.cleared(),
{
    ctx.game_account.bet_amount = 0;
    ctx.game_account.result = GameResult::Pending;
    ctx.game_account.multiplier = 0;
    Ok(())
}

} // verus!
