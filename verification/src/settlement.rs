//! Settlement: the resolver ends a pending bet against a multiplier, and a
//! winning bet is paid out of the vault's custody.

use crate::error::PlinkoBetError;
use crate::identity::Identity;
use crate::ledger::{checked_credit, checked_debit, checked_multiply};
use crate::state::{GameAccount, GameResult, PlayerAccount};
use vstd::prelude::*;

verus! {

/// The accounts that a settlement names: the vault, the player who is paid,
/// the resolver that the deployment is configured with, and the caller.
#[derive(Clone, Copy, Debug, PartialEq, Eq)]
pub struct DetermineResult {
    pub game_account: GameAccount,
    pub player_account: PlayerAccount,
    pub authority: Identity,
    pub signer: Identity,
}

/// What a settlement decided: the outcome and the amount paid to the player.
#[derive(Clone, Copy, Debug, PartialEq, Eq)]
pub struct Settlement {
    pub result: GameResult,
    pub payout: u64,
}

impl DetermineResult {
    /// The amount that the bet pays under `multiplier`: the bet times the
    /// multiplier on a win, nothing on a loss.
    pub open spec fn payout(self, multiplier: u64) -> int {
        if multiplier > 1 {
            self.game_account.bet_amount * multiplier
        } else {
            0
        }
    }

    /// Why a settlement under `multiplier` is refused, if it is. The caller
    /// must be the resolver and the bet pending; a winning payout must fit in
    /// 64 bits, be covered by the custody, and fit on top of the balance.
    pub open spec fn rejection(self, multiplier: u64) -> Option<PlinkoBetError> {
        if self.signer != self.authority {
            Some(PlinkoBetError::Unauthorized)
        } else if self.game_account.result != GameResult::Pending {
            Some(PlinkoBetError::InvalidGameState)
        } else if self.payout(multiplier) > u64::MAX {
            Some(PlinkoBetError::Overflow)
        } else if self.payout(multiplier) > self.game_account.custody {
            Some(PlinkoBetError::InsufficientFunds)
        } else if self.player_account.balance + self.payout(multiplier) > u64::MAX {
            Some(PlinkoBetError::Overflow)
        } else {
            None
        }
    }

    /// The accounts after a settlement under `multiplier` that was not
    /// refused: the outcome and the multiplier are recorded, and the payout
    /// has moved from the custody to the player. The bet amount stays until
    /// the vault is reset.
    pub open spec fn settled(self, multiplier: u64) -> DetermineResult {
        DetermineResult {
            game_account: GameAccount {
                bet_amount: self.game_account.bet_amount,
                result: GameResult::spec_of_multiplier(multiplier),
                multiplier,
                custody: (self.game_account.custody - self.payout(multiplier)) as u64,
            },
            player_account: PlayerAccount {
                player: self.player_account.player,
                balance: (self.player_account.balance + self.payout(multiplier)) as u64,
            },
            authority: self.authority,
            signer: self.signer,
        }
    }
}

/// Resolves the pending bet. A multiplier above one wins and pays the bet
/// times the multiplier from the custody to the player; any other multiplier
/// loses and moves nothing. Every test comes before the first change, so a
/// refused settlement leaves the bet pending and all funds in place.
pub fn determine_result(ctx: &mut DetermineResult, multiplier: u64) -> (r: Result<
    Settlement,
    PlinkoBetError,
>)
    ensures
        match r {
            Ok(settlement) => {
                &&& old(ctx).rejection(multiplier) is None
                &&& *final(ctx) == old(ctx).settled(multiplier)
                &&& settlement.result == GameResult::spec_of_multiplier(multiplier)
                &&& settlement.payout == old(ctx).payout(multiplier)
            },
            Err(e) => {
                &&& old(ctx).rejection(multiplier) == Some(e)
                &&& *final(ctx) == *old(ctx)
            },
        },
{
    if !ctx.signer.same_as(&ctx.authority) {
        return Err(PlinkoBetError::Unauthorized);
    }
    if !ctx.game_account.is_pending() {
        return Err(PlinkoBetError::InvalidGameState);
    }
    let result = GameResult::of_multiplier(multiplier);
    let mut payout: u64 = 0;
    let mut custody: u64 = ctx.game_account.custody;
    let mut balance: u64 = ctx.player_account.balance;
    if multiplier > 1 {
        payout =
        match checked_multiply(ctx.game_account.bet_amount, multiplier) {
            Ok(product) => product,
            Err(e) => {
                return Err(e);
            },
        };
        custody =
        match checked_debit(custody, payout) {
            Ok(rest) => rest,
            Err(_) => {
                return Err(PlinkoBetError::InsufficientFunds);
            },
        };
        balance =
        match checked_credit(balance, payout) {
            Ok(sum) => sum,
            Err(e) => {
                return Err(e);
            },
        };
    }
    ctx.game_account.result = result;
    ctx.game_account.multiplier = multiplier;
    ctx.game_account.custody = custody;
    ctx.player_account.balance = balance;
    Ok(Settlement { result, payout })
}

} // verus!
