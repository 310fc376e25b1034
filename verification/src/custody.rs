//! Funds that cross the ledger's edge: top-ups of the vault, reading its
//! custody, and paying a player's balance out.

use crate::error::PlinkoBetError;
use crate::identity::Identity;
use crate::ledger::{checked_credit, checked_debit};
use crate::registry::check_owner;
use crate::state::{GameAccount, PlayerAccount};
use vstd::prelude::*;

verus! {

/// What a top-up names: the vault, and the funds of the payer.
#[derive(Clone, Copy, Debug, PartialEq, Eq)]
pub struct TopUpGameAccount {
    pub game_account: GameAccount,
    pub payer_funds: u64,
}

/// What reading the custody names: the vault.
#[derive(Clone, Copy, Debug, PartialEq, Eq)]
pub struct CheckBalance {
    pub game_account: GameAccount,
}

/// What closing names: the player's account, the caller who claims to own
/// it, and the owner's funds outside the ledger, which take the balance.
#[derive(Clone, Copy, Debug, PartialEq, Eq)]
pub struct ClosePlayerAccount {
    pub player_account: PlayerAccount,
    pub signer: Identity,
    pub owner_funds: u64,
}

impl TopUpGameAccount {
    /// Why a top-up of `amount` is refused, if it is: the payer lacks the
    /// funds, or the custody cannot take them. The state of the bet plays no
    /// part.
    pub open spec fn rejection(self, amount: u64) -> Option<PlinkoBetError> {
        if amount > self.payer_funds {
            Some(PlinkoBetError::InsufficientFunds)
        } else if self.game_account.custody + amount > u64::MAX {
            Some(PlinkoBetError::Overflow)
        } else {
            None
        }
    }

    /// The state after a top-up of `amount`: the amount has moved from the
    /// payer into the custody, and the bet is as it was.
    pub open spec fn topped_up(self, amount: u64) -> TopUpGameAccount {
        TopUpGameAccount {
            game_account: GameAccount {
                bet_amount: self.game_account.bet_amount,
                result: self.game_account.result,
                multiplier: self.game_account.multiplier,
                custody: (self.game_account.custody + amount) as u64,
            },
            payer_funds: (self.payer_funds - amount) as u64,
        }
    }
}

impl ClosePlayerAccount {
    /// Why closing is refused, if it is: the caller does not own the
    /// account, or the owner's funds cannot take the balance.
    pub open spec fn rejection(self) -> Option<PlinkoBetError> {
        if self.player_account.player != self.signer {
            Some(PlinkoBetError::Unauthorized)
        } else if self.owner_funds + self.player_account.balance > u64::MAX {
            Some(PlinkoBetError::Overflow)
        } else {
            None
        }
    }

    /// The state after closing: the whole balance has moved to the owner,
    /// and the account holds nothing.
    pub open spec fn closed(self) -> ClosePlayerAccount {
        ClosePlayerAccount {
            player_account: PlayerAccount { player: self.player_account.player, balance: 0 },
            signer: self.signer,
            owner_funds: (self.owner_funds + self.player_account.balance) as u64,
        }
    }
}

/// Moves `amount` from the payer into the vault's custody, in whatever
/// state the bet is.
pub fn top_up_game_account(ctx: &mut TopUpGameAccount, amount: u64) -> (r: Result<
    (),
    PlinkoBetError,
>)
    ensures
        match r {
            Ok(()) => {
                &&& old(ctx).rejection(amount) is None
                &&& *final(ctx) == old(ctx).topped_up(amount)
            },
            Err(e) => {
                &&& old(ctx).rejection(amount) == Some(e)
                &&& *final(ctx) == *old(ctx)
            },
        },
{
    let rest: u64 = match checked_debit(ctx.payer_funds, amount) {
        Ok(rest) => rest,
        Err(_) => {
            return Err(PlinkoBetError::InsufficientFunds);
        },
    };
    let custody: u64 = match checked_credit(ctx.game_account.custody, amount) {
        Ok(sum) => sum,
        Err(e) => {
            return Err(e);
        },
    };
    ctx.payer_funds = rest;
    ctx.game_account.custody = custody;
    Ok(())
}

/// The funds in the vault's custody.
pub fn check_balance(ctx: &CheckBalance) -> (custody: u64)
    ensures
        custody == ctx.game_account.custody,
{
    ctx.game_account.custody
}

/// Pays the account's whole balance out to its owner and leaves the account
/// empty.
pub fn close_player_account(ctx: &mut ClosePlayerAccount) -> (r: Result<(), PlinkoBetError>)
    ensures
        match r {
            Ok(()) => {
                &&& old(ctx).rejection() is None
                &&& *final(ctx) == old(ctx).closed()
            },
            Err(e) => {
                &&& old(ctx).rejection() == Some(e)
                &&& *final(ctx) == *old(ctx)
            },
        },
{
    match check_owner(&ctx.player_account, &ctx.signer) {
        Ok(()) => {},
        Err(e) => {
            return Err(e);
        },
    }
    let funds: u64 = match checked_credit(ctx.owner_funds, ctx.player_account.balance) {
        Ok(sum) => sum,
        Err(e) => {
            return Err(e);
        },
    };
    ctx.owner_funds = funds;
    ctx.player_account.balance = 0;
    Ok(())
}

} // verus!
