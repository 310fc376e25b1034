//! Opening accounts, and the ownership test that guards them afterwards.

use crate::error::PlinkoBetError;
use crate::identity::Identity;
use crate::ledger::checked_debit;
use crate::state::{GameAccount, PlayerAccount};
use vstd::prelude::*;

verus! {

/// What opening the vault names: the place where the vault is kept, empty
/// until it is opened, and the funds of the payer who makes the first
/// deposit.
#[derive(Clone, Copy, Debug, PartialEq, Eq)]
pub struct InitializeGame {
    pub game_account: Option<GameAccount>,
    pub payer_funds: u64,
}

/// What opening a player's account names: the place where the account is
/// kept, empty until it is opened, the caller who will own it, and the
/// highest opening balance that the deployment admits, if it sets one.
#[derive(Clone, Copy, Debug, PartialEq, Eq)]
pub struct InitializePlayer {
    pub player_account: Option<PlayerAccount>,
    pub signer: Identity,
    pub balance_cap: Option<u64>,
}

impl InitializeGame {
    /// Why opening the vault with `initial_funding` is refused, if it is:
    /// the vault exists, or the payer cannot fund it.
    pub open spec fn rejection(self, initial_funding: u64) -> Option<PlinkoBetError> {
        if self.game_account is Some {
            Some(PlinkoBetError::AlreadyInitialized)
        } else if initial_funding > self.payer_funds {
            Some(PlinkoBetError::InsufficientFunds)
        } else {
            None
        }
    }

    /// The state after the vault was opened: an idle vault that holds the
    /// funding, which the payer no longer has.
    pub open spec fn opened(self, initial_funding: u64) -> InitializeGame {
        InitializeGame {
            game_account: Some(GameAccount::spec_idle(initial_funding)),
            payer_funds: (self.payer_funds - initial_funding) as u64,
        }
    }
}

impl InitializePlayer {
    /// An opening balance is admitted when it is positive and not above the
    /// cap, where there is one.
    pub open spec fn admits(self, initial_balance: u64) -> bool {
        &&& initial_balance > 0
        &&& self.balance_cap matches Some(cap) ==> initial_balance <= cap
    }

    /// Why opening the account with `initial_balance` is refused, if it is:
    /// the account exists, or the balance is not admitted.
    pub open spec fn rejection(self, initial_balance: u64) -> Option<PlinkoBetError> {
        if self.player_account is Some {
            Some(PlinkoBetError::AlreadyInitialized)
        } else if !self.admits(initial_balance) {
            Some(PlinkoBetError::InvalidInitialBalance)
        } else {
            None
        }
    }

    /// The state after the account was opened: it belongs to the caller and
    /// holds the opening balance.
    pub open spec fn opened(self, initial_balance: u64) -> InitializePlayer {
        InitializePlayer {
            player_account: Some(PlayerAccount { player: self.signer, balance: initial_balance }),
            signer: self.signer,
            balance_cap: self.balance_cap,
        }
    }
}

/// Opens the vault, idle, and moves `initial_funding` from the payer into
/// its custody. An existing vault is never overwritten.
pub fn initialize_game(ctx: &mut InitializeGame, initial_funding: u64) -> (r: Result<
    GameAccount,
    PlinkoBetError,
>)
    ensures
        match r {
            Ok(vault) => {
                &&& old(ctx).rejection(initial_funding) is None
                &&& *final(ctx) == old(ctx).opened(initial_funding)
                &&& vault == GameAccount::spec_idle(initial_funding)
            },
            Err(e) => {
                &&& old(ctx).rejection(initial_funding) == Some(e)
                &&& *final(ctx) == *old(ctx)
            },
        },
{
    if ctx.game_account.is_some() {
        return Err(PlinkoBetError::AlreadyInitialized);
    }
    let rest: u64 = match checked_debit(ctx.payer_funds, initial_funding) {
        Ok(rest) => rest,
        Err(_) => {
            return Err(PlinkoBetError::InsufficientFunds);
        },
    };
    let vault = GameAccount::idle(initial_funding);
    ctx.game_account = Some(vault);
    ctx.payer_funds = rest;
    Ok(vault)
}

/// Opens the caller's account with `initial_balance`. An existing account is
/// never overwritten.
pub fn initialize_player(ctx: &mut InitializePlayer, initial_balance: u64) -> (r: Result<
    PlayerAccount,
    PlinkoBetError,
>)
    ensures
        match r {
            Ok(account) => {
                &&& old(ctx).rejection(initial_balance) is None
                &&& *final(ctx) == old(ctx).opened(initial_balance)
                &&& account == (PlayerAccount { player: old(ctx).signer, balance: initial_balance })
            },
            Err(e) => {
                &&& old(ctx).rejection(initial_balance) == Some(e)
                &&& *final(ctx) == *old(ctx)
            },
        },
{
    if ctx.player_account.is_some() {
        return Err(PlinkoBetError::AlreadyInitialized);
    }
    if initial_balance == 0 {
        return Err(PlinkoBetError::InvalidInitialBalance);
    }
    match ctx.balance_cap {
        Some(cap) => {
            if initial_balance > cap {
                return Err(PlinkoBetError::InvalidInitialBalance);
            }
        },
        None => {},
    }
    let account = PlayerAccount { player: ctx.signer, balance: initial_balance };
    ctx.player_account = Some(account);
    Ok(account)
}

/// Tests that `claimed` owns `account`; any other identity is
/// `Unauthorized`.
pub fn check_owner(account: &PlayerAccount, claimed: &Identity) -> (r: Result<(), PlinkoBetError>)
    ensures
        match r {
            Ok(()) => account.player == *claimed,
            Err(e) => account.player != *claimed && e == PlinkoBetError::Unauthorized,
        },
{
    if account.is_owned_by(*claimed) {
        Ok(())
    } else {
        Err(PlinkoBetError::Unauthorized)
    }
}

} // verus!
