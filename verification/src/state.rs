//! The records that the ledger keeps: the vault and the players.

use crate::identity::Identity;
use vstd::prelude::*;

verus! {

/// The outcome of the bet that a vault holds.
#[derive(Clone, Copy, Debug, PartialEq, Eq, Structural)]
pub enum GameResult {
    Pending,
    Win,
    Loss,
}

impl GameResult {
    /// The number under which the outcome is stored in a record.
    pub open spec fn spec_code(self) -> u8 {
        match self {
            GameResult::Pending => 0,
            GameResult::Win => 1,
            GameResult::Loss => 2,
        }
    }

    /// The outcome that a multiplier stands for: above one wins, else loses.
    pub open spec fn spec_of_multiplier(multiplier: u64) -> GameResult {
        if multiplier > 1 {
            GameResult::Win
        } else {
            GameResult::Loss
        }
    }

    #[verifier::when_used_as_spec(spec_code)]
    pub fn code(self) -> (code: u8)
        ensures
            code == self.spec_code(),
    {
        match self {
            GameResult::Pending => 0,
            GameResult::Win => 1,
            GameResult::Loss => 2,
        }
    }

    /// Reads a stored number back; only 0, 1 and 2 stand for an outcome.
    pub fn from_code(code: u8) -> (result: Option<GameResult>)
        ensures
            match result {
                Some(outcome) => outcome.spec_code() == code,
                None => code > 2,
            },
    {
        if code == 0 {
            Some(GameResult::Pending)
        } else if code == 1 {
            Some(GameResult::Win)
        } else if code == 2 {
            Some(GameResult::Loss)
        } else {
            None
        }
    }

    #[verifier::when_used_as_spec(spec_of_multiplier)]
    pub fn of_multiplier(multiplier: u64) -> (result: GameResult)
        ensures
            result == GameResult::spec_of_multiplier(multiplier),
    {
        if multiplier > 1 {
            GameResult::Win
        } else {
            GameResult::Loss
        }
    }
}

/// The vault: the bet it holds, how that bet ended, and the funds in its
/// custody. Custody grows by funding, top-ups and escrowed bets and shrinks
/// by paid winnings.
#[derive(Clone, Copy, Debug, PartialEq, Eq)]
pub struct GameAccount {
    pub bet_amount: u64,
    pub result: GameResult,
    pub multiplier: u64,
    pub custody: u64,
}

impl GameAccount {
    /// A fresh vault: no bet, nothing resolved, `custody` in its keeping.
    pub open spec fn spec_idle(custody: u64) -> GameAccount {
        GameAccount { bet_amount: 0, result: GameResult::Pending, multiplier: 0, custody }
    }

    /// No bet is outstanding and none awaits a reset: a bet may be placed.
    pub open spec fn spec_accepts_bet(&self) -> bool {
        self.bet_amount == 0 && self.result == GameResult::Pending
    }

    /// The bet has not been resolved yet.
    pub open spec fn spec_is_pending(&self) -> bool {
        self.result == GameResult::Pending
    }

    /// The bet was resolved; only a reset leaves this state.
    pub open spec fn spec_is_resolved(&self) -> bool {
        self.result == GameResult::Win || self.result == GameResult::Loss
    }

    /// The same vault with its bet cleared; custody stays.
    pub open spec fn cleared(self) -> GameAccount {
        GameAccount::spec_idle(self.custody)
    }

    #[verifier::when_used_as_spec(spec_idle)]
    pub fn idle(custody: u64) -> (vault: GameAccount)
        ensures
            vault == GameAccount::spec_idle(custody),
    {
        GameAccount { bet_amount: 0, result: GameResult::Pending, multiplier: 0, custody }
    }

    #[verifier::when_used_as_spec(spec_accepts_bet)]
    pub fn accepts_bet(&self) -> (yes: bool)
        ensures
            yes == self.spec_accepts_bet(),
    {
        self.bet_amount == 0 && self.result == GameResult::Pending
    }

    #[verifier::when_used_as_spec(spec_is_pending)]
    pub fn is_pending(&self) -> (yes: bool)
        ensures
            yes == self.spec_is_pending(),
    {
        self.result == GameResult::Pending
    }

    #[verifier::when_used_as_spec(spec_is_resolved)]
    pub fn is_resolved(&self) -> (yes: bool)
        ensures
            yes == self.spec_is_resolved(),
    {
        self.result == GameResult::Win || self.result == GameResult::Loss
    }
}

/// A player's account: who owns it and what it holds.
#[derive(Clone, Copy, Debug, PartialEq, Eq)]
pub struct PlayerAccount {
    pub player: Identity,
    pub balance: u64,
}

impl PlayerAccount {
    /// The account is `claimed`'s own.
    pub open spec fn spec_is_owned_by(&self, claimed: Identity) -> bool {
        self.player == claimed
    }

    #[verifier::when_used_as_spec(spec_is_owned_by)]
    pub fn is_owned_by(&self, claimed: Identity) -> (yes: bool)
        ensures
            yes == self.spec_is_owned_by(claimed),
    {
        self.player.same_as(&claimed)
    }
}

} // verus!
