use vstd::prelude::*;

verus! {

/// Why an operation was rejected. A rejected operation changes nothing.
#[derive(Clone, Copy, Debug, PartialEq, Eq, Structural)]
pub enum PlinkoBetError {
    /// The bet amount is zero.
    InvalidBetAmount,
    /// The caller is neither the owner of the account nor the resolver.
    Unauthorized,
    /// A sum or product does not fit in 64 bits.
    Overflow,
    /// A bet is already outstanding, or the bet was already resolved.
    InvalidGameState,
    /// The paying side does not hold the funds that have to move.
    InsufficientFunds,
    /// A difference would fall below zero.
    Underflow,
    /// The opening balance of a player is zero or above the cap.
    InvalidInitialBalance,
    /// The bet amount exceeds the player's balance.
    InsufficientBalance,
    /// The account exists already.
    AlreadyInitialized,
}

impl PlinkoBetError {
    /// The text shown to a user for this error.
    pub open spec fn message_text(self) -> Seq<char> {
        match self {
            PlinkoBetError::InvalidBetAmount => "Invalid bet amount"@,
            PlinkoBetError::Unauthorized => "Unauthorized access"@,
            PlinkoBetError::Overflow => "Arithmetic overflow"@,
            PlinkoBetError::InvalidGameState => "Invalid game state"@,
            PlinkoBetError::InsufficientFunds => "Insufficient funds in game account"@,
            PlinkoBetError::Underflow => "Arithmetic underflow"@,
            PlinkoBetError::InvalidInitialBalance => "Invalid initial balance"@,
            PlinkoBetError::InsufficientBalance => "Insufficient balance in player account"@,
            PlinkoBetError::AlreadyInitialized => "Account already initialized"@,
        }
    }

    pub fn message(&self) -> (text: &'static str)
        ensures
            text@ == self.message_text(),
    {
        match self {
            PlinkoBetError::InvalidBetAmount => "Invalid bet amount",
            PlinkoBetError::Unauthorized => "Unauthorized access",
            PlinkoBetError::Overflow => "Arithmetic overflow",
            PlinkoBetError::InvalidGameState => "Invalid game state",
            PlinkoBetError::InsufficientFunds => "Insufficient funds in game account",
            PlinkoBetError::Underflow => "Arithmetic underflow",
            PlinkoBetError::InvalidInitialBalance => "Invalid initial balance",
            PlinkoBetError::InsufficientBalance => "Insufficient balance in player account",
            PlinkoBetError::AlreadyInitialized => "Account already initialized",
        }
    }
}

} // verus!
