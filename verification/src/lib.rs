//! A wagering ledger: players hold balances, place one outstanding bet at a
//! time against a custody vault, and a designated resolver settles each bet
//! against a multiplier.
//!
//! Every operation is a total function on plain values. It either succeeds
//! and yields the complete next state, or fails with a [`PlinkoBetError`] and
//! leaves every field as it was.

pub mod accounts;
pub mod betting;
pub mod custody;
pub mod error;
pub mod identity;
pub mod ledger;
pub mod registry;
pub mod settlement;
pub mod state;
pub mod theorems;

pub use accounts::{AccountRegistry, Accounts};
pub use betting::{place_bet, reset_game, PlaceBet, ResetGame};
pub use custody::{
    check_balance, close_player_account, top_up_game_account, CheckBalance, ClosePlayerAccount,
    TopUpGameAccount,
};
pub use error::PlinkoBetError;
pub use identity::Identity;
pub use registry::{check_owner, initialize_game, initialize_player, InitializeGame, InitializePlayer};
pub use settlement::{determine_result, DetermineResult, Settlement};
pub use state::{GameAccount, GameResult, PlayerAccount};
