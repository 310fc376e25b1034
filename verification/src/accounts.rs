//! The registry: a keyed index of the accounts that exist. It keeps the one
//! shared vault and at most one player's account for each owner.

use crate::error::PlinkoBetError;
use crate::identity::Identity;
use crate::registry::{initialize_game, initialize_player, InitializeGame, InitializePlayer};
use crate::state::{GameAccount, PlayerAccount};
use vstd::prelude::*;

verus! {

/// What a registry holds, as a value: the vault, where it was opened, and
/// the balance of every owner who has an account.
pub struct Accounts {
    pub game_account: Option<GameAccount>,
    pub balances: Map<Identity, u64>,
}

impl Accounts {
    /// The account of `owner`, where there is one.
    pub open spec fn player_account(self, owner: Identity) -> Option<PlayerAccount> {
        if self.balances.contains_key(owner) {
            Some(PlayerAccount { player: owner, balance: self.balances[owner] })
        } else {
            None
        }
    }

    /// The same accounts, with `account` as its owner's account.
    pub open spec fn with_player(self, account: PlayerAccount) -> Accounts {
        Accounts {
            game_account: self.game_account,
            balances: self.balances.insert(account.player, account.balance),
        }
    }

    /// The same accounts, with `vault` as the vault.
    pub open spec fn with_game(self, vault: GameAccount) -> Accounts {
        Accounts { game_account: Some(vault), balances: self.balances }
    }
}

/// The accounts that exist. Player accounts are kept in an arena and found
/// by their owner; no owner has two.
pub struct AccountRegistry {
    game_account: Option<GameAccount>,
    players: Vec<PlayerAccount>,
}

spec fn owners_are_distinct(records: Seq<PlayerAccount>) -> bool {
    forall|i: int, j: int|
        0 <= i < j < records.len() ==> (#[trigger] records[i]).player != (
        #[trigger] records[j]).player
}

spec fn is_record_of(records: Seq<PlayerAccount>, owner: Identity, i: int) -> bool {
    0 <= i < records.len() && records[i].player == owner
}

spec fn has_owner(records: Seq<PlayerAccount>, owner: Identity) -> bool {
    exists|i: int| is_record_of(records, owner, i)
}

spec fn balances_of(records: Seq<PlayerAccount>) -> Map<Identity, u64> {
    Map::new(
        |owner: Identity| has_owner(records, owner),
        |owner: Identity| records[choose|i: int| is_record_of(records, owner, i)].balance,
    )
}

proof fn lemma_record_gives_balance(records: Seq<PlayerAccount>, i: int)
    requires
        owners_are_distinct(records),
        0 <= i < records.len(),
    ensures
        balances_of(records).contains_key(records[i].player),
        balances_of(records)[records[i].player] == records[i].balance,
{
    let owner = records[i].player;
    assert(is_record_of(records, owner, i));
    let j = choose|j: int| is_record_of(records, owner, j);
    assert(i == j);
}

proof fn lemma_push_inserts(records: Seq<PlayerAccount>, account: PlayerAccount)
    requires
        owners_are_distinct(records),
        !has_owner(records, account.player),
    ensures
        owners_are_distinct(records.push(account)),
        balances_of(records.push(account)) == balances_of(records).insert(
            account.player,
            account.balance,
        ),
{
    let after = records.push(account);
    assert forall|i: int, j: int| 0 <= i < j < after.len() implies (#[trigger] after[i]).player != (
    #[trigger] after[j]).player by {
        if j == records.len() {
            assert(!is_record_of(records, account.player, i));
        }
    }
    assert forall|owner: Identity| #[trigger]
        balances_of(after).contains_key(owner) <==> balances_of(records).insert(
            account.player,
            account.balance,
        ).contains_key(owner) by {
        if has_owner(after, owner) {
            let i = choose|i: int| is_record_of(after, owner, i);
            if i < records.len() {
                assert(is_record_of(records, owner, i));
            }
        }
        if owner == account.player {
            assert(is_record_of(after, owner, records.len() as int));
        }
        if has_owner(records, owner) {
            let i = choose|i: int| is_record_of(records, owner, i);
            assert(is_record_of(after, owner, i));
        }
    }
    assert forall|owner: Identity| #[trigger]
        balances_of(after).contains_key(owner) implies balances_of(after)[owner] == balances_of(
        records,
    ).insert(account.player, account.balance)[owner] by {
        let i = choose|i: int| is_record_of(after, owner, i);
        lemma_record_gives_balance(after, i);
        if i < records.len() {
            lemma_record_gives_balance(records, i);
        }
    }
    assert(balances_of(after) =~= balances_of(records).insert(account.player, account.balance));
}

proof fn lemma_update_inserts(records: Seq<PlayerAccount>, i: int, account: PlayerAccount)
    requires
        owners_are_distinct(records),
        is_record_of(records, account.player, i),
    ensures
        owners_are_distinct(records.update(i, account)),
        balances_of(records.update(i, account)) == balances_of(records).insert(
            account.player,
            account.balance,
        ),
{
    let after = records.update(i, account);
    assert forall|a: int, b: int| 0 <= a < b < after.len() implies (#[trigger] after[a]).player != (
    #[trigger] after[b]).player by {
        assert(after[a].player == records[a].player);
        assert(after[b].player == records[b].player);
    }
    assert forall|owner: Identity| #[trigger]
        balances_of(after).contains_key(owner) <==> balances_of(records).insert(
            account.player,
            account.balance,
        ).contains_key(owner) by {
        if has_owner(after, owner) {
            let k = choose|k: int| is_record_of(after, owner, k);
            assert(is_record_of(records, owner, k));
        }
        if owner == account.player {
            assert(is_record_of(after, owner, i));
        }
        if has_owner(records, owner) {
            let k = choose|k: int| is_record_of(records, owner, k);
            assert(is_record_of(after, owner, k));
        }
    }
    assert forall|owner: Identity| #[trigger]
        balances_of(after).contains_key(owner) implies balances_of(after)[owner] == balances_of(
        records,
    ).insert(account.player, account.balance)[owner] by {
        let k = choose|k: int| is_record_of(after, owner, k);
        lemma_record_gives_balance(after, k);
        if k != i {
            lemma_record_gives_balance(records, k);
        }
    }
    assert(balances_of(after) =~= balances_of(records).insert(account.player, account.balance));
}

impl View for AccountRegistry {
    type V = Accounts;

    closed spec fn view(&self) -> Accounts {
        Accounts { game_account: self.game_account, balances: balances_of(self.players@) }
    }
}

impl AccountRegistry {
    /// No owner has two accounts. Every registry that `new` made and the
    /// methods below changed is well formed.
    pub closed spec fn well_formed(&self) -> bool {
        owners_are_distinct(self.players@)
    }

    /// A registry without a vault and without players.
    pub fn new() -> (registry: AccountRegistry)
        ensures
            registry.well_formed(),
            registry@.game_account is None,
            registry@.balances == Map::<Identity, u64>::empty(),
    {
        let registry = AccountRegistry { game_account: None, players: Vec::new() };
        assert(registry@.balances =~= Map::<Identity, u64>::empty()) by {
            assert forall|owner: Identity| !has_owner(registry.players@, owner) by {
                assert forall|i: int| !is_record_of(registry.players@, owner, i) by {}
            }
        }
        registry
    }

    /// Where `owner`'s record stands in the arena, if the owner has one.
    fn position(&self, owner: &Identity) -> (found: Option<usize>)
        ensures
            match found {
                Some(i) => is_record_of(self.players@, *owner, i as int),
                None => !has_owner(self.players@, *owner),
            },
    {
        let mut i: usize = 0;
        while i < self.players.len()
            invariant
                i <= self.players@.len(),
                forall|k: int| 0 <= k < i ==> !is_record_of(self.players@, *owner, k),
            decreases self.players@.len() - i,
        {
            if self.players[i].player.same_as(owner) {
                return Some(i);
            }
            i += 1;
        }
        None
    }

    /// The vault, where it was opened.
    pub fn find_game(&self) -> (found: Option<GameAccount>)
        ensures
            found == self@.game_account,
    {
        self.game_account
    }

    /// The account of `owner`, where the owner has one.
    pub fn find_player(&self, owner: &Identity) -> (found: Option<PlayerAccount>)
        requires
            self.well_formed(),
        ensures
            found == self@.player_account(*owner),
    {
        match self.position(owner) {
            Some(i) => {
                proof {
                    lemma_record_gives_balance(self.players@, i as int);
                }
                Some(self.players[i])
            },
            None => None,
        }
    }

    /// Opens the vault with `initial_funding` taken from `payer_funds`, as
    /// `initialize_game` does on the place that this registry keeps for it.
    pub fn init_vault(&mut self, payer_funds: &mut u64, initial_funding: u64) -> (r: Result<
        GameAccount,
        PlinkoBetError,
    >)
        requires
            old(self).well_formed(),
        ensures
            final(self).well_formed(),
            ({
                let before = InitializeGame {
                    game_account: old(self)@.game_account,
                    payer_funds: *old(payer_funds),
                };
                match r {
                    Ok(vault) => {
                        &&& before.rejection(initial_funding) is None
                        &&& vault == GameAccount::spec_idle(initial_funding)
                        &&& final(self)@ == old(self)@.with_game(vault)
                        &&& *final(payer_funds) == *old(payer_funds) - initial_funding
                    },
                    Err(e) => {
                        &&& before.rejection(initial_funding) == Some(e)
                        &&& final(self)@ == old(self)@
                        &&& *final(payer_funds) == *old(payer_funds)
                    },
                }
            }),
    {
        let mut ctx = InitializeGame { game_account: self.game_account, payer_funds: *payer_funds };
        match initialize_game(&mut ctx, initial_funding) {
            Ok(vault) => {
                self.game_account = ctx.game_account;
                *payer_funds = ctx.payer_funds;
                Ok(vault)
            },
            Err(e) => Err(e),
        }
    }

    /// Opens the account of `signer` with `initial_balance`, as
    /// `initialize_player` does on the place that this registry keeps for
    /// that owner. No other owner's account changes.
    pub fn init_player(
        &mut self,
        signer: Identity,
        initial_balance: u64,
        balance_cap: Option<u64>,
    ) -> (r: Result<PlayerAccount, PlinkoBetError>)
        requires
            old(self).well_formed(),
        ensures
            final(self).well_formed(),
            ({
                let before = InitializePlayer {
                    player_account: old(self)@.player_account(signer),
                    signer,
                    balance_cap,
                };
                match r {
                    Ok(account) => {
                        &&& before.rejection(initial_balance) is None
                        &&& account == (PlayerAccount { player: signer, balance: initial_balance })
                        &&& final(self)@ == old(self)@.with_player(account)
                    },
                    Err(e) => {
                        &&& before.rejection(initial_balance) == Some(e)
                        &&& final(self)@ == old(self)@
                    },
                }
            }),
    {
        let mut ctx = InitializePlayer {
            player_account: self.find_player(&signer),
            signer,
            balance_cap,
        };
        match initialize_player(&mut ctx, initial_balance) {
            Ok(account) => {
                proof {
                    lemma_push_inserts(self.players@, account);
                }
                self.players.push(account);
                Ok(account)
            },
            Err(e) => Err(e),
        }
    }

    /// Writes `vault` back as the vault, where one was opened. Returns
    /// whether it was; where not, nothing changes.
    pub fn store_game(&mut self, vault: GameAccount) -> (stored: bool)
        requires
            old(self).well_formed(),
        ensures
            final(self).well_formed(),
            stored == (old(self)@.game_account is Some),
            final(self)@ == if stored {
                old(self)@.with_game(vault)
            } else {
                old(self)@
            },
    {
        if self.game_account.is_some() {
            self.game_account = Some(vault);
            true
        } else {
            false
        }
    }

    /// Writes `account` back as its owner's account, where the owner has
    /// one. Returns whether it was; where not, nothing changes. No other
    /// owner's account changes either way.
    pub fn store_player(&mut self, account: PlayerAccount) -> (stored: bool)
        requires
            old(self).well_formed(),
        ensures
            final(self).well_formed(),
            stored == old(self)@.balances.contains_key(account.player),
            final(self)@ == if stored {
                old(self)@.with_player(account)
            } else {
                old(self)@
            },
    {
        match self.position(&account.player) {
            Some(i) => {
                proof {
                    lemma_update_inserts(self.players@, i as int, account);
                }
                self.players.set(i, account);
                true
            },
            None => false,
        }
    }
}

} // verus!
