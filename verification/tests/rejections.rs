use casino_plinko::{
    check_owner, close_player_account, determine_result, initialize_game, initialize_player,
    place_bet, top_up_game_account, ClosePlayerAccount, DetermineResult, GameAccount, GameResult,
    Identity, InitializeGame, InitializePlayer, PlaceBet, PlayerAccount, PlinkoBetError,
    TopUpGameAccount,
};

fn key(tag: u8) -> Identity {
    Identity::new([tag; 32])
}

fn idle(custody: u64) -> GameAccount {
    GameAccount { bet_amount: 0, result: GameResult::Pending, multiplier: 0, custody }
}

fn pending(bet_amount: u64, custody: u64) -> GameAccount {
    GameAccount { bet_amount, result: GameResult::Pending, multiplier: 0, custody }
}

#[test]
fn zero_bet_is_invalid_bet_amount() {
    let alice = key(1);
    let mut ctx = PlaceBet {
        game_account: idle(0),
        player_account: PlayerAccount { player: alice, balance: 100 },
        signer: alice,
    };
    let held = ctx;
    assert_eq!(place_bet(&mut ctx, 0), Err(PlinkoBetError::InvalidBetAmount));
    assert_eq!(ctx, held);
}

#[test]
fn zero_bet_on_a_busy_vault_is_invalid_bet_amount() {
    let alice = key(1);
    let mut ctx = PlaceBet {
        game_account: pending(40, 40),
        player_account: PlayerAccount { player: alice, balance: 100 },
        signer: alice,
    };
    assert_eq!(place_bet(&mut ctx, 0), Err(PlinkoBetError::InvalidBetAmount));
}

#[test]
fn bet_by_a_stranger_is_unauthorized() {
    let alice = key(1);
    let mallory = key(2);
    let mut ctx = PlaceBet {
        game_account: idle(0),
        player_account: PlayerAccount { player: alice, balance: 100 },
        signer: mallory,
    };
    let held = ctx;
    assert_eq!(place_bet(&mut ctx, 40), Err(PlinkoBetError::Unauthorized));
    assert_eq!(ctx, held);
}

#[test]
fn identities_that_differ_in_one_byte_are_different() {
    let mut bytes = [7u8; 32];
    let alice = Identity::new(bytes);
    for position in 0..32 {
        bytes = [7u8; 32];
        bytes[position] = 8;
        let other = Identity::new(bytes);
        assert!(!alice.same_as(&other));
        assert!(alice != other);
        let mut ctx = PlaceBet {
            game_account: idle(0),
            player_account: PlayerAccount { player: alice, balance: 100 },
            signer: other,
        };
        assert_eq!(place_bet(&mut ctx, 1), Err(PlinkoBetError::Unauthorized));
    }
    assert!(alice.same_as(&Identity::new([7u8; 32])));
    assert!(alice == Identity::new([7u8; 32]));
    assert_eq!(alice.to_bytes(), [7u8; 32]);
}

#[test]
fn bet_above_the_balance_is_insufficient_balance() {
    let alice = key(1);
    let mut ctx = PlaceBet {
        game_account: idle(0),
        player_account: PlayerAccount { player: alice, balance: 100 },
        signer: alice,
    };
    let held = ctx;
    assert_eq!(place_bet(&mut ctx, 101), Err(PlinkoBetError::InsufficientBalance));
    assert_eq!(ctx, held);
    assert_eq!(place_bet(&mut ctx, 100), Ok(()));
    assert_eq!(ctx.player_account.balance, 0);
    assert_eq!(ctx.game_account.custody, 100);
}

#[test]
fn bet_that_overfills_the_custody_is_overflow() {
    let alice = key(1);
    let mut ctx = PlaceBet {
        game_account: idle(u64::MAX - 5),
        player_account: PlayerAccount { player: alice, balance: 100 },
        signer: alice,
    };
    let held = ctx;
    assert_eq!(place_bet(&mut ctx, 6), Err(PlinkoBetError::Overflow));
    assert_eq!(ctx, held);
    assert_eq!(place_bet(&mut ctx, 5), Ok(()));
    assert_eq!(ctx.game_account.custody, u64::MAX);
}

#[test]
fn place_bet_tests_the_vault_before_the_owner_and_the_balance() {
    let alice = key(1);
    let mut ctx = PlaceBet {
        game_account: pending(40, 40),
        player_account: PlayerAccount { player: alice, balance: 1 },
        signer: key(2),
    };
    assert_eq!(place_bet(&mut ctx, 50), Err(PlinkoBetError::InvalidGameState));
    ctx.game_account = idle(40);
    assert_eq!(place_bet(&mut ctx, 50), Err(PlinkoBetError::Unauthorized));
    ctx.signer = alice;
    assert_eq!(place_bet(&mut ctx, 50), Err(PlinkoBetError::InsufficientBalance));
}

#[test]
fn settlement_by_a_stranger_is_unauthorized() {
    let mut ctx = DetermineResult {
        game_account: pending(40, 540),
        player_account: PlayerAccount { player: key(1), balance: 60 },
        authority: key(9),
        signer: key(1),
    };
    let held = ctx;
    assert_eq!(determine_result(&mut ctx, 3), Err(PlinkoBetError::Unauthorized));
    assert_eq!(determine_result(&mut ctx, 0), Err(PlinkoBetError::Unauthorized));
    assert_eq!(ctx, held);
}

#[test]
fn unauthorized_comes_before_the_state_of_the_vault() {
    let mut ctx = DetermineResult {
        game_account: GameAccount {
            bet_amount: 40,
            result: GameResult::Win,
            multiplier: 3,
            custody: 0,
        },
        player_account: PlayerAccount { player: key(1), balance: 60 },
        authority: key(9),
        signer: key(1),
    };
    assert_eq!(determine_result(&mut ctx, u64::MAX), Err(PlinkoBetError::Unauthorized));
}

#[test]
fn settlement_of_a_resolved_vault_is_invalid_game_state() {
    for result in [GameResult::Win, GameResult::Loss] {
        let mut ctx = DetermineResult {
            game_account: GameAccount { bet_amount: 40, result, multiplier: 3, custody: 540 },
            player_account: PlayerAccount { player: key(1), balance: 60 },
            authority: key(9),
            signer: key(9),
        };
        let held = ctx;
        assert_eq!(determine_result(&mut ctx, 3), Err(PlinkoBetError::InvalidGameState));
        assert_eq!(ctx, held);
    }
}

#[test]
fn payout_beyond_64_bits_is_overflow() {
    let cases: [(u64, u64); 5] = [
        (u64::MAX, 2),
        (1u64 << 63, 2),
        (1u64 << 32, 1u64 << 32),
        (3, u64::MAX),
        (u64::MAX / 3 + 1, 3),
    ];
    for (bet_amount, multiplier) in cases {
        let mut ctx = DetermineResult {
            game_account: pending(bet_amount, u64::MAX),
            player_account: PlayerAccount { player: key(1), balance: 0 },
            authority: key(9),
            signer: key(9),
        };
        let held = ctx;
        assert_eq!(determine_result(&mut ctx, multiplier), Err(PlinkoBetError::Overflow));
        assert_eq!(ctx, held);
    }
}

#[test]
fn largest_payout_that_fits_is_paid() {
    let mut ctx = DetermineResult {
        game_account: pending(u64::MAX / 3, u64::MAX),
        player_account: PlayerAccount { player: key(1), balance: 0 },
        authority: key(9),
        signer: key(9),
    };
    let settlement = determine_result(&mut ctx, 3).unwrap();
    assert_eq!(settlement.payout, u64::MAX);
    assert_eq!(ctx.player_account.balance, u64::MAX);
    assert_eq!(ctx.game_account.custody, 0);
}

#[test]
fn payout_above_the_custody_is_insufficient_funds() {
    let mut ctx = DetermineResult {
        game_account: pending(40, 119),
        player_account: PlayerAccount { player: key(1), balance: 60 },
        authority: key(9),
        signer: key(9),
    };
    let held = ctx;
    assert_eq!(determine_result(&mut ctx, 3), Err(PlinkoBetError::InsufficientFunds));
    assert_eq!(ctx, held);
    ctx.game_account.custody = 120;
    assert_eq!(determine_result(&mut ctx, 3).unwrap().payout, 120);
    assert_eq!(ctx.game_account.custody, 0);
}

#[test]
fn payout_that_overfills_the_balance_is_overflow() {
    let mut ctx = DetermineResult {
        game_account: pending(40, 500),
        player_account: PlayerAccount { player: key(1), balance: u64::MAX - 119 },
        authority: key(9),
        signer: key(9),
    };
    let held = ctx;
    assert_eq!(determine_result(&mut ctx, 3), Err(PlinkoBetError::Overflow));
    assert_eq!(ctx, held);
    ctx.player_account.balance = u64::MAX - 120;
    assert_eq!(determine_result(&mut ctx, 3).unwrap().payout, 120);
    assert_eq!(ctx.player_account.balance, u64::MAX);
}

#[test]
fn player_with_zero_balance_is_invalid_initial_balance() {
    let mut ctx = InitializePlayer { player_account: None, signer: key(1), balance_cap: None };
    assert_eq!(initialize_player(&mut ctx, 0), Err(PlinkoBetError::InvalidInitialBalance));
    assert_eq!(ctx.player_account, None);
}

#[test]
fn player_above_the_cap_is_invalid_initial_balance() {
    let mut ctx =
        InitializePlayer { player_account: None, signer: key(1), balance_cap: Some(1000) };
    let held = ctx;
    assert_eq!(initialize_player(&mut ctx, 1001), Err(PlinkoBetError::InvalidInitialBalance));
    assert_eq!(ctx, held);
    assert_eq!(
        initialize_player(&mut ctx, 1000),
        Ok(PlayerAccount { player: key(1), balance: 1000 })
    );
}

#[test]
fn player_without_a_cap_may_open_with_any_positive_balance() {
    let mut ctx = InitializePlayer { player_account: None, signer: key(1), balance_cap: None };
    assert_eq!(
        initialize_player(&mut ctx, u64::MAX),
        Ok(PlayerAccount { player: key(1), balance: u64::MAX })
    );
}

#[test]
fn existing_player_is_already_initialized() {
    let mut ctx = InitializePlayer { player_account: None, signer: key(1), balance_cap: None };
    initialize_player(&mut ctx, 100).unwrap();
    let held = ctx;
    assert_eq!(initialize_player(&mut ctx, 5), Err(PlinkoBetError::AlreadyInitialized));
    assert_eq!(initialize_player(&mut ctx, 0), Err(PlinkoBetError::AlreadyInitialized));
    assert_eq!(ctx, held);
    assert_eq!(ctx.player_account, Some(PlayerAccount { player: key(1), balance: 100 }));
}

#[test]
fn vault_is_opened_idle_with_its_funding() {
    let mut ctx = InitializeGame { game_account: None, payer_funds: 800 };
    let vault = initialize_game(&mut ctx, 500).unwrap();
    assert_eq!(vault, idle(500));
    assert_eq!(ctx.game_account, Some(idle(500)));
    assert_eq!(ctx.payer_funds, 300);
}

#[test]
fn existing_vault_is_already_initialized() {
    let busy = GameAccount { bet_amount: 40, result: GameResult::Win, multiplier: 3, custody: 9 };
    let mut ctx = InitializeGame { game_account: Some(busy), payer_funds: 800 };
    assert_eq!(initialize_game(&mut ctx, 500), Err(PlinkoBetError::AlreadyInitialized));
    assert_eq!(ctx, InitializeGame { game_account: Some(busy), payer_funds: 800 });
}

#[test]
fn vault_funding_beyond_the_payer_is_insufficient_funds() {
    let mut ctx = InitializeGame { game_account: None, payer_funds: 499 };
    assert_eq!(initialize_game(&mut ctx, 500), Err(PlinkoBetError::InsufficientFunds));
    assert_eq!(ctx, InitializeGame { game_account: None, payer_funds: 499 });
}

#[test]
fn top_up_beyond_the_payer_is_insufficient_funds() {
    let mut ctx = TopUpGameAccount { game_account: idle(10), payer_funds: 4 };
    let held = ctx;
    assert_eq!(top_up_game_account(&mut ctx, 5), Err(PlinkoBetError::InsufficientFunds));
    assert_eq!(ctx, held);
}

#[test]
fn top_up_that_overfills_the_custody_is_overflow() {
    let mut ctx = TopUpGameAccount { game_account: idle(u64::MAX - 1), payer_funds: 10 };
    let held = ctx;
    assert_eq!(top_up_game_account(&mut ctx, 2), Err(PlinkoBetError::Overflow));
    assert_eq!(ctx, held);
}

#[test]
fn closing_by_a_stranger_is_unauthorized() {
    let mut ctx = ClosePlayerAccount {
        player_account: PlayerAccount { player: key(1), balance: 60 },
        signer: key(2),
        owner_funds: 0,
    };
    let held = ctx;
    assert_eq!(close_player_account(&mut ctx), Err(PlinkoBetError::Unauthorized));
    assert_eq!(ctx, held);
}

#[test]
fn closing_that_overfills_the_owner_is_overflow() {
    let mut ctx = ClosePlayerAccount {
        player_account: PlayerAccount { player: key(1), balance: 60 },
        signer: key(1),
        owner_funds: u64::MAX - 59,
    };
    let held = ctx;
    assert_eq!(close_player_account(&mut ctx), Err(PlinkoBetError::Overflow));
    assert_eq!(ctx, held);
}

#[test]
fn check_owner_accepts_the_owner_only() {
    let account = PlayerAccount { player: key(1), balance: 60 };
    assert_eq!(check_owner(&account, &key(1)), Ok(()));
    assert_eq!(check_owner(&account, &key(2)), Err(PlinkoBetError::Unauthorized));
}
