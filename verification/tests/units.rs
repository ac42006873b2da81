//! Unit coverage for the order-preference records and for an escrow
//! record driven directly, without the factory.

use htlc_escrow::order_traits::{MakerTraits, MakerTraitsLib, TakerTraits, TakerTraitsLib};
use htlc_escrow::{
    AccountId, AmountCalc, Escrow, EscrowDirection, EscrowError, EscrowImmutables, EscrowResolves,
    EscrowState, TimeLocks, TokenFlow, TokenId, hash_secret,
};

#[test]
fn maker_traits_round_trip() {
    let mut traits = MakerTraits::new();
    assert!(MakerTraitsLib::allow_partial_fills(&traits));
    assert!(!MakerTraitsLib::allow_multiple_fills(&traits));
    assert!(MakerTraitsLib::use_bit_invalidator(&traits));
    assert!(!MakerTraitsLib::has_extension(&traits));
    assert!(!MakerTraitsLib::need_pre_interaction_call(&traits));
    assert!(!MakerTraitsLib::need_post_interaction_call(&traits));
    assert!(!MakerTraitsLib::need_check_epoch_manager(&traits));
    assert!(!MakerTraitsLib::use_permit2(&traits));
    assert!(!MakerTraitsLib::unwrap_weth(&traits));

    traits.set_allow_partial_fills(false);
    traits.set_allow_multiple_fills(true);
    traits.set_pre_interaction_call(true);
    traits.set_post_interaction_call(true);
    traits.set_need_check_epoch_manager(true);
    traits.set_has_extension(true);
    traits.set_use_permit2(true);
    traits.set_unwrap_weth(true);
    traits.set_nonce_or_epoch(42);
    traits.set_series(7);

    assert!(!MakerTraitsLib::allow_partial_fills(&traits));
    assert!(MakerTraitsLib::allow_multiple_fills(&traits));
    assert!(MakerTraitsLib::use_bit_invalidator(&traits));
    assert!(MakerTraitsLib::has_extension(&traits));
    assert!(MakerTraitsLib::need_pre_interaction_call(&traits));
    assert!(MakerTraitsLib::need_post_interaction_call(&traits));
    assert!(MakerTraitsLib::need_check_epoch_manager(&traits));
    assert!(MakerTraitsLib::use_permit2(&traits));
    assert!(MakerTraitsLib::unwrap_weth(&traits));
    assert_eq!(MakerTraitsLib::nonce_or_epoch(&traits), 42);
    assert_eq!(MakerTraitsLib::series(&traits), 7);

    traits.set_allow_partial_fills(true);
    assert!(MakerTraitsLib::allow_partial_fills(&traits));
    assert!(!MakerTraitsLib::use_bit_invalidator(&traits));
}

#[test]
fn maker_traits_sender_and_expiration() {
    let mut traits = MakerTraits::new();
    assert!(MakerTraitsLib::is_allowed_sender(&traits, &AccountId(5)));
    assert!(!MakerTraitsLib::is_expired(&traits, u64::MAX));

    traits.set_allowed_sender(Some(AccountId(5)));
    assert!(MakerTraitsLib::is_allowed_sender(&traits, &AccountId(5)));
    assert!(!MakerTraitsLib::is_allowed_sender(&traits, &AccountId(6)));

    traits.set_expiration(Some(100));
    assert!(!MakerTraitsLib::is_expired(&traits, 100));
    assert!(MakerTraitsLib::is_expired(&traits, 101));
}

#[test]
fn taker_traits_round_trip() {
    let mut traits = TakerTraits::new();
    assert!(!TakerTraitsLib::is_making_amount(&traits));
    assert!(!TakerTraitsLib::unwrap_weth(&traits));
    assert!(!TakerTraitsLib::skip_maker_permit(&traits));
    assert!(!TakerTraitsLib::use_permit2(&traits));
    assert!(!TakerTraitsLib::args_has_target(&traits));
    assert_eq!(TakerTraitsLib::args_extension_length(&traits), 0);
    assert_eq!(TakerTraitsLib::args_interaction_length(&traits), 0);
    assert_eq!(TakerTraitsLib::threshold(&traits), 0);

    traits.set_is_making_amount(true);
    traits.set_unwrap_weth(true);
    traits.set_skip_maker_permit(true);
    traits.set_use_permit2(true);
    traits.set_args_has_target(true);
    traits.set_args_extension_length(24);
    traits.set_args_interaction_length(16);
    traits.set_threshold(1_000_000);

    assert!(TakerTraitsLib::is_making_amount(&traits));
    assert!(TakerTraitsLib::unwrap_weth(&traits));
    assert!(TakerTraitsLib::skip_maker_permit(&traits));
    assert!(TakerTraitsLib::use_permit2(&traits));
    assert!(TakerTraitsLib::args_has_target(&traits));
    assert_eq!(TakerTraitsLib::args_extension_length(&traits), 24);
    assert_eq!(TakerTraitsLib::args_interaction_length(&traits), 16);
    assert_eq!(TakerTraitsLib::threshold(&traits), 1_000_000);
}

#[test]
fn escrow_record_driven_directly() {
    let secret = b"a direct-record secret, 32 bytes".to_vec();
    let immutables = EscrowImmutables {
        order_hash: vec![3u8; 32],
        hashlock: hash_secret(&secret),
        direction: EscrowDirection::Taker2Maker,
        maker: AccountId(1),
        token: TokenId(1),
        amount: AmountCalc::Flat(500),
        safety_deposit_token: TokenId(2),
        safety_deposit_amount: 50,
        timelocks: TimeLocks {
            withdrawal: 10,
            public_withdrawal: 20,
            cancellation: 30,
            public_cancellation: 40,
        },
    };
    let resolves = EscrowResolves { taker: AccountId(2), amount: 500, timestamp: 100 };
    let mut escrow = Escrow::new(immutables, resolves);
    assert_eq!(escrow.get_state(), EscrowState::Active);
    assert_eq!(escrow.get_resolves(), resolves);

    // The taker-to-maker direction pays the maker on withdrawal.
    let receipt = escrow.withdraw(&secret, AccountId(2), 110).unwrap();
    assert_eq!(
        receipt.flows[0],
        TokenFlow::OutOfEscrow { token: TokenId(1), to: AccountId(1), amount: 500 }
    );
    assert_eq!(escrow.get_state(), EscrowState::Withdrawn);

    // Rescue ignores the terminal state once the window has opened.
    let rescue = escrow.rescue_funds(TokenId(3), 7, AccountId(2), 1100, 1000).unwrap();
    assert_eq!(
        rescue.flow,
        TokenFlow::OutOfEscrow { token: TokenId(3), to: AccountId(2), amount: 7 }
    );
    assert_eq!(escrow.get_state(), EscrowState::Withdrawn);
}

#[test]
fn cancel_returns_principal_to_its_payer() {
    let secret = b"one more secret of 32 bytes here".to_vec();
    let immutables = EscrowImmutables {
        order_hash: vec![4u8; 32],
        hashlock: hash_secret(&secret),
        direction: EscrowDirection::Taker2Maker,
        maker: AccountId(1),
        token: TokenId(1),
        amount: AmountCalc::Flat(500),
        safety_deposit_token: TokenId(2),
        safety_deposit_amount: 50,
        timelocks: TimeLocks {
            withdrawal: 10,
            public_withdrawal: 20,
            cancellation: 30,
            public_cancellation: 40,
        },
    };
    let resolves = EscrowResolves { taker: AccountId(2), amount: 500, timestamp: 100 };
    let mut escrow = Escrow::new(immutables, resolves);

    // The taker paid the principal in, so cancellation returns it to the
    // taker; the safety deposit goes to the caller.
    let receipt = escrow.cancel(AccountId(9), 140, true).unwrap();
    assert_eq!(
        receipt.flows[0],
        TokenFlow::OutOfEscrow { token: TokenId(1), to: AccountId(2), amount: 500 }
    );
    assert_eq!(
        receipt.flows[1],
        TokenFlow::OutOfEscrow { token: TokenId(2), to: AccountId(9), amount: 50 }
    );
    assert_eq!(escrow.get_state(), EscrowState::Cancelled);
    assert_eq!(
        escrow.cancel(AccountId(9), 150, true).err(),
        Some(EscrowError::NotActive)
    );
}
