//! The escrow engine driven end to end: creation, withdrawal and
//! cancellation against an in-test ledger that performs the token
//! movements the engine returns.

use std::collections::HashMap;

use htlc_escrow::{
    AccountId, AmountCalc, CreateContext, DutchAuction, EscrowDirection, EscrowError,
    EscrowFactory, EscrowImmutables, EscrowState, Stage, TimeLocks, Timelocks, TokenFlow, TokenId,
    hash_secret,
};
use rand::RngExt;

/// Balances per (token, account), plus what each escrow instance holds
/// per token. Applying the engine's flows is the "host ledger" work.
struct Ledger {
    balances: HashMap<(u64, u64), i128>,
    escrow_holdings: HashMap<(Vec<u8>, u64), i128>,
}

impl Ledger {
    fn new() -> Ledger {
        Ledger { balances: HashMap::new(), escrow_holdings: HashMap::new() }
    }

    fn mint(&mut self, token: TokenId, who: AccountId, amount: i128) {
        *self.balances.entry((token.0, who.0)).or_insert(0) += amount;
    }

    fn balance(&self, token: TokenId, who: AccountId) -> i128 {
        *self.balances.get(&(token.0, who.0)).unwrap_or(&0)
    }

    fn escrow_balance(&self, id: &[u8], token: TokenId) -> i128 {
        *self.escrow_holdings.get(&(id.to_vec(), token.0)).unwrap_or(&0)
    }

    fn apply(&mut self, id: &[u8], flows: &[TokenFlow]) {
        for flow in flows {
            match *flow {
                TokenFlow::IntoEscrow { token, from, amount } => {
                    *self.balances.entry((token.0, from.0)).or_insert(0) -= amount;
                    *self.escrow_holdings.entry((id.to_vec(), token.0)).or_insert(0) += amount;
                },
                TokenFlow::OutOfEscrow { token, to, amount } => {
                    *self.escrow_holdings.entry((id.to_vec(), token.0)).or_insert(0) -= amount;
                    *self.balances.entry((token.0, to.0)).or_insert(0) += amount;
                },
            }
        }
    }
}

fn generate_secret() -> Vec<u8> {
    let mut arr = [0u8; 32];
    rand::rng().fill(&mut arr[..]);
    arr.to_vec()
}

fn standard_immutables(hashlock: Vec<u8>, direction: EscrowDirection, amount: AmountCalc)
    -> EscrowImmutables {
    EscrowImmutables {
        order_hash: vec![7u8; 32],
        hashlock,
        direction,
        maker: AccountId(1),
        token: TokenId(1),
        amount,
        safety_deposit_token: TokenId(2),
        safety_deposit_amount: 50,
        timelocks: TimeLocks {
            withdrawal: 1000,
            public_withdrawal: 2000,
            cancellation: 3000,
            public_cancellation: 4000,
        },
    }
}

fn context(ledger: &Ledger, immutables: &EscrowImmutables, taker: AccountId, now: u64)
    -> CreateContext {
    let payer = match immutables.direction {
        EscrowDirection::Maker2Taker => immutables.maker,
        EscrowDirection::Taker2Maker => taker,
    };
    CreateContext {
        now,
        taker_authorized: true,
        maker_authorized: true,
        payer_principal_balance: ledger.balance(immutables.token, payer),
        taker_deposit_balance: ledger.balance(immutables.safety_deposit_token, taker),
    }
}

#[test]
fn test_create_escrow_maker_to_taker_flat_amount() {
    let mut ledger = Ledger::new();
    let mut factory = EscrowFactory::new();

    let maker = AccountId(1);
    let taker = AccountId(2);
    let token = TokenId(1);
    let safety_token = TokenId(2);
    let secret = generate_secret();
    let hashlock = hash_secret(&secret);

    ledger.mint(token, maker, 1000);
    ledger.mint(safety_token, taker, 100);

    let immutables =
        standard_immutables(hashlock, EscrowDirection::Maker2Taker, AmountCalc::Flat(500));
    let kept = immutables.clone();

    let ctx = context(&ledger, &immutables, taker, 0);
    let receipt = factory.create_escrow(immutables, taker, ctx).unwrap();
    ledger.apply(&receipt.id, &receipt.flows);

    assert_eq!(factory.get_state(&receipt.id), EscrowState::Active);
    assert_eq!(*factory.get_immutables(&receipt.id), kept);

    let resolves = factory.get_resolves(&receipt.id);
    assert_eq!(resolves.taker, taker);
    assert_eq!(resolves.amount, 500);
    assert_eq!(resolves.timestamp, 0);

    assert_eq!(ledger.balance(token, maker), 500);
    assert_eq!(ledger.escrow_balance(&receipt.id, token), 500);
    assert_eq!(ledger.balance(safety_token, taker), 50);
    assert_eq!(ledger.escrow_balance(&receipt.id, safety_token), 50);
}

#[test]
fn test_create_escrow_taker_to_maker_linear_amount() {
    let mut ledger = Ledger::new();
    let mut factory = EscrowFactory::new();

    let taker = AccountId(2);
    let token = TokenId(1);
    let safety_token = TokenId(2);
    let secret = generate_secret();
    let hashlock = hash_secret(&secret);

    ledger.mint(token, taker, 1000);
    ledger.mint(safety_token, taker, 100);

    let current_time: u64 = 0;
    let dutch_auction = DutchAuction {
        start_time: current_time,
        end_time: current_time + 1000,
        start_amount: 500,
        end_amount: 300,
    };

    let immutables = standard_immutables(
        hashlock,
        EscrowDirection::Taker2Maker,
        AmountCalc::Linear(dutch_auction),
    );

    let ctx = context(&ledger, &immutables, taker, current_time);
    let receipt = factory.create_escrow(immutables, taker, ctx).unwrap();
    ledger.apply(&receipt.id, &receipt.flows);

    assert_eq!(factory.get_state(&receipt.id), EscrowState::Active);

    let resolves = factory.get_resolves(&receipt.id);
    assert_eq!(resolves.taker, taker);
    assert_eq!(resolves.amount, 500);
    assert_eq!(resolves.timestamp, current_time);

    assert_eq!(ledger.balance(token, taker), 500);
    assert_eq!(ledger.escrow_balance(&receipt.id, token), 500);
    assert_eq!(ledger.balance(safety_token, taker), 50);
    assert_eq!(ledger.escrow_balance(&receipt.id, safety_token), 50);
}

#[test]
fn test_withdraw_with_correct_secret() {
    let mut ledger = Ledger::new();
    let mut factory = EscrowFactory::new();

    let maker = AccountId(1);
    let taker = AccountId(2);
    let token = TokenId(1);
    let safety_token = TokenId(2);
    let secret = generate_secret();
    let hashlock = hash_secret(&secret);

    ledger.mint(token, maker, 1000);
    ledger.mint(safety_token, taker, 100);

    let immutables =
        standard_immutables(hashlock, EscrowDirection::Maker2Taker, AmountCalc::Flat(500));
    let ctx = context(&ledger, &immutables, taker, 0);
    let receipt = factory.create_escrow(immutables, taker, ctx).unwrap();
    ledger.apply(&receipt.id, &receipt.flows);

    let now: u64 = 1001;
    let withdrawal = factory.withdraw(&receipt.id, &secret, taker, now).unwrap();
    ledger.apply(&receipt.id, &withdrawal.flows);

    assert_eq!(factory.get_state(&receipt.id), EscrowState::Withdrawn);

    assert_eq!(ledger.balance(token, maker), 500);
    assert_eq!(ledger.balance(token, taker), 500);
    assert_eq!(ledger.balance(safety_token, taker), 100);
    assert_eq!(ledger.escrow_balance(&receipt.id, safety_token), 0);
}

#[test]
fn test_withdraw_with_incorrect_secret() {
    let mut ledger = Ledger::new();
    let mut factory = EscrowFactory::new();

    let maker = AccountId(1);
    let taker = AccountId(2);
    let secret = generate_secret();
    let hashlock = hash_secret(&secret);
    let wrong_secret = generate_secret();

    ledger.mint(TokenId(1), maker, 1000);
    ledger.mint(TokenId(2), taker, 100);

    let immutables =
        standard_immutables(hashlock, EscrowDirection::Maker2Taker, AmountCalc::Flat(500));
    let ctx = context(&ledger, &immutables, taker, 0);
    let receipt = factory.create_escrow(immutables, taker, ctx).unwrap();
    ledger.apply(&receipt.id, &receipt.flows);

    let error = factory.withdraw(&receipt.id, &wrong_secret, taker, 1001);
    assert_eq!(error.err(), Some(EscrowError::InvalidSecret));

    assert_eq!(factory.get_state(&receipt.id), EscrowState::Active);
}

#[test]
fn test_withdraw_too_early() {
    let mut ledger = Ledger::new();
    let mut factory = EscrowFactory::new();

    let maker = AccountId(1);
    let taker = AccountId(2);
    let secret = generate_secret();
    let hashlock = hash_secret(&secret);

    ledger.mint(TokenId(1), maker, 1000);
    ledger.mint(TokenId(2), taker, 100);

    let immutables =
        standard_immutables(hashlock, EscrowDirection::Maker2Taker, AmountCalc::Flat(500));
    let ctx = context(&ledger, &immutables, taker, 0);
    let receipt = factory.create_escrow(immutables, taker, ctx).unwrap();
    ledger.apply(&receipt.id, &receipt.flows);

    let error = factory.withdraw(&receipt.id, &secret, taker, 0);
    assert_eq!(error.err(), Some(EscrowError::TooEarly));

    assert_eq!(factory.get_state(&receipt.id), EscrowState::Active);
}

#[test]
fn test_cancel_by_taker() {
    let mut ledger = Ledger::new();
    let mut factory = EscrowFactory::new();

    let maker = AccountId(1);
    let taker = AccountId(2);
    let token = TokenId(1);
    let safety_token = TokenId(2);
    let secret = generate_secret();
    let hashlock = hash_secret(&secret);

    ledger.mint(token, maker, 1000);
    ledger.mint(safety_token, taker, 100);

    let immutables =
        standard_immutables(hashlock, EscrowDirection::Maker2Taker, AmountCalc::Flat(500));
    let ctx = context(&ledger, &immutables, taker, 0);
    let receipt = factory.create_escrow(immutables, taker, ctx).unwrap();
    ledger.apply(&receipt.id, &receipt.flows);

    let cancellation = factory.cancel(&receipt.id, taker, 3001, true).unwrap();
    ledger.apply(&receipt.id, &cancellation.flows);

    assert_eq!(factory.get_state(&receipt.id), EscrowState::Cancelled);

    assert_eq!(ledger.balance(token, maker), 1000);
    assert_eq!(ledger.escrow_balance(&receipt.id, token), 0);
    assert_eq!(ledger.balance(safety_token, taker), 100);
    assert_eq!(ledger.escrow_balance(&receipt.id, safety_token), 0);
}

#[test]
fn test_cancel_by_public_too_early() {
    let mut ledger = Ledger::new();
    let mut factory = EscrowFactory::new();

    let maker = AccountId(1);
    let taker = AccountId(2);
    let public = AccountId(3);
    let secret = generate_secret();
    let hashlock = hash_secret(&secret);

    ledger.mint(TokenId(1), maker, 1000);
    ledger.mint(TokenId(2), taker, 100);

    let immutables =
        standard_immutables(hashlock, EscrowDirection::Maker2Taker, AmountCalc::Flat(500));
    let ctx = context(&ledger, &immutables, taker, 0);
    let receipt = factory.create_escrow(immutables, taker, ctx).unwrap();
    ledger.apply(&receipt.id, &receipt.flows);

    let error = factory.cancel(&receipt.id, public, 0, true);
    assert_eq!(error.err(), Some(EscrowError::TooEarly));

    assert_eq!(factory.get_state(&receipt.id), EscrowState::Active);
}

#[test]
fn test_double_withdraw() {
    let mut ledger = Ledger::new();
    let mut factory = EscrowFactory::new();

    let maker = AccountId(1);
    let taker = AccountId(2);
    let secret = generate_secret();
    let hashlock = hash_secret(&secret);

    ledger.mint(TokenId(1), maker, 1000);
    ledger.mint(TokenId(2), taker, 100);

    let immutables =
        standard_immutables(hashlock, EscrowDirection::Maker2Taker, AmountCalc::Flat(500));
    let ctx = context(&ledger, &immutables, taker, 0);
    let receipt = factory.create_escrow(immutables, taker, ctx).unwrap();
    ledger.apply(&receipt.id, &receipt.flows);

    let withdrawal = factory.withdraw(&receipt.id, &secret, taker, 1001).unwrap();
    ledger.apply(&receipt.id, &withdrawal.flows);

    let error = factory.withdraw(&receipt.id, &secret, taker, 1001);
    assert_eq!(error.err(), Some(EscrowError::NotActive));
}

#[test]
fn test_withdraw_after_cancel() {
    let mut ledger = Ledger::new();
    let mut factory = EscrowFactory::new();

    let maker = AccountId(1);
    let taker = AccountId(2);
    let secret = generate_secret();
    let hashlock = hash_secret(&secret);

    ledger.mint(TokenId(1), maker, 1000);
    ledger.mint(TokenId(2), taker, 100);

    let immutables =
        standard_immutables(hashlock, EscrowDirection::Maker2Taker, AmountCalc::Flat(500));
    let ctx = context(&ledger, &immutables, taker, 0);
    let receipt = factory.create_escrow(immutables, taker, ctx).unwrap();
    ledger.apply(&receipt.id, &receipt.flows);

    let cancellation = factory.cancel(&receipt.id, taker, 3001, true).unwrap();
    ledger.apply(&receipt.id, &cancellation.flows);

    let error = factory.withdraw(&receipt.id, &secret, taker, 3001);
    assert_eq!(error.err(), Some(EscrowError::NotActive));
}

#[test]
fn test_dutch_auction_amount_calculation() {
    let start_time: u64 = 1000;
    let end_time: u64 = 2000;
    let dutch_auction = DutchAuction {
        start_time,
        end_time,
        start_amount: 1000,
        end_amount: 500,
    };

    let calc = AmountCalc::Linear(dutch_auction);

    assert_eq!(calc.calc(start_time), 1000);
    assert_eq!(calc.calc(end_time), 500);
    assert_eq!(calc.calc(1500), 750);
    assert_eq!(calc.calc(500), 1000);
    assert_eq!(calc.calc(2500), 500);
}

#[test]
fn test_create_escrow_unauthorized_taker() {
    let ledger = Ledger::new();
    let mut factory = EscrowFactory::new();

    let unauthorized_taker = AccountId(2);
    let secret = generate_secret();
    let hashlock = hash_secret(&secret);

    let immutables =
        standard_immutables(hashlock, EscrowDirection::Maker2Taker, AmountCalc::Flat(500));

    let mut ctx = context(&ledger, &immutables, unauthorized_taker, 0);
    ctx.taker_authorized = false;
    ctx.maker_authorized = false;

    let error = factory.create_escrow(immutables, unauthorized_taker, ctx);
    assert!(error.is_err());
}

#[test]
fn test_timelocks() {
    let deployed_at = 1_000_000u32;
    let mut timelocks = Timelocks::new(deployed_at);

    timelocks.set_stage(Stage::SrcWithdrawal, 300);
    timelocks.set_stage(Stage::DstWithdrawal, 600);

    assert_eq!(timelocks.get(Stage::SrcWithdrawal), Ok(1_000_300));
    assert_eq!(timelocks.get(Stage::DstWithdrawal), Ok(1_000_600));
    assert_eq!(timelocks.rescue_start(1000), Ok(1_001_000));
}
