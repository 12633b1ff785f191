use htlc_escrow::address::Address;
use htlc_escrow::escrow_src::{EscrowSrc, Error, Immutables, Stage, State};
use htlc_escrow::network::Network;
use soroban_sdk::Env;

struct Setup {
    network: Network,
    escrow: EscrowSrc,
    deployer: Address,
    salt: [u8; 32],
    maker: Address,
    taker: Address,
    token: Address,
}

fn setup(env: &Env) -> Setup {
    let network = Network::new(env.clone());
    let deployer = Address::Account([10u8; 32]);
    let salt = [1u8; 32];
    let address = EscrowSrc::compute_address(&network, &deployer, &salt);
    Setup {
        network,
        escrow: EscrowSrc::new(address),
        deployer,
        salt,
        maker: Address::Account([11u8; 32]),
        taker: Address::Account([12u8; 32]),
        token: Address::Contract([13u8; 32]),
    }
}

fn immutables(s: &Setup, hashlock: [u8; 32]) -> Immutables {
    Immutables {
        order_hash: [3u8; 32],
        hashlock,
        maker: s.maker,
        taker: s.taker,
        token: s.token,
        amount: 1000,
        safety_deposit: 100,
        deployed_at: 0,
        src_withdrawal_start: 60,
        src_public_withdrawal_start: 120,
        src_cancellation_start: 300,
        src_public_cancellation_start: 600,
        dst_withdrawal_start: 0,
        dst_public_withdrawal_start: 0,
        dst_cancellation_start: 0,
    }
}

fn initialized(env: &Env, hashlock: [u8; 32]) -> Setup {
    let mut s = setup(env);
    let imm = immutables(&s, hashlock);
    s.escrow.init(&s.network, s.deployer, s.salt, imm, 0).unwrap();
    s
}

#[test]
fn test_init() {
    let env = Env::default();
    let s = initialized(&env, [2u8; 32]);
    let state = s.escrow.get_state().unwrap();
    assert_eq!(state, State::Active);
}

#[test]
fn test_withdraw() {
    let env = Env::default();
    let hashlock = [2u8; 32];
    let secret = hashlock;
    let mut s = initialized(&env, hashlock);
    // The call comes from the escrow's own address, which is not the taker.
    let caller = s.escrow.address;
    let result = s.escrow.withdraw(&s.network, &caller, 0, &secret);
    assert!(result.is_err());
    let result = s.escrow.withdraw(&s.network, &caller, 100, &secret);
    assert!(result.is_err());
    let state = s.escrow.get_state().unwrap();
    assert_eq!(state, State::Active);
}

#[test]
fn test_withdraw_to() {
    let env = Env::default();
    let hashlock = [2u8; 32];
    let secret = hashlock;
    let mut s = initialized(&env, hashlock);
    let target = Address::Account([14u8; 32]);
    let caller = s.escrow.address;
    let result = s.escrow.wdrawto(&s.network, &caller, 100, &secret, &target);
    assert!(result.is_err());
    let state = s.escrow.get_state().unwrap();
    assert_eq!(state, State::Active);
}

#[test]
fn test_public_withdrawal() {
    let env = Env::default();
    let network = Network::new(env.clone());
    let secret = [2u8; 32];
    let hashlock = network.commitment(&secret);
    let mut s = initialized(&env, hashlock);
    let caller = s.escrow.address;
    let result = s.escrow.public_withdraw(&s.network, &caller, 0, &secret);
    assert!(result.is_err());
    let result = s.escrow.public_withdraw(&s.network, &caller, 150, &secret);
    assert!(result.is_ok());
    let state = s.escrow.get_state().unwrap();
    assert_eq!(state, State::Withdrawn);
}

#[test]
fn test_cancellation_after_timeout() {
    let env = Env::default();
    let mut s = initialized(&env, [2u8; 32]);
    let caller = s.escrow.address;
    let result = s.escrow.cancel(&caller, 400);
    assert!(result.is_err());
    let state = s.escrow.get_state().unwrap();
    assert_eq!(state, State::Active);
}

#[test]
fn test_public_cancellation() {
    let env = Env::default();
    let mut s = initialized(&env, [2u8; 32]);
    let caller = s.escrow.address;
    let result = s.escrow.public_cancel(&caller, 700);
    assert!(result.is_ok());
    let state = s.escrow.get_state().unwrap();
    assert_eq!(state, State::Cancelled);
}

#[test]
fn test_invalid_secret() {
    let env = Env::default();
    let hashlock = [2u8; 32];
    let secret = [3u8; 32];
    let mut s = initialized(&env, hashlock);
    let taker = s.taker;
    let result = s.escrow.withdraw(&s.network, &taker, 100, &secret);
    assert!(result.is_err());
    assert_eq!(result.unwrap_err(), Error::InvalidSecret);
    let state = s.escrow.get_state().unwrap();
    assert_eq!(state, State::Active);
}

#[test]
fn test_time_validation() {
    let env = Env::default();
    let s = initialized(&env, [2u8; 32]);
    assert_eq!(s.escrow.time_until_stage(Stage::SrcWithdrawal, 0), Ok(60));
    assert_eq!(s.escrow.time_until_stage(Stage::SrcPublicWithdrawal, 0), Ok(120));
    assert_eq!(s.escrow.time_until_stage(Stage::SrcCancellation, 0), Ok(300));
    assert_eq!(s.escrow.time_until_stage(Stage::SrcPublicCancellation, 0), Ok(600));
    assert_eq!(s.escrow.time_until_stage(Stage::SrcWithdrawal, 100), Ok(0));
    assert_eq!(s.escrow.time_until_stage(Stage::SrcPublicWithdrawal, 100), Ok(20));
}

#[test]
fn taker_withdraws_with_the_preimage() {
    let env = Env::default();
    let network = Network::new(env.clone());
    let secret = [7u8; 32];
    let mut s = initialized(&env, network.commitment(&secret));
    let taker = s.taker;
    let payout = s.escrow.withdraw(&s.network, &taker, 100, &secret).unwrap();
    assert_eq!(payout.token, s.token);
    assert_eq!(payout.recipient, s.taker);
    assert_eq!(payout.amount, 1000);
    assert_eq!(payout.deposit_recipient, taker);
    assert_eq!(payout.safety_deposit, 100);
    assert_eq!(s.escrow.get_state(), Ok(State::Withdrawn));
}

#[test]
fn withdraw_to_sends_tokens_to_the_target() {
    let env = Env::default();
    let network = Network::new(env.clone());
    let secret = [7u8; 32];
    let mut s = initialized(&env, network.commitment(&secret));
    let taker = s.taker;
    let target = Address::Account([14u8; 32]);
    let payout = s.escrow.wdrawto(&s.network, &taker, 60, &secret, &target).unwrap();
    assert_eq!(payout.recipient, target);
    assert_eq!(payout.deposit_recipient, taker);
    assert_eq!(s.escrow.get_state(), Ok(State::Withdrawn));
}

#[test]
fn withdraw_is_gated_by_the_taker_window() {
    let env = Env::default();
    let network = Network::new(env.clone());
    let secret = [7u8; 32];
    let mut s = initialized(&env, network.commitment(&secret));
    let taker = s.taker;
    assert_eq!(s.escrow.withdraw(&s.network, &taker, 59, &secret).unwrap_err(), Error::InvalidTime);
    assert_eq!(s.escrow.withdraw(&s.network, &taker, 300, &secret).unwrap_err(), Error::InvalidTime);
    assert_eq!(s.escrow.withdraw(&s.network, &taker, 1000, &secret).unwrap_err(), Error::InvalidTime);
    assert_eq!(s.escrow.get_state(), Ok(State::Active));
    assert!(s.escrow.withdraw(&s.network, &taker, 299, &secret).is_ok());
}

#[test]
fn only_the_taker_withdraws_in_the_taker_window() {
    let env = Env::default();
    let network = Network::new(env.clone());
    let secret = [7u8; 32];
    let mut s = initialized(&env, network.commitment(&secret));
    let maker = s.maker;
    assert_eq!(s.escrow.withdraw(&s.network, &maker, 100, &secret).unwrap_err(), Error::InvalidCaller);
    assert_eq!(s.escrow.public_withdraw(&s.network, &maker, 100, &secret).unwrap_err(), Error::InvalidTime);
    let payout = s.escrow.public_withdraw(&s.network, &maker, 120, &secret).unwrap();
    assert_eq!(payout.recipient, s.taker);
    assert_eq!(payout.deposit_recipient, maker);
}

#[test]
fn public_withdraw_rejects_a_wrong_secret() {
    let env = Env::default();
    let network = Network::new(env.clone());
    let mut s = initialized(&env, network.commitment(&[7u8; 32]));
    let anyone = Address::Account([15u8; 32]);
    let result = s.escrow.public_withdraw(&s.network, &anyone, 200, &[8u8; 32]);
    assert_eq!(result.unwrap_err(), Error::InvalidSecret);
    assert_eq!(s.escrow.get_state(), Ok(State::Active));
}

#[test]
fn public_cancel_opens_at_the_public_cancellation_stage() {
    let env = Env::default();
    let mut s = initialized(&env, [2u8; 32]);
    let anyone = Address::Account([15u8; 32]);
    assert_eq!(s.escrow.public_cancel(&anyone, 599).unwrap_err(), Error::InvalidTime);
    assert_eq!(s.escrow.get_state(), Ok(State::Active));
    let payout = s.escrow.public_cancel(&anyone, 600).unwrap();
    assert_eq!(payout.recipient, s.maker);
    assert_eq!(payout.amount, 1000);
    assert_eq!(payout.deposit_recipient, anyone);
    assert_eq!(payout.safety_deposit, 100);
    assert_eq!(s.escrow.get_state(), Ok(State::Cancelled));
}

#[test]
fn taker_cancels_after_the_cancellation_stage() {
    let env = Env::default();
    let mut s = initialized(&env, [2u8; 32]);
    let taker = s.taker;
    assert_eq!(s.escrow.cancel(&taker, 299).unwrap_err(), Error::InvalidTime);
    let payout = s.escrow.cancel(&taker, 300).unwrap();
    assert_eq!(payout.recipient, s.maker);
    assert_eq!(payout.deposit_recipient, taker);
    assert_eq!(s.escrow.get_state(), Ok(State::Cancelled));
}

#[test]
fn second_init_fails_and_keeps_the_terms() {
    let env = Env::default();
    let mut s = initialized(&env, [2u8; 32]);
    let before = s.escrow.get_immutables().unwrap();
    let mut other = immutables(&s, [9u8; 32]);
    other.amount = 5;
    let result = s.escrow.init(&s.network, s.deployer, s.salt, other, 50);
    assert_eq!(result, Err(Error::AlreadyInitialized));
    let after = s.escrow.get_immutables().unwrap();
    assert_eq!(after.hashlock, before.hashlock);
    assert_eq!(after.amount, 1000);
    assert_eq!(after.deployed_at, 0);
}

#[test]
fn init_fixes_the_deployment_time() {
    let env = Env::default();
    let mut s = setup(&env);
    let mut imm = immutables(&s, [2u8; 32]);
    imm.deployed_at = 5;
    s.escrow.init(&s.network, s.deployer, s.salt, imm, 1000).unwrap();
    assert_eq!(s.escrow.get_immutables().unwrap().deployed_at, 1000);
    assert_eq!(s.escrow.time_until_stage(Stage::SrcWithdrawal, 1000), Ok(60));
}

#[test]
fn init_rejects_a_foreign_address() {
    let env = Env::default();
    let mut s = setup(&env);
    let imm = immutables(&s, [2u8; 32]);
    let result = s.escrow.init(&s.network, s.deployer, [5u8; 32], imm, 0);
    assert_eq!(result, Err(Error::InvalidAddress));
    assert_eq!(s.escrow.get_state(), Err(Error::NotInitialized));
}

#[test]
fn init_rejects_an_unordered_schedule() {
    let env = Env::default();
    let mut s = setup(&env);
    let mut imm = immutables(&s, [2u8; 32]);
    imm.src_cancellation_start = 120;
    let result = s.escrow.init(&s.network, s.deployer, s.salt, imm, 0);
    assert_eq!(result, Err(Error::InvalidImmutables));
}

#[test]
fn operations_need_an_initialized_escrow() {
    let env = Env::default();
    let mut s = setup(&env);
    let taker = s.taker;
    assert_eq!(s.escrow.get_immutables().unwrap_err(), Error::NotInitialized);
    assert_eq!(s.escrow.withdraw(&s.network, &taker, 100, &[2u8; 32]).unwrap_err(), Error::NotInitialized);
    assert_eq!(s.escrow.cancel(&taker, 400).unwrap_err(), Error::NotInitialized);
    assert_eq!(s.escrow.time_until_stage(Stage::SrcWithdrawal, 0), Err(Error::NotInitialized));
}

#[test]
fn a_settled_escrow_stays_settled() {
    let env = Env::default();
    let network = Network::new(env.clone());
    let secret = [7u8; 32];
    let mut s = initialized(&env, network.commitment(&secret));
    let taker = s.taker;
    s.escrow.withdraw(&s.network, &taker, 100, &secret).unwrap();
    assert_eq!(s.escrow.withdraw(&s.network, &taker, 100, &secret).unwrap_err(), Error::AlreadyWithdrawn);
    assert_eq!(s.escrow.public_withdraw(&s.network, &taker, 200, &secret).unwrap_err(), Error::AlreadyWithdrawn);
    assert_eq!(s.escrow.cancel(&taker, 400).unwrap_err(), Error::AlreadyWithdrawn);
    assert_eq!(s.escrow.public_cancel(&taker, 700).unwrap_err(), Error::AlreadyWithdrawn);
    let imm = immutables(&s, [2u8; 32]);
    assert_eq!(s.escrow.init(&s.network, s.deployer, s.salt, imm, 0), Err(Error::AlreadyInitialized));
    assert_eq!(s.escrow.get_state(), Ok(State::Withdrawn));

    let mut c = initialized(&env, network.commitment(&secret));
    c.escrow.public_cancel(&taker, 700).unwrap();
    assert_eq!(c.escrow.withdraw(&c.network, &taker, 100, &secret).unwrap_err(), Error::AlreadyCancelled);
    assert_eq!(c.escrow.cancel(&taker, 700).unwrap_err(), Error::AlreadyCancelled);
    assert_eq!(c.escrow.get_state(), Ok(State::Cancelled));
}

#[test]
fn time_until_stage_saturates() {
    let env = Env::default();
    let mut s = setup(&env);
    let imm = immutables(&s, [2u8; 32]);
    s.escrow.init(&s.network, s.deployer, s.salt, imm, u64::MAX).unwrap();
    assert_eq!(s.escrow.time_until_stage(Stage::SrcPublicCancellation, u64::MAX), Ok(600));
    assert_eq!(s.escrow.time_until_stage(Stage::SrcWithdrawal, 0), Ok(i64::MAX));
    assert_eq!(EscrowSrc::get_stage_time(&s.escrow.get_immutables().unwrap(), Stage::SrcCancellation), u64::MAX as u128 + 300);
}

#[test]
fn commitment_is_the_sha256_digest() {
    let env = Env::default();
    let network = Network::new(env.clone());
    let digest = network.commitment(&[0u8; 32]);
    // SHA-256 of 32 zero bytes.
    let expected: [u8; 32] = [
        0x66, 0x68, 0x7a, 0xad, 0xf8, 0x62, 0xbd, 0x77, 0x6c, 0x8f, 0xc1, 0x8b, 0x8e, 0x9f, 0x8e, 0x20,
        0x08, 0x97, 0x14, 0x85, 0x6e, 0xe2, 0x33, 0xb3, 0x90, 0x2a, 0x59, 0x1d, 0x0d, 0x5f, 0x29, 0x25,
    ];
    assert_eq!(digest, expected);
}
