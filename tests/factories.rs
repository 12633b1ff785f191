use htlc_escrow::address::Address;
use htlc_escrow::dst_factory::{EscrowDstFactory, Immutables as CombinedImmutables};
use htlc_escrow::factory::Error;
use htlc_escrow::network::Network;
use htlc_escrow::src_factory::{EscrowSrcFactory, Immutables as SrcImmutables};
use soroban_sdk::Env;

fn src_immutables() -> SrcImmutables {
    SrcImmutables {
        order_hash: [1u8; 32],
        hashlock: [2u8; 32],
        maker: Address::Account([11u8; 32]),
        taker: Address::Account([12u8; 32]),
        token: Address::Contract([13u8; 32]),
        amount: 1000,
        safety_deposit: 100,
        deployed_at: 0,
        src_withdrawal_start: 3600,
        src_public_withdrawal_start: 7200,
        src_cancellation_start: 10800,
        src_public_cancellation_start: 14400,
    }
}

fn combined_immutables() -> CombinedImmutables {
    CombinedImmutables {
        order_hash: [1u8; 32],
        hashlock: [2u8; 32],
        maker: Address::Account([11u8; 32]),
        taker: Address::Account([12u8; 32]),
        token: Address::Contract([13u8; 32]),
        amount: 1000,
        safety_deposit: 100,
        deployed_at: 0,
        src_withdrawal_start: 3600,
        src_public_withdrawal_start: 7200,
        src_cancellation_start: 10800,
        src_public_cancellation_start: 14400,
        dst_withdrawal_start: 3600,
        dst_public_withdrawal_start: 7200,
        dst_cancellation_start: 10800,
    }
}

#[test]
fn test_create_dst_escrow() {
    let env = Env::default();
    let network = Network::new(env.clone());
    let factory = EscrowDstFactory::new(Address::Contract([20u8; 32]));
    let escrow_address = factory.compute_escrow_address(&network, &combined_immutables());
    assert!(matches!(escrow_address, Address::Contract(_)));
}

#[test]
fn lib_test_compute_salt() {
    let immutables = combined_immutables();
    let salt = EscrowDstFactory::compute_salt(&immutables);
    assert!(salt != [0u8; 32]);
    let salt2 = EscrowDstFactory::compute_salt(&immutables);
    assert_eq!(salt, salt2);
}

#[test]
fn test_invalid_creation_time() {
    let env = Env::default();
    let network = Network::new(env.clone());
    let factory = EscrowDstFactory::new(Address::Contract([20u8; 32]));
    let immutables = combined_immutables();
    let src_cancellation_time = immutables.deployed_at + 5000;
    let result = factory.create_dst_escrow(&network, &immutables, src_cancellation_time);
    assert!(result.is_err());
}

#[test]
fn test_create_src_escrow() {
    let env = Env::default();
    let network = Network::new(env.clone());
    let factory = EscrowSrcFactory::new(Address::Contract([21u8; 32]));
    let escrow_address = factory.compute_escrow_address(&network, &src_immutables());
    assert!(matches!(escrow_address, Address::Contract(_)));
}

#[test]
fn test_compute_salt() {
    let immutables = src_immutables();
    let salt = EscrowSrcFactory::compute_salt(&immutables);
    assert!(salt != [0u8; 32]);
    let salt2 = EscrowSrcFactory::compute_salt(&immutables);
    assert_eq!(salt, salt2);
}

#[test]
fn salt_joins_the_first_halves() {
    let mut immutables = src_immutables();
    for i in 0..32 {
        immutables.order_hash[i] = i as u8;
        immutables.hashlock[i] = 100 + i as u8;
    }
    let salt = EscrowSrcFactory::compute_salt(&immutables);
    let mut expected = [0u8; 32];
    for i in 0..16 {
        expected[i] = i as u8;
        expected[16 + i] = 100 + i as u8;
    }
    assert_eq!(salt, expected);
}

#[test]
fn createsrc_returns_the_predicted_address() {
    let env = Env::default();
    let network = Network::new(env.clone());
    let factory = EscrowSrcFactory::new(Address::Contract([21u8; 32]));
    let immutables = src_immutables();
    let predicted = factory.compute_escrow_address(&network, &immutables);
    assert_eq!(factory.createsrc(&network, &immutables), Ok(predicted));
    let salt = EscrowSrcFactory::compute_salt(&immutables);
    assert_eq!(predicted, network.contract_address(&factory.address, &salt));
    assert!(predicted != factory.address);
}

#[test]
fn escrow_address_is_deterministic() {
    let env = Env::default();
    let network = Network::new(env.clone());
    let factory = EscrowSrcFactory::new(Address::Contract([21u8; 32]));
    let a = factory.compute_escrow_address(&network, &src_immutables());
    let b = factory.compute_escrow_address(&network, &src_immutables());
    assert_eq!(a, b);
    let mut other_order = src_immutables();
    other_order.order_hash[0] = 9;
    assert!(factory.compute_escrow_address(&network, &other_order) != a);
    let mut other_lock = src_immutables();
    other_lock.hashlock[15] = 9;
    assert!(factory.compute_escrow_address(&network, &other_lock) != a);
    let mut other_tail = src_immutables();
    other_tail.hashlock[16] = 9;
    other_tail.amount = 1;
    assert_eq!(factory.compute_escrow_address(&network, &other_tail), a);
    let other_factory = EscrowSrcFactory::new(Address::Contract([22u8; 32]));
    assert!(other_factory.compute_escrow_address(&network, &src_immutables()) != a);
}

#[test]
fn dst_creation_is_bounded_by_source_cancellation() {
    let env = Env::default();
    let network = Network::new(env.clone());
    let factory = EscrowDstFactory::new(Address::Contract([20u8; 32]));
    let mut immutables = combined_immutables();
    immutables.deployed_at = 1000;
    let t_dst = 1000 + 10800;
    assert_eq!(
        factory.create_dst_escrow(&network, &immutables, t_dst - 1),
        Err(Error::InvalidCreationTime)
    );
    let predicted = factory.compute_escrow_address(&network, &immutables);
    assert_eq!(factory.create_dst_escrow(&network, &immutables, t_dst), Ok(predicted));
    assert_eq!(factory.create_dst_escrow(&network, &immutables, u64::MAX), Ok(predicted));
    assert_eq!(factory.create_dst_escrow(&network, &immutables, 0), Err(Error::InvalidCreationTime));
    immutables.deployed_at = u64::MAX;
    assert_eq!(
        factory.create_dst_escrow(&network, &immutables, u64::MAX),
        Err(Error::InvalidCreationTime)
    );
}
