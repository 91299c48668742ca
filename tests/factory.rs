use fusion_swap::factory::{escrow_address, Error, ExtraDataArgs, FactoryEvent, FactoryTimelockParams, Order, StellarEscrowFactory};
use fusion_swap::primitives::Address;

fn digest(data: &[u8]) -> [u8; 32] {
    let env = soroban_sdk::Env::default();
    env.crypto().keccak256(&soroban_sdk::Bytes::from_slice(&env, data)).to_array()
}

fn delays() -> FactoryTimelockParams {
    FactoryTimelockParams {
        finality_delay: 60,
        src_withdrawal_delay: 120,
        src_public_withdrawal_delay: 180,
        src_cancellation_delay: 240,
        src_public_cancellation_delay: 300,
        dst_withdrawal_delay: 360,
        dst_public_withdrawal_delay: 420,
        dst_cancellation_delay: 480,
    }
}

fn ready_factory() -> StellarEscrowFactory {
    let mut factory = StellarEscrowFactory::new();
    factory.initialize([1u8; 32], Address::Account([7u8; 32]), Address::Contract([8u8; 32])).unwrap();
    factory
}

fn create(factory: &mut StellarEscrowFactory, hash_lock: [u8; 32], amount: i128, timelocks: FactoryTimelockParams) -> Result<Address, Error> {
    factory.create_src_escrow(
        1000,
        [5u8; 32],
        hash_lock,
        Address::Account([11u8; 32]),
        Address::Account([12u8; 32]),
        Address::Contract([13u8; 32]),
        amount,
        100,
        timelocks,
    )
}

#[test]
fn test_factory_initialize() {
    let mut factory = StellarEscrowFactory::new();
    let admin = Address::Account([7u8; 32]);
    factory.initialize([1u8; 32], admin, Address::Contract([8u8; 32])).unwrap();
    assert_eq!(factory.get_admin(), Ok(admin));
    assert_eq!(factory.get_escrow_wasm_hash(), Ok([1u8; 32]));
    assert_eq!(factory.get_limit_order_protocol(), Ok(Address::Contract([8u8; 32])));
    assert_eq!(factory.initialize([2u8; 32], admin, admin), Err(Error::AlreadyInitialized));
}

#[test]
fn test_escrow_exists_before_creation() {
    let factory = ready_factory();
    assert!(!factory.escrow_exists([3u8; 32]));
}

#[test]
fn test_get_escrow_address_not_found() {
    let factory = ready_factory();
    let result = factory.get_escrow_address([3u8; 32]);
    assert!(result.is_err());
    assert_eq!(result.unwrap_err(), Error::EscrowNotFound);
}

#[test]
fn uninitialized_factory_refuses() {
    let mut factory = StellarEscrowFactory::new();
    assert_eq!(create(&mut factory, [3u8; 32], 10, delays()), Err(Error::NotInitialized));
    assert_eq!(factory.get_admin(), Err(Error::NotInitialized));
}

#[test]
fn created_escrow_is_registered_at_its_derived_address() {
    let mut factory = ready_factory();
    let hash_lock = [3u8; 32];
    let a = create(&mut factory, hash_lock, 10, delays()).unwrap();

    let mut preimage = vec![1u8; 32];
    preimage.extend_from_slice(&hash_lock);
    assert_eq!(a, Address::Contract(digest(&preimage)));
    assert_eq!(a, escrow_address(&[1u8; 32], &hash_lock));
    assert_ne!(a, Address::Contract(hash_lock));

    assert!(factory.escrow_exists(hash_lock));
    assert_eq!(factory.get_escrow_address(hash_lock), Ok(a));
    assert_eq!(factory.events.len(), 1);
    match factory.events[0] {
        FactoryEvent::SrcEscrowCreated(r) => {
            assert_eq!(r.escrow_address, a);
            assert_eq!(r.timelocks.deployed_at, 1000);
            assert_eq!(r.timelocks.dst_cancellation, 480);
        }
        _ => panic!("expected a source-leg record"),
    }
}

#[test]
fn second_escrow_for_a_hash_lock_is_refused() {
    let mut factory = ready_factory();
    let first = create(&mut factory, [3u8; 32], 10, delays()).unwrap();
    assert_eq!(create(&mut factory, [3u8; 32], 999, delays()), Err(Error::EscrowExists));
    let dst = factory.create_dst_escrow(
        2000,
        [6u8; 32],
        [3u8; 32],
        Address::Account([1u8; 32]),
        Address::Account([2u8; 32]),
        Address::Contract([3u8; 32]),
        5,
        5,
        delays(),
        Address::Account([2u8; 32]),
    );
    assert_eq!(dst, Err(Error::EscrowExists));
    assert_eq!(factory.get_escrow_address([3u8; 32]), Ok(first));
    assert_eq!(factory.registry.len(), 1);
    assert!(create(&mut factory, [4u8; 32], 10, delays()).is_ok());
    assert_eq!(factory.registry.len(), 2);
}

#[test]
fn bad_parameters_are_refused() {
    let mut factory = ready_factory();
    assert_eq!(create(&mut factory, [3u8; 32], 0, delays()), Err(Error::InvalidParams));
    let mut t = delays();
    t.src_cancellation_delay = 180;
    assert_eq!(create(&mut factory, [3u8; 32], 10, t), Err(Error::InvalidParams));
    let mut t = delays();
    t.dst_withdrawal_delay = 60;
    assert_eq!(create(&mut factory, [3u8; 32], 10, t), Err(Error::InvalidParams));
    assert!(!factory.escrow_exists([3u8; 32]));
    assert!(factory.events.is_empty());
}

#[test]
fn destination_leg_is_recorded_as_such() {
    let mut factory = ready_factory();
    let a = factory
        .create_dst_escrow(
            2000,
            [6u8; 32],
            [9u8; 32],
            Address::Account([1u8; 32]),
            Address::Account([2u8; 32]),
            Address::Contract([3u8; 32]),
            5,
            5,
            delays(),
            Address::Account([2u8; 32]),
        )
        .unwrap();
    assert!(matches!(factory.events[0], FactoryEvent::DstEscrowCreated(r) if r.escrow_address == a));
}

fn filled_order() -> Order {
    Order {
        salt: 1,
        maker: Address::Account([11u8; 32]),
        receiver: Address::Account([21u8; 32]),
        maker_asset: Address::Contract([13u8; 32]),
        taker_asset: Address::Contract([14u8; 32]),
        making_amount: 1000,
        taking_amount: 500,
        maker_traits: 0,
    }
}

fn extra(hash_lock: [u8; 32]) -> ExtraDataArgs {
    ExtraDataArgs {
        hashlock_info: hash_lock,
        dst_chain_id: 1,
        dst_token: Address::Contract([22u8; 32]),
        deposits: (5u128 << 64) | 77,
        timelocks: delays(),
    }
}

#[test]
fn fill_report_opens_the_source_leg() {
    let mut factory = ready_factory();
    let lop = Address::Contract([8u8; 32]);
    let taker = Address::Account([12u8; 32]);
    let dst = factory
        .post_interaction(1500, lop, &filled_order(), [5u8; 32], taker, 1000, 500, &extra([31u8; 32]), 1000)
        .unwrap();
    assert_eq!(dst.maker, Address::Account([21u8; 32]));
    assert_eq!(dst.amount, 500);
    assert_eq!(dst.token, Address::Contract([22u8; 32]));
    assert_eq!(dst.safety_deposit, 77);
    assert_eq!(dst.chain_id, 1);
    let a = factory.get_escrow_address([31u8; 32]).unwrap();
    assert_eq!(a, escrow_address(&[1u8; 32], &[31u8; 32]));
    match factory.events[0] {
        FactoryEvent::SrcEscrowCreated(r) => {
            assert_eq!(r.amount, 1000);
            assert_eq!(r.safety_deposit, 5);
            assert_eq!(r.taker, taker);
            assert_eq!(r.timelocks.deployed_at, 1500);
        }
        _ => panic!("expected a source-leg record"),
    }
}

#[test]
fn fill_report_checks_caller_balance_and_reuse() {
    let mut factory = ready_factory();
    let lop = Address::Contract([8u8; 32]);
    let taker = Address::Account([12u8; 32]);
    let o = filled_order();
    assert_eq!(
        factory.post_interaction(0, taker, &o, [5u8; 32], taker, 1000, 500, &extra([31u8; 32]), 1000).unwrap_err(),
        Error::Unauthorized
    );
    assert_eq!(
        factory.post_interaction(0, lop, &o, [5u8; 32], taker, 1000, 500, &extra([31u8; 32]), 999).unwrap_err(),
        Error::InsufficientEscrowBalance
    );
    let mut bad = extra([31u8; 32]);
    bad.timelocks.src_withdrawal_delay = 60;
    assert_eq!(factory.post_interaction(0, lop, &o, [5u8; 32], taker, 1000, 500, &bad, 1000).unwrap_err(), Error::InvalidParams);
    assert!(factory.events.is_empty());
    assert!(factory.post_interaction(0, lop, &o, [5u8; 32], taker, 1000, 500, &extra([31u8; 32]), 1000).is_ok());
    assert_eq!(
        factory.post_interaction(0, lop, &o, [5u8; 32], taker, 1000, 500, &extra([31u8; 32]), 1000).unwrap_err(),
        Error::EscrowExists
    );
    assert_eq!(create(&mut factory, [31u8; 32], 10, delays()), Err(Error::EscrowExists));
}

#[test]
fn created_escrow_is_initialized_at_its_address() {
    let mut factory = ready_factory();
    let a = create(&mut factory, [3u8; 32], 10, delays()).unwrap();
    let e = factory.get_escrow([3u8; 32]).unwrap();
    assert_eq!(e.address, a);
    assert!(!e.is_withdrawn_status().unwrap());
    assert!(!e.is_cancelled_status().unwrap());
    let imm = e.get_immutables().unwrap();
    assert_eq!(imm.hash_lock, [3u8; 32]);
    assert_eq!(imm.order_hash, [5u8; 32]);
    assert_eq!(imm.maker, Address::Account([11u8; 32]));
    assert_eq!(imm.taker, Address::Account([12u8; 32]));
    assert_eq!(imm.token, Address::Contract([13u8; 32]));
    assert_eq!(imm.amount, 10);
    assert_eq!(imm.safety_deposit, 100);
    assert_eq!(imm.timelocks.deployed_at, 1000);
    assert_eq!(imm.timelocks.withdrawal, 120);
    assert_eq!(imm.timelocks.public_cancellation, 300);
    assert!(matches!(factory.get_escrow([4u8; 32]), Err(Error::EscrowNotFound)));
}

#[test]
fn destination_escrow_follows_the_destination_schedule() {
    let mut factory = ready_factory();
    factory
        .create_dst_escrow(2000, [6u8; 32], [9u8; 32], Address::Account([1u8; 32]), Address::Account([2u8; 32]),
            Address::Contract([3u8; 32]), 5, 5, delays(), Address::Account([2u8; 32]))
        .unwrap();
    let t = factory.get_escrow([9u8; 32]).unwrap().get_immutables().unwrap().timelocks;
    assert_eq!((t.withdrawal, t.public_withdrawal, t.cancellation), (360, 420, 480));
    assert_eq!(t.public_cancellation, u32::MAX);
    let mut last = delays();
    last.dst_cancellation_delay = u32::MAX;
    assert_eq!(create(&mut factory, [10u8; 32], 10, last), Err(Error::InvalidParams));
}

#[test]
fn fill_report_checks_the_amount_range() {
    let mut factory = ready_factory();
    let lop = Address::Contract([8u8; 32]);
    let taker = Address::Account([12u8; 32]);
    let o = filled_order();
    let huge = 1u128 << 127;
    assert_eq!(
        factory.post_interaction(0, lop, &o, [5u8; 32], taker, huge, 500, &extra([31u8; 32]), 0).unwrap_err(),
        Error::InvalidParams
    );
    assert_eq!(
        factory.post_interaction(0, lop, &o, [5u8; 32], taker, 0, 500, &extra([31u8; 32]), 0).unwrap_err(),
        Error::InvalidParams
    );
    let mut no_deposit = extra([31u8; 32]);
    no_deposit.deposits = 77;
    assert_eq!(
        factory.post_interaction(0, lop, &o, [5u8; 32], taker, 10, 500, &no_deposit, 10).unwrap_err(),
        Error::InvalidParams
    );
    assert_eq!(
        factory.post_interaction(0, lop, &o, [5u8; 32], taker, 10, 500, &extra([31u8; 32]), -1).unwrap_err(),
        Error::InsufficientEscrowBalance
    );
    assert!(factory.post_interaction(0, lop, &o, [5u8; 32], taker, 10, 500, &extra([31u8; 32]), 10).is_ok());
    let imm = factory.get_escrow([31u8; 32]).unwrap().get_immutables().unwrap();
    assert_eq!((imm.amount, imm.safety_deposit), (10, 5));
}
