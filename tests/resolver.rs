use soroban_sdk::xdr::ToXdr;
use fusion_swap::escrow::Asset;
use fusion_swap::primitives::Address;
use fusion_swap::resolver::{
    parse_arbitrary_call_args, prepare_args_with_target, BaseEscrowImmutables, Error, EscrowCall, Order, StellarResolver,
    Timelocks,
};

fn admin() -> Address {
    Address::Account([1u8; 32])
}

fn resolver() -> StellarResolver {
    let mut r = StellarResolver::new(Address::Contract([2u8; 32]));
    r.initialize(Address::Contract([3u8; 32]), Address::Contract([4u8; 32]), admin()).unwrap();
    r
}

fn immutables() -> BaseEscrowImmutables {
    BaseEscrowImmutables {
        order_hash: [5u8; 32],
        hashlock: [6u8; 32],
        maker: Address::Account([7u8; 32]),
        taker: Address::Contract([2u8; 32]),
        token: Address::Contract([8u8; 32]),
        amount: 1000,
        safety_deposit: 10,
        timelocks: Timelocks {
            finality: 60,
            src_withdrawal: 120,
            src_public_withdrawal: 180,
            src_cancellation: 240,
            src_public_cancellation: 300,
            dst_withdrawal: (1u64 << 32) + 360,
            dst_public_withdrawal: 420,
            dst_cancellation: 480,
            deployed_at: 0,
        },
    }
}

fn order() -> Order {
    Order {
        salt: 1,
        maker: Address::Account([7u8; 32]),
        receiver: Address::Account([7u8; 32]),
        maker_asset: Address::Contract([8u8; 32]),
        taker_asset: Address::Contract([9u8; 32]),
        making_amount: 1000,
        taking_amount: 500,
        maker_traits: 0,
    }
}

#[test]
fn only_the_admin_drives_the_resolver() {
    let r = resolver();
    let other = Address::Account([9u8; 32]);
    assert!(matches!(r.withdraw(other, Address::Contract([1u8; 32]), [0u8; 32], immutables()), Err(Error::Unauthorized)));
    assert!(matches!(r.cancel(other, Address::Contract([1u8; 32]), immutables()), Err(Error::Unauthorized)));
    assert!(matches!(r.deploy_dst(other, immutables(), 0), Err(Error::Unauthorized)));
    let fresh = StellarResolver::new(Address::Contract([2u8; 32]));
    assert!(matches!(fresh.cancel(admin(), Address::Contract([1u8; 32]), immutables()), Err(Error::Unauthorized)));
}

#[test]
fn escrow_calls_carry_their_arguments() {
    let r = resolver();
    let escrow = Address::Contract([1u8; 32]);
    match r.withdraw(admin(), escrow, [4u8; 32], immutables()).unwrap() {
        EscrowCall::Withdraw { escrow: e, secret, .. } => {
            assert_eq!(e, escrow);
            assert_eq!(secret, [4u8; 32]);
        }
        _ => panic!("expected a withdrawal"),
    }
    assert!(matches!(r.cancel(admin(), escrow, immutables()).unwrap(), EscrowCall::Cancel { .. }));
}

#[test]
fn source_deployment_stamps_time_and_targets_the_escrow() {
    let r = resolver();
    let escrow = fusion_swap::factory::escrow_address(&[42u8; 32], &immutables().hashlock);
    let d = r.deploy_src(777, admin(), immutables(), [42u8; 32], order(), &vec![0u8; 64], 100, [0u8; 32], &vec![0xaa]).unwrap();
    assert_eq!(d.escrow, escrow);
    assert_eq!(d.immutables.timelocks.deployed_at, 777);
    assert!(matches!(d.safety_deposit.asset, Asset::Native));
    assert_eq!(d.safety_deposit.from, Address::Contract([2u8; 32]));
    assert_eq!(d.safety_deposit.to, escrow);
    assert_eq!(d.safety_deposit.amount, 10);
    assert_eq!(d.fill.protocol, Address::Contract([4u8; 32]));
    assert_eq!(d.fill.args.len(), 8 + 32 + 1);
    assert_eq!(d.fill.args[..8], [0u8, 0, 0, 18, 0, 0, 0, 1]);
    assert_eq!(d.fill.args[40], 0xaa);
}

#[test]
fn destination_request_refuses_values_out_of_range() {
    let r = resolver();
    assert!(matches!(r.deploy_dst(admin(), immutables(), 999), Err(Error::InvalidParams)));
    let mut fits = immutables();
    fits.timelocks.dst_withdrawal = 360;
    let q = r.deploy_dst(admin(), fits, 999).unwrap();
    assert_eq!(q.factory, Address::Contract([3u8; 32]));
    assert_eq!(q.amount, 1000);
    assert_eq!(q.safety_deposit, 10);
    assert_eq!(q.timelocks.dst_withdrawal_delay, 360);
    assert_eq!(q.timelocks.dst_cancellation_delay, 480);
    let mut big = fits;
    big.amount = 1u128 << 127;
    assert!(matches!(r.deploy_dst(admin(), big, 999), Err(Error::InvalidParams)));
}

#[test]
fn source_deployment_refuses_a_deposit_out_of_range() {
    let r = resolver();
    let mut big = immutables();
    big.safety_deposit = u128::MAX;
    assert!(matches!(
        r.deploy_src(1, admin(), big, [42u8; 32], order(), &vec![0u8; 64], 100, [0u8; 32], &Vec::new()),
        Err(Error::InvalidParams)
    ));
}

#[test]
fn target_prefix_is_the_address_encoding() {
    let account = Address::Account([0x11u8; 32]);
    let out = prepare_args_with_target(&account, &vec![1, 2]);
    assert_eq!(out.len(), 12 + 32 + 2);
    assert_eq!(out[..12], [0u8, 0, 0, 18, 0, 0, 0, 0, 0, 0, 0, 0]);
    assert_eq!(out[12], 0x11);
    assert_eq!(out[44..], [1u8, 2]);
}

#[test]
fn call_data_is_split_into_name_and_arguments() {
    let target = Address::Contract([1u8; 32]);
    let data = vec![b'c', b'a', b'n', b'c', b'e', b'l', 0, 0, 9, 9];
    let c = parse_arbitrary_call_args(target, &data).unwrap();
    assert_eq!(c.function_name, b"cancel".to_vec());
    assert_eq!(c.args, vec![9u8, 9]);
    assert_eq!(c.target, target);

    assert!(matches!(parse_arbitrary_call_args(target, &vec![b'a'; 7]), Err(Error::InvalidCallData)));
    assert!(matches!(parse_arbitrary_call_args(target, &vec![b'a', b'-', 0, 0, 0, 0, 0, 0]), Err(Error::InvalidCallData)));
    let empty_name = parse_arbitrary_call_args(target, &vec![0u8; 8]).unwrap();
    assert!(empty_name.function_name.is_empty());
    assert!(empty_name.args.is_empty());
}

#[test]
fn arbitrary_calls_need_matching_lengths() {
    let r = resolver();
    let targets = vec![Address::Contract([1u8; 32]), Address::Contract([2u8; 32])];
    let args = vec![b"withdraw".to_vec()];
    assert!(matches!(r.arbitrary_calls(admin(), &targets, &args), Err(Error::LengthMismatch)));
    let args = vec![b"withdraw".to_vec(), b"cancel\0\0\x01".to_vec()];
    let calls = r.arbitrary_calls(admin(), &targets, &args).unwrap();
    assert_eq!(calls.len(), 2);
    assert_eq!(calls[1].function_name, b"cancel".to_vec());
    assert_eq!(calls[1].args, vec![1u8]);
    assert!(matches!(r.arbitrary_calls(Address::Account([9u8; 32]), &targets, &args), Err(Error::Unauthorized)));
}

#[test]
fn address_encoding_matches_the_host() {
    let env = soroban_sdk::Env::default();
    let host = soroban_sdk::Address::from_string(&soroban_sdk::String::from_str(
        &env,
        "CAS3J7GYLGXMF6TDJBBYYSE3HQ6BBSMLNUQ34T6TZMYMW2EVH34XOWMA",
    ));
    let raw: Vec<u8> = host.to_xdr(&env).iter().collect();
    let a = fusion_swap::primitives::address_from_xdr(&raw).unwrap();
    assert!(matches!(a, Address::Contract(_)));
    let mut again = Vec::new();
    fusion_swap::primitives::append_address_xdr(&mut again, &a);
    assert_eq!(again, raw);
    assert_eq!(fusion_swap::primitives::address_from_xdr(&raw[..39]), None);
}
