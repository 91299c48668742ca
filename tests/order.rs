use fusion_swap::order::{hash_order, Error, Order, OrderEvent, ResolverOrder, StellarLimitOrderProtocol, TakerTraits};
use fusion_swap::primitives::Address;

fn sample_order(salt: u64) -> Order {
    Order {
        salt,
        maker_asset: Address::Contract([3u8; 32]),
        taker_asset: Address::Contract([4u8; 32]),
        maker: Address::Account([1u8; 32]),
        receiver: Address::Account([2u8; 32]),
        allowed_sender: Address::Account([1u8; 32]),
        making_amount: 1000,
        taking_amount: 500,
        offsets: 0,
        interactions: Vec::new(),
    }
}

fn traits() -> TakerTraits {
    TakerTraits { threshold: 1000, skip_maker_permit: false }
}

fn protocol() -> StellarLimitOrderProtocol {
    let mut lop = StellarLimitOrderProtocol::new(Address::Contract([9u8; 32]));
    lop.initialize().unwrap();
    lop
}

#[test]
fn test_protocol_initialize() {
    let lop = protocol();
    assert!(lop.remaining.is_empty());
    assert_eq!(lop.remaining_invalidator_for_order(Address::Account([1u8; 32]), [1u8; 32]), 0);
}

#[test]
fn test_hash_order() {
    let order = sample_order(12345);
    let hash1 = hash_order(&order);
    let hash2 = hash_order(&order);
    assert_eq!(hash1, hash2);
}

#[test]
fn hash_covers_every_field() {
    let base = sample_order(12345);
    let h = hash_order(&base);
    let mut o = base.clone();
    o.salt += 1;
    assert_ne!(hash_order(&o), h);
    let mut o = base.clone();
    o.making_amount += 1;
    assert_ne!(hash_order(&o), h);
    let mut o = base.clone();
    o.receiver = Address::Contract([2u8; 32]);
    assert_ne!(hash_order(&o), h);
    let mut o = base.clone();
    o.interactions = vec![1u8];
    assert_ne!(hash_order(&o), h);
}

#[test]
fn test_fill_order_basic() {
    let mut lop = protocol();
    let now = 0u64;
    let order = sample_order(now + 3600);
    let signature = vec![0u8; 64];
    let taker = Address::Account([5u8; 32]);

    let result = lop.fill_order(now, &order, &signature, taker, 100, traits());
    assert!(result.is_ok());

    let (making_amount, taking_amount, order_hash) = result.unwrap();
    assert_eq!(making_amount, 200);
    assert_eq!(taking_amount, 100);
    assert_eq!(order_hash.len(), 32);
    assert_eq!(order_hash, hash_order(&order));
    assert_eq!(lop.remaining_invalidator_for_order(order.maker, order_hash), u128::MAX - 100);
}

#[test]
fn test_cancel_order() {
    let mut lop = protocol();
    let maker = Address::Account([1u8; 32]);
    let order_hash = [1u8; 32];
    let result = lop.cancel_order(maker, order_hash);
    assert!(result.is_ok());
    let remaining = lop.remaining_invalidator_for_order(maker, order_hash);
    assert_eq!(remaining, 0);
    assert!(matches!(lop.events[0], OrderEvent::OrderCancelled { order_hash: h } if h == order_hash));
}

#[test]
fn cancelled_order_cannot_be_filled() {
    let mut lop = protocol();
    let order = sample_order(3600);
    lop.cancel_order(order.maker, hash_order(&order)).unwrap();
    let r = lop.fill_order(0, &order, &vec![0u8; 64], Address::Account([5u8; 32]), 1, traits());
    assert_eq!(r, Err(Error::TakingAmountExceeded));
}

#[test]
fn test_order_expired() {
    let mut lop = protocol();
    let now = 10000u64;
    let order = sample_order(now - 3600);
    let result = lop.fill_order(now, &order, &vec![0u8; 64], Address::Account([5u8; 32]), 100, traits());
    assert!(result.is_err());
    assert_eq!(result, Err(Error::OrderExpired));
}

#[test]
fn zero_amounts_and_bad_signatures_are_refused() {
    let mut lop = protocol();
    let mut order = sample_order(3600);
    order.taking_amount = 0;
    assert_eq!(lop.fill_order(0, &order, &vec![0u8; 64], Address::Account([5u8; 32]), 1, traits()), Err(Error::SwapWithZeroAmount));
    let order = sample_order(3600);
    assert_eq!(lop.fill_order(0, &order, &vec![0u8; 63], Address::Account([5u8; 32]), 1, traits()), Err(Error::BadSignature));
    assert!(lop.remaining.is_empty());
}

#[test]
fn partial_fills_use_up_the_order() {
    let mut lop = protocol();
    let order = sample_order(3600);
    let h = hash_order(&order);
    lop.remaining.push(fusion_swap::order::RemainingEntry { order_hash: h, remaining: 150 });
    assert!(lop.fill_order(0, &order, &vec![0u8; 64], Address::Account([5u8; 32]), 100, traits()).is_ok());
    assert_eq!(lop.remaining_invalidator_for_order(order.maker, h), 50);
    assert_eq!(lop.fill_order(0, &order, &vec![0u8; 64], Address::Account([5u8; 32]), 51, traits()), Err(Error::TakingAmountExceeded));
}

#[test]
fn resolver_fill_uses_the_public_form_of_the_order() {
    let mut lop = protocol();
    let r = ResolverOrder {
        salt: 3600,
        maker: Address::Account([1u8; 32]),
        receiver: Address::Account([2u8; 32]),
        maker_asset: Address::Contract([3u8; 32]),
        taker_asset: Address::Contract([4u8; 32]),
        making_amount: 1000,
        taking_amount: 500,
        maker_traits: 7,
    };
    assert!(lop.fill_args(0, &r, &vec![0u8; 64], 100, [0u8; 32], &vec![1u8, 2, 3]).is_ok());
    let h = hash_order(&sample_order(3600));
    assert_eq!(lop.remaining_invalidator_for_order(r.maker, h), u128::MAX - 100);
    assert_eq!(lop.events.len(), 2);
    assert!(matches!(&lop.events[0], OrderEvent::OrderFilled { order_hash, remaining } if *order_hash == h && *remaining == u128::MAX - 100));
    assert!(matches!(&lop.events[1], OrderEvent::CrossChainArgs { args } if *args == vec![1u8, 2, 3]));
    assert_eq!(lop.fill_args(0, &r, &vec![0u8; 10], 100, [0u8; 32], &Vec::new()), Err(Error::BadSignature));
}

#[test]
fn fill_moves_assets_through_the_protocol() {
    let lop = protocol();
    let order = sample_order(3600);
    let taker = Address::Account([5u8; 32]);
    let t = lop.fill_transfers(&order, taker, 200, 100);
    assert_eq!(t.len(), 3);
    assert_eq!((t[0].from, t[0].to, t[0].amount), (order.maker, lop.address, 200));
    assert_eq!((t[1].from, t[1].to, t[1].amount), (taker, order.maker, 100));
    assert_eq!((t[2].from, t[2].to, t[2].amount), (lop.address, taker, 200));
    assert!(matches!(t[1].asset, fusion_swap::escrow::Asset::Token(a) if a == order.taker_asset));
}
