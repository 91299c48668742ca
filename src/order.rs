//! Order fills: the boundary that turns a maker's signed order into
//! validated amounts and the order's hash, and tracks what remains of it.

use vstd::prelude::*;
use vstd::string::StringSliceAdditionalSpecFns;
use crate::escrow::{Asset, Transfer};
use crate::primitives::{
    Address, MAX_HASH_INPUT, address_xdr, append_address_xdr, append_be, append_bytes, be_bytes,
    bytes_equal, keccak256, keccak_of, lemma_be_bytes_len,
};

verus! {

broadcast use vstd::string::is_ascii_spec_bytes;

/// The order's type description; it opens every hashed encoding.
pub const ORDER_TYPE: &'static str = "Order(uint256 salt,address makerAsset,address takerAsset,address maker,address receiver,address allowedSender,uint256 makingAmount,uint256 takingAmount,uint256 offsets,bytes interactions)";

proof fn lemma_order_type_len()
    ensures
        ORDER_TYPE.spec_bytes().len() <= 256,
{
    reveal_strlit("Order(uint256 salt,address makerAsset,address takerAsset,address maker,address receiver,address allowedSender,uint256 makingAmount,uint256 takingAmount,uint256 offsets,bytes interactions)");
    assert(vstd::string::is_ascii(ORDER_TYPE));
}

#[derive(Clone, Copy, Debug, PartialEq, Eq, Structural)]
pub enum Error {
    TakingAmountExceeded,
    OrderExpired,
    SwapWithZeroAmount,
    BadSignature,
    TransferFailed,
    InvalidArgs,
    ConversionFailed,
}

/// A maker's order. `salt` doubles as its expiry: it is refused once the
/// ledger time has passed it.
#[derive(Clone, Debug)]
pub struct Order {
    pub salt: u64,
    pub maker_asset: Address,
    pub taker_asset: Address,
    pub maker: Address,
    pub receiver: Address,
    pub allowed_sender: Address,
    pub making_amount: u128,
    pub taking_amount: u128,
    pub offsets: u64,
    pub interactions: Vec<u8>,
}

/// The order as a resolver hands it over.
#[derive(Clone, Copy, Debug)]
pub struct ResolverOrder {
    pub salt: u64,
    pub maker: Address,
    pub receiver: Address,
    pub maker_asset: Address,
    pub taker_asset: Address,
    pub making_amount: u128,
    pub taking_amount: u128,
    pub maker_traits: u128,
}

#[derive(Clone, Copy, Debug, PartialEq, Eq, Structural)]
pub struct TakerTraits {
    pub threshold: u128,
    pub skip_maker_permit: bool,
}

/// What remains fillable of the order with hash `order_hash`.
#[derive(Clone, Copy, Debug)]
pub struct RemainingEntry {
    pub order_hash: [u8; 32],
    pub remaining: u128,
}

/// A record of the fill book, for relayers.
#[derive(Clone, Debug)]
pub enum OrderEvent {
    OrderFilled { order_hash: [u8; 32], remaining: u128 },
    OrderCancelled { order_hash: [u8; 32] },
    CrossChainArgs { args: Vec<u8> },
}

/// The fill book. `remaining` is a log in which the latest entry for an
/// order hash is the one that counts; `address` is the protocol's own
/// identity, the taker of fills it makes on a resolver's behalf.
pub struct StellarLimitOrderProtocol {
    pub address: Address,
    pub remaining: Vec<RemainingEntry>,
    pub events: Vec<OrderEvent>,
}

/// The latest entry for `order_hash` in the log.
pub open spec fn latest(log: Seq<RemainingEntry>, order_hash: Seq<u8>) -> Option<u128>
    decreases log.len(),
{
    if log.len() == 0 {
        None
    } else if log.last().order_hash@ == order_hash {
        Some(log.last().remaining)
    } else {
        latest(log.drop_last(), order_hash)
    }
}

/// The bytes that an order's hash is taken over: the type description,
/// the five addresses, the four integers big-endian, and the digest of the
/// interactions.
pub open spec fn encode_order_fields(
    salt: u64,
    maker_asset: Address,
    taker_asset: Address,
    maker: Address,
    receiver: Address,
    allowed_sender: Address,
    making_amount: u128,
    taking_amount: u128,
    offsets: u64,
    interactions_digest: Seq<u8>,
) -> Seq<u8> {
    ORDER_TYPE.spec_bytes() + address_xdr(maker_asset) + address_xdr(taker_asset) + address_xdr(maker)
        + address_xdr(receiver) + address_xdr(allowed_sender) + be_bytes(salt as nat, 8) + be_bytes(
        making_amount as nat,
        16,
    ) + be_bytes(taking_amount as nat, 16) + be_bytes(offsets as nat, 8) + interactions_digest
}

pub open spec fn order_encoding(o: Order) -> Seq<u8> {
    encode_order_fields(
        o.salt,
        o.maker_asset,
        o.taker_asset,
        o.maker,
        o.receiver,
        o.allowed_sender,
        o.making_amount,
        o.taking_amount,
        o.offsets,
        keccak_of(o.interactions@),
    )
}

/// The hash that identifies an order.
pub open spec fn order_hash_of(o: Order) -> Seq<u8> {
    keccak_of(order_encoding(o))
}

/// The hash of the order that a resolver's order stands for: public,
/// without offsets or interactions.
pub open spec fn resolver_order_hash(r: ResolverOrder) -> Seq<u8> {
    keccak_of(
        encode_order_fields(
            r.salt,
            r.maker_asset,
            r.taker_asset,
            r.maker,
            r.receiver,
            r.maker,
            r.making_amount,
            r.taking_amount,
            0,
            keccak_of(Seq::empty()),
        ),
    )
}

/// Refusal of an order at moment `now`, before its signature and the
/// remaining amount are looked at.
pub open spec fn validation_error(salt: u64, making_amount: u128, taking_amount: u128, now: int) -> Option<Error> {
    if (salt as int) < now {
        Some(Error::OrderExpired)
    } else if making_amount == 0 || taking_amount == 0 {
        Some(Error::SwapWithZeroAmount)
    } else {
        None
    }
}

proof fn lemma_address_xdr_len(a: Address)
    ensures
        address_xdr(a).len() <= 44,
{
}

/// `256^n`.
pub open spec fn byte_power(n: nat) -> nat
    decreases n,
{
    if n == 0 {
        1
    } else {
        256 * byte_power((n - 1) as nat)
    }
}

proof fn lemma_be_bytes_injective(x: nat, y: nat, n: nat)
    requires
        be_bytes(x, n) == be_bytes(y, n),
        x < byte_power(n),
        y < byte_power(n),
    ensures
        x == y,
    decreases n,
{
    if n > 0 {
        let m = (n - 1) as nat;
        let p = byte_power(m);
        assert(be_bytes(x, n) == be_bytes(x / 256, m).push((x % 256) as u8));
        assert(be_bytes(y, n) == be_bytes(y / 256, m).push((y % 256) as u8));
        assert(be_bytes(x, n).last() == (x % 256) as u8);
        assert(be_bytes(y, n).last() == (y % 256) as u8);
        assert(0 <= x % 256 < 256 && 0 <= y % 256 < 256);
        assert(((x % 256) as u8) as int == x % 256);
        assert(((y % 256) as u8) as int == y % 256);
        assert(x % 256 == y % 256);
        assert(be_bytes(x, n).drop_last() =~= be_bytes(x / 256, m));
        assert(be_bytes(y, n).drop_last() =~= be_bytes(y / 256, m));
        assert(x / 256 < p) by (nonlinear_arith)
            requires x < 256 * p;
        assert(y / 256 < p) by (nonlinear_arith)
            requires y < 256 * p;
        lemma_be_bytes_injective(x / 256, y / 256, m);
        assert(x == 256 * (x / 256) + x % 256) by (nonlinear_arith);
        assert(y == 256 * (y / 256) + y % 256) by (nonlinear_arith);
    }
}

proof fn lemma_split_fixed(a: Seq<u8>, b: Seq<u8>, x: Seq<u8>, y: Seq<u8>)
    requires
        a.len() == b.len(),
        a + x == b + y,
    ensures
        a == b,
        x == y,
{
    assert(a =~= (a + x).subrange(0, a.len() as int));
    assert(b =~= (b + y).subrange(0, b.len() as int));
    assert(x =~= (a + x).subrange(a.len() as int, (a + x).len() as int));
    assert(y =~= (b + y).subrange(b.len() as int, (b + y).len() as int));
}

proof fn lemma_split_address(a: Address, b: Address, x: Seq<u8>, y: Seq<u8>)
    requires
        address_xdr(a) + x == address_xdr(b) + y,
    ensures
        a == b,
        x == y,
{
    let s = address_xdr(a) + x;
    assert(s[7] == address_xdr(a)[7]);
    assert(s[7] == address_xdr(b)[7]);
    assert(address_xdr(a).len() == address_xdr(b).len());
    lemma_split_fixed(address_xdr(a), address_xdr(b), x, y);
    match a {
        Address::Account(k) => {
            if let Address::Account(j) = b {
                assert(k@ =~= address_xdr(a).subrange(12, 44));
                assert(j@ =~= address_xdr(b).subrange(12, 44));
                assert(k =~= j);
            }
        },
        Address::Contract(k) => {
            if let Address::Contract(j) = b {
                assert(k@ =~= address_xdr(a).subrange(8, 40));
                assert(j@ =~= address_xdr(b).subrange(8, 40));
                assert(k =~= j);
            }
        },
    }
}

/// The encoding's tail from the offsets on.
pub open spec fn tail_offsets(o: Order) -> Seq<u8> {
    be_bytes(o.offsets as nat, 8) + keccak_of(o.interactions@)
}

pub open spec fn tail_taking(o: Order) -> Seq<u8> {
    be_bytes(o.taking_amount as nat, 16) + tail_offsets(o)
}

pub open spec fn tail_making(o: Order) -> Seq<u8> {
    be_bytes(o.making_amount as nat, 16) + tail_taking(o)
}

pub open spec fn tail_salt(o: Order) -> Seq<u8> {
    be_bytes(o.salt as nat, 8) + tail_making(o)
}

pub open spec fn tail_allowed_sender(o: Order) -> Seq<u8> {
    address_xdr(o.allowed_sender) + tail_salt(o)
}

pub open spec fn tail_receiver(o: Order) -> Seq<u8> {
    address_xdr(o.receiver) + tail_allowed_sender(o)
}

pub open spec fn tail_maker(o: Order) -> Seq<u8> {
    address_xdr(o.maker) + tail_receiver(o)
}

pub open spec fn tail_taker_asset(o: Order) -> Seq<u8> {
    address_xdr(o.taker_asset) + tail_maker(o)
}

pub open spec fn tail_maker_asset(o: Order) -> Seq<u8> {
    address_xdr(o.maker_asset) + tail_taker_asset(o)
}

proof fn lemma_encoding_nested(o: Order)
    ensures
        order_encoding(o) == ORDER_TYPE.spec_bytes() + tail_maker_asset(o),
{
    assert(order_encoding(o) =~= ORDER_TYPE.spec_bytes() + tail_maker_asset(o));
}

/// Two orders with the same encoding agree on every field, but for their
/// interactions, whose digests agree. So orders that differ in a settled
/// field never share a hash unless the digest collides.
#[verifier::rlimit(50)]
pub proof fn lemma_encoding_determines_order(o1: Order, o2: Order)
    requires
        order_encoding(o1) == order_encoding(o2),
    ensures
        o1.salt == o2.salt,
        o1.maker_asset == o2.maker_asset,
        o1.taker_asset == o2.taker_asset,
        o1.maker == o2.maker,
        o1.receiver == o2.receiver,
        o1.allowed_sender == o2.allowed_sender,
        o1.making_amount == o2.making_amount,
        o1.taking_amount == o2.taking_amount,
        o1.offsets == o2.offsets,
        keccak_of(o1.interactions@) == keccak_of(o2.interactions@),
{
    let p = ORDER_TYPE.spec_bytes();
    lemma_encoding_nested(o1);
    lemma_encoding_nested(o2);
    lemma_split_fixed(p, p, tail_maker_asset(o1), tail_maker_asset(o2));
    lemma_split_address(o1.maker_asset, o2.maker_asset, tail_taker_asset(o1), tail_taker_asset(o2));
    lemma_split_address(o1.taker_asset, o2.taker_asset, tail_maker(o1), tail_maker(o2));
    lemma_split_address(o1.maker, o2.maker, tail_receiver(o1), tail_receiver(o2));
    lemma_split_address(o1.receiver, o2.receiver, tail_allowed_sender(o1), tail_allowed_sender(o2));
    lemma_split_address(o1.allowed_sender, o2.allowed_sender, tail_salt(o1), tail_salt(o2));
    lemma_be_bytes_len(o1.salt as nat, 8);
    lemma_be_bytes_len(o2.salt as nat, 8);
    lemma_be_bytes_len(o1.making_amount as nat, 16);
    lemma_be_bytes_len(o2.making_amount as nat, 16);
    lemma_be_bytes_len(o1.taking_amount as nat, 16);
    lemma_be_bytes_len(o2.taking_amount as nat, 16);
    lemma_be_bytes_len(o1.offsets as nat, 8);
    lemma_be_bytes_len(o2.offsets as nat, 8);
    lemma_split_fixed(be_bytes(o1.salt as nat, 8), be_bytes(o2.salt as nat, 8), tail_making(o1), tail_making(o2));
    lemma_split_fixed(
        be_bytes(o1.making_amount as nat, 16),
        be_bytes(o2.making_amount as nat, 16),
        tail_taking(o1),
        tail_taking(o2),
    );
    lemma_split_fixed(
        be_bytes(o1.taking_amount as nat, 16),
        be_bytes(o2.taking_amount as nat, 16),
        tail_offsets(o1),
        tail_offsets(o2),
    );
    lemma_split_fixed(
        be_bytes(o1.offsets as nat, 8),
        be_bytes(o2.offsets as nat, 8),
        keccak_of(o1.interactions@),
        keccak_of(o2.interactions@),
    );
    assert(byte_power(8) == 0x1_0000_0000_0000_0000) by {
        reveal_with_fuel(byte_power, 9);
    }
    assert(byte_power(16) == 0x1_0000_0000_0000_0000_0000_0000_0000_0000) by {
        reveal_with_fuel(byte_power, 17);
    }
    lemma_be_bytes_injective(o1.salt as nat, o2.salt as nat, 8);
    lemma_be_bytes_injective(o1.making_amount as nat, o2.making_amount as nat, 16);
    lemma_be_bytes_injective(o1.taking_amount as nat, o2.taking_amount as nat, 16);
    lemma_be_bytes_injective(o1.offsets as nat, o2.offsets as nat, 8);
}

/// The hash of an order: Keccak-256 over its encoding.
pub fn hash_order(order: &Order) -> (r: [u8; 32])
    requires
        order.interactions@.len() <= MAX_HASH_INPUT,
    ensures
        r@ == order_hash_of(*order),
{
    let interactions_hash = keccak256(order.interactions.as_slice());
    let mut buf: Vec<u8> = Vec::new();
    append_bytes(&mut buf, ORDER_TYPE.as_bytes());
    append_address_xdr(&mut buf, &order.maker_asset);
    append_address_xdr(&mut buf, &order.taker_asset);
    append_address_xdr(&mut buf, &order.maker);
    append_address_xdr(&mut buf, &order.receiver);
    append_address_xdr(&mut buf, &order.allowed_sender);
    append_be(&mut buf, order.salt as u128, 8);
    append_be(&mut buf, order.making_amount, 16);
    append_be(&mut buf, order.taking_amount, 16);
    append_be(&mut buf, order.offsets as u128, 8);
    append_bytes(&mut buf, &interactions_hash);
    proof {
        lemma_order_type_len();
        lemma_address_xdr_len(order.maker_asset);
        lemma_address_xdr_len(order.taker_asset);
        lemma_address_xdr_len(order.maker);
        lemma_address_xdr_len(order.receiver);
        lemma_address_xdr_len(order.allowed_sender);
        lemma_be_bytes_len(order.salt as nat, 8);
        lemma_be_bytes_len(order.making_amount as nat, 16);
        lemma_be_bytes_len(order.taking_amount as nat, 16);
        lemma_be_bytes_len(order.offsets as nat, 8);
        assert(buf@ =~= order_encoding(*order));
    }
    keccak256(buf.as_slice())
}

/// The order that a resolver's order stands for.
pub fn from_resolver_order(r: &ResolverOrder) -> (o: Order)
    ensures
        o.salt == r.salt && o.maker_asset == r.maker_asset && o.taker_asset == r.taker_asset,
        o.maker == r.maker && o.receiver == r.receiver && o.allowed_sender == r.maker,
        o.making_amount == r.making_amount && o.taking_amount == r.taking_amount,
        o.offsets == 0 && o.interactions@.len() == 0,
        order_hash_of(o) == resolver_order_hash(*r),
{
    Order {
        salt: r.salt,
        maker_asset: r.maker_asset,
        taker_asset: r.taker_asset,
        maker: r.maker,
        receiver: r.receiver,
        allowed_sender: r.maker,
        making_amount: r.making_amount,
        taking_amount: r.taking_amount,
        offsets: 0,
        interactions: Vec::new(),
    }
}

impl StellarLimitOrderProtocol {
    /// What remains fillable of an order never seen: unbounded.
    pub open spec fn remaining_for(&self, order_hash: Seq<u8>) -> u128 {
        match latest(self.remaining@, order_hash) {
            Some(v) => v,
            None => u128::MAX,
        }
    }

    /// A fill book with nothing recorded, acting as `address`.
    pub fn new(address: Address) -> (r: StellarLimitOrderProtocol)
        ensures
            r.address == address,
            r.remaining@.len() == 0,
            r.events@.len() == 0,
    {
        StellarLimitOrderProtocol { address, remaining: Vec::new(), events: Vec::new() }
    }

    /// Clears what was recorded.
    pub fn initialize(&mut self) -> (r: Result<(), Error>)
        ensures
            r is Ok,
            final(self).address == old(self).address,
            final(self).remaining@.len() == 0,
            final(self).events == old(self).events,
    {
        self.remaining = Vec::new();
        Ok(())
    }

    fn lookup(&self, order_hash: &[u8; 32]) -> (r: Option<u128>)
        ensures
            r == latest(self.remaining@, order_hash@),
    {
        let mut i: usize = self.remaining.len();
        assert(self.remaining@.subrange(0, i as int) =~= self.remaining@);
        while i > 0
            invariant
                0 <= i <= self.remaining@.len(),
                latest(self.remaining@, order_hash@) == latest(self.remaining@.subrange(0, i as int), order_hash@),
            decreases i,
        {
            let ghost prefix = self.remaining@.subrange(0, i as int);
            assert(prefix.drop_last() =~= self.remaining@.subrange(0, i - 1));
            if bytes_equal(&self.remaining[i - 1].order_hash, order_hash) {
                return Some(self.remaining[i - 1].remaining);
            }
            i -= 1;
        }
        assert(self.remaining@.subrange(0, 0) =~= Seq::<RemainingEntry>::empty());
        None
    }

    /// The asset movements of a fill, in the order the host makes them:
    /// the maker's asset into the protocol, the taker's asset to the
    /// maker, then the maker's asset on to the taker.
    pub fn fill_transfers(&self, order: &Order, taker: Address, making_amount: u128, taking_amount: u128) -> (r: Vec<Transfer>)
        ensures
            r@ == seq![
                Transfer { asset: Asset::Token(order.maker_asset), from: order.maker, to: self.address, amount: making_amount as i128 },
                Transfer { asset: Asset::Token(order.taker_asset), from: taker, to: order.maker, amount: taking_amount as i128 },
                Transfer { asset: Asset::Token(order.maker_asset), from: self.address, to: taker, amount: making_amount as i128 },
            ],
    {
        let mut r: Vec<Transfer> = Vec::new();
        r.push(Transfer { asset: Asset::Token(order.maker_asset), from: order.maker, to: self.address, amount: making_amount as i128 });
        r.push(Transfer { asset: Asset::Token(order.taker_asset), from: taker, to: order.maker, amount: taking_amount as i128 });
        r.push(Transfer { asset: Asset::Token(order.maker_asset), from: self.address, to: taker, amount: making_amount as i128 });
        assert(r@ =~= seq![
            Transfer { asset: Asset::Token(order.maker_asset), from: order.maker, to: self.address, amount: making_amount as i128 },
            Transfer { asset: Asset::Token(order.taker_asset), from: taker, to: order.maker, amount: taking_amount as i128 },
            Transfer { asset: Asset::Token(order.maker_asset), from: self.address, to: taker, amount: making_amount as i128 },
        ]);
        r
    }

    /// Marks the order as fully used: nothing of it remains fillable. The
    /// host has authenticated the maker.
    pub fn cancel_order(&mut self, _maker: Address, order_hash: [u8; 32]) -> (r: Result<(), Error>)
        ensures
            r is Ok,
            final(self).address == old(self).address,
            final(self).remaining@ == old(self).remaining@.push(RemainingEntry { order_hash, remaining: 0 }),
            final(self).events@ == old(self).events@.push(OrderEvent::OrderCancelled { order_hash }),
    {
        self.remaining.push(RemainingEntry { order_hash, remaining: 0 });
        self.events.push(OrderEvent::OrderCancelled { order_hash });
        Ok(())
    }

    /// What was recorded as remaining for the order; zero if nothing was.
    pub fn remaining_invalidator_for_order(&self, _maker: Address, order_hash: [u8; 32]) -> (r: u128)
        ensures
            r == (match latest(self.remaining@, order_hash@) {
                Some(v) => v,
                None => 0,
            }),
    {
        match self.lookup(&order_hash) {
            Some(v) => v,
            None => 0,
        }
    }

    /// Fills a resolver's order with the protocol itself as taker; as for
    /// `fill_order`, the host must first have verified the signature.
    /// `taker_traits` is the resolver's packed 256-bit word; no flag of it
    /// changes the fill. Non-empty `args` are recorded for relayers.
    pub fn fill_args(
        &mut self,
        now: u64,
        resolver_order: &ResolverOrder,
        signature: &Vec<u8>,
        amount: u128,
        _taker_traits: [u8; 32],
        args: &Vec<u8>,
    ) -> (r: Result<(), Error>)
        requires
            amount * resolver_order.making_amount <= u128::MAX,
        ensures
            final(self).address == old(self).address,
            r is Ok <==> {
                &&& validation_error(resolver_order.salt, resolver_order.making_amount, resolver_order.taking_amount, now as int) is None
                &&& signature@.len() == 64
                &&& amount <= old(self).remaining_for(resolver_order_hash(*resolver_order))
            },
            r matches Err(e) ==> final(self).remaining == old(self).remaining && final(self).events == old(self).events && (
                if validation_error(resolver_order.salt, resolver_order.making_amount, resolver_order.taking_amount, now as int) is Some {
                    validation_error(resolver_order.salt, resolver_order.making_amount, resolver_order.taking_amount, now as int) == Some(e)
                } else if signature@.len() != 64 {
                    e == Error::BadSignature
                } else {
                    e == Error::TakingAmountExceeded
                }),
            r is Ok ==> final(self).remaining@ == old(self).remaining@.push(
                RemainingEntry {
                    order_hash: final(self).remaining@.last().order_hash,
                    remaining: (old(self).remaining_for(resolver_order_hash(*resolver_order)) - amount) as u128,
                },
            ) && final(self).remaining@.last().order_hash@ == resolver_order_hash(*resolver_order),
            r is Ok ==> {
                let filled = old(self).events@.push(
                    OrderEvent::OrderFilled {
                        order_hash: final(self).remaining@.last().order_hash,
                        remaining: final(self).remaining@.last().remaining,
                    },
                );
                &&& args@.len() == 0 ==> final(self).events@ == filled
                &&& args@.len() > 0 ==> {
                    &&& final(self).events@.len() == filled.len() + 1
                    &&& final(self).events@.drop_last() == filled
                    &&& (final(self).events@.last() matches OrderEvent::CrossChainArgs { args: a } && a@ == args@)
                }
            },
    {
        let order = from_resolver_order(resolver_order);
        let traits = TakerTraits { threshold: 0, skip_maker_permit: false };
        let taker = self.address;
        match self.fill_order(now, &order, signature, taker, amount, traits) {
            Ok(_) => {
                if args.len() > 0 {
                    self.events.push(OrderEvent::CrossChainArgs { args: args.clone() });
                }
                Ok(())
            },
            Err(e) => Err(e),
        }
    }

    /// Fills `amount` of the order at moment `now`: returns the making
    /// amount, the taking amount and the order's hash. Only the signature's
    /// length is checked here: the host must first have verified the
    /// maker's signature over the order's hash. The host then makes the
    /// movements that `fill_transfers` lists for the taker.
    pub fn fill_order(
        &mut self,
        now: u64,
        order: &Order,
        signature: &Vec<u8>,
        _taker: Address,
        amount: u128,
        _taker_traits: TakerTraits,
    ) -> (r: Result<(u128, u128, [u8; 32]), Error>)
        requires
            order.interactions@.len() <= MAX_HASH_INPUT,
            amount * order.making_amount <= u128::MAX,
        ensures
            final(self).address == old(self).address,
            r is Ok <==> {
                &&& validation_error(order.salt, order.making_amount, order.taking_amount, now as int) is None
                &&& signature@.len() == 64
                &&& amount <= old(self).remaining_for(order_hash_of(*order))
            },
            r matches Err(e) ==> final(self).remaining == old(self).remaining && final(self).events == old(self).events && (
                if validation_error(order.salt, order.making_amount, order.taking_amount, now as int) is Some {
                    validation_error(order.salt, order.making_amount, order.taking_amount, now as int) == Some(e)
                } else if signature@.len() != 64 {
                    e == Error::BadSignature
                } else {
                    e == Error::TakingAmountExceeded
                }),
            r matches Ok((making, taking, h)) ==> {
                &&& h@ == order_hash_of(*order)
                &&& making as int == (amount * order.making_amount) as int / order.taking_amount as int
                &&& taking == amount
                &&& final(self).remaining@ == old(self).remaining@.push(
                    RemainingEntry { order_hash: h, remaining: (old(self).remaining_for(h@) - amount) as u128 },
                )
                &&& final(self).events@ == old(self).events@.push(
                    OrderEvent::OrderFilled { order_hash: h, remaining: (old(self).remaining_for(h@) - amount) as u128 },
                )
            },
    {
        if order.salt < now {
            return Err(Error::OrderExpired);
        }
        if order.making_amount == 0 || order.taking_amount == 0 {
            return Err(Error::SwapWithZeroAmount);
        }
        if signature.len() != 64 {
            return Err(Error::BadSignature);
        }
        let h = hash_order(order);
        let remaining = match self.lookup(&h) {
            Some(v) => v,
            None => u128::MAX,
        };
        if remaining < amount {
            return Err(Error::TakingAmountExceeded);
        }
        let making_amount = amount * order.making_amount / order.taking_amount;
        self.remaining.push(RemainingEntry { order_hash: h, remaining: remaining - amount });
        self.events.push(OrderEvent::OrderFilled { order_hash: h, remaining: remaining - amount });
        Ok((making_amount, amount, h))
    }
}

} // verus!
