//! The resolver: the party that drives a swap forward. Every operation is
//! the admin's; each returns the contract call or transfer that the host
//! then makes on the resolver's behalf.

use vstd::prelude::*;
use crate::escrow::{Asset, Transfer};
use crate::factory::{FactoryTimelockParams, escrow_address, is_escrow_address};
use crate::order::ResolverOrder;
use crate::primitives::{Address, address_xdr, append_address_xdr, append_bytes};

verus! {

/// An order as the resolver receives it.
pub type Order = ResolverOrder;

#[derive(Clone, Copy, Debug, PartialEq, Eq, Structural)]
pub enum Error {
    InvalidCancellationTime,
    LengthMismatch,
    EscrowAddressComputationFailed,
    NativeTokenSendingFailure,
    OrderExecutionFailed,
    EscrowCreationFailed,
    WithdrawFailed,
    CancelFailed,
    ArbitraryCallFailed,
    Unauthorized,
    InvalidCallData,
    InvalidParams,
}

/// Both legs' schedule, in seconds, and the deployment moment.
#[derive(Clone, Copy, Debug, PartialEq, Eq, Structural)]
pub struct Timelocks {
    pub finality: u64,
    pub src_withdrawal: u64,
    pub src_public_withdrawal: u64,
    pub src_cancellation: u64,
    pub src_public_cancellation: u64,
    pub dst_withdrawal: u64,
    pub dst_public_withdrawal: u64,
    pub dst_cancellation: u64,
    pub deployed_at: u64,
}

#[derive(Clone, Copy, Debug)]
pub struct BaseEscrowImmutables {
    pub order_hash: [u8; 32],
    pub hashlock: [u8; 32],
    pub maker: Address,
    pub taker: Address,
    pub token: Address,
    pub amount: u128,
    pub safety_deposit: u128,
    pub timelocks: Timelocks,
}

#[derive(Clone, Copy, Debug)]
pub struct ResolverConfig {
    pub factory: Address,
    pub limit_order_protocol: Address,
    pub admin: Address,
}

/// A call to `function_name` on `target` with encoded `args`.
#[derive(Clone, Debug)]
pub struct ArbitraryCall {
    pub target: Address,
    pub function_name: Vec<u8>,
    pub args: Vec<u8>,
}

/// The order-protocol fill that opens the source leg.
#[derive(Clone, Debug)]
pub struct FillArgsCall {
    pub protocol: Address,
    pub order: Order,
    pub signature: Vec<u8>,
    pub amount: u128,
    pub taker_traits: [u8; 32],
    pub args: Vec<u8>,
}

/// Opening the source leg: the safety deposit sent to the escrow, then the
/// fill, for the escrow stamped with its deployment moment.
#[derive(Clone, Debug)]
pub struct SrcDeployment {
    /// Where the factory creates the source escrow.
    pub escrow: Address,
    pub immutables: BaseEscrowImmutables,
    pub safety_deposit: Transfer,
    pub fill: FillArgsCall,
}

/// The factory call that creates the destination leg.
#[derive(Clone, Copy, Debug)]
pub struct DstEscrowRequest {
    pub factory: Address,
    pub order_hash: [u8; 32],
    pub hash_lock: [u8; 32],
    pub maker: Address,
    pub taker: Address,
    pub token: Address,
    pub amount: i128,
    pub safety_deposit: i128,
    pub timelocks: FactoryTimelockParams,
}

/// A call on an escrow, with the escrow's parameters.
#[derive(Clone, Copy, Debug)]
pub enum EscrowCall {
    Withdraw { escrow: Address, secret: [u8; 32], immutables: BaseEscrowImmutables },
    Cancel { escrow: Address, immutables: BaseEscrowImmutables },
}

pub struct StellarResolver {
    /// The resolver's own identity, from which it pays.
    pub address: Address,
    pub config: Option<ResolverConfig>,
}

/// The bytes of a function name: ASCII letters, digits and underscores.
pub open spec fn is_symbol_byte(b: u8) -> bool {
    (97 <= b <= 122) || (65 <= b <= 90) || (48 <= b <= 57) || b == 95
}

fn is_symbol_char(b: u8) -> (r: bool)
    ensures
        r == is_symbol_byte(b),
{
    (97 <= b && b <= 122) || (65 <= b && b <= 90) || (48 <= b && b <= 57) || b == 95
}

/// The first eight bytes of `data` without their trailing zero bytes.
pub open spec fn call_name(data: Seq<u8>) -> Seq<u8> {
    data.subrange(0, 8 - trailing_zeros_from(data, 8))
}

/// How many of the first `n` bytes of `data`, counted from byte `n - 1`
/// down, are zero in a row.
pub open spec fn trailing_zeros_from(data: Seq<u8>, n: int) -> int
    decreases n,
{
    if n <= 0 {
        0
    } else if data[n - 1] == 0 {
        1 + trailing_zeros_from(data, n - 1)
    } else {
        0
    }
}

proof fn lemma_trailing_zeros_bounds(data: Seq<u8>, n: int)
    requires
        0 <= n,
    ensures
        0 <= trailing_zeros_from(data, n) <= n,
    decreases n,
{
    if n > 0 {
        lemma_trailing_zeros_bounds(data, n - 1);
    }
}

/// Splits call data into the function name (its first eight bytes, zero
/// padded at the end) and the encoded arguments that follow. The name must
/// be made of letters, digits and underscores.
pub fn parse_arbitrary_call_args(target: Address, data: &Vec<u8>) -> (r: Result<ArbitraryCall, Error>)
    ensures
        r is Ok <==> data@.len() >= 8 && (forall|i: int|
            0 <= i < call_name(data@).len() ==> is_symbol_byte(#[trigger] call_name(data@)[i])),
        r matches Err(e) ==> e == Error::InvalidCallData,
        r matches Ok(c) ==> c.target == target && c.function_name@ == call_name(data@)
            && c.args@ == data@.subrange(8, data@.len() as int),
{
    if data.len() < 8 {
        return Err(Error::InvalidCallData);
    }
    let mut end: usize = 8;
    proof {
        lemma_trailing_zeros_bounds(data@, 8);
    }
    while end > 0 && data[end - 1] == 0
        invariant
            0 <= end <= 8,
            data@.len() >= 8,
            trailing_zeros_from(data@, 8) == (8 - end) + trailing_zeros_from(data@, end as int),
        decreases end,
    {
        end -= 1;
    }
    assert(trailing_zeros_from(data@, end as int) == 0);
    let mut name: Vec<u8> = Vec::new();
    let mut i: usize = 0;
    while i < end
        invariant
            0 <= i <= end <= 8,
            data@.len() >= 8,
            end == 8 - trailing_zeros_from(data@, 8),
            name@ == data@.subrange(0, i as int),
            forall|j: int| 0 <= j < i ==> is_symbol_byte(#[trigger] data@[j]),
        decreases end - i,
    {
        let b = data[i];
        if !(is_symbol_char(b)) {
            assert(call_name(data@)[i as int] == b);
            return Err(Error::InvalidCallData);
        }
        name.push(b);
        i += 1;
        assert(name@ =~= data@.subrange(0, i as int));
    }
    let mut args: Vec<u8> = Vec::new();
    let mut k: usize = 8;
    while k < data.len()
        invariant
            8 <= k <= data@.len(),
            args@ == data@.subrange(8, k as int),
        decreases data@.len() - k,
    {
        args.push(data[k]);
        k += 1;
        assert(args@ =~= data@.subrange(8, k as int));
    }
    assert(name@ =~= call_name(data@));
    Ok(ArbitraryCall { target, function_name: name, args })
}

/// The fill's arguments: the escrow's encoded address, then `args`.
pub fn prepare_args_with_target(escrow_address: &Address, args: &Vec<u8>) -> (r: Vec<u8>)
    ensures
        r@ == address_xdr(*escrow_address) + args@,
{
    let mut out: Vec<u8> = Vec::new();
    append_address_xdr(&mut out, escrow_address);
    append_bytes(&mut out, args.as_slice());
    assert(out@ =~= address_xdr(*escrow_address) + args@);
    out
}

/// Every delay of the schedule fits in 32 bits.
pub open spec fn delays_fit(t: Timelocks) -> bool {
    &&& t.finality <= u32::MAX
    &&& t.src_withdrawal <= u32::MAX
    &&& t.src_public_withdrawal <= u32::MAX
    &&& t.src_cancellation <= u32::MAX
    &&& t.src_public_cancellation <= u32::MAX
    &&& t.dst_withdrawal <= u32::MAX
    &&& t.dst_public_withdrawal <= u32::MAX
    &&& t.dst_cancellation <= u32::MAX
}

/// `f` holds the same delays as `t`.
pub open spec fn factory_delays_of(f: FactoryTimelockParams, t: Timelocks) -> bool {
    &&& f.finality_delay as int == t.finality as int
    &&& f.src_withdrawal_delay as int == t.src_withdrawal as int
    &&& f.src_public_withdrawal_delay as int == t.src_public_withdrawal as int
    &&& f.src_cancellation_delay as int == t.src_cancellation as int
    &&& f.src_public_cancellation_delay as int == t.src_public_cancellation as int
    &&& f.dst_withdrawal_delay as int == t.dst_withdrawal as int
    &&& f.dst_public_withdrawal_delay as int == t.dst_public_withdrawal as int
    &&& f.dst_cancellation_delay as int == t.dst_cancellation as int
}

/// The factory's delays for a schedule; refused when one of them does not
/// fit in 32 bits.
pub fn factory_timelocks(t: &Timelocks) -> (r: Option<FactoryTimelockParams>)
    ensures
        r is Some <==> delays_fit(*t),
        r matches Some(f) ==> factory_delays_of(f, *t),
{
    let m = u32::MAX as u64;
    if t.finality > m || t.src_withdrawal > m || t.src_public_withdrawal > m || t.src_cancellation > m
        || t.src_public_cancellation > m || t.dst_withdrawal > m || t.dst_public_withdrawal > m
        || t.dst_cancellation > m {
        return None;
    }
    Some(
        FactoryTimelockParams {
            finality_delay: t.finality as u32,
            src_withdrawal_delay: t.src_withdrawal as u32,
            src_public_withdrawal_delay: t.src_public_withdrawal as u32,
            src_cancellation_delay: t.src_cancellation as u32,
            src_public_cancellation_delay: t.src_public_cancellation as u32,
            dst_withdrawal_delay: t.dst_withdrawal as u32,
            dst_public_withdrawal_delay: t.dst_public_withdrawal as u32,
            dst_cancellation_delay: t.dst_cancellation as u32,
        },
    )
}

impl StellarResolver {
    /// `caller` is the configured admin.
    pub open spec fn is_admin(&self, caller: Address) -> bool {
        self.config matches Some(c) && c.admin == caller
    }

    pub fn new(address: Address) -> (r: StellarResolver)
        ensures
            r.address == address,
            r.config is None,
    {
        StellarResolver { address, config: None }
    }

    /// Sets the factory, the order protocol and the admin.
    pub fn initialize(&mut self, factory: Address, limit_order_protocol: Address, admin: Address) -> (r: Result<(), Error>)
        ensures
            r is Ok,
            final(self).address == old(self).address,
            final(self).config == Some(ResolverConfig { factory, limit_order_protocol, admin }),
    {
        self.config = Some(ResolverConfig { factory, limit_order_protocol, admin });
        Ok(())
    }

    fn authorize(&self, caller: Address) -> (r: Result<ResolverConfig, Error>)
        ensures
            r is Ok <==> self.is_admin(caller),
            r matches Ok(c) ==> self.config == Some(c),
            r matches Err(e) ==> e == Error::Unauthorized,
    {
        match self.config {
            Some(c) => if c.admin == caller {
                Ok(c)
            } else {
                Err(Error::Unauthorized)
            },
            None => Err(Error::Unauthorized),
        }
    }

    /// Opens the source leg at `now`: stamps the escrow's deployment
    /// moment, sends the safety deposit to the escrow that the factory
    /// with code hash `escrow_wasm_hash` creates for the hash-lock, and
    /// fills the order with that escrow as target. A safety deposit beyond
    /// the ledger's amount range is refused.
    pub fn deploy_src(
        &self,
        now: u64,
        caller: Address,
        immutables: BaseEscrowImmutables,
        escrow_wasm_hash: [u8; 32],
        order: Order,
        signature: &Vec<u8>,
        amount: u128,
        taker_traits: [u8; 32],
        args: &Vec<u8>,
    ) -> (r: Result<SrcDeployment, Error>)
        ensures
            r is Ok <==> self.is_admin(caller) && immutables.safety_deposit <= i128::MAX,
            !self.is_admin(caller) ==> r == Err::<SrcDeployment, Error>(Error::Unauthorized),
            r matches Err(e) ==> e == Error::Unauthorized || e == Error::InvalidParams,
            r matches Ok(d) ==> {
                &&& is_escrow_address(d.escrow, escrow_wasm_hash, immutables.hashlock)
                &&& d.immutables == (BaseEscrowImmutables {
                    timelocks: Timelocks { deployed_at: now, ..immutables.timelocks },
                    ..immutables
                })
                &&& d.safety_deposit.asset == Asset::Native
                &&& d.safety_deposit.from == self.address
                &&& d.safety_deposit.to == d.escrow
                &&& d.safety_deposit.amount as int == immutables.safety_deposit as int
                &&& d.fill.protocol == self.config->Some_0.limit_order_protocol
                &&& d.fill.order == order
                &&& d.fill.signature@ == signature@
                &&& d.fill.amount == amount
                &&& d.fill.taker_traits == taker_traits
                &&& d.fill.args@ == address_xdr(d.escrow) + args@
            },
    {
        let config = match self.authorize(caller) {
            Ok(c) => c,
            Err(e) => {
                return Err(e);
            },
        };
        if immutables.safety_deposit > i128::MAX as u128 {
            return Err(Error::InvalidParams);
        }
        let escrow = escrow_address(&escrow_wasm_hash, &immutables.hashlock);
        let mut stamped = immutables;
        stamped.timelocks.deployed_at = now;
        let deposit = Transfer {
            asset: Asset::Native,
            from: self.address,
            to: escrow,
            amount: immutables.safety_deposit as i128,
        };
        let fill = FillArgsCall {
            protocol: config.limit_order_protocol,
            order,
            signature: signature.clone(),
            amount,
            taker_traits,
            args: prepare_args_with_target(&escrow, args),
        };
        Ok(SrcDeployment { escrow, immutables: stamped, safety_deposit: deposit, fill })
    }

    /// Opens the destination leg through the factory, with the resolver as
    /// the caller. Amounts beyond the ledger's range and delays beyond 32
    /// bits are refused. The source leg's cancellation moment is not
    /// consulted.
    pub fn deploy_dst(&self, caller: Address, dst_immutables: BaseEscrowImmutables, _src_cancellation_timestamp: u64) -> (r: Result<DstEscrowRequest, Error>)
        ensures
            r is Ok <==> self.is_admin(caller) && dst_immutables.amount <= i128::MAX
                && dst_immutables.safety_deposit <= i128::MAX && delays_fit(dst_immutables.timelocks),
            !self.is_admin(caller) ==> r == Err::<DstEscrowRequest, Error>(Error::Unauthorized),
            r matches Err(e) ==> e == Error::Unauthorized || e == Error::InvalidParams,
            r matches Ok(q) ==> {
                &&& q.factory == self.config->Some_0.factory
                &&& q.order_hash == dst_immutables.order_hash
                &&& q.hash_lock == dst_immutables.hashlock
                &&& q.maker == dst_immutables.maker
                &&& q.taker == dst_immutables.taker
                &&& q.token == dst_immutables.token
                &&& q.amount as int == dst_immutables.amount as int
                &&& q.safety_deposit as int == dst_immutables.safety_deposit as int
                &&& factory_delays_of(q.timelocks, dst_immutables.timelocks)
            },
    {
        let config = match self.authorize(caller) {
            Ok(c) => c,
            Err(e) => {
                return Err(e);
            },
        };
        if dst_immutables.amount > i128::MAX as u128 || dst_immutables.safety_deposit > i128::MAX as u128 {
            return Err(Error::InvalidParams);
        }
        let timelocks = match factory_timelocks(&dst_immutables.timelocks) {
            Some(t) => t,
            None => {
                return Err(Error::InvalidParams);
            },
        };
        Ok(
            DstEscrowRequest {
                factory: config.factory,
                order_hash: dst_immutables.order_hash,
                hash_lock: dst_immutables.hashlock,
                maker: dst_immutables.maker,
                taker: dst_immutables.taker,
                token: dst_immutables.token,
                amount: dst_immutables.amount as i128,
                safety_deposit: dst_immutables.safety_deposit as i128,
                timelocks,
            },
        )
    }

    /// Withdraws from `escrow` with `secret`.
    pub fn withdraw(&self, caller: Address, escrow: Address, secret: [u8; 32], immutables: BaseEscrowImmutables) -> (r: Result<EscrowCall, Error>)
        ensures
            r is Ok <==> self.is_admin(caller),
            r matches Err(e) ==> e == Error::Unauthorized,
            r matches Ok(c) ==> c == (EscrowCall::Withdraw { escrow, secret, immutables }),
    {
        match self.authorize(caller) {
            Ok(_) => Ok(EscrowCall::Withdraw { escrow, secret, immutables }),
            Err(e) => Err(e),
        }
    }

    /// Cancels `escrow`.
    pub fn cancel(&self, caller: Address, escrow: Address, immutables: BaseEscrowImmutables) -> (r: Result<EscrowCall, Error>)
        ensures
            r is Ok <==> self.is_admin(caller),
            r matches Err(e) ==> e == Error::Unauthorized,
            r matches Ok(c) ==> c == (EscrowCall::Cancel { escrow, immutables }),
    {
        match self.authorize(caller) {
            Ok(_) => Ok(EscrowCall::Cancel { escrow, immutables }),
            Err(e) => Err(e),
        }
    }

    /// One call per target, each with its own call data, in order.
    pub fn arbitrary_calls(&self, caller: Address, targets: &Vec<Address>, arguments: &Vec<Vec<u8>>) -> (r: Result<Vec<ArbitraryCall>, Error>)
        ensures
            !self.is_admin(caller) ==> r == Err::<Vec<ArbitraryCall>, Error>(Error::Unauthorized),
            self.is_admin(caller) && targets@.len() != arguments@.len() ==> r == Err::<Vec<ArbitraryCall>, Error>(Error::LengthMismatch),
            r is Ok <==> self.is_admin(caller) && targets@.len() == arguments@.len() && forall|i: int|
                0 <= i < arguments@.len() ==> call_data_ok(#[trigger] arguments@[i]@),
            r matches Ok(calls) ==> calls@.len() == targets@.len() && forall|i: int|
                0 <= i < calls@.len() ==> {
                    &&& (#[trigger] calls@[i]).target == targets@[i]
                    &&& calls@[i].function_name@ == call_name(arguments@[i]@)
                    &&& calls@[i].args@ == arguments@[i]@.subrange(8, arguments@[i]@.len() as int)
                },
            r matches Err(e) ==> e == Error::Unauthorized || e == Error::LengthMismatch || e == Error::InvalidCallData,
    {
        if let Err(e) = self.authorize(caller) {
            return Err(e);
        }
        if targets.len() != arguments.len() {
            return Err(Error::LengthMismatch);
        }
        let mut calls: Vec<ArbitraryCall> = Vec::new();
        let mut i: usize = 0;
        while i < targets.len()
            invariant
                0 <= i <= targets@.len(),
                targets@.len() == arguments@.len(),
                self.is_admin(caller),
                calls@.len() == i,
                forall|j: int| 0 <= j < i ==> call_data_ok(#[trigger] arguments@[j]@),
                forall|j: int|
                    0 <= j < i ==> {
                        &&& (#[trigger] calls@[j]).target == targets@[j]
                        &&& calls@[j].function_name@ == call_name(arguments@[j]@)
                        &&& calls@[j].args@ == arguments@[j]@.subrange(8, arguments@[j]@.len() as int)
                    },
            decreases targets@.len() - i,
        {
            match parse_arbitrary_call_args(targets[i], &arguments[i]) {
                Ok(c) => calls.push(c),
                Err(e) => {
                    return Err(e);
                },
            }
            i += 1;
        }
        Ok(calls)
    }
}

/// Call data that `parse_arbitrary_call_args` accepts.
pub open spec fn call_data_ok(data: Seq<u8>) -> bool {
    data.len() >= 8 && forall|i: int| 0 <= i < call_name(data).len() ==> is_symbol_byte(#[trigger] call_name(data)[i])
}

} // verus!
