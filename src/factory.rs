//! The factory: one escrow per hash-lock, at an address that both parties
//! can compute in advance, initialized when it is created, and a
//! write-once registry of what it created.

use vstd::prelude::*;
use crate::escrow::{FusionPlusEscrow, InitParams};
use crate::primitives::{Address, append_bytes, bytes_equal, keccak256, keccak_of};
use crate::timelocks::TimelockParams;

verus! {

#[derive(Clone, Copy, Debug, PartialEq, Eq, Structural)]
pub enum Error {
    AlreadyInitialized,
    NotInitialized,
    EscrowExists,
    EscrowNotFound,
    Unauthorized,
    InvalidParams,
    DeploymentFailed,
    InsufficientEscrowBalance,
    InvalidCreationTime,
    InvalidPartialFill,
    InvalidSecretsAmount,
    InvalidExtraData,
}

/// Delays of both legs of a swap, in seconds after deployment.
#[derive(Clone, Copy, Debug, PartialEq, Eq, Structural)]
pub struct FactoryTimelockParams {
    pub finality_delay: u32,
    pub src_withdrawal_delay: u32,
    pub src_public_withdrawal_delay: u32,
    pub src_cancellation_delay: u32,
    pub src_public_cancellation_delay: u32,
    pub dst_withdrawal_delay: u32,
    pub dst_public_withdrawal_delay: u32,
    pub dst_cancellation_delay: u32,
}

/// The destination leg has no public cancellation stage of its own: its
/// escrow opens that stage at the end of the 32-bit range.
pub const DST_PUBLIC_CANCELLATION: u32 = 0xffff_ffff;

impl FactoryTimelockParams {
    /// The five stages of the source leg's escrow.
    pub open spec fn spec_src_params(&self) -> TimelockParams {
        TimelockParams {
            finality: self.finality_delay,
            withdrawal: self.src_withdrawal_delay,
            public_withdrawal: self.src_public_withdrawal_delay,
            cancellation: self.src_cancellation_delay,
            public_cancellation: self.src_public_cancellation_delay,
        }
    }

    /// The five stages of the destination leg's escrow.
    pub open spec fn spec_dst_params(&self) -> TimelockParams {
        TimelockParams {
            finality: self.finality_delay,
            withdrawal: self.dst_withdrawal_delay,
            public_withdrawal: self.dst_public_withdrawal_delay,
            cancellation: self.dst_cancellation_delay,
            public_cancellation: DST_PUBLIC_CANCELLATION,
        }
    }

    pub open spec fn spec_leg_params(&self, dst: bool) -> TimelockParams {
        if dst {
            self.spec_dst_params()
        } else {
            self.spec_src_params()
        }
    }

    /// Both legs' stages are strictly ordered.
    pub open spec fn spec_is_valid(&self) -> bool {
        &&& self.spec_src_params().spec_is_ordered()
        &&& self.spec_dst_params().spec_is_ordered()
    }

    pub fn src_params(&self) -> (r: TimelockParams)
        ensures
            r == self.spec_src_params(),
    {
        TimelockParams {
            finality: self.finality_delay,
            withdrawal: self.src_withdrawal_delay,
            public_withdrawal: self.src_public_withdrawal_delay,
            cancellation: self.src_cancellation_delay,
            public_cancellation: self.src_public_cancellation_delay,
        }
    }

    pub fn dst_params(&self) -> (r: TimelockParams)
        ensures
            r == self.spec_dst_params(),
    {
        TimelockParams {
            finality: self.finality_delay,
            withdrawal: self.dst_withdrawal_delay,
            public_withdrawal: self.dst_public_withdrawal_delay,
            cancellation: self.dst_cancellation_delay,
            public_cancellation: DST_PUBLIC_CANCELLATION,
        }
    }

    pub fn is_valid(&self) -> (r: bool)
        ensures
            r == self.spec_is_valid(),
    {
        self.src_params().is_ordered() && self.dst_params().is_ordered()
    }
}

/// The full schedule carried by a creation record.
#[derive(Clone, Copy, Debug, PartialEq, Eq, Structural)]
pub struct TimelockInfo {
    pub finality: u32,
    pub src_withdrawal: u32,
    pub src_public_withdrawal: u32,
    pub src_cancellation: u32,
    pub src_public_cancellation: u32,
    pub dst_withdrawal: u32,
    pub dst_public_withdrawal: u32,
    pub dst_cancellation: u32,
    pub deployed_at: u64,
}

/// Everything a relayer needs to mirror a created escrow on the other
/// ledger.
#[derive(Clone, Copy, Debug)]
pub struct CreationRecord {
    pub order_hash: [u8; 32],
    pub hash_lock: [u8; 32],
    pub escrow_address: Address,
    pub maker: Address,
    pub taker: Address,
    pub token: Address,
    pub amount: i128,
    pub safety_deposit: i128,
    pub timelocks: TimelockInfo,
}

#[derive(Clone, Copy, Debug)]
pub enum FactoryEvent {
    SrcEscrowCreated(CreationRecord),
    DstEscrowCreated(CreationRecord),
}

/// An order as the order protocol reports a fill of it.
pub type Order = crate::order::ResolverOrder;

/// Half of a packed deposits word: 2^64.
pub const DEPOSIT_HALF: u128 = 0x1_0000_0000_0000_0000;

/// What the order protocol appends to a fill for the factory.
#[derive(Clone, Copy, Debug)]
pub struct ExtraDataArgs {
    /// The hash-lock of the swap.
    pub hashlock_info: [u8; 32],
    pub dst_chain_id: u64,
    pub dst_token: Address,
    /// Safety deposits packed as `src << 64 | dst`, 64 bits each.
    pub deposits: u128,
    pub timelocks: FactoryTimelockParams,
}

/// The source leg's safety deposit in a packed deposits word.
pub open spec fn src_deposit(deposits: u128) -> u128 {
    deposits / DEPOSIT_HALF
}

/// The destination leg's safety deposit in a packed deposits word.
pub open spec fn dst_deposit(deposits: u128) -> u128 {
    deposits % DEPOSIT_HALF
}

/// The destination leg's parameters that a fill fixes.
#[derive(Clone, Copy, Debug)]
pub struct DstImmutablesComplement {
    pub maker: Address,
    pub amount: u128,
    pub token: Address,
    pub safety_deposit: u128,
    pub chain_id: u64,
}

#[derive(Clone, Copy, Debug)]
pub struct FactoryConfig {
    /// Identifies the escrow code; it keys every derived address.
    pub escrow_wasm_hash: [u8; 32],
    pub admin: Address,
    pub limit_order_protocol: Address,
}

/// One registered escrow.
#[derive(Clone, Copy, Debug)]
pub struct RegistryEntry {
    pub hash_lock: [u8; 32],
    pub escrow: Address,
}

/// The factory. `escrows[i]` is the instance registered as `registry[i]`.
pub struct StellarEscrowFactory {
    pub config: Option<FactoryConfig>,
    pub registry: Vec<RegistryEntry>,
    pub escrows: Vec<FusionPlusEscrow>,
    pub events: Vec<FactoryEvent>,
}

/// `a` is the address derived from the escrow code's hash and a hash-lock.
pub open spec fn is_escrow_address(a: Address, wasm_hash: [u8; 32], hash_lock: [u8; 32]) -> bool {
    a matches Address::Contract(id) && id@ == keccak_of(wasm_hash@ + hash_lock@)
}

/// The address at which the escrow for `hash_lock` is created: a contract
/// id keyed by the escrow code's hash, so anyone can compute it in advance.
pub fn escrow_address(wasm_hash: &[u8; 32], hash_lock: &[u8; 32]) -> (r: Address)
    ensures
        is_escrow_address(r, *wasm_hash, *hash_lock),
{
    let mut preimage: Vec<u8> = Vec::new();
    append_bytes(&mut preimage, wasm_hash);
    append_bytes(&mut preimage, hash_lock);
    assert(preimage@ =~= wasm_hash@ + hash_lock@);
    Address::Contract(keccak256(preimage.as_slice()))
}

/// What an escrow of one leg is initialized with.
pub open spec fn leg_init_params(
    order_hash: [u8; 32],
    hash_lock: [u8; 32],
    maker: Address,
    taker: Address,
    token: Address,
    amount: i128,
    safety_deposit: i128,
    timelocks: FactoryTimelockParams,
    dst: bool,
) -> InitParams {
    InitParams {
        order_hash,
        hash_lock,
        maker,
        taker,
        token,
        amount,
        safety_deposit,
        timelocks: timelocks.spec_leg_params(dst),
    }
}

/// `e` is an escrow at `address`, initialized at `now` with `params`, with
/// no withdrawal or cancellation yet.
pub open spec fn is_fresh_escrow(e: FusionPlusEscrow, address: Address, params: InitParams, now: u64) -> bool {
    &&& e.wf()
    &&& e.address == address
    &&& e.immutables == Some(FusionPlusEscrow::initial_immutables(params, now))
    &&& !e.withdrawn
    &&& !e.cancelled
    &&& e.revealed_secret is None
}

impl StellarEscrowFactory {
    /// `hash_lock` has an entry in the registry.
    pub open spec fn is_registered(&self, hash_lock: [u8; 32]) -> bool {
        exists|i: int| 0 <= i < self.registry@.len() && #[trigger] self.registry@[i].hash_lock == hash_lock
    }

    /// No hash-lock is registered twice, and each registered address holds
    /// its escrow.
    pub open spec fn wf(&self) -> bool {
        &&& forall|i: int, j: int|
            0 <= i < self.registry@.len() && 0 <= j < self.registry@.len()
                && #[trigger] self.registry@[i].hash_lock == #[trigger] self.registry@[j].hash_lock ==> i == j
        &&& self.escrows@.len() == self.registry@.len()
        &&& forall|i: int|
            0 <= i < self.escrows@.len() ==> (#[trigger] self.escrows@[i]).address == self.registry@[i].escrow
                && self.escrows@[i].wf()
    }

    /// `after` is `before` with one more escrow of the given leg: created at
    /// `a`, registered for `hash_lock`, initialized at `now` and recorded.
    pub open spec fn records_creation(
        before: &StellarEscrowFactory,
        after: &StellarEscrowFactory,
        a: Address,
        now: u64,
        order_hash: [u8; 32],
        hash_lock: [u8; 32],
        maker: Address,
        taker: Address,
        token: Address,
        amount: i128,
        safety_deposit: i128,
        timelocks: FactoryTimelockParams,
        dst: bool,
    ) -> bool {
        &&& is_escrow_address(a, before.config->Some_0.escrow_wasm_hash, hash_lock)
        &&& after.config == before.config
        &&& after.registry@ == before.registry@.push(RegistryEntry { hash_lock, escrow: a })
        &&& after.escrows@.len() == before.escrows@.len() + 1
        &&& after.escrows@.drop_last() == before.escrows@
        &&& is_fresh_escrow(
            after.escrows@.last(),
            a,
            leg_init_params(order_hash, hash_lock, maker, taker, token, amount, safety_deposit, timelocks, dst),
            now,
        )
        &&& after.events@ == before.events@.push(
            Self::creation_event(
                dst,
                CreationRecord {
                    order_hash,
                    hash_lock,
                    escrow_address: a,
                    maker,
                    taker,
                    token,
                    amount,
                    safety_deposit,
                    timelocks: Self::timelock_info(timelocks, now),
                },
            ),
        )
    }

    /// Outcome of creating an escrow; the other parameters do not matter.
    pub open spec fn create_outcome(&self, hash_lock: [u8; 32], amount: i128, safety_deposit: i128, timelocks: FactoryTimelockParams) -> Result<(), Error> {
        if self.config is None {
            Err(Error::NotInitialized)
        } else if self.is_registered(hash_lock) {
            Err(Error::EscrowExists)
        } else if amount <= 0 || safety_deposit <= 0 {
            Err(Error::InvalidParams)
        } else if !timelocks.spec_is_valid() {
            Err(Error::InvalidParams)
        } else {
            Ok(())
        }
    }

    /// Outcome of the order protocol's report of a fill by `caller`, with
    /// the maker holding `maker_balance` of the maker asset.
    pub open spec fn post_interaction_outcome(&self, caller: Address, making_amount: u128, extra: ExtraDataArgs, maker_balance: i128) -> Result<(), Error> {
        match self.config {
            None => Err(Error::NotInitialized),
            Some(c) => if caller != c.limit_order_protocol {
                Err(Error::Unauthorized)
            } else if self.is_registered(extra.hashlock_info) {
                Err(Error::EscrowExists)
            } else if making_amount == 0 || making_amount > i128::MAX || src_deposit(extra.deposits) == 0 {
                Err(Error::InvalidParams)
            } else if !extra.timelocks.spec_is_valid() {
                Err(Error::InvalidParams)
            } else if (maker_balance as int) < (making_amount as int) {
                Err(Error::InsufficientEscrowBalance)
            } else {
                Ok(())
            },
        }
    }

    pub fn new() -> (r: StellarEscrowFactory)
        ensures
            r.wf(),
            r.config is None,
            r.registry@.len() == 0,
            r.escrows@.len() == 0,
            r.events@.len() == 0,
    {
        StellarEscrowFactory { config: None, registry: Vec::new(), escrows: Vec::new(), events: Vec::new() }
    }

    /// Sets the escrow code, the admin and the order protocol, once.
    pub fn initialize(&mut self, escrow_wasm_hash: [u8; 32], admin: Address, limit_order_protocol: Address) -> (r: Result<(), Error>)
        requires
            old(self).wf(),
        ensures
            final(self).wf(),
            r is Ok <==> old(self).config is None,
            r matches Err(e) ==> e == Error::AlreadyInitialized && *final(self) == *old(self),
            r is Ok ==> final(self).config == Some(FactoryConfig { escrow_wasm_hash, admin, limit_order_protocol })
                && final(self).registry == old(self).registry && final(self).escrows == old(self).escrows
                && final(self).events == old(self).events,
    {
        if self.config.is_some() {
            return Err(Error::AlreadyInitialized);
        }
        self.config = Some(FactoryConfig { escrow_wasm_hash, admin, limit_order_protocol });
        Ok(())
    }

    /// Where `hash_lock` sits in the registry, if anywhere.
    fn find(&self, hash_lock: &[u8; 32]) -> (r: Option<usize>)
        ensures
            r matches Some(i) ==> i < self.registry@.len() && self.registry@[i as int].hash_lock == *hash_lock,
            r is None <==> !self.is_registered(*hash_lock),
    {
        let mut i: usize = 0;
        while i < self.registry.len()
            invariant
                0 <= i <= self.registry@.len(),
                forall|j: int| 0 <= j < i ==> self.registry@[j].hash_lock != *hash_lock,
            decreases self.registry@.len() - i,
        {
            if bytes_equal(&self.registry[i].hash_lock, hash_lock) {
                return Some(i);
            }
            i += 1;
        }
        None
    }

    /// Derives the escrow's address, creates and initializes the escrow
    /// there, registers it and records its creation.
    fn register(
        &mut self,
        now: u64,
        order_hash: [u8; 32],
        hash_lock: [u8; 32],
        maker: Address,
        taker: Address,
        token: Address,
        amount: i128,
        safety_deposit: i128,
        timelocks: FactoryTimelockParams,
        dst: bool,
    ) -> (r: Address)
        requires
            old(self).wf(),
            old(self).config is Some,
            !old(self).is_registered(hash_lock),
            amount > 0,
            safety_deposit > 0,
            timelocks.spec_is_valid(),
        ensures
            final(self).wf(),
            Self::records_creation(
                old(self),
                final(self),
                r,
                now,
                order_hash,
                hash_lock,
                maker,
                taker,
                token,
                amount,
                safety_deposit,
                timelocks,
                dst,
            ),
    {
        let config = self.config.unwrap();
        let escrow = escrow_address(&config.escrow_wasm_hash, &hash_lock);
        let delays = if dst {
            timelocks.dst_params()
        } else {
            timelocks.src_params()
        };
        let params = InitParams { order_hash, hash_lock, maker, taker, token, amount, safety_deposit, timelocks: delays };
        let mut instance = FusionPlusEscrow::new(escrow);
        let init = instance.initialize(now, params);
        assert(init is Ok);
        let record = CreationRecord {
            order_hash,
            hash_lock,
            escrow_address: escrow,
            maker,
            taker,
            token,
            amount,
            safety_deposit,
            timelocks: TimelockInfo {
                finality: timelocks.finality_delay,
                src_withdrawal: timelocks.src_withdrawal_delay,
                src_public_withdrawal: timelocks.src_public_withdrawal_delay,
                src_cancellation: timelocks.src_cancellation_delay,
                src_public_cancellation: timelocks.src_public_cancellation_delay,
                dst_withdrawal: timelocks.dst_withdrawal_delay,
                dst_public_withdrawal: timelocks.dst_public_withdrawal_delay,
                dst_cancellation: timelocks.dst_cancellation_delay,
                deployed_at: now,
            },
        };
        let ghost before = self.registry@;
        let ghost escrows_before = self.escrows@;
        self.registry.push(RegistryEntry { hash_lock, escrow });
        self.escrows.push(instance);
        assert forall|i: int, j: int|
            0 <= i < self.registry@.len() && 0 <= j < self.registry@.len()
                && #[trigger] self.registry@[i].hash_lock == #[trigger] self.registry@[j].hash_lock implies i == j by {
            if i < before.len() && j < before.len() {
                assert(before[i].hash_lock == before[j].hash_lock);
            } else if i < before.len() {
                assert(before[i].hash_lock == hash_lock);
            } else if j < before.len() {
                assert(before[j].hash_lock == hash_lock);
            }
        }
        assert forall|i: int| 0 <= i < self.escrows@.len() implies (#[trigger] self.escrows@[i]).address
            == self.registry@[i].escrow && self.escrows@[i].wf() by {
            if i < escrows_before.len() {
                assert(self.escrows@[i] == escrows_before[i]);
                assert(self.registry@[i] == before[i]);
            }
        }
        assert(self.escrows@.drop_last() =~= escrows_before);
        let event = if dst {
            FactoryEvent::DstEscrowCreated(record)
        } else {
            FactoryEvent::SrcEscrowCreated(record)
        };
        self.events.push(event);
        escrow
    }

    fn create_escrow(
        &mut self,
        now: u64,
        order_hash: [u8; 32],
        hash_lock: [u8; 32],
        maker: Address,
        taker: Address,
        token: Address,
        amount: i128,
        safety_deposit: i128,
        timelocks: FactoryTimelockParams,
        dst: bool,
    ) -> (r: Result<Address, Error>)
        requires
            old(self).wf(),
        ensures
            final(self).wf(),
            (r is Ok) == (old(self).create_outcome(hash_lock, amount, safety_deposit, timelocks) is Ok),
            r matches Err(e) ==> old(self).create_outcome(hash_lock, amount, safety_deposit, timelocks)
                == Err::<(), Error>(e) && *final(self) == *old(self),
            r matches Ok(a) ==> Self::records_creation(
                old(self),
                final(self),
                a,
                now,
                order_hash,
                hash_lock,
                maker,
                taker,
                token,
                amount,
                safety_deposit,
                timelocks,
                dst,
            ),
    {
        if self.config.is_none() {
            return Err(Error::NotInitialized);
        }
        if self.find(&hash_lock).is_some() {
            return Err(Error::EscrowExists);
        }
        if amount <= 0 || safety_deposit <= 0 {
            return Err(Error::InvalidParams);
        }
        if !timelocks.is_valid() {
            return Err(Error::InvalidParams);
        }
        Ok(self.register(now, order_hash, hash_lock, maker, taker, token, amount, safety_deposit, timelocks, dst))
    }

    /// Creates and initializes the source-leg escrow for `hash_lock` at
    /// `now` and registers it; a hash-lock already registered is refused
    /// whatever the other parameters.
    pub fn create_src_escrow(
        &mut self,
        now: u64,
        order_hash: [u8; 32],
        hash_lock: [u8; 32],
        maker: Address,
        taker: Address,
        token: Address,
        amount: i128,
        safety_deposit: i128,
        timelocks: FactoryTimelockParams,
    ) -> (r: Result<Address, Error>)
        requires
            old(self).wf(),
        ensures
            final(self).wf(),
            (r is Ok) == (old(self).create_outcome(hash_lock, amount, safety_deposit, timelocks) is Ok),
            r matches Err(e) ==> old(self).create_outcome(hash_lock, amount, safety_deposit, timelocks)
                == Err::<(), Error>(e) && *final(self) == *old(self),
            r matches Ok(a) ==> Self::records_creation(
                old(self),
                final(self),
                a,
                now,
                order_hash,
                hash_lock,
                maker,
                taker,
                token,
                amount,
                safety_deposit,
                timelocks,
                false,
            ),
    {
        self.create_escrow(now, order_hash, hash_lock, maker, taker, token, amount, safety_deposit, timelocks, false)
    }

    /// Creates and initializes the destination-leg escrow for `hash_lock`
    /// at `now` and registers it, under the same rules as the source leg.
    /// The host has authenticated `caller`.
    pub fn create_dst_escrow(
        &mut self,
        now: u64,
        order_hash: [u8; 32],
        hash_lock: [u8; 32],
        maker: Address,
        taker: Address,
        token: Address,
        amount: i128,
        safety_deposit: i128,
        timelocks: FactoryTimelockParams,
        _caller: Address,
    ) -> (r: Result<Address, Error>)
        requires
            old(self).wf(),
        ensures
            final(self).wf(),
            (r is Ok) == (old(self).create_outcome(hash_lock, amount, safety_deposit, timelocks) is Ok),
            r matches Err(e) ==> old(self).create_outcome(hash_lock, amount, safety_deposit, timelocks)
                == Err::<(), Error>(e) && *final(self) == *old(self),
            r matches Ok(a) ==> Self::records_creation(
                old(self),
                final(self),
                a,
                now,
                order_hash,
                hash_lock,
                maker,
                taker,
                token,
                amount,
                safety_deposit,
                timelocks,
                true,
            ),
    {
        self.create_escrow(now, order_hash, hash_lock, maker, taker, token, amount, safety_deposit, timelocks, true)
    }

    /// Opens the source leg after the order protocol filled an order:
    /// creates, initializes and registers the escrow for the swap's
    /// hash-lock at `now`, records it, and returns what the fill fixes of
    /// the destination leg. The maker must hold the making amount.
    pub fn post_interaction(
        &mut self,
        now: u64,
        caller: Address,
        order: &Order,
        order_hash: [u8; 32],
        taker: Address,
        making_amount: u128,
        taking_amount: u128,
        extra: &ExtraDataArgs,
        maker_balance: i128,
    ) -> (r: Result<DstImmutablesComplement, Error>)
        requires
            old(self).wf(),
        ensures
            final(self).wf(),
            (r is Ok) == (old(self).post_interaction_outcome(caller, making_amount, *extra, maker_balance) is Ok),
            r matches Err(e) ==> old(self).post_interaction_outcome(caller, making_amount, *extra, maker_balance)
                == Err::<(), Error>(e) && *final(self) == *old(self),
            r matches Ok(dst) ==> {
                &&& (maker_balance as int) >= (making_amount as int)
                &&& 0 < making_amount <= i128::MAX
                &&& dst == (DstImmutablesComplement {
                    maker: order.receiver,
                    amount: taking_amount,
                    token: extra.dst_token,
                    safety_deposit: dst_deposit(extra.deposits),
                    chain_id: extra.dst_chain_id,
                })
                &&& Self::records_creation(
                    old(self),
                    final(self),
                    final(self).registry@.last().escrow,
                    now,
                    order_hash,
                    extra.hashlock_info,
                    order.maker,
                    taker,
                    order.maker_asset,
                    making_amount as i128,
                    src_deposit(extra.deposits) as i128,
                    extra.timelocks,
                    false,
                )
            },
    {
        let config = match self.config {
            Some(c) => c,
            None => {
                return Err(Error::NotInitialized);
            },
        };
        if !(caller == config.limit_order_protocol) {
            return Err(Error::Unauthorized);
        }
        if self.find(&extra.hashlock_info).is_some() {
            return Err(Error::EscrowExists);
        }
        let src_safety_deposit = extra.deposits / DEPOSIT_HALF;
        if making_amount == 0 || making_amount > i128::MAX as u128 || src_safety_deposit == 0 {
            return Err(Error::InvalidParams);
        }
        if !extra.timelocks.is_valid() {
            return Err(Error::InvalidParams);
        }
        let amount = making_amount as i128;
        if maker_balance < amount {
            return Err(Error::InsufficientEscrowBalance);
        }
        self.register(
            now,
            order_hash,
            extra.hashlock_info,
            order.maker,
            taker,
            order.maker_asset,
            amount,
            src_safety_deposit as i128,
            extra.timelocks,
            false,
        );
        Ok(
            DstImmutablesComplement {
                maker: order.receiver,
                amount: taking_amount,
                token: extra.dst_token,
                safety_deposit: extra.deposits % DEPOSIT_HALF,
                chain_id: extra.dst_chain_id,
            },
        )
    }

    /// The escrow created for `hash_lock`.
    pub fn get_escrow(&self, hash_lock: [u8; 32]) -> (r: Result<&FusionPlusEscrow, Error>)
        requires
            self.wf(),
        ensures
            r is Ok <==> self.is_registered(hash_lock),
            r matches Ok(e) ==> exists|i: int|
                0 <= i < self.escrows@.len() && self.registry@[i].hash_lock == hash_lock && *e == self.escrows@[i],
            r matches Err(e) ==> e == Error::EscrowNotFound,
    {
        match self.find(&hash_lock) {
            Some(i) => Ok(&self.escrows[i]),
            None => Err(Error::EscrowNotFound),
        }
    }

    /// The escrow registered for `hash_lock`.
    pub fn get_escrow_address(&self, hash_lock: [u8; 32]) -> (r: Result<Address, Error>)
        requires
            self.wf(),
        ensures
            r is Ok <==> self.is_registered(hash_lock),
            r matches Ok(a) ==> exists|i: int|
                0 <= i < self.registry@.len() && self.registry@[i] == (RegistryEntry { hash_lock, escrow: a }),
            r matches Err(e) ==> e == Error::EscrowNotFound,
    {
        match self.find(&hash_lock) {
            Some(i) => {
                let entry = self.registry[i];
                assert(self.registry@[i as int] == (RegistryEntry { hash_lock, escrow: entry.escrow }));
                Ok(entry.escrow)
            },
            None => Err(Error::EscrowNotFound),
        }
    }

    pub fn escrow_exists(&self, hash_lock: [u8; 32]) -> (r: bool)
        ensures
            r == self.is_registered(hash_lock),
    {
        self.find(&hash_lock).is_some()
    }

    pub fn get_admin(&self) -> (r: Result<Address, Error>)
        ensures
            r == (match self.config {
                Some(c) => Ok(c.admin),
                None => Err(Error::NotInitialized),
            }),
    {
        match self.config {
            Some(c) => Ok(c.admin),
            None => Err(Error::NotInitialized),
        }
    }

    pub fn get_escrow_wasm_hash(&self) -> (r: Result<[u8; 32], Error>)
        ensures
            r == (match self.config {
                Some(c) => Ok(c.escrow_wasm_hash),
                None => Err(Error::NotInitialized),
            }),
    {
        match self.config {
            Some(c) => Ok(c.escrow_wasm_hash),
            None => Err(Error::NotInitialized),
        }
    }

    pub fn get_limit_order_protocol(&self) -> (r: Result<Address, Error>)
        ensures
            r == (match self.config {
                Some(c) => Ok(c.limit_order_protocol),
                None => Err(Error::NotInitialized),
            }),
    {
        match self.config {
            Some(c) => Ok(c.limit_order_protocol),
            None => Err(Error::NotInitialized),
        }
    }

    pub open spec fn creation_event(dst: bool, record: CreationRecord) -> FactoryEvent {
        if dst {
            FactoryEvent::DstEscrowCreated(record)
        } else {
            FactoryEvent::SrcEscrowCreated(record)
        }
    }

    pub open spec fn timelock_info(t: FactoryTimelockParams, now: u64) -> TimelockInfo {
        TimelockInfo {
            finality: t.finality_delay,
            src_withdrawal: t.src_withdrawal_delay,
            src_public_withdrawal: t.src_public_withdrawal_delay,
            src_cancellation: t.src_cancellation_delay,
            src_public_cancellation: t.src_public_cancellation_delay,
            dst_withdrawal: t.dst_withdrawal_delay,
            dst_public_withdrawal: t.dst_public_withdrawal_delay,
            dst_cancellation: t.dst_cancellation_delay,
            deployed_at: now,
        }
    }
}

/// The factory creates no escrow whose source-leg stages are out of
/// order: a fresh hash-lock with such delays is refused with
/// `InvalidParams`.
pub proof fn lemma_unordered_delays_refused(
    f: StellarEscrowFactory,
    hash_lock: [u8; 32],
    amount: i128,
    safety_deposit: i128,
    timelocks: FactoryTimelockParams,
)
    requires
        f.config is Some,
        !f.is_registered(hash_lock),
        !timelocks.spec_src_params().spec_is_ordered(),
    ensures
        f.create_outcome(hash_lock, amount, safety_deposit, timelocks) == Err::<(), Error>(Error::InvalidParams),
{
}

/// Once a hash-lock is registered, creating another escrow for it, of
/// either leg and with any other parameters, is refused with
/// `EscrowExists`.
pub proof fn lemma_hash_lock_registered_once(
    before: StellarEscrowFactory,
    after: StellarEscrowFactory,
    hash_lock: [u8; 32],
    escrow: Address,
    amount: i128,
    safety_deposit: i128,
    timelocks: FactoryTimelockParams,
)
    requires
        before.config is Some,
        after.config == before.config,
        after.registry@ == before.registry@.push(RegistryEntry { hash_lock, escrow }),
    ensures
        after.is_registered(hash_lock),
        after.create_outcome(hash_lock, amount, safety_deposit, timelocks) == Err::<(), Error>(Error::EscrowExists),
{
    let last = before.registry@.len() as int;
    assert(after.registry@[last].hash_lock == hash_lock);
}

} // verus!
