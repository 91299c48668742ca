//! One escrow per swap leg: the hash- and time-locked state machine.
//!
//! Operations take the current ledger time and the authenticated caller
//! from the host, and hand back the transfers that the host must carry out
//! in the same transaction; records are appended to the escrow's log.

use vstd::prelude::*;
use crate::primitives::{Address, bytes_equal, keccak256, keccak_of};
use crate::timelocks::{TimelockParams, Timelocks};

verus! {

#[derive(Clone, Copy, Debug, PartialEq, Eq, Structural)]
pub enum Error {
    AlreadyInitialized,
    NotInitialized,
    InvalidSecret,
    InvalidTime,
    Unauthorized,
    InvalidParams,
    AlreadyWithdrawn,
    AlreadyCancelled,
    SafetyDepositFailed,
    TokenTransferFailed,
    InvalidState,
}

/// What a transfer moves: the ledger's native asset or a token contract's.
#[derive(Clone, Copy, Debug)]
pub enum Asset {
    Native,
    Token(Address),
}

/// A movement of `amount` units of `asset` from `from` to `to`.
#[derive(Clone, Copy, Debug)]
pub struct Transfer {
    pub asset: Asset,
    pub from: Address,
    pub to: Address,
    pub amount: i128,
}

/// Parameters fixed once at initialization.
#[derive(Clone, Copy, Debug)]
pub struct Immutables {
    pub order_hash: [u8; 32],
    pub hash_lock: [u8; 32],
    pub maker: Address,
    pub taker: Address,
    pub token: Address,
    pub amount: i128,
    pub safety_deposit: i128,
    pub timelocks: Timelocks,
}

/// What the creator of an escrow supplies.
#[derive(Clone, Copy, Debug)]
pub struct InitParams {
    pub order_hash: [u8; 32],
    pub hash_lock: [u8; 32],
    pub maker: Address,
    pub taker: Address,
    pub token: Address,
    pub amount: i128,
    pub safety_deposit: i128,
    pub timelocks: TimelockParams,
}

#[derive(Clone, Copy, Debug)]
pub struct EscrowCreatedEvent {
    pub order_hash: [u8; 32],
    pub hash_lock: [u8; 32],
    pub maker: Address,
    pub taker: Address,
    pub token: Address,
    pub amount: i128,
    pub safety_deposit: i128,
    pub finality_time: u128,
    pub withdrawal_time: u128,
    pub cancellation_time: u128,
}

#[derive(Clone, Copy, Debug)]
pub struct WithdrawalEvent {
    pub hash_lock: [u8; 32],
    pub secret: [u8; 32],
    pub withdrawn_by: Address,
    pub is_public_withdrawal: bool,
}

#[derive(Clone, Copy, Debug)]
pub struct EscrowCancelledEvent {
    pub hash_lock: [u8; 32],
    pub cancelled_by: Address,
    pub refund_to: Address,
}

/// A record that relayers read to follow the swap.
#[derive(Clone, Copy, Debug)]
pub enum EscrowEvent {
    Created(EscrowCreatedEvent),
    Withdrawal(WithdrawalEvent),
    Cancelled(EscrowCancelledEvent),
}

/// One escrow instance. `address` is its own ledger identity, from which
/// its payouts are made.
pub struct FusionPlusEscrow {
    pub address: Address,
    pub immutables: Option<Immutables>,
    pub withdrawn: bool,
    pub cancelled: bool,
    pub revealed_secret: Option<[u8; 32]>,
    pub events: Vec<EscrowEvent>,
}

/// The sum of the amounts of a sequence of transfers.
pub open spec fn total(s: Seq<Transfer>) -> int
    decreases s.len(),
{
    if s.len() == 0 {
        0
    } else {
        total(s.drop_last()) + s.last().amount
    }
}

/// Payouts of a withdrawal: the amount to the maker, the safety deposit
/// to whoever completed the swap.
pub open spec fn withdrawal_payouts(escrow: Address, imm: Immutables, rewarded: Address) -> Seq<Transfer> {
    seq![
        Transfer { asset: Asset::Token(imm.token), from: escrow, to: imm.maker, amount: imm.amount },
        Transfer { asset: Asset::Native, from: escrow, to: rewarded, amount: imm.safety_deposit },
    ]
}

/// Payouts of a cancellation: the amount and the safety deposit back to
/// the maker.
pub open spec fn refund_payouts(escrow: Address, imm: Immutables) -> Seq<Transfer> {
    seq![
        Transfer { asset: Asset::Token(imm.token), from: escrow, to: imm.maker, amount: imm.amount },
        Transfer { asset: Asset::Native, from: escrow, to: imm.maker, amount: imm.safety_deposit },
    ]
}

impl Immutables {
    pub open spec fn wf(&self) -> bool {
        &&& self.amount > 0
        &&& self.safety_deposit > 0
        &&& self.timelocks.wf()
    }
}

impl FusionPlusEscrow {
    /// The escrow's invariant: at most one terminal state, only once
    /// initialized, and the secret is known exactly when withdrawn.
    pub open spec fn wf(&self) -> bool {
        &&& !(self.withdrawn && self.cancelled)
        &&& (self.withdrawn || self.cancelled) ==> self.immutables is Some
        &&& (self.revealed_secret is Some <==> self.withdrawn)
        &&& self.immutables matches Some(imm) ==> imm.wf()
    }

    /// All but the cancellation flag and the log are those of `other`.
    pub open spec fn same_state_but_cancelled(&self, other: &FusionPlusEscrow) -> bool {
        &&& self.address == other.address
        &&& self.immutables == other.immutables
        &&& self.withdrawn == other.withdrawn
        &&& self.revealed_secret == other.revealed_secret
    }

    pub open spec fn initialize_outcome(&self, params: InitParams) -> Result<(), Error> {
        if self.immutables is Some {
            Err(Error::AlreadyInitialized)
        } else if params.amount <= 0 || params.safety_deposit <= 0 {
            Err(Error::InvalidParams)
        } else if !params.timelocks.spec_is_ordered() {
            Err(Error::InvalidParams)
        } else {
            Ok(())
        }
    }

    /// The parameters that initialization at moment `now` fixes.
    pub open spec fn initial_immutables(params: InitParams, now: u64) -> Immutables {
        Immutables {
            order_hash: params.order_hash,
            hash_lock: params.hash_lock,
            maker: params.maker,
            taker: params.taker,
            token: params.token,
            amount: params.amount,
            safety_deposit: params.safety_deposit,
            timelocks: Timelocks {
                finality: params.timelocks.finality,
                withdrawal: params.timelocks.withdrawal,
                public_withdrawal: params.timelocks.public_withdrawal,
                cancellation: params.timelocks.cancellation,
                public_cancellation: params.timelocks.public_cancellation,
                deployed_at: now,
            },
        }
    }

    pub open spec fn deposit_outcome(&self, caller: Address) -> Result<(), Error> {
        match self.immutables {
            None => Err(Error::NotInitialized),
            Some(imm) => if caller != imm.maker {
                Err(Error::Unauthorized)
            } else if self.withdrawn || self.cancelled {
                Err(Error::InvalidState)
            } else {
                Ok(())
            },
        }
    }

    /// Outcome of a withdrawal at `now` by `caller`, offering a secret
    /// whose digest is `digest`; `public` selects the backstop variant.
    pub open spec fn withdraw_outcome(&self, now: int, caller: Address, digest: Seq<u8>, public: bool) -> Result<(), Error> {
        match self.immutables {
            None => Err(Error::NotInitialized),
            Some(imm) => if self.withdrawn {
                Err(Error::AlreadyWithdrawn)
            } else if self.cancelled {
                Err(Error::AlreadyCancelled)
            } else if !public && caller != imm.taker {
                Err(Error::Unauthorized)
            } else if digest != imm.hash_lock@ {
                Err(Error::InvalidSecret)
            } else if now < (if public {
                imm.timelocks.public_withdrawal_at()
            } else {
                imm.timelocks.withdrawal_at()
            }) || now >= imm.timelocks.cancellation_at() {
                Err(Error::InvalidTime)
            } else {
                Ok(())
            },
        }
    }

    /// Outcome of a cancellation at `now` by `caller`; `public` selects
    /// the backstop variant.
    pub open spec fn cancel_outcome(&self, now: int, caller: Address, public: bool) -> Result<(), Error> {
        match self.immutables {
            None => Err(Error::NotInitialized),
            Some(imm) => if self.withdrawn {
                Err(Error::AlreadyWithdrawn)
            } else if self.cancelled {
                Err(Error::AlreadyCancelled)
            } else if now < (if public {
                imm.timelocks.public_cancellation_at()
            } else {
                imm.timelocks.cancellation_at()
            }) {
                Err(Error::InvalidTime)
            } else if !public && caller != imm.maker && caller != imm.taker {
                Err(Error::Unauthorized)
            } else {
                Ok(())
            },
        }
    }

    /// A fresh, uninitialized escrow living at `address`.
    pub fn new(address: Address) -> (r: FusionPlusEscrow)
        ensures
            r.wf(),
            r.address == address,
            r.immutables is None,
            !r.withdrawn,
            !r.cancelled,
            r.revealed_secret is None,
            r.events@.len() == 0,
    {
        FusionPlusEscrow {
            address,
            immutables: None,
            withdrawn: false,
            cancelled: false,
            revealed_secret: None,
            events: Vec::new(),
        }
    }

    /// Fixes the escrow's parameters, once; the schedule starts at `now`.
    pub fn initialize(&mut self, now: u64, params: InitParams) -> (r: Result<(), Error>)
        requires
            old(self).wf(),
        ensures
            final(self).wf(),
            r == old(self).initialize_outcome(params),
            r is Err ==> *final(self) == *old(self),
            r is Ok ==> {
                &&& final(self).immutables == Some(Self::initial_immutables(params, now))
                &&& final(self).address == old(self).address
                &&& !final(self).withdrawn
                &&& !final(self).cancelled
                &&& final(self).revealed_secret is None
                &&& final(self).events@ == old(self).events@.push(
                    EscrowEvent::Created(
                        EscrowCreatedEvent {
                            order_hash: params.order_hash,
                            hash_lock: params.hash_lock,
                            maker: params.maker,
                            taker: params.taker,
                            token: params.token,
                            amount: params.amount,
                            safety_deposit: params.safety_deposit,
                            finality_time: (now + params.timelocks.finality) as u128,
                            withdrawal_time: (now + params.timelocks.withdrawal) as u128,
                            cancellation_time: (now + params.timelocks.cancellation) as u128,
                        },
                    ),
                )
            },
    {
        if self.immutables.is_some() {
            return Err(Error::AlreadyInitialized);
        }
        if params.amount <= 0 || params.safety_deposit <= 0 {
            return Err(Error::InvalidParams);
        }
        let timelocks = match Timelocks::compute(now, &params.timelocks) {
            Ok(t) => t,
            Err(_) => {
                return Err(Error::InvalidParams);
            },
        };
        let imm = Immutables {
            order_hash: params.order_hash,
            hash_lock: params.hash_lock,
            maker: params.maker,
            taker: params.taker,
            token: params.token,
            amount: params.amount,
            safety_deposit: params.safety_deposit,
            timelocks,
        };
        let event = EscrowCreatedEvent {
            order_hash: params.order_hash,
            hash_lock: params.hash_lock,
            maker: params.maker,
            taker: params.taker,
            token: params.token,
            amount: params.amount,
            safety_deposit: params.safety_deposit,
            finality_time: timelocks.finality_time(),
            withdrawal_time: timelocks.withdrawal_time(),
            cancellation_time: timelocks.cancellation_time(),
        };
        self.immutables = Some(imm);
        self.withdrawn = false;
        self.cancelled = false;
        self.revealed_secret = None;
        self.events.push(EscrowEvent::Created(event));
        Ok(())
    }

    /// Moves the escrowed amount from the maker into the escrow: the
    /// transfer is the host's to carry out.
    pub fn deposit(&self, caller: Address) -> (r: Result<Transfer, Error>)
        requires
            self.wf(),
        ensures
            (r is Ok) == (self.deposit_outcome(caller) is Ok),
            r matches Err(e) ==> self.deposit_outcome(caller) == Err::<(), Error>(e),
            r matches Ok(t) ==> self.immutables matches Some(imm) && t == (Transfer {
                asset: Asset::Token(imm.token),
                from: imm.maker,
                to: self.address,
                amount: imm.amount,
            }),
    {
        let imm = match self.immutables {
            Some(imm) => imm,
            None => {
                return Err(Error::NotInitialized);
            },
        };
        if !(caller == imm.maker) {
            return Err(Error::Unauthorized);
        }
        if self.withdrawn || self.cancelled {
            return Err(Error::InvalidState);
        }
        Ok(Transfer { asset: Asset::Token(imm.token), from: imm.maker, to: self.address, amount: imm.amount })
    }

    /// Decides a withdrawal at `now` by `caller`, given the digest of the
    /// offered secret; `public` selects the backstop variant.
    pub fn check_withdraw(&self, now: u64, caller: Address, secret_hash: &[u8; 32], public: bool) -> (r: Result<(), Error>)
        requires
            self.wf(),
        ensures
            r == self.withdraw_outcome(now as int, caller, secret_hash@, public),
    {
        let imm = match self.immutables {
            Some(imm) => imm,
            None => {
                return Err(Error::NotInitialized);
            },
        };
        if self.withdrawn {
            return Err(Error::AlreadyWithdrawn);
        }
        if self.cancelled {
            return Err(Error::AlreadyCancelled);
        }
        if !public && !(caller == imm.taker) {
            return Err(Error::Unauthorized);
        }
        if !bytes_equal(secret_hash, &imm.hash_lock) {
            return Err(Error::InvalidSecret);
        }
        let opens = if public {
            imm.timelocks.public_withdrawal_time()
        } else {
            imm.timelocks.withdrawal_time()
        };
        if (now as u128) < opens || (now as u128) >= imm.timelocks.cancellation_time() {
            return Err(Error::InvalidTime);
        }
        Ok(())
    }

    /// Decides a cancellation at `now` by `caller`; `public` selects the
    /// backstop variant.
    pub fn check_cancel(&self, now: u64, caller: Address, public: bool) -> (r: Result<(), Error>)
        requires
            self.wf(),
        ensures
            r == self.cancel_outcome(now as int, caller, public),
    {
        let imm = match self.immutables {
            Some(imm) => imm,
            None => {
                return Err(Error::NotInitialized);
            },
        };
        if self.withdrawn {
            return Err(Error::AlreadyWithdrawn);
        }
        if self.cancelled {
            return Err(Error::AlreadyCancelled);
        }
        let opens = if public {
            imm.timelocks.public_cancellation_time()
        } else {
            imm.timelocks.cancellation_time()
        };
        if (now as u128) < opens {
            return Err(Error::InvalidTime);
        }
        if !public && !(caller == imm.maker) && !(caller == imm.taker) {
            return Err(Error::Unauthorized);
        }
        Ok(())
    }

    fn settle_withdrawal(&mut self, caller: Address, secret: [u8; 32], public: bool) -> (r: Vec<Transfer>)
        requires
            old(self).wf(),
            old(self).immutables is Some,
            !old(self).withdrawn,
            !old(self).cancelled,
        ensures
            final(self).wf(),
            final(self).address == old(self).address,
            final(self).immutables == old(self).immutables,
            final(self).withdrawn,
            !final(self).cancelled,
            final(self).revealed_secret == Some(secret),
            final(self).events@ == old(self).events@.push(
                EscrowEvent::Withdrawal(
                    WithdrawalEvent {
                        hash_lock: old(self).immutables->Some_0.hash_lock,
                        secret,
                        withdrawn_by: if public { caller } else { old(self).immutables->Some_0.taker },
                        is_public_withdrawal: public,
                    },
                ),
            ),
            r@ == withdrawal_payouts(
                old(self).address,
                old(self).immutables->Some_0,
                if public { caller } else { old(self).immutables->Some_0.taker },
            ),
    {
        let imm = self.immutables.unwrap();
        let rewarded = if public { caller } else { imm.taker };
        self.withdrawn = true;
        self.revealed_secret = Some(secret);
        self.events.push(
            EscrowEvent::Withdrawal(
                WithdrawalEvent { hash_lock: imm.hash_lock, secret, withdrawn_by: rewarded, is_public_withdrawal: public },
            ),
        );
        let mut payouts: Vec<Transfer> = Vec::new();
        payouts.push(Transfer { asset: Asset::Token(imm.token), from: self.address, to: imm.maker, amount: imm.amount });
        payouts.push(Transfer { asset: Asset::Native, from: self.address, to: rewarded, amount: imm.safety_deposit });
        assert(payouts@ =~= withdrawal_payouts(self.address, imm, rewarded));
        payouts
    }

    fn settle_cancellation(&mut self, caller: Address) -> (r: Vec<Transfer>)
        requires
            old(self).wf(),
            old(self).immutables is Some,
            !old(self).withdrawn,
            !old(self).cancelled,
        ensures
            final(self).wf(),
            final(self).address == old(self).address,
            final(self).immutables == old(self).immutables,
            !final(self).withdrawn,
            final(self).cancelled,
            final(self).revealed_secret == old(self).revealed_secret,
            final(self).events@ == old(self).events@.push(
                EscrowEvent::Cancelled(
                    EscrowCancelledEvent {
                        hash_lock: old(self).immutables->Some_0.hash_lock,
                        cancelled_by: caller,
                        refund_to: old(self).immutables->Some_0.maker,
                    },
                ),
            ),
            r@ == refund_payouts(old(self).address, old(self).immutables->Some_0),
    {
        let imm = self.immutables.unwrap();
        self.cancelled = true;
        self.events.push(
            EscrowEvent::Cancelled(
                EscrowCancelledEvent { hash_lock: imm.hash_lock, cancelled_by: caller, refund_to: imm.maker },
            ),
        );
        let mut payouts: Vec<Transfer> = Vec::new();
        payouts.push(Transfer { asset: Asset::Token(imm.token), from: self.address, to: imm.maker, amount: imm.amount });
        payouts.push(Transfer { asset: Asset::Native, from: self.address, to: imm.maker, amount: imm.safety_deposit });
        assert(payouts@ =~= refund_payouts(self.address, imm));
        payouts
    }

    /// Withdrawal by the counterparty with the secret, in
    /// `[withdrawal, cancellation)`: the amount goes to the maker and the
    /// safety deposit to the counterparty.
    pub fn withdraw(&mut self, now: u64, caller: Address, secret: [u8; 32]) -> (r: Result<Vec<Transfer>, Error>)
        requires
            old(self).wf(),
        ensures
            final(self).wf(),
            (r is Ok) == (old(self).withdraw_outcome(now as int, caller, keccak_of(secret@), false) is Ok),
            r matches Err(e) ==> old(self).withdraw_outcome(now as int, caller, keccak_of(secret@), false)
                == Err::<(), Error>(e) && *final(self) == *old(self),
            r matches Ok(payouts) ==> {
                let imm = old(self).immutables->Some_0;
                &&& final(self).withdrawn
                &&& final(self).revealed_secret == Some(secret)
                &&& final(self).immutables == old(self).immutables
                &&& final(self).address == old(self).address
                &&& final(self).events@ == old(self).events@.push(
                    EscrowEvent::Withdrawal(
                        WithdrawalEvent { hash_lock: imm.hash_lock, secret, withdrawn_by: imm.taker, is_public_withdrawal: false },
                    ),
                )
                &&& payouts@ == withdrawal_payouts(old(self).address, imm, imm.taker)
            },
    {
        let digest = keccak256(&secret);
        match self.check_withdraw(now, caller, &digest, false) {
            Ok(()) => Ok(self.settle_withdrawal(caller, secret, false)),
            Err(e) => Err(e),
        }
    }

    /// Withdrawal by anyone with the secret, in
    /// `[public_withdrawal, cancellation)`: the amount goes to the maker
    /// and the safety deposit to the caller.
    pub fn public_withdraw(&mut self, now: u64, caller: Address, secret: [u8; 32]) -> (r: Result<Vec<Transfer>, Error>)
        requires
            old(self).wf(),
        ensures
            final(self).wf(),
            (r is Ok) == (old(self).withdraw_outcome(now as int, caller, keccak_of(secret@), true) is Ok),
            r matches Err(e) ==> old(self).withdraw_outcome(now as int, caller, keccak_of(secret@), true)
                == Err::<(), Error>(e) && *final(self) == *old(self),
            r matches Ok(payouts) ==> {
                let imm = old(self).immutables->Some_0;
                &&& final(self).withdrawn
                &&& final(self).revealed_secret == Some(secret)
                &&& final(self).immutables == old(self).immutables
                &&& final(self).address == old(self).address
                &&& final(self).events@ == old(self).events@.push(
                    EscrowEvent::Withdrawal(
                        WithdrawalEvent { hash_lock: imm.hash_lock, secret, withdrawn_by: caller, is_public_withdrawal: true },
                    ),
                )
                &&& payouts@ == withdrawal_payouts(old(self).address, imm, caller)
            },
    {
        let digest = keccak256(&secret);
        match self.check_withdraw(now, caller, &digest, true) {
            Ok(()) => Ok(self.settle_withdrawal(caller, secret, true)),
            Err(e) => Err(e),
        }
    }

    /// Refund to the maker, by the maker or the counterparty, from
    /// `cancellation` on.
    pub fn cancel(&mut self, now: u64, caller: Address) -> (r: Result<Vec<Transfer>, Error>)
        requires
            old(self).wf(),
        ensures
            final(self).wf(),
            (r is Ok) == (old(self).cancel_outcome(now as int, caller, false) is Ok),
            r matches Err(e) ==> old(self).cancel_outcome(now as int, caller, false) == Err::<(), Error>(e)
                && *final(self) == *old(self),
            r matches Ok(payouts) ==> {
                let imm = old(self).immutables->Some_0;
                &&& final(self).cancelled
                &&& !final(self).withdrawn
                &&& final(self).same_state_but_cancelled(old(self))
                &&& final(self).events@ == old(self).events@.push(
                    EscrowEvent::Cancelled(
                        EscrowCancelledEvent { hash_lock: imm.hash_lock, cancelled_by: caller, refund_to: imm.maker },
                    ),
                )
                &&& payouts@ == refund_payouts(old(self).address, imm)
            },
    {
        match self.check_cancel(now, caller, false) {
            Ok(()) => Ok(self.settle_cancellation(caller)),
            Err(e) => Err(e),
        }
    }

    /// Refund to the maker, by anyone, from `public_cancellation` on.
    pub fn public_cancel(&mut self, now: u64, caller: Address) -> (r: Result<Vec<Transfer>, Error>)
        requires
            old(self).wf(),
        ensures
            final(self).wf(),
            (r is Ok) == (old(self).cancel_outcome(now as int, caller, true) is Ok),
            r matches Err(e) ==> old(self).cancel_outcome(now as int, caller, true) == Err::<(), Error>(e)
                && *final(self) == *old(self),
            r matches Ok(payouts) ==> {
                let imm = old(self).immutables->Some_0;
                &&& final(self).cancelled
                &&& !final(self).withdrawn
                &&& final(self).same_state_but_cancelled(old(self))
                &&& final(self).events@ == old(self).events@.push(
                    EscrowEvent::Cancelled(
                        EscrowCancelledEvent { hash_lock: imm.hash_lock, cancelled_by: caller, refund_to: imm.maker },
                    ),
                )
                &&& payouts@ == refund_payouts(old(self).address, imm)
            },
    {
        match self.check_cancel(now, caller, true) {
            Ok(()) => Ok(self.settle_cancellation(caller)),
            Err(e) => Err(e),
        }
    }

    pub fn get_immutables(&self) -> (r: Result<Immutables, Error>)
        ensures
            r == (match self.immutables {
                Some(imm) => Ok(imm),
                None => Err(Error::NotInitialized),
            }),
    {
        match self.immutables {
            Some(imm) => Ok(imm),
            None => Err(Error::NotInitialized),
        }
    }

    pub fn is_withdrawn_status(&self) -> (r: Result<bool, Error>)
        ensures
            r == Ok::<bool, Error>(self.withdrawn),
    {
        Ok(self.withdrawn)
    }

    pub fn is_cancelled_status(&self) -> (r: Result<bool, Error>)
        ensures
            r == Ok::<bool, Error>(self.cancelled),
    {
        Ok(self.cancelled)
    }

    /// The secret revealed by a withdrawal; refused before one.
    pub fn get_revealed_secret(&self) -> (r: Result<[u8; 32], Error>)
        requires
            self.wf(),
        ensures
            r is Ok <==> self.withdrawn,
            r matches Ok(s) ==> self.revealed_secret == Some(s),
            r matches Err(e) ==> e == Error::InvalidState,
    {
        if !self.withdrawn {
            return Err(Error::InvalidState);
        }
        match self.revealed_secret {
            Some(s) => Ok(s),
            None => Err(Error::InvalidState),
        }
    }
}

/// On a live escrow, a private withdrawal succeeds exactly when the
/// secret's digest is the hash-lock, the moment lies in
/// `[withdrawal, cancellation)` and the caller is the counterparty; a
/// public one exactly when the digest matches and the moment lies in
/// `[public_withdrawal, cancellation)`, whoever calls.
pub proof fn lemma_withdraw_succeeds_iff(e: FusionPlusEscrow, now: int, caller: Address, digest: Seq<u8>)
    requires
        e.wf(),
        e.immutables is Some,
        !e.withdrawn,
        !e.cancelled,
    ensures
        ({
            let imm = e.immutables->Some_0;
            &&& e.withdraw_outcome(now, caller, digest, false) is Ok <==> {
                &&& digest == imm.hash_lock@
                &&& imm.timelocks.withdrawal_at() <= now < imm.timelocks.cancellation_at()
                &&& caller == imm.taker
            }
            &&& e.withdraw_outcome(now, caller, digest, true) is Ok <==> {
                &&& digest == imm.hash_lock@
                &&& imm.timelocks.public_withdrawal_at() <= now < imm.timelocks.cancellation_at()
            }
        }),
{
}

/// An escrow accepts only schedules whose five moments come strictly in
/// order; delays out of that order are refused with `InvalidParams`.
pub proof fn lemma_schedule_checked(e: FusionPlusEscrow, params: InitParams, now: u64)
    requires
        e.wf(),
    ensures
        e.initialize_outcome(params) is Ok ==> {
            let t = FusionPlusEscrow::initial_immutables(params, now).timelocks;
            &&& t.finality_at() < t.withdrawal_at()
            &&& t.withdrawal_at() < t.public_withdrawal_at()
            &&& t.public_withdrawal_at() < t.cancellation_at()
            &&& t.cancellation_at() < t.public_cancellation_at()
        },
        e.immutables is None && !params.timelocks.spec_is_ordered() ==> e.initialize_outcome(params)
            == Err::<(), Error>(Error::InvalidParams),
{
}

/// Once an escrow is withdrawn, every further withdrawal or cancellation,
/// private or public, fails with `AlreadyWithdrawn`; once it is cancelled,
/// with `AlreadyCancelled`.
pub proof fn lemma_terminal_states_are_final(e: FusionPlusEscrow, now: int, caller: Address, digest: Seq<u8>, public: bool)
    requires
        e.wf(),
    ensures
        e.withdrawn ==> {
            &&& e.withdraw_outcome(now, caller, digest, public) == Err::<(), Error>(Error::AlreadyWithdrawn)
            &&& e.cancel_outcome(now, caller, public) == Err::<(), Error>(Error::AlreadyWithdrawn)
        },
        e.cancelled ==> {
            &&& e.withdraw_outcome(now, caller, digest, public) == Err::<(), Error>(Error::AlreadyCancelled)
            &&& e.cancel_outcome(now, caller, public) == Err::<(), Error>(Error::AlreadyCancelled)
        },
{
}

/// Every terminal operation pays out of the escrow exactly the amount plus
/// the safety deposit: nothing is kept back and nothing is paid twice.
pub proof fn lemma_funds_conserved(escrow: Address, imm: Immutables, rewarded: Address)
    ensures
        total(withdrawal_payouts(escrow, imm, rewarded)) == imm.amount + imm.safety_deposit,
        total(refund_payouts(escrow, imm)) == imm.amount + imm.safety_deposit,
        forall|i: int| 0 <= i < 2 ==> #[trigger] withdrawal_payouts(escrow, imm, rewarded)[i].from == escrow,
        forall|i: int| 0 <= i < 2 ==> #[trigger] refund_payouts(escrow, imm)[i].from == escrow,
{
    reveal_with_fuel(total, 3);
    assert(withdrawal_payouts(escrow, imm, rewarded).drop_last().drop_last().len() == 0);
    assert(refund_payouts(escrow, imm).drop_last().drop_last().len() == 0);
}

} // verus!
