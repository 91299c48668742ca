//! The five-stage timelock schedule of an escrow and the window that a
//! moment falls in.

use vstd::prelude::*;

verus! {

/// Configured delays, in seconds after deployment.
#[derive(Clone, Copy, Debug, PartialEq, Eq, Structural)]
pub struct TimelockParams {
    /// Earliest moment any action is allowed.
    pub finality: u32,
    /// Earliest moment the counterparty may withdraw with the secret.
    pub withdrawal: u32,
    /// Earliest moment anyone may withdraw with the secret.
    pub public_withdrawal: u32,
    /// Earliest moment the two parties may reclaim the funds.
    pub cancellation: u32,
    /// Earliest moment anyone may trigger the refund.
    pub public_cancellation: u32,
}

impl TimelockParams {
    /// The five stages come strictly one after another.
    pub open spec fn spec_is_ordered(&self) -> bool {
        &&& self.finality < self.withdrawal
        &&& self.withdrawal < self.public_withdrawal
        &&& self.public_withdrawal < self.cancellation
        &&& self.cancellation < self.public_cancellation
    }

    pub fn is_ordered(&self) -> (r: bool)
        ensures
            r == self.spec_is_ordered(),
    {
        self.finality < self.withdrawal && self.withdrawal < self.public_withdrawal
            && self.public_withdrawal < self.cancellation && self.cancellation
            < self.public_cancellation
    }
}

/// Why a schedule cannot be built.
#[derive(Clone, Copy, Debug, PartialEq, Eq, Structural)]
pub enum TimelockError {
    InvalidTimelockOrder,
}

/// The schedule of one escrow: its delays and the moment it was deployed.
#[derive(Clone, Copy, Debug, PartialEq, Eq, Structural)]
pub struct Timelocks {
    pub finality: u32,
    pub withdrawal: u32,
    pub public_withdrawal: u32,
    pub cancellation: u32,
    pub public_cancellation: u32,
    pub deployed_at: u64,
}

/// The stage that a moment falls in.
#[derive(Clone, Copy, Debug, PartialEq, Eq, Structural)]
pub enum WindowState {
    /// Before finality: nothing is allowed.
    BeforeFinality,
    /// Final, but no withdrawal is open yet.
    Finalized,
    /// Only the counterparty may withdraw.
    PrivateWithdrawal,
    /// Anyone may withdraw with the secret.
    PublicWithdrawal,
    /// The parties may cancel.
    PrivateCancellation,
    /// Anyone may cancel.
    PublicCancellation,
}

impl Timelocks {
    pub open spec fn params(&self) -> TimelockParams {
        TimelockParams {
            finality: self.finality,
            withdrawal: self.withdrawal,
            public_withdrawal: self.public_withdrawal,
            cancellation: self.cancellation,
            public_cancellation: self.public_cancellation,
        }
    }

    /// The schedule's delays are strictly increasing.
    pub open spec fn wf(&self) -> bool {
        self.params().spec_is_ordered()
    }

    pub open spec fn finality_at(&self) -> int {
        self.deployed_at + self.finality
    }

    pub open spec fn withdrawal_at(&self) -> int {
        self.deployed_at + self.withdrawal
    }

    pub open spec fn public_withdrawal_at(&self) -> int {
        self.deployed_at + self.public_withdrawal
    }

    pub open spec fn cancellation_at(&self) -> int {
        self.deployed_at + self.cancellation
    }

    pub open spec fn public_cancellation_at(&self) -> int {
        self.deployed_at + self.public_cancellation
    }

    /// The stage that moment `now` falls in.
    pub open spec fn window_at(&self, now: int) -> WindowState {
        if now < self.finality_at() {
            WindowState::BeforeFinality
        } else if now < self.withdrawal_at() {
            WindowState::Finalized
        } else if now < self.public_withdrawal_at() {
            WindowState::PrivateWithdrawal
        } else if now < self.cancellation_at() {
            WindowState::PublicWithdrawal
        } else if now < self.public_cancellation_at() {
            WindowState::PrivateCancellation
        } else {
            WindowState::PublicCancellation
        }
    }

    /// Builds the schedule of an escrow deployed at `deployed_at`; the
    /// delays must be strictly increasing.
    pub fn compute(deployed_at: u64, delays: &TimelockParams) -> (r: Result<Timelocks, TimelockError>)
        ensures
            r is Ok <==> delays.spec_is_ordered(),
            r matches Ok(t) ==> t.params() == *delays && t.deployed_at == deployed_at,
            r matches Err(e) ==> e == TimelockError::InvalidTimelockOrder,
    {
        if !delays.is_ordered() {
            return Err(TimelockError::InvalidTimelockOrder);
        }
        Ok(
            Timelocks {
                finality: delays.finality,
                withdrawal: delays.withdrawal,
                public_withdrawal: delays.public_withdrawal,
                cancellation: delays.cancellation,
                public_cancellation: delays.public_cancellation,
                deployed_at,
            },
        )
    }

    pub fn finality_time(&self) -> (r: u128)
        ensures
            r == self.finality_at(),
    {
        self.deployed_at as u128 + self.finality as u128
    }

    pub fn withdrawal_time(&self) -> (r: u128)
        ensures
            r == self.withdrawal_at(),
    {
        self.deployed_at as u128 + self.withdrawal as u128
    }

    pub fn public_withdrawal_time(&self) -> (r: u128)
        ensures
            r == self.public_withdrawal_at(),
    {
        self.deployed_at as u128 + self.public_withdrawal as u128
    }

    pub fn cancellation_time(&self) -> (r: u128)
        ensures
            r == self.cancellation_at(),
    {
        self.deployed_at as u128 + self.cancellation as u128
    }

    pub fn public_cancellation_time(&self) -> (r: u128)
        ensures
            r == self.public_cancellation_at(),
    {
        self.deployed_at as u128 + self.public_cancellation as u128
    }

    /// The stage that moment `now` falls in.
    pub fn window_for(&self, now: u64) -> (w: WindowState)
        ensures
            w == self.window_at(now as int),
    {
        let t = now as u128;
        if t < self.finality_time() {
            WindowState::BeforeFinality
        } else if t < self.withdrawal_time() {
            WindowState::Finalized
        } else if t < self.public_withdrawal_time() {
            WindowState::PrivateWithdrawal
        } else if t < self.cancellation_time() {
            WindowState::PublicWithdrawal
        } else if t < self.public_cancellation_time() {
            WindowState::PrivateCancellation
        } else {
            WindowState::PublicCancellation
        }
    }
}

/// In a well-formed schedule the five moments come strictly in order, so
/// the windows are disjoint and follow one another.
pub proof fn lemma_schedule_ordered(t: Timelocks)
    requires
        t.wf(),
    ensures
        t.finality_at() < t.withdrawal_at(),
        t.withdrawal_at() < t.public_withdrawal_at(),
        t.public_withdrawal_at() < t.cancellation_at(),
        t.cancellation_at() < t.public_cancellation_at(),
{
}

} // verus!
