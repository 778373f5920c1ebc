use vstd::prelude::*;

use crate::errors::InstructionError;

verus! {

/// A 32-byte account address.
#[derive(Clone, Copy, Debug, PartialEq, Eq)]
pub struct Pubkey {
    pub bytes: [u8; 32],
}

impl View for Pubkey {
    type V = Seq<u8>;

    open spec fn view(&self) -> Seq<u8> {
        self.bytes@
    }
}

impl Pubkey {
    /// Whether two addresses are the same 32 bytes.
    pub fn same_key(&self, other: &Pubkey) -> (r: bool)
        ensures
            r == (self@ == other@),
    {
        let mut i: usize = 0;
        while i < 32
            invariant
                0 <= i <= 32,
                self@.len() == 32,
                other@.len() == 32,
                forall|j: int| 0 <= j < i ==> self@[j] == other@[j],
            decreases 32 - i,
        {
            if self.bytes[i] != other.bytes[i] {
                return false;
            }
            i = i + 1;
        }
        assert(self@ =~= other@);
        true
    }
}

/// Where an escrow stands in its life.
#[derive(Clone, Copy, Debug, PartialEq, Eq, Structural)]
pub enum Status {
    Funded,
    Accepted,
    Released,
    Completed,
    Cancelled,
    Pending,
}

/// The data that the escrow account holds.
#[derive(Clone, Copy, Debug, PartialEq, Eq)]
pub struct EscrowState {
    pub client: Pubkey,
    pub freelancer: Pubkey,
    pub amount: u64,
    pub status: Status,
    pub deadline: i64,
    pub grace_period: i64,
    pub review_window: i64,
    pub completed_at: i64,
    pub job_id: u64,
}

impl EscrowState {
    /// The terms that the client fixed when the escrow was created.
    pub open spec fn same_terms(self, other: EscrowState) -> bool {
        &&& self.client == other.client
        &&& self.freelancer == other.freelancer
        &&& self.amount == other.amount
        &&& self.deadline == other.deadline
        &&& self.grace_period == other.grace_period
        &&& self.review_window == other.review_window
        &&& self.job_id == other.job_id
    }

    /// The same escrow with another status.
    pub open spec fn with_status(self, status: Status) -> EscrowState {
        EscrowState { status, ..self }
    }
}

/// The escrow account: its address, its balance and its data.
#[derive(Clone, Copy, Debug, PartialEq, Eq)]
pub struct EscrowAccount {
    pub key: Pubkey,
    pub lamports: u64,
    pub state: EscrowState,
}

impl EscrowAccount {
    /// The same account holding other data.
    pub open spec fn with_state(self, state: EscrowState) -> EscrowAccount {
        EscrowAccount { state, ..self }
    }

    /// While the escrow is funded and not yet settled, its account holds at
    /// least the escrowed amount.
    pub open spec fn holds_funds(self) -> bool {
        (self.state.status == Status::Funded || self.state.status == Status::Accepted
            || self.state.status == Status::Completed) ==> self.lamports >= self.state.amount
    }
}

/// A party's wallet: its address and its balance.
#[derive(Clone, Copy, Debug, PartialEq, Eq)]
pub struct Wallet {
    pub key: Pubkey,
    pub lamports: u64,
}

/// The accounts of an instruction, with the id of the program that runs it.
pub struct Context<T> {
    pub program_id: Pubkey,
    pub accounts: T,
}

/// A transfer of lamports that the System Program is asked to make.
#[derive(Clone, Copy, Debug, PartialEq, Eq)]
pub struct SystemTransfer {
    pub from: Pubkey,
    pub to: Pubkey,
    pub lamports: u64,
}

/// An instruction's outcome as its contract states it: where `expected` is
/// `Ok`, the call succeeds and leaves the accounts as `expected` holds them;
/// where it is an error, the call returns that error and leaves the accounts
/// as they were.
pub open spec fn settles<T>(
    r: Result<(), InstructionError>,
    before: T,
    after: T,
    expected: Result<T, InstructionError>,
) -> bool {
    match expected {
        Ok(accounts) => r is Ok && after == accounts,
        Err(e) => r == Err::<(), InstructionError>(e) && after == before,
    }
}

/// The escrowed amount leaves the escrow account for `to`, and the escrow
/// takes the status `status`.
pub open spec fn pay_out(escrow: EscrowAccount, to: Wallet, status: Status) -> (EscrowAccount, Wallet) {
    (
        EscrowAccount {
            lamports: (escrow.lamports - escrow.state.amount) as u64,
            state: escrow.state.with_status(status),
            ..escrow
        },
        Wallet { lamports: (to.lamports + escrow.state.amount) as u64, ..to },
    )
}

/// Whether the escrow account can pay the escrowed amount to `to` within the
/// range of a `u64` balance.
pub open spec fn can_pay_out(escrow: EscrowAccount, to: Wallet) -> bool {
    &&& escrow.lamports >= escrow.state.amount
    &&& to.lamports + escrow.state.amount <= u64::MAX
}

/// Whether a sum of times stays within the range of an `i64`.
pub open spec fn fits_i64(t: int) -> bool {
    i64::MIN <= t <= i64::MAX
}

} // verus!
