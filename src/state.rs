//! The records that the mandate program keeps.
use vstd::prelude::*;
use crate::address::Address;

verus! {

/// The longest name of a mandate, in bytes.
pub const MAX_NAME_LEN: usize = 20;

/// The longest description of a mandate, in bytes.
pub const MAX_DESCRIPTION_LEN: usize = 50;

/// The longest name of a user, in bytes.
pub const MAX_USER_NAME_LEN: usize = 32;

/// How many periodic amounts the delegated authority covers when a mandate
/// is created, so that a late scheduler can still catch up.
pub const APPROVAL_PERIODS: u64 = 3;

/// The length of a text in bytes, as UTF-8.
pub open spec fn byte_len(s: Seq<char>) -> int {
    vstd::utf8::encode_utf8(s).len() as int
}

/// The number of bytes of `s`.
pub fn text_len(s: &String) -> (r: usize)
    ensures
        r == byte_len(s@),
{
    s.as_str().as_bytes().len()
}

/// One recurring obligation of `payer` to `payee`.
#[derive(Debug)]
pub struct Mandate {
    pub payer: Address,
    pub payee: Address,
    pub amount: u64,
    pub token: Address,
    pub frequency: i64,
    pub active: bool,
    pub next_payout: i64,
    pub bump: u8,
    pub name: String,
    pub description: String,
    pub payment_count: u32,
}

impl Mandate {
    /// The invariant of every stored mandate.
    pub open spec fn wf(&self) -> bool {
        &&& self.amount > 0
        &&& self.frequency > 0
        &&& self.active
        &&& byte_len(self.name@) <= MAX_NAME_LEN
        &&& byte_len(self.description@) <= MAX_DESCRIPTION_LEN
    }

    /// Whether the mandate is due at `now`.
    pub open spec fn due_at(&self, now: i64) -> bool {
        self.active && now >= self.next_payout
    }

    /// The mandate after a payment made at `now`.
    pub open spec fn paid_at(self, now: i64) -> Mandate {
        Mandate {
            next_payout: now.wrapping_add(self.frequency),
            payment_count: (self.payment_count + 1) as u32,
            ..self
        }
    }

    /// Whether the mandate is due at `now`.
    pub fn is_due(&self, now: i64) -> (r: bool)
        ensures
            r == self.due_at(now),
    {
        self.active && now >= self.next_payout
    }
}

/// The subscription counters of one party.
#[derive(Debug)]
pub struct User {
    pub authority: Address,
    pub outgoing_subscriptions_count: u32,
    pub incoming_subscriptions_count: u32,
    pub name: String,
    pub bump: u8,
}

/// The receipt of one executed payment.
#[derive(Clone, Copy, Debug, PartialEq, Eq)]
pub struct PaymentHistory {
    pub mandate: Address,
    pub amount: u64,
    pub timestamp: i64,
    pub payment_number: u32,
    pub bump: u8,
}

} // verus!
