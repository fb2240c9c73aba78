//! The decisions of the execution scheduler: which of the scanned mandates
//! are due in a tick, what each payment is submitted with, and the tally of
//! a tick. Scanning the ledger, submitting and sleeping are left to the
//! caller, who hands the results back here.
use vstd::prelude::*;
use crate::address::{
    find_associated_token_address, find_payment_history_address, found_view, holding_account_seeds,
    payment_history_seeds, program_address_of, Address,
};
use crate::state::Mandate;

verus! {

/// How long the scheduler waits between two ticks, in seconds.
pub const DEFAULT_TICK_INTERVAL_SECS: u64 = 60;

/// One account that a scan found: its address, and its mandate record where
/// the data decoded as one.
pub struct ScannedAccount {
    pub address: Address,
    pub mandate: Option<Mandate>,
}

/// A payment that a tick submits: the position of the mandate in the scan,
/// and the address of the receipt the payment writes, where one derives.
#[derive(Clone, Copy, Debug, PartialEq, Eq)]
pub struct DuePayment {
    pub index: usize,
    pub payment_history_address: Option<Address>,
}

/// Whether the scanned account holds a mandate that is due at `now`.
pub open spec fn due_entry(a: ScannedAccount, now: i64) -> bool {
    a.mandate is Some && a.mandate->Some_0.due_at(now)
}

/// The address of the receipt of the next payment of the scanned mandate.
pub open spec fn receipt_address(a: ScannedAccount, program_id: Seq<u8>) -> Option<Seq<u8>> {
    match program_address_of(payment_history_seeds(a.address@, a.mandate->Some_0.payment_count), program_id) {
        Some((addr, _)) => Some(addr),
        None => None,
    }
}

pub open spec fn opt_address_view(a: Option<Address>) -> Option<Seq<u8>> {
    match a {
        Some(x) => Some(x@),
        None => None,
    }
}

/// The payments due among the first `n` scanned accounts, in scan order:
/// each account's position and the address of its next receipt.
pub open spec fn due_plan(s: Seq<ScannedAccount>, now: i64, program_id: Seq<u8>, n: int) -> Seq<(int, Option<Seq<u8>>)>
    decreases n,
{
    if n <= 0 {
        seq![]
    } else {
        let p = due_plan(s, now, program_id, n - 1);
        if due_entry(s[n - 1], now) {
            p.push((n - 1, receipt_address(s[n - 1], program_id)))
        } else {
            p
        }
    }
}

pub open spec fn plan_view(p: Seq<DuePayment>) -> Seq<(int, Option<Seq<u8>>)> {
    p.map_values(|d: DuePayment| (d.index as int, opt_address_view(d.payment_history_address)))
}

/// The payments that a tick at `now` submits for the scanned accounts:
/// one for each account that decoded as a mandate due at `now`, in scan order.
pub fn plan_tick(accounts: &Vec<ScannedAccount>, now: i64, program_id: &Address) -> (r: Vec<DuePayment>)
    ensures
        plan_view(r@) == due_plan(accounts@, now, program_id@, accounts@.len() as int),
{
    let mut r: Vec<DuePayment> = Vec::new();
    let mut i: usize = 0;
    while i < accounts.len()
        invariant
            0 <= i <= accounts@.len(),
            plan_view(r@) == due_plan(accounts@, now, program_id@, i as int),
        decreases accounts@.len() - i,
    {
        let a = &accounts[i];
        let is_due = match &a.mandate {
            Some(m) => m.is_due(now),
            None => false,
        };
        if is_due {
            let count = match &a.mandate {
                Some(m) => m.payment_count,
                None => 0,
            };
            let found = find_payment_history_address(&a.address, count, program_id);
            let addr = match found {
                Some((x, _)) => Some(x),
                None => None,
            };
            assert(opt_address_view(addr) == receipt_address(accounts@[i as int], program_id@));
            let d = DuePayment { index: i, payment_history_address: addr };
            let ghost before = r@;
            r.push(d);
            assert(plan_view(r@) =~= plan_view(before).push((i as int, opt_address_view(addr))));
        }
        i += 1;
    }
    r
}

/// The tally of one tick.
#[derive(Clone, Copy, Debug, PartialEq, Eq, Structural)]
pub struct TickReport {
    /// Accounts that the scan found.
    pub scanned: usize,
    /// Accounts whose data did not decode as a mandate.
    pub undecodable: usize,
    /// Mandates due in this tick.
    pub due: usize,
    /// Payments that went through.
    pub succeeded: usize,
    /// Payments that were refused or could not be submitted.
    pub failed: usize,
}

/// The number of the first `n` scanned accounts that did not decode.
pub open spec fn undecodable_count(s: Seq<ScannedAccount>, n: int) -> int
    decreases n,
{
    if n <= 0 {
        0
    } else {
        undecodable_count(s, n - 1) + if s[n - 1].mandate is None { 1int } else { 0int }
    }
}

proof fn lemma_undecodable_count_bound(s: Seq<ScannedAccount>, n: int)
    requires
        0 <= n,
    ensures
        0 <= undecodable_count(s, n) <= n,
    decreases n,
{
    if n > 0 {
        lemma_undecodable_count_bound(s, n - 1);
    }
}

impl TickReport {
    /// The tally before any payment of the tick is submitted.
    pub fn start(accounts: &Vec<ScannedAccount>, plan: &Vec<DuePayment>) -> (r: TickReport)
        ensures
            r.scanned == accounts@.len(),
            r.undecodable == undecodable_count(accounts@, accounts@.len() as int),
            r.due == plan@.len(),
            r.succeeded == 0,
            r.failed == 0,
    {
        let mut undecodable: usize = 0;
        let mut i: usize = 0;
        while i < accounts.len()
            invariant
                0 <= i <= accounts@.len(),
                undecodable == undecodable_count(accounts@, i as int),
            decreases accounts@.len() - i,
        {
            proof {
                lemma_undecodable_count_bound(accounts@, i as int);
            }
            if accounts[i].mandate.is_none() {
                undecodable = undecodable + 1;
            }
            i += 1;
        }
        TickReport { scanned: accounts.len(), undecodable, due: plan.len(), succeeded: 0, failed: 0 }
    }

    /// Counts the outcome of one submitted payment; one payment's failure
    /// does not touch the count of the others.
    pub fn record(&mut self, succeeded: bool)
        requires
            old(self).succeeded + old(self).failed < old(self).due,
        ensures
            succeeded ==> *final(self) == (TickReport { succeeded: (old(self).succeeded + 1) as usize, ..*old(self) }),
            !succeeded ==> *final(self) == (TickReport { failed: (old(self).failed + 1) as usize, ..*old(self) }),
    {
        if succeeded {
            self.succeeded = self.succeeded + 1;
        } else {
            self.failed = self.failed + 1;
        }
    }

    /// Whether every due payment of the tick has an outcome.
    pub fn is_complete(&self) -> (r: bool)
        ensures
            r == (self.succeeded + self.failed >= self.due),
    {
        self.succeeded as u128 + self.failed as u128 >= self.due as u128
    }
}

/// The programs that a payment goes through.
#[derive(Clone, Copy, Debug)]
pub struct ProgramIds {
    pub mandate_program: Address,
    pub token_program: Address,
    pub associated_token_program: Address,
    pub system_program: Address,
}

/// One account that a submitted instruction names.
#[derive(Clone, Copy, Debug, PartialEq, Eq)]
pub struct AccountRef {
    pub address: Address,
    pub writable: bool,
    pub signer: bool,
}

pub open spec fn refs_view(s: Seq<AccountRef>) -> Seq<(Seq<u8>, bool, bool)> {
    s.map_values(|a: AccountRef| (a.address@, a.writable, a.signer))
}

/// The accounts of the instruction that pays `mandate`, in the order the
/// payment operation takes them: the signer (who pays for the receipt),
/// payer, payer's holding account, payee, mandate, receipt, token, payee's
/// holding account, and the three programs; `None` where an address does
/// not derive.
pub open spec fn payment_accounts(caller: Seq<u8>, mandate_address: Seq<u8>, mandate: Mandate, ids: ProgramIds) -> Option<Seq<(Seq<u8>, bool, bool)>> {
    let receipt = program_address_of(payment_history_seeds(mandate_address, mandate.payment_count), ids.mandate_program@);
    let payer_ata = program_address_of(
        holding_account_seeds(mandate.payer@, ids.token_program@, mandate.token@),
        ids.associated_token_program@,
    );
    let payee_ata = program_address_of(
        holding_account_seeds(mandate.payee@, ids.token_program@, mandate.token@),
        ids.associated_token_program@,
    );
    if receipt is Some && payer_ata is Some && payee_ata is Some {
        Some(seq![
            (caller, true, true),
            (mandate.payer@, true, false),
            (payer_ata->Some_0.0, true, false),
            (mandate.payee@, true, false),
            (mandate_address, true, false),
            (receipt->Some_0.0, true, false),
            (mandate.token@, false, false),
            (payee_ata->Some_0.0, true, false),
            (ids.associated_token_program@, false, false),
            (ids.token_program@, false, false),
            (ids.system_program@, false, false),
        ])
    } else {
        None
    }
}

/// The accounts of the instruction that `caller` submits to pay the mandate
/// at `mandate_address`.
pub fn execute_accounts(caller: &Address, mandate_address: &Address, mandate: &Mandate, ids: &ProgramIds) -> (r: Option<Vec<AccountRef>>)
    ensures
        match r {
            Some(v) => payment_accounts(caller@, mandate_address@, *mandate, *ids) == Some(refs_view(v@)),
            None => payment_accounts(caller@, mandate_address@, *mandate, *ids) is None,
        },
{
    let receipt = find_payment_history_address(mandate_address, mandate.payment_count, &ids.mandate_program);
    let payer_ata = find_associated_token_address(&mandate.payer, &mandate.token, &ids.token_program, &ids.associated_token_program);
    let payee_ata = find_associated_token_address(&mandate.payee, &mandate.token, &ids.token_program, &ids.associated_token_program);
    match (receipt, payer_ata, payee_ata) {
        (Some((h, hb)), Some((pa, pb)), Some((qa, qb))) => {
            assert(found_view(Some((h, hb))) == Some((h@, hb)));
            assert(found_view(Some((pa, pb))) == Some((pa@, pb)));
            assert(found_view(Some((qa, qb))) == Some((qa@, qb)));
            let v: Vec<AccountRef> = vec![
                AccountRef { address: *caller, writable: true, signer: true },
                AccountRef { address: mandate.payer, writable: true, signer: false },
                AccountRef { address: pa, writable: true, signer: false },
                AccountRef { address: mandate.payee, writable: true, signer: false },
                AccountRef { address: *mandate_address, writable: true, signer: false },
                AccountRef { address: h, writable: true, signer: false },
                AccountRef { address: mandate.token, writable: false, signer: false },
                AccountRef { address: qa, writable: true, signer: false },
                AccountRef { address: ids.associated_token_program, writable: false, signer: false },
                AccountRef { address: ids.token_program, writable: false, signer: false },
                AccountRef { address: ids.system_program, writable: false, signer: false },
            ];
            assert(refs_view(v@) =~= payment_accounts(caller@, mandate_address@, *mandate, *ids)->Some_0);
            Some(v)
        },
        _ => None,
    }
}

} // verus!
