//! What holds across the operations of a mandate's life.
use vstd::prelude::*;
use crate::error::Error;
use crate::instructions::cancel_mandate::{decrement, CancelMandate};
use crate::instructions::create_mandate::CreateMandate;
use crate::instructions::execute_payment::ExecutePayment;
use crate::instructions::{is_holding_account, is_mandate_address, TokenCall};

verus! {

/// A created mandate is the one record of its payer and payee: it sits at
/// the address derived from the pair, is first due one period after its
/// creation, has made no payment, and any further creation for the pair is
/// refused while it exists.
pub proof fn created_mandate_is_unique(
    before: CreateMandate,
    amount: u64,
    frequency: i64,
    name: String,
    description: String,
    now: i64,
    other_name: Seq<char>,
    other_description: Seq<char>,
)
    requires
        amount > 0,
        frequency > 0,
        now + frequency <= i64::MAX,
        before.refusal(name@, description@) is None,
    ensures
        ({
            let after = before.created(amount, frequency, name, description, now);
            let m = after.mandate->Some_0;
            &&& after.mandate is Some
            &&& m.payer == before.payer
            &&& m.payee == before.payee
            &&& is_mandate_address(after.mandate_address@, m.payer@, m.payee@, m.bump, after.program_id@)
            &&& m.next_payout == now + frequency
            &&& m.payment_count == 0
            &&& m.wf()
            &&& after.refusal(other_name, other_description) == Some(Error::AlreadyInitialized)
        }),
{
}

/// A payment tried before the mandate is due is refused as too early, and
/// so changes no record and moves no money.
pub proof fn early_payment_is_refused(ctx: ExecutePayment, now: i64)
    requires
        now < ctx.mandate.next_payout,
    ensures
        ctx.refusal(now) == Some(Error::PaymentTooEarly),
{
}

/// A payment made when due moves exactly the periodic amount from the
/// payer's holding account of the mandate's token to the payee's, and from
/// and to no other account, counts one more payment, sets
/// the next payout one period after the payment, and writes the receipt
/// numbered by the count before the payment.
pub proof fn due_payment_advances_once(ctx: ExecutePayment, now: i64)
    requires
        ctx.mandate.wf(),
        ctx.refusal(now) is None,
        ctx.mandate.payment_count < u32::MAX,
        now + ctx.mandate.frequency <= i64::MAX,
    ensures
        ({
            let after = ctx.executed(now);
            &&& ctx.transfer() == (TokenCall::TransferChecked {
                source: ctx.payer_ata,
                mint: ctx.mandate.token,
                destination: ctx.payee_ata,
                authority: ctx.mandate_address,
                amount: ctx.mandate.amount,
                decimals: ctx.decimals,
            })
            &&& is_holding_account(
                ctx.payer_ata@,
                ctx.mandate.payer@,
                ctx.mandate.token@,
                ctx.token_program@,
                ctx.associated_token_program@,
            )
            &&& is_holding_account(
                ctx.payee_ata@,
                ctx.mandate.payee@,
                ctx.mandate.token@,
                ctx.token_program@,
                ctx.associated_token_program@,
            )
            &&& after.mandate.wf()
            &&& after.mandate.payment_count == ctx.mandate.payment_count + 1
            &&& after.mandate.next_payout == now + ctx.mandate.frequency
            &&& now == ctx.mandate.next_payout ==> after.mandate.next_payout == ctx.mandate.next_payout + ctx.mandate.frequency
            &&& after.payment_history is Some
            &&& after.payment_history->Some_0.payment_number == ctx.mandate.payment_count
            &&& after.payment_history->Some_0.amount == ctx.mandate.amount
            &&& after.payment_history->Some_0.timestamp == now
            &&& after.mandate.amount == ctx.mandate.amount
            &&& after.mandate.payer == ctx.mandate.payer
            &&& after.mandate.payee == ctx.mandate.payee
        }),
{
}

/// Of two attempts to pay the same due mandate, the one that comes second
/// sees the mandate already advanced and is refused as too early, at any
/// time before the next period: the money moves once.
pub proof fn second_payment_is_refused(first: ExecutePayment, now: i64, second: ExecutePayment, later: i64)
    requires
        first.mandate.wf(),
        first.refusal(now) is None,
        first.mandate.payment_count < u32::MAX,
        now + first.mandate.frequency <= i64::MAX,
        second.mandate == first.executed(now).mandate,
        later < now + first.mandate.frequency,
    ensures
        second.refusal(later) == Some(Error::PaymentTooEarly),
{
}

/// Cancelling a mandate right after creating it returns both parties'
/// subscription counts to what they were before the creation.
pub proof fn cancel_undoes_creation_counts(
    create: CreateMandate,
    amount: u64,
    frequency: i64,
    name: String,
    description: String,
    now: i64,
    cancel: CancelMandate,
)
    requires
        create.refusal(name@, description@) is None,
        create.payer_user.outgoing_subscriptions_count < u32::MAX,
        create.payee_user.incoming_subscriptions_count < u32::MAX,
        cancel.payer_user == create.created(amount, frequency, name, description, now).payer_user,
        cancel.payee_user == create.created(amount, frequency, name, description, now).payee_user,
        cancel.refusal() is None,
    ensures
        cancel.cancelled().payer_user == create.payer_user,
        cancel.cancelled().payee_user == create.payee_user,
        cancel.cancelled().mandate is None,
{
    assert(decrement((create.payer_user.outgoing_subscriptions_count + 1) as u32) == create.payer_user.outgoing_subscriptions_count);
    assert(decrement((create.payee_user.incoming_subscriptions_count + 1) as u32) == create.payee_user.incoming_subscriptions_count);
}

} // verus!
