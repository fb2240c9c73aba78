//! The entry points of the mandate program, one per operation.
use vstd::prelude::*;
use crate::error::Error;
use crate::instructions::cancel_mandate::CancelMandate;
use crate::instructions::close_payment_history::ClosePaymentHistory;
use crate::instructions::create_mandate::CreateMandate;
use crate::instructions::execute_payment::ExecutePayment;
use crate::instructions::reapprove_mandate::{renewed_limit, ApprovalPolicy, ReapproveMandate};
use crate::instructions::register_user::{GetUserSubscriptions, RegisterUser};
use crate::instructions::TokenCall;
use crate::state::APPROVAL_PERIODS;

verus! {

/// Creates the mandate from the signer to the payee, first due one
/// `frequency` after `now`.
pub fn create_mandate(
    ctx: &mut CreateMandate,
    amount: u64,
    frequency: i64,
    name: String,
    description: String,
    now: i64,
) -> (r: Result<TokenCall, Error>)
    requires
        amount > 0,
        frequency > 0,
        amount * APPROVAL_PERIODS <= u64::MAX,
        old(ctx).payer_user.outgoing_subscriptions_count < u32::MAX,
        old(ctx).payee_user.incoming_subscriptions_count < u32::MAX,
    ensures
        r is Err <==> old(ctx).refusal(name@, description@) is Some,
        r is Err ==> r == Err::<TokenCall, Error>(old(ctx).refusal(name@, description@)->Some_0),
        r is Err ==> *final(ctx) == *old(ctx),
        r is Ok ==> *final(ctx) == old(ctx).created(amount, frequency, name, description, now),
        r is Ok ==> r == Ok::<TokenCall, Error>(TokenCall::Approve {
            source: old(ctx).payer_ata,
            delegate: old(ctx).mandate_address,
            owner: old(ctx).payer,
            amount: (amount * APPROVAL_PERIODS) as u64,
        }),
{
    ctx.process(amount, frequency, name, description, now)
}

/// Cancels the signer's mandate.
pub fn cancel_mandate(ctx: &mut CancelMandate) -> (r: Result<TokenCall, Error>)
    ensures
        r is Err <==> old(ctx).refusal() is Some,
        r is Err ==> r == Err::<TokenCall, Error>(old(ctx).refusal()->Some_0),
        r is Err ==> *final(ctx) == *old(ctx),
        r is Ok ==> r == Ok::<TokenCall, Error>(TokenCall::Revoke { source: old(ctx).payer_ata, owner: old(ctx).payer }),
        r is Ok ==> *final(ctx) == old(ctx).cancelled(),
{
    ctx.process()
}

/// Pays the mandate if it is due at `now`; anyone may ask.
pub fn execute_payment(ctx: &mut ExecutePayment, now: i64) -> (r: Result<TokenCall, Error>)
    requires
        old(ctx).mandate.payment_count < u32::MAX,
    ensures
        r is Err <==> old(ctx).refusal(now) is Some,
        r is Err ==> r == Err::<TokenCall, Error>(old(ctx).refusal(now)->Some_0),
        r is Err ==> *final(ctx) == *old(ctx),
        r is Ok ==> r == Ok::<TokenCall, Error>(old(ctx).transfer()),
        r is Ok ==> *final(ctx) == old(ctx).executed(now),
{
    ctx.execute_payment(now)
}

/// Registers the signer's user record.
pub fn register_user(ctx: &mut RegisterUser, name: String) -> (r: Result<(), Error>)
    ensures
        r is Err <==> old(ctx).refusal(name@) is Some,
        r is Err ==> r == Err::<(), Error>(old(ctx).refusal(name@)->Some_0),
        r is Err ==> *final(ctx) == *old(ctx),
        r is Ok ==> *final(ctx) == old(ctx).registered(name),
{
    ctx.process(name)
}

/// The signer's outgoing and incoming subscription counts.
pub fn get_user_subscriptions(ctx: &GetUserSubscriptions) -> (r: Result<(u32, u32), Error>)
    ensures
        r is Err <==> ctx.user.authority@ != ctx.authority@,
        r is Err ==> r == Err::<(u32, u32), Error>(Error::Unauthorized),
        r is Ok ==> r == Ok::<(u32, u32), Error>(
            (ctx.user.outgoing_subscriptions_count, ctx.user.incoming_subscriptions_count),
        ),
{
    ctx.process()
}

/// Renews the delegation of the signer's mandate.
pub fn reapprove_mandate(ctx: &ReapproveMandate, amount: u64, policy: ApprovalPolicy) -> (r: Result<TokenCall, Error>)
    ensures
        r is Err <==> ctx.refusal() is Some,
        r is Err ==> r == Err::<TokenCall, Error>(ctx.refusal()->Some_0),
        r is Ok ==> r == Ok::<TokenCall, Error>(TokenCall::Approve {
            source: ctx.payer_ata,
            delegate: ctx.mandate_address,
            owner: ctx.payer,
            amount: renewed_limit(ctx.mandate, amount, policy),
        }),
{
    ctx.process(amount, policy)
}

/// Closes one payment receipt; the payer or the payee may ask.
pub fn close_payment_history(ctx: &mut ClosePaymentHistory) -> (r: Result<(), Error>)
    ensures
        r is Err <==> old(ctx).refusal() is Some,
        r is Err ==> r == Err::<(), Error>(old(ctx).refusal()->Some_0),
        r is Err ==> *final(ctx) == *old(ctx),
        r is Ok ==> *final(ctx) == (ClosePaymentHistory { payment_history: None, ..*old(ctx) }),
{
    ctx.process()
}

} // verus!
