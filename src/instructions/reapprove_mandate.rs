use vstd::prelude::*;
use crate::address::Address;
use crate::error::Error;
use crate::instructions::{check_holding_account, check_mandate_address, is_holding_account, is_mandate_address, TokenCall};
use crate::state::Mandate;

verus! {

/// How large a renewed delegation is.
#[derive(Clone, Copy, Debug, PartialEq, Eq, Structural)]
pub enum ApprovalPolicy {
    /// One periodic amount of the mandate, whatever the payer asks for.
    PeriodicAmount,
    /// The amount that the payer asks for.
    CallerChosen,
}

/// Why renewing the delegation of `mandate` is refused, checked in this
/// order; `None` where it succeeds.
pub open spec fn approval_refusal(
    program_id: Address,
    payer: Address,
    token: Address,
    payer_ata: Address,
    token_program: Address,
    associated_token_program: Address,
    mandate_address: Address,
    mandate: Mandate,
) -> Option<Error> {
    if mandate.payer@ != payer@ {
        Some(Error::Unauthorized)
    } else if token@ != mandate.token@ || !is_mandate_address(mandate_address@, payer@, mandate.payee@, mandate.bump, program_id@) {
        Some(Error::InvalidAuthority)
    } else if !is_holding_account(payer_ata@, payer@, token@, token_program@, associated_token_program@) {
        Some(Error::InvalidAuthority)
    } else {
        None
    }
}

/// The limit of a delegation renewed under `policy` when the payer asks for `requested`.
pub open spec fn renewed_limit(mandate: Mandate, requested: u64, policy: ApprovalPolicy) -> u64 {
    match policy {
        ApprovalPolicy::PeriodicAmount => mandate.amount,
        ApprovalPolicy::CallerChosen => requested,
    }
}

fn renew_approval(
    program_id: &Address,
    payer: &Address,
    token: &Address,
    payer_ata: &Address,
    token_program: &Address,
    associated_token_program: &Address,
    mandate_address: &Address,
    mandate: &Mandate,
    limit: u64,
) -> (r: Result<TokenCall, Error>)
    ensures
        r is Err <==> approval_refusal(
            *program_id,
            *payer,
            *token,
            *payer_ata,
            *token_program,
            *associated_token_program,
            *mandate_address,
            *mandate,
        ) is Some,
        r is Err ==> r == Err::<TokenCall, Error>(approval_refusal(
            *program_id,
            *payer,
            *token,
            *payer_ata,
            *token_program,
            *associated_token_program,
            *mandate_address,
            *mandate,
        )->Some_0),
        r is Ok ==> r == Ok::<TokenCall, Error>(TokenCall::Approve {
            source: *payer_ata,
            delegate: *mandate_address,
            owner: *payer,
            amount: limit,
        }),
{
    if !(mandate.payer == *payer) {
        return Err(Error::Unauthorized);
    }
    if !(*token == mandate.token) || !check_mandate_address(mandate_address, payer, &mandate.payee, mandate.bump, program_id) {
        return Err(Error::InvalidAuthority);
    }
    if !check_holding_account(payer_ata, payer, token, token_program, associated_token_program) {
        return Err(Error::InvalidAuthority);
    }
    Ok(TokenCall::Approve { source: *payer_ata, delegate: *mandate_address, owner: *payer, amount: limit })
}

/// The accounts that renewing a mandate's delegation reads. The mandate
/// record itself does not change.
pub struct ReapproveMandate {
    pub program_id: Address,
    /// The signer, who must be the mandate's payer.
    pub payer: Address,
    /// The token of the holding account; it must be the mandate's.
    pub token: Address,
    pub payer_ata: Address,
    pub token_program: Address,
    pub associated_token_program: Address,
    pub mandate_address: Address,
    pub mandate: Mandate,
}

impl ReapproveMandate {
    pub open spec fn refusal(&self) -> Option<Error> {
        approval_refusal(
            self.program_id,
            self.payer,
            self.token,
            self.payer_ata,
            self.token_program,
            self.associated_token_program,
            self.mandate_address,
            self.mandate,
        )
    }

    /// Replaces the mandate's delegation with one whose limit `policy` sets
    /// from `new_delegation_amount`.
    pub fn process(&self, new_delegation_amount: u64, policy: ApprovalPolicy) -> (r: Result<TokenCall, Error>)
        ensures
            r is Err <==> self.refusal() is Some,
            r is Err ==> r == Err::<TokenCall, Error>(self.refusal()->Some_0),
            r is Ok ==> r == Ok::<TokenCall, Error>(TokenCall::Approve {
                source: self.payer_ata,
                delegate: self.mandate_address,
                owner: self.payer,
                amount: renewed_limit(self.mandate, new_delegation_amount, policy),
            }),
    {
        let limit = match policy {
            ApprovalPolicy::PeriodicAmount => self.mandate.amount,
            ApprovalPolicy::CallerChosen => new_delegation_amount,
        };
        renew_approval(
            &self.program_id,
            &self.payer,
            &self.token,
            &self.payer_ata,
            &self.token_program,
            &self.associated_token_program,
            &self.mandate_address,
            &self.mandate,
            limit,
        )
    }
}

/// The accounts that topping up a mandate's delegation reads. The mandate
/// record itself does not change.
pub struct TopupAllowance {
    pub program_id: Address,
    /// The signer, who must be the mandate's payer.
    pub payer: Address,
    /// The token of the holding account; it must be the mandate's.
    pub token: Address,
    pub payer_ata: Address,
    pub token_program: Address,
    pub associated_token_program: Address,
    pub mandate_address: Address,
    pub mandate: Mandate,
}

impl TopupAllowance {
    pub open spec fn refusal(&self) -> Option<Error> {
        approval_refusal(
            self.program_id,
            self.payer,
            self.token,
            self.payer_ata,
            self.token_program,
            self.associated_token_program,
            self.mandate_address,
            self.mandate,
        )
    }

    /// Resets the mandate's delegation to one periodic amount.
    pub fn topup_allowance(&self) -> (r: Result<TokenCall, Error>)
        ensures
            r is Err <==> self.refusal() is Some,
            r is Err ==> r == Err::<TokenCall, Error>(self.refusal()->Some_0),
            r is Ok ==> r == Ok::<TokenCall, Error>(TokenCall::Approve {
                source: self.payer_ata,
                delegate: self.mandate_address,
                owner: self.payer,
                amount: self.mandate.amount,
            }),
    {
        renew_approval(
            &self.program_id,
            &self.payer,
            &self.token,
            &self.payer_ata,
            &self.token_program,
            &self.associated_token_program,
            &self.mandate_address,
            &self.mandate,
            self.mandate.amount,
        )
    }
}

} // verus!
