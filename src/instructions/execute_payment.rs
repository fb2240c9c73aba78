use vstd::prelude::*;
use crate::address::{Address, find_payment_history_address, found_view, payment_history_seeds, program_address_of};
use crate::error::Error;
use crate::instructions::{check_holding_account, check_mandate_address, is_holding_account, is_mandate_address, TokenCall};
use crate::state::{Mandate, PaymentHistory};

verus! {

/// The accounts that executing a payment reads and writes. Anyone may sign:
/// the money moves on the mandate's own delegated authority.
pub struct ExecutePayment {
    pub program_id: Address,
    pub signer: Address,
    /// The payer's holding account of the mandate's token.
    pub payer_ata: Address,
    /// The payee's holding account of the mandate's token.
    pub payee_ata: Address,
    pub token: Address,
    /// The number of decimals of `token`.
    pub decimals: u8,
    pub token_program: Address,
    pub associated_token_program: Address,
    pub mandate_address: Address,
    pub mandate: Mandate,
    pub payment_history_address: Address,
    /// The record at `payment_history_address`; `None` while it does not exist.
    pub payment_history: Option<PaymentHistory>,
}

impl ExecutePayment {
    /// The address of the receipt of the next payment of the mandate.
    pub open spec fn history_derived(&self) -> Option<(Seq<u8>, u8)> {
        program_address_of(payment_history_seeds(self.mandate_address@, self.mandate.payment_count), self.program_id@)
    }

    /// Why the payment is refused at `now`, checked in this order; `None`
    /// where it is made.
    pub open spec fn refusal(&self, now: i64) -> Option<Error> {
        if now < self.mandate.next_payout {
            Some(Error::PaymentTooEarly)
        } else if !self.mandate.active {
            Some(Error::MandateInactive)
        } else if !is_mandate_address(
            self.mandate_address@,
            self.mandate.payer@,
            self.mandate.payee@,
            self.mandate.bump,
            self.program_id@,
        ) || self.token@ != self.mandate.token@ {
            Some(Error::InvalidAuthority)
        } else if !is_holding_account(
            self.payer_ata@,
            self.mandate.payer@,
            self.mandate.token@,
            self.token_program@,
            self.associated_token_program@,
        ) || !is_holding_account(
            self.payee_ata@,
            self.mandate.payee@,
            self.mandate.token@,
            self.token_program@,
            self.associated_token_program@,
        ) {
            Some(Error::InvalidAuthority)
        } else if self.payment_history is Some || !(self.history_derived() is Some
            && self.history_derived()->Some_0.0 == self.payment_history_address@) {
            Some(Error::InvalidPaymentHistory)
        } else {
            None
        }
    }

    /// The receipt that a payment made at `now` writes.
    pub open spec fn receipt(&self, now: i64) -> PaymentHistory {
        PaymentHistory {
            mandate: self.mandate_address,
            amount: self.mandate.amount,
            timestamp: now,
            payment_number: self.mandate.payment_count,
            bump: self.history_derived()->Some_0.1,
        }
    }

    /// The accounts after a payment made at `now`.
    pub open spec fn executed(&self, now: i64) -> ExecutePayment {
        ExecutePayment { mandate: self.mandate.paid_at(now), payment_history: Some(self.receipt(now)), ..*self }
    }

    /// The transfer of one periodic amount from payer to payee.
    pub open spec fn transfer(&self) -> TokenCall {
        TokenCall::TransferChecked {
            source: self.payer_ata,
            mint: self.mandate.token,
            destination: self.payee_ata,
            authority: self.mandate_address,
            amount: self.mandate.amount,
            decimals: self.decimals,
        }
    }

    /// Pays one periodic amount if the mandate is due at `now`: writes the
    /// receipt numbered by the mandate's payment count, then moves the next
    /// payout to one period after `now` and counts the payment.
    pub fn execute_payment(&mut self, now: i64) -> (r: Result<TokenCall, Error>)
        requires
            old(self).mandate.payment_count < u32::MAX,
        ensures
            r is Err <==> old(self).refusal(now) is Some,
            r is Err ==> r == Err::<TokenCall, Error>(old(self).refusal(now)->Some_0),
            r is Err ==> *final(self) == *old(self),
            r is Ok ==> r == Ok::<TokenCall, Error>(old(self).transfer()),
            r is Ok ==> *final(self) == old(self).executed(now),
    {
        if now < self.mandate.next_payout {
            return Err(Error::PaymentTooEarly);
        }
        if !self.mandate.active {
            return Err(Error::MandateInactive);
        }
        if !check_mandate_address(
            &self.mandate_address,
            &self.mandate.payer,
            &self.mandate.payee,
            self.mandate.bump,
            &self.program_id,
        ) || !(self.token == self.mandate.token) {
            return Err(Error::InvalidAuthority);
        }
        if !check_holding_account(
            &self.payer_ata,
            &self.mandate.payer,
            &self.mandate.token,
            &self.token_program,
            &self.associated_token_program,
        ) || !check_holding_account(
            &self.payee_ata,
            &self.mandate.payee,
            &self.mandate.token,
            &self.token_program,
            &self.associated_token_program,
        ) {
            return Err(Error::InvalidAuthority);
        }
        if self.payment_history.is_some() {
            return Err(Error::InvalidPaymentHistory);
        }
        let bump = match find_payment_history_address(&self.mandate_address, self.mandate.payment_count, &self.program_id) {
            Some((a, b)) => {
                assert(found_view(Some((a, b))) == Some((a@, b)));
                if a == self.payment_history_address {
                    b
                } else {
                    return Err(Error::InvalidPaymentHistory);
                }
            },
            None => {
                return Err(Error::InvalidPaymentHistory);
            },
        };
        let call = TokenCall::TransferChecked {
            source: self.payer_ata,
            mint: self.mandate.token,
            destination: self.payee_ata,
            authority: self.mandate_address,
            amount: self.mandate.amount,
            decimals: self.decimals,
        };
        self.payment_history = Some(PaymentHistory {
            mandate: self.mandate_address,
            amount: self.mandate.amount,
            timestamp: now,
            payment_number: self.mandate.payment_count,
            bump,
        });
        self.mandate.next_payout = now.wrapping_add(self.mandate.frequency);
        self.mandate.payment_count = self.mandate.payment_count + 1;
        Ok(call)
    }
}

} // verus!
