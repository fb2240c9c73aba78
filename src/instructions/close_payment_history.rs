use vstd::prelude::*;
use crate::address::{Address, find_payment_history_address, found_view, payment_history_seeds, program_address_of};
use crate::error::Error;
use crate::instructions::{check_mandate_address, is_mandate_address};
use crate::state::{Mandate, PaymentHistory};

verus! {

/// The accounts that closing a payment receipt reads and writes.
pub struct ClosePaymentHistory {
    pub program_id: Address,
    /// The signer, who must be the payer or the payee of the mandate.
    pub authority: Address,
    pub mandate_address: Address,
    pub mandate: Mandate,
    pub payment_history_address: Address,
    /// The record at `payment_history_address`; `None` where it does not exist.
    pub payment_history: Option<PaymentHistory>,
}

impl ClosePaymentHistory {
    /// Why closing is refused, checked in this order; `None` where it succeeds.
    pub open spec fn refusal(&self) -> Option<Error> {
        if self.mandate.payer@ != self.authority@ && self.mandate.payee@ != self.authority@ {
            Some(Error::Unauthorized)
        } else if !is_mandate_address(
            self.mandate_address@,
            self.mandate.payer@,
            self.mandate.payee@,
            self.mandate.bump,
            self.program_id@,
        ) {
            Some(Error::InvalidAuthority)
        } else if self.payment_history is None {
            Some(Error::InvalidPaymentHistory)
        } else if self.payment_history->Some_0.mandate@ != self.mandate_address@ {
            Some(Error::InvalidPaymentHistory)
        } else if program_address_of(
            payment_history_seeds(self.mandate_address@, self.payment_history->Some_0.payment_number),
            self.program_id@,
        ) != Some((self.payment_history_address@, self.payment_history->Some_0.bump)) {
            Some(Error::InvalidPaymentHistory)
        } else {
            None
        }
    }

    /// Removes one payment receipt of the mandate.
    pub fn process(&mut self) -> (r: Result<(), Error>)
        ensures
            r is Err <==> old(self).refusal() is Some,
            r is Err ==> r == Err::<(), Error>(old(self).refusal()->Some_0),
            r is Err ==> *final(self) == *old(self),
            r is Ok ==> *final(self) == (ClosePaymentHistory { payment_history: None, ..*old(self) }),
    {
        if !(self.mandate.payer == self.authority) && !(self.mandate.payee == self.authority) {
            return Err(Error::Unauthorized);
        }
        if !check_mandate_address(
            &self.mandate_address,
            &self.mandate.payer,
            &self.mandate.payee,
            self.mandate.bump,
            &self.program_id,
        ) {
            return Err(Error::InvalidAuthority);
        }
        let (owner, number, bump) = match &self.payment_history {
            Some(h) => (h.mandate, h.payment_number, h.bump),
            None => {
                return Err(Error::InvalidPaymentHistory);
            },
        };
        if !(owner == self.mandate_address) {
            return Err(Error::InvalidPaymentHistory);
        }
        match find_payment_history_address(&self.mandate_address, number, &self.program_id) {
            Some((a, b)) => {
                assert(found_view(Some((a, b))) == Some((a@, b)));
                if !(a == self.payment_history_address) || b != bump {
                    return Err(Error::InvalidPaymentHistory);
                }
            },
            None => {
                return Err(Error::InvalidPaymentHistory);
            },
        }
        self.payment_history = None;
        Ok(())
    }
}

} // verus!
