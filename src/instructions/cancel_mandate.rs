use vstd::prelude::*;
use crate::address::Address;
use crate::error::Error;
use crate::instructions::{check_holding_account, check_mandate_address, is_holding_account, is_mandate_address, TokenCall};
use crate::state::{Mandate, User};

verus! {

/// The accounts that cancelling a mandate reads and writes.
pub struct CancelMandate {
    pub program_id: Address,
    /// The signer, who must be the mandate's payer.
    pub payer: Address,
    pub token: Address,
    /// The payer's holding account of `token`.
    pub payer_ata: Address,
    pub token_program: Address,
    pub associated_token_program: Address,
    pub mandate_address: Address,
    /// The mandate record at `mandate_address`; `None` where it does not exist.
    pub mandate: Option<Mandate>,
    pub payer_user: User,
    pub payee_user: User,
}

/// One less, but never below zero.
pub open spec fn decrement(n: u32) -> u32 {
    if n > 0 {
        (n - 1) as u32
    } else {
        0
    }
}

impl CancelMandate {
    /// Why the cancellation is refused, checked in this order; `None` where
    /// it succeeds.
    pub open spec fn refusal(&self) -> Option<Error> {
        if self.mandate is None {
            Some(Error::MandateInactive)
        } else if self.mandate->Some_0.payer@ != self.payer@ {
            Some(Error::Unauthorized)
        } else if !is_mandate_address(
            self.mandate_address@,
            self.payer@,
            self.mandate->Some_0.payee@,
            self.mandate->Some_0.bump,
            self.program_id@,
        ) || self.token@ != self.mandate->Some_0.token@ {
            Some(Error::InvalidAuthority)
        } else if self.payer_user.authority@ != self.payer@ || self.payee_user.authority@ != self.mandate->Some_0.payee@ {
            Some(Error::InvalidAuthority)
        } else if !is_holding_account(
            self.payer_ata@,
            self.payer@,
            self.token@,
            self.token_program@,
            self.associated_token_program@,
        ) {
            Some(Error::InvalidAuthority)
        } else {
            None
        }
    }

    /// The accounts after a successful cancellation: the mandate record gone,
    /// and no longer counted for either party, a count at zero staying there.
    pub open spec fn cancelled(&self) -> CancelMandate {
        CancelMandate {
            mandate: None,
            payer_user: User {
                outgoing_subscriptions_count: decrement(self.payer_user.outgoing_subscriptions_count),
                ..self.payer_user
            },
            payee_user: User {
                incoming_subscriptions_count: decrement(self.payee_user.incoming_subscriptions_count),
                ..self.payee_user
            },
            ..*self
        }
    }

    /// Withdraws the mandate's delegation on the payer's holding account.
    pub fn revoke_delegate_authority(&self) -> (r: TokenCall)
        ensures
            r == (TokenCall::Revoke { source: self.payer_ata, owner: self.payer }),
    {
        TokenCall::Revoke { source: self.payer_ata, owner: self.payer }
    }

    /// Stops counting the mandate for both parties; a count at zero stays there.
    pub fn update_subscription_counts(&mut self)
        ensures
            final(self).payer_user.outgoing_subscriptions_count == if old(self).payer_user.outgoing_subscriptions_count > 0 {
                old(self).payer_user.outgoing_subscriptions_count - 1
            } else {
                0
            },
            final(self).payee_user.incoming_subscriptions_count == if old(self).payee_user.incoming_subscriptions_count > 0 {
                old(self).payee_user.incoming_subscriptions_count - 1
            } else {
                0
            },
            final(self).payer_user.incoming_subscriptions_count == old(self).payer_user.incoming_subscriptions_count,
            final(self).payee_user.outgoing_subscriptions_count == old(self).payee_user.outgoing_subscriptions_count,
            final(self).payer_user.authority == old(self).payer_user.authority,
            final(self).payee_user.authority == old(self).payee_user.authority,
            final(self).payer_user.name == old(self).payer_user.name,
            final(self).payee_user.name == old(self).payee_user.name,
            final(self).payer_user.bump == old(self).payer_user.bump,
            final(self).payee_user.bump == old(self).payee_user.bump,
            final(self).mandate == old(self).mandate,
            final(self).program_id == old(self).program_id,
            final(self).payer == old(self).payer,
            final(self).token == old(self).token,
            final(self).payer_ata == old(self).payer_ata,
            final(self).token_program == old(self).token_program,
            final(self).associated_token_program == old(self).associated_token_program,
            final(self).mandate_address == old(self).mandate_address,
    {
        self.payer_user.outgoing_subscriptions_count = self.payer_user.outgoing_subscriptions_count.saturating_sub(1);
        self.payee_user.incoming_subscriptions_count = self.payee_user.incoming_subscriptions_count.saturating_sub(1);
    }

    /// Cancels the mandate: withdraws its delegation, stops counting it for
    /// both parties, and removes its record. Its payment receipts stay.
    pub fn process(&mut self) -> (r: Result<TokenCall, Error>)
        ensures
            r is Err <==> old(self).refusal() is Some,
            r is Err ==> r == Err::<TokenCall, Error>(old(self).refusal()->Some_0),
            r is Err ==> *final(self) == *old(self),
            r is Ok ==> r == Ok::<TokenCall, Error>(TokenCall::Revoke { source: old(self).payer_ata, owner: old(self).payer }),
            r is Ok ==> *final(self) == old(self).cancelled(),
    {
        let (payee, bump, token) = match &self.mandate {
            Some(m) => (m.payee, m.bump, m.token),
            None => {
                return Err(Error::MandateInactive);
            },
        };
        let is_payer = match &self.mandate {
            Some(m) => m.payer == self.payer,
            None => false,
        };
        if !is_payer {
            return Err(Error::Unauthorized);
        }
        if !check_mandate_address(&self.mandate_address, &self.payer, &payee, bump, &self.program_id)
            || !(self.token == token) {
            return Err(Error::InvalidAuthority);
        }
        if !(self.payer_user.authority == self.payer) || !(self.payee_user.authority == payee) {
            return Err(Error::InvalidAuthority);
        }
        if !check_holding_account(&self.payer_ata, &self.payer, &self.token, &self.token_program, &self.associated_token_program) {
            return Err(Error::InvalidAuthority);
        }
        let call = self.revoke_delegate_authority();
        self.update_subscription_counts();
        self.mandate = None;
        Ok(call)
    }
}

} // verus!
