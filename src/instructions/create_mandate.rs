use vstd::prelude::*;
use crate::address::{Address, find_mandate_address, found_view, mandate_seeds, program_address_of};
use crate::error::Error;
use crate::instructions::{check_holding_account, is_holding_account, TokenCall};
use crate::state::{byte_len, text_len, Mandate, User, APPROVAL_PERIODS, MAX_DESCRIPTION_LEN, MAX_NAME_LEN};

verus! {

/// The accounts that creating a mandate reads and writes.
pub struct CreateMandate {
    pub program_id: Address,
    /// The signer, who pays.
    pub payer: Address,
    pub payee: Address,
    /// The token that the mandate pays in.
    pub token: Address,
    /// The payer's holding account of `token`.
    pub payer_ata: Address,
    pub token_program: Address,
    pub associated_token_program: Address,
    pub mandate_address: Address,
    /// The mandate record at `mandate_address`; `None` while it does not exist.
    pub mandate: Option<Mandate>,
    pub payer_user: User,
    pub payee_user: User,
}

impl CreateMandate {
    /// The address that the mandate from `payer` to `payee` is derived at.
    pub open spec fn derived(&self) -> Option<(Seq<u8>, u8)> {
        program_address_of(mandate_seeds(self.payer@, self.payee@), self.program_id@)
    }

    /// The mandate that a successful creation writes.
    pub open spec fn opened(
        &self,
        amount: u64,
        frequency: i64,
        name: String,
        description: String,
        now: i64,
        bump: u8,
    ) -> Mandate {
        Mandate {
            payer: self.payer,
            payee: self.payee,
            amount,
            token: self.token,
            frequency,
            active: true,
            next_payout: now.wrapping_add(frequency),
            bump,
            name,
            description,
            payment_count: 0,
        }
    }

    /// The accounts after a successful creation: the mandate written at its
    /// derived address, and counted once for each party.
    pub open spec fn created(&self, amount: u64, frequency: i64, name: String, description: String, now: i64) -> CreateMandate {
        CreateMandate {
            mandate: Some(self.opened(amount, frequency, name, description, now, self.derived()->Some_0.1)),
            payer_user: User {
                outgoing_subscriptions_count: (self.payer_user.outgoing_subscriptions_count + 1) as u32,
                ..self.payer_user
            },
            payee_user: User {
                incoming_subscriptions_count: (self.payee_user.incoming_subscriptions_count + 1) as u32,
                ..self.payee_user
            },
            ..*self
        }
    }

    /// Why the creation is refused, checked in this order; `None` where it succeeds.
    pub open spec fn refusal(&self, name: Seq<char>, description: Seq<char>) -> Option<Error> {
        if self.mandate is Some {
            Some(Error::AlreadyInitialized)
        } else if !(self.derived() is Some && self.derived()->Some_0.0 == self.mandate_address@) {
            Some(Error::InvalidAuthority)
        } else if self.payer_user.authority@ != self.payer@ || self.payee_user.authority@ != self.payee@ {
            Some(Error::InvalidAuthority)
        } else if !is_holding_account(
            self.payer_ata@,
            self.payer@,
            self.token@,
            self.token_program@,
            self.associated_token_program@,
        ) {
            Some(Error::InvalidAuthority)
        } else if byte_len(name) > MAX_NAME_LEN {
            Some(Error::NameTooLong)
        } else if byte_len(description) > MAX_DESCRIPTION_LEN {
            Some(Error::DescriptionTooLong)
        } else {
            None
        }
    }

    /// Writes the mandate record, unless it exists already or its texts are
    /// too long.
    pub fn init_mandate(
        &mut self,
        amount: u64,
        frequency: i64,
        name: String,
        description: String,
        now: i64,
        bump: u8,
    ) -> (r: Result<(), Error>)
        ensures
            old(self).mandate is Some ==> r == Err::<(), Error>(Error::AlreadyInitialized),
            old(self).mandate is None && byte_len(name@) > MAX_NAME_LEN ==> r == Err::<(), Error>(Error::NameTooLong),
            old(self).mandate is None && byte_len(name@) <= MAX_NAME_LEN && byte_len(description@) > MAX_DESCRIPTION_LEN
                ==> r == Err::<(), Error>(Error::DescriptionTooLong),
            r is Ok <==> (old(self).mandate is None && byte_len(name@) <= MAX_NAME_LEN && byte_len(description@) <= MAX_DESCRIPTION_LEN),
            r is Err ==> *final(self) == *old(self),
            r is Ok ==> final(self).mandate == Some(old(self).opened(amount, frequency, name, description, now, bump)),
            final(self).program_id == old(self).program_id,
            final(self).payer == old(self).payer,
            final(self).payee == old(self).payee,
            final(self).token == old(self).token,
            final(self).payer_ata == old(self).payer_ata,
            final(self).token_program == old(self).token_program,
            final(self).associated_token_program == old(self).associated_token_program,
            final(self).mandate_address == old(self).mandate_address,
            final(self).payer_user == old(self).payer_user,
            final(self).payee_user == old(self).payee_user,
    {
        if self.mandate.is_some() {
            return Err(Error::AlreadyInitialized);
        }
        if text_len(&name) > MAX_NAME_LEN {
            return Err(Error::NameTooLong);
        }
        if text_len(&description) > MAX_DESCRIPTION_LEN {
            return Err(Error::DescriptionTooLong);
        }
        self.mandate = Some(Mandate {
            payer: self.payer,
            payee: self.payee,
            amount,
            token: self.token,
            frequency,
            active: true,
            next_payout: now.wrapping_add(frequency),
            bump,
            name,
            description,
            payment_count: 0,
        });
        Ok(())
    }

    /// The delegation that lets the mandate draw up to three periodic
    /// amounts from the payer's holding account.
    pub fn approve_delegate_authority(&self) -> (r: TokenCall)
        requires
            self.mandate is Some,
            self.mandate->Some_0.amount * APPROVAL_PERIODS <= u64::MAX,
        ensures
            r == (TokenCall::Approve {
                source: self.payer_ata,
                delegate: self.mandate_address,
                owner: self.payer,
                amount: (self.mandate->Some_0.amount * APPROVAL_PERIODS) as u64,
            }),
    {
        let amount = match &self.mandate {
            Some(m) => m.amount,
            None => 0,
        };
        TokenCall::Approve {
            source: self.payer_ata,
            delegate: self.mandate_address,
            owner: self.payer,
            amount: amount * APPROVAL_PERIODS,
        }
    }

    /// Counts the new mandate for both parties.
    pub fn update_subscription_counts(&mut self)
        requires
            old(self).payer_user.outgoing_subscriptions_count < u32::MAX,
            old(self).payee_user.incoming_subscriptions_count < u32::MAX,
        ensures
            final(self).payer_user.outgoing_subscriptions_count == old(self).payer_user.outgoing_subscriptions_count + 1,
            final(self).payee_user.incoming_subscriptions_count == old(self).payee_user.incoming_subscriptions_count + 1,
            final(self).payer_user.incoming_subscriptions_count == old(self).payer_user.incoming_subscriptions_count,
            final(self).payee_user.outgoing_subscriptions_count == old(self).payee_user.outgoing_subscriptions_count,
            final(self).payer_user.authority == old(self).payer_user.authority,
            final(self).payee_user.authority == old(self).payee_user.authority,
            final(self).payer_user.name == old(self).payer_user.name,
            final(self).payee_user.name == old(self).payee_user.name,
            final(self).payer_user.bump == old(self).payer_user.bump,
            final(self).payee_user.bump == old(self).payee_user.bump,
            final(self).mandate == old(self).mandate,
            final(self).program_id == old(self).program_id,
            final(self).payer == old(self).payer,
            final(self).payee == old(self).payee,
            final(self).token == old(self).token,
            final(self).payer_ata == old(self).payer_ata,
            final(self).token_program == old(self).token_program,
            final(self).associated_token_program == old(self).associated_token_program,
            final(self).mandate_address == old(self).mandate_address,
    {
        self.payer_user.outgoing_subscriptions_count = self.payer_user.outgoing_subscriptions_count + 1;
        self.payee_user.incoming_subscriptions_count = self.payee_user.incoming_subscriptions_count + 1;
    }

    /// Creates the mandate from `payer` to `payee` at its derived address,
    /// first due one period from `now`, with a delegation of three periodic
    /// amounts, and counts it for both parties.
    pub fn process(&mut self, amount: u64, frequency: i64, name: String, description: String, now: i64) -> (r: Result<TokenCall, Error>)
        requires
            amount > 0,
            frequency > 0,
            amount * APPROVAL_PERIODS <= u64::MAX,
            old(self).payer_user.outgoing_subscriptions_count < u32::MAX,
            old(self).payee_user.incoming_subscriptions_count < u32::MAX,
        ensures
            r is Err <==> old(self).refusal(name@, description@) is Some,
            r is Err ==> r == Err::<TokenCall, Error>(old(self).refusal(name@, description@)->Some_0),
            r is Err ==> *final(self) == *old(self),
            r is Ok ==> *final(self) == old(self).created(amount, frequency, name, description, now),
            r is Ok ==> final(self).mandate->Some_0.wf(),
            r is Ok ==> r == Ok::<TokenCall, Error>(TokenCall::Approve {
                source: old(self).payer_ata,
                delegate: old(self).mandate_address,
                owner: old(self).payer,
                amount: (amount * APPROVAL_PERIODS) as u64,
            }),
    {
        if self.mandate.is_some() {
            return Err(Error::AlreadyInitialized);
        }
        let bump = match find_mandate_address(&self.payer, &self.payee, &self.program_id) {
            Some((a, b)) => {
                assert(found_view(Some((a, b))) == Some((a@, b)));
                if a == self.mandate_address {
                    b
                } else {
                    return Err(Error::InvalidAuthority);
                }
            },
            None => {
                return Err(Error::InvalidAuthority);
            },
        };
        if !(self.payer_user.authority == self.payer) || !(self.payee_user.authority == self.payee) {
            return Err(Error::InvalidAuthority);
        }
        if !check_holding_account(&self.payer_ata, &self.payer, &self.token, &self.token_program, &self.associated_token_program) {
            return Err(Error::InvalidAuthority);
        }
        match self.init_mandate(amount, frequency, name, description, now, bump) {
            Ok(()) => {},
            Err(e) => {
                return Err(e);
            },
        }
        let call = self.approve_delegate_authority();
        self.update_subscription_counts();
        Ok(call)
    }
}

} // verus!
