use vstd::prelude::*;
use crate::address::{Address, find_user_address, found_view, program_address_of, user_seeds};
use crate::error::Error;
use crate::state::{byte_len, text_len, User, MAX_USER_NAME_LEN};

verus! {

/// The accounts that registering a user reads and writes.
pub struct RegisterUser {
    pub program_id: Address,
    /// The signer, whose counters the record keeps.
    pub authority: Address,
    pub user_address: Address,
    /// The record at `user_address`; `None` while it does not exist.
    pub user: Option<User>,
}

impl RegisterUser {
    /// The address that the user record of `authority` is derived at.
    pub open spec fn derived(&self) -> Option<(Seq<u8>, u8)> {
        program_address_of(user_seeds(self.authority@), self.program_id@)
    }

    /// The accounts after a successful registration: the record of
    /// `authority`, with both counters at zero.
    pub open spec fn registered(&self, name: String) -> RegisterUser {
        RegisterUser {
            user: Some(User {
                authority: self.authority,
                outgoing_subscriptions_count: 0,
                incoming_subscriptions_count: 0,
                name,
                bump: self.derived()->Some_0.1,
            }),
            ..*self
        }
    }

    /// Why registering is refused, checked in this order; `None` where it succeeds.
    pub open spec fn refusal(&self, name: Seq<char>) -> Option<Error> {
        if self.user is Some {
            Some(Error::AlreadyInitialized)
        } else if !(self.derived() is Some && self.derived()->Some_0.0 == self.user_address@) {
            Some(Error::InvalidAuthority)
        } else if byte_len(name) > MAX_USER_NAME_LEN {
            Some(Error::NameTooLong)
        } else {
            None
        }
    }

    /// Writes the user record of `authority`, with both counters at zero.
    pub fn process(&mut self, name: String) -> (r: Result<(), Error>)
        ensures
            r is Err <==> old(self).refusal(name@) is Some,
            r is Err ==> r == Err::<(), Error>(old(self).refusal(name@)->Some_0),
            r is Err ==> *final(self) == *old(self),
            r is Ok ==> *final(self) == old(self).registered(name),
    {
        if self.user.is_some() {
            return Err(Error::AlreadyInitialized);
        }
        let bump = match find_user_address(&self.authority, &self.program_id) {
            Some((a, b)) => {
                assert(found_view(Some((a, b))) == Some((a@, b)));
                if a == self.user_address {
                    b
                } else {
                    return Err(Error::InvalidAuthority);
                }
            },
            None => {
                return Err(Error::InvalidAuthority);
            },
        };
        if text_len(&name) > MAX_USER_NAME_LEN {
            return Err(Error::NameTooLong);
        }
        self.user = Some(User {
            authority: self.authority,
            outgoing_subscriptions_count: 0,
            incoming_subscriptions_count: 0,
            name,
            bump,
        });
        Ok(())
    }
}

/// The accounts that reading a user's subscription counts takes.
pub struct GetUserSubscriptions {
    /// The signer, who must own the record.
    pub authority: Address,
    pub user: User,
}

impl GetUserSubscriptions {
    /// The number of mandates the user pays and the number the user is paid
    /// by, in that order.
    pub fn process(&self) -> (r: Result<(u32, u32), Error>)
        ensures
            r is Err <==> self.user.authority@ != self.authority@,
            r is Err ==> r == Err::<(u32, u32), Error>(Error::Unauthorized),
            r is Ok ==> r == Ok::<(u32, u32), Error>(
                (self.user.outgoing_subscriptions_count, self.user.incoming_subscriptions_count),
            ),
    {
        if !(self.user.authority == self.authority) {
            return Err(Error::Unauthorized);
        }
        Ok((self.user.outgoing_subscriptions_count, self.user.incoming_subscriptions_count))
    }
}

} // verus!
