use vstd::prelude::*;

verus! {

/// Why an operation of the mandate program was refused. A refused
/// operation leaves every record as it was.
#[derive(Clone, Copy, Debug, PartialEq, Eq, Structural)]
pub enum Error {
    /// The mandate is not due yet.
    PaymentTooEarly,
    /// The signer is not a party allowed to perform the operation.
    Unauthorized,
    /// The payment history record does not belong to the mandate.
    InvalidPaymentHistory,
    /// The mandate does not exist or is no longer active.
    MandateInactive,
    /// An account handed in does not belong to the party it stands for.
    InvalidAuthority,
    /// A name is longer than its record allows.
    NameTooLong,
    /// A description is longer than its record allows.
    DescriptionTooLong,
    /// The payer's token balance does not cover the payment.
    InsufficientBalance,
    /// The record to be created exists already.
    AlreadyInitialized,
}

/// The message shown to the party whose operation was refused.
pub open spec fn message_of(e: Error) -> &'static str {
    match e {
        Error::PaymentTooEarly => "Payment cannot be executed before the scheduled time",
        Error::Unauthorized => "Only the payer or payee can perform this operation",
        Error::InvalidPaymentHistory => "Invalid payment history for this mandate",
        Error::MandateInactive => "The mandate is not active",
        Error::InvalidAuthority => "Invalid authority",
        Error::NameTooLong => "Name too long",
        Error::DescriptionTooLong => "Description too long",
        Error::InsufficientBalance => "Insufficient token balance",
        Error::AlreadyInitialized => "Account already initialized",
    }
}

impl Error {
    /// The message shown to the party whose operation was refused.
    pub fn message(&self) -> (r: &'static str)
        ensures
            r == message_of(*self),
    {
        match self {
            Error::PaymentTooEarly => "Payment cannot be executed before the scheduled time",
            Error::Unauthorized => "Only the payer or payee can perform this operation",
            Error::InvalidPaymentHistory => "Invalid payment history for this mandate",
            Error::MandateInactive => "The mandate is not active",
            Error::InvalidAuthority => "Invalid authority",
            Error::NameTooLong => "Name too long",
            Error::DescriptionTooLong => "Description too long",
            Error::InsufficientBalance => "Insufficient token balance",
            Error::AlreadyInitialized => "Account already initialized",
        }
    }
}

} // verus!
