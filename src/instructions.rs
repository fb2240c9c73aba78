//! The operations of the mandate program. Each takes the accounts it reads
//! and writes, checks them, and either changes them and names the token
//! program call that goes with the change, or refuses and changes nothing.
//! The operation and its token program call succeed or fail together.
use vstd::prelude::*;
use crate::address::{
    find_associated_token_address, find_mandate_address, found_view, holding_account_seeds, mandate_seeds,
    program_address_of, Address,
};

pub mod cancel_mandate;
pub mod close_payment_history;
pub mod create_mandate;
pub mod execute_payment;
pub mod reapprove_mandate;
pub mod register_user;

verus! {

/// A call that the token program makes for an operation of the mandate program.
#[derive(Clone, Copy, Debug, PartialEq, Eq)]
pub enum TokenCall {
    /// Let `delegate` move up to `amount` out of `source`, which `owner` holds;
    /// this replaces any earlier delegation on `source`.
    Approve { source: Address, delegate: Address, owner: Address, amount: u64 },
    /// Withdraw the delegation on `source`, which `owner` holds: nothing can
    /// be moved out of it by a delegate afterwards.
    Revoke { source: Address, owner: Address },
    /// Move `amount` of the token `mint`, which has `decimals` decimals, from
    /// `source` to `destination`, on the authority of `authority`.
    TransferChecked {
        source: Address,
        mint: Address,
        destination: Address,
        authority: Address,
        amount: u64,
        decimals: u8,
    },
}

/// Whether `mandate` is the address, with bump seed `bump`, of the mandate
/// from `payer` to `payee`.
pub open spec fn is_mandate_address(mandate: Seq<u8>, payer: Seq<u8>, payee: Seq<u8>, bump: u8, program_id: Seq<u8>) -> bool {
    program_address_of(mandate_seeds(payer, payee), program_id) == Some((mandate, bump))
}

pub fn check_mandate_address(mandate: &Address, payer: &Address, payee: &Address, bump: u8, program_id: &Address) -> (r: bool)
    ensures
        r == is_mandate_address(mandate@, payer@, payee@, bump, program_id@),
{
    match find_mandate_address(payer, payee, program_id) {
        Some((a, b)) => {
            assert(found_view(Some((a, b))) == Some((a@, b)));
            a == *mandate && b == bump
        },
        None => false,
    }
}

/// Whether `account` is the associated holding account of `wallet` for the
/// token `mint`, the only account of `wallet` that an operation accepts.
pub open spec fn is_holding_account(
    account: Seq<u8>,
    wallet: Seq<u8>,
    mint: Seq<u8>,
    token_program: Seq<u8>,
    associated_token_program: Seq<u8>,
) -> bool {
    match program_address_of(holding_account_seeds(wallet, token_program, mint), associated_token_program) {
        Some((a, _)) => a == account,
        None => false,
    }
}

pub fn check_holding_account(
    account: &Address,
    wallet: &Address,
    mint: &Address,
    token_program: &Address,
    associated_token_program: &Address,
) -> (r: bool)
    ensures
        r == is_holding_account(account@, wallet@, mint@, token_program@, associated_token_program@),
{
    match find_associated_token_address(wallet, mint, token_program, associated_token_program) {
        Some((a, b)) => {
            assert(found_view(Some((a, b))) == Some((a@, b)));
            a == *account
        },
        None => false,
    }
}

} // verus!
