//! Recurring, delegated payments: the mandate state machine, the addresses
//! its records live at, and the decisions of the scheduler that drives it.

pub mod address;
pub mod error;
pub mod state;
pub mod instructions;
pub mod scheduler;
pub mod lifecycle;
pub mod program;

pub use address::{find_mandate_address, find_payment_history_address, find_user_address, Address};
pub use error::Error;
pub use instructions::cancel_mandate::CancelMandate;
pub use instructions::close_payment_history::ClosePaymentHistory;
pub use instructions::create_mandate::CreateMandate;
pub use instructions::execute_payment::ExecutePayment;
pub use instructions::reapprove_mandate::{ApprovalPolicy, ReapproveMandate, TopupAllowance};
pub use instructions::register_user::{GetUserSubscriptions, RegisterUser};
pub use instructions::TokenCall;
pub use program::{
    cancel_mandate, close_payment_history, create_mandate, execute_payment, get_user_subscriptions,
    reapprove_mandate, register_user,
};
pub use scheduler::{plan_tick, DuePayment, ScannedAccount, TickReport};
pub use state::{Mandate, PaymentHistory, User};
