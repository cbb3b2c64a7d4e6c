//! A permissioned record store for merchants, payments and subscriptions.
//!
//! Every record lives at an address derived from fixed seeds, every
//! mutation is checked against the identity that is allowed to make it, and
//! every reference between records is validated when a record is created.

pub mod addressing;
pub mod errors;
pub mod instructions;
pub mod laws;
pub mod ledger;
pub mod pubkey;
pub mod state;

pub use addressing::{merchant_address, payment_address, plan_address, subscription_address};
pub use errors::{
    ErrorKind, MerchantRegistrationErrors, PaymentTransactionErrors, SolpayError,
    SubscriptionPlanErrors, UserSubscriptionErrors,
};
pub use instructions::{
    initialize_cancel_subscription, initialize_merchant, initialize_payment_transaction,
    initialize_subscription_plan, initialize_user_subscription, update_subscription_plan,
    InitializeCancelSubscription, InitializeMerchant, InitializePaymentTransaction,
    InitializeSubscriptionPlan, InitializeUserSubscription, UpdateSubscriptionPlan,
};
pub use ledger::Ledger;
pub use pubkey::Pubkey;
pub use state::{MerchantRegistration, PaymentTransaction, Record, SubscriptionPlan, UserSubscription};
