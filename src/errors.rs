use vstd::prelude::*;

verus! {

/// Failures of merchant registration and of checks against a merchant record.
#[derive(Clone, Copy, Debug, PartialEq, Eq, Structural)]
pub enum MerchantRegistrationErrors {
    MerchantAlreadyRegistered,
    InvalidMerchantDetails,
    MerchantRegistrationLimitReached,
    UnauthorizedMerchantAccess,
    MerchantNotFound,
}

/// Failures of recording a payment.
#[derive(Clone, Copy, Debug, PartialEq, Eq, Structural)]
pub enum PaymentTransactionErrors {
    PaymentTransactionAlreadyExists,
    InvalidPaymentTransactionDetails,
    PaymentTransactionLimitReached,
    UnauthorizedPaymentTransactionAccess,
    PaymentTransactionNotFound,
    InsufficientFunds,
}

/// Failures of creating, updating and enrolling in subscription plans.
#[derive(Clone, Copy, Debug, PartialEq, Eq, Structural)]
pub enum SubscriptionPlanErrors {
    SubscriptionPlanAlreadyExists,
    InvalidSubscriptionPlanDetails,
    SubscriptionPlanLimitReached,
    UnauthorizedSubscriptionPlanAccess,
    SubscriptionPlanNotFound,
    InactiveSubscriptionPlan,
    UnsupportedTokenForSubscriptionPlan,
    InvalidBillingCycleSpecified,
    InsufficientFundsForSubscriptionPlan,
}

/// Failures of the subscription lifecycle.
#[derive(Clone, Copy, Debug, PartialEq, Eq, Structural)]
pub enum UserSubscriptionErrors {
    SubscriptionAlreadyExists,
    UnauthorizedSubscriptionAccess,
    SubscriptionNotFound,
    SubscriptionAlreadyCanceled,
}

/// Every error an operation of the ledger can report.
#[derive(Clone, Copy, Debug, PartialEq, Eq, Structural)]
pub enum SolpayError {
    Merchant(MerchantRegistrationErrors),
    Payment(PaymentTransactionErrors),
    Plan(SubscriptionPlanErrors),
    Subscription(UserSubscriptionErrors),
    /// No valid address can be derived from the seeds (no bump seed gives an
    /// address off the curve).
    AddressDerivationFailed,
}

/// The cause of an error, independent of the record kind.
#[derive(Clone, Copy, Debug, PartialEq, Eq, Structural)]
pub enum ErrorKind {
    ValidationFailed,
    DuplicateRecord,
    NotFound,
    Unauthorized,
    PreconditionFailed,
}

/// The cause that each error reports.
pub open spec fn kind_of(e: SolpayError) -> ErrorKind {
    match e {
        SolpayError::Merchant(m) => match m {
            MerchantRegistrationErrors::MerchantAlreadyRegistered => ErrorKind::DuplicateRecord,
            MerchantRegistrationErrors::InvalidMerchantDetails => ErrorKind::ValidationFailed,
            MerchantRegistrationErrors::MerchantRegistrationLimitReached => ErrorKind::PreconditionFailed,
            MerchantRegistrationErrors::UnauthorizedMerchantAccess => ErrorKind::Unauthorized,
            MerchantRegistrationErrors::MerchantNotFound => ErrorKind::NotFound,
        },
        SolpayError::Payment(p) => match p {
            PaymentTransactionErrors::PaymentTransactionAlreadyExists => ErrorKind::DuplicateRecord,
            PaymentTransactionErrors::InvalidPaymentTransactionDetails => ErrorKind::ValidationFailed,
            PaymentTransactionErrors::PaymentTransactionLimitReached => ErrorKind::PreconditionFailed,
            PaymentTransactionErrors::UnauthorizedPaymentTransactionAccess => ErrorKind::Unauthorized,
            PaymentTransactionErrors::PaymentTransactionNotFound => ErrorKind::NotFound,
            PaymentTransactionErrors::InsufficientFunds => ErrorKind::PreconditionFailed,
        },
        SolpayError::Plan(p) => match p {
            SubscriptionPlanErrors::SubscriptionPlanAlreadyExists => ErrorKind::DuplicateRecord,
            SubscriptionPlanErrors::InvalidSubscriptionPlanDetails => ErrorKind::ValidationFailed,
            SubscriptionPlanErrors::SubscriptionPlanLimitReached => ErrorKind::PreconditionFailed,
            SubscriptionPlanErrors::UnauthorizedSubscriptionPlanAccess => ErrorKind::Unauthorized,
            SubscriptionPlanErrors::SubscriptionPlanNotFound => ErrorKind::NotFound,
            SubscriptionPlanErrors::InactiveSubscriptionPlan => ErrorKind::PreconditionFailed,
            SubscriptionPlanErrors::UnsupportedTokenForSubscriptionPlan => ErrorKind::ValidationFailed,
            SubscriptionPlanErrors::InvalidBillingCycleSpecified => ErrorKind::ValidationFailed,
            SubscriptionPlanErrors::InsufficientFundsForSubscriptionPlan => ErrorKind::PreconditionFailed,
        },
        SolpayError::Subscription(s) => match s {
            UserSubscriptionErrors::SubscriptionAlreadyExists => ErrorKind::DuplicateRecord,
            UserSubscriptionErrors::UnauthorizedSubscriptionAccess => ErrorKind::Unauthorized,
            UserSubscriptionErrors::SubscriptionNotFound => ErrorKind::NotFound,
            UserSubscriptionErrors::SubscriptionAlreadyCanceled => ErrorKind::PreconditionFailed,
        },
        SolpayError::AddressDerivationFailed => ErrorKind::ValidationFailed,
    }
}

impl SolpayError {
    /// The cause of this error.
    pub fn kind(&self) -> (r: ErrorKind)
        ensures
            r == kind_of(*self),
    {
        match *self {
            SolpayError::Merchant(m) => match m {
                MerchantRegistrationErrors::MerchantAlreadyRegistered => ErrorKind::DuplicateRecord,
                MerchantRegistrationErrors::InvalidMerchantDetails => ErrorKind::ValidationFailed,
                MerchantRegistrationErrors::MerchantRegistrationLimitReached => ErrorKind::PreconditionFailed,
                MerchantRegistrationErrors::UnauthorizedMerchantAccess => ErrorKind::Unauthorized,
                MerchantRegistrationErrors::MerchantNotFound => ErrorKind::NotFound,
            },
            SolpayError::Payment(p) => match p {
                PaymentTransactionErrors::PaymentTransactionAlreadyExists => ErrorKind::DuplicateRecord,
                PaymentTransactionErrors::InvalidPaymentTransactionDetails => ErrorKind::ValidationFailed,
                PaymentTransactionErrors::PaymentTransactionLimitReached => ErrorKind::PreconditionFailed,
                PaymentTransactionErrors::UnauthorizedPaymentTransactionAccess => ErrorKind::Unauthorized,
                PaymentTransactionErrors::PaymentTransactionNotFound => ErrorKind::NotFound,
                PaymentTransactionErrors::InsufficientFunds => ErrorKind::PreconditionFailed,
            },
            SolpayError::Plan(p) => match p {
                SubscriptionPlanErrors::SubscriptionPlanAlreadyExists => ErrorKind::DuplicateRecord,
                SubscriptionPlanErrors::InvalidSubscriptionPlanDetails => ErrorKind::ValidationFailed,
                SubscriptionPlanErrors::SubscriptionPlanLimitReached => ErrorKind::PreconditionFailed,
                SubscriptionPlanErrors::UnauthorizedSubscriptionPlanAccess => ErrorKind::Unauthorized,
                SubscriptionPlanErrors::SubscriptionPlanNotFound => ErrorKind::NotFound,
                SubscriptionPlanErrors::InactiveSubscriptionPlan => ErrorKind::PreconditionFailed,
                SubscriptionPlanErrors::UnsupportedTokenForSubscriptionPlan => ErrorKind::ValidationFailed,
                SubscriptionPlanErrors::InvalidBillingCycleSpecified => ErrorKind::ValidationFailed,
                SubscriptionPlanErrors::InsufficientFundsForSubscriptionPlan => ErrorKind::PreconditionFailed,
            },
            SolpayError::Subscription(s) => match s {
                UserSubscriptionErrors::SubscriptionAlreadyExists => ErrorKind::DuplicateRecord,
                UserSubscriptionErrors::UnauthorizedSubscriptionAccess => ErrorKind::Unauthorized,
                UserSubscriptionErrors::SubscriptionNotFound => ErrorKind::NotFound,
                UserSubscriptionErrors::SubscriptionAlreadyCanceled => ErrorKind::PreconditionFailed,
            },
                SolpayError::AddressDerivationFailed => ErrorKind::ValidationFailed,
        }
    }
}

} // verus!
