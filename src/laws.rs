use vstd::prelude::*;
use crate::addressing::{merchant_seeds, payment_seeds, plan_seeds, program_address, subscription_seeds};
use crate::errors::{
    kind_of, ErrorKind, MerchantRegistrationErrors, PaymentTransactionErrors, SolpayError,
    SubscriptionPlanErrors, UserSubscriptionErrors,
};
use crate::instructions::{
    cancellation_error, enrollment_error, merchant_registration_error, payment_error,
    plan_creation_error, plan_update_error,
};
use crate::ledger::{ledger_consistent, merchant_at, plan_at, record_consistent, subscription_at};
use crate::state::{Record, UserSubscription};

verus! {

/// Once a merchant has been registered for `user` (its address, derived from
/// `user`, holds a record), every further registration by `user` fails as a
/// duplicate, whatever its details.
pub proof fn lemma_merchant_registered_once(
    m: Map<Seq<u8>, Record>,
    program_id: Seq<u8>,
    user: Seq<u8>,
    a: Seq<u8>,
    name: Seq<char>,
    weburl: Seq<char>,
    n_tokens: int,
)
    requires
        program_address(merchant_seeds(user), program_id) == Some(a),
        m.contains_key(a),
    ensures
        merchant_registration_error(m, program_id, user, name, weburl, n_tokens)
            == Some(SolpayError::Merchant(MerchantRegistrationErrors::MerchantAlreadyRegistered)),
        kind_of(SolpayError::Merchant(MerchantRegistrationErrors::MerchantAlreadyRegistered))
            == ErrorKind::DuplicateRecord,
{
}

/// The address of a payment depends on its signature hash alone: deriving
/// it again from the same hash gives the same address, and once that address
/// holds a record every payment with the same hash is refused as a replay.
pub proof fn lemma_payment_address_idempotent(
    m: Map<Seq<u8>, Record>,
    program_id: Seq<u8>,
    signature_hash: Seq<u8>,
    a: Seq<u8>,
    merchant_ref: Seq<u8>,
    signature: Seq<char>,
    amount: u64,
    status: u8,
)
    requires
        program_address(payment_seeds(signature_hash), program_id) == Some(a),
        m.contains_key(a),
    ensures
        forall|h: Seq<u8>| h == signature_hash ==> program_address(payment_seeds(h), program_id) == Some(a),
        payment_error(m, program_id, merchant_ref, signature, signature_hash, amount, status)
            == Some(SolpayError::Payment(PaymentTransactionErrors::PaymentTransactionAlreadyExists)),
{
}

/// Creating a plan under an inactive merchant always fails, so it never
/// writes a plan; where the plan's address is free, the failure is
/// `UnauthorizedMerchantAccess`.
pub proof fn lemma_plan_needs_active_merchant(
    m: Map<Seq<u8>, Record>,
    program_id: Seq<u8>,
    merchant_ref: Seq<u8>,
    caller: Seq<u8>,
    plan_name: Seq<char>,
    price: u64,
    billing_cycle: u8,
    n_tokens: int,
)
    requires
        merchant_at(m, merchant_ref) matches Some(x) && !x.is_active,
    ensures
        plan_creation_error(m, program_id, merchant_ref, caller, plan_name, price, billing_cycle, n_tokens) is Some,
        (program_address(plan_seeds(plan_name, caller), program_id) matches Some(a) && !m.contains_key(a))
            ==> plan_creation_error(m, program_id, merchant_ref, caller, plan_name, price, billing_cycle, n_tokens)
            == Some(SolpayError::Merchant(MerchantRegistrationErrors::UnauthorizedMerchantAccess)),
{
}

/// Only the merchant stored on a plan may change whether it is active: any
/// other caller is refused as unauthorized (and the refusal leaves every
/// record as it was).
pub proof fn lemma_plan_update_needs_owner(m: Map<Seq<u8>, Record>, plan_ref: Seq<u8>, caller: Seq<u8>)
    requires
        plan_at(m, plan_ref) matches Some(p) && p.merchant_address@ != caller,
    ensures
        plan_update_error(m, plan_ref, caller)
            == Some(SolpayError::Plan(SubscriptionPlanErrors::UnauthorizedSubscriptionPlanAccess)),
        kind_of(SolpayError::Plan(SubscriptionPlanErrors::UnauthorizedSubscriptionPlanAccess))
            == ErrorKind::Unauthorized,
{
}

/// After a successful cancellation the subscription is inactive with a
/// cancellation time; cancelling it again is refused, and enrolling the same
/// subscriber in the same plan again fails as a duplicate.
pub proof fn lemma_cancellation_is_final(
    m: Map<Seq<u8>, Record>,
    program_id: Seq<u8>,
    subscription_ref: Seq<u8>,
    caller: Seq<u8>,
    now: i64,
)
    requires
        ledger_consistent(m, program_id),
        cancellation_error(m, subscription_ref, caller) is None,
    ensures
        subscription_at(m, subscription_ref) matches Some(s) && ({
            let m2 = m.insert(
                subscription_ref,
                Record::Subscription((UserSubscription { is_active: false, canceled_at: Some(now), ..s })),
            );
            &&& subscription_at(m2, subscription_ref) matches Some(c) && !c.is_active && c.canceled_at == Some(now)
            &&& cancellation_error(m2, subscription_ref, caller)
                == Some(SolpayError::Subscription(UserSubscriptionErrors::SubscriptionAlreadyCanceled))
            &&& enrollment_error(m2, program_id, s.subscription_plan@, s.subscriber@)
                == Some(SolpayError::Subscription(UserSubscriptionErrors::SubscriptionAlreadyExists))
            &&& kind_of(SolpayError::Subscription(UserSubscriptionErrors::SubscriptionAlreadyExists))
                == ErrorKind::DuplicateRecord
        }),
{
    let s = subscription_at(m, subscription_ref)->Some_0;
    assert(record_consistent(m, program_id, subscription_ref, m[subscription_ref]));
    assert(program_address(subscription_seeds(s.subscription_plan@, s.subscriber@), program_id)
        == Some(subscription_ref));
}

} // verus!
