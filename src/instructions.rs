use vstd::prelude::*;
use vstd::utf8::encode_utf8;
use crate::addressing::{
    merchant_address, merchant_seeds, payment_address, payment_seeds, plan_address, plan_seeds,
    program_address, subscription_address, subscription_seeds,
};
use crate::errors::{
    MerchantRegistrationErrors, PaymentTransactionErrors, SolpayError, SubscriptionPlanErrors,
    UserSubscriptionErrors,
};
use crate::ledger::{merchant_at, plan_at, subscription_at, Ledger};
use crate::pubkey::{native_mint, Pubkey};
use crate::state::{MerchantRegistration, PaymentTransaction, Record, SubscriptionPlan, UserSubscription};

verus! {

/// The length of `s` in bytes.
fn byte_len(s: &String) -> (r: usize)
    ensures
        r == encode_utf8(s@).len(),
{
    s.as_str().as_bytes().len()
}

/// The identities behind a merchant registration.
#[derive(Clone, Copy, Debug)]
pub struct InitializeMerchant {
    /// The authenticated caller, who becomes the merchant's owner.
    pub user: Pubkey,
}

/// Whether merchant details fit the record: both strings non-empty and at
/// most 256 bytes, and at most 10 supported tokens.
pub open spec fn merchant_details_valid(name: Seq<char>, weburl: Seq<char>, n_tokens: int) -> bool {
    &&& 0 < encode_utf8(name).len() <= 256
    &&& 0 < encode_utf8(weburl).len() <= 256
    &&& n_tokens <= 10
}

/// The error a merchant registration reports, if any.
pub open spec fn merchant_registration_error(
    m: Map<Seq<u8>, Record>,
    program_id: Seq<u8>,
    user: Seq<u8>,
    name: Seq<char>,
    weburl: Seq<char>,
    n_tokens: int,
) -> Option<SolpayError> {
    match program_address(merchant_seeds(user), program_id) {
        None => Some(SolpayError::AddressDerivationFailed),
        Some(a) => if m.contains_key(a) {
            Some(SolpayError::Merchant(MerchantRegistrationErrors::MerchantAlreadyRegistered))
        } else if !merchant_details_valid(name, weburl, n_tokens) {
            Some(SolpayError::Merchant(MerchantRegistrationErrors::InvalidMerchantDetails))
        } else {
            None
        },
    }
}

/// Registers the caller as a merchant, at the address derived from the
/// caller, and returns that address.
pub fn initialize_merchant(
    ledger: &mut Ledger,
    ctx: InitializeMerchant,
    merchant_name: String,
    merchant_weburl: String,
    supported_tokens: Vec<Pubkey>,
    now: i64,
) -> (r: Result<Pubkey, SolpayError>)
    requires
        old(ledger).wf(),
    ensures
        final(ledger).wf(),
        final(ledger).program() == old(ledger).program(),
        match r {
            Ok(addr) => {
                &&& merchant_registration_error(old(ledger)@, old(ledger).program(), ctx.user@,
                    merchant_name@, merchant_weburl@, supported_tokens@.len() as int) is None
                &&& program_address(merchant_seeds(ctx.user@), old(ledger).program()) == Some(addr@)
                &&& final(ledger)@ == old(ledger)@.insert(addr@, Record::Merchant(MerchantRegistration {
                    merchant_name,
                    merchant_address: ctx.user,
                    is_active: true,
                    created_at: now,
                    merchant_weburl,
                    supported_tokens,
                }))
            },
            Err(e) => {
                &&& merchant_registration_error(old(ledger)@, old(ledger).program(), ctx.user@,
                    merchant_name@, merchant_weburl@, supported_tokens@.len() as int) == Some(e)
                &&& final(ledger)@ == old(ledger)@
            },
        },
{
    let program_id = ledger.program_id();
    let addr = match merchant_address(&program_id, &ctx.user) {
        Some(a) => a,
        None => return Err(SolpayError::AddressDerivationFailed),
    };
    if ledger.contains(&addr) {
        return Err(SolpayError::Merchant(MerchantRegistrationErrors::MerchantAlreadyRegistered));
    }
    let name_len = byte_len(&merchant_name);
    let url_len = byte_len(&merchant_weburl);
    if name_len == 0 || name_len > MerchantRegistration::MAX_NAME_LENGTH || url_len == 0
        || url_len > MerchantRegistration::MAX_WEBURL_LENGTH
        || supported_tokens.len() > MerchantRegistration::MAX_SUPPORTED_TOKENS {
        return Err(SolpayError::Merchant(MerchantRegistrationErrors::InvalidMerchantDetails));
    }
    let merchant = MerchantRegistration {
        merchant_name,
        merchant_address: ctx.user,
        is_active: true,
        created_at: now,
        merchant_weburl,
        supported_tokens,
    };
    ledger.insert_new(addr, Record::Merchant(merchant));
    Ok(addr)
}

/// The identities behind a payment.
#[derive(Clone, Copy, Debug)]
pub struct InitializePaymentTransaction {
    /// The address of the merchant record the payment is made to.
    pub merchant_registration: Pubkey,
    /// The authenticated caller, who pays.
    pub payer: Pubkey,
}

/// Whether payment details fit the record: a positive amount, a status of
/// 0 (pending), 1 (confirmed) or 2 (failed), and a signature of 1 to 404
/// bytes.
pub open spec fn payment_details_valid(signature: Seq<char>, amount: u64, status: u8) -> bool {
    &&& amount > 0
    &&& status <= 2
    &&& 0 < encode_utf8(signature).len() <= 404
}

/// The error a payment reports, if any.
pub open spec fn payment_error(
    m: Map<Seq<u8>, Record>,
    program_id: Seq<u8>,
    merchant_ref: Seq<u8>,
    signature: Seq<char>,
    signature_hash: Seq<u8>,
    amount: u64,
    status: u8,
) -> Option<SolpayError> {
    match program_address(payment_seeds(signature_hash), program_id) {
        None => Some(SolpayError::AddressDerivationFailed),
        Some(a) => if m.contains_key(a) {
            Some(SolpayError::Payment(PaymentTransactionErrors::PaymentTransactionAlreadyExists))
        } else {
            match merchant_at(m, merchant_ref) {
                None => Some(SolpayError::Merchant(MerchantRegistrationErrors::MerchantNotFound)),
                Some(merchant) => if !payment_details_valid(signature, amount, status) {
                    Some(SolpayError::Payment(PaymentTransactionErrors::InvalidPaymentTransactionDetails))
                } else if !merchant.is_active {
                    Some(SolpayError::Merchant(MerchantRegistrationErrors::UnauthorizedMerchantAccess))
                } else {
                    None
                },
            }
        },
    }
}

/// Records a payment of `amount` to the merchant at
/// `ctx.merchant_registration`, at the address derived from the signature's
/// hash, and returns that address. The payment is always in the native
/// currency: `_token_mint` is accepted and not used.
pub fn initialize_payment_transaction(
    ledger: &mut Ledger,
    ctx: InitializePaymentTransaction,
    tx_signature: String,
    tx_signature_hash: [u8; 32],
    amount: u64,
    _token_mint: Pubkey,
    status: u8,
    now: i64,
) -> (r: Result<Pubkey, SolpayError>)
    requires
        old(ledger).wf(),
    ensures
        final(ledger).wf(),
        final(ledger).program() == old(ledger).program(),
        match r {
            Ok(addr) => {
                &&& payment_error(old(ledger)@, old(ledger).program(), ctx.merchant_registration@,
                    tx_signature@, tx_signature_hash@, amount, status) is None
                &&& program_address(payment_seeds(tx_signature_hash@), old(ledger).program()) == Some(addr@)
                &&& !old(ledger)@.contains_key(addr@)
                &&& final(ledger)@ == old(ledger)@.insert(addr@, final(ledger)@[addr@])
                &&& final(ledger)@[addr@] matches Record::Payment(p)
                &&& p.tx_signature == tx_signature
                &&& p.tx_signature_hash == tx_signature_hash
                &&& p.payer_address == ctx.payer
                &&& merchant_at(old(ledger)@, ctx.merchant_registration@) matches Some(merchant)
                &&& p.merchant_address == merchant.merchant_address
                &&& p.amount == amount
                &&& p.token_mint@ == native_mint()
                &&& p.status == status
                &&& p.created_at == now
            },
            Err(e) => {
                &&& payment_error(old(ledger)@, old(ledger).program(), ctx.merchant_registration@,
                    tx_signature@, tx_signature_hash@, amount, status) == Some(e)
                &&& final(ledger)@ == old(ledger)@
            },
        },
{
    let program_id = ledger.program_id();
    let addr = match payment_address(&program_id, &tx_signature_hash) {
        Some(a) => a,
        None => return Err(SolpayError::AddressDerivationFailed),
    };
    if ledger.contains(&addr) {
        return Err(SolpayError::Payment(PaymentTransactionErrors::PaymentTransactionAlreadyExists));
    }
    let merchant_owner = match ledger.get_merchant(&ctx.merchant_registration) {
        None => return Err(SolpayError::Merchant(MerchantRegistrationErrors::MerchantNotFound)),
        Some(merchant) => {
            let sig_len = byte_len(&tx_signature);
            if amount == 0 || status > PaymentTransaction::MAX_STATUS || sig_len == 0
                || sig_len > PaymentTransaction::MAX_SIGNATURE_LENGTH {
                return Err(SolpayError::Payment(PaymentTransactionErrors::InvalidPaymentTransactionDetails));
            }
            if !merchant.is_active {
                return Err(SolpayError::Merchant(MerchantRegistrationErrors::UnauthorizedMerchantAccess));
            }
            merchant.merchant_address
        },
    };
    let payment = PaymentTransaction {
        tx_signature,
        tx_signature_hash,
        payer_address: ctx.payer,
        merchant_address: merchant_owner,
        amount,
        token_mint: Pubkey::default_key(),
        status,
        created_at: now,
    };
    ledger.insert_new(addr, Record::Payment(payment));
    Ok(addr)
}

/// The identities behind the creation of a plan.
#[derive(Clone, Copy, Debug)]
pub struct InitializeSubscriptionPlan {
    /// The address of the merchant record the plan belongs to.
    pub merchant_registration: Pubkey,
    /// The authenticated caller, who must own that merchant record.
    pub merchant_address: Pubkey,
}

/// Whether plan details fit the record: a name of 1 to 260 bytes, a
/// positive price and at most 10 supported tokens.
pub open spec fn plan_details_valid(plan_name: Seq<char>, price: u64, n_tokens: int) -> bool {
    &&& 0 < encode_utf8(plan_name).len() <= 260
    &&& price > 0
    &&& n_tokens <= 10
}

/// The error the creation of a plan reports, if any.
pub open spec fn plan_creation_error(
    m: Map<Seq<u8>, Record>,
    program_id: Seq<u8>,
    merchant_ref: Seq<u8>,
    caller: Seq<u8>,
    plan_name: Seq<char>,
    price: u64,
    billing_cycle: u8,
    n_tokens: int,
) -> Option<SolpayError> {
    match program_address(plan_seeds(plan_name, caller), program_id) {
        None => Some(SolpayError::AddressDerivationFailed),
        Some(a) => if m.contains_key(a) {
            Some(SolpayError::Plan(SubscriptionPlanErrors::SubscriptionPlanAlreadyExists))
        } else {
            match merchant_at(m, merchant_ref) {
                None => Some(SolpayError::Merchant(MerchantRegistrationErrors::MerchantNotFound)),
                Some(merchant) => if merchant.merchant_address@ != caller || !merchant.is_active {
                    Some(SolpayError::Merchant(MerchantRegistrationErrors::UnauthorizedMerchantAccess))
                } else if !plan_details_valid(plan_name, price, n_tokens) {
                    Some(SolpayError::Plan(SubscriptionPlanErrors::InvalidSubscriptionPlanDetails))
                } else if billing_cycle == 0 {
                    Some(SolpayError::Plan(SubscriptionPlanErrors::InvalidBillingCycleSpecified))
                } else {
                    None
                },
            }
        },
    }
}

/// Creates a plan of the merchant at `ctx.merchant_registration`, which the
/// caller must own, at the address derived from the plan's name and the
/// caller, and returns that address. Plans are priced in the native currency:
/// `_token_mint` is accepted and not used.
pub fn initialize_subscription_plan(
    ledger: &mut Ledger,
    ctx: InitializeSubscriptionPlan,
    plan_name: String,
    plan_price: u64,
    _token_mint: Pubkey,
    billing_cycle: u8,
    supported_tokens: Vec<Pubkey>,
    is_active: bool,
    now: i64,
) -> (r: Result<Pubkey, SolpayError>)
    requires
        old(ledger).wf(),
    ensures
        final(ledger).wf(),
        final(ledger).program() == old(ledger).program(),
        match r {
            Ok(addr) => {
                &&& plan_creation_error(old(ledger)@, old(ledger).program(), ctx.merchant_registration@,
                    ctx.merchant_address@, plan_name@, plan_price, billing_cycle,
                    supported_tokens@.len() as int) is None
                &&& program_address(plan_seeds(plan_name@, ctx.merchant_address@), old(ledger).program())
                    == Some(addr@)
                &&& !old(ledger)@.contains_key(addr@)
                &&& final(ledger)@ == old(ledger)@.insert(addr@, final(ledger)@[addr@])
                &&& final(ledger)@[addr@] matches Record::Plan(p)
                &&& p.plan_name == plan_name
                &&& p.plan_price == plan_price
                &&& p.token_mint@ == native_mint()
                &&& p.billing_cycle == billing_cycle
                &&& p.is_active == is_active
                &&& p.created_at == now
                &&& p.merchant_address == ctx.merchant_address
                &&& p.supported_tokens == supported_tokens
            },
            Err(e) => {
                &&& plan_creation_error(old(ledger)@, old(ledger).program(), ctx.merchant_registration@,
                    ctx.merchant_address@, plan_name@, plan_price, billing_cycle,
                    supported_tokens@.len() as int) == Some(e)
                &&& final(ledger)@ == old(ledger)@
            },
        },
{
    let program_id = ledger.program_id();
    let addr = match plan_address(&program_id, &plan_name, &ctx.merchant_address) {
        Some(a) => a,
        None => return Err(SolpayError::AddressDerivationFailed),
    };
    if ledger.contains(&addr) {
        return Err(SolpayError::Plan(SubscriptionPlanErrors::SubscriptionPlanAlreadyExists));
    }
    match ledger.get_merchant(&ctx.merchant_registration) {
        None => return Err(SolpayError::Merchant(MerchantRegistrationErrors::MerchantNotFound)),
        Some(merchant) => {
            if !merchant.merchant_address.same_as(&ctx.merchant_address) || !merchant.is_active {
                return Err(SolpayError::Merchant(MerchantRegistrationErrors::UnauthorizedMerchantAccess));
            }
        },
    }
    let name_len = byte_len(&plan_name);
    if name_len == 0 || name_len > SubscriptionPlan::MAX_PLAN_NAME_LENGTH || plan_price == 0
        || supported_tokens.len() > SubscriptionPlan::MAX_SUPPORTED_TOKENS {
        return Err(SolpayError::Plan(SubscriptionPlanErrors::InvalidSubscriptionPlanDetails));
    }
    if billing_cycle == 0 {
        return Err(SolpayError::Plan(SubscriptionPlanErrors::InvalidBillingCycleSpecified));
    }
    let plan = SubscriptionPlan {
        plan_name,
        plan_price,
        token_mint: Pubkey::default_key(),
        billing_cycle,
        is_active,
        created_at: now,
        merchant_address: ctx.merchant_address,
        supported_tokens,
    };
    ledger.insert_new(addr, Record::Plan(plan));
    Ok(addr)
}

/// The identities behind an enrollment.
#[derive(Clone, Copy, Debug)]
pub struct InitializeUserSubscription {
    /// The address of the plan to enroll in.
    pub subscription_plan: Pubkey,
    /// The authenticated caller, who subscribes.
    pub subscriber: Pubkey,
}

/// The error an enrollment reports, if any.
pub open spec fn enrollment_error(
    m: Map<Seq<u8>, Record>,
    program_id: Seq<u8>,
    plan_ref: Seq<u8>,
    subscriber: Seq<u8>,
) -> Option<SolpayError> {
    match program_address(subscription_seeds(plan_ref, subscriber), program_id) {
        None => Some(SolpayError::AddressDerivationFailed),
        Some(a) => if m.contains_key(a) {
            Some(SolpayError::Subscription(UserSubscriptionErrors::SubscriptionAlreadyExists))
        } else {
            match plan_at(m, plan_ref) {
                None => Some(SolpayError::Plan(SubscriptionPlanErrors::SubscriptionPlanNotFound)),
                Some(plan) => if !plan.is_active {
                    Some(SolpayError::Plan(SubscriptionPlanErrors::InactiveSubscriptionPlan))
                } else {
                    None
                },
            }
        },
    }
}

/// Enrolls the caller in the active plan at `ctx.subscription_plan`, at the
/// address derived from the plan and the caller, and returns that address.
/// The subscription starts at `now`, active and not canceled, and belongs to
/// the plan's merchant. `_supported_tokens` is accepted and not stored.
pub fn initialize_user_subscription(
    ledger: &mut Ledger,
    ctx: InitializeUserSubscription,
    next_billing_date: i64,
    _supported_tokens: Vec<Pubkey>,
    now: i64,
) -> (r: Result<Pubkey, SolpayError>)
    requires
        old(ledger).wf(),
    ensures
        final(ledger).wf(),
        final(ledger).program() == old(ledger).program(),
        match r {
            Ok(addr) => {
                &&& enrollment_error(old(ledger)@, old(ledger).program(), ctx.subscription_plan@,
                    ctx.subscriber@) is None
                &&& program_address(subscription_seeds(ctx.subscription_plan@, ctx.subscriber@),
                    old(ledger).program()) == Some(addr@)
                &&& !old(ledger)@.contains_key(addr@)
                &&& final(ledger)@ == old(ledger)@.insert(addr@, final(ledger)@[addr@])
                &&& final(ledger)@[addr@] matches Record::Subscription(s)
                &&& s.subscriber == ctx.subscriber
                &&& s.subscription_plan == ctx.subscription_plan
                &&& s.start_date == now
                &&& s.next_billing_date == next_billing_date
                &&& s.is_active
                &&& plan_at(old(ledger)@, ctx.subscription_plan@) matches Some(plan)
                &&& s.merchant_address == plan.merchant_address
                &&& s.supported_tokens@.len() == 0
                &&& s.canceled_at is None
            },
            Err(e) => {
                &&& enrollment_error(old(ledger)@, old(ledger).program(), ctx.subscription_plan@,
                    ctx.subscriber@) == Some(e)
                &&& final(ledger)@ == old(ledger)@
            },
        },
{
    let program_id = ledger.program_id();
    let addr = match subscription_address(&program_id, &ctx.subscription_plan, &ctx.subscriber) {
        Some(a) => a,
        None => return Err(SolpayError::AddressDerivationFailed),
    };
    if ledger.contains(&addr) {
        return Err(SolpayError::Subscription(UserSubscriptionErrors::SubscriptionAlreadyExists));
    }
    let merchant_owner = match ledger.get_plan(&ctx.subscription_plan) {
        None => return Err(SolpayError::Plan(SubscriptionPlanErrors::SubscriptionPlanNotFound)),
        Some(plan) => {
            if !plan.is_active {
                return Err(SolpayError::Plan(SubscriptionPlanErrors::InactiveSubscriptionPlan));
            }
            plan.merchant_address
        },
    };
    let subscription = UserSubscription {
        subscriber: ctx.subscriber,
        subscription_plan: ctx.subscription_plan,
        start_date: now,
        next_billing_date,
        is_active: true,
        merchant_address: merchant_owner,
        supported_tokens: Vec::new(),
        canceled_at: None,
    };
    ledger.insert_new(addr, Record::Subscription(subscription));
    Ok(addr)
}

/// The identities behind a cancellation.
#[derive(Clone, Copy, Debug)]
pub struct InitializeCancelSubscription {
    /// The address of the subscription to cancel.
    pub user_subscription: Pubkey,
    /// The authenticated caller, who must be the subscriber.
    pub subscriber: Pubkey,
}

/// The error a cancellation reports, if any. A subscription is canceled
/// once: a second cancellation is refused.
pub open spec fn cancellation_error(m: Map<Seq<u8>, Record>, subscription_ref: Seq<u8>, caller: Seq<u8>) -> Option<SolpayError> {
    match subscription_at(m, subscription_ref) {
        None => Some(SolpayError::Subscription(UserSubscriptionErrors::SubscriptionNotFound)),
        Some(s) => if s.subscriber@ != caller {
            Some(SolpayError::Subscription(UserSubscriptionErrors::UnauthorizedSubscriptionAccess))
        } else if !s.is_active {
            Some(SolpayError::Subscription(UserSubscriptionErrors::SubscriptionAlreadyCanceled))
        } else {
            None
        },
    }
}

/// Cancels the subscription at `ctx.user_subscription` on behalf of its
/// subscriber: it becomes inactive, canceled at `now`, and stays so.
pub fn initialize_cancel_subscription(
    ledger: &mut Ledger,
    ctx: InitializeCancelSubscription,
    now: i64,
) -> (r: Result<(), SolpayError>)
    requires
        old(ledger).wf(),
    ensures
        final(ledger).wf(),
        final(ledger).program() == old(ledger).program(),
        match r {
            Ok(()) => {
                &&& cancellation_error(old(ledger)@, ctx.user_subscription@, ctx.subscriber@) is None
                &&& subscription_at(old(ledger)@, ctx.user_subscription@) matches Some(s)
                &&& final(ledger)@ == old(ledger)@.insert(
                    ctx.user_subscription@,
                    Record::Subscription((UserSubscription { is_active: false, canceled_at: Some(now), ..s })),
                )
            },
            Err(e) => {
                &&& cancellation_error(old(ledger)@, ctx.user_subscription@, ctx.subscriber@) == Some(e)
                &&& final(ledger)@ == old(ledger)@
            },
        },
{
    match ledger.get_subscription(&ctx.user_subscription) {
        None => return Err(SolpayError::Subscription(UserSubscriptionErrors::SubscriptionNotFound)),
        Some(s) => {
            if !s.subscriber.same_as(&ctx.subscriber) {
                return Err(SolpayError::Subscription(UserSubscriptionErrors::UnauthorizedSubscriptionAccess));
            }
            if !s.is_active {
                return Err(SolpayError::Subscription(UserSubscriptionErrors::SubscriptionAlreadyCanceled));
            }
        },
    }
    ledger.cancel_subscription(&ctx.user_subscription, now);
    Ok(())
}

/// The identities behind a change of a plan's state.
#[derive(Clone, Copy, Debug)]
pub struct UpdateSubscriptionPlan {
    /// The address of the plan to change.
    pub subscription_plan: Pubkey,
    /// The authenticated caller, who must own the plan.
    pub merchant_address: Pubkey,
}

/// The error a change of a plan's state reports, if any.
pub open spec fn plan_update_error(m: Map<Seq<u8>, Record>, plan_ref: Seq<u8>, caller: Seq<u8>) -> Option<SolpayError> {
    match plan_at(m, plan_ref) {
        None => Some(SolpayError::Plan(SubscriptionPlanErrors::SubscriptionPlanNotFound)),
        Some(p) => if p.merchant_address@ != caller {
            Some(SolpayError::Plan(SubscriptionPlanErrors::UnauthorizedSubscriptionPlanAccess))
        } else {
            None
        },
    }
}

/// Sets whether the plan at `ctx.subscription_plan` is active, on behalf of
/// the merchant that owns it. Nothing else of the plan changes.
pub fn update_subscription_plan(
    ledger: &mut Ledger,
    ctx: UpdateSubscriptionPlan,
    is_active: bool,
) -> (r: Result<(), SolpayError>)
    requires
        old(ledger).wf(),
    ensures
        final(ledger).wf(),
        final(ledger).program() == old(ledger).program(),
        match r {
            Ok(()) => {
                &&& plan_update_error(old(ledger)@, ctx.subscription_plan@, ctx.merchant_address@) is None
                &&& plan_at(old(ledger)@, ctx.subscription_plan@) matches Some(p)
                &&& final(ledger)@ == old(ledger)@.insert(
                    ctx.subscription_plan@,
                    Record::Plan((SubscriptionPlan { is_active, ..p })),
                )
            },
            Err(e) => {
                &&& plan_update_error(old(ledger)@, ctx.subscription_plan@, ctx.merchant_address@) == Some(e)
                &&& final(ledger)@ == old(ledger)@
            },
        },
{
    match ledger.get_plan(&ctx.subscription_plan) {
        None => return Err(SolpayError::Plan(SubscriptionPlanErrors::SubscriptionPlanNotFound)),
        Some(p) => {
            if !p.merchant_address.same_as(&ctx.merchant_address) {
                return Err(SolpayError::Plan(SubscriptionPlanErrors::UnauthorizedSubscriptionPlanAccess));
            }
        },
    }
    ledger.set_plan_active(&ctx.subscription_plan, is_active);
    Ok(())
}

} // verus!
