use solpay::{
    initialize_cancel_subscription, initialize_merchant, initialize_payment_transaction,
    initialize_subscription_plan, initialize_user_subscription, merchant_address, payment_address,
    plan_address, subscription_address, update_subscription_plan, ErrorKind,
    InitializeCancelSubscription, InitializeMerchant, InitializePaymentTransaction,
    InitializeSubscriptionPlan, InitializeUserSubscription, Ledger, MerchantRegistration,
    MerchantRegistrationErrors, PaymentTransaction, PaymentTransactionErrors, Pubkey, Record,
    SolpayError, SubscriptionPlan, SubscriptionPlanErrors, UpdateSubscriptionPlan,
    UserSubscription, UserSubscriptionErrors,
};

const T: i64 = 1_700_000_000;
const DAY: i64 = 86_400;

fn key(b: u8) -> Pubkey {
    Pubkey::new_from_array([b; 32])
}

fn program() -> Pubkey {
    key(200)
}

fn register(ledger: &mut Ledger, owner: Pubkey, name: &str) -> Pubkey {
    initialize_merchant(
        ledger,
        InitializeMerchant { user: owner },
        name.to_string(),
        "acme.example".to_string(),
        vec![],
        T,
    )
    .unwrap()
}

fn create_plan(ledger: &mut Ledger, merchant: Pubkey, owner: Pubkey, name: &str, active: bool) -> Pubkey {
    initialize_subscription_plan(
        ledger,
        InitializeSubscriptionPlan { merchant_registration: merchant, merchant_address: owner },
        name.to_string(),
        1000,
        key(9),
        30,
        vec![],
        active,
        T,
    )
    .unwrap()
}

fn enroll(ledger: &mut Ledger, plan: Pubkey, subscriber: Pubkey, now: i64) -> Result<Pubkey, SolpayError> {
    initialize_user_subscription(
        ledger,
        InitializeUserSubscription { subscription_plan: plan, subscriber },
        now + 30 * DAY,
        vec![],
        now,
    )
}

fn pay(
    ledger: &mut Ledger,
    merchant: Pubkey,
    signature: &str,
    hash: [u8; 32],
    amount: u64,
    status: u8,
) -> Result<Pubkey, SolpayError> {
    initialize_payment_transaction(
        ledger,
        InitializePaymentTransaction { merchant_registration: merchant, payer: key(50) },
        signature.to_string(),
        hash,
        amount,
        key(77),
        status,
        T,
    )
}

fn merchant_of(ledger: &Ledger, addr: &Pubkey) -> MerchantRegistration {
    ledger.get_merchant(addr).unwrap().clone()
}

fn plan_of(ledger: &Ledger, addr: &Pubkey) -> SubscriptionPlan {
    ledger.get_plan(addr).unwrap().clone()
}

fn subscription_of(ledger: &Ledger, addr: &Pubkey) -> UserSubscription {
    ledger.get_subscription(addr).unwrap().clone()
}

fn payment_of(ledger: &Ledger, addr: &Pubkey) -> PaymentTransaction {
    ledger.get_payment(addr).unwrap().clone()
}

#[test]
fn end_to_end_scenario() {
    let mut ledger = Ledger::new(program());
    let m_owner = key(1);
    let s = key(2);

    let m = initialize_merchant(
        &mut ledger,
        InitializeMerchant { user: m_owner },
        "Acme".to_string(),
        "acme.example".to_string(),
        vec![],
        T,
    )
    .unwrap();
    assert_eq!(Some(m), merchant_address(&program(), &m_owner));

    let p = initialize_subscription_plan(
        &mut ledger,
        InitializeSubscriptionPlan { merchant_registration: m, merchant_address: m_owner },
        "Pro".to_string(),
        1000,
        key(9),
        30,
        vec![],
        true,
        T,
    )
    .unwrap();
    assert_eq!(Some(p), plan_address(&program(), &"Pro".to_string(), &m_owner));

    let sub = enroll(&mut ledger, p, s, T).unwrap();
    assert_eq!(Some(sub), subscription_address(&program(), &p, &s));
    let rec = subscription_of(&ledger, &sub);
    assert!(rec.is_active);
    assert_eq!(rec.start_date, T);
    assert_eq!(rec.next_billing_date, T + 30 * DAY);
    assert_eq!(rec.merchant_address, m_owner);
    assert_eq!(rec.canceled_at, None);

    let later = T + 5 * DAY;
    initialize_cancel_subscription(
        &mut ledger,
        InitializeCancelSubscription { user_subscription: sub, subscriber: s },
        later,
    )
    .unwrap();
    let rec = subscription_of(&ledger, &sub);
    assert!(!rec.is_active);
    assert_eq!(rec.canceled_at, Some(later));

    let again = enroll(&mut ledger, p, s, later).unwrap_err();
    assert_eq!(again, SolpayError::Subscription(UserSubscriptionErrors::SubscriptionAlreadyExists));
    assert_eq!(again.kind(), ErrorKind::DuplicateRecord);

    update_subscription_plan(
        &mut ledger,
        UpdateSubscriptionPlan { subscription_plan: p, merchant_address: m_owner },
        false,
    )
    .unwrap();
    assert!(!plan_of(&ledger, &p).is_active);

    let other = enroll(&mut ledger, p, key(3), later).unwrap_err();
    assert_eq!(other, SolpayError::Plan(SubscriptionPlanErrors::InactiveSubscriptionPlan));
    assert_eq!(ledger.len(), 3);
}

#[test]
fn merchant_record_holds_the_details() {
    let mut ledger = Ledger::new(program());
    let m = initialize_merchant(
        &mut ledger,
        InitializeMerchant { user: key(1) },
        "Acme".to_string(),
        "acme.example".to_string(),
        vec![key(4), key(5)],
        T,
    )
    .unwrap();
    let rec = merchant_of(&ledger, &m);
    assert_eq!(rec.merchant_name, "Acme");
    assert_eq!(rec.merchant_weburl, "acme.example");
    assert_eq!(rec.merchant_address, key(1));
    assert!(rec.is_active);
    assert_eq!(rec.created_at, T);
    assert_eq!(rec.supported_tokens, vec![key(4), key(5)]);
    assert!(ledger.contains(&m));
    assert!(matches!(ledger.get(&m), Some(Record::Merchant(_))));
}

#[test]
fn second_merchant_registration_is_duplicate() {
    let mut ledger = Ledger::new(program());
    register(&mut ledger, key(1), "Acme");
    let e = initialize_merchant(
        &mut ledger,
        InitializeMerchant { user: key(1) },
        "Other".to_string(),
        "other.example".to_string(),
        vec![],
        T + 1,
    )
    .unwrap_err();
    assert_eq!(e, SolpayError::Merchant(MerchantRegistrationErrors::MerchantAlreadyRegistered));
    assert_eq!(e.kind(), ErrorKind::DuplicateRecord);
    let bad = initialize_merchant(
        &mut ledger,
        InitializeMerchant { user: key(1) },
        String::new(),
        String::new(),
        vec![],
        T + 1,
    )
    .unwrap_err();
    assert_eq!(bad.kind(), ErrorKind::DuplicateRecord);
    assert_eq!(ledger.len(), 1);
    register(&mut ledger, key(2), "Acme");
    assert_eq!(ledger.len(), 2);
}

#[test]
fn merchant_details_are_validated() {
    let mut ledger = Ledger::new(program());
    let invalid = SolpayError::Merchant(MerchantRegistrationErrors::InvalidMerchantDetails);
    let cases: Vec<(String, String, usize)> = vec![
        (String::new(), "acme.example".to_string(), 0),
        ("Acme".to_string(), String::new(), 0),
        ("a".repeat(257), "acme.example".to_string(), 0),
        ("Acme".to_string(), "u".repeat(257), 0),
        ("Acme".to_string(), "acme.example".to_string(), 11),
    ];
    for (name, url, n) in cases {
        let tokens: Vec<Pubkey> = (0..n).map(|i| key(i as u8)).collect();
        let e = initialize_merchant(&mut ledger, InitializeMerchant { user: key(1) }, name, url, tokens, T)
            .unwrap_err();
        assert_eq!(e, invalid);
        assert_eq!(e.kind(), ErrorKind::ValidationFailed);
    }
    assert_eq!(ledger.len(), 0);
    let tokens: Vec<Pubkey> = (0..10).map(|i| key(i as u8)).collect();
    assert!(initialize_merchant(
        &mut ledger,
        InitializeMerchant { user: key(1) },
        "a".repeat(256),
        "u".repeat(256),
        tokens,
        T
    )
    .is_ok());
}

#[test]
fn payment_is_recorded_in_native_currency() {
    let mut ledger = Ledger::new(program());
    let m = register(&mut ledger, key(1), "Acme");
    let hash = [7u8; 32];
    let addr = pay(&mut ledger, m, "5sig", hash, 250, 1).unwrap();
    assert_eq!(Some(addr), payment_address(&program(), &hash));
    let rec = payment_of(&ledger, &addr);
    assert_eq!(rec.tx_signature, "5sig");
    assert_eq!(rec.tx_signature_hash, hash);
    assert_eq!(rec.payer_address, key(50));
    assert_eq!(rec.merchant_address, key(1));
    assert_eq!(rec.amount, 250);
    assert_eq!(rec.token_mint, Pubkey::default_key());
    assert_eq!(rec.token_mint.to_bytes(), [0u8; 32]);
    assert_eq!(rec.status, 1);
    assert_eq!(rec.created_at, T);
}

#[test]
fn payment_address_is_deterministic() {
    let hash = [7u8; 32];
    let first = payment_address(&program(), &hash).unwrap();
    for _ in 0..3 {
        assert_eq!(payment_address(&program(), &hash), Some(first));
    }
    assert_ne!(first.to_bytes(), hash);
    assert_ne!(first, program());
    assert_ne!(payment_address(&program(), &[8u8; 32]), Some(first));
    assert_ne!(payment_address(&key(201), &hash), Some(first));
}

#[test]
fn replayed_payment_is_rejected() {
    let mut ledger = Ledger::new(program());
    let m = register(&mut ledger, key(1), "Acme");
    let hash = [7u8; 32];
    let addr = pay(&mut ledger, m, "5sig", hash, 250, 0).unwrap();
    let e = pay(&mut ledger, m, "another", hash, 999, 2).unwrap_err();
    assert_eq!(e, SolpayError::Payment(PaymentTransactionErrors::PaymentTransactionAlreadyExists));
    assert_eq!(e.kind(), ErrorKind::DuplicateRecord);
    assert_eq!(payment_of(&ledger, &addr).amount, 250);
    assert_eq!(ledger.len(), 2);
}

#[test]
fn payment_details_are_validated() {
    let mut ledger = Ledger::new(program());
    let m = register(&mut ledger, key(1), "Acme");
    let invalid = SolpayError::Payment(PaymentTransactionErrors::InvalidPaymentTransactionDetails);
    assert_eq!(pay(&mut ledger, m, "sig", [1u8; 32], 0, 0), Err(invalid));
    assert_eq!(pay(&mut ledger, m, "sig", [2u8; 32], 5, 3), Err(invalid));
    assert_eq!(pay(&mut ledger, m, "", [3u8; 32], 5, 0), Err(invalid));
    assert_eq!(pay(&mut ledger, m, &"s".repeat(405), [4u8; 32], 5, 0), Err(invalid));
    assert_eq!(invalid.kind(), ErrorKind::ValidationFailed);
    assert!(pay(&mut ledger, m, &"s".repeat(404), [4u8; 32], 5, 2).is_ok());
    assert_eq!(ledger.len(), 2);
}

#[test]
fn payment_needs_a_merchant_record() {
    let mut ledger = Ledger::new(program());
    let m = register(&mut ledger, key(1), "Acme");
    let missing = pay(&mut ledger, key(99), "sig", [1u8; 32], 5, 0).unwrap_err();
    assert_eq!(missing, SolpayError::Merchant(MerchantRegistrationErrors::MerchantNotFound));
    assert_eq!(missing.kind(), ErrorKind::NotFound);
    let plan = create_plan(&mut ledger, m, key(1), "Pro", true);
    let wrong_kind = pay(&mut ledger, plan, "sig", [1u8; 32], 5, 0).unwrap_err();
    assert_eq!(wrong_kind, SolpayError::Merchant(MerchantRegistrationErrors::MerchantNotFound));
}

#[test]
fn plan_record_holds_the_details() {
    let mut ledger = Ledger::new(program());
    let m = register(&mut ledger, key(1), "Acme");
    let p = initialize_subscription_plan(
        &mut ledger,
        InitializeSubscriptionPlan { merchant_registration: m, merchant_address: key(1) },
        "Pro".to_string(),
        1000,
        key(9),
        30,
        vec![key(4)],
        false,
        T,
    )
    .unwrap();
    let rec = plan_of(&ledger, &p);
    assert_eq!(rec.plan_name, "Pro");
    assert_eq!(rec.plan_price, 1000);
    assert_eq!(rec.token_mint, Pubkey::default_key());
    assert_eq!(rec.billing_cycle, 30);
    assert!(!rec.is_active);
    assert_eq!(rec.created_at, T);
    assert_eq!(rec.merchant_address, key(1));
    assert_eq!(rec.supported_tokens, vec![key(4)]);
}

#[test]
fn plan_creation_needs_the_owner() {
    let mut ledger = Ledger::new(program());
    let m = register(&mut ledger, key(1), "Acme");
    let e = initialize_subscription_plan(
        &mut ledger,
        InitializeSubscriptionPlan { merchant_registration: m, merchant_address: key(2) },
        "Pro".to_string(),
        1000,
        key(9),
        30,
        vec![],
        true,
        T,
    )
    .unwrap_err();
    assert_eq!(e, SolpayError::Merchant(MerchantRegistrationErrors::UnauthorizedMerchantAccess));
    assert_eq!(e.kind(), ErrorKind::Unauthorized);
    assert_eq!(ledger.len(), 1);
}

#[test]
fn plan_details_are_validated() {
    let mut ledger = Ledger::new(program());
    let m = register(&mut ledger, key(1), "Acme");
    let attempt = |ledger: &mut Ledger, name: &str, price: u64, cycle: u8, n: usize| {
        let tokens: Vec<Pubkey> = (0..n).map(|i| key(i as u8)).collect();
        initialize_subscription_plan(
            ledger,
            InitializeSubscriptionPlan { merchant_registration: m, merchant_address: key(1) },
            name.to_string(),
            price,
            key(9),
            cycle,
            tokens,
            true,
            T,
        )
    };
    let invalid = SolpayError::Plan(SubscriptionPlanErrors::InvalidSubscriptionPlanDetails);
    assert_eq!(attempt(&mut ledger, "", 10, 30, 0), Err(invalid));
    assert_eq!(attempt(&mut ledger, "Pro", 0, 30, 0), Err(invalid));
    assert_eq!(attempt(&mut ledger, "Pro", 10, 30, 11), Err(invalid));
    let cycle = attempt(&mut ledger, "Pro", 10, 0, 0).unwrap_err();
    assert_eq!(cycle, SolpayError::Plan(SubscriptionPlanErrors::InvalidBillingCycleSpecified));
    assert_eq!(cycle.kind(), ErrorKind::ValidationFailed);
    assert_eq!(attempt(&mut ledger, &"n".repeat(261), 10, 30, 0), Err(invalid));
    let long_cycle = attempt(&mut ledger, &"n".repeat(100), 10, 0, 0).unwrap_err();
    assert_eq!(long_cycle, SolpayError::Plan(SubscriptionPlanErrors::InvalidBillingCycleSpecified));
    assert_eq!(ledger.len(), 1);
    let long = attempt(&mut ledger, &"n".repeat(260), 10, 30, 10).unwrap();
    assert_eq!(Some(long), plan_address(&program(), &"n".repeat(260), &key(1)));
    assert_eq!(plan_of(&ledger, &long).plan_name, "n".repeat(260));
    let medium = attempt(&mut ledger, &"n".repeat(33), 10, 30, 0).unwrap();
    assert_ne!(medium, long);
    assert_ne!(plan_address(&program(), &"n".repeat(34), &key(1)), Some(medium));
    let dup = attempt(&mut ledger, &"n".repeat(260), 20, 7, 0).unwrap_err();
    assert_eq!(dup, SolpayError::Plan(SubscriptionPlanErrors::SubscriptionPlanAlreadyExists));
    assert_eq!(dup.kind(), ErrorKind::DuplicateRecord);
}

#[test]
fn plan_creation_needs_a_merchant_record() {
    let mut ledger = Ledger::new(program());
    let e = initialize_subscription_plan(
        &mut ledger,
        InitializeSubscriptionPlan { merchant_registration: key(5), merchant_address: key(1) },
        "Pro".to_string(),
        1000,
        key(9),
        30,
        vec![],
        true,
        T,
    )
    .unwrap_err();
    assert_eq!(e, SolpayError::Merchant(MerchantRegistrationErrors::MerchantNotFound));
}

#[test]
fn plan_update_needs_the_owner() {
    let mut ledger = Ledger::new(program());
    let m = register(&mut ledger, key(1), "Acme");
    let p = create_plan(&mut ledger, m, key(1), "Pro", true);
    let e = update_subscription_plan(
        &mut ledger,
        UpdateSubscriptionPlan { subscription_plan: p, merchant_address: key(2) },
        false,
    )
    .unwrap_err();
    assert_eq!(e, SolpayError::Plan(SubscriptionPlanErrors::UnauthorizedSubscriptionPlanAccess));
    assert_eq!(e.kind(), ErrorKind::Unauthorized);
    assert!(plan_of(&ledger, &p).is_active);
    let missing = update_subscription_plan(
        &mut ledger,
        UpdateSubscriptionPlan { subscription_plan: key(3), merchant_address: key(1) },
        false,
    )
    .unwrap_err();
    assert_eq!(missing, SolpayError::Plan(SubscriptionPlanErrors::SubscriptionPlanNotFound));
    assert_eq!(missing.kind(), ErrorKind::NotFound);
}

#[test]
fn plan_update_is_idempotent() {
    let mut ledger = Ledger::new(program());
    let m = register(&mut ledger, key(1), "Acme");
    let p = create_plan(&mut ledger, m, key(1), "Pro", true);
    for _ in 0..2 {
        update_subscription_plan(
            &mut ledger,
            UpdateSubscriptionPlan { subscription_plan: p, merchant_address: key(1) },
            true,
        )
        .unwrap();
        let rec = plan_of(&ledger, &p);
        assert!(rec.is_active);
        assert_eq!(rec.plan_name, "Pro");
        assert_eq!(rec.plan_price, 1000);
    }
}

#[test]
fn enrollment_needs_an_active_plan() {
    let mut ledger = Ledger::new(program());
    let m = register(&mut ledger, key(1), "Acme");
    let missing = enroll(&mut ledger, key(9), key(2), T).unwrap_err();
    assert_eq!(missing, SolpayError::Plan(SubscriptionPlanErrors::SubscriptionPlanNotFound));
    let p = create_plan(&mut ledger, m, key(1), "Basic", false);
    let inactive = enroll(&mut ledger, p, key(2), T).unwrap_err();
    assert_eq!(inactive, SolpayError::Plan(SubscriptionPlanErrors::InactiveSubscriptionPlan));
    assert_eq!(inactive.kind(), ErrorKind::PreconditionFailed);
    assert_eq!(ledger.len(), 2);
}

#[test]
fn cancellation_is_one_shot() {
    let mut ledger = Ledger::new(program());
    let m = register(&mut ledger, key(1), "Acme");
    let p = create_plan(&mut ledger, m, key(1), "Pro", true);
    let sub = enroll(&mut ledger, p, key(2), T).unwrap();
    let wrong = initialize_cancel_subscription(
        &mut ledger,
        InitializeCancelSubscription { user_subscription: sub, subscriber: key(3) },
        T + 1,
    )
    .unwrap_err();
    assert_eq!(wrong, SolpayError::Subscription(UserSubscriptionErrors::UnauthorizedSubscriptionAccess));
    assert_eq!(wrong.kind(), ErrorKind::Unauthorized);
    assert!(subscription_of(&ledger, &sub).is_active);

    initialize_cancel_subscription(
        &mut ledger,
        InitializeCancelSubscription { user_subscription: sub, subscriber: key(2) },
        T + 2,
    )
    .unwrap();
    let second = initialize_cancel_subscription(
        &mut ledger,
        InitializeCancelSubscription { user_subscription: sub, subscriber: key(2) },
        T + 3,
    )
    .unwrap_err();
    assert_eq!(second, SolpayError::Subscription(UserSubscriptionErrors::SubscriptionAlreadyCanceled));
    assert_eq!(second.kind(), ErrorKind::PreconditionFailed);
    assert_eq!(subscription_of(&ledger, &sub).canceled_at, Some(T + 2));

    let again = enroll(&mut ledger, p, key(2), T + 4).unwrap_err();
    assert_eq!(again.kind(), ErrorKind::DuplicateRecord);

    let missing = initialize_cancel_subscription(
        &mut ledger,
        InitializeCancelSubscription { user_subscription: key(8), subscriber: key(2) },
        T,
    )
    .unwrap_err();
    assert_eq!(missing, SolpayError::Subscription(UserSubscriptionErrors::SubscriptionNotFound));
}

#[test]
fn addresses_depend_on_every_seed() {
    let a = merchant_address(&program(), &key(1)).unwrap();
    assert_eq!(merchant_address(&program(), &key(1)), Some(a));
    assert_ne!(a, key(1));
    assert_ne!(merchant_address(&program(), &key(2)), Some(a));
    let p = plan_address(&program(), &"Pro".to_string(), &key(1)).unwrap();
    assert_ne!(p, a);
    assert_ne!(plan_address(&program(), &"Max".to_string(), &key(1)), Some(p));
    assert_ne!(plan_address(&program(), &"Pro".to_string(), &key(2)), Some(p));
    let s = subscription_address(&program(), &p, &key(2)).unwrap();
    assert_ne!(s, p);
    assert_ne!(subscription_address(&program(), &p, &key(3)), Some(s));
}

#[test]
fn record_sizes() {
    assert_eq!(MerchantRegistration::LEN, 893);
    assert_eq!(PaymentTransaction::LEN, 561);
    assert_eq!(SubscriptionPlan::LEN, 678);
    assert_eq!(UserSubscription::LEN, 454);
}

#[test]
fn keys_compare_by_bytes() {
    let a = Pubkey::new_from_array([3u8; 32]);
    let mut bytes = [3u8; 32];
    assert!(a.same_as(&Pubkey::new_from_array(bytes)));
    bytes[31] = 4;
    assert!(!a.same_as(&Pubkey::new_from_array(bytes)));
    assert_ne!(a, Pubkey::new_from_array(bytes));
    let ledger = Ledger::new(a);
    assert_eq!(ledger.program_id(), a);
    assert_eq!(ledger.len(), 0);
    assert!(ledger.get(&a).is_none());
}
