use vstd::prelude::*;
use crate::pubkey::Pubkey;

verus! {

/// A registered merchant, stored at the address derived from its owner.
#[derive(Clone, Debug)]
pub struct MerchantRegistration {
    pub merchant_name: String,
    pub merchant_address: Pubkey,
    pub is_active: bool,
    pub created_at: i64,
    pub merchant_weburl: String,
    pub supported_tokens: Vec<Pubkey>,
}

impl MerchantRegistration {
    pub const MAX_NAME_LENGTH: usize = 256;
    pub const MAX_WEBURL_LENGTH: usize = 256;
    pub const MAX_SUPPORTED_TOKENS: usize = 10;
    /// Bytes reserved for a stored merchant record, its 8-byte kind tag included.
    pub const LEN: usize = 8 + 4 + 256 + 32 + 1 + 8 + 4 + 256 + 4 + 32 * 10;
}

/// A recorded payment, stored at the address derived from its signature hash.
#[derive(Clone, Debug)]
pub struct PaymentTransaction {
    pub tx_signature: String,
    pub tx_signature_hash: [u8; 32],
    pub payer_address: Pubkey,
    pub merchant_address: Pubkey,
    pub amount: u64,
    pub token_mint: Pubkey,
    pub status: u8,
    pub created_at: i64,
}

impl PaymentTransaction {
    pub const MAX_SIGNATURE_LENGTH: usize = 404;
    /// The largest valid status: 0 pending, 1 confirmed, 2 failed.
    pub const MAX_STATUS: u8 = 2;
    /// Bytes reserved for a stored payment record, its 8-byte kind tag and
    /// its 32-byte signature hash included.
    pub const LEN: usize = 8 + 4 + 404 + 32 + 32 + 32 + 8 + 32 + 1 + 8;
}

/// A merchant's subscription plan, stored at the address derived from its
/// name and its merchant.
#[derive(Clone, Debug)]
pub struct SubscriptionPlan {
    pub plan_name: String,
    pub plan_price: u64,
    pub token_mint: Pubkey,
    pub billing_cycle: u8,
    pub is_active: bool,
    pub created_at: i64,
    pub merchant_address: Pubkey,
    pub supported_tokens: Vec<Pubkey>,
}

impl SubscriptionPlan {
    pub const MAX_PLAN_NAME_LENGTH: usize = 260;
    pub const MAX_SUPPORTED_TOKENS: usize = 10;
    /// Bytes reserved for a stored plan record, its 8-byte kind tag included.
    pub const LEN: usize = 8 + 4 + 260 + 8 + 32 + 1 + 1 + 8 + 32 + 4 + 32 * 10;
}

/// A subscriber's enrollment in a plan, stored at the address derived from
/// the plan and the subscriber.
#[derive(Clone, Debug)]
pub struct UserSubscription {
    pub subscriber: Pubkey,
    pub subscription_plan: Pubkey,
    pub start_date: i64,
    pub next_billing_date: i64,
    pub is_active: bool,
    pub merchant_address: Pubkey,
    pub supported_tokens: Vec<Pubkey>,
    pub canceled_at: Option<i64>,
}

impl UserSubscription {
    pub const MAX_SUPPORTED_TOKENS: usize = 10;
    /// Bytes reserved for a stored subscription record, its 8-byte kind tag
    /// included.
    pub const LEN: usize = 8 + 32 + 32 + 8 + 8 + 1 + 32 + 4 + 32 * 10 + 9;
}

/// A record of any kind, as it sits at its address.
#[derive(Clone, Debug)]
pub enum Record {
    Merchant(MerchantRegistration),
    Payment(PaymentTransaction),
    Plan(SubscriptionPlan),
    Subscription(UserSubscription),
}

} // verus!
