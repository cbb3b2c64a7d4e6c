use vstd::prelude::*;
use vstd::slice::slice_to_vec;
use vstd::utf8::encode_utf8;
use crate::pubkey::Pubkey;

verus! {

/// The program-derived address for `seeds` under `program_id`, where one
/// exists.
pub uninterp spec fn program_address(seeds: Seq<Seq<u8>>, program_id: Seq<u8>) -> Option<Seq<u8>>;

/// The bytes of each seed.
pub open spec fn seeds_view(seeds: Seq<Vec<u8>>) -> Seq<Seq<u8>> {
    seeds.map_values(|s: Vec<u8>| s@)
}

/// The bytes of a key, if there is one.
pub open spec fn key_view(k: Option<Pubkey>) -> Option<Seq<u8>> {
    match k {
        Some(a) => Some(a@),
        None => None,
    }
}

/// Relies on `Pubkey::try_find_program_address` of anchor_lang (solana-address):
/// the address, where there is one, is a function of the seeds and the
/// program id alone.
#[verifier::external_body]
fn find_program_address(seeds: &Vec<Vec<u8>>, program_id: &Pubkey) -> (r: Option<Pubkey>)
    ensures
        key_view(r) == program_address(seeds_view(seeds@), program_id@),
{
    let slices: Vec<&[u8]> = seeds.iter().map(|s| s.as_slice()).collect();
    let id = anchor_lang::prelude::Pubkey::new_from_array(program_id.bytes);
    anchor_lang::prelude::Pubkey::try_find_program_address(&slices, &id)
        .map(|(a, _bump)| Pubkey { bytes: a.to_bytes() })
}

/// The SHA-256 digest of `bytes`.
pub uninterp spec fn sha256_of(bytes: Seq<u8>) -> Seq<u8>;

/// Relies on `solana_sha256_hasher::hash`: the 32-byte SHA-256 digest of the
/// bytes, a function of the bytes alone.
#[verifier::external_body]
fn sha256(bytes: &[u8]) -> (r: [u8; 32])
    ensures
        r@ == sha256_of(bytes@),
{
    solana_sha256_hasher::hash(bytes).to_bytes()
}

/// The UTF-8 bytes of a string.
pub open spec fn str_bytes(s: &str) -> Seq<u8> {
    encode_utf8(s@)
}

/// The seeds of a merchant's address: a tag and the owner.
pub open spec fn merchant_seeds(owner: Seq<u8>) -> Seq<Seq<u8>> {
    seq![str_bytes("merchant"), owner]
}

/// The seeds of a payment's address: a tag and the signature's hash.
pub open spec fn payment_seeds(signature_hash: Seq<u8>) -> Seq<Seq<u8>> {
    seq![str_bytes("payment"), signature_hash]
}

/// The seeds of a plan's address: a tag, the digest of the plan's name (a
/// name may be longer than a seed) and its merchant.
pub open spec fn plan_seeds(plan_name: Seq<char>, merchant: Seq<u8>) -> Seq<Seq<u8>> {
    seq![str_bytes("subscription"), sha256_of(encode_utf8(plan_name)), merchant]
}

/// The seeds of a subscription's address: a tag, the plan and the subscriber.
pub open spec fn subscription_seeds(plan: Seq<u8>, subscriber: Seq<u8>) -> Seq<Seq<u8>> {
    seq![str_bytes("user_subscription"), plan, subscriber]
}

/// The address of the merchant record owned by `owner`.
pub fn merchant_address(program_id: &Pubkey, owner: &Pubkey) -> (r: Option<Pubkey>)
    ensures
        key_view(r) == program_address(merchant_seeds(owner@), program_id@),
{
    let seeds = vec![slice_to_vec("merchant".as_bytes()), slice_to_vec(owner.bytes.as_slice())];
    assert(seeds_view(seeds@) =~= merchant_seeds(owner@));
    find_program_address(&seeds, program_id)
}

/// The address of the payment record for a transaction whose signature
/// hashes to `signature_hash`.
pub fn payment_address(program_id: &Pubkey, signature_hash: &[u8; 32]) -> (r: Option<Pubkey>)
    ensures
        key_view(r) == program_address(payment_seeds(signature_hash@), program_id@),
{
    let seeds = vec![slice_to_vec("payment".as_bytes()), slice_to_vec(signature_hash.as_slice())];
    assert(seeds_view(seeds@) =~= payment_seeds(signature_hash@));
    find_program_address(&seeds, program_id)
}

/// The address of the plan named `plan_name` of the merchant owned by
/// `merchant`.
pub fn plan_address(program_id: &Pubkey, plan_name: &String, merchant: &Pubkey) -> (r: Option<Pubkey>)
    ensures
        key_view(r) == program_address(plan_seeds(plan_name@, merchant@), program_id@),
{
    let digest = sha256(plan_name.as_str().as_bytes());
    let seeds = vec![
        slice_to_vec("subscription".as_bytes()),
        slice_to_vec(digest.as_slice()),
        slice_to_vec(merchant.bytes.as_slice()),
    ];
    assert(seeds_view(seeds@) =~= plan_seeds(plan_name@, merchant@));
    find_program_address(&seeds, program_id)
}

/// The address of the enrollment of `subscriber` in the plan at `plan`.
pub fn subscription_address(program_id: &Pubkey, plan: &Pubkey, subscriber: &Pubkey) -> (r: Option<Pubkey>)
    ensures
        key_view(r) == program_address(subscription_seeds(plan@, subscriber@), program_id@),
{
    let seeds = vec![
        slice_to_vec("user_subscription".as_bytes()),
        slice_to_vec(plan.bytes.as_slice()),
        slice_to_vec(subscriber.bytes.as_slice()),
    ];
    assert(seeds_view(seeds@) =~= subscription_seeds(plan@, subscriber@));
    find_program_address(&seeds, program_id)
}

} // verus!
