use vstd::prelude::*;
use crate::addressing::{merchant_seeds, payment_seeds, plan_seeds, program_address, subscription_seeds};
use crate::pubkey::Pubkey;
use crate::state::{MerchantRegistration, PaymentTransaction, Record, SubscriptionPlan, UserSubscription};

verus! {

/// The merchant record stored at `addr`, if that address holds one.
pub open spec fn merchant_at(m: Map<Seq<u8>, Record>, addr: Seq<u8>) -> Option<MerchantRegistration> {
    if m.contains_key(addr) {
        match m[addr] {
            Record::Merchant(x) => Some(x),
            _ => None,
        }
    } else {
        None
    }
}

/// The payment record stored at `addr`, if that address holds one.
pub open spec fn payment_at(m: Map<Seq<u8>, Record>, addr: Seq<u8>) -> Option<PaymentTransaction> {
    if m.contains_key(addr) {
        match m[addr] {
            Record::Payment(x) => Some(x),
            _ => None,
        }
    } else {
        None
    }
}

/// The plan record stored at `addr`, if that address holds one.
pub open spec fn plan_at(m: Map<Seq<u8>, Record>, addr: Seq<u8>) -> Option<SubscriptionPlan> {
    if m.contains_key(addr) {
        match m[addr] {
            Record::Plan(x) => Some(x),
            _ => None,
        }
    } else {
        None
    }
}

/// The subscription record stored at `addr`, if that address holds one.
pub open spec fn subscription_at(m: Map<Seq<u8>, Record>, addr: Seq<u8>) -> Option<UserSubscription> {
    if m.contains_key(addr) {
        match m[addr] {
            Record::Subscription(x) => Some(x),
            _ => None,
        }
    } else {
        None
    }
}

/// `owner` has an active merchant record at the address derived from it.
pub open spec fn merchant_registered(m: Map<Seq<u8>, Record>, program_id: Seq<u8>, owner: Seq<u8>) -> bool {
    match program_address(merchant_seeds(owner), program_id) {
        Some(a) => match merchant_at(m, a) {
            Some(x) => x.merchant_address@ == owner && x.is_active,
            None => false,
        },
        None => false,
    }
}

/// What the record at `addr` must satisfy with respect to the other records.
pub open spec fn record_consistent(m: Map<Seq<u8>, Record>, program_id: Seq<u8>, addr: Seq<u8>, r: Record) -> bool {
    match r {
        Record::Merchant(x) => program_address(merchant_seeds(x.merchant_address@), program_id) == Some(addr)
            && x.is_active,
        Record::Payment(p) => program_address(payment_seeds(p.tx_signature_hash@), program_id) == Some(addr)
            && merchant_registered(m, program_id, p.merchant_address@),
        Record::Plan(p) => program_address(plan_seeds(p.plan_name@, p.merchant_address@), program_id) == Some(addr)
            && merchant_registered(m, program_id, p.merchant_address@),
        Record::Subscription(s) => program_address(subscription_seeds(s.subscription_plan@, s.subscriber@), program_id)
            == Some(addr) && match plan_at(m, s.subscription_plan@) {
            Some(p) => p.merchant_address@ == s.merchant_address@,
            None => false,
        },
    }
}

/// The integrity of a set of records: every record sits at the address
/// derived from its own seeds, every payment and plan names an active
/// registered merchant, and every subscription names an existing plan of the
/// same merchant.
pub open spec fn ledger_consistent(m: Map<Seq<u8>, Record>, program_id: Seq<u8>) -> bool {
    forall|a: Seq<u8>| #[trigger] m.contains_key(a) ==> record_consistent(m, program_id, a, m[a])
}

/// Adding a record at a free address keeps the records consistent, when the
/// new record is consistent with those already there.
pub proof fn lemma_insert_fresh_consistent(m: Map<Seq<u8>, Record>, program_id: Seq<u8>, a: Seq<u8>, r: Record)
    requires
        ledger_consistent(m, program_id),
        !m.contains_key(a),
        record_consistent(m, program_id, a, r),
    ensures
        ledger_consistent(m.insert(a, r), program_id),
{
    let m2 = m.insert(a, r);
    assert forall|k: Seq<u8>| #[trigger] m2.contains_key(k) implies record_consistent(m2, program_id, k, m2[k]) by {
        let rk = m2[k];
        if k != a {
            assert(record_consistent(m, program_id, k, m[k]));
        }
        match rk {
            Record::Payment(p) => {
                let o = p.merchant_address@;
                let ma = program_address(merchant_seeds(o), program_id);
                if let Some(x) = ma {
                    assert(m.contains_key(x));
                }
            },
            Record::Plan(p) => {
                let o = p.merchant_address@;
                let ma = program_address(merchant_seeds(o), program_id);
                if let Some(x) = ma {
                    assert(m.contains_key(x));
                }
            },
            Record::Subscription(s) => {
                assert(m.contains_key(s.subscription_plan@));
            },
            Record::Merchant(_) => {},
        }
    }
}

/// Two records of the same kind, with the same seeds and the same references.
pub open spec fn same_references(r1: Record, r2: Record) -> bool {
    match (r1, r2) {
        (Record::Plan(p1), Record::Plan(p2)) => p1.merchant_address == p2.merchant_address
            && p1.plan_name == p2.plan_name,
        (Record::Subscription(s1), Record::Subscription(s2)) => s1.subscription_plan == s2.subscription_plan
            && s1.merchant_address == s2.merchant_address && s1.subscriber == s2.subscriber,
        _ => false,
    }
}

/// Replacing a plan or a subscription by one with the same references keeps
/// the records consistent.
pub proof fn lemma_replace_consistent(m: Map<Seq<u8>, Record>, program_id: Seq<u8>, a: Seq<u8>, r: Record)
    requires
        ledger_consistent(m, program_id),
        m.contains_key(a),
        same_references(m[a], r),
    ensures
        ledger_consistent(m.insert(a, r), program_id),
{
    let m2 = m.insert(a, r);
    assert forall|k: Seq<u8>| #[trigger] m2.contains_key(k) implies record_consistent(m2, program_id, k, m2[k]) by {
        assert(record_consistent(m, program_id, k, m[k]));
        match m2[k] {
            Record::Payment(p) => {
                let ma = program_address(merchant_seeds(p.merchant_address@), program_id);
                if let Some(x) = ma {
                    assert(m.contains_key(x));
                }
            },
            Record::Plan(p) => {
                let ma = program_address(merchant_seeds(p.merchant_address@), program_id);
                if let Some(x) = ma {
                    assert(m.contains_key(x));
                }
            },
            Record::Subscription(s) => {
                assert(m.contains_key(s.subscription_plan@));
            },
            Record::Merchant(_) => {},
        }
    }
}

/// All records of one program, each at its address.
pub struct Ledger {
    program_id: Pubkey,
    accounts: Vec<(Pubkey, Record)>,
    records: Ghost<Map<Seq<u8>, Record>>,
}

impl View for Ledger {
    type V = Map<Seq<u8>, Record>;

    closed spec fn view(&self) -> Map<Seq<u8>, Record> {
        self.records@
    }
}

impl Ledger {
    /// The id of the program the records belong to.
    pub closed spec fn program(&self) -> Seq<u8> {
        self.program_id@
    }

    /// The stored pairs and the map of records agree, with no address twice.
    pub closed spec fn store_wf(&self) -> bool {
        &&& forall|i: int, j: int|
            0 <= i < j < self.accounts@.len() ==> self.accounts@[i].0@ != self.accounts@[j].0@
        &&& forall|i: int|
            0 <= i < self.accounts@.len() ==> self.records@.contains_key(#[trigger] self.accounts@[i].0@)
                && self.records@[self.accounts@[i].0@] == self.accounts@[i].1
        &&& forall|k: Seq<u8>|
            #[trigger] self.records@.contains_key(k) ==> exists|i: int|
                0 <= i < self.accounts@.len() && self.accounts@[i].0@ == k
    }

    /// The store as it is while the pair at one index of `pre` is taken out.
    closed spec fn store_wf_except(&self, pre: Seq<(Pubkey, Record)>) -> bool {
        &&& forall|i: int, j: int| 0 <= i < j < pre.len() ==> pre[i].0@ != pre[j].0@
        &&& forall|i: int|
            0 <= i < pre.len() ==> self.records@.contains_key(#[trigger] pre[i].0@)
                && self.records@[pre[i].0@] == pre[i].1
        &&& forall|k: Seq<u8>|
            #[trigger] self.records@.contains_key(k) ==> exists|i: int| 0 <= i < pre.len() && pre[i].0@ == k
    }

    /// The store is sound and its records are consistent.
    pub open spec fn wf(&self) -> bool {
        self.store_wf() && ledger_consistent(self@, self.program())
    }

    /// An empty ledger for the program `program_id`.
    pub fn new(program_id: Pubkey) -> (r: Ledger)
        ensures
            r.wf(),
            r@ == Map::<Seq<u8>, Record>::empty(),
            r.program() == program_id@,
    {
        Ledger { program_id, accounts: Vec::new(), records: Ghost(Map::empty()) }
    }

    /// The id of the program the records belong to.
    pub fn program_id(&self) -> (r: Pubkey)
        ensures
            r@ == self.program(),
    {
        self.program_id
    }

    /// The number of stored records.
    pub fn len(&self) -> (r: usize)
        requires
            self.wf(),
        ensures
            r as int == self@.dom().len(),
    {
        proof { self.lemma_dom_len(); }
        self.accounts.len()
    }

    proof fn lemma_dom_len(&self)
        requires
            self.store_wf(),
        ensures
            self@.dom().len() == self.accounts@.len(),
            self@.dom().finite(),
    {
        let keys = self.accounts@.map_values(|p: (Pubkey, Record)| p.0@);
        assert(keys.no_duplicates()) by {
            assert forall|i: int, j: int| 0 <= i < keys.len() && 0 <= j < keys.len() && i != j
                implies keys[i] != keys[j] by {
                assert(keys[i] == self.accounts@[i].0@ && keys[j] == self.accounts@[j].0@);
            }
        }
        assert(self@.dom() =~= keys.to_set()) by {
            assert forall|k: Seq<u8>| self@.dom().contains(k) implies keys.to_set().contains(k) by {
                let i = choose|i: int| 0 <= i < self.accounts@.len() && self.accounts@[i].0@ == k;
                assert(keys[i] == k);
            }
            assert forall|k: Seq<u8>| keys.to_set().contains(k) implies self@.dom().contains(k) by {
                let i = choose|i: int| 0 <= i < keys.len() && keys[i] == k;
                assert(self.records@.contains_key(self.accounts@[i].0@));
            }
        }
        keys.unique_seq_to_set();
    }

    /// The index of the pair stored under `addr`.
    fn find(&self, addr: &Pubkey) -> (r: Option<usize>)
        requires
            self.store_wf(),
        ensures
            match r {
                Some(i) => i < self.accounts@.len() && self.accounts@[i as int].0@ == addr@,
                None => !self@.contains_key(addr@),
            },
    {
        let mut i: usize = 0;
        while i < self.accounts.len()
            invariant
                self.store_wf(),
                i <= self.accounts@.len(),
                forall|j: int| 0 <= j < i ==> self.accounts@[j].0@ != addr@,
            decreases self.accounts@.len() - i,
        {
            if self.accounts[i].0.same_as(addr) {
                return Some(i);
            }
            i = i + 1;
        }
        None
    }

    /// Whether `addr` holds a record of any kind.
    pub fn contains(&self, addr: &Pubkey) -> (r: bool)
        requires
            self.wf(),
        ensures
            r == self@.contains_key(addr@),
    {
        match self.find(addr) {
            Some(i) => true,
            None => false,
        }
    }

    /// The record stored at `addr`.
    pub fn get(&self, addr: &Pubkey) -> (r: Option<&Record>)
        requires
            self.wf(),
        ensures
            match r {
                Some(x) => self@.contains_key(addr@) && *x == self@[addr@],
                None => !self@.contains_key(addr@),
            },
    {
        match self.find(addr) {
            Some(i) => Some(&self.accounts[i].1),
            None => None,
        }
    }

    /// Stores `rec` at `addr`, which holds nothing yet.
    pub(crate) fn insert_new(&mut self, addr: Pubkey, rec: Record)
        requires
            old(self).wf(),
            !old(self)@.contains_key(addr@),
            record_consistent(old(self)@, old(self).program(), addr@, rec),
        ensures
            final(self).wf(),
            final(self)@ == old(self)@.insert(addr@, rec),
            final(self).program() == old(self).program(),
    {
        let ghost g = rec;
        let ghost pre = self.accounts@;
        proof {
            lemma_insert_fresh_consistent(self.records@, self.program(), addr@, g);
        }
        self.accounts.push((addr, rec));
        proof {
            self.records = Ghost(self.records@.insert(addr@, g));
            assert(self.accounts@ == pre.push((addr, g)));
            assert forall|k: Seq<u8>| #[trigger] self.records@.contains_key(k) implies exists|i: int|
                0 <= i < self.accounts@.len() && self.accounts@[i].0@ == k by {
                if k == addr@ {
                    assert(self.accounts@[pre.len() as int].0@ == k);
                } else {
                    let i = choose|i: int| 0 <= i < pre.len() && pre[i].0@ == k;
                    assert(self.accounts@[i].0@ == k);
                }
            }
        }
    }

    /// Puts `rec` back at index `i`, where the record at `addr` was taken out.
    fn put_back(&mut self, i: usize, key: Pubkey, rec: Record, Ghost(pre): Ghost<Seq<(Pubkey, Record)>>)
        requires
            old(self).store_wf_except(pre),
            i < pre.len(),
            pre[i as int].0 == key,
            old(self).accounts@ == pre.remove(i as int),
            ledger_consistent(old(self)@, old(self).program()),
            old(self)@.contains_key(key@),
            same_references(old(self)@[key@], rec),
        ensures
            final(self).wf(),
            final(self)@ == old(self)@.insert(key@, rec),
            final(self).program() == old(self).program(),
    {
        let ghost g = rec;
        proof {
            lemma_replace_consistent(self.records@, self.program(), key@, g);
        }
        self.accounts.insert(i, (key, rec));
        proof {
            assert(self.accounts@ =~= pre.update(i as int, (key, g)));
            self.records = Ghost(self.records@.insert(key@, g));
            assert forall|k: Seq<u8>| #[trigger] self.records@.contains_key(k) implies exists|j: int|
                0 <= j < self.accounts@.len() && self.accounts@[j].0@ == k by {
                let j = choose|j: int| 0 <= j < pre.len() && pre[j].0@ == k;
                assert(self.accounts@[j].0@ == k);
            }
        }
    }

    /// Sets whether the plan at `addr` is active; nothing else changes.
    pub(crate) fn set_plan_active(&mut self, addr: &Pubkey, is_active: bool)
        requires
            old(self).wf(),
            plan_at(old(self)@, addr@) is Some,
        ensures
            final(self).wf(),
            final(self).program() == old(self).program(),
            final(self)@ == old(self)@.insert(
                addr@,
                Record::Plan((SubscriptionPlan { is_active, ..plan_at(old(self)@, addr@)->Some_0 })),
            ),
    {
        match self.find(addr) {
            Some(i) => {
                let ghost pre = self.accounts@;
                let (key, rec) = self.accounts.remove(i);
                let updated = match rec {
                    Record::Plan(p) => Record::Plan(SubscriptionPlan { is_active, ..p }),
                    other => other,
                };
                self.put_back(i, key, updated, Ghost(pre));
            },
            None => {},
        }
    }

    /// Marks the subscription at `addr` inactive, canceled at `now`; nothing
    /// else changes.
    pub(crate) fn cancel_subscription(&mut self, addr: &Pubkey, now: i64)
        requires
            old(self).wf(),
            subscription_at(old(self)@, addr@) is Some,
        ensures
            final(self).wf(),
            final(self).program() == old(self).program(),
            final(self)@ == old(self)@.insert(
                addr@,
                Record::Subscription((UserSubscription {
                    is_active: false,
                    canceled_at: Some(now),
                    ..subscription_at(old(self)@, addr@)->Some_0
                })),
            ),
    {
        match self.find(addr) {
            Some(i) => {
                let ghost pre = self.accounts@;
                let (key, rec) = self.accounts.remove(i);
                let updated = match rec {
                    Record::Subscription(s) => Record::Subscription(
                        UserSubscription { is_active: false, canceled_at: Some(now), ..s },
                    ),
                    other => other,
                };
                self.put_back(i, key, updated, Ghost(pre));
            },
            None => {},
        }
    }

    /// The merchant record stored at `addr`, if that address holds one.
    pub fn get_merchant(&self, addr: &Pubkey) -> (r: Option<&MerchantRegistration>)
        requires
            self.wf(),
        ensures
            match r {
                Some(x) => merchant_at(self@, addr@) == Some(*x),
                None => merchant_at(self@, addr@) is None,
            },
    {
        match self.get(addr) {
            Some(Record::Merchant(x)) => Some(x),
            _ => None,
        }
    }

    /// The payment record stored at `addr`, if that address holds one.
    pub fn get_payment(&self, addr: &Pubkey) -> (r: Option<&PaymentTransaction>)
        requires
            self.wf(),
        ensures
            match r {
                Some(x) => payment_at(self@, addr@) == Some(*x),
                None => payment_at(self@, addr@) is None,
            },
    {
        match self.get(addr) {
            Some(Record::Payment(x)) => Some(x),
            _ => None,
        }
    }

    /// The plan record stored at `addr`, if that address holds one.
    pub fn get_plan(&self, addr: &Pubkey) -> (r: Option<&SubscriptionPlan>)
        requires
            self.wf(),
        ensures
            match r {
                Some(x) => plan_at(self@, addr@) == Some(*x),
                None => plan_at(self@, addr@) is None,
            },
    {
        match self.get(addr) {
            Some(Record::Plan(x)) => Some(x),
            _ => None,
        }
    }

    /// The subscription record stored at `addr`, if that address holds one.
    pub fn get_subscription(&self, addr: &Pubkey) -> (r: Option<&UserSubscription>)
        requires
            self.wf(),
        ensures
            match r {
                Some(x) => subscription_at(self@, addr@) == Some(*x),
                None => subscription_at(self@, addr@) is None,
            },
    {
        match self.get(addr) {
            Some(Record::Subscription(x)) => Some(x),
            _ => None,
        }
    }
}

} // verus!
