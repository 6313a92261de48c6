use vstd::prelude::*;

use crate::account::AccountId;
use crate::eligibility::{eligible, is_eligible, tags_contain};
use crate::table::{Table, TableKey};
use crate::types::{sat_add, Balance, Error, PayoutEvent, Pebble, PebbleView, ViewStats};

verus! {

broadcast use vstd::array::group_array_axioms;

/// The faucet's whole state, as mathematics.
pub struct FaucetView {
    /// The record of each account that has claimed.
    pub records: Map<AccountId, PebbleView>,
    /// For each reported address, the accounts that claimed from it, in order.
    pub tags: Map<Seq<u8>, Seq<AccountId>>,
    pub root: AccountId,
    pub rootset: bool,
    pub eligible_payout: Balance,
    pub get_payout: Balance,
    pub limit_timer: u64,
    pub limit_ip_total: u128,
    pub total_pebble_accounts: u128,
    pub total_payouts: Balance,
}

impl FaucetView {
    /// Block time of the account's last claim, 0 if it has none.
    pub open spec fn last_claim(self, a: AccountId) -> u64 {
        if self.records.contains_key(a) {
            self.records[a].timestamp
        } else {
            0
        }
    }

    /// What the account has been paid by claims so far, 0 if it has no record.
    pub open spec fn paid(self, a: AccountId) -> u128 {
        if self.records.contains_key(a) {
            self.records[a].payout
        } else {
            0
        }
    }

    /// The accounts that have claimed from `ip`, empty for a new address.
    pub open spec fn tag_set(self, ip: Seq<u8>) -> Seq<AccountId> {
        if self.tags.contains_key(ip) {
            self.tags[ip]
        } else {
            Seq::empty()
        }
    }

    /// Whether `caller`, reporting `ip` at time `now`, may be paid.
    pub open spec fn can_claim(self, caller: AccountId, ip: Seq<u8>, now: u64) -> bool {
        eligible(
            self.tag_set(ip),
            self.limit_ip_total,
            caller,
            now,
            self.last_claim(caller),
            self.paid(caller),
            self.limit_timer,
        )
    }

    /// The state after a successful claim by `caller` from `ip` at `now`.
    pub open spec fn claimed(self, caller: AccountId, ip: Seq<u8>, now: u64) -> FaucetView {
        FaucetView {
            records: self.records.insert(
                caller,
                PebbleView {
                    timestamp: now,
                    ip_address: ip,
                    pebble: caller,
                    payout: sat_add(self.paid(caller), self.get_payout),
                },
            ),
            tags: if self.tag_set(ip).contains(caller) {
                self.tags
            } else {
                self.tags.insert(ip, self.tag_set(ip).push(caller))
            },
            total_pebble_accounts: if self.records.contains_key(caller) {
                self.total_pebble_accounts
            } else {
                sat_add(self.total_pebble_accounts, 1)
            },
            total_payouts: sat_add(self.total_payouts, self.get_payout),
            ..self
        }
    }

    /// Every record of `self` is still in `later`, with a cumulative payout
    /// at least as large.
    pub open spec fn payouts_kept_in(self, later: FaucetView) -> bool {
        forall|a: AccountId|
            #[trigger] self.records.contains_key(a) ==> later.records.contains_key(a)
                && self.records[a].payout <= later.records[a].payout
    }

    /// No reported address lists an account twice.
    pub open spec fn tag_sets_distinct(self) -> bool {
        forall|ip: Seq<u8>| #[trigger] self.tags.contains_key(ip) ==> self.tags[ip].no_duplicates()
    }

    /// Each record belongs to the account it is filed under.
    pub open spec fn records_filed(self) -> bool {
        forall|a: AccountId| #[trigger] self.records.contains_key(a) ==> self.records[a].pebble == a
    }
}

/// The faucet: settings, running totals, the record of each account that
/// has claimed, and the accounts seen at each reported address.
pub struct ContractStorage {
    user_map: Table<AccountId, Pebble>,
    ipaddress_count: Table<Vec<u8>, Vec<AccountId>>,
    root: AccountId,
    rootset: bool,
    eligible_payout: Balance,
    get_payout: Balance,
    limit_timer: u64,
    limit_ip_total: u128,
    total_pebble_accounts: u128,
    total_payouts: Balance,
}

impl View for ContractStorage {
    type V = FaucetView;

    closed spec fn view(&self) -> FaucetView {
        FaucetView {
            records: self.user_map.view(),
            tags: self.ipaddress_count.view(),
            root: self.root,
            rootset: self.rootset,
            eligible_payout: self.eligible_payout,
            get_payout: self.get_payout,
            limit_timer: self.limit_timer,
            limit_ip_total: self.limit_ip_total,
            total_pebble_accounts: self.total_pebble_accounts,
            total_payouts: self.total_payouts,
        }
    }
}

/// A copy of `v`.
fn copy_accounts(v: &Vec<AccountId>) -> (r: Vec<AccountId>)
    ensures
        r@ == v@,
{
    let mut r: Vec<AccountId> = Vec::new();
    let mut i: usize = 0;
    while i < v.len()
        invariant
            0 <= i <= v@.len(),
            r@ == v@.subrange(0, i as int),
        decreases v@.len() - i,
    {
        r.push(v[i]);
        i = i + 1;
        assert(r@ =~= v@.subrange(0, i as int));
    }
    assert(v@.subrange(0, v@.len() as int) =~= v@);
    r
}

/// A copy of `v`.
fn copy_bytes(v: &Vec<u8>) -> (r: Vec<u8>)
    ensures
        r@ == v@,
{
    let mut r: Vec<u8> = Vec::new();
    let mut i: usize = 0;
    while i < v.len()
        invariant
            0 <= i <= v@.len(),
            r@ == v@.subrange(0, i as int),
        decreases v@.len() - i,
    {
        r.push(v[i]);
        i = i + 1;
        assert(r@ =~= v@.subrange(0, i as int));
    }
    assert(v@.subrange(0, v@.len() as int) =~= v@);
    r
}

impl ContractStorage {
    /// The internal invariant: both maps are well formed, records are filed
    /// under their own account and no address lists an account twice.
    pub closed spec fn wf(&self) -> bool {
        &&& self.user_map.wf()
        &&& self.ipaddress_count.wf()
        &&& self@.records_filed()
        &&& self@.tag_sets_distinct()
    }

    /// A faucet with no admin, all settings and totals 0 and no records.
    pub fn new() -> (r: Self)
        ensures
            r.wf(),
            r@.records == Map::<AccountId, PebbleView>::empty(),
            r@.tags == Map::<Seq<u8>, Seq<AccountId>>::empty(),
            !r@.rootset,
            forall|i: int| 0 <= i < 32 ==> r@.root.bytes[i] == 0,
            r@.eligible_payout == 0,
            r@.get_payout == 0,
            r@.limit_timer == 0,
            r@.limit_ip_total == 0,
            r@.total_pebble_accounts == 0,
            r@.total_payouts == 0,
    {
        let r = ContractStorage {
            user_map: Table::new(),
            ipaddress_count: Table::new(),
            root: AccountId::from_bytes([0u8; 32]),
            rootset: false,
            eligible_payout: 0,
            get_payout: 0,
            limit_timer: 0,
            limit_ip_total: 0,
            total_pebble_accounts: 0,
            total_payouts: 0,
        };
        r
    }

    /// Makes `new_root` the admin. Anyone may do so while no admin has been
    /// set; after that only the admin may, which lets the admin hand over.
    pub fn set_root_account(
        &mut self,
        caller: AccountId,
        new_root: AccountId,
    ) -> (r: Result<(), Error>)
        requires
            old(self).wf(),
        ensures
            final(self).wf(),
            !old(self)@.rootset || old(self)@.root == caller ==> r == Ok::<(), Error>(())
                && final(self)@ == (FaucetView { root: new_root, rootset: true, ..old(self)@ }),
            old(self)@.rootset && old(self)@.root != caller ==> r == Err::<(), Error>(
                Error::PermissionDenied,
            ) && final(self)@ == old(self)@,
            old(self)@.payouts_kept_in(final(self)@),
    {
        if !self.rootset || self.root.same_key(&caller) {
            self.root = new_root;
            self.rootset = true;
            Ok(())
        } else {
            Err(Error::PermissionDenied)
        }
    }

    /// Lets the admin replace the payouts and limits. Any value is accepted.
    /// Funds attached to the call are the ledger's concern.
    pub fn set_payouts_and_fund(
        &mut self,
        caller: AccountId,
        new_eligible_payout: Balance,
        new_get_payout: Balance,
        new_limit_timer: u64,
        new_limit_ip_total: u128,
    ) -> (r: Result<(), Error>)
        requires
            old(self).wf(),
        ensures
            final(self).wf(),
            old(self)@.root == caller ==> r == Ok::<(), Error>(()) && final(self)@ == (FaucetView {
                eligible_payout: new_eligible_payout,
                get_payout: new_get_payout,
                limit_timer: new_limit_timer,
                limit_ip_total: new_limit_ip_total,
                ..old(self)@
            }),
            old(self)@.root != caller ==> r == Err::<(), Error>(Error::PermissionDenied)
                && final(self)@ == old(self)@,
            old(self)@.payouts_kept_in(final(self)@),
    {
        if self.root.same_key(&caller) {
            self.eligible_payout = new_eligible_payout;
            self.get_payout = new_get_payout;
            self.limit_timer = new_limit_timer;
            self.limit_ip_total = new_limit_ip_total;
            Ok(())
        } else {
            Err(Error::PermissionDenied)
        }
    }

    /// Whether `caller`, reporting `ip` at time `now`, may be paid now.
    pub fn can_claim(&self, caller: AccountId, ip: &Vec<u8>, now: u64) -> (r: bool)
        requires
            self.wf(),
        ensures
            r == self@.can_claim(caller, ip@, now),
    {
        let (last_claim, paid) = match self.user_map.get(&caller) {
            Some(p) => (p.timestamp, p.payout),
            None => (0u64, 0u128),
        };
        match self.ipaddress_count.get(ip) {
            Some(tags) => is_eligible(
                tags,
                self.limit_ip_total,
                caller,
                now,
                last_claim,
                paid,
                self.limit_timer,
            ),
            None => {
                let none: Vec<AccountId> = Vec::new();
                assert(none@ =~= Seq::<AccountId>::empty());
                is_eligible(
                    &none,
                    self.limit_ip_total,
                    caller,
                    now,
                    last_claim,
                    paid,
                    self.limit_timer,
                )
            },
        }
    }

    /// The transfer that a claim by `caller` owes now: the claim payout, when
    /// the caller may be paid and the faucet holds strictly more than it.
    pub fn coin_transfer(&self, caller: AccountId, ip: &Vec<u8>, now: u64, balance: Balance) -> (r:
        Option<Balance>)
        requires
            self.wf(),
        ensures
            r == (if self@.can_claim(caller, ip@, now) && balance > self@.get_payout {
                Some(self@.get_payout)
            } else {
                None::<Balance>
            }),
    {
        if self.can_claim(caller, ip, now) && balance > self.get_payout {
            Some(self.get_payout)
        } else {
            None
        }
    }

    /// The transfer that an eligibility check by `caller` owes now: the
    /// eligible payout, when the caller may be paid and the faucet holds
    /// strictly more than it.
    pub fn eligibility_transfer(
        &self,
        caller: AccountId,
        ip: &Vec<u8>,
        now: u64,
        balance: Balance,
    ) -> (r: Option<Balance>)
        requires
            self.wf(),
        ensures
            r == (if self@.can_claim(caller, ip@, now) && balance > self@.eligible_payout {
                Some(self@.eligible_payout)
            } else {
                None::<Balance>
            }),
    {
        if self.can_claim(caller, ip, now) && balance > self.eligible_payout {
            Some(self.eligible_payout)
        } else {
            None
        }
    }

    /// Checks whether `caller` may be paid, and pays the eligible payout
    /// without recording anything. `balance` is the faucet's balance and
    /// `transfer_succeeded` the outcome of the transfer that
    /// `eligibility_transfer` asked for (ignored when it asked for none).
    ///
    /// The status is 0 when the caller may not be paid, 2 when the transfer
    /// failed and 1 otherwise; a payout notification for the nominal
    /// eligible payout comes with 1 and with 2.
    pub fn check_eligibility(
        &self,
        caller: AccountId,
        my_ip_address: Vec<u8>,
        now: u64,
        balance: Balance,
        transfer_succeeded: bool,
    ) -> (r: (u8, Option<PayoutEvent>))
        requires
            self.wf(),
        ensures
            !self@.can_claim(caller, my_ip_address@, now) ==> r.0 == 0 && r.1 is None,
            self@.can_claim(caller, my_ip_address@, now) ==> {
                &&& r.0 == (if balance > self@.eligible_payout && !transfer_succeeded {
                    2u8
                } else {
                    1u8
                })
                &&& r.1 matches Some(e) && e.timestamp == now && e.user_ip@ == my_ip_address@
                    && e.pebble == caller && e.payout == self@.eligible_payout
            },
    {
        if !self.can_claim(caller, &my_ip_address, now) {
            return (0, None);
        }
        let mut result: u8 = 1;
        if balance > self.eligible_payout && !transfer_succeeded {
            result = 2;
        }
        let event = PayoutEvent {
            timestamp: now,
            user_ip: my_ip_address,
            pebble: caller,
            payout: self.eligible_payout,
        };
        (result, Some(event))
    }

    /// Pays `caller` the claim payout and records the claim. `balance` is
    /// the faucet's balance and `transfer_succeeded` the outcome of the
    /// transfer that `coin_transfer` asked for (ignored when it asked for
    /// none: a faucet that does not hold strictly more than the payout
    /// records the claim without paying).
    ///
    /// On success the caller's record is replaced (time, address, payout
    /// added with saturation), the caller joins the address's accounts if
    /// new there, the payout total grows by the payout and the onboarded
    /// total by one for an account without a record, both saturating.
    pub fn get_coin(
        &mut self,
        caller: AccountId,
        my_ip_address: Vec<u8>,
        now: u64,
        balance: Balance,
        transfer_succeeded: bool,
    ) -> (r: Result<PayoutEvent, Error>)
        requires
            old(self).wf(),
        ensures
            final(self).wf(),
            !old(self)@.can_claim(caller, my_ip_address@, now) ==> r is Err && r->Err_0
                == Error::PermissionDenied && final(self)@ == old(self)@,
            old(self)@.can_claim(caller, my_ip_address@, now) && balance > old(self)@.get_payout
                && !transfer_succeeded ==> r is Err && r->Err_0 == Error::PayoutFailed && final(
            self)@ == old(self)@,
            old(self)@.can_claim(caller, my_ip_address@, now) && !(balance > old(self)@.get_payout
                && !transfer_succeeded) ==> {
                &&& r matches Ok(e) && e.timestamp == now && e.user_ip@ == my_ip_address@
                    && e.pebble == caller && e.payout == old(self)@.get_payout
                &&& final(self)@ == old(self)@.claimed(caller, my_ip_address@, now)
            },
            old(self)@.payouts_kept_in(final(self)@),
    {
        if !self.can_claim(caller, &my_ip_address, now) {
            return Err(Error::PermissionDenied);
        }
        if balance > self.get_payout && !transfer_succeeded {
            return Err(Error::PayoutFailed);
        }
        let ghost before = self@;
        let newuser = !self.user_map.contains_key(&caller);
        let paid: u128 = match self.user_map.get(&caller) {
            Some(p) => p.payout,
            None => 0,
        };
        let details = Pebble {
            timestamp: now,
            ip_address: copy_bytes(&my_ip_address),
            pebble: caller,
            payout: paid.saturating_add(self.get_payout),
        };
        self.user_map.insert(caller, details);
        let (mut tags, known) = match self.ipaddress_count.get(&my_ip_address) {
            Some(t) => (copy_accounts(t), tags_contain(t, caller)),
            None => {
                let t: Vec<AccountId> = Vec::new();
                assert(t@ =~= Seq::<AccountId>::empty());
                (t, false)
            },
        };
        if !known {
            let ghost prior = tags@;
            tags.push(caller);
            proof {
                assert forall|i: int, j: int|
                    0 <= i < tags@.len() && 0 <= j < tags@.len() && i != j implies tags@[i]
                    != tags@[j] by {
                    if i < prior.len() && j < prior.len() {
                        assert(prior[i] == tags@[i] && prior[j] == tags@[j]);
                    } else if i < prior.len() {
                        assert(prior[i] == tags@[i]);
                    } else {
                        assert(prior[j] == tags@[j]);
                    }
                }
            }
            self.ipaddress_count.insert(copy_bytes(&my_ip_address), tags);
        }
        self.total_payouts = self.total_payouts.saturating_add(self.get_payout);
        if newuser {
            self.total_pebble_accounts = self.total_pebble_accounts.saturating_add(1);
        }
        proof {
            let after = before.claimed(caller, my_ip_address@, now);
            assert(self@.records =~= after.records);
            assert(self@.tags =~= after.tags);
        }
        Ok(
            PayoutEvent {
                timestamp: now,
                user_ip: my_ip_address,
                pebble: caller,
                payout: self.get_payout,
            },
        )
    }

    /// A snapshot of the settings and running totals.
    pub fn get_stats_and_settings(&self) -> (r: ViewStats)
        ensures
            r.eligible_payout == self@.eligible_payout,
            r.get_payout == self@.get_payout,
            r.limit_timer == self@.limit_timer,
            r.limit_ip_total == self@.limit_ip_total,
            r.total_pebble_accounts == self@.total_pebble_accounts,
            r.total_payouts == self@.total_payouts,
    {
        ViewStats {
            eligible_payout: self.eligible_payout,
            get_payout: self.get_payout,
            limit_timer: self.limit_timer,
            limit_ip_total: self.limit_ip_total,
            total_pebble_accounts: self.total_pebble_accounts,
            total_payouts: self.total_payouts,
        }
    }

    /// 1 if `verify` has claimed at least once, else 0.
    pub fn verify_account(&self, verify: AccountId) -> (r: u8)
        requires
            self.wf(),
        ensures
            r == (if self@.records.contains_key(verify) {
                1u8
            } else {
                0u8
            }),
    {
        if self.user_map.contains_key(&verify) {
            1
        } else {
            0
        }
    }

    /// The record of `account`, if it has claimed.
    pub fn get_user(&self, account: AccountId) -> (r: Option<&Pebble>)
        requires
            self.wf(),
        ensures
            r is Some <==> self@.records.contains_key(account),
            r matches Some(p) ==> p@ == self@.records[account],
    {
        self.user_map.get(&account)
    }

    /// The accounts that have claimed from `ip`, in order (empty for an
    /// address never reported).
    pub fn get_tags(&self, ip: &Vec<u8>) -> (r: Vec<AccountId>)
        requires
            self.wf(),
        ensures
            r@ == self@.tag_set(ip@),
    {
        match self.ipaddress_count.get(ip) {
            Some(t) => copy_accounts(t),
            None => {
                let t: Vec<AccountId> = Vec::new();
                assert(t@ =~= Seq::<AccountId>::empty());
                t
            },
        }
    }

    /// The invariant gives distinct accounts at each address.
    pub proof fn lemma_tag_sets_distinct(&self)
        requires
            self.wf(),
        ensures
            self@.tag_sets_distinct(),
    {
    }
}

} // verus!
