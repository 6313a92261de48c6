//! Properties of the faucet's state transitions, stated over `FaucetView`,
//! the model that the contracts of `ContractStorage` speak of.
use vstd::prelude::*;

use crate::account::AccountId;
use crate::faucet::FaucetView;
use crate::types::elapsed;

verus! {

/// An account without a record may claim at any time, provided its address
/// clause holds; after the claim it has a record, so `verify_account`
/// answers 1 for it.
pub proof fn lemma_first_claim_allowed(s: FaucetView, caller: AccountId, ip: Seq<u8>, now: u64)
    requires
        !s.records.contains_key(caller),
        s.tag_set(ip).len() < s.limit_ip_total || s.tag_set(ip).contains(caller),
    ensures
        s.can_claim(caller, ip, now),
        s.claimed(caller, ip, now).records.contains_key(caller),
{
}

/// An account that has been paid something cannot claim again before its
/// cooldown window has passed, whatever address it reports.
pub proof fn lemma_cooldown_denies(s: FaucetView, caller: AccountId, ip: Seq<u8>, now: u64)
    requires
        s.records.contains_key(caller),
        s.records[caller].payout > 0,
        elapsed(now, s.records[caller].timestamp) < s.limit_timer,
    ensures
        !s.can_claim(caller, ip, now),
{
}

/// A claim keeps every record and never lowers a cumulative payout; the
/// claimant's grows by the claim payout, clamped at the largest amount.
pub proof fn lemma_claim_keeps_payouts(s: FaucetView, caller: AccountId, ip: Seq<u8>, now: u64)
    ensures
        s.payouts_kept_in(s.claimed(caller, ip, now)),
        s.claimed(caller, ip, now).records[caller].payout as int == if s.paid(caller)
            + s.get_payout > u128::MAX {
            u128::MAX as int
        } else {
            s.paid(caller) + s.get_payout
        },
{
}

/// Keeping payouts is transitive, so it holds across any sequence of calls
/// that each keep them.
pub proof fn lemma_payouts_kept_transitive(a: FaucetView, b: FaucetView, c: FaucetView)
    requires
        a.payouts_kept_in(b),
        b.payouts_kept_in(c),
    ensures
        a.payouts_kept_in(c),
{
}

/// A claim leaves no address listing an account twice.
pub proof fn lemma_claim_keeps_tags_distinct(
    s: FaucetView,
    caller: AccountId,
    ip: Seq<u8>,
    now: u64,
)
    requires
        s.tag_sets_distinct(),
    ensures
        s.claimed(caller, ip, now).tag_sets_distinct(),
{
    let t = s.claimed(caller, ip, now);
    if !s.tag_set(ip).contains(caller) {
        let prior = s.tag_set(ip);
        let next = prior.push(caller);
        assert forall|i: int, j: int|
            0 <= i < next.len() && 0 <= j < next.len() && i != j implies next[i] != next[j] by {
            if i < prior.len() && j < prior.len() {
            } else if i < prior.len() {
                assert(prior[i] == next[i]);
            } else {
                assert(prior[j] == next[j]);
            }
        }
        assert forall|k: Seq<u8>| #[trigger] t.tags.contains_key(k) implies t.tags[k].no_duplicates() by {
            if k != ip {
                assert(s.tags.contains_key(k));
            }
        }
    }
}

/// A claim adds one to the onboarded total exactly when the claimant had no
/// record (until the total reaches the largest value), and each account
/// counts once: a second claim by it adds nothing.
pub proof fn lemma_claim_onboards_once(
    s: FaucetView,
    caller: AccountId,
    ip: Seq<u8>,
    now: u64,
    ip2: Seq<u8>,
    now2: u64,
)
    requires
        s.total_pebble_accounts < u128::MAX,
    ensures
        s.claimed(caller, ip, now).total_pebble_accounts == s.total_pebble_accounts + if s.records.contains_key(caller) {
            0int
        } else {
            1int
        },
        s.claimed(caller, ip, now).claimed(caller, ip2, now2).total_pebble_accounts
            == s.claimed(caller, ip, now).total_pebble_accounts,
{
}

/// A claim changes neither the admin nor any setting: only the admin
/// calls change those.
pub proof fn lemma_claim_keeps_settings(s: FaucetView, caller: AccountId, ip: Seq<u8>, now: u64)
    ensures
        s.claimed(caller, ip, now).root == s.root,
        s.claimed(caller, ip, now).rootset == s.rootset,
        s.claimed(caller, ip, now).eligible_payout == s.eligible_payout,
        s.claimed(caller, ip, now).get_payout == s.get_payout,
        s.claimed(caller, ip, now).limit_timer == s.limit_timer,
        s.claimed(caller, ip, now).limit_ip_total == s.limit_ip_total,
{
}

} // verus!
