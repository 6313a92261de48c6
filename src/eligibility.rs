use vstd::prelude::*;

use crate::account::AccountId;
use crate::table::TableKey;
use crate::types::elapsed;

verus! {

/// The rule that decides whether `caller` may be paid now.
///
/// The address clause lets a payout through while fewer than `cap` accounts
/// have claimed from the reported address, and always for an account that
/// already has. The cooldown clause asks that at least `window` time units
/// have passed since the last claim, and is waived for an account that has
/// never been paid anything.
pub open spec fn eligible(
    tags: Seq<AccountId>,
    cap: u128,
    caller: AccountId,
    now: u64,
    last_claim: u64,
    paid: u128,
    window: u64,
) -> bool {
    &&& (tags.len() < cap || tags.contains(caller))
    &&& (elapsed(now, last_claim) >= window || paid == 0)
}

/// Whether `caller` occurs in `tags`.
pub fn tags_contain(tags: &Vec<AccountId>, caller: AccountId) -> (r: bool)
    ensures
        r == tags@.contains(caller),
{
    let mut i: usize = 0;
    while i < tags.len()
        invariant
            0 <= i <= tags@.len(),
            forall|j: int| 0 <= j < i ==> tags@[j] != caller,
        decreases tags@.len() - i,
    {
        if tags[i].same_key(&caller) {
            assert(tags@[i as int] == caller);
            return true;
        }
        i = i + 1;
    }
    false
}

/// Decides the eligibility rule on concrete values: `tags` are the accounts
/// that have claimed from the reported address, `last_claim` and `paid` come
/// from the caller's record (0 and 0 if it has none).
pub fn is_eligible(
    tags: &Vec<AccountId>,
    cap: u128,
    caller: AccountId,
    now: u64,
    last_claim: u64,
    paid: u128,
    window: u64,
) -> (r: bool)
    ensures
        r == eligible(tags@, cap, caller, now, last_claim, paid, window),
{
    let time_since = now.wrapping_sub(last_claim);
    let tags_len = tags.len() as u128;
    (tags_len < cap || tags_contain(tags, caller)) && (time_since >= window || paid == 0)
}

} // verus!
