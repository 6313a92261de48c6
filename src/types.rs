use vstd::prelude::*;

use crate::account::AccountId;

verus! {

/// An amount of the native token.
pub type Balance = u128;

/// `x + y`, clamped at the largest representable amount.
pub open spec fn sat_add(x: u128, y: u128) -> u128 {
    if x + y > u128::MAX {
        u128::MAX
    } else {
        (x + y) as u128
    }
}

/// Time elapsed from `then` to `now`, taken modulo 2^64.
pub open spec fn elapsed(now: u64, then: u64) -> u64 {
    if now >= then {
        (now - then) as u64
    } else {
        (now - then + 0x1_0000_0000_0000_0000) as u64
    }
}

/// What the faucet remembers of an account that has claimed.
#[derive(Debug)]
pub struct Pebble {
    /// Block time of the last claim (0 if none).
    pub timestamp: u64,
    /// Network address reported with the last claim.
    pub ip_address: Vec<u8>,
    /// The account this record belongs to.
    pub pebble: AccountId,
    /// Sum of all payouts made to the account by claims, saturating.
    pub payout: Balance,
}

/// The mathematical content of a `Pebble`.
pub struct PebbleView {
    pub timestamp: u64,
    pub ip_address: Seq<u8>,
    pub pebble: AccountId,
    pub payout: Balance,
}

impl View for Pebble {
    type V = PebbleView;

    open spec fn view(&self) -> PebbleView {
        PebbleView {
            timestamp: self.timestamp,
            ip_address: self.ip_address@,
            pebble: self.pebble,
            payout: self.payout,
        }
    }
}

impl Default for Pebble {
    fn default() -> (r: Pebble)
        ensures
            r.timestamp == 0,
            r.ip_address@ == Seq::<u8>::empty(),
            r.pebble.bytes@ == Seq::new(32, |i: int| 0u8),
            r.payout == 0,
    {
        let r = Pebble {
            timestamp: 0,
            ip_address: Vec::new(),
            pebble: AccountId::from_bytes([0u8; 32]),
            payout: 0,
        };
        assert(r.pebble.bytes@ =~= Seq::new(32, |i: int| 0u8));
        r
    }
}

/// A snapshot of the settings and running totals.
#[derive(Clone, Copy, Debug, PartialEq, Eq, Structural, Default)]
pub struct ViewStats {
    pub eligible_payout: Balance,
    pub get_payout: Balance,
    pub limit_timer: u64,
    pub limit_ip_total: u128,
    pub total_pebble_accounts: u128,
    pub total_payouts: Balance,
}

/// The notification of a payout: when, from which reported address, to
/// whom and how much.
#[derive(Debug)]
pub struct PayoutEvent {
    pub timestamp: u64,
    pub user_ip: Vec<u8>,
    pub pebble: AccountId,
    pub payout: Balance,
}

/// Why a call was refused.
#[derive(Clone, Copy, Debug, PartialEq, Eq, Structural)]
pub enum Error {
    /// The caller is not authorized, or not eligible for a payout now.
    PermissionDenied,
    /// The caller was eligible but the ledger refused the transfer.
    PayoutFailed,
}

} // verus!
