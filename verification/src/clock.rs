//! The wall clock, and the lease-store operations that read it themselves.
//!
//! The store's verified operations take the current instant as an argument;
//! the functions here obtain that instant from the system clock and pass it
//! on, so a caller with no clock of its own can still announce and resolve.

use vstd::prelude::*;
use crate::lease::{LeaseStore, Resolution, spec_announce, spec_resolve};

verus! {

/// A bound on any instant the clock can report, in milliseconds: far below
/// `i64::MAX`, so adding a lease duration to a reported instant never
/// overflows.
pub const MAX_CLOCK_MILLIS: i64 = 9_000_000_000_000_000;

/// Relies on `chrono::Utc::now` and `chrono::DateTime::timestamp_millis`:
/// `Utc::now` never returns an instant before the Unix epoch (it aborts the
/// process if the system clock reads earlier), and chrono's date-times reach
/// at most year 262142, whose millisecond timestamp is below 9 * 10^15.
/// Which instant within those bounds comes back depends on the machine's
/// clock, so nothing more is promised.
#[verifier::external_body]
fn now_millis() -> (t: i64)
    ensures
        0 <= t <= MAX_CLOCK_MILLIS,
{
    chrono::Utc::now().timestamp_millis()
}

impl LeaseStore {
    /// Announce `address` at the instant the system clock reports. The store
    /// afterwards holds exactly the result of that announce, for some
    /// non-negative instant the clock chose; which one is not promised.
    pub fn announce_now(&mut self, address: String) -> (changed: bool)
        ensures
            exists|t: int|
                0 <= t && #[trigger] spec_announce(old(self)@, address@, t) == final(self)@,
            final(self)@.address == Some(address@),
            final(self)@.expires_at is Some,
            changed == (old(self)@.address != Some(address@)),
    {
        let now = now_millis();
        self.announce(address, now)
    }

    /// Resolve against the instant the system clock reports. The verdict is
    /// exactly what a resolve at some non-negative instant yields; in
    /// particular it is `Unknown` exactly when no address was ever announced,
    /// a `Fresh` verdict carries the stored address, and a `Stale` verdict
    /// carries the stored expiry instant.
    pub fn resolve_now(&self) -> (r: Resolution)
        ensures
            exists|t: int| 0 <= t && #[trigger] spec_resolve(self@, t) == r@,
            r is Unknown <==> self@.address is None,
            r matches Resolution::Fresh { address } ==> self@.address == Some(address@),
            r matches Resolution::Stale { expired_at_millis } ==> self@.expires_at == Some(
                expired_at_millis as int,
            ),
    {
        proof {
            self.lemma_no_torn_state();
        }
        let now = now_millis();
        self.resolve(now)
    }
}

} // verus!
