//! The lease store: the single source of truth for "where is the backend
//! host right now, and is that information still trustworthy".
//!
//! An announce records an address together with an expiry instant; a resolve
//! reads the pair back and classifies it as fresh, stale or unknown. The two
//! fields are stored as one optional struct, so a state with an address but
//! no expiry (or the reverse) cannot be represented at all.

use vstd::prelude::*;

verus! {

/// How long an announced address stays trustworthy, in milliseconds.
pub const LEASE_DURATION_MILLIS: i64 = 50_000;

/// An address together with the instant (milliseconds on the store's clock)
/// at which it stops being fresh. The two are always written together;
/// holding them in one struct makes the both-or-neither invariant structural.
pub struct Lease {
    pub address: String,
    pub expires_at_millis: i64,
}

/// The store's state as contracts speak of it: an optional address and an
/// optional expiry instant. The two options are derived from one stored
/// pair, so one is present exactly when the other is.
pub struct LeaseView {
    pub address: Option<Seq<char>>,
    pub expires_at: Option<int>,
}

/// Holds the current lease, if any address was ever announced.
pub struct LeaseStore {
    lease: Option<Lease>,
}

impl View for LeaseStore {
    type V = LeaseView;

    closed spec fn view(&self) -> LeaseView {
        match self.lease {
            None => LeaseView { address: None, expires_at: None },
            Some(l) => LeaseView {
                address: Some(l.address@),
                expires_at: Some(l.expires_at_millis as int),
            },
        }
    }
}

/// What a resolve reports: the address while the lease is fresh, the expiry
/// instant once it has passed, or nothing when no address was ever announced.
#[derive(Debug, PartialEq, Eq)]
pub enum Resolution {
    Fresh { address: String },
    Stale { expired_at_millis: i64 },
    Unknown,
}

/// Ghost image of a `Resolution`.
pub enum Verdict {
    Fresh(Seq<char>),
    Stale(int),
    Unknown,
}

impl View for Resolution {
    type V = Verdict;

    open spec fn view(&self) -> Verdict {
        match self {
            Resolution::Fresh { address } => Verdict::Fresh(address@),
            Resolution::Stale { expired_at_millis } => Verdict::Stale(*expired_at_millis as int),
            Resolution::Unknown => Verdict::Unknown,
        }
    }
}

/// The state after an announce at instant `now`: the new address with a full
/// lease, whatever was stored before. Last writer wins, nothing is merged.
pub open spec fn spec_announce(v: LeaseView, address: Seq<char>, now: int) -> LeaseView {
    LeaseView { address: Some(address), expires_at: Some(now + LEASE_DURATION_MILLIS) }
}

/// The verdict a resolve at instant `now` reports for state `v`: fresh
/// strictly before the expiry instant, stale from the expiry instant on,
/// unknown while nothing was ever announced.
pub open spec fn spec_resolve(v: LeaseView, now: int) -> Verdict {
    match (v.address, v.expires_at) {
        (Some(a), Some(e)) => if now < e {
            Verdict::Fresh(a)
        } else {
            Verdict::Stale(e)
        },
        _ => Verdict::Unknown,
    }
}

impl LeaseStore {
    /// A store that has seen no announce yet.
    pub fn new() -> (s: Self)
        ensures
            s@ == (LeaseView { address: None, expires_at: None }),
    {
        LeaseStore { lease: None }
    }

    /// Law: no reachable state of the store is torn — it records an address
    /// exactly when it records an expiry instant, under any interleaving of
    /// announces and resolves, because both live in one optional pair.
    pub proof fn lemma_no_torn_state(&self)
        ensures
            self@.address is Some <==> self@.expires_at is Some,
    {
    }

    /// Record `address` as the current lease, expiring a full lease duration
    /// after `now_millis`. Never fails; unconditionally overwrites. Reports
    /// whether the address differs from the one stored before (the caller's
    /// cue for an informational event; not a correctness concern).
    pub fn announce(&mut self, address: String, now_millis: i64) -> (changed: bool)
        requires
            now_millis + LEASE_DURATION_MILLIS <= i64::MAX,
        ensures
            final(self)@ == spec_announce(old(self)@, address@, now_millis as int),
            changed == (old(self)@.address != Some(address@)),
    {
        let changed = match &self.lease {
            Some(l) => !(l.address == address),
            None => true,
        };
        self.lease = Some(Lease { address, expires_at_millis: now_millis + LEASE_DURATION_MILLIS });
        changed
    }

    /// Read the lease and classify it against the instant `now_millis`.
    /// Mutates nothing; callers must re-check on every read, since a stale
    /// lease is never cleared.
    pub fn resolve(&self, now_millis: i64) -> (r: Resolution)
        ensures
            r@ == spec_resolve(self@, now_millis as int),
    {
        match &self.lease {
            None => Resolution::Unknown,
            Some(l) => {
                if now_millis < l.expires_at_millis {
                    Resolution::Fresh { address: l.address.clone() }
                } else {
                    Resolution::Stale { expired_at_millis: l.expires_at_millis }
                }
            },
        }
    }
}

/// Law: announcing an address and resolving at the same instant yields
/// `Fresh` carrying exactly that address, for every address and every state
/// the store was in before.
pub proof fn lemma_announce_then_resolve_fresh(v: LeaseView, address: Seq<char>, now: int)
    ensures
        spec_resolve(spec_announce(v, address, now), now) == Verdict::Fresh(address),
{
}

/// Law: while nothing was ever announced, a resolve yields `Unknown`, at
/// every instant.
pub proof fn lemma_resolve_unannounced_unknown(v: LeaseView, now: int)
    requires
        v.address is None,
    ensures
        spec_resolve(v, now) == Verdict::Unknown,
{
}

/// Law: announcing at instant `t` and resolving at any instant at least a
/// full lease duration later yields `Stale`, carrying the expiry instant.
pub proof fn lemma_resolve_after_lease_elapsed_stale(
    v: LeaseView,
    address: Seq<char>,
    t: int,
    t_resolve: int,
)
    requires
        t_resolve >= t + LEASE_DURATION_MILLIS,
    ensures
        spec_resolve(spec_announce(v, address, t), t_resolve) == Verdict::Stale(
            t + LEASE_DURATION_MILLIS,
        ),
{
}

/// Law: the last announce wins. Announcing `addr_a` and then `addr_b` leaves
/// the store exactly as if only `addr_b` had been announced, and a resolve
/// at the instant of the second announce yields `Fresh(addr_b)`.
pub proof fn lemma_last_writer_wins(
    v: LeaseView,
    addr_a: Seq<char>,
    t_a: int,
    addr_b: Seq<char>,
    t_b: int,
)
    ensures
        spec_announce(spec_announce(v, addr_a, t_a), addr_b, t_b) == spec_announce(v, addr_b, t_b),
        spec_resolve(spec_announce(spec_announce(v, addr_a, t_a), addr_b, t_b), t_b)
            == Verdict::Fresh(addr_b),
{
}

} // verus!
