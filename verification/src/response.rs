//! What the two read-facing endpoints answer: the forward endpoint's
//! redirect-or-not-found decision, and the measurement sink's status line.
//!
//! Everything here is a pure function from plain values to plain values; the
//! surrounding server only moves the results onto the wire.

use vstd::prelude::*;
use vstd::string::StringExecFns;
use crate::lease::{LeaseStore, LeaseView, Resolution, Verdict, spec_resolve};

verus! {

/// What the forward endpoint does with a resolution: send the client on to
/// the backend, or report that it is unavailable.
#[derive(Debug, PartialEq, Eq)]
pub enum ForwardAction {
    Redirect { target: String },
    NotFound { body: String },
}

/// Ghost image of a `ForwardAction`.
pub enum ForwardDecision {
    Redirect(Seq<char>),
    NotFound(Seq<char>),
}

impl View for ForwardAction {
    type V = ForwardDecision;

    open spec fn view(&self) -> ForwardDecision {
        match self {
            ForwardAction::Redirect { target } => ForwardDecision::Redirect(target@),
            ForwardAction::NotFound { body } => ForwardDecision::NotFound(body@),
        }
    }
}

/// The exact redirect target for a fresh address: the address dropped into
/// `http://<address>:3000`.
pub open spec fn spec_redirect_target(address: Seq<char>) -> Seq<char> {
    "http://"@ + address + ":3000"@
}

/// The HTML body shown when the lease is stale or no address was ever
/// announced.
pub open spec fn spec_offline_body() -> Seq<char> {
    "<h1>Raspberry ist wahrscheinlich Offline</h1>"@
}

/// How each resolve outcome is answered: fresh leases send the client on to
/// the backend, stale and unknown ones get the offline body.
pub open spec fn spec_forward_decision(verdict: Verdict) -> ForwardDecision {
    match verdict {
        Verdict::Fresh(address) => ForwardDecision::Redirect(spec_redirect_target(address)),
        Verdict::Stale(_) => ForwardDecision::NotFound(spec_offline_body()),
        Verdict::Unknown => ForwardDecision::NotFound(spec_offline_body()),
    }
}

/// Turn a resolution into the forward endpoint's action.
pub fn forward_action(r: Resolution) -> (a: ForwardAction)
    ensures
        a@ == spec_forward_decision(r@),
{
    match r {
        Resolution::Fresh { address } => {
            let mut target = String::from_str("http://");
            target.append(address.as_str());
            target.append(":3000");
            ForwardAction::Redirect { target }
        },
        Resolution::Stale { expired_at_millis: _ } => ForwardAction::NotFound {
            body: String::from_str("<h1>Raspberry ist wahrscheinlich Offline</h1>"),
        },
        Resolution::Unknown => ForwardAction::NotFound {
            body: String::from_str("<h1>Raspberry ist wahrscheinlich Offline</h1>"),
        },
    }
}

impl ForwardAction {
    /// The HTTP status this action is sent with: a temporary redirect, so
    /// clients re-resolve on every use, or a plain not-found.
    pub fn status_code(&self) -> (s: u16)
        ensures
            s == (match self@ {
                ForwardDecision::Redirect(_) => 307u16,
                ForwardDecision::NotFound(_) => 404u16,
            }),
    {
        match self {
            ForwardAction::Redirect { target: _ } => 307,
            ForwardAction::NotFound { body: _ } => 404,
        }
    }
}

/// Resolve against the system clock and decide the forward endpoint's
/// answer: the whole read side of the relay in one call.
pub fn forward_now(store: &LeaseStore) -> (a: ForwardAction)
    ensures
        exists|t: int|
            0 <= t && #[trigger] spec_forward_decision(spec_resolve(store@, t)) == a@,
        store@.address is None ==> a@ == ForwardDecision::NotFound(spec_offline_body()),
        a matches ForwardAction::Redirect { target } ==> (store@.address matches Some(addr)
            && target@ == spec_redirect_target(addr)),
{
    let r = store.resolve_now();
    forward_action(r)
}

/// Law: the forward decision never invents an address. For every store state
/// and every instant, it is a redirect to exactly `http://<address>:3000`
/// for the stored address when the resolve is fresh, and the offline body in
/// every other case.
pub proof fn lemma_forward_decision_form(v: LeaseView, now: int)
    ensures
        (spec_resolve(v, now) matches Verdict::Fresh(a) ==> v.address == Some(a)
            && spec_forward_decision(spec_resolve(v, now)) == ForwardDecision::Redirect(
            spec_redirect_target(a),
        )),
        !(spec_resolve(v, now) is Fresh) ==> spec_forward_decision(spec_resolve(v, now))
            == ForwardDecision::NotFound(spec_offline_body()),
{
}

/// The measurement sink's answer for a storage outcome: plain success, or
/// the storage failure's own words behind an error marker. The first field
/// is the HTTP status it is sent with.
pub fn insert_response(outcome: Result<(), String>) -> (r: (u16, String))
    ensures
        outcome is Ok ==> r.0 == 200 && r.1@ == "Success"@,
        outcome matches Err(e) ==> r.0 == 500 && r.1@ == "Error: "@ + e@,
{
    match outcome {
        Ok(()) => (200, String::from_str("Success")),
        Err(e) => {
            let mut msg = String::from_str("Error: ");
            msg.append(e.as_str());
            (500, msg)
        },
    }
}

} // verus!
