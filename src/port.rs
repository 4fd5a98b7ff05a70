//! The search for an available, non-ephemeral TCP port.
//!
//! The search alternates between drawing a random candidate port and learning
//! whether binding it succeeded. Binding is done by the caller; this module
//! holds the decisions: which port to try next, when a port counts as
//! reserved, and when to give up.

use rand::Rng;
use vstd::prelude::*;

verus! {

/// How many candidate ports are drawn before the search gives up.
pub const MAX_PORT_RETRIES: u16 = 1000;

/// First port of the candidate range (inclusive).
pub const RANDOM_PORT_START: u16 = 10000;

/// End of the candidate range (exclusive). The range stays clear of the ports
/// that the OS hands out when binding to port 0.
pub const RANDOM_PORT_END: u16 = 30000;

/// A port that a search may hand out: one in `[RANDOM_PORT_START, RANDOM_PORT_END)`.
pub open spec fn in_port_range(port: int) -> bool {
    RANDOM_PORT_START <= port < RANDOM_PORT_END
}

/// Relies on rand's `Rng::gen_range` over `OsRng` (rand 0.7): it returns a
/// value in `[low, high)`, and panics when `low >= high`.
#[verifier::external_body]
fn random_port_between(low: u16, high: u16) -> (r: u16)
    requires
        low < high,
    ensures
        low <= r < high,
{
    rand::rngs::OsRng.gen_range(low, high)
}

/// Draws a candidate port uniformly from the candidate range.
fn get_random_port() -> (r: u16)
    ensures
        in_port_range(r as int),
{
    random_port_between(RANDOM_PORT_START, RANDOM_PORT_END)
}

/// State of one search for a port: how many candidates have been drawn, and
/// the candidate whose bind outcome is awaited, if any.
#[derive(Clone, Copy, Debug, PartialEq, Eq)]
pub struct PortSearch {
    pub attempts: u16,
    pub candidate: Option<u16>,
}

/// What the caller learned since the last step of the search.
#[derive(Clone, Copy, Debug, PartialEq, Eq)]
pub enum PortEvent {
    /// The search begins; nothing has been tried yet.
    Start,
    /// Binding succeeded, and the listener reports this local port.
    Bound(u16),
    /// Binding, connecting or accepting failed.
    BindFailed,
}

/// What the caller is to do next.
#[derive(Clone, Copy, Debug, PartialEq, Eq)]
pub enum PortAction {
    /// Bind a listener on this port of localhost, connect to it, accept the
    /// connection and drop both ends, then report the outcome.
    Probe(u16),
    /// The port is reserved: hand it to the caller.
    Reserved(u16),
    /// Every attempt failed: the caller cannot go on without a port.
    Exhausted,
}

impl PortSearch {
    /// A search holds a candidate only from the range, and never counts more
    /// attempts than the retry budget.
    pub open spec fn wf(self) -> bool {
        &&& self.attempts <= MAX_PORT_RETRIES
        &&& (self.candidate matches Some(c) ==> in_port_range(c as int))
    }

    /// Whether `event` reports that the awaited candidate was bound.
    pub open spec fn confirms(self, event: PortEvent) -> bool {
        event matches PortEvent::Bound(p) && self.candidate == Some(p)
    }

    /// A search that has tried nothing yet.
    pub fn new() -> (r: PortSearch)
        ensures
            r.wf(),
            r.attempts == 0,
            r.candidate is None,
    {
        PortSearch { attempts: 0, candidate: None }
    }
}

/// Advances a search for a non-ephemeral, available port by one step.
///
/// When `event` reports that the awaited candidate was bound, that port is
/// reserved. Otherwise a fresh random candidate is drawn while the retry
/// budget lasts, and the search is exhausted once it is spent. A reported
/// port other than the awaited candidate counts as a failure.
pub fn get_available_port(search: &mut PortSearch, event: PortEvent) -> (r: PortAction)
    requires
        old(search).wf(),
    ensures
        final(search).wf(),
        r matches PortAction::Reserved(p) ==> in_port_range(p as int),
        r matches PortAction::Probe(p) ==> in_port_range(p as int),
        old(search).confirms(event) ==> {
            &&& r == PortAction::Reserved(old(search).candidate.unwrap())
            &&& final(search).attempts == old(search).attempts
            &&& final(search).candidate is None
        },
        !old(search).confirms(event) && old(search).attempts < MAX_PORT_RETRIES ==> {
            &&& r matches PortAction::Probe(p)
            &&& final(search).attempts == old(search).attempts + 1
            &&& final(search).candidate == Some(p)
        },
        !old(search).confirms(event) && old(search).attempts >= MAX_PORT_RETRIES ==> {
            &&& r == PortAction::Exhausted
            &&& final(search).attempts == old(search).attempts
            &&& final(search).candidate is None
        },
{
    if let PortEvent::Bound(p) = event {
        if let Some(c) = search.candidate {
            if c == p {
                search.candidate = None;
                return PortAction::Reserved(c);
            }
        }
    }
    if search.attempts < MAX_PORT_RETRIES {
        let port = get_random_port();
        search.attempts = search.attempts + 1;
        search.candidate = Some(port);
        PortAction::Probe(port)
    } else {
        search.candidate = None;
        PortAction::Exhausted
    }
}

} // verus!
