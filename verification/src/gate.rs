//! The identity gate: a per-request state machine that authenticates a
//! caller against an upstream identity service and authorizes it against
//! the application's owner roster.
//!
//! Every transition that needs an upstream call suspends: the surrounding
//! request handler performs the call and feeds its outcome back as an
//! event. The decisions in between are all here, verified.

use vstd::prelude::*;

use crate::catalog::clone_bytes;

verus! {

/// One resolved identity: a roster member or the caller itself.
#[derive(Debug)]
pub struct Principal {
    /// Numeric identity, the key authorization goes by.
    pub id: u64,
    /// Human-readable name, carried along but never compared.
    pub display_name: Vec<u8>,
}

impl Clone for Principal {
    /// Copies the principal; the copy carries the same identity and name.
    fn clone(&self) -> (r: Self)
        ensures
            r.id == self.id,
            r.display_name@ == self.display_name@,
    {
        Principal { id: self.id, display_name: clone_bytes(&self.display_name) }
    }
}

/// How an upstream identity call failed.
#[derive(PartialEq, Eq, Structural, Debug, Clone, Copy)]
pub enum OAuth2Error {
    /// The service could not be reached, or answered without success.
    RequestError,
    /// The service rejected the presented credential.
    InvalidToken,
    /// The service accepted the credential but the identity in its answer
    /// could not be read.
    IncorrectUser,
}

/// The caller-visible authorization outcome.
#[derive(Debug)]
pub enum GateOutcome {
    /// The caller is a roster member; its resolved identity is attached.
    Authorized(Principal),
    /// No credential, a non-bearer scheme, or a credential the identity
    /// service did not accept.
    Unauthenticated,
    /// A valid identity that is not on the roster.
    Denied,
    /// An upstream failure not attributable to the caller.
    InternalError,
}

/// Where a request stands in the authorization flow.
#[derive(Debug)]
pub enum GateState {
    /// Nothing examined yet; awaiting the request.
    Start,
    /// A bearer credential was found; awaiting the identity probe made
    /// with it.
    TokenExtracted { token: Vec<u8> },
    /// The credential was accepted and the caller resolved; awaiting the
    /// roster, fetched with the application's own credential.
    IdentityResolved { caller: Principal },
    /// Terminal; later events change nothing.
    Complete { outcome: GateOutcome },
}

/// What the request handler reports back as events.
#[derive(Debug)]
pub enum GateEvent {
    /// The request arrived, with its authorization header if it had one.
    Begin { auth_header: Option<Vec<u8>> },
    /// The identity probe with the caller's credential finished.
    IdentityChecked { result: Result<Principal, OAuth2Error> },
    /// The roster fetch finished.
    RosterReceived { result: Result<Vec<Principal>, OAuth2Error> },
}

/// The bearer scheme prefix of an authorization header.
pub open spec fn bearer_prefix() -> Seq<u8> {
    seq![66u8, 101, 97, 114, 101, 114, 32]
}

/// The header value carries the bearer scheme.
pub open spec fn has_bearer(h: Seq<u8>) -> bool {
    h.len() >= 7 && h.take(7) == bearer_prefix()
}

/// The credential inside a bearer header.
pub open spec fn bearer_token(h: Seq<u8>) -> Seq<u8> {
    h.skip(7)
}

fn bearer_prefix_vec() -> (v: Vec<u8>)
    ensures
        v@ == bearer_prefix(),
{
    let v: Vec<u8> = vec![66u8, 101, 97, 114, 101, 114, 32];
    proof {
        assert(v@ =~= bearer_prefix());
    }
    v
}

/// Extracts the bearer credential from the authorization header; a
/// missing header or any other scheme yields nothing.
pub fn extract_bearer(header: Option<Vec<u8>>) -> (r: Option<Vec<u8>>)
    ensures
        match header {
            None => r is None,
            Some(h) => {
                if has_bearer(h@) {
                    r matches Some(t) && t@ == bearer_token(h@)
                } else {
                    r is None
                }
            },
        },
{
    match header {
        None => None,
        Some(h) => extract_bearer_from(h),
    }
}

/// Extracts the credential from one header value, if it carries the
/// bearer scheme.
fn extract_bearer_from(h: Vec<u8>) -> (r: Option<Vec<u8>>)
    ensures
        has_bearer(h@) ==> (r matches Some(t) && t@ == bearer_token(h@)),
        !has_bearer(h@) ==> r is None,
{
    if h.len() < 7 {
        return None;
    }
    let p = bearer_prefix_vec();
    let mut i: usize = 0;
    while i < 7
        invariant
            0 <= i <= 7,
            h@.len() >= 7,
            p@ == bearer_prefix(),
            forall|t: int| 0 <= t < i ==> h@[t] == bearer_prefix()[t],
        decreases 7 - i,
    {
        if h[i] != p[i] {
            proof {
                assert(h@[i as int] != bearer_prefix()[i as int]);
                if has_bearer(h@) {
                    assert(h@.take(7)[i as int] == h@[i as int]);
                    assert(false);
                }
            }
            return None;
        }
        i = i + 1;
    }
    proof {
        assert(h@.take(7) =~= bearer_prefix());
    }
    let mut t: Vec<u8> = Vec::new();
    let mut k: usize = 7;
    while k < h.len()
        invariant
            7 <= k <= h@.len(),
            t@ =~= h@.subrange(7, k as int),
        decreases h@.len() - k,
    {
        t.push(h[k]);
        k = k + 1;
    }
    proof {
        assert(t@ =~= bearer_token(h@));
    }
    Some(t)
}

/// Roster membership goes by principal id, never by display name.
pub open spec fn roster_contains(roster: Seq<Principal>, id: u64) -> bool {
    exists|i: int| 0 <= i < roster.len() && roster[i].id == id
}

/// The authorized-principal roster of the application: every team member
/// when the application is team-owned, else the owner alone.
pub fn roster_of_application(owner: Principal, team_members: Option<Vec<Principal>>) -> (r: Vec<
    Principal,
>)
    ensures
        match team_members {
            Some(m) => r == m,
            None => r@.len() == 1 && r@[0] == owner,
        },
{
    match team_members {
        Some(m) => m,
        None => {
            let mut v: Vec<Principal> = Vec::new();
            v.push(owner);
            v
        },
    }
}

/// Grants access exactly when the caller's id is on the roster; a valid
/// identity off the roster is denied, which is distinct from failing to
/// authenticate.
pub fn authorize(caller: Principal, roster: &Vec<Principal>) -> (o: GateOutcome)
    ensures
        roster_contains(roster@, caller.id) ==> o == GateOutcome::Authorized(caller),
        !roster_contains(roster@, caller.id) ==> o == GateOutcome::Denied,
{
    let n = roster.len();
    let mut i: usize = 0;
    while i < n
        invariant
            0 <= i <= n,
            n == roster@.len(),
            forall|k: int| 0 <= k < i ==> roster@[k].id != caller.id,
        decreases n - i,
    {
        if roster[i].id == caller.id {
            return GateOutcome::Authorized(caller);
        }
        i = i + 1;
    }
    GateOutcome::Denied
}

/// The event each gate state is waiting for.
pub open spec fn gate_accepts(state: GateState, event: GateEvent) -> bool {
    match (state, event) {
        (GateState::Start, GateEvent::Begin { .. }) => true,
        (GateState::TokenExtracted { .. }, GateEvent::IdentityChecked { .. }) => true,
        (GateState::IdentityResolved { .. }, GateEvent::RosterReceived { .. }) => true,
        (GateState::Complete { .. }, _) => true,
        _ => false,
    }
}

/// One transition of the state machine. A missing or non-bearer credential is
/// `Unauthenticated`; a rejected credential or unreachable service is
/// `Unauthenticated`; an accepted credential whose identity cannot be
/// read, any roster failure, and any event the state is not waiting for
/// are `InternalError`; otherwise access goes by roster membership.
pub fn gate_step(state: GateState, event: GateEvent) -> (next: GateState)
    ensures
        !gate_accepts(state, event) ==> next == (GateState::Complete {
            outcome: GateOutcome::InternalError,
        }),
        state matches GateState::Complete { .. } ==> next == state,
        state matches GateState::Start ==> (event matches GateEvent::Begin { auth_header }
            ==> (match auth_header {
            None => next == (GateState::Complete { outcome: GateOutcome::Unauthenticated }),
            Some(h) => {
                if has_bearer(h@) {
                    next matches GateState::TokenExtracted { token } && token@ == bearer_token(
                        h@,
                    )
                } else {
                    next == (GateState::Complete { outcome: GateOutcome::Unauthenticated })
                }
            },
        })),
        state matches GateState::TokenExtracted { .. } ==> (event
            matches GateEvent::IdentityChecked { result } ==> (match result {
            Ok(p) => next == (GateState::IdentityResolved { caller: p }),
            Err(OAuth2Error::RequestError) => next == (GateState::Complete {
                outcome: GateOutcome::Unauthenticated,
            }),
            Err(OAuth2Error::InvalidToken) => next == (GateState::Complete {
                outcome: GateOutcome::Unauthenticated,
            }),
            Err(OAuth2Error::IncorrectUser) => next == (GateState::Complete {
                outcome: GateOutcome::InternalError,
            }),
        })),
        state matches GateState::IdentityResolved { caller } ==> (event
            matches GateEvent::RosterReceived { result } ==> (match result {
            Ok(roster) => {
                &&& roster_contains(roster@, caller.id) ==> next == (GateState::Complete {
                    outcome: GateOutcome::Authorized(caller),
                })
                &&& !roster_contains(roster@, caller.id) ==> next == (GateState::Complete {
                    outcome: GateOutcome::Denied,
                })
            },
            Err(_) => next == (GateState::Complete { outcome: GateOutcome::InternalError }),
        })),
{
    match (state, event) {
        (GateState::Start, GateEvent::Begin { auth_header }) => {
            match extract_bearer(auth_header) {
                Some(token) => GateState::TokenExtracted { token },
                None => GateState::Complete { outcome: GateOutcome::Unauthenticated },
            }
        },
        (GateState::TokenExtracted { .. }, GateEvent::IdentityChecked { result }) => {
            match result {
                Ok(p) => GateState::IdentityResolved { caller: p },
                Err(OAuth2Error::IncorrectUser) => GateState::Complete {
                    outcome: GateOutcome::InternalError,
                },
                Err(_) => GateState::Complete { outcome: GateOutcome::Unauthenticated },
            }
        },
        (GateState::IdentityResolved { caller }, GateEvent::RosterReceived { result }) => {
            match result {
                Ok(roster) => GateState::Complete { outcome: authorize(caller, &roster) },
                Err(_) => GateState::Complete { outcome: GateOutcome::InternalError },
            }
        },
        (GateState::Complete { outcome }, _) => GateState::Complete { outcome },
        _ => GateState::Complete { outcome: GateOutcome::InternalError },
    }
}

} // verus!
