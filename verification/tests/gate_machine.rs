//! The identity-gate state machine walked through its request cycles.

use iridium::gate::{
    authorize, extract_bearer, gate_step, roster_of_application, GateEvent, GateOutcome,
    GateState, OAuth2Error, Principal,
};

fn principal(id: u64, name: &str) -> Principal {
    Principal { id, display_name: name.as_bytes().to_vec() }
}

#[test]
fn missing_header_is_unauthenticated() {
    let next = gate_step(GateState::Start, GateEvent::Begin { auth_header: None });
    assert!(matches!(
        next,
        GateState::Complete { outcome: GateOutcome::Unauthenticated }
    ));
}

#[test]
fn non_bearer_scheme_is_unauthenticated() {
    let next = gate_step(
        GateState::Start,
        GateEvent::Begin { auth_header: Some(b"Basic Zm9v".to_vec()) },
    );
    assert!(matches!(
        next,
        GateState::Complete { outcome: GateOutcome::Unauthenticated }
    ));
}

#[test]
fn bearer_header_yields_its_token() {
    assert_eq!(
        extract_bearer(Some(b"Bearer sometoken".to_vec())),
        Some(b"sometoken".to_vec())
    );
    assert_eq!(extract_bearer(Some(b"Bearer".to_vec())), None);
    assert_eq!(extract_bearer(None), None);
    let next = gate_step(
        GateState::Start,
        GateEvent::Begin { auth_header: Some(b"Bearer sometoken".to_vec()) },
    );
    match next {
        GateState::TokenExtracted { token } => assert_eq!(token, b"sometoken".to_vec()),
        other => panic!("unexpected state {:?}", other),
    }
}

#[test]
fn rejected_credential_is_unauthenticated() {
    for err in [OAuth2Error::RequestError, OAuth2Error::InvalidToken] {
        let next = gate_step(
            GateState::TokenExtracted { token: b"tok".to_vec() },
            GateEvent::IdentityChecked { result: Err(err) },
        );
        assert!(matches!(
            next,
            GateState::Complete { outcome: GateOutcome::Unauthenticated }
        ));
    }
}

#[test]
fn unreadable_identity_is_internal_error() {
    let next = gate_step(
        GateState::TokenExtracted { token: b"tok".to_vec() },
        GateEvent::IdentityChecked { result: Err(OAuth2Error::IncorrectUser) },
    );
    assert!(matches!(
        next,
        GateState::Complete { outcome: GateOutcome::InternalError }
    ));
}

#[test]
fn roster_member_is_authorized() {
    let caller = principal(42, "curator");
    let next = gate_step(
        GateState::Start,
        GateEvent::Begin { auth_header: Some(b"Bearer tok".to_vec()) },
    );
    let next = gate_step(next, GateEvent::IdentityChecked { result: Ok(caller) });
    assert!(matches!(next, GateState::IdentityResolved { .. }));
    let roster = vec![principal(7, "owner"), principal(42, "curator")];
    let next = gate_step(next, GateEvent::RosterReceived { result: Ok(roster) });
    match next {
        GateState::Complete { outcome: GateOutcome::Authorized(p) } => assert_eq!(p.id, 42),
        other => panic!("unexpected state {:?}", other),
    }
}

#[test]
fn valid_identity_off_roster_is_denied() {
    let caller = principal(42, "stranger");
    let next = gate_step(
        GateState::IdentityResolved { caller },
        GateEvent::RosterReceived { result: Ok(vec![principal(7, "owner")]) },
    );
    assert!(matches!(
        next,
        GateState::Complete { outcome: GateOutcome::Denied }
    ));
}

#[test]
fn roster_failure_is_internal_error() {
    let next = gate_step(
        GateState::IdentityResolved { caller: principal(42, "curator") },
        GateEvent::RosterReceived { result: Err(OAuth2Error::RequestError) },
    );
    assert!(matches!(
        next,
        GateState::Complete { outcome: GateOutcome::InternalError }
    ));
}

#[test]
fn mismatched_event_is_internal_error() {
    let next = gate_step(
        GateState::Start,
        GateEvent::RosterReceived { result: Ok(Vec::new()) },
    );
    assert!(matches!(
        next,
        GateState::Complete { outcome: GateOutcome::InternalError }
    ));
}

#[test]
fn membership_goes_by_id_not_name() {
    let roster = vec![principal(7, "owner")];
    let same_id_other_name = principal(7, "impostor");
    assert!(matches!(
        authorize(same_id_other_name, &roster),
        GateOutcome::Authorized(_)
    ));
    let same_name_other_id = principal(8, "owner");
    assert!(matches!(authorize(same_name_other_id, &roster), GateOutcome::Denied));
}

#[test]
fn bearer_header_with_empty_token_yields_empty_token() {
    assert_eq!(extract_bearer(Some(b"Bearer ".to_vec())), Some(Vec::new()));
}

#[test]
fn complete_state_absorbs_later_events() {
    let done = gate_step(GateState::Start, GateEvent::Begin { auth_header: None });
    let again = gate_step(done, GateEvent::RosterReceived { result: Ok(Vec::new()) });
    assert!(matches!(
        again,
        GateState::Complete { outcome: GateOutcome::Unauthenticated }
    ));
}

#[test]
fn team_roster_replaces_owner() {
    let team = vec![principal(1, "a"), principal(2, "b")];
    let roster = roster_of_application(principal(9, "owner"), Some(team));
    assert_eq!(roster.len(), 2);
    assert_eq!(roster[0].id, 1);
    let roster = roster_of_application(principal(9, "owner"), None);
    assert_eq!(roster.len(), 1);
    assert_eq!(roster[0].id, 9);
}
