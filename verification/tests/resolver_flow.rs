//! Tests of the row mapping, the in-memory accessor search, and the
//! resolver state machine driven through whole request scenarios.

use sessions::resolver::{
    DataOutcome, Effect, Phase, Query, RequestError, SessionResolver,
};
use sessions::policy::PolicyOutcome;
use sessions::session::{
    find_all, find_by_id, find_by_visit, map_proposal, map_session, row_matches, FieldParseError,
    ProposalRow, SessionRow,
};

fn session_row(id: u32, visit: Option<u32>) -> SessionRow {
    SessionRow { session_id: id, visit_number: visit, start_date: None, end_date: None }
}

fn proposal_row(code: Option<&[u8]>, number: Option<&[u8]>) -> ProposalRow {
    ProposalRow {
        proposal_code: code.map(|c| c.to_vec()),
        proposal_number: number.map(|n| n.to_vec()),
    }
}

#[test]
fn missing_visit_number_maps_to_explicit_null() {
    let row = SessionRow {
        session_id: 7,
        visit_number: None,
        start_date: Some(1_700_000_000_000_000),
        end_date: None,
    };
    let mapped = map_session(row, None);
    assert_eq!(mapped.visit, None);
    assert_ne!(mapped.visit, Some(0));
    assert_eq!(mapped.id, 7);
    assert_eq!(mapped.start, Some(1_700_000_000_000_000));
    assert_eq!(mapped.end, None);
    assert_eq!(mapped.proposal, None);
}

#[test]
fn proposal_number_parses_during_mapping() {
    let mapped = map_proposal(proposal_row(Some(b"cm"), Some(b"12345")));
    assert_eq!(mapped.code, Some(b"cm".to_vec()));
    assert_eq!(mapped.number, Ok(Some(12345)));
}

#[test]
fn unparseable_proposal_number_is_a_field_error_with_siblings_intact() {
    let mapped = map_proposal(proposal_row(Some(b"cm"), Some(b"abc")));
    assert_eq!(mapped.number, Err(FieldParseError));
    assert_eq!(mapped.code, Some(b"cm".to_vec()));
}

#[test]
fn absent_proposal_number_maps_to_null_not_error() {
    let mapped = map_proposal(proposal_row(None, None));
    assert_eq!(mapped.number, Ok(None));
    assert_eq!(mapped.code, None);
}

#[test]
fn row_matches_on_parsed_proposal_number_and_visit() {
    let row = session_row(1, Some(3));
    let prop = Some(proposal_row(None, Some(b"12345")));
    assert!(row_matches(&row, &prop, 12345, 3));
    assert!(!row_matches(&row, &prop, 12345, 4));
    assert!(!row_matches(&row, &prop, 12344, 3));
    assert!(!row_matches(&session_row(1, None), &prop, 12345, 3));
    assert!(!row_matches(&row, &None, 12345, 3));
    let unparseable = Some(proposal_row(None, Some(b"abc")));
    assert!(!row_matches(&row, &unparseable, 12345, 3));
}

#[test]
fn find_by_visit_returns_first_match_in_storage_order() {
    let rows = vec![
        (session_row(1, Some(2)), Some(proposal_row(None, Some(b"10")))),
        (session_row(2, Some(3)), Some(proposal_row(Some(b"cm"), Some(b"10")))),
        (session_row(3, Some(3)), Some(proposal_row(Some(b"sw"), Some(b"10")))),
    ];
    let found = find_by_visit(rows, 10, 3);
    assert_eq!(found.as_ref().map(|(s, _)| s.session_id), Some(2));
}

#[test]
fn find_by_visit_finds_nothing_without_error() {
    let rows = vec![
        (session_row(1, Some(2)), Some(proposal_row(None, Some(b"1")))),
    ];
    assert_eq!(find_by_visit(rows, 1, 99), None);
    assert_eq!(find_by_visit(Vec::new(), 1, 99), None);
}

#[test]
fn find_all_maps_every_row_in_storage_order() {
    let rows = vec![
        (session_row(1, Some(2)), Some(proposal_row(Some(b"cm"), Some(b"10")))),
        (session_row(2, None), None),
    ];
    let mapped = find_all(rows);
    assert_eq!(mapped.len(), 2);
    assert_eq!(mapped[0].id, 1);
    assert_eq!(mapped[0].proposal.as_ref().map(|p| p.number.clone()), Some(Ok(Some(10))));
    assert_eq!(mapped[1].id, 2);
    assert_eq!(mapped[1].visit, None);
    assert_eq!(mapped[1].proposal, None);
    assert_eq!(find_all(Vec::new()), Vec::new());
}

#[test]
fn find_by_id_returns_first_carrier_or_nothing() {
    let rows = vec![
        (session_row(5, Some(1)), None),
        (session_row(6, Some(2)), Some(proposal_row(None, Some(b"3")))),
    ];
    let found = find_by_id(rows, 6);
    assert_eq!(found.as_ref().map(|(s, _)| s.visit_number), Some(Some(2)));
    let rows = vec![(session_row(5, Some(1)), None)];
    assert_eq!(find_by_id(rows, 7), None);
}

/// Drives one whole resolution: a start, the given policy outcome, and —
/// only when the machine asks for data — the given rows. Returns the
/// response and how many times data was fetched.
fn drive(
    proposal: u32,
    visit: u32,
    header: Option<&[u8]>,
    policy: PolicyOutcome,
    rows: Option<(SessionRow, Option<ProposalRow>)>,
) -> (Result<Option<sessions::session::Session>, RequestError>, u32) {
    let mut resolver = Query.session(proposal, visit);
    let effect = resolver.start(header);
    let body = match effect {
        Effect::QueryPolicy(body) => body,
        other => panic!("expected a policy query, got {other:?}"),
    };
    assert!(!body.is_empty());
    let mut fetches: u32 = 0;
    let effect = resolver.on_policy(&policy);
    let response = match effect {
        Effect::Respond(r) => r,
        Effect::FetchData { proposal: p, visit: v } => {
            assert_eq!((p, v), (proposal, visit));
            fetches += 1;
            match resolver.on_data(DataOutcome::Rows(rows)) {
                Effect::Respond(r) => r,
                other => panic!("expected a response, got {other:?}"),
            }
        }
        other => panic!("unexpected effect {other:?}"),
    };
    assert_eq!(resolver.phase, Phase::Responded);
    (response, fetches)
}

fn allow() -> PolicyOutcome {
    PolicyOutcome::Response(br#"{"allow":true}"#.to_vec())
}

fn deny() -> PolicyOutcome {
    PolicyOutcome::Response(br#"{"allow":false}"#.to_vec())
}

#[test]
fn approved_query_returns_matching_session() {
    let row = session_row(42, Some(3));
    let prop = Some(proposal_row(Some(b"cm"), Some(b"12345")));
    let (response, fetches) = drive(12345, 3, Some(b"Bearer tok"), allow(), Some((row, prop)));
    assert_eq!(fetches, 1);
    let session = response.expect("no request error").expect("a session");
    assert_eq!(session.id, 42);
    assert_eq!(session.visit, Some(3));
    let proposal = session.proposal.expect("a proposal");
    assert_eq!(proposal.number, Ok(Some(12345)));
    assert_eq!(proposal.code, Some(b"cm".to_vec()));
}

#[test]
fn denied_query_carries_the_denial_and_fetches_nothing() {
    let row = session_row(42, Some(3));
    let prop = Some(proposal_row(Some(b"cm"), Some(b"12345")));
    let (response, fetches) = drive(12345, 3, Some(b"Bearer tok"), deny(), Some((row, prop)));
    assert_eq!(fetches, 0);
    assert_eq!(response, Err(RequestError::PolicyDenied));
}

#[test]
fn approved_query_with_no_matching_row_is_null_without_error() {
    let (response, fetches) = drive(1, 99, Some(b"Bearer tok"), allow(), None);
    assert_eq!(fetches, 1);
    assert_eq!(response, Ok(None));
}

#[test]
fn policy_transport_failure_is_distinct_from_denial() {
    let (unreachable, fetches) =
        drive(1, 2, None, PolicyOutcome::TransportFailure, None);
    assert_eq!(fetches, 0);
    assert_eq!(unreachable, Err(RequestError::PolicyUnreachable));
    let (denied, _) = drive(1, 2, None, deny(), None);
    assert_ne!(unreachable, denied);
}

#[test]
fn storage_failure_maps_to_the_storage_error() {
    let mut resolver = SessionResolver::new(5, 6);
    resolver.start(None);
    match resolver.on_policy(&allow()) {
        Effect::FetchData { .. } => {}
        other => panic!("unexpected effect {other:?}"),
    }
    match resolver.on_data(DataOutcome::StorageFailure) {
        Effect::Respond(r) => assert_eq!(r, Err(RequestError::Storage)),
        other => panic!("unexpected effect {other:?}"),
    }
}

#[test]
fn identical_queries_get_identical_responses() {
    let make_rows = || {
        Some((
            session_row(42, Some(3)),
            Some(proposal_row(Some(b"cm"), Some(b"12345"))),
        ))
    };
    let (first, _) = drive(12345, 3, Some(b"Bearer tok"), allow(), make_rows());
    let (second, _) = drive(12345, 3, Some(b"Bearer tok"), allow(), make_rows());
    assert_eq!(first, second);
}

#[test]
fn query_without_header_still_reaches_the_policy() {
    let mut resolver = Query.session(8, 9);
    match resolver.start(None) {
        Effect::QueryPolicy(body) => {
            assert_eq!(
                body,
                br#"{"token":null,"parameters":{"proposal":8,"visit":9}}"#.to_vec()
            );
        }
        other => panic!("expected a policy query, got {other:?}"),
    }
}

#[test]
fn query_with_bearer_header_carries_the_token() {
    let mut resolver = Query.session(8, 9);
    match resolver.start(Some(b"Bearer tok")) {
        Effect::QueryPolicy(body) => {
            assert_eq!(
                body,
                br#"{"token":"tok","parameters":{"proposal":8,"visit":9}}"#.to_vec()
            );
        }
        other => panic!("expected a policy query, got {other:?}"),
    }
}
