//! The per-request resolver: a state machine from received request to
//! response.
//!
//! A request moves through the phases received → policy pending → data
//! pending → responded. The policy decision strictly precedes data access:
//! the only transition that asks for data is an affirmative decision, and a
//! denial or a policy failure responds at once, so the store is never
//! consulted for a request the policy did not approve. The driver performs
//! each returned effect — posting the decision request, fetching rows — and
//! hands the plain outcome back to the next step.

use crate::policy::{
    decide, spec_decide, spec_request_body, token_view, AuthzError, OpaInput, PolicyOutcome,
    PolicyParameters, SessionParameters,
};
use crate::session::{
    map_session, spec_map_session, ProposalRow, Session, SessionRow,
};
use crate::token::{extract_bearer, header_view, is_bearer_header, spec_extract_bearer};
use vstd::prelude::*;

verus! {

/// Where a request stands in its resolution.
#[derive(Debug, Clone, Copy, PartialEq, Eq, Structural)]
pub enum Phase {
    /// The request has arrived; nothing has been decided.
    Received,
    /// The decision request has been issued; the verdict is awaited.
    PolicyPending,
    /// The policy approved; the row fetch is awaited.
    DataPending,
    /// The response has been produced.
    Responded,
}

/// A request-scoped failure, as the response reports it.
#[derive(Debug, Clone, Copy, PartialEq, Eq, Structural)]
pub enum RequestError {
    /// The policy explicitly denied access.
    PolicyDenied,
    /// The policy service could not be reached or did not answer in the
    /// expected shape — distinguishable from an explicit denial.
    PolicyUnreachable,
    /// The store failed; detail stays out of the response.
    Storage,
}

/// What came back from the row fetch: rows, or a storage failure.
#[derive(Debug, PartialEq, Eq)]
pub enum DataOutcome {
    /// The fetch completed; at most one row was expected.
    Rows(Option<(SessionRow, Option<ProposalRow>)>),
    /// The fetch failed.
    StorageFailure,
}

/// What the driver must do next: one outbound call, or the finished
/// response.
#[derive(Debug, PartialEq, Eq)]
pub enum Effect {
    /// Post this decision request body to the policy endpoint, with the
    /// current trace context injected into the outbound headers.
    QueryPolicy(Vec<u8>),
    /// Fetch the session row answering this proposal and visit.
    FetchData {
        /// The queried proposal number.
        proposal: u32,
        /// The queried visit number.
        visit: u32,
    },
    /// Send this response; the request is finished.
    Respond(Result<Option<Session>, RequestError>),
}

/// The request error an authorization failure reports.
pub open spec fn spec_authz_request_error(e: AuthzError) -> RequestError {
    match e {
        AuthzError::Denied => RequestError::PolicyDenied,
        AuthzError::Unreachable => RequestError::PolicyUnreachable,
    }
}

/// The response an approved request makes of its data outcome: the mapped
/// row, an explicit null when no row matched, or the storage error.
pub open spec fn spec_data_response(d: DataOutcome) -> Result<Option<Session>, RequestError> {
    match d {
        DataOutcome::Rows(Some((row, proposal))) => Ok(Some(spec_map_session(row, proposal))),
        DataOutcome::Rows(None) => Ok(None),
        DataOutcome::StorageFailure => Err(RequestError::Storage),
    }
}

/// The response of a whole resolution: what the policy outcome and — only
/// under an affirmative decision — the data outcome determine.
pub open spec fn spec_respond(o: PolicyOutcome, d: DataOutcome) -> Result<
    Option<Session>,
    RequestError,
> {
    match spec_decide(o) {
        Ok(u) => spec_data_response(d),
        Err(e) => Err(spec_authz_request_error(e)),
    }
}

/// One in-flight session query resolution.
pub struct SessionResolver {
    /// The queried proposal number.
    pub proposal: u32,
    /// The queried visit number.
    pub visit: u32,
    /// Where the resolution stands.
    pub phase: Phase,
}

impl SessionResolver {
    /// Begins resolving a session query.
    pub fn new(proposal: u32, visit: u32) -> (r: Self)
        ensures
            r.proposal == proposal,
            r.visit == visit,
            r.phase == Phase::Received,
    {
        SessionResolver { proposal, visit, phase: Phase::Received }
    }

    /// Extracts the optional bearer credential from the authorization
    /// header and issues the decision request: the first outbound call of
    /// every resolution. An absent or malformed header yields a request
    /// with an explicit null token, never a failure.
    pub fn start(&mut self, header: Option<&[u8]>) -> (e: Effect)
        requires
            old(self).phase == Phase::Received,
        ensures
            final(self).phase == Phase::PolicyPending,
            final(self).proposal == old(self).proposal,
            final(self).visit == old(self).visit,
            e matches Effect::QueryPolicy(body) && body@ == spec_request_body(
                spec_extract_bearer(header_view(header)),
                (SessionParameters { proposal: old(self).proposal, visit: old(self).visit }).json_spec(),
            ),
    {
        let token = extract_bearer(header);
        proof {
            if token is Some {
                let h = header_view(header)->0;
                assert(is_bearer_header(h));
            }
        }
        let input = OpaInput::new(
            token,
            SessionParameters { proposal: self.proposal, visit: self.visit },
        );
        let body = input.body();
        proof {
            assert(token_view(input.token) == spec_extract_bearer(header_view(header)));
        }
        self.phase = Phase::PolicyPending;
        Effect::QueryPolicy(body)
    }

    /// Interprets the policy verdict. Exactly an affirmative well-formed
    /// verdict moves the resolution on to the row fetch; a denial and a
    /// transport failure each respond at once with their distinct error,
    /// and no data is ever requested for them.
    pub fn on_policy(&mut self, outcome: &PolicyOutcome) -> (e: Effect)
        requires
            old(self).phase == Phase::PolicyPending,
        ensures
            final(self).proposal == old(self).proposal,
            final(self).visit == old(self).visit,
            spec_decide(*outcome) is Ok ==> final(self).phase == Phase::DataPending && (
            e matches Effect::FetchData { proposal, visit } && proposal == old(self).proposal
                && visit == old(self).visit),
            spec_decide(*outcome) is Err ==> final(self).phase == Phase::Responded && (
            e matches Effect::Respond(r) && r == Err::<Option<Session>, RequestError>(
                spec_authz_request_error(spec_decide(*outcome)->Err_0),
            )),
    {
        match decide(outcome) {
            Ok(()) => {
                self.phase = Phase::DataPending;
                Effect::FetchData { proposal: self.proposal, visit: self.visit }
            },
            Err(AuthzError::Denied) => {
                self.phase = Phase::Responded;
                Effect::Respond(Err(RequestError::PolicyDenied))
            },
            Err(AuthzError::Unreachable) => {
                self.phase = Phase::Responded;
                Effect::Respond(Err(RequestError::PolicyUnreachable))
            },
        }
    }

    /// Maps what the approved row fetch produced into the response: the
    /// mapped row, an explicit null when nothing matched — not an error —
    /// or the storage error.
    pub fn on_data(&mut self, data: DataOutcome) -> (e: Effect)
        requires
            old(self).phase == Phase::DataPending,
        ensures
            final(self).phase == Phase::Responded,
            final(self).proposal == old(self).proposal,
            final(self).visit == old(self).visit,
            e matches Effect::Respond(r) && r == spec_data_response(data),
    {
        self.phase = Phase::Responded;
        match data {
            DataOutcome::Rows(Some((row, proposal))) => Effect::Respond(
                Ok(Some(map_session(row, proposal))),
            ),
            DataOutcome::Rows(None) => Effect::Respond(Ok(None)),
            DataOutcome::StorageFailure => Effect::Respond(Err(RequestError::Storage)),
        }
    }
}

/// The root query of the service.
#[derive(Debug, Clone, Copy, Default)]
pub struct Query;

impl Query {
    /// Retrieves a beamline session: begins the resolution of one
    /// `session(proposal, visit)` query.
    pub fn session(&self, proposal: u32, visit: u32) -> (r: SessionResolver)
        ensures
            r.proposal == proposal,
            r.visit == visit,
            r.phase == Phase::Received,
    {
        SessionResolver::new(proposal, visit)
    }
}

/// A root query for a schema composed of this service's query roots,
/// independent of transport: the shape it induces needs no live store and
/// no policy endpoint.
#[derive(Debug, Clone, Copy, Default)]
pub struct RootQuery;

/// Under a denied decision the response is exactly the denial error, and it
/// does not depend on any data outcome: whatever the store would have
/// yielded, the response is the same — the fetch, which the resolver never
/// issues for a denied request, could not have influenced it.
pub proof fn lemma_denial_blocks_data_access(o: PolicyOutcome, d1: DataOutcome, d2: DataOutcome)
    requires
        spec_decide(o) == Err::<(), AuthzError>(AuthzError::Denied),
    ensures
        spec_respond(o, d1) == Err::<Option<Session>, RequestError>(RequestError::PolicyDenied),
        spec_respond(o, d1) == spec_respond(o, d2),
{
}

/// A policy call that failed at the transport level responds with the
/// unreachable error, which is a different error from the explicit denial,
/// and likewise independent of any data outcome.
pub proof fn lemma_transport_failure_response_distinct(o: PolicyOutcome, d: DataOutcome)
    requires
        o is TransportFailure,
    ensures
        spec_respond(o, d) == Err::<Option<Session>, RequestError>(RequestError::PolicyUnreachable),
        spec_respond(o, d) != Err::<Option<Session>, RequestError>(RequestError::PolicyDenied),
{
}

/// Identical queries against unchanged data and an unchanging policy
/// decision resolve to identical responses: the response is a function of
/// the two outcomes alone.
pub proof fn lemma_identical_queries_identical_responses(
    o1: PolicyOutcome,
    o2: PolicyOutcome,
    d1: DataOutcome,
    d2: DataOutcome,
)
    requires
        o1 == o2,
        d1 == d2,
    ensures
        spec_respond(o1, d1) == spec_respond(o2, d2),
{
}

} // verus!
