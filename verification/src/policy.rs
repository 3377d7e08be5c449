//! The policy decision request and the interpretation of the verdict.
//!
//! A decision request is a JSON document `{"token":...,"parameters":{...}}`:
//! the optional bearer credential, rendered as a JSON string or `null`, and a
//! closed, per-operation parameter object. The decision response is a JSON
//! document `{"allow":bool}`. An affirmative verdict permits data access; an
//! explicit `false` is an access denial; a transport failure or a response
//! of any other shape is a distinct "policy unreachable" error, never to be
//! conflated with a denial.

use crate::codec::{push_u32_dec, spec_u32_dec};
use crate::token::is_token68;
use vstd::prelude::*;

verus! {

// --- The decision request body -------------------------------------------

/// The parameter set a policy decision is made over: a value renderable as a
/// JSON object.
pub trait PolicyParameters: Sized {
    /// The JSON object the parameters render to.
    spec fn json_spec(&self) -> Seq<u8>;

    /// Renders the parameters as a JSON object.
    fn to_json(&self) -> (r: Vec<u8>)
        ensures
            r@ == self.json_spec(),
    ;
}

/// The parameters of a session query decision: the proposal number and the
/// visit number being requested.
#[derive(Debug, Clone, Copy, PartialEq, Eq, Structural)]
pub struct SessionParameters {
    /// The proposal of the session being requested.
    pub proposal: u32,
    /// The visit number of the session being requested.
    pub visit: u32,
}

/// The bytes of `{"proposal":`.
pub open spec fn lit_proposal_key() -> Seq<u8> {
    seq![123u8, 34u8, 112u8, 114u8, 111u8, 112u8, 111u8, 115u8, 97u8, 108u8, 34u8, 58u8]
}

/// The bytes of `,"visit":`.
pub open spec fn lit_visit_key() -> Seq<u8> {
    seq![44u8, 34u8, 118u8, 105u8, 115u8, 105u8, 116u8, 34u8, 58u8]
}

impl PolicyParameters for SessionParameters {
    /// `{"proposal":<proposal>,"visit":<visit>}`.
    open spec fn json_spec(&self) -> Seq<u8> {
        lit_proposal_key() + spec_u32_dec(self.proposal as nat) + lit_visit_key() + spec_u32_dec(
            self.visit as nat,
        ) + seq![125u8]
    }

    fn to_json(&self) -> (r: Vec<u8>) {
        let mut out: Vec<u8> = Vec::new();
        let proposal_key: [u8; 12] = [123, 34, 112, 114, 111, 112, 111, 115, 97, 108, 34, 58];
        let visit_key: [u8; 9] = [44, 34, 118, 105, 115, 105, 116, 34, 58];
        push_all(&mut out, proposal_key.as_slice());
        push_u32_dec(self.proposal, &mut out);
        push_all(&mut out, visit_key.as_slice());
        push_u32_dec(self.visit, &mut out);
        out.push(125);
        proof {
            assert(out@ =~= self.json_spec());
        }
        out
    }
}

/// The bytes of `{"token":`.
pub open spec fn lit_token_key() -> Seq<u8> {
    seq![123u8, 34u8, 116u8, 111u8, 107u8, 101u8, 110u8, 34u8, 58u8]
}

/// The bytes of `,"parameters":`.
pub open spec fn lit_parameters_key() -> Seq<u8> {
    seq![44u8, 34u8, 112u8, 97u8, 114u8, 97u8, 109u8, 101u8, 116u8, 101u8, 114u8, 115u8, 34u8, 58u8]
}

/// The bytes of `null`.
pub open spec fn lit_null() -> Seq<u8> {
    seq![110u8, 117u8, 108u8, 108u8]
}

/// The JSON rendering of the optional credential: a quoted string, or `null`.
pub open spec fn spec_token_json(t: Option<Seq<u8>>) -> Seq<u8> {
    match t {
        Some(s) => seq![34u8] + s + seq![34u8],
        None => lit_null(),
    }
}

/// The whole decision request document:
/// `{"token":<token>,"parameters":<parameters>}`.
pub open spec fn spec_request_body(t: Option<Seq<u8>>, parameters: Seq<u8>) -> Seq<u8> {
    lit_token_key() + spec_token_json(t) + lit_parameters_key() + parameters + seq![125u8]
}

/// The bytes an optional owned credential holds.
pub open spec fn token_view(t: Option<Vec<u8>>) -> Option<Seq<u8>> {
    match t {
        Some(v) => Some(v@),
        None => None,
    }
}

/// The input to a policy decision: the optional bearer credential carried by
/// the request, and the parameters the decision is made over.
pub struct OpaInput<P> {
    /// The access token associated with the request, when one was presented.
    pub token: Option<Vec<u8>>,
    /// Additional parameters the policy needs.
    pub parameters: P,
}

impl<P: PolicyParameters> OpaInput<P> {
    /// Whether the held credential, if any, is a `token68` value, as every
    /// credential the extractor yields is.
    pub open spec fn wf(&self) -> bool {
        match self.token {
            Some(t) => is_token68(t@),
            None => true,
        }
    }

    /// Builds a decision input from an extracted credential and the
    /// operation's parameters.
    pub fn new(token: Option<Vec<u8>>, parameters: P) -> (r: Self)
        ensures
            r.token == token,
            r.parameters == parameters,
    {
        OpaInput { token, parameters }
    }

    /// Renders the decision request document. A missing credential renders
    /// as an explicit `null`, never as an error. A `token68` credential
    /// holds no quote, backslash, or control character, so it embeds in a
    /// JSON string verbatim.
    pub fn body(&self) -> (r: Vec<u8>)
        requires
            self.wf(),
        ensures
            r@ == spec_request_body(token_view(self.token), self.parameters.json_spec()),
    {
        let mut out: Vec<u8> = Vec::new();
        let token_key: [u8; 9] = [123, 34, 116, 111, 107, 101, 110, 34, 58];
        let parameters_key: [u8; 14] = [44, 34, 112, 97, 114, 97, 109, 101, 116, 101, 114, 115, 34,
            58];
        push_all(&mut out, token_key.as_slice());
        match &self.token {
            Some(t) => {
                out.push(34);
                push_all(&mut out, t.as_slice());
                out.push(34);
            },
            None => {
                let null_lit: [u8; 4] = [110, 117, 108, 108];
                push_all(&mut out, null_lit.as_slice());
            },
        }
        push_all(&mut out, parameters_key.as_slice());
        let parameters = self.parameters.to_json();
        push_all(&mut out, parameters.as_slice());
        out.push(125);
        proof {
            assert(out@ =~= spec_request_body(token_view(self.token), self.parameters.json_spec()));
        }
        out
    }
}

/// Appends all of `bytes` to `out`.
fn push_all(out: &mut Vec<u8>, bytes: &[u8])
    ensures
        final(out)@ == old(out)@ + bytes@,
{
    let ghost orig = old(out)@;
    let mut i: usize = 0;
    while i < bytes.len()
        invariant
            0 <= i <= bytes@.len(),
            out@ =~= orig + bytes@.take(i as int),
        decreases bytes@.len() - i,
    {
        out.push(bytes[i]);
        i += 1;
    }
    proof {
        assert(out@ =~= orig + bytes@);
    }
}

// --- The decision response -----------------------------------------------

/// The verdict the policy decision service returns.
#[derive(Debug, Clone, Copy, PartialEq, Eq, Structural)]
pub struct Decision {
    /// Whether the operation should be permitted.
    pub allow: bool,
}

/// Whether a byte is JSON whitespace.
pub open spec fn is_ws(b: u8) -> bool {
    b == 32 || b == 9 || b == 10 || b == 13
}

/// The first position at or after `i` holding a byte that is not JSON
/// whitespace, or the end of the input.
pub open spec fn next_non_ws(s: Seq<u8>, i: int) -> int
    decreases s.len() - i,
    when 0 <= i <= s.len()
{
    if i >= s.len() {
        s.len() as int
    } else if is_ws(s[i]) {
        next_non_ws(s, i + 1)
    } else {
        i
    }
}

/// Whether `lit` occurs in `s` at position `i`.
pub open spec fn matches_at(s: Seq<u8>, i: int, lit: Seq<u8>) -> bool {
    0 <= i && i + lit.len() <= s.len() && s.subrange(i, i + lit.len() as int) == lit
}

/// The bytes of `"allow"`.
pub open spec fn lit_allow_key() -> Seq<u8> {
    seq![34u8, 97u8, 108u8, 108u8, 111u8, 119u8, 34u8]
}

/// The bytes of `true`.
pub open spec fn lit_true() -> Seq<u8> {
    seq![116u8, 114u8, 117u8, 101u8]
}

/// The bytes of `false`.
pub open spec fn lit_false() -> Seq<u8> {
    seq![102u8, 97u8, 108u8, 115u8, 101u8]
}

/// What follows the verdict literal in a well-formed decision document: the
/// closing brace and nothing but whitespace on either side of it.
pub open spec fn spec_decision_tail(s: Seq<u8>, j: int, v: bool) -> Option<bool>
    recommends
        0 <= j <= s.len(),
{
    let i4 = next_non_ws(s, j);
    if i4 < s.len() && s[i4] == 125 && next_non_ws(s, i4 + 1) == s.len() {
        Some(v)
    } else {
        None
    }
}

/// The verdict a decision document carries: `Some` exactly when the document
/// is `{"allow":true}` or `{"allow":false}` up to JSON whitespace between
/// tokens, and nothing for a document of any other shape.
pub open spec fn spec_decision(s: Seq<u8>) -> Option<bool> {
    let i0 = next_non_ws(s, 0);
    if i0 < s.len() && s[i0] == 123 {
        let i1 = next_non_ws(s, i0 + 1);
        if matches_at(s, i1, lit_allow_key()) {
            let i2 = next_non_ws(s, i1 + 7);
            if i2 < s.len() && s[i2] == 58 {
                let i3 = next_non_ws(s, i2 + 1);
                if matches_at(s, i3, lit_true()) {
                    spec_decision_tail(s, i3 + 4, true)
                } else if matches_at(s, i3, lit_false()) {
                    spec_decision_tail(s, i3 + 5, false)
                } else {
                    None
                }
            } else {
                None
            }
        } else {
            None
        }
    } else {
        None
    }
}

/// Advances past JSON whitespace.
fn skip_ws(s: &[u8], i: usize) -> (j: usize)
    requires
        i <= s@.len(),
    ensures
        i <= j <= s@.len(),
        j as int == next_non_ws(s@, i as int),
        j < s@.len() ==> !is_ws(s@[j as int]),
{
    let mut j = i;
    while j < s.len() && (s[j] == 32 || s[j] == 9 || s[j] == 10 || s[j] == 13)
        invariant
            i <= j <= s@.len(),
            next_non_ws(s@, i as int) == next_non_ws(s@, j as int),
        decreases s@.len() - j,
    {
        j += 1;
    }
    j
}

/// Whether `lit` occurs in `s` at position `i`.
fn match_bytes(s: &[u8], i: usize, lit: &[u8]) -> (r: bool)
    requires
        i <= s@.len(),
    ensures
        r == matches_at(s@, i as int, lit@),
{
    if s.len() - i < lit.len() {
        return false;
    }
    let mut k: usize = 0;
    while k < lit.len()
        invariant
            0 <= k <= lit@.len(),
            i + lit@.len() <= s@.len(),
            s@.len() <= usize::MAX,
            forall|m: int| 0 <= m < k ==> s@[i + m] == lit@[m],
        decreases lit@.len() - k,
    {
        if s[i + k] != lit[k] {
            proof {
                assert(s@.subrange(i as int, i + lit@.len() as int)[k as int] != lit@[k as int]);
            }
            return false;
        }
        k += 1;
    }
    proof {
        assert(s@.subrange(i as int, i + lit@.len() as int) =~= lit@);
    }
    true
}

/// Reads the decision document, yielding the verdict when the document has
/// the `{"allow":bool}` shape and nothing otherwise.
pub fn parse_decision(s: &[u8]) -> (r: Option<Decision>)
    ensures
        match r {
            Some(d) => spec_decision(s@) == Some(d.allow),
            None => spec_decision(s@) is None,
        },
{
    let i0 = skip_ws(s, 0);
    if !(i0 < s.len() && s[i0] == 123) {
        return None;
    }
    let i1 = skip_ws(s, i0 + 1);
    let allow_key: [u8; 7] = [34, 97, 108, 108, 111, 119, 34];
    proof {
        assert(allow_key@ =~= lit_allow_key());
    }
    if !match_bytes(s, i1, allow_key.as_slice()) {
        return None;
    }
    let i2 = skip_ws(s, i1 + 7);
    if !(i2 < s.len() && s[i2] == 58) {
        return None;
    }
    let i3 = skip_ws(s, i2 + 1);
    let true_lit: [u8; 4] = [116, 114, 117, 101];
    let false_lit: [u8; 5] = [102, 97, 108, 115, 101];
    proof {
        assert(true_lit@ =~= lit_true());
        assert(false_lit@ =~= lit_false());
    }
    let (value, after) = if match_bytes(s, i3, true_lit.as_slice()) {
        (true, i3 + 4)
    } else if match_bytes(s, i3, false_lit.as_slice()) {
        (false, i3 + 5)
    } else {
        return None;
    };
    let i4 = skip_ws(s, after);
    if !(i4 < s.len() && s[i4] == 125) {
        return None;
    }
    let i5 = skip_ws(s, i4 + 1);
    if i5 != s.len() {
        return None;
    }
    Some(Decision { allow: value })
}

// --- Interpreting the outcome of the decision call ------------------------

/// What came back from the policy decision call: a response body, or a
/// failure at the transport level.
#[derive(Debug, PartialEq, Eq)]
pub enum PolicyOutcome {
    /// The call returned a body.
    Response(Vec<u8>),
    /// The call failed before any body arrived.
    TransportFailure,
}

/// An authorization failure: the explicit denial, and the distinct case of a
/// policy service that could not be reached or did not answer in the
/// expected shape.
#[derive(Debug, Clone, Copy, PartialEq, Eq, Structural)]
pub enum AuthzError {
    /// The policy explicitly denied the operation.
    Denied,
    /// The policy service was unreachable or its response was not a
    /// decision document.
    Unreachable,
}

/// What an outcome of the decision call means: an affirmative verdict
/// permits, an explicit `false` denies, and everything else — transport
/// failure or a malformed response — is the distinct unreachable error.
pub open spec fn spec_decide(o: PolicyOutcome) -> Result<(), AuthzError> {
    match o {
        PolicyOutcome::Response(body) => match spec_decision(body@) {
            Some(true) => Ok(()),
            Some(false) => Err(AuthzError::Denied),
            None => Err(AuthzError::Unreachable),
        },
        PolicyOutcome::TransportFailure => Err(AuthzError::Unreachable),
    }
}

/// Interprets the outcome of a decision call, permitting exactly an
/// affirmative well-formed verdict.
pub fn decide(outcome: &PolicyOutcome) -> (r: Result<(), AuthzError>)
    ensures
        r == spec_decide(*outcome),
{
    match outcome {
        PolicyOutcome::Response(body) => match parse_decision(body.as_slice()) {
            Some(d) => if d.allow {
                Ok(())
            } else {
                Err(AuthzError::Denied)
            },
            None => Err(AuthzError::Unreachable),
        },
        PolicyOutcome::TransportFailure => Err(AuthzError::Unreachable),
    }
}

/// A transport-level failure of the decision call is distinguishable from an
/// explicit denial: the two outcomes interpret to different errors.
pub proof fn lemma_transport_failure_distinct_from_denial(o1: PolicyOutcome, o2: PolicyOutcome)
    requires
        o1 is TransportFailure,
        o2 is Response,
        spec_decision(o2->0@) == Some(false),
    ensures
        spec_decide(o1) == Err::<(), AuthzError>(AuthzError::Unreachable),
        spec_decide(o2) == Err::<(), AuthzError>(AuthzError::Denied),
        spec_decide(o1) != spec_decide(o2),
{
}

/// A request that carries no credential still produces a well-formed
/// decision request, with an explicit `null` token — absence is a value
/// handed to the policy, never an error.
pub proof fn lemma_missing_token_renders_null(parameters: Seq<u8>)
    ensures
        spec_request_body(None, parameters) == lit_token_key() + lit_null() + lit_parameters_key()
            + parameters + seq![125u8],
{
}

} // verus!
