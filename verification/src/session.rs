//! The stored rows and their mapping to the response shape.
//!
//! A session row is read-only: the store creates and destroys it, this
//! service only reads it. Stored proposal numbers are optional strings that
//! must parse as unsigned integers; a value that does not is a field-level
//! error scoped to that one field, and sibling fields still resolve. A
//! lookup that matches nothing is an empty result, never an error.

use crate::codec::spec_parse_u32;
use crate::codec::parse_u32;
use vstd::prelude::*;

verus! {

/// A stored beamline session row. Timestamps are microseconds since the
/// Unix epoch, in UTC.
#[derive(Debug, Clone, Copy, PartialEq, Eq, Structural)]
pub struct SessionRow {
    /// The session's identifier.
    pub session_id: u32,
    /// The visit number, when one is recorded.
    pub visit_number: Option<u32>,
    /// When the session starts, when recorded.
    pub start_date: Option<i64>,
    /// When the session ends, when recorded.
    pub end_date: Option<i64>,
}

/// A stored experimental proposal row, related to zero or more sessions.
#[derive(Debug, PartialEq, Eq)]
pub struct ProposalRow {
    /// The proposal's code, when recorded.
    pub proposal_code: Option<Vec<u8>>,
    /// The proposal's number: an optional string that is expected to parse
    /// as an unsigned integer.
    pub proposal_number: Option<Vec<u8>>,
}

/// A parse failure scoped to a single response field; sibling fields are
/// unaffected.
#[derive(Debug, Clone, Copy, PartialEq, Eq, Structural)]
pub struct FieldParseError;

/// An experimental proposal as the response presents it.
#[derive(Debug, PartialEq, Eq)]
pub struct Proposal {
    /// The proposal's code, exactly as stored.
    pub code: Option<Vec<u8>>,
    /// The proposal's number: absent when not stored, a field-level error
    /// when the stored value does not parse as an unsigned integer.
    pub number: Result<Option<u32>, FieldParseError>,
}

/// A beamline session as the response presents it. A missing stored value
/// maps to an explicitly null field, never to a default.
#[derive(Debug, PartialEq, Eq)]
pub struct Session {
    /// The session's identifier.
    pub id: u32,
    /// The visit number; explicitly null when the row holds none.
    pub visit: Option<u32>,
    /// The start timestamp, microseconds since the Unix epoch, in UTC.
    pub start: Option<i64>,
    /// The end timestamp, microseconds since the Unix epoch, in UTC.
    pub end: Option<i64>,
    /// The owning proposal, when the row is related to one.
    pub proposal: Option<Proposal>,
}

/// The response shape of a stored proposal: the code as stored, the number
/// parsed, with a parse failure confined to the number field.
pub open spec fn spec_map_proposal(row: ProposalRow) -> Proposal {
    Proposal {
        code: row.proposal_code,
        number: match row.proposal_number {
            Some(s) => match spec_parse_u32(s@) {
                Some(n) => Ok(Some(n)),
                None => Err(FieldParseError),
            },
            None => Ok(None),
        },
    }
}

/// The response shape of a stored session row and its optional related
/// proposal. Every optional stored value passes through unchanged: absent
/// stays absent.
pub open spec fn spec_map_session(row: SessionRow, proposal: Option<ProposalRow>) -> Session {
    Session {
        id: row.session_id,
        visit: row.visit_number,
        start: row.start_date,
        end: row.end_date,
        proposal: match proposal {
            Some(p) => Some(spec_map_proposal(p)),
            None => None,
        },
    }
}

/// Maps a stored proposal row to its response shape.
pub fn map_proposal(row: ProposalRow) -> (p: Proposal)
    ensures
        p == spec_map_proposal(row),
{
    let number = match &row.proposal_number {
        Some(s) => match parse_u32(s.as_slice()) {
            Some(n) => Ok(Some(n)),
            None => Err(FieldParseError),
        },
        None => Ok(None),
    };
    Proposal { code: row.proposal_code, number }
}

/// Maps a stored session row and its optional related proposal to the
/// response shape.
pub fn map_session(row: SessionRow, proposal: Option<ProposalRow>) -> (s: Session)
    ensures
        s == spec_map_session(row, proposal),
{
    Session {
        id: row.session_id,
        visit: row.visit_number,
        start: row.start_date,
        end: row.end_date,
        proposal: match proposal {
            Some(p) => Some(map_proposal(p)),
            None => None,
        },
    }
}

/// Whether a stored session row and its related proposal answer a query for
/// the given proposal and visit numbers: the visit numbers are equal, and
/// the stored proposal number parses to the queried proposal number.
pub open spec fn spec_row_matches(
    row: SessionRow,
    proposal_row: Option<ProposalRow>,
    proposal: u32,
    visit: u32,
) -> bool {
    &&& row.visit_number == Some(visit)
    &&& match proposal_row {
        Some(p) => match p.proposal_number {
            Some(s) => spec_parse_u32(s@) == Some(proposal),
            None => false,
        },
        None => false,
    }
}

/// Whether a fetched row answers a query for the given proposal and visit.
pub fn row_matches(
    row: &SessionRow,
    proposal_row: &Option<ProposalRow>,
    proposal: u32,
    visit: u32,
) -> (r: bool)
    ensures
        r == spec_row_matches(*row, *proposal_row, proposal, visit),
{
    let visit_ok = match row.visit_number {
        Some(v) => v == visit,
        None => false,
    };
    if !visit_ok {
        return false;
    }
    match proposal_row {
        Some(p) => match &p.proposal_number {
            Some(s) => match parse_u32(s.as_slice()) {
                Some(n) => n == proposal,
                None => false,
            },
            None => false,
        },
        None => false,
    }
}

/// The first fetched row, in storage order, that answers a query for the
/// given proposal and visit, or nothing when no row does.
pub open spec fn spec_find_by_visit(
    rows: Seq<(SessionRow, Option<ProposalRow>)>,
    proposal: u32,
    visit: u32,
) -> Option<(SessionRow, Option<ProposalRow>)>
    decreases rows.len(),
{
    if rows.len() == 0 {
        None
    } else if spec_row_matches(rows[0].0, rows[0].1, proposal, visit) {
        Some(rows[0])
    } else {
        spec_find_by_visit(rows.drop_first(), proposal, visit)
    }
}

/// Skipping rows that do not match leaves the result of the search
/// unchanged.
proof fn lemma_find_skip(
    rows: Seq<(SessionRow, Option<ProposalRow>)>,
    proposal: u32,
    visit: u32,
    i: int,
)
    requires
        0 <= i <= rows.len(),
        forall|k: int| 0 <= k < i ==> !spec_row_matches(rows[k].0, rows[k].1, proposal, visit),
    ensures
        spec_find_by_visit(rows, proposal, visit) == spec_find_by_visit(
            rows.skip(i),
            proposal,
            visit,
        ),
    decreases i,
{
    if i == 0 {
        assert(rows.skip(0) =~= rows);
    } else {
        assert(rows.drop_first().skip(i - 1) =~= rows.skip(i));
        lemma_find_skip(rows.drop_first(), proposal, visit, i - 1);
    }
}

/// Searches the fetched rows for the one answering a query for the given
/// proposal and visit: the first match in storage order, or nothing — a
/// query that matches no row is an empty result, never an error.
pub fn find_by_visit(
    rows: Vec<(SessionRow, Option<ProposalRow>)>,
    proposal: u32,
    visit: u32,
) -> (r: Option<(SessionRow, Option<ProposalRow>)>)
    ensures
        r == spec_find_by_visit(rows@, proposal, visit),
{
    let mut work = rows;
    let mut i: usize = 0;
    while i < work.len()
        invariant
            work@ == rows@,
            0 <= i <= rows@.len(),
            forall|k: int|
                0 <= k < i ==> !spec_row_matches(rows@[k].0, rows@[k].1, proposal, visit),
        decreases rows@.len() - i,
    {
        let hit = {
            let (row, proposal_row) = &work[i];
            row_matches(row, proposal_row, proposal, visit)
        };
        if hit {
            proof {
                lemma_find_skip(rows@, proposal, visit, i as int);
                assert(rows@.skip(i as int)[0] == rows@[i as int]);
            }
            let found = work.remove(i);
            return Some(found);
        }
        i += 1;
    }
    proof {
        lemma_find_skip(rows@, proposal, visit, rows@.len() as int);
        assert(rows@.skip(rows@.len() as int) =~= Seq::<(SessionRow, Option<ProposalRow>)>::empty());
    }
    None
}

/// The response shapes of all fetched rows, in storage order.
pub open spec fn spec_map_sessions(rows: Seq<(SessionRow, Option<ProposalRow>)>) -> Seq<Session> {
    rows.map_values(|row: (SessionRow, Option<ProposalRow>)| spec_map_session(row.0, row.1))
}

/// Maps every fetched row to its response shape, keeping storage order.
pub fn find_all(rows: Vec<(SessionRow, Option<ProposalRow>)>) -> (r: Vec<Session>)
    ensures
        r@ == spec_map_sessions(rows@),
{
    let mut out: Vec<Session> = Vec::new();
    let mut work = rows;
    while work.len() != 0
        invariant
            out@ + spec_map_sessions(work@) =~= spec_map_sessions(rows@),
        decreases work@.len(),
    {
        let ghost before = work@;
        let (row, proposal) = work.remove(0);
        proof {
            assert(before.drop_first() =~= work@);
            assert(spec_map_sessions(before)[0] == spec_map_session(row, proposal));
            assert(spec_map_sessions(before).drop_first() =~= spec_map_sessions(work@));
        }
        out.push(map_session(row, proposal));
    }
    proof {
        assert(spec_map_sessions(work@) =~= Seq::<Session>::empty());
        assert(out@ =~= spec_map_sessions(rows@));
    }
    out
}

/// The first fetched row, in storage order, whose session identifier is the
/// one sought, or nothing when no row carries it.
pub open spec fn spec_find_by_id(
    rows: Seq<(SessionRow, Option<ProposalRow>)>,
    id: u32,
) -> Option<(SessionRow, Option<ProposalRow>)>
    decreases rows.len(),
{
    if rows.len() == 0 {
        None
    } else if rows[0].0.session_id == id {
        Some(rows[0])
    } else {
        spec_find_by_id(rows.drop_first(), id)
    }
}

/// Skipping rows with other identifiers leaves the lookup unchanged.
proof fn lemma_find_by_id_skip(rows: Seq<(SessionRow, Option<ProposalRow>)>, id: u32, i: int)
    requires
        0 <= i <= rows.len(),
        forall|k: int| 0 <= k < i ==> rows[k].0.session_id != id,
    ensures
        spec_find_by_id(rows, id) == spec_find_by_id(rows.skip(i), id),
    decreases i,
{
    if i == 0 {
        assert(rows.skip(0) =~= rows);
    } else {
        assert(rows.drop_first().skip(i - 1) =~= rows.skip(i));
        lemma_find_by_id_skip(rows.drop_first(), id, i - 1);
    }
}

/// Looks a session up by its identifier: the first row carrying it in
/// storage order, or nothing — never an error — when no row does.
pub fn find_by_id(rows: Vec<(SessionRow, Option<ProposalRow>)>, id: u32) -> (r: Option<
    (SessionRow, Option<ProposalRow>),
>)
    ensures
        r == spec_find_by_id(rows@, id),
{
    let mut work = rows;
    let mut i: usize = 0;
    while i < work.len()
        invariant
            work@ == rows@,
            0 <= i <= rows@.len(),
            forall|k: int| 0 <= k < i ==> rows@[k].0.session_id != id,
        decreases rows@.len() - i,
    {
        if work[i].0.session_id == id {
            proof {
                lemma_find_by_id_skip(rows@, id, i as int);
                assert(rows@.skip(i as int)[0] == rows@[i as int]);
            }
            let found = work.remove(i);
            return Some(found);
        }
        i += 1;
    }
    proof {
        lemma_find_by_id_skip(rows@, id, rows@.len() as int);
        assert(rows@.skip(rows@.len() as int) =~= Seq::<(SessionRow, Option<ProposalRow>)>::empty());
    }
    None
}

/// A row with no stored visit number maps to a response whose visit field is
/// explicitly null — never zero, never omitted.
pub proof fn lemma_missing_visit_maps_to_null(row: SessionRow, proposal: Option<ProposalRow>)
    requires
        row.visit_number is None,
    ensures
        spec_map_session(row, proposal).visit is None,
{
}

/// A proposal number that does not parse is an error scoped to the number
/// field alone: the code field still resolves, exactly as stored.
pub proof fn lemma_parse_failure_scoped_to_field(row: ProposalRow)
    ensures
        spec_map_proposal(row).code == row.proposal_code,
        spec_map_proposal(row).number is Err <==> (row.proposal_number is Some && spec_parse_u32(
            row.proposal_number->0@,
        ) is None),
{
}

} // verus!
