//! The checks and defaults of the HTTP handlers: what a request must hold,
//! and what stands in for what it leaves out.

use vstd::prelude::*;
use crate::app_error::AppError;
use crate::search::{is_blank, trim};
use crate::text::{chars_of, concat, decimal, to_owned_string, u64_to_string};

verus! {

broadcast use vstd::string::group_string_axioms;

/// Whether `s` holds white space only.
pub fn blank(s: &str) -> (r: bool)
    ensures
        r == is_blank(s@),
        r == (trim(s@).len() == 0),
{
    proof {
        crate::search::lemma_trim_empty_iff_blank(s@);
    }
    let v = chars_of(s);
    let mut i: usize = 0;
    while i < v.len()
        invariant
            i <= v@.len(),
            v@ == s@,
            forall|k: int| 0 <= k < i ==> crate::search::is_ws(#[trigger] v@[k]),
        decreases v@.len() - i,
    {
        if !crate::search::is_ws_char(v[i]) {
            proof {
                crate::search::lemma_trim_empty_iff_blank(s@);
                assert(!crate::search::is_ws(s@[i as int]));
            }
            return false;
        }
        i = i + 1;
    }
    true
}

/// A project needs a name that is not blank.
pub fn validate_project_name(name: &str) -> (r: Result<(), AppError>)
    ensures
        trim(name@).len() == 0 ==> (r matches Err(AppError::BadRequest(m)) && m@ == "name ist erforderlich"@),
        trim(name@).len() > 0 ==> r is Ok,
{
    if blank(name) {
        Err(AppError::BadRequest(to_owned_string("name ist erforderlich")))
    } else {
        Ok(())
    }
}

/// A task needs a title that is not blank.
pub fn validate_task_title(title: &str) -> (r: Result<(), AppError>)
    ensures
        trim(title@).len() == 0 ==> (r matches Err(AppError::BadRequest(m)) && m@ == "title ist erforderlich"@),
        trim(title@).len() > 0 ==> r is Ok,
{
    if blank(title) {
        Err(AppError::BadRequest(to_owned_string("title ist erforderlich")))
    } else {
        Ok(())
    }
}

/// What `Uuid::parse_str` reads from a text, when it reads a UUID.
pub uninterp spec fn parsed_uuid(s: Seq<char>) -> Option<u128>;

/// `Uuid::parse_str`; its result is named `parsed_uuid`.
#[verifier::external_body]
fn parse_uuid(s: &str) -> (r: Option<u128>)
    ensures
        r == parsed_uuid(s@),
{
    uuid::Uuid::parse_str(s).ok().map(|u| u.as_u128())
}

/// The project of a new sandbox from the parsed `project_id`: the UUID, or
/// a bad request when there is none.
pub fn project_id_from(parsed: Option<u128>) -> (r: Result<u128, AppError>)
    ensures
        parsed matches Some(id) ==> r == Ok::<u128, AppError>(id),
        parsed is None ==> (r matches Err(AppError::BadRequest(m)) && m@ == "project_id ist erforderlich"@),
{
    match parsed {
        Some(id) => Ok(id),
        None => Err(AppError::BadRequest(to_owned_string("project_id ist erforderlich"))),
    }
}

/// The project of a new sandbox: the request's `project_id` text read as a
/// UUID; a missing text or one that is no UUID is a bad request.
pub fn sandbox_project_id(project_id: Option<&str>) -> (r: Result<u128, AppError>)
    ensures
        (project_id matches Some(t) && parsed_uuid(t@) is Some) ==> r == Ok::<u128, AppError>(parsed_uuid(project_id->0@)->0),
        !(project_id matches Some(t) && parsed_uuid(t@) is Some) ==> (r matches Err(AppError::BadRequest(m)) && m@ == "project_id ist erforderlich"@),
{
    let parsed = match project_id {
        Some(t) => parse_uuid(t),
        None => None,
    };
    project_id_from(parsed)
}

/// A consensus vote: the voter (`unknown` when not named) and the verdict
/// (no approval when not given).
pub fn vote_entry(voter: Option<&str>, approved: Option<bool>) -> (r: (String, bool))
    ensures
        r.0@ == (match voter {
            Some(v) => v@,
            None => "unknown"@,
        }),
        r.1 == (match approved {
            Some(a) => a,
            None => false,
        }),
{
    let name = match voter {
        Some(v) => to_owned_string(v),
        None => to_owned_string("unknown"),
    };
    let verdict = match approved {
        Some(a) => a,
        None => false,
    };
    (name, verdict)
}

/// The message of a world snapshot: the given one, `manual snapshot` when
/// none is given.
pub fn snapshot_message(message: Option<&str>) -> (m: String)
    ensures
        m@ == (match message {
            Some(t) => t@,
            None => "manual snapshot"@,
        }),
{
    match message {
        Some(t) => to_owned_string(t),
        None => to_owned_string("manual snapshot"),
    }
}

/// The sum of a sequence of counts.
pub open spec fn sum(s: Seq<usize>) -> int
    decreases s.len(),
{
    if s.len() == 0 { 0 } else { sum(s.drop_last()) + s.last() }
}

/// The counts of a world state: the number of chunks and the total number
/// of blocks, given each chunk's block count.
pub fn world_counts(blocks_per_chunk: &Vec<usize>) -> (r: (usize, usize))
    requires
        sum(blocks_per_chunk@) <= usize::MAX,
    ensures
        r.0 == blocks_per_chunk@.len(),
        r.1 == sum(blocks_per_chunk@),
{
    let mut total: usize = 0;
    let mut i: usize = 0;
    while i < blocks_per_chunk.len()
        invariant
            i <= blocks_per_chunk@.len(),
            total == sum(blocks_per_chunk@.take(i as int)),
            sum(blocks_per_chunk@) <= usize::MAX,
        decreases blocks_per_chunk@.len() - i,
    {
        assert(blocks_per_chunk@.take(i + 1).drop_last() =~= blocks_per_chunk@.take(i as int));
        proof {
            lemma_sum_prefix(blocks_per_chunk@, i + 1);
        }
        total = total + blocks_per_chunk[i];
        i = i + 1;
    }
    assert(blocks_per_chunk@.take(blocks_per_chunk@.len() as int) =~= blocks_per_chunk@);
    (blocks_per_chunk.len(), total)
}

/// The sum of a prefix never exceeds the sum of the whole.
proof fn lemma_sum_prefix(s: Seq<usize>, k: int)
    requires
        0 <= k <= s.len(),
    ensures
        sum(s.take(k)) <= sum(s),
    decreases s.len(),
{
    if k < s.len() {
        lemma_sum_prefix(s.drop_last(), k);
        assert(s.drop_last().take(k) =~= s.take(k));
    } else {
        assert(s.take(k) =~= s);
    }
}

/// The decimal text of a signed number.
pub open spec fn signed_decimal(n: i64) -> Seq<char> {
    if n < 0 { "-"@ + decimal((-n) as nat) } else { decimal(n as nat) }
}

/// The version of a new deployment: the requested one, else the current
/// Unix time in seconds as text.
pub fn deployment_version(version: Option<String>, now_secs: i64) -> (v: String)
    ensures
        version matches Some(s) ==> v == s,
        version is None ==> v@ == signed_decimal(now_secs),
{
    match version {
        Some(s) => s,
        None => {
            if now_secs < 0 {
                let magnitude: u64 = if now_secs == i64::MIN {
                    9_223_372_036_854_775_808u64
                } else {
                    (-now_secs) as u64
                };
                concat("-", u64_to_string(magnitude).as_str())
            } else {
                u64_to_string(now_secs as u64)
            }
        },
    }
}

} // verus!
