//! Correspondents and their resolution.
//!
//! A correspondent is resolved either by numeric id (the server either
//! has the record or it does not) or by name. Name resolution works on
//! the server's filtered listing and demands a unique exact match,
//! where "exact" compares names ASCII-case-insensitively, as the
//! service does: zero exact matches fail with `NotFound`, more than one
//! with `Ambiguous` — a match is never picked silently.

use vstd::prelude::*;
use vstd::string::StrSliceExecFns;

use crate::errors::PaperlessToolError;

verus! {

broadcast use vstd::prelude::Seq::lemma_filter_push;

/// A read-only snapshot of one correspondent record.
#[derive(Debug)]
pub struct Correspondent {
    pub id: i32,
    pub name: String,
    pub document_count: i32,
}

impl Clone for Correspondent {
    fn clone(&self) -> (r: Self)
        ensures
            r == *self,
    {
        Correspondent {
            id: self.id,
            name: self.name.clone(),
            document_count: self.document_count,
        }
    }
}

/// A Unicode scalar with an ASCII upper-case letter folded to its
/// lower-case form; every other scalar is left as it is.
pub open spec fn lower_scalar(u: u32) -> u32 {
    if 65 <= u && u <= 90 {
        (u + 32) as u32
    } else {
        u
    }
}

/// Whether two characters are equal up to ASCII case.
pub open spec fn chars_match_nocase(a: char, b: char) -> bool {
    lower_scalar(a as u32) == lower_scalar(b as u32)
}

/// Whether two names are equal up to ASCII case: same length, and
/// equal character by character once ASCII letters are case-folded.
pub open spec fn names_match(a: Seq<char>, b: Seq<char>) -> bool {
    a.len() == b.len() && (forall|i: int| 0 <= i < a.len() ==> chars_match_nocase(a[i], b[i]))
}

/// Decides [`names_match`] on two name slices.
pub fn name_matches(a: &str, b: &str) -> (r: bool)
    ensures
        r == names_match(a@, b@),
{
    let n = a.unicode_len();
    if n != b.unicode_len() {
        return false;
    }
    let mut i: usize = 0;
    while i < n
        invariant
            a@.len() == n,
            b@.len() == n,
            i <= n,
            forall|j: int| 0 <= j < i ==> chars_match_nocase(a@[j], b@[j]),
        decreases n - i,
    {
        let ua = a.get_char(i) as u32;
        let ub = b.get_char(i) as u32;
        let la = if 65 <= ua && ua <= 90 {
            ua + 32
        } else {
            ua
        };
        let lb = if 65 <= ub && ub <= 90 {
            ub + 32
        } else {
            ub
        };
        if la != lb {
            return false;
        }
        i = i + 1;
    }
    true
}

/// Whether a correspondent's name is an exact (case-folded) match for
/// the queried name.
pub open spec fn is_exact_match(c: Correspondent, name: Seq<char>) -> bool {
    names_match(c.name@, name)
}

/// The sub-listing of candidates whose name exactly matches the query,
/// in listing order.
pub open spec fn exact_matches(candidates: Seq<Correspondent>, name: Seq<char>) -> Seq<
    Correspondent,
> {
    candidates.filter(|c: Correspondent| is_exact_match(c, name))
}

/// Resolves a correspondent by name over the server's filtered
/// listing: succeeds exactly when one candidate's name is an exact
/// (case-folded) match, fails with `NotFound` on zero exact matches
/// and with `Ambiguous` (carrying the match count) on more than one.
pub fn resolve_by_name(candidates: &Vec<Correspondent>, name: &str) -> (r: Result<
    Correspondent,
    PaperlessToolError,
>)
    ensures
        exact_matches(candidates@, name@).len() == 0 ==> (r matches Err(e) && e is NotFound),
        exact_matches(candidates@, name@).len() == 1 ==> (r matches Ok(c) && c == exact_matches(
            candidates@,
            name@,
        )[0]),
        exact_matches(candidates@, name@).len() > 1 ==> (r matches Err(e)
            && e matches PaperlessToolError::Ambiguous { matches } && matches as int
            == exact_matches(candidates@, name@).len()),
{
    let mut count: usize = 0;
    let mut found: Option<Correspondent> = None;
    let mut i: usize = 0;
    while i < candidates.len()
        invariant
            i <= candidates@.len(),
            count <= i,
            count as int == exact_matches(candidates@.take(i as int), name@).len(),
            count == 0 <==> found is None,
            found matches Some(c) ==> c == exact_matches(candidates@.take(i as int), name@)[0],
        decreases candidates@.len() - i,
    {
        proof {
            assert(candidates@.take(i as int + 1) =~= candidates@.take(i as int).push(
                candidates@[i as int],
            ));
        }
        let c = &candidates[i];
        if name_matches(c.name.as_str(), name) {
            if count == 0 {
                found = Some(c.clone());
            }
            count = count + 1;
        }
        i = i + 1;
    }
    proof {
        assert(candidates@.take(candidates@.len() as int) =~= candidates@);
    }
    if count == 0 {
        Err(PaperlessToolError::NotFound)
    } else if count == 1 {
        match found {
            Some(c) => Ok(c),
            None => Err(PaperlessToolError::NotFound),
        }
    } else {
        Err(PaperlessToolError::Ambiguous { matches: count })
    }
}

/// Resolves a correspondent by id from the server's answer to a fetch
/// of that id: the record if the server has one, `NotFound` otherwise.
pub fn resolve_by_id(fetched: Option<Correspondent>) -> (r: Result<
    Correspondent,
    PaperlessToolError,
>)
    ensures
        fetched matches Some(c) ==> (r matches Ok(rc) && rc == c),
        fetched is None ==> (r matches Err(e) && e is NotFound),
{
    match fetched {
        Some(c) => Ok(c),
        None => Err(PaperlessToolError::NotFound),
    }
}

} // verus!
