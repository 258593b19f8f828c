use vstd::prelude::*;
use vstd::string::StringSliceAdditionalSpecFns;

verus! {

/// Keywords of statements that write; a read-only session must not run them.
pub const WRITE_PATTERNS: [&'static str; 9] = [
    "UPDATE",
    "INSERT",
    "ALTER",
    "CREATE",
    "DROP",
    "GRANT",
    "REVOKE",
    "DELETE",
    "TRUNCATE",
];

/// A byte with ASCII letters folded to lower case.
pub open spec fn fold_ascii(b: u8) -> u8 {
    if 65 <= b <= 90 {
        (b + 32) as u8
    } else {
        b
    }
}

/// `pat` occurs in `hay` at `i`, ASCII letters compared without regard to case.
pub open spec fn occurs_ci_at(pat: Seq<u8>, hay: Seq<u8>, i: int) -> bool {
    &&& 0 <= i
    &&& i + pat.len() <= hay.len()
    &&& forall|j: int| 0 <= j < pat.len() ==> fold_ascii(#[trigger] hay[i + j]) == fold_ascii(pat[j])
}

/// `pat` occurs somewhere in `hay`, ASCII letters compared without regard to case.
pub open spec fn occurs_ci(pat: Seq<u8>, hay: Seq<u8>) -> bool {
    exists|i: int| #[trigger] occurs_ci_at(pat, hay, i)
}

/// Some pattern of `patterns` occurs in `hay`, without regard to ASCII case.
pub open spec fn any_occurs_ci(patterns: Seq<&str>, hay: Seq<u8>) -> bool {
    exists|i: int| 0 <= i < patterns.len() && #[trigger] occurs_ci(patterns[i].spec_bytes(), hay)
}

/// `query` names a statement that writes.
pub open spec fn writes(query: &str) -> bool {
    any_occurs_ci(WRITE_PATTERNS@, query.spec_bytes())
}

/// Relies on aho_corasick's AhoCorasickBuilder::build, with ASCII case
/// folding on, and AhoCorasick::is_match: whether any of the patterns occurs
/// in the haystack. `None` when the automaton could not be built.
#[verifier::external_body]
fn match_any_ci(patterns: &[&str], haystack: &str) -> (r: Option<bool>)
    ensures
        r matches Some(found) ==> found == any_occurs_ci(patterns@, haystack.spec_bytes()),
{
    match aho_corasick::AhoCorasickBuilder::new().ascii_case_insensitive(true).build(patterns) {
        Ok(ac) => Some(ac.is_match(haystack)),
        Err(_) => None,
    }
}

/// Whether a query may run, given the session's mode and what the search
/// for write keywords found (`None`: the search could not run).
pub fn readonly_verdict(readonly: bool, found: Option<bool>) -> (r: bool)
    ensures
        r == (!readonly || found == Some(false)),
{
    if !readonly {
        true
    } else {
        match found {
            Some(f) => !f,
            None => false,
        }
    }
}

/// Lets `query` through unless the session is read-only and the query
/// holds a write keyword. A read-only session also refuses the query when
/// the search could not run.
pub fn check_readonly<'a>(query: &'a str, readonly: bool) -> (r: Option<&'a str>)
    ensures
        r matches Some(q) ==> q == query,
        !readonly ==> r == Some(query),
        readonly && writes(query) ==> r is None,
        r is Some ==> !(readonly && writes(query)),
{
    if !readonly {
        return Some(query);
    }
    let found = match_any_ci(WRITE_PATTERNS.as_slice(), query);
    if readonly_verdict(readonly, found) {
        Some(query)
    } else {
        None
    }
}

} // verus!
