//! Reading and writing a `citext` value through a backend that already reads
//! and writes plain text. The backend's own text codec does the byte work;
//! what is decided here is what becomes of the case on each path.
use vstd::prelude::*;
use crate::types::{CiString, lower_of};

verus! {

/// Reads a `citext` value as a `CiString`: the text that the backend's
/// plain-text decoding gave is kept as it is, and its error is passed on.
pub fn ci_string_from_sql<E>(decoded: Result<String, E>) -> (r: Result<CiString, E>)
    ensures
        match decoded {
            Ok(s) => r is Ok && r->Ok_0@ == s@,
            Err(e) => r matches Err(e2) && e2 == e,
        },
{
    match decoded {
        Ok(s) => Ok(CiString::from_string(s)),
        Err(e) => Err(e),
    }
}

/// Reads a `citext` value into plain text: the text that the backend's
/// plain-text decoding gave is folded to lowercase, and its error is passed
/// on.
pub fn string_from_sql<E>(decoded: Result<String, E>) -> (r: Result<String, E>)
    ensures
        match decoded {
            Ok(s) => r is Ok && r->Ok_0@ == lower_of(s@),
            Err(e) => r matches Err(e2) && e2 == e,
        },
{
    match decoded {
        Ok(s) => Ok(CiString::from_string(s).folded()),
        Err(e) => Err(e),
    }
}

/// The `CiString` that a structured format (such as JSON) reads from the
/// text `s`: its lowercase form.
pub fn ci_string_from_json(s: &str) -> (r: CiString)
    ensures
        r@ == lower_of(s@),
{
    let t = CiString::from_text(s);
    CiString::from_string(t.folded())
}

} // verus!
