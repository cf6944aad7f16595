//! The resolution bridge for externally stored markup fragments.  A document
//! may pull such fragments in by path; a caller-supplied resolution function
//! maps the path to the fragment's text.  The bridge normalizes every
//! possible outcome of that foreign call, and supplies the default resolver,
//! which supports no such fragments and fails on every path.

use vstd::prelude::*;

verus! {

/// A failed resolution.  Whatever went wrong on the foreign side, the path
/// that could not be resolved is preserved, so that the outer parse error
/// can report which fragment failed.
#[derive(Debug)]
pub struct ResolutionError {
    pub path: String,
}

impl ResolutionError {
    /// A diagnostic line: the generic failure kind, then the offending path.
    pub fn message(&self) -> (r: String)
        ensures
            r@ == "resolution failed: "@ + self.path@,
    {
        let mut m = "resolution failed: ".to_owned();
        m.append(self.path.as_str());
        m
    }
}

/// The default resolver: it resolves nothing, and fails on every path while
/// preserving it.  Handing a document without fragment references to a
/// parser equipped with this resolver is a legitimate, fully supported
/// arrangement; only a document that does reference a fragment makes the
/// failure surface as a parse error.
pub fn noop_resolve(path: &str) -> (r: Result<String, ResolutionError>)
    ensures
        r is Err,
        r->Err_0.path@ == path@,
{
    Err(ResolutionError { path: path.to_owned() })
}

/// Normalizes the outcome of a foreign resolution callback: the fragment's
/// text when the callback produced some, and a `ResolutionError` carrying
/// the path when it failed in any way — a missing file, a foreign exception
/// or a malformed return value all land in `None` and are treated alike.
pub fn bridge_outcome(path: &str, outcome: Option<String>) -> (r: Result<
    String,
    ResolutionError,
>)
    ensures
        outcome is Some ==> r is Ok && r->Ok_0@ == outcome->0@,
        outcome is None ==> r is Err && r->Err_0.path@ == path@,
{
    match outcome {
        Some(content) => Ok(content),
        None => Err(ResolutionError { path: path.to_owned() }),
    }
}

} // verus!
