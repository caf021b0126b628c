//! Source fingerprints and emit-pass validation.
//!
//! A function's identity across the two passes is its canonical source
//! text, compared byte for byte: two fingerprints are equal exactly
//! when the source texts are identical. On the emit pass the stored
//! fingerprint must match the function's current one, or compilation
//! aborts — continuing would silently embed a stale value.

use vstd::prelude::*;

use crate::store::ArtifactStore;
use crate::store::ArtifactView;
use crate::text::str_eq;
use crate::FormatTag;
use crate::PipelineError;

verus! {

/// The fingerprint a canonical source text denotes: the text itself.
pub open spec fn spec_fingerprint(source: Seq<char>) -> Seq<char> {
    source
}

/// Derives the stable identity of a declaration from its canonical
/// source text.
pub fn fingerprint_of(source: &String) -> (r: String)
    ensures
        r@ == spec_fingerprint(source@),
{
    source.clone()
}

/// Two fingerprints are equal exactly when the source texts they were
/// derived from are byte-identical.
pub proof fn lemma_fingerprint_faithful(s1: Seq<char>, s2: Seq<char>)
    ensures
        (spec_fingerprint(s1) == spec_fingerprint(s2)) <==> (s1 == s2),
{
}

/// The outcome of emit-pass validation for one function, given the
/// store's contents, the function's identifier and its current
/// fingerprint source: the stored tag and payload on a match, and a
/// fatal error when the record is absent or stale.
pub open spec fn spec_validate(
    m: Map<Seq<char>, ArtifactView>,
    name: Seq<char>,
    source: Seq<char>,
) -> Result<(FormatTag, Seq<char>), PipelineError> {
    if !m.contains_key(name) {
        Err(PipelineError::MissingArtifact)
    } else if m[name].identity != spec_fingerprint(source) {
        Err(PipelineError::StaleArtifact)
    } else {
        Ok((m[name].tag, m[name].payload))
    }
}

/// Reads the record stored under a function's identifier and compares
/// the stored fingerprint against the function's current source.
pub fn validate_artifact(store: &ArtifactStore, name: &String, current_source: &String) -> (r:
    Result<(FormatTag, String), PipelineError>)
    ensures
        match r {
            Ok(p) => spec_validate(store@, name@, current_source@) == Ok::<
                (FormatTag, Seq<char>),
                PipelineError,
            >((p.0, p.1@)),
            Err(e) => spec_validate(store@, name@, current_source@) == Err::<
                (FormatTag, Seq<char>),
                PipelineError,
            >(e),
        },
{
    match store.lookup(name) {
        None => Err(PipelineError::MissingArtifact),
        Some(rec) => {
            if str_eq(rec.identity.as_str(), current_source.as_str()) {
                Ok((rec.tag, rec.payload.clone()))
            } else {
                Err(PipelineError::StaleArtifact)
            }
        },
    }
}

} // verus!
