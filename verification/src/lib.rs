//! A two-pass constant-folding pipeline.
//!
//! A function whose body cannot be evaluated at compile time is run once
//! during a *compute pass*; its result is encoded and persisted in an
//! artifact store together with a fingerprint of the function's source
//! text. A later *emit pass* validates the fingerprint and rewrites the
//! function into a constant form that yields the recorded value.

use vstd::prelude::*;

pub mod classify;
pub mod codec;
pub mod laws;
pub mod passthrough;
pub mod stage_one;
pub mod stage_two;
pub mod store;
pub mod text;
pub mod validate;

verus! {

/// Discriminator selecting the encoding strategy for a persisted payload.
#[derive(PartialEq, Eq, Structural, Clone, Copy, Debug)]
pub enum FormatTag {
    /// The payload is the canonical textual rendering of the value,
    /// re-embeddable verbatim as a literal.
    Textual,
    /// The payload is a comma-rendered list of the bytes of the value's
    /// in-memory representation.
    RawBytes,
}

impl FormatTag {
    /// The one-byte discriminator stored in front of a persisted payload.
    pub open spec fn spec_byte(self) -> u8 {
        match self {
            FormatTag::Textual => 0,
            FormatTag::RawBytes => 1,
        }
    }

    /// Executable form of [`Self::spec_byte`].
    pub fn byte(self) -> (r: u8)
        ensures
            r == self.spec_byte(),
    {
        match self {
            FormatTag::Textual => 0,
            FormatTag::RawBytes => 1,
        }
    }

    /// The strategy a stored tag byte denotes; any byte but 0 or 1 is
    /// no valid record.
    pub fn from_byte(b: u8) -> (r: Option<FormatTag>)
        ensures
            r == (if b == 0 {
                Some(FormatTag::Textual)
            } else if b == 1 {
                Some(FormatTag::RawBytes)
            } else {
                None::<FormatTag>
            }),
    {
        if b == 0 {
            Some(FormatTag::Textual)
        } else if b == 1 {
            Some(FormatTag::RawBytes)
        } else {
            None
        }
    }
}

/// The fatal and non-fatal failures of the two passes.
#[derive(PartialEq, Eq, Structural, Clone, Copy, Debug)]
pub enum PipelineError {
    /// The decorated function returns nothing, so there is no value to
    /// persist; raised at transform time on the compute pass.
    UnsupportedReturnType,
    /// The emit pass found no stored record for the function.
    MissingArtifact,
    /// The stored fingerprint disagrees with the function's current
    /// source fingerprint; the compute pass must be re-run.
    StaleArtifact,
    /// A raw-bytes payload's length disagrees with the exact in-memory
    /// size of the target type.
    SerializationFailure,
}

impl PipelineError {
    /// The diagnostic text for this failure: what went wrong and, for
    /// the fatal store errors, the corrective action (re-running the
    /// compute pass).
    pub open spec fn spec_text(self) -> Seq<char> {
        match self {
            PipelineError::UnsupportedReturnType => "returns nothing and cannot become a constant"@,
            PipelineError::MissingArtifact => "has no stored artifact; run the compute pass first"@,
            PipelineError::StaleArtifact => "has an obsolete artifact; run the compute pass again"@,
            PipelineError::SerializationFailure => "has a stored byte payload that does not match the type's in-memory size; run the compute pass again"@,
        }
    }

    /// The full diagnostic for a failure at the decorated function
    /// `name`: the offending function, then what to do about it.
    pub open spec fn spec_message(self, name: Seq<char>) -> Seq<char> {
        name + ": "@ + self.spec_text()
    }

    /// Renders [`Self::spec_message`].
    pub fn message(self, name: &String) -> (r: String)
        ensures
            r@ == self.spec_message(name@),
    {
        let mut out = String::from_str(name.as_str());
        out.append(": ");
        match self {
            PipelineError::UnsupportedReturnType => out.append(
                "returns nothing and cannot become a constant",
            ),
            PipelineError::MissingArtifact => out.append(
                "has no stored artifact; run the compute pass first",
            ),
            PipelineError::StaleArtifact => out.append(
                "has an obsolete artifact; run the compute pass again",
            ),
            PipelineError::SerializationFailure => out.append(
                "has a stored byte payload that does not match the type's in-memory size; run the compute pass again",
            ),
        }
        out
    }
}

/// A decorated function's return type: its structural shape, read by
/// the classifier, and its source text, spliced back by the emit pass.
#[derive(Debug, PartialEq, Eq)]
pub struct ReturnTy {
    /// The structural descriptor the classifier reads.
    pub shape: classify::TypeDescr,
    /// The type's source text (without the arrow), spliced into the
    /// rewritten declaration.
    pub source: String,
}

/// Ghost mirror of [`ReturnTy`].
pub struct ReturnTyView {
    pub shape: classify::TypeDescr,
    pub source: Seq<char>,
}

impl View for ReturnTy {
    type V = ReturnTyView;

    open spec fn view(&self) -> ReturnTyView {
        ReturnTyView { shape: self.shape, source: self.source@ }
    }
}

/// Everything captured about a decorated function at transform time:
/// identifier, visibility, return type and the canonical source text of
/// the whole declaration. Immutable within a compilation pass.
#[derive(Debug, PartialEq, Eq)]
pub struct FunctionDescriptor {
    /// The function's identifier.
    pub name: String,
    /// The function's visibility source text (empty for private).
    pub visibility: String,
    /// The return type; `None` for a function that returns nothing.
    pub return_type: Option<ReturnTy>,
    /// The canonical source text of the whole declaration, the
    /// function's identity across the two passes.
    pub source: String,
}

/// Ghost mirror of [`FunctionDescriptor`].
pub struct DescriptorView {
    pub name: Seq<char>,
    pub visibility: Seq<char>,
    pub return_type: Option<ReturnTyView>,
    pub source: Seq<char>,
}

impl DescriptorView {
    /// The structural shape of the return type, if any.
    pub open spec fn return_shape(self) -> Option<classify::TypeDescr> {
        match self.return_type {
            None => None,
            Some(rt) => Some(rt.shape),
        }
    }
}

impl View for FunctionDescriptor {
    type V = DescriptorView;

    open spec fn view(&self) -> DescriptorView {
        DescriptorView {
            name: self.name@,
            visibility: self.visibility@,
            return_type: match self.return_type {
                None => None,
                Some(ref rt) => Some(rt@),
            },
            source: self.source@,
        }
    }
}

} // verus!
