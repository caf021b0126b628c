//! The emit pass: validation and constant splicing.
//!
//! On this pass the stored record for a decorated function is read
//! back, its fingerprint is compared against the function's current
//! source, and on a match the function is rewritten into a constant
//! form: a compile-time-evaluable function returning the recorded
//! literal for a textual payload, or an ordinary function rebuilding
//! the recorded bytes and reinterpreting them bit-for-bit for a
//! raw-bytes payload. Either form can hoist the value into a separate
//! named constant instead of inlining it.

use vstd::prelude::*;

use crate::codec::decode;
use crate::codec::spec_decode;
use crate::codec::DecodedSource;
use crate::codec::DecodedView;
use crate::store::ArtifactStore;
use crate::store::ArtifactView;
use crate::validate::spec_validate;
use crate::validate::validate_artifact;
use crate::FormatTag;
use crate::FunctionDescriptor;
use crate::PipelineError;

verus! {

/// The identifier of the named constant the "materialize constant"
/// mode hoists a decoded value into.
pub open spec fn spec_const_name(name: Seq<char>) -> Seq<char> {
    "CONST_VALUE_OF_FN_"@ + name
}

/// The rewritten declaration the emit pass produces for one function.
///
/// The textual forms are compile-time-evaluable; the raw-bytes forms
/// are ordinary functions, since the bit-level reinterpretation step is
/// not permitted in a compile-time-evaluable body.
#[derive(Debug, PartialEq, Eq)]
pub enum Emitted {
    /// A compile-time-evaluable function whose body returns the
    /// recorded literal directly.
    TextualInline { visibility: String, name: String, return_type: String, literal: String },
    /// A named compile-time constant bound to the recorded literal,
    /// and a compile-time-evaluable function returning that constant.
    TextualNamed {
        visibility: String,
        name: String,
        return_type: String,
        const_name: String,
        literal: String,
    },
    /// An ordinary function that builds the recorded byte-array
    /// literal inline and reinterprets it into the target type.
    RawInline {
        visibility: String,
        name: String,
        return_type: String,
        array_literal: String,
        byte_count: usize,
    },
    /// The byte-array literal hoisted into a named constant, and an
    /// ordinary function reinterpreting that constant.
    RawNamed {
        visibility: String,
        name: String,
        return_type: String,
        const_name: String,
        array_literal: String,
        byte_count: usize,
    },
}

/// Ghost mirror of [`Emitted`].
pub enum EmittedView {
    TextualInline { visibility: Seq<char>, name: Seq<char>, return_type: Seq<char>, literal: Seq<char> },
    TextualNamed {
        visibility: Seq<char>,
        name: Seq<char>,
        return_type: Seq<char>,
        const_name: Seq<char>,
        literal: Seq<char>,
    },
    RawInline {
        visibility: Seq<char>,
        name: Seq<char>,
        return_type: Seq<char>,
        array_literal: Seq<char>,
        byte_count: nat,
    },
    RawNamed {
        visibility: Seq<char>,
        name: Seq<char>,
        return_type: Seq<char>,
        const_name: Seq<char>,
        array_literal: Seq<char>,
        byte_count: nat,
    },
}

impl View for Emitted {
    type V = EmittedView;

    open spec fn view(&self) -> EmittedView {
        match self {
            Emitted::TextualInline { visibility, name, return_type, literal } =>
                EmittedView::TextualInline {
                visibility: visibility@,
                name: name@,
                return_type: return_type@,
                literal: literal@,
            },
            Emitted::TextualNamed { visibility, name, return_type, const_name, literal } =>
                EmittedView::TextualNamed {
                visibility: visibility@,
                name: name@,
                return_type: return_type@,
                const_name: const_name@,
                literal: literal@,
            },
            Emitted::RawInline { visibility, name, return_type, array_literal, byte_count } =>
                EmittedView::RawInline {
                visibility: visibility@,
                name: name@,
                return_type: return_type@,
                array_literal: array_literal@,
                byte_count: *byte_count as nat,
            },
            Emitted::RawNamed {
                visibility,
                name,
                return_type,
                const_name,
                array_literal,
                byte_count,
            } => EmittedView::RawNamed {
                visibility: visibility@,
                name: name@,
                return_type: return_type@,
                const_name: const_name@,
                array_literal: array_literal@,
                byte_count: *byte_count as nat,
            },
        }
    }
}

impl Emitted {
    /// Whether the rewritten function is compile-time-evaluable: true
    /// for the textual forms, false for the raw-bytes forms.
    pub fn is_compile_time_evaluable(&self) -> (r: bool)
        ensures
            r == (self@ is TextualInline || self@ is TextualNamed),
    {
        match self {
            Emitted::TextualInline { .. } => true,
            Emitted::TextualNamed { .. } => true,
            Emitted::RawInline { .. } => false,
            Emitted::RawNamed { .. } => false,
        }
    }
}

/// The rewritten declaration a validated record denotes, given the
/// function's signature parts, the "materialize constant" flag and the
/// exact in-memory size of the target type.
pub open spec fn spec_emit(
    visibility: Seq<char>,
    name: Seq<char>,
    return_type: Seq<char>,
    force_const: bool,
    tag: FormatTag,
    payload: Seq<char>,
    size_hint: nat,
) -> Result<EmittedView, PipelineError> {
    match spec_decode(tag, payload, size_hint) {
        Err(e) => Err(e),
        Ok(DecodedView::Literal(lit)) => Ok(
            if force_const {
                EmittedView::TextualNamed {
                    visibility,
                    name,
                    return_type,
                    const_name: spec_const_name(name),
                    literal: lit,
                }
            } else {
                EmittedView::TextualInline { visibility, name, return_type, literal: lit }
            },
        ),
        Ok(DecodedView::ByteArray(src, len)) => Ok(
            if force_const {
                EmittedView::RawNamed {
                    visibility,
                    name,
                    return_type,
                    const_name: spec_const_name(name),
                    array_literal: src,
                    byte_count: len,
                }
            } else {
                EmittedView::RawInline {
                    visibility,
                    name,
                    return_type,
                    array_literal: src,
                    byte_count: len,
                }
            },
        ),
    }
}

/// The return-type source text spliced into the rewritten declaration
/// (empty for a function that returns nothing).
pub open spec fn spec_return_source(d: crate::DescriptorView) -> Seq<char> {
    match d.return_type {
        None => Seq::<char>::empty(),
        Some(rt) => rt.source,
    }
}

/// The emit pass for one function, from the store's contents: validate
/// the stored fingerprint, then splice the decoded payload.
pub open spec fn spec_stage_two(
    m: Map<Seq<char>, ArtifactView>,
    d: crate::DescriptorView,
    force_const: bool,
    size_hint: nat,
) -> Result<EmittedView, PipelineError> {
    match spec_validate(m, d.name, d.source) {
        Err(e) => Err(e),
        Ok((tag, payload)) => spec_emit(
            d.visibility,
            d.name,
            spec_return_source(d),
            force_const,
            tag,
            payload,
            size_hint,
        ),
    }
}

/// Emit-pass rewrite of a decorated function: reads the stored record,
/// aborts with a fatal diagnostic when it is missing or stale, and
/// otherwise rewrites the function into its constant form. `size_hint`
/// is the exact in-memory size of the return type in the current
/// build, which a raw-bytes payload must match.
pub fn const_fn(
    d: &FunctionDescriptor,
    store: &ArtifactStore,
    force_const: bool,
    size_hint: usize,
) -> (r: Result<Emitted, PipelineError>)
    ensures
        match r {
            Ok(e) => spec_stage_two(store@, d@, force_const, size_hint as nat) == Ok::<
                EmittedView,
                PipelineError,
            >(e@),
            Err(pe) => spec_stage_two(store@, d@, force_const, size_hint as nat) == Err::<
                EmittedView,
                PipelineError,
            >(pe),
        },
{
    let (tag, payload) = match validate_artifact(store, &d.name, &d.source) {
        Ok(p) => p,
        Err(e) => {
            return Err(e);
        },
    };
    let return_type = match &d.return_type {
        None => String::new(),
        Some(rt) => rt.source.clone(),
    };
    let visibility = d.visibility.clone();
    let name = d.name.clone();
    match decode(tag, payload, size_hint) {
        Err(e) => Err(e),
        Ok(DecodedSource::Literal(lit)) => {
            if force_const {
                let mut const_name = String::from_str("CONST_VALUE_OF_FN_");
                const_name.append(name.as_str());
                Ok(
                    Emitted::TextualNamed {
                        visibility,
                        name,
                        return_type,
                        const_name,
                        literal: lit,
                    },
                )
            } else {
                Ok(Emitted::TextualInline { visibility, name, return_type, literal: lit })
            }
        },
        Ok(DecodedSource::ByteArray { source, len }) => {
            if force_const {
                let mut const_name = String::from_str("CONST_VALUE_OF_FN_");
                const_name.append(name.as_str());
                Ok(
                    Emitted::RawNamed {
                        visibility,
                        name,
                        return_type,
                        const_name,
                        array_literal: source,
                        byte_count: len,
                    },
                )
            } else {
                Ok(
                    Emitted::RawInline {
                        visibility,
                        name,
                        return_type,
                        array_literal: source,
                        byte_count: len,
                    },
                )
            }
        },
    }
}

/// Emit-pass rewrite of the designated entry point: the entry point's
/// own declaration is handed back unchanged.
pub fn main_fn(_attr: String, item: String) -> (r: String)
    ensures
        r == item,
{
    item
}

} // verus!
