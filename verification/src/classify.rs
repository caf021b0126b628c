//! Return-type classification.
//!
//! A computed value can be re-embedded verbatim as a literal only when
//! its type is a scalar, or a fixed-size aggregate built entirely out of
//! scalars. Such types are classified [`Classification::Primitive`];
//! every other type is [`Classification::Complex`] and needs the
//! raw-bytes serialization strategy. A function with no return value at
//! all is rejected outright.

use vstd::prelude::*;

use crate::text::str_eq;
use crate::PipelineError;

verus! {

/// A structural descriptor of a return type, carrying exactly what the
/// classifier reads: the shape of the type and, for a plain path, its
/// segments.
#[derive(Debug, PartialEq, Eq)]
pub enum TypeDescr {
    /// A path type such as `i32` or `std::string::String`.
    Path { leading_colon: bool, segments: Vec<String> },
    /// A fixed-size array type; the descriptor of its element type.
    Array(Box<TypeDescr>),
    /// A parenthesized/grouped type; the descriptor of the inner type.
    Group(Box<TypeDescr>),
    /// A slice type; the descriptor of its element type.
    Slice(Box<TypeDescr>),
    /// A tuple type; the descriptors of its element types.
    Tuple(Vec<TypeDescr>),
    /// Any other shape of type (references, generics, trait objects, ...).
    Other,
}

/// Whether a single-segment path names a scalar type whose `Debug`
/// rendering is a valid literal of that same type.
pub open spec fn is_primitive_name(s: Seq<char>) -> bool {
    ||| s == "i8"@
    ||| s == "i16"@
    ||| s == "i32"@
    ||| s == "i64"@
    ||| s == "i128"@
    ||| s == "isize"@
    ||| s == "u8"@
    ||| s == "u16"@
    ||| s == "u32"@
    ||| s == "u64"@
    ||| s == "u128"@
    ||| s == "usize"@
    ||| s == "f32"@
    ||| s == "f64"@
    ||| s == "bool"@
    ||| s == "char"@
    ||| s == "str"@
}

/// Whether a type descriptor is primitive-like: a scalar, or an array,
/// group, slice or tuple whose element types are all primitive-like.
pub open spec fn is_primitive_spec(t: TypeDescr) -> bool
    decreases t,
{
    match t {
        TypeDescr::Path { leading_colon, segments } => !leading_colon && segments.len() == 1
            && is_primitive_name(segments[0]@),
        TypeDescr::Array(e) => is_primitive_spec(*e),
        TypeDescr::Group(e) => is_primitive_spec(*e),
        TypeDescr::Slice(e) => is_primitive_spec(*e),
        TypeDescr::Tuple(elems) => forall|i: int|
            0 <= i < elems.len() ==> is_primitive_spec(#[trigger] elems[i]),
        TypeDescr::Other => false,
    }
}

/// Executable form of [`is_primitive_name`].
fn is_primitive_name_exec(s: &String) -> (r: bool)
    ensures
        r == is_primitive_name(s@),
{
    let t = s.as_str();
    str_eq(t, "i8") || str_eq(t, "i16") || str_eq(t, "i32") || str_eq(t, "i64") || str_eq(
        t,
        "i128",
    ) || str_eq(t, "isize") || str_eq(t, "u8") || str_eq(t, "u16") || str_eq(t, "u32") || str_eq(
        t,
        "u64",
    ) || str_eq(t, "u128") || str_eq(t, "usize") || str_eq(t, "f32") || str_eq(t, "f64") || str_eq(
        t,
        "bool",
    ) || str_eq(t, "char") || str_eq(t, "str")
}

/// Executable form of [`is_primitive_spec`].
#[verifier::loop_isolation(false)]
pub fn is_primitive_type(t: &TypeDescr) -> (r: bool)
    ensures
        r == is_primitive_spec(*t),
    decreases *t,
{
    match t {
        TypeDescr::Path { leading_colon, segments } => {
            if *leading_colon || segments.len() != 1 {
                false
            } else {
                is_primitive_name_exec(&segments[0])
            }
        },
        TypeDescr::Array(e) => is_primitive_type(e),
        TypeDescr::Group(e) => is_primitive_type(e),
        TypeDescr::Slice(e) => is_primitive_type(e),
        TypeDescr::Tuple(elems) => {
            let mut i: usize = 0;
            while i < elems.len()
                invariant
                    i <= elems.len(),
                    forall|j: int| 0 <= j < i ==> is_primitive_spec(#[trigger] elems[j]),
                decreases elems.len() - i,
            {
                proof {
                    assert(decreases_to!(*t => elems@[i as int])) by {
                        assert(decreases_to!(*t => (*t)->Tuple_0));
                        assert((*t)->Tuple_0 == *elems);
                        assert(decreases_to!(*elems => elems@));
                        assert(decreases_to!(elems@ => elems@[i as int]));
                    }
                }
                if !is_primitive_type(&elems[i]) {
                    proof {
                        assert(!is_primitive_spec(elems[i as int]));
                    }
                    return false;
                }
                i += 1;
            }
            true
        },
        TypeDescr::Other => false,
    }
}

/// The serialization strategy a return type calls for.
#[derive(PartialEq, Eq, Structural, Clone, Copy, Debug)]
pub enum Classification {
    /// Directly expressible as a literal; textual encoding applies.
    Primitive,
    /// Needs raw-byte serialization to be reconstructed.
    Complex,
}

/// Classification of a whole return-type descriptor, where `None`
/// stands for a function that returns nothing.
pub open spec fn spec_classify(rt: Option<TypeDescr>) -> Result<Classification, PipelineError> {
    match rt {
        None => Err(PipelineError::UnsupportedReturnType),
        Some(t) => Ok(
            if is_primitive_spec(t) {
                Classification::Primitive
            } else {
                Classification::Complex
            },
        ),
    }
}

/// Classifies a return-type descriptor, rejecting a function that
/// returns nothing: no constant can be generated from it.
pub fn classify_return(rt: &Option<TypeDescr>) -> (r: Result<Classification, PipelineError>)
    ensures
        r == spec_classify(*rt),
{
    match rt {
        None => Err(PipelineError::UnsupportedReturnType),
        Some(t) => {
            if is_primitive_type(t) {
                Ok(Classification::Primitive)
            } else {
                Ok(Classification::Complex)
            }
        },
    }
}

} // verus!
