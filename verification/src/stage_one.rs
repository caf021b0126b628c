//! The compute pass: instrumentation and artifact production.
//!
//! On this pass a decorated function is left in place and a wrapper is
//! generated beside it. Running the wrapper calls the function, encodes
//! the result, and hands back the payload with its format tag, having
//! recorded the function's current fingerprint in the identity slot.
//! The rewritten entry point then runs every wrapper and writes one
//! artifact record per listed function.

use vstd::prelude::*;

use crate::classify::is_primitive_type;
use crate::classify::spec_classify;
use crate::classify::Classification;
use crate::codec::encode_raw;
use crate::codec::encode_textual;
use crate::codec::spec_render_byte_list;
use crate::codec::spec_render_value;
use crate::codec::ConstValue;
use crate::store::ArtifactStore;
use crate::store::ArtifactView;
use crate::store::StoredArtifact;
use crate::text::str_eq;
use crate::FormatTag;
use crate::FunctionDescriptor;
use crate::PipelineError;

verus! {

/// The generated wrapper's identifier for a decorated function.
pub open spec fn spec_wrapper_name(name: Seq<char>) -> Seq<char> {
    "_"@ + name + "_wrapper_fn"@
}

/// The identity slot a decorated function's fingerprint is written to.
pub open spec fn spec_hash_path(name: Seq<char>) -> Seq<char> {
    "target/"@ + name + ".hash"@
}

/// The store slot a decorated function's artifact is written to.
pub open spec fn spec_result_path(name: Seq<char>) -> Seq<char> {
    "target/"@ + name + ".result"@
}

/// The encoding strategy the compute pass picks for a return type:
/// textual for a primitive-classified type; raw bytes for a complex
/// type only when the caller opted into unsafe serialization, and
/// best-effort textual otherwise (a documented risk, kept as is).
pub open spec fn spec_strategy(c: Classification, memop: bool) -> FormatTag {
    if c is Primitive {
        FormatTag::Textual
    } else if memop {
        FormatTag::RawBytes
    } else {
        FormatTag::Textual
    }
}

/// What the compute pass generates for one decorated function: the
/// unmodified original, and a wrapper under a derived name that will
/// record the fingerprint and encode the result with the chosen
/// strategy.
#[derive(Debug, PartialEq, Eq)]
pub struct StageOneExpansion {
    /// The original declaration, emitted unchanged.
    pub original_source: String,
    /// The generated wrapper's identifier.
    pub wrapper_name: String,
    /// Where the wrapper records the function's fingerprint.
    pub hash_path: String,
    /// The encoding strategy the wrapper will apply.
    pub strategy: FormatTag,
}

/// Ghost mirror of [`StageOneExpansion`].
pub struct StageOneView {
    pub original_source: Seq<char>,
    pub wrapper_name: Seq<char>,
    pub hash_path: Seq<char>,
    pub strategy: FormatTag,
}

impl View for StageOneExpansion {
    type V = StageOneView;

    open spec fn view(&self) -> StageOneView {
        StageOneView {
            original_source: self.original_source@,
            wrapper_name: self.wrapper_name@,
            hash_path: self.hash_path@,
            strategy: self.strategy,
        }
    }
}

/// The compute-pass rewrite of one decorated function, given its
/// descriptor and whether the unsafe-serialization modifier is set.
pub open spec fn spec_stage_one(d: crate::DescriptorView, memop: bool) -> Result<
    StageOneView,
    PipelineError,
> {
    match spec_classify(d.return_shape()) {
        Err(e) => Err(e),
        Ok(c) => Ok(
            StageOneView {
                original_source: d.source,
                wrapper_name: spec_wrapper_name(d.name),
                hash_path: spec_hash_path(d.name),
                strategy: spec_strategy(c, memop),
            },
        ),
    }
}

/// Compute-pass rewrite of a decorated function: keeps the original and
/// derives the wrapper. A function that returns nothing is rejected
/// with a diagnostic instead of silently producing a constant from
/// nothing.
pub fn const_fn(d: &FunctionDescriptor, memop: bool) -> (r: Result<
    StageOneExpansion,
    PipelineError,
>)
    ensures
        match r {
            Ok(e) => spec_stage_one(d@, memop) == Ok::<StageOneView, PipelineError>(e@),
            Err(pe) => spec_stage_one(d@, memop) == Err::<StageOneView, PipelineError>(pe),
        },
{
    match &d.return_type {
        None => Err(PipelineError::UnsupportedReturnType),
        Some(rt) => {
            let strategy = if is_primitive_type(&rt.shape) {
                FormatTag::Textual
            } else if memop {
                FormatTag::RawBytes
            } else {
                FormatTag::Textual
            };
            let mut wrapper_name = String::from_str("_");
            wrapper_name.append(d.name.as_str());
            wrapper_name.append("_wrapper_fn");
            let mut hash_path = String::from_str("target/");
            hash_path.append(d.name.as_str());
            hash_path.append(".hash");
            Ok(
                StageOneExpansion {
                    original_source: d.source.clone(),
                    wrapper_name,
                    hash_path,
                    strategy,
                },
            )
        },
    }
}

/// What one execution of a generated wrapper hands back: the
/// fingerprint it wrote to the identity slot, and the encoded payload
/// with its format tag.
#[derive(Debug, PartialEq, Eq)]
pub struct WrapperOutput {
    /// The fingerprint written to the identity slot: the decorated
    /// function's canonical source text at compute time.
    pub identity: String,
    /// The encoded result of running the decorated function.
    pub payload: String,
    /// The strategy that produced the payload.
    pub tag: FormatTag,
}

/// Ghost mirror of [`WrapperOutput`].
pub struct WrapperView {
    pub identity: Seq<char>,
    pub payload: Seq<char>,
    pub tag: FormatTag,
}

impl View for WrapperOutput {
    type V = WrapperView;

    open spec fn view(&self) -> WrapperView {
        WrapperView { identity: self.identity@, payload: self.payload@, tag: self.tag }
    }
}

/// The output of a textual-strategy wrapper run on a computed value.
pub open spec fn spec_wrapper_textual(source: Seq<char>, v: ConstValue) -> WrapperView {
    WrapperView {
        identity: source,
        payload: spec_render_value(v),
        tag: FormatTag::Textual,
    }
}

/// The output of a raw-bytes-strategy wrapper run on the computed
/// value's in-memory bytes.
pub open spec fn spec_wrapper_raw(source: Seq<char>, mem: Seq<u8>) -> WrapperView {
    WrapperView {
        identity: source,
        payload: spec_render_byte_list(mem),
        tag: FormatTag::RawBytes,
    }
}

/// One run of a textual-strategy wrapper: records the fingerprint and
/// encodes the value the decorated function computed.
pub fn run_wrapper_textual(d: &FunctionDescriptor, computed: &ConstValue) -> (w: WrapperOutput)
    ensures
        w@ == spec_wrapper_textual(d.source@, *computed),
{
    let (payload, tag) = encode_textual(computed);
    WrapperOutput { identity: d.source.clone(), payload, tag }
}

/// One run of a raw-bytes-strategy wrapper: records the fingerprint
/// and encodes the in-memory bytes of the value the decorated function
/// computed.
pub fn run_wrapper_raw(d: &FunctionDescriptor, mem: &Vec<u8>) -> (w: WrapperOutput)
    ensures
        w@ == spec_wrapper_raw(d.source@, mem@),
{
    let (payload, tag) = encode_raw(mem);
    WrapperOutput { identity: d.source.clone(), payload, tag }
}

/// One step of the rewritten entry point: which wrapper to call and
/// which store slot to write its artifact to.
#[derive(Debug, PartialEq, Eq)]
pub struct EntryStep {
    /// The wrapper to call.
    pub wrapper_name: String,
    /// The store slot for the artifact.
    pub result_path: String,
}

/// Ghost mirror of [`EntryStep`].
pub struct EntryStepView {
    pub wrapper_name: Seq<char>,
    pub result_path: Seq<char>,
}

impl View for EntryStep {
    type V = EntryStepView;

    open spec fn view(&self) -> EntryStepView {
        EntryStepView { wrapper_name: self.wrapper_name@, result_path: self.result_path@ }
    }
}

/// A quoted attribute token with its delimiters stripped.
pub open spec fn spec_strip_quotes(tok: Seq<char>) -> Seq<char> {
    tok.subrange(1, tok.len() - 1)
}

/// The entry steps an attribute token list denotes: one step per
/// non-comma token, in order, each naming the token's function once its
/// quotes are stripped.
pub open spec fn spec_entry_steps(toks: Seq<String>) -> Seq<EntryStepView>
    decreases toks.len(),
{
    if toks.len() == 0 {
        Seq::<EntryStepView>::empty()
    } else {
        spec_entry_steps(toks.drop_last()) + (if toks.last()@ == ","@ {
            Seq::<EntryStepView>::empty()
        } else {
            seq![
                EntryStepView {
                    wrapper_name: spec_wrapper_name(spec_strip_quotes(toks.last()@)),
                    result_path: spec_result_path(spec_strip_quotes(toks.last()@)),
                },
            ]
        })
    }
}

/// Compute-pass rewrite of the designated entry point: for each listed
/// function name (a quoted token; comma tokens separate them), one
/// entry step calling that function's wrapper and writing its artifact.
#[verifier::loop_isolation(false)]
pub fn main_fn(tokens: &Vec<String>) -> (r: Vec<EntryStep>)
    requires
        forall|j: int|
            0 <= j < tokens@.len() && (#[trigger] tokens@[j])@ != ","@ ==> tokens@[j]@.len() >= 2,
    ensures
        r@.len() == spec_entry_steps(tokens@).len(),
        forall|k: int|
            0 <= k < r@.len() ==> (#[trigger] r@[k])@ == spec_entry_steps(tokens@)[k],
{
    let mut out: Vec<EntryStep> = Vec::new();
    let mut i: usize = 0;
    while i < tokens.len()
        invariant
            i <= tokens@.len(),
            out@.len() == spec_entry_steps(tokens@.take(i as int)).len(),
            forall|k: int|
                0 <= k < out@.len() ==> (#[trigger] out@[k])@ == spec_entry_steps(
                    tokens@.take(i as int),
                )[k],
        decreases tokens@.len() - i,
    {
        let tok = &tokens[i];
        proof {
            let ii = i as int;
            assert(tokens@.take(ii + 1).drop_last() =~= tokens@.take(ii));
            assert(tokens@.take(ii + 1).last() == tokens@[ii]);
        }
        if !str_eq(tok.as_str(), ",") {
            let n = tok.as_str().unicode_len();
            let fn_name = tok.as_str().substring_char(1, n - 1);
            let mut wrapper_name = String::from_str("_");
            wrapper_name.append(fn_name);
            wrapper_name.append("_wrapper_fn");
            let mut result_path = String::from_str("target/");
            result_path.append(fn_name);
            result_path.append(".result");
            out.push(EntryStep { wrapper_name, result_path });
        }
        i += 1;
    }
    proof {
        assert(tokens@.take(tokens@.len() as int) =~= tokens@);
    }
    out
}

/// The record one wrapper run is consolidated into.
pub open spec fn spec_record_of(w: WrapperView) -> ArtifactView {
    ArtifactView { tag: w.tag, identity: w.identity, payload: w.payload }
}

/// One listed function's contribution to the compute pass: its
/// identifier and what its wrapper run handed back.
#[derive(Debug, PartialEq, Eq)]
pub struct ComputeResult {
    /// The decorated function's identifier.
    pub name: String,
    /// What its wrapper handed back.
    pub output: WrapperOutput,
}

/// The store contents after the rewritten entry point has written one
/// artifact per listed function, in order.
pub open spec fn spec_store_after(
    m: Map<Seq<char>, ArtifactView>,
    rs: Seq<ComputeResult>,
) -> Map<Seq<char>, ArtifactView>
    decreases rs.len(),
{
    if rs.len() == 0 {
        m
    } else {
        spec_store_after(m, rs.drop_last()).insert(
            rs.last().name@,
            spec_record_of(rs.last().output@),
        )
    }
}

/// The consolidated write pass of the rewritten entry point: for each
/// listed function, the tag is put in front of the payload and the
/// combined record is written to the store under the function's
/// identifier — one write per listed function per run.
#[verifier::loop_isolation(false)]
pub fn run_compute_pass(store: &mut ArtifactStore, results: &Vec<ComputeResult>)
    ensures
        final (store)@ == spec_store_after(old(store)@, results@),
{
    let mut i: usize = 0;
    while i < results.len()
        invariant
            i <= results@.len(),
            store@ == spec_store_after(old(store)@, results@.take(i as int)),
        decreases results@.len() - i,
    {
        proof {
            let ii = i as int;
            assert(results@.take(ii + 1).drop_last() =~= results@.take(ii));
            assert(results@.take(ii + 1).last() == results@[ii]);
        }
        let r = &results[i];
        let record = StoredArtifact {
            tag: r.output.tag,
            identity: r.output.identity.clone(),
            payload: r.output.payload.clone(),
        };
        store.write(r.name.clone(), record);
        i += 1;
    }
    proof {
        assert(results@.take(results@.len() as int) =~= results@);
    }
}

} // verus!
