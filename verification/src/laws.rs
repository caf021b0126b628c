//! Pipeline-wide guarantees, stated and proved over the spec-level
//! pipeline: the compute pass as a fold of store writes, and the emit
//! pass as validation plus splicing.

use vstd::prelude::*;

use crate::codec::spec_render_byte_list;
use crate::codec::spec_render_value;
use crate::codec::ConstValue;
use crate::stage_one::spec_record_of;
use crate::stage_one::spec_store_after;
use crate::stage_one::spec_wrapper_raw;
use crate::stage_one::spec_wrapper_textual;
use crate::stage_one::ComputeResult;
use crate::stage_two::spec_return_source;
use crate::stage_two::spec_stage_two;
use crate::stage_two::EmittedView;
use crate::store::ArtifactView;
use crate::validate::spec_fingerprint;
use crate::DescriptorView;
use crate::PipelineError;

verus! {

/// Round trip, primitive: after a compute pass records a textual
/// artifact for a function, an emit pass over the unchanged source
/// emits a compile-time-evaluable declaration whose literal is exactly
/// the canonical rendering of the computed value — which, by
/// [`crate::codec::lemma_render_value_injective`], determines that
/// value uniquely.
pub proof fn lemma_round_trip_primitive(
    m0: Map<Seq<char>, ArtifactView>,
    d: DescriptorView,
    v: ConstValue,
    force_const: bool,
    size_hint: nat,
)
    ensures
        ({
            let m1 = m0.insert(d.name, spec_record_of(spec_wrapper_textual(d.source, v)));
            spec_stage_two(m1, d, force_const, size_hint) == Ok::<EmittedView, PipelineError>(
                if force_const {
                    EmittedView::TextualNamed {
                        visibility: d.visibility,
                        name: d.name,
                        return_type: spec_return_source(d),
                        const_name: crate::stage_two::spec_const_name(d.name),
                        literal: spec_render_value(v),
                    }
                } else {
                    EmittedView::TextualInline {
                        visibility: d.visibility,
                        name: d.name,
                        return_type: spec_return_source(d),
                        literal: spec_render_value(v),
                    }
                },
            )
        }),
        forall|v2: ConstValue| spec_render_value(v2) == spec_render_value(v) ==> v2 == v,
{
    assert forall|v2: ConstValue| spec_render_value(v2) == spec_render_value(v) implies v2
        == v by {
        crate::codec::lemma_render_value_injective(v2, v);
    }
}

/// Round trip, raw bytes: after a compute pass records a raw-bytes
/// artifact for a function, an emit pass over the unchanged source,
/// given the true in-memory size, emits an ordinary declaration whose
/// array literal is exactly the rendering of the recorded bytes and
/// whose element count equals that size — and by
/// [`crate::codec::lemma_render_byte_list_injective`] the array
/// literal determines the recorded bytes, byte for byte.
pub proof fn lemma_round_trip_raw(
    m0: Map<Seq<char>, ArtifactView>,
    d: DescriptorView,
    mem: Seq<u8>,
    force_const: bool,
)
    requires
        mem.len() >= 1,
    ensures
        ({
            let m1 = m0.insert(d.name, spec_record_of(spec_wrapper_raw(d.source, mem)));
            spec_stage_two(m1, d, force_const, mem.len()) == Ok::<EmittedView, PipelineError>(
                if force_const {
                    EmittedView::RawNamed {
                        visibility: d.visibility,
                        name: d.name,
                        return_type: spec_return_source(d),
                        const_name: crate::stage_two::spec_const_name(d.name),
                        array_literal: spec_render_byte_list(mem),
                        byte_count: mem.len(),
                    }
                } else {
                    EmittedView::RawInline {
                        visibility: d.visibility,
                        name: d.name,
                        return_type: spec_return_source(d),
                        array_literal: spec_render_byte_list(mem),
                        byte_count: mem.len(),
                    }
                },
            )
        }),
        forall|mem2: Seq<u8>| spec_render_byte_list(mem2) == spec_render_byte_list(mem) ==> mem2
            == mem,
{
    crate::codec::lemma_byte_list_commas(mem);
    assert forall|mem2: Seq<u8>|
        spec_render_byte_list(mem2) == spec_render_byte_list(mem) implies mem2 == mem by {
        crate::codec::lemma_render_byte_list_injective(mem2, mem);
    }
}

/// Size guard, raw bytes: when the size the emit pass is given differs
/// from the recorded byte count — the type's layout changed without a
/// recompute — splicing fails with a serialization failure instead of
/// reinterpreting bytes of the wrong length.
pub proof fn lemma_raw_size_mismatch(
    m0: Map<Seq<char>, ArtifactView>,
    d: DescriptorView,
    mem: Seq<u8>,
    force_const: bool,
    size_hint: nat,
)
    requires
        mem.len() >= 1,
        size_hint != mem.len(),
    ensures
        ({
            let m1 = m0.insert(d.name, spec_record_of(spec_wrapper_raw(d.source, mem)));
            spec_stage_two(m1, d, force_const, size_hint) == Err::<EmittedView, PipelineError>(
                PipelineError::SerializationFailure,
            )
        }),
{
    crate::codec::lemma_byte_list_commas(mem);
}

/// Whether some listed compute result writes under an identifier.
pub open spec fn spec_written(rs: Seq<ComputeResult>, k: Seq<char>) -> bool {
    exists|i: int| 0 <= i < rs.len() && (#[trigger] rs[i]).name@ == k
}

proof fn lemma_store_after_unwritten(
    m: Map<Seq<char>, ArtifactView>,
    rs: Seq<ComputeResult>,
    k: Seq<char>,
)
    requires
        !spec_written(rs, k),
    ensures
        spec_store_after(m, rs).contains_key(k) == m.contains_key(k),
        m.contains_key(k) ==> spec_store_after(m, rs)[k] == m[k],
    decreases rs.len(),
{
    if rs.len() > 0 {
        assert(rs.last().name@ != k) by {
            assert(rs[rs.len() - 1] == rs.last());
        }
        assert(!spec_written(rs.drop_last(), k)) by {
            if spec_written(rs.drop_last(), k) {
                let i = choose|i: int|
                    0 <= i < rs.drop_last().len() && (#[trigger] rs.drop_last()[i]).name@ == k;
                assert(rs[i] == rs.drop_last()[i]);
            }
        }
        lemma_store_after_unwritten(m, rs.drop_last(), k);
    }
}

proof fn lemma_store_after_two(
    m1: Map<Seq<char>, ArtifactView>,
    m2: Map<Seq<char>, ArtifactView>,
    rs: Seq<ComputeResult>,
    k: Seq<char>,
)
    requires
        spec_written(rs, k),
    ensures
        spec_store_after(m1, rs).contains_key(k),
        spec_store_after(m2, rs).contains_key(k),
        spec_store_after(m1, rs)[k] == spec_store_after(m2, rs)[k],
    decreases rs.len(),
{
    let i = choose|i: int| 0 <= i < rs.len() && (#[trigger] rs[i]).name@ == k;
    if rs.last().name@ == k {
    } else {
        assert(i < rs.len() - 1);
        assert(spec_written(rs.drop_last(), k)) by {
            assert(rs.drop_last()[i] == rs[i]);
        }
        lemma_store_after_two(m1, m2, rs.drop_last(), k);
    }
}

/// Idempotence: running the same compute pass twice over an unchanged
/// source yields exactly the same store as running it once — every
/// artifact is rewritten identically.
pub proof fn lemma_compute_pass_idempotent(
    m0: Map<Seq<char>, ArtifactView>,
    rs: Seq<ComputeResult>,
)
    ensures
        spec_store_after(spec_store_after(m0, rs), rs) == spec_store_after(m0, rs),
{
    let once = spec_store_after(m0, rs);
    let twice = spec_store_after(once, rs);
    assert forall|k: Seq<char>| #[trigger]
        twice.contains_key(k) == once.contains_key(k) && (once.contains_key(k)
            ==> twice[k] == once[k]) by {
        if spec_written(rs, k) {
            lemma_store_after_two(once, m0, rs, k);
        } else {
            lemma_store_after_unwritten(once, rs, k);
            lemma_store_after_unwritten(m0, rs, k);
        }
    }
    assert(twice =~= once);
}

/// Invalidation: whenever the recorded identity differs from the
/// function's current canonical source — any textual change, however
/// small, since the fingerprint is faithful to the text — the emit
/// pass aborts with a stale-artifact error rather than splicing an
/// outdated value.
pub proof fn lemma_invalidation(
    m0: Map<Seq<char>, ArtifactView>,
    d: DescriptorView,
    record: ArtifactView,
    force_const: bool,
    size_hint: nat,
)
    requires
        record.identity != spec_fingerprint(d.source),
    ensures
        spec_stage_two(m0.insert(d.name, record), d, force_const, size_hint) == Err::<
            EmittedView,
            PipelineError,
        >(PipelineError::StaleArtifact),
{
}

/// Absence: a function whose artifact was never written (or was
/// deleted) fails the emit pass with a missing-artifact error.
pub proof fn lemma_missing(
    m0: Map<Seq<char>, ArtifactView>,
    d: DescriptorView,
    force_const: bool,
    size_hint: nat,
)
    requires
        !m0.contains_key(d.name),
    ensures
        spec_stage_two(m0, d, force_const, size_hint) == Err::<EmittedView, PipelineError>(
            PipelineError::MissingArtifact,
        ),
{
}

/// Independence, writes: writing — or corrupting, by overwriting with
/// an arbitrary record — the artifact of one function leaves the emit
/// pass of any other function unchanged.
pub proof fn lemma_independence_write(
    m0: Map<Seq<char>, ArtifactView>,
    other: Seq<char>,
    record: ArtifactView,
    d: DescriptorView,
    force_const: bool,
    size_hint: nat,
)
    requires
        d.name != other,
    ensures
        spec_stage_two(m0.insert(other, record), d, force_const, size_hint) == spec_stage_two(
            m0,
            d,
            force_const,
            size_hint,
        ),
{
}

/// Independence, deletion: deleting the artifact of one function
/// leaves the emit pass of any other function unchanged.
pub proof fn lemma_independence_remove(
    m0: Map<Seq<char>, ArtifactView>,
    other: Seq<char>,
    d: DescriptorView,
    force_const: bool,
    size_hint: nat,
)
    requires
        d.name != other,
    ensures
        spec_stage_two(m0.remove(other), d, force_const, size_hint) == spec_stage_two(
            m0,
            d,
            force_const,
            size_hint,
        ),
{
}

} // verus!
