use constany::classify::TypeDescr;
use constany::codec::ConstValue;
use constany::passthrough;
use constany::stage_one;
use constany::stage_one::ComputeResult;
use constany::stage_two;
use constany::stage_two::Emitted;
use constany::store::ArtifactStore;
use constany::store::StoredArtifact;
use constany::validate::fingerprint_of;
use constany::validate::validate_artifact;
use constany::FormatTag;
use constany::FunctionDescriptor;
use constany::PipelineError;
use constany::ReturnTy;

fn path(name: &str) -> TypeDescr {
    TypeDescr::Path { leading_colon: false, segments: vec![name.to_string()] }
}

fn descr(name: &str, ty: Option<(TypeDescr, &str)>, source: &str) -> FunctionDescriptor {
    FunctionDescriptor {
        name: name.to_string(),
        visibility: "pub".to_string(),
        return_type: ty.map(|(shape, src)| ReturnTy { shape, source: src.to_string() }),
        source: source.to_string(),
    }
}

#[test]
fn passthrough_is_identity() {
    let item = "fn six() -> i32 { 6 }".to_string();
    assert_eq!(passthrough::const_fn(String::new(), item.clone()), item);
    assert_eq!(passthrough::main_fn(String::new(), item.clone()), item);
    assert_eq!(stage_two::main_fn(String::new(), item.clone()), item);
}

#[test]
fn stage_one_rejects_no_return() {
    let d = descr("six", None, "fn six() { }");
    assert_eq!(stage_one::const_fn(&d, false), Err(PipelineError::UnsupportedReturnType));
}

#[test]
fn stage_one_derives_wrapper_and_strategy() {
    let d = descr("six", Some((path("i32"), "i32")), "fn six() -> i32 { 6 }");
    let e = stage_one::const_fn(&d, false).unwrap();
    assert_eq!(e.wrapper_name, "_six_wrapper_fn");
    assert_eq!(e.hash_path, "target/six.hash");
    assert_eq!(e.original_source, "fn six() -> i32 { 6 }");
    assert_eq!(e.strategy, FormatTag::Textual);

    let complex = descr("mk", Some((path("Widget"), "Widget")), "fn mk() -> Widget { Widget }");
    let e = stage_one::const_fn(&complex, true).unwrap();
    assert_eq!(e.strategy, FormatTag::RawBytes);
    // Without the explicit unsafe-serialization modifier a complex type
    // still gets best-effort textual encoding.
    let e = stage_one::const_fn(&complex, false).unwrap();
    assert_eq!(e.strategy, FormatTag::Textual);
}

#[test]
fn entry_point_composer_lists_steps() {
    let tokens = vec!["\"foo\"".to_string(), ",".to_string(), "\"bar\"".to_string()];
    let steps = stage_one::main_fn(&tokens);
    assert_eq!(steps.len(), 2);
    assert_eq!(steps[0].wrapper_name, "_foo_wrapper_fn");
    assert_eq!(steps[0].result_path, "target/foo.result");
    assert_eq!(steps[1].wrapper_name, "_bar_wrapper_fn");
    assert_eq!(steps[1].result_path, "target/bar.result");
}

#[test]
fn entry_point_composer_handles_empty_and_single_lists() {
    assert_eq!(stage_one::main_fn(&Vec::new()).len(), 0);
    let steps = stage_one::main_fn(&vec!["\"only\"".to_string()]);
    assert_eq!(steps.len(), 1);
    assert_eq!(steps[0].wrapper_name, "_only_wrapper_fn");
}

#[test]
fn bool_value_round_trip() {
    let d = descr("flag", Some((path("bool"), "bool")), "fn flag() -> bool { !false }");
    let w = stage_one::run_wrapper_textual(&d, &ConstValue::Bool(true));
    assert_eq!(w.payload, "true");
    let mut store = ArtifactStore::new();
    stage_one::run_compute_pass(
        &mut store,
        &vec![ComputeResult { name: "flag".to_string(), output: w }],
    );
    let emitted = stage_two::const_fn(&d, &store, false, 0).unwrap();
    assert_eq!(
        emitted,
        Emitted::TextualInline {
            visibility: "pub".to_string(),
            name: "flag".to_string(),
            return_type: "bool".to_string(),
            literal: "true".to_string(),
        }
    );
}

#[test]
fn fingerprint_is_verbatim_source() {
    let src = "fn six() -> i32 { 6 }".to_string();
    assert_eq!(fingerprint_of(&src), src);
}

/// A function computing 1 + 5 additions starting from 1: the compute
/// pass stores tag 0 with payload text "6", and the emit pass yields a
/// compile-time-evaluable function returning the literal 6.
#[test]
fn six_by_five_additions_round_trip() {
    let source = "fn six() -> i32 { let mut a = 1; for _ in 0..5 { a += 1; } a }";
    let d = descr("six", Some((path("i32"), "i32")), source);
    let e = stage_one::const_fn(&d, false).unwrap();
    assert_eq!(e.strategy, FormatTag::Textual);

    let mut a: i32 = 1;
    for _ in 0..5 {
        a += 1;
    }
    assert_eq!(a, 6);
    let w = stage_one::run_wrapper_textual(&d, &ConstValue::Int(a as i64));
    assert_eq!(w.payload, "6");
    assert_eq!(w.tag.byte(), 0);
    assert_eq!(w.identity, source);

    let mut store = ArtifactStore::new();
    stage_one::run_compute_pass(
        &mut store,
        &vec![ComputeResult { name: "six".to_string(), output: w }],
    );
    let rec = store.lookup(&"six".to_string()).unwrap();
    assert_eq!(rec.tag.byte(), 0);
    assert_eq!(rec.payload, "6");

    let emitted = stage_two::const_fn(&d, &store, false, 0).unwrap();
    assert!(emitted.is_compile_time_evaluable());
    assert_eq!(
        emitted,
        Emitted::TextualInline {
            visibility: "pub".to_string(),
            name: "six".to_string(),
            return_type: "i32".to_string(),
            literal: "6".to_string(),
        }
    );
}

/// A function returning an 8-byte aggregate of non-primitive shape
/// with the unsafe-serialization modifier: the compute pass stores tag
/// 1 with exactly 8 byte values, the emit pass builds an 8-element
/// byte-array literal, and a layout change without a recompute fails
/// with a serialization failure.
#[test]
fn eight_byte_aggregate_round_trip() {
    let source = "fn mk() -> Pair { Pair(1, 2) }";
    let d = descr("mk", Some((path("Pair"), "Pair")), source);
    let e = stage_one::const_fn(&d, true).unwrap();
    assert_eq!(e.strategy, FormatTag::RawBytes);

    let mem: Vec<u8> = vec![1, 0, 0, 0, 2, 0, 0, 0];
    let w = stage_one::run_wrapper_raw(&d, &mem);
    assert_eq!(w.tag.byte(), 1);
    assert_eq!(w.payload, "[1, 0, 0, 0, 2, 0, 0, 0]");

    let mut store = ArtifactStore::new();
    stage_one::run_compute_pass(
        &mut store,
        &vec![ComputeResult { name: "mk".to_string(), output: w }],
    );

    let emitted = stage_two::const_fn(&d, &store, false, 8).unwrap();
    assert!(!emitted.is_compile_time_evaluable());
    assert_eq!(
        emitted,
        Emitted::RawInline {
            visibility: "pub".to_string(),
            name: "mk".to_string(),
            return_type: "Pair".to_string(),
            array_literal: "[1, 0, 0, 0, 2, 0, 0, 0]".to_string(),
            byte_count: 8,
        }
    );

    // The same record spliced for a type whose layout shrank to 4
    // bytes must fail rather than reinterpret the wrong length.
    assert_eq!(
        stage_two::const_fn(&d, &store, false, 4),
        Err(PipelineError::SerializationFailure)
    );
}

#[test]
fn materialize_constant_modes() {
    let d = descr("six", Some((path("i32"), "i32")), "fn six() -> i32 { 6 }");
    let w = stage_one::run_wrapper_textual(&d, &ConstValue::Int(6));
    let mut store = ArtifactStore::new();
    stage_one::run_compute_pass(
        &mut store,
        &vec![ComputeResult { name: "six".to_string(), output: w }],
    );
    let emitted = stage_two::const_fn(&d, &store, true, 0).unwrap();
    assert_eq!(
        emitted,
        Emitted::TextualNamed {
            visibility: "pub".to_string(),
            name: "six".to_string(),
            return_type: "i32".to_string(),
            const_name: "CONST_VALUE_OF_FN_six".to_string(),
            literal: "6".to_string(),
        }
    );

    let dm = descr("mk", Some((path("Pair"), "Pair")), "fn mk() -> Pair { Pair(1, 2) }");
    let w = stage_one::run_wrapper_raw(&dm, &vec![7, 8]);
    let mut store = ArtifactStore::new();
    stage_one::run_compute_pass(
        &mut store,
        &vec![ComputeResult { name: "mk".to_string(), output: w }],
    );
    let emitted = stage_two::const_fn(&dm, &store, true, 2).unwrap();
    assert_eq!(
        emitted,
        Emitted::RawNamed {
            visibility: "pub".to_string(),
            name: "mk".to_string(),
            return_type: "Pair".to_string(),
            const_name: "CONST_VALUE_OF_FN_mk".to_string(),
            array_literal: "[7, 8]".to_string(),
            byte_count: 2,
        }
    );
}

#[test]
fn diagnostics_name_function_and_action() {
    assert_eq!(
        PipelineError::StaleArtifact.message(&"six".to_string()),
        "six: has an obsolete artifact; run the compute pass again"
    );
    assert_eq!(
        PipelineError::UnsupportedReturnType.message(&"noisy".to_string()),
        "noisy: returns nothing and cannot become a constant"
    );
    assert_eq!(
        PipelineError::MissingArtifact.message(&"six".to_string()),
        "six: has no stored artifact; run the compute pass first"
    );
    assert_eq!(
        PipelineError::SerializationFailure.message(&"mk".to_string()),
        "mk: has a stored byte payload that does not match the type's in-memory size; run the compute pass again"
    );
}

#[test]
fn missing_artifact_aborts() {
    let d = descr("six", Some((path("i32"), "i32")), "fn six() -> i32 { 6 }");
    let store = ArtifactStore::new();
    assert_eq!(
        stage_two::const_fn(&d, &store, false, 0),
        Err(PipelineError::MissingArtifact)
    );
}

/// Any change to the canonical source text invalidates the artifact:
/// the emit pass fails with a stale-artifact error instead of splicing
/// the outdated value.
#[test]
fn source_change_invalidates() {
    let d = descr("six", Some((path("i32"), "i32")), "fn six() -> i32 { 6 }");
    let w = stage_one::run_wrapper_textual(&d, &ConstValue::Int(6));
    let mut store = ArtifactStore::new();
    stage_one::run_compute_pass(
        &mut store,
        &vec![ComputeResult { name: "six".to_string(), output: w }],
    );
    // Even a one-character edit (6 -> 7) changes the fingerprint.
    let d2 = descr("six", Some((path("i32"), "i32")), "fn six() -> i32 { 7 }");
    assert_eq!(
        stage_two::const_fn(&d2, &store, false, 0),
        Err(PipelineError::StaleArtifact)
    );
    // The unchanged source still validates.
    assert!(stage_two::const_fn(&d, &store, false, 0).is_ok());
}

/// Running the compute pass twice with no source change leaves the
/// store with identical records.
#[test]
fn compute_pass_is_idempotent() {
    let d = descr("six", Some((path("i32"), "i32")), "fn six() -> i32 { 6 }");
    let results = vec![ComputeResult {
        name: "six".to_string(),
        output: stage_one::run_wrapper_textual(&d, &ConstValue::Int(6)),
    }];
    let mut once = ArtifactStore::new();
    stage_one::run_compute_pass(&mut once, &results);
    let mut twice = ArtifactStore::new();
    stage_one::run_compute_pass(&mut twice, &results);
    stage_one::run_compute_pass(&mut twice, &results);
    assert_eq!(
        once.lookup(&"six".to_string()).unwrap(),
        twice.lookup(&"six".to_string()).unwrap()
    );
}

/// Artifacts of two functions listed under the same entry point are
/// validated independently: corrupting or deleting one does not affect
/// the other's validation outcome.
#[test]
fn artifacts_are_independent() {
    let df = descr("foo", Some((path("i32"), "i32")), "fn foo() -> i32 { 1 }");
    let db = descr("bar", Some((path("bool"), "bool")), "fn bar() -> bool { true }");
    let mut store = ArtifactStore::new();
    stage_one::run_compute_pass(
        &mut store,
        &vec![
            ComputeResult {
                name: "foo".to_string(),
                output: stage_one::run_wrapper_textual(&df, &ConstValue::Int(1)),
            },
            ComputeResult {
                name: "bar".to_string(),
                output: stage_one::run_wrapper_textual(&db, &ConstValue::Bool(true)),
            },
        ],
    );
    assert!(validate_artifact(&store, &"foo".to_string(), &df.source).is_ok());
    assert!(validate_artifact(&store, &"bar".to_string(), &db.source).is_ok());

    // Corrupt foo's record wholesale: bar's validation is unaffected.
    store.write(
        "foo".to_string(),
        StoredArtifact {
            tag: FormatTag::RawBytes,
            identity: "garbage".to_string(),
            payload: "junk".to_string(),
        },
    );
    assert_eq!(
        validate_artifact(&store, &"foo".to_string(), &df.source),
        Err(PipelineError::StaleArtifact)
    );
    let ok = validate_artifact(&store, &"bar".to_string(), &db.source).unwrap();
    assert_eq!(ok.0, FormatTag::Textual);
    assert_eq!(ok.1, "true");

    // Delete foo's record outright: foo is now missing, bar unaffected.
    store.remove(&"foo".to_string());
    assert_eq!(
        validate_artifact(&store, &"foo".to_string(), &df.source),
        Err(PipelineError::MissingArtifact)
    );
    assert!(validate_artifact(&store, &"bar".to_string(), &db.source).is_ok());

    // A store where foo was never written still validates bar alone.
    let mut partial = ArtifactStore::new();
    stage_one::run_compute_pass(
        &mut partial,
        &vec![ComputeResult {
            name: "bar".to_string(),
            output: stage_one::run_wrapper_textual(&db, &ConstValue::Bool(true)),
        }],
    );
    assert_eq!(
        validate_artifact(&partial, &"foo".to_string(), &df.source),
        Err(PipelineError::MissingArtifact)
    );
    assert!(validate_artifact(&partial, &"bar".to_string(), &db.source).is_ok());
}
