use constany::classify::classify_return;
use constany::classify::is_primitive_type;
use constany::classify::Classification;
use constany::classify::TypeDescr;
use constany::codec::count_commas;
use constany::codec::decode;
use constany::codec::render_byte_list;
use constany::codec::render_int;
use constany::codec::render_value;
use constany::codec::ConstValue;
use constany::codec::DecodedSource;
use constany::FormatTag;
use constany::PipelineError;

fn path(name: &str) -> TypeDescr {
    TypeDescr::Path { leading_colon: false, segments: vec![name.to_string()] }
}

#[test]
fn scalar_paths_are_primitive() {
    for name in ["i8", "i16", "i32", "i64", "i128", "isize", "u8", "u16", "u32", "u64", "u128",
        "usize", "f32", "f64", "bool", "char", "str"]
    {
        assert!(is_primitive_type(&path(name)), "{name} should be primitive");
    }
}

#[test]
fn named_types_are_complex() {
    assert!(!is_primitive_type(&path("String")));
    assert!(!is_primitive_type(&path("MyStruct")));
}

#[test]
fn leading_colon_is_complex() {
    let t = TypeDescr::Path { leading_colon: true, segments: vec!["i32".to_string()] };
    assert!(!is_primitive_type(&t));
}

#[test]
fn multi_segment_path_is_complex() {
    let t = TypeDescr::Path {
        leading_colon: false,
        segments: vec!["std".to_string(), "string".to_string(), "String".to_string()],
    };
    assert!(!is_primitive_type(&t));
}

#[test]
fn aggregates_of_primitives_are_primitive() {
    assert!(is_primitive_type(&TypeDescr::Array(Box::new(path("u8")))));
    assert!(is_primitive_type(&TypeDescr::Slice(Box::new(path("i32")))));
    assert!(is_primitive_type(&TypeDescr::Group(Box::new(path("bool")))));
    assert!(is_primitive_type(&TypeDescr::Tuple(vec![path("i32"), path("bool")])));
    assert!(is_primitive_type(&TypeDescr::Tuple(vec![])));
}

#[test]
fn aggregates_with_complex_elements_are_complex() {
    assert!(!is_primitive_type(&TypeDescr::Array(Box::new(path("String")))));
    assert!(!is_primitive_type(&TypeDescr::Tuple(vec![path("i32"), path("String")])));
    assert!(!is_primitive_type(&TypeDescr::Other));
}

#[test]
fn nested_aggregates_classify_recursively() {
    let deep = TypeDescr::Array(Box::new(TypeDescr::Tuple(vec![
        path("u8"),
        TypeDescr::Group(Box::new(path("char"))),
    ])));
    assert!(is_primitive_type(&deep));
    let poisoned = TypeDescr::Tuple(vec![
        path("u8"),
        TypeDescr::Array(Box::new(TypeDescr::Other)),
    ]);
    assert!(!is_primitive_type(&poisoned));
}

#[test]
fn classify_rejects_no_return() {
    assert_eq!(classify_return(&None), Err(PipelineError::UnsupportedReturnType));
    assert_eq!(classify_return(&Some(path("i32"))), Ok(Classification::Primitive));
    assert_eq!(classify_return(&Some(path("String"))), Ok(Classification::Complex));
}

#[test]
fn render_int_values() {
    assert_eq!(render_int(0), "0");
    assert_eq!(render_int(6), "6");
    assert_eq!(render_int(-42), "-42");
    assert_eq!(render_int(1234567890), "1234567890");
    assert_eq!(render_int(i64::MAX), "9223372036854775807");
    assert_eq!(render_int(i64::MIN), "-9223372036854775808");
}

#[test]
fn render_value_values() {
    assert_eq!(render_value(&ConstValue::Int(6)), "6");
    assert_eq!(render_value(&ConstValue::Bool(true)), "true");
    assert_eq!(render_value(&ConstValue::Bool(false)), "false");
}

#[test]
fn render_byte_list_values() {
    assert_eq!(render_byte_list(&vec![1, 2, 3]), "[1, 2, 3]");
    assert_eq!(render_byte_list(&vec![200]), "[200]");
    assert_eq!(render_byte_list(&vec![]), "[]");
    assert_eq!(render_byte_list(&vec![0, 255]), "[0, 255]");
}

#[test]
fn count_commas_values() {
    assert_eq!(count_commas("[1, 2, 3]"), 2);
    assert_eq!(count_commas("[200]"), 0);
    assert_eq!(count_commas(""), 0);
    assert_eq!(count_commas(",,"), 2);
}

#[test]
fn format_tag_bytes() {
    assert_eq!(FormatTag::Textual.byte(), 0);
    assert_eq!(FormatTag::RawBytes.byte(), 1);
}

#[test]
fn frame_prepends_tag_byte() {
    let buf = constany::store::frame_payload(FormatTag::Textual, "6");
    assert_eq!(buf, vec![0u8, b'6']);
    let buf = constany::store::frame_payload(FormatTag::RawBytes, "[7]");
    assert_eq!(buf, vec![1u8, b'[', b'7', b']']);
}

#[test]
fn unframe_splits_tag_and_payload() {
    let buf = constany::store::frame_payload(FormatTag::RawBytes, "[7, 8]");
    let (tag_byte, payload) = constany::store::unframe(&buf).unwrap();
    assert_eq!(tag_byte, 1);
    assert_eq!(payload, b"[7, 8]".to_vec());
    assert_eq!(constany::store::unframe(&Vec::new()), None);
}

#[test]
fn tag_from_byte_values() {
    assert_eq!(FormatTag::from_byte(0), Some(FormatTag::Textual));
    assert_eq!(FormatTag::from_byte(1), Some(FormatTag::RawBytes));
    assert_eq!(FormatTag::from_byte(7), None);
}

#[test]
fn decode_textual_passes_literal_through() {
    let r = decode(FormatTag::Textual, "6".to_string(), 0);
    assert_eq!(r, Ok(DecodedSource::Literal("6".to_string())));
}

#[test]
fn decode_raw_checks_size() {
    let r = decode(FormatTag::RawBytes, "[1, 2]".to_string(), 2);
    assert_eq!(r, Ok(DecodedSource::ByteArray { source: "[1, 2]".to_string(), len: 2 }));
    let r = decode(FormatTag::RawBytes, "[1, 2]".to_string(), 3);
    assert_eq!(r, Err(PipelineError::SerializationFailure));
    let r = decode(FormatTag::RawBytes, "[9]".to_string(), 0);
    assert_eq!(r, Err(PipelineError::SerializationFailure));
}
