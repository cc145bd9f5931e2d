use iggy_core::user_headers::{
    can_use_plain_headers, header_richcmp, headers_kind, identity_py_hash, py_hash,
    py_user_header_entry_kind, CompareOp, HeaderIdentity, HeaderKey, HeaderKind, HeaderScalar,
    HeaderValue, PyUserHeadersKind, RichCompareResult,
};

#[test]
fn identities_use_kind_codes_and_little_endian_bytes() {
    assert_eq!(HeaderIdentity::int8(-1), HeaderIdentity { kind: 4, value: vec![0xff] });
    assert_eq!(HeaderIdentity::int16(-2).value, (-2i16).to_le_bytes().to_vec());
    assert_eq!(HeaderIdentity::int32(i32::MIN).value, i32::MIN.to_le_bytes().to_vec());
    assert_eq!(HeaderIdentity::int64(-123456789).value, (-123456789i64).to_le_bytes().to_vec());
    assert_eq!(HeaderIdentity::int128(i128::MIN).value, i128::MIN.to_le_bytes().to_vec());
    assert_eq!(HeaderIdentity::int128(-1).value, (-1i128).to_le_bytes().to_vec());
    assert_eq!(HeaderIdentity::uint16(0x0102), HeaderIdentity { kind: 10, value: vec![2, 1] });
    assert_eq!(HeaderIdentity::uint128(u128::MAX).value, vec![0xff; 16]);
    assert_eq!(HeaderIdentity::float64(1.5f64.to_bits()).value, 1.5f64.to_le_bytes().to_vec());
    assert_eq!(HeaderIdentity::float32((-0.0f32).to_bits()).kind, 14);
    assert_eq!(HeaderIdentity::bool(true), HeaderIdentity { kind: 3, value: vec![1] });
    assert_eq!(HeaderIdentity::string(b"k".to_vec()).kind, 2);
    assert_eq!(HeaderIdentity::raw(vec![9]).kind, 1);
    assert_eq!(HeaderKind::Float64.as_code(), 15);
}

#[test]
fn rich_comparison() {
    let a = HeaderIdentity::uint8(5);
    let b = HeaderIdentity::uint8(5);
    let c = HeaderIdentity::int8(5);
    assert_eq!(header_richcmp(&a, Some(&b), CompareOp::Eq), RichCompareResult::Bool(true));
    assert_eq!(header_richcmp(&a, Some(&c), CompareOp::Eq), RichCompareResult::Bool(false));
    assert_eq!(header_richcmp(&a, Some(&c), CompareOp::Ne), RichCompareResult::Bool(true));
    assert_eq!(header_richcmp(&a, None, CompareOp::Eq), RichCompareResult::Bool(false));
    assert_eq!(header_richcmp(&a, None, CompareOp::Ne), RichCompareResult::Bool(true));
    assert_eq!(header_richcmp(&a, Some(&b), CompareOp::Lt), RichCompareResult::NotImplemented);
    assert_eq!(header_richcmp(&a, None, CompareOp::Ge), RichCompareResult::NotImplemented);
    assert_eq!(identity_py_hash(&a), identity_py_hash(&b));
}

#[test]
fn python_hash_avoids_sentinel() {
    assert_eq!(py_hash(u64::MAX), -2);
    assert_eq!(py_hash(5), 5);
    assert_ne!(identity_py_hash(&HeaderIdentity::uint8(0)), -1);
}

#[test]
fn header_dictionary_forms() {
    assert_eq!(py_user_header_entry_kind(false, true, false, true), Ok(PyUserHeadersKind::Plain));
    assert_eq!(py_user_header_entry_kind(true, false, true, false), Ok(PyUserHeadersKind::Typed));
    assert_eq!(
        py_user_header_entry_kind(false, false, true, true),
        Err("User header keys must be strings or HeaderKey")
    );
    assert_eq!(
        py_user_header_entry_kind(true, false, false, true),
        Err("User header values must be HeaderValue when keys are HeaderKey")
    );
    assert_eq!(
        py_user_header_entry_kind(false, true, true, false),
        Err("User header keys must be HeaderKey when values are HeaderValue")
    );
    assert_eq!(
        py_user_header_entry_kind(false, true, false, false),
        Err("User header values must be str, bytes, bool, int, float, or HeaderValue")
    );
    assert_eq!(headers_kind(&vec![]), Ok(None));
    assert_eq!(headers_kind(&vec![PyUserHeadersKind::Plain, PyUserHeadersKind::Plain]), Ok(Some(PyUserHeadersKind::Plain)));
    assert!(headers_kind(&vec![PyUserHeadersKind::Typed, PyUserHeadersKind::Plain]).is_err());
}

#[test]
fn plain_headers_need_string_keys_and_plain_values() {
    assert!(can_use_plain_headers(&vec![]));
    assert!(can_use_plain_headers(&vec![(HeaderKind::String, HeaderKind::Raw), (HeaderKind::String, HeaderKind::Int64), (HeaderKind::String, HeaderKind::Float64)]));
    assert!(!can_use_plain_headers(&vec![(HeaderKind::String, HeaderKind::Int32)]));
    assert!(!can_use_plain_headers(&vec![(HeaderKind::Raw, HeaderKind::String)]));
}

#[test]
fn typed_keys_and_values_compare_and_hash_by_identity() {
    let key = HeaderKey(HeaderScalar::String { value: "trace".to_string() });
    let same = HeaderKey(HeaderScalar::String { value: "trace".to_string() });
    let raw = HeaderKey(HeaderScalar::Raw { value: b"trace".to_vec() });
    assert_eq!(key.identity(), HeaderIdentity { kind: 2, value: b"trace".to_vec() });
    assert_eq!(key.__richcmp__(Some(&same), CompareOp::Eq), RichCompareResult::Bool(true));
    assert_eq!(key.__richcmp__(Some(&raw), CompareOp::Eq), RichCompareResult::Bool(false));
    assert_eq!(key.__richcmp__(Some(&raw), CompareOp::Ne), RichCompareResult::Bool(true));
    assert_eq!(key.__richcmp__(None, CompareOp::Eq), RichCompareResult::Bool(false));
    assert_eq!(key.__richcmp__(Some(&same), CompareOp::Gt), RichCompareResult::NotImplemented);
    assert_eq!(key.__hash__(), same.__hash__());
    assert_eq!(key.__hash__(), identity_py_hash(&key.identity()));

    let value = HeaderValue(HeaderScalar::Float64 { value: 2.5f64.to_bits() });
    let negative_zero = HeaderValue(HeaderScalar::Float64 { value: (-0.0f64).to_bits() });
    let zero = HeaderValue(HeaderScalar::Float64 { value: 0.0f64.to_bits() });
    assert_eq!(value.identity().value, 2.5f64.to_le_bytes().to_vec());
    assert_eq!(value.__richcmp__(Some(&value.clone()), CompareOp::Eq), RichCompareResult::Bool(true));
    assert_eq!(zero.__richcmp__(Some(&negative_zero), CompareOp::Eq), RichCompareResult::Bool(false));
    assert_eq!(value.__richcmp__(None, CompareOp::Ne), RichCompareResult::Bool(true));
    assert_eq!(value.__hash__(), value.clone().__hash__());
    assert_ne!(value.__hash__(), -1);
}
