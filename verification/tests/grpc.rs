use gewe::grpc::placeholder;

#[test]
fn test_placeholder_returns_expected_string() {
    assert_eq!(placeholder(), "gewe-grpc placeholder");
}

#[test]
fn test_placeholder_is_static_str() {
    let result = placeholder();
    // 验证返回的是 'static 字符串，可以安全地存储
    let _stored: &'static str = result;
    assert!(!result.is_empty());
}

#[test]
fn test_placeholder_consistency() {
    // 验证多次调用返回相同的结果
    let first_call = placeholder();
    let second_call = placeholder();
    assert_eq!(first_call, second_call);
}

#[test]
fn test_placeholder_string_properties() {
    let result = placeholder();
    // 验证字符串属性
    assert!(result.len() > 0);
    assert!(result.starts_with("gewe-grpc"));
    assert!(result.ends_with("placeholder"));
    assert!(result.contains("placeholder"));
}
