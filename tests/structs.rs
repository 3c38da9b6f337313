use vkclient::{decimal_string, signed_decimal_string, List, Version};

#[test]
fn serialize_ints() {
    assert_eq!(List(vec![1, 2, 3]).to_string(), "1,2,3".to_string());
}

#[test]
fn serialize_strs() {
    assert_eq!(
        List(vec!["id", "sex", "age"]).to_string(),
        "id,sex,age".to_string()
    );
}

#[test]
fn serialize_version() {
    assert_eq!(Version(5, 131).to_string(), "5.131".to_string())
}

#[test]
fn empty_list_is_empty_text() {
    let empty: Vec<u64> = Vec::new();
    assert_eq!(List(empty).to_string(), "");
}

#[test]
fn single_item_list_has_no_comma() {
    assert_eq!(List(vec![42usize]).to_string(), "42");
}

#[test]
fn negative_and_owned_items() {
    assert_eq!(List(vec![-7i64, 0, 15]).to_string(), "-7,0,15");
    assert_eq!(
        List(vec!["a".to_string(), "b c".to_string()]).to_string(),
        "a,b c"
    );
}

#[test]
fn default_version_is_5_131() {
    assert_eq!(Version::default(), Version(5, 131));
    assert_eq!(Version(0, 0).to_string(), "0.0");
    assert_eq!(Version(255, 65535).to_string(), "255.65535");
}

#[test]
fn decimal_rendering() {
    assert_eq!(decimal_string(0), "0");
    assert_eq!(decimal_string(10), "10");
    assert_eq!(decimal_string(u64::MAX), "18446744073709551615");
    assert_eq!(signed_decimal_string(-1), "-1");
    assert_eq!(signed_decimal_string(i64::MIN), "-9223372036854775808");
    assert_eq!(signed_decimal_string(i64::MAX), "9223372036854775807");
}

#[test]
fn small_integer_items() {
    assert_eq!(List(vec![1u8, 255]).to_string(), "1,255");
    assert_eq!(List(vec![65535u16]).to_string(), "65535");
    assert_eq!(List(vec![-128i8, 127]).to_string(), "-128,127");
    assert_eq!(List(vec![-32768i16]).to_string(), "-32768");
    assert_eq!(List(vec![-1isize, 2]).to_string(), "-1,2");
}
