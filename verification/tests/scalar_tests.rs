//! The scalar parsers: boolean literals and unsigned decimal numbers,
//! with their Malformed-Scalar failure cases.

use fom_tools::datatypes::SizeType;
use fom_tools::error::FomError;
use fom_tools::scalar::{parse_bool, parse_u32};
use fom_tools::sections::SwitchType;

#[test]
fn test_parse_u32_exact_values() {
    assert_eq!(parse_u32("0"), Some(0));
    assert_eq!(parse_u32("32"), Some(32));
    assert_eq!(parse_u32("007"), Some(7));
    assert_eq!(parse_u32("4294967295"), Some(u32::MAX));
}

#[test]
fn test_parse_u32_rejections() {
    assert_eq!(parse_u32(""), None);
    assert_eq!(parse_u32("12x"), None);
    assert_eq!(parse_u32("-3"), None);
    assert_eq!(parse_u32(" 3"), None);
    assert_eq!(parse_u32("4294967296"), None);
    assert_eq!(parse_u32("99999999999999999999"), None);
}

#[test]
fn test_parse_bool_literals_only() {
    assert_eq!(parse_bool("true"), Some(true));
    assert_eq!(parse_bool("false"), Some(false));
    assert_eq!(parse_bool("True"), None);
    assert_eq!(parse_bool("1"), None);
    assert_eq!(parse_bool(""), None);
}

#[test]
fn test_switch_from_text() {
    assert_eq!(SwitchType::from_text("true".to_string()), Ok(SwitchType { is_enabled: true }));
    assert_eq!(
        SwitchType::from_text("false".to_string()),
        Ok(SwitchType { is_enabled: false }),
    );
    match SwitchType::from_text("yes".to_string()) {
        Err(FomError::MalformedScalar(t)) => assert_eq!(t, "yes"),
        other => panic!("expected a malformed-scalar error, got {:?}", other),
    }
}

#[test]
fn test_size_from_text() {
    assert_eq!(SizeType::from_text("64".to_string()), Ok(SizeType { size: 64 }));
    match SizeType::from_text("64 bits".to_string()) {
        Err(FomError::MalformedScalar(t)) => assert_eq!(t, "64 bits"),
        other => panic!("expected a malformed-scalar error, got {:?}", other),
    }
}
