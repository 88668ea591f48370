//! Names of profiles.

use std::str::FromStr;
use wireguard_gui::config::ProfileName;
use wireguard_gui::error::AppError;

#[test]
fn valid_simple_name() {
    assert!(ProfileName::new("wg0").is_ok());
}

#[test]
fn valid_name_with_all_allowed_chars() {
    assert!(ProfileName::new("wg0_.=-A").is_ok());
}

#[test]
fn valid_name_exactly_15_chars() {
    assert!(ProfileName::new("abcdefghijklmno").is_ok());
}

#[test]
fn valid_name_single_char() {
    assert!(ProfileName::new("w").is_ok());
}

#[test]
fn empty_name_rejected() {
    let err = ProfileName::new("").unwrap_err();
    assert!(matches!(err, AppError::InvalidProfileName(_)));
}

#[test]
fn name_too_long_rejected() {
    let err = ProfileName::new("abcdefghijklmnop").unwrap_err();
    assert!(matches!(err, AppError::InvalidProfileName(_)));
}

#[test]
fn name_with_space_rejected() {
    let err = ProfileName::new("wg 0").unwrap_err();
    assert!(matches!(err, AppError::InvalidProfileName(_)));
}

#[test]
fn name_with_slash_rejected() {
    let err = ProfileName::new("wg/0").unwrap_err();
    assert!(matches!(err, AppError::InvalidProfileName(_)));
}

#[test]
fn name_with_at_sign_rejected() {
    let err = ProfileName::new("wg@home").unwrap_err();
    assert!(matches!(err, AppError::InvalidProfileName(_)));
}

#[test]
fn name_with_unicode_rejected() {
    let err = ProfileName::new("wg\u{00e9}0").unwrap_err();
    assert!(matches!(err, AppError::InvalidProfileName(_)));
}

#[test]
fn as_str_returns_inner_value() {
    let n = ProfileName::new("myvpn").unwrap();
    assert_eq!(n.as_str(), "myvpn");
}

#[test]
fn display_matches_inner_value() {
    let n = ProfileName::new("myvpn").unwrap();
    assert_eq!(n.to_string(), "myvpn");
}

#[test]
fn from_str_valid() {
    let n: ProfileName = "wg0".parse().unwrap();
    assert_eq!(n.as_str(), "wg0");
}

#[test]
fn from_str_invalid() {
    let err = "wg/0".parse::<ProfileName>().unwrap_err();
    assert!(matches!(err, AppError::InvalidProfileName(_)));
}

#[test]
fn try_from_string_valid() {
    let n = ProfileName::try_from("wg0".to_owned()).unwrap();
    assert_eq!(n.as_str(), "wg0");
}

#[test]
fn into_string_round_trip() {
    let n = ProfileName::new("wg0").unwrap();
    let s: String = n.into();
    assert_eq!(s, "wg0");
}
