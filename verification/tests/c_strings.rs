use moonshine_rs::cstring::{check_c_string, check_c_strings, nul_position};
use moonshine_rs::Error;

#[test]
fn strings_without_nul_are_accepted() {
    assert_eq!(check_c_string(""), Ok(()));
    assert_eq!(check_c_string("Kubernetes,Ceph"), Ok(()));
    assert_eq!(nul_position("héllo"), None);
}

#[test]
fn nul_position_is_a_byte_offset() {
    assert_eq!(nul_position("a\0b"), Some(1));
    assert_eq!(nul_position("\0"), Some(0));
    // 'é' takes two bytes in UTF-8.
    assert_eq!(nul_position("é\0"), Some(2));
    assert_eq!(nul_position("a\0b\0"), Some(1));
    assert_eq!(check_c_string("é\0"), Err(Error::NulError { position: 2 }));
}

#[test]
fn first_offending_string_is_reported() {
    let strs = vec!["ok".to_string(), "abc\0".to_string(), "\0".to_string()];
    assert_eq!(check_c_strings(&strs), Err(Error::NulError { position: 3 }));
    let fine = vec!["a".to_string(), "b".to_string()];
    assert_eq!(check_c_strings(&fine), Ok(()));
    assert_eq!(check_c_strings(&Vec::new()), Ok(()));
}

#[test]
fn option_values_are_checked_after_their_keys() {
    let opts = moonshine_rs::TranscriberOptions::new()
        .set("a", "fine")
        .set("b\0", "x\0yz");
    assert_eq!(opts.check_c_options(), Err(Error::NulError { position: 1 }));
    let opts = moonshine_rs::TranscriberOptions::new().set("a", "xy\0");
    assert_eq!(opts.check_c_options(), Err(Error::NulError { position: 2 }));
    let opts = moonshine_rs::TranscriberOptions::new().set("a", "b");
    assert_eq!(opts.check_c_options(), Ok(()));
}
