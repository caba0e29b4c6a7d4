use rofi_script::Retv;
use rofi_script::RofiContext;
use rofi_script::RofiEnv;
use rofi_script::join_args;
use rofi_script::parse_i8;

#[test]
fn retv_plain_states() {
    assert_eq!(Retv::from_value(0), Ok(Retv::InitialCall));
    assert_eq!(Retv::from_value(1), Ok(Retv::EntrySelected));
    assert_eq!(Retv::from_value(2), Ok(Retv::CustomEntrySelected));
}

#[test]
fn retv_custom_keys() {
    // 10 through 28 name custom keys 1 through 19.
    for v in 10..=28i8 {
        assert_eq!(Retv::from_value(v), Ok(Retv::CustomKey(v - 9)));
    }
    assert_eq!(Retv::from_value(10), Ok(Retv::CustomKey(1)));
    assert_eq!(Retv::from_value(28), Ok(Retv::CustomKey(19)));
}

#[test]
fn retv_out_of_range_is_error() {
    for v in [-128i8, -1, 3, 5, 9, 29, 100, 127] {
        assert_eq!(Retv::from_value(v), Err(v));
    }
}

#[test]
fn parse_plain_digits() {
    assert_eq!(parse_i8("0"), Some(0));
    assert_eq!(parse_i8("7"), Some(7));
    assert_eq!(parse_i8("28"), Some(28));
    assert_eq!(parse_i8("127"), Some(127));
}

#[test]
fn parse_signs() {
    assert_eq!(parse_i8("+5"), Some(5));
    assert_eq!(parse_i8("-1"), Some(-1));
    assert_eq!(parse_i8("-128"), Some(-128));
    assert_eq!(parse_i8("+127"), Some(127));
}

#[test]
fn parse_leading_zeros() {
    assert_eq!(parse_i8("00"), Some(0));
    assert_eq!(parse_i8("0127"), Some(127));
    assert_eq!(parse_i8("-0005"), Some(-5));
}

#[test]
fn parse_out_of_range() {
    assert_eq!(parse_i8("128"), None);
    assert_eq!(parse_i8("-129"), None);
    assert_eq!(parse_i8("999999999999999999999"), None);
    assert_eq!(parse_i8("-999999999999999999999"), None);
}

#[test]
fn parse_malformed() {
    assert_eq!(parse_i8(""), None);
    assert_eq!(parse_i8("-"), None);
    assert_eq!(parse_i8("+"), None);
    assert_eq!(parse_i8("+-3"), None);
    assert_eq!(parse_i8("12a"), None);
    assert_eq!(parse_i8("a12"), None);
    assert_eq!(parse_i8(" 1"), None);
    assert_eq!(parse_i8("1 "), None);
}

#[test]
fn env_absent_variable() {
    let env = RofiEnv::from_retv_var(None).unwrap();
    assert_eq!(env.rofi_retv, None);
}

#[test]
fn env_unparsable_degrades_to_none() {
    let env = RofiEnv::from_retv_var(Some("abc")).unwrap();
    assert_eq!(env.rofi_retv, None);
}

#[test]
fn env_decodes_state() {
    let env = RofiEnv::from_retv_var(Some("1")).unwrap();
    assert_eq!(env.rofi_retv, Some(Retv::EntrySelected));
    let env = RofiEnv::from_retv_var(Some("12")).unwrap();
    assert_eq!(env.rofi_retv, Some(Retv::CustomKey(3)));
}

#[test]
fn env_out_of_range_is_error() {
    assert!(matches!(RofiEnv::from_retv_var(Some("5")), Err(5)));
    assert!(matches!(RofiEnv::from_retv_var(Some("-1")), Err(-1)));
}

#[test]
fn env_default_has_no_state() {
    let env = RofiEnv::default();
    assert_eq!(env.rofi_retv, None);
}

#[test]
fn join_no_arguments() {
    let args: Vec<String> = Vec::new();
    assert_eq!(join_args(&args), "");
}

#[test]
fn join_two_arguments() {
    let args = vec!["open".to_string(), "file.txt".to_string()];
    assert_eq!(join_args(&args), "open file.txt");
}

#[test]
fn join_keeps_text_raw() {
    let args = vec!["  a ".to_string(), String::new(), "b".to_string()];
    assert_eq!(join_args(&args), "  a   b");
}

#[test]
fn context_default_is_empty() {
    let ctx = RofiContext::default();
    assert_eq!(ctx.env.rofi_retv, None);
    assert_eq!(ctx.input, "");
}

#[test]
fn context_from_parts_joins_input() {
    let env = RofiEnv { rofi_retv: Some(Retv::InitialCall) };
    let args = vec!["open".to_string(), "file.txt".to_string()];
    let ctx = RofiContext::from_parts(env, &args);
    assert_eq!(ctx.env.rofi_retv, Some(Retv::InitialCall));
    assert_eq!(ctx.input, "open file.txt");
}
