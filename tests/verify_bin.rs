use eth_light_client_lock::verify_bin::{load_usize_from_argv, parse_arguments, InternalError};

fn argv(items: &[&str]) -> Vec<Option<String>> {
    items.iter().map(|s| Some(s.to_string())).collect()
}

#[test]
fn two_numeric_arguments() {
    assert_eq!(parse_arguments(&argv(&["3", "42"])), Ok((3, 42)));
    assert_eq!(parse_arguments(&argv(&["+7", "0"])), Ok((7, 0)));
}

#[test]
fn wrong_argument_count() {
    assert_eq!(parse_arguments(&argv(&["3"])), Err(InternalError::IncorrectArgc));
    assert_eq!(parse_arguments(&argv(&["1", "2", "3"])), Err(InternalError::IncorrectArgc));
    assert_eq!(InternalError::IncorrectArgc.code(), 0x10);
}

#[test]
fn malformed_arguments() {
    assert_eq!(parse_arguments(&argv(&["x", "1"])), Err(InternalError::IncorrectArgv));
    assert_eq!(parse_arguments(&argv(&["1", "-1"])), Err(InternalError::IncorrectArgv));
    assert_eq!(parse_arguments(&argv(&["1", ""])), Err(InternalError::IncorrectArgv));
    assert_eq!(parse_arguments(&argv(&["1", " 2"])), Err(InternalError::IncorrectArgv));
    assert_eq!(parse_arguments(&vec![Some("1".to_string()), None]), Err(InternalError::IncorrectArgv));
    assert_eq!(
        parse_arguments(&argv(&["1", "99999999999999999999999"])),
        Err(InternalError::IncorrectArgv)
    );
    assert_eq!(InternalError::IncorrectArgv.code(), 0x11);
}

#[test]
fn load_one_argument() {
    assert_eq!(load_usize_from_argv(&argv(&["5", "17"]), 1), Ok(17));
    assert_eq!(load_usize_from_argv(&argv(&["5", "1x"]), 1), Err(InternalError::IncorrectArgv));
}
