use wslpath2::interpret;
use wslpath2::text::i32_to_decimal;
use wslpath2::text::trim_whitespace;
use wslpath2::text::u64_to_decimal;
use wslpath2::ConvertError;
use wslpath2::SpawnOutcome;

#[test]
fn test_success_output_is_trimmed() {
    let outcome = SpawnOutcome::Completed {
        code: Some(0),
        stdout: b"C:\\\n".to_vec(),
    };
    assert_eq!(interpret(outcome), Ok("C:\\".to_string()));
}

#[test]
fn test_success_trims_surrounding_whitespace() {
    let outcome = SpawnOutcome::Completed {
        code: Some(0),
        stdout: b" \t/mnt/c/Program Files \r\n".to_vec(),
    };
    assert_eq!(interpret(outcome), Ok("/mnt/c/Program Files".to_string()));
}

#[test]
fn test_all_whitespace_output_becomes_empty() {
    let outcome = SpawnOutcome::Completed {
        code: Some(0),
        stdout: b" \n\t ".to_vec(),
    };
    assert_eq!(interpret(outcome), Ok(String::new()));
}

#[test]
fn test_multibyte_output_decodes() {
    let outcome = SpawnOutcome::Completed {
        code: Some(0),
        stdout: "/mnt/c/Ünïcödé\n".as_bytes().to_vec(),
    };
    assert_eq!(interpret(outcome), Ok("/mnt/c/Ünïcödé".to_string()));
}

#[test]
fn test_nonzero_exit_code() {
    let outcome = SpawnOutcome::Completed {
        code: Some(2),
        stdout: Vec::new(),
    };
    let err = interpret(outcome).unwrap_err();
    assert_eq!(err, ConvertError::Exit { code: 2 });
    assert_eq!(err.message(), "Error getting wslpath: 2");
}

#[test]
fn test_missing_exit_code_maps_to_sentinel() {
    let outcome = SpawnOutcome::Completed {
        code: None,
        stdout: b"ignored".to_vec(),
    };
    let err = interpret(outcome).unwrap_err();
    assert_eq!(err, ConvertError::Exit { code: -1 });
    assert_eq!(err.message(), "Error getting wslpath: -1");
}

#[test]
fn test_launch_failure_is_reported_not_swallowed() {
    let outcome = SpawnOutcome::LaunchFailed {
        message: "No such file or directory (os error 2)".to_string(),
    };
    let result = interpret(outcome);
    assert!(!matches!(result, Ok(_)));
    let err = result.unwrap_err();
    assert_eq!(
        err,
        ConvertError::Launch {
            message: "No such file or directory (os error 2)".to_string()
        }
    );
    assert_eq!(
        err.message(),
        "Error executing wsl.exe: No such file or directory (os error 2)"
    );
}

#[test]
fn test_invalid_utf8_output() {
    let outcome = SpawnOutcome::Completed {
        code: Some(0),
        stdout: vec![0xFF, 0xFE, 0x2F],
    };
    let err = interpret(outcome).unwrap_err();
    assert!(matches!(err, ConvertError::Decode { .. }));
    assert!(err
        .message()
        .starts_with("Error converting output to string: "));
}

#[test]
fn test_trim_whitespace() {
    assert_eq!(trim_whitespace("  /mnt/c \n"), "/mnt/c");
    assert_eq!(trim_whitespace(""), "");
    assert_eq!(trim_whitespace(" \u{A0}\u{2028} "), "");
    assert_eq!(trim_whitespace("a b"), "a b");
}

#[test]
fn test_decimal_rendering() {
    assert_eq!(u64_to_decimal(0), "0");
    assert_eq!(u64_to_decimal(1234567890), "1234567890");
    assert_eq!(i32_to_decimal(-7), "-7");
    assert_eq!(i32_to_decimal(i32::MIN), "-2147483648");
    assert_eq!(i32_to_decimal(i32::MAX), "2147483647");
}
