use folderify::command::{parse_identify_output, Executable};
use folderify::error::FolderifyError;

fn parse(bytes: &[u8]) -> Result<u32, FolderifyError> {
    parse_identify_output(&bytes.to_vec())
}

#[test]
fn parses_plain_decimal() {
    assert_eq!(parse(b"512").unwrap(), 512);
    assert_eq!(parse(b"0").unwrap(), 0);
    assert_eq!(parse(b"1").unwrap(), 1);
}

#[test]
fn parses_leading_plus_and_zeros() {
    assert_eq!(parse(b"+512").unwrap(), 512);
    assert_eq!(parse(b"0007").unwrap(), 7);
}

#[test]
fn parses_u32_max_but_not_beyond() {
    assert_eq!(parse(b"4294967295").unwrap(), u32::MAX);
    assert!(parse(b"4294967296").is_err());
    assert!(parse(b"99999999999999999999").is_err());
}

#[test]
fn rejects_empty_and_sign_only() {
    assert!(parse(b"").is_err());
    assert!(parse(b"+").is_err());
}

#[test]
fn rejects_non_digits_and_whitespace() {
    assert!(parse(b"12a").is_err());
    assert!(parse(b" 12").is_err());
    assert!(parse(b"12\n").is_err());
    assert!(parse(b"-12").is_err());
    assert!(parse(b"1 2").is_err());
}

#[test]
fn parse_failure_reports_dimension_read_error() {
    match parse(b"wide") {
        Err(FolderifyError::General(g)) => {
            assert_eq!(g.message, "Could not read input dimensions");
        }
        other => panic!("expected a general error, got {:?}", other),
    }
}

#[test]
fn program_names() {
    assert_eq!(Executable::Convert.program_name(), "convert");
    assert_eq!(Executable::Identify.program_name(), "identify");
    assert_eq!(Executable::Iconutil.program_name(), "iconutil");
    assert_eq!(Executable::Open.program_name(), "open");
}
