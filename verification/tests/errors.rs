use komodo_rpc::error::{Error, ParseIntError};

#[test]
fn every_failure_has_its_words() {
    assert_eq!(Error::InvalidConfigFile.prefix(), "Error in config file");
    assert_eq!(Error::KMDError("x".to_string()).prefix(), "KMD daemon error: ");
    assert_eq!(Error::ParseIntError(ParseIntError::Empty).prefix(), "Parse error: ");
    assert_eq!(Error::InvalidAmount("x".to_string()).prefix(), "invalid amount: ");
    let io = std::io::Error::from(std::io::ErrorKind::NotFound);
    assert_eq!(Error::from(io).prefix(), "IO error: ");
    let json = serde_json::from_str::<u8>("x").unwrap_err();
    assert_eq!(Error::from(json).prefix(), "JSON error: ");
    assert_eq!(Error::from(jsonrpc::Error::NonceMismatch).prefix(), "RPC error: ");
}

#[test]
fn outside_failures_keep_their_kind() {
    let io = std::io::Error::from(std::io::ErrorKind::NotFound);
    match Error::from(io) {
        Error::IOError(e) => assert_eq!(e.kind(), std::io::ErrorKind::NotFound),
        _ => panic!("an I/O failure must stay one"),
    }
    let json = serde_json::from_str::<u8>("x").unwrap_err();
    let text = json.to_string();
    match Error::from(json) {
        Error::Json(e) => assert_eq!(e.to_string(), text),
        _ => panic!("a JSON failure must stay one"),
    }
    assert!(matches!(
        Error::from(jsonrpc::Error::NonceMismatch),
        Error::JsonRPC(jsonrpc::Error::NonceMismatch)
    ));
    assert!(matches!(
        Error::from(ParseIntError::PosOverflow),
        Error::ParseIntError(ParseIntError::PosOverflow)
    ));
}

#[test]
fn parse_failures_in_words() {
    assert_eq!(ParseIntError::Empty.message(), "cannot parse integer from empty string");
    assert_eq!(ParseIntError::InvalidDigit.message(), "invalid digit found in string");
    assert_eq!(ParseIntError::PosOverflow.message(), "number too large to fit in target type");
}
