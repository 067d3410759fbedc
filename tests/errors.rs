use udpipe_rs::{ErrorKind, NativeCall, UdpipeError};

#[test]
fn test_udpipe_error_display() {
    let err = UdpipeError::new("test error");
    assert_eq!(err.to_display_string(), "UDPipe error: test error");
}

#[test]
fn test_udpipe_error_from_io() {
    let io_err = std::io::Error::new(std::io::ErrorKind::NotFound, "file not found");
    let err: UdpipeError = io_err.into();
    assert!(err.message.contains("not found"));
}

#[test]
fn new_error_has_kind_other() {
    let err = UdpipeError::new("x");
    assert_eq!(err.kind, ErrorKind::Other);
    let err = UdpipeError::with_kind(ErrorKind::InvalidArgument, "bad");
    assert_eq!(err.kind, ErrorKind::InvalidArgument);
    assert_eq!(err.message, "bad");
}

#[test]
fn native_diagnostic_is_kept() {
    let err = UdpipeError::from_native(NativeCall::LoadFile, Some("Cannot open file".to_string()));
    assert_eq!(err.kind, ErrorKind::ModelLoadFailed);
    assert_eq!(err.message, "Cannot open file");
}

#[test]
fn missing_diagnostic_gives_fallback_per_call() {
    let err = UdpipeError::from_native(NativeCall::LoadFile, None);
    assert_eq!(err.kind, ErrorKind::ModelLoadFailed);
    assert_eq!(err.message, "Failed to load model");

    let err = UdpipeError::from_native(NativeCall::LoadMemory, None);
    assert_eq!(err.kind, ErrorKind::ModelLoadFailed);
    assert_eq!(err.message, "Failed to load model from memory");

    let err = UdpipeError::from_native(NativeCall::CreateSession, None);
    assert_eq!(err.kind, ErrorKind::SessionCreationFailed);
    assert_eq!(err.message, "Failed to parse text");

    let err = UdpipeError::from_native(NativeCall::Pull, None);
    assert_eq!(err.kind, ErrorKind::ParseFailed);
    assert_eq!(err.message, "Failed to parse text");
}

#[test]
fn load_path_with_null_byte_is_malformed_input() {
    let err = udpipe_rs::check_path("models/en\0glish.udpipe").unwrap_err();
    assert_eq!(err.kind, ErrorKind::MalformedInput);
    assert!(err.message.contains("null byte"));
    assert!(udpipe_rs::check_path("models/english.udpipe").is_ok());
}

#[test]
fn test_parse_with_null_byte() {
    let result = udpipe_rs::check_text("Hello\0world");
    assert!(result.is_err());
    let err = result.unwrap_err();
    assert!(err.message.contains("null byte"));
}

#[test]
fn parser_over_text_with_null_byte_is_not_created() {
    let err = udpipe_rs::SentenceStream::new("The cat\0 sat.").unwrap_err();
    assert_eq!(err.kind, ErrorKind::MalformedInput);
    assert!(udpipe_rs::SentenceStream::new("The cat sat.").is_ok());
    assert!(udpipe_rs::SentenceStream::new("").is_ok());
}
