//! Small value-level checks: numerals and error messages.
use teleport::errors::CoreError;
use teleport::urlenc::parse_u64;

fn chars(s: &str) -> Vec<char> {
    s.chars().collect()
}

#[test]
fn parse_u64_reads_decimals() {
    assert_eq!(parse_u64(&chars("0")), Some(0));
    assert_eq!(parse_u64(&chars("123")), Some(123));
    assert_eq!(parse_u64(&chars("18446744073709551615")), Some(u64::MAX));
}

#[test]
fn parse_u64_rejects_junk_and_overflow() {
    assert_eq!(parse_u64(&chars("")), None);
    assert_eq!(parse_u64(&chars("12a")), None);
    assert_eq!(parse_u64(&chars("-1")), None);
    assert_eq!(parse_u64(&chars("18446744073709551616")), None);
    assert_eq!(parse_u64(&chars("99999999999999999999999")), None);
}

#[test]
fn error_messages_are_short_user_text() {
    assert_eq!(CoreError::NotAuthenticated.message(), "Please /authenticate first");
    assert_eq!(CoreError::UnknownToken.message(), "Unknown or expired authorization");
    assert_eq!(CoreError::UpstreamRejected.message(), "The service rejected the request");
    assert_eq!(CoreError::ProtocolViolation.message(), "Unexpected answer from the service");
    assert_eq!(CoreError::MediaUploadFailed.message(), "Failed to upload media");
    assert_eq!(CoreError::MalformedCommand.message(), "Invalid command");
}
