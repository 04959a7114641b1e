use simple_trainer::error::{Error, Severity};

#[test]
fn each_error_has_its_reach() {
    assert_eq!(Error::AdapterUnavailable.severity(), Severity::Fatal);
    assert_eq!(Error::ScanFailure.severity(), Severity::AbortsAttempt);
    assert_eq!(Error::ConnectFailure.severity(), Severity::AbortsAttempt);
    assert_eq!(Error::ServiceNotFound.severity(), Severity::AbortsAttempt);
    assert_eq!(Error::CharacteristicNotFound.severity(), Severity::AbortsAttempt);
    assert_eq!(Error::SubscriptionFailure.severity(), Severity::AbortsAttempt);
    assert_eq!(Error::MalformedPayload.severity(), Severity::SkipsPacket);
    assert_eq!(Error::ChannelClosed.severity(), Severity::EndsLoop);
}
