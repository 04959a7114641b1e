//! Error kinds of the device-session core.

use vstd::prelude::*;

verus! {

/// What can go wrong between the radio and the consumer.
#[derive(Clone, Copy, Debug, PartialEq, Eq, Structural)]
pub enum Error {
    /// No usable radio on the host, or it never became ready.
    AdapterUnavailable,
    /// The advertisement scan could not be started.
    ScanFailure,
    /// The physical connection to the device could not be opened.
    ConnectFailure,
    /// The device does not offer the fitness-machine service.
    ServiceNotFound,
    /// The service does not offer the indoor-bike-data characteristic.
    CharacteristicNotFound,
    /// Notifications on the characteristic could not be enabled.
    SubscriptionFailure,
    /// A notification payload is too short to hold speed and power.
    MalformedPayload,
    /// The other half of a channel is gone.
    ChannelClosed,
}

/// How far an error reaches.
#[derive(Clone, Copy, Debug, PartialEq, Eq, Structural)]
pub enum Severity {
    /// Ends the calling flow; there is no recovery path.
    Fatal,
    /// Ends the attempt that raised it; the consumer may start another.
    AbortsAttempt,
    /// Costs one packet; the session goes on.
    SkipsPacket,
    /// Ordinary end of a background loop, not shown to the user.
    EndsLoop,
}

impl Error {
    /// The reach of each error kind.
    pub open spec fn spec_severity(self) -> Severity {
        match self {
            Error::AdapterUnavailable => Severity::Fatal,
            Error::ScanFailure => Severity::AbortsAttempt,
            Error::ConnectFailure => Severity::AbortsAttempt,
            Error::ServiceNotFound => Severity::AbortsAttempt,
            Error::CharacteristicNotFound => Severity::AbortsAttempt,
            Error::SubscriptionFailure => Severity::AbortsAttempt,
            Error::MalformedPayload => Severity::SkipsPacket,
            Error::ChannelClosed => Severity::EndsLoop,
        }
    }

    /// Classifies the error by how far it reaches.
    #[verifier::when_used_as_spec(spec_severity)]
    pub fn severity(self) -> (s: Severity)
        ensures
            s == self.spec_severity(),
    {
        match self {
            Error::AdapterUnavailable => Severity::Fatal,
            Error::ScanFailure => Severity::AbortsAttempt,
            Error::ConnectFailure => Severity::AbortsAttempt,
            Error::ServiceNotFound => Severity::AbortsAttempt,
            Error::CharacteristicNotFound => Severity::AbortsAttempt,
            Error::SubscriptionFailure => Severity::AbortsAttempt,
            Error::MalformedPayload => Severity::SkipsPacket,
            Error::ChannelClosed => Severity::EndsLoop,
        }
    }
}

} // verus!
