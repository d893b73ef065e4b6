//! Errors that the request operations report.
use vstd::prelude::*;

verus! {

/// Why an operation failed.
#[derive(Clone, Debug, PartialEq, Eq)]
pub enum CommandError {
    /// The kind name matches none of the supported kinds; it holds that name.
    UnsupportedKind(String),
    /// The codec could not write the archive; it holds the codec's reason.
    CompressionFailed(String),
    /// One archive of a batch could not be extracted: its path and the reason.
    DecompressionFailed(String, String),
    /// More than one instance of the application is running.
    MultipleInstancesDetected,
    /// An event did not reach the user interface.
    EventDeliveryFailed,
}

impl CommandError {
    /// The text shown to the user.
    pub open spec fn spec_message(&self) -> Seq<char> {
        match self {
            CommandError::UnsupportedKind(k) => "Unsupported compression type: "@ + k@,
            CommandError::CompressionFailed(reason) => "Compression failed: "@ + reason@,
            CommandError::DecompressionFailed(source, reason) => "Failed to decompress '"@ + source@
                + "': "@ + reason@,
            CommandError::MultipleInstancesDetected => "multiple instance of apps detected"@,
            CommandError::EventDeliveryFailed => "event delivery failed"@,
        }
    }

    pub fn message(&self) -> (r: String)
        ensures
            r@ == self.spec_message(),
    {
        match self {
            CommandError::UnsupportedKind(k) => {
                let mut r = String::from_str("Unsupported compression type: ");
                r.append(k.as_str());
                r
            },
            CommandError::CompressionFailed(reason) => {
                let mut r = String::from_str("Compression failed: ");
                r.append(reason.as_str());
                r
            },
            CommandError::DecompressionFailed(source, reason) => {
                let mut r = String::from_str("Failed to decompress '");
                r.append(source.as_str());
                r.append("': ");
                r.append(reason.as_str());
                r
            },
            CommandError::MultipleInstancesDetected => String::from_str(
                "multiple instance of apps detected",
            ),
            CommandError::EventDeliveryFailed => String::from_str("event delivery failed"),
        }
    }
}

} // verus!
