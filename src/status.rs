use vstd::prelude::*;
use vstd::string::*;

verus! {

/// The provisioning status: exactly one value is current at any instant.
pub enum WiFiStatus {
    Ready,
    Connecting,
    Connected,
    Failed,
    Error(String),
}

impl WiFiStatus {
    /// The wire text of a status, as sent to every observer.
    pub open spec fn wire(&self) -> Seq<char> {
        match self {
            WiFiStatus::Ready => "READY"@,
            WiFiStatus::Connecting => "CONNECTING"@,
            WiFiStatus::Connected => "CONNECTED"@,
            WiFiStatus::Failed => "FAILED"@,
            WiFiStatus::Error(msg) => "ERROR: "@ + msg@,
        }
    }

    /// Serializes the status into its wire text.
    pub fn to_string(&self) -> (r: String)
        ensures
            r@ == self.wire(),
    {
        match self {
            WiFiStatus::Ready => String::from_str("READY"),
            WiFiStatus::Connecting => String::from_str("CONNECTING"),
            WiFiStatus::Connected => String::from_str("CONNECTED"),
            WiFiStatus::Failed => String::from_str("FAILED"),
            WiFiStatus::Error(msg) => String::from_str("ERROR: ").concat(msg.as_str()),
        }
    }

    /// An independent copy of the status.
    pub fn snapshot(&self) -> (r: WiFiStatus)
        ensures
            r.wire() == self.wire(),
    {
        match self {
            WiFiStatus::Ready => WiFiStatus::Ready,
            WiFiStatus::Connecting => WiFiStatus::Connecting,
            WiFiStatus::Connected => WiFiStatus::Connected,
            WiFiStatus::Failed => WiFiStatus::Failed,
            WiFiStatus::Error(msg) => WiFiStatus::Error(msg.clone()),
        }
    }
}

} // verus!
