//! The error taxonomy surfaced by the library.

use vstd::prelude::*;
use vstd::string::StringExecFns;

verus! {

/// Every failure a caller can see: unknown device or profile, transport
/// failures, a structured error reported by the device, a malformed payload,
/// or a failed persistence write.
#[derive(Debug)]
pub enum FleetError {
    NotFound { what: String },
    ConnectFailed { detail: String },
    RequestFailed { detail: String },
    ServerError { code: String, message: String },
    DecodeFailed { detail: String },
    PersistenceFailed { detail: String },
}

impl FleetError {
    /// The textual rendering of the error, character for character.
    pub open spec fn spec_message(self) -> Seq<char> {
        match self {
            FleetError::NotFound { what } => "Not found: "@ + what@,
            FleetError::ConnectFailed { detail } => "Connect failed: "@ + detail@,
            FleetError::RequestFailed { detail } => "Request failed: "@ + detail@,
            FleetError::ServerError { code, message } => code@ + ": "@ + message@,
            FleetError::DecodeFailed { detail } => "Decode failed: "@ + detail@,
            FleetError::PersistenceFailed { detail } => "Persistence failed: "@ + detail@,
        }
    }

    pub fn message(&self) -> (m: String)
        ensures
            m@ == self.spec_message(),
    {
        let m = match self {
            FleetError::NotFound { what } => String::from_str("Not found: ").concat(
                what.as_str(),
            ),
            FleetError::ConnectFailed { detail } => String::from_str("Connect failed: ").concat(
                detail.as_str(),
            ),
            FleetError::RequestFailed { detail } => String::from_str("Request failed: ").concat(
                detail.as_str(),
            ),
            FleetError::ServerError { code, message } => code.clone().concat(": ").concat(
                message.as_str(),
            ),
            FleetError::DecodeFailed { detail } => String::from_str("Decode failed: ").concat(
                detail.as_str(),
            ),
            FleetError::PersistenceFailed { detail } => String::from_str(
                "Persistence failed: ",
            ).concat(detail.as_str()),
        };
        proof {
            assert(m@ =~= self.spec_message());
        }
        m
    }
}

impl Clone for FleetError {
    fn clone(&self) -> (res: Self)
        ensures
            res == *self,
    {
        match self {
            FleetError::NotFound { what } => FleetError::NotFound { what: what.clone() },
            FleetError::ConnectFailed { detail } => FleetError::ConnectFailed {
                detail: detail.clone(),
            },
            FleetError::RequestFailed { detail } => FleetError::RequestFailed {
                detail: detail.clone(),
            },
            FleetError::ServerError { code, message } => FleetError::ServerError {
                code: code.clone(),
                message: message.clone(),
            },
            FleetError::DecodeFailed { detail } => FleetError::DecodeFailed {
                detail: detail.clone(),
            },
            FleetError::PersistenceFailed { detail } => FleetError::PersistenceFailed {
                detail: detail.clone(),
            },
        }
    }
}

} // verus!
