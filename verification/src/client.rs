//! The per-device request model: how a device's identifier, URLs,
//! authorization header and control requests are formed, and how its HTTP
//! responses are classified.
//!
//! The library decides everything about a request except sending it: the
//! caller performs the exchange and hands the status code and parsed error
//! body back to `response_outcome`.

use vstd::prelude::*;
use vstd::string::StringExecFns;

use crate::errors::FleetError;
use crate::models::CameraSettingsRequest;
use crate::models::ErrorResponse;
use crate::models::StreamStartRequest;
use crate::numfmt::dec_digits;
use crate::numfmt::u64_to_dec_string;

verus! {

/// The identifier of a device at `ip:port`.
pub open spec fn device_id_seq(ip: Seq<char>, port: u16) -> Seq<char> {
    ip + seq![':'] + dec_digits(port as nat)
}

/// The HTTP base URL of a device.
pub open spec fn base_url_seq(ip: Seq<char>, port: u16) -> Seq<char> {
    "http://"@ + device_id_seq(ip, port)
}

/// The WebSocket telemetry URL of a device.
pub open spec fn ws_url_seq(ip: Seq<char>, port: u16) -> Seq<char> {
    "ws://"@ + device_id_seq(ip, port) + "/ws"@
}

/// The value of the Authorization header for a non-empty token.
pub open spec fn bearer_seq(token: Seq<char>) -> Seq<char> {
    "Bearer "@ + token
}

/// Builds the identifier a device gets from its network address. The same
/// address always yields the same identifier.
pub fn device_id(ip: &String, port: u16) -> (id: String)
    ensures
        id@ == device_id_seq(ip@, port),
{
    let mut id = ip.clone();
    id.append(":");
    let digits = u64_to_dec_string(port as u64);
    id.append(digits.as_str());
    proof {
        reveal_strlit(":");
        assert(id@ =~= device_id_seq(ip@, port));
    }
    id
}

/// One of the control calls a device accepts.
#[derive(Debug)]
pub enum CameraOp {
    GetStatus,
    GetCapabilities,
    StartStream(StreamStartRequest),
    StopStream,
    UpdateSettings(CameraSettingsRequest),
    MeasureWhiteBalance,
}

impl CameraOp {
    /// The fixed API path of the call.
    pub open spec fn path_seq(self) -> Seq<char> {
        match self {
            CameraOp::GetStatus => "/api/v1/status"@,
            CameraOp::GetCapabilities => "/api/v1/capabilities"@,
            CameraOp::StartStream(_) => "/api/v1/stream/start"@,
            CameraOp::StopStream => "/api/v1/stream/stop"@,
            CameraOp::UpdateSettings(_) => "/api/v1/camera"@,
            CameraOp::MeasureWhiteBalance => "/api/v1/camera/wb/measure"@,
        }
    }

    /// Reads are GETs; everything else is a POST.
    pub open spec fn spec_is_get(self) -> bool {
        self is GetStatus || self is GetCapabilities
    }

    pub fn path(&self) -> (p: &'static str)
        ensures
            p@ == self.path_seq(),
    {
        match self {
            CameraOp::GetStatus => "/api/v1/status",
            CameraOp::GetCapabilities => "/api/v1/capabilities",
            CameraOp::StartStream(_) => "/api/v1/stream/start",
            CameraOp::StopStream => "/api/v1/stream/stop",
            CameraOp::UpdateSettings(_) => "/api/v1/camera",
            CameraOp::MeasureWhiteBalance => "/api/v1/camera/wb/measure",
        }
    }

    pub fn is_get(&self) -> (r: bool)
        ensures
            r == self.spec_is_get(),
    {
        match self {
            CameraOp::GetStatus => true,
            CameraOp::GetCapabilities => true,
            _ => false,
        }
    }
}

/// Everything fixed about one HTTP exchange with a device: where to send it
/// and with which Authorization header. `is_get` tells the caller which
/// method to use; the payload travels in the `CameraOp` itself.
#[derive(Debug)]
pub struct HttpPlan {
    pub is_get: bool,
    pub url: String,
    pub auth_header: Option<String>,
}

/// A device's network coordinates and credentials.
#[derive(Debug)]
pub struct CameraEndpoint {
    pub ip: String,
    pub port: u16,
    pub token: String,
}

impl Clone for CameraEndpoint {
    fn clone(&self) -> (res: Self)
        ensures
            res == *self,
    {
        CameraEndpoint { ip: self.ip.clone(), port: self.port, token: self.token.clone() }
    }
}

impl CameraEndpoint {
    pub fn new(ip: String, port: u16, token: String) -> (r: Self)
        ensures
            r == (CameraEndpoint { ip, port, token }),
    {
        CameraEndpoint { ip, port, token }
    }

    /// The device identifier derived from this endpoint's address.
    pub fn id(&self) -> (id: String)
        ensures
            id@ == device_id_seq(self.ip@, self.port),
    {
        device_id(&self.ip, self.port)
    }

    pub fn base_url(&self) -> (u: String)
        ensures
            u@ == base_url_seq(self.ip@, self.port),
    {
        let mut u = String::from_str("http://");
        let id = device_id(&self.ip, self.port);
        u.append(id.as_str());
        proof {
            assert(u@ =~= base_url_seq(self.ip@, self.port));
        }
        u
    }

    pub fn ws_url(&self) -> (u: String)
        ensures
            u@ == ws_url_seq(self.ip@, self.port),
    {
        let mut u = String::from_str("ws://");
        let id = device_id(&self.ip, self.port);
        u.append(id.as_str());
        u.append("/ws");
        proof {
            assert(u@ =~= ws_url_seq(self.ip@, self.port));
        }
        u
    }

    /// The Authorization header to attach: none when the token is empty,
    /// `Bearer <token>` otherwise.
    pub fn auth_header(&self) -> (h: Option<String>)
        ensures
            self.token@.len() == 0 ==> h is None,
            self.token@.len() > 0 ==> (h matches Some(v) && v@ == bearer_seq(self.token@)),
    {
        if self.token.as_str().is_empty() {
            None
        } else {
            let mut v = String::from_str("Bearer ");
            v.append(self.token.as_str());
            Some(v)
        }
    }

    /// The full plan for one control call against this device.
    pub fn plan(&self, op: &CameraOp) -> (p: HttpPlan)
        ensures
            p.is_get == op.spec_is_get(),
            p.url@ == base_url_seq(self.ip@, self.port) + op.path_seq(),
            self.token@.len() == 0 ==> p.auth_header is None,
            self.token@.len() > 0 ==> (p.auth_header matches Some(v) && v@ == bearer_seq(
                self.token@,
            )),
    {
        let mut url = self.base_url();
        url.append(op.path());
        HttpPlan { is_get: op.is_get(), url, auth_header: self.auth_header() }
    }
}

/// True exactly for the 2xx success range.
pub open spec fn spec_is_success_status(status: u16) -> bool {
    200 <= status < 300
}

pub fn is_success_status(status: u16) -> (r: bool)
    ensures
        r == spec_is_success_status(status),
{
    200 <= status && status < 300
}

/// Classifies a finished HTTP exchange: a 2xx status succeeds; any other
/// status is the device's structured error when its body parsed as one, and a
/// decode failure otherwise.
pub fn response_outcome(status: u16, error_body: Option<ErrorResponse>) -> (r: Result<
    (),
    FleetError,
>)
    ensures
        spec_is_success_status(status) <==> r is Ok,
        !spec_is_success_status(status) ==> (match error_body {
            Some(e) => r == Result::<(), FleetError>::Err(
                FleetError::ServerError { code: e.code, message: e.message },
            ),
            None => r matches Err(f) && f matches FleetError::DecodeFailed { detail } && detail@
                == "error response"@,
        }),
{
    if is_success_status(status) {
        Ok(())
    } else {
        match error_body {
            Some(e) => Err(FleetError::ServerError { code: e.code, message: e.message }),
            None => Err(
                FleetError::DecodeFailed { detail: String::from_str("error response") },
            ),
        }
    }
}

} // verus!
