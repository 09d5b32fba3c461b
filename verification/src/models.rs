//! Data model of the fleet: device status, settings, telemetry, profiles,
//! discovery records and per-device command results.
//!
//! Fractional quantities reported by devices (frame rate, battery, zoom and
//! the like) are carried as scaled integers — thousandths for ratios,
//! microseconds for shutter times — so that every field is a plain value the
//! contracts can speak about.

use vstd::prelude::*;

verus! {

#[derive(Debug, Clone, Copy, PartialEq, Eq, Structural)]
pub enum NdiState {
    Streaming,
    Idle,
}

#[derive(Debug, Clone, Copy, PartialEq, Eq, Structural)]
pub enum WhiteBalanceMode {
    Auto,
    Manual,
}

#[derive(Debug, Clone, Copy, PartialEq, Eq, Structural)]
pub enum FocusMode {
    Auto,
    Manual,
}

#[derive(Debug, Clone, Copy, PartialEq, Eq, Structural)]
pub enum ExposureMode {
    Auto,
    Manual,
}

#[derive(Debug, Clone, Copy, PartialEq, Eq, Structural)]
pub enum ChargingState {
    Charging,
    Full,
    Unplugged,
}

/// How the registry last saw a device's control link.
#[derive(Debug, Clone, Copy, PartialEq, Eq, Structural)]
pub enum ConnectionState {
    Connected,
    Disconnected,
    Connecting,
    Error,
}

/// The settings a device reports as currently applied.
#[derive(Debug)]
pub struct CurrentSettings {
    pub resolution: String,
    pub fps: u32,
    pub bitrate: u32,
    pub codec: String,
    pub wb_mode: WhiteBalanceMode,
    pub wb_kelvin: Option<u32>,
    /// White balance tint, in thousandths.
    pub wb_tint_milli: Option<i64>,
    pub iso_mode: ExposureMode,
    pub iso: u32,
    pub shutter_mode: ExposureMode,
    /// Shutter time, in microseconds.
    pub shutter_us: u64,
    pub focus_mode: FocusMode,
    /// Zoom factor, in thousandths.
    pub zoom_milli: u64,
    pub camera_position: String,
    pub lens: String,
}

impl Clone for CurrentSettings {
    fn clone(&self) -> (res: Self)
        ensures
            res == *self,
    {
        CurrentSettings {
            resolution: self.resolution.clone(),
            fps: self.fps,
            bitrate: self.bitrate,
            codec: self.codec.clone(),
            wb_mode: self.wb_mode,
            wb_kelvin: self.wb_kelvin,
            wb_tint_milli: self.wb_tint_milli,
            iso_mode: self.iso_mode,
            iso: self.iso,
            shutter_mode: self.shutter_mode,
            shutter_us: self.shutter_us,
            focus_mode: self.focus_mode,
            zoom_milli: self.zoom_milli,
            camera_position: self.camera_position.clone(),
            lens: self.lens.clone(),
        }
    }
}

/// Periodic operating metrics reported in a status poll.
#[derive(Debug, Clone, Copy)]
pub struct Telemetry {
    /// Frames per second, in thousandths.
    pub fps_milli: u64,
    pub bitrate: u32,
    /// Battery level percentage, in thousandths.
    pub battery_milli: u64,
    /// Temperature, in thousandths of a degree Celsius.
    pub temp_milli_c: i64,
    pub wifi_rssi: i32,
    /// CPU usage ratio, in thousandths.
    pub cpu_milli: u64,
    pub queue_ms: Option<u32>,
    pub dropped_frames: Option<u32>,
    pub charging_state: Option<ChargingState>,
}

/// One capture mode a device offers.
#[derive(Debug)]
pub struct Capability {
    pub resolution: String,
    pub fps: Vec<u32>,
    pub codec: Vec<String>,
    pub lens: Option<String>,
    /// Largest zoom factor, in thousandths.
    pub max_zoom_milli: Option<u64>,
}

impl Capability {
    /// Equality of every carried value; the `Vec` fields are compared by
    /// their contents.
    pub open spec fn eq_val(self, other: Self) -> bool {
        &&& self.resolution == other.resolution
        &&& self.fps@ == other.fps@
        &&& self.codec@ == other.codec@
        &&& self.lens == other.lens
        &&& self.max_zoom_milli == other.max_zoom_milli
    }
}

impl Clone for Capability {
    fn clone(&self) -> (res: Self)
        ensures
            res.eq_val(*self),
    {
        let res = Capability {
            resolution: self.resolution.clone(),
            fps: self.fps.clone(),
            codec: self.codec.clone(),
            lens: self.lens.clone(),
            max_zoom_milli: self.max_zoom_milli,
        };
        proof {
            assert forall|i: int| 0 <= i < self.fps@.len() implies res.fps@[i] == self.fps@[i] by {
                assert(vstd::pervasive::cloned::<u32>(self.fps[i], res.fps[i]));
            }
            assert forall|i: int| 0 <= i < self.codec@.len() implies res.codec@[i]
                == self.codec@[i] by {
                assert(vstd::pervasive::cloned::<String>(self.codec[i], res.codec[i]));
            }
            assert(res.fps@ =~= self.fps@);
            assert(res.codec@ =~= self.codec@);
        }
        res
    }
}

/// The full status snapshot a device returns from a probe.
#[derive(Debug)]
pub struct StatusResponse {
    pub alias: String,
    pub ndi_state: NdiState,
    pub current: CurrentSettings,
    pub telemetry: Telemetry,
    pub capabilities: Vec<Capability>,
}

impl StatusResponse {
    /// Equality of every carried value; the capability list is compared
    /// entry by entry.
    pub open spec fn eq_val(self, other: Self) -> bool {
        &&& self.alias == other.alias
        &&& self.ndi_state == other.ndi_state
        &&& self.current == other.current
        &&& self.telemetry == other.telemetry
        &&& self.capabilities@.len() == other.capabilities@.len()
        &&& forall|i: int|
            0 <= i < self.capabilities@.len() ==> self.capabilities@[i].eq_val(
                #[trigger] other.capabilities@[i],
            )
    }
}

/// Value equality of optional status snapshots.
pub open spec fn status_opt_eq(a: Option<StatusResponse>, b: Option<StatusResponse>) -> bool {
    match (a, b) {
        (Option::None, Option::None) => true,
        (Option::Some(x), Option::Some(y)) => x.eq_val(y),
        _ => false,
    }
}

impl Clone for StatusResponse {
    fn clone(&self) -> (res: Self)
        ensures
            res.eq_val(*self),
    {
        let res = StatusResponse {
            alias: self.alias.clone(),
            ndi_state: self.ndi_state,
            current: self.current.clone(),
            telemetry: self.telemetry,
            capabilities: self.capabilities.clone(),
        };
        proof {
            assert forall|i: int| 0 <= i < res.capabilities@.len() implies res.capabilities@[i]
                .eq_val(self.capabilities@[i]) by {
                assert(vstd::pervasive::cloned::<Capability>(
                    self.capabilities[i],
                    res.capabilities[i],
                ));
            }
        }
        res
    }
}

/// Parameters for starting a stream.
#[derive(Debug)]
pub struct StreamStartRequest {
    pub resolution: String,
    pub framerate: u32,
    pub bitrate: u32,
    pub codec: String,
}

impl Clone for StreamStartRequest {
    fn clone(&self) -> (res: Self)
        ensures
            res == *self,
    {
        StreamStartRequest {
            resolution: self.resolution.clone(),
            framerate: self.framerate,
            bitrate: self.bitrate,
            codec: self.codec.clone(),
        }
    }
}

/// A partial update of a device's capture settings; absent fields are left
/// unchanged by the device.
#[derive(Debug)]
pub struct CameraSettingsRequest {
    pub wb_mode: Option<WhiteBalanceMode>,
    pub wb_kelvin: Option<u32>,
    /// White balance tint, in thousandths.
    pub wb_tint_milli: Option<i64>,
    pub iso_mode: Option<ExposureMode>,
    pub iso: Option<u32>,
    pub shutter_mode: Option<ExposureMode>,
    /// Shutter time, in microseconds.
    pub shutter_us: Option<u64>,
    pub focus_mode: Option<FocusMode>,
    /// Zoom factor, in thousandths.
    pub zoom_milli: Option<u64>,
    pub lens: Option<String>,
    pub camera_position: Option<String>,
    pub orientation_lock: Option<String>,
}

impl Clone for CameraSettingsRequest {
    fn clone(&self) -> (res: Self)
        ensures
            res == *self,
    {
        CameraSettingsRequest {
            wb_mode: self.wb_mode,
            wb_kelvin: self.wb_kelvin,
            wb_tint_milli: self.wb_tint_milli,
            iso_mode: self.iso_mode,
            iso: self.iso,
            shutter_mode: self.shutter_mode,
            shutter_us: self.shutter_us,
            focus_mode: self.focus_mode,
            zoom_milli: self.zoom_milli,
            lens: self.lens.clone(),
            camera_position: self.camera_position.clone(),
            orientation_lock: self.orientation_lock.clone(),
        }
    }
}

/// A named, reusable settings template.
#[derive(Debug)]
pub struct CameraProfile {
    pub name: String,
    pub settings: CameraSettingsRequest,
}

impl Clone for CameraProfile {
    fn clone(&self) -> (res: Self)
        ensures
            res == *self,
    {
        CameraProfile { name: self.name.clone(), settings: self.settings.clone() }
    }
}

/// One telemetry frame from a device's WebSocket feed.
#[derive(Debug, Clone, Copy)]
pub struct WebSocketTelemetryMessage {
    /// Frames per second, in thousandths.
    pub fps_milli: u64,
    pub bitrate: u32,
    pub queue_ms: u32,
    /// Battery level percentage, in thousandths.
    pub battery_milli: u64,
    /// Temperature, in thousandths of a degree Celsius.
    pub temp_milli_c: i64,
    pub wifi_rssi: i32,
    /// CPU usage ratio, in thousandths.
    pub cpu_milli: u64,
    pub ndi_state: NdiState,
    pub dropped_frames: u32,
    pub charging_state: ChargingState,
}

/// A control command sent to a device over its WebSocket link.
#[derive(Debug)]
pub struct WebSocketCommandMessage {
    pub op: String,
    pub camera: Option<CameraSettingsRequest>,
}

/// Result of asking a device to measure white balance.
#[derive(Debug, Clone, Copy)]
pub struct WhiteBalanceMeasureResponse {
    pub scene_cct_k: u32,
    /// Measured tint, in thousandths.
    pub tint_milli: i64,
}

/// The structured error body a device returns with a non-success status.
#[derive(Debug)]
pub struct ErrorResponse {
    pub code: String,
    pub message: String,
}

impl Clone for ErrorResponse {
    fn clone(&self) -> (res: Self)
        ensures
            res == *self,
    {
        ErrorResponse { code: self.code.clone(), message: self.message.clone() }
    }
}

/// One registered device: identity, address, credentials, last-known status
/// and the registry's view of its connection.
#[derive(Debug)]
pub struct CameraInfo {
    pub id: String,
    pub alias: String,
    pub ip: String,
    pub port: u16,
    pub token: String,
    pub status: Option<StatusResponse>,
    pub connection_state: ConnectionState,
}

impl CameraInfo {
    /// Equality of every carried value; the status snapshot is compared
    /// value by value.
    pub open spec fn eq_val(self, other: Self) -> bool {
        &&& self.id == other.id
        &&& self.alias == other.alias
        &&& self.ip == other.ip
        &&& self.port == other.port
        &&& self.token == other.token
        &&& status_opt_eq(self.status, other.status)
        &&& self.connection_state == other.connection_state
    }
}

impl Clone for CameraInfo {
    fn clone(&self) -> (res: Self)
        ensures
            res.eq_val(*self),
    {
        CameraInfo {
            id: self.id.clone(),
            alias: self.alias.clone(),
            ip: self.ip.clone(),
            port: self.port,
            token: self.token.clone(),
            status: self.status.clone(),
            connection_state: self.connection_state,
        }
    }
}

/// One key/value pair from a discovery advertisement's metadata.
#[derive(Debug)]
pub struct TxtRecord {
    pub key: String,
    pub value: String,
}

impl Clone for TxtRecord {
    fn clone(&self) -> (res: Self)
        ensures
            res == *self,
    {
        TxtRecord { key: self.key.clone(), value: self.value.clone() }
    }
}

/// A device advertised on the local network but not yet registered.
#[derive(Debug)]
pub struct DiscoveredCamera {
    pub alias: String,
    pub ip: String,
    pub port: u16,
    pub txt_records: Vec<TxtRecord>,
}

impl DiscoveredCamera {
    /// Equality of every carried value; the metadata list is compared by its
    /// contents.
    pub open spec fn eq_val(self, other: Self) -> bool {
        &&& self.alias == other.alias
        &&& self.ip == other.ip
        &&& self.port == other.port
        &&& self.txt_records@ == other.txt_records@
    }
}

impl Clone for DiscoveredCamera {
    fn clone(&self) -> (res: Self)
        ensures
            res.eq_val(*self),
    {
        let res = DiscoveredCamera {
            alias: self.alias.clone(),
            ip: self.ip.clone(),
            port: self.port,
            txt_records: self.txt_records.clone(),
        };
        proof {
            assert forall|i: int| 0 <= i < self.txt_records@.len() implies res.txt_records@[i]
                == self.txt_records@[i] by {
                assert(vstd::pervasive::cloned::<TxtRecord>(
                    self.txt_records[i],
                    res.txt_records[i],
                ));
            }
            assert(res.txt_records@ =~= self.txt_records@);
        }
        res
    }
}

/// The outcome of one device's part of a group command.
#[derive(Debug)]
pub struct GroupCommandResult {
    pub camera_id: String,
    pub success: bool,
    pub error: Option<String>,
}

impl Clone for GroupCommandResult {
    fn clone(&self) -> (res: Self)
        ensures
            res == *self,
    {
        GroupCommandResult {
            camera_id: self.camera_id.clone(),
            success: self.success,
            error: self.error.clone(),
        }
    }
}

/// Application-level configuration, with defaults used when nothing has been
/// persisted yet.
#[derive(Debug)]
pub struct AppSettings {
    /// Start local-network discovery automatically at launch.
    pub auto_discovery: bool,
    /// Reconnection attempt ceiling handed to new device clients.
    pub reconnect_max_attempts: u32,
    /// Write device and profile state through to disk after mutations.
    pub persist_settings: bool,
}

impl Clone for AppSettings {
    fn clone(&self) -> (res: Self)
        ensures
            res == *self,
    {
        AppSettings {
            auto_discovery: self.auto_discovery,
            reconnect_max_attempts: self.reconnect_max_attempts,
            persist_settings: self.persist_settings,
        }
    }
}

impl Default for AppSettings {
    /// Defaults: discovery on, the production reconnect ceiling, persistence on.
    fn default() -> (r: Self)
        ensures
            r == (AppSettings {
                auto_discovery: true,
                reconnect_max_attempts: 1000,
                persist_settings: true,
            }),
    {
        AppSettings { auto_discovery: true, reconnect_max_attempts: 1000, persist_settings: true }
    }
}

} // verus!
