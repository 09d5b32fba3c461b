//! Verified core of a camera-fleet controller.
//!
//! The library models the fleet-orchestration layer of a remote camera
//! controller: a registry of devices, bounded-concurrency group dispatch with
//! per-device result aggregation, a WebSocket reconnection state machine with
//! capped exponential backoff, named settings profiles, and the snapshots that
//! a persistence layer writes through to disk. All network and file I/O lives
//! outside the library; callers hand the outcomes of probes and requests in as
//! plain values, and every decision taken on them is verified here.

mod backoff;
mod client;
mod discovery;
mod errors;
mod manager;
mod models;
mod numfmt;
mod persist;
mod reconnect;

pub use backoff::BackoffPolicy;
pub use client::CameraEndpoint;
pub use client::CameraOp;
pub use client::HttpPlan;
pub use client::device_id;
pub use client::is_success_status;
pub use client::response_outcome;
pub use discovery::DiscoveryTable;
pub use discovery::service_alias;
pub use errors::FleetError;
pub use manager::CameraManager;
pub use manager::PersistedSettings;
pub use manager::StartTarget;
pub use models::AppSettings;
pub use models::CameraInfo;
pub use models::CameraProfile;
pub use models::CameraSettingsRequest;
pub use models::Capability;
pub use models::ChargingState;
pub use models::ConnectionState;
pub use models::CurrentSettings;
pub use models::DiscoveredCamera;
pub use models::ErrorResponse;
pub use models::ExposureMode;
pub use models::FocusMode;
pub use models::GroupCommandResult;
pub use models::NdiState;
pub use models::StatusResponse;
pub use models::StreamStartRequest;
pub use models::Telemetry;
pub use models::TxtRecord;
pub use models::WebSocketCommandMessage;
pub use models::WebSocketTelemetryMessage;
pub use models::WhiteBalanceMeasureResponse;
pub use models::WhiteBalanceMode;
pub use persist::PersistedCamera;
pub use reconnect::BackoffDecision;
pub use reconnect::FrameAction;
pub use reconnect::LoopDirective;
pub use reconnect::ReconnectLoop;
pub use reconnect::WsFrame;
pub use reconnect::WsPhase;
pub use reconnect::frame_action;
