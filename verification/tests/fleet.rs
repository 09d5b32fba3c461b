//! Fleet manager behaviour: registration, removal, listing, group dispatch,
//! profiles, persisted settings and reload.

use camfleet::CameraInfo;
use camfleet::CameraManager;
use camfleet::CameraProfile;
use camfleet::CameraSettingsRequest;
use camfleet::ChargingState;
use camfleet::ConnectionState;
use camfleet::CurrentSettings;
use camfleet::ExposureMode;
use camfleet::FleetError;
use camfleet::FocusMode;
use camfleet::NdiState;
use camfleet::PersistedCamera;
use camfleet::StatusResponse;
use camfleet::StreamStartRequest;
use camfleet::Telemetry;
use camfleet::WhiteBalanceMode;

fn current_settings() -> CurrentSettings {
    CurrentSettings {
        resolution: "3840x2160".to_string(),
        fps: 25,
        bitrate: 20_000_000,
        codec: "hevc".to_string(),
        wb_mode: WhiteBalanceMode::Auto,
        wb_kelvin: Some(5600),
        wb_tint_milli: Some(-250),
        iso_mode: ExposureMode::Auto,
        iso: 400,
        shutter_mode: ExposureMode::Manual,
        shutter_us: 20_000,
        focus_mode: FocusMode::Auto,
        zoom_milli: 1500,
        camera_position: "back".to_string(),
        lens: "wide".to_string(),
    }
}

fn telemetry() -> Telemetry {
    Telemetry {
        fps_milli: 24_975,
        bitrate: 19_500_000,
        battery_milli: 87_500,
        temp_milli_c: 31_250,
        wifi_rssi: -48,
        cpu_milli: 420,
        queue_ms: Some(12),
        dropped_frames: Some(0),
        charging_state: Some(ChargingState::Unplugged),
    }
}

fn status(alias: &str) -> StatusResponse {
    StatusResponse {
        alias: alias.to_string(),
        ndi_state: NdiState::Idle,
        current: current_settings(),
        telemetry: telemetry(),
        capabilities: Vec::new(),
    }
}

fn stream_request(resolution: &str) -> StreamStartRequest {
    StreamStartRequest {
        resolution: resolution.to_string(),
        framerate: 60,
        bitrate: 12_000_000,
        codec: "h264".to_string(),
    }
}

fn settings_request(iso: u32) -> CameraSettingsRequest {
    CameraSettingsRequest {
        wb_mode: Some(WhiteBalanceMode::Manual),
        wb_kelvin: Some(4500),
        wb_tint_milli: None,
        iso_mode: Some(ExposureMode::Manual),
        iso: Some(iso),
        shutter_mode: None,
        shutter_us: None,
        focus_mode: Some(FocusMode::Manual),
        zoom_milli: Some(2000),
        lens: None,
        camera_position: None,
        orientation_lock: None,
    }
}

fn manager_with(cams: &[(&str, u16, &str)]) -> CameraManager {
    let mut m = CameraManager::new();
    for (ip, port, alias) in cams {
        let id = m
            .add_camera_manual(
                ip.to_string(),
                *port,
                String::new(),
                Ok(status(alias)),
            )
            .expect("probe succeeded, so registration must succeed");
        assert_eq!(id, format!("{}:{}", ip, port));
    }
    m
}

#[test]
fn add_camera_builds_entry_from_probe() {
    let m = manager_with(&[("192.168.1.10", 8080, "Cam1")]);
    assert_eq!(m.cameras.len(), 1);
    let c: &CameraInfo = &m.cameras[0];
    assert_eq!(c.id, "192.168.1.10:8080");
    assert_eq!(c.alias, "Cam1");
    assert_eq!(c.ip, "192.168.1.10");
    assert_eq!(c.port, 8080);
    assert_eq!(c.connection_state, ConnectionState::Connected);
    assert_eq!(c.status.as_ref().unwrap().alias, "Cam1");
}

#[test]
fn add_camera_failed_probe_leaves_registry_unchanged() {
    let mut m = manager_with(&[("192.168.1.10", 8080, "Cam1")]);
    let r = m.add_camera_manual(
        "192.168.1.99".to_string(),
        8080,
        String::new(),
        Err(FleetError::ConnectFailed {
            detail: "no route to host".to_string(),
        }),
    );
    assert!(matches!(r, Err(FleetError::ConnectFailed { .. })));
    assert_eq!(m.cameras.len(), 1);
    assert_eq!(m.cameras[0].id, "192.168.1.10:8080");
}

#[test]
fn add_camera_same_address_replaces_entry() {
    let mut m = manager_with(&[("192.168.1.10", 8080, "Cam1")]);
    let id = m
        .add_camera_manual(
            "192.168.1.10".to_string(),
            8080,
            "tok".to_string(),
            Ok(status("Renamed")),
        )
        .unwrap();
    assert_eq!(id, "192.168.1.10:8080");
    assert_eq!(m.cameras.len(), 1);
    assert_eq!(m.cameras[0].alias, "Renamed");
    assert_eq!(m.cameras[0].token, "tok");
}

#[test]
fn remove_camera_unknown_id_is_not_found_and_unchanged() {
    let mut m = manager_with(&[("192.168.1.10", 8080, "Cam1")]);
    let r = m.remove_camera(&"10.0.0.1:9999".to_string());
    match r {
        Err(FleetError::NotFound { what }) => assert_eq!(what, "10.0.0.1:9999"),
        other => panic!("expected NotFound, got {:?}", other),
    }
    assert_eq!(m.cameras.len(), 1);
    assert_eq!(m.cameras[0].id, "192.168.1.10:8080");
}

#[test]
fn remove_camera_drops_only_that_entry() {
    let mut m = manager_with(&[("192.168.1.10", 8080, "Cam1"), ("192.168.1.11", 8080, "Cam2")]);
    m.remove_camera(&"192.168.1.10:8080".to_string()).unwrap();
    assert_eq!(m.cameras.len(), 1);
    assert_eq!(m.cameras[0].id, "192.168.1.11:8080");
}

#[test]
fn update_camera_alias_renames_in_place() {
    let mut m = manager_with(&[("192.168.1.10", 8080, "Cam1")]);
    m.update_camera_alias(&"192.168.1.10:8080".to_string(), "Stage Left".to_string())
        .unwrap();
    assert_eq!(m.cameras[0].alias, "Stage Left");
    assert_eq!(m.cameras[0].ip, "192.168.1.10");

    let r = m.update_camera_alias(&"missing".to_string(), "x".to_string());
    assert!(matches!(r, Err(FleetError::NotFound { .. })));
}

#[test]
fn list_refreshes_status_and_keeps_stale_snapshot_on_failure() {
    let m = manager_with(&[("192.168.1.10", 8080, "Cam1")]);

    // First listing: the fresh probe succeeds.
    let listed = m.get_all_cameras(&vec![Ok(status("Cam1"))]);
    assert_eq!(listed.len(), 1);
    assert_eq!(listed[0].alias, "Cam1");
    assert_eq!(listed[0].connection_state, ConnectionState::Connected);
    assert!(listed[0].status.is_some());

    // Second listing: the probe fails; the entry turns Error but retains the
    // previously known snapshot.
    let listed = m.get_all_cameras(&vec![Err(FleetError::RequestFailed {
        detail: "timed out".to_string(),
    })]);
    assert_eq!(listed.len(), 1);
    assert_eq!(listed[0].connection_state, ConnectionState::Error);
    let snapshot = listed[0].status.as_ref().expect("stale snapshot retained");
    assert_eq!(snapshot.alias, "Cam1");
}

#[test]
fn dispatch_one_result_per_id_with_server_error_and_missing() {
    let m = manager_with(&[("10.0.0.1", 80, "A"), ("10.0.0.2", 80, "B")]);
    let ids = vec![
        "10.0.0.1:80".to_string(),
        "10.0.0.2:80".to_string(),
        "missing".to_string(),
    ];
    let outcomes: Vec<Result<(), FleetError>> = vec![
        Ok(()),
        Err(FleetError::ServerError {
            code: "E_STREAM".to_string(),
            message: "already streaming".to_string(),
        }),
        Ok(()),
    ];
    let res = m.group_stop_stream(&ids, &outcomes);
    assert_eq!(res.len(), 3);

    assert_eq!(res[0].camera_id, "10.0.0.1:80");
    assert!(res[0].success);
    assert!(res[0].error.is_none());

    assert_eq!(res[1].camera_id, "10.0.0.2:80");
    assert!(!res[1].success);
    assert_eq!(
        res[1].error.as_deref(),
        Some("E_STREAM: already streaming")
    );

    assert_eq!(res[2].camera_id, "missing");
    assert!(!res[2].success);
    assert_eq!(res[2].error.as_deref(), Some("Camera not found: missing"));
}

#[test]
fn dispatch_empty_input_yields_empty_results() {
    let m = manager_with(&[("10.0.0.1", 80, "A")]);
    let res = m.group_stop_stream(&Vec::new(), &Vec::new());
    assert!(res.is_empty());
}

#[test]
fn group_start_stream_records_settings_for_every_requested_id() {
    let mut m = manager_with(&[("10.0.0.1", 80, "A")]);
    let ids = vec!["10.0.0.1:80".to_string(), "unregistered".to_string()];
    let outcomes: Vec<Result<(), FleetError>> = vec![Ok(()), Ok(())];
    let res = m.group_start_stream(&ids, stream_request("1280x720"), &outcomes);
    assert_eq!(res.len(), 2);

    let (stream, _) = m
        .get_persisted_settings(&"10.0.0.1:80".to_string())
        .expect("entry recorded");
    assert_eq!(stream.unwrap().resolution, "1280x720");
    // The request is remembered even for an identifier that is not registered.
    let (stream, _) = m
        .get_persisted_settings(&"unregistered".to_string())
        .expect("entry recorded");
    assert_eq!(stream.unwrap().resolution, "1280x720");
}

#[test]
fn start_stream_requires_registration_and_records_settings() {
    let mut m = manager_with(&[("10.0.0.1", 80, "A")]);
    let r = m.start_stream(&"missing".to_string(), stream_request("1280x720"));
    assert!(matches!(r, Err(FleetError::NotFound { .. })));
    assert!(m.get_persisted_settings(&"missing".to_string()).is_none());

    m.start_stream(&"10.0.0.1:80".to_string(), stream_request("640x480"))
        .unwrap();
    let (stream, camera) = m
        .get_persisted_settings(&"10.0.0.1:80".to_string())
        .unwrap();
    assert_eq!(stream.unwrap().resolution, "640x480");
    assert!(camera.is_none());
}

#[test]
fn update_stream_settings_requires_registration() {
    let mut m = manager_with(&[("10.0.0.1", 80, "A")]);
    let r = m.update_stream_settings(&"missing".to_string(), stream_request("1280x720"));
    assert!(matches!(r, Err(FleetError::NotFound { .. })));
    assert!(m.get_persisted_settings(&"missing".to_string()).is_none());

    m.update_stream_settings(&"10.0.0.1:80".to_string(), stream_request("1280x720"))
        .unwrap();
    let (stream, _) = m
        .get_persisted_settings(&"10.0.0.1:80".to_string())
        .unwrap();
    assert_eq!(stream.unwrap().resolution, "1280x720");
}

#[test]
fn update_camera_settings_records_camera_half() {
    let mut m = manager_with(&[("10.0.0.1", 80, "A")]);
    m.update_camera_settings(&"10.0.0.1:80".to_string(), settings_request(800))
        .unwrap();
    let (stream, camera) = m
        .get_persisted_settings(&"10.0.0.1:80".to_string())
        .unwrap();
    assert!(stream.is_none());
    assert_eq!(camera.unwrap().iso, Some(800));
}

#[test]
fn profile_upsert_is_idempotent_on_name() {
    let mut m = CameraManager::new();
    m.save_profile("interview".to_string(), settings_request(100));
    m.save_profile("interview".to_string(), settings_request(640));
    let profiles = m.get_profiles();
    assert_eq!(profiles.len(), 1);
    assert_eq!(profiles[0].name, "interview");
    assert_eq!(profiles[0].settings.iso, Some(640));
}

#[test]
fn profiles_keep_distinct_names_in_insertion_order() {
    let mut m = CameraManager::new();
    m.save_profile("day".to_string(), settings_request(100));
    m.save_profile("night".to_string(), settings_request(3200));
    m.save_profile("day".to_string(), settings_request(200));
    let profiles: Vec<CameraProfile> = m.get_profiles();
    assert_eq!(profiles.len(), 2);
    assert_eq!(profiles[0].name, "day");
    assert_eq!(profiles[0].settings.iso, Some(200));
    assert_eq!(profiles[1].name, "night");
}

#[test]
fn delete_profile_unknown_name_is_not_found() {
    let mut m = CameraManager::new();
    m.save_profile("day".to_string(), settings_request(100));
    let r = m.delete_profile(&"night".to_string());
    match r {
        Err(FleetError::NotFound { what }) => assert_eq!(what, "night"),
        other => panic!("expected NotFound, got {:?}", other),
    }
    assert_eq!(m.get_profiles().len(), 1);

    m.delete_profile(&"day".to_string()).unwrap();
    assert!(m.get_profiles().is_empty());
}

#[test]
fn apply_profile_records_settings_and_reports_per_device() {
    let mut m = manager_with(&[("10.0.0.1", 80, "A")]);
    m.save_profile("stage".to_string(), settings_request(1600));

    let missing = m.apply_profile(
        &"absent".to_string(),
        &vec!["10.0.0.1:80".to_string()],
        &vec![Ok(())],
    );
    assert!(matches!(missing, Err(FleetError::NotFound { .. })));

    let ids = vec!["10.0.0.1:80".to_string(), "ghost".to_string()];
    let outcomes: Vec<Result<(), FleetError>> = vec![Ok(()), Ok(())];
    let res = m.apply_profile(&"stage".to_string(), &ids, &outcomes).unwrap();
    assert_eq!(res.len(), 2);
    assert!(res[0].success);
    assert!(!res[1].success);

    let (_, camera) = m
        .get_persisted_settings(&"10.0.0.1:80".to_string())
        .unwrap();
    assert_eq!(camera.unwrap().iso, Some(1600));
}

#[test]
fn start_all_plan_uses_persisted_settings_or_default() {
    let mut m = manager_with(&[("10.0.0.1", 80, "A"), ("10.0.0.2", 80, "B")]);
    m.update_stream_settings(&"10.0.0.1:80".to_string(), stream_request("1280x720"))
        .unwrap();

    let plan = m.start_all_plan();
    assert_eq!(plan.len(), 2);
    assert_eq!(plan[0].camera_id, "10.0.0.1:80");
    assert_eq!(plan[0].request.resolution, "1280x720");

    // No settings were ever applied to the second device: the fixed default.
    assert_eq!(plan[1].camera_id, "10.0.0.2:80");
    assert_eq!(plan[1].request.resolution, "1920x1080");
    assert_eq!(plan[1].request.framerate, 30);
    assert_eq!(plan[1].request.bitrate, 10_000_000);
    assert_eq!(plan[1].request.codec, "h264");
}

#[test]
fn start_and_stop_all_report_one_result_per_device() {
    let m = manager_with(&[("10.0.0.1", 80, "A"), ("10.0.0.2", 80, "B")]);
    let outcomes: Vec<Result<(), FleetError>> = vec![
        Ok(()),
        Err(FleetError::RequestFailed {
            detail: "timed out".to_string(),
        }),
    ];
    let res = m.start_all_cameras(&outcomes);
    assert_eq!(res.len(), 2);
    assert!(res[0].success);
    assert!(!res[1].success);
    assert_eq!(res[1].error.as_deref(), Some("Request failed: timed out"));

    let res = m.stop_all_cameras(&vec![Ok(()), Ok(())]);
    assert_eq!(res.len(), 2);
    assert!(res.iter().all(|r| r.success));
}

#[test]
fn delete_cameras_data_clears_registry_only() {
    let mut m = manager_with(&[("10.0.0.1", 80, "A")]);
    m.save_profile("day".to_string(), settings_request(100));
    m.update_stream_settings(&"10.0.0.1:80".to_string(), stream_request("1280x720"))
        .unwrap();
    m.delete_cameras_data();
    assert!(m.cameras.is_empty());
    assert_eq!(m.get_profiles().len(), 1);
    assert!(m
        .get_persisted_settings(&"10.0.0.1:80".to_string())
        .is_some());
}

#[test]
fn app_settings_default_and_roundtrip() {
    let mut m = CameraManager::new();
    let s = m.get_app_settings();
    assert!(s.auto_discovery);
    assert_eq!(s.reconnect_max_attempts, 1000);
    assert!(s.persist_settings);

    let mut changed = s;
    changed.auto_discovery = false;
    changed.reconnect_max_attempts = 5;
    m.save_app_settings(changed);
    let s = m.get_app_settings();
    assert!(!s.auto_discovery);
    assert_eq!(s.reconnect_max_attempts, 5);
}

#[test]
fn snapshot_prefers_last_applied_settings_over_status() {
    let mut m = manager_with(&[("10.0.0.1", 80, "A")]);
    let snap = m.registry_snapshot();
    assert_eq!(snap.len(), 1);
    // Nothing applied yet: the snapshot carries what the probe reported.
    assert_eq!(
        snap[0].stream_settings.as_ref().unwrap().resolution,
        "3840x2160"
    );
    assert_eq!(snap[0].id, "10.0.0.1:80");
    assert_eq!(snap[0].alias, "A");

    m.update_stream_settings(&"10.0.0.1:80".to_string(), stream_request("1280x720"))
        .unwrap();
    let snap = m.registry_snapshot();
    assert_eq!(
        snap[0].stream_settings.as_ref().unwrap().resolution,
        "1280x720"
    );
    // The camera half was never applied in this session: still status-derived.
    assert_eq!(
        snap[0].camera_settings.as_ref().unwrap().iso,
        Some(400)
    );
}

#[test]
fn from_camera_info_without_status_has_no_settings() {
    let info = CameraInfo {
        id: "10.0.0.1:80".to_string(),
        alias: "A".to_string(),
        ip: "10.0.0.1".to_string(),
        port: 80,
        token: String::new(),
        status: None,
        connection_state: ConnectionState::Disconnected,
    };
    let rec = PersistedCamera::from_camera_info(&info);
    assert_eq!(rec.id, "10.0.0.1:80");
    assert!(rec.stream_settings.is_none());
    assert!(rec.camera_settings.is_none());
}

#[test]
fn restore_camera_skips_failed_probe_and_restores_settings() {
    let mut m = CameraManager::new();
    let record = PersistedCamera {
        id: "10.0.0.1:80".to_string(),
        alias: "A".to_string(),
        ip: "10.0.0.1".to_string(),
        port: 80,
        token: "tok".to_string(),
        stream_settings: Some(stream_request("1280x720")),
        camera_settings: None,
    };

    let skipped = m.restore_camera(
        record.clone(),
        Err(FleetError::ConnectFailed {
            detail: "unreachable".to_string(),
        }),
    );
    assert!(skipped.is_none());
    assert!(m.cameras.is_empty());
    assert!(m.get_persisted_settings(&"10.0.0.1:80".to_string()).is_none());

    let id = m.restore_camera(record, Ok(status("A"))).unwrap();
    assert_eq!(id, "10.0.0.1:80");
    assert_eq!(m.cameras.len(), 1);
    let (stream, camera) = m
        .get_persisted_settings(&"10.0.0.1:80".to_string())
        .unwrap();
    assert_eq!(stream.unwrap().resolution, "1280x720");
    assert!(camera.is_none());
}

#[test]
fn find_camera_resolves_registered_ids_only() {
    let m = manager_with(&[("10.0.0.1", 80, "A")]);
    let c = m.find_camera(&"10.0.0.1:80".to_string()).unwrap();
    assert_eq!(c.alias, "A");
    assert!(m.find_camera(&"10.0.0.9:80".to_string()).is_none());
}
