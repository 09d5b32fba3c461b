//! Snapshots for the write-through persistence layer, and reloading from
//! them.
//!
//! The on-disk registry is always a wholesale snapshot rebuilt from memory:
//! one record per device, carrying its identity and the settings last applied
//! to it — falling back to the settings its last status snapshot reported
//! when none were applied in this session. Reloading re-admits each record
//! through the same path as manual registration; a record whose device fails
//! its probe is skipped, never fatal.

use vstd::prelude::*;

use crate::client::device_id_seq;
use crate::errors::FleetError;
use crate::manager::admit_effect;
use crate::manager::contains_ps;
use crate::manager::ps_index;
use crate::manager::CameraManager;
use crate::manager::PersistedSettings;
use crate::models::CameraInfo;
use crate::models::CameraSettingsRequest;
use crate::models::StatusResponse;
use crate::models::StreamStartRequest;

verus! {

/// One device's record in the persisted registry.
#[derive(Debug)]
pub struct PersistedCamera {
    pub id: String,
    pub alias: String,
    pub ip: String,
    pub port: u16,
    pub token: String,
    pub stream_settings: Option<StreamStartRequest>,
    pub camera_settings: Option<CameraSettingsRequest>,
}

impl Clone for PersistedCamera {
    fn clone(&self) -> (res: Self)
        ensures
            res == *self,
    {
        PersistedCamera {
            id: self.id.clone(),
            alias: self.alias.clone(),
            ip: self.ip.clone(),
            port: self.port,
            token: self.token.clone(),
            stream_settings: self.stream_settings.clone(),
            camera_settings: self.camera_settings.clone(),
        }
    }
}

/// The stream settings a device's last status snapshot reports as applied.
pub open spec fn spec_status_stream(st: StatusResponse) -> StreamStartRequest {
    StreamStartRequest {
        resolution: st.current.resolution,
        framerate: st.current.fps,
        bitrate: st.current.bitrate,
        codec: st.current.codec,
    }
}

/// The camera settings a device's last status snapshot reports as applied.
pub open spec fn spec_status_camera(st: StatusResponse) -> CameraSettingsRequest {
    CameraSettingsRequest {
        wb_mode: Some(st.current.wb_mode),
        wb_kelvin: st.current.wb_kelvin,
        wb_tint_milli: st.current.wb_tint_milli,
        iso_mode: Some(st.current.iso_mode),
        iso: Some(st.current.iso),
        shutter_mode: Some(st.current.shutter_mode),
        shutter_us: Some(st.current.shutter_us),
        focus_mode: Some(st.current.focus_mode),
        zoom_milli: Some(st.current.zoom_milli),
        lens: Some(st.current.lens),
        camera_position: Some(st.current.camera_position),
        orientation_lock: None,
    }
}

impl PersistedCamera {
    /// A device's persisted record as derived from its registry entry alone:
    /// identity copied over, settings read out of its last status snapshot —
    /// or absent when no snapshot is known.
    pub fn from_camera_info(info: &CameraInfo) -> (r: PersistedCamera)
        ensures
            r.id == info.id,
            r.alias == info.alias,
            r.ip == info.ip,
            r.port == info.port,
            r.token == info.token,
            info.status is None ==> r.stream_settings is None && r.camera_settings is None,
            info.status matches Some(st) ==> r.stream_settings == Some(spec_status_stream(st))
                && r.camera_settings == Some(spec_status_camera(st)),
    {
        let (stream_settings, camera_settings) = match &info.status {
            Some(st) => {
                let stream = StreamStartRequest {
                    resolution: st.current.resolution.clone(),
                    framerate: st.current.fps,
                    bitrate: st.current.bitrate,
                    codec: st.current.codec.clone(),
                };
                let camera = CameraSettingsRequest {
                    wb_mode: Some(st.current.wb_mode),
                    wb_kelvin: st.current.wb_kelvin,
                    wb_tint_milli: st.current.wb_tint_milli,
                    iso_mode: Some(st.current.iso_mode),
                    iso: Some(st.current.iso),
                    shutter_mode: Some(st.current.shutter_mode),
                    shutter_us: Some(st.current.shutter_us),
                    focus_mode: Some(st.current.focus_mode),
                    zoom_milli: Some(st.current.zoom_milli),
                    lens: Some(st.current.lens.clone()),
                    camera_position: Some(st.current.camera_position.clone()),
                    orientation_lock: None,
                };
                (Some(stream), Some(camera))
            },
            None => (None, None),
        };
        PersistedCamera {
            id: info.id.clone(),
            alias: info.alias.clone(),
            ip: info.ip.clone(),
            port: info.port,
            token: info.token.clone(),
            stream_settings,
            camera_settings,
        }
    }
}

/// The persisted-settings store after restoring a saved entry for `id`
/// wholesale: both halves replaced at once.
pub open spec fn ps_set_entry(
    ps: Seq<PersistedSettings>,
    id: String,
    stream: Option<StreamStartRequest>,
    camera: Option<CameraSettingsRequest>,
) -> Seq<PersistedSettings> {
    if contains_ps(ps, id@) {
        ps.update(
            ps_index(ps, id@),
            PersistedSettings { camera_id: ps[ps_index(ps, id@)].camera_id, stream, camera },
        )
    } else {
        ps.push(PersistedSettings { camera_id: id, stream, camera })
    }
}

/// What one snapshot record's stream settings must be: the settings last
/// applied in this session when some were recorded, else the settings the
/// device's last status reported, else nothing.
pub open spec fn snapshot_stream_ok(
    entry: Option<StreamStartRequest>,
    info: CameraInfo,
    ps: Seq<PersistedSettings>,
) -> bool {
    if contains_ps(ps, info.id@) && ps[ps_index(ps, info.id@)].stream is Some {
        entry == ps[ps_index(ps, info.id@)].stream
    } else {
        match info.status {
            Some(st) => entry == Some(spec_status_stream(st)),
            None => entry is None,
        }
    }
}

/// As `snapshot_stream_ok`, for the camera-settings half.
pub open spec fn snapshot_camera_ok(
    entry: Option<CameraSettingsRequest>,
    info: CameraInfo,
    ps: Seq<PersistedSettings>,
) -> bool {
    if contains_ps(ps, info.id@) && ps[ps_index(ps, info.id@)].camera is Some {
        entry == ps[ps_index(ps, info.id@)].camera
    } else {
        match info.status {
            Some(st) => entry == Some(spec_status_camera(st)),
            None => entry is None,
        }
    }
}

impl CameraManager {
    /// Replaces the whole persisted-settings entry for `camera_id`.
    fn record_settings_entry(
        &mut self,
        camera_id: &String,
        stream: Option<StreamStartRequest>,
        camera: Option<CameraSettingsRequest>,
    )
        requires
            old(self).wf(),
        ensures
            final(self).wf(),
            final(self).cameras@ == old(self).cameras@,
            final(self).profiles@ == old(self).profiles@,
            final(self).app_settings == old(self).app_settings,
            final(self).persisted_settings@ == ps_set_entry(
                old(self).persisted_settings@,
                *camera_id,
                stream,
                camera,
            ),
    {
        match self.find_ps_index(camera_id) {
            Some(i) => {
                proof {
                    let k = ps_index(self.persisted_settings@, camera_id@);
                    assert(0 <= k < self.persisted_settings@.len() && self.persisted_settings@[
                        k
                    ].camera_id@ == camera_id@);
                    assert(k == i as int);
                }
                let ghost before = self.persisted_settings@;
                let mut entry = self.persisted_settings.remove(i);
                entry.stream = stream;
                entry.camera = camera;
                self.persisted_settings.insert(i, entry);
                proof {
                    assert(self.persisted_settings@ =~= ps_set_entry(
                        before,
                        *camera_id,
                        stream,
                        camera,
                    ));
                }
            },
            None => {
                self.persisted_settings.push(
                    PersistedSettings { camera_id: camera_id.clone(), stream, camera },
                );
            },
        }
    }

    /// The wholesale snapshot of the registry that the persistence layer
    /// writes to disk: one record per device, in the registry's order.
    pub fn registry_snapshot(&self) -> (snap: Vec<PersistedCamera>)
        requires
            self.wf(),
        ensures
            snap@.len() == self.cameras@.len(),
            forall|i: int|
                0 <= i < self.cameras@.len() ==> {
                    let entry = #[trigger] snap@[i];
                    let info = self.cameras@[i];
                    &&& entry.id == info.id
                    &&& entry.alias == info.alias
                    &&& entry.ip == info.ip
                    &&& entry.port == info.port
                    &&& entry.token == info.token
                    &&& snapshot_stream_ok(entry.stream_settings, info, self.persisted_settings@)
                    &&& snapshot_camera_ok(entry.camera_settings, info, self.persisted_settings@)
                },
    {
        let n = self.cameras.len();
        let mut snap: Vec<PersistedCamera> = Vec::new();
        let mut i: usize = 0;
        while i < n
            invariant
                self.wf(),
                n == self.cameras@.len(),
                i <= n,
                snap@.len() == i,
                forall|j: int|
                    0 <= j < i ==> {
                        let entry = #[trigger] snap@[j];
                        let info = self.cameras@[j];
                        &&& entry.id == info.id
                        &&& entry.alias == info.alias
                        &&& entry.ip == info.ip
                        &&& entry.port == info.port
                        &&& entry.token == info.token
                        &&& snapshot_stream_ok(
                            entry.stream_settings,
                            info,
                            self.persisted_settings@,
                        )
                        &&& snapshot_camera_ok(
                            entry.camera_settings,
                            info,
                            self.persisted_settings@,
                        )
                    },
            decreases n - i,
        {
            let mut record = PersistedCamera::from_camera_info(&self.cameras[i]);
            match self.find_ps_index(&self.cameras[i].id) {
                Some(j) => {
                    proof {
                        let k = ps_index(self.persisted_settings@, self.cameras@[i as int].id@);
                        assert(0 <= k < self.persisted_settings@.len()
                            && self.persisted_settings@[k].camera_id@ == self.cameras@[
                            i as int
                        ].id@);
                        assert(k == j as int);
                    }
                    match &self.persisted_settings[j].stream {
                        Some(req) => {
                            record.stream_settings = Some(req.clone());
                        },
                        None => {},
                    }
                    match &self.persisted_settings[j].camera {
                        Some(req) => {
                            record.camera_settings = Some(req.clone());
                        },
                        None => {},
                    }
                },
                None => {},
            }
            snap.push(record);
            i = i + 1;
        }
        snap
    }

    /// Re-admits one persisted record, given the outcome of its probe: a
    /// failed probe skips the record and changes nothing; a successful one
    /// registers the device exactly as manual registration does and, when the
    /// record carried any settings, restores them wholesale under the
    /// record's identifier.
    pub fn restore_camera(
        &mut self,
        persisted: PersistedCamera,
        probe: Result<StatusResponse, FleetError>,
    ) -> (r: Option<String>)
        requires
            old(self).wf(),
        ensures
            final(self).wf(),
            final(self).profiles@ == old(self).profiles@,
            final(self).app_settings == old(self).app_settings,
            probe is Err ==> r is None && *final(self) == *old(self),
            probe matches Ok(status) ==> {
                &&& r matches Some(id) && id@ == device_id_seq(persisted.ip@, persisted.port)
                &&& admit_effect(
                    old(self).cameras@,
                    final(self).cameras@,
                    persisted.ip,
                    persisted.port,
                    persisted.token,
                    status,
                )
                &&& final(self).persisted_settings@ == (
                if persisted.stream_settings is Some || persisted.camera_settings is Some {
                    ps_set_entry(
                        old(self).persisted_settings@,
                        persisted.id,
                        persisted.stream_settings,
                        persisted.camera_settings,
                    )
                } else {
                    old(self).persisted_settings@
                })
            },
    {
        let PersistedCamera { id: saved_id, alias: _, ip, port, token, stream_settings, camera_settings } =
            persisted;
        match probe {
            Err(_) => None,
            Ok(status) => {
                let has_settings = stream_settings.is_some() || camera_settings.is_some();
                match self.add_camera_manual(ip, port, token, Ok(status)) {
                    Ok(new_id) => {
                        if has_settings {
                            self.record_settings_entry(&saved_id, stream_settings, camera_settings);
                        }
                        Some(new_id)
                    },
                    Err(_) => None,
                }
            },
        }
    }
}

} // verus!
