//! The fleet manager: the device registry, per-device persisted settings,
//! named profiles and application settings, together with group-dispatch
//! result aggregation.
//!
//! The manager never touches the network itself. Wherever the original
//! operation performed a probe or a control request, the corresponding method
//! takes that exchange's outcome as an argument and is verified for every
//! value the exchange could produce.

use vstd::prelude::*;
use vstd::string::StringExecFns;

use crate::client::device_id;
use crate::client::device_id_seq;
use crate::errors::FleetError;
use crate::models::AppSettings;
use crate::models::CameraInfo;
use crate::models::CameraProfile;
use crate::models::CameraSettingsRequest;
use crate::models::ConnectionState;
use crate::models::GroupCommandResult;
use crate::models::StatusResponse;
use crate::models::StreamStartRequest;

verus! {

/// The settings last applied to one device, remembered independently of its
/// live status so that a later "start with last-known configuration" works
/// even when a fresh probe fails.
#[derive(Debug)]
pub struct PersistedSettings {
    pub camera_id: String,
    pub stream: Option<StreamStartRequest>,
    pub camera: Option<CameraSettingsRequest>,
}

impl Clone for PersistedSettings {
    fn clone(&self) -> (res: Self)
        ensures
            res == *self,
    {
        PersistedSettings {
            camera_id: self.camera_id.clone(),
            stream: self.stream.clone(),
            camera: self.camera.clone(),
        }
    }
}

// Spec-level lookups for the three keyed stores.
pub open spec fn contains_id(cams: Seq<CameraInfo>, id: Seq<char>) -> bool {
    exists|i: int| 0 <= i < cams.len() && cams[i].id@ == id
}

pub open spec fn id_index(cams: Seq<CameraInfo>, id: Seq<char>) -> int {
    choose|i: int| 0 <= i < cams.len() && cams[i].id@ == id
}

pub open spec fn unique_ids(cams: Seq<CameraInfo>) -> bool {
    forall|i: int, j: int| 0 <= i < j < cams.len() ==> cams[i].id@ != cams[j].id@
}

pub open spec fn contains_ps(ps: Seq<PersistedSettings>, id: Seq<char>) -> bool {
    exists|i: int| 0 <= i < ps.len() && ps[i].camera_id@ == id
}

pub open spec fn ps_index(ps: Seq<PersistedSettings>, id: Seq<char>) -> int {
    choose|i: int| 0 <= i < ps.len() && ps[i].camera_id@ == id
}

pub open spec fn unique_ps(ps: Seq<PersistedSettings>) -> bool {
    forall|i: int, j: int| 0 <= i < j < ps.len() ==> ps[i].camera_id@ != ps[j].camera_id@
}

pub open spec fn has_profile(profiles: Seq<CameraProfile>, name: Seq<char>) -> bool {
    exists|i: int| 0 <= i < profiles.len() && profiles[i].name@ == name
}

pub open spec fn profile_index(profiles: Seq<CameraProfile>, name: Seq<char>) -> int {
    choose|i: int| 0 <= i < profiles.len() && profiles[i].name@ == name
}

pub open spec fn unique_profiles(profiles: Seq<CameraProfile>) -> bool {
    forall|i: int, j: int| 0 <= i < j < profiles.len() ==> profiles[i].name@ != profiles[j].name@
}

/// The not-found message a group result carries for an unregistered
/// identifier.
pub open spec fn camera_not_found_seq(id: Seq<char>) -> Seq<char> {
    "Camera not found: "@ + id
}

/// The persisted-settings store after remembering `request` as the stream
/// settings last applied to `id`: updated in place when an entry for `id`
/// exists, appended otherwise.
pub open spec fn ps_set_stream(
    ps: Seq<PersistedSettings>,
    id: String,
    request: StreamStartRequest,
) -> Seq<PersistedSettings> {
    if contains_ps(ps, id@) {
        ps.update(
            ps_index(ps, id@),
            PersistedSettings { stream: Some(request), ..ps[ps_index(ps, id@)] },
        )
    } else {
        ps.push(PersistedSettings { camera_id: id, stream: Some(request), camera: None })
    }
}

/// As `ps_set_stream`, for the camera-settings half of an entry.
pub open spec fn ps_set_camera(
    ps: Seq<PersistedSettings>,
    id: String,
    settings: CameraSettingsRequest,
) -> Seq<PersistedSettings> {
    if contains_ps(ps, id@) {
        ps.update(
            ps_index(ps, id@),
            PersistedSettings { camera: Some(settings), ..ps[ps_index(ps, id@)] },
        )
    } else {
        ps.push(PersistedSettings { camera_id: id, stream: None, camera: Some(settings) })
    }
}

/// `ps_set_stream` folded over a list of identifiers, first to last.
pub open spec fn ps_set_stream_all(
    ps: Seq<PersistedSettings>,
    ids: Seq<String>,
    request: StreamStartRequest,
) -> Seq<PersistedSettings>
    decreases ids.len(),
{
    if ids.len() == 0 {
        ps
    } else {
        ps_set_stream_all(ps_set_stream(ps, ids[0], request), ids.drop_first(), request)
    }
}

/// `ps_set_camera` folded over a list of identifiers, first to last.
pub open spec fn ps_set_camera_all(
    ps: Seq<PersistedSettings>,
    ids: Seq<String>,
    settings: CameraSettingsRequest,
) -> Seq<PersistedSettings>
    decreases ids.len(),
{
    if ids.len() == 0 {
        ps
    } else {
        ps_set_camera_all(ps_set_camera(ps, ids[0], settings), ids.drop_first(), settings)
    }
}

proof fn lemma_ps_set_stream_all_push(
    ps: Seq<PersistedSettings>,
    ids: Seq<String>,
    x: String,
    request: StreamStartRequest,
)
    ensures
        ps_set_stream_all(ps, ids.push(x), request) == ps_set_stream(
            ps_set_stream_all(ps, ids, request),
            x,
            request,
        ),
    decreases ids.len(),
{
    reveal_with_fuel(ps_set_stream_all, 3);
    if ids.len() == 0 {
        assert(ids.push(x).drop_first() =~= Seq::<String>::empty());
        assert(ids.push(x)[0] == x);
        assert(ps_set_stream_all(ps, ids.push(x), request) == ps_set_stream_all(
            ps_set_stream(ps, x, request),
            Seq::<String>::empty(),
            request,
        ));
    } else {
        assert(ids.push(x).drop_first() =~= ids.drop_first().push(x));
        assert(ids.push(x)[0] == ids[0]);
        lemma_ps_set_stream_all_push(ps_set_stream(ps, ids[0], request), ids.drop_first(), x, request);
        assert(ps_set_stream_all(ps, ids.push(x), request) == ps_set_stream_all(
            ps_set_stream(ps, ids[0], request),
            ids.drop_first().push(x),
            request,
        ));
    }
}

proof fn lemma_ps_set_camera_all_push(
    ps: Seq<PersistedSettings>,
    ids: Seq<String>,
    x: String,
    settings: CameraSettingsRequest,
)
    ensures
        ps_set_camera_all(ps, ids.push(x), settings) == ps_set_camera(
            ps_set_camera_all(ps, ids, settings),
            x,
            settings,
        ),
    decreases ids.len(),
{
    reveal_with_fuel(ps_set_camera_all, 3);
    if ids.len() == 0 {
        assert(ids.push(x).drop_first() =~= Seq::<String>::empty());
        assert(ids.push(x)[0] == x);
        assert(ps_set_camera_all(ps, ids.push(x), settings) == ps_set_camera_all(
            ps_set_camera(ps, x, settings),
            Seq::<String>::empty(),
            settings,
        ));
    } else {
        assert(ids.push(x).drop_first() =~= ids.drop_first().push(x));
        assert(ids.push(x)[0] == ids[0]);
        lemma_ps_set_camera_all_push(
            ps_set_camera(ps, ids[0], settings),
            ids.drop_first(),
            x,
            settings,
        );
        assert(ps_set_camera_all(ps, ids.push(x), settings) == ps_set_camera_all(
            ps_set_camera(ps, ids[0], settings),
            ids.drop_first().push(x),
            settings,
        ));
    }
}

/// What a group dispatch owes its caller: exactly one result per requested
/// identifier, in the input's order; an unregistered identifier is an
/// immediate not-found failure; a registered one succeeds exactly when its
/// operation's outcome succeeded, and carries the outcome's error message
/// otherwise.
pub open spec fn group_results_ok(
    cams: Seq<CameraInfo>,
    ids: Seq<String>,
    outcomes: Seq<Result<(), FleetError>>,
    res: Seq<GroupCommandResult>,
) -> bool {
    &&& res.len() == ids.len()
    &&& forall|i: int| 0 <= i < ids.len() ==> (#[trigger] res[i]).camera_id == ids[i]
    &&& forall|i: int|
        0 <= i < ids.len() && !contains_id(cams, ids[i]@) ==> !(#[trigger] res[i]).success && (
        res[i].error matches Some(m) && m@ == camera_not_found_seq(ids[i]@))
    &&& forall|i: int|
        0 <= i < ids.len() && contains_id(cams, ids[i]@) ==> ((#[trigger] res[i]).success
            <==> outcomes[i] is Ok) && (outcomes[i] is Ok ==> res[i].error is None) && (outcomes[i]
            matches Err(e) ==> res[i].error matches Some(m) && m@ == e.spec_message())
}

/// A registry entry freshly admitted for `ip:port` after a successful probe:
/// its alias comes from the probed status, its status snapshot is the probe
/// result, and it starts out connected.
pub open spec fn admitted_entry(
    entry: CameraInfo,
    ip: String,
    port: u16,
    token: String,
    status: StatusResponse,
) -> bool {
    &&& entry.id@ == device_id_seq(ip@, port)
    &&& entry.alias == status.alias
    &&& entry.ip == ip
    &&& entry.port == port
    &&& entry.token == token
    &&& entry.status == Some(status)
    &&& entry.connection_state == ConnectionState::Connected
}

/// How registration changes the registry: an entry admitted for `ip:port`
/// replaces the entry already keyed by that address's identifier, or is
/// appended when the identifier is new; every other entry stays put.
pub open spec fn admit_effect(
    before: Seq<CameraInfo>,
    after: Seq<CameraInfo>,
    ip: String,
    port: u16,
    token: String,
    status: StatusResponse,
) -> bool {
    if contains_id(before, device_id_seq(ip@, port)) {
        let k = id_index(before, device_id_seq(ip@, port));
        &&& after.len() == before.len()
        &&& forall|j: int| 0 <= j < before.len() && j != k ==> after[j] == before[j]
        &&& admitted_entry(after[k], ip, port, token, status)
    } else {
        &&& after.len() == before.len() + 1
        &&& forall|j: int| 0 <= j < before.len() ==> after[j] == before[j]
        &&& admitted_entry(after[before.len() as int], ip, port, token, status)
    }
}

/// The profile store after an upsert of `name`: the settings of the profile
/// already under that name are replaced, or a new profile is appended.
pub open spec fn profile_upsert(
    profiles: Seq<CameraProfile>,
    name: String,
    settings: CameraSettingsRequest,
) -> Seq<CameraProfile> {
    if has_profile(profiles, name@) {
        profiles.update(
            profile_index(profiles, name@),
            CameraProfile { name: profiles[profile_index(profiles, name@)].name, settings },
        )
    } else {
        profiles.push(CameraProfile { name, settings })
    }
}

/// What one device's entry in a fleet listing must look like: the identity
/// fields of the stored entry, with the status and connection state refreshed
/// from the listing's probe — a successful probe yields the fresh snapshot
/// and `Connected`; a failed probe yields `Error` while the previously known
/// snapshot is retained.
pub open spec fn listed_entry_ok(
    entry: CameraInfo,
    stored: CameraInfo,
    probe: Result<StatusResponse, FleetError>,
) -> bool {
    &&& entry.id == stored.id
    &&& entry.alias == stored.alias
    &&& entry.ip == stored.ip
    &&& entry.port == stored.port
    &&& entry.token == stored.token
    &&& match probe {
        Ok(st) => crate::models::status_opt_eq(entry.status, Some(st))
            && entry.connection_state == ConnectionState::Connected,
        Err(_) => crate::models::status_opt_eq(entry.status, stored.status)
            && entry.connection_state == ConnectionState::Error,
    }
}

/// The stream settings "start all" falls back to when a device has none
/// persisted.
pub open spec fn is_default_stream_request(r: StreamStartRequest) -> bool {
    &&& r.resolution@ == "1920x1080"@
    &&& r.framerate == 30
    &&& r.bitrate == 10000000
    &&& r.codec@ == "h264"@
}

/// The request "start all" sends to a device: its persisted stream settings
/// when some were recorded, the fixed default otherwise.
pub open spec fn planned_request_ok(
    req: StreamStartRequest,
    info: CameraInfo,
    ps: Seq<PersistedSettings>,
) -> bool {
    if contains_ps(ps, info.id@) && ps[ps_index(ps, info.id@)].stream is Some {
        req == ps[ps_index(ps, info.id@)].stream.unwrap()
    } else {
        is_default_stream_request(req)
    }
}

/// One device's part of a "start all": which device, and with which request.
#[derive(Debug)]
pub struct StartTarget {
    pub camera_id: String,
    pub request: StreamStartRequest,
}

impl Clone for StartTarget {
    fn clone(&self) -> (res: Self)
        ensures
            res == *self,
    {
        StartTarget { camera_id: self.camera_id.clone(), request: self.request.clone() }
    }
}

/// The fixed fallback stream settings: 1920x1080, 30 fps, 10 Mb/s, h264.
pub fn default_stream_request() -> (r: StreamStartRequest)
    ensures
        is_default_stream_request(r),
{
    StreamStartRequest {
        resolution: String::from_str("1920x1080"),
        framerate: 30,
        bitrate: 10000000,
        codec: String::from_str("h264"),
    }
}

/// The fleet manager's in-memory source of truth. The persistence layer only
/// ever writes snapshots taken from here.
#[derive(Debug)]
pub struct CameraManager {
    pub cameras: Vec<CameraInfo>,
    pub persisted_settings: Vec<PersistedSettings>,
    pub profiles: Vec<CameraProfile>,
    pub app_settings: AppSettings,
}

impl CameraManager {
    /// Registry keys, persisted-settings keys and profile names are unique.
    pub open spec fn wf(self) -> bool {
        &&& unique_ids(self.cameras@)
        &&& unique_ps(self.persisted_settings@)
        &&& unique_profiles(self.profiles@)
    }

    pub fn new() -> (r: Self)
        ensures
            r.cameras@ == Seq::<CameraInfo>::empty(),
            r.persisted_settings@ == Seq::<PersistedSettings>::empty(),
            r.profiles@ == Seq::<CameraProfile>::empty(),
            r.app_settings == (AppSettings {
                auto_discovery: true,
                reconnect_max_attempts: 1000,
                persist_settings: true,
            }),
            r.wf(),
    {
        let r = CameraManager {
            cameras: Vec::new(),
            persisted_settings: Vec::new(),
            profiles: Vec::new(),
            app_settings: AppSettings::default(),
        };
        proof {
            assert(r.cameras@ =~= Seq::<CameraInfo>::empty());
            assert(r.persisted_settings@ =~= Seq::<PersistedSettings>::empty());
            assert(r.profiles@ =~= Seq::<CameraProfile>::empty());
        }
        r
    }

    /// Index of the registry entry for `camera_id`, if one exists.
    fn find_camera_index(&self, camera_id: &String) -> (r: Option<usize>)
        ensures
            match r {
                Some(i) => i < self.cameras@.len() && self.cameras@[i as int].id@ == camera_id@,
                None => !contains_id(self.cameras@, camera_id@),
            },
    {
        let n = self.cameras.len();
        let mut i: usize = 0;
        while i < n
            invariant
                n == self.cameras@.len(),
                i <= n,
                forall|j: int| 0 <= j < i ==> self.cameras@[j].id@ != camera_id@,
            decreases n - i,
        {
            if self.cameras[i].id == *camera_id {
                return Some(i);
            }
            i = i + 1;
        }
        None
    }

    /// The registry entry for `camera_id`, if that device is registered.
    pub fn find_camera(&self, camera_id: &String) -> (r: Option<&CameraInfo>)
        requires
            self.wf(),
        ensures
            match r {
                Some(c) => contains_id(self.cameras@, camera_id@) && *c == self.cameras@[id_index(
                    self.cameras@,
                    camera_id@,
                )],
                None => !contains_id(self.cameras@, camera_id@),
            },
    {
        match self.find_camera_index(camera_id) {
            None => None,
            Some(i) => {
                proof {
                    let k = id_index(self.cameras@, camera_id@);
                    assert(0 <= k < self.cameras@.len() && self.cameras@[k].id@ == camera_id@);
                    assert(k == i as int);
                }
                Some(&self.cameras[i])
            },
        }
    }

    /// Registers the device at `ip:port`, given the outcome of the status
    /// probe that registration performs. A failed probe registers nothing; a
    /// successful one stores a fully formed entry — replacing any entry with
    /// the same identifier, since the identifier is derived from the address —
    /// and returns the identifier.
    pub fn add_camera_manual(
        &mut self,
        ip: String,
        port: u16,
        token: String,
        probe: Result<StatusResponse, FleetError>,
    ) -> (r: Result<String, FleetError>)
        requires
            old(self).wf(),
        ensures
            final(self).wf(),
            final(self).persisted_settings@ == old(self).persisted_settings@,
            final(self).profiles@ == old(self).profiles@,
            final(self).app_settings == old(self).app_settings,
            probe matches Err(e) ==> r == Result::<String, FleetError>::Err(e) && *final(self)
                == *old(self),
            probe matches Ok(status) ==> (r matches Ok(id) && id@ == device_id_seq(ip@, port)
                && admit_effect(old(self).cameras@, final(self).cameras@, ip, port, token, status)),
    {
        match probe {
            Err(e) => Err(e),
            Ok(status) => {
                let id = device_id(&ip, port);
                let alias = status.alias.clone();
                let entry = CameraInfo {
                    id: id.clone(),
                    alias,
                    ip,
                    port,
                    token,
                    status: Some(status),
                    connection_state: ConnectionState::Connected,
                };
                match self.find_camera_index(&id) {
                    Some(i) => {
                        proof {
                            let k = id_index(self.cameras@, entry.id@);
                            assert(0 <= k < self.cameras@.len() && self.cameras@[k].id@
                                == entry.id@);
                            assert(k == i as int);
                        }
                        self.cameras.set(i, entry);
                    },
                    None => {
                        self.cameras.push(entry);
                    },
                }
                Ok(id)
            },
        }
    }

    /// Removes the device registered under `camera_id`. An unknown identifier
    /// fails with `NotFound` and changes nothing.
    pub fn remove_camera(&mut self, camera_id: &String) -> (r: Result<(), FleetError>)
        requires
            old(self).wf(),
        ensures
            final(self).wf(),
            final(self).persisted_settings@ == old(self).persisted_settings@,
            final(self).profiles@ == old(self).profiles@,
            final(self).app_settings == old(self).app_settings,
            !contains_id(old(self).cameras@, camera_id@) ==> *final(self) == *old(self) && (
            r matches Err(e) && e matches FleetError::NotFound { what } && what == *camera_id),
            contains_id(old(self).cameras@, camera_id@) ==> r is Ok && final(self).cameras@ == old(self).cameras@.remove(id_index(old(self).cameras@, camera_id@)),
    {
        match self.find_camera_index(camera_id) {
            None => Err(FleetError::NotFound { what: camera_id.clone() }),
            Some(i) => {
                proof {
                    let k = id_index(self.cameras@, camera_id@);
                    assert(0 <= k < self.cameras@.len() && self.cameras@[k].id@ == camera_id@);
                    assert(k == i as int);
                }
                self.cameras.remove(i);
                Ok(())
            },
        }
    }

    /// Renames the device registered under `camera_id`, leaving every other
    /// field and entry alone. An unknown identifier fails with `NotFound` and
    /// changes nothing.
    pub fn update_camera_alias(&mut self, camera_id: &String, alias: String) -> (r: Result<
        (),
        FleetError,
    >)
        requires
            old(self).wf(),
        ensures
            final(self).wf(),
            final(self).persisted_settings@ == old(self).persisted_settings@,
            final(self).profiles@ == old(self).profiles@,
            final(self).app_settings == old(self).app_settings,
            !contains_id(old(self).cameras@, camera_id@) ==> *final(self) == *old(self) && (
            r matches Err(e) && e matches FleetError::NotFound { what } && what == *camera_id),
            contains_id(old(self).cameras@, camera_id@) ==> r is Ok && final(self).cameras@ == old(self).cameras@.update(
                id_index(old(self).cameras@, camera_id@),
                CameraInfo {
                    alias,
                    ..old(self).cameras@[id_index(old(self).cameras@, camera_id@)]
                },
            ),
    {
        match self.find_camera_index(camera_id) {
            None => Err(FleetError::NotFound { what: camera_id.clone() }),
            Some(i) => {
                proof {
                    let k = id_index(self.cameras@, camera_id@);
                    assert(0 <= k < self.cameras@.len() && self.cameras@[k].id@ == camera_id@);
                    assert(k == i as int);
                }
                let ghost before = self.cameras@;
                let mut entry = self.cameras.remove(i);
                entry.alias = alias;
                self.cameras.insert(i, entry);
                proof {
                    assert(self.cameras@ =~= before.update(i as int, self.cameras@[i as int]));
                }
                Ok(())
            },
        }
    }

    /// Index of the persisted-settings entry for `camera_id`, if one exists.
    pub(crate) fn find_ps_index(&self, camera_id: &String) -> (r: Option<usize>)
        ensures
            match r {
                Some(i) => i < self.persisted_settings@.len() && self.persisted_settings@[
                    i as int
                ].camera_id@ == camera_id@,
                None => !contains_ps(self.persisted_settings@, camera_id@),
            },
    {
        let n = self.persisted_settings.len();
        let mut i: usize = 0;
        while i < n
            invariant
                n == self.persisted_settings@.len(),
                i <= n,
                forall|j: int| 0 <= j < i ==> self.persisted_settings@[j].camera_id@ != camera_id@,
            decreases n - i,
        {
            if self.persisted_settings[i].camera_id == *camera_id {
                return Some(i);
            }
            i = i + 1;
        }
        None
    }

    /// Remembers `request` as the stream settings last applied to
    /// `camera_id`, whether or not that identifier is registered.
    fn record_stream_settings(&mut self, camera_id: &String, request: StreamStartRequest)
        requires
            old(self).wf(),
        ensures
            final(self).wf(),
            final(self).cameras@ == old(self).cameras@,
            final(self).profiles@ == old(self).profiles@,
            final(self).app_settings == old(self).app_settings,
            final(self).persisted_settings@ == ps_set_stream(
                old(self).persisted_settings@,
                *camera_id,
                request,
            ),
    {
        match self.find_ps_index(camera_id) {
            Some(i) => {
                proof {
                    let k = ps_index(self.persisted_settings@, camera_id@);
                    assert(0 <= k < self.persisted_settings@.len() && self.persisted_settings@[
                        k
                    ].camera_id@ == camera_id@);
                    assert(k == i as int);
                }
                let ghost before = self.persisted_settings@;
                let mut entry = self.persisted_settings.remove(i);
                entry.stream = Some(request);
                self.persisted_settings.insert(i, entry);
                proof {
                    assert(self.persisted_settings@ =~= ps_set_stream(
                        before,
                        *camera_id,
                        request,
                    ));
                }
            },
            None => {
                self.persisted_settings.push(
                    PersistedSettings {
                        camera_id: camera_id.clone(),
                        stream: Some(request),
                        camera: None,
                    },
                );
            },
        }
    }

    /// Remembers `settings` as the camera settings last applied to
    /// `camera_id`, whether or not that identifier is registered.
    fn record_camera_settings(&mut self, camera_id: &String, settings: CameraSettingsRequest)
        requires
            old(self).wf(),
        ensures
            final(self).wf(),
            final(self).cameras@ == old(self).cameras@,
            final(self).profiles@ == old(self).profiles@,
            final(self).app_settings == old(self).app_settings,
            final(self).persisted_settings@ == ps_set_camera(
                old(self).persisted_settings@,
                *camera_id,
                settings,
            ),
    {
        match self.find_ps_index(camera_id) {
            Some(i) => {
                proof {
                    let k = ps_index(self.persisted_settings@, camera_id@);
                    assert(0 <= k < self.persisted_settings@.len() && self.persisted_settings@[
                        k
                    ].camera_id@ == camera_id@);
                    assert(k == i as int);
                }
                let ghost before = self.persisted_settings@;
                let mut entry = self.persisted_settings.remove(i);
                entry.camera = Some(settings);
                self.persisted_settings.insert(i, entry);
                proof {
                    assert(self.persisted_settings@ =~= ps_set_camera(
                        before,
                        *camera_id,
                        settings,
                    ));
                }
            },
            None => {
                self.persisted_settings.push(
                    PersistedSettings {
                        camera_id: camera_id.clone(),
                        stream: None,
                        camera: Some(settings),
                    },
                );
            },
        }
    }

    /// Starts one device's stream: an unknown identifier fails with
    /// `NotFound` and changes nothing; otherwise the request is remembered as
    /// that device's last-applied stream settings and the caller sends it.
    pub fn start_stream(&mut self, camera_id: &String, request: StreamStartRequest) -> (r: Result<
        (),
        FleetError,
    >)
        requires
            old(self).wf(),
        ensures
            final(self).wf(),
            final(self).cameras@ == old(self).cameras@,
            final(self).profiles@ == old(self).profiles@,
            final(self).app_settings == old(self).app_settings,
            !contains_id(old(self).cameras@, camera_id@) ==> *final(self) == *old(self) && (
            r matches Err(e) && e matches FleetError::NotFound { what } && what == *camera_id),
            contains_id(old(self).cameras@, camera_id@) ==> r is Ok && final(self).persisted_settings@ == ps_set_stream(
                old(self).persisted_settings@,
                *camera_id,
                request,
            ),
    {
        match self.find_camera_index(camera_id) {
            None => Err(FleetError::NotFound { what: camera_id.clone() }),
            Some(_) => {
                self.record_stream_settings(camera_id, request);
                Ok(())
            },
        }
    }

    /// Remembers new stream settings for a registered device without sending
    /// anything; an unknown identifier fails with `NotFound`.
    pub fn update_stream_settings(
        &mut self,
        camera_id: &String,
        settings: StreamStartRequest,
    ) -> (r: Result<(), FleetError>)
        requires
            old(self).wf(),
        ensures
            final(self).wf(),
            final(self).cameras@ == old(self).cameras@,
            final(self).profiles@ == old(self).profiles@,
            final(self).app_settings == old(self).app_settings,
            !contains_id(old(self).cameras@, camera_id@) ==> *final(self) == *old(self) && (
            r matches Err(e) && e matches FleetError::NotFound { what } && what == *camera_id),
            contains_id(old(self).cameras@, camera_id@) ==> r is Ok && final(self).persisted_settings@ == ps_set_stream(
                old(self).persisted_settings@,
                *camera_id,
                settings,
            ),
    {
        match self.find_camera_index(camera_id) {
            None => Err(FleetError::NotFound { what: camera_id.clone() }),
            Some(_) => {
                self.record_stream_settings(camera_id, settings);
                Ok(())
            },
        }
    }

    /// Updates one device's camera settings: an unknown identifier fails with
    /// `NotFound` and changes nothing; otherwise the settings are remembered
    /// as that device's last-applied camera settings and the caller sends
    /// them.
    pub fn update_camera_settings(
        &mut self,
        camera_id: &String,
        settings: CameraSettingsRequest,
    ) -> (r: Result<(), FleetError>)
        requires
            old(self).wf(),
        ensures
            final(self).wf(),
            final(self).cameras@ == old(self).cameras@,
            final(self).profiles@ == old(self).profiles@,
            final(self).app_settings == old(self).app_settings,
            !contains_id(old(self).cameras@, camera_id@) ==> *final(self) == *old(self) && (
            r matches Err(e) && e matches FleetError::NotFound { what } && what == *camera_id),
            contains_id(old(self).cameras@, camera_id@) ==> r is Ok && final(self).persisted_settings@ == ps_set_camera(
                old(self).persisted_settings@,
                *camera_id,
                settings,
            ),
    {
        match self.find_camera_index(camera_id) {
            None => Err(FleetError::NotFound { what: camera_id.clone() }),
            Some(_) => {
                self.record_camera_settings(camera_id, settings);
                Ok(())
            },
        }
    }

    /// The settings last applied to `camera_id`, if any were recorded.
    pub fn get_persisted_settings(&self, camera_id: &String) -> (r: Option<
        (Option<StreamStartRequest>, Option<CameraSettingsRequest>),
    >)
        requires
            self.wf(),
        ensures
            !contains_ps(self.persisted_settings@, camera_id@) ==> r is None,
            contains_ps(self.persisted_settings@, camera_id@) ==> r == Some(
                (
                    self.persisted_settings@[ps_index(
                        self.persisted_settings@,
                        camera_id@,
                    )].stream,
                    self.persisted_settings@[ps_index(
                        self.persisted_settings@,
                        camera_id@,
                    )].camera,
                ),
            ),
    {
        match self.find_ps_index(camera_id) {
            None => None,
            Some(i) => {
                proof {
                    let k = ps_index(self.persisted_settings@, camera_id@);
                    assert(0 <= k < self.persisted_settings@.len() && self.persisted_settings@[
                        k
                    ].camera_id@ == camera_id@);
                    assert(k == i as int);
                }
                let stream = clone_stream_opt(&self.persisted_settings[i].stream);
                let camera = clone_camera_opt(&self.persisted_settings[i].camera);
                Some((stream, camera))
            },
        }
    }

    /// Builds the per-device results of a group dispatch from each
    /// operation's outcome. `outcomes` is aligned with `camera_ids`; the
    /// outcome at an unregistered identifier's position is ignored, since no
    /// operation ran there.
    pub fn group_outcome_results(
        &self,
        camera_ids: &Vec<String>,
        outcomes: &Vec<Result<(), FleetError>>,
    ) -> (res: Vec<GroupCommandResult>)
        requires
            outcomes.len() == camera_ids.len(),
        ensures
            group_results_ok(self.cameras@, camera_ids@, outcomes@, res@),
    {
        let n = camera_ids.len();
        let mut res: Vec<GroupCommandResult> = Vec::new();
        let mut i: usize = 0;
        while i < n
            invariant
                n == camera_ids@.len(),
                outcomes@.len() == n,
                i <= n,
                res@.len() == i,
                forall|j: int| 0 <= j < i ==> (#[trigger] res@[j]).camera_id == camera_ids@[j],
                forall|j: int|
                    0 <= j < i && !contains_id(self.cameras@, camera_ids@[j]@) ==> !(
                    #[trigger] res@[j]).success && (res@[j].error matches Some(m) && m@
                        == camera_not_found_seq(camera_ids@[j]@)),
                forall|j: int|
                    0 <= j < i && contains_id(self.cameras@, camera_ids@[j]@) ==> ((
                    #[trigger] res@[j]).success <==> outcomes@[j] is Ok) && (outcomes@[j] is Ok
                        ==> res@[j].error is None) && (outcomes@[j] matches Err(e) ==> res@[
                        j
                    ].error matches Some(m) && m@ == e.spec_message()),
            decreases n - i,
        {
            let cid = camera_ids[i].clone();
            let one = match self.find_camera_index(&cid) {
                None => {
                    let msg = String::from_str("Camera not found: ").concat(cid.as_str());
                    proof {
                        assert(msg@ =~= camera_not_found_seq(camera_ids@[i as int]@));
                    }
                    GroupCommandResult { camera_id: cid, success: false, error: Some(msg) }
                },
                Some(_) => match &outcomes[i] {
                    Ok(_) => GroupCommandResult { camera_id: cid, success: true, error: None },
                    Err(e) => GroupCommandResult {
                        camera_id: cid,
                        success: false,
                        error: Some(e.message()),
                    },
                },
            };
            res.push(one);
            i = i + 1;
        }
        res
    }

    /// Starts streams on a set of devices: the request is remembered as the
    /// last-applied stream settings of every requested identifier — including
    /// unregistered ones, so the configuration survives a later registration
    /// — and the per-device results are built as `group_results_ok` states.
    pub fn group_start_stream(
        &mut self,
        camera_ids: &Vec<String>,
        request: StreamStartRequest,
        outcomes: &Vec<Result<(), FleetError>>,
    ) -> (res: Vec<GroupCommandResult>)
        requires
            old(self).wf(),
            outcomes.len() == camera_ids.len(),
        ensures
            final(self).wf(),
            final(self).cameras@ == old(self).cameras@,
            final(self).profiles@ == old(self).profiles@,
            final(self).app_settings == old(self).app_settings,
            final(self).persisted_settings@ == ps_set_stream_all(
                old(self).persisted_settings@,
                camera_ids@,
                request,
            ),
            group_results_ok(old(self).cameras@, camera_ids@, outcomes@, res@),
    {
        let n = camera_ids.len();
        let mut i: usize = 0;
        while i < n
            invariant
                n == camera_ids@.len(),
                outcomes@.len() == n,
                i <= n,
                self.wf(),
                self.cameras@ == old(self).cameras@,
                self.profiles@ == old(self).profiles@,
                self.app_settings == old(self).app_settings,
                self.persisted_settings@ == ps_set_stream_all(
                    old(self).persisted_settings@,
                    camera_ids@.subrange(0, i as int),
                    request,
                ),
            decreases n - i,
        {
            let ghost prefix = camera_ids@.subrange(0, i as int);
            self.record_stream_settings(&camera_ids[i], request.clone());
            proof {
                lemma_ps_set_stream_all_push(
                    old(self).persisted_settings@,
                    prefix,
                    camera_ids@[i as int],
                    request,
                );
                assert(camera_ids@.subrange(0, i + 1 as int) =~= prefix.push(
                    camera_ids@[i as int],
                ));
            }
            i = i + 1;
        }
        proof {
            assert(camera_ids@.subrange(0, n as int) =~= camera_ids@);
        }
        self.group_outcome_results(camera_ids, outcomes)
    }

    /// Stops streams on a set of devices; the per-device results are built as
    /// `group_results_ok` states, and nothing else changes.
    pub fn group_stop_stream(
        &self,
        camera_ids: &Vec<String>,
        outcomes: &Vec<Result<(), FleetError>>,
    ) -> (res: Vec<GroupCommandResult>)
        requires
            outcomes.len() == camera_ids.len(),
        ensures
            group_results_ok(self.cameras@, camera_ids@, outcomes@, res@),
    {
        self.group_outcome_results(camera_ids, outcomes)
    }

    /// Applies camera settings to a set of devices: the settings are
    /// remembered for every requested identifier, and the per-device results
    /// are built as `group_results_ok` states.
    pub fn group_update_settings(
        &mut self,
        camera_ids: &Vec<String>,
        settings: CameraSettingsRequest,
        outcomes: &Vec<Result<(), FleetError>>,
    ) -> (res: Vec<GroupCommandResult>)
        requires
            old(self).wf(),
            outcomes.len() == camera_ids.len(),
        ensures
            final(self).wf(),
            final(self).cameras@ == old(self).cameras@,
            final(self).profiles@ == old(self).profiles@,
            final(self).app_settings == old(self).app_settings,
            final(self).persisted_settings@ == ps_set_camera_all(
                old(self).persisted_settings@,
                camera_ids@,
                settings,
            ),
            group_results_ok(old(self).cameras@, camera_ids@, outcomes@, res@),
    {
        let n = camera_ids.len();
        let mut i: usize = 0;
        while i < n
            invariant
                n == camera_ids@.len(),
                outcomes@.len() == n,
                i <= n,
                self.wf(),
                self.cameras@ == old(self).cameras@,
                self.profiles@ == old(self).profiles@,
                self.app_settings == old(self).app_settings,
                self.persisted_settings@ == ps_set_camera_all(
                    old(self).persisted_settings@,
                    camera_ids@.subrange(0, i as int),
                    settings,
                ),
            decreases n - i,
        {
            let ghost prefix = camera_ids@.subrange(0, i as int);
            self.record_camera_settings(&camera_ids[i], settings.clone());
            proof {
                lemma_ps_set_camera_all_push(
                    old(self).persisted_settings@,
                    prefix,
                    camera_ids@[i as int],
                    settings,
                );
                assert(camera_ids@.subrange(0, i + 1 as int) =~= prefix.push(
                    camera_ids@[i as int],
                ));
            }
            i = i + 1;
        }
        proof {
            assert(camera_ids@.subrange(0, n as int) =~= camera_ids@);
        }
        self.group_outcome_results(camera_ids, outcomes)
    }
    /// Index of the profile named `name`, if one exists.
    fn find_profile_index(&self, name: &String) -> (r: Option<usize>)
        ensures
            match r {
                Some(i) => i < self.profiles@.len() && self.profiles@[i as int].name@ == name@,
                None => !has_profile(self.profiles@, name@),
            },
    {
        let n = self.profiles.len();
        let mut i: usize = 0;
        while i < n
            invariant
                n == self.profiles@.len(),
                i <= n,
                forall|j: int| 0 <= j < i ==> self.profiles@[j].name@ != name@,
            decreases n - i,
        {
            if self.profiles[i].name == *name {
                return Some(i);
            }
            i = i + 1;
        }
        None
    }

    /// Saves a settings profile under `name`, updating in place when a
    /// profile with that name already exists and appending otherwise.
    pub fn save_profile(&mut self, name: String, settings: CameraSettingsRequest)
        requires
            old(self).wf(),
        ensures
            final(self).wf(),
            final(self).cameras@ == old(self).cameras@,
            final(self).persisted_settings@ == old(self).persisted_settings@,
            final(self).app_settings == old(self).app_settings,
            final(self).profiles@ == profile_upsert(old(self).profiles@, name, settings),
    {
        match self.find_profile_index(&name) {
            Some(i) => {
                proof {
                    let k = profile_index(self.profiles@, name@);
                    assert(0 <= k < self.profiles@.len() && self.profiles@[k].name@ == name@);
                    assert(k == i as int);
                }
                let ghost before = self.profiles@;
                let mut entry = self.profiles.remove(i);
                entry.settings = settings;
                self.profiles.insert(i, entry);
                proof {
                    assert(self.profiles@ =~= profile_upsert(before, name, settings));
                }
            },
            None => {
                self.profiles.push(CameraProfile { name, settings });
            },
        }
    }

    /// A copy of every saved profile, in storage order.
    pub fn get_profiles(&self) -> (res: Vec<CameraProfile>)
        ensures
            res@ == self.profiles@,
    {
        let res = self.profiles.clone();
        proof {
            assert forall|i: int| 0 <= i < self.profiles@.len() implies res@[i]
                == self.profiles@[i] by {
                assert(vstd::pervasive::cloned::<CameraProfile>(self.profiles[i], res[i]));
            }
            assert(res@ =~= self.profiles@);
        }
        res
    }

    /// Deletes the profile named `name`. An unknown name fails with
    /// `NotFound` and changes nothing.
    pub fn delete_profile(&mut self, name: &String) -> (r: Result<(), FleetError>)
        requires
            old(self).wf(),
        ensures
            final(self).wf(),
            final(self).cameras@ == old(self).cameras@,
            final(self).persisted_settings@ == old(self).persisted_settings@,
            final(self).app_settings == old(self).app_settings,
            !has_profile(old(self).profiles@, name@) ==> *final(self) == *old(self) && (
            r matches Err(e) && e matches FleetError::NotFound { what } && what == *name),
            has_profile(old(self).profiles@, name@) ==> r is Ok && final(self).profiles@ == old(self).profiles@.remove(profile_index(old(self).profiles@, name@)),
    {
        match self.find_profile_index(name) {
            None => Err(FleetError::NotFound { what: name.clone() }),
            Some(i) => {
                proof {
                    let k = profile_index(self.profiles@, name@);
                    assert(0 <= k < self.profiles@.len() && self.profiles@[k].name@ == name@);
                    assert(k == i as int);
                }
                self.profiles.remove(i);
                Ok(())
            },
        }
    }

    /// The settings template saved under `name`, if that profile exists.
    pub fn profile_settings(&self, name: &String) -> (r: Option<CameraSettingsRequest>)
        requires
            self.wf(),
        ensures
            !has_profile(self.profiles@, name@) ==> r is None,
            has_profile(self.profiles@, name@) ==> r == Some(
                self.profiles@[profile_index(self.profiles@, name@)].settings,
            ),
    {
        match self.find_profile_index(name) {
            None => None,
            Some(i) => {
                proof {
                    let k = profile_index(self.profiles@, name@);
                    assert(0 <= k < self.profiles@.len() && self.profiles@[k].name@ == name@);
                    assert(k == i as int);
                }
                Some(self.profiles[i].settings.clone())
            },
        }
    }

    /// Applies the profile named `profile_name` to a set of devices: with an
    /// unknown name nothing changes and the call fails with `NotFound`;
    /// otherwise the profile's settings are remembered for every requested
    /// identifier and the per-device results are built as `group_results_ok`
    /// states.
    pub fn apply_profile(
        &mut self,
        profile_name: &String,
        camera_ids: &Vec<String>,
        outcomes: &Vec<Result<(), FleetError>>,
    ) -> (r: Result<Vec<GroupCommandResult>, FleetError>)
        requires
            old(self).wf(),
            outcomes.len() == camera_ids.len(),
        ensures
            final(self).wf(),
            final(self).cameras@ == old(self).cameras@,
            final(self).profiles@ == old(self).profiles@,
            final(self).app_settings == old(self).app_settings,
            !has_profile(old(self).profiles@, profile_name@) ==> *final(self) == *old(self) && (
            r matches Err(e) && e matches FleetError::NotFound { what } && what == *profile_name),
            has_profile(old(self).profiles@, profile_name@) ==> (r matches Ok(res)
                && group_results_ok(old(self).cameras@, camera_ids@, outcomes@, res@) && final(self).persisted_settings@ == ps_set_camera_all(
                old(self).persisted_settings@,
                camera_ids@,
                old(self).profiles@[profile_index(old(self).profiles@, profile_name@)].settings,
            )),
    {
        match self.find_profile_index(profile_name) {
            None => Err(FleetError::NotFound { what: profile_name.clone() }),
            Some(i) => {
                proof {
                    let k = profile_index(self.profiles@, profile_name@);
                    assert(0 <= k < self.profiles@.len() && self.profiles@[k].name@
                        == profile_name@);
                    assert(k == i as int);
                }
                let settings = self.profiles[i].settings.clone();
                Ok(self.group_update_settings(camera_ids, settings, outcomes))
            },
        }
    }

    /// The current application settings.
    pub fn get_app_settings(&self) -> (r: AppSettings)
        ensures
            r == self.app_settings,
    {
        self.app_settings.clone()
    }

    /// Replaces the application settings.
    pub fn save_app_settings(&mut self, settings: AppSettings)
        requires
            old(self).wf(),
        ensures
            final(self).wf(),
            final(self).cameras@ == old(self).cameras@,
            final(self).persisted_settings@ == old(self).persisted_settings@,
            final(self).profiles@ == old(self).profiles@,
            final(self).app_settings == settings,
    {
        self.app_settings = settings;
    }

    /// Forgets every registered device, as when the on-disk registry is
    /// reset. Profiles, persisted settings and application settings stay.
    pub fn delete_cameras_data(&mut self)
        requires
            old(self).wf(),
        ensures
            final(self).wf(),
            final(self).cameras@ == Seq::<CameraInfo>::empty(),
            final(self).persisted_settings@ == old(self).persisted_settings@,
            final(self).profiles@ == old(self).profiles@,
            final(self).app_settings == old(self).app_settings,
    {
        self.cameras = Vec::new();
        proof {
            assert(self.cameras@ =~= Seq::<CameraInfo>::empty());
        }
    }
    /// A snapshot of every registered device, with status and connection
    /// state refreshed from this listing's probes (aligned with the
    /// registry's order). A failed probe marks the entry `Error` but never
    /// discards the previously known status snapshot. The stored registry is
    /// not modified.
    pub fn get_all_cameras(&self, probes: &Vec<Result<StatusResponse, FleetError>>) -> (res: Vec<
        CameraInfo,
    >)
        requires
            probes.len() == self.cameras.len(),
        ensures
            res@.len() == self.cameras@.len(),
            forall|i: int|
                0 <= i < self.cameras@.len() ==> listed_entry_ok(
                    #[trigger] res@[i],
                    self.cameras@[i],
                    probes@[i],
                ),
    {
        let n = self.cameras.len();
        let mut res: Vec<CameraInfo> = Vec::new();
        let mut i: usize = 0;
        while i < n
            invariant
                n == self.cameras@.len(),
                probes@.len() == n,
                i <= n,
                res@.len() == i,
                forall|j: int|
                    0 <= j < i ==> listed_entry_ok(
                        #[trigger] res@[j],
                        self.cameras@[j],
                        probes@[j],
                    ),
            decreases n - i,
        {
            let mut snap = self.cameras[i].clone();
            match &probes[i] {
                Ok(st) => {
                    snap.status = Some(st.clone());
                    snap.connection_state = ConnectionState::Connected;
                },
                Err(_) => {
                    snap.connection_state = ConnectionState::Error;
                },
            }
            proof {
                assert(listed_entry_ok(snap, self.cameras@[i as int], probes@[i as int]));
            }
            res.push(snap);
            i = i + 1;
        }
        res
    }

    /// The identifiers of every registered device, in the registry's order.
    pub fn all_camera_ids(&self) -> (ids: Vec<String>)
        ensures
            ids@.len() == self.cameras@.len(),
            forall|i: int| 0 <= i < self.cameras@.len() ==> ids@[i] == self.cameras@[i].id,
    {
        let n = self.cameras.len();
        let mut ids: Vec<String> = Vec::new();
        let mut i: usize = 0;
        while i < n
            invariant
                n == self.cameras@.len(),
                i <= n,
                ids@.len() == i,
                forall|j: int| 0 <= j < i ==> ids@[j] == self.cameras@[j].id,
            decreases n - i,
        {
            ids.push(self.cameras[i].id.clone());
            i = i + 1;
        }
        ids
    }

    /// The "start all" plan: one target per registered device, carrying its
    /// persisted stream settings when some were recorded and the fixed
    /// default otherwise.
    pub fn start_all_plan(&self) -> (plan: Vec<StartTarget>)
        requires
            self.wf(),
        ensures
            plan@.len() == self.cameras@.len(),
            forall|i: int|
                0 <= i < self.cameras@.len() ==> (#[trigger] plan@[i]).camera_id
                    == self.cameras@[i].id && planned_request_ok(
                    plan@[i].request,
                    self.cameras@[i],
                    self.persisted_settings@,
                ),
    {
        let n = self.cameras.len();
        let mut plan: Vec<StartTarget> = Vec::new();
        let mut i: usize = 0;
        while i < n
            invariant
                self.wf(),
                n == self.cameras@.len(),
                i <= n,
                plan@.len() == i,
                forall|j: int|
                    0 <= j < i ==> (#[trigger] plan@[j]).camera_id == self.cameras@[j].id
                        && planned_request_ok(
                        plan@[j].request,
                        self.cameras@[j],
                        self.persisted_settings@,
                    ),
            decreases n - i,
        {
            let request = match self.find_ps_index(&self.cameras[i].id) {
                Some(j) => {
                    proof {
                        let k = ps_index(self.persisted_settings@, self.cameras@[i as int].id@);
                        assert(0 <= k < self.persisted_settings@.len()
                            && self.persisted_settings@[k].camera_id@ == self.cameras@[
                            i as int
                        ].id@);
                        assert(k == j as int);
                    }
                    match &self.persisted_settings[j].stream {
                        Some(req) => req.clone(),
                        None => default_stream_request(),
                    }
                },
                None => default_stream_request(),
            };
            plan.push(StartTarget { camera_id: self.cameras[i].id.clone(), request });
            i = i + 1;
        }
        plan
    }

    /// Per-device results of starting every registered device, from the
    /// outcomes of the planned requests (aligned with the registry's order).
    pub fn start_all_cameras(&self, outcomes: &Vec<Result<(), FleetError>>) -> (res: Vec<
        GroupCommandResult,
    >)
        requires
            self.wf(),
            outcomes.len() == self.cameras.len(),
        ensures
            res@.len() == self.cameras@.len(),
            forall|i: int|
                0 <= i < self.cameras@.len() ==> (#[trigger] res@[i]).camera_id == self.cameras@[
                    i
                ].id && (res@[i].success <==> outcomes@[i] is Ok) && (outcomes@[i] is Ok ==> res@[
                    i
                ].error is None) && (outcomes@[i] matches Err(e) ==> res@[i].error matches Some(m)
                    && m@ == e.spec_message()),
    {
        let ids = self.all_camera_ids();
        proof {
            assert forall|i: int| 0 <= i < ids@.len() implies contains_id(
                self.cameras@,
                ids@[i]@,
            ) by {
                assert(self.cameras@[i].id@ == ids@[i]@);
            }
        }
        self.group_outcome_results(&ids, outcomes)
    }

    /// Per-device results of stopping every registered device, from the
    /// outcomes of the stop requests (aligned with the registry's order).
    pub fn stop_all_cameras(&self, outcomes: &Vec<Result<(), FleetError>>) -> (res: Vec<
        GroupCommandResult,
    >)
        requires
            self.wf(),
            outcomes.len() == self.cameras.len(),
        ensures
            res@.len() == self.cameras@.len(),
            forall|i: int|
                0 <= i < self.cameras@.len() ==> (#[trigger] res@[i]).camera_id == self.cameras@[
                    i
                ].id && (res@[i].success <==> outcomes@[i] is Ok) && (outcomes@[i] is Ok ==> res@[
                    i
                ].error is None) && (outcomes@[i] matches Err(e) ==> res@[i].error matches Some(m)
                    && m@ == e.spec_message()),
    {
        let ids = self.all_camera_ids();
        proof {
            assert forall|i: int| 0 <= i < ids@.len() implies contains_id(
                self.cameras@,
                ids@[i]@,
            ) by {
                assert(self.cameras@[i].id@ == ids@[i]@);
            }
        }
        self.group_outcome_results(&ids, outcomes)
    }
}

/// With unique names, the entry at `i` is the one a lookup of its name finds.
pub proof fn lemma_profile_at(profiles: Seq<CameraProfile>, name: Seq<char>, i: int)
    requires
        unique_profiles(profiles),
        0 <= i < profiles.len(),
        profiles[i].name@ == name,
    ensures
        has_profile(profiles, name),
        profile_index(profiles, name) == i,
{
    assert(has_profile(profiles, name));
    let k = profile_index(profiles, name);
    assert(0 <= k < profiles.len() && profiles[k].name@ == name);
    if k < i {
        assert(profiles[k].name@ != profiles[i].name@);
    } else if i < k {
        assert(profiles[i].name@ != profiles[k].name@);
    }
}

/// An upsert keeps profile names unique, and afterwards the saved name maps
/// to exactly the settings just saved.
pub proof fn lemma_profile_upsert_wf(
    profiles: Seq<CameraProfile>,
    name: String,
    settings: CameraSettingsRequest,
)
    requires
        unique_profiles(profiles),
    ensures
        unique_profiles(profile_upsert(profiles, name, settings)),
        has_profile(profile_upsert(profiles, name, settings), name@),
        profile_upsert(profiles, name, settings)[profile_index(
            profile_upsert(profiles, name, settings),
            name@,
        )].settings == settings,
        profile_index(profile_upsert(profiles, name, settings), name@) == (
        if has_profile(profiles, name@) {
            profile_index(profiles, name@)
        } else {
            profiles.len() as int
        }),
        profile_upsert(profiles, name, settings).len() == (
        if has_profile(profiles, name@) {
            profiles.len() as int
        } else {
            profiles.len() as int + 1
        }),
{
    let after = profile_upsert(profiles, name, settings);
    if has_profile(profiles, name@) {
        let k = profile_index(profiles, name@);
        assert(0 <= k < profiles.len() && profiles[k].name@ == name@);
        assert(forall|j: int| 0 <= j < after.len() && j != k ==> after[j] == profiles[j]);
        assert(after[k].name@ == name@);
        assert(unique_profiles(after));
        lemma_profile_at(after, name@, k);
    } else {
        let n = profiles.len() as int;
        assert(forall|j: int| 0 <= j < n ==> after[j] == profiles[j]);
        assert(after[n].name@ == name@);
        assert forall|i: int, j: int| 0 <= i < j < after.len() implies after[i].name@ != after[
            j
        ].name@ by {
            if j < n {
            } else {
                assert(after[j].name@ == name@);
                assert(!has_profile(profiles, name@));
                assert(after[i] == profiles[i]);
            }
        }
        lemma_profile_at(after, name@, n);
    }
}

/// Saving a profile is idempotent on its name: saving under one name twice,
/// with any two settings, leaves the store exactly as saving the second
/// settings once would — in particular, exactly one profile carries that
/// name, and it holds the settings saved last.
pub proof fn lemma_profile_upsert_idempotent(
    profiles: Seq<CameraProfile>,
    name: String,
    first: CameraSettingsRequest,
    second: CameraSettingsRequest,
)
    requires
        unique_profiles(profiles),
    ensures
        profile_upsert(profile_upsert(profiles, name, first), name, second) == profile_upsert(
            profiles,
            name,
            second,
        ),
        has_profile(profile_upsert(profile_upsert(profiles, name, first), name, second), name@),
        profile_upsert(profile_upsert(profiles, name, first), name, second)[profile_index(
            profile_upsert(profile_upsert(profiles, name, first), name, second),
            name@,
        )].settings == second,
        forall|j: int|
            0 <= j < profile_upsert(profile_upsert(profiles, name, first), name, second).len() && j
                != profile_index(
                profile_upsert(profile_upsert(profiles, name, first), name, second),
                name@,
            ) ==> profile_upsert(profile_upsert(profiles, name, first), name, second)[j].name@
                != name@,
{
    let mid = profile_upsert(profiles, name, first);
    lemma_profile_upsert_wf(profiles, name, first);
    let after = profile_upsert(mid, name, second);
    lemma_profile_upsert_wf(mid, name, second);
    if has_profile(profiles, name@) {
        let k = profile_index(profiles, name@);
        assert(0 <= k < profiles.len() && profiles[k].name@ == name@);
        assert(profile_index(mid, name@) == k);
        assert(mid[k].name == profiles[k].name);
        assert(after =~= profile_upsert(profiles, name, second));
    } else {
        let n = profiles.len() as int;
        assert(profile_index(mid, name@) == n);
        assert(mid[n].name == name);
        assert(after =~= profile_upsert(profiles, name, second));
    }
    let idx = profile_index(after, name@);
    assert forall|j: int| 0 <= j < after.len() && j != idx implies after[j].name@ != name@ by {
        if after[j].name@ == name@ {
            lemma_profile_at(after, name@, j);
        }
    }
}

fn clone_stream_opt(o: &Option<StreamStartRequest>) -> (r: Option<StreamStartRequest>)
    ensures
        r == *o,
{
    match o {
        None => None,
        Some(x) => Some(x.clone()),
    }
}

fn clone_camera_opt(o: &Option<CameraSettingsRequest>) -> (r: Option<CameraSettingsRequest>)
    ensures
        r == *o,
{
    match o {
        None => None,
        Some(x) => Some(x.clone()),
    }
}

} // verus!
