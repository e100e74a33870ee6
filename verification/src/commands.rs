//! Snapshots of the open windows, the registry that keeps them by
//! identifier, and what each request to the registry decides.

use crate::identifier::{
    is_random_id, lemma_random_id_is_not_nil, new_random_id, parse_uuid, parsed_uuid, NIL_ID,
};
use crate::window_handler::{
    enumerate, get_open_windows, live_windows, DesktopSession, LiveWindow, SessionError, WindowInfo,
    WindowRecord, WindowSighting,
};
use std::collections::HashMap;
use vstd::prelude::*;

verus! {

broadcast use vstd::std_specs::hash::group_hash_axioms;

/// A window as a snapshot keeps it: the five fields that can be stored and
/// read back, without the handles of the session that saw it.
#[derive(Clone, Debug, PartialEq, Eq)]
pub struct WindowInfoSharable {
    pub title: String,
    pub path: String,
    pub process_id: u32,
    pub class_name: String,
    pub desktop_index: u32,
}

impl View for WindowInfoSharable {
    type V = WindowRecord;

    open spec fn view(&self) -> WindowRecord {
        WindowRecord {
            title: self.title@,
            executable_path: self.path@,
            process_id: self.process_id,
            class_name: self.class_name@,
            virtual_desktop_index: self.desktop_index,
        }
    }
}

/// The records of a list of stored windows, in the list's order.
pub open spec fn records(windows: Seq<WindowInfoSharable>) -> Seq<WindowRecord> {
    windows.map_values(|w: WindowInfoSharable| w@)
}

/// The records of a list of open windows, in the list's order.
pub open spec fn records_of_live(windows: Seq<LiveWindow>) -> Seq<WindowRecord> {
    windows.map_values(|w: LiveWindow| w.record)
}

impl WindowInfoSharable {
    /// The storable part of an open window.
    pub fn from_window(window: &WindowInfo) -> (shared: WindowInfoSharable)
        ensures
            shared@ == window@.record,
    {
        WindowInfoSharable {
            title: window.title.clone(),
            path: window.path.clone(),
            process_id: window.process_id,
            class_name: window.class_name.clone(),
            desktop_index: window.desktop_index,
        }
    }

    /// A copy with the same five fields.
    pub fn duplicate(&self) -> (copy: WindowInfoSharable)
        ensures
            copy == *self,
    {
        WindowInfoSharable {
            title: self.title.clone(),
            path: self.path.clone(),
            process_id: self.process_id,
            class_name: self.class_name.clone(),
            desktop_index: self.desktop_index,
        }
    }
}

/// The storable part of each open window, in the same order.
pub fn to_sharable(windows: &Vec<WindowInfo>) -> (shared: Vec<WindowInfoSharable>)
    ensures
        records(shared@) == records_of_live(live_windows(windows@)),
{
    let mut shared: Vec<WindowInfoSharable> = Vec::new();
    let mut i: usize = 0;
    while i < windows.len()
        invariant
            i <= windows.len(),
            shared@.len() == i,
            forall|k: int| 0 <= k < i ==> (#[trigger] shared@[k])@ == windows@[k]@.record,
        decreases windows.len() - i,
    {
        shared.push(WindowInfoSharable::from_window(&windows[i]));
        i += 1;
    }
    shared
}

/// A copy of a list of stored windows.
pub fn duplicate_all(windows: &Vec<WindowInfoSharable>) -> (copy: Vec<WindowInfoSharable>)
    ensures
        copy@ == windows@,
{
    let mut copy: Vec<WindowInfoSharable> = Vec::new();
    let mut i: usize = 0;
    while i < windows.len()
        invariant
            i <= windows.len(),
            copy@ == windows@.take(i as int),
        decreases windows.len() - i,
    {
        copy.push(windows[i].duplicate());
        i += 1;
    }
    copy
}

/// What a snapshot is: an identifier and the windows in the order of the
/// walk that found them.
pub struct Snapshot {
    pub id: u128,
    pub windows: Seq<WindowRecord>,
}

/// A snapshot: a named capture of the open windows. It is made once and not
/// changed afterwards.
#[derive(Debug, PartialEq, Eq)]
pub struct Config {
    pub id: u128,
    pub data: Vec<WindowInfoSharable>,
}

impl View for Config {
    type V = Snapshot;

    open spec fn view(&self) -> Snapshot {
        Snapshot { id: self.id, windows: records(self.data@) }
    }
}

impl Config {
    /// The snapshot with the given identifier and windows.
    pub fn with_id(id: u128, data: Vec<WindowInfoSharable>) -> (config: Config)
        ensures
            config.id == id,
            config.data == data,
    {
        Config { id, data }
    }

    /// Makes a snapshot of the given windows: a fresh random identifier, and
    /// the windows as they were handed in, none added, dropped or moved.
    pub fn build(data: Vec<WindowInfoSharable>) -> (config: Config)
        ensures
            config.data == data,
            is_random_id(config.id),
            config.id != NIL_ID,
    {
        let id = new_random_id();
        proof {
            lemma_random_id_is_not_nil(id);
        }
        Config::with_id(id, data)
    }
}

/// What a registry holds: the snapshots by identifier, and the identifier of
/// the snapshot taken last, nil while none was taken.
pub struct Registry {
    pub snapshots: Map<u128, Snapshot>,
    pub live: u128,
}

impl Registry {
    /// What holds of every registry: each snapshot is filed under its own
    /// identifier, and the live identifier is nil or that of a filed snapshot.
    pub open spec fn wf(self) -> bool {
        &&& forall|id: u128| #[trigger]
            self.snapshots.contains_key(id) ==> self.snapshots[id].id == id
        &&& self.live == NIL_ID || self.snapshots.contains_key(self.live)
    }
}

/// The registry of snapshots. Every snapshot is filed under its own
/// identifier, and the live identifier is nil or names a filed snapshot.
pub struct AppState {
    configs: HashMap<u128, Config>,
    live_config: u128,
}

impl View for AppState {
    type V = Registry;

    closed spec fn view(&self) -> Registry {
        Registry {
            snapshots: self.configs@.map_values(|c: Config| c@),
            live: self.live_config,
        }
    }
}

impl AppState {
    #[verifier::type_invariant]
    spec fn filed_in_order(self) -> bool {
        &&& forall|id: u128| #[trigger]
            self.configs@.contains_key(id) ==> self.configs@[id].id == id
        &&& self.live_config == NIL_ID || self.configs@.contains_key(self.live_config)
    }

    /// The registry with no snapshot in it.
    pub fn new() -> (state: AppState)
        ensures
            state@.snapshots == Map::<u128, Snapshot>::empty(),
            state@.live == NIL_ID,
            state@.wf(),
    {
        AppState { configs: HashMap::new(), live_config: NIL_ID }
    }

    /// The identifier of the snapshot taken last: nil, or one that is filed.
    pub fn live_config(&self) -> (id: u128)
        ensures
            id == self@.live,
            self@.wf(),
    {
        proof {
            use_type_invariant(self);
        }
        self.live_config
    }

    /// All snapshots, each under its identifier.
    pub fn configs(&self) -> (all: &HashMap<u128, Config>)
        ensures
            all@.map_values(|c: Config| c@) == self@.snapshots,
            forall|id: u128| #[trigger] all@.contains_key(id) ==> all@[id].id == id,
    {
        proof {
            use_type_invariant(self);
        }
        &self.configs
    }

    /// The snapshot filed under an identifier, if there is one.
    pub fn get(&self, id: u128) -> (found: Option<&Config>)
        ensures
            found is Some <==> self@.snapshots.contains_key(id),
            found matches Some(config) ==> config@ == self@.snapshots[id] && config.id == id,
            self@.wf(),
    {
        proof {
            use_type_invariant(self);
        }
        self.configs.get(&id)
    }

    /// Files a snapshot under its identifier, in place of any that was
    /// filed under it before, and makes it the live one.
    pub fn register(&mut self, config: Config)
        ensures
            final(self)@.snapshots == old(self)@.snapshots.insert(config.id, config@),
            final(self)@.live == config.id,
            final(self)@.wf(),
    {
        proof {
            use_type_invariant(&*self);
        }
        let id = config.id;
        // The map leaves the registry while it changes, so that the registry
        // is in order at every step.
        self.live_config = NIL_ID;
        let mut configs: HashMap<u128, Config> = HashMap::new();
        std::mem::swap(&mut self.configs, &mut configs);
        configs.insert(id, config);
        std::mem::swap(&mut self.configs, &mut configs);
        self.live_config = id;
    }
}

/// The registry after a capture under the identifier `id`: the windows that
/// the walk's sightings enumerate to are filed under `id` as a snapshot, and
/// that snapshot is the live one.
pub open spec fn captured(
    registry: Registry,
    id: u128,
    sightings: Seq<WindowSighting>,
) -> Registry {
    Registry {
        snapshots: registry.snapshots.insert(
            id,
            Snapshot { id, windows: records_of_live(enumerate(sightings)) },
        ),
        live: id,
    }
}

/// A capture keeps a registry in order. The snapshot just taken is the live
/// one and holds what the walk enumerates to; every snapshot filed under
/// another identifier stays as it was.
pub proof fn lemma_capture_keeps_registry_in_order(
    registry: Registry,
    id: u128,
    sightings: Seq<WindowSighting>,
)
    requires
        registry.wf(),
    ensures
        captured(registry, id, sightings).wf(),
        captured(registry, id, sightings).snapshots[captured(registry, id, sightings).live].windows
            == records_of_live(enumerate(sightings)),
        forall|other: u128|
            other != id && #[trigger] registry.snapshots.contains_key(other) ==> captured(
                registry,
                id,
                sightings,
            ).snapshots.contains_key(other) && captured(registry, id, sightings).snapshots[other]
                == registry.snapshots[other],
{
}

impl AppState {
    /// Captures the open windows of a finished walk under a given
    /// identifier: enumerates them, keeps their storable part, and files the
    /// snapshot as the live one.
    pub fn capture(&mut self, id: u128, session: &DesktopSession, sightings: &Vec<WindowSighting>)
        ensures
            final(self)@ == captured(old(self)@, id, sightings@),
    {
        let open_windows = get_open_windows(session, sightings);
        let data = to_sharable(&open_windows);
        self.register(Config::with_id(id, data));
    }
}

/// Takes a snapshot of the open windows and files it as the live one, under
/// a fresh random identifier, which is returned. Without a session nothing is
/// enumerated and nothing is filed: the registry stays as it was and the
/// session error is returned.
pub fn send_open_windows(
    state: &mut AppState,
    session: &Result<DesktopSession, SessionError>,
    sightings: &Vec<WindowSighting>,
) -> (taken: Result<u128, SessionError>)
    ensures
        session is Err ==> taken == Err::<u128, SessionError>(SessionError::SubsystemUnavailable)
            && final(state)@ == old(state)@,
        session is Ok ==> taken is Ok && is_random_id(taken->Ok_0) && final(state)@ == captured(
            old(state)@,
            taken->Ok_0,
            sightings@,
        ),
{
    match session {
        Ok(session) => {
            let id = new_random_id();
            state.capture(id, session, sightings);
            Ok(id)
        },
        Err(_) => Err(SessionError::SubsystemUnavailable),
    }
}

/// Why a request that names a snapshot was turned down.
#[derive(Clone, Copy, Debug, PartialEq, Eq)]
pub enum RequestError {
    /// The text is no identifier.
    InvalidIdentifier,
    /// No snapshot is filed under the identifier.
    ConfigNotFound,
}

/// The snapshot that a request names, given what its text parsed to: no
/// identifier is `InvalidIdentifier`, one under which nothing is filed is
/// `ConfigNotFound`.
pub open spec fn resolve(registry: Registry, parsed: Option<u128>) -> Result<
    Snapshot,
    RequestError,
> {
    match parsed {
        None => Err(RequestError::InvalidIdentifier),
        Some(id) => if registry.snapshots.contains_key(id) {
            Ok(registry.snapshots[id])
        } else {
            Err(RequestError::ConfigNotFound)
        },
    }
}

/// Looks up the snapshot that a parsed identifier names.
pub fn find_config(state: &AppState, parsed: Option<u128>) -> (found: Result<&Config, RequestError>)
    ensures
        found matches Ok(config) ==> resolve(state@, parsed) == Ok::<Snapshot, RequestError>(
            config@,
        ) && parsed == Some(config.id),
        found matches Err(error) ==> resolve(state@, parsed) == Err::<Snapshot, RequestError>(
            error,
        ),
{
    match parsed {
        None => Err(RequestError::InvalidIdentifier),
        Some(id) => match state.get(id) {
            Some(config) => Ok(config),
            None => Err(RequestError::ConfigNotFound),
        },
    }
}

/// Resolves a request to replay the snapshot named by `config_id`, and hands
/// out the windows to replay, in the snapshot's order. The text is read as
/// the `uuid` crate reads it.
pub fn start_config(state: &AppState, config_id: &str) -> (windows: Result<
    Vec<WindowInfoSharable>,
    RequestError,
>)
    ensures
        windows matches Ok(data) ==> resolve(state@, parsed_uuid(config_id@)) matches Ok(snapshot)
            && records(data@) == snapshot.windows,
        windows matches Err(error) ==> resolve(state@, parsed_uuid(config_id@)) == Err::<
            Snapshot,
            RequestError,
        >(error),
{
    match find_config(state, parse_uuid(config_id)) {
        Ok(config) => Ok(duplicate_all(&config.data)),
        Err(error) => Err(error),
    }
}

/// Resolves a request to save, which names a snapshot by `config_id`: the
/// identifier of the snapshot that the text names, `InvalidIdentifier` where
/// the text is no identifier, `ConfigNotFound` where nothing is filed under
/// it. Nothing is to be written unless the request resolves. The text is
/// read as the `uuid` crate reads it.
pub fn save_config(state: &AppState, config_id: &str) -> (checked: Result<u128, RequestError>)
    ensures
        checked == match resolve(state@, parsed_uuid(config_id@)) {
            Ok(snapshot) => Ok::<u128, RequestError>(snapshot.id),
            Err(error) => Err::<u128, RequestError>(error),
        },
{
    match find_config(state, parse_uuid(config_id)) {
        Ok(config) => Ok(config.id),
        Err(error) => Err(error),
    }
}

/// What came of reading the saved registry back.
#[derive(Clone, Copy, Debug, PartialEq, Eq)]
pub enum LoadOutcome {
    /// The file could not be opened or made.
    NoFile,
    /// The file was opened and does not hold a registry.
    Malformed,
    /// The file was opened and a registry was read from it.
    Loaded,
}

/// The answer that a request gets: an empty message if all went well, else
/// what went wrong.
#[derive(Clone, Debug, PartialEq, Eq)]
pub struct ErrorResponse {
    pub message: String,
}

/// The message for a refused request to replay a snapshot.
pub open spec fn start_config_message(error: RequestError) -> Seq<char> {
    match error {
        RequestError::InvalidIdentifier => "Invalid UUid"@,
        RequestError::ConfigNotFound => "No config found"@,
    }
}

/// The message for a refused request to save.
pub open spec fn save_config_message(error: RequestError) -> Seq<char> {
    match error {
        RequestError::InvalidIdentifier => "Invalid uuid"@,
        RequestError::ConfigNotFound => "No config found"@,
    }
}

/// The message after reading the saved registry back: only a file that was
/// opened and could not be read gets a message.
pub open spec fn read_configs_message(outcome: LoadOutcome) -> Seq<char> {
    match outcome {
        LoadOutcome::Malformed => "Can't read from config"@,
        _ => ""@,
    }
}

impl ErrorResponse {
    /// The answer to a request that went through.
    pub fn none() -> (response: ErrorResponse)
        ensures
            response.message@ == ""@,
            response.message@.len() == 0,
    {
        proof {
            reveal_strlit("");
        }
        ErrorResponse { message: "".to_owned() }
    }

    /// The answer to a refused request to replay a snapshot.
    pub fn for_start_config(error: RequestError) -> (response: ErrorResponse)
        ensures
            response.message@ == start_config_message(error),
    {
        match error {
            RequestError::InvalidIdentifier => ErrorResponse { message: "Invalid UUid".to_owned() },
            RequestError::ConfigNotFound => ErrorResponse { message: "No config found".to_owned() },
        }
    }

    /// The answer to a refused request to save.
    pub fn for_save_config(error: RequestError) -> (response: ErrorResponse)
        ensures
            response.message@ == save_config_message(error),
    {
        match error {
            RequestError::InvalidIdentifier => ErrorResponse { message: "Invalid uuid".to_owned() },
            RequestError::ConfigNotFound => ErrorResponse { message: "No config found".to_owned() },
        }
    }
}

/// The answer to a request to read the saved registry back.
pub fn read_configs_from_save(outcome: LoadOutcome) -> (response: ErrorResponse)
    ensures
        response.message@ == read_configs_message(outcome),
{
    match outcome {
        LoadOutcome::Malformed => ErrorResponse { message: "Can't read from config".to_owned() },
        _ => ErrorResponse::none(),
    }
}

} // verus!
