use vstd::prelude::*;

use crate::profile::{connection_list, details_of, ConnectionDetails, ConnectionList, StoredProfile};
use crate::station::{copy_stations, NetworkList, Station};

verus! {

/// Reply text of the commands that only acknowledge.
pub const OK_REPLY: &'static str = "ok";

/// Context line added when the connectivity check fails.
pub const CHECK_CONNECTIVITY_FAILED: &'static str = "Failed to execute check connectivity";

/// A request to the loop that owns the network state.
#[derive(Debug, Clone, Copy, PartialEq, Eq, Structural)]
pub enum Command {
    CheckConnectivity,
    ListConnections,
    ListWiFiNetworks,
    Shutdown,
    Stop,
}

pub struct Connectivity {
    pub connectivity: String,
}

impl Connectivity {
    pub fn new(connectivity: String) -> (r: Connectivity)
        ensures
            r.connectivity@ == connectivity@,
    {
        Connectivity { connectivity }
    }
}

pub struct Shutdown {
    pub shutdown: &'static str,
}

impl Shutdown {
    pub fn new(shutdown: &'static str) -> (r: Shutdown)
        ensures
            r.shutdown@ == shutdown@,
    {
        Shutdown { shutdown }
    }
}

pub struct Stop {
    pub stop: &'static str,
}

impl Stop {
    pub fn new(stop: &'static str) -> (r: Stop)
        ensures
            r.stop@ == stop@,
    {
        Stop { stop }
    }
}

/// The result of a command, one variant per command.
pub enum CommandResponce {
    CheckConnectivity(Connectivity),
    ListConnections(ConnectionList),
    ListWiFiNetworks(NetworkList),
    Shutdown(Shutdown),
    Stop(Stop),
}

/// Why a command failed.
pub enum CommandError {
    /// The network state has not been set up yet.
    StateNotInitialized,
    /// A call into the network service failed; one message per layer,
    /// outermost first.
    UpstreamCallFailed(Vec<String>),
}

/// What a reply says, as plain values.
pub enum ReplyView {
    Connectivity(Seq<char>),
    Connections(Seq<(Seq<char>, Seq<char>)>),
    Networks(Seq<(Seq<char>, u8)>),
    Shutdown(Seq<char>),
    Stop(Seq<char>),
}

pub enum ErrorView {
    StateNotInitialized,
    UpstreamCallFailed(Seq<Seq<char>>),
}

pub open spec fn station_views(s: Seq<Station>) -> Seq<(Seq<char>, u8)> {
    s.map_values(|st: Station| (st.ssid@, st.quality))
}

pub open spec fn detail_views(d: Seq<ConnectionDetails>) -> Seq<(Seq<char>, Seq<char>)> {
    d.map_values(|c: ConnectionDetails| (c.id@, c.uuid@))
}

pub open spec fn line_views(v: Seq<String>) -> Seq<Seq<char>> {
    v.map_values(|s: String| s@)
}

impl View for CommandResponce {
    type V = ReplyView;

    open spec fn view(&self) -> ReplyView {
        match self {
            CommandResponce::CheckConnectivity(c) => ReplyView::Connectivity(c.connectivity@),
            CommandResponce::ListConnections(l) => ReplyView::Connections(detail_views(l.connections@)),
            CommandResponce::ListWiFiNetworks(n) => ReplyView::Networks(station_views(n.stations@)),
            CommandResponce::Shutdown(s) => ReplyView::Shutdown(s.shutdown@),
            CommandResponce::Stop(s) => ReplyView::Stop(s.stop@),
        }
    }
}

impl View for CommandError {
    type V = ErrorView;

    open spec fn view(&self) -> ErrorView {
        match self {
            CommandError::StateNotInitialized => ErrorView::StateNotInitialized,
            CommandError::UpstreamCallFailed(lines) => ErrorView::UpstreamCallFailed(line_views(lines@)),
        }
    }
}

pub open spec fn result_view(r: Result<CommandResponce, CommandError>) -> Result<ReplyView, ErrorView> {
    match r {
        Ok(resp) => Ok(resp@),
        Err(e) => Err(e@),
    }
}

/// The state owned by the network loop: handles on the service's client,
/// on the portal's device and on the portal's active connection, and the
/// stations of the last scan.
pub struct NetworkState<C, D, A> {
    pub client: C,
    pub device: D,
    pub stations: Vec<Station>,
    pub portal_connection: Option<A>,
}

impl<C, D, A> NetworkState<C, D, A> {
    pub fn new(client: C, device: D, stations: Vec<Station>, portal_connection: Option<A>) -> (r: Self)
        ensures
            r.client == client,
            r.device == device,
            r.stations@ == stations@,
            r.portal_connection == portal_connection,
    {
        NetworkState { client, device, stations, portal_connection }
    }
}

/// The cached stations; fails before the state is set up.
pub fn get_global_stations<C, D, A>(state: &Option<NetworkState<C, D, A>>) -> (r: Result<Vec<Station>, CommandError>)
    ensures
        state is None ==> r matches Err(CommandError::StateNotInitialized),
        state matches Some(s) ==> r matches Ok(v) && station_views(v@) == station_views(s.stations@),
{
    match state {
        Some(s) => {
            let v = copy_stations(&s.stations);
            assert(station_views(v@) =~= station_views(s.stations@));
            Ok(v)
        },
        None => Err(CommandError::StateNotInitialized),
    }
}

/// The client handle; fails before the state is set up.
pub fn get_global_client<C, D, A>(state: &Option<NetworkState<C, D, A>>) -> (r: Result<&C, CommandError>)
    ensures
        state is None ==> r matches Err(CommandError::StateNotInitialized),
        state matches Some(s) ==> r matches Ok(c) && *c == s.client,
{
    match state {
        Some(s) => Ok(&s.client),
        None => Err(CommandError::StateNotInitialized),
    }
}

/// The portal's active connection, if one is recorded; fails before the
/// state is set up.
pub fn get_global_portal_connection<C, D, A>(state: &Option<NetworkState<C, D, A>>) -> (r: Result<Option<&A>, CommandError>)
    ensures
        state is None ==> r matches Err(CommandError::StateNotInitialized),
        state matches Some(s) ==> (r matches Ok(p) && (p is None <==> s.portal_connection is None) && (p is Some
            ==> *p->Some_0 == s.portal_connection->Some_0)),
{
    match state {
        Some(s) => match &s.portal_connection {
            Some(a) => Ok(Some(a)),
            None => Ok(None),
        },
        None => Err(CommandError::StateNotInitialized),
    }
}

/// What the network loop does for a command.
pub enum CommandPlan {
    /// Reply at once.
    Reply(Result<CommandResponce, CommandError>),
    /// Ask the service for its connectivity, then `check_connectivity_reply`.
    CheckConnectivity,
    /// Read the stored profiles, then `list_connections_reply`.
    ListConnections,
    /// Tear the portal down, then `stop_reply`.
    StopPortal,
}

pub enum PlanView {
    Reply(Result<ReplyView, ErrorView>),
    CheckConnectivity,
    ListConnections,
    StopPortal,
}

impl View for CommandPlan {
    type V = PlanView;

    open spec fn view(&self) -> PlanView {
        match self {
            CommandPlan::Reply(r) => PlanView::Reply(result_view(*r)),
            CommandPlan::CheckConnectivity => PlanView::CheckConnectivity,
            CommandPlan::ListConnections => PlanView::ListConnections,
            CommandPlan::StopPortal => PlanView::StopPortal,
        }
    }
}

/// The plan for `command` in `state`: every command fails before the state
/// is set up; the station list and the acknowledgements are answered from
/// the state; a stop with no portal recorded succeeds at once.
pub open spec fn planned<C, D, A>(state: Option<NetworkState<C, D, A>>, command: Command) -> PlanView {
    match state {
        None => PlanView::Reply(Err(ErrorView::StateNotInitialized)),
        Some(s) => match command {
            Command::CheckConnectivity => PlanView::CheckConnectivity,
            Command::ListConnections => PlanView::ListConnections,
            Command::ListWiFiNetworks => PlanView::Reply(Ok(ReplyView::Networks(station_views(s.stations@)))),
            Command::Shutdown => PlanView::Reply(Ok(ReplyView::Shutdown(OK_REPLY@))),
            Command::Stop => if s.portal_connection is None {
                PlanView::Reply(Ok(ReplyView::Stop(OK_REPLY@)))
            } else {
                PlanView::StopPortal
            },
        },
    }
}

/// The cached station list; never scans.
pub fn list_wifi_networks<C, D, A>(state: &Option<NetworkState<C, D, A>>) -> (r: Result<CommandResponce, CommandError>)
    ensures
        state is None ==> result_view(r) == Err::<ReplyView, ErrorView>(ErrorView::StateNotInitialized),
        state matches Some(s) ==> result_view(r) == Ok::<ReplyView, ErrorView>(
            ReplyView::Networks(station_views(s.stations@)),
        ),
{
    match get_global_stations(state) {
        Ok(stations) => Ok(CommandResponce::ListWiFiNetworks(NetworkList::new(stations))),
        Err(e) => Err(e),
    }
}

/// Acknowledges a shutdown request; the state is left as it is.
pub fn shutdown<C, D, A>(state: &Option<NetworkState<C, D, A>>) -> (r: Result<CommandResponce, CommandError>)
    ensures
        state is None ==> result_view(r) == Err::<ReplyView, ErrorView>(ErrorView::StateNotInitialized),
        state is Some ==> result_view(r) == Ok::<ReplyView, ErrorView>(ReplyView::Shutdown(OK_REPLY@)),
{
    match state {
        Some(_) => Ok(CommandResponce::Shutdown(Shutdown::new(OK_REPLY))),
        None => Err(CommandError::StateNotInitialized),
    }
}

/// Decides how `command` is carried out in `state`.
pub fn dispatch_command<C, D, A>(state: &Option<NetworkState<C, D, A>>, command: Command) -> (r: CommandPlan)
    ensures
        r@ == planned(*state, command),
{
    if state.is_none() {
        return CommandPlan::Reply(Err(CommandError::StateNotInitialized));
    }
    match command {
        Command::CheckConnectivity => CommandPlan::CheckConnectivity,
        Command::ListConnections => CommandPlan::ListConnections,
        Command::ListWiFiNetworks => CommandPlan::Reply(list_wifi_networks(state)),
        Command::Shutdown => CommandPlan::Reply(shutdown(state)),
        Command::Stop => match get_global_portal_connection(state) {
            Ok(Some(_)) => CommandPlan::StopPortal,
            _ => CommandPlan::Reply(Ok(CommandResponce::Stop(Stop::new(OK_REPLY)))),
        },
    }
}

/// The reply to a connectivity check, from the service's answer or from the
/// messages of its failure.
pub fn check_connectivity_reply(outcome: Result<String, Vec<String>>) -> (r: Result<CommandResponce, CommandError>)
    ensures
        outcome matches Ok(c) ==> result_view(r) == Ok::<ReplyView, ErrorView>(ReplyView::Connectivity(c@)),
        outcome matches Err(lines) ==> result_view(r) == Err::<ReplyView, ErrorView>(
            ErrorView::UpstreamCallFailed(seq![CHECK_CONNECTIVITY_FAILED@] + line_views(lines@)),
        ),
{
    match outcome {
        Ok(c) => Ok(CommandResponce::CheckConnectivity(Connectivity::new(c))),
        Err(lines) => {
            let mut rest = lines;
            let mut all: Vec<String> = Vec::new();
            all.push(CHECK_CONNECTIVITY_FAILED.to_owned());
            all.append(&mut rest);
            assert(line_views(all@) =~= seq![CHECK_CONNECTIVITY_FAILED@] + line_views(lines@));
            Err(CommandError::UpstreamCallFailed(all))
        },
    }
}

/// The reply listing the stored profiles that have both an id and a uuid.
pub fn list_connections_reply(profiles: &Vec<StoredProfile>) -> (r: Result<CommandResponce, CommandError>)
    ensures
        result_view(r) == Ok::<ReplyView, ErrorView>(
            ReplyView::Connections(details_of(profiles@, profiles@.len() as int)),
        ),
{
    let list = connection_list(profiles);
    assert(detail_views(list.connections@) =~= details_of(profiles@, profiles@.len() as int));
    Ok(CommandResponce::ListConnections(list))
}

/// The state after a successful teardown: the portal is no longer recorded.
pub open spec fn without_portal<C, D, A>(state: Option<NetworkState<C, D, A>>) -> Option<NetworkState<C, D, A>> {
    match state {
        Some(s) => Some(
            NetworkState {
                client: s.client,
                device: s.device,
                stations: s.stations,
                portal_connection: None,
            },
        ),
        None => None,
    }
}

/// Records the end of a portal teardown: on success the portal is forgotten
/// and the stop acknowledged; on failure nothing changes and the failure's
/// messages are handed on.
pub fn stop_reply<C, D, A>(state: &mut Option<NetworkState<C, D, A>>, outcome: Result<(), Vec<String>>) -> (r: Result<CommandResponce, CommandError>)
    ensures
        outcome is Ok ==> *final(state) == without_portal(*old(state)) && result_view(r) == Ok::<
            ReplyView,
            ErrorView,
        >(ReplyView::Stop(OK_REPLY@)),
        outcome matches Err(lines) ==> *final(state) == *old(state) && result_view(r) == Err::<
            ReplyView,
            ErrorView,
        >(ErrorView::UpstreamCallFailed(line_views(lines@))),
{
    match outcome {
        Ok(()) => {
            match state.take() {
                Some(s) => {
                    let NetworkState { client, device, stations, portal_connection } = s;
                    *state = Some(NetworkState { client, device, stations, portal_connection: None });
                },
                None => {},
            }
            Ok(CommandResponce::Stop(Stop::new(OK_REPLY)))
        },
        Err(lines) => Err(CommandError::UpstreamCallFailed(lines)),
    }
}

/// Every command fails with `StateNotInitialized` before the state is set up,
/// with no outside work.
pub proof fn lemma_commands_fail_before_init<C, D, A>(state: Option<NetworkState<C, D, A>>, command: Command)
    requires
        state is None,
    ensures
        planned(state, command) == PlanView::Reply(Err(ErrorView::StateNotInitialized)),
{
}

/// Listing the WiFi networks is answered from the state alone, with no
/// outside work and so no scan, and leaves the state as it is: two requests
/// in a row get the same list, the cached one.
pub proof fn lemma_wifi_list_repeatable<C, D, A>(state: Option<NetworkState<C, D, A>>)
    requires
        state is Some,
    ensures
        planned(state, Command::ListWiFiNetworks) == PlanView::Reply(
            Ok(ReplyView::Networks(station_views(state->Some_0.stations@))),
        ),
{
}

/// A stop with no portal recorded succeeds with no outside work and changes
/// nothing, so a second stop succeeds too; and after a teardown succeeded
/// the portal is forgotten, so the stops that follow succeed at once.
pub proof fn lemma_stop_idempotent<C, D, A>(state: Option<NetworkState<C, D, A>>)
    requires
        state is Some,
    ensures
        state->Some_0.portal_connection is None ==> planned(state, Command::Stop) == PlanView::Reply(
            Ok(ReplyView::Stop(OK_REPLY@)),
        ),
        planned(without_portal(state), Command::Stop) == PlanView::Reply(Ok(ReplyView::Stop(OK_REPLY@))),
        without_portal(without_portal(state)) == without_portal(state),
{
}

} // verus!
