use vstd::prelude::*;

use crate::device::DeviceError;

verus! {

/// Most one-second waits for a scan to finish.
pub const WIFI_SCAN_TIMEOUT_SECONDS: usize = 45;

/// Whether the scan wait goes on for another second: the device's last-scan
/// time has not passed the time taken before the request, and fewer than
/// `WIFI_SCAN_TIMEOUT_SECONDS` waits were made.
pub open spec fn scan_keeps_waiting(prescan: i64, last_scan: i64, waits: nat) -> bool {
    waits < WIFI_SCAN_TIMEOUT_SECONDS && !(prescan < last_scan)
}

pub fn scan_wait_continues(prescan: i64, last_scan: i64, waits: usize) -> (r: bool)
    ensures
        r == scan_keeps_waiting(prescan, last_scan, waits as nat),
{
    waits < WIFI_SCAN_TIMEOUT_SECONDS && !(prescan < last_scan)
}

/// The number of one-second waits of a scan wait from `waits` on, where
/// `last_scan(n)` is the last-scan time that the device reports after `n` waits.
pub open spec fn scan_waits(prescan: i64, last_scan: spec_fn(nat) -> i64, waits: nat) -> nat
    decreases WIFI_SCAN_TIMEOUT_SECONDS - waits,
{
    if scan_keeps_waiting(prescan, last_scan(waits), waits) {
        1 + scan_waits(prescan, last_scan, waits + 1)
    } else {
        0
    }
}

proof fn lemma_scan_waits_bound(prescan: i64, last_scan: spec_fn(nat) -> i64, waits: nat)
    requires
        waits <= WIFI_SCAN_TIMEOUT_SECONDS,
    ensures
        scan_waits(prescan, last_scan, waits) <= WIFI_SCAN_TIMEOUT_SECONDS - waits,
        (forall|n: nat| !(prescan < #[trigger] last_scan(n))) ==> scan_waits(prescan, last_scan, waits)
            == WIFI_SCAN_TIMEOUT_SECONDS - waits,
    decreases WIFI_SCAN_TIMEOUT_SECONDS - waits,
{
    if waits < WIFI_SCAN_TIMEOUT_SECONDS {
        lemma_scan_waits_bound(prescan, last_scan, waits + 1);
    }
}

/// A scan wait ends after at most `WIFI_SCAN_TIMEOUT_SECONDS` one-second
/// waits, whatever the device reports; where its last-scan time never
/// advances, it makes exactly that many.
pub proof fn lemma_scan_wait_bounded(prescan: i64, last_scan: spec_fn(nat) -> i64)
    ensures
        scan_waits(prescan, last_scan, 0) <= WIFI_SCAN_TIMEOUT_SECONDS,
        (forall|n: nat| !(prescan < #[trigger] last_scan(n))) ==> scan_waits(prescan, last_scan, 0)
            == WIFI_SCAN_TIMEOUT_SECONDS,
{
    lemma_scan_waits_bound(prescan, last_scan, 0);
}

/// The state of an active connection, as the service reports it.
#[derive(Debug, Clone, Copy, PartialEq, Eq, Structural)]
pub enum ActiveConnectionState {
    Unknown,
    Activating,
    Activated,
    Deactivating,
    Deactivated,
    Failed,
}

/// The state that ends a wait on an active connection: `Activated` or
/// `Deactivated`; any other state is passed over.
pub fn terminal_state(state: ActiveConnectionState) -> (r: Option<ActiveConnectionState>)
    ensures
        r == (if state == ActiveConnectionState::Activated || state == ActiveConnectionState::Deactivated {
            Some(state)
        } else {
            None
        }),
{
    match state {
        ActiveConnectionState::Activated => Some(ActiveConnectionState::Activated),
        ActiveConnectionState::Deactivated => Some(ActiveConnectionState::Deactivated),
        _ => None,
    }
}

/// Why the portal could not be brought up.
#[derive(Debug, Clone, Copy, PartialEq, Eq, Structural)]
pub enum StartupFailure {
    DaemonUnavailable,
    StaleProfileCleanupFailed,
    DeviceNotFound,
    NotWiFi,
    InterfaceUnmanaged,
    ScanRequestFailed,
    ActivationRequestFailed,
    ActivationFailed,
}

/// Where the bring-up of the portal stands.
#[derive(Debug, Clone, Copy, PartialEq, Eq, Structural)]
pub enum StartupPhase {
    Uninitialized,
    ClientReady,
    StaleProfilesRemoved,
    DeviceReady,
    Scanned,
    PortalRejected,
    PortalActivated,
    Failed(StartupFailure),
}

/// What was observed of the step that a phase asked for.
#[derive(Debug, Clone, Copy, PartialEq, Eq, Structural)]
pub enum StartupEvent {
    /// The step succeeded.
    Completed,
    /// No device could be used.
    DeviceUnavailable(DeviceError),
    /// The step's call into the service failed.
    StepFailed,
    /// The portal's connection reached a state that ends the wait.
    PortalState(ActiveConnectionState),
}

/// The step that a phase asks for.
#[derive(Debug, Clone, Copy, PartialEq, Eq, Structural)]
pub enum StartupAction {
    CreateClient,
    RemoveStaleProfiles,
    FindDevice,
    ScanNetworks,
    ActivatePortal,
    RemovePortalProfile,
    Serve,
    Abort(StartupFailure),
}

pub open spec fn action_of(phase: StartupPhase) -> StartupAction {
    match phase {
        StartupPhase::Uninitialized => StartupAction::CreateClient,
        StartupPhase::ClientReady => StartupAction::RemoveStaleProfiles,
        StartupPhase::StaleProfilesRemoved => StartupAction::FindDevice,
        StartupPhase::DeviceReady => StartupAction::ScanNetworks,
        StartupPhase::Scanned => StartupAction::ActivatePortal,
        StartupPhase::PortalRejected => StartupAction::RemovePortalProfile,
        StartupPhase::PortalActivated => StartupAction::Serve,
        StartupPhase::Failed(f) => StartupAction::Abort(f),
    }
}

pub fn startup_action(phase: StartupPhase) -> (r: StartupAction)
    ensures
        r == action_of(phase),
{
    match phase {
        StartupPhase::Uninitialized => StartupAction::CreateClient,
        StartupPhase::ClientReady => StartupAction::RemoveStaleProfiles,
        StartupPhase::StaleProfilesRemoved => StartupAction::FindDevice,
        StartupPhase::DeviceReady => StartupAction::ScanNetworks,
        StartupPhase::Scanned => StartupAction::ActivatePortal,
        StartupPhase::PortalRejected => StartupAction::RemovePortalProfile,
        StartupPhase::PortalActivated => StartupAction::Serve,
        StartupPhase::Failed(f) => StartupAction::Abort(f),
    }
}

pub open spec fn device_failure(e: DeviceError) -> StartupFailure {
    match e {
        DeviceError::DeviceNotFound => StartupFailure::DeviceNotFound,
        DeviceError::NotWiFi => StartupFailure::NotWiFi,
        DeviceError::InterfaceUnmanaged => StartupFailure::InterfaceUnmanaged,
    }
}

/// The phase after `event` in `phase`. Each step either moves on or fails
/// for good; a portal that ends deactivated has its profile removed and then
/// fails, even where the removal succeeds.
pub open spec fn next_phase(phase: StartupPhase, event: StartupEvent) -> StartupPhase {
    match phase {
        StartupPhase::Uninitialized => if event == StartupEvent::Completed {
            StartupPhase::ClientReady
        } else {
            StartupPhase::Failed(StartupFailure::DaemonUnavailable)
        },
        StartupPhase::ClientReady => if event == StartupEvent::Completed {
            StartupPhase::StaleProfilesRemoved
        } else {
            StartupPhase::Failed(StartupFailure::StaleProfileCleanupFailed)
        },
        StartupPhase::StaleProfilesRemoved => match event {
            StartupEvent::Completed => StartupPhase::DeviceReady,
            StartupEvent::DeviceUnavailable(e) => StartupPhase::Failed(device_failure(e)),
            _ => StartupPhase::Failed(StartupFailure::DeviceNotFound),
        },
        StartupPhase::DeviceReady => if event == StartupEvent::Completed {
            StartupPhase::Scanned
        } else {
            StartupPhase::Failed(StartupFailure::ScanRequestFailed)
        },
        StartupPhase::Scanned => match event {
            StartupEvent::PortalState(ActiveConnectionState::Activated) => StartupPhase::PortalActivated,
            StartupEvent::PortalState(ActiveConnectionState::Deactivated) => StartupPhase::PortalRejected,
            _ => StartupPhase::Failed(StartupFailure::ActivationRequestFailed),
        },
        StartupPhase::PortalRejected => StartupPhase::Failed(StartupFailure::ActivationFailed),
        StartupPhase::PortalActivated => StartupPhase::PortalActivated,
        StartupPhase::Failed(f) => StartupPhase::Failed(f),
    }
}

pub fn startup_next(phase: StartupPhase, event: StartupEvent) -> (r: StartupPhase)
    ensures
        r == next_phase(phase, event),
{
    match phase {
        StartupPhase::Uninitialized => if event == StartupEvent::Completed {
            StartupPhase::ClientReady
        } else {
            StartupPhase::Failed(StartupFailure::DaemonUnavailable)
        },
        StartupPhase::ClientReady => if event == StartupEvent::Completed {
            StartupPhase::StaleProfilesRemoved
        } else {
            StartupPhase::Failed(StartupFailure::StaleProfileCleanupFailed)
        },
        StartupPhase::StaleProfilesRemoved => match event {
            StartupEvent::Completed => StartupPhase::DeviceReady,
            StartupEvent::DeviceUnavailable(e) => StartupPhase::Failed(
                match e {
                    DeviceError::DeviceNotFound => StartupFailure::DeviceNotFound,
                    DeviceError::NotWiFi => StartupFailure::NotWiFi,
                    DeviceError::InterfaceUnmanaged => StartupFailure::InterfaceUnmanaged,
                },
            ),
            _ => StartupPhase::Failed(StartupFailure::DeviceNotFound),
        },
        StartupPhase::DeviceReady => if event == StartupEvent::Completed {
            StartupPhase::Scanned
        } else {
            StartupPhase::Failed(StartupFailure::ScanRequestFailed)
        },
        StartupPhase::Scanned => match event {
            StartupEvent::PortalState(ActiveConnectionState::Activated) => StartupPhase::PortalActivated,
            StartupEvent::PortalState(ActiveConnectionState::Deactivated) => StartupPhase::PortalRejected,
            _ => StartupPhase::Failed(StartupFailure::ActivationRequestFailed),
        },
        StartupPhase::PortalRejected => StartupPhase::Failed(StartupFailure::ActivationFailed),
        StartupPhase::PortalActivated => StartupPhase::PortalActivated,
        StartupPhase::Failed(f) => StartupPhase::Failed(f),
    }
}

/// How many of the phases that a run from `phase` through `events` reaches
/// (`phase` included) ask to remove stale profiles.
pub open spec fn stale_cleanups(phase: StartupPhase, events: Seq<StartupEvent>) -> nat
    decreases events.len(),
{
    let here: nat = if action_of(phase) == StartupAction::RemoveStaleProfiles {
        1
    } else {
        0
    };
    if events.len() == 0 {
        here
    } else {
        here + stale_cleanups(next_phase(phase, events[0]), events.drop_first())
    }
}

proof fn lemma_no_cleanup_after_client(phase: StartupPhase, events: Seq<StartupEvent>)
    requires
        phase != StartupPhase::Uninitialized,
        phase != StartupPhase::ClientReady,
    ensures
        stale_cleanups(phase, events) == 0,
    decreases events.len(),
{
    if events.len() > 0 {
        lemma_no_cleanup_after_client(next_phase(phase, events[0]), events.drop_first());
    }
}

/// Stale profiles are removed at most once in a bring-up, whatever happens;
/// exactly once where the client is created.
pub proof fn lemma_stale_cleanup_once(events: Seq<StartupEvent>)
    ensures
        stale_cleanups(StartupPhase::Uninitialized, events) <= 1,
        events.len() > 0 && events[0] == StartupEvent::Completed ==> stale_cleanups(
            StartupPhase::Uninitialized,
            events,
        ) == 1,
{
    if events.len() > 0 {
        let first = next_phase(StartupPhase::Uninitialized, events[0]);
        let rest = events.drop_first();
        assert(stale_cleanups(StartupPhase::Uninitialized, events) == stale_cleanups(first, rest));
        if first == StartupPhase::ClientReady {
            if rest.len() > 0 {
                let second = next_phase(first, rest[0]);
                lemma_no_cleanup_after_client(second, rest.drop_first());
                assert(stale_cleanups(first, rest) == 1 + stale_cleanups(second, rest.drop_first()));
            } else {
                assert(stale_cleanups(first, rest) == 1);
            }
        } else {
            lemma_no_cleanup_after_client(first, rest);
        }
    }
}

} // verus!
