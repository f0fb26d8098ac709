use vstd::prelude::*;

use crate::command::{line_views, result_view, Command, CommandError, CommandResponce, ErrorView, ReplyView};

verus! {

/// Message of a command that ran before the network state was set up.
pub const NOT_INITIALIZED: &'static str = "Network thread not yet initialized";

pub const CHECK_CONNECTIVITY_CONTEXT: &'static str = "Failed to check connectivity";

pub const LIST_CONNECTIONS_CONTEXT: &'static str = "Failed to list actions";

pub const LIST_WIFI_NETWORKS_CONTEXT: &'static str = "Failed to list WiFi networks";

pub const SHUTDOWN_CONTEXT: &'static str = "Failed to shutdown";

pub const STOP_CONTEXT: &'static str = "Failed to stop";

/// The messages of a failed request, outermost first.
pub struct AppErrors {
    pub errors: Vec<String>,
}

impl AppErrors {
    pub fn new(errors: Vec<String>) -> (r: AppErrors)
        ensures
            r.errors@ == errors@,
    {
        AppErrors { errors }
    }
}

/// What a request to the network loop comes back with.
pub enum AppResponse {
    Network(CommandResponce),
    Error(AppErrors),
}

/// The first message of a failed command.
pub open spec fn context_of(command: Command) -> Seq<char> {
    match command {
        Command::CheckConnectivity => CHECK_CONNECTIVITY_CONTEXT@,
        Command::ListConnections => LIST_CONNECTIONS_CONTEXT@,
        Command::ListWiFiNetworks => LIST_WIFI_NETWORKS_CONTEXT@,
        Command::Shutdown => SHUTDOWN_CONTEXT@,
        Command::Stop => STOP_CONTEXT@,
    }
}

pub fn failure_context(command: Command) -> (r: &'static str)
    ensures
        r@ == context_of(command),
{
    match command {
        Command::CheckConnectivity => CHECK_CONNECTIVITY_CONTEXT,
        Command::ListConnections => LIST_CONNECTIONS_CONTEXT,
        Command::ListWiFiNetworks => LIST_WIFI_NETWORKS_CONTEXT,
        Command::Shutdown => SHUTDOWN_CONTEXT,
        Command::Stop => STOP_CONTEXT,
    }
}

/// The messages that a command error carries.
pub open spec fn error_lines(e: CommandError) -> Seq<Seq<char>> {
    match e {
        CommandError::StateNotInitialized => seq![NOT_INITIALIZED@],
        CommandError::UpstreamCallFailed(lines) => line_views(lines@),
    }
}

impl AppResponse {
    /// The response to `command`: its reply, or its error messages under a
    /// line that names the command.
    pub fn from_outcome(command: Command, outcome: Result<CommandResponce, CommandError>) -> (r: AppResponse)
        ensures
            outcome is Ok ==> (r matches AppResponse::Network(resp) && result_view(outcome) == Ok::<
                ReplyView,
                ErrorView,
            >(resp@)),
            outcome matches Err(e) ==> (r matches AppResponse::Error(errs) && line_views(errs.errors@)
                == seq![context_of(command)] + error_lines(e)),
    {
        match outcome {
            Ok(resp) => AppResponse::Network(resp),
            Err(e) => {
                let mut errors: Vec<String> = Vec::new();
                errors.push(failure_context(command).to_owned());
                match e {
                    CommandError::StateNotInitialized => {
                        errors.push(NOT_INITIALIZED.to_owned());
                    },
                    CommandError::UpstreamCallFailed(lines) => {
                        let mut rest = lines;
                        errors.append(&mut rest);
                    },
                }
                assert(line_views(errors@) =~= seq![context_of(command)] + error_lines(e));
                AppResponse::Error(AppErrors::new(errors))
            },
        }
    }
}

} // verus!
