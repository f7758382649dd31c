//! Typed broker between the desktop shell and the WSL2 runtime: it builds the only host
//! commands the shell may run, reads their outcomes and reports the runtime's status.
pub mod capture;
pub mod commands;
pub mod errors;
pub mod inspect;
pub mod runtime;
pub mod status;
pub mod text;

pub use capture::{finish_command, read_bounded, read_limit, COMMAND_TIMEOUT_SECS, MAX_OUTPUT_BYTES};
pub use commands::{
    distro_command, docker_version_command, list_distros_command, service_action_command,
    service_state_command, wsl_command, wsl_version_command, CommandOutput, CommandSpec,
    ServiceAction, DISTRO_NAME, SERVICE_NAME, WSL_PROGRAM,
};
pub use errors::BrokerError;
pub use inspect::{
    distro_listed, inspect_runtime_with, CommandRunner, InspectStep, Inspection, Outcome, Probe,
};
pub use runtime::{action_outcome, run_service_action, runtime_status, start_runtime, stop_runtime};
pub use status::{parse_service_state, RuntimeStatus, ServiceState};
