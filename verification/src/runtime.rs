use vstd::prelude::*;
use crate::commands::{
    CommandSpec, ServiceAction, WSL_PROGRAM, spec_action_args, spec_args, spec_operation_name,
    service_action_command,
};
use crate::errors::BrokerError;
use crate::inspect::{
    CommandRunner, Handed, Outcome, handed_since, inspect_runtime_with, inspection_ran,
};
use crate::status::{RuntimeStatus, unsupported_platform, unsupported_platform_status};

verus! {

/// Whether the command of a lifecycle action went through: an error of the runner stands,
/// and a command that exits with failure fails the action by its name.
pub fn action_outcome(action: ServiceAction, outcome: Outcome) -> (r: Result<(), BrokerError>)
    ensures
        match outcome {
            Err(e) => r == Err::<(), BrokerError>(e),
            Ok(output) => if output.success {
                r is Ok
            } else {
                r matches Err(BrokerError::CommandFailed(operation)) && operation@
                    == spec_operation_name(action)
            },
        },
{
    match outcome {
        Err(e) => Err(e),
        Ok(output) => {
            if output.success {
                Ok(())
            } else {
                Err(BrokerError::CommandFailed(action.operation_name()))
            }
        },
    }
}

/// `c` is the command of `action`.
pub open spec fn runs_action(c: CommandSpec, action: ServiceAction) -> bool {
    c.program@ == WSL_PROGRAM@ && spec_args(c) == spec_action_args(action)
}

/// `handed` is what a lifecycle action hands a runner, and `r` what it returns. The
/// action's own command goes first. A runner error stands and a failing exit fails the
/// action by its name; either way nothing more is handed over. After a successful exit
/// the runtime is inspected, and its status returned.
pub open spec fn action_ran(
    action: ServiceAction,
    handed: Seq<Handed>,
    r: Result<RuntimeStatus, BrokerError>,
) -> bool {
    &&& handed.len() >= 1
    &&& runs_action(handed[0].0, action)
    &&& match handed[0].1 {
        Err(e) => handed.len() == 1 && r == Err::<RuntimeStatus, BrokerError>(e),
        Ok(output) => if output.success {
            r matches Ok(status) && inspection_ran(handed.skip(1), status@)
        } else {
            &&& handed.len() == 1
            &&& r matches Err(BrokerError::CommandFailed(operation))
            &&& operation@ == spec_operation_name(action)
        },
    }
}

/// Carries out a lifecycle action through `runner`, then inspects the runtime: the
/// runner's error stands, a command that exits with failure fails the action by its
/// name, and a successful command is followed by an inspection whose status is returned.
pub fn run_service_action<R: CommandRunner>(action: ServiceAction, runner: &mut R) -> (r: Result<
    RuntimeStatus,
    BrokerError,
>)
    ensures
        old(runner).history()@.is_prefix_of(final(runner).history()@),
        action_ran(action, handed_since(old(runner).history()@, final(runner).history()@), r),
{
    let ghost h0 = runner.history()@;
    let command = service_action_command(action);
    let outcome = runner.run(&command);
    let ghost h1 = runner.history()@;
    assert(h1 == h0.push((command, outcome)));
    let ghost first = outcome;
    match action_outcome(action, outcome) {
        Err(e) => {
            proof {
                let handed = handed_since(h0, h1);
                assert(handed =~= seq![(command, first)]);
                assert forall|k: int| 0 <= k < h0.len() implies h1[k] == h0[k] by {}
            }
            Err(e)
        },
        Ok(()) => {
            let status = inspect_runtime_with(runner);
            proof {
                let h2 = runner.history()@;
                let handed = handed_since(h0, h2);
                assert forall|k: int| 0 <= k < h0.len() implies h2[k] == h0[k] by {
                    assert(h1[k] == h0[k]);
                }
                assert(handed[0] == h2[h0.len() as int]);
                assert(h2[h0.len() as int] == h1[h0.len() as int]);
                assert(handed.skip(1) =~= handed_since(h1, h2));
            }
            Ok(status)
        },
    }
}

/// The runtime's status. `host` holds the runner of a Windows host; there is none
/// elsewhere, and then the platform is reported as unsupported.
pub fn runtime_status<R: CommandRunner>(host: &mut Option<R>) -> (status: RuntimeStatus)
    ensures
        *old(host) is None ==> *final(host) is None && status@ == unsupported_platform_status(),
        *old(host) matches Some(before) ==> {
            &&& *final(host) matches Some(after)
            &&& before.history()@.is_prefix_of(after.history()@)
            &&& inspection_ran(handed_since(before.history()@, after.history()@), status@)
        },
{
    match host {
        Some(runner) => inspect_runtime_with(runner),
        None => unsupported_platform(),
    }
}

/// Starts the runtime service on a Windows host and reports the status after it.
pub fn start_runtime<R: CommandRunner>(host: &mut Option<R>) -> (r: Result<RuntimeStatus, BrokerError>)
    ensures
        *old(host) is None ==> *final(host) is None && r matches Err(
            BrokerError::UnsupportedPlatform,
        ),
        *old(host) matches Some(before) ==> {
            &&& *final(host) matches Some(after)
            &&& before.history()@.is_prefix_of(after.history()@)
            &&& action_ran(ServiceAction::Start, handed_since(before.history()@, after.history()@), r)
        },
{
    match host {
        Some(runner) => run_service_action(ServiceAction::Start, runner),
        None => Err(BrokerError::UnsupportedPlatform),
    }
}

/// Stops the runtime service on a Windows host and reports the status after it.
pub fn stop_runtime<R: CommandRunner>(host: &mut Option<R>) -> (r: Result<RuntimeStatus, BrokerError>)
    ensures
        *old(host) is None ==> *final(host) is None && r matches Err(
            BrokerError::UnsupportedPlatform,
        ),
        *old(host) matches Some(before) ==> {
            &&& *final(host) matches Some(after)
            &&& before.history()@.is_prefix_of(after.history()@)
            &&& action_ran(ServiceAction::Stop, handed_since(before.history()@, after.history()@), r)
        },
{
    match host {
        Some(runner) => run_service_action(ServiceAction::Stop, runner),
        None => Err(BrokerError::UnsupportedPlatform),
    }
}

} // verus!
