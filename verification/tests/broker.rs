use arnes_host_broker::inspect::InspectStep;
use arnes_host_broker::{
    action_outcome, distro_listed, finish_command, inspect_runtime_with, read_bounded,
    read_limit, run_service_action, runtime_status, start_runtime, stop_runtime, BrokerError,
    CommandOutput, CommandRunner, CommandSpec, Inspection, Probe, RuntimeStatus, ServiceAction,
    ServiceState, MAX_OUTPUT_BYTES,
};
use std::{cell::RefCell, collections::VecDeque};

struct RecordingRunner {
    outputs: RefCell<VecDeque<Result<CommandOutput, BrokerError>>>,
    seen: RefCell<Vec<Vec<String>>>,
    handed: Vec<(CommandSpec, Result<CommandOutput, BrokerError>)>,
}

impl RecordingRunner {
    fn new(outputs: Vec<Result<CommandOutput, BrokerError>>) -> Self {
        Self {
            outputs: RefCell::new(outputs.into_iter().collect()),
            seen: RefCell::new(Vec::new()),
            handed: Vec::new(),
        }
    }

    fn seen(&self) -> Vec<Vec<String>> {
        self.seen.borrow().clone()
    }
}

impl CommandRunner for RecordingRunner {
    fn history(&self) -> Vec<(CommandSpec, Result<CommandOutput, BrokerError>)> {
        self.handed.clone()
    }

    fn run(&mut self, spec: &CommandSpec) -> Result<CommandOutput, BrokerError> {
        assert_eq!(spec.program, "wsl.exe");
        self.seen.borrow_mut().push(spec.args.clone());
        let outcome = self
            .outputs
            .borrow_mut()
            .pop_front()
            .expect("scripted command result");
        self.handed.push((spec.clone(), outcome.clone()));
        outcome
    }
}

fn output(success: bool, stdout: &str) -> Result<CommandOutput, BrokerError> {
    Ok(CommandOutput {
        success,
        stdout: stdout.to_owned(),
        stderr: String::new(),
    })
}

fn strings(items: &[&str]) -> Vec<String> {
    items.iter().map(|s| s.to_string()).collect()
}

fn version_args() -> Vec<String> {
    strings(&["--version"])
}

fn list_args() -> Vec<String> {
    strings(&["--list", "--quiet"])
}

fn docker_args() -> Vec<String> {
    strings(&[
        "-d",
        "RHODIZ-Arnes",
        "-u",
        "root",
        "--exec",
        "docker",
        "version",
        "--format",
        "{{.Server.Version}}",
    ])
}

fn service_args() -> Vec<String> {
    strings(&[
        "-d",
        "RHODIZ-Arnes",
        "-u",
        "root",
        "--exec",
        "systemctl",
        "is-active",
        "rhodiz-arnes.service",
    ])
}

fn installed(docker_ready: bool, state: ServiceState, detail: Option<&str>) -> RuntimeStatus {
    RuntimeStatus {
        platform_supported: true,
        wsl_available: true,
        distro_installed: true,
        docker_ready,
        service_state: state,
        detail: detail.map(str::to_owned),
    }
}

fn not_installed(wsl_available: bool, detail: &str) -> RuntimeStatus {
    RuntimeStatus {
        platform_supported: true,
        wsl_available,
        distro_installed: false,
        docker_ready: false,
        service_state: ServiceState::NotInstalled,
        detail: Some(detail.to_owned()),
    }
}

#[test]
fn probes_run_in_order_and_stop_when_wsl_fails() {
    let mut runner = RecordingRunner::new(vec![output(false, "")]);
    let status = inspect_runtime_with(&mut runner);
    assert_eq!(status, not_installed(false, "WSL is unavailable or unhealthy."));
    assert_eq!(runner.seen(), vec![version_args()]);
}

#[test]
fn unreadable_distribution_list_is_reported() {
    let mut runner = RecordingRunner::new(vec![
        output(true, "WSL version: 2.6.1"),
        output(false, "RHODIZ-Arnes\n"),
    ]);
    let status = inspect_runtime_with(&mut runner);
    assert_eq!(
        status,
        not_installed(
            true,
            "WSL is present but its distribution list could not be read."
        )
    );
    assert_eq!(runner.seen(), vec![version_args(), list_args()]);
}

#[test]
fn runner_error_on_the_list_is_reported_as_unreadable() {
    let mut runner = RecordingRunner::new(vec![
        output(true, ""),
        Err(BrokerError::CommandTimedOut),
    ]);
    assert_eq!(
        inspect_runtime_with(&mut runner),
        not_installed(
            true,
            "WSL is present but its distribution list could not be read."
        )
    );
}

#[test]
fn missing_distribution_is_reported() {
    let mut runner = RecordingRunner::new(vec![
        output(true, ""),
        output(true, "Ubuntu\nDebian\nRHODIZ-Arnes-old\n"),
    ]);
    assert_eq!(
        inspect_runtime_with(&mut runner),
        not_installed(true, "The RHODIZ-Arnes WSL2 distribution is not installed.")
    );
    assert_eq!(runner.seen(), vec![version_args(), list_args()]);
}

#[test]
fn docker_not_ready_is_reported() {
    let mut runner = RecordingRunner::new(vec![
        output(true, ""),
        output(true, "RHODIZ-Arnes"),
        output(false, ""),
        output(true, "active\n"),
    ]);
    assert_eq!(
        inspect_runtime_with(&mut runner),
        installed(
            false,
            ServiceState::Active,
            Some("RHODIZ-Arnes is installed but Docker Engine is not ready.")
        )
    );
    assert_eq!(
        runner.seen(),
        vec![version_args(), list_args(), docker_args(), service_args()]
    );
}

#[test]
fn inactive_service_is_read_despite_failing_exit() {
    let mut runner = RecordingRunner::new(vec![
        output(true, ""),
        output(true, "RHODIZ-Arnes\r\n"),
        output(true, "28.5.1\n"),
        output(false, "inactive\n"),
    ]);
    assert_eq!(
        inspect_runtime_with(&mut runner),
        installed(
            true,
            ServiceState::Inactive,
            Some("Docker is ready but the ChatGPT Arnes service is not active.")
        )
    );
}

#[test]
fn service_check_error_gives_unknown_state() {
    let mut runner = RecordingRunner::new(vec![
        output(true, ""),
        output(true, "rhodiz-arnes"),
        Err(BrokerError::SpawnFailed),
        Err(BrokerError::OutputTooLarge),
    ]);
    assert_eq!(
        inspect_runtime_with(&mut runner),
        installed(
            false,
            ServiceState::Unknown,
            Some("RHODIZ-Arnes is installed but Docker Engine is not ready.")
        )
    );
}

#[test]
fn inspection_steps_one_probe_at_a_time() {
    let start = Inspection::start();
    assert_eq!(start.probe, Probe::WslVersion);
    assert_eq!(start.command().args, version_args());
    let next = match start.advance(&output(true, "")) {
        InspectStep::Continue(next) => next,
        InspectStep::Finished(_) => panic!("inspection stopped early"),
    };
    assert_eq!(next.probe, Probe::DistroList);
    assert_eq!(next.command().args, list_args());
    let next = match next.advance(&output(true, "  RHODIZ-ARNES  \n")) {
        InspectStep::Continue(next) => next,
        InspectStep::Finished(_) => panic!("inspection stopped early"),
    };
    assert_eq!(next.probe, Probe::DockerVersion);
    assert_eq!(next.command().args, docker_args());
    let next = match next.advance(&output(true, "28.5.1\n")) {
        InspectStep::Continue(next) => next,
        InspectStep::Finished(_) => panic!("inspection stopped early"),
    };
    assert_eq!(next.probe, Probe::ServiceCheck);
    assert!(next.docker_ready);
    assert_eq!(next.command().args, service_args());
    match next.advance(&output(false, "failed\n")) {
        InspectStep::Finished(status) => assert_eq!(
            status,
            installed(
                true,
                ServiceState::Failed,
                Some("Docker is ready but the ChatGPT Arnes service is not active.")
            )
        ),
        InspectStep::Continue(_) => panic!("inspection did not finish"),
    }
}

#[test]
fn every_reported_status_is_consistent() {
    let scripts: Vec<Vec<Result<CommandOutput, BrokerError>>> = vec![
        vec![Err(BrokerError::SpawnFailed)],
        vec![output(true, ""), output(false, "")],
        vec![output(true, ""), output(true, "other")],
        vec![
            output(true, ""),
            output(true, "RHODIZ-Arnes"),
            output(true, ""),
            output(true, "active"),
        ],
        vec![
            output(true, ""),
            output(true, "RHODIZ-Arnes"),
            output(true, ""),
            output(true, "deactivating"),
        ],
    ];
    for script in scripts {
        let status = inspect_runtime_with(&mut RecordingRunner::new(script));
        assert!(!status.wsl_available || status.platform_supported);
        assert!(!status.distro_installed || status.wsl_available);
        assert!(!status.docker_ready || status.distro_installed);
        if !status.distro_installed {
            assert_eq!(status.service_state, ServiceState::NotInstalled);
        }
        assert_eq!(
            status.detail.is_none(),
            status.docker_ready && status.service_state == ServiceState::Active
        );
    }
}

#[test]
fn distribution_names_match_whole_trimmed_lines_ignoring_ascii_case() {
    assert!(distro_listed("Ubuntu\nRHODIZ-Arnes\n"));
    assert!(distro_listed("rhodiz-arnes"));
    assert!(distro_listed("Ubuntu\r\n\tRHODIZ-arnes \r\n"));
    assert!(distro_listed("\u{a0}RHODIZ-Arnes\u{3000}"));
    assert!(!distro_listed(""));
    assert!(!distro_listed("\n\n"));
    assert!(!distro_listed("RHODIZ-Arnes-old"));
    assert!(!distro_listed("xRHODIZ-Arnes"));
    assert!(!distro_listed("RHODIZ Arnes"));
    assert!(!distro_listed("RHODIZ-\nArnes"));
}

#[test]
fn service_states_parse_only_known_words() {
    assert_eq!(parse("  active  "), ServiceState::Active);
    assert_eq!(parse("inactive"), ServiceState::Inactive);
    assert_eq!(parse("activating\n"), ServiceState::Inactive);
    assert_eq!(parse("deactivating\r\n"), ServiceState::Inactive);
    assert_eq!(parse("\u{2003}failed\u{85}"), ServiceState::Failed);
    assert_eq!(parse("Active"), ServiceState::Unknown);
    assert_eq!(parse(""), ServiceState::Unknown);
    assert_eq!(parse("active\nactive"), ServiceState::Unknown);
    assert_eq!(parse("reloading"), ServiceState::Unknown);
}

fn parse(s: &str) -> ServiceState {
    arnes_host_broker::parse_service_state(s)
}

#[test]
fn hosts_without_windows_are_unsupported() {
    assert_eq!(
        runtime_status::<RecordingRunner>(&mut None),
        RuntimeStatus {
            platform_supported: false,
            wsl_available: false,
            distro_installed: false,
            docker_ready: false,
            service_state: ServiceState::Unknown,
            detail: Some("Windows 11 with WSL2 is required.".to_owned()),
        }
    );
    assert_eq!(
        start_runtime::<RecordingRunner>(&mut None),
        Err(BrokerError::UnsupportedPlatform)
    );
    assert_eq!(
        stop_runtime::<RecordingRunner>(&mut None),
        Err(BrokerError::UnsupportedPlatform)
    );
}

#[test]
fn runtime_status_on_windows_inspects() {
    let mut host = Some(RecordingRunner::new(vec![output(false, "")]));
    assert_eq!(
        runtime_status(&mut host),
        not_installed(false, "WSL is unavailable or unhealthy.")
    );
}

#[test]
fn failed_start_names_the_operation_and_skips_inspection() {
    let mut host = Some(RecordingRunner::new(vec![output(false, "")]));
    assert_eq!(
        start_runtime(&mut host),
        Err(BrokerError::CommandFailed("start RHODIZ-Arnes"))
    );
    assert_eq!(host.as_ref().map(|r| r.seen().len()), Some(1));
    let mut host = Some(RecordingRunner::new(vec![output(false, "")]));
    assert_eq!(
        stop_runtime(&mut host),
        Err(BrokerError::CommandFailed("stop RHODIZ-Arnes"))
    );
}

#[test]
fn runner_error_on_an_action_is_returned() {
    let mut runner = RecordingRunner::new(vec![Err(BrokerError::CommandTimedOut)]);
    assert_eq!(
        run_service_action(ServiceAction::Stop, &mut runner),
        Err(BrokerError::CommandTimedOut)
    );
    assert_eq!(
        action_outcome(ServiceAction::Start, Err(BrokerError::SpawnFailed)),
        Err(BrokerError::SpawnFailed)
    );
    assert_eq!(action_outcome(ServiceAction::Start, output(true, "")), Ok(()));
}

#[test]
fn successful_stop_reports_the_inspected_status() {
    let mut host = Some(RecordingRunner::new(vec![
        output(true, ""),
        output(true, ""),
        output(true, "RHODIZ-Arnes\n"),
        output(true, "28.5.1"),
        output(false, "inactive\n"),
    ]));
    assert_eq!(
        stop_runtime(&mut host),
        Ok(installed(
            true,
            ServiceState::Inactive,
            Some("Docker is ready but the ChatGPT Arnes service is not active.")
        ))
    );
    let seen = host.map(|r| r.seen()).unwrap_or_default();
    assert_eq!(seen.len(), 5);
    assert_eq!(seen[0][5..], strings(&["systemctl", "stop", "rhodiz-arnes.service"])[..]);
    assert_eq!(seen[1], version_args());
}

#[test]
fn error_messages_describe_each_error() {
    assert_eq!(BrokerError::UnsupportedPlatform.message(), "Windows host required");
    assert_eq!(BrokerError::SpawnFailed.message(), "host command could not be started");
    assert_eq!(BrokerError::CommandTimedOut.message(), "host command timed out");
    assert_eq!(
        BrokerError::OutputReadFailed.message(),
        "host command output could not be read"
    );
    assert_eq!(
        BrokerError::OutputTooLarge.message(),
        "host command output exceeded the limit"
    );
    assert_eq!(
        BrokerError::CommandFailed("start RHODIZ-Arnes").message(),
        "host operation failed: start RHODIZ-Arnes"
    );
}

#[test]
fn output_is_bounded_to_the_limit() {
    assert_eq!(MAX_OUTPUT_BYTES, 65536);
    assert_eq!(read_limit(), 65537);
    assert_eq!(read_bounded(None), Err(BrokerError::OutputReadFailed));
    assert_eq!(
        read_bounded(Some(vec![b'a'; 65537])),
        Err(BrokerError::OutputTooLarge)
    );
    assert_eq!(read_bounded(Some(vec![b'a'; 65536])), Ok(vec![b'a'; 65536]));
    assert_eq!(read_bounded(Some(Vec::new())), Ok(Vec::new()));
}

#[test]
fn finished_commands_become_outcomes() {
    assert_eq!(
        finish_command(None, Ok(b"x".to_vec()), Ok(Vec::new())),
        Err(BrokerError::CommandTimedOut)
    );
    assert_eq!(
        finish_command(
            Some(true),
            Err(BrokerError::OutputTooLarge),
            Err(BrokerError::OutputReadFailed)
        ),
        Err(BrokerError::OutputTooLarge)
    );
    assert_eq!(
        finish_command(Some(true), Ok(Vec::new()), Err(BrokerError::OutputReadFailed)),
        Err(BrokerError::OutputReadFailed)
    );
    assert_eq!(
        finish_command(Some(false), Ok(b"active\n".to_vec()), Ok(vec![0x66, 0xff, 0x6f])),
        Ok(CommandOutput {
            success: false,
            stdout: "active\n".to_owned(),
            stderr: "f\u{fffd}o".to_owned(),
        })
    );
}

#[test]
fn service_state_ignores_surrounding_white_space() {
    for output in ["active", "inactive\n", " failed ", "surprise", "", "Active"] {
        let state = parse(output);
        assert_eq!(parse(output.trim()), state);
        assert_eq!(parse(&format!(" \t{output}\r\n")), state);
        assert_eq!(parse(&format!("\u{3000}{output}\u{a0}")), state);
    }
}

#[test]
fn lifecycle_action_hands_its_own_command_first() {
    let mut host = Some(RecordingRunner::new(vec![output(true, ""), output(false, "")]));
    assert_eq!(
        start_runtime(&mut host),
        Ok(not_installed(false, "WSL is unavailable or unhealthy."))
    );
    let seen = host.map(|r| r.seen()).unwrap_or_default();
    assert_eq!(seen.len(), 2);
    assert_eq!(seen[0][5..], strings(&["systemctl", "start", "rhodiz-arnes.service"])[..]);
    assert_eq!(seen[1], version_args());
}

#[test]
fn the_runner_history_holds_exactly_the_probes() {
    let mut runner = RecordingRunner::new(vec![
        output(true, ""),
        output(true, "RHODIZ-Arnes"),
        output(true, "28.5.1"),
        output(true, "active"),
    ]);
    let status = inspect_runtime_with(&mut runner);
    assert_eq!(status, installed(true, ServiceState::Active, None));
    let history = runner.history();
    assert_eq!(history.len(), 4);
    assert_eq!(
        history[3],
        (arnes_host_broker::service_state_command(), output(true, "active"))
    );
    assert!(!history
        .iter()
        .any(|(spec, _)| spec.args.iter().any(|arg| arg == "start" || arg == "stop")));
}
