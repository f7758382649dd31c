use vstd::prelude::*;
use crate::commands::{
    CommandOutput, CommandSpec, ServiceAction, spec_action_args, DISTRO_NAME, SERVICE_NAME, WSL_PROGRAM, distro_prefix, spec_args,
    wsl_version_command, list_distros_command, docker_version_command, service_state_command,
};
use crate::errors::BrokerError;
use crate::status::{
    RuntimeStatus, RuntimeStatusView, ServiceState, parse_service_state, wsl_unavailable,
    distro_list_unreadable, distro_missing, installed, spec_parse_service_state, wsl_unavailable_status,
    distro_list_unreadable_status, distro_missing_status, installed_status, status_consistent,
};
use crate::text::{
    chars_of, trim_range, range_eq_ignore_ascii_case, trimmed, eq_ignore_ascii_case, ascii_fold,
};

verus! {

/// `s[i..j]` is one line of `s`, as `str::lines` cuts it: lines end at `'\n'`, and no line
/// starts at the very end of the text. A `'\r'` before the `'\n'` stays in the line here;
/// lines are only ever looked at trimmed, which removes it either way.
pub open spec fn is_line(s: Seq<char>, i: int, j: int) -> bool {
    &&& 0 <= i < s.len()
    &&& i <= j <= s.len()
    &&& (i == 0 || s[i - 1] == '\n')
    &&& (j == s.len() || s[j] == '\n')
    &&& forall|k: int| i <= k < j ==> s[k] != '\n'
}

/// A line names the runtime's distribution: trimmed, it is the name up to ASCII case.
pub open spec fn names_distro(line: Seq<char>) -> bool {
    eq_ignore_ascii_case(trimmed(line), DISTRO_NAME@)
}

/// The output of `wsl.exe --list --quiet` lists the runtime's distribution.
pub open spec fn lists_distro(listing: Seq<char>) -> bool {
    exists|i: int, j: int| is_line(listing, i, j) && names_distro(listing.subrange(i, j))
}

/// Whether a distribution listing holds the runtime's distribution.
pub fn distro_listed(listing: &str) -> (found: bool)
    ensures
        found == lists_distro(listing@),
{
    let chars = chars_of(listing);
    let name = chars_of(DISTRO_NAME);
    let n = chars.len();
    let mut i: usize = 0;
    while i < n
        invariant
            chars@ == listing@,
            name@ == DISTRO_NAME@,
            n == chars.len(),
            0 <= i <= n,
            i < n ==> (i == 0 || chars@[i - 1] == '\n'),
            forall|a: int, b: int|
                #![trigger is_line(chars@, a, b)]
                is_line(chars@, a, b) && a < i ==> !names_distro(chars@.subrange(a, b)),
        decreases n - i,
    {
        let mut j = i;
        while j < n && chars[j] != '\n'
            invariant
                n == chars.len(),
                i <= j <= n,
                forall|k: int| i <= k < j ==> chars@[k] != '\n',
            decreases n - j,
        {
            j = j + 1;
        }
        let (a, b) = trim_range(&chars, i, j);
        if range_eq_ignore_ascii_case(&chars, a, b, &name) {
            assert(is_line(chars@, i as int, j as int));
            assert(names_distro(chars@.subrange(i as int, j as int)));
            return true;
        }
        assert forall|a: int, b: int|
            #![trigger is_line(chars@, a, b)]
            is_line(chars@, a, b) && a < j + 1 implies !names_distro(chars@.subrange(a, b)) by {
            if a == i {
                if b < j {
                    assert(chars@[b] == '\n');
                } else if b > j {
                    assert(chars@[j as int] == '\n');
                }
                assert(b == j);
            } else if a > i {
                assert(chars@[a - 1] == '\n');
            }
        }
        if j == n {
            i = n;
        } else {
            i = j + 1;
        }
    }
    false
}

/// The outcome of running one host command.
pub type Outcome = Result<CommandOutput, BrokerError>;

/// The command ran and exited successfully.
pub open spec fn succeeded(outcome: Outcome) -> bool {
    outcome matches Ok(output) && output.success
}

/// What the command printed, as far as it ran.
pub open spec fn printed(outcome: Outcome) -> Seq<char> {
    match outcome {
        Ok(output) => output.stdout@,
        Err(_) => Seq::empty(),
    }
}

/// The service state an outcome of `systemctl is-active` reports, whatever its exit code:
/// `systemctl` exits with failure for every state but active.
pub open spec fn reported_state(outcome: Outcome) -> ServiceState {
    match outcome {
        Ok(output) => spec_parse_service_state(output.stdout@),
        Err(_) => ServiceState::Unknown,
    }
}

/// The runtime's status from the outcomes of the four probes, in the order they run:
/// WSL's version, the distribution list, Docker's version and the service state.
/// An outcome that the inspection never gets to does not matter.
pub open spec fn spec_inspect(
    version: Outcome,
    distros: Outcome,
    docker: Outcome,
    service: Outcome,
) -> RuntimeStatusView {
    if !succeeded(version) {
        wsl_unavailable_status()
    } else if !succeeded(distros) {
        distro_list_unreadable_status()
    } else if !lists_distro(printed(distros)) {
        distro_missing_status()
    } else {
        installed_status(succeeded(docker), reported_state(service))
    }
}

} // verus!

verus! {

/// One of the host checks that an inspection runs, in their order.
#[derive(Debug, Clone, Copy, PartialEq, Eq, Structural)]
pub enum Probe {
    WslVersion,
    DistroList,
    DockerVersion,
    ServiceCheck,
}

/// Where an inspection stands: the probe whose outcome it waits for, and whether Docker
/// answered (known once the Docker probe has run).
#[derive(Debug, Clone, Copy, PartialEq, Eq, Structural)]
pub struct Inspection {
    pub probe: Probe,
    pub docker_ready: bool,
}

/// What an inspection does after an outcome: run its next probe, or report.
#[derive(Debug)]
pub enum InspectStep {
    Continue(Inspection),
    Finished(RuntimeStatus),
}

/// An inspection step with the report as text.
pub enum InspectStepView {
    Continue(Inspection),
    Finished(RuntimeStatusView),
}

impl View for InspectStep {
    type V = InspectStepView;

    open spec fn view(&self) -> InspectStepView {
        match self {
            InspectStep::Continue(next) => InspectStepView::Continue(*next),
            InspectStep::Finished(status) => InspectStepView::Finished(status@),
        }
    }
}

/// The position of a probe in the order of an inspection.
pub open spec fn probe_rank(p: Probe) -> nat {
    match p {
        Probe::WslVersion => 0,
        Probe::DistroList => 1,
        Probe::DockerVersion => 2,
        Probe::ServiceCheck => 3,
    }
}

/// The arguments of `wsl.exe` that carry out a probe.
pub open spec fn spec_probe_args(p: Probe) -> Seq<Seq<char>> {
    match p {
        Probe::WslVersion => seq!["--version"@],
        Probe::DistroList => seq!["--list"@, "--quiet"@],
        Probe::DockerVersion => distro_prefix() + seq![
            "docker"@,
            "version"@,
            "--format"@,
            "{{.Server.Version}}"@,
        ],
        Probe::ServiceCheck => distro_prefix() + seq!["systemctl"@, "is-active"@, SERVICE_NAME@],
    }
}

/// A new inspection, before any probe has run.
pub open spec fn initial_inspection() -> Inspection {
    Inspection { probe: Probe::WslVersion, docker_ready: false }
}

/// What an inspection does with the outcome of the probe it waits for.
pub open spec fn spec_advance(st: Inspection, outcome: Outcome) -> InspectStepView {
    match st.probe {
        Probe::WslVersion => if succeeded(outcome) {
            InspectStepView::Continue(Inspection { probe: Probe::DistroList, docker_ready: false })
        } else {
            InspectStepView::Finished(wsl_unavailable_status())
        },
        Probe::DistroList => if !succeeded(outcome) {
            InspectStepView::Finished(distro_list_unreadable_status())
        } else if !lists_distro(printed(outcome)) {
            InspectStepView::Finished(distro_missing_status())
        } else {
            InspectStepView::Continue(Inspection { probe: Probe::DockerVersion, docker_ready: false })
        },
        Probe::DockerVersion => InspectStepView::Continue(
            Inspection { probe: Probe::ServiceCheck, docker_ready: succeeded(outcome) },
        ),
        Probe::ServiceCheck => InspectStepView::Finished(
            installed_status(st.docker_ready, reported_state(outcome)),
        ),
    }
}

/// An inspection fed `outcomes`, one after the other, from its start; once it has
/// reported, further outcomes change nothing.
pub open spec fn spec_run(outcomes: Seq<Outcome>) -> InspectStepView
    decreases outcomes.len(),
{
    if outcomes.len() == 0 {
        InspectStepView::Continue(initial_inspection())
    } else {
        match spec_run(outcomes.drop_last()) {
            InspectStepView::Continue(st) => spec_advance(st, outcomes.last()),
            InspectStepView::Finished(status) => InspectStepView::Finished(status),
        }
    }
}

impl Inspection {
    /// A new inspection: it starts by asking WSL for its version.
    pub fn start() -> (st: Inspection)
        ensures
            st == initial_inspection(),
    {
        Inspection { probe: Probe::WslVersion, docker_ready: false }
    }

    /// The host command of the probe this inspection waits for.
    pub fn command(&self) -> (c: CommandSpec)
        ensures
            c.program@ == WSL_PROGRAM@,
            spec_args(c) == spec_probe_args(self.probe),
    {
        match self.probe {
            Probe::WslVersion => wsl_version_command(),
            Probe::DistroList => list_distros_command(),
            Probe::DockerVersion => docker_version_command(),
            Probe::ServiceCheck => service_state_command(),
        }
    }

    /// Takes the outcome of the probe this inspection waits for.
    pub fn advance(&self, outcome: &Outcome) -> (step: InspectStep)
        ensures
            step@ == spec_advance(*self, *outcome),
    {
        match self.probe {
            Probe::WslVersion => {
                if outcome_succeeded(outcome) {
                    InspectStep::Continue(
                        Inspection { probe: Probe::DistroList, docker_ready: false },
                    )
                } else {
                    InspectStep::Finished(wsl_unavailable())
                }
            },
            Probe::DistroList => {
                match outcome {
                    Ok(output) if output.success => {
                        if distro_listed(output.stdout.as_str()) {
                            InspectStep::Continue(
                                Inspection { probe: Probe::DockerVersion, docker_ready: false },
                            )
                        } else {
                            InspectStep::Finished(distro_missing())
                        }
                    },
                    _ => InspectStep::Finished(distro_list_unreadable()),
                }
            },
            Probe::DockerVersion => InspectStep::Continue(
                Inspection {
                    probe: Probe::ServiceCheck,
                    docker_ready: outcome_succeeded(outcome),
                },
            ),
            Probe::ServiceCheck => {
                let state = match outcome {
                    Ok(output) => parse_service_state(output.stdout.as_str()),
                    Err(_) => ServiceState::Unknown,
                };
                InspectStep::Finished(installed(self.docker_ready, state))
            },
        }
    }
}

/// Whether a command ran and exited successfully.
pub fn outcome_succeeded(outcome: &Outcome) -> (b: bool)
    ensures
        b == succeeded(*outcome),
{
    match outcome {
        Ok(output) => output.success,
        Err(_) => false,
    }
}

} // verus!

verus! {

/// Once an inspection has reported, further outcomes leave the report as it is.
proof fn lemma_finished_stays(done: Seq<Outcome>, more: Seq<Outcome>)
    requires
        spec_run(done) is Finished,
    ensures
        spec_run(done + more) == spec_run(done),
    decreases more.len(),
{
    if more.len() == 0 {
        assert(done + more =~= done);
    } else {
        lemma_finished_stays(done, more.drop_last());
        assert((done + more).drop_last() =~= done + more.drop_last());
    }
}

/// Stepping an inspection through the outcomes of its probes, one at a time, reports
/// exactly the status that the four outcomes determine: the step function and the
/// whole inspection agree.
pub proof fn lemma_inspection_steps_compute_status(
    version: Outcome,
    distros: Outcome,
    docker: Outcome,
    service: Outcome,
)
    ensures
        spec_run(seq![version, distros, docker, service]) == InspectStepView::Finished(
            spec_inspect(version, distros, docker, service),
        ),
{
    let s4 = seq![version, distros, docker, service];
    let s3 = seq![version, distros, docker];
    let s2 = seq![version, distros];
    let s1 = seq![version];
    let s0 = Seq::<Outcome>::empty();
    assert(s4.drop_last() =~= s3);
    assert(s3.drop_last() =~= s2);
    assert(s2.drop_last() =~= s1);
    assert(s1.drop_last() =~= s0);
    assert(s1.last() == version && s2.last() == distros && s3.last() == docker && s4.last()
        == service);
    assert(spec_run(s0) == InspectStepView::Continue(initial_inspection()));
    assert(spec_run(s1) == spec_advance(initial_inspection(), version));
    if !succeeded(version) {
        assert(spec_run(s2) == spec_run(s1));
        assert(spec_run(s3) == spec_run(s1));
    } else {
        let st1 = Inspection { probe: Probe::DistroList, docker_ready: false };
        assert(spec_run(s2) == spec_advance(st1, distros));
        if !succeeded(distros) || !lists_distro(printed(distros)) {
            assert(spec_run(s3) == spec_run(s2));
        } else {
            let st2 = Inspection { probe: Probe::DockerVersion, docker_ready: false };
            assert(spec_run(s3) == spec_advance(st2, docker));
            let st3 = Inspection { probe: Probe::ServiceCheck, docker_ready: succeeded(docker) };
            assert(spec_run(s4) == spec_advance(st3, service));
        }
    }
}

/// One command handed to a runner, with the outcome the runner gave for it.
pub type Handed = (CommandSpec, Outcome);

/// Runs host commands. The broker hands it only the commands that this library builds.
///
/// A runner keeps its `history`: every command it was handed, with the outcome it gave,
/// oldest first. `run` adds exactly one entry, so the contracts of this library say which
/// commands it handed a runner, in which order, and that it handed no others.
pub trait CommandRunner {
    /// The commands this runner was handed so far, each with the outcome it gave.
    spec fn history(&self) -> Vec<Handed>;

    /// Runs `spec` on the host and reports how it went.
    fn run(&mut self, spec: &CommandSpec) -> (outcome: Outcome)
        ensures
            final(self).history()@ == old(self).history()@.push((*spec, outcome)),
    ;
}

/// `c` is the command of `probe`.
pub open spec fn runs_probe(c: CommandSpec, probe: Probe) -> bool {
    c.program@ == WSL_PROGRAM@ && spec_args(c) == spec_probe_args(probe)
}

/// The probe at a position in the order of an inspection.
pub open spec fn probe_at(k: int) -> Probe {
    if k == 0 {
        Probe::WslVersion
    } else if k == 1 {
        Probe::DistroList
    } else if k == 2 {
        Probe::DockerVersion
    } else {
        Probe::ServiceCheck
    }
}

/// How many probes an inspection runs for these outcomes: it stops after WSL's version when
/// WSL does not answer, after the list when the list cannot be read or lacks the
/// distribution, and runs all four otherwise.
pub open spec fn probes_reached(
    version: Outcome,
    distros: Outcome,
    docker: Outcome,
    service: Outcome,
) -> int {
    if !succeeded(version) {
        1
    } else if !succeeded(distros) || !lists_distro(printed(distros)) {
        2
    } else {
        4
    }
}

/// The probe outcome at a position in the order of an inspection.
pub open spec fn outcome_at(
    version: Outcome,
    distros: Outcome,
    docker: Outcome,
    service: Outcome,
    k: int,
) -> Outcome {
    if k == 0 {
        version
    } else if k == 1 {
        distros
    } else if k == 2 {
        docker
    } else {
        service
    }
}

/// `handed` is what an inspection hands a runner, and `status` what it reports: the probe
/// commands in order, up to the one that ends the inspection and no others, and the
/// status that the runner's outcomes for them determine.
pub open spec fn inspection_ran(handed: Seq<Handed>, status: RuntimeStatusView) -> bool {
    exists|version: Outcome, distros: Outcome, docker: Outcome, service: Outcome|
        #![trigger spec_inspect(version, distros, docker, service)]
        {
            &&& status == spec_inspect(version, distros, docker, service)
            &&& handed.len() == probes_reached(version, distros, docker, service)
            &&& forall|k: int|
                0 <= k < handed.len() ==> runs_probe(#[trigger] handed[k].0, probe_at(k))
                    && handed[k].1 == outcome_at(version, distros, docker, service, k)
        }
}

/// What was handed to a runner between two points of its history.
pub open spec fn handed_since(before: Seq<Handed>, after: Seq<Handed>) -> Seq<Handed> {
    after.skip(before.len() as int)
}

/// Inspects the runtime through `runner`: runs the probes in order, each only while the
/// ones before it allow, and reports the status that the runner's outcomes determine.
pub fn inspect_runtime_with<R: CommandRunner>(runner: &mut R) -> (status: RuntimeStatus)
    ensures
        old(runner).history()@.is_prefix_of(final(runner).history()@),
        inspection_ran(
            handed_since(old(runner).history()@, final(runner).history()@),
            status@,
        ),
{
    let ghost h0 = runner.history()@;
    let ghost mut hist = h0;
    let mut state = Inspection::start();
    let ghost mut outs: Seq<Outcome> = Seq::empty();
    loop
        invariant
            spec_run(outs) == InspectStepView::Continue(state),
            outs.len() == probe_rank(state.probe),
            state.probe == probe_at(outs.len() as int),
            h0 == old(runner).history()@,
            hist == runner.history()@,
            hist.len() == h0.len() + outs.len(),
            h0.is_prefix_of(hist),
            handed_since(h0, hist).len() == outs.len(),
            forall|k: int|
                0 <= k < outs.len() ==> runs_probe(
                    #[trigger] handed_since(h0, hist)[k].0,
                    probe_at(k),
                ) && handed_since(h0, hist)[k].1 == outs[k],
            outs.len() >= 1 ==> succeeded(outs[0]),
            outs.len() >= 2 ==> succeeded(outs[1]) && lists_distro(printed(outs[1])),
        decreases 3 - probe_rank(state.probe),
    {
        let command = state.command();
        let outcome = runner.run(&command);
        proof {
            let before = outs;
            let h1 = hist;
            outs = outs.push(outcome);
            assert(outs.drop_last() =~= before);
            hist = runner.history()@;
            assert(hist == h1.push((command, outcome)));
            assert forall|k: int| 0 <= k < h0.len() implies hist[k] == h0[k] by {
                assert(h1[k] == h0[k]);
            }
            assert(handed_since(h0, hist) =~= handed_since(h0, h1).push((command, outcome)));
            assert forall|k: int|
                0 <= k < outs.len() implies runs_probe(
                    #[trigger] handed_since(h0, hist)[k].0,
                    probe_at(k),
                ) && handed_since(h0, hist)[k].1 == outs[k] by {
                if k < before.len() {
                    assert(handed_since(h0, hist)[k] == handed_since(h0, h1)[k]);
                    assert(runs_probe(handed_since(h0, h1)[k].0, probe_at(k)));
                    assert(handed_since(h0, h1)[k].1 == before[k]);
                    assert(outs[k] == before[k]);
                } else {
                    assert(k == before.len());
                    assert(handed_since(h0, h1).len() == before.len());
                    assert(handed_since(h0, hist)[k] == (command, outcome));
                    assert(outs[k] == outcome);
                    assert(probe_at(k) == state.probe);
                    assert(runs_probe(command, state.probe));
                }
            }
        }
        match state.advance(&outcome) {
            InspectStep::Continue(next) => {
                state = next;
            },
            InspectStep::Finished(status) => {
                proof {
                    let n = outs.len();
                    let pad = Seq::new((4 - n) as nat, |k: int| outcome);
                    let p = outs + pad;
                    lemma_finished_stays(outs, pad);
                    assert(p =~= seq![p[0], p[1], p[2], p[3]]);
                    lemma_inspection_steps_compute_status(p[0], p[1], p[2], p[3]);
                    assert(status@ == spec_inspect(p[0], p[1], p[2], p[3]));
                    let handed = handed_since(h0, hist);
                    assert(handed.len() == n);
                    assert(n == probes_reached(p[0], p[1], p[2], p[3]));
                    assert forall|k: int| 0 <= k < handed.len() implies runs_probe(
                        #[trigger] handed[k].0,
                        probe_at(k),
                    ) && handed[k].1 == outcome_at(p[0], p[1], p[2], p[3], k) by {
                        assert(runs_probe(handed_since(h0, hist)[k].0, probe_at(k)));
                        assert(handed_since(h0, hist)[k].1 == outs[k]);
                        assert(p[k] == outs[k]);
                        assert(outcome_at(p[0], p[1], p[2], p[3], k) == p[k]);
                    }
                    assert(inspection_ran(handed, status@));
                }
                return status;
            },
        }
    }
}

} // verus!

verus! {

/// `needle` occurs in `text`, up to ASCII case.
pub open spec fn contains_ignoring_case(text: Seq<char>, needle: Seq<char>) -> bool {
    exists|i: int|
        0 <= i && i + needle.len() <= text.len() && #[trigger] eq_ignore_ascii_case(
            text.subrange(i, i + needle.len()),
            needle,
        )
}

/// An argument that would bring a shell onto the host.
pub open spec fn opens_a_shell(arg: Seq<char>) -> bool {
    ||| contains_ignoring_case(arg, "powershell"@)
    ||| contains_ignoring_case(arg, "cmd.exe"@)
    ||| eq_ignore_ascii_case(arg, "sh"@)
    ||| eq_ignore_ascii_case(arg, "bash"@)
    ||| eq_ignore_ascii_case(arg, "-c"@)
}

/// A host command that runs `wsl.exe` with no argument that opens a shell.
pub open spec fn plain_host_command(program: Seq<char>, args: Seq<Seq<char>>) -> bool {
    &&& program == "wsl.exe"@
    &&& forall|k: int| 0 <= k < args.len() ==> !opens_a_shell(#[trigger] args[k])
}

proof fn lemma_missing_char(text: Seq<char>, needle: Seq<char>, j: int)
    requires
        0 <= j < needle.len(),
        forall|k: int| 0 <= k < text.len() ==> ascii_fold(#[trigger] text[k]) != ascii_fold(needle[j]),
    ensures
        !contains_ignoring_case(text, needle),
{
    if contains_ignoring_case(text, needle) {
        let i = choose|i: int|
            0 <= i && i + needle.len() <= text.len() && #[trigger] eq_ignore_ascii_case(
                text.subrange(i, i + needle.len()),
                needle,
            );
        assert(text.subrange(i, i + needle.len())[j] == text[i + j]);
        assert(false);
    }
}

proof fn lemma_plain_arg(arg: Seq<char>)
    requires
        forall|k: int| 0 <= k < arg.len() ==> ascii_fold(#[trigger] arg[k]) != 'w' as int,
        arg.len() < 7 || forall|k: int| 0 <= k < arg.len() ==> ascii_fold(#[trigger] arg[k])
            != 'x' as int,
        arg.len() == 2 ==> ascii_fold(arg[0]) != 's' as int && ascii_fold(arg[1]) != 'c' as int,
        arg.len() == 4 ==> ascii_fold(arg[0]) != 'b' as int,
    ensures
        !opens_a_shell(arg),
{
    reveal_strlit("powershell");
    reveal_strlit("cmd.exe");
    reveal_strlit("sh");
    reveal_strlit("bash");
    reveal_strlit("-c");
    lemma_missing_char(arg, "powershell"@, 2);
    if arg.len() >= 7 {
        lemma_missing_char(arg, "cmd.exe"@, 5);
    }
}

/// Every command the broker can run on the host is `wsl.exe` with arguments that never
/// open a shell: neither PowerShell nor `cmd.exe`, `sh`, `bash` or `-c`, in any ASCII case.
pub proof fn lemma_host_commands_are_plain(probe: Probe, action: ServiceAction)
    ensures
        plain_host_command(WSL_PROGRAM@, spec_probe_args(probe)),
        plain_host_command(WSL_PROGRAM@, spec_action_args(action)),
{
    reveal_strlit("wsl.exe");
    reveal_strlit("-d");
    reveal_strlit("RHODIZ-Arnes");
    reveal_strlit("-u");
    reveal_strlit("root");
    reveal_strlit("--exec");
    reveal_strlit("--version");
    reveal_strlit("--list");
    reveal_strlit("--quiet");
    reveal_strlit("docker");
    reveal_strlit("version");
    reveal_strlit("--format");
    reveal_strlit("{{.Server.Version}}");
    reveal_strlit("systemctl");
    reveal_strlit("is-active");
    reveal_strlit("rhodiz-arnes.service");
    reveal_strlit("start");
    reveal_strlit("stop");
    lemma_plain_arg("-d"@);
    lemma_plain_arg("RHODIZ-Arnes"@);
    lemma_plain_arg("-u"@);
    lemma_plain_arg("root"@);
    lemma_plain_arg("--exec"@);
    lemma_plain_arg("--version"@);
    lemma_plain_arg("--list"@);
    lemma_plain_arg("--quiet"@);
    lemma_plain_arg("docker"@);
    lemma_plain_arg("version"@);
    lemma_plain_arg("--format"@);
    lemma_plain_arg("{{.Server.Version}}"@);
    lemma_plain_arg("systemctl"@);
    lemma_plain_arg("is-active"@);
    lemma_plain_arg("rhodiz-arnes.service"@);
    lemma_plain_arg("start"@);
    lemma_plain_arg("stop"@);
    assert(WSL_PROGRAM@ == "wsl.exe"@);
    assert(DISTRO_NAME@ == "RHODIZ-Arnes"@);
    assert(SERVICE_NAME@ == "rhodiz-arnes.service"@);
    let args = spec_probe_args(probe);
    assert forall|k: int| 0 <= k < args.len() implies !opens_a_shell(#[trigger] args[k]) by {
    }
    let args = spec_action_args(action);
    assert forall|k: int| 0 <= k < args.len() implies !opens_a_shell(#[trigger] args[k]) by {
    }
}

} // verus!

verus! {

/// Whatever the probes report, the inspection's status is consistent.
pub proof fn lemma_inspection_status_consistent(
    version: Outcome,
    distros: Outcome,
    docker: Outcome,
    service: Outcome,
)
    ensures
        status_consistent(spec_inspect(version, distros, docker, service)),
{
}

/// An inspection fails closed: when WSL does not answer, nothing is reported available,
/// whatever any later probe would have said.
pub proof fn lemma_inspection_fails_closed(
    version: Outcome,
    distros: Outcome,
    docker: Outcome,
    service: Outcome,
)
    requires
        !succeeded(version),
    ensures
        spec_inspect(version, distros, docker, service) == wsl_unavailable_status(),
        !spec_inspect(version, distros, docker, service).wsl_available,
        !spec_inspect(version, distros, docker, service).distro_installed,
        !spec_inspect(version, distros, docker, service).docker_ready,
        spec_inspect(version, distros, docker, service).service_state
            == ServiceState::NotInstalled,
{
}

/// The runtime is reported ready (no detail) exactly when every check passed: WSL answered,
/// its list names the distribution, Docker answered and the service is active.
pub proof fn lemma_ready_needs_every_check(
    version: Outcome,
    distros: Outcome,
    docker: Outcome,
    service: Outcome,
)
    ensures
        spec_inspect(version, distros, docker, service).detail is None <==> {
            &&& succeeded(version)
            &&& succeeded(distros)
            &&& lists_distro(printed(distros))
            &&& succeeded(docker)
            &&& reported_state(service) == ServiceState::Active
        },
{
}

} // verus!

verus! {

/// A text with no line break, that names the distribution, is a listing that holds it.
pub proof fn lemma_single_line_listed(line: Seq<char>)
    requires
        line.len() > 0,
        forall|k: int| 0 <= k < line.len() ==> line[k] != '\n',
        names_distro(line),
    ensures
        lists_distro(line),
{
    assert(is_line(line, 0, line.len() as int));
    assert(line.subrange(0, line.len() as int) =~= line);
}

/// Lines added after a listing that holds the distribution leave it held: the
/// distribution may stand on any line, not only the last.
pub proof fn lemma_listed_before_more_lines(listing: Seq<char>, more: Seq<char>)
    requires
        lists_distro(listing),
    ensures
        lists_distro(listing + seq!['\n'] + more),
{
    let (i, j) = choose|i: int, j: int|
        is_line(listing, i, j) && names_distro(listing.subrange(i, j));
    let u = listing + seq!['\n'] + more;
    assert forall|k: int| 0 <= k < listing.len() implies u[k] == listing[k] by {}
    assert(u[listing.len() as int] == '\n');
    assert(is_line(u, i, j));
    assert(u.subrange(i, j) =~= listing.subrange(i, j));
}

/// Lines added before a listing that holds the distribution leave it held: the
/// distribution may stand on any line, not only the first.
pub proof fn lemma_listed_after_more_lines(more: Seq<char>, listing: Seq<char>)
    requires
        lists_distro(listing),
    ensures
        lists_distro(more + seq!['\n'] + listing),
{
    let (i, j) = choose|i: int, j: int|
        is_line(listing, i, j) && names_distro(listing.subrange(i, j));
    let off = more.len() + 1;
    let u = more + seq!['\n'] + listing;
    assert forall|k: int| 0 <= k < listing.len() implies u[off + k] == listing[k] by {}
    assert(u[off - 1] == '\n');
    assert(is_line(u, off + i, off + j));
    assert(u.subrange(off + i, off + j) =~= listing.subrange(i, j));
}

/// A listing whose lines are `before`, a line that names the distribution, and `after`
/// holds the distribution, wherever that line stands.
pub proof fn lemma_listed_line_anywhere(before: Seq<char>, line: Seq<char>, after: Seq<char>)
    requires
        line.len() > 0,
        forall|k: int| 0 <= k < line.len() ==> line[k] != '\n',
        names_distro(line),
    ensures
        lists_distro(before + seq!['\n'] + line + seq!['\n'] + after),
        lists_distro(line + seq!['\n'] + after),
        lists_distro(before + seq!['\n'] + line),
{
    lemma_single_line_listed(line);
    lemma_listed_before_more_lines(line, after);
    lemma_listed_after_more_lines(before, line);
    lemma_listed_after_more_lines(before, line + seq!['\n'] + after);
    assert(before + seq!['\n'] + (line + seq!['\n'] + after) =~= before + seq!['\n'] + line
        + seq!['\n'] + after);
}

/// For an installed distribution the service state reported is the one that the service
/// probe printed, whatever its exit code, and `Unknown` only when the probe itself failed;
/// what Docker answered changes neither it nor whether the distribution is reported.
pub proof fn lemma_installed_state_is_service_probe(
    version: Outcome,
    distros: Outcome,
    docker: Outcome,
    other_docker: Outcome,
    service: Outcome,
)
    requires
        succeeded(version),
        succeeded(distros),
        lists_distro(printed(distros)),
    ensures
        spec_inspect(version, distros, docker, service).platform_supported,
        spec_inspect(version, distros, docker, service).wsl_available,
        spec_inspect(version, distros, docker, service).distro_installed,
        spec_inspect(version, distros, docker, service).docker_ready == succeeded(docker),
        match service {
            Ok(output) => spec_inspect(version, distros, docker, service).service_state
                == spec_parse_service_state(output.stdout@),
            Err(_) => spec_inspect(version, distros, docker, service).service_state
                == ServiceState::Unknown,
        },
        spec_inspect(version, distros, docker, service).service_state == spec_inspect(
            version,
            distros,
            other_docker,
            service,
        ).service_state,
{
}

} // verus!
