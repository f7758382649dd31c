use vstd::prelude::*;

verus! {

/// The WSL2 distribution that holds the runtime.
pub const DISTRO_NAME: &'static str = "RHODIZ-Arnes";

/// The systemd unit of the runtime inside the distribution.
pub const SERVICE_NAME: &'static str = "rhodiz-arnes.service";

/// The one program the broker ever starts on the host.
pub const WSL_PROGRAM: &'static str = "wsl.exe";

/// A host command: a fixed program and its arguments, never a shell line.
#[derive(Debug, Clone, PartialEq, Eq)]
pub struct CommandSpec {
    pub program: &'static str,
    pub args: Vec<String>,
}

/// The arguments of a command, as text.
pub open spec fn spec_args(c: CommandSpec) -> Seq<Seq<char>> {
    c.args@.map_values(|a: String| a@)
}

/// A sequence of string slices, as text.
pub open spec fn strs_view(v: Seq<&str>) -> Seq<Seq<char>> {
    v.map_values(|a: &str| a@)
}

/// What a finished host command produced.
#[derive(Debug, Clone, PartialEq, Eq)]
pub struct CommandOutput {
    pub success: bool,
    pub stdout: String,
    pub stderr: String,
}

/// A lifecycle operation on the runtime service.
#[derive(Debug, Clone, Copy, PartialEq, Eq)]
pub enum ServiceAction {
    Start,
    Stop,
}

pub open spec fn spec_operation_name(action: ServiceAction) -> Seq<char> {
    match action {
        ServiceAction::Start => "start RHODIZ-Arnes"@,
        ServiceAction::Stop => "stop RHODIZ-Arnes"@,
    }
}

pub open spec fn spec_systemctl_verb(action: ServiceAction) -> Seq<char> {
    match action {
        ServiceAction::Start => "start"@,
        ServiceAction::Stop => "stop"@,
    }
}

impl ServiceAction {
    /// The operation named in the error when the action fails.
    pub fn operation_name(self) -> (name: &'static str)
        ensures
            name@ == spec_operation_name(self),
    {
        match self {
            ServiceAction::Start => "start RHODIZ-Arnes",
            ServiceAction::Stop => "stop RHODIZ-Arnes",
        }
    }

    /// The `systemctl` verb that carries out the action.
    pub fn systemctl_verb(self) -> (verb: &'static str)
        ensures
            verb@ == spec_systemctl_verb(self),
    {
        match self {
            ServiceAction::Start => "start",
            ServiceAction::Stop => "stop",
        }
    }
}

/// The arguments that run a command as root inside the distribution.
pub open spec fn distro_prefix() -> Seq<Seq<char>> {
    seq!["-d"@, DISTRO_NAME@, "-u"@, "root"@, "--exec"@]
}

/// Appends owned copies of `items` to `out`.
fn push_all(out: &mut Vec<String>, items: &Vec<&str>)
    ensures
        final(out)@.map_values(|a: String| a@) == old(out)@.map_values(|a: String| a@)
            + strs_view(items@),
{
    let ghost start = out@.map_values(|a: String| a@);
    let mut i: usize = 0;
    while i < items.len()
        invariant
            0 <= i <= items.len(),
            out@.map_values(|a: String| a@) == start + strs_view(items@.take(i as int)),
        decreases items.len() - i,
    {
        let ghost before = out@;
        out.push(String::from_str(items[i]));
        proof {
            assert(out@ == before.push(out@.last()));
            assert(items@.take(i + 1) == items@.take(i as int).push(items@[i as int]));
            assert(out@.map_values(|a: String| a@) =~= before.map_values(|a: String| a@).push(
                items@[i as int]@,
            ));
            assert(strs_view(items@.take(i + 1)) =~= strs_view(items@.take(i as int)).push(
                items@[i as int]@,
            ));
        }
        i = i + 1;
    }
    assert(items@.take(items.len() as int) =~= items@);
}

/// A command that runs `wsl.exe` itself with `args`.
pub fn wsl_command(args: &Vec<&str>) -> (c: CommandSpec)
    ensures
        c.program@ == WSL_PROGRAM@,
        spec_args(c) == strs_view(args@),
{
    let mut out: Vec<String> = Vec::new();
    push_all(&mut out, args);
    assert(out@.map_values(|a: String| a@) =~= strs_view(args@));
    CommandSpec { program: WSL_PROGRAM, args: out }
}

/// A command that runs `command` as root inside the distribution.
pub fn distro_command(command: &Vec<&str>) -> (c: CommandSpec)
    ensures
        c.program@ == WSL_PROGRAM@,
        spec_args(c) == distro_prefix() + strs_view(command@),
{
    let prefix: Vec<&str> = vec!["-d", DISTRO_NAME, "-u", "root", "--exec"];
    let mut out: Vec<String> = Vec::new();
    push_all(&mut out, &prefix);
    push_all(&mut out, command);
    assert(strs_view(prefix@) =~= distro_prefix());
    assert(out@.map_values(|a: String| a@) =~= distro_prefix() + strs_view(command@));
    CommandSpec { program: WSL_PROGRAM, args: out }
}

} // verus!

verus! {

/// Asks WSL for its version: whether it is there and healthy.
pub fn wsl_version_command() -> (c: CommandSpec)
    ensures
        c.program@ == WSL_PROGRAM@,
        spec_args(c) == seq!["--version"@],
{
    let args: Vec<&str> = vec!["--version"];
    let c = wsl_command(&args);
    assert(strs_view(args@) =~= seq!["--version"@]);
    c
}

/// Lists the names of the installed distributions, one per line.
pub fn list_distros_command() -> (c: CommandSpec)
    ensures
        c.program@ == WSL_PROGRAM@,
        spec_args(c) == seq!["--list"@, "--quiet"@],
{
    let args: Vec<&str> = vec!["--list", "--quiet"];
    let c = wsl_command(&args);
    assert(strs_view(args@) =~= seq!["--list"@, "--quiet"@]);
    c
}

/// Asks the Docker engine inside the distribution for its server version.
pub fn docker_version_command() -> (c: CommandSpec)
    ensures
        c.program@ == WSL_PROGRAM@,
        spec_args(c) == distro_prefix() + seq![
            "docker"@,
            "version"@,
            "--format"@,
            "{{.Server.Version}}"@,
        ],
{
    let command: Vec<&str> = vec!["docker", "version", "--format", "{{.Server.Version}}"];
    let c = distro_command(&command);
    assert(strs_view(command@) =~= seq![
        "docker"@,
        "version"@,
        "--format"@,
        "{{.Server.Version}}"@,
    ]);
    c
}

/// Asks systemd whether the runtime service is active.
pub fn service_state_command() -> (c: CommandSpec)
    ensures
        c.program@ == WSL_PROGRAM@,
        spec_args(c) == distro_prefix() + seq!["systemctl"@, "is-active"@, SERVICE_NAME@],
{
    let command: Vec<&str> = vec!["systemctl", "is-active", SERVICE_NAME];
    let c = distro_command(&command);
    assert(strs_view(command@) =~= seq!["systemctl"@, "is-active"@, SERVICE_NAME@]);
    c
}

/// The arguments of `wsl.exe` that carry out a lifecycle action.
pub open spec fn spec_action_args(action: ServiceAction) -> Seq<Seq<char>> {
    distro_prefix() + seq!["systemctl"@, spec_systemctl_verb(action), SERVICE_NAME@]
}

/// Starts or stops the runtime service, and nothing else.
pub fn service_action_command(action: ServiceAction) -> (c: CommandSpec)
    ensures
        c.program@ == WSL_PROGRAM@,
        spec_args(c) == spec_action_args(action),
{
    let command: Vec<&str> = vec!["systemctl", action.systemctl_verb(), SERVICE_NAME];
    let c = distro_command(&command);
    assert(strs_view(command@) =~= seq![
        "systemctl"@,
        spec_systemctl_verb(action),
        SERVICE_NAME@,
    ]);
    c
}

} // verus!

