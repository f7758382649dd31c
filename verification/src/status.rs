use vstd::prelude::*;
use crate::text::{
    chars_of, trim_range, range_equals, trimmed, is_white_space, lemma_trimmed_idempotent,
    lemma_trimmed_ignores_padding,
};

verus! {

/// The state of the runtime service as systemd reports it.
#[derive(Debug, Clone, Copy, PartialEq, Eq, Structural)]
pub enum ServiceState {
    Active,
    Inactive,
    Failed,
    Unknown,
    NotInstalled,
}

/// What the broker found out about the runtime on this host.
#[derive(Debug, Clone, PartialEq, Eq)]
pub struct RuntimeStatus {
    pub platform_supported: bool,
    pub wsl_available: bool,
    pub distro_installed: bool,
    pub docker_ready: bool,
    pub service_state: ServiceState,
    pub detail: Option<String>,
}

/// A runtime status with its detail as text.
pub struct RuntimeStatusView {
    pub platform_supported: bool,
    pub wsl_available: bool,
    pub distro_installed: bool,
    pub docker_ready: bool,
    pub service_state: ServiceState,
    pub detail: Option<Seq<char>>,
}

impl View for RuntimeStatus {
    type V = RuntimeStatusView;

    open spec fn view(&self) -> RuntimeStatusView {
        RuntimeStatusView {
            platform_supported: self.platform_supported,
            wsl_available: self.wsl_available,
            distro_installed: self.distro_installed,
            docker_ready: self.docker_ready,
            service_state: self.service_state,
            detail: match self.detail {
                Some(d) => Some(d@),
                None => None,
            },
        }
    }
}

/// The status on a host that is not Windows.
pub open spec fn unsupported_platform_status() -> RuntimeStatusView {
    RuntimeStatusView {
        platform_supported: false,
        wsl_available: false,
        distro_installed: false,
        docker_ready: false,
        service_state: ServiceState::Unknown,
        detail: Some("Windows 11 with WSL2 is required."@),
    }
}

/// The status when `wsl.exe --version` fails.
pub open spec fn wsl_unavailable_status() -> RuntimeStatusView {
    RuntimeStatusView {
        platform_supported: true,
        wsl_available: false,
        distro_installed: false,
        docker_ready: false,
        service_state: ServiceState::NotInstalled,
        detail: Some("WSL is unavailable or unhealthy."@),
    }
}

/// The status when WSL answers but its distribution list cannot be read.
pub open spec fn distro_list_unreadable_status() -> RuntimeStatusView {
    RuntimeStatusView {
        platform_supported: true,
        wsl_available: true,
        distro_installed: false,
        docker_ready: false,
        service_state: ServiceState::NotInstalled,
        detail: Some("WSL is present but its distribution list could not be read."@),
    }
}

/// The status when the runtime's distribution is not in the list.
pub open spec fn distro_missing_status() -> RuntimeStatusView {
    RuntimeStatusView {
        platform_supported: true,
        wsl_available: true,
        distro_installed: false,
        docker_ready: false,
        service_state: ServiceState::NotInstalled,
        detail: Some("The RHODIZ-Arnes WSL2 distribution is not installed."@),
    }
}

/// The detail of an installed runtime: none exactly when it is ready.
pub open spec fn installed_detail(docker_ready: bool, service_state: ServiceState) -> Option<
    Seq<char>,
> {
    if docker_ready && service_state == ServiceState::Active {
        None
    } else if !docker_ready {
        Some("RHODIZ-Arnes is installed but Docker Engine is not ready."@)
    } else {
        Some("Docker is ready but the ChatGPT Arnes service is not active."@)
    }
}

/// The status when the distribution is installed.
pub open spec fn installed_status(docker_ready: bool, service_state: ServiceState) -> RuntimeStatusView {
    RuntimeStatusView {
        platform_supported: true,
        wsl_available: true,
        distro_installed: true,
        docker_ready,
        service_state,
        detail: installed_detail(docker_ready, service_state),
    }
}

/// The status reported on a host that is not Windows.
pub fn unsupported_platform() -> (s: RuntimeStatus)
    ensures
        s@ == unsupported_platform_status(),
{
    RuntimeStatus {
        platform_supported: false,
        wsl_available: false,
        distro_installed: false,
        docker_ready: false,
        service_state: ServiceState::Unknown,
        detail: Some(String::from_str("Windows 11 with WSL2 is required.")),
    }
}

/// The status reported when WSL does not answer.
pub fn wsl_unavailable() -> (s: RuntimeStatus)
    ensures
        s@ == wsl_unavailable_status(),
{
    RuntimeStatus {
        platform_supported: true,
        wsl_available: false,
        distro_installed: false,
        docker_ready: false,
        service_state: ServiceState::NotInstalled,
        detail: Some(String::from_str("WSL is unavailable or unhealthy.")),
    }
}

/// The status reported when the distribution list cannot be read.
pub fn distro_list_unreadable() -> (s: RuntimeStatus)
    ensures
        s@ == distro_list_unreadable_status(),
{
    RuntimeStatus {
        platform_supported: true,
        wsl_available: true,
        distro_installed: false,
        docker_ready: false,
        service_state: ServiceState::NotInstalled,
        detail: Some(
            String::from_str("WSL is present but its distribution list could not be read."),
        ),
    }
}

/// The status reported when the distribution is missing.
pub fn distro_missing() -> (s: RuntimeStatus)
    ensures
        s@ == distro_missing_status(),
{
    RuntimeStatus {
        platform_supported: true,
        wsl_available: true,
        distro_installed: false,
        docker_ready: false,
        service_state: ServiceState::NotInstalled,
        detail: Some(String::from_str("The RHODIZ-Arnes WSL2 distribution is not installed.")),
    }
}

/// The status reported for an installed distribution.
pub fn installed(docker_ready: bool, service_state: ServiceState) -> (s: RuntimeStatus)
    ensures
        s@ == installed_status(docker_ready, service_state),
{
    let detail = if docker_ready && service_state == ServiceState::Active {
        None
    } else if !docker_ready {
        Some(String::from_str("RHODIZ-Arnes is installed but Docker Engine is not ready."))
    } else {
        Some(String::from_str("Docker is ready but the ChatGPT Arnes service is not active."))
    };
    RuntimeStatus {
        platform_supported: true,
        wsl_available: true,
        distro_installed: true,
        docker_ready,
        service_state,
        detail,
    }
}

/// The service state that `systemctl is-active` printed: the known words, after trimming,
/// and `Unknown` for anything else.
pub open spec fn spec_parse_service_state(output: Seq<char>) -> ServiceState {
    let word = trimmed(output);
    if word == "active"@ {
        ServiceState::Active
    } else if word == "inactive"@ || word == "activating"@ || word == "deactivating"@ {
        ServiceState::Inactive
    } else if word == "failed"@ {
        ServiceState::Failed
    } else {
        ServiceState::Unknown
    }
}

/// Reads the output of `systemctl is-active` as a service state.
pub fn parse_service_state(output: &str) -> (state: ServiceState)
    ensures
        state == spec_parse_service_state(output@),
{
    let chars = chars_of(output);
    let (a, b) = trim_range(&chars, 0, chars.len());
    assert(chars@.subrange(0, chars@.len() as int) =~= output@);
    if range_equals(&chars, a, b, &chars_of("active")) {
        ServiceState::Active
    } else if range_equals(&chars, a, b, &chars_of("inactive")) || range_equals(
        &chars,
        a,
        b,
        &chars_of("activating"),
    ) || range_equals(&chars, a, b, &chars_of("deactivating")) {
        ServiceState::Inactive
    } else if range_equals(&chars, a, b, &chars_of("failed")) {
        ServiceState::Failed
    } else {
        ServiceState::Unknown
    }
}

} // verus!

verus! {

/// A status that claims nothing it has not established: each layer is reported only above
/// the one below it, a runtime without its distribution has no service, and there is a
/// detail exactly when the runtime is not ready.
pub open spec fn status_consistent(s: RuntimeStatusView) -> bool {
    &&& s.wsl_available ==> s.platform_supported
    &&& s.distro_installed ==> s.wsl_available
    &&& s.docker_ready ==> s.distro_installed
    &&& s.platform_supported && !s.distro_installed ==> s.service_state
        == ServiceState::NotInstalled
    &&& (s.detail is None <==> (s.docker_ready && s.service_state == ServiceState::Active))
}

/// The status of a host that is not Windows is consistent.
pub proof fn lemma_unsupported_status_consistent()
    ensures
        status_consistent(unsupported_platform_status()),
{
}

} // verus!

verus! {

/// The service state read from an output does not change when the output is trimmed first,
/// nor when white space is added at either end of it.
pub proof fn lemma_parse_ignores_surrounding_white_space(
    pre: Seq<char>,
    output: Seq<char>,
    post: Seq<char>,
)
    requires
        forall|k: int| 0 <= k < pre.len() ==> is_white_space(#[trigger] pre[k]),
        forall|k: int| 0 <= k < post.len() ==> is_white_space(#[trigger] post[k]),
    ensures
        spec_parse_service_state(trimmed(output)) == spec_parse_service_state(output),
        spec_parse_service_state(pre + output + post) == spec_parse_service_state(output),
{
    lemma_trimmed_idempotent(output);
    lemma_trimmed_ignores_padding(pre, output, post);
}

} // verus!

verus! {

/// An installed runtime is reported with the service state it is given, whether or not
/// Docker is ready.
pub proof fn lemma_installed_keeps_service_state(docker_ready: bool, service_state: ServiceState)
    ensures
        installed_status(docker_ready, service_state).service_state == service_state,
        installed_status(docker_ready, service_state).docker_ready == docker_ready,
        installed_status(docker_ready, service_state).distro_installed,
{
}

} // verus!
