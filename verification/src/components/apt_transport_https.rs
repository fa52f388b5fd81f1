//! The HTTPS transport for `apt`.

use vstd::prelude::*;
use crate::command::{DCommand, DCommandView};
use crate::component::{all_declared, declaration, declared, DependencyInfo, DependencyInstallable};
use crate::components::package_cache_refresh::PackageCacheRefresh;
use crate::dependency::{declarations, Dependency, DependencyView};
use crate::status::{DependencyError, InstallationStatus};
use crate::steps::{
    apt_install, apt_install_command, commands_of, install_step, install_with, noted,
    probe_with, probed, status_of, step_of, which, which_command, whole_check, Next, Reply,
};
use crate::system::{OperatingSystem, SystemData};

verus! {

/// The HTTPS transport for `apt`, and whether the last check found it.
#[derive(Debug, Clone, Copy)]
pub struct AptTransportHttps {
    pub apt_transport_https_available: bool,
}

impl Default for AptTransportHttps {
    fn default() -> (component: Self)
        ensures
            !component.apt_transport_https_available,
    {
        AptTransportHttps { apt_transport_https_available: false }
    }
}

impl AptTransportHttps {
    /// The component as it is before anything was checked: the same value
    /// at every call.
    pub fn singleton() -> (component: &'static Self)
        ensures
            !component.apt_transport_https_available,
    {
        &AptTransportHttps { apt_transport_https_available: false }
    }

    /// What the component declares on an operating system.
    pub open spec fn declared_on(os: OperatingSystem) -> Option<DependencyView> {
        declared(&AptTransportHttps { apt_transport_https_available: false }, os)
    }

    /// The command that the check runs.
    pub open spec fn probe() -> DCommandView {
        which("apt-transport-https"@)
    }

    /// The commands that install the component on an operating system.
    pub open spec fn install_commands(os: OperatingSystem) -> Option<Seq<DCommandView>> {
        if os is Ubuntu1804 || os is Ubuntu2004 || os is Ubuntu2204 {
            Some(seq![apt_install("apt-transport-https"@)])
        } else {
            None
        }
    }
}

impl DependencyInfo for AptTransportHttps {
    open spec fn spec_name(&self) -> Seq<char> {
        "apt-transport-https"@
    }

    open spec fn spec_prerequisites(&self, os: OperatingSystem) -> Option<Seq<DependencyView>> {
        all_declared(
            seq![PackageCacheRefresh::declared_on(os)],
        )
    }

    fn name(&self) -> (name: &'static str) {
        "apt-transport-https"
    }

    fn prerequisites(&self, os: OperatingSystem) -> (r: Result<Vec<Dependency>, DependencyError>) {
        let mut list: Vec<Dependency> = Vec::new();
        list.push(declaration(PackageCacheRefresh::singleton(), os)?);
        assert(declarations(list@) =~= all_declared(
            seq![PackageCacheRefresh::declared_on(os)],
        )->0);
        Ok(list)
    }
}

impl DependencyInstallable for AptTransportHttps {
    /// Looks for `apt-transport-https` on the search path; `probed` says what counts as found.
    fn is_installed(&mut self, system: &SystemData, replies: &[Reply]) -> (r: Result<
        Next<InstallationStatus>,
        DependencyError,
    >)
        ensures
            step_of(r) == whole_check(probed(AptTransportHttps::probe(), replies@)),
            final(self).apt_transport_https_available == noted(
                probed(AptTransportHttps::probe(), replies@),
                old(self).apt_transport_https_available,
            ),
    {
        let probe = which_command("apt-transport-https");
        match probe_with(probe, replies)? {
            Next::Ask(request) => Ok(Next::Ask(request)),
            Next::Done(available) => {
                self.apt_transport_https_available = available;
                Ok(Next::Done(status_of(available)))
            },
        }
    }

    /// Installs the package `apt-transport-https`, unless the last check found it.
    fn install(&mut self, system: &SystemData, replies: &[Reply]) -> (r: Result<
        Next<()>,
        DependencyError,
    >)
        ensures
            step_of(r) == install_step(
                old(self).apt_transport_https_available,
                AptTransportHttps::install_commands(system.operating_system),
                replies@,
            ),
            final(self).apt_transport_https_available == (old(self).apt_transport_https_available
                || step_of(r) is Done),
    {
        let os = system.operating_system;
        let commands = if os.is_ubuntu() {
            let mut list: Vec<DCommand> = Vec::new();
            let command = apt_install_command("apt-transport-https");
            list.push(command);
            assert(commands_of(list@) =~= seq![apt_install("apt-transport-https"@)]);
            Some(list)
        } else {
            None
        };
        let step = install_with(self.apt_transport_https_available, commands, replies)?;
        if let Next::Done(()) = step {
            self.apt_transport_https_available = true;
        }
        Ok(step)
    }
}

} // verus!
