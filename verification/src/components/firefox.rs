//! Firefox.

use vstd::prelude::*;
use crate::command::{DCommand, DCommandView};
use crate::component::{all_declared, declaration, declared, DependencyInfo, DependencyInstallable};
use crate::components::package_cache_refresh::PackageCacheRefresh;
use crate::dependency::{declarations, Dependency, DependencyView};
use crate::status::{DependencyError, InstallationStatus};
use crate::steps::{
    apt_install, apt_install_command, commands_of, dnf_install, dnf_install_command,
    install_step, install_with, noted, probe_with, probed, status_of, step_of, which,
    which_command, whole_check, Next, Reply,
};
use crate::system::{OperatingSystem, SystemData};

verus! {

/// Firefox, and whether the last check found it.
#[derive(Debug, Clone, Copy)]
pub struct Firefox {
    pub firefox_available: bool,
}

impl Default for Firefox {
    fn default() -> (component: Self)
        ensures
            !component.firefox_available,
    {
        Firefox { firefox_available: false }
    }
}

impl Firefox {
    /// The component as it is before anything was checked: the same value
    /// at every call.
    pub fn singleton() -> (component: &'static Self)
        ensures
            !component.firefox_available,
    {
        &Firefox { firefox_available: false }
    }

    /// What the component declares on an operating system.
    pub open spec fn declared_on(os: OperatingSystem) -> Option<DependencyView> {
        declared(&Firefox { firefox_available: false }, os)
    }

    /// The command that the check runs.
    pub open spec fn probe() -> DCommandView {
        which("firefox"@)
    }

    /// The commands that install the component on an operating system.
    pub open spec fn install_commands(os: OperatingSystem) -> Option<Seq<DCommandView>> {
        if os is Ubuntu1804 || os is Ubuntu2004 || os is Ubuntu2204 || os is PopOS2104 {
            Some(seq![apt_install("firefox"@)])
        } else if os is Fedora38 || os is Rocky8 || os is Rocky9 {
            Some(seq![dnf_install("firefox"@)])
        } else {
            None
        }
    }
}

impl DependencyInfo for Firefox {
    open spec fn spec_name(&self) -> Seq<char> {
        "firefox"@
    }

    open spec fn spec_prerequisites(&self, os: OperatingSystem) -> Option<Seq<DependencyView>> {
        all_declared(
            seq![PackageCacheRefresh::declared_on(os)],
        )
    }

    fn name(&self) -> (name: &'static str) {
        "firefox"
    }

    fn prerequisites(&self, os: OperatingSystem) -> (r: Result<Vec<Dependency>, DependencyError>) {
        let mut list: Vec<Dependency> = Vec::new();
        list.push(declaration(PackageCacheRefresh::singleton(), os)?);
        assert(declarations(list@) =~= all_declared(
            seq![PackageCacheRefresh::declared_on(os)],
        )->0);
        Ok(list)
    }
}

impl DependencyInstallable for Firefox {
    /// Looks for `firefox` on the search path; `probed` says what counts as found.
    fn is_installed(&mut self, system: &SystemData, replies: &[Reply]) -> (r: Result<
        Next<InstallationStatus>,
        DependencyError,
    >)
        ensures
            step_of(r) == whole_check(probed(Firefox::probe(), replies@)),
            final(self).firefox_available == noted(
                probed(Firefox::probe(), replies@),
                old(self).firefox_available,
            ),
    {
        let probe = which_command("firefox");
        match probe_with(probe, replies)? {
            Next::Ask(request) => Ok(Next::Ask(request)),
            Next::Done(available) => {
                self.firefox_available = available;
                Ok(Next::Done(status_of(available)))
            },
        }
    }

    /// Installs the package `firefox` with the system's package manager, unless
    /// the last check found it.
    fn install(&mut self, system: &SystemData, replies: &[Reply]) -> (r: Result<
        Next<()>,
        DependencyError,
    >)
        ensures
            step_of(r) == install_step(
                old(self).firefox_available,
                Firefox::install_commands(system.operating_system),
                replies@,
            ),
            final(self).firefox_available == (old(self).firefox_available
                || step_of(r) is Done),
    {
        let os = system.operating_system;
        let commands = if os.is_debian_like() {
            let mut list: Vec<DCommand> = Vec::new();
            let command = apt_install_command("firefox");
            list.push(command);
            assert(commands_of(list@) =~= seq![apt_install("firefox"@)]);
            Some(list)
        } else if os.is_red_hat_like() {
            let mut list: Vec<DCommand> = Vec::new();
            let command = dnf_install_command("firefox");
            list.push(command);
            assert(commands_of(list@) =~= seq![dnf_install("firefox"@)]);
            Some(list)
        } else {
            None
        };
        let step = install_with(self.firefox_available, commands, replies)?;
        if let Next::Done(()) = step {
            self.firefox_available = true;
        }
        Ok(step)
    }
}

} // verus!
