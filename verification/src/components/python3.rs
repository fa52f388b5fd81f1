//! Python 3.

use vstd::prelude::*;
use crate::command::{DCommand, DCommandView};
use crate::component::{all_declared, declaration, declared, DependencyInfo, DependencyInstallable};
use crate::components::package_cache_refresh::PackageCacheRefresh;
use crate::dependency::{declarations, Dependency, DependencyView};
use crate::status::{DependencyError, InstallationStatus};
use crate::steps::{
    apt_install, apt_install_command, commands_of, install_step, install_with, noted,
    probe_with, probed, status_of, step_of, which, which_command, whole_check, Next, Reply,
};
use crate::system::{OperatingSystem, SystemData};

verus! {

/// Python 3, and whether the last check found it.
#[derive(Debug, Clone, Copy)]
pub struct Python3 {
    pub python3_available: bool,
}

impl Default for Python3 {
    fn default() -> (component: Self)
        ensures
            !component.python3_available,
    {
        Python3 { python3_available: false }
    }
}

impl Python3 {
    /// The component as it is before anything was checked: the same value
    /// at every call.
    pub fn singleton() -> (component: &'static Self)
        ensures
            !component.python3_available,
    {
        &Python3 { python3_available: false }
    }

    /// What the component declares on an operating system.
    pub open spec fn declared_on(os: OperatingSystem) -> Option<DependencyView> {
        declared(&Python3 { python3_available: false }, os)
    }

    /// The command that the check runs.
    pub open spec fn probe() -> DCommandView {
        which("python3"@)
    }

    /// The commands that install the component on an operating system.
    pub open spec fn install_commands(os: OperatingSystem) -> Option<Seq<DCommandView>> {
        if os is Ubuntu1804 || os is Ubuntu2004 || os is Ubuntu2204 {
            Some(seq![apt_install("python3"@)])
        } else {
            None
        }
    }
}

impl DependencyInfo for Python3 {
    open spec fn spec_name(&self) -> Seq<char> {
        "python3"@
    }

    open spec fn spec_prerequisites(&self, os: OperatingSystem) -> Option<Seq<DependencyView>> {
        all_declared(
            seq![PackageCacheRefresh::declared_on(os)],
        )
    }

    fn name(&self) -> (name: &'static str) {
        "python3"
    }

    fn prerequisites(&self, os: OperatingSystem) -> (r: Result<Vec<Dependency>, DependencyError>) {
        let mut list: Vec<Dependency> = Vec::new();
        list.push(declaration(PackageCacheRefresh::singleton(), os)?);
        assert(declarations(list@) =~= all_declared(
            seq![PackageCacheRefresh::declared_on(os)],
        )->0);
        Ok(list)
    }
}

impl DependencyInstallable for Python3 {
    /// Looks for `python3` on the search path; `probed` says what counts as found.
    fn is_installed(&mut self, system: &SystemData, replies: &[Reply]) -> (r: Result<
        Next<InstallationStatus>,
        DependencyError,
    >)
        ensures
            step_of(r) == whole_check(probed(Python3::probe(), replies@)),
            final(self).python3_available == noted(
                probed(Python3::probe(), replies@),
                old(self).python3_available,
            ),
    {
        let probe = which_command("python3");
        match probe_with(probe, replies)? {
            Next::Ask(request) => Ok(Next::Ask(request)),
            Next::Done(available) => {
                self.python3_available = available;
                Ok(Next::Done(status_of(available)))
            },
        }
    }

    /// Installs the package `python3`, unless the last check found it.
    fn install(&mut self, system: &SystemData, replies: &[Reply]) -> (r: Result<
        Next<()>,
        DependencyError,
    >)
        ensures
            step_of(r) == install_step(
                old(self).python3_available,
                Python3::install_commands(system.operating_system),
                replies@,
            ),
            final(self).python3_available == (old(self).python3_available
                || step_of(r) is Done),
    {
        let os = system.operating_system;
        let commands = if os.is_ubuntu() {
            let mut list: Vec<DCommand> = Vec::new();
            let command = apt_install_command("python3");
            list.push(command);
            assert(commands_of(list@) =~= seq![apt_install("python3"@)]);
            Some(list)
        } else {
            None
        };
        let step = install_with(self.python3_available, commands, replies)?;
        if let Next::Done(()) = step {
            self.python3_available = true;
        }
        Ok(step)
    }
}

} // verus!
