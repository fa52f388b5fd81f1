//! Git.

use vstd::prelude::*;
use crate::command::{DCommand, DCommandView};
use crate::component::{all_declared, declaration, declared, DependencyInfo, DependencyInstallable};
use crate::components::package_cache_refresh::PackageCacheRefresh;
use crate::dependency::{declarations, Dependency, DependencyView};
use crate::status::{DependencyError, InstallationStatus};
use crate::steps::{
    apt_install, apt_install_command, commands_of, install_step, install_with, noted,
    probe_with, probed, status_of, step_of, which, which_command, whole_check, Next, Reply,
};
use crate::system::{OperatingSystem, SystemData};

verus! {

/// Git, and whether the last check found it.
#[derive(Debug, Clone, Copy)]
pub struct Git {
    pub git_available: bool,
}

impl Default for Git {
    fn default() -> (component: Self)
        ensures
            !component.git_available,
    {
        Git { git_available: false }
    }
}

impl Git {
    /// The component as it is before anything was checked: the same value
    /// at every call.
    pub fn singleton() -> (component: &'static Self)
        ensures
            !component.git_available,
    {
        &Git { git_available: false }
    }

    /// What the component declares on an operating system.
    pub open spec fn declared_on(os: OperatingSystem) -> Option<DependencyView> {
        declared(&Git { git_available: false }, os)
    }

    /// The command that the check runs.
    pub open spec fn probe() -> DCommandView {
        which("git"@)
    }

    /// The commands that install the component on an operating system.
    pub open spec fn install_commands(os: OperatingSystem) -> Option<Seq<DCommandView>> {
        if os is Ubuntu1804 || os is Ubuntu2004 || os is Ubuntu2204 {
            Some(seq![apt_install("git"@)])
        } else {
            None
        }
    }
}

impl DependencyInfo for Git {
    open spec fn spec_name(&self) -> Seq<char> {
        "git"@
    }

    open spec fn spec_prerequisites(&self, os: OperatingSystem) -> Option<Seq<DependencyView>> {
        all_declared(
            seq![PackageCacheRefresh::declared_on(os)],
        )
    }

    fn name(&self) -> (name: &'static str) {
        "git"
    }

    fn prerequisites(&self, os: OperatingSystem) -> (r: Result<Vec<Dependency>, DependencyError>) {
        let mut list: Vec<Dependency> = Vec::new();
        list.push(declaration(PackageCacheRefresh::singleton(), os)?);
        assert(declarations(list@) =~= all_declared(
            seq![PackageCacheRefresh::declared_on(os)],
        )->0);
        Ok(list)
    }
}

impl DependencyInstallable for Git {
    /// Looks for `git` on the search path; `probed` says what counts as found.
    fn is_installed(&mut self, system: &SystemData, replies: &[Reply]) -> (r: Result<
        Next<InstallationStatus>,
        DependencyError,
    >)
        ensures
            step_of(r) == whole_check(probed(Git::probe(), replies@)),
            final(self).git_available == noted(
                probed(Git::probe(), replies@),
                old(self).git_available,
            ),
    {
        let probe = which_command("git");
        match probe_with(probe, replies)? {
            Next::Ask(request) => Ok(Next::Ask(request)),
            Next::Done(available) => {
                self.git_available = available;
                Ok(Next::Done(status_of(available)))
            },
        }
    }

    /// Installs the package `git`, unless the last check found it.
    fn install(&mut self, system: &SystemData, replies: &[Reply]) -> (r: Result<
        Next<()>,
        DependencyError,
    >)
        ensures
            step_of(r) == install_step(
                old(self).git_available,
                Git::install_commands(system.operating_system),
                replies@,
            ),
            final(self).git_available == (old(self).git_available
                || step_of(r) is Done),
    {
        let os = system.operating_system;
        let commands = if os.is_ubuntu() {
            let mut list: Vec<DCommand> = Vec::new();
            let command = apt_install_command("git");
            list.push(command);
            assert(commands_of(list@) =~= seq![apt_install("git"@)]);
            Some(list)
        } else {
            None
        };
        let step = install_with(self.git_available, commands, replies)?;
        if let Next::Done(()) = step {
            self.git_available = true;
        }
        Ok(step)
    }
}

} // verus!
