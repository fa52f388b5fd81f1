//! tmux.

use vstd::prelude::*;
use crate::command::{DCommand, DCommandView};
use crate::component::{all_declared, declaration, declared, DependencyInfo, DependencyInstallable};
use crate::components::package_cache_refresh::PackageCacheRefresh;
use crate::dependency::{declarations, Dependency, DependencyView};
use crate::status::{DependencyError, InstallationStatus};
use crate::steps::{
    apt_install, apt_install_command, commands_of, install_step, install_with, noted,
    probe_with, probed, status_of, step_of, which, which_command, whole_check, Next, Reply,
};
use crate::system::{OperatingSystem, SystemData};

verus! {

/// tmux, and whether the last check found it.
#[derive(Debug, Clone, Copy)]
pub struct Tmux {
    pub tmux_available: bool,
}

impl Default for Tmux {
    fn default() -> (component: Self)
        ensures
            !component.tmux_available,
    {
        Tmux { tmux_available: false }
    }
}

impl Tmux {
    /// The component as it is before anything was checked: the same value
    /// at every call.
    pub fn singleton() -> (component: &'static Self)
        ensures
            !component.tmux_available,
    {
        &Tmux { tmux_available: false }
    }

    /// What the component declares on an operating system.
    pub open spec fn declared_on(os: OperatingSystem) -> Option<DependencyView> {
        declared(&Tmux { tmux_available: false }, os)
    }

    /// The command that the check runs.
    pub open spec fn probe() -> DCommandView {
        which("tmux"@)
    }

    /// The commands that install the component on an operating system.
    pub open spec fn install_commands(os: OperatingSystem) -> Option<Seq<DCommandView>> {
        if os is Ubuntu1804 || os is Ubuntu2004 || os is Ubuntu2204 {
            Some(seq![apt_install("tmux"@)])
        } else {
            None
        }
    }
}

impl DependencyInfo for Tmux {
    open spec fn spec_name(&self) -> Seq<char> {
        "tmux"@
    }

    open spec fn spec_prerequisites(&self, os: OperatingSystem) -> Option<Seq<DependencyView>> {
        all_declared(
            seq![PackageCacheRefresh::declared_on(os)],
        )
    }

    fn name(&self) -> (name: &'static str) {
        "tmux"
    }

    fn prerequisites(&self, os: OperatingSystem) -> (r: Result<Vec<Dependency>, DependencyError>) {
        let mut list: Vec<Dependency> = Vec::new();
        list.push(declaration(PackageCacheRefresh::singleton(), os)?);
        assert(declarations(list@) =~= all_declared(
            seq![PackageCacheRefresh::declared_on(os)],
        )->0);
        Ok(list)
    }
}

impl DependencyInstallable for Tmux {
    /// Looks for `tmux` on the search path; `probed` says what counts as found.
    fn is_installed(&mut self, system: &SystemData, replies: &[Reply]) -> (r: Result<
        Next<InstallationStatus>,
        DependencyError,
    >)
        ensures
            step_of(r) == whole_check(probed(Tmux::probe(), replies@)),
            final(self).tmux_available == noted(
                probed(Tmux::probe(), replies@),
                old(self).tmux_available,
            ),
    {
        let probe = which_command("tmux");
        match probe_with(probe, replies)? {
            Next::Ask(request) => Ok(Next::Ask(request)),
            Next::Done(available) => {
                self.tmux_available = available;
                Ok(Next::Done(status_of(available)))
            },
        }
    }

    /// Installs the package `tmux`, unless the last check found it.
    fn install(&mut self, system: &SystemData, replies: &[Reply]) -> (r: Result<
        Next<()>,
        DependencyError,
    >)
        ensures
            step_of(r) == install_step(
                old(self).tmux_available,
                Tmux::install_commands(system.operating_system),
                replies@,
            ),
            final(self).tmux_available == (old(self).tmux_available
                || step_of(r) is Done),
    {
        let os = system.operating_system;
        let commands = if os.is_ubuntu() {
            let mut list: Vec<DCommand> = Vec::new();
            let command = apt_install_command("tmux");
            list.push(command);
            assert(commands_of(list@) =~= seq![apt_install("tmux"@)]);
            Some(list)
        } else {
            None
        };
        let step = install_with(self.tmux_available, commands, replies)?;
        if let Next::Done(()) = step {
            self.tmux_available = true;
        }
        Ok(step)
    }
}

} // verus!
