//! Node.js.

use vstd::prelude::*;
use crate::command::{plain, slices, DCommand, DCommandView};
use crate::component::{all_declared, declaration, declared, DependencyInfo, DependencyInstallable};
use crate::components::nvm::Nvm;
use crate::components::package_cache_refresh::PackageCacheRefresh;
use crate::dependency::{declarations, Dependency, DependencyView};
use crate::status::{DependencyError, InstallationStatus};
use crate::steps::{
    commands_of, install_step, install_with, noted, probe_with, probed, status_of, step_of,
    which, which_command, whole_check, Next, Reply,
};
use crate::system::{OperatingSystem, SystemData};

verus! {

/// Node.js, and whether the last check found it.
#[derive(Debug, Clone, Copy)]
pub struct NodeJs {
    pub nodejs_available: bool,
}

impl Default for NodeJs {
    fn default() -> (component: Self)
        ensures
            !component.nodejs_available,
    {
        NodeJs { nodejs_available: false }
    }
}

impl NodeJs {
    /// The component as it is before anything was checked: the same value
    /// at every call.
    pub fn singleton() -> (component: &'static Self)
        ensures
            !component.nodejs_available,
    {
        &NodeJs { nodejs_available: false }
    }

    /// What the component declares on an operating system.
    pub open spec fn declared_on(os: OperatingSystem) -> Option<DependencyView> {
        declared(&NodeJs { nodejs_available: false }, os)
    }

    /// The command that the check runs.
    pub open spec fn probe() -> DCommandView {
        which("node"@)
    }

    /// The commands that install the component on an operating system.
    pub open spec fn install_commands(os: OperatingSystem) -> Option<Seq<DCommandView>> {
        Some(seq![plain("nvm"@, seq!["install"@, "node"@])])
    }
}

impl DependencyInfo for NodeJs {
    open spec fn spec_name(&self) -> Seq<char> {
        "nodejs"@
    }

    open spec fn spec_prerequisites(&self, os: OperatingSystem) -> Option<Seq<DependencyView>> {
        all_declared(
            seq![PackageCacheRefresh::declared_on(os), Nvm::declared_on(os)],
        )
    }

    fn name(&self) -> (name: &'static str) {
        "nodejs"
    }

    fn prerequisites(&self, os: OperatingSystem) -> (r: Result<Vec<Dependency>, DependencyError>) {
        let mut list: Vec<Dependency> = Vec::new();
        list.push(declaration(PackageCacheRefresh::singleton(), os)?);
        list.push(declaration(Nvm::singleton(), os)?);
        assert(declarations(list@) =~= all_declared(
            seq![PackageCacheRefresh::declared_on(os), Nvm::declared_on(os)],
        )->0);
        Ok(list)
    }
}

impl DependencyInstallable for NodeJs {
    /// Looks for `node` on the search path; `probed` says what counts as found.
    fn is_installed(&mut self, system: &SystemData, replies: &[Reply]) -> (r: Result<
        Next<InstallationStatus>,
        DependencyError,
    >)
        ensures
            step_of(r) == whole_check(probed(NodeJs::probe(), replies@)),
            final(self).nodejs_available == noted(
                probed(NodeJs::probe(), replies@),
                old(self).nodejs_available,
            ),
    {
        let probe = which_command("node");
        match probe_with(probe, replies)? {
            Next::Ask(request) => Ok(Next::Ask(request)),
            Next::Done(available) => {
                self.nodejs_available = available;
                Ok(Next::Done(status_of(available)))
            },
        }
    }

    /// Installs Node.js with nvm, unless the last check found it.
    fn install(&mut self, system: &SystemData, replies: &[Reply]) -> (r: Result<
        Next<()>,
        DependencyError,
    >)
        ensures
            step_of(r) == install_step(
                old(self).nodejs_available,
                NodeJs::install_commands(system.operating_system),
                replies@,
            ),
            final(self).nodejs_available == (old(self).nodejs_available
                || step_of(r) is Done),
    {
        let commands = {
            let mut list: Vec<DCommand> = Vec::new();
            let command = DCommand::new("nvm", &["install", "node"]);
            assert(slices((["install", "node"])@) =~= seq!["install"@, "node"@]);
            list.push(command);
            assert(commands_of(list@) =~= seq![plain("nvm"@, seq!["install"@, "node"@])]);
            Some(list)
        };
        let step = install_with(self.nodejs_available, commands, replies)?;
        if let Next::Done(()) = step {
            self.nodejs_available = true;
        }
        Ok(step)
    }
}

} // verus!
