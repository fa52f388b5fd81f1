//! The setuptools of Python.

use vstd::prelude::*;
use crate::command::{plain, slices, DCommand, DCommandView};
use crate::component::{all_declared, declaration, declared, DependencyInfo, DependencyInstallable};
use crate::components::package_cache_refresh::PackageCacheRefresh;
use crate::components::python3::Python3;
use crate::components::python3_dev::Python3Dev;
use crate::dependency::{declarations, Dependency, DependencyView};
use crate::status::{DependencyError, InstallationStatus};
use crate::steps::{
    apt_install, apt_install_command, commands_of, install_step, install_with, noted,
    probe_with, probed, status_of, step_of, whole_check, Next, Reply,
};
use crate::system::{OperatingSystem, SystemData};

verus! {

/// The setuptools of Python, and whether the last check found them.
#[derive(Debug, Clone, Copy)]
pub struct SetupTools {
    pub setup_tools_available: bool,
}

impl Default for SetupTools {
    fn default() -> (component: Self)
        ensures
            !component.setup_tools_available,
    {
        SetupTools { setup_tools_available: false }
    }
}

impl SetupTools {
    /// The component as it is before anything was checked: the same value
    /// at every call.
    pub fn singleton() -> (component: &'static Self)
        ensures
            !component.setup_tools_available,
    {
        &SetupTools { setup_tools_available: false }
    }

    /// What the component declares on an operating system.
    pub open spec fn declared_on(os: OperatingSystem) -> Option<DependencyView> {
        declared(&SetupTools { setup_tools_available: false }, os)
    }

    /// The command that the check runs.
    pub open spec fn probe() -> DCommandView {
        plain("python3"@, seq!["-m"@, "pip"@, "show"@, "setuptools"@])
    }

    /// The commands that install the component on an operating system.
    pub open spec fn install_commands(os: OperatingSystem) -> Option<Seq<DCommandView>> {
        if os is Ubuntu1804 || os is Ubuntu2004 || os is Ubuntu2204 {
            Some(seq![apt_install("python3-setuptools"@)])
        } else {
            None
        }
    }
}

impl DependencyInfo for SetupTools {
    open spec fn spec_name(&self) -> Seq<char> {
        "setuptools"@
    }

    open spec fn spec_prerequisites(&self, os: OperatingSystem) -> Option<Seq<DependencyView>> {
        all_declared(
            seq![
                PackageCacheRefresh::declared_on(os),
                Python3::declared_on(os),
                Python3Dev::declared_on(os),
            ],
        )
    }

    fn name(&self) -> (name: &'static str) {
        "setuptools"
    }

    fn prerequisites(&self, os: OperatingSystem) -> (r: Result<Vec<Dependency>, DependencyError>) {
        let mut list: Vec<Dependency> = Vec::new();
        list.push(declaration(PackageCacheRefresh::singleton(), os)?);
        list.push(declaration(Python3::singleton(), os)?);
        list.push(declaration(Python3Dev::singleton(), os)?);
        assert(declarations(list@) =~= all_declared(
            seq![
                PackageCacheRefresh::declared_on(os),
                Python3::declared_on(os),
                Python3Dev::declared_on(os),
            ],
        )->0);
        Ok(list)
    }
}

impl DependencyInstallable for SetupTools {
    /// Asks pip for the package `setuptools`.
    fn is_installed(&mut self, system: &SystemData, replies: &[Reply]) -> (r: Result<
        Next<InstallationStatus>,
        DependencyError,
    >)
        ensures
            step_of(r) == whole_check(probed(SetupTools::probe(), replies@)),
            final(self).setup_tools_available == noted(
                probed(SetupTools::probe(), replies@),
                old(self).setup_tools_available,
            ),
    {
        let probe = DCommand::new("python3", &["-m", "pip", "show", "setuptools"]);
        assert(slices((["-m", "pip", "show", "setuptools"])@) =~= seq![
            "-m"@,
            "pip"@,
            "show"@,
            "setuptools"@,
        ]);
        match probe_with(probe, replies)? {
            Next::Ask(request) => Ok(Next::Ask(request)),
            Next::Done(available) => {
                self.setup_tools_available = available;
                Ok(Next::Done(status_of(available)))
            },
        }
    }

    /// Installs the package `python3-setuptools`, unless the last check found the
    /// setuptools.
    fn install(&mut self, system: &SystemData, replies: &[Reply]) -> (r: Result<
        Next<()>,
        DependencyError,
    >)
        ensures
            step_of(r) == install_step(
                old(self).setup_tools_available,
                SetupTools::install_commands(system.operating_system),
                replies@,
            ),
            final(self).setup_tools_available == (old(self).setup_tools_available
                || step_of(r) is Done),
    {
        let os = system.operating_system;
        let commands = if os.is_ubuntu() {
            let mut list: Vec<DCommand> = Vec::new();
            let command = apt_install_command("python3-setuptools");
            list.push(command);
            assert(commands_of(list@) =~= seq![apt_install("python3-setuptools"@)]);
            Some(list)
        } else {
            None
        };
        let step = install_with(self.setup_tools_available, commands, replies)?;
        if let Next::Done(()) = step {
            self.setup_tools_available = true;
        }
        Ok(step)
    }
}

} // verus!
