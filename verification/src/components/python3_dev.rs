//! The headers of Python 3.

use vstd::prelude::*;
use crate::command::{plain, slices, DCommand, DCommandView};
use crate::component::{all_declared, declaration, declared, DependencyInfo, DependencyInstallable};
use crate::components::package_cache_refresh::PackageCacheRefresh;
use crate::components::python3::Python3;
use crate::dependency::{declarations, Dependency, DependencyView};
use crate::status::{DependencyError, InstallationStatus};
use crate::steps::{
    answer_to, answered, apt_install, apt_install_command, commands_of, install_step,
    install_with, status_of, step_of, whole_status, Next, Reply, Step,
};
use crate::system::{OperatingSystem, SystemData};

verus! {

/// The headers of Python 3, and whether the last check found them.
#[derive(Debug, Clone, Copy)]
pub struct Python3Dev {
    pub python3_dev_available: bool,
}

impl Default for Python3Dev {
    fn default() -> (component: Self)
        ensures
            !component.python3_dev_available,
    {
        Python3Dev { python3_dev_available: false }
    }
}

impl Python3Dev {
    /// The component as it is before anything was checked: the same value
    /// at every call.
    pub fn singleton() -> (component: &'static Self)
        ensures
            !component.python3_dev_available,
    {
        &Python3Dev { python3_dev_available: false }
    }

    /// What the component declares on an operating system.
    pub open spec fn declared_on(os: OperatingSystem) -> Option<DependencyView> {
        declared(&Python3Dev { python3_dev_available: false }, os)
    }

    /// The command that the check runs.
    pub open spec fn probe() -> DCommandView {
        plain("dpkg"@, seq!["-s"@, "python3-dev"@])
    }

    /// The step of the check: the package is there exactly when `dpkg`
    /// knows it. The check is made on Ubuntu only.
    pub open spec fn checked(os: OperatingSystem, replies: Seq<Reply>) -> Step<InstallationStatus> {
        if os is Ubuntu1804 || os is Ubuntu2004 || os is Ubuntu2204 {
            match answered(Python3Dev::probe(), replies, 0) {
                Step::Ask(request) => Step::Ask(request),
                Step::Failed(e) => Step::Failed(e),
                Step::Done(output) => Step::Done(whole_status(output.success)),
            }
        } else {
            Step::Failed(DependencyError::UnsupportedOperatingSystem)
        }
    }

    /// The commands that install the component on an operating system.
    pub open spec fn install_commands(os: OperatingSystem) -> Option<Seq<DCommandView>> {
        if os is Ubuntu1804 || os is Ubuntu2004 || os is Ubuntu2204 {
            Some(seq![apt_install("python3-dev"@)])
        } else {
            None
        }
    }
}

impl DependencyInfo for Python3Dev {
    open spec fn spec_name(&self) -> Seq<char> {
        "python3-dev"@
    }

    open spec fn spec_prerequisites(&self, os: OperatingSystem) -> Option<Seq<DependencyView>> {
        all_declared(
            seq![
                PackageCacheRefresh::declared_on(os),
                Python3::declared_on(os),
            ],
        )
    }

    fn name(&self) -> (name: &'static str) {
        "python3-dev"
    }

    fn prerequisites(&self, os: OperatingSystem) -> (r: Result<Vec<Dependency>, DependencyError>) {
        let mut list: Vec<Dependency> = Vec::new();
        list.push(declaration(PackageCacheRefresh::singleton(), os)?);
        list.push(declaration(Python3::singleton(), os)?);
        assert(declarations(list@) =~= all_declared(
            seq![
                PackageCacheRefresh::declared_on(os),
                Python3::declared_on(os),
            ],
        )->0);
        Ok(list)
    }
}

impl DependencyInstallable for Python3Dev {
    /// Asks `dpkg` for the package `python3-dev`.
    fn is_installed(&mut self, system: &SystemData, replies: &[Reply]) -> (r: Result<
        Next<InstallationStatus>,
        DependencyError,
    >)
        ensures
            step_of(r) == Python3Dev::checked(system.operating_system, replies@),
            final(self).python3_dev_available == (match Python3Dev::checked(
                system.operating_system,
                replies@,
            ) {
                Step::Done(status) => status is FullyInstalled,
                _ => old(self).python3_dev_available,
            }),
    {
        if !system.operating_system.is_ubuntu() {
            return Err(DependencyError::UnsupportedOperatingSystem);
        }
        let probe = DCommand::new("dpkg", &["-s", "python3-dev"]);
        assert(slices((["-s", "python3-dev"])@) =~= seq!["-s"@, "python3-dev"@]);
        match answer_to(probe, replies, 0) {
            Err(e) => Err(e),
            Ok(Next::Ask(request)) => Ok(Next::Ask(request)),
            Ok(Next::Done(output)) => {
                self.python3_dev_available = output.success;
                Ok(Next::Done(status_of(output.success)))
            },
        }
    }

    /// Installs the package `python3-dev`, unless the last check found it.
    /// What the check noted stays as it is.
    fn install(&mut self, system: &SystemData, replies: &[Reply]) -> (r: Result<
        Next<()>,
        DependencyError,
    >)
        ensures
            step_of(r) == install_step(
                old(self).python3_dev_available,
                Python3Dev::install_commands(system.operating_system),
                replies@,
            ),
            final(self).python3_dev_available == old(self).python3_dev_available,
    {
        let commands = if system.operating_system.is_ubuntu() {
            let mut list: Vec<DCommand> = Vec::new();
            list.push(apt_install_command("python3-dev"));
            assert(commands_of(list@) =~= seq![apt_install("python3-dev"@)]);
            Some(list)
        } else {
            None
        };
        install_with(self.python3_dev_available, commands, replies)
    }
}

} // verus!
