//! The certificates of the common certificate authorities.

use vstd::prelude::*;
use crate::command::{plain, DCommand, DCommandView};
use crate::component::{all_declared, declaration, declared, DependencyInfo, DependencyInstallable};
use crate::components::package_cache_refresh::PackageCacheRefresh;
use crate::dependency::{declarations, Dependency, DependencyView};
use crate::status::{DependencyError, InstallationStatus};
use crate::steps::{
    apt_install, apt_install_command, commands_of, install_step, install_with, noted,
    probe_with, probed, status_of, step_of, which, which_command, whole_check, Next, Reply,
};
use crate::system::{OperatingSystem, SystemData};

verus! {

/// The certificate authorities' certificates, and whether the last check found them.
#[derive(Debug, Clone, Copy)]
pub struct CaCertificates {
    pub ca_certificates_available: bool,
}

impl Default for CaCertificates {
    fn default() -> (component: Self)
        ensures
            !component.ca_certificates_available,
    {
        CaCertificates { ca_certificates_available: false }
    }
}

impl CaCertificates {
    /// The component as it is before anything was checked: the same value
    /// at every call.
    pub fn singleton() -> (component: &'static Self)
        ensures
            !component.ca_certificates_available,
    {
        &CaCertificates { ca_certificates_available: false }
    }

    /// What the component declares on an operating system.
    pub open spec fn declared_on(os: OperatingSystem) -> Option<DependencyView> {
        declared(&CaCertificates { ca_certificates_available: false }, os)
    }

    /// The command that the check runs.
    pub open spec fn probe() -> DCommandView {
        which("update-ca-certificates"@)
    }

    /// The commands that install the component on an operating system.
    pub open spec fn install_commands(os: OperatingSystem) -> Option<Seq<DCommandView>> {
        if os is Ubuntu1804 || os is Ubuntu2004 || os is Ubuntu2204 {
            Some(seq![
                apt_install("ca-certificates"@),
                plain("update-ca-certificates"@, Seq::empty()),
            ])
        } else {
            None
        }
    }
}

impl DependencyInfo for CaCertificates {
    open spec fn spec_name(&self) -> Seq<char> {
        "ca-certificates"@
    }

    open spec fn spec_prerequisites(&self, os: OperatingSystem) -> Option<Seq<DependencyView>> {
        all_declared(
            seq![PackageCacheRefresh::declared_on(os)],
        )
    }

    fn name(&self) -> (name: &'static str) {
        "ca-certificates"
    }

    fn prerequisites(&self, os: OperatingSystem) -> (r: Result<Vec<Dependency>, DependencyError>) {
        let mut list: Vec<Dependency> = Vec::new();
        list.push(declaration(PackageCacheRefresh::singleton(), os)?);
        assert(declarations(list@) =~= all_declared(
            seq![PackageCacheRefresh::declared_on(os)],
        )->0);
        Ok(list)
    }
}

impl DependencyInstallable for CaCertificates {
    /// Looks for `update-ca-certificates` on the search path; `probed` says what counts as found.
    fn is_installed(&mut self, system: &SystemData, replies: &[Reply]) -> (r: Result<
        Next<InstallationStatus>,
        DependencyError,
    >)
        ensures
            step_of(r) == whole_check(probed(CaCertificates::probe(), replies@)),
            final(self).ca_certificates_available == noted(
                probed(CaCertificates::probe(), replies@),
                old(self).ca_certificates_available,
            ),
    {
        let probe = which_command("update-ca-certificates");
        match probe_with(probe, replies)? {
            Next::Ask(request) => Ok(Next::Ask(request)),
            Next::Done(available) => {
                self.ca_certificates_available = available;
                Ok(Next::Done(status_of(available)))
            },
        }
    }

    /// Installs the package `ca-certificates` and updates the certificates, unless
    /// the last check found them.
    fn install(&mut self, system: &SystemData, replies: &[Reply]) -> (r: Result<
        Next<()>,
        DependencyError,
    >)
        ensures
            step_of(r) == install_step(
                old(self).ca_certificates_available,
                CaCertificates::install_commands(system.operating_system),
                replies@,
            ),
            final(self).ca_certificates_available == (old(self).ca_certificates_available
                || step_of(r) is Done),
    {
        let os = system.operating_system;
        let commands = if os.is_ubuntu() {
            let mut list: Vec<DCommand> = Vec::new();
            let command = apt_install_command("ca-certificates");
            list.push(command);
            let command = DCommand::new("update-ca-certificates", &[]);
            assert(command@.args =~= Seq::<Seq<char>>::empty());
            list.push(command);
            assert(commands_of(list@) =~= seq![
                apt_install("ca-certificates"@),
                plain("update-ca-certificates"@, Seq::empty()),
            ]);
            Some(list)
        } else {
            None
        };
        let step = install_with(self.ca_certificates_available, commands, replies)?;
        if let Next::Done(()) = step {
            self.ca_certificates_available = true;
        }
        Ok(step)
    }
}

} // verus!
