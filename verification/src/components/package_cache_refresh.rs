//! The package manager's list of packages, brought up to date.

use vstd::prelude::*;
use crate::command::{plain, slices, DCommand, DCommandView};
use crate::component::{declared, DependencyInfo, DependencyInstallable};
use crate::dependency::{declarations, Dependency, DependencyView};
use crate::status::{DependencyError, InstallationStatus};
use crate::steps::{commands_of, in_order, run_in_order, step_of, Next, Reply, Step};
use crate::system::{OperatingSystem, SystemData};

verus! {

/// The refresh of the package cache, and whether it was done in this run.
#[derive(Debug, Clone, Copy)]
pub struct PackageCacheRefresh {
    pub updated: bool,
}

impl Default for PackageCacheRefresh {
    fn default() -> (component: Self)
        ensures
            !component.updated,
    {
        PackageCacheRefresh { updated: false }
    }
}

/// The commands that refresh the package cache on an operating system.
pub open spec fn refresh_commands(os: OperatingSystem) -> Option<Seq<DCommandView>> {
    if os is Ubuntu1804 || os is Ubuntu2004 || os is Ubuntu2204 {
        Some(seq![plain("apt-get"@, seq!["update"@])])
    } else if os is Fedora38 || os is Rocky8 || os is Rocky9 {
        Some(seq![plain("dnf"@, seq!["clean"@, "expire-cache"@])])
    } else {
        None
    }
}

impl PackageCacheRefresh {
    /// The component as it is before anything was checked: the same value
    /// at every call.
    pub fn singleton() -> (component: &'static Self)
        ensures
            !component.updated,
    {
        &PackageCacheRefresh { updated: false }
    }

    /// What the component declares on an operating system.
    pub open spec fn declared_on(os: OperatingSystem) -> Option<DependencyView> {
        declared(&PackageCacheRefresh { updated: false }, os)
    }
}

impl DependencyInfo for PackageCacheRefresh {
    open spec fn spec_name(&self) -> Seq<char> {
        "package-cache-refresh"@
    }

    open spec fn spec_prerequisites(&self, os: OperatingSystem) -> Option<Seq<DependencyView>> {
        Some(Seq::empty())
    }

    fn name(&self) -> (name: &'static str) {
        "package-cache-refresh"
    }

    fn prerequisites(&self, os: OperatingSystem) -> (r: Result<Vec<Dependency>, DependencyError>) {
        let list: Vec<Dependency> = Vec::new();
        assert(declarations(list@) =~= Seq::<DependencyView>::empty());
        Ok(list)
    }
}

impl DependencyInstallable for PackageCacheRefresh {
    /// Nothing is looked at: the cache is fresh once it was refreshed in
    /// this run.
    fn is_installed(&mut self, system: &SystemData, replies: &[Reply]) -> (r: Result<
        Next<InstallationStatus>,
        DependencyError,
    >)
        ensures
            *final(self) == *old(self),
            step_of(r) == Step::Done(
                if old(self).updated {
                    InstallationStatus::FullyInstalled
                } else {
                    InstallationStatus::NotInstalled
                },
            ),
    {
        if self.updated {
            Ok(Next::Done(InstallationStatus::FullyInstalled))
        } else {
            Ok(Next::Done(InstallationStatus::NotInstalled))
        }
    }

    /// Refreshes the cache with the system's package manager, and notes it
    /// once the command ran.
    fn install(&mut self, system: &SystemData, replies: &[Reply]) -> (r: Result<
        Next<()>,
        DependencyError,
    >)
        ensures
            step_of(r) == (match refresh_commands(system.operating_system) {
                Some(commands) => in_order(commands, replies@),
                None => Step::Failed(DependencyError::UnsupportedOperatingSystem),
            }),
            final(self).updated == (if step_of(r) is Done {
                true
            } else {
                old(self).updated
            }),
    {
        let os = system.operating_system;
        let mut commands: Vec<DCommand> = Vec::new();
        if os.is_ubuntu() {
            commands.push(DCommand::new("apt-get", &["update"]));
            assert(slices((["update"])@) =~= seq!["update"@]);
        } else if os.is_red_hat_like() {
            commands.push(DCommand::new("dnf", &["clean", "expire-cache"]));
            assert(slices((["clean", "expire-cache"])@) =~= seq![
                "clean"@,
                "expire-cache"@,
            ]);
        } else {
            return Err(DependencyError::UnsupportedOperatingSystem);
        }
        assert(commands_of(commands@) =~= refresh_commands(os)->0);
        let step = run_in_order(&commands, replies)?;
        if let Next::Done(()) = step {
            self.updated = true;
        }
        Ok(step)
    }
}

} // verus!
