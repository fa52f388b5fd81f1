//! Yarn, a package manager for Node.js.

use vstd::prelude::*;
use crate::component::{all_declared, declaration, declared, DependencyInfo};
use crate::components::nodejs::NodeJs;
use crate::components::zshrc::Zshrc;
use crate::dependency::{declarations, Dependency, DependencyView};
use crate::status::DependencyError;
use crate::steps::{
    find_at_or_by, found_at_or_by, noted, step_of, which, which_command, Next, Reply,
};
use crate::system::{OperatingSystem, SystemData};

verus! {

/// Yarn, and what is known of it.
#[derive(Debug, Clone, Copy)]
pub struct Yarn {
    pub yarn_available: bool,
    pub yarn_in_path: bool,
}

impl Default for Yarn {
    fn default() -> (component: Self)
        ensures
            !component.yarn_available,
            !component.yarn_in_path,
    {
        Yarn { yarn_available: false, yarn_in_path: false }
    }
}

impl Yarn {
    /// The component as it is before anything was checked: the same value
    /// at every call.
    pub fn singleton() -> (component: &'static Self)
        ensures
            !component.yarn_available,
            !component.yarn_in_path,
    {
        &Yarn { yarn_available: false, yarn_in_path: false }
    }

    /// What the component declares on an operating system.
    pub open spec fn declared_on(os: OperatingSystem) -> Option<DependencyView> {
        declared(&Yarn { yarn_available: false, yarn_in_path: false }, os)
    }

    /// Where Yarn's own program stands.
    pub open spec fn path(system: &SystemData) -> Seq<char> {
        system.home_dir@ + "/.yarn/bin/yarn"@
    }

    /// Finds out whether Yarn is on the machine: at the place of its own
    /// program, or on the search path; `found_at_or_by` says what counts as
    /// found. What is found is noted.
    pub fn look_for(&mut self, system: &SystemData, replies: &[Reply]) -> (r: Result<
        Next<bool>,
        DependencyError,
    >)
        ensures
            step_of(r) == found_at_or_by(Yarn::path(system), which("yarn"@), replies@),
            final(self).yarn_available == noted(
                found_at_or_by(Yarn::path(system), which("yarn"@), replies@),
                old(self).yarn_available,
            ),
            final(self).yarn_in_path == old(self).yarn_in_path,
    {
        let path = system.home_path("/.yarn/bin/yarn");
        match find_at_or_by(path, which_command("yarn"), replies) {
            Err(e) => Err(e),
            Ok(Next::Ask(request)) => Ok(Next::Ask(request)),
            Ok(Next::Done(available)) => {
                self.yarn_available = available;
                Ok(Next::Done(available))
            },
        }
    }
}

impl DependencyInfo for Yarn {
    open spec fn spec_name(&self) -> Seq<char> {
        "yarn"@
    }

    open spec fn spec_prerequisites(&self, os: OperatingSystem) -> Option<Seq<DependencyView>> {
        all_declared(
            seq![
                NodeJs::declared_on(os),
            ],
        )
    }

    fn name(&self) -> (name: &'static str) {
        "yarn"
    }

    fn prerequisites(&self, os: OperatingSystem) -> (r: Result<Vec<Dependency>, DependencyError>) {
        let mut list: Vec<Dependency> = Vec::new();
        list.push(declaration(NodeJs::singleton(), os)?);
        assert(declarations(list@) =~= all_declared(
            seq![
                NodeJs::declared_on(os),
            ],
        )->0);
        Ok(list)
    }

    /// The file `.zshrc`, which puts Yarn on the search path.
    fn optional(&self, os: OperatingSystem) -> (r: Result<
        Vec<(&'static str, &'static str, Dependency)>,
        DependencyError,
    >)
        ensures
            match r {
                Ok(list) => list@.len() == 1 && list@[0].0@ == "zshrc"@ && list@[0].1@
                    == "Will automatically load zshrc"@ && Zshrc::declared_on(os) == Some(
                    list@[0].2@,
                ),
                Err(e) => Zshrc::declared_on(os) is None && e
                    == DependencyError::UnsupportedOperatingSystem,
            },
    {
        let zshrc = declaration(Zshrc::singleton(), os)?;
        let mut list: Vec<(&'static str, &'static str, Dependency)> = Vec::new();
        list.push(("zshrc", "Will automatically load zshrc", zshrc));
        Ok(list)
    }
}

} // verus!
