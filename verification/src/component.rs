//! What every component offers: its name, what it requires, a check of
//! whether it is installed, and its installation.

use vstd::prelude::*;
use crate::dependency::{declarations, Dependency, DependencyView};
use crate::status::{DependencyError, InstallationStatus};
use crate::steps::{Next, Reply};
use crate::system::{OperatingSystem, SystemData};

verus! {

/// The declarations of a list, if each of them is there.
pub open spec fn all_declared(items: Seq<Option<DependencyView>>) -> Option<Seq<DependencyView>> {
    if forall|i: int| 0 <= i < items.len() ==> (#[trigger] items[i]) is Some {
        Some(Seq::new(items.len(), |i: int| items[i]->0))
    } else {
        None
    }
}

/// What a component says of itself.
pub trait DependencyInfo {
    /// The component's name as a mathematical value.
    spec fn spec_name(&self) -> Seq<char>;

    /// What the component requires on an operating system, in declared
    /// order, or nothing where it is not declared for that system.
    spec fn spec_prerequisites(&self, os: OperatingSystem) -> Option<Seq<DependencyView>>;

    /// The component's name.
    fn name(&self) -> (name: &'static str)
        ensures
            name@ == self.spec_name(),
    ;

    /// What the component requires on an operating system: the
    /// declarations of its direct prerequisites, in declared order.
    fn prerequisites(&self, os: OperatingSystem) -> (r: Result<Vec<Dependency>, DependencyError>)
        ensures
            match r {
                Ok(list) => self.spec_prerequisites(os) == Some(declarations(list@)),
                Err(e) => self.spec_prerequisites(os) is None && e
                    == DependencyError::UnsupportedOperatingSystem,
            },
    ;

    /// What the component can do without but makes use of: for each, a
    /// name, a word on what it is good for, and its declaration. A
    /// component has none unless it says otherwise.
    fn optional(&self, os: OperatingSystem) -> (r: Result<
        Vec<(&'static str, &'static str, Dependency)>,
        DependencyError,
    >)
        default_ensures
            r matches Ok(list) && list@.len() == 0,
    {
        Ok(Vec::new())
    }
}

/// What a component declares on an operating system: its name and what it
/// requires.
pub open spec fn declared<T: DependencyInfo>(item: &T, os: OperatingSystem) -> Option<
    DependencyView,
> {
    match item.spec_prerequisites(os) {
        Some(prerequisites) => Some(DependencyView { name: item.spec_name(), prerequisites }),
        None => None,
    }
}

/// The declaration of a component on an operating system, with the
/// declarations of everything that it requires below it.
pub fn declaration<T: DependencyInfo>(item: &T, os: OperatingSystem) -> (r: Result<
    Dependency,
    DependencyError,
>)
    ensures
        match r {
            Ok(d) => declared(item, os) == Some(d@),
            Err(e) => declared(item, os) is None && e
                == DependencyError::UnsupportedOperatingSystem,
        },
{
    match item.prerequisites(os) {
        Ok(list) => Ok(Dependency::new(item.name(), list)),
        Err(e) => Err(e),
    }
}

/// A component that can be checked for and installed. Both go step by
/// step: they are handed the replies to the requests made so far, and
/// answer with the next request or with the end.
pub trait DependencyInstallable: DependencyInfo {
    /// Checks whether the component is installed, and notes what it found.
    fn is_installed(&mut self, system: &SystemData, replies: &[Reply]) -> (r: Result<
        Next<InstallationStatus>,
        DependencyError,
    >);

    /// Installs what the last check found missing.
    fn install(&mut self, system: &SystemData, replies: &[Reply]) -> (r: Result<
        Next<()>,
        DependencyError,
    >);
}

} // verus!
