//! Visual Studio Code.

use vstd::prelude::*;
use vstd::string::StringExecFns;
use crate::command::{plain, slices, DCommand, DCommandView};
use crate::component::{declared, DependencyInfo, DependencyInstallable};
use crate::dependency::{declarations, Dependency, DependencyView};
use crate::status::{DependencyError, InstallationStatus};
use crate::steps::{
    after, answer_to, answered, done_at, find_at_or_by, found_at_or_by, have_done, noted,
    status_of, step_of, which, which_command, whole_check, Next, Reply, Request, RequestView,
    Step,
};
use crate::system::{OperatingSystem, SystemData};

verus! {

/// Visual Studio Code, and whether the last check found it.
#[derive(Debug, Clone, Copy)]
pub struct VsCode {
    pub vscode_in_path: bool,
}

impl Default for VsCode {
    fn default() -> (component: Self)
        ensures
            !component.vscode_in_path,
    {
        VsCode { vscode_in_path: false }
    }
}

impl VsCode {
    /// The component as it is before anything was checked: the same value
    /// at every call.
    pub fn singleton() -> (component: &'static Self)
        ensures
            !component.vscode_in_path,
    {
        &VsCode { vscode_in_path: false }
    }

    /// What the component declares on an operating system.
    pub open spec fn declared_on(os: OperatingSystem) -> Option<DependencyView> {
        declared(&VsCode { vscode_in_path: false }, os)
    }

    /// Where the program is installed.
    pub open spec fn path() -> Seq<char> {
        "/usr/bin/code"@
    }

    /// Where the package is fetched to.
    pub open spec fn package_path() -> Seq<char> {
        "/tmp/vscode.osinstall"@
    }

    /// Where the package for an operating system is fetched from: the
    /// `.deb` for Ubuntu and Pop!_OS, the `.rpm` for the others.
    pub open spec fn url(os: OperatingSystem) -> Seq<char> {
        if os is Ubuntu1804 || os is Ubuntu2004 || os is Ubuntu2204 || os is PopOS2104 {
            "https://code.visualstudio.com/sha/download?build=stable&os=linux-deb-x64"@
        } else {
            "https://code.visualstudio.com/sha/download?build=stable&os=linux-rpm-x64"@
        }
    }

    /// The command that installs the package that was fetched.
    pub open spec fn install_command() -> DCommandView {
        plain("dpkg"@, seq!["-i"@, VsCode::package_path()])
    }

    /// The step of an installation: the package is fetched and then
    /// installed.
    pub open spec fn installed(self, system: &SystemData, replies: Seq<Reply>) -> Step<()> {
        if self.vscode_in_path {
            Step::Done(())
        } else {
            after(
                done_at(
                    RequestView::Download(
                        VsCode::url(system.operating_system),
                        VsCode::package_path(),
                    ),
                    replies,
                    0,
                ),
                after(answered(VsCode::install_command(), replies, 1), Step::Done(())),
            )
        }
    }
}

impl DependencyInfo for VsCode {
    open spec fn spec_name(&self) -> Seq<char> {
        "vscode"@
    }

    open spec fn spec_prerequisites(&self, os: OperatingSystem) -> Option<Seq<DependencyView>> {
        Some(Seq::empty())
    }

    fn name(&self) -> (name: &'static str) {
        "vscode"
    }

    fn prerequisites(&self, os: OperatingSystem) -> (r: Result<Vec<Dependency>, DependencyError>) {
        let list: Vec<Dependency> = Vec::new();
        assert(declarations(list@) =~= Seq::<DependencyView>::empty());
        Ok(list)
    }
}

impl DependencyInstallable for VsCode {
    /// Looks for the program where it is installed, and on the search path.
    fn is_installed(&mut self, system: &SystemData, replies: &[Reply]) -> (r: Result<
        Next<InstallationStatus>,
        DependencyError,
    >)
        ensures
            step_of(r) == whole_check(found_at_or_by(VsCode::path(), which("code"@), replies@)),
            final(self).vscode_in_path == noted(
                found_at_or_by(VsCode::path(), which("code"@), replies@),
                old(self).vscode_in_path,
            ),
    {
        let path = String::from_str("/usr/bin/code");
        match find_at_or_by(path, which_command("code"), replies) {
            Err(e) => Err(e),
            Ok(Next::Ask(request)) => Ok(Next::Ask(request)),
            Ok(Next::Done(available)) => {
                self.vscode_in_path = available;
                Ok(Next::Done(status_of(available)))
            },
        }
    }

    /// Fetches the package for the operating system and installs it, unless
    /// the last check found the program.
    fn install(&mut self, system: &SystemData, replies: &[Reply]) -> (r: Result<
        Next<()>,
        DependencyError,
    >)
        ensures
            step_of(r) == old(self).installed(system, replies@),
            final(self).vscode_in_path == (old(self).vscode_in_path || step_of(r) is Done),
    {
        if self.vscode_in_path {
            return Ok(Next::Done(()));
        }
        let url = if system.operating_system.is_debian_like() {
            String::from_str(
                "https://code.visualstudio.com/sha/download?build=stable&os=linux-deb-x64",
            )
        } else {
            String::from_str(
                "https://code.visualstudio.com/sha/download?build=stable&os=linux-rpm-x64",
            )
        };
        let fetch = Request::Download(url, String::from_str("/tmp/vscode.osinstall"));
        match have_done(fetch, replies, 0) {
            Err(e) => {
                return Err(e);
            },
            Ok(Next::Ask(request)) => {
                return Ok(Next::Ask(request));
            },
            Ok(Next::Done(())) => {},
        }
        let install = DCommand::new("dpkg", &["-i", "/tmp/vscode.osinstall"]);
        assert(slices((["-i", "/tmp/vscode.osinstall"])@) =~= VsCode::install_command().args);
        match answer_to(install, replies, 1) {
            Err(e) => Err(e),
            Ok(Next::Ask(request)) => Ok(Next::Ask(request)),
            Ok(Next::Done(_)) => {
                self.vscode_in_path = true;
                Ok(Next::Done(()))
            },
        }
    }
}

} // verus!
