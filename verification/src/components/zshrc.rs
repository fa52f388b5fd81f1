//! The configuration file of the Z shell.

use vstd::prelude::*;
use crate::component::{all_declared, declaration, declared, DependencyInfo, DependencyInstallable};
use crate::components::zsh::Zsh;
use crate::dependency::{declarations, Dependency, DependencyView};
use crate::status::{ConfigStatus, DependencyError, InstallationStatus};
use crate::steps::{
    done_at, have_done, look_at, looked_at, read, read_at, status_of, step_of, whole_status,
    Next, Reply, Request, RequestView, Step,
};
use crate::system::{OperatingSystem, SystemData};
use crate::text::{first_lines, lines_of, same_first_lines};

verus! {

/// The number of lines at the head of `.zshrc` that are the library's; what
/// follows them is the user's.
pub const ZSHRC_HEAD_LINES: usize = 33;

/// The file `.zshrc`, and what the last check found of it.
#[derive(Debug, Clone, Copy)]
pub struct Zshrc {
    pub zshrc_available: ConfigStatus,
}

impl Default for Zshrc {
    fn default() -> (component: Self)
        ensures
            component.zshrc_available == ConfigStatus::NotPresent,
    {
        Zshrc { zshrc_available: ConfigStatus::NotPresent }
    }
}

impl Zshrc {
    /// The component as it is before anything was checked: the same value
    /// at every call.
    pub fn singleton() -> (component: &'static Self)
        ensures
            component.zshrc_available == ConfigStatus::NotPresent,
    {
        &Zshrc { zshrc_available: ConfigStatus::NotPresent }
    }

    /// What the component declares on an operating system.
    pub open spec fn declared_on(os: OperatingSystem) -> Option<DependencyView> {
        declared(&Zshrc { zshrc_available: ConfigStatus::NotPresent }, os)
    }

    /// Where the file stands.
    pub open spec fn path(system: &SystemData) -> Seq<char> {
        system.home_dir@ + "/.zshrc"@
    }

    /// Whether a file with these contents starts as the base file does.
    pub open spec fn is_correct(system: &SystemData, contents: Seq<char>) -> bool {
        first_lines(lines_of(contents), ZSHRC_HEAD_LINES as nat) == first_lines(
            lines_of(system.zshrc_base@),
            ZSHRC_HEAD_LINES as nat,
        )
    }

    /// The step of finding out what there is of the file, with the request
    /// number `at` and the next: whether it is there, and, if it is, whether
    /// what it holds starts as the base file does.
    pub open spec fn found(system: &SystemData, replies: Seq<Reply>, at: int) -> Step<
        ConfigStatus,
    > {
        match looked_at(Zshrc::path(system), replies, at) {
            Step::Ask(request) => Step::Ask(request),
            Step::Failed(e) => Step::Failed(e),
            Step::Done(present) => if !present {
                Step::Done(ConfigStatus::NotPresent)
            } else {
                match read_at(Zshrc::path(system), replies, at + 1) {
                    Step::Ask(request) => Step::Ask(request),
                    Step::Failed(e) => Step::Failed(e),
                    Step::Done(contents) => Step::Done(
                        if Zshrc::is_correct(system, contents@) {
                            ConfigStatus::PresentCorrect
                        } else {
                            ConfigStatus::PresentIncorrect
                        },
                    ),
                }
            },
        }
    }

    /// Finds out what there is of the file; see `found`.
    pub(crate) fn find(system: &SystemData, replies: &[Reply], at: usize) -> (r: Result<
        Next<ConfigStatus>,
        DependencyError,
    >)
        requires
            at < usize::MAX,
        ensures
            step_of(r) == Zshrc::found(system, replies@, at as int),
    {
        let present = match look_at(system.home_path("/.zshrc"), replies, at) {
            Err(e) => {
                return Err(e);
            },
            Ok(Next::Ask(request)) => {
                return Ok(Next::Ask(request));
            },
            Ok(Next::Done(present)) => present,
        };
        let mut is_correct = false;
        if present {
            let contents = match read(system.home_path("/.zshrc"), replies, at + 1) {
                Err(e) => {
                    return Err(e);
                },
                Ok(Next::Ask(request)) => {
                    return Ok(Next::Ask(request));
                },
                Ok(Next::Done(contents)) => contents,
            };
            is_correct = same_first_lines(
                contents.as_str(),
                system.zshrc_base.as_str(),
                ZSHRC_HEAD_LINES,
            );
        }
        Ok(Next::Done(ConfigStatus::of(present, is_correct)))
    }

    /// The step of an installation: a file that is in the way is moved
    /// aside, and the base file is written in its place.
    pub open spec fn installed(self, system: &SystemData, replies: Seq<Reply>) -> Step<()> {
        let path = Zshrc::path(system);
        let write = RequestView::WriteFile(path, system.zshrc_base@);
        if self.zshrc_available is PresentCorrect {
            Step::Done(())
        } else {
            match looked_at(path, replies, 0) {
                Step::Ask(request) => Step::Ask(request),
                Step::Failed(e) => Step::Failed(e),
                Step::Done(present) => if !present {
                    done_at(write, replies, 1)
                } else {
                    match done_at(RequestView::Backup(path), replies, 1) {
                        Step::Done(_) => done_at(write, replies, 2),
                        other => other,
                    }
                },
            }
        }
    }
}

impl DependencyInfo for Zshrc {
    open spec fn spec_name(&self) -> Seq<char> {
        "zshrc"@
    }

    open spec fn spec_prerequisites(&self, os: OperatingSystem) -> Option<Seq<DependencyView>> {
        all_declared(
            seq![
                Zsh::declared_on(os),
            ],
        )
    }

    fn name(&self) -> (name: &'static str) {
        "zshrc"
    }

    fn prerequisites(&self, os: OperatingSystem) -> (r: Result<Vec<Dependency>, DependencyError>) {
        let mut list: Vec<Dependency> = Vec::new();
        list.push(declaration(Zsh::singleton(), os)?);
        assert(declarations(list@) =~= all_declared(
            seq![
                Zsh::declared_on(os),
            ],
        )->0);
        Ok(list)
    }
}

impl DependencyInstallable for Zshrc {
    /// Looks whether the file is there and starts as the base file does. The
    /// component counts as installed only where it does.
    fn is_installed(&mut self, system: &SystemData, replies: &[Reply]) -> (r: Result<
        Next<InstallationStatus>,
        DependencyError,
    >)
        ensures
            step_of(r) == (match Zshrc::found(system, replies@, 0) {
                Step::Ask(request) => Step::Ask(request),
                Step::Failed(e) => Step::Failed(e),
                Step::Done(status) => Step::Done(whole_status(status is PresentCorrect)),
            }),
            final(self).zshrc_available == (match Zshrc::found(system, replies@, 0) {
                Step::Done(status) => status,
                _ => old(self).zshrc_available,
            }),
    {
        let status = match Zshrc::find(system, replies, 0) {
            Err(e) => {
                return Err(e);
            },
            Ok(Next::Ask(request)) => {
                return Ok(Next::Ask(request));
            },
            Ok(Next::Done(status)) => status,
        };
        self.zshrc_available = status;
        Ok(Next::Done(status_of(status.is_correct())))
    }

    /// Writes the base file, unless the last check found the file as it
    /// should be. A file that is in the way is moved aside first. What the
    /// check noted stays as it is.
    fn install(&mut self, system: &SystemData, replies: &[Reply]) -> (r: Result<
        Next<()>,
        DependencyError,
    >)
        ensures
            step_of(r) == old(self).installed(system, replies@),
            final(self).zshrc_available == old(self).zshrc_available,
    {
        if self.zshrc_available.is_correct() {
            return Ok(Next::Done(()));
        }
        let present = match look_at(system.home_path("/.zshrc"), replies, 0) {
            Err(e) => {
                return Err(e);
            },
            Ok(Next::Ask(request)) => {
                return Ok(Next::Ask(request));
            },
            Ok(Next::Done(present)) => present,
        };
        let mut at: usize = 1;
        if present {
            match have_done(Request::Backup(system.home_path("/.zshrc")), replies, 1) {
                Err(e) => {
                    return Err(e);
                },
                Ok(Next::Ask(request)) => {
                    return Ok(Next::Ask(request));
                },
                Ok(Next::Done(())) => {},
            }
            at = 2;
        }
        have_done(
            Request::WriteFile(system.home_path("/.zshrc"), system.zshrc_base.clone()),
            replies,
            at,
        )
    }
}

} // verus!
