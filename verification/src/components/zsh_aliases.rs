//! The file of aliases for the Z shell.

use vstd::prelude::*;
use vstd::string::StringExecFns;
use crate::component::{all_declared, declaration, declared, DependencyInfo, DependencyInstallable};
use crate::components::zsh::Zsh;
use crate::dependency::{declarations, Dependency, DependencyView};
use crate::status::{ConfigStatus, DependencyError, InstallationStatus};
use crate::steps::{
    done_in_order, have_all_done, look_at, looked_at, read, read_at, requests_of, status_of,
    step_of, whole_status, Next, Reply, Request, RequestView, Step,
};
use crate::system::{OperatingSystem, SystemData};
use crate::text::{contains, lines, lines_of, occurs_in, texts};

verus! {

/// Whether every line of `reference` stands somewhere in `contents`.
pub open spec fn all_lines_occur(reference: Seq<char>, contents: Seq<char>) -> bool {
    forall|i: int|
        0 <= i < lines_of(reference).len() ==> occurs_in(
            #[trigger] lines_of(reference)[i],
            contents,
        )
}

/// Those of the first `n` of `lines` that stand nowhere in `reference`, in
/// order.
pub open spec fn lines_unknown_to(lines: Seq<Seq<char>>, reference: Seq<char>, n: nat) -> Seq<
    Seq<char>,
>
    decreases n,
{
    if n == 0 || n > lines.len() {
        Seq::empty()
    } else {
        let before = lines_unknown_to(lines, reference, (n - 1) as nat);
        if occurs_in(lines[n - 1], reference) {
            before
        } else {
            before.push(lines[n - 1])
        }
    }
}

/// Whether every line of `reference` stands somewhere in `contents`.
pub fn has_all_lines(reference: &str, contents: &str) -> (all: bool)
    ensures
        all == all_lines_occur(reference@, contents@),
{
    let wanted = lines(reference);
    assert(texts(wanted@).len() == wanted@.len());
    let mut i: usize = 0;
    while i < wanted.len()
        invariant
            0 <= i <= wanted.len(),
            texts(wanted@) == lines_of(reference@),
            forall|j: int|
                0 <= j < i ==> occurs_in(#[trigger] lines_of(reference@)[j], contents@),
        decreases wanted.len() - i,
    {
        assert(texts(wanted@)[i as int] == wanted@[i as int]@);
        if !contains(contents, wanted[i].as_str()) {
            return false;
        }
        i = i + 1;
    }
    true
}

/// The file `.zsh_aliases`, and what the last check found of it.
#[derive(Debug, Clone, Copy)]
pub struct ZshAliases {
    pub zsh_aliases_available: ConfigStatus,
}

impl Default for ZshAliases {
    fn default() -> (component: Self)
        ensures
            component.zsh_aliases_available == ConfigStatus::NotPresent,
    {
        ZshAliases { zsh_aliases_available: ConfigStatus::NotPresent }
    }
}

impl ZshAliases {
    /// The component as it is before anything was checked: the same value
    /// at every call.
    pub fn singleton() -> (component: &'static Self)
        ensures
            component.zsh_aliases_available == ConfigStatus::NotPresent,
    {
        &ZshAliases { zsh_aliases_available: ConfigStatus::NotPresent }
    }

    /// What the component declares on an operating system.
    pub open spec fn declared_on(os: OperatingSystem) -> Option<DependencyView> {
        declared(&ZshAliases { zsh_aliases_available: ConfigStatus::NotPresent }, os)
    }

    /// Where the file stands.
    pub open spec fn path(system: &SystemData) -> Seq<char> {
        system.home_dir@ + "/.zsh_aliases"@
    }

    /// The step of finding out what there is of the file: whether it is
    /// there, and, if it is, whether it holds every line that it should.
    pub open spec fn found(system: &SystemData, replies: Seq<Reply>) -> Step<ConfigStatus> {
        match looked_at(ZshAliases::path(system), replies, 0) {
            Step::Ask(request) => Step::Ask(request),
            Step::Failed(e) => Step::Failed(e),
            Step::Done(present) => if !present {
                Step::Done(ConfigStatus::NotPresent)
            } else {
                match read_at(ZshAliases::path(system), replies, 1) {
                    Step::Ask(request) => Step::Ask(request),
                    Step::Failed(e) => Step::Failed(e),
                    Step::Done(contents) => Step::Done(
                        if all_lines_occur(system.zsh_aliases@, contents@) {
                            ConfigStatus::PresentCorrect
                        } else {
                            ConfigStatus::PresentIncorrect
                        },
                    ),
                }
            },
        }
    }

    /// The step with which an installation reads what the file holds. A
    /// file that cannot be read counts as empty.
    pub open spec fn old_contents(system: &SystemData, replies: Seq<Reply>) -> Step<Seq<char>> {
        if replies.len() == 0 {
            Step::Ask(RequestView::ReadFile(ZshAliases::path(system)))
        } else {
            match replies[0] {
                Reply::Text(Ok(contents)) => Step::Done(contents@),
                Reply::Text(Err(_)) => Step::Done(Seq::empty()),
                _ => Step::Failed(DependencyError::Unknown),
            }
        }
    }

    /// What an installation has done to a file that held `contents`: a
    /// file that is in the way is moved aside; the file is written as it
    /// should be; and then, for every line of the old contents that stands
    /// nowhere in the new, the file is written anew with the old contents
    /// and that line behind them.
    pub open spec fn requests(system: &SystemData, contents: Seq<char>, present: bool) -> Seq<
        RequestView,
    > {
        let path = ZshAliases::path(system);
        let unknown = lines_unknown_to(
            lines_of(contents),
            system.zsh_aliases@,
            lines_of(contents).len(),
        );
        let moved = if present {
            seq![RequestView::Backup(path)]
        } else {
            Seq::empty()
        };
        moved + seq![RequestView::WriteFile(path, system.zsh_aliases@)] + Seq::new(
            unknown.len(),
            |k: int| RequestView::WriteFile(path, contents + "\n"@ + unknown[k]),
        )
    }

    /// The step of an installation.
    pub open spec fn installed(self, system: &SystemData, replies: Seq<Reply>) -> Step<()> {
        if self.zsh_aliases_available is PresentCorrect {
            Step::Done(())
        } else {
            match ZshAliases::old_contents(system, replies) {
                Step::Ask(request) => Step::Ask(request),
                Step::Failed(e) => Step::Failed(e),
                Step::Done(contents) => match looked_at(ZshAliases::path(system), replies, 1) {
                    Step::Ask(request) => Step::Ask(request),
                    Step::Failed(e) => Step::Failed(e),
                    Step::Done(present) => done_in_order(
                        ZshAliases::requests(system, contents, present),
                        replies,
                        2,
                    ),
                },
            }
        }
    }
}

impl DependencyInfo for ZshAliases {
    open spec fn spec_name(&self) -> Seq<char> {
        "zsh_aliases"@
    }

    open spec fn spec_prerequisites(&self, os: OperatingSystem) -> Option<Seq<DependencyView>> {
        all_declared(
            seq![
                Zsh::declared_on(os),
            ],
        )
    }

    fn name(&self) -> (name: &'static str) {
        "zsh_aliases"
    }

    fn prerequisites(&self, os: OperatingSystem) -> (r: Result<Vec<Dependency>, DependencyError>) {
        let mut list: Vec<Dependency> = Vec::new();
        list.push(declaration(Zsh::singleton(), os)?);
        assert(declarations(list@) =~= all_declared(
            seq![
                Zsh::declared_on(os),
            ],
        )->0);
        Ok(list)
    }
}

impl DependencyInstallable for ZshAliases {
    /// Looks whether the file is there and holds every line that it should.
    /// The component counts as installed only where it does.
    fn is_installed(&mut self, system: &SystemData, replies: &[Reply]) -> (r: Result<
        Next<InstallationStatus>,
        DependencyError,
    >)
        ensures
            step_of(r) == (match ZshAliases::found(system, replies@) {
                Step::Ask(request) => Step::Ask(request),
                Step::Failed(e) => Step::Failed(e),
                Step::Done(status) => Step::Done(whole_status(status is PresentCorrect)),
            }),
            final(self).zsh_aliases_available == (match ZshAliases::found(system, replies@) {
                Step::Done(status) => status,
                _ => old(self).zsh_aliases_available,
            }),
    {
        let present = match look_at(system.home_path("/.zsh_aliases"), replies, 0) {
            Err(e) => {
                return Err(e);
            },
            Ok(Next::Ask(request)) => {
                return Ok(Next::Ask(request));
            },
            Ok(Next::Done(present)) => present,
        };
        let mut all_present = false;
        if present {
            let contents = match read(system.home_path("/.zsh_aliases"), replies, 1) {
                Err(e) => {
                    return Err(e);
                },
                Ok(Next::Ask(request)) => {
                    return Ok(Next::Ask(request));
                },
                Ok(Next::Done(contents)) => contents,
            };
            all_present = has_all_lines(system.zsh_aliases.as_str(), contents.as_str());
        }
        let status = ConfigStatus::of(present, all_present);
        self.zsh_aliases_available = status;
        Ok(Next::Done(status_of(status.is_correct())))
    }

    /// Writes the file as it should be, unless the last check found it so,
    /// and keeps the user's own lines; see `requests`. Once all is done the
    /// file is noted as correct.
    fn install(&mut self, system: &SystemData, replies: &[Reply]) -> (r: Result<
        Next<()>,
        DependencyError,
    >)
        ensures
            step_of(r) == old(self).installed(system, replies@),
            final(self).zsh_aliases_available == (if step_of(r) is Done {
                ConfigStatus::PresentCorrect
            } else {
                old(self).zsh_aliases_available
            }),
    {
        if self.zsh_aliases_available.is_correct() {
            return Ok(Next::Done(()));
        }
        let path = system.home_path("/.zsh_aliases");
        if replies.len() == 0 {
            return Ok(Next::Ask(Request::ReadFile(path)));
        }
        let contents = match &replies[0] {
            Reply::Text(Ok(contents)) => contents.clone(),
            Reply::Text(Err(_)) => String::new(),
            _ => {
                return Err(DependencyError::Unknown);
            },
        };
        let present = match look_at(path.clone(), replies, 1) {
            Err(e) => {
                return Err(e);
            },
            Ok(Next::Ask(request)) => {
                return Ok(Next::Ask(request));
            },
            Ok(Next::Done(present)) => present,
        };
        let mut list: Vec<Request> = Vec::new();
        if present {
            list.push(Request::Backup(path.clone()));
        }
        list.push(Request::WriteFile(path.clone(), system.zsh_aliases.clone()));
        let ghost head = requests_of(list@);
        let own = lines(contents.as_str());
        assert(texts(own@).len() == own@.len());
        let mut i: usize = 0;
        while i < own.len()
            invariant
                0 <= i <= own.len(),
                texts(own@) == lines_of(contents@),
                path@ == ZshAliases::path(system),
                requests_of(list@) == head + Seq::new(
                    lines_unknown_to(lines_of(contents@), system.zsh_aliases@, i as nat).len(),
                    |k: int|
                        RequestView::WriteFile(
                            path@,
                            contents@ + "\n"@ + lines_unknown_to(
                                lines_of(contents@),
                                system.zsh_aliases@,
                                i as nat,
                            )[k],
                        ),
                ),
            decreases own.len() - i,
        {
            assert(texts(own@)[i as int] == own@[i as int]@);
            if !contains(system.zsh_aliases.as_str(), own[i].as_str()) {
                let mut whole = contents.clone();
                whole.append("\n");
                whole.append(own[i].as_str());
                let ghost before = requests_of(list@);
                list.push(Request::WriteFile(path.clone(), whole));
                assert(requests_of(list@) =~= before.push(
                    RequestView::WriteFile(path@, contents@ + "\n"@ + own@[i as int]@),
                ));
            }
            assert(requests_of(list@) =~= head + Seq::new(
                lines_unknown_to(lines_of(contents@), system.zsh_aliases@, (i + 1) as nat).len(),
                |k: int|
                    RequestView::WriteFile(
                        path@,
                        contents@ + "\n"@ + lines_unknown_to(
                            lines_of(contents@),
                            system.zsh_aliases@,
                            (i + 1) as nat,
                        )[k],
                    ),
            ));
            i = i + 1;
        }
        assert(requests_of(list@) =~= ZshAliases::requests(system, contents@, present));
        let r = have_all_done(&list, replies, 2);
        if let Ok(Next::Done(())) = r {
            self.zsh_aliases_available = ConfigStatus::PresentCorrect;
        }
        r
    }
}

} // verus!
