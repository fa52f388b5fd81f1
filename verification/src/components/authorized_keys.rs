//! The keys that may log in as the user.

use vstd::prelude::*;
use vstd::string::StringExecFns;
use crate::component::{declared, DependencyInfo, DependencyInstallable};
use crate::dependency::{declarations, Dependency, DependencyView};
use crate::status::{ConfigStatus, DependencyError, InstallationStatus};
use crate::steps::{
    done_at, done_in_order, have_all_done, have_done, look_at, looked_at, read, read_at,
    requests_of, step_of, Next, Reply, Request, RequestView, Step,
};
use crate::system::{OperatingSystem, SystemData};
use crate::text::{contains, occurs_in, texts};

verus! {

/// Whether each of `keys` stands somewhere in `contents`.
pub open spec fn all_keys_occur(keys: Seq<Seq<char>>, contents: Seq<char>) -> bool {
    forall|i: int| 0 <= i < keys.len() ==> occurs_in(#[trigger] keys[i], contents)
}

/// `contents` after the first `n` of `keys` were gone through in order, and
/// each that did not stand in what was there by then was put behind it on a
/// line of its own.
pub open spec fn with_keys(contents: Seq<char>, keys: Seq<Seq<char>>, n: nat) -> Seq<char>
    decreases n,
{
    if n == 0 || n > keys.len() {
        contents
    } else {
        let before = with_keys(contents, keys, (n - 1) as nat);
        if occurs_in(keys[n - 1], before) {
            before
        } else {
            before + "\n"@ + keys[n - 1]
        }
    }
}

/// Whether each of `keys` stands somewhere in `contents`.
pub fn has_all_keys(keys: &Vec<String>, contents: &str) -> (all: bool)
    ensures
        all == all_keys_occur(texts(keys@), contents@),
{
    let mut i: usize = 0;
    while i < keys.len()
        invariant
            0 <= i <= keys.len(),
            forall|j: int| 0 <= j < i ==> occurs_in(#[trigger] texts(keys@)[j], contents@),
        decreases keys.len() - i,
    {
        assert(texts(keys@)[i as int] == keys@[i as int]@);
        if !contains(contents, keys[i].as_str()) {
            return false;
        }
        i = i + 1;
    }
    true
}

/// `contents` with every key that it lacks put behind it; see `with_keys`.
pub fn add_keys(contents: &str, keys: &Vec<String>) -> (whole: String)
    ensures
        whole@ == with_keys(contents@, texts(keys@), keys@.len()),
{
    let mut whole = contents.to_owned();
    let mut i: usize = 0;
    assert(texts(keys@).len() == keys@.len());
    while i < keys.len()
        invariant
            0 <= i <= keys.len(),
            whole@ == with_keys(contents@, texts(keys@), i as nat),
        decreases keys.len() - i,
    {
        assert(texts(keys@)[i as int] == keys@[i as int]@);
        if !contains(whole.as_str(), keys[i].as_str()) {
            whole.append("\n");
            whole.append(keys[i].as_str());
        }
        i = i + 1;
    }
    whole
}

/// The file of authorized keys, and what the last check found of it.
#[derive(Debug, Clone, Copy)]
pub struct AuthorizedKeys {
    pub authorized_keys_available: ConfigStatus,
}

impl Default for AuthorizedKeys {
    fn default() -> (component: Self)
        ensures
            component.authorized_keys_available == ConfigStatus::NotPresent,
    {
        AuthorizedKeys { authorized_keys_available: ConfigStatus::NotPresent }
    }
}

impl AuthorizedKeys {
    /// The component as it is before anything was checked: the same value
    /// at every call.
    pub fn singleton() -> (component: &'static Self)
        ensures
            component.authorized_keys_available == ConfigStatus::NotPresent,
    {
        &AuthorizedKeys { authorized_keys_available: ConfigStatus::NotPresent }
    }

    /// What the component declares on an operating system.
    pub open spec fn declared_on(os: OperatingSystem) -> Option<DependencyView> {
        declared(&AuthorizedKeys { authorized_keys_available: ConfigStatus::NotPresent }, os)
    }

    /// Where the file stands.
    pub open spec fn path(system: &SystemData) -> Seq<char> {
        system.home_dir@ + "/.ssh/authorized_keys"@
    }

    /// The step of finding out what there is of the file: whether it is
    /// there, and, if it is, whether it holds every key.
    pub open spec fn found(system: &SystemData, replies: Seq<Reply>) -> Step<ConfigStatus> {
        match looked_at(AuthorizedKeys::path(system), replies, 0) {
            Step::Ask(request) => Step::Ask(request),
            Step::Failed(e) => Step::Failed(e),
            Step::Done(present) => if !present {
                Step::Done(ConfigStatus::NotPresent)
            } else {
                match read_at(AuthorizedKeys::path(system), replies, 1) {
                    Step::Ask(request) => Step::Ask(request),
                    Step::Failed(e) => Step::Failed(e),
                    Step::Done(contents) => Step::Done(
                        if all_keys_occur(texts(system.authorized_keys@), contents@) {
                            ConfigStatus::PresentCorrect
                        } else {
                            ConfigStatus::PresentIncorrect
                        },
                    ),
                }
            },
        }
    }

    /// The status of the component, given what was found of the file. A
    /// file that is not there counts as nothing left to do.
    pub open spec fn status(config: ConfigStatus) -> InstallationStatus {
        match config {
            ConfigStatus::PresentCorrect => InstallationStatus::FullyInstalled,
            ConfigStatus::PresentIncorrect => InstallationStatus::PartialInstall,
            ConfigStatus::NotPresent => InstallationStatus::FullyInstalled,
        }
    }

    /// What an installation has done before it reads the file: a file that
    /// is not there is created; one that is there is moved aside and copied
    /// back.
    pub open spec fn prepared(system: &SystemData, present: bool) -> Seq<RequestView> {
        let path = AuthorizedKeys::path(system);
        if present {
            seq![RequestView::Backup(path), RequestView::CopyFile(path + ".bak"@, path)]
        } else {
            seq![RequestView::CreateFile(path)]
        }
    }

    /// The step of an installation: the file is prepared, read, and written
    /// anew with every key that it lacked behind what it held.
    pub open spec fn installed(self, system: &SystemData, replies: Seq<Reply>) -> Step<()> {
        let path = AuthorizedKeys::path(system);
        if self.authorized_keys_available is PresentCorrect {
            Step::Done(())
        } else {
            match looked_at(path, replies, 0) {
                Step::Ask(request) => Step::Ask(request),
                Step::Failed(e) => Step::Failed(e),
                Step::Done(present) => {
                    let prepared = AuthorizedKeys::prepared(system, present);
                    match done_in_order(prepared, replies, 1) {
                        Step::Ask(request) => Step::Ask(request),
                        Step::Failed(e) => Step::Failed(e),
                        Step::Done(_) => match read_at(
                            path,
                            replies,
                            1 + prepared.len() as int,
                        ) {
                            Step::Ask(request) => Step::Ask(request),
                            Step::Failed(e) => Step::Failed(e),
                            Step::Done(contents) => done_at(
                                RequestView::WriteFile(
                                    path,
                                    with_keys(
                                        contents@,
                                        texts(system.authorized_keys@),
                                        system.authorized_keys@.len(),
                                    ),
                                ),
                                replies,
                                2 + prepared.len() as int,
                            ),
                        },
                    }
                },
            }
        }
    }
}

impl DependencyInfo for AuthorizedKeys {
    open spec fn spec_name(&self) -> Seq<char> {
        "authorized_keys"@
    }

    open spec fn spec_prerequisites(&self, os: OperatingSystem) -> Option<Seq<DependencyView>> {
        Some(Seq::empty())
    }

    fn name(&self) -> (name: &'static str) {
        "authorized_keys"
    }

    fn prerequisites(&self, os: OperatingSystem) -> (r: Result<Vec<Dependency>, DependencyError>) {
        let list: Vec<Dependency> = Vec::new();
        assert(declarations(list@) =~= Seq::<DependencyView>::empty());
        Ok(list)
    }
}

impl DependencyInstallable for AuthorizedKeys {
    /// Looks whether the file is there and holds every key.
    fn is_installed(&mut self, system: &SystemData, replies: &[Reply]) -> (r: Result<
        Next<InstallationStatus>,
        DependencyError,
    >)
        ensures
            step_of(r) == (match AuthorizedKeys::found(system, replies@) {
                Step::Ask(request) => Step::Ask(request),
                Step::Failed(e) => Step::Failed(e),
                Step::Done(config) => Step::Done(AuthorizedKeys::status(config)),
            }),
            final(self).authorized_keys_available == (match AuthorizedKeys::found(
                system,
                replies@,
            ) {
                Step::Done(config) => config,
                _ => old(self).authorized_keys_available,
            }),
    {
        let present = match look_at(system.home_path("/.ssh/authorized_keys"), replies, 0) {
            Err(e) => {
                return Err(e);
            },
            Ok(Next::Ask(request)) => {
                return Ok(Next::Ask(request));
            },
            Ok(Next::Done(present)) => present,
        };
        let mut is_correct = true;
        if present {
            let contents = match read(system.home_path("/.ssh/authorized_keys"), replies, 1) {
                Err(e) => {
                    return Err(e);
                },
                Ok(Next::Ask(request)) => {
                    return Ok(Next::Ask(request));
                },
                Ok(Next::Done(contents)) => contents,
            };
            is_correct = has_all_keys(&system.authorized_keys, contents.as_str());
        }
        let config = if present && is_correct {
            ConfigStatus::PresentCorrect
        } else if !is_correct {
            ConfigStatus::PresentIncorrect
        } else {
            ConfigStatus::NotPresent
        };
        self.authorized_keys_available = config;
        match config {
            ConfigStatus::PresentCorrect => Ok(Next::Done(InstallationStatus::FullyInstalled)),
            ConfigStatus::PresentIncorrect => Ok(Next::Done(InstallationStatus::PartialInstall)),
            ConfigStatus::NotPresent => Ok(Next::Done(InstallationStatus::FullyInstalled)),
        }
    }

    /// Puts every key that the file lacks behind what it holds, unless the
    /// last check found the file complete. What the check noted stays as it
    /// is.
    fn install(&mut self, system: &SystemData, replies: &[Reply]) -> (r: Result<
        Next<()>,
        DependencyError,
    >)
        ensures
            step_of(r) == old(self).installed(system, replies@),
            final(self).authorized_keys_available == old(self).authorized_keys_available,
    {
        if self.authorized_keys_available.is_correct() {
            return Ok(Next::Done(()));
        }
        let path = system.home_path("/.ssh/authorized_keys");
        let present = match look_at(path.clone(), replies, 0) {
            Err(e) => {
                return Err(e);
            },
            Ok(Next::Ask(request)) => {
                return Ok(Next::Ask(request));
            },
            Ok(Next::Done(present)) => present,
        };
        let mut list: Vec<Request> = Vec::new();
        let mut at: usize = 2;
        if present {
            let mut aside = path.clone();
            aside.append(".bak");
            list.push(Request::Backup(path.clone()));
            list.push(Request::CopyFile(aside, path.clone()));
            at = 3;
        } else {
            list.push(Request::CreateFile(path.clone()));
        }
        assert(requests_of(list@) =~= AuthorizedKeys::prepared(system, present));
        match have_all_done(&list, replies, 1) {
            Err(e) => {
                return Err(e);
            },
            Ok(Next::Ask(request)) => {
                return Ok(Next::Ask(request));
            },
            Ok(Next::Done(())) => {},
        }
        let contents = match read(path.clone(), replies, at) {
            Err(e) => {
                return Err(e);
            },
            Ok(Next::Ask(request)) => {
                return Ok(Next::Ask(request));
            },
            Ok(Next::Done(contents)) => contents,
        };
        let whole = add_keys(contents.as_str(), &system.authorized_keys);
        have_done(Request::WriteFile(path, whole), replies, at + 1)
    }
}

} // verus!
