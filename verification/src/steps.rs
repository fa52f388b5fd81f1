//! The steps of a check or an installation.
//!
//! A check or an installation touches the machine only through requests.
//! It is handed the replies to the requests that it has made so far, and
//! either makes the next request or is done. So it can be worked out here
//! and carried out elsewhere.

use vstd::prelude::*;
use crate::command::{plain, slices, CommandError, DCommand, DCommandView, Output};
use crate::status::{of_command_error, DependencyError, InstallationStatus};

verus! {

/// What a component asks to be done on the machine.
#[derive(Debug)]
pub enum Request {
    /// Run the command.
    Run(DCommand),
    /// Say whether something stands at the path.
    PathExists(String),
    /// Hand over what the file holds.
    ReadFile(String),
    /// Write the file at the path anew, with these contents.
    WriteFile(String, String),
    /// Move the file out of the way, to the same path with `.bak` behind it.
    Backup(String),
    /// Create the file, empty.
    CreateFile(String),
    /// Copy the first file to the second path.
    CopyFile(String, String),
    /// Fetch the address into the file at the path.
    Download(String, String),
}

/// A request as a mathematical value.
pub enum RequestView {
    Run(DCommandView),
    PathExists(Seq<char>),
    ReadFile(Seq<char>),
    WriteFile(Seq<char>, Seq<char>),
    Backup(Seq<char>),
    CreateFile(Seq<char>),
    CopyFile(Seq<char>, Seq<char>),
    Download(Seq<char>, Seq<char>),
}

impl View for Request {
    type V = RequestView;

    open spec fn view(&self) -> RequestView {
        match *self {
            Request::Run(command) => RequestView::Run(command@),
            Request::PathExists(path) => RequestView::PathExists(path@),
            Request::ReadFile(path) => RequestView::ReadFile(path@),
            Request::WriteFile(path, contents) => RequestView::WriteFile(path@, contents@),
            Request::Backup(path) => RequestView::Backup(path@),
            Request::CreateFile(path) => RequestView::CreateFile(path@),
            Request::CopyFile(from, to) => RequestView::CopyFile(from@, to@),
            Request::Download(url, to) => RequestView::Download(url@, to@),
        }
    }
}

impl Clone for Request {
    fn clone(&self) -> (copy: Self)
        ensures
            copy@ == self@,
    {
        match self {
            Request::Run(command) => Request::Run(command.clone()),
            Request::PathExists(path) => Request::PathExists(path.clone()),
            Request::ReadFile(path) => Request::ReadFile(path.clone()),
            Request::WriteFile(path, contents) => Request::WriteFile(
                path.clone(),
                contents.clone(),
            ),
            Request::Backup(path) => Request::Backup(path.clone()),
            Request::CreateFile(path) => Request::CreateFile(path.clone()),
            Request::CopyFile(from, to) => Request::CopyFile(from.clone(), to.clone()),
            Request::Download(url, to) => Request::Download(url.clone(), to.clone()),
        }
    }
}

/// What came of a request.
#[derive(Debug)]
pub enum Reply {
    /// Of `Run`: what the command left behind, or why it left nothing.
    Ran(Result<Output, CommandError>),
    /// Of `PathExists`.
    Exists(bool),
    /// Of `ReadFile`: what the file holds, or why it could not be read.
    Text(Result<String, DependencyError>),
    /// Of the other requests: that it was done, or why it was not.
    Finished(Result<(), DependencyError>),
}

/// What a check or an installation does next.
#[derive(Debug)]
pub enum Next<T> {
    /// It makes this request and goes on once the reply is there.
    Ask(Request),
    Done(T),
}

/// One step of a check or an installation as a mathematical value.
pub enum Step<T> {
    Ask(RequestView),
    Done(T),
    Failed(DependencyError),
}

/// The step that a result stands for.
pub open spec fn step_of<T>(r: Result<Next<T>, DependencyError>) -> Step<T> {
    match r {
        Ok(Next::Ask(request)) => Step::Ask(request@),
        Ok(Next::Done(value)) => Step::Done(value),
        Err(e) => Step::Failed(e),
    }
}

/// The step `rest`, once the step `first` is done: until then, and where it
/// fails, the step is that of `first`.
pub open spec fn after<A, T>(first: Step<A>, rest: Step<T>) -> Step<T> {
    match first {
        Step::Ask(request) => Step::Ask(request),
        Step::Failed(e) => Step::Failed(e),
        Step::Done(_) => rest,
    }
}

/// The error that a reply carries. A reply that carries none, where one was
/// looked for, is of an unknown kind.
pub open spec fn failure(reply: Reply) -> DependencyError {
    match reply {
        Reply::Ran(Err(e)) => of_command_error(e),
        Reply::Text(Err(e)) => e,
        Reply::Finished(Err(e)) => e,
        _ => DependencyError::Unknown,
    }
}

/// Whether the reply is the output of a command that ran.
pub open spec fn ran(reply: Reply) -> bool {
    reply matches Reply::Ran(Ok(_))
}

/// Whether the reply says that the command failed as a command.
pub open spec fn command_failed(reply: Reply) -> bool {
    reply matches Reply::Ran(Err(CommandError::CommandFailed(_)))
}

/// The step of running `commands` in order, given the replies so far: the
/// first reply that is no output of a command ends it with that reply's
/// error; otherwise the next command is asked for, until none is left.
pub open spec fn in_order(commands: Seq<DCommandView>, replies: Seq<Reply>) -> Step<()>
    decreases commands.len(),
{
    if commands.len() == 0 {
        Step::Done(())
    } else if replies.len() == 0 {
        Step::Ask(RequestView::Run(commands[0]))
    } else if !ran(replies[0]) {
        Step::Failed(failure(replies[0]))
    } else {
        in_order(commands.drop_first(), replies.drop_first())
    }
}

/// How many of the first replies are outputs of commands that ran, one
/// after the other and `limit` at most.
pub open spec fn completed(replies: Seq<Reply>, limit: nat) -> nat
    decreases limit,
{
    if limit == 0 || replies.len() == 0 || !ran(replies[0]) {
        0
    } else {
        1 + completed(replies.drop_first(), (limit - 1) as nat)
    }
}

/// Commands that were all run in order have each left a reply behind.
pub proof fn lemma_in_order_done(commands: Seq<DCommandView>, replies: Seq<Reply>)
    requires
        in_order(commands, replies) is Done,
    ensures
        completed(replies, commands.len()) == commands.len(),
    decreases commands.len(),
{
    if commands.len() > 0 {
        lemma_in_order_done(commands.drop_first(), replies.drop_first());
    }
}

/// The commands of a list as mathematical values.
pub open spec fn commands_of(commands: Seq<DCommand>) -> Seq<DCommandView> {
    Seq::new(commands.len(), |i: int| commands[i]@)
}

/// The error that a reply carries.
pub fn failure_of(reply: &Reply) -> (e: DependencyError)
    ensures
        e == failure(*reply),
{
    match reply {
        Reply::Ran(Err(e)) => DependencyError::of(e.clone()),
        Reply::Text(Err(e)) => e.clone(),
        Reply::Finished(Err(e)) => e.clone(),
        _ => DependencyError::Unknown,
    }
}

/// The output in the reply to a command that ran, or the reply's error.
pub fn output_of(reply: &Reply) -> (r: Result<&Output, DependencyError>)
    ensures
        match r {
            Ok(output) => *reply == Reply::Ran(Ok(*output)),
            Err(e) => !ran(*reply) && e == failure(*reply),
        },
{
    match reply {
        Reply::Ran(Ok(output)) => Ok(output),
        _ => Err(failure_of(reply)),
    }
}

/// Whether the reply to a command says that the command failed as a
/// command. A reply to something else is an error.
pub fn failed_as_command(reply: &Reply) -> (r: Result<bool, DependencyError>)
    ensures
        match r {
            Ok(failed) => *reply is Ran && failed == command_failed(*reply),
            Err(e) => !(*reply is Ran) && e == DependencyError::Unknown,
        },
{
    match reply {
        Reply::Ran(Err(CommandError::CommandFailed(_))) => Ok(true),
        Reply::Ran(_) => Ok(false),
        _ => Err(DependencyError::Unknown),
    }
}

/// What the reply says of a path. A reply to something else is an error.
pub fn exists_of(reply: &Reply) -> (r: Result<bool, DependencyError>)
    ensures
        match r {
            Ok(present) => *reply == Reply::Exists(present),
            Err(e) => !(*reply is Exists) && e == DependencyError::Unknown,
        },
{
    match reply {
        Reply::Exists(present) => Ok(*present),
        _ => Err(DependencyError::Unknown),
    }
}

/// The text in the reply to a file that was read, or the reply's error.
pub fn text_of(reply: &Reply) -> (r: Result<&String, DependencyError>)
    ensures
        match r {
            Ok(text) => *reply == Reply::Text(Ok(*text)),
            Err(e) => !(*reply matches Reply::Text(Ok(_))) && e == failure(*reply),
        },
{
    match reply {
        Reply::Text(Ok(text)) => Ok(text),
        _ => Err(failure_of(reply)),
    }
}

/// Whether the reply says that the request was done; if not, its error.
pub fn finished(reply: &Reply) -> (r: Result<(), DependencyError>)
    ensures
        match r {
            Ok(()) => *reply matches Reply::Finished(Ok(_)),
            Err(e) => !(*reply matches Reply::Finished(Ok(_))) && e == failure(*reply),
        },
{
    match reply {
        Reply::Finished(Ok(())) => Ok(()),
        _ => Err(failure_of(reply)),
    }
}

/// Counts the replies at the head of the list that are outputs of commands
/// that ran, `limit` at most.
pub fn count_completed(replies: &[Reply], limit: usize) -> (count: usize)
    ensures
        count == completed(replies@, limit as nat),
{
    let mut i: usize = 0;
    assert(replies@.subrange(0, replies@.len() as int) =~= replies@);
    while i < limit && i < replies.len()
        invariant
            0 <= i <= limit,
            i <= replies@.len(),
            completed(replies@, limit as nat) == i + completed(
                replies@.subrange(i as int, replies@.len() as int),
                (limit - i) as nat,
            ),
        decreases limit - i,
    {
        let ghost left = replies@.subrange(i as int, replies@.len() as int);
        assert(left[0] == replies@[i as int]);
        if output_of(&replies[i]).is_err() {
            return i;
        }
        assert(left.drop_first() =~= replies@.subrange(i + 1, replies@.len() as int));
        i = i + 1;
    }
    i
}

/// Runs `commands` in order: asks for the first that has no reply yet, and
/// gives up at the first reply that is no output of a command.
pub fn run_in_order(commands: &Vec<DCommand>, replies: &[Reply]) -> (r: Result<
    Next<()>,
    DependencyError,
>)
    ensures
        step_of(r) == in_order(commands_of(commands@), replies@),
{
    let mut i: usize = 0;
    assert(commands_of(commands@).subrange(0, commands@.len() as int) =~= commands_of(commands@));
    assert(replies@.subrange(0, replies@.len() as int) =~= replies@);
    while i < commands.len()
        invariant
            0 <= i <= commands.len(),
            i <= replies@.len(),
            in_order(commands_of(commands@), replies@) == in_order(
                commands_of(commands@).subrange(i as int, commands@.len() as int),
                replies@.subrange(i as int, replies@.len() as int),
            ),
        decreases commands.len() - i,
    {
        let ghost rest = commands_of(commands@).subrange(i as int, commands@.len() as int);
        let ghost left = replies@.subrange(i as int, replies@.len() as int);
        assert(rest[0] == commands@[i as int]@);
        if i >= replies.len() {
            return Ok(Next::Ask(Request::Run(commands[i].clone())));
        }
        assert(left[0] == replies@[i as int]);
        match output_of(&replies[i]) {
            Err(e) => {
                return Err(e);
            },
            Ok(_) => {},
        }
        assert(rest.drop_first() =~= commands_of(commands@).subrange(
            i + 1,
            commands@.len() as int,
        ));
        assert(left.drop_first() =~= replies@.subrange(i + 1, replies@.len() as int));
        i = i + 1;
    }
    Ok(Next::Done(()))
}

/// The command that looks a program up on the search path.
pub open spec fn which(program: Seq<char>) -> DCommandView {
    plain("which"@, seq![program])
}

/// The command that installs a package with `apt-get`.
pub open spec fn apt_install(package: Seq<char>) -> DCommandView {
    plain("apt-get"@, seq!["install"@, "-y"@, package])
}

/// The command that installs a package with `dnf`.
pub open spec fn dnf_install(package: Seq<char>) -> DCommandView {
    plain("dnf"@, seq!["install"@, "-y"@, package])
}

/// The command that looks a program up on the search path.
pub fn which_command(program: &str) -> (command: DCommand)
    ensures
        command@ == which(program@),
{
    let command = DCommand::new("which", &[program]);
    assert(slices(([program])@) =~= seq![program@]);
    command
}

/// The command that installs a package with `apt-get`.
pub fn apt_install_command(package: &str) -> (command: DCommand)
    ensures
        command@ == apt_install(package@),
{
    let command = DCommand::new("apt-get", &["install", "-y", package]);
    assert(slices((["install", "-y", package])@) =~= seq!["install"@, "-y"@, package@]);
    command
}

/// The command that installs a package with `dnf`.
pub fn dnf_install_command(package: &str) -> (command: DCommand)
    ensures
        command@ == dnf_install(package@),
{
    let command = DCommand::new("dnf", &["install", "-y", package]);
    assert(slices((["install", "-y", package])@) =~= seq!["install"@, "-y"@, package@]);
    command
}

/// The command that clones the head of a repository to a path.
pub open spec fn git_clone(url: Seq<char>, path: Seq<char>) -> DCommandView {
    plain("git"@, seq!["clone"@, "--depth=1"@, url, path])
}

/// The command that clones the head of a repository to a path.
pub fn git_clone_command(url: &str, path: &str) -> (command: DCommand)
    ensures
        command@ == git_clone(url@, path@),
{
    let command = DCommand::new("git", &["clone", "--depth=1", url, path]);
    assert(slices((["clone", "--depth=1", url, path])@) =~= seq![
        "clone"@,
        "--depth=1"@,
        url@,
        path@,
    ]);
    command
}

/// The status of a component that is there as a whole or not at all.
pub open spec fn whole_status(available: bool) -> InstallationStatus {
    if available {
        InstallationStatus::FullyInstalled
    } else {
        InstallationStatus::NotInstalled
    }
}

/// The status of a component that is there as a whole or not at all.
pub fn status_of(available: bool) -> (status: InstallationStatus)
    ensures
        status == whole_status(available),
{
    if available {
        InstallationStatus::FullyInstalled
    } else {
        InstallationStatus::NotInstalled
    }
}

/// The step of a check that runs one command and takes the component to be
/// there exactly when the reply says that the command failed as a command.
/// A command that could not be run at all counts as a component that is
/// not there.
pub open spec fn probed(probe: DCommandView, replies: Seq<Reply>) -> Step<bool> {
    if replies.len() == 0 {
        Step::Ask(RequestView::Run(probe))
    } else if replies[0] is Ran {
        Step::Done(command_failed(replies[0]))
    } else {
        Step::Failed(DependencyError::Unknown)
    }
}

/// A check that runs one command; see `probed`.
pub fn probe_with(probe: DCommand, replies: &[Reply]) -> (r: Result<Next<bool>, DependencyError>)
    ensures
        step_of(r) == probed(probe@, replies@),
{
    if replies.len() == 0 {
        return Ok(Next::Ask(Request::Run(probe)));
    }
    match failed_as_command(&replies[0]) {
        Ok(failed) => Ok(Next::Done(failed)),
        Err(e) => Err(e),
    }
}

/// The step of a check as a whole, made of the step of finding out whether
/// the component is there.
pub open spec fn whole_check(found: Step<bool>) -> Step<InstallationStatus> {
    match found {
        Step::Ask(request) => Step::Ask(request),
        Step::Done(available) => Step::Done(whole_status(available)),
        Step::Failed(e) => Step::Failed(e),
    }
}

/// What a check notes of a component: what it found, once it is done, and
/// until then what was noted before.
pub open spec fn noted(found: Step<bool>, before: bool) -> bool {
    match found {
        Step::Done(available) => available,
        _ => before,
    }
}

/// The step of an installation that is skipped where the component is
/// there, runs `commands` in order where it is not, and gives up where the
/// operating system has no commands for it.
pub open spec fn install_step(
    available: bool,
    commands: Option<Seq<DCommandView>>,
    replies: Seq<Reply>,
) -> Step<()> {
    if available {
        Step::Done(())
    } else {
        match commands {
            Some(list) => in_order(list, replies),
            None => Step::Failed(DependencyError::UnsupportedOperatingSystem),
        }
    }
}

/// An installation of the plain kind; see `install_step`.
pub fn install_with(available: bool, commands: Option<Vec<DCommand>>, replies: &[Reply]) -> (r:
    Result<Next<()>, DependencyError>)
    ensures
        step_of(r) == install_step(
            available,
            match commands {
                Some(list) => Some(commands_of(list@)),
                None => None,
            },
            replies@,
        ),
{
    if available {
        return Ok(Next::Done(()));
    }
    match commands {
        Some(list) => run_in_order(&list, replies),
        None => Err(DependencyError::UnsupportedOperatingSystem),
    }
}

/// The step of running one command as the request number `at`: the command
/// is asked for until its reply is there, and a reply that is no output of
/// a command ends the run with its error.
pub open spec fn answered(command: DCommandView, replies: Seq<Reply>, at: int) -> Step<Output> {
    if replies.len() <= at {
        Step::Ask(RequestView::Run(command))
    } else {
        match replies[at] {
            Reply::Ran(Ok(output)) => Step::Done(output),
            other => Step::Failed(failure(other)),
        }
    }
}

/// Runs one command as the request number `at`; see `answered`.
pub fn answer_to<'a>(command: DCommand, replies: &'a [Reply], at: usize) -> (r: Result<
    Next<&'a Output>,
    DependencyError,
>)
    ensures
        match answered(command@, replies@, at as int) {
            Step::Ask(request) => r matches Ok(Next::Ask(asked)) && asked@ == request,
            Step::Done(output) => r matches Ok(Next::Done(found)) && *found == output,
            Step::Failed(e) => r matches Err(failed) && failed == e,
        },
{
    if replies.len() <= at {
        return Ok(Next::Ask(Request::Run(command)));
    }
    match output_of(&replies[at]) {
        Ok(output) => Ok(Next::Done(output)),
        Err(e) => Err(e),
    }
}

/// The step of asking whether a path exists as the request number `at`.
pub open spec fn looked_at(path: Seq<char>, replies: Seq<Reply>, at: int) -> Step<bool> {
    if replies.len() <= at {
        Step::Ask(RequestView::PathExists(path))
    } else {
        match replies[at] {
            Reply::Exists(present) => Step::Done(present),
            _ => Step::Failed(DependencyError::Unknown),
        }
    }
}

/// Asks whether a path exists as the request number `at`; see `looked_at`.
pub fn look_at(path: String, replies: &[Reply], at: usize) -> (r: Result<
    Next<bool>,
    DependencyError,
>)
    ensures
        step_of(r) == looked_at(path@, replies@, at as int),
{
    if replies.len() <= at {
        return Ok(Next::Ask(Request::PathExists(path)));
    }
    match exists_of(&replies[at]) {
        Ok(present) => Ok(Next::Done(present)),
        Err(e) => Err(e),
    }
}

/// The step of reading a file as the request number `at`: a file that
/// could not be read ends the run with the reply's error.
pub open spec fn read_at(path: Seq<char>, replies: Seq<Reply>, at: int) -> Step<String> {
    if replies.len() <= at {
        Step::Ask(RequestView::ReadFile(path))
    } else {
        match replies[at] {
            Reply::Text(Ok(text)) => Step::Done(text),
            other => Step::Failed(failure(other)),
        }
    }
}

/// Reads a file as the request number `at`; see `read_at`.
pub fn read<'a>(path: String, replies: &'a [Reply], at: usize) -> (r: Result<
    Next<&'a String>,
    DependencyError,
>)
    ensures
        match read_at(path@, replies@, at as int) {
            Step::Ask(request) => r matches Ok(Next::Ask(asked)) && asked@ == request,
            Step::Done(text) => r matches Ok(Next::Done(found)) && *found == text,
            Step::Failed(e) => r matches Err(failed) && failed == e,
        },
{
    if replies.len() <= at {
        return Ok(Next::Ask(Request::ReadFile(path)));
    }
    match text_of(&replies[at]) {
        Ok(text) => Ok(Next::Done(text)),
        Err(e) => Err(e),
    }
}

/// The step of reading a file as the request number `at`, where a file that
/// could not be read counts as empty.
pub open spec fn read_or_empty_at(path: Seq<char>, replies: Seq<Reply>, at: int) -> Step<
    Seq<char>,
> {
    if replies.len() <= at {
        Step::Ask(RequestView::ReadFile(path))
    } else {
        match replies[at] {
            Reply::Text(Ok(text)) => Step::Done(text@),
            Reply::Text(Err(_)) => Step::Done(Seq::empty()),
            _ => Step::Failed(DependencyError::Unknown),
        }
    }
}

/// Reads a file as the request number `at`; see `read_or_empty_at`.
pub fn read_or_empty(path: String, replies: &[Reply], at: usize) -> (r: Result<
    Next<String>,
    DependencyError,
>)
    ensures
        match read_or_empty_at(path@, replies@, at as int) {
            Step::Ask(request) => r matches Ok(Next::Ask(asked)) && asked@ == request,
            Step::Done(text) => r matches Ok(Next::Done(found)) && found@ == text,
            Step::Failed(e) => r matches Err(failed) && failed == e,
        },
{
    if replies.len() <= at {
        return Ok(Next::Ask(Request::ReadFile(path)));
    }
    match &replies[at] {
        Reply::Text(Ok(text)) => Ok(Next::Done(text.clone())),
        Reply::Text(Err(_)) => Ok(Next::Done(String::new())),
        _ => Err(DependencyError::Unknown),
    }
}

/// The step of having `request` done as the request number `at`: a reply
/// that does not say that it was done ends the run with its error.
pub open spec fn done_at(request: RequestView, replies: Seq<Reply>, at: int) -> Step<()> {
    if replies.len() <= at {
        Step::Ask(request)
    } else {
        match replies[at] {
            Reply::Finished(Ok(_)) => Step::Done(()),
            other => Step::Failed(failure(other)),
        }
    }
}

/// Has `request` done as the request number `at`; see `done_at`.
pub fn have_done(request: Request, replies: &[Reply], at: usize) -> (r: Result<
    Next<()>,
    DependencyError,
>)
    ensures
        step_of(r) == done_at(request@, replies@, at as int),
{
    if replies.len() <= at {
        return Ok(Next::Ask(request));
    }
    match finished(&replies[at]) {
        Ok(()) => Ok(Next::Done(())),
        Err(e) => Err(e),
    }
}

/// The requests of a list as mathematical values.
pub open spec fn requests_of(requests: Seq<Request>) -> Seq<RequestView> {
    Seq::new(requests.len(), |i: int| requests[i]@)
}

/// The step of having `requests` done in order, the first of them as the
/// request number `from`: the first reply that does not say that its
/// request was done ends the run with its error; otherwise the next request
/// is made, until none is left.
pub open spec fn done_in_order(requests: Seq<RequestView>, replies: Seq<Reply>, from: int) -> Step<
    (),
>
    decreases requests.len(),
{
    if requests.len() == 0 {
        Step::Done(())
    } else {
        match done_at(requests[0], replies, from) {
            Step::Done(_) => done_in_order(requests.drop_first(), replies, from + 1),
            other => other,
        }
    }
}

/// Has `requests` done in order; see `done_in_order`.
pub fn have_all_done(requests: &Vec<Request>, replies: &[Reply], from: usize) -> (r: Result<
    Next<()>,
    DependencyError,
>)
    ensures
        step_of(r) == done_in_order(requests_of(requests@), replies@, from as int),
{
    let mut i: usize = 0;
    assert(requests_of(requests@).subrange(0, requests@.len() as int) =~= requests_of(
        requests@,
    ));
    while i < requests.len()
        invariant
            0 <= i <= requests.len(),
            done_in_order(requests_of(requests@), replies@, from as int) == done_in_order(
                requests_of(requests@).subrange(i as int, requests@.len() as int),
                replies@,
                from + i,
            ),
        decreases requests.len() - i,
    {
        let ghost rest = requests_of(requests@).subrange(i as int, requests@.len() as int);
        assert(rest[0] == requests@[i as int]@);
        let at = match from.checked_add(i) {
            Some(at) => at,
            None => {
                let count = replies.len();
                assert(replies@.len() <= from + i);
                return Ok(Next::Ask(requests[i].clone()));
            },
        };
        match have_done(requests[i].clone(), replies, at) {
            Err(e) => {
                return Err(e);
            },
            Ok(Next::Ask(request)) => {
                return Ok(Next::Ask(request));
            },
            Ok(Next::Done(())) => {},
        }
        assert(rest.drop_first() =~= requests_of(requests@).subrange(
            i + 1,
            requests@.len() as int,
        ));
        i = i + 1;
    }
    Ok(Next::Done(()))
}

/// The step of a check that takes a component to be there where something
/// stands at `path`, or where the reply to `probe` says that the command
/// failed as a command. Both are always looked at, the path first.
pub open spec fn found_at_or_by(path: Seq<char>, probe: DCommandView, replies: Seq<Reply>) -> Step<
    bool,
> {
    match looked_at(path, replies, 0) {
        Step::Ask(request) => Step::Ask(request),
        Step::Failed(e) => Step::Failed(e),
        Step::Done(present) => match probed(probe, replies.drop_first()) {
            Step::Ask(request) => Step::Ask(request),
            Step::Failed(e) => Step::Failed(e),
            Step::Done(failed) => Step::Done(present || failed),
        },
    }
}

/// A check by a path and a command; see `found_at_or_by`.
pub fn find_at_or_by(path: String, probe: DCommand, replies: &[Reply]) -> (r: Result<
    Next<bool>,
    DependencyError,
>)
    ensures
        step_of(r) == found_at_or_by(path@, probe@, replies@),
{
    let present = match look_at(path, replies, 0) {
        Err(e) => {
            return Err(e);
        },
        Ok(Next::Ask(request)) => {
            return Ok(Next::Ask(request));
        },
        Ok(Next::Done(present)) => present,
    };
    if replies.len() <= 1 {
        assert(replies@.drop_first().len() == 0);
        return Ok(Next::Ask(Request::Run(probe)));
    }
    assert(replies@.drop_first().len() == replies@.len() - 1);
    assert(replies@.drop_first()[0] == replies@[1]);
    match failed_as_command(&replies[1]) {
        Ok(failed) => {
            assert(probed(probe@, replies@.drop_first()) == Step::Done(failed));
            Ok(Next::Done(present || failed))
        },
        Err(e) => {
            assert(probed(probe@, replies@.drop_first()) == Step::<bool>::Failed(e));
            Err(e)
        },
    }
}

} // verus!
