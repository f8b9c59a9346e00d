//! The build steps: one external command each, with its arguments, the
//! directory it runs in and, depending on the kind of step, the askpass
//! helper or the package repository it works with. Also the messages that
//! steps report and the choice of the package files in a build directory.
use vstd::prelude::*;
use vstd::string::StringExecFns;
use crate::paths::{join_path, parent_of, path_join, path_parent};
use crate::text::{chars_of, ends_with_chars, has_suffix};

verus! {

/// How a message is shown: plain, as success, as warning or as failure.
#[derive(Clone, Copy, Debug, PartialEq, Eq, Structural)]
pub enum ShowEnum {
    Normal,
    Good,
    Warn,
    Error,
}

/// A message for the output view.
#[derive(Clone, Debug)]
pub struct MessageItem {
    pub msg: String,
    pub kind: ShowEnum,
}

/// The texts of a list of strings.
pub open spec fn texts(v: Seq<String>) -> Seq<Seq<char>> {
    v.map_values(|s: String| s@)
}

/// Pushes a copy of `s` onto `v`.
fn push_text(v: &mut Vec<String>, s: &str)
    ensures
        texts(final(v)@) == texts(old(v)@).push(s@),
{
    let t = s.to_owned();
    v.push(t);
    assert(texts(v@) =~= texts(old(v)@).push(s@));
}

/// A build step: a command with arguments run in a build directory.
pub trait BuildProcessTrait: Sized {
    /// The command.
    spec fn cmd_text(&self) -> Seq<char>;

    /// The arguments, in order.
    spec fn arg_texts(&self) -> Seq<Seq<char>>;

    /// The directory the command runs in.
    spec fn dir_text(&self) -> Seq<char>;

    /// A step for `cmd`, with no arguments and no directory yet.
    fn new(cmd: &str) -> (p: Self)
        ensures
            p.cmd_text() == cmd@,
            p.arg_texts() == Seq::<Seq<char>>::empty(),
            p.dir_text() == Seq::<char>::empty(),
    ;

    /// Sets the directory the command runs in.
    fn setBuildDir(&mut self, dir: &str)
        ensures
            final(self).dir_text() == dir@,
            final(self).cmd_text() == old(self).cmd_text(),
            final(self).arg_texts() == old(self).arg_texts(),
    ;

    /// Sets the package repository, for the steps that use one.
    fn setRepo(&mut self, repo: &str)
        ensures
            final(self).dir_text() == old(self).dir_text(),
            final(self).cmd_text() == old(self).cmd_text(),
            final(self).arg_texts() == old(self).arg_texts(),
    ;

    /// Sets the askpass helper, for the steps that use one.
    fn setAskpass(&mut self, askpass: &str)
        ensures
            final(self).dir_text() == old(self).dir_text(),
            final(self).cmd_text() == old(self).cmd_text(),
            final(self).arg_texts() == old(self).arg_texts(),
    ;

    /// Appends an argument.
    fn addArg(&mut self, arg: &str)
        ensures
            final(self).arg_texts() == old(self).arg_texts().push(arg@),
            final(self).dir_text() == old(self).dir_text(),
            final(self).cmd_text() == old(self).cmd_text(),
    ;

    /// The command.
    fn cmd(&self) -> (c: String)
        ensures
            c@ == self.cmd_text(),
    ;
}

/// A step that may run through `sudo` and so may need an askpass helper.
pub struct BuildProcessInst {
    pub cmd: String,
    pub args: Vec<String>,
    pub buildDir: String,
    pub askpass: String,
}

/// The packaging step; before it runs, leftover package files are removed.
pub struct BuildProcess {
    pub cmd: String,
    pub args: Vec<String>,
    pub buildDir: String,
}

/// The step that moves the built packages into the repository and registers
/// them there.
pub struct BuildProcessRepo {
    pub cmd: String,
    pub args: Vec<String>,
    pub buildDir: String,
    pub repo: String,
}

impl BuildProcessTrait for BuildProcessInst {
    open spec fn cmd_text(&self) -> Seq<char> {
        self.cmd@
    }

    open spec fn arg_texts(&self) -> Seq<Seq<char>> {
        texts(self.args@)
    }

    open spec fn dir_text(&self) -> Seq<char> {
        self.buildDir@
    }

    fn new(cmd: &str) -> (p: Self)
        ensures
            p.askpass@ == Seq::<char>::empty(),
    {
        let p = BuildProcessInst {
            cmd: cmd.to_owned(),
            args: Vec::new(),
            buildDir: String::new(),
            askpass: String::new(),
        };
        assert(texts(p.args@) =~= Seq::<Seq<char>>::empty());
        p
    }

    fn setBuildDir(&mut self, dir: &str)
        ensures
            final(self).askpass == old(self).askpass,
    {
        self.buildDir = dir.to_owned();
    }

    fn setRepo(&mut self, repo: &str)
        ensures
            final(self).askpass == old(self).askpass,
    {
    }

    fn setAskpass(&mut self, askpass: &str)
        ensures
            final(self).askpass@ == askpass@,
    {
        self.askpass = askpass.to_owned();
    }

    fn addArg(&mut self, arg: &str)
        ensures
            final(self).askpass == old(self).askpass,
    {
        push_text(&mut self.args, arg);
    }

    fn cmd(&self) -> (c: String) {
        self.cmd.clone()
    }
}

impl BuildProcessTrait for BuildProcess {
    open spec fn cmd_text(&self) -> Seq<char> {
        self.cmd@
    }

    open spec fn arg_texts(&self) -> Seq<Seq<char>> {
        texts(self.args@)
    }

    open spec fn dir_text(&self) -> Seq<char> {
        self.buildDir@
    }

    fn new(cmd: &str) -> (p: Self) {
        let p = BuildProcess { cmd: cmd.to_owned(), args: Vec::new(), buildDir: String::new() };
        assert(texts(p.args@) =~= Seq::<Seq<char>>::empty());
        p
    }

    fn setBuildDir(&mut self, dir: &str) {
        self.buildDir = dir.to_owned();
    }

    fn setRepo(&mut self, repo: &str) {
    }

    fn setAskpass(&mut self, askpass: &str) {
    }

    fn addArg(&mut self, arg: &str) {
        push_text(&mut self.args, arg);
    }

    fn cmd(&self) -> (c: String) {
        self.cmd.clone()
    }
}

impl BuildProcessTrait for BuildProcessRepo {
    open spec fn cmd_text(&self) -> Seq<char> {
        self.cmd@
    }

    open spec fn arg_texts(&self) -> Seq<Seq<char>> {
        texts(self.args@)
    }

    open spec fn dir_text(&self) -> Seq<char> {
        self.buildDir@
    }

    fn new(cmd: &str) -> (p: Self)
        ensures
            p.repo@ == Seq::<char>::empty(),
    {
        let p = BuildProcessRepo {
            cmd: cmd.to_owned(),
            args: Vec::new(),
            buildDir: String::new(),
            repo: String::new(),
        };
        assert(texts(p.args@) =~= Seq::<Seq<char>>::empty());
        p
    }

    fn setBuildDir(&mut self, dir: &str)
        ensures
            final(self).repo == old(self).repo,
    {
        self.buildDir = dir.to_owned();
    }

    fn setRepo(&mut self, repo: &str)
        ensures
            final(self).repo@ == repo@,
    {
        self.repo = repo.to_owned();
    }

    fn setAskpass(&mut self, askpass: &str)
        ensures
            final(self).repo == old(self).repo,
    {
    }

    fn addArg(&mut self, arg: &str)
        ensures
            final(self).repo == old(self).repo,
    {
        push_text(&mut self.args, arg);
    }

    fn cmd(&self) -> (c: String) {
        self.cmd.clone()
    }
}

/// The three kinds of build step.
#[derive(Clone, Copy, Debug, PartialEq, Eq, Structural)]
pub enum TaskKind {
    Install,
    Package,
    RepoAdd,
}

/// What a build step holds, as text.
pub struct TaskModel {
    pub kind: TaskKind,
    pub cmd: Seq<char>,
    pub args: Seq<Seq<char>>,
    pub build_dir: Seq<char>,
    pub askpass: Seq<char>,
    pub repo: Seq<char>,
}

/// One build step of any kind.
pub enum BuildTask {
    Install(BuildProcessInst),
    Package(BuildProcess),
    RepoAdd(BuildProcessRepo),
}

impl BuildTask {
    /// The step as text; fields that a kind does not have are empty.
    pub open spec fn model(&self) -> TaskModel {
        match self {
            BuildTask::Install(p) => TaskModel {
                kind: TaskKind::Install,
                cmd: p.cmd@,
                args: texts(p.args@),
                build_dir: p.buildDir@,
                askpass: p.askpass@,
                repo: Seq::<char>::empty(),
            },
            BuildTask::Package(p) => TaskModel {
                kind: TaskKind::Package,
                cmd: p.cmd@,
                args: texts(p.args@),
                build_dir: p.buildDir@,
                askpass: Seq::<char>::empty(),
                repo: Seq::<char>::empty(),
            },
            BuildTask::RepoAdd(p) => TaskModel {
                kind: TaskKind::RepoAdd,
                cmd: p.cmd@,
                args: texts(p.args@),
                build_dir: p.buildDir@,
                askpass: Seq::<char>::empty(),
                repo: p.repo@,
            },
        }
    }

    /// The command of the step.
    pub fn cmd(&self) -> (c: String)
        ensures
            c@ == self.model().cmd,
    {
        match self {
            BuildTask::Install(p) => p.cmd.clone(),
            BuildTask::Package(p) => p.cmd.clone(),
            BuildTask::RepoAdd(p) => p.cmd.clone(),
        }
    }

    /// The message shown when the command could not be started; `err` is the
    /// text of the error. The kinds end the message differently.
    pub fn run_error(&self, err: &str) -> (m: String)
        ensures
            m@ == "Error "@ + err@ + " running "@ + self.model().cmd + (match self.model().kind {
                TaskKind::Install => Seq::<char>::empty(),
                TaskKind::Package => "\n"@,
                TaskKind::RepoAdd => " \n"@,
            }),
    {
        let mut m = "Error ".to_owned();
        m.append(err);
        m.append(" running ");
        match self {
            BuildTask::Install(p) => {
                m.append(p.cmd.as_str());
            },
            BuildTask::Package(p) => {
                m.append(p.cmd.as_str());
                m.append("\n");
            },
            BuildTask::RepoAdd(p) => {
                m.append(p.cmd.as_str());
                m.append(" \n");
            },
        }
        assert(m@ =~= "Error "@ + err@ + " running "@ + self.model().cmd + (match self.model().kind {
            TaskKind::Install => Seq::<char>::empty(),
            TaskKind::Package => "\n"@,
            TaskKind::RepoAdd => " \n"@,
        }));
        m
    }
}

/// The name of the environment variable that tells `sudo` the askpass helper.
pub const SUDO_ASKPASS: &'static str = "SUDO_ASKPASS";

/// The name of the environment variable that gives the install prefix on MinGW.
pub const MINGW_PREFIX: &'static str = "MINGW_PREFIX";

impl BuildProcessInst {
    /// The askpass helper to hand to the command in `SUDO_ASKPASS`, if one is set.
    pub fn askpass_env(&self) -> (r: Option<String>)
        ensures
            self.askpass@.len() == 0 ==> r is None,
            self.askpass@.len() > 0 ==> (r matches Some(a) && a@ == self.askpass@),
    {
        if self.askpass.as_str().is_empty() {
            None
        } else {
            Some(self.askpass.clone())
        }
    }
}

/// The ending of package files.
pub open spec fn package_suffix() -> Seq<char> {
    seq!['.', 'z', 's', 't']
}

/// A directory entry is a package file if it is a regular file whose name
/// ends with `.zst`.
pub open spec fn is_package(name: Seq<char>, is_file: bool) -> bool {
    has_suffix(name, package_suffix()) && is_file
}

/// Whether the entry `name` is a package file (see `is_package`).
pub fn is_package_file(name: &str, is_file: bool) -> (b: bool)
    ensures
        b == is_package(name@, is_file),
{
    let v = chars_of(name);
    let suffix: Vec<char> = vec!['.', 'z', 's', 't'];
    assert(suffix@ =~= package_suffix());
    ends_with_chars(&v, &suffix) && is_file
}

/// An entry of a directory listing: its file name and whether it is a
/// regular file.
#[derive(Clone, Debug)]
pub struct DirItem {
    pub name: String,
    pub is_file: bool,
}

/// The names of the package files among `entries`, in listing order.
pub open spec fn package_files(entries: Seq<DirItem>) -> Seq<Seq<char>>
    decreases entries.len(),
{
    if entries.len() == 0 {
        Seq::<Seq<char>>::empty()
    } else {
        let rest = package_files(entries.drop_last());
        let e = entries.last();
        if is_package(e.name@, e.is_file) {
            rest.push(e.name@)
        } else {
            rest
        }
    }
}

/// The names of the package files in a directory listing, in listing order;
/// these are the files the packaging step removes beforehand and the
/// repository step moves into the repository.
pub fn findPackageFiles(entries: &Vec<DirItem>) -> (names: Vec<String>)
    ensures
        texts(names@) == package_files(entries@),
{
    let mut names: Vec<String> = Vec::new();
    let mut i: usize = 0;
    while i < entries.len()
        invariant
            i <= entries.len(),
            texts(names@) == package_files(entries@.subrange(0, i as int)),
        decreases entries.len() - i,
    {
        let e = &entries[i];
        assert(entries@.subrange(0, i + 1).drop_last() =~= entries@.subrange(0, i as int));
        if is_package_file(e.name.as_str(), e.is_file) {
            push_text(&mut names, e.name.as_str());
        }
        i = i + 1;
    }
    assert(entries@.subrange(0, entries.len() as int) =~= entries@);
    names
}

/// The message shown when a leftover package file could not be removed.
pub fn removal_error(err: &str, file_name: &str) -> (m: String)
    ensures
        m@ == "Error "@ + err@ + " removing "@ + file_name@ + " form build dir"@,
{
    let mut m = "Error ".to_owned();
    m.append(err);
    m.append(" removing ");
    m.append(file_name);
    m.append(" form build dir");
    m
}

/// What the packaging step does after trying to remove the leftover package
/// file `file_name`: go on when it was removed; otherwise stop with the
/// removal message, leaving the remaining files and the command unrun.
pub fn removal_done(file_name: &str, outcome: &Result<(), String>) -> (r: Result<(), String>)
    ensures
        outcome is Ok ==> r is Ok,
        outcome matches Err(e) ==> (r matches Err(m) && m@ == "Error "@ + e@ + " removing "@ + file_name@
            + " form build dir"@),
{
    match outcome {
        Ok(()) => Ok(()),
        Err(e) => Err(removal_error(e.as_str(), file_name)),
    }
}

/// The message shown when a package file could not be copied into the repository.
pub fn copy_error(err: &str, file_name: &str) -> (m: String)
    ensures
        m@ == "Error "@ + err@ + " copying package file: "@ + file_name@,
{
    let mut m = "Error ".to_owned();
    m.append(err);
    m.append(" copying package file: ");
    m.append(file_name);
    m
}

impl BuildProcessRepo {
    /// Where the package file `file_name` goes: into the directory that holds
    /// the repository database. `None` when the repository path has no parent.
    pub fn target_of(&self, file_name: &str) -> (r: Option<String>)
        ensures
            match parent_of(self.repo@) {
                Some(dir) => r matches Some(t) && t@ == path_join(dir, file_name@),
                None => r is None,
            },
    {
        match path_parent(self.repo.as_str()) {
            Some(dir) => Some(join_path(dir.as_str(), file_name)),
            None => None,
        }
    }

    /// What the repository step does after trying to copy the package file
    /// `file_name` to `target`: when it was copied, the target joins the
    /// files to register and the step goes on (whether the original file
    /// could then be removed does not matter); otherwise it stops with the
    /// copy message, leaving the remaining files and the command unrun.
    pub fn copy_done(&self, added: &mut Vec<String>, file_name: &str, target: String, outcome: &Result<(), String>) -> (r: Result<(), String>)
        ensures
            outcome is Ok ==> r is Ok && texts(final(added)@) == texts(old(added)@).push(target@),
            outcome matches Err(e) ==> (r matches Err(m) && m@ == "Error "@ + e@ + " copying package file: "@
                + file_name@ && final(added)@ == old(added)@),
    {
        match outcome {
            Ok(()) => {
                added.push(target);
                assert(texts(added@) =~= texts(old(added)@).push(target@));
                Ok(())
            },
            Err(e) => Err(copy_error(e.as_str(), file_name)),
        }
    }

    /// The arguments the repository command runs with: the repository
    /// database, then the package files that were moved into the repository.
    pub fn run_args(&self, added: &Vec<String>) -> (args: Vec<String>)
        ensures
            texts(args@) == seq![self.repo@] + texts(added@),
    {
        let mut args: Vec<String> = Vec::new();
        push_text(&mut args, self.repo.as_str());
        let mut i: usize = 0;
        while i < added.len()
            invariant
                i <= added.len(),
                texts(args@) == seq![self.repo@] + texts(added@.subrange(0, i as int)),
            decreases added.len() - i,
        {
            push_text(&mut args, added[i].as_str());
            assert(texts(added@.subrange(0, i + 1)) =~= texts(added@.subrange(0, i as int)).push(added@[i as int]@));
            i = i + 1;
        }
        assert(added@.subrange(0, added.len() as int) =~= added@);
        args
    }
}

} // verus!
