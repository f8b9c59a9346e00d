//! The build plans: which steps build, package and install a project, for a
//! meson project and for a pacman package.
use vstd::prelude::*;
use vstd::string::StringExecFns;
use crate::paths::{is_entry_name, parent_of, path_join, path_parent};
use crate::pkgbuild::declared_name;
use crate::process::{
    texts, BuildProcess, BuildProcessInst, BuildProcessRepo, BuildProcessTrait, BuildTask, TaskKind,
    TaskModel,
};
use crate::project::{build_dir_name, pkgbuild_file, BuildProject, ProjectView};
use crate::text::same_text;

verus! {

/// The arguments that `checkAskPass` adds to a `sudo` step: `--askpass` when
/// `SUDO_ASKPASS` is set in the environment or a helper is configured.
pub open spec fn askpass_args(env_set: bool, configured: Seq<char>) -> Seq<Seq<char>> {
    if env_set || configured.len() > 0 {
        seq!["--askpass"@]
    } else {
        Seq::<Seq<char>>::empty()
    }
}

/// The helper that `checkAskPass` hands to a step: the configured one, but
/// only when `SUDO_ASKPASS` is not already set in the environment.
pub open spec fn askpass_helper(env_set: bool, configured: Seq<char>, before: Seq<char>) -> Seq<char> {
    if !env_set && configured.len() > 0 {
        configured
    } else {
        before
    }
}

/// No askpass helper is known: none in the environment and none configured.
pub open spec fn askpass_missing(env_set: bool, configured: Seq<char>) -> bool {
    !env_set && configured.len() == 0
}

/// The notice printed when no askpass helper is known.
pub const ASKPASS_NOTICE: &'static str = "A existing environment var SUDO_ASKPASS was not found, and the setting ~/.config/pyBuild.conf Askpass=path_askpass_executable was missing as well, this might work if the user can use sudo directly (not recommended)";

/// Prepares a `sudo` step for the askpass helper: when `SUDO_ASKPASS` is set
/// in the environment (`env_askpass_set`) the step only gets `--askpass`;
/// otherwise the helper configured for the project is handed to the step
/// together with `--askpass`. With neither, the step stays as it is and the
/// result tells that the missing-helper notice applies.
pub fn checkAskPass(proc_install: &mut BuildProcessInst, project: &BuildProject, env_askpass_set: bool) -> (missing: bool)
    ensures
        missing == askpass_missing(env_askpass_set, project@.askpass),
        final(proc_install).cmd@ == old(proc_install).cmd@,
        final(proc_install).buildDir@ == old(proc_install).buildDir@,
        texts(final(proc_install).args@) == texts(old(proc_install).args@) + askpass_args(
            env_askpass_set,
            project@.askpass,
        ),
        final(proc_install).askpass@ == askpass_helper(
            env_askpass_set,
            project@.askpass,
            old(proc_install).askpass@,
        ),
{
    if !env_askpass_set {
        let ask = project.askpass();
        if ask.as_str().is_empty() {
            assert(texts(proc_install.args@) =~= texts(proc_install.args@) + Seq::<Seq<char>>::empty());
            true
        } else {
            proc_install.setAskpass(ask.as_str());
            proc_install.addArg("--askpass");
            false
        }
    } else {
        proc_install.addArg("--askpass");
        false
    }
}

/// The steps of a build, and how often the missing-helper notice applies.
pub struct BuildPlan {
    pub tasks: Vec<BuildTask>,
    pub askpass_notices: usize,
}

/// The steps as text.
pub open spec fn task_models(tasks: Seq<BuildTask>) -> Seq<TaskModel> {
    tasks.map_values(|t: BuildTask| t.model())
}

/// A `sudo` step of a build, in `dir`, running `args` after the askpass
/// arguments.
pub open spec fn sudo_model(dir: Seq<char>, env_set: bool, configured: Seq<char>, args: Seq<Seq<char>>) -> TaskModel {
    TaskModel {
        kind: TaskKind::Install,
        cmd: "sudo"@,
        args: askpass_args(env_set, configured) + args,
        build_dir: dir,
        askpass: askpass_helper(env_set, configured, Seq::<char>::empty()),
        repo: Seq::<char>::empty(),
    }
}

/// A step that runs `cmd` with `args` in `dir` directly.
pub open spec fn plain_model(dir: Seq<char>, cmd: Seq<char>, args: Seq<Seq<char>>) -> TaskModel {
    TaskModel {
        kind: TaskKind::Install,
        cmd: cmd,
        args: args,
        build_dir: dir,
        askpass: Seq::<char>::empty(),
        repo: Seq::<char>::empty(),
    }
}

/// What is known about a meson project before it is built.
pub struct MesonFacts {
    /// The build directory exists.
    pub build_dir_is_dir: bool,
    /// The value of `MINGW_PREFIX` in the environment, if set.
    pub mingw_prefix: Option<String>,
    /// `SUDO_ASKPASS` is set in the environment.
    pub env_askpass_set: bool,
}

/// The install prefix of a meson setup: `MINGW_PREFIX` when set, else `/usr`.
pub open spec fn meson_prefix(mingw_prefix: Option<String>) -> Seq<char> {
    match mingw_prefix {
        Some(p) => p@,
        None => "/usr"@,
    }
}

/// The steps of a meson build. Without a build directory the project is set
/// up first, in the parent of the build directory, that is the project
/// directory;
/// with one, the installed version is removed first. Then the project is
/// compiled and installed.
pub open spec fn meson_models(p: ProjectView, f: MesonFacts) -> Seq<TaskModel> {
    let bd = path_join(p.path, build_dir_name());
    let first = if !f.build_dir_is_dir {
        plain_model(
            p.path,
            "meson"@,
            seq!["setup"@, "build"@, "-Dprefix="@ + meson_prefix(f.mingw_prefix)],
        )
    } else {
        sudo_model(bd, f.env_askpass_set, p.askpass, seq!["ninja"@, "uninstall"@])
    };
    seq![
        first,
        plain_model(bd, "meson"@, seq!["compile"@]),
        sudo_model(bd, f.env_askpass_set, p.askpass, seq!["meson"@, "install"@]),
    ]
}

/// How often the missing-helper notice applies to a meson build: once per
/// `sudo` step.
pub open spec fn meson_notices(p: ProjectView, f: MesonFacts) -> nat {
    if askpass_missing(f.env_askpass_set, p.askpass) {
        if f.build_dir_is_dir { 2 } else { 1 }
    } else {
        0
    }
}

/// Builds projects with meson.
pub struct BuildModelMeson {
    pub name: String,
}

/// Builds pacman packages with makepkg and installs them from a local repository.
pub struct BuildModelPacman {
    pub name: String,
}

/// A way to build projects.
pub trait BuildModelTrait: Sized {
    /// What has to be known about a project to plan its build.
    type Facts;

    /// The model named `name`.
    fn new(name: &str) -> Self;

    /// The steps that build `project`, or the reason why it cannot be built.
    fn build(&self, project: &BuildProject, facts: &Self::Facts) -> Result<BuildPlan, String>;
}

/// Pushes a step onto a plan.
fn push_task(tasks: &mut Vec<BuildTask>, t: BuildTask)
    ensures
        task_models(final(tasks)@) == task_models(old(tasks)@).push(t.model()),
{
    tasks.push(t);
    assert(task_models(tasks@) =~= task_models(old(tasks)@).push(t.model()));
}

/// A `sudo` step in `dir`, prepared for the askpass helper.
fn sudo_task(project: &BuildProject, dir: &str, env_askpass_set: bool) -> (r: (BuildProcessInst, bool))
    ensures
        r.0.cmd@ == "sudo"@,
        r.0.buildDir@ == dir@,
        texts(r.0.args@) == askpass_args(env_askpass_set, project@.askpass),
        r.0.askpass@ == askpass_helper(env_askpass_set, project@.askpass, Seq::<char>::empty()),
        r.1 == askpass_missing(env_askpass_set, project@.askpass),
{
    let mut p = BuildProcessInst::new("sudo");
    p.setBuildDir(dir);
    let missing = checkAskPass(&mut p, project, env_askpass_set);
    assert(texts(p.args@) =~= askpass_args(env_askpass_set, project@.askpass));
    (p, missing)
}

impl BuildModelTrait for BuildModelMeson {
    type Facts = MesonFacts;

    fn new(name: &str) -> (m: Self)
        ensures
            m.name@ == name@,
    {
        BuildModelMeson { name: name.to_owned() }
    }

    /// The meson steps for `project` (see `meson_models`); always possible.
    fn build(&self, project: &BuildProject, facts: &MesonFacts) -> (r: Result<BuildPlan, String>)
        ensures
            r matches Ok(plan) && task_models(plan.tasks@) == meson_models(project@, *facts)
                && plan.askpass_notices == meson_notices(project@, *facts),
    {
        let mut tasks: Vec<BuildTask> = Vec::new();
        let mut notices: usize = 0;
        let build_dir = project.getBuildDir();
        let ghost bd = path_join(project@.path, build_dir_name());
        if !facts.build_dir_is_dir {
            let mut setup = BuildProcessInst::new("meson");
            proof {
                reveal_strlit("build");
            }
            let parent = path_parent(build_dir.as_str());
            assert(is_entry_name(build_dir_name()));
            match parent {
                Some(dir) => setup.setBuildDir(dir.as_str()),
                None => {},
            }
            setup.addArg("setup");
            setup.addArg("build");
            let mut prefix = "-Dprefix=".to_owned();
            match &facts.mingw_prefix {
                Some(p) => prefix.append(p.as_str()),
                None => prefix.append("/usr"),
            }
            setup.addArg(prefix.as_str());
            assert(texts(setup.args@) =~= seq!["setup"@, "build"@, "-Dprefix="@ + meson_prefix(facts.mingw_prefix)]);
            push_task(&mut tasks, BuildTask::Install(setup));
        } else {
            let (mut uninstall, missing) = sudo_task(project, build_dir.as_str(), facts.env_askpass_set);
            if missing {
                notices = notices + 1;
            }
            uninstall.addArg("ninja");
            uninstall.addArg("uninstall");
            assert(texts(uninstall.args@) =~= askpass_args(facts.env_askpass_set, project@.askpass) + seq![
                "ninja"@,
                "uninstall"@,
            ]);
            push_task(&mut tasks, BuildTask::Install(uninstall));
        }
        let mut compile = BuildProcessInst::new("meson");
        compile.setBuildDir(build_dir.as_str());
        compile.addArg("compile");
        assert(texts(compile.args@) =~= seq!["compile"@]);
        push_task(&mut tasks, BuildTask::Install(compile));
        let (mut install, missing) = sudo_task(project, build_dir.as_str(), facts.env_askpass_set);
        if missing {
            notices = notices + 1;
        }
        install.addArg("meson");
        install.addArg("install");
        assert(texts(install.args@) =~= askpass_args(facts.env_askpass_set, project@.askpass) + seq![
            "meson"@,
            "install"@,
        ]);
        push_task(&mut tasks, BuildTask::Install(install));
        assert(task_models(tasks@) =~= meson_models(project@, *facts));
        Ok(BuildPlan { tasks, askpass_notices: notices })
    }
}

/// What is known about the files of a pacman project before it is built.
pub struct PacmanChecks {
    /// The build script next to the project directory is a file.
    pub pkgbuild_is_file: bool,
    /// The build directory exists.
    pub build_dir_is_dir: bool,
    /// The build script in the build directory is already a symbolic link.
    pub pkgbuild_linked: bool,
    /// The link to the build script was just created; only tried when
    /// `needs_link` says so.
    pub link_created: bool,
}

/// What is known about a pacman project before it is built.
pub struct PacmanFacts {
    pub checks: PacmanChecks,
    /// The text of the build script next to the project directory; read only
    /// once the checks have passed.
    pub pkgbuild_text: String,
    /// `SUDO_ASKPASS` is set in the environment.
    pub env_askpass_set: bool,
}

/// The build script next to the project directory (see `getCsrcPkgbuild`).
pub open spec fn csrc_pkgbuild(p: ProjectView) -> Seq<char> {
    path_join(parent_of(p.path)->0, p.name + pkgbuild_file())
}

/// The build script link in the build directory (see `getBuildPkgbuild`).
pub open spec fn build_pkgbuild(p: ProjectView) -> Seq<char> {
    path_join(path_join(p.path, build_dir_name()), pkgbuild_file())
}

/// The link to the build script has to be created: both the script and the
/// build directory are there and the link is not.
pub open spec fn link_needed(c: PacmanChecks) -> bool {
    c.pkgbuild_is_file && c.build_dir_is_dir && !c.pkgbuild_linked
}

/// Why a pacman project cannot be built, checked in this order: the build
/// script is missing, the build directory is missing, or the link to the
/// build script could not be made.
pub open spec fn pacman_error(p: ProjectView, c: PacmanChecks) -> Option<Seq<char>> {
    if !c.pkgbuild_is_file {
        Some("The pkgbuild script "@ + csrc_pkgbuild(p) + " was not found"@)
    } else if !c.build_dir_is_dir {
        Some("The build dir "@ + path_join(p.path, build_dir_name()) + " was not found or is not a directory"@)
    } else if !c.pkgbuild_linked && !c.link_created {
        Some("The link "@ + build_pkgbuild(p) + " was not created"@)
    } else {
        None
    }
}

/// The package that is installed: the one the build script declares, else
/// the project's name.
pub open spec fn package_to_install(p: ProjectView, pkgbuild_text: Seq<char>) -> Seq<char> {
    match declared_name(pkgbuild_text) {
        Some(n) => n,
        None => p.name,
    }
}

/// The steps of a pacman build: make the package (syncing its dependencies
/// and overwriting an old one), add it to the repository, and install the
/// package and its debug package from there with pacman.
pub open spec fn pacman_models(p: ProjectView, pkgbuild_text: Seq<char>, env_set: bool) -> Seq<TaskModel> {
    let bd = path_join(p.path, build_dir_name());
    let pkg = package_to_install(p, pkgbuild_text);
    seq![
        TaskModel {
            kind: TaskKind::Package,
            cmd: "makepkg"@,
            args: seq!["--syncdeps"@, "--force"@],
            build_dir: bd,
            askpass: Seq::<char>::empty(),
            repo: Seq::<char>::empty(),
        },
        TaskModel {
            kind: TaskKind::RepoAdd,
            cmd: "repo-add"@,
            args: Seq::<Seq<char>>::empty(),
            build_dir: bd,
            askpass: Seq::<char>::empty(),
            repo: p.repo,
        },
        sudo_model(
            bd,
            env_set,
            p.askpass,
            seq!["pacman"@, "--noconfirm"@, "--sync"@, "--refresh"@, pkg, pkg + "-debug"@],
        ),
    ]
}

/// How often the missing-helper notice applies to a pacman build.
pub open spec fn pacman_notices(p: ProjectView, env_set: bool) -> nat {
    if askpass_missing(env_set, p.askpass) { 1 } else { 0 }
}

impl BuildModelPacman {
    /// Whether the link to the build script has to be created before the build.
    pub fn needs_link(&self, checks: &PacmanChecks) -> (b: bool)
        ensures
            b == link_needed(*checks),
    {
        checks.pkgbuild_is_file && checks.build_dir_is_dir && !checks.pkgbuild_linked
    }

    /// Checks that the project can be built (see `pacman_error`).
    pub fn check(&self, project: &BuildProject, checks: &PacmanChecks) -> (r: Result<(), String>)
        ensures
            match pacman_error(project@, *checks) {
                Some(e) => r matches Err(m) && m@ == e,
                None => r is Ok,
            },
    {
        if !checks.pkgbuild_is_file {
            let mut m = "The pkgbuild script ".to_owned();
            m.append(project.getCsrcPkgbuild().as_str());
            m.append(" was not found");
            return Err(m);
        }
        if !checks.build_dir_is_dir {
            let mut m = "The build dir ".to_owned();
            m.append(project.getBuildDir().as_str());
            m.append(" was not found or is not a directory");
            return Err(m);
        }
        if !checks.pkgbuild_linked && !checks.link_created {
            let mut m = "The link ".to_owned();
            m.append(project.getBuildPkgbuild().as_str());
            m.append(" was not created");
            return Err(m);
        }
        Ok(())
    }
}

impl BuildModelTrait for BuildModelPacman {
    type Facts = PacmanFacts;

    fn new(name: &str) -> (m: Self)
        ensures
            m.name@ == name@,
    {
        BuildModelPacman { name: name.to_owned() }
    }

    /// The pacman steps for `project` (see `pacman_models`), or the reason why
    /// it cannot be built (see `pacman_error`).
    fn build(&self, project: &BuildProject, facts: &PacmanFacts) -> (r: Result<BuildPlan, String>)
        ensures
            match pacman_error(project@, facts.checks) {
                Some(e) => r matches Err(m) && m@ == e,
                None => r matches Ok(plan) && task_models(plan.tasks@) == pacman_models(
                    project@,
                    facts.pkgbuild_text@,
                    facts.env_askpass_set,
                ) && plan.askpass_notices == pacman_notices(project@, facts.env_askpass_set),
            },
    {
        match self.check(project, &facts.checks) {
            Err(m) => return Err(m),
            Ok(()) => {},
        }
        let build_dir = project.getBuildDir();
        let mut tasks: Vec<BuildTask> = Vec::new();
        let mut makepkg = BuildProcess::new("makepkg");
        makepkg.setBuildDir(build_dir.as_str());
        makepkg.addArg("--syncdeps");
        makepkg.addArg("--force");
        assert(texts(makepkg.args@) =~= seq!["--syncdeps"@, "--force"@]);
        push_task(&mut tasks, BuildTask::Package(makepkg));
        let mut repo_add = BuildProcessRepo::new("repo-add");
        repo_add.setBuildDir(build_dir.as_str());
        let repo = project.repo();
        repo_add.setRepo(repo.as_str());
        push_task(&mut tasks, BuildTask::RepoAdd(repo_add));
        let (mut install, missing) = sudo_task(project, build_dir.as_str(), facts.env_askpass_set);
        install.addArg("pacman");
        install.addArg("--noconfirm");
        install.addArg("--sync");
        install.addArg("--refresh");
        let mut pkg = match BuildProject::readPackageName(facts.pkgbuild_text.as_str()) {
            Some(n) => n,
            None => project.name(),
        };
        install.addArg(pkg.as_str());
        pkg.append("-debug");
        install.addArg(pkg.as_str());
        let ghost name = package_to_install(project@, facts.pkgbuild_text@);
        assert(texts(install.args@) =~= askpass_args(facts.env_askpass_set, project@.askpass) + seq![
            "pacman"@,
            "--noconfirm"@,
            "--sync"@,
            "--refresh"@,
            name,
            name + "-debug"@,
        ]);
        push_task(&mut tasks, BuildTask::Install(install));
        assert(task_models(tasks@) =~= pacman_models(project@, facts.pkgbuild_text@, facts.env_askpass_set));
        Ok(BuildPlan { tasks, askpass_notices: if missing { 1 } else { 0 } })
    }
}

/// The ways to build a project.
#[derive(Clone, Copy, Debug, PartialEq, Eq, Structural)]
pub enum BuildModelKind {
    Meson,
    Pacman,
}

/// Projects are built with meson on Windows and as pacman packages elsewhere.
pub open spec fn model_for(os: Seq<char>) -> BuildModelKind {
    if os == "windows"@ {
        BuildModelKind::Meson
    } else {
        BuildModelKind::Pacman
    }
}

/// The way projects are built on the operating system `os` (as named by
/// `std::env::consts::OS`).
pub fn model_for_os(os: &str) -> (k: BuildModelKind)
    ensures
        k == model_for(os@),
{
    if same_text(os, "windows") {
        BuildModelKind::Meson
    } else {
        BuildModelKind::Pacman
    }
}

/// What is known about a project before it is built, for the way it is built.
pub enum BuildFacts {
    Meson(MesonFacts),
    Pacman(PacmanFacts),
}

impl BuildProject {
    /// The steps that build this project, by meson or as a pacman package
    /// depending on what `facts` are given, or why it cannot be built.
    pub fn buildProj(&self, facts: &BuildFacts) -> (r: Result<BuildPlan, String>)
        ensures
            match facts {
                BuildFacts::Meson(f) => r matches Ok(plan) && task_models(plan.tasks@) == meson_models(self@, *f)
                    && plan.askpass_notices == meson_notices(self@, *f),
                BuildFacts::Pacman(f) => match pacman_error(self@, f.checks) {
                    Some(e) => r matches Err(m) && m@ == e,
                    None => r matches Ok(plan) && task_models(plan.tasks@) == pacman_models(
                        self@,
                        f.pkgbuild_text@,
                        f.env_askpass_set,
                    ) && plan.askpass_notices == pacman_notices(self@, f.env_askpass_set),
                },
            },
    {
        match facts {
            BuildFacts::Meson(f) => {
                let model = BuildModelMeson::new("meson");
                model.build(self, f)
            },
            BuildFacts::Pacman(f) => {
                let model = BuildModelPacman::new("pacman");
                model.build(self, f)
            },
        }
    }
}

} // verus!
