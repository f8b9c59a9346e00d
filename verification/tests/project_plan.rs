use rbuild::plan::{
    checkAskPass, model_for_os, BuildFacts, BuildModelKind, BuildModelMeson, BuildModelPacman, BuildModelTrait,
    BuildPlan, MesonFacts, PacmanChecks, PacmanFacts,
};
use rbuild::process::{BuildProcessTrait, BuildProcessInst, BuildTask};
use rbuild::project::{showable_times, BuildProject, ProjData};
use rbuild::times::{FileTime, MAX_TIMESTAMP, MIN_TIMESTAMP};

fn project(askpass: &str) -> BuildProject {
    BuildProject::new("proj".to_string(), "/home/u/csrc.git", "/var/repo/custom.db.tar.gz", askpass, None, None)
}

fn args(t: &BuildTask) -> Vec<String> {
    match t {
        BuildTask::Install(p) => p.args.clone(),
        BuildTask::Package(p) => p.args.clone(),
        BuildTask::RepoAdd(p) => p.args.clone(),
    }
}

fn dir(t: &BuildTask) -> String {
    match t {
        BuildTask::Install(p) => p.buildDir.clone(),
        BuildTask::Package(p) => p.buildDir.clone(),
        BuildTask::RepoAdd(p) => p.buildDir.clone(),
    }
}

fn strings(v: &[&str]) -> Vec<String> {
    v.iter().map(|s| s.to_string()).collect()
}

#[test]
fn project_fields_and_paths() {
    let p = project("/usr/bin/ask");
    assert_eq!(p.name(), "proj");
    assert_eq!(p.path(), "/home/u/csrc.git/proj");
    assert_eq!(p.repo(), "/var/repo/custom.db.tar.gz");
    assert_eq!(p.askpass(), "/usr/bin/ask");
    assert_eq!(p.getCsrcPkgbuild(), "/home/u/csrc.git/projPKGBUILD");
    assert_eq!(p.getBuildDir(), "/home/u/csrc.git/proj/build");
    assert_eq!(p.getBuildPkgbuild(), "/home/u/csrc.git/proj/build/PKGBUILD");
    assert_eq!(p.buildChanged(), "");
    assert_eq!(p.srcChanged(), "");
    assert_eq!(p.diff(), "");
}

#[test]
fn project_root_with_slash() {
    let p = BuildProject::new("x".to_string(), "/r/", "repo", "", None, None);
    assert_eq!(p.path(), "/r/x");
    assert_eq!(p.getCsrcPkgbuild(), "/r/xPKGBUILD");
    let rel = BuildProject::new("x".to_string(), "", "repo", "", None, None);
    assert_eq!(rel.getCsrcPkgbuild(), "xPKGBUILD");
}

#[test]
fn project_change_info() {
    let src = FileTime { secs: 1_000_000, nanos: 0 };
    let build = FileTime { secs: 1_003_723, nanos: 10 };
    let p = BuildProject::new("proj".to_string(), "/r", "repo", "", Some(build), Some(src));
    assert_eq!(p.diff(), "1:2:3");
    assert_eq!(p.buildChanged().len(), 19);
    assert_eq!(p.srcChanged().len(), 19);
    let q = BuildProject::new("proj".to_string(), "/r", "repo", "", Some(build), None);
    assert_eq!(q.diff(), "");
    assert_eq!(q.srcChanged(), "");
}

#[test]
fn proj_data_default() {
    let d = ProjData::default();
    assert_eq!(d.name, "");
    assert_eq!(d.buildChanged, "");
    assert_eq!(d.srcChanged, "");
    assert_eq!(d.diff, "");
    assert!(d.path.is_none() && d.repo.is_none() && d.askpass.is_none());
}

#[test]
fn askpass_from_environment() {
    let p = project("/usr/bin/ask");
    let mut s = BuildProcessInst::new("sudo");
    let missing = checkAskPass(&mut s, &p, true);
    assert!(!missing);
    assert_eq!(s.args, strings(&["--askpass"]));
    assert_eq!(s.askpass, "");
}

#[test]
fn askpass_from_config() {
    let p = project("/usr/bin/ask");
    let mut s = BuildProcessInst::new("sudo");
    let missing = checkAskPass(&mut s, &p, false);
    assert!(!missing);
    assert_eq!(s.args, strings(&["--askpass"]));
    assert_eq!(s.askpass, "/usr/bin/ask");
}

#[test]
fn askpass_missing() {
    let p = project("");
    let mut s = BuildProcessInst::new("sudo");
    s.addArg("x");
    let missing = checkAskPass(&mut s, &p, false);
    assert!(missing);
    assert_eq!(s.args, strings(&["x"]));
    assert_eq!(s.askpass, "");
}

#[test]
fn meson_fresh_setup() {
    let p = project("");
    let m = BuildModelMeson::new("meson");
    let facts = MesonFacts { build_dir_is_dir: false, mingw_prefix: None, env_askpass_set: false };
    let plan: BuildPlan = m.build(&p, &facts).unwrap();
    assert_eq!(plan.tasks.len(), 3);
    assert_eq!(plan.askpass_notices, 1);
    assert_eq!(plan.tasks[0].cmd(), "meson");
    assert_eq!(dir(&plan.tasks[0]), "/home/u/csrc.git/proj");
    assert_eq!(args(&plan.tasks[0]), strings(&["setup", "build", "-Dprefix=/usr"]));
    assert_eq!(plan.tasks[1].cmd(), "meson");
    assert_eq!(dir(&plan.tasks[1]), "/home/u/csrc.git/proj/build");
    assert_eq!(args(&plan.tasks[1]), strings(&["compile"]));
    assert_eq!(plan.tasks[2].cmd(), "sudo");
    assert_eq!(args(&plan.tasks[2]), strings(&["meson", "install"]));
}

#[test]
fn meson_rebuild_with_prefix() {
    let p = project("/a/ask");
    let m = BuildModelMeson::new("meson");
    let facts = MesonFacts { build_dir_is_dir: true, mingw_prefix: Some("/mingw64".to_string()), env_askpass_set: false };
    let plan = m.build(&p, &facts).unwrap();
    assert_eq!(plan.askpass_notices, 0);
    assert_eq!(plan.tasks[0].cmd(), "sudo");
    assert_eq!(dir(&plan.tasks[0]), "/home/u/csrc.git/proj/build");
    assert_eq!(args(&plan.tasks[0]), strings(&["--askpass", "ninja", "uninstall"]));
    assert_eq!(args(&plan.tasks[2]), strings(&["--askpass", "meson", "install"]));
    let fresh = MesonFacts { build_dir_is_dir: false, mingw_prefix: Some("/mingw64".to_string()), env_askpass_set: true };
    let plan2 = m.build(&p, &fresh).unwrap();
    assert_eq!(args(&plan2.tasks[0]), strings(&["setup", "build", "-Dprefix=/mingw64"]));
}

#[test]
fn meson_notices_per_sudo_step() {
    let p = project("");
    let m = BuildModelMeson::new("meson");
    let facts = MesonFacts { build_dir_is_dir: true, mingw_prefix: None, env_askpass_set: false };
    assert_eq!(m.build(&p, &facts).unwrap().askpass_notices, 2);
}

fn checks(file: bool, dir: bool, linked: bool, created: bool) -> PacmanChecks {
    PacmanChecks { pkgbuild_is_file: file, build_dir_is_dir: dir, pkgbuild_linked: linked, link_created: created }
}

#[test]
fn pacman_errors_in_order() {
    let p = project("");
    let m = BuildModelPacman::new("pacman");
    let f = |c| PacmanFacts { checks: c, pkgbuild_text: String::new(), env_askpass_set: false };
    assert_eq!(
        m.build(&p, &f(checks(false, false, false, false))).err(),
        Some("The pkgbuild script /home/u/csrc.git/projPKGBUILD was not found".to_string())
    );
    assert_eq!(
        m.build(&p, &f(checks(true, false, false, false))).err(),
        Some("The build dir /home/u/csrc.git/proj/build was not found or is not a directory".to_string())
    );
    assert_eq!(
        m.build(&p, &f(checks(true, true, false, false))).err(),
        Some("The link /home/u/csrc.git/proj/build/PKGBUILD was not created".to_string())
    );
    assert!(m.build(&p, &f(checks(true, true, true, false))).is_ok());
    assert!(m.build(&p, &f(checks(true, true, false, true))).is_ok());
}

#[test]
fn pacman_link_needed() {
    let m = BuildModelPacman::new("pacman");
    assert!(m.needs_link(&checks(true, true, false, false)));
    assert!(!m.needs_link(&checks(true, true, true, false)));
    assert!(!m.needs_link(&checks(false, true, false, false)));
    assert!(!m.needs_link(&checks(true, false, false, false)));
}

#[test]
fn pacman_plan_steps() {
    let p = project("");
    let m = BuildModelPacman::new("pacman");
    let facts = PacmanFacts {
        checks: checks(true, true, true, false),
        pkgbuild_text: "# x\npkgname=rbuild-git\npkgver=1\n".to_string(),
        env_askpass_set: true,
    };
    let plan = m.build(&p, &facts).unwrap();
    assert_eq!(plan.tasks.len(), 3);
    assert_eq!(plan.askpass_notices, 0);
    assert_eq!(plan.tasks[0].cmd(), "makepkg");
    assert_eq!(args(&plan.tasks[0]), strings(&["--syncdeps", "--force"]));
    assert_eq!(dir(&plan.tasks[0]), "/home/u/csrc.git/proj/build");
    assert_eq!(plan.tasks[1].cmd(), "repo-add");
    match &plan.tasks[1] {
        BuildTask::RepoAdd(r) => assert_eq!(r.repo, "/var/repo/custom.db.tar.gz"),
        _ => panic!("repository step expected"),
    }
    assert_eq!(plan.tasks[2].cmd(), "sudo");
    assert_eq!(
        args(&plan.tasks[2]),
        strings(&["--askpass", "pacman", "--noconfirm", "--sync", "--refresh", "rbuild-git", "rbuild-git-debug"])
    );
}

#[test]
fn pacman_package_falls_back_to_project_name() {
    let p = project("");
    let m = BuildModelPacman::new("pacman");
    let facts = PacmanFacts { checks: checks(true, true, true, false), pkgbuild_text: "pkgver=1\n".to_string(), env_askpass_set: false };
    let plan = m.build(&p, &facts).unwrap();
    assert_eq!(plan.askpass_notices, 1);
    assert_eq!(
        args(&plan.tasks[2]),
        strings(&["pacman", "--noconfirm", "--sync", "--refresh", "proj", "proj-debug"])
    );
}

#[test]
fn model_by_os() {
    assert_eq!(model_for_os("windows"), BuildModelKind::Meson);
    assert_eq!(model_for_os("linux"), BuildModelKind::Pacman);
    assert_eq!(model_for_os("macos"), BuildModelKind::Pacman);
}

#[test]
fn build_proj_dispatch() {
    let p = project("");
    let meson = p.buildProj(&BuildFacts::Meson(MesonFacts { build_dir_is_dir: true, mingw_prefix: None, env_askpass_set: true })).unwrap();
    assert_eq!(meson.tasks[1].cmd(), "meson");
    let pac = p.buildProj(&BuildFacts::Pacman(PacmanFacts {
        checks: checks(false, true, true, false),
        pkgbuild_text: String::new(),
        env_askpass_set: true,
    }));
    assert!(pac.is_err());
}

#[test]
fn build_script_link_lies_in_build_dir() {
    let p = project("");
    let link = p.getBuildPkgbuild();
    assert_eq!(std::path::Path::new(&link).parent().unwrap().to_str().unwrap(), p.getBuildDir());
    assert_eq!(std::path::Path::new(&p.getBuildDir()).parent().unwrap().to_str().unwrap(), p.path());
}

#[test]
fn showable_time_checks() {
    let t = |secs, nanos| FileTime { secs, nanos };
    assert!(showable_times(None, None));
    assert!(showable_times(Some(t(1, 0)), Some(t(2, 5))));
    assert!(!showable_times(Some(t(MAX_TIMESTAMP + 1, 0)), None));
    assert!(!showable_times(None, Some(t(MIN_TIMESTAMP - 1, 0))));
    assert!(!showable_times(Some(t(0, 1_000_000_000)), None));
    assert!(!showable_times(Some(t(MAX_TIMESTAMP, 0)), Some(t(MIN_TIMESTAMP, 0))));
    assert!(showable_times(Some(t(9_000_000_000, 0)), Some(t(0, 0))));
    assert!(!showable_times(Some(t(9_300_000_000, 0)), Some(t(0, 0))));
}
