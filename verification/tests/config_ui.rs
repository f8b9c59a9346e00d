use rbuild::config::{config_dir, config_file, default_config, CONFIG_GROUP, KEY_ASKPASS, KEY_BUILD_DIR, KEY_REPO};
use rbuild::process::{BuildProcess, BuildProcessInst, BuildProcessTrait, BuildTask};
use rbuild::ui::{continue_after, diff_css_class, is_project_entry, RunAction, RunEvent, TaskQueue};

#[test]
fn config_dir_choice() {
    assert_eq!(config_dir(Some("/x/cfg".to_string()), Some("/home/u".to_string())), "/x/cfg");
    assert_eq!(config_dir(None, Some("/home/u".to_string())), "/home/u/.config");
    assert_eq!(config_dir(None, None), "~/.config");
    assert_eq!(config_file("/home/u/.config"), "/home/u/.config/pyBuild.conf");
}

#[test]
fn config_defaults() {
    let d = default_config(Some("/home/u".to_string()));
    assert_eq!(d.build_dir, "/home/u/csrc.git");
    assert_eq!(d.repo, "/var/local/pacman/custom.db.tar.gz");
    assert_eq!(d.askpass, "/home/u/.cargo/bin/raskpass");
    let n = default_config(None);
    assert_eq!(n.build_dir, "[replace with parent for .config e.g. your home dir]/csrc.git");
    assert_eq!(n.askpass, "[replace with parent for .config e.g. your home dir]/.cargo/bin/raskpass");
    assert_eq!((CONFIG_GROUP, KEY_BUILD_DIR, KEY_REPO, KEY_ASKPASS), ("Main", "BuildDir", "Repo", "Askpass"));
}

#[test]
fn project_entries() {
    assert!(is_project_entry("rbuild", true));
    assert!(!is_project_entry(".git", true));
    assert!(!is_project_entry("notes.txt", false));
}

#[test]
fn diff_classes() {
    assert_eq!(diff_css_class("1d 0:0:3"), "positive");
    assert_eq!(diff_css_class("0:0:0"), "positive");
    assert_eq!(diff_css_class(""), "positive");
    assert_eq!(diff_css_class("-0:0:1"), "negative");
}

#[test]
fn queue_is_first_in_first_out() {
    let mut q = TaskQueue::new();
    assert_eq!(q.len(), 0);
    assert!(q.take_next().is_none());
    q.enqueue(vec![
        BuildTask::Package(BuildProcess::new("makepkg")),
        BuildTask::Install(BuildProcessInst::new("sudo")),
    ]);
    q.enqueue(vec![BuildTask::Install(BuildProcessInst::new("meson"))]);
    assert_eq!(q.len(), 3);
    assert_eq!(q.take_next().unwrap().cmd(), "makepkg");
    assert_eq!(q.take_next().unwrap().cmd(), "sudo");
    assert_eq!(q.take_next().unwrap().cmd(), "meson");
    assert!(q.take_next().is_none());
}

#[test]
fn continue_only_after_success() {
    assert!(continue_after(&Ok("Ok\n".to_string())));
    assert!(!continue_after(&Err("Returncode 1\n".to_string())));
}

fn started(a: &RunAction) -> Option<String> {
    match a {
        RunAction::Start(t) => Some(t.cmd()),
        _ => None,
    }
}

#[test]
fn steps_start_one_at_a_time() {
    let mut q = TaskQueue::new();
    let plan = vec![
        BuildTask::Package(BuildProcess::new("makepkg")),
        BuildTask::Install(BuildProcessInst::new("sudo")),
        BuildTask::Install(BuildProcessInst::new("meson")),
    ];
    let a = q.step(RunEvent::Planned(Ok(plan)));
    assert_eq!(started(&a), Some("makepkg".to_string()));
    assert_eq!(q.len(), 2);
    let b = q.step(RunEvent::Finished(Ok("Ok\n".to_string())));
    assert_eq!(started(&b), Some("sudo".to_string()));
    let c = q.step(RunEvent::Finished(Err("Returncode 1\n".to_string())));
    assert!(matches!(c, RunAction::Wait));
    assert_eq!(q.len(), 1);
    let d = q.step(RunEvent::Finished(Ok("Ok\n".to_string())));
    assert_eq!(started(&d), Some("meson".to_string()));
    let e = q.step(RunEvent::Finished(Ok("Ok\n".to_string())));
    assert!(matches!(e, RunAction::Wait));
}

#[test]
fn errors_are_shown_and_queue_stays() {
    let mut q = TaskQueue::new();
    q.enqueue(vec![BuildTask::Install(BuildProcessInst::new("sudo"))]);
    match q.step(RunEvent::Planned(Err("The build dir x was not found".to_string()))) {
        RunAction::ShowError(m) => assert_eq!(m, "The build dir x was not found"),
        _ => panic!("error expected"),
    }
    match q.step(RunEvent::StartFailed("Error e running sudo".to_string())) {
        RunAction::ShowError(m) => assert_eq!(m, "Error e running sudo"),
        _ => panic!("error expected"),
    }
    assert_eq!(q.len(), 1);
}
