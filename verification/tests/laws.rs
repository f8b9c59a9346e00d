use rbuild::pkgbuild::package_name;
use rbuild::plan::{BuildModelPacman, BuildModelTrait, PacmanChecks, PacmanFacts};
use rbuild::process::BuildTask;
use rbuild::project::BuildProject;
use rbuild::times::diff_text_of;
use rbuild::ui::diff_css_class;

fn pacman_args(askpass: &str, env_set: bool) -> Vec<String> {
    let p = BuildProject::new("proj".to_string(), "/r", "/repo/db", askpass, None, None);
    let facts = PacmanFacts {
        checks: PacmanChecks { pkgbuild_is_file: true, build_dir_is_dir: true, pkgbuild_linked: true, link_created: false },
        pkgbuild_text: String::new(),
        env_askpass_set: env_set,
    };
    let plan = BuildModelPacman::new("pacman").build(&p, &facts).unwrap();
    match &plan.tasks[2] {
        BuildTask::Install(i) => {
            let mut v = i.args.clone();
            v.push(i.askpass.clone());
            v
        }
        _ => panic!("install step expected"),
    }
}

#[test]
fn env_askpass_ignores_config() {
    assert_eq!(pacman_args("/a/ask", true), pacman_args("", true));
    assert_eq!(pacman_args("/a/ask", true), pacman_args("/b/other", true));
}

#[test]
fn no_helper_no_askpass() {
    let args = pacman_args("", false);
    assert_eq!(args[0], "pacman");
    assert_eq!(args.last().unwrap(), "");
    assert!(!args.contains(&"--askpass".to_string()));
}

#[test]
fn negative_diff_is_marked() {
    assert_eq!(diff_css_class(&diff_text_of(-2_000_000_000)), "negative");
    assert_eq!(diff_css_class(&diff_text_of(-999_999_999)), "positive");
    assert_eq!(diff_css_class(&diff_text_of(86_400_000_000_000)), "positive");
}

#[test]
fn comment_line_in_front_changes_nothing() {
    let rest = "pkgver=2\npkgname=late\n";
    assert_eq!(package_name(&format!("# pkgname=early\n{}", rest)), package_name(rest));
    assert_eq!(package_name(&format!("#\r\n{}", rest)), Some("late".to_string()));
}
