//! Properties of the library that relate several of its functions.
use vstd::prelude::*;
use crate::plan::{askpass_args, askpass_helper, meson_models, pacman_models, MesonFacts};
use crate::pkgbuild::{declared_name, first_index_of, lemma_first_index_of, line_at, line_value, pkgname_key};
use crate::plan::{pacman_error, PacmanChecks};
use crate::paths::parent_of;
use crate::runner::{exit_kind, exit_ok, exit_text};
use crate::process::ShowEnum;
use crate::text::decimal;
use vstd::arithmetic::div_mod::lemma_fundamental_div_mod_converse;
use crate::process::TaskKind;
use crate::project::{diff_date_text, ProjectView};
use crate::paths::path_join;
use crate::text::{decimal_nat, digit_char};
use crate::times::{diff_text, div_toward_zero, span_nanos, FileTime};
use crate::process::TaskModel;
use crate::ui::{diff_class, run_step, ActionModel, EventModel};

verus! {

/// Decimal digits are never empty and never start with a sign.
proof fn lemma_decimal_nat_starts_with_digit(n: nat)
    ensures
        decimal_nat(n).len() > 0,
        decimal_nat(n)[0] != '-',
    decreases n,
{
    if n >= 10 {
        lemma_decimal_nat_starts_with_digit(n / 10);
    } else {
        assert(digit_char(n as int) != '-');
    }
}

/// Swapping the two times of a difference only flips its sign: when one
/// directory is at least a whole second newer than the other, the difference
/// the other way round is the same text behind a `-`.
pub proof fn lemma_diff_swap(a: FileTime, b: FileTime)
    requires
        div_toward_zero(span_nanos(a, b), 1_000_000_000) > 0,
    ensures
        diff_date_text(Some(b), Some(a)) == seq!['-'] + diff_date_text(Some(a), Some(b)),
{
    let n = span_nanos(a, b);
    assert(span_nanos(b, a) == -n);
    assert(div_toward_zero(-n, 1_000_000_000) == -div_toward_zero(n, 1_000_000_000));
    assert(diff_text(-n) =~= seq!['-'] + diff_text(n));
}

/// The difference column is styled `negative` exactly when the difference
/// is negative by at least a whole second, that is when the build directory
/// is older than the source directory.
pub proof fn lemma_diff_class_marks_older_build(n: int)
    ensures
        diff_class(diff_text(n)) == (if div_toward_zero(n, 1_000_000_000) < 0 {
            "negative"@
        } else {
            "positive"@
        }),
{
    let s = div_toward_zero(n, 1_000_000_000);
    let a = if s < 0 { -s } else { s };
    let days = a / 86400;
    let rest = a % 86400;
    if s >= 0 {
        if days > 0 {
            lemma_decimal_nat_starts_with_digit(days as nat);
            assert(diff_text(n)[0] == decimal_nat(days as nat)[0]);
        } else {
            lemma_decimal_nat_starts_with_digit((rest / 3600) as nat);
            assert(diff_text(n)[0] == decimal_nat((rest / 3600) as nat)[0]);
        }
    } else {
        assert(diff_text(n)[0] == '-');
    }
}

/// With `SUDO_ASKPASS` set in the environment the configured askpass helper
/// is ignored: the pacman steps are the same whatever helper is configured.
pub proof fn lemma_env_askpass_ignores_config_pacman(p: ProjectView, c1: Seq<char>, c2: Seq<char>, pkgbuild_text: Seq<char>)
    ensures
        pacman_models(ProjectView { askpass: c1, ..p }, pkgbuild_text, true) == pacman_models(
            ProjectView { askpass: c2, ..p },
            pkgbuild_text,
            true,
        ),
{
    assert(askpass_args(true, c1) == askpass_args(true, c2));
    assert(pacman_models(ProjectView { askpass: c1, ..p }, pkgbuild_text, true) =~= pacman_models(
        ProjectView { askpass: c2, ..p },
        pkgbuild_text,
        true,
    ));
}

/// With `SUDO_ASKPASS` set in the environment the configured askpass helper
/// is ignored: the meson steps are the same whatever helper is configured.
pub proof fn lemma_env_askpass_ignores_config_meson(p: ProjectView, c1: Seq<char>, c2: Seq<char>, f: MesonFacts)
    requires
        f.env_askpass_set,
    ensures
        meson_models(ProjectView { askpass: c1, ..p }, f) == meson_models(ProjectView { askpass: c2, ..p }, f),
{
    assert(meson_models(ProjectView { askpass: c1, ..p }, f) =~= meson_models(ProjectView { askpass: c2, ..p }, f));
}

/// With no askpass helper in the environment or the configuration, the
/// install step runs pacman through `sudo` directly, without `--askpass`
/// and without a helper.
pub proof fn lemma_no_helper_no_askpass(p: ProjectView, pkgbuild_text: Seq<char>)
    requires
        p.askpass.len() == 0,
    ensures
        pacman_models(p, pkgbuild_text, false)[2].args[0] == "pacman"@,
        pacman_models(p, pkgbuild_text, false)[2].askpass == Seq::<char>::empty(),
{
    assert(askpass_args(false, p.askpass) =~= Seq::<Seq<char>>::empty());
    assert(askpass_helper(false, p.askpass, Seq::<char>::empty()) == Seq::<char>::empty());
}

/// The steps of a plan run in the order the plan lists them, after the
/// steps that were already waiting: queuing a plan appends it, and the step
/// taken next is the one that has waited longest.
pub proof fn lemma_queue_keeps_plan_order(queued: Seq<TaskModel>, plan: Seq<TaskModel>)
    ensures
        (queued + plan).subrange(queued.len() as int, (queued + plan).len() as int) == plan,
        queued.len() > 0 ==> (queued + plan)[0] == queued[0],
        queued.len() == 0 && plan.len() > 0 ==> (queued + plan)[0] == plan[0],
{
    assert((queued + plan).subrange(queued.len() as int, (queued + plan).len() as int) =~= plan);
}

/// The steps started while each running step succeeds, starting from the
/// queue `queue`, over `n` successes; and the queue left behind.
pub open spec fn run_successes(queue: Seq<TaskModel>, n: nat) -> (Seq<TaskModel>, Seq<TaskModel>)
    decreases n,
{
    if n == 0 {
        (queue, Seq::<TaskModel>::empty())
    } else {
        let (rest, action) = run_step(queue, EventModel::Finished(true));
        let (left, started) = run_successes(rest, (n - 1) as nat);
        (left, match action {
            ActionModel::Start(t) => seq![t] + started,
            _ => started,
        })
    }
}

/// Steps start one at a time in queue order: while the running steps
/// succeed, each success starts the step that has waited longest, until the
/// queue is empty.
pub proof fn lemma_successes_start_in_order(queue: Seq<TaskModel>, n: nat)
    ensures
        ({
            let m = if n < queue.len() { n as int } else { queue.len() as int };
            run_successes(queue, n) == (queue.skip(m), queue.take(m))
        }),
    decreases n,
{
    if n > 0 {
        if queue.len() > 0 {
            lemma_successes_start_in_order(queue.drop_first(), (n - 1) as nat);
            let m = if n < queue.len() { n as int } else { queue.len() as int };
            assert(queue.drop_first().skip(m - 1) =~= queue.skip(m));
            assert(seq![queue[0]] + queue.drop_first().take(m - 1) =~= queue.take(m));
        } else {
            lemma_successes_start_in_order(queue, (n - 1) as nat);
            assert(queue.skip(0) =~= queue);
            assert(queue.take(0) =~= queue);
        }
    } else {
        assert(queue.skip(0) =~= queue);
        assert(queue.take(0) =~= Seq::<TaskModel>::empty());
    }
}

/// After a step failed nothing starts, and every waiting step stays queued.
pub proof fn lemma_failure_stops(queue: Seq<TaskModel>)
    ensures
        run_step(queue, EventModel::Finished(false)) == (queue, ActionModel::Wait),
{
}

/// A step starts only when a build was planned or the running step succeeded.
pub proof fn lemma_start_only_after_plan_or_success(queue: Seq<TaskModel>, event: EventModel)
    ensures
        run_step(queue, event).1 is Start ==> (event matches EventModel::Planned(Ok(_)) || event
            == EventModel::Finished(true)),
{
}

/// The `sudo` arguments that ask for the askpass helper: `--askpass` when
/// `SUDO_ASKPASS` is set in the environment or a helper is configured.
pub proof fn lemma_askpass_arguments(env_set: bool, configured: Seq<char>)
    ensures
        (env_set || configured.len() > 0) ==> askpass_args(env_set, configured) == seq!["--askpass"@],
        (!env_set && configured.len() == 0) ==> askpass_args(env_set, configured).len() == 0,
        !env_set ==> askpass_helper(env_set, configured, Seq::<char>::empty()) == configured,
        env_set ==> askpass_helper(env_set, configured, Seq::<char>::empty()) == Seq::<char>::empty(),
{
}

/// A meson plan has three steps. Compiling and installing both run in the
/// project's build directory; the first step sets the project up from the
/// project directory when there is no build directory yet, and otherwise
/// removes the installed version from the build directory.
pub proof fn lemma_meson_step_directories(p: ProjectView, f: MesonFacts)
    ensures
        meson_models(p, f).len() == 3,
        forall|i: int| 1 <= i < 3 ==> #[trigger] meson_models(p, f)[i].build_dir == path_join(p.path, "build"@),
        !f.build_dir_is_dir ==> meson_models(p, f)[0].build_dir == p.path,
        f.build_dir_is_dir ==> meson_models(p, f)[0].build_dir == path_join(p.path, "build"@),
        meson_models(p, f)[2].build_dir == meson_models(p, f)[1].build_dir,
{
}

/// What each meson step runs: `meson setup build -Dprefix=<prefix>` or
/// `sudo [--askpass] ninja uninstall`, then `meson compile`, then
/// `sudo [--askpass] meson install`; the `sudo` steps carry the configured
/// helper unless `SUDO_ASKPASS` is set in the environment.
pub proof fn lemma_meson_step_commands(p: ProjectView, f: MesonFacts)
    ensures
        ({
            let ask = if f.env_askpass_set || p.askpass.len() > 0 {
                seq!["--askpass"@]
            } else {
                Seq::<Seq<char>>::empty()
            };
            let helper = if !f.env_askpass_set { p.askpass } else { Seq::<char>::empty() };
            let m = meson_models(p, f);
            &&& !f.build_dir_is_dir ==> {
                &&& m[0].cmd == "meson"@
                &&& m[0].args == seq!["setup"@, "build"@, "-Dprefix="@ + match f.mingw_prefix {
                    Some(x) => x@,
                    None => "/usr"@,
                }]
                &&& m[0].askpass == Seq::<char>::empty()
            }
            &&& f.build_dir_is_dir ==> {
                &&& m[0].cmd == "sudo"@
                &&& m[0].args == ask + seq!["ninja"@, "uninstall"@]
                &&& m[0].askpass == helper
            }
            &&& m[1].cmd == "meson"@
            &&& m[1].args == seq!["compile"@]
            &&& m[2].cmd == "sudo"@
            &&& m[2].args == ask + seq!["meson"@, "install"@]
            &&& m[2].askpass == helper
            &&& forall|i: int| 0 <= i < 3 ==> #[trigger] m[i].kind == TaskKind::Install
        }),
{
}

/// All three pacman steps work in the project's build directory: the
/// repository step picks up the packages the packaging step wrote there,
/// and the install step runs there too.
pub proof fn lemma_pacman_step_directories(p: ProjectView, pkgbuild_text: Seq<char>, env_set: bool)
    ensures
        pacman_models(p, pkgbuild_text, env_set).len() == 3,
        forall|i: int| 0 <= i < 3 ==> #[trigger] pacman_models(p, pkgbuild_text, env_set)[i].build_dir
            == path_join(p.path, "build"@),
        pacman_models(p, pkgbuild_text, env_set)[1].build_dir == pacman_models(p, pkgbuild_text, env_set)[0].build_dir,
{
}

/// What each pacman step runs: `makepkg --syncdeps --force`, then
/// `repo-add` into the project's repository, then `sudo [--askpass] pacman
/// --noconfirm --sync --refresh <pkg> <pkg>-debug` for the package the build
/// script declares (else the project's name). Without `SUDO_ASKPASS` in the
/// environment the install step carries the configured helper; with it,
/// none.
pub proof fn lemma_pacman_step_commands(p: ProjectView, pkgbuild_text: Seq<char>, env_set: bool)
    ensures
        ({
            let m = pacman_models(p, pkgbuild_text, env_set);
            let pkg = match declared_name(pkgbuild_text) {
                Some(n) => n,
                None => p.name,
            };
            let ask = if env_set || p.askpass.len() > 0 {
                seq!["--askpass"@]
            } else {
                Seq::<Seq<char>>::empty()
            };
            &&& m[0].kind == TaskKind::Package
            &&& m[0].cmd == "makepkg"@
            &&& m[0].args == seq!["--syncdeps"@, "--force"@]
            &&& m[1].kind == TaskKind::RepoAdd
            &&& m[1].cmd == "repo-add"@
            &&& m[1].repo == p.repo
            &&& m[2].kind == TaskKind::Install
            &&& m[2].cmd == "sudo"@
            &&& m[2].args == ask + seq!["pacman"@, "--noconfirm"@, "--sync"@, "--refresh"@, pkg, pkg + "-debug"@]
            &&& !env_set ==> m[2].askpass == p.askpass
            &&& env_set ==> m[2].askpass == Seq::<char>::empty()
        }),
{
}

/// Running the queue: a planned build is appended and the step that has
/// waited longest starts at once, whatever else is queued; a plan that
/// failed, or a step that could not start, is reported and the queue stays;
/// after a success the longest-waiting step starts; after a failure nothing
/// starts and the queue stays.
pub proof fn lemma_run_step_outcomes(queue: Seq<TaskModel>, tasks: Seq<TaskModel>, msg: Seq<char>)
    ensures
        (queue + tasks).len() > 0 ==> run_step(queue, EventModel::Planned(Ok(tasks))) == (
            (queue + tasks).drop_first(),
            ActionModel::Start((queue + tasks)[0]),
        ),
        (queue + tasks).len() == 0 ==> run_step(queue, EventModel::Planned(Ok(tasks))) == (
            queue + tasks,
            ActionModel::Wait,
        ),
        run_step(queue, EventModel::Planned(Err(msg))) == (queue, ActionModel::ShowError(msg)),
        run_step(queue, EventModel::StartFailed(msg)) == (queue, ActionModel::ShowError(msg)),
        queue.len() > 0 ==> run_step(queue, EventModel::Finished(true)) == (
            queue.drop_first(),
            ActionModel::Start(queue[0]),
        ),
        queue.len() == 0 ==> run_step(queue, EventModel::Finished(true)) == (queue, ActionModel::Wait),
        run_step(queue, EventModel::Finished(false)) == (queue, ActionModel::Wait),
{
}

/// The difference text shows days, hours, minutes and seconds: a span of
/// `d` days, `h` hours, `m` minutes, `s` seconds and a fraction of a second
/// reads `[-][<d>d ]<h>:<m>:<s>`, with the sign only for a span of at least a
/// second into the past and the day part only when there are whole days.
pub proof fn lemma_diff_text_units(d: int, h: int, m: int, s: int, frac: int, past: bool)
    requires
        d >= 0,
        0 <= h < 24,
        0 <= m < 60,
        0 <= s < 60,
        0 <= frac < 1_000_000_000,
    ensures
        ({
            let a = d * 86400 + h * 3600 + m * 60 + s;
            let delta = if past { -(a * 1_000_000_000 + frac) } else { a * 1_000_000_000 + frac };
            diff_text(delta) == (if past && a > 0 { seq!['-'] } else { Seq::<char>::empty() }) + (if d > 0 {
                decimal(d) + seq!['d', ' ']
            } else {
                Seq::<char>::empty()
            }) + decimal(h) + seq![':'] + decimal(m) + seq![':'] + decimal(s)
        }),
{
    let a = d * 86400 + h * 3600 + m * 60 + s;
    let n = a * 1_000_000_000 + frac;
    lemma_fundamental_div_mod_converse(n, 1_000_000_000, a, frac);
    let rest = h * 3600 + m * 60 + s;
    lemma_fundamental_div_mod_converse(a, 86400, d, rest);
    lemma_fundamental_div_mod_converse(rest, 3600, h, m * 60 + s);
    lemma_fundamental_div_mod_converse(m * 60 + s, 60, m, s);
    lemma_fundamental_div_mod_converse(rest, 60, h * 60 + m, s);
    if past {
        assert(div_toward_zero(-n, 1_000_000_000) == -a);
    } else {
        assert(div_toward_zero(n, 1_000_000_000) == a);
    }
}

/// A first line `pkgname=<v>` declares `<v>`, whatever follows it.
pub proof fn lemma_first_line_declares(v: Seq<char>, rest: Seq<char>)
    requires
        forall|k: int| 0 <= k < v.len() ==> v[k] != '\n',
        v.len() == 0 || v.last() != '\r',
    ensures
        declared_name(pkgname_key() + seq!['='] + v + seq!['\n'] + rest) == Some(v),
{
    let line = pkgname_key() + seq!['='] + v;
    let t = line + seq!['\n'] + rest;
    assert(pkgname_key() + seq!['='] + v + seq!['\n'] + rest == t);
    let l = line.len() as int;
    assert(t[l] == '\n');
    assert forall|k: int| 0 <= k < l implies t[k] != '\n' by {
        assert(t[k] == line[k]);
        if k >= 8 {
            assert(line[k] == v[k - 8]);
        }
    }
    lemma_first_index_of(t, '\n', 0);
    assert(first_index_of(t, '\n', 0) == l);
    assert(t[l - 1] != '\r') by {
        if v.len() == 0 {
            assert(t[l - 1] == '=');
        } else {
            assert(t[l - 1] == v.last());
        }
    }
    assert(line_at(t, 0) =~= line);
    assert(line[7] == '=');
    assert forall|k: int| 0 <= k < 7 implies line[k] != '=' by {
        assert(line[k] == pkgname_key()[k]);
    }
    lemma_first_index_of(line, '=', 0);
    assert(first_index_of(line, '=', 0) == 7);
    assert(line.subrange(0, 7) =~= pkgname_key());
    assert(line.subrange(8, l) =~= v);
    assert(line[0] == 'p');
    assert(line_value(line) == Some(v));
}

/// A pacman build is refused for the first missing piece, in this order:
/// the build script next to the project directory, the build directory, the
/// link to the build script in the build directory; with all of them there
/// it is not refused.
pub proof fn lemma_pacman_refusals(p: ProjectView, c: PacmanChecks)
    ensures
        !c.pkgbuild_is_file ==> pacman_error(p, c) == Some(
            "The pkgbuild script "@ + path_join(parent_of(p.path)->0, p.name + "PKGBUILD"@) + " was not found"@,
        ),
        c.pkgbuild_is_file && !c.build_dir_is_dir ==> pacman_error(p, c) == Some(
            "The build dir "@ + path_join(p.path, "build"@) + " was not found or is not a directory"@,
        ),
        c.pkgbuild_is_file && c.build_dir_is_dir && !c.pkgbuild_linked && !c.link_created ==> pacman_error(p, c)
            == Some("The link "@ + path_join(path_join(p.path, "build"@), "PKGBUILD"@) + " was not created"@),
        c.pkgbuild_is_file && c.build_dir_is_dir && (c.pkgbuild_linked || c.link_created) ==> pacman_error(p, c)
            is None,
{
}

/// How the end of a command is reported: a signal ends it as a failure
/// named by the signal's number, a non-zero exit code as a failure named by
/// the code, exit code 0 as success, and no signal and no code as a warning.
pub proof fn lemma_exit_outcomes(signal: Option<i32>, code: Option<i32>)
    ensures
        exit_ok(signal, code) <==> (signal is None && code == Some(0i32)),
        signal matches Some(n) ==> exit_text(signal, code) == "Signal "@ + decimal(n as int) + "\n"@
            && exit_kind(signal, code) == ShowEnum::Error,
        (signal is None && code is Some && code->0 != 0) ==> exit_text(signal, code) == "Returncode "@
            + decimal(code->0 as int) + "\n"@ && exit_kind(signal, code) == ShowEnum::Error,
        (signal is None && code == Some(0i32)) ==> exit_text(signal, code) == "Ok\n"@ && exit_kind(signal, code)
            == ShowEnum::Good,
        (signal is None && code is None) ==> exit_text(signal, code) == "No signal no exit ?"@ && exit_kind(
            signal,
            code,
        ) == ShowEnum::Warn,
{
}

} // verus!
