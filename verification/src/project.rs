//! A source project: a directory below the configured build root, with its
//! repository and askpass settings and the change information shown for it.
use vstd::prelude::*;
use vstd::string::StringExecFns;
use crate::paths::{ends_in_name, is_entry_name, join_path, lemma_join_ends_in_name, parent_of, path_join, path_parent};
use crate::pkgbuild::{declared_name, package_name};
use crate::times::{is_representable, span_fits, change_date, diff_date, diff_text, fits_i64, representable, span_nanos, timestamp_text, change_date_pattern, FileTime};

verus! {

/// The text of a project, field by field.
pub struct ProjectView {
    pub name: Seq<char>,
    pub path: Seq<char>,
    pub repo: Seq<char>,
    pub askpass: Seq<char>,
    pub build_changed: Seq<char>,
    pub src_changed: Seq<char>,
    pub diff: Seq<char>,
}

/// A project found in the build root.
pub struct BuildProject {
    name: String,
    path: String,
    repo: String,
    askpass: String,
    build_changed: String,
    src_changed: String,
    diff: String,
}

/// The name of the build script.
pub open spec fn pkgbuild_file() -> Seq<char> {
    "PKGBUILD"@
}

/// The name of a project's build directory.
pub open spec fn build_dir_name() -> Seq<char> {
    "build"@
}

/// The name of a project's source directory.
pub open spec fn src_dir_name() -> Seq<char> {
    "src"@
}

/// `text` is what `change_date` may give for `modified`: empty for an unknown
/// time, else the time formatted at some UTC offset of less than a day.
pub open spec fn change_date_text(modified: Option<FileTime>, text: Seq<char>) -> bool {
    match modified {
        None => text == Seq::<char>::empty(),
        Some(t) => exists|off: i32|
            -86400 < off < 86400 && text == timestamp_text(t.secs, t.nanos, off, change_date_pattern()),
    }
}

/// The difference text for the source time `src` and the build time `build`,
/// empty when either is unknown.
pub open spec fn diff_date_text(src: Option<FileTime>, build: Option<FileTime>) -> Seq<char> {
    match (src, build) {
        (Some(a), Some(b)) => diff_text(span_nanos(a, b)),
        _ => Seq::<char>::empty(),
    }
}

/// The modification times of a project's directories can be shown: each
/// known one lies in `chrono`'s range, and their difference in nanoseconds
/// fits an `i64`.
pub open spec fn times_showable(build: Option<FileTime>, src: Option<FileTime>) -> bool {
    &&& build is Some ==> representable(build->0)
    &&& src is Some ==> representable(src->0)
    &&& (build is Some && src is Some) ==> fits_i64(span_nanos(src->0, build->0))
}

/// Whether the modification times can be shown (see `times_showable`).
pub fn showable_times(build: Option<FileTime>, src: Option<FileTime>) -> (b: bool)
    ensures
        b == times_showable(build, src),
{
    let build_ok = match &build {
        Some(t) => is_representable(t),
        None => true,
    };
    let src_ok = match &src {
        Some(t) => is_representable(t),
        None => true,
    };
    let span_ok = match (&build, &src) {
        (Some(b), Some(s)) => span_fits(s, b),
        _ => true,
    };
    build_ok && src_ok && span_ok
}

impl View for BuildProject {
    type V = ProjectView;

    closed spec fn view(&self) -> ProjectView {
        ProjectView {
            name: self.name@,
            path: self.path@,
            repo: self.repo@,
            askpass: self.askpass@,
            build_changed: self.build_changed@,
            src_changed: self.src_changed@,
            diff: self.diff@,
        }
    }
}

impl BuildProject {
    /// The project's path ends in its directory name.
    #[verifier::type_invariant]
    spec fn path_ends_in_name(&self) -> bool {
        ends_in_name(self.path@)
    }

    /// The project in the directory `name` of the build root `root`. The change
    /// dates are those of its build and source directories, as far as their
    /// modification times (`build_modified`, `src_modified`) are known, and the
    /// difference is that of the build directory against the source directory.
    pub fn new(
        name: String,
        root: &str,
        repo: &str,
        askpass: &str,
        build_modified: Option<FileTime>,
        src_modified: Option<FileTime>,
    ) -> (p: Self)
        requires
            is_entry_name(name@),
            times_showable(build_modified, src_modified),
        ensures
            p@.name == name@,
            p@.path == path_join(root@, name@),
            p@.repo == repo@,
            p@.askpass == askpass@,
            change_date_text(build_modified, p@.build_changed),
            change_date_text(src_modified, p@.src_changed),
            p@.diff == diff_date_text(src_modified, build_modified),
    {
        let path = join_path(root, name.as_str());
        proof {
            lemma_join_ends_in_name(root@, name@);
        }
        let build_changed = Self::changeDateOf(build_modified);
        let src_changed = Self::changeDateOf(src_modified);
        let diff = Self::diffDate(src_modified, build_modified);
        BuildProject {
            name,
            path,
            repo: repo.to_owned(),
            askpass: askpass.to_owned(),
            build_changed,
            src_changed,
            diff,
        }
    }

    /// The change date text of a directory with the modification time `modified`.
    pub fn changeDateOf(modified: Option<FileTime>) -> (s: String)
        requires
            modified is Some ==> representable(modified->0),
        ensures
            change_date_text(modified, s@),
    {
        change_date(modified)
    }

    /// The difference text of the directory modified at `second` against the
    /// one modified at `first`; positive when the second is the newer one,
    /// and empty when either time is unknown.
    pub fn diffDate(first: Option<FileTime>, second: Option<FileTime>) -> (s: String)
        requires
            first is Some && second is Some ==> {
                &&& representable(first->0)
                &&& representable(second->0)
                &&& fits_i64(span_nanos(first->0, second->0))
            },
        ensures
            s@ == diff_date_text(first, second),
    {
        diff_date(first, second)
    }

    /// The project's name.
    pub fn name(&self) -> (s: String)
        ensures
            s@ == self@.name,
    {
        self.name.clone()
    }

    /// The project's directory.
    pub fn path(&self) -> (s: String)
        ensures
            s@ == self@.path,
    {
        self.path.clone()
    }

    /// The package repository database.
    pub fn repo(&self) -> (s: String)
        ensures
            s@ == self@.repo,
    {
        self.repo.clone()
    }

    /// The configured askpass helper; empty when none is configured.
    pub fn askpass(&self) -> (s: String)
        ensures
            s@ == self@.askpass,
    {
        self.askpass.clone()
    }

    /// The change date of the build directory.
    pub fn buildChanged(&self) -> (s: String)
        ensures
            s@ == self@.build_changed,
    {
        self.build_changed.clone()
    }

    /// The change date of the source directory.
    pub fn srcChanged(&self) -> (s: String)
        ensures
            s@ == self@.src_changed,
    {
        self.src_changed.clone()
    }

    /// The difference of the build directory against the source directory.
    pub fn diff(&self) -> (s: String)
        ensures
            s@ == self@.diff,
    {
        self.diff.clone()
    }

    /// The build script next to the project directory, named after the
    /// project: `<parent of the project directory>/<name>PKGBUILD`.
    pub fn getCsrcPkgbuild(&self) -> (s: String)
        ensures
            parent_of(self@.path) is Some,
            s@ == path_join(parent_of(self@.path)->0, self@.name + pkgbuild_file()),
            forall|root: Seq<char>, name: Seq<char>|
                #![trigger path_join(root, name)]
                self@.path == path_join(root, name) && ends_in_name(root) && is_entry_name(name) ==> s@
                    == path_join(root, self@.name + pkgbuild_file()),
    {
        proof {
            use_type_invariant(self);
        }
        match path_parent(self.path.as_str()) {
            Some(dir) => {
                let mut file = self.name.clone();
                file.append("PKGBUILD");
                join_path(dir.as_str(), file.as_str())
            },
            None => {
                // the path ends in the project's name, so it has a parent
                String::new()
            },
        }
    }

    /// The project's build directory, `<project directory>/build`.
    /// Both the project directory and the build directory end in a name.
    pub fn getBuildDir(&self) -> (s: String)
        ensures
            s@ == path_join(self@.path, build_dir_name()),
            ends_in_name(self@.path),
            ends_in_name(s@),
    {
        proof {
            use_type_invariant(self);
            reveal_strlit("build");
            lemma_join_ends_in_name(self@.path, build_dir_name());
        }
        join_path(self.path.as_str(), "build")
    }

    /// The build script inside the build directory, `<build directory>/PKGBUILD`.
    /// It is an entry name joined onto a directory that ends in a name, so
    /// `Path::parent` gives the build directory back for it (see `path_parent`).
    pub fn getBuildPkgbuild(&self) -> (s: String)
        ensures
            s@ == path_join(path_join(self@.path, build_dir_name()), pkgbuild_file()),
            ends_in_name(path_join(self@.path, build_dir_name())),
            is_entry_name(pkgbuild_file()),
    {
        let dir = self.getBuildDir();
        proof {
            reveal_strlit("PKGBUILD");
        }
        join_path(dir.as_str(), "PKGBUILD")
    }

    /// The package name that the build script text `pkgbuild_text` declares.
    pub fn readPackageName(pkgbuild_text: &str) -> (r: Option<String>)
        ensures
            declared_name(pkgbuild_text@) == (match r {
                Some(s) => Some(s@),
                None => None::<Seq<char>>,
            }),
    {
        package_name(pkgbuild_text)
    }
}

/// The fields a project starts out with before they are filled in.
pub struct ProjData {
    pub name: String,
    pub buildChanged: String,
    pub srcChanged: String,
    pub diff: String,
    pub path: Option<String>,
    pub repo: Option<String>,
    pub askpass: Option<String>,
}

impl Default for ProjData {
    /// Empty texts, and no path, repository or askpass helper.
    fn default() -> (d: Self)
        ensures
            d.name@ == Seq::<char>::empty(),
            d.buildChanged@ == Seq::<char>::empty(),
            d.srcChanged@ == Seq::<char>::empty(),
            d.diff@ == Seq::<char>::empty(),
            d.path is None,
            d.repo is None,
            d.askpass is None,
    {
        ProjData {
            name: String::new(),
            buildChanged: String::new(),
            srcChanged: String::new(),
            diff: String::new(),
            path: None,
            repo: None,
            askpass: None,
        }
    }
}

} // verus!
