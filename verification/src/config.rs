//! Where the configuration file lives and what it holds when it has to be
//! created with default settings.
use vstd::prelude::*;
use vstd::string::StringExecFns;
use crate::paths::{join_path, path_join};

verus! {

/// The directory of the configuration: `XDG_CONFIG_HOME` when set, else
/// `.config` in the home directory, else `~/.config`.
pub open spec fn config_dir_text(xdg_config_home: Option<Seq<char>>, home: Option<Seq<char>>) -> Seq<char> {
    match xdg_config_home {
        Some(x) => x,
        None => match home {
            Some(h) => h + "/.config"@,
            None => "~/.config"@,
        },
    }
}

/// The text of an optional string.
pub open spec fn opt_text(s: Option<String>) -> Option<Seq<char>> {
    match s {
        Some(t) => Some(t@),
        None => None,
    }
}

/// The directory that holds the configuration file, from the value of
/// `XDG_CONFIG_HOME` and the home directory as far as they are known.
pub fn config_dir(xdg_config_home: Option<String>, home: Option<String>) -> (d: String)
    ensures
        d@ == config_dir_text(opt_text(xdg_config_home), opt_text(home)),
{
    match xdg_config_home {
        Some(x) => x,
        None => match home {
            Some(h) => {
                let mut d = h;
                d.append("/.config");
                d
            },
            None => "~/.config".to_owned(),
        },
    }
}

/// The configuration file in the directory `dir`.
pub fn config_file(dir: &str) -> (f: String)
    ensures
        f@ == path_join(dir@, "pyBuild.conf"@),
{
    join_path(dir, "pyBuild.conf")
}

/// The group of the configuration file that holds the settings.
pub const CONFIG_GROUP: &'static str = "Main";

/// The key of the directory that holds the projects.
pub const KEY_BUILD_DIR: &'static str = "BuildDir";

/// The key of the package repository database.
pub const KEY_REPO: &'static str = "Repo";

/// The key of the askpass helper.
pub const KEY_ASKPASS: &'static str = "Askpass";

/// The comment written above the askpass setting of a new configuration.
pub const ASKPASS_COMMENT: &'static str = "Alternative provide SUDO_ASKPASS in user environment, if left empty presume askpass not needed...";

/// The settings written into a new configuration file.
pub struct ConfigDefaults {
    pub build_dir: String,
    pub repo: String,
    pub askpass: String,
}

/// The directory the defaults are placed below: the home directory, or a
/// placeholder that asks for it when the home directory is unknown.
pub open spec fn default_base(home: Option<Seq<char>>) -> Seq<char> {
    match home {
        Some(h) => h,
        None => "[replace with parent for .config e.g. your home dir]"@,
    }
}

/// The default directory of the projects: `csrc.git` below `default_base`.
pub open spec fn default_build_dir(home: Option<Seq<char>>) -> Seq<char> {
    default_base(home) + "/csrc.git"@
}

/// The default askpass helper: `raskpass` where `cargo install` puts it,
/// `.cargo/bin` below `default_base`.
pub open spec fn default_askpass(home: Option<Seq<char>>) -> Seq<char> {
    default_base(home) + "/.cargo/bin/raskpass"@
}

/// The default settings: the projects in `default_build_dir`, the repository
/// `/var/local/pacman/custom.db.tar.gz`, and the askpass helper
/// `default_askpass`.
pub fn default_config(home: Option<String>) -> (c: ConfigDefaults)
    ensures
        c.build_dir@ == default_build_dir(opt_text(home)),
        c.repo@ == "/var/local/pacman/custom.db.tar.gz"@,
        c.askpass@ == default_askpass(opt_text(home)),
{
    let base = match home {
        Some(h) => h,
        None => "[replace with parent for .config e.g. your home dir]".to_owned(),
    };
    let mut build_dir = base.clone();
    build_dir.append("/csrc.git");
    let mut askpass = base;
    askpass.append("/.cargo/bin/raskpass");
    ConfigDefaults { build_dir, repo: "/var/local/pacman/custom.db.tar.gz".to_owned(), askpass }
}

} // verus!
