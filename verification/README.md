# rbuild

A small desktop tool that lists the source projects below a configured
directory, shows when their `src` and `build` directories last changed, and
builds the selected project: as a pacman package (makepkg, repo-add, pacman
install through sudo) or, on Windows, with meson.

The library in `src/` holds the logic and is verified with Verus:

- `text`, `paths`: decimal numbers, path joining and parents as `std::path` does them on Unix
- `times`: change dates and the signed difference text of two directories
- `pkgbuild`: the package name a `PKGBUILD` declares
- `process`, `runner`: build steps, their messages and how their end is reported
- `project`: a project and the paths derived from it
- `plan`: the build plans and the askpass handling
- `config`, `ui`: configuration defaults, project entries, the step queue
- `laws`: properties that relate several of these functions

`app/` is the GTK front end: it reads the configuration and the file system,
starts the commands and shows their output, and leaves every decision to the
library. The configuration lives in `~/.config/pyBuild.conf` (group `Main`,
keys `BuildDir`, `Repo`, `Askpass`); an empty `Askpass` means no helper is
used, and a `SUDO_ASKPASS` in the environment takes precedence over it.
