use vstd::prelude::*;
use std::path::PathBuf;

verus! {

#[verifier::external_type_specification]
#[verifier::external_body]
pub struct ExPathBuf(std::path::PathBuf);

/// The user directory under which the game directory lies.
#[derive(Clone, Copy, Debug, PartialEq, Eq, Structural)]
pub enum DirBase {
    /// The user's configuration directory.
    Config,
    /// The user's data directory.
    Data,
}

/// The user directory that holds the game directory on the operating system
/// named `os` (as Rust names it): the configuration directory on Windows, the
/// data directory on Linux, and none elsewhere.
pub open spec fn dir_base_of_os(os: Seq<char>) -> Option<DirBase> {
    if os == "windows"@ {
        Some(DirBase::Config)
    } else if os == "linux"@ {
        Some(DirBase::Data)
    } else {
        None
    }
}

/// The user directory that holds the game directory on the operating system `os`.
pub fn minecraft_dir_base(os: &str) -> (r: Option<DirBase>)
    ensures
        r == dir_base_of_os(os@),
{
    let os = os.to_owned();
    if os == "windows".to_owned() {
        Some(DirBase::Config)
    } else if os == "linux".to_owned() {
        Some(DirBase::Data)
    } else {
        None
    }
}

/// Calls `dirs::config_dir`. What it returns depends on the environment and
/// the machine, so nothing is stated of it.
#[verifier::external_body]
fn user_config_dir() -> Option<PathBuf> {
    dirs::config_dir()
}

/// Calls `dirs::data_dir`. What it returns depends on the environment and
/// the machine, so nothing is stated of it.
#[verifier::external_body]
fn user_data_dir() -> Option<PathBuf> {
    dirs::data_dir()
}

/// The path `base` with the name `name` joined to it, as `Path::join` makes it.
pub uninterp spec fn joined(base: PathBuf, name: Seq<char>) -> PathBuf;

/// Whether a path is empty, as `as_os_str().is_empty()` tells.
pub uninterp spec fn path_is_empty(p: PathBuf) -> bool;

/// Calls `Path::join` on `base` with `name`. Its result depends on the two
/// arguments alone, and is named [`joined`].
#[verifier::external_body]
fn join_path(base: &PathBuf, name: &str) -> (r: PathBuf)
    ensures
        r == joined(*base, name@),
{
    base.join(name)
}

/// Calls `PathBuf::new`, which makes an empty path.
#[verifier::external_body]
fn empty_path() -> (r: PathBuf)
    ensures
        path_is_empty(r),
{
    PathBuf::new()
}

/// The name of the game directory.
pub open spec fn game_dir_name() -> Seq<char> {
    ".minecraft"@
}

/// The game directory on the operating system `os`, given the user's
/// configuration directory `config` and data directory `data` where they are
/// known: `.minecraft` under the directory that [`dir_base_of_os`] names, or
/// the empty path where it names none or that directory is unknown.
pub fn game_dir(os: &str, config: Option<PathBuf>, data: Option<PathBuf>) -> (r: PathBuf)
    ensures
        match dir_base_of_os(os@) {
            Some(DirBase::Config) => match config {
                Some(b) => r == joined(b, game_dir_name()),
                None => path_is_empty(r),
            },
            Some(DirBase::Data) => match data {
                Some(b) => r == joined(b, game_dir_name()),
                None => path_is_empty(r),
            },
            None => path_is_empty(r),
        },
{
    let base = match minecraft_dir_base(os) {
        Some(DirBase::Config) => config,
        Some(DirBase::Data) => data,
        None => None,
    };
    match base {
        Some(dir) => join_path(&dir, ".minecraft"),
        None => empty_path(),
    }
}

/// The game directory on the operating system `os`: `.minecraft` under the
/// user directory that [`minecraft_dir_base`] names, or the empty path where
/// it names none or the user directory is unknown. Which user directory the
/// environment gives is not known here, so the contract says that the result
/// is empty where no user directory is meant, and otherwise either empty or
/// `.minecraft` joined to some directory; [`game_dir`] states the result for
/// each user directory.
pub fn get_minecraft_dir(os: &str) -> (r: PathBuf)
    ensures
        dir_base_of_os(os@) is None ==> path_is_empty(r),
        path_is_empty(r) || exists|b: PathBuf| r == #[trigger] joined(b, game_dir_name()),
{
    let base = minecraft_dir_base(os);
    let config = match base {
        Some(DirBase::Config) => user_config_dir(),
        _ => None,
    };
    let data = match base {
        Some(DirBase::Data) => user_data_dir(),
        _ => None,
    };
    let ghost config_seen = config;
    let ghost data_seen = data;
    let r = game_dir(os, config, data);
    proof {
        match dir_base_of_os(os@) {
            Some(DirBase::Config) => {
                if let Some(b) = config_seen {
                    assert(r == joined(b, game_dir_name()));
                }
            },
            Some(DirBase::Data) => {
                if let Some(b) = data_seen {
                    assert(r == joined(b, game_dir_name()));
                }
            },
            None => {},
        }
    }
    r
}

} // verus!
