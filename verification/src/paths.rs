//! Path resolution for the settings file.
//!
//! Paths are modelled as strings. Components are joined with the platform's
//! separator (`\` on Windows, `/` elsewhere), and a path is split at its last
//! separator (on Windows both `/` and `\` separate, as that platform's own
//! path rules say). The resolver computes where the settings file lives from
//! plain values the caller passes in: the running executable's path and the
//! environment variables the platform rule reads. Creating the user-config
//! directory is filesystem work and is left to the caller, which does it on
//! the path these functions return.

use vstd::prelude::*;
use crate::SettingsError;

verus! {

/// The platform whose conventions decide the user-config root and the path
/// separator.
#[derive(Clone, Copy)]
pub enum Platform {
    Linux,
    Windows,
    MacOs,
    Android,
    Ios,
}

/// The environment variables the platform rules read, each `None` when unset.
pub struct Env {
    pub xdg_config_home: Option<String>,
    pub home: Option<String>,
    pub appdata: Option<String>,
    pub android_internal_storage: Option<String>,
}

/// `c` separates path components on `platform`: `/` everywhere, and `\` too
/// on Windows.
pub open spec fn is_sep(platform: Platform, c: char) -> bool {
    c == '/' || (platform is Windows && c == '\\')
}

/// Two path components joined with the platform's separator.
pub open spec fn join_spec(platform: Platform, dir: Seq<char>, name: Seq<char>) -> Seq<char> {
    if platform is Windows {
        dir + "\\"@ + name
    } else {
        dir + "/"@ + name
    }
}

/// Index of the last separator in `s`, or `-1` when `s` holds none.
pub open spec fn last_sep(platform: Platform, s: Seq<char>) -> int
    decreases s.len(),
{
    if s.len() == 0 {
        -1
    } else if is_sep(platform, s[s.len() - 1]) {
        s.len() - 1
    } else {
        last_sep(platform, s.drop_last())
    }
}

/// The directory part of `path`: everything before the last separator, or
/// `None` when `path` holds no separator and so names no directory.
pub open spec fn parent_dir_spec(platform: Platform, path: Seq<char>) -> Option<Seq<char>> {
    if last_sep(platform, path) >= 0 {
        Some(path.subrange(0, last_sep(platform, path)))
    } else {
        None
    }
}

/// The file-name part of `path`: everything after the last separator (all of
/// `path` when it holds none).
pub open spec fn file_name_spec(platform: Platform, path: Seq<char>) -> Seq<char> {
    path.subrange(last_sep(platform, path) + 1, path.len() as int)
}

/// The platform's user-config root, per convention:
/// Linux `$XDG_CONFIG_HOME`, else `$HOME/.config`; Windows `%APPDATA%`;
/// macOS `$HOME/Library/Application Support`; Android
/// `$ANDROID_INTERNAL_STORAGE/config`; iOS `$HOME/Documents/config`.
/// `None` when the required variable is unset.
pub open spec fn config_root_spec(platform: Platform, env: Env) -> Option<Seq<char>> {
    match platform {
        Platform::Linux => match env.xdg_config_home {
            Some(x) => Some(x@),
            None => match env.home {
                Some(h) => Some(h@ + "/.config"@),
                None => None,
            },
        },
        Platform::Windows => match env.appdata {
            Some(a) => Some(a@),
            None => None,
        },
        Platform::MacOs => match env.home {
            Some(h) => Some(h@ + "/Library/Application Support"@),
            None => None,
        },
        Platform::Android => match env.android_internal_storage {
            Some(s) => Some(s@ + "/config"@),
            None => None,
        },
        Platform::Ios => match env.home {
            Some(h) => Some(h@ + "/Documents/config"@),
            None => None,
        },
    }
}

/// The settings file's path in the executable's own directory, or `None` when
/// the executable path names no directory.
pub open spec fn exe_dir_path_spec(
    platform: Platform,
    exe_path: Seq<char>,
    filename: Seq<char>,
) -> Option<Seq<char>> {
    match parent_dir_spec(platform, exe_path) {
        Some(dir) => Some(join_spec(platform, dir, filename)),
        None => None,
    }
}

/// The app-scoped user-config directory: the platform's config root, then the
/// executable's own file name as a subdirectory.
pub open spec fn config_dir_spec(platform: Platform, env: Env, exe_path: Seq<char>) -> Option<
    Seq<char>,
> {
    match config_root_spec(platform, env) {
        Some(root) => Some(join_spec(platform, root, file_name_spec(platform, exe_path))),
        None => None,
    }
}

/// The settings file's path in the app-scoped user-config directory.
pub open spec fn config_dir_path_spec(
    platform: Platform,
    env: Env,
    exe_path: Seq<char>,
    filename: Seq<char>,
) -> Option<Seq<char>> {
    match config_dir_spec(platform, env, exe_path) {
        Some(dir) => Some(join_spec(platform, dir, filename)),
        None => None,
    }
}

/// `dir` and `name` joined with the platform's separator.
pub fn join_path(platform: &Platform, dir: &str, name: &str) -> (r: String)
    ensures
        r@ == join_spec(*platform, dir@, name@),
{
    let mut s = dir.to_owned();
    match platform {
        Platform::Windows => s.append("\\"),
        _ => s.append("/"),
    }
    s.append(name);
    s
}

/// Whether `c` separates path components on `platform`.
fn is_sep_char(platform: &Platform, c: char) -> (r: bool)
    ensures
        r == is_sep(*platform, c),
{
    match platform {
        Platform::Windows => c == '/' || c == '\\',
        _ => c == '/',
    }
}

proof fn lemma_last_sep_none(platform: Platform, s: Seq<char>)
    requires
        forall|j: int| 0 <= j < s.len() ==> !is_sep(platform, s[j]),
    ensures
        last_sep(platform, s) == -1,
    decreases s.len(),
{
    if s.len() > 0 {
        assert(forall|j: int| 0 <= j < s.drop_last().len() ==> s.drop_last()[j] == s[j]);
        lemma_last_sep_none(platform, s.drop_last());
    }
}

proof fn lemma_last_sep_at(platform: Platform, s: Seq<char>, i: int)
    requires
        0 <= i < s.len(),
        is_sep(platform, s[i]),
        forall|j: int| i < j < s.len() ==> !is_sep(platform, s[j]),
    ensures
        last_sep(platform, s) == i,
    decreases s.len(),
{
    if i < s.len() - 1 {
        assert(forall|j: int| 0 <= j < s.drop_last().len() ==> s.drop_last()[j] == s[j]);
        lemma_last_sep_at(platform, s.drop_last(), i);
    }
}

/// Index of the last separator in `s`, or `None` when `s` holds none.
fn rfind_sep(platform: &Platform, s: &str) -> (r: Option<usize>)
    ensures
        match r {
            Some(i) => i < s@.len() && last_sep(*platform, s@) == i,
            None => last_sep(*platform, s@) == -1,
        },
{
    let n: usize = s.unicode_len();
    let mut i: usize = n;
    while i > 0
        invariant
            i <= n,
            n == s@.len(),
            forall|j: int| i <= j < s@.len() ==> !is_sep(*platform, s@[j]),
        decreases i,
    {
        i = i - 1;
        if is_sep_char(platform, s.get_char(i)) {
            proof {
                lemma_last_sep_at(*platform, s@, i as int);
            }
            return Some(i);
        }
    }
    proof {
        lemma_last_sep_none(*platform, s@);
    }
    None
}

/// The settings file's path in the directory holding the executable at
/// `exe_path`; `SettingsError::Environment` when that path names no directory.
pub fn exe_dir_filepath(platform: &Platform, exe_path: &str, filename: &str) -> (r: Result<
    String,
    SettingsError,
>)
    ensures
        match r {
            Ok(p) => exe_dir_path_spec(*platform, exe_path@, filename@) == Some(p@),
            Err(e) => exe_dir_path_spec(*platform, exe_path@, filename@) is None
                && e is Environment,
        },
{
    match rfind_sep(platform, exe_path) {
        Some(i) => {
            let dir = exe_path.substring_char(0, i);
            Ok(join_path(platform, dir, filename))
        },
        None => Err(SettingsError::Environment),
    }
}

/// The platform's user-config root read from `env`, per the rule of
/// `config_root_spec`; `SettingsError::Environment` when the required
/// variable is unset.
pub fn config_root_dir(platform: &Platform, env: &Env) -> (r: Result<String, SettingsError>)
    ensures
        match r {
            Ok(p) => config_root_spec(*platform, *env) == Some(p@),
            Err(e) => config_root_spec(*platform, *env) is None && e is Environment,
        },
{
    match platform {
        Platform::Linux => match &env.xdg_config_home {
            Some(x) => Ok(x.clone()),
            None => match &env.home {
                Some(h) => Ok(h.clone().concat("/.config")),
                None => Err(SettingsError::Environment),
            },
        },
        Platform::Windows => match &env.appdata {
            Some(a) => Ok(a.clone()),
            None => Err(SettingsError::Environment),
        },
        Platform::MacOs => match &env.home {
            Some(h) => Ok(h.clone().concat("/Library/Application Support")),
            None => Err(SettingsError::Environment),
        },
        Platform::Android => match &env.android_internal_storage {
            Some(s) => Ok(s.clone().concat("/config")),
            None => Err(SettingsError::Environment),
        },
        Platform::Ios => match &env.home {
            Some(h) => Ok(h.clone().concat("/Documents/config")),
            None => Err(SettingsError::Environment),
        },
    }
}

/// The app-scoped user-config directory for the executable at `exe_path`:
/// the platform's config root, then the executable's file name as a
/// subdirectory. The caller creates the directory if it is missing.
pub fn config_dir(platform: &Platform, env: &Env, exe_path: &str) -> (r: Result<
    String,
    SettingsError,
>)
    ensures
        match r {
            Ok(p) => config_dir_spec(*platform, *env, exe_path@) == Some(p@),
            Err(e) => config_dir_spec(*platform, *env, exe_path@) is None && e is Environment,
        },
{
    let root = config_root_dir(platform, env)?;
    let n: usize = exe_path.unicode_len();
    let start: usize = match rfind_sep(platform, exe_path) {
        Some(i) => i + 1,
        None => 0,
    };
    let name = exe_path.substring_char(start, n);
    Ok(join_path(platform, root.as_str(), name))
}

/// The settings file's path in the app-scoped user-config directory.
/// The caller creates that directory if it is missing.
pub fn config_dir_filepath(platform: &Platform, env: &Env, exe_path: &str, filename: &str) -> (r:
    Result<String, SettingsError>)
    ensures
        match r {
            Ok(p) => config_dir_path_spec(*platform, *env, exe_path@, filename@) == Some(p@),
            Err(e) => config_dir_path_spec(*platform, *env, exe_path@, filename@) is None
                && e is Environment,
        },
{
    let dir = config_dir(platform, env, exe_path)?;
    Ok(join_path(platform, dir.as_str(), filename))
}

} // verus!
