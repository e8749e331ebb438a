//! Where the panel keeps its files.

use vstd::prelude::*;
use vstd::string::*;

verus! {

/// The panel's directory under the user's directories.
pub const DIR: &'static str = "runel";

/// What `std::path::Path::join` makes of a path and a part: the path
/// extended by the part, or the part alone where the part is absolute.
pub uninterp spec fn joined(base: Seq<char>, part: Seq<char>) -> Seq<char>;

/// `std::path::Path::join`, on paths that are text. The result is a
/// function of the two texts alone.
#[verifier::external_body]
fn join(base: &str, part: &str) -> (path: String)
    ensures
        path@ == joined(base@, part@),
{
    std::path::Path::new(base).join(part).to_string_lossy().into_owned()
}

/// The path of the file `path` in the panel's directory under `dir`.
pub open spec fn in_dir(dir: Seq<char>, path: Seq<char>) -> Seq<char> {
    joined(joined(dir, DIR@), path)
}

/// The path of the file `path` in the panel's runtime directory, or under
/// `/tmp` where the user has no runtime directory.
pub open spec fn in_runtime_dir(dir: Option<Seq<char>>, path: Seq<char>) -> Seq<char> {
    match dir {
        Some(d) => in_dir(d, path),
        None => "/tmp/runel."@ + path,
    }
}

/// The panel's directory under `dir`, which is to exist before a file in
/// it is used.
pub fn create(dir: &str) -> (path: String)
    ensures
        path@ == joined(dir@, DIR@),
{
    join(dir, DIR)
}

/// The path of the file `path` in the panel's directory under the cache
/// directory `dir`.
pub fn cache_path(dir: &str, path: &str) -> (file: String)
    ensures
        file@ == in_dir(dir@, path@),
{
    let panel = join(dir, DIR);
    join(panel.as_str(), path)
}

/// Where the panel's errors go.
pub fn daemon_err(cache_dir: &str) -> (file: String)
    ensures
        file@ == in_dir(cache_dir@, "daemon.err"@),
{
    cache_path(cache_dir, "daemon.err")
}

/// Where the panel's output goes.
pub fn daemon_out(cache_dir: &str) -> (file: String)
    ensures
        file@ == in_dir(cache_dir@, "daemon.out"@),
{
    cache_path(cache_dir, "daemon.out")
}

/// Where the errors of a mode's remote control go.
pub fn mode_err(cache_dir: &str) -> (file: String)
    ensures
        file@ == in_dir(cache_dir@, "mode.err"@),
{
    cache_path(cache_dir, "mode.err")
}

/// Where the output of a mode's remote control goes.
pub fn mode_out(cache_dir: &str) -> (file: String)
    ensures
        file@ == in_dir(cache_dir@, "mode.out"@),
{
    cache_path(cache_dir, "mode.out")
}

/// The path of the file `path` in the panel's runtime directory, or under
/// `/tmp` where the user has no runtime directory.
pub fn runtime_path(runtime_dir: Option<&str>, path: &str) -> (file: String)
    ensures
        file@ == in_runtime_dir(
            match runtime_dir {
                Some(d) => Some(d@),
                None => None,
            },
            path@,
        ),
{
    match runtime_dir {
        Some(dir) => cache_path(dir, path),
        None => {
            let mut file = String::from_str("/tmp/runel.");
            file.append(path);
            file
        },
    }
}

/// The panel's socket.
pub fn socket(runtime_dir: Option<&str>) -> (file: String)
    ensures
        file@ == in_runtime_dir(
            match runtime_dir {
                Some(d) => Some(d@),
                None => None,
            },
            "socket"@,
        ),
{
    runtime_path(runtime_dir, "socket")
}

/// The file that holds the panel's process id.
pub fn pid(runtime_dir: Option<&str>) -> (file: String)
    ensures
        file@ == in_runtime_dir(
            match runtime_dir {
                Some(d) => Some(d@),
                None => None,
            },
            "pid"@,
        ),
{
    runtime_path(runtime_dir, "pid")
}

/// The executable of the mode `path` in the panel's directory under the
/// configuration directory `config_dir`.
pub fn mode(config_dir: &str, path: &str) -> (file: String)
    ensures
        file@ == in_dir(config_dir@, path@),
{
    cache_path(config_dir, path)
}

} // verus!
