//! System helpers: the platform tag, binary search paths and thread
//! counts.
//!
//! The platform tag selects one of the three supported privilege and
//! path models at runtime; nothing else in the engine branches on the
//! platform.

use vstd::prelude::*;
use vstd::string::*;

verus! {

/// The platform the application runs on.
#[derive(Clone, Copy, Debug, PartialEq, Eq, Structural)]
pub enum Platform {
    MacOs,
    Linux,
    Windows,
}

/// The locations searched for an external binary of the given name,
/// in order of preference.
pub open spec fn search_paths(platform: Platform, name: Seq<char>) -> Seq<Seq<char>> {
    match platform {
        Platform::MacOs => seq![
            "/opt/homebrew/bin/"@ + name,
            "/usr/local/bin/"@ + name,
            "/usr/bin/"@ + name,
        ],
        Platform::Linux => seq![
            "/usr/bin/"@ + name,
            "/bin/"@ + name,
            "/usr/local/bin/"@ + name,
        ],
        Platform::Windows => seq![
            "C:\\Program Files\\"@ + name + "\\"@ + name + ".exe"@,
            "C:\\Program Files (x86)\\"@ + name + "\\"@ + name + ".exe"@,
        ],
    }
}

/// The index of the first true flag, or -1 when every flag is false.
pub open spec fn first_true(flags: Seq<bool>) -> int
    decreases flags.len(),
{
    if flags.len() == 0 {
        -1
    } else if flags[0] {
        0
    } else {
        let rest = first_true(flags.drop_first());
        if rest < 0 {
            -1
        } else {
            rest + 1
        }
    }
}

/// A true flag at `i` with only false flags before it is the first.
proof fn lemma_first_true_at(flags: Seq<bool>, i: int)
    requires
        0 <= i < flags.len(),
        flags[i],
        forall|k: int| 0 <= k < i ==> !flags[k],
    ensures
        first_true(flags) == i,
    decreases i,
{
    if i > 0 {
        assert(forall|k: int| 0 <= k < i - 1 ==> flags.drop_first()[k] == flags[k + 1]);
        lemma_first_true_at(flags.drop_first(), i - 1);
    }
}

/// With no true flag there is no first one.
proof fn lemma_first_true_none(flags: Seq<bool>)
    requires
        forall|k: int| 0 <= k < flags.len() ==> !flags[k],
    ensures
        first_true(flags) == -1,
    decreases flags.len(),
{
    if flags.len() > 0 {
        assert(forall|k: int|
            0 <= k < flags.len() - 1 ==> flags.drop_first()[k] == flags[k + 1]);
        lemma_first_true_none(flags.drop_first());
    }
}

/// Build the platform-specific locations to search for a binary of
/// the given name, in order of preference.
pub fn get_binary_search_paths(platform: Platform, name: &str) -> (r: Vec<String>)
    ensures
        r@.len() == search_paths(platform, name@).len(),
        forall|i: int| 0 <= i < r@.len() ==> r@[i]@ == search_paths(platform, name@)[i],
{
    match platform {
        Platform::MacOs => {
            let mut v: Vec<String> = Vec::new();
            v.push(String::from_str("/opt/homebrew/bin/").concat(name));
            v.push(String::from_str("/usr/local/bin/").concat(name));
            v.push(String::from_str("/usr/bin/").concat(name));
            v
        },
        Platform::Linux => {
            let mut v: Vec<String> = Vec::new();
            v.push(String::from_str("/usr/bin/").concat(name));
            v.push(String::from_str("/bin/").concat(name));
            v.push(String::from_str("/usr/local/bin/").concat(name));
            v
        },
        Platform::Windows => {
            let mut v: Vec<String> = Vec::new();
            v.push(
                String::from_str("C:\\Program Files\\").concat(name).concat("\\").concat(
                    name,
                ).concat(".exe"),
            );
            v.push(
                String::from_str("C:\\Program Files (x86)\\").concat(name).concat("\\").concat(
                    name,
                ).concat(".exe"),
            );
            v
        },
    }
}

/// Pick the first search path at which the binary was found. The
/// caller checks the filesystem and hands the answers in, one flag
/// per search path, in the same order.
pub fn find_binary(platform: Platform, name: &str, found: &Vec<bool>) -> (r: Option<String>)
    requires
        found@.len() == search_paths(platform, name@).len(),
    ensures
        match r {
            Some(p) => {
                &&& first_true(found@) >= 0
                &&& p@ == search_paths(platform, name@)[first_true(found@)]
            },
            None => first_true(found@) == -1,
        },
{
    let paths = get_binary_search_paths(platform, name);
    let mut i: usize = 0;
    while i < paths.len()
        invariant
            paths@.len() == found@.len(),
            paths@.len() == search_paths(platform, name@).len(),
            forall|k: int| 0 <= k < paths@.len() ==> paths@[k]@ == search_paths(
                platform,
                name@,
            )[k],
            0 <= i <= paths@.len(),
            forall|k: int| 0 <= k < i ==> !found@[k],
        decreases paths@.len() - i,
    {
        if found[i] {
            proof {
                lemma_first_true_at(found@, i as int);
            }
            return Some(paths[i].clone());
        }
        i += 1;
    }
    proof {
        lemma_first_true_none(found@);
    }
    None
}

/// A character that separates path components on some platform.
pub open spec fn is_path_sep(c: char) -> bool {
    c == '/' || c == '\\'
}

/// Whether `path` lies within `dir`: it continues `dir` at a
/// component boundary, or is `dir` itself.
pub open spec fn path_within(path: Seq<char>, dir: Seq<char>) -> bool {
    &&& path.len() >= dir.len()
    &&& path.take(dir.len() as int) == dir
    &&& (path.len() == dir.len() || is_path_sep(path[dir.len() as int]))
}

/// Decide whether a path lies within a directory, as the guard that
/// keeps deletions inside the application's own cache. A path that
/// merely shares a name prefix with the directory does not count.
pub fn path_is_within(path: &str, dir: &str) -> (r: bool)
    ensures
        r == path_within(path@, dir@),
{
    let plen = path.unicode_len();
    let dlen = dir.unicode_len();
    if plen < dlen {
        return false;
    }
    let mut i: usize = 0;
    while i < dlen
        invariant
            dlen == dir@.len(),
            plen == path@.len(),
            dlen <= plen,
            0 <= i <= dlen,
            forall|k: int| 0 <= k < i ==> path@[k] == dir@[k],
        decreases dlen - i,
    {
        if path.get_char(i) != dir.get_char(i) {
            proof {
                assert(path@.take(dlen as int)[i as int] != dir@[i as int]);
            }
            return false;
        }
        i += 1;
    }
    proof {
        assert(path@.take(dlen as int) =~= dir@);
    }
    if plen == dlen {
        return true;
    }
    let c = path.get_char(dlen);
    c == '/' || c == '\\'
}

/// The thread count recommended for CPU-heavy work: half the cores,
/// and at least one, so the system is never saturated.
pub fn get_recommended_threads(cpu_cores: usize) -> (r: usize)
    ensures
        r == if cpu_cores / 2 >= 1 {
            cpu_cores / 2
        } else {
            1usize
        },
{
    let half = cpu_cores / 2;
    if half >= 1 {
        half
    } else {
        1
    }
}

} // verus!
