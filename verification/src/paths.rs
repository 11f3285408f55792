//! Resource path resolver: computes where the sidecar's entry script and
//! resource tree live, for the development layout and for the packaged
//! layout. The resolver itself never touches the disk: the host probes
//! the two candidate `api` directories and hands the outcome in.

use vstd::prelude::*;
use crate::platform::OsFamily;

verus! {

/// Which filesystem layout rules apply: the development tree or the
/// packaged/installed tree.
#[derive(Clone, Copy, PartialEq, Eq, Structural, Debug)]
pub enum BuildMode {
    Development,
    Packaged,
}

/// The outcome of probing the packaged resource directory: whether
/// `<dir>/api` exists, and whether `<dir>/_up_/api` exists.
#[derive(Clone, Copy, PartialEq, Eq, Structural, Debug)]
pub struct ResourceProbe {
    pub direct_api_exists: bool,
    pub lifted_api_exists: bool,
}

/// The two paths a launch attempt needs: the sidecar entry script and
/// the root of the resource tree. Computed once per attempt; immutable.
#[derive(Clone, PartialEq, Eq, Debug)]
pub struct SidecarPaths {
    pub script_path: String,
    pub resource_root: String,
}

/// `base`, the platform separator, then `rel`.
pub open spec fn spec_join(os: OsFamily, base: Seq<char>, rel: Seq<char>) -> Seq<char> {
    base + os.spec_separator_seq() + rel
}

/// Joins a relative path onto a base directory with the platform
/// separator.
pub fn join(os: OsFamily, base: &str, rel: &str) -> (r: String)
    ensures
        r@ == spec_join(os, base@, rel@),
{
    let mut out = String::from_str(base);
    let sep = os.separator();
    out.append(sep.as_str());
    out.append(rel);
    proof {
        assert(out@ =~= spec_join(os, base@, rel@));
    }
    out
}

/// The position of the last separator in `p`, or `-1` when none occurs.
pub open spec fn last_sep(os: OsFamily, p: Seq<char>) -> int
    decreases p.len(),
{
    if p.len() == 0 {
        -1
    } else if p[p.len() - 1] == os.spec_separator() {
        p.len() - 1
    } else {
        last_sep(os, p.drop_last())
    }
}

/// The parent of a path: the text before its last separator, or `.`
/// when the path holds no separator at all. This is the resolver's own
/// textual rule: on a path whose only separator leads it (`/x`) it
/// yields the empty text where std's `Path::parent` would keep the
/// root, and a trailing separator is taken as the last one. The
/// resolver only ever applies it to an absolute source directory well
/// below the root, where the two rules agree.
pub open spec fn spec_parent(os: OsFamily, p: Seq<char>) -> Seq<char> {
    if last_sep(os, p) < 0 {
        "."@
    } else {
        p.subrange(0, last_sep(os, p))
    }
}

/// The last separator is inside the path.
proof fn lemma_last_sep_bounds(os: OsFamily, p: Seq<char>)
    ensures
        -1 <= last_sep(os, p) < p.len(),
    decreases p.len(),
{
    if p.len() > 0 && p[p.len() - 1] != os.spec_separator() {
        lemma_last_sep_bounds(os, p.drop_last());
    }
}

/// The parent directory of a path, by the resolver's own rule: the text
/// before the last separator; `.` when there is none.
pub fn parent_dir(os: OsFamily, p: &str) -> (r: String)
    ensures
        r@ == spec_parent(os, p@),
{
    let sep: char = if os == OsFamily::Windows {
        '\\'
    } else {
        '/'
    };
    let n = p.unicode_len();
    let mut i = n;
    proof {
        assert(p@.subrange(0, n as int) =~= p@);
    }
    while i > 0
        invariant
            i <= n,
            n == p@.len(),
            sep == os.spec_separator(),
            last_sep(os, p@) == last_sep(os, p@.subrange(0, i as int)),
        decreases i,
    {
        let c = p.get_char(i - 1);
        if c == sep {
            proof {
                assert(last_sep(os, p@.subrange(0, i as int)) == i - 1);
            }
            return p.substring_char(0, i - 1).to_owned();
        }
        proof {
            assert(p@.subrange(0, i as int).drop_last() =~= p@.subrange(0, i - 1 as int));
        }
        i = i - 1;
    }
    proof {
        assert(p@.subrange(0, 0) =~= Seq::<char>::empty());
    }
    String::from_str(".")
}

/// The relative path of the sidecar entry script below either root.
pub open spec fn spec_script_rel() -> Seq<char> {
    "sidecar/local-api-server.mjs"@
}

/// Where the entry script stands: under the compile-time source
/// directory in development, under the runtime resource directory when
/// packaged.
pub open spec fn spec_script_path(
    os: OsFamily,
    mode: BuildMode,
    source_dir: Seq<char>,
    resource_dir: Seq<char>,
) -> Seq<char> {
    if mode is Development {
        spec_join(os, source_dir, spec_script_rel())
    } else {
        spec_join(os, resource_dir, spec_script_rel())
    }
}

/// Where the resource root stands. In development it is the parent of
/// the source directory. When packaged it is the resource directory
/// itself if `<dir>/api` exists; else `<dir>/_up_` if `<dir>/_up_/api`
/// exists (the lifted layout); else the resource directory unchanged.
pub open spec fn spec_resource_root(
    os: OsFamily,
    mode: BuildMode,
    source_dir: Seq<char>,
    resource_dir: Seq<char>,
    probe: ResourceProbe,
) -> Seq<char> {
    if mode is Development {
        spec_parent(os, source_dir)
    } else if probe.direct_api_exists {
        resource_dir
    } else if probe.lifted_api_exists {
        spec_join(os, resource_dir, "_up_"@)
    } else {
        resource_dir
    }
}

/// The two directories whose existence decides the packaged layout:
/// `<dir>/api` and `<dir>/_up_/api`. The host checks these on disk and
/// reports the outcome as a `ResourceProbe`.
pub fn packaged_probe_targets(os: OsFamily, resource_dir: &str) -> (r: (String, String))
    ensures
        r.0@ == spec_join(os, resource_dir@, "api"@),
        r.1@ == spec_join(os, spec_join(os, resource_dir@, "_up_"@), "api"@),
{
    let direct_api = join(os, resource_dir, "api");
    let lifted_root = join(os, resource_dir, "_up_");
    let lifted_api = join(os, lifted_root.as_str(), "api");
    (direct_api, lifted_api)
}

/// Computes the sidecar entry-script path and the resource root for one
/// launch attempt. Performs no filesystem work and never fails; a
/// missing script is detected by the caller, not here.
pub fn resolve(
    os: OsFamily,
    mode: BuildMode,
    source_dir: &str,
    resource_dir: &str,
    probe: ResourceProbe,
) -> (r: SidecarPaths)
    ensures
        r.script_path@ == spec_script_path(os, mode, source_dir@, resource_dir@),
        r.resource_root@ == spec_resource_root(os, mode, source_dir@, resource_dir@, probe),
{
    let script_path = if mode == BuildMode::Development {
        join(os, source_dir, "sidecar/local-api-server.mjs")
    } else {
        join(os, resource_dir, "sidecar/local-api-server.mjs")
    };
    let resource_root = if mode == BuildMode::Development {
        parent_dir(os, source_dir)
    } else if probe.direct_api_exists {
        String::from_str(resource_dir)
    } else if probe.lifted_api_exists {
        join(os, resource_dir, "_up_")
    } else {
        String::from_str(resource_dir)
    };
    SidecarPaths { script_path, resource_root }
}

/// The sidecar's merged stdout/stderr log file, below the log directory.
pub fn sidecar_log_path(os: OsFamily, logs_dir: &str) -> (r: String)
    ensures
        r@ == spec_join(os, logs_dir@, "local-api.log"@),
{
    join(os, logs_dir, "local-api.log")
}

/// The supervisor's own diagnostic log file, below the log directory.
pub fn desktop_log_path(os: OsFamily, logs_dir: &str) -> (r: String)
    ensures
        r@ == spec_join(os, logs_dir@, "desktop.log"@),
{
    join(os, logs_dir, "desktop.log")
}

/// The JSON-backed cache file, below the application data directory.
pub fn cache_file_path(os: OsFamily, data_dir: &str) -> (r: String)
    ensures
        r@ == spec_join(os, data_dir@, "persistent-cache.json"@),
{
    join(os, data_dir, "persistent-cache.json")
}

/// Law: in packaged mode the probe alone decides the resource root —
/// with a direct `api` directory the root is the resource directory;
/// with only the lifted one it is `<dir>/_up_`; with neither it is the
/// resource directory unchanged.
pub proof fn lemma_resolve_packaged(
    os: OsFamily,
    source_dir: Seq<char>,
    resource_dir: Seq<char>,
    probe: ResourceProbe,
)
    ensures
        probe.direct_api_exists ==> spec_resource_root(
            os,
            BuildMode::Packaged,
            source_dir,
            resource_dir,
            probe,
        ) == resource_dir,
        !probe.direct_api_exists && probe.lifted_api_exists ==> spec_resource_root(
            os,
            BuildMode::Packaged,
            source_dir,
            resource_dir,
            probe,
        ) == spec_join(os, resource_dir, "_up_"@),
        !probe.direct_api_exists && !probe.lifted_api_exists ==> spec_resource_root(
            os,
            BuildMode::Packaged,
            source_dir,
            resource_dir,
            probe,
        ) == resource_dir,
{
}

} // verus!
