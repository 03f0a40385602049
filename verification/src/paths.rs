//! The managed directory layout and the paths an install touches, all
//! relative to the root directory (conventionally `~/.gleam_pkgs`).
//!
//! Every path is a plain string; the caller joins it onto the root
//! before touching the filesystem.

use vstd::prelude::*;
use vstd::string::*;

use crate::strutil::{join2, join4};

verus! {

/// The root directory's name under the user's home directory.
pub fn root_dir_name() -> (r: &'static str)
    ensures
        r@ == ".gleam_pkgs"@,
{
    ".gleam_pkgs"
}

/// The managed subdirectories that must exist before an install:
/// downloads, installed apps, and the reserved database directory.
pub fn managed_subdirs() -> (r: Vec<&'static str>)
    ensures
        r@.len() == 3,
        r@[0]@ == "download"@,
        r@[1]@ == "apps"@,
        r@[2]@ == "db"@,
{
    let mut v: Vec<&'static str> = Vec::new();
    v.push("download");
    v.push("apps");
    v.push("db");
    v
}

/// Where the fetched archive is saved: `download/{name}-{version}.tar`.
pub open spec fn tarball_rel_text(name: Seq<char>, version: Seq<char>) -> Seq<char> {
    "download/"@ + name + "-"@ + version + ".tar"@
}

/// Builds the saved archive's relative path.
pub fn tarball_rel(name: &str, version: &str) -> (r: String)
    ensures
        r@ == tarball_rel_text(name@, version@),
{
    let t = join4("download/", name, "-", version);
    join2(t.as_str(), ".tar")
}

/// Where the archive is unpacked: `download/{name}-{version}`.
pub open spec fn extract_dir_text(name: Seq<char>, version: Seq<char>) -> Seq<char> {
    "download/"@ + name + "-"@ + version
}

/// Builds the extraction directory's relative path.
pub fn extract_dir_rel(name: &str, version: &str) -> (r: String)
    ensures
        r@ == extract_dir_text(name@, version@),
{
    join4("download/", name, "-", version)
}

/// The inner archive inside the outer-unpacked tree:
/// `download/{name}-{version}/contents.tar.gz`.
pub open spec fn inner_archive_text(name: Seq<char>, version: Seq<char>) -> Seq<char> {
    extract_dir_text(name, version) + "/contents.tar.gz"@
}

/// Builds the inner archive's relative path.
pub fn inner_archive_rel(name: &str, version: &str) -> (r: String)
    ensures
        r@ == inner_archive_text(name@, version@),
{
    let d = extract_dir_rel(name, version);
    join2(d.as_str(), "/contents.tar.gz")
}

/// The unpacked source tree: `download/{name}-{version}/contents`.
pub open spec fn contents_dir_text(name: Seq<char>, version: Seq<char>) -> Seq<char> {
    extract_dir_text(name, version) + "/contents"@
}

/// Builds the source tree's relative path.
pub fn contents_dir_rel(name: &str, version: &str) -> (r: String)
    ensures
        r@ == contents_dir_text(name@, version@),
{
    let d = extract_dir_rel(name, version);
    join2(d.as_str(), "/contents")
}

/// The compiled escript the build produces:
/// `download/{name}-{version}/contents/build/{name}`.
pub open spec fn artifact_rel_text(name: Seq<char>, version: Seq<char>) -> Seq<char> {
    contents_dir_text(name, version) + "/build/"@ + name
}

/// Builds the compiled escript's relative path.
pub fn artifact_rel(name: &str, version: &str) -> (r: String)
    ensures
        r@ == artifact_rel_text(name@, version@),
{
    let d = contents_dir_rel(name, version);
    let t = join2(d.as_str(), "/build/");
    join2(t.as_str(), name)
}

/// The installed launcher: `apps/{name}`.  The path does not depend on
/// the version, so installing any version replaces the launcher of any
/// previously installed version of the same package.
pub open spec fn launcher_rel_text(name: Seq<char>) -> Seq<char> {
    "apps/"@ + name
}

/// Builds the installed launcher's relative path.
pub fn launcher_rel(name: &str) -> (r: String)
    ensures
        r@ == launcher_rel_text(name@),
{
    join2("apps/", name)
}

/// The versioned application directory a prior install may have left:
/// `apps/{name}-{version}`.
pub open spec fn versioned_app_text(name: Seq<char>, version: Seq<char>) -> Seq<char> {
    "apps/"@ + name + "-"@ + version
}

/// Builds the versioned application directory's relative path.
pub fn versioned_app_rel(name: &str, version: &str) -> (r: String)
    ensures
        r@ == versioned_app_text(name@, version@),
{
    join4("apps/", name, "-", version)
}

} // verus!
