//! The registry client's decisions: endpoint configuration, request URL
//! construction, response status classification, and version resolution
//! over the fetched metadata.
//!
//! The metadata document is modelled as plain data.  The caller turns
//! the registry's JSON answer into a [`RegistryMetadata`]: `releases` is
//! `None` when the document has no list under that key, and each entry's
//! `version` is `None` when the entry has no version string.

use vstd::prelude::*;
use vstd::string::*;

use crate::error::GleamPkgError;
use crate::strutil::{join2, join5};

verus! {

/// Endpoints of the package registry.
pub struct Config {
    /// Base URL for metadata queries.
    pub api_base: String,
    /// Base URL for release archive downloads.
    pub repository_base: String,
}

impl Config {
    /// The default endpoints: the public Hex registry.
    pub fn new() -> (c: Self)
        ensures
            c.api_base@ == "https://hex.pm/api/"@,
            c.repository_base@ == "https://repo.hex.pm/"@,
    {
        Config {
            api_base: "https://hex.pm/api/".to_owned(),
            repository_base: "https://repo.hex.pm/".to_owned(),
        }
    }
}

/// One entry of the metadata's `releases` list.
#[derive(Debug)]
pub struct ReleaseEntry {
    /// The release's version string, when the entry carries one.
    pub version: Option<String>,
}

/// The registry's metadata document, reduced to what resolution reads.
#[derive(Debug)]
pub struct RegistryMetadata {
    /// The ordered `releases` list; `None` when the document has none.
    pub releases: Option<Vec<ReleaseEntry>>,
}

/// The URL a package's metadata is fetched from.
pub open spec fn metadata_url_text(api_base: Seq<char>, name: Seq<char>) -> Seq<char> {
    api_base + "packages/"@ + name
}

/// Builds the metadata URL: `{api_base}packages/{name}`.
pub fn metadata_url(api_base: &str, name: &str) -> (r: String)
    ensures
        r@ == metadata_url_text(api_base@, name@),
{
    let mut s = api_base.to_owned();
    s.append("packages/");
    s.append(name);
    s
}

/// The URL a package's release archive is fetched from.
pub open spec fn tarball_url_text(
    repository_base: Seq<char>,
    name: Seq<char>,
    version: Seq<char>,
) -> Seq<char> {
    repository_base + "tarballs/"@ + name + "-"@ + version + ".tar"@
}

/// Builds the archive URL: `{repository_base}tarballs/{name}-{version}.tar`.
pub fn tarball_url(repository_base: &str, name: &str, version: &str) -> (r: String)
    ensures
        r@ == tarball_url_text(repository_base@, name@, version@),
{
    let t = join5(repository_base, "tarballs/", name, "-", version);
    join2(t.as_str(), ".tar")
}

/// Whether an HTTP status code reports success.
pub open spec fn is_success_status(code: u16) -> bool {
    200 <= code < 300
}

/// Classifies an HTTP status code: only the 2xx range is success.
pub fn status_is_success(code: u16) -> (r: bool)
    ensures
        r == is_success_status(code),
{
    200 <= code && code < 300
}

/// Resolution succeeds exactly when the metadata has a releases list
/// whose first entry carries a version string.
pub open spec fn resolvable(m: RegistryMetadata) -> bool {
    &&& m.releases is Some
    &&& m.releases.unwrap()@.len() > 0
    &&& m.releases.unwrap()@[0].version is Some
}

/// The version resolution selects: the first release's version.
pub open spec fn selected_version(m: RegistryMetadata) -> Seq<char>
    recommends
        resolvable(m),
{
    m.releases.unwrap()@[0].version.unwrap()@
}

/// Selects the version to install from the metadata: the first entry of
/// the `releases` list, with no ordering or fallback.
///
/// Fails when the list is absent, and when the list is empty or its
/// first entry carries no version; in both cases the pipeline stops
/// before any archive download.
pub fn select_version(m: &RegistryMetadata) -> (r: Result<String, GleamPkgError>)
    ensures
        resolvable(*m) ==> (r matches Ok(v) && v@ == selected_version(*m)),
        m.releases is None ==> (r matches Err(GleamPkgError::PackageDownloadError(t)) && t@
            == "No releases found in metadata"@),
        (m.releases matches Some(_) && !resolvable(*m)) ==> (r matches Err(
            GleamPkgError::PackageDownloadError(t),
        ) && t@ == "No version found in metadata"@),
{
    match &m.releases {
        None => Err(
            GleamPkgError::PackageDownloadError("No releases found in metadata".to_owned()),
        ),
        Some(rs) => {
            if rs.len() == 0 {
                return Err(
                    GleamPkgError::PackageDownloadError("No version found in metadata".to_owned()),
                );
            }
            match &rs[0].version {
                Some(v) => Ok(v.clone()),
                None => Err(
                    GleamPkgError::PackageDownloadError("No version found in metadata".to_owned()),
                ),
            }
        },
    }
}

} // verus!
