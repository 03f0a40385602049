//! The install pipeline: a linear state machine over the stages of an
//! install, from version resolution to launcher registration.
//!
//! The pipeline itself performs no input or output.  [`install_package`]
//! yields the initial state and the first [`Action`]; the caller carries
//! each action out (network fetch, filesystem work, subprocess run) and
//! reports what happened as an [`Event`] to [`Pipeline::step`], which
//! decides the next action.  Every decision — which URL to fetch, which
//! paths to touch, which command to run, which error ends the install —
//! is fixed by `step`'s contract.
//!
//! The pipeline is strictly linear with no retries: the first failure
//! moves it to [`Stage::Failed`] with the describing error, and a failed
//! pipeline accepts no further events, so no later action is ever
//! issued.  The `trail` ghost field records the stages entered, which is
//! how the ordering guarantees (clean slate before unpack, build before
//! packaging, prior install removed before the new launcher is written)
//! are stated and proved.

use vstd::prelude::*;
use vstd::string::*;

use crate::error::GleamPkgError;
use crate::launcher::{base64_of, launcher_script, launcher_text};
use crate::paths::{
    artifact_rel, artifact_rel_text, contents_dir_rel, contents_dir_text, extract_dir_rel,
    extract_dir_text, inner_archive_rel, inner_archive_text, launcher_rel, launcher_rel_text,
    tarball_rel, tarball_rel_text, versioned_app_rel, versioned_app_text,
};
use crate::registry::{
    is_success_status, metadata_url, metadata_url_text, resolvable, select_version,
    selected_version, status_is_success, tarball_url, tarball_url_text, Config, RegistryMetadata,
};
use crate::strutil::{join2, join4, trim, trimmed};

verus! {

/// The stages of an install, in the order they are entered.
#[derive(Clone, Copy, PartialEq, Eq, Structural, Debug)]
pub enum Stage {
    /// Awaiting the metadata answer that resolves the version.
    Resolving,
    /// Awaiting the release archive's bytes.
    Downloading,
    /// Awaiting confirmation that the archive was persisted.
    Saving,
    /// Awaiting the fresh, empty extraction directory.
    Cleaning,
    /// Awaiting the outer archive's unpack.
    UnpackingOuter,
    /// Awaiting the inner archive's decompression and unpack.
    UnpackingInner,
    /// Awaiting the toolchain's build step.
    Building,
    /// Awaiting the bundler plugin's addition.
    AddingBundler,
    /// Awaiting the bundler run that produces the escript.
    Bundling,
    /// Awaiting the local runtime's version string.
    QueryingRuntime,
    /// Awaiting removal of any previously installed unit.
    RemovingPrior,
    /// Awaiting the compiled escript's bytes.
    ReadingArtifact,
    /// Awaiting confirmation that the launcher was written.
    WritingLauncher,
    /// The install finished.
    Done,
    /// The install ended in an error.
    Failed,
}

/// The position of a stage in the pipeline's fixed order.
pub open spec fn stage_index(s: Stage) -> int {
    match s {
        Stage::Resolving => 0,
        Stage::Downloading => 1,
        Stage::Saving => 2,
        Stage::Cleaning => 3,
        Stage::UnpackingOuter => 4,
        Stage::UnpackingInner => 5,
        Stage::Building => 6,
        Stage::AddingBundler => 7,
        Stage::Bundling => 8,
        Stage::QueryingRuntime => 9,
        Stage::RemovingPrior => 10,
        Stage::ReadingArtifact => 11,
        Stage::WritingLauncher => 12,
        Stage::Done => 13,
        Stage::Failed => 14,
    }
}

/// What the caller must do next on the pipeline's behalf.  Every path is
/// relative to the managed root directory.
#[derive(Debug)]
pub enum Action {
    /// Fetch the package's metadata document from this URL.
    FetchMetadata { url: String },
    /// Fetch the release archive from this URL.
    FetchTarball { url: String },
    /// Persist these bytes at this path.
    SaveTarball { rel_path: String, bytes: Vec<u8> },
    /// Remove this directory if it exists and recreate it empty.
    CleanExtractDir { rel_dir: String },
    /// Unpack the uncompressed tar archive at `tar_rel` into `dest_rel`.
    UnpackOuter { tar_rel: String, dest_rel: String },
    /// Gzip-decompress and unpack the archive at `archive_rel` into
    /// `dest_rel`.
    UnpackInner { archive_rel: String, dest_rel: String },
    /// Run this program with these arguments, in `working_dir` when one
    /// is given, and report how it exited.
    RunCommand { program: String, args: Vec<String>, working_dir: Option<String> },
    /// Remove the prior install's launcher file and versioned directory,
    /// if present; absence is not an error.
    RemovePrior { launcher_rel: String, versioned_rel: String },
    /// Read the file at this path and report its bytes.
    ReadArtifact { rel_path: String },
    /// Write `contents` at `rel_path` and set its permission bits.
    WriteLauncher { rel_path: String, contents: String, mode: u32 },
    /// Nothing remains to do: the pipeline is done or failed.
    Finish,
}

/// What the caller reports back after carrying out an action.
#[derive(Debug)]
pub enum Event {
    /// The metadata request failed before an HTTP answer arrived.
    MetadataTransportFailed { detail: String },
    /// The metadata request was answered.  `doc` carries the parsed
    /// document, or the parse failure's description.
    MetadataReceived { status: u16, status_line: String, doc: Result<RegistryMetadata, String> },
    /// The archive request failed before an HTTP answer arrived.
    TarballTransportFailed { detail: String },
    /// The archive request was answered with this body.
    TarballReceived { status: u16, status_line: String, body: Vec<u8> },
    /// The archive was persisted, or why it could not be.
    TarballSaved { error: Option<String> },
    /// The extraction directory was reset, or why it could not be.
    ExtractDirCleaned { error: Option<String> },
    /// The outer archive was unpacked, or why it could not be.
    OuterUnpacked { error: Option<String> },
    /// The inner archive was unpacked, or why it could not be.
    InnerUnpacked { error: Option<String> },
    /// A command finished: `spawn_error` when it could not be started at
    /// all; otherwise whether it exited successfully, with its captured
    /// output.
    CommandFinished { spawn_error: Option<String>, success: bool, stdout: String, stderr: String },
    /// The prior install's remnants are gone (or were never there).
    PriorRemoved,
    /// The compiled escript was read, or why it could not be.
    ArtifactRead { outcome: Result<Vec<u8>, String> },
    /// The launcher was written and made executable, or why not.
    LauncherWritten { error: Option<String> },
}

/// Which events answer which stage.  Terminal stages accept none.
pub open spec fn event_fits(stage: Stage, ev: Event) -> bool {
    match stage {
        Stage::Resolving => ev is MetadataTransportFailed || ev is MetadataReceived,
        Stage::Downloading => ev is TarballTransportFailed || ev is TarballReceived,
        Stage::Saving => ev is TarballSaved,
        Stage::Cleaning => ev is ExtractDirCleaned,
        Stage::UnpackingOuter => ev is OuterUnpacked,
        Stage::UnpackingInner => ev is InnerUnpacked,
        Stage::Building => ev is CommandFinished,
        Stage::AddingBundler => ev is CommandFinished,
        Stage::Bundling => ev is CommandFinished,
        Stage::QueryingRuntime => ev is CommandFinished,
        Stage::RemovingPrior => ev is PriorRemoved,
        Stage::ReadingArtifact => ev is ArtifactRead,
        Stage::WritingLauncher => ev is LauncherWritten,
        Stage::Done => false,
        Stage::Failed => false,
    }
}

/// One install's state.  `trail` records, as ghost state, which stages
/// have been entered.
pub struct Pipeline {
    /// The package being installed.
    pub name: String,
    /// Base URL for metadata queries.
    pub api_base: String,
    /// Base URL for archive downloads.
    pub repository_base: String,
    /// The resolved version, once resolution succeeded.
    pub version: Option<String>,
    /// The local runtime's version string, once queried.
    pub runtime_version: Option<String>,
    /// The stage whose action's outcome the pipeline awaits.
    pub stage: Stage,
    /// The error that ended the install, exactly when `stage` is
    /// [`Stage::Failed`].
    pub failure: Option<GleamPkgError>,
    /// The stages entered so far.
    pub trail: Ghost<Seq<Stage>>,
}

impl Pipeline {
    /// Well-formedness: the trail holds exactly the stages already
    /// entered — those whose position is below its length — the failure
    /// is present exactly in the failed state, and the data a stage
    /// needs (the resolved version, the runtime version) is present
    /// once the stage that produces it has passed.
    pub open spec fn wf(self) -> bool {
        &&& 1 <= self.trail@.len() <= 14
        &&& forall|s: Stage|
            self.trail@.contains(s) <==> (!(s is Failed) && stage_index(s) < self.trail@.len())
        &&& (self.stage is Failed <==> self.failure is Some)
        &&& !(self.stage is Failed) ==> self.trail@.len() == stage_index(self.stage) + 1
        &&& (!(self.stage is Failed) && stage_index(self.stage) >= stage_index(Stage::Downloading))
            ==> self.version is Some
        &&& (!(self.stage is Failed) && stage_index(self.stage) >= stage_index(
            Stage::RemovingPrior,
        )) ==> self.runtime_version is Some
    }

    /// A stage the pipeline has entered at some point.
    pub open spec fn visited(self, s: Stage) -> bool {
        self.trail@.contains(s)
    }
}

/// The package and endpoints are unchanged between two states.
pub open spec fn frames(o: Pipeline, f: Pipeline) -> bool {
    &&& f.name == o.name
    &&& f.api_base == o.api_base
    &&& f.repository_base == o.repository_base
}

/// The step failed the install with a registry error carrying `msg`:
/// the state moved to `Failed` with everything else unchanged, and the
/// returned action asks for nothing further.
pub open spec fn failed_download(o: Pipeline, f: Pipeline, a: Action, msg: Seq<char>) -> bool {
    &&& frames(o, f)
    &&& f.stage is Failed
    &&& (f.failure matches Some(GleamPkgError::PackageDownloadError(m)) && m@ == msg)
    &&& f.version == o.version
    &&& f.runtime_version == o.runtime_version
    &&& f.trail == o.trail
    &&& a is Finish
}

/// The step failed the install with a build error carrying `msg`, as
/// [`failed_download`] otherwise.
pub open spec fn failed_build(o: Pipeline, f: Pipeline, a: Action, msg: Seq<char>) -> bool {
    &&& frames(o, f)
    &&& f.stage is Failed
    &&& (f.failure matches Some(GleamPkgError::PackageBuildError(m)) && m@ == msg)
    &&& f.version == o.version
    &&& f.runtime_version == o.runtime_version
    &&& f.trail == o.trail
    &&& a is Finish
}

/// The step moved the pipeline on to stage `s`.
pub open spec fn advanced(o: Pipeline, f: Pipeline, s: Stage) -> bool {
    &&& frames(o, f)
    &&& f.stage == s
    &&& f.failure is None
    &&& f.trail@ == o.trail@.push(s)
}

/// The message for a metadata request that failed in transport.
pub open spec fn msg_metadata_transport(name: Seq<char>, detail: Seq<char>) -> Seq<char> {
    "Failed to fetch metadata for package: "@ + name + ", "@ + detail
}

/// The message for an HTTP answer outside the 2xx range.
pub open spec fn msg_bad_status(status_line: Seq<char>) -> Seq<char> {
    "Received non-success status code: "@ + status_line
}

/// The message for a metadata body that is not the expected document.
pub open spec fn msg_bad_metadata(name: Seq<char>, detail: Seq<char>) -> Seq<char> {
    "Returned metadata is not valid JSON: "@ + name + ", "@ + detail
}

/// The message for an archive request that failed in transport.
pub open spec fn msg_tarball_transport(name: Seq<char>, detail: Seq<char>) -> Seq<char> {
    "Failed to download package: "@ + name + ", "@ + detail
}

/// The message for an archive answer with an empty body.
pub open spec fn msg_empty_tarball() -> Seq<char> {
    "Failed to read tarball bytes: empty body"@
}

/// The message for a persist failure, naming the path.
pub open spec fn msg_save_failed(rel: Seq<char>, detail: Seq<char>) -> Seq<char> {
    "Failed to save tarball to disk: "@ + rel + ", "@ + detail
}

/// The message for a failure to reset the extraction directory.
pub open spec fn msg_clean_failed(rel: Seq<char>, detail: Seq<char>) -> Seq<char> {
    "Failed to reset extract directory: "@ + rel + ", "@ + detail
}

/// The message for an outer unpack failure.
pub open spec fn msg_outer_failed(rel: Seq<char>, detail: Seq<char>) -> Seq<char> {
    "Failed to extract tarball: "@ + rel + ", "@ + detail
}

/// The message for an inner unpack failure.
pub open spec fn msg_inner_failed(rel: Seq<char>, detail: Seq<char>) -> Seq<char> {
    "Failed to extract contents tarball: "@ + rel + ", "@ + detail
}

/// The message for a build step that could not be started.
pub open spec fn msg_build_spawn(dir: Seq<char>, detail: Seq<char>) -> Seq<char> {
    "Failed to run `gleam build` in contents directory: "@ + dir + ", "@ + detail
}

/// The message for a build step that exited with an error, carrying the
/// captured standard error verbatim.
pub open spec fn msg_build_failed(stderr: Seq<char>) -> Seq<char> {
    "Failed to build package: "@ + stderr
}

/// The message for a bundler addition that could not be started.
pub open spec fn msg_add_spawn(dir: Seq<char>, detail: Seq<char>) -> Seq<char> {
    "Failed to run `gleam add gleescript` in contents directory: "@ + dir + ", "@ + detail
}

/// The message for a bundler addition that exited with an error.
pub open spec fn msg_add_failed(stderr: Seq<char>) -> Seq<char> {
    "Failed to add gleescript: "@ + stderr
}

/// The message for a bundler run that could not be started.
pub open spec fn msg_bundler_spawn(dir: Seq<char>, detail: Seq<char>) -> Seq<char> {
    "Failed to run `gleam run -m gleescript` in contents directory: "@ + dir + ", "@ + detail
}

/// The message for a bundler run that exited with an error.
pub open spec fn msg_bundler_failed(stderr: Seq<char>) -> Seq<char> {
    "Failed to run gleescript: "@ + stderr
}

/// The expression handed to `erl` to print the runtime's version.
pub open spec fn erl_expr_text() -> Seq<char> {
    "io:format(standard_io, \"~s~n\", [erlang:system_info(system_version)])."@
}

/// The message for a runtime version query that could not be started.
pub open spec fn msg_erl_spawn(detail: Seq<char>) -> Seq<char> {
    "Failed to run erl eval: "@ + erl_expr_text() + ", "@ + detail
}

/// The message for a runtime version query that exited with an error.
pub open spec fn msg_erl_failed(stderr: Seq<char>) -> Seq<char> {
    "Failed to run erl eval: "@ + stderr
}

/// The message for an escript that could not be read.
pub open spec fn msg_artifact_failed(rel: Seq<char>, detail: Seq<char>) -> Seq<char> {
    "Failed to read escript: "@ + rel + ", "@ + detail
}

/// The message for an escript too large to embed in a launcher.
pub open spec fn msg_artifact_too_large(rel: Seq<char>) -> Seq<char> {
    "Failed to read escript: "@ + rel + ", escript too large to embed"@
}

/// The message for a launcher that could not be written.
pub open spec fn msg_launcher_failed(rel: Seq<char>, detail: Seq<char>) -> Seq<char> {
    "Failed to create wrapper script: "@ + rel + ", "@ + detail
}

/// The arguments of the toolchain's build step.
pub open spec fn build_args() -> Seq<Seq<char>> {
    seq!["build"@]
}

/// The arguments that add the bundler plugin.
pub open spec fn add_bundler_args() -> Seq<Seq<char>> {
    seq!["add"@, "gleescript"@]
}

/// The arguments that run the bundler to produce the escript.
pub open spec fn bundler_args() -> Seq<Seq<char>> {
    seq!["run"@, "-m"@, "gleescript"@, "--"@, "--out=build"@]
}

/// The arguments of the runtime version query.
pub open spec fn erl_query_args() -> Seq<Seq<char>> {
    seq!["-noshell"@, "-eval"@, erl_expr_text(), "-s"@, "init"@, "stop"@]
}

fn erl_expr() -> (r: &'static str)
    ensures
        r@ == erl_expr_text(),
{
    "io:format(standard_io, \"~s~n\", [erlang:system_info(system_version)])."
}

impl Pipeline {
    /// Ends the install with a registry error.
    fn fail_download(&mut self, msg: String) -> (a: Action)
        requires
            old(self).wf(),
        ensures
            final(self).wf(),
            failed_download(*old(self), *final(self), a, msg@),
    {
        self.stage = Stage::Failed;
        self.failure = Some(GleamPkgError::PackageDownloadError(msg));
        Action::Finish
    }

    /// Ends the install with a build error.
    fn fail_build(&mut self, msg: String) -> (a: Action)
        requires
            old(self).wf(),
        ensures
            final(self).wf(),
            failed_build(*old(self), *final(self), a, msg@),
    {
        self.stage = Stage::Failed;
        self.failure = Some(GleamPkgError::PackageBuildError(msg));
        Action::Finish
    }

    /// Moves the pipeline to the next stage, recording it in the trail.
    fn advance_to(&mut self, s: Stage)
        requires
            old(self).wf(),
            !(old(self).stage is Failed),
            !(s is Failed),
            stage_index(s) == stage_index(old(self).stage) + 1,
            stage_index(s) >= stage_index(Stage::Downloading) ==> old(self).version is Some,
            stage_index(s) >= stage_index(Stage::RemovingPrior) ==> old(
                self,
            ).runtime_version is Some,
        ensures
            final(self).wf(),
            advanced(*old(self), *final(self), s),
            final(self).version == old(self).version,
            final(self).runtime_version == old(self).runtime_version,
    {
        proof {
            let t1 = self.trail@;
            let t2 = t1.push(s);
            assert forall|x: Stage| t2.contains(x) <==> (t1.contains(x) || x == s) by {
                if t2.contains(x) {
                    let i = choose|i: int| 0 <= i < t2.len() && t2[i] == x;
                    if i < t1.len() {
                        assert(t1[i] == x);
                    } else {
                        assert(x == s);
                    }
                }
                if t1.contains(x) {
                    let i = choose|i: int| 0 <= i < t1.len() && t1[i] == x;
                    assert(t2[i] == x);
                }
                if x == s {
                    assert(t2[t1.len() as int] == x);
                }
            }
        }
        self.stage = s;
        self.trail = Ghost(self.trail@.push(s));
    }
}

/// Begins an install of `package` against the endpoints in `config`:
/// the returned pipeline awaits the metadata answer, and the returned
/// action asks for the metadata fetch from
/// `{api_base}packages/{package}`.
pub fn install_package(config: &Config, package: &str) -> (r: (Pipeline, Action))
    ensures
        r.0.wf(),
        r.0.stage == Stage::Resolving,
        r.0.name@ == package@,
        r.0.api_base@ == config.api_base@,
        r.0.repository_base@ == config.repository_base@,
        r.0.version is None,
        r.0.runtime_version is None,
        r.0.trail@ == seq![Stage::Resolving],
        (r.1 matches Action::FetchMetadata { url } && url@ == metadata_url_text(
            config.api_base@,
            package@,
        )),
{
    let url = metadata_url(config.api_base.as_str(), package);
    let ghost trail0: Seq<Stage> = seq![Stage::Resolving];
    let p = Pipeline {
        name: package.to_owned(),
        api_base: config.api_base.clone(),
        repository_base: config.repository_base.clone(),
        version: None,
        runtime_version: None,
        stage: Stage::Resolving,
        failure: None,
        trail: Ghost(trail0),
    };
    proof {
        let t = seq![Stage::Resolving];
        assert forall|s: Stage| t.contains(s) <==> (!(s is Failed) && stage_index(s) < t.len())
            by {
            if t.contains(s) {
                let i = choose|i: int| 0 <= i < t.len() && t[i] == s;
                assert(s == Stage::Resolving);
            }
            if !(s is Failed) && stage_index(s) < t.len() {
                assert(t[0] == s);
            }
        }
    }
    (p, Action::FetchMetadata { url })
}

impl Pipeline {
    /// Feeds the outcome of the awaited action into the pipeline and
    /// returns what to do next.
    ///
    /// Resolution failures — an unreachable registry, a non-2xx answer,
    /// an unusable document, an absent releases list or a first release
    /// without a version — end the install before any archive fetch is
    /// asked for: the returned action is `Finish` and the failed
    /// pipeline accepts no further events.  A build step that cannot be
    /// started or exits with an error likewise ends the install before
    /// any packaging action is issued, with the captured standard error
    /// carried verbatim.
    pub fn step(&mut self, event: Event) -> (action: Action)
        requires
            old(self).wf(),
            event_fits(old(self).stage, event),
        ensures
            final(self).wf(),
            // resolving: transport failure
            old(self).stage == Stage::Resolving ==> (event matches Event::MetadataTransportFailed {
                detail,
            } ==> failed_download(
                *old(self),
                *final(self),
                action,
                msg_metadata_transport(old(self).name@, detail@),
            )),
            // resolving: non-2xx answer
            old(self).stage == Stage::Resolving ==> (event matches Event::MetadataReceived {
                status,
                status_line,
                ..
            } ==> (!is_success_status(status) ==> failed_download(
                *old(self),
                *final(self),
                action,
                msg_bad_status(status_line@),
            ))),
            // resolving: unusable document
            old(self).stage == Stage::Resolving ==> (event matches Event::MetadataReceived {
                status,
                doc: Err(detail),
                ..
            } ==> (is_success_status(status) ==> failed_download(
                *old(self),
                *final(self),
                action,
                msg_bad_metadata(old(self).name@, detail@),
            ))),
            // resolving: no releases list
            old(self).stage == Stage::Resolving ==> (event matches Event::MetadataReceived {
                status,
                doc: Ok(md),
                ..
            } ==> (is_success_status(status) && md.releases is None ==> failed_download(
                *old(self),
                *final(self),
                action,
                "No releases found in metadata"@,
            ))),
            // resolving: empty releases list or first release without a version
            old(self).stage == Stage::Resolving ==> (event matches Event::MetadataReceived {
                status,
                doc: Ok(md),
                ..
            } ==> (is_success_status(status) && md.releases is Some && !resolvable(md)
                ==> failed_download(
                *old(self),
                *final(self),
                action,
                "No version found in metadata"@,
            ))),
            // resolving: resolved; fetch the archive of releases[0].version
            old(self).stage == Stage::Resolving ==> (event matches Event::MetadataReceived {
                status,
                doc: Ok(md),
                ..
            } ==> (is_success_status(status) && resolvable(md) ==> ({
                &&& advanced(*old(self), *final(self), Stage::Downloading)
                &&& (final(self).version matches Some(v) && v@ == selected_version(md))
                &&& final(self).runtime_version == old(self).runtime_version
                &&& (action matches Action::FetchTarball { url } && url@ == tarball_url_text(
                    old(self).repository_base@,
                    old(self).name@,
                    selected_version(md),
                ))
            }))),
            // downloading: transport failure
            old(self).stage == Stage::Downloading ==> (
            event matches Event::TarballTransportFailed { detail } ==> failed_download(
                *old(self),
                *final(self),
                action,
                msg_tarball_transport(old(self).name@, detail@),
            )),
            // downloading: non-2xx answer
            old(self).stage == Stage::Downloading ==> (event matches Event::TarballReceived {
                status,
                status_line,
                ..
            } ==> (!is_success_status(status) ==> failed_download(
                *old(self),
                *final(self),
                action,
                msg_bad_status(status_line@),
            ))),
            // downloading: empty body
            old(self).stage == Stage::Downloading ==> (event matches Event::TarballReceived {
                status,
                body,
                ..
            } ==> (is_success_status(status) && body@.len() == 0 ==> failed_download(
                *old(self),
                *final(self),
                action,
                msg_empty_tarball(),
            ))),
            // downloading: got the archive; persist it
            old(self).stage == Stage::Downloading ==> (event matches Event::TarballReceived {
                status,
                body,
                ..
            } ==> (is_success_status(status) && body@.len() > 0 ==> ({
                &&& advanced(*old(self), *final(self), Stage::Saving)
                &&& final(self).version == old(self).version
                &&& final(self).runtime_version == old(self).runtime_version
                &&& (action matches Action::SaveTarball { rel_path, bytes } && rel_path@
                    == tarball_rel_text(old(self).name@, old(self).version.unwrap()@) && bytes@
                    == body@)
            }))),
            // saving: persist failure
            old(self).stage == Stage::Saving ==> (event matches Event::TarballSaved {
                error: Some(detail),
            } ==> failed_download(
                *old(self),
                *final(self),
                action,
                msg_save_failed(
                    tarball_rel_text(old(self).name@, old(self).version.unwrap()@),
                    detail@,
                ),
            )),
            // saving: persisted; reset the extraction directory
            old(self).stage == Stage::Saving ==> (event matches Event::TarballSaved {
                error: None,
            } ==> ({
                &&& advanced(*old(self), *final(self), Stage::Cleaning)
                &&& final(self).version == old(self).version
                &&& final(self).runtime_version == old(self).runtime_version
                &&& (action matches Action::CleanExtractDir { rel_dir } && rel_dir@
                    == extract_dir_text(old(self).name@, old(self).version.unwrap()@))
            })),
            // cleaning: reset failure
            old(self).stage == Stage::Cleaning ==> (event matches Event::ExtractDirCleaned {
                error: Some(detail),
            } ==> failed_download(
                *old(self),
                *final(self),
                action,
                msg_clean_failed(
                    extract_dir_text(old(self).name@, old(self).version.unwrap()@),
                    detail@,
                ),
            )),
            // cleaning: fresh directory; unpack the outer archive into it
            old(self).stage == Stage::Cleaning ==> (event matches Event::ExtractDirCleaned {
                error: None,
            } ==> ({
                &&& advanced(*old(self), *final(self), Stage::UnpackingOuter)
                &&& final(self).version == old(self).version
                &&& final(self).runtime_version == old(self).runtime_version
                &&& (action matches Action::UnpackOuter { tar_rel, dest_rel } && tar_rel@
                    == tarball_rel_text(old(self).name@, old(self).version.unwrap()@) && dest_rel@
                    == extract_dir_text(old(self).name@, old(self).version.unwrap()@))
            })),
            // outer unpack: failure
            old(self).stage == Stage::UnpackingOuter ==> (event matches Event::OuterUnpacked {
                error: Some(detail),
            } ==> failed_download(
                *old(self),
                *final(self),
                action,
                msg_outer_failed(
                    tarball_rel_text(old(self).name@, old(self).version.unwrap()@),
                    detail@,
                ),
            )),
            // outer unpack: done; decompress the inner archive
            old(self).stage == Stage::UnpackingOuter ==> (event matches Event::OuterUnpacked {
                error: None,
            } ==> ({
                &&& advanced(*old(self), *final(self), Stage::UnpackingInner)
                &&& final(self).version == old(self).version
                &&& final(self).runtime_version == old(self).runtime_version
                &&& (action matches Action::UnpackInner { archive_rel, dest_rel } && archive_rel@
                    == inner_archive_text(old(self).name@, old(self).version.unwrap()@)
                    && dest_rel@ == contents_dir_text(old(self).name@, old(self).version.unwrap()@))
            })),
            // inner unpack: failure
            old(self).stage == Stage::UnpackingInner ==> (event matches Event::InnerUnpacked {
                error: Some(detail),
            } ==> failed_download(
                *old(self),
                *final(self),
                action,
                msg_inner_failed(
                    inner_archive_text(old(self).name@, old(self).version.unwrap()@),
                    detail@,
                ),
            )),
            // inner unpack: done; run the build step in the source tree
            old(self).stage == Stage::UnpackingInner ==> (event matches Event::InnerUnpacked {
                error: None,
            } ==> ({
                &&& advanced(*old(self), *final(self), Stage::Building)
                &&& final(self).version == old(self).version
                &&& final(self).runtime_version == old(self).runtime_version
                &&& (action matches Action::RunCommand { program, args, working_dir } && program@
                    == "gleam"@ && args.deep_view() == build_args() && (
                working_dir matches Some(d) && d@ == contents_dir_text(
                    old(self).name@,
                    old(self).version.unwrap()@,
                )))
            })),
            // build step: could not be started
            old(self).stage == Stage::Building ==> (event matches Event::CommandFinished {
                spawn_error: Some(detail),
                ..
            } ==> failed_build(
                *old(self),
                *final(self),
                action,
                msg_build_spawn(
                    contents_dir_text(old(self).name@, old(self).version.unwrap()@),
                    detail@,
                ),
            )),
            // build step: exited with an error; stderr carried verbatim,
            // and no packaging action has been or will be issued
            old(self).stage == Stage::Building ==> (event matches Event::CommandFinished {
                spawn_error: None,
                success: false,
                stderr,
                ..
            } ==> failed_build(*old(self), *final(self), action, msg_build_failed(stderr@))),
            // build step: succeeded; add the bundler plugin
            old(self).stage == Stage::Building ==> (event matches Event::CommandFinished {
                spawn_error: None,
                success: true,
                ..
            } ==> ({
                &&& advanced(*old(self), *final(self), Stage::AddingBundler)
                &&& final(self).version == old(self).version
                &&& final(self).runtime_version == old(self).runtime_version
                &&& (action matches Action::RunCommand { program, args, working_dir } && program@
                    == "gleam"@ && args.deep_view() == add_bundler_args() && (
                working_dir matches Some(d) && d@ == contents_dir_text(
                    old(self).name@,
                    old(self).version.unwrap()@,
                )))
            })),
            // bundler addition: could not be started
            old(self).stage == Stage::AddingBundler ==> (event matches Event::CommandFinished {
                spawn_error: Some(detail),
                ..
            } ==> failed_build(
                *old(self),
                *final(self),
                action,
                msg_add_spawn(
                    contents_dir_text(old(self).name@, old(self).version.unwrap()@),
                    detail@,
                ),
            )),
            // bundler addition: exited with an error
            old(self).stage == Stage::AddingBundler ==> (event matches Event::CommandFinished {
                spawn_error: None,
                success: false,
                stderr,
                ..
            } ==> failed_build(*old(self), *final(self), action, msg_add_failed(stderr@))),
            // bundler addition: succeeded; run the bundler
            old(self).stage == Stage::AddingBundler ==> (event matches Event::CommandFinished {
                spawn_error: None,
                success: true,
                ..
            } ==> ({
                &&& advanced(*old(self), *final(self), Stage::Bundling)
                &&& final(self).version == old(self).version
                &&& final(self).runtime_version == old(self).runtime_version
                &&& (action matches Action::RunCommand { program, args, working_dir } && program@
                    == "gleam"@ && args.deep_view() == bundler_args() && (
                working_dir matches Some(d) && d@ == contents_dir_text(
                    old(self).name@,
                    old(self).version.unwrap()@,
                )))
            })),
            // bundler run: could not be started
            old(self).stage == Stage::Bundling ==> (event matches Event::CommandFinished {
                spawn_error: Some(detail),
                ..
            } ==> failed_build(
                *old(self),
                *final(self),
                action,
                msg_bundler_spawn(
                    contents_dir_text(old(self).name@, old(self).version.unwrap()@),
                    detail@,
                ),
            )),
            // bundler run: exited with an error
            old(self).stage == Stage::Bundling ==> (event matches Event::CommandFinished {
                spawn_error: None,
                success: false,
                stderr,
                ..
            } ==> failed_build(*old(self), *final(self), action, msg_bundler_failed(stderr@))),
            // bundler run: succeeded; query the local runtime's version
            old(self).stage == Stage::Bundling ==> (event matches Event::CommandFinished {
                spawn_error: None,
                success: true,
                ..
            } ==> ({
                &&& advanced(*old(self), *final(self), Stage::QueryingRuntime)
                &&& final(self).version == old(self).version
                &&& final(self).runtime_version == old(self).runtime_version
                &&& (action matches Action::RunCommand { program, args, working_dir } && program@
                    == "erl"@ && args.deep_view() == erl_query_args() && working_dir is None)
            })),
            // runtime query: could not be started
            old(self).stage == Stage::QueryingRuntime ==> (event matches Event::CommandFinished {
                spawn_error: Some(detail),
                ..
            } ==> failed_build(*old(self), *final(self), action, msg_erl_spawn(detail@))),
            // runtime query: exited with an error
            old(self).stage == Stage::QueryingRuntime ==> (event matches Event::CommandFinished {
                spawn_error: None,
                success: false,
                stderr,
                ..
            } ==> failed_build(*old(self), *final(self), action, msg_erl_failed(stderr@))),
            // runtime query: succeeded; record the trimmed version and
            // remove any prior install of the package (its launcher path
            // does not depend on the version, so a prior install of any
            // version is removed)
            old(self).stage == Stage::QueryingRuntime ==> (event matches Event::CommandFinished {
                spawn_error: None,
                success: true,
                stdout,
                ..
            } ==> ({
                &&& advanced(*old(self), *final(self), Stage::RemovingPrior)
                &&& final(self).version == old(self).version
                &&& (final(self).runtime_version matches Some(v) && v@ == trimmed(stdout@))
                &&& (action matches Action::RemovePrior { launcher_rel, versioned_rel }
                    && launcher_rel@ == launcher_rel_text(old(self).name@) && versioned_rel@
                    == versioned_app_text(old(self).name@, old(self).version.unwrap()@))
            })),
            // prior install removed; read the compiled escript
            old(self).stage == Stage::RemovingPrior ==> (event is PriorRemoved ==> ({
                &&& advanced(*old(self), *final(self), Stage::ReadingArtifact)
                &&& final(self).version == old(self).version
                &&& final(self).runtime_version == old(self).runtime_version
                &&& (action matches Action::ReadArtifact { rel_path } && rel_path@
                    == artifact_rel_text(old(self).name@, old(self).version.unwrap()@))
            })),
            // escript read failure
            old(self).stage == Stage::ReadingArtifact ==> (event matches Event::ArtifactRead {
                outcome: Err(detail),
            } ==> failed_build(
                *old(self),
                *final(self),
                action,
                msg_artifact_failed(
                    artifact_rel_text(old(self).name@, old(self).version.unwrap()@),
                    detail@,
                ),
            )),
            // escript too large to embed
            old(self).stage == Stage::ReadingArtifact ==> (event matches Event::ArtifactRead {
                outcome: Ok(bytes),
            } ==> (bytes@.len() > usize::MAX / 8 ==> failed_build(
                *old(self),
                *final(self),
                action,
                msg_artifact_too_large(
                    artifact_rel_text(old(self).name@, old(self).version.unwrap()@),
                ),
            ))),
            // escript read; write the launcher embedding its base64
            // payload and the recorded runtime version, executable by
            // owner, group and other
            old(self).stage == Stage::ReadingArtifact ==> (event matches Event::ArtifactRead {
                outcome: Ok(bytes),
            } ==> (bytes@.len() <= usize::MAX / 8 ==> ({
                &&& advanced(*old(self), *final(self), Stage::WritingLauncher)
                &&& final(self).version == old(self).version
                &&& final(self).runtime_version == old(self).runtime_version
                &&& (action matches Action::WriteLauncher { rel_path, contents, mode }
                    && rel_path@ == launcher_rel_text(old(self).name@) && contents@
                    == launcher_text(old(self).runtime_version.unwrap()@, base64_of(bytes@))
                    && mode == 0o755u32)
            }))),
            // launcher write failure
            old(self).stage == Stage::WritingLauncher ==> (event matches Event::LauncherWritten {
                error: Some(detail),
            } ==> failed_build(
                *old(self),
                *final(self),
                action,
                msg_launcher_failed(launcher_rel_text(old(self).name@), detail@),
            )),
            // launcher written: the install is done
            old(self).stage == Stage::WritingLauncher ==> (event matches Event::LauncherWritten {
                error: None,
            } ==> ({
                &&& advanced(*old(self), *final(self), Stage::Done)
                &&& final(self).version == old(self).version
                &&& final(self).runtime_version == old(self).runtime_version
                &&& action is Finish
            })),
    {
        let stage = self.stage;
        match stage {
            Stage::Resolving => match event {
                Event::MetadataTransportFailed { detail } => {
                    let m = join4(
                        "Failed to fetch metadata for package: ",
                        self.name.as_str(),
                        ", ",
                        detail.as_str(),
                    );
                    self.fail_download(m)
                },
                Event::MetadataReceived { status, status_line, doc } => {
                    if !status_is_success(status) {
                        let m = join2(
                            "Received non-success status code: ",
                            status_line.as_str(),
                        );
                        self.fail_download(m)
                    } else {
                        match doc {
                            Err(detail) => {
                                let m = join4(
                                    "Returned metadata is not valid JSON: ",
                                    self.name.as_str(),
                                    ", ",
                                    detail.as_str(),
                                );
                                self.fail_download(m)
                            },
                            Ok(md) => match select_version(&md) {
                                Err(e) => {
                                    self.stage = Stage::Failed;
                                    self.failure = Some(e);
                                    Action::Finish
                                },
                                Ok(v) => {
                                    let url = tarball_url(
                                        self.repository_base.as_str(),
                                        self.name.as_str(),
                                        v.as_str(),
                                    );
                                    self.version = Some(v);
                                    self.advance_to(Stage::Downloading);
                                    Action::FetchTarball { url }
                                },
                            },
                        }
                    }
                },
                _ => Action::Finish,
            },
            Stage::Downloading => match event {
                Event::TarballTransportFailed { detail } => {
                    let m = join4(
                        "Failed to download package: ",
                        self.name.as_str(),
                        ", ",
                        detail.as_str(),
                    );
                    self.fail_download(m)
                },
                Event::TarballReceived { status, status_line, body } => {
                    if !status_is_success(status) {
                        let m = join2(
                            "Received non-success status code: ",
                            status_line.as_str(),
                        );
                        self.fail_download(m)
                    } else if body.len() == 0 {
                        self.fail_download("Failed to read tarball bytes: empty body".to_owned())
                    } else {
                        let ver = self.version.as_ref().unwrap();
                        let rel = tarball_rel(self.name.as_str(), ver.as_str());
                        self.advance_to(Stage::Saving);
                        Action::SaveTarball { rel_path: rel, bytes: body }
                    }
                },
                _ => Action::Finish,
            },
            Stage::Saving => match event {
                Event::TarballSaved { error } => {
                    let ver = self.version.as_ref().unwrap();
                    match error {
                        Some(detail) => {
                            let rel = tarball_rel(self.name.as_str(), ver.as_str());
                            let m = join4(
                                "Failed to save tarball to disk: ",
                                rel.as_str(),
                                ", ",
                                detail.as_str(),
                            );
                            self.fail_download(m)
                        },
                        None => {
                            let dir = extract_dir_rel(self.name.as_str(), ver.as_str());
                            self.advance_to(Stage::Cleaning);
                            Action::CleanExtractDir { rel_dir: dir }
                        },
                    }
                },
                _ => Action::Finish,
            },
            Stage::Cleaning => match event {
                Event::ExtractDirCleaned { error } => {
                    let ver = self.version.as_ref().unwrap();
                    match error {
                        Some(detail) => {
                            let dir = extract_dir_rel(self.name.as_str(), ver.as_str());
                            let m = join4(
                                "Failed to reset extract directory: ",
                                dir.as_str(),
                                ", ",
                                detail.as_str(),
                            );
                            self.fail_download(m)
                        },
                        None => {
                            let tar = tarball_rel(self.name.as_str(), ver.as_str());
                            let dir = extract_dir_rel(self.name.as_str(), ver.as_str());
                            self.advance_to(Stage::UnpackingOuter);
                            Action::UnpackOuter { tar_rel: tar, dest_rel: dir }
                        },
                    }
                },
                _ => Action::Finish,
            },
            Stage::UnpackingOuter => match event {
                Event::OuterUnpacked { error } => {
                    let ver = self.version.as_ref().unwrap();
                    match error {
                        Some(detail) => {
                            let tar = tarball_rel(self.name.as_str(), ver.as_str());
                            let m = join4(
                                "Failed to extract tarball: ",
                                tar.as_str(),
                                ", ",
                                detail.as_str(),
                            );
                            self.fail_download(m)
                        },
                        None => {
                            let archive = inner_archive_rel(self.name.as_str(), ver.as_str());
                            let dest = contents_dir_rel(self.name.as_str(), ver.as_str());
                            self.advance_to(Stage::UnpackingInner);
                            Action::UnpackInner { archive_rel: archive, dest_rel: dest }
                        },
                    }
                },
                _ => Action::Finish,
            },
            Stage::UnpackingInner => match event {
                Event::InnerUnpacked { error } => {
                    let ver = self.version.as_ref().unwrap();
                    match error {
                        Some(detail) => {
                            let archive = inner_archive_rel(self.name.as_str(), ver.as_str());
                            let m = join4(
                                "Failed to extract contents tarball: ",
                                archive.as_str(),
                                ", ",
                                detail.as_str(),
                            );
                            self.fail_download(m)
                        },
                        None => {
                            let dir = contents_dir_rel(self.name.as_str(), ver.as_str());
                            let mut args: Vec<String> = Vec::new();
                            args.push("build".to_owned());
                            proof {
                                assert(args.deep_view() =~= build_args());
                            }
                            self.advance_to(Stage::Building);
                            Action::RunCommand {
                                program: "gleam".to_owned(),
                                args,
                                working_dir: Some(dir),
                            }
                        },
                    }
                },
                _ => Action::Finish,
            },
            Stage::Building => match event {
                Event::CommandFinished { spawn_error, success, stdout: _, stderr } => {
                    let ver = self.version.as_ref().unwrap();
                    match spawn_error {
                        Some(detail) => {
                            let dir = contents_dir_rel(self.name.as_str(), ver.as_str());
                            let m = join4(
                                "Failed to run `gleam build` in contents directory: ",
                                dir.as_str(),
                                ", ",
                                detail.as_str(),
                            );
                            self.fail_build(m)
                        },
                        None => {
                            if !success {
                                let m = join2("Failed to build package: ", stderr.as_str());
                                self.fail_build(m)
                            } else {
                                let dir = contents_dir_rel(self.name.as_str(), ver.as_str());
                                let mut args: Vec<String> = Vec::new();
                                args.push("add".to_owned());
                                args.push("gleescript".to_owned());
                                proof {
                                    assert(args.deep_view() =~= add_bundler_args());
                                }
                                self.advance_to(Stage::AddingBundler);
                                Action::RunCommand {
                                    program: "gleam".to_owned(),
                                    args,
                                    working_dir: Some(dir),
                                }
                            }
                        },
                    }
                },
                _ => Action::Finish,
            },
            Stage::AddingBundler => match event {
                Event::CommandFinished { spawn_error, success, stdout: _, stderr } => {
                    let ver = self.version.as_ref().unwrap();
                    match spawn_error {
                        Some(detail) => {
                            let dir = contents_dir_rel(self.name.as_str(), ver.as_str());
                            let m = join4(
                                "Failed to run `gleam add gleescript` in contents directory: ",
                                dir.as_str(),
                                ", ",
                                detail.as_str(),
                            );
                            self.fail_build(m)
                        },
                        None => {
                            if !success {
                                let m = join2("Failed to add gleescript: ", stderr.as_str());
                                self.fail_build(m)
                            } else {
                                let dir = contents_dir_rel(self.name.as_str(), ver.as_str());
                                let mut args: Vec<String> = Vec::new();
                                args.push("run".to_owned());
                                args.push("-m".to_owned());
                                args.push("gleescript".to_owned());
                                args.push("--".to_owned());
                                args.push("--out=build".to_owned());
                                proof {
                                    assert(args.deep_view() =~= bundler_args());
                                }
                                self.advance_to(Stage::Bundling);
                                Action::RunCommand {
                                    program: "gleam".to_owned(),
                                    args,
                                    working_dir: Some(dir),
                                }
                            }
                        },
                    }
                },
                _ => Action::Finish,
            },
            Stage::Bundling => match event {
                Event::CommandFinished { spawn_error, success, stdout: _, stderr } => {
                    let ver = self.version.as_ref().unwrap();
                    match spawn_error {
                        Some(detail) => {
                            let dir = contents_dir_rel(self.name.as_str(), ver.as_str());
                            let m = join4(
                                "Failed to run `gleam run -m gleescript` in contents directory: ",
                                dir.as_str(),
                                ", ",
                                detail.as_str(),
                            );
                            self.fail_build(m)
                        },
                        None => {
                            if !success {
                                let m = join2("Failed to run gleescript: ", stderr.as_str());
                                self.fail_build(m)
                            } else {
                                let mut args: Vec<String> = Vec::new();
                                args.push("-noshell".to_owned());
                                args.push("-eval".to_owned());
                                args.push(erl_expr().to_owned());
                                args.push("-s".to_owned());
                                args.push("init".to_owned());
                                args.push("stop".to_owned());
                                proof {
                                    assert(args.deep_view() =~= erl_query_args());
                                }
                                self.advance_to(Stage::QueryingRuntime);
                                Action::RunCommand {
                                    program: "erl".to_owned(),
                                    args,
                                    working_dir: None,
                                }
                            }
                        },
                    }
                },
                _ => Action::Finish,
            },
            Stage::QueryingRuntime => match event {
                Event::CommandFinished { spawn_error, success, stdout, stderr } => {
                    match spawn_error {
                        Some(detail) => {
                            let m = join4(
                                "Failed to run erl eval: ",
                                erl_expr(),
                                ", ",
                                detail.as_str(),
                            );
                            self.fail_build(m)
                        },
                        None => {
                            if !success {
                                let m = join2("Failed to run erl eval: ", stderr.as_str());
                                self.fail_build(m)
                            } else {
                                let ver = self.version.as_ref().unwrap();
                                let launcher = launcher_rel(self.name.as_str());
                                let versioned = versioned_app_rel(self.name.as_str(), ver.as_str());
                                self.runtime_version = Some(trim(stdout.as_str()));
                                self.advance_to(Stage::RemovingPrior);
                                Action::RemovePrior {
                                    launcher_rel: launcher,
                                    versioned_rel: versioned,
                                }
                            }
                        },
                    }
                },
                _ => Action::Finish,
            },
            Stage::RemovingPrior => match event {
                Event::PriorRemoved => {
                    let ver = self.version.as_ref().unwrap();
                    let rel = artifact_rel(self.name.as_str(), ver.as_str());
                    self.advance_to(Stage::ReadingArtifact);
                    Action::ReadArtifact { rel_path: rel }
                },
                _ => Action::Finish,
            },
            Stage::ReadingArtifact => match event {
                Event::ArtifactRead { outcome } => {
                    let ver = self.version.as_ref().unwrap();
                    match outcome {
                        Err(detail) => {
                            let rel = artifact_rel(self.name.as_str(), ver.as_str());
                            let m = join4(
                                "Failed to read escript: ",
                                rel.as_str(),
                                ", ",
                                detail.as_str(),
                            );
                            self.fail_build(m)
                        },
                        Ok(bytes) => {
                            if bytes.len() > usize::MAX / 8 {
                                let rel = artifact_rel(self.name.as_str(), ver.as_str());
                                let m = join2(
                                    "Failed to read escript: ",
                                    rel.as_str(),
                                );
                                let m = join2(m.as_str(), ", escript too large to embed");
                                self.fail_build(m)
                            } else {
                                let rel = launcher_rel(self.name.as_str());
                                let rt = self.runtime_version.as_ref().unwrap();
                                let script = launcher_script(rt.as_str(), &bytes);
                                self.advance_to(Stage::WritingLauncher);
                                Action::WriteLauncher {
                                    rel_path: rel,
                                    contents: script,
                                    mode: 0o755,
                                }
                            }
                        },
                    }
                },
                _ => Action::Finish,
            },
            Stage::WritingLauncher => match event {
                Event::LauncherWritten { error } => match error {
                    Some(detail) => {
                        let rel = launcher_rel(self.name.as_str());
                        let m = join4(
                            "Failed to create wrapper script: ",
                            rel.as_str(),
                            ", ",
                            detail.as_str(),
                        );
                        self.fail_build(m)
                    },
                    None => {
                        self.advance_to(Stage::Done);
                        Action::Finish
                    },
                },
                _ => Action::Finish,
            },
            Stage::Done => Action::Finish,
            Stage::Failed => Action::Finish,
        }
    }
}

/// A live pipeline has entered every stage up to its current one: the
/// trail holds exactly the stages at or before its position.
pub proof fn lemma_visited_up_to(p: Pipeline, s: Stage)
    requires
        p.wf(),
        !(p.stage is Failed),
        !(s is Failed),
        stage_index(s) <= stage_index(p.stage),
    ensures
        p.visited(s),
{
}

/// No pipeline has entered a stage past its trail's reach; in
/// particular, a pipeline that failed kept its trail, so it never
/// entered — and by [`Pipeline::step`]'s contract never asked for the
/// action of — any stage beyond the one it failed in.
pub proof fn lemma_unvisited_beyond(p: Pipeline, s: Stage)
    requires
        p.wf(),
        stage_index(s) >= p.trail@.len(),
    ensures
        !p.visited(s),
{
}

/// Extraction never mixes stale files: when the pipeline awaits the
/// outer unpack it has already passed the clean-slate stage, whose
/// action replaced the extraction directory — and by
/// [`Pipeline::step`]'s contract the unpack's destination equals the
/// directory that was cleaned, so a repeated install of the same name
/// and version extracts into a fully replaced directory.
pub proof fn lemma_clean_slate_precedes_unpack(p: Pipeline)
    requires
        p.wf(),
        p.stage == Stage::UnpackingOuter,
    ensures
        p.visited(Stage::Cleaning),
{
}

/// The prior install is gone before the new launcher is written: a
/// pipeline awaiting the launcher write — or finished — has passed the
/// removal stage, whose action removed `apps/{name}` and the versioned
/// directory; the launcher path carries no version, so the launcher of
/// any previously installed version of the package was removed first.
pub proof fn lemma_prior_removed_before_launcher_written(p: Pipeline)
    requires
        p.wf(),
        p.stage == Stage::WritingLauncher || p.stage == Stage::Done,
    ensures
        p.visited(Stage::RemovingPrior),
{
}

/// A build failure halts the pipeline before any packaging step: a
/// pipeline that failed without getting past the build stage has never
/// entered the removal, artifact-read or launcher-write stages, so none
/// of their actions was asked for and a package not previously
/// installed is left absent from the apps directory.
pub proof fn lemma_build_failure_precedes_packaging(p: Pipeline)
    requires
        p.wf(),
        p.stage is Failed,
        p.trail@.len() <= stage_index(Stage::Building) + 1,
    ensures
        !p.visited(Stage::RemovingPrior),
        !p.visited(Stage::ReadingArtifact),
        !p.visited(Stage::WritingLauncher),
        !p.visited(Stage::Done),
{
}

/// Resolution failures stop the pipeline before any download: a
/// pipeline that failed while resolving never entered the download
/// stage, so no archive fetch was asked for.
pub proof fn lemma_resolution_failure_precedes_download(p: Pipeline)
    requires
        p.wf(),
        p.stage is Failed,
        p.trail@.len() <= stage_index(Stage::Resolving) + 1,
    ensures
        !p.visited(Stage::Downloading),
        !p.visited(Stage::Saving),
{
}

} // verus!
