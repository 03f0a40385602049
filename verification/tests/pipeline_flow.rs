//! End-to-end drives of the install pipeline through its public
//! interface: the full success scenario, and each failure the registry,
//! the filesystem and the toolchain can inject.

use gleam_pkg::pipeline::{install_package, Action, Event, Pipeline, Stage};
use gleam_pkg::registry::{Config, RegistryMetadata, ReleaseEntry};
use gleam_pkg::GleamPkgError;

fn metadata_with(version: Option<&str>) -> RegistryMetadata {
    RegistryMetadata {
        releases: Some(vec![ReleaseEntry { version: version.map(|v| v.to_string()) }]),
    }
}

fn ok_metadata_event(version: &str) -> Event {
    Event::MetadataReceived {
        status: 200,
        status_line: "200 OK".to_string(),
        doc: Ok(metadata_with(Some(version))),
    }
}

fn command_ok() -> Event {
    Event::CommandFinished {
        spawn_error: None,
        success: true,
        stdout: String::new(),
        stderr: String::new(),
    }
}

fn failure_message(p: &Pipeline) -> String {
    match &p.failure {
        Some(e) => e.message(),
        None => panic!("pipeline did not fail"),
    }
}

/// Drives a fresh pipeline for `demo` up to the build stage.
fn drive_to_building(version: &str) -> Pipeline {
    let config = Config::new();
    let (mut p, a) = install_package(&config, "demo");
    assert!(matches!(a, Action::FetchMetadata { .. }));
    p.step(ok_metadata_event(version));
    p.step(Event::TarballReceived {
        status: 200,
        status_line: "200 OK".to_string(),
        body: vec![1, 2, 3],
    });
    p.step(Event::TarballSaved { error: None });
    p.step(Event::ExtractDirCleaned { error: None });
    p.step(Event::OuterUnpacked { error: None });
    p.step(Event::InnerUnpacked { error: None });
    assert_eq!(p.stage, Stage::Building);
    p
}

#[test]
fn install_demo_success_flow() {
    let config = Config::new();
    assert_eq!(config.api_base, "https://hex.pm/api/");
    assert_eq!(config.repository_base, "https://repo.hex.pm/");

    let (mut p, a) = install_package(&config, "demo");
    assert_eq!(p.stage, Stage::Resolving);
    match a {
        Action::FetchMetadata { url } => assert_eq!(url, "https://hex.pm/api/packages/demo"),
        other => panic!("expected a metadata fetch, got {:?}", other),
    }

    let a = p.step(ok_metadata_event("1.2.0"));
    assert_eq!(p.stage, Stage::Downloading);
    match a {
        Action::FetchTarball { url } => {
            assert_eq!(url, "https://repo.hex.pm/tarballs/demo-1.2.0.tar")
        },
        other => panic!("expected a tarball fetch, got {:?}", other),
    }

    let a = p.step(Event::TarballReceived {
        status: 200,
        status_line: "200 OK".to_string(),
        body: vec![7, 8, 9],
    });
    match a {
        Action::SaveTarball { rel_path, bytes } => {
            assert_eq!(rel_path, "download/demo-1.2.0.tar");
            assert_eq!(bytes, vec![7, 8, 9]);
        },
        other => panic!("expected a save, got {:?}", other),
    }

    let a = p.step(Event::TarballSaved { error: None });
    match a {
        Action::CleanExtractDir { rel_dir } => assert_eq!(rel_dir, "download/demo-1.2.0"),
        other => panic!("expected a clean slate, got {:?}", other),
    }

    let a = p.step(Event::ExtractDirCleaned { error: None });
    match a {
        Action::UnpackOuter { tar_rel, dest_rel } => {
            assert_eq!(tar_rel, "download/demo-1.2.0.tar");
            assert_eq!(dest_rel, "download/demo-1.2.0");
        },
        other => panic!("expected the outer unpack, got {:?}", other),
    }

    let a = p.step(Event::OuterUnpacked { error: None });
    match a {
        Action::UnpackInner { archive_rel, dest_rel } => {
            assert_eq!(archive_rel, "download/demo-1.2.0/contents.tar.gz");
            assert_eq!(dest_rel, "download/demo-1.2.0/contents");
        },
        other => panic!("expected the inner unpack, got {:?}", other),
    }

    let a = p.step(Event::InnerUnpacked { error: None });
    match a {
        Action::RunCommand { program, args, working_dir } => {
            assert_eq!(program, "gleam");
            assert_eq!(args, vec!["build"]);
            assert_eq!(working_dir.as_deref(), Some("download/demo-1.2.0/contents"));
        },
        other => panic!("expected the build step, got {:?}", other),
    }

    let a = p.step(command_ok());
    match a {
        Action::RunCommand { program, args, .. } => {
            assert_eq!(program, "gleam");
            assert_eq!(args, vec!["add", "gleescript"]);
        },
        other => panic!("expected the bundler addition, got {:?}", other),
    }

    let a = p.step(command_ok());
    match a {
        Action::RunCommand { program, args, .. } => {
            assert_eq!(program, "gleam");
            assert_eq!(args, vec!["run", "-m", "gleescript", "--", "--out=build"]);
        },
        other => panic!("expected the bundler run, got {:?}", other),
    }

    let a = p.step(command_ok());
    match a {
        Action::RunCommand { program, args, working_dir } => {
            assert_eq!(program, "erl");
            assert_eq!(
                args,
                vec![
                    "-noshell",
                    "-eval",
                    "io:format(standard_io, \"~s~n\", [erlang:system_info(system_version)]).",
                    "-s",
                    "init",
                    "stop",
                ]
            );
            assert_eq!(working_dir, None);
        },
        other => panic!("expected the runtime query, got {:?}", other),
    }

    let a = p.step(Event::CommandFinished {
        spawn_error: None,
        success: true,
        stdout: "Erlang/OTP 26\n".to_string(),
        stderr: String::new(),
    });
    match a {
        Action::RemovePrior { launcher_rel, versioned_rel } => {
            assert_eq!(launcher_rel, "apps/demo");
            assert_eq!(versioned_rel, "apps/demo-1.2.0");
        },
        other => panic!("expected the prior removal, got {:?}", other),
    }

    let a = p.step(Event::PriorRemoved);
    match a {
        Action::ReadArtifact { rel_path } => {
            assert_eq!(rel_path, "download/demo-1.2.0/contents/build/demo")
        },
        other => panic!("expected the escript read, got {:?}", other),
    }

    let escript: Vec<u8> = b"demo-bytes".to_vec();
    let a = p.step(Event::ArtifactRead { outcome: Ok(escript.clone()) });
    let script = match a {
        Action::WriteLauncher { rel_path, contents, mode } => {
            assert_eq!(rel_path, "apps/demo");
            assert_eq!(mode, 0o755);
            contents
        },
        other => panic!("expected the launcher write, got {:?}", other),
    };

    // the launcher is a shell script that records the runtime version
    // (trimmed), checks it at run time, and forwards all arguments
    assert!(script.starts_with("#!/bin/sh"));
    assert!(script.contains("COMPILED_ERLANG_VERSION=\"Erlang/OTP 26\""));
    assert!(script.contains("\"$ESCRIPT_PATH\" \"$@\""));
    assert!(script.contains("rm -rf \"$TEMP_DIR\""));

    // the embedded payload decodes back to the escript's exact bytes
    let end = script.find("\" | base64 -d").expect("payload end");
    let start = script[..end].rfind("echo \"").expect("payload line") + "echo \"".len();
    let payload = &script[start..end];
    assert_eq!(payload, "ZGVtby1ieXRlcw==");
    let decoded = gleam_pkg::launcher::decode_payload(payload).expect("payload decodes");
    assert_eq!(decoded, escript);

    let a = p.step(Event::LauncherWritten { error: None });
    assert!(matches!(a, Action::Finish));
    assert_eq!(p.stage, Stage::Done);
    assert!(p.failure.is_none());
}

#[test]
fn resolution_fails_on_absent_releases() {
    let config = Config::new();
    let (mut p, _) = install_package(&config, "demo");
    let a = p.step(Event::MetadataReceived {
        status: 200,
        status_line: "200 OK".to_string(),
        doc: Ok(RegistryMetadata { releases: None }),
    });
    // the install fails before any tarball fetch is asked for
    assert!(matches!(a, Action::Finish));
    assert_eq!(p.stage, Stage::Failed);
    assert!(matches!(&p.failure, Some(GleamPkgError::PackageDownloadError(m)) if m == "No releases found in metadata"));
}

#[test]
fn resolution_fails_on_empty_releases() {
    let config = Config::new();
    let (mut p, _) = install_package(&config, "demo");
    let a = p.step(Event::MetadataReceived {
        status: 200,
        status_line: "200 OK".to_string(),
        doc: Ok(RegistryMetadata { releases: Some(vec![]) }),
    });
    assert!(matches!(a, Action::Finish));
    assert_eq!(p.stage, Stage::Failed);
    assert!(matches!(&p.failure, Some(GleamPkgError::PackageDownloadError(m)) if m == "No version found in metadata"));
}

#[test]
fn resolution_fails_on_missing_version_field() {
    let config = Config::new();
    let (mut p, _) = install_package(&config, "demo");
    let a = p.step(Event::MetadataReceived {
        status: 200,
        status_line: "200 OK".to_string(),
        doc: Ok(metadata_with(None)),
    });
    // resolution fails before any tarball download is attempted
    assert!(matches!(a, Action::Finish));
    assert_eq!(p.stage, Stage::Failed);
    assert!(matches!(&p.failure, Some(GleamPkgError::PackageDownloadError(m)) if m == "No version found in metadata"));
}

#[test]
fn metadata_transport_failure_fails_install() {
    let config = Config::new();
    let (mut p, _) = install_package(&config, "demo");
    let a = p.step(Event::MetadataTransportFailed { detail: "connection refused".to_string() });
    assert!(matches!(a, Action::Finish));
    assert_eq!(p.stage, Stage::Failed);
    assert_eq!(
        failure_message(&p),
        "Failed to download package: Failed to fetch metadata for package: demo, connection refused"
    );
}

#[test]
fn metadata_404_fails_before_any_download() {
    let config = Config::new();
    let (mut p, _) = install_package(&config, "demo");
    let a = p.step(Event::MetadataReceived {
        status: 404,
        status_line: "404 Not Found".to_string(),
        doc: Err(String::new()),
    });
    // no download action follows: the pipeline is finished and failed
    assert!(matches!(a, Action::Finish));
    assert_eq!(p.stage, Stage::Failed);
    assert!(matches!(&p.failure, Some(GleamPkgError::PackageDownloadError(m)) if m == "Received non-success status code: 404 Not Found"));
}

#[test]
fn unparsable_metadata_fails_install() {
    let config = Config::new();
    let (mut p, _) = install_package(&config, "demo");
    let a = p.step(Event::MetadataReceived {
        status: 200,
        status_line: "200 OK".to_string(),
        doc: Err("expected value at line 1".to_string()),
    });
    assert!(matches!(a, Action::Finish));
    assert!(matches!(&p.failure, Some(GleamPkgError::PackageDownloadError(m)) if m == "Returned metadata is not valid JSON: demo, expected value at line 1"));
}

#[test]
fn tarball_404_fails_install() {
    let config = Config::new();
    let (mut p, _) = install_package(&config, "demo");
    p.step(ok_metadata_event("1.2.0"));
    let a = p.step(Event::TarballReceived {
        status: 404,
        status_line: "404 Not Found".to_string(),
        body: vec![],
    });
    assert!(matches!(a, Action::Finish));
    assert!(matches!(&p.failure, Some(GleamPkgError::PackageDownloadError(m)) if m == "Received non-success status code: 404 Not Found"));
}

#[test]
fn empty_tarball_body_fails_install() {
    let config = Config::new();
    let (mut p, _) = install_package(&config, "demo");
    p.step(ok_metadata_event("1.2.0"));
    let a = p.step(Event::TarballReceived {
        status: 200,
        status_line: "200 OK".to_string(),
        body: vec![],
    });
    assert!(matches!(a, Action::Finish));
    assert!(matches!(&p.failure, Some(GleamPkgError::PackageDownloadError(m)) if m == "Failed to read tarball bytes: empty body"));
}

#[test]
fn save_failure_is_distinct_from_network_failure() {
    let config = Config::new();
    let (mut p, _) = install_package(&config, "demo");
    p.step(ok_metadata_event("1.2.0"));
    p.step(Event::TarballReceived {
        status: 200,
        status_line: "200 OK".to_string(),
        body: vec![1],
    });
    let a = p.step(Event::TarballSaved { error: Some("disk full".to_string()) });
    assert!(matches!(a, Action::Finish));
    assert!(matches!(&p.failure, Some(GleamPkgError::PackageDownloadError(m)) if m == "Failed to save tarball to disk: download/demo-1.2.0.tar, disk full"));
}

#[test]
fn build_failure_halts_before_packaging() {
    let mut p = drive_to_building("1.2.0");
    let a = p.step(Event::CommandFinished {
        spawn_error: None,
        success: false,
        stdout: String::new(),
        stderr: "type error in module demo".to_string(),
    });
    // the pipeline halts: no removal, read or write action follows
    assert!(matches!(a, Action::Finish));
    assert_eq!(p.stage, Stage::Failed);
    assert!(matches!(&p.failure, Some(GleamPkgError::PackageBuildError(m)) if m == "Failed to build package: type error in module demo"));
}

#[test]
fn build_spawn_failure_halts_pipeline() {
    let mut p = drive_to_building("1.2.0");
    let a = p.step(Event::CommandFinished {
        spawn_error: Some("No such file or directory".to_string()),
        success: false,
        stdout: String::new(),
        stderr: String::new(),
    });
    assert!(matches!(a, Action::Finish));
    assert!(matches!(&p.failure, Some(GleamPkgError::PackageBuildError(m)) if m == "Failed to run `gleam build` in contents directory: download/demo-1.2.0/contents, No such file or directory"));
}

#[test]
fn bundler_failures_halt_pipeline() {
    let mut p = drive_to_building("1.2.0");
    p.step(command_ok());
    let a = p.step(Event::CommandFinished {
        spawn_error: None,
        success: false,
        stdout: String::new(),
        stderr: "network down".to_string(),
    });
    assert!(matches!(a, Action::Finish));
    assert!(matches!(&p.failure, Some(GleamPkgError::PackageBuildError(m)) if m == "Failed to add gleescript: network down"));

    let mut p = drive_to_building("1.2.0");
    p.step(command_ok());
    p.step(command_ok());
    let a = p.step(Event::CommandFinished {
        spawn_error: None,
        success: false,
        stdout: String::new(),
        stderr: "escript failed".to_string(),
    });
    assert!(matches!(a, Action::Finish));
    assert!(matches!(&p.failure, Some(GleamPkgError::PackageBuildError(m)) if m == "Failed to run gleescript: escript failed"));
}

#[test]
fn runtime_query_failure_halts_pipeline() {
    let mut p = drive_to_building("1.2.0");
    p.step(command_ok());
    p.step(command_ok());
    p.step(command_ok());
    assert_eq!(p.stage, Stage::QueryingRuntime);
    let a = p.step(Event::CommandFinished {
        spawn_error: None,
        success: false,
        stdout: String::new(),
        stderr: "erl: not found".to_string(),
    });
    assert!(matches!(a, Action::Finish));
    assert!(matches!(&p.failure, Some(GleamPkgError::PackageBuildError(m)) if m == "Failed to run erl eval: erl: not found"));
}

#[test]
fn reinstall_same_version_cleans_same_directory() {
    // two installs of the same {name, version} reset and extract into
    // the same directory, and the reset always precedes the unpack, so
    // the second install fully replaces the first's extraction
    let mut dirs: Vec<String> = vec![];
    for _ in 0..2 {
        let config = Config::new();
        let (mut p, _) = install_package(&config, "demo");
        p.step(ok_metadata_event("1.2.0"));
        p.step(Event::TarballReceived {
            status: 200,
            status_line: "200 OK".to_string(),
            body: vec![1],
        });
        let a = p.step(Event::TarballSaved { error: None });
        let cleaned = match a {
            Action::CleanExtractDir { rel_dir } => rel_dir,
            other => panic!("expected a clean slate, got {:?}", other),
        };
        let a = p.step(Event::ExtractDirCleaned { error: None });
        match a {
            Action::UnpackOuter { dest_rel, .. } => assert_eq!(dest_rel, cleaned),
            other => panic!("expected the outer unpack, got {:?}", other),
        }
        dirs.push(cleaned);
    }
    assert_eq!(dirs[0], dirs[1]);
}

#[test]
fn different_version_removes_prior_launcher() {
    // the launcher path carries no version: installing 2.0.0 removes
    // the launcher that an install of 1.0.0 wrote
    for (version, versioned_dir) in [("1.0.0", "apps/demo-1.0.0"), ("2.0.0", "apps/demo-2.0.0")] {
        let mut p = drive_to_building(version);
        p.step(command_ok());
        p.step(command_ok());
        p.step(command_ok());
        let a = p.step(Event::CommandFinished {
            spawn_error: None,
            success: true,
            stdout: "Erlang/OTP 26\n".to_string(),
            stderr: String::new(),
        });
        match a {
            Action::RemovePrior { launcher_rel, versioned_rel } => {
                assert_eq!(launcher_rel, "apps/demo");
                assert_eq!(versioned_rel, versioned_dir);
            },
            other => panic!("expected the prior removal, got {:?}", other),
        }
    }
}

#[test]
fn artifact_read_failure_halts_pipeline() {
    let mut p = drive_to_building("1.2.0");
    p.step(command_ok());
    p.step(command_ok());
    p.step(command_ok());
    p.step(Event::CommandFinished {
        spawn_error: None,
        success: true,
        stdout: "Erlang/OTP 26\n".to_string(),
        stderr: String::new(),
    });
    p.step(Event::PriorRemoved);
    let a = p.step(Event::ArtifactRead { outcome: Err("No such file".to_string()) });
    assert!(matches!(a, Action::Finish));
    assert!(matches!(&p.failure, Some(GleamPkgError::PackageBuildError(m)) if m == "Failed to read escript: download/demo-1.2.0/contents/build/demo, No such file"));
}

#[test]
fn launcher_write_failure_halts_pipeline() {
    let mut p = drive_to_building("1.2.0");
    p.step(command_ok());
    p.step(command_ok());
    p.step(command_ok());
    p.step(Event::CommandFinished {
        spawn_error: None,
        success: true,
        stdout: "Erlang/OTP 26\n".to_string(),
        stderr: String::new(),
    });
    p.step(Event::PriorRemoved);
    p.step(Event::ArtifactRead { outcome: Ok(vec![1, 2, 3]) });
    let a = p.step(Event::LauncherWritten { error: Some("permission denied".to_string()) });
    assert!(matches!(a, Action::Finish));
    assert!(matches!(&p.failure, Some(GleamPkgError::PackageBuildError(m)) if m == "Failed to create wrapper script: apps/demo, permission denied"));
}
