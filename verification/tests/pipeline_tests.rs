use std::io::Read;

use ec2_deploy::archive::ArchiveEntry;
use ec2_deploy::archive::ArtifactInput;
use ec2_deploy::archive::ArtifactSource;
use ec2_deploy::archive::PackagingError;
use ec2_deploy::archive::package;
use ec2_deploy::descriptor::App;
use ec2_deploy::descriptor::Host;
use ec2_deploy::encode::build_archive;
use ec2_deploy::outcome::CommandOutcome;
use ec2_deploy::plan::DeployError;
use ec2_deploy::plan::DeployStep;
use ec2_deploy::plan::StepOutcome;
use ec2_deploy::plan::build_invocation;
use ec2_deploy::plan::deploy_plan;
use ec2_deploy::plan::entrypoint_needs_upload;
use ec2_deploy::plan::judge_step;
use ec2_deploy::plan::remote_invocation;

fn file_input(path: &str, data: &[u8]) -> ArtifactInput {
    ArtifactInput {
        path: path.to_string(),
        source: ArtifactSource::FileData { data: data.to_vec() },
    }
}

fn entry(name: &str, data: &[u8]) -> ArchiveEntry {
    ArchiveEntry { name: name.to_string(), data: data.to_vec() }
}

fn app_svc(entrypoint: Option<&str>) -> App {
    App {
        name: "svc".to_string(),
        host_path: "/opt/svc".to_string(),
        build_output_file: "out.zip".to_string(),
        build_command: "true".to_string(),
        artifacts: vec!["bin/server".to_string()],
        entrypoint: entrypoint.map(|e| e.to_string()),
    }
}

fn host_example() -> Host {
    Host {
        key_path: "/home/me/.ssh/id".to_string(),
        user: "admin".to_string(),
        host: "example.com".to_string(),
        port: 22,
    }
}

#[test]
fn package_file_artifact_uses_base_name() {
    let r = package(&vec![file_input("bin/server", b"ELF")]).unwrap();
    assert_eq!(r, vec![entry("server", b"ELF")]);
}

#[test]
fn package_dir_artifact_takes_direct_children_only() {
    let inputs = vec![ArtifactInput {
        path: "static".to_string(),
        source: ArtifactSource::DirEntries {
            children: vec![entry("index.html", b"<html>"), entry("app.js", b"js")],
        },
    }];
    let r = package(&inputs).unwrap();
    assert_eq!(r, vec![entry("index.html", b"<html>"), entry("app.js", b"js")]);
}

#[test]
fn package_missing_artifact_names_exact_path() {
    let inputs = vec![
        file_input("bin/server", b"ELF"),
        ArtifactInput { path: "conf/app.toml".to_string(), source: ArtifactSource::Missing },
    ];
    let r = package(&inputs);
    assert_eq!(
        r,
        Err(PackagingError::MissingArtifact { path: "conf/app.toml".to_string() })
    );
}

#[test]
fn package_unreadable_artifact_is_read_error() {
    let inputs = vec![ArtifactInput {
        path: "bin/server".to_string(),
        source: ArtifactSource::Unreadable,
    }];
    assert_eq!(
        package(&inputs),
        Err(PackagingError::ArtifactRead { path: "bin/server".to_string() })
    );
}

#[test]
fn package_path_without_base_name_is_invalid() {
    let inputs = vec![file_input("bin/", b"x")];
    assert_eq!(
        package(&inputs),
        Err(PackagingError::InvalidArtifactPath { path: "bin/".to_string() })
    );
}

#[test]
fn package_rejects_colliding_entry_names() {
    let inputs = vec![file_input("a/server", b"one"), file_input("b/server", b"two")];
    assert_eq!(
        package(&inputs),
        Err(PackagingError::DuplicateEntry { name: "server".to_string() })
    );
}

#[test]
fn package_of_nothing_is_empty() {
    assert_eq!(package(&Vec::new()), Ok(Vec::new()));
    let bytes = build_archive(&Vec::new()).unwrap();
    let ar = zip::ZipArchive::new(std::io::Cursor::new(bytes)).unwrap();
    assert_eq!(ar.len(), 0);
}

#[test]
fn archive_bytes_round_trip_through_zip() {
    let entries = vec![entry("server", b"ELF bytes"), entry("app.js", b"console")];
    let bytes = build_archive(&entries).unwrap();
    let mut ar = zip::ZipArchive::new(std::io::Cursor::new(bytes)).unwrap();
    assert_eq!(ar.len(), 2);
    let mut server = Vec::new();
    ar.by_name("server").unwrap().read_to_end(&mut server).unwrap();
    assert_eq!(server, b"ELF bytes".to_vec());
    let mut js = Vec::new();
    ar.by_name("app.js").unwrap().read_to_end(&mut js).unwrap();
    assert_eq!(js, b"console".to_vec());
}

#[test]
fn archive_bytes_depend_on_entries_alone() {
    let entries = vec![entry("server", b"ELF bytes"), entry("app.js", b"console")];
    let first = build_archive(&entries).unwrap();
    let second = build_archive(&entries).unwrap();
    assert_eq!(first, second);
}

#[test]
fn archive_entries_carry_the_fixed_epoch_date() {
    let entries = vec![entry("server", b"ELF")];
    let bytes = build_archive(&entries).unwrap();
    let mut ar = zip::ZipArchive::new(std::io::Cursor::new(bytes)).unwrap();
    let f = ar.by_name("server").unwrap();
    assert_eq!(f.last_modified(), Some(zip::DateTime::default()));
}

#[test]
fn archive_entries_are_stored_uncompressed() {
    let entries = vec![entry("server", b"0123456789")];
    let bytes = build_archive(&entries).unwrap();
    let mut ar = zip::ZipArchive::new(std::io::Cursor::new(bytes)).unwrap();
    let f = ar.by_name("server").unwrap();
    assert_eq!(f.compression(), zip::CompressionMethod::Stored);
    assert_eq!(f.size(), 10);
}

#[test]
fn build_invocation_splits_program_and_args() {
    let mut app = app_svc(None);
    app.build_command = "cargo build --release".to_string();
    let step = build_invocation(&app).unwrap();
    assert_eq!(
        step,
        DeployStep::RunBuild {
            program: "cargo".to_string(),
            args: vec!["build".to_string(), "--release".to_string()],
        }
    );
}

#[test]
fn build_invocation_rejects_blank_command() {
    let mut app = app_svc(None);
    app.build_command = "   ".to_string();
    assert!(matches!(
        build_invocation(&app),
        Err(DeployError::Config { .. })
    ));
}

#[test]
fn entrypoint_among_artifacts_needs_no_upload() {
    let app = app_svc(Some("bin/server"));
    assert!(!entrypoint_needs_upload(&app));
}

#[test]
fn entrypoint_outside_artifacts_needs_upload() {
    let app = app_svc(Some("bin/ctl"));
    assert!(entrypoint_needs_upload(&app));
}

#[test]
fn plan_without_entrypoint_orchestrates() {
    let app = app_svc(None);
    let steps = deploy_plan(&app, &host_example(), &b"PK".to_vec(), None).unwrap();
    assert_eq!(steps.len(), 9);
    assert_eq!(steps[5], DeployStep::OrchestrateRebuild { dir: "/opt/svc".to_string() });
    assert_eq!(steps[6], DeployStep::OrchestrateUp { dir: "/opt/svc".to_string() });
    assert_eq!(steps[7], DeployStep::CloseTransfer);
    assert_eq!(steps[8], DeployStep::CloseSession);
}

#[test]
fn plan_uploads_missing_entrypoint_before_chmod() {
    let app = app_svc(Some("bin/ctl"));
    let steps =
        deploy_plan(&app, &host_example(), &b"PK".to_vec(), Some(b"ctl".to_vec())).unwrap();
    assert_eq!(steps.len(), 9);
    assert_eq!(
        steps[5],
        DeployStep::UploadFile {
            remote_path: "/opt/svc/ctl".to_string(),
            bytes: b"ctl".to_vec(),
        }
    );
    assert_eq!(steps[6], DeployStep::SetExecutable { remote_path: "/opt/svc/ctl".to_string() });
}

#[test]
fn plan_rejects_output_file_without_base_name() {
    let mut app = app_svc(None);
    app.build_output_file = "build/".to_string();
    assert!(matches!(
        deploy_plan(&app, &host_example(), &Vec::new(), None),
        Err(DeployError::Config { .. })
    ));
}

#[test]
fn remote_invocation_builds_exact_command_lines() {
    let (p, raw, args) =
        remote_invocation(&DeployStep::EnsureRemoteDir { path: "/opt/svc".to_string() }).unwrap();
    assert_eq!(p, "mkdir".to_string());
    assert!(raw.is_empty());
    assert_eq!(args, vec!["-p".to_string(), "/opt/svc".to_string()]);

    let (p, raw, args) = remote_invocation(&DeployStep::ExtractArchive {
        archive_path: "/opt/svc/out.zip".to_string(),
        dest_dir: "/opt/svc".to_string(),
    })
    .unwrap();
    assert_eq!(p, "unzip".to_string());
    assert!(raw.is_empty());
    assert_eq!(
        args,
        vec![
            "-o".to_string(),
            "/opt/svc/out.zip".to_string(),
            "-d".to_string(),
            "/opt/svc".to_string()
        ]
    );

    let (p, raw, args) =
        remote_invocation(&DeployStep::OrchestrateRebuild { dir: "/opt/svc".to_string() })
            .unwrap();
    assert_eq!(p, "cd".to_string());
    assert_eq!(raw, vec!["/opt/svc".to_string(), "&&".to_string()]);
    assert_eq!(
        args,
        vec![
            "COMPOSE_STATUS_STDOUT=1".to_string(),
            "docker-compose".to_string(),
            "build".to_string()
        ]
    );

    let (p, raw, args) =
        remote_invocation(&DeployStep::OrchestrateUp { dir: "/opt/svc".to_string() }).unwrap();
    assert_eq!(p, "cd".to_string());
    assert_eq!(raw, vec!["/opt/svc".to_string(), "&&".to_string()]);
    assert_eq!(
        args,
        vec!["docker-compose".to_string(), "up".to_string(), "-d".to_string()]
    );

    assert!(remote_invocation(&DeployStep::CloseSession).is_none());
}

#[test]
fn judge_build_error_stream_aborts_with_it() {
    let step = DeployStep::RunBuild { program: "true".to_string(), args: Vec::new() };
    let oc = StepOutcome::Output {
        outcome: CommandOutcome { stdout: Vec::new(), stderr: b"compile error".to_vec() },
    };
    assert_eq!(
        judge_step(&step, oc),
        Err(DeployError::Build { stderr: b"compile error".to_vec() })
    );
}

#[test]
fn judge_remote_error_stream_aborts_with_exact_text() {
    let step = DeployStep::EnsureRemoteDir { path: "/opt/svc".to_string() };
    let oc = StepOutcome::Output {
        outcome: CommandOutcome {
            stdout: b"created".to_vec(),
            stderr: b"mkdir: permission denied".to_vec(),
        },
    };
    assert_eq!(
        judge_step(&step, oc),
        Err(DeployError::RemoteCommand { stderr: b"mkdir: permission denied".to_vec() })
    );
}

#[test]
fn judge_remote_launch_failure_is_transport_not_command() {
    let step = DeployStep::ExtractArchive {
        archive_path: "/opt/svc/out.zip".to_string(),
        dest_dir: "/opt/svc".to_string(),
    };
    let oc = StepOutcome::Failed { message: "channel broke".to_string() };
    assert_eq!(
        judge_step(&step, oc),
        Err(DeployError::Transport { message: "channel broke".to_string() })
    );
}

#[test]
fn judge_orchestration_output_is_not_gated() {
    let step = DeployStep::OrchestrateRebuild { dir: "/opt/svc".to_string() };
    let oc = StepOutcome::Output {
        outcome: CommandOutcome { stdout: Vec::new(), stderr: b"warning".to_vec() },
    };
    assert_eq!(judge_step(&step, oc), Ok(()));
}

#[test]
fn judge_upload_failure_is_transfer_error() {
    let step = DeployStep::UploadFile {
        remote_path: "/opt/svc/out.zip".to_string(),
        bytes: Vec::new(),
    };
    let oc = StepOutcome::Failed { message: "disk full".to_string() };
    assert_eq!(
        judge_step(&step, oc),
        Err(DeployError::Transfer { message: "disk full".to_string() })
    );
}

#[test]
fn judge_build_launch_failure_is_distinct() {
    let step = DeployStep::RunBuild { program: "true".to_string(), args: Vec::new() };
    let oc = StepOutcome::Failed { message: "no such program".to_string() };
    assert_eq!(
        judge_step(&step, oc),
        Err(DeployError::BuildLaunch { message: "no such program".to_string() })
    );
}

#[test]
fn judge_archive_write_failure_is_packaging_error() {
    let step = DeployStep::WriteArchive { local_path: "out.zip".to_string(), bytes: Vec::new() };
    let oc = StepOutcome::Failed { message: "read-only".to_string() };
    assert_eq!(
        judge_step(&step, oc),
        Err(DeployError::Packaging {
            error: PackagingError::ArchiveWrite { path: "out.zip".to_string() }
        })
    );
}

#[test]
fn judge_close_failure_is_observable() {
    let oc = StepOutcome::Failed { message: "close timed out".to_string() };
    assert_eq!(
        judge_step(&DeployStep::CloseSession, oc),
        Err(DeployError::Transport { message: "close timed out".to_string() })
    );
}

#[test]
fn scenario_entrypoint_already_packaged() {
    let app = app_svc(Some("bin/server"));
    let host = host_example();

    let build = build_invocation(&app).unwrap();
    assert_eq!(build, DeployStep::RunBuild { program: "true".to_string(), args: Vec::new() });
    let build_ok = StepOutcome::Output {
        outcome: CommandOutcome { stdout: Vec::new(), stderr: Vec::new() },
    };
    assert_eq!(judge_step(&build, build_ok), Ok(()));

    let entries = package(&vec![file_input("bin/server", b"ELF")]).unwrap();
    assert_eq!(entries.len(), 1);
    assert_eq!(entries[0].name, "server".to_string());

    let bytes = build_archive(&entries).unwrap();
    assert!(!entrypoint_needs_upload(&app));
    let steps = deploy_plan(&app, &host, &bytes, None).unwrap();

    assert_eq!(steps.len(), 8);
    assert_eq!(
        steps[0],
        DeployStep::WriteArchive { local_path: "out.zip".to_string(), bytes: bytes.clone() }
    );
    assert_eq!(
        steps[1],
        DeployStep::Connect {
            key_path: "/home/me/.ssh/id".to_string(),
            url: "ssh://admin@example.com:22".to_string(),
        }
    );
    assert_eq!(steps[2], DeployStep::EnsureRemoteDir { path: "/opt/svc".to_string() });
    assert_eq!(
        steps[3],
        DeployStep::UploadFile {
            remote_path: "/opt/svc/out.zip".to_string(),
            bytes: bytes.clone(),
        }
    );
    assert_eq!(
        steps[4],
        DeployStep::ExtractArchive {
            archive_path: "/opt/svc/out.zip".to_string(),
            dest_dir: "/opt/svc".to_string(),
        }
    );
    assert_eq!(
        steps[5],
        DeployStep::SetExecutable { remote_path: "/opt/svc/server".to_string() }
    );
    assert_eq!(steps[6], DeployStep::CloseTransfer);
    assert_eq!(steps[7], DeployStep::CloseSession);

    for step in &steps {
        let oc = match step {
            DeployStep::RunBuild { .. }
            | DeployStep::EnsureRemoteDir { .. }
            | DeployStep::ExtractArchive { .. }
            | DeployStep::OrchestrateRebuild { .. }
            | DeployStep::OrchestrateUp { .. } => StepOutcome::Output {
                outcome: CommandOutcome { stdout: Vec::new(), stderr: Vec::new() },
            },
            _ => StepOutcome::Done,
        };
        assert_eq!(judge_step(step, oc), Ok(()));
    }
}
