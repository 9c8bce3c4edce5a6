//! The deployment orchestrator: the fixed, ordered sequence of steps one
//! deploy run performs, and the classification of each step's outcome.
//!
//! The binary around the library executes the steps (process spawn, network,
//! remote commands) strictly in order and hands every result back as a
//! [`StepOutcome`]; any judged failure aborts the run. The step list itself
//! is computed and pinned down here.

use vstd::prelude::*;
use vstd::string::StringExecFns;
use crate::archive::PackagingError;
use crate::descriptor::App;
use crate::descriptor::Host;
use crate::descriptor::url_of;
use crate::outcome::CommandOutcome;
use crate::text::base_name;
use crate::text::base_name_of;
use crate::text::contains_str;
use crate::text::contains_string;
use crate::text::join_of;
use crate::text::path_join;
use crate::text::tokenize;
use crate::text::tokens_of;

verus! {

/// One step of a deploy run, with everything its execution needs.
#[derive(Debug, PartialEq, Eq)]
pub enum DeployStep {
    /// Run the configured build command as a local process.
    RunBuild { program: String, args: Vec<String> },
    /// Write the archive bytes to the local output path.
    WriteArchive { local_path: String, bytes: Vec<u8> },
    /// Open the authenticated session to the host.
    Connect { key_path: String, url: String },
    /// Create the remote base directory if it is absent.
    EnsureRemoteDir { path: String },
    /// Write the bytes to the remote path, creating or overwriting it.
    UploadFile { remote_path: String, bytes: Vec<u8> },
    /// Extract the uploaded archive into the remote directory, overwriting
    /// entries of the same name.
    ExtractArchive { archive_path: String, dest_dir: String },
    /// Grant owner and group execute permission on the remote path.
    SetExecutable { remote_path: String },
    /// Rebuild the container stack in the remote directory; its output is
    /// observed but deliberately not gated.
    OrchestrateRebuild { dir: String },
    /// Restart the container stack detached; its output is likewise not
    /// gated.
    OrchestrateUp { dir: String },
    /// Release the file-transfer channel.
    CloseTransfer,
    /// Release the session and its command channel.
    CloseSession,
}

/// The mathematical shadow of [`DeployStep`].
pub enum DeployStepSpec {
    RunBuild { program: Seq<char>, args: Seq<Seq<char>> },
    WriteArchive { local_path: Seq<char>, bytes: Seq<u8> },
    Connect { key_path: Seq<char>, url: Seq<char> },
    EnsureRemoteDir { path: Seq<char> },
    UploadFile { remote_path: Seq<char>, bytes: Seq<u8> },
    ExtractArchive { archive_path: Seq<char>, dest_dir: Seq<char> },
    SetExecutable { remote_path: Seq<char> },
    OrchestrateRebuild { dir: Seq<char> },
    OrchestrateUp { dir: Seq<char> },
    CloseTransfer,
    CloseSession,
}

impl View for DeployStep {
    type V = DeployStepSpec;

    open spec fn view(&self) -> DeployStepSpec {
        match self {
            DeployStep::RunBuild { program, args } => DeployStepSpec::RunBuild {
                program: program@,
                args: args.deep_view(),
            },
            DeployStep::WriteArchive { local_path, bytes } => DeployStepSpec::WriteArchive {
                local_path: local_path@,
                bytes: bytes@,
            },
            DeployStep::Connect { key_path, url } => DeployStepSpec::Connect {
                key_path: key_path@,
                url: url@,
            },
            DeployStep::EnsureRemoteDir { path } => DeployStepSpec::EnsureRemoteDir {
                path: path@,
            },
            DeployStep::UploadFile { remote_path, bytes } => DeployStepSpec::UploadFile {
                remote_path: remote_path@,
                bytes: bytes@,
            },
            DeployStep::ExtractArchive { archive_path, dest_dir } => DeployStepSpec::ExtractArchive {
                archive_path: archive_path@,
                dest_dir: dest_dir@,
            },
            DeployStep::SetExecutable { remote_path } => DeployStepSpec::SetExecutable {
                remote_path: remote_path@,
            },
            DeployStep::OrchestrateRebuild { dir } => DeployStepSpec::OrchestrateRebuild {
                dir: dir@,
            },
            DeployStep::OrchestrateUp { dir } => DeployStepSpec::OrchestrateUp { dir: dir@ },
            DeployStep::CloseTransfer => DeployStepSpec::CloseTransfer,
            DeployStep::CloseSession => DeployStepSpec::CloseSession,
        }
    }
}

impl DeepView for DeployStep {
    type V = DeployStepSpec;

    open spec fn deep_view(&self) -> DeployStepSpec {
        self.view()
    }
}

/// Why a deploy run aborted.
#[derive(Debug, PartialEq, Eq)]
pub enum DeployError {
    /// The configuration cannot drive a run.
    Config { message: String },
    /// The build produced error output.
    Build { stderr: Vec<u8> },
    /// The build command could not be launched.
    BuildLaunch { message: String },
    /// Packaging the artifacts failed.
    Packaging { error: PackagingError },
    /// The connection, a channel, a close, or launching a remote command
    /// failed.
    Transport { message: String },
    /// A gated remote command produced error output.
    RemoteCommand { stderr: Vec<u8> },
    /// An upload or permission change failed.
    Transfer { message: String },
}

/// How the execution of one step went.
pub enum StepOutcome {
    /// A command ran to completion and left these output streams.
    Output { outcome: CommandOutcome },
    /// A transfer, connect or close finished.
    Done,
    /// The operation itself could not be performed.
    Failed { message: String },
}

/// Whether the step is one whose execution yields captured output streams.
pub open spec fn is_command_step(s: DeployStepSpec) -> bool {
    match s {
        DeployStepSpec::RunBuild { .. } => true,
        DeployStepSpec::EnsureRemoteDir { .. } => true,
        DeployStepSpec::ExtractArchive { .. } => true,
        DeployStepSpec::OrchestrateRebuild { .. } => true,
        DeployStepSpec::OrchestrateUp { .. } => true,
        _ => false,
    }
}

/// Which outcomes executing a step can yield: command steps finish with
/// output streams or fail to launch; every other step either finishes or
/// fails.
pub open spec fn outcome_fits(s: DeployStepSpec, oc: StepOutcome) -> bool {
    if is_command_step(s) {
        !(oc is Done)
    } else {
        !(oc is Output)
    }
}

/// Everything `judge_step` promises: how each step's outcome is classified.
pub open spec fn judge_post(s: DeployStepSpec, oc: StepOutcome, r: Result<(), DeployError>) -> bool {
    match oc {
        StepOutcome::Output { outcome } => match s {
            DeployStepSpec::RunBuild { .. } => if outcome.stderr@.len() > 0 {
                r matches Err(e) && e matches DeployError::Build { stderr } && stderr@
                    == outcome.stderr@
            } else {
                r is Ok
            },
            DeployStepSpec::EnsureRemoteDir { .. } | DeployStepSpec::ExtractArchive {
                ..
            } => if outcome.stderr@.len() > 0 {
                r matches Err(e) && e matches DeployError::RemoteCommand { stderr } && stderr@
                    == outcome.stderr@
            } else {
                r is Ok
            },
            DeployStepSpec::OrchestrateRebuild { .. } | DeployStepSpec::OrchestrateUp {
                ..
            } => r is Ok,
            _ => true,
        },
        StepOutcome::Done => if is_command_step(s) {
            true
        } else {
            r is Ok
        },
        StepOutcome::Failed { message } => match s {
            DeployStepSpec::RunBuild { .. } => r matches Err(e) && e
                matches DeployError::BuildLaunch { message: m } && m@ == message@,
            DeployStepSpec::WriteArchive { local_path, .. } => r matches Err(e) && e
                matches DeployError::Packaging { error } && error
                matches PackagingError::ArchiveWrite { path } && path@ == local_path,
            DeployStepSpec::UploadFile { .. } | DeployStepSpec::SetExecutable { .. } => r
                matches Err(e) && e matches DeployError::Transfer { message: m } && m@
                == message@,
            _ => r matches Err(e) && e matches DeployError::Transport { message: m } && m@
                == message@,
        },
    }
}

/// Judges one executed step: a failure to perform the operation is fatal with
/// an error class owed to the step's kind; a gated command with a non-empty
/// error stream is fatal carrying exactly that stream; the two orchestration
/// commands' outputs are deliberately not gated.
pub fn judge_step(step: &DeployStep, outcome: StepOutcome) -> (r: Result<(), DeployError>)
    requires
        outcome_fits(step@, outcome),
    ensures
        judge_post(step@, outcome, r),
{
    match outcome {
        StepOutcome::Output { outcome: co } => match step {
            DeployStep::RunBuild { .. } => {
                if co.stderr.len() > 0 {
                    Err(DeployError::Build { stderr: co.stderr })
                } else {
                    Ok(())
                }
            },
            DeployStep::EnsureRemoteDir { .. } | DeployStep::ExtractArchive { .. } => {
                if co.stderr.len() > 0 {
                    Err(DeployError::RemoteCommand { stderr: co.stderr })
                } else {
                    Ok(())
                }
            },
            _ => Ok(()),
        },
        StepOutcome::Done => Ok(()),
        StepOutcome::Failed { message } => match step {
            DeployStep::RunBuild { .. } => Err(DeployError::BuildLaunch { message }),
            DeployStep::WriteArchive { local_path, .. } => Err(
                DeployError::Packaging {
                    error: PackagingError::ArchiveWrite { path: local_path.clone() },
                },
            ),
            DeployStep::UploadFile { .. } | DeployStep::SetExecutable { .. } => Err(
                DeployError::Transfer { message },
            ),
            _ => Err(DeployError::Transport { message }),
        },
    }
}

/// Remote-command law: a gated remote command whose error stream is non-empty
/// aborts the run with a remote-command error carrying exactly that stream,
/// whatever its exit status suggested.
pub proof fn lemma_remote_stderr_aborts(
    step: DeployStep,
    co: CommandOutcome,
    r: Result<(), DeployError>,
)
    requires
        judge_post(step@, StepOutcome::Output { outcome: co }, r),
        step@ matches DeployStepSpec::EnsureRemoteDir { .. } || step@
            matches DeployStepSpec::ExtractArchive { .. },
        co.stderr@.len() > 0,
    ensures
        r matches Err(e) && e matches DeployError::RemoteCommand { stderr } && stderr@
            == co.stderr@,
{
}

/// Tokenizes the configured build command: the first whitespace-separated
/// token is the program, the rest are its arguments; a command with no tokens
/// cannot drive a build.
pub fn build_invocation(app: &App) -> (r: Result<DeployStep, DeployError>)
    ensures
        r is Ok <==> tokens_of(app.build_command@).len() > 0,
        r matches Ok(step) ==> step@ matches DeployStepSpec::RunBuild { program, args }
            && program == tokens_of(app.build_command@)[0] && args == tokens_of(
            app.build_command@,
        ).skip(1),
        r matches Err(e) ==> e matches DeployError::Config { .. },
{
    let mut tokens = tokenize(app.build_command.as_str());
    if tokens.len() == 0 {
        Err(DeployError::Config { message: String::from_str("build command is empty") })
    } else {
        let program = tokens.remove(0);
        proof {
            assert(tokens.deep_view() =~= tokens_of(app.build_command@).skip(1));
        }
        Ok(DeployStep::RunBuild { program, args: tokens })
    }
}

/// Whether the entrypoint must be uploaded on its own: it is declared and not
/// already among the packaged artifact paths.
pub fn entrypoint_needs_upload(app: &App) -> (r: bool)
    ensures
        r == match app.entrypoint {
            Some(e) => !contains_str(app.artifacts.deep_view(), e@),
            None => false,
        },
{
    match &app.entrypoint {
        None => false,
        Some(e) => !contains_string(&app.artifacts, e),
    }
}

/// The bytes of an optional buffer.
pub open spec fn opt_bytes(o: Option<Vec<u8>>) -> Option<Seq<u8>> {
    match o {
        Some(d) => Some(d@),
        None => None,
    }
}

/// The inner bytes, empty when absent.
pub open spec fn opt_or_empty(o: Option<Seq<u8>>) -> Seq<u8> {
    match o {
        Some(d) => d,
        None => Seq::empty(),
    }
}

/// The full ordered step list of one deploy run: write the archive locally,
/// connect, ensure the remote directory, upload, extract, activate, close.
/// Activation uploads the entrypoint only when it is not already an artifact,
/// always followed by the permission change; without an entrypoint it
/// rebuilds and restarts the container stack instead.
pub open spec fn plan_spec(
    app: App,
    host: Host,
    archive: Seq<u8>,
    entry_data: Option<Seq<u8>>,
) -> Seq<DeployStepSpec> {
    let archive_remote = join_of(app.host_path@, base_name_of(app.build_output_file@));
    let base = seq![
        DeployStepSpec::WriteArchive { local_path: app.build_output_file@, bytes: archive },
        DeployStepSpec::Connect {
            key_path: host.key_path@,
            url: url_of(host.user@, host.host@, host.port),
        },
        DeployStepSpec::EnsureRemoteDir { path: app.host_path@ },
        DeployStepSpec::UploadFile { remote_path: archive_remote, bytes: archive },
        DeployStepSpec::ExtractArchive { archive_path: archive_remote, dest_dir: app.host_path@ },
    ];
    let tail = seq![DeployStepSpec::CloseTransfer, DeployStepSpec::CloseSession];
    match app.entrypoint {
        Some(e) => {
            let ep_remote = join_of(app.host_path@, base_name_of(e@));
            if contains_str(app.artifacts.deep_view(), e@) {
                base + seq![DeployStepSpec::SetExecutable { remote_path: ep_remote }] + tail
            } else {
                base + seq![
                    DeployStepSpec::UploadFile {
                        remote_path: ep_remote,
                        bytes: opt_or_empty(entry_data),
                    },
                    DeployStepSpec::SetExecutable { remote_path: ep_remote },
                ] + tail
            }
        },
        None => base + seq![
            DeployStepSpec::OrchestrateRebuild { dir: app.host_path@ },
            DeployStepSpec::OrchestrateUp { dir: app.host_path@ },
        ] + tail,
    }
}

/// What a well-formed plan needs of the descriptor: an archive file name, an
/// entrypoint file name where one is declared, and the entrypoint's bytes
/// where it must be uploaded.
pub open spec fn plan_inputs_ok(app: App, entry_data: Option<Seq<u8>>) -> bool {
    &&& base_name_of(app.build_output_file@).len() > 0
    &&& match app.entrypoint {
        Some(e) => base_name_of(e@).len() > 0 && (!contains_str(app.artifacts.deep_view(), e@)
            ==> entry_data is Some),
        None => true,
    }
}

/// Builds the ordered step list for one deploy run over the already encoded
/// archive bytes; `entry_data` holds the entrypoint file's bytes when it must
/// be uploaded on its own.
pub fn deploy_plan(
    app: &App,
    host: &Host,
    archive: &Vec<u8>,
    entry_data: Option<Vec<u8>>,
) -> (r: Result<Vec<DeployStep>, DeployError>)
    ensures
        r is Ok <==> plan_inputs_ok(*app, opt_bytes(entry_data)),
        r matches Ok(steps) ==> steps.deep_view() == plan_spec(
            *app,
            *host,
            archive@,
            opt_bytes(entry_data),
        ),
        r matches Err(e) ==> e matches DeployError::Config { .. },
{
    let archive_name = match base_name(app.build_output_file.as_str()) {
        Some(n) => n,
        None => {
            return Err(
                DeployError::Config {
                    message: String::from_str("build output file has no base name"),
                },
            );
        },
    };
    let archive_remote = path_join(&app.host_path, &archive_name);
    let mut steps: Vec<DeployStep> = Vec::new();
    steps.push(
        DeployStep::WriteArchive {
            local_path: app.build_output_file.clone(),
            bytes: crate::archive::clone_bytes(archive),
        },
    );
    steps.push(
        DeployStep::Connect { key_path: host.key_path.clone(), url: host.to_url() },
    );
    steps.push(DeployStep::EnsureRemoteDir { path: app.host_path.clone() });
    steps.push(
        DeployStep::UploadFile {
            remote_path: archive_remote.clone(),
            bytes: crate::archive::clone_bytes(archive),
        },
    );
    steps.push(
        DeployStep::ExtractArchive { archive_path: archive_remote, dest_dir: app.host_path.clone() },
    );
    match &app.entrypoint {
        Some(e) => {
            let ep_name = match base_name(e.as_str()) {
                Some(n) => n,
                None => {
                    return Err(
                        DeployError::Config {
                            message: String::from_str("entrypoint has no base name"),
                        },
                    );
                },
            };
            let ep_remote = path_join(&app.host_path, &ep_name);
            if !contains_string(&app.artifacts, e) {
                match entry_data {
                    Some(d) => {
                        steps.push(
                            DeployStep::UploadFile { remote_path: ep_remote.clone(), bytes: d },
                        );
                    },
                    None => {
                        return Err(
                            DeployError::Config {
                                message: String::from_str("entrypoint bytes are missing"),
                            },
                        );
                    },
                }
            }
            steps.push(DeployStep::SetExecutable { remote_path: ep_remote });
        },
        None => {
            steps.push(DeployStep::OrchestrateRebuild { dir: app.host_path.clone() });
            steps.push(DeployStep::OrchestrateUp { dir: app.host_path.clone() });
        },
    }
    steps.push(DeployStep::CloseTransfer);
    steps.push(DeployStep::CloseSession);
    proof {
        assert(steps.deep_view() =~= plan_spec(*app, *host, archive@, opt_bytes(entry_data)));
    }
    Ok(steps)
}

/// The remote command line a step runs: the program, the arguments passed
/// through unquoted (the shell conjunction that scopes the orchestration
/// commands to the remote directory), and the ordinary arguments. Steps that
/// run no remote command have none.
pub fn remote_invocation(step: &DeployStep) -> (r: Option<(String, Vec<String>, Vec<String>)>)
    ensures
        match step@ {
            DeployStepSpec::EnsureRemoteDir { path } => r matches Some(t) && t.0@ == "mkdir"@
                && t.1.deep_view() == Seq::<Seq<char>>::empty() && t.2.deep_view() == seq![
                "-p"@,
                path,
            ],
            DeployStepSpec::ExtractArchive { archive_path, dest_dir } => r matches Some(t)
                && t.0@ == "unzip"@ && t.1.deep_view() == Seq::<Seq<char>>::empty()
                && t.2.deep_view() == seq!["-o"@, archive_path, "-d"@, dest_dir],
            DeployStepSpec::OrchestrateRebuild { dir } => r matches Some(t) && t.0@ == "cd"@
                && t.1.deep_view() == seq![dir, "&&"@] && t.2.deep_view() == seq![
                "COMPOSE_STATUS_STDOUT=1"@,
                "docker-compose"@,
                "build"@,
            ],
            DeployStepSpec::OrchestrateUp { dir } => r matches Some(t) && t.0@ == "cd"@
                && t.1.deep_view() == seq![dir, "&&"@] && t.2.deep_view() == seq![
                "docker-compose"@,
                "up"@,
                "-d"@,
            ],
            _ => r is None,
        },
{
    match step {
        DeployStep::EnsureRemoteDir { path } => {
            let mut args: Vec<String> = Vec::new();
            args.push(String::from_str("-p"));
            args.push(path.clone());
            let raw: Vec<String> = Vec::new();
            proof {
                assert(raw.deep_view() =~= Seq::<Seq<char>>::empty());
                assert(args.deep_view() =~= seq!["-p"@, path@]);
            }
            Some((String::from_str("mkdir"), raw, args))
        },
        DeployStep::ExtractArchive { archive_path, dest_dir } => {
            let mut args: Vec<String> = Vec::new();
            args.push(String::from_str("-o"));
            args.push(archive_path.clone());
            args.push(String::from_str("-d"));
            args.push(dest_dir.clone());
            let raw: Vec<String> = Vec::new();
            proof {
                assert(raw.deep_view() =~= Seq::<Seq<char>>::empty());
                assert(args.deep_view() =~= seq!["-o"@, archive_path@, "-d"@, dest_dir@]);
            }
            Some((String::from_str("unzip"), raw, args))
        },
        DeployStep::OrchestrateRebuild { dir } => {
            let mut raw: Vec<String> = Vec::new();
            raw.push(dir.clone());
            raw.push(String::from_str("&&"));
            let mut args: Vec<String> = Vec::new();
            args.push(String::from_str("COMPOSE_STATUS_STDOUT=1"));
            args.push(String::from_str("docker-compose"));
            args.push(String::from_str("build"));
            proof {
                assert(raw.deep_view() =~= seq![dir@, "&&"@]);
                assert(args.deep_view() =~= seq![
                    "COMPOSE_STATUS_STDOUT=1"@,
                    "docker-compose"@,
                    "build"@,
                ]);
            }
            Some((String::from_str("cd"), raw, args))
        },
        DeployStep::OrchestrateUp { dir } => {
            let mut raw: Vec<String> = Vec::new();
            raw.push(dir.clone());
            raw.push(String::from_str("&&"));
            let mut args: Vec<String> = Vec::new();
            args.push(String::from_str("docker-compose"));
            args.push(String::from_str("up"));
            args.push(String::from_str("-d"));
            proof {
                assert(raw.deep_view() =~= seq![dir@, "&&"@]);
                assert(args.deep_view() =~= seq!["docker-compose"@, "up"@, "-d"@]);
            }
            Some((String::from_str("cd"), raw, args))
        },
        _ => None,
    }
}

/// Entrypoint law, first half: an entrypoint already among the artifacts is
/// never uploaded on its own; the plan's only activation step is the
/// permission change on its remote path.
pub proof fn lemma_entrypoint_no_reupload(
    app: App,
    host: Host,
    archive: Seq<u8>,
    entry_data: Option<Seq<u8>>,
    e: String,
)
    requires
        app.entrypoint == Some(e),
        contains_str(app.artifacts.deep_view(), e@),
    ensures
        ({
            let steps = plan_spec(app, host, archive, entry_data);
            let ep_remote = join_of(app.host_path@, base_name_of(e@));
            steps.len() == 8 && steps[5] == (DeployStepSpec::SetExecutable {
                remote_path: ep_remote,
            }) && forall|i: int|
                0 <= i < steps.len() && i != 3 ==> !(#[trigger] steps[i]
                    matches DeployStepSpec::UploadFile { .. })
        }),
{
}

/// Entrypoint law, second half: an entrypoint not among the artifacts is
/// first uploaded to its remote path and the permission change follows as the
/// very next step.
pub proof fn lemma_entrypoint_upload_then_chmod(
    app: App,
    host: Host,
    archive: Seq<u8>,
    entry_data: Option<Seq<u8>>,
    e: String,
)
    requires
        app.entrypoint == Some(e),
        !contains_str(app.artifacts.deep_view(), e@),
    ensures
        ({
            let steps = plan_spec(app, host, archive, entry_data);
            let ep_remote = join_of(app.host_path@, base_name_of(e@));
            steps.len() == 9 && steps[5] == (DeployStepSpec::UploadFile {
                remote_path: ep_remote,
                bytes: opt_or_empty(entry_data),
            }) && steps[6] == (DeployStepSpec::SetExecutable { remote_path: ep_remote })
        }),
{
}

} // verus!
