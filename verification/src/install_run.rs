//! The run of an install job as a sequence of steps: each step takes the
//! outcome of the outside work asked for last (an event), updates the job
//! state and names the outside work to do next (an action). The caller
//! performs the actions, in the order the steps give them.

use vstd::prelude::*;
use crate::install_model::{
    InstallJobState, InstallJobStateView, InstallRequest, InstallPhaseId, InstallPhaseDetails,
    InstallProgressState, InstallPauseReason, InstallJobDisplay, InstallRollbackState,
    InstallCleanup, InstallContinuationState, InstallJobEventKind, InstanceSnapshot,
    clone_option_string,
};
use crate::install_jobs::{InstallJobError, target_instance_id, current_instance_id, begin_existing_rollback};
use crate::install_errors::InstallError;
use crate::install_requests::{
    InstanceLink, ProjectFile, InstallPostInstallEdit, pack_source_of,
    is_disabled_project, edit_is_empty, modpack_phase_details, curseforge_key_text,
    world_path_text, world_url_text, parse_curseforge_ids, post_install_edit_needed, modpack_details,
    content_install_project_ids, curseforge_project_key, curseforge_world_manual_download,
    single_missing_file_pause, check_update_downloads, disabled_projects_to_keep,
};
use crate::loader::InstalledCurseForgeFile;
use crate::text::{decimal, decimal_string, parsed_u32, strictly_sorted, view_set, views};

verus! {

/// A CurseForge world that has to be downloaded by hand.
#[derive(Debug)]
pub struct ManualWorldDownload {
    pub project_id: u32,
    pub file_id: u32,
    pub file_name: String,
    pub project_slug: String,
    pub website_url: Option<String>,
}

/// The outcome of the outside work a run asked for last.
#[derive(Debug)]
pub enum RunEvent {
    /// The run begins (also when a paused job is resumed).
    Started,
    /// The job's progress was stored and reported.
    ProgressStored,
    /// The instance was marked as having its pack installed.
    PackInstallingMarked,
    /// The CurseForge modpack was installed; `pause` is set when it needs
    /// manual downloads the job has not skipped.
    CurseForgeModpackInstalled { pause: Option<InstallPauseReason> },
    /// Minecraft and the loader are installed.
    MinecraftInstalled,
    /// The adjunct loaders are installed.
    AdjunctsInstalled,
    /// The modpack was installed, or needs the user (`pause`).
    PackInstalled { pause: Option<InstallPauseReason> },
    /// The user's edits were applied to the instance.
    PostInstallEditApplied,
    /// The instance was imported.
    InstanceImported,
    /// The source instance was copied.
    InstanceCopied,
    /// The upgrade of the instance finished.
    UpgradeFinished,
    /// The existing instance was read, if it exists.
    InstanceRead { instance: Option<InstanceSnapshot> },
    /// The existing instance was marked as installing.
    MinecraftInstallingMarked,
    /// The content of the instance's current pack was snapshotted for the
    /// rollback; `link` is the instance's link and `project_files` its files.
    PackContentRemoved { link: InstanceLink, project_files: Vec<ProjectFile> },
    /// The job's continuation was stored.
    ContinuationStored,
    /// The projects disabled before the pack install are enabled again.
    DisabledProjectsRestored,
    /// The content install plan was resolved, with these dependencies.
    ContentPlanResolved { dependency_project_ids: Vec<String> },
    /// The content install plan was installed.
    ContentPlanInstalled { dependency_project_ids: Vec<String> },
    /// The finished content install was reported.
    ContentInstallReported,
    /// The CurseForge file was installed, with these files.
    CurseForgeFileInstalled { installed: Vec<InstalledCurseForgeFile> },
    /// Whether the world was already imported by hand.
    WorldImportChecked { imported_manually: bool },
    /// The world was installed, or needs a manual download.
    WorldInstalled { manual_download: Option<ManualWorldDownload> },
    /// The managed modpack was updated; `failed_downloads` files failed and
    /// `pause` is set when it needs manual downloads.
    ModpackUpdated { failed_downloads: u64, pause: Option<InstallPauseReason> },
    /// The Java runtime was downloaded.
    JavaDownloaded,
}

/// The outside work a run asks for next.
#[derive(Debug)]
pub enum RunAction {
    /// Store and report the job's progress, as the job state now holds it.
    StoreProgress,
    /// Mark the instance as having its pack installed, and report it.
    MarkPackInstalling { instance_id: String },
    /// Install a CurseForge modpack file, installing Minecraft alongside.
    InstallCurseForgeModpack { instance_id: String, project_id: u32, file_id: u32 },
    /// Wait for the Minecraft install started alongside the modpack.
    JoinMinecraftInstall,
    /// Install Minecraft and the loader of the instance.
    InstallMinecraft { instance_id: String, force: bool },
    /// Install the adjunct loaders of the request.
    InstallAdjuncts { instance_id: String },
    /// Install the request's modpack into the instance.
    InstallPack { instance_id: String },
    /// Apply the request's edits to the instance.
    ApplyPostInstallEdit { instance_id: String },
    /// Import the instance the request names.
    ImportInstance { instance_id: String },
    /// Copy the game directory of another instance.
    CopyInstance { instance_id: String, source_instance_id: String },
    /// Upgrade an unmanaged instance into the target instance.
    RunUpgrade { source_instance_id: String, instance_id: String },
    /// Read an existing instance.
    ReadInstance { instance_id: String },
    /// Mark an existing instance as installing, and report it.
    MarkMinecraftInstalling { instance_id: String },
    /// Snapshot the content of the instance's current pack for the rollback.
    RemovePackContent { instance_id: String },
    /// Store the job's continuation, as the job state now holds it.
    StoreContinuation,
    /// Enable again the files of these projects.
    RestoreDisabledProjects { instance_id: String, project_ids: Vec<String> },
    /// Resolve the plan of a content install.
    ResolveContentPlan { instance_id: String },
    /// Install the resolved plan, counting `total` projects.
    InstallContentPlan { instance_id: String, total: u64 },
    /// Report the finished content install.
    ReportContentInstalled {
        instance_id: String,
        project_ids: Vec<String>,
        dependency_project_ids: Vec<String>,
    },
    /// Install the CurseForge file of the request.
    InstallCurseForgeFile { instance_id: String },
    /// Check whether the world was already imported by hand.
    CheckWorldImport,
    /// Install the CurseForge world of the request.
    InstallWorld { instance_id: String },
    /// Update the managed CurseForge modpack to `file_id`.
    UpdateModpack { instance_id: String, file_id: u32 },
    /// Download the Java runtime.
    DownloadJava { vendor: String, version: u32 },
    /// Stop the Minecraft install started alongside, if `abort_minecraft`,
    /// and wait for the user.
    Wait { pause: InstallPauseReason, abort_minecraft: bool },
    /// The job is done; it worked on `instance_id`.
    Complete { instance_id: Option<String> },
    /// The job is refused.
    Refuse { error: InstallJobError },
    /// The job failed.
    Fail { error: InstallError },
    /// The event does not answer what the job asked for; nothing changes.
    Unexpected,
}

/// `j` with its progress set to `phase` and `details`, no count.
pub open spec fn with_progress(
    j: InstallJobStateView,
    phase: InstallPhaseId,
    details: InstallPhaseDetails,
) -> InstallJobStateView {
    InstallJobStateView {
        progress: InstallProgressState {
            phase,
            progress: None,
            details,
            parallel: j.progress.parallel,
        },
        ..j
    }
}

fn set_progress(job_state: &mut InstallJobState, phase: InstallPhaseId, details: InstallPhaseDetails)
    ensures
        final(job_state)@ == with_progress(old(job_state)@, phase, details),
{
    job_state.progress.phase = phase;
    job_state.progress.progress = None;
    job_state.progress.details = details;
}

/// The action after a pack install finished: the user's edits, if any,
/// then completion.
pub open spec fn after_pack(edit: Option<InstallPostInstallEdit>, id: String) -> RunAction {
    if edit matches Some(e) && !edit_is_empty(e) {
        RunAction::ApplyPostInstallEdit { instance_id: id }
    } else {
        RunAction::Complete { instance_id: Some(id) }
    }
}

fn after_pack_action(edit: &Option<InstallPostInstallEdit>, id: String) -> (a: RunAction)
    ensures
        a == after_pack(*edit, id),
{
    if post_install_edit_needed(edit) {
        RunAction::ApplyPostInstallEdit { instance_id: id }
    } else {
        RunAction::Complete { instance_id: Some(id) }
    }
}

/// The action for the ids of a CurseForge modpack link: `ok` with the ids,
/// or the refusal of the first id that is not a number.
pub open spec fn curseforge_ids_action(
    project_id: String,
    version_id: String,
    id: String,
    install: bool,
) -> RunAction {
    match (parsed_u32(project_id@), parsed_u32(version_id@)) {
        (None, _) => RunAction::Refuse { error: InstallJobError::InvalidCurseForgeProjectId },
        (Some(_), None) => RunAction::Refuse { error: InstallJobError::InvalidCurseForgeFileId },
        (Some(p), Some(f)) => if install {
            RunAction::InstallCurseForgeModpack { instance_id: id, project_id: p, file_id: f }
        } else {
            RunAction::MarkPackInstalling { instance_id: id }
        },
    }
}

fn curseforge_ids_step(project_id: &String, version_id: &String, id: String, install: bool) -> (a:
    RunAction)
    ensures
        a == curseforge_ids_action(*project_id, *version_id, id, install),
{
    match parse_curseforge_ids(project_id.as_str(), version_id.as_str()) {
        Err(error) => RunAction::Refuse { error },
        Ok((p, f)) => if install {
            RunAction::InstallCurseForgeModpack { instance_id: id, project_id: p, file_id: f }
        } else {
            RunAction::MarkPackInstalling { instance_id: id }
        },
    }
}

/// A step of a job that creates an instance.
pub open spec fn create_step(
    j0: InstallJobStateView,
    event: RunEvent,
    j1: InstallJobStateView,
    action: RunAction,
) -> bool {
    match j0.request {
        InstallRequest::CreateInstance { name, game_version, loader, link, .. } => match target_instance_id(j0.target) {
            None => j1 == j0 && action == RunAction::Refuse { error: InstallJobError::MissingInstanceId },
            Some(id) => match event {
                RunEvent::Started => j1 == with_progress(
                    j0,
                    InstallPhaseId::PreparingInstance,
                    InstallPhaseDetails::Instance { name },
                ) && action == RunAction::StoreProgress,
                RunEvent::ProgressStored => if j0.progress.phase == InstallPhaseId::PreparingInstance {
                    match link {
                        InstanceLink::CurseForgeModpack { project_id, version_id } => j1 == j0 && action
                            == curseforge_ids_action(project_id, version_id, id, false),
                        _ => j1 == with_progress(
                            j0,
                            InstallPhaseId::DownloadingMinecraft,
                            InstallPhaseDetails::Minecraft { game_version, loader },
                        ) && action == RunAction::StoreProgress,
                    }
                } else if j0.progress.phase == InstallPhaseId::DownloadingMinecraft {
                    j1 == j0 && action == RunAction::InstallMinecraft { instance_id: id, force: false }
                } else {
                    j1 == j0 && action == RunAction::Unexpected
                },
                RunEvent::PackInstallingMarked => j1 == j0 && match link {
                    InstanceLink::CurseForgeModpack { project_id, version_id } => action
                        == curseforge_ids_action(project_id, version_id, id, true),
                    _ => action == RunAction::Unexpected,
                },
                RunEvent::CurseForgeModpackInstalled { pause } => j1 == j0 && match pause {
                    Some(p) => action == RunAction::Wait { pause: p, abort_minecraft: true },
                    None => action == RunAction::JoinMinecraftInstall,
                },
                RunEvent::MinecraftInstalled => j1 == j0 && action == RunAction::InstallAdjuncts {
                    instance_id: id,
                },
                RunEvent::AdjunctsInstalled => j1 == j0 && action == RunAction::Complete {
                    instance_id: Some(id),
                },
                _ => j1 == j0 && action == RunAction::Unexpected,
            },
        },
        _ => false,
    }
}

fn create_run(job_state: &mut InstallJobState, event: RunEvent) -> (action: RunAction)
    requires
        old(job_state).request is CreateInstance,
    ensures
        create_step(old(job_state)@, event, final(job_state)@, action),
{
    let id = match current_instance_id(job_state) {
        None => return RunAction::Refuse { error: InstallJobError::MissingInstanceId },
        Some(id) => id,
    };
    let (name, game_version, loader, link) = match &job_state.request {
        InstallRequest::CreateInstance { name, game_version, loader, link, .. } => (
            name.clone(),
            game_version.clone(),
            *loader,
            link,
        ),
        _ => { return RunAction::Unexpected; },
    };
    let cf = match link {
        InstanceLink::CurseForgeModpack { project_id, version_id } => Some(
            (project_id.clone(), version_id.clone()),
        ),
        _ => None,
    };
    match event {
        RunEvent::Started => {
            set_progress(job_state, InstallPhaseId::PreparingInstance, InstallPhaseDetails::Instance { name });
            RunAction::StoreProgress
        },
        RunEvent::ProgressStored => {
            if job_state.progress.phase == InstallPhaseId::PreparingInstance {
                match cf {
                    Some((p, v)) => curseforge_ids_step(&p, &v, id, false),
                    None => {
                        set_progress(
                            job_state,
                            InstallPhaseId::DownloadingMinecraft,
                            InstallPhaseDetails::Minecraft { game_version, loader },
                        );
                        RunAction::StoreProgress
                    },
                }
            } else if job_state.progress.phase == InstallPhaseId::DownloadingMinecraft {
                RunAction::InstallMinecraft { instance_id: id, force: false }
            } else {
                RunAction::Unexpected
            }
        },
        RunEvent::PackInstallingMarked => match cf {
            Some((p, v)) => curseforge_ids_step(&p, &v, id, true),
            None => RunAction::Unexpected,
        },
        RunEvent::CurseForgeModpackInstalled { pause } => match pause {
            Some(p) => RunAction::Wait { pause: p, abort_minecraft: true },
            None => RunAction::JoinMinecraftInstall,
        },
        RunEvent::MinecraftInstalled => RunAction::InstallAdjuncts { instance_id: id },
        RunEvent::AdjunctsInstalled => RunAction::Complete { instance_id: Some(id) },
        _ => RunAction::Unexpected,
    }
}

/// A step of a job that creates an instance from a modpack.
pub open spec fn modpack_step(
    j0: InstallJobStateView,
    event: RunEvent,
    j1: InstallJobStateView,
    action: RunAction,
) -> bool {
    match j0.request {
        InstallRequest::CreateModpackInstance { location, post_install_edit } => match target_instance_id(
            j0.target,
        ) {
            None => j1 == j0 && action == RunAction::Refuse { error: InstallJobError::MissingInstanceId },
            Some(id) => match event {
                RunEvent::Started => j1 == with_progress(
                    j0,
                    InstallPhaseId::ResolvingPack,
                    modpack_phase_details(location),
                ) && action == RunAction::StoreProgress,
                RunEvent::ProgressStored => j1 == j0 && action == RunAction::InstallPack { instance_id: id },
                RunEvent::PackInstalled { pause } => j1 == j0 && match pause {
                    Some(p) => action == RunAction::Wait { pause: p, abort_minecraft: false },
                    None => action == after_pack(post_install_edit, id),
                },
                RunEvent::PostInstallEditApplied => j1 == j0 && action == RunAction::Complete {
                    instance_id: Some(id),
                },
                _ => j1 == j0 && action == RunAction::Unexpected,
            },
        },
        _ => false,
    }
}

fn modpack_run(job_state: &mut InstallJobState, event: RunEvent) -> (action: RunAction)
    requires
        old(job_state).request is CreateModpackInstance,
    ensures
        modpack_step(old(job_state)@, event, final(job_state)@, action),
{
    let id = match current_instance_id(job_state) {
        None => return RunAction::Refuse { error: InstallJobError::MissingInstanceId },
        Some(id) => id,
    };
    match event {
        RunEvent::Started => {
            let details = match &job_state.request {
                InstallRequest::CreateModpackInstance { location, .. } => modpack_details(location),
                _ => { return RunAction::Unexpected; },
            };
            set_progress(job_state, InstallPhaseId::ResolvingPack, details);
            RunAction::StoreProgress
        },
        RunEvent::ProgressStored => RunAction::InstallPack { instance_id: id },
        RunEvent::PackInstalled { pause } => match pause {
            Some(p) => RunAction::Wait { pause: p, abort_minecraft: false },
            None => match &job_state.request {
                InstallRequest::CreateModpackInstance { post_install_edit, .. } => after_pack_action(
                    post_install_edit,
                    id,
                ),
                _ => RunAction::Unexpected,
            },
        },
        RunEvent::PostInstallEditApplied => RunAction::Complete { instance_id: Some(id) },
        _ => RunAction::Unexpected,
    }
}

/// A step of a job that imports or copies an instance.
pub open spec fn import_step(
    j0: InstallJobStateView,
    event: RunEvent,
    j1: InstallJobStateView,
    action: RunAction,
) -> bool {
    match target_instance_id(j0.target) {
        None => j1 == j0 && action == RunAction::Refuse { error: InstallJobError::MissingInstanceId },
        Some(id) => match j0.request {
            InstallRequest::ImportInstance { launcher_type, instance_folder } => match event {
                RunEvent::Started => j1 == with_progress(
                    j0,
                    InstallPhaseId::PreparingInstance,
                    InstallPhaseDetails::Import { launcher_type, instance_folder },
                ) && action == RunAction::StoreProgress,
                RunEvent::ProgressStored => j1 == j0 && action == RunAction::ImportInstance {
                    instance_id: id,
                },
                RunEvent::InstanceImported => j1 == j0 && action == RunAction::Complete {
                    instance_id: Some(id),
                },
                _ => j1 == j0 && action == RunAction::Unexpected,
            },
            InstallRequest::DuplicateInstance { source_instance_id } => match event {
                RunEvent::Started => j1 == with_progress(
                    j0,
                    InstallPhaseId::PreparingInstance,
                    InstallPhaseDetails::Empty,
                ) && action == RunAction::StoreProgress,
                RunEvent::ProgressStored => j1 == j0 && action == RunAction::CopyInstance {
                    instance_id: id,
                    source_instance_id,
                },
                RunEvent::InstanceCopied => j1 == j0 && action == RunAction::InstallMinecraft {
                    instance_id: id,
                    force: false,
                },
                RunEvent::MinecraftInstalled => j1 == j0 && action == RunAction::Complete {
                    instance_id: Some(id),
                },
                _ => j1 == j0 && action == RunAction::Unexpected,
            },
            _ => false,
        },
    }
}

fn import_run(job_state: &mut InstallJobState, event: RunEvent) -> (action: RunAction)
    requires
        old(job_state).request is ImportInstance || old(job_state).request is DuplicateInstance,
    ensures
        import_step(old(job_state)@, event, final(job_state)@, action),
{
    let id = match current_instance_id(job_state) {
        None => return RunAction::Refuse { error: InstallJobError::MissingInstanceId },
        Some(id) => id,
    };
    let import = match &job_state.request {
        InstallRequest::ImportInstance { launcher_type, instance_folder } => Ok(
            (launcher_type.clone(), instance_folder.clone()),
        ),
        InstallRequest::DuplicateInstance { source_instance_id } => Err(source_instance_id.clone()),
        _ => { return RunAction::Unexpected; },
    };
    match import {
        Ok((launcher_type, instance_folder)) => match event {
            RunEvent::Started => {
                set_progress(
                    job_state,
                    InstallPhaseId::PreparingInstance,
                    InstallPhaseDetails::Import { launcher_type, instance_folder },
                );
                RunAction::StoreProgress
            },
            RunEvent::ProgressStored => RunAction::ImportInstance { instance_id: id },
            RunEvent::InstanceImported => RunAction::Complete { instance_id: Some(id) },
            _ => RunAction::Unexpected,
        },
        Err(source_instance_id) => match event {
            RunEvent::Started => {
                set_progress(job_state, InstallPhaseId::PreparingInstance, InstallPhaseDetails::Empty);
                RunAction::StoreProgress
            },
            RunEvent::ProgressStored => RunAction::CopyInstance { instance_id: id, source_instance_id },
            RunEvent::InstanceCopied => RunAction::InstallMinecraft { instance_id: id, force: false },
            RunEvent::MinecraftInstalled => RunAction::Complete { instance_id: Some(id) },
            _ => RunAction::Unexpected,
        },
    }
}

/// A step of a job that upgrades an unmanaged instance.
pub open spec fn upgrade_step(
    j0: InstallJobStateView,
    event: RunEvent,
    j1: InstallJobStateView,
    action: RunAction,
) -> bool {
    match j0.request {
        InstallRequest::UpgradeUnmanagedInstance { instance_id: source, .. } => j1 == j0 && match target_instance_id(
            j0.target,
        ) {
            None => action == RunAction::Refuse { error: InstallJobError::MissingUpgradeTarget },
            Some(id) => match event {
                RunEvent::Started => action == RunAction::RunUpgrade {
                    source_instance_id: source,
                    instance_id: id,
                },
                RunEvent::UpgradeFinished => action == RunAction::Complete { instance_id: Some(id) },
                _ => action == RunAction::Unexpected,
            },
        },
        _ => false,
    }
}

fn upgrade_run(job_state: &mut InstallJobState, event: RunEvent) -> (action: RunAction)
    requires
        old(job_state).request is UpgradeUnmanagedInstance,
    ensures
        upgrade_step(old(job_state)@, event, final(job_state)@, action),
{
    let id = match current_instance_id(job_state) {
        None => return RunAction::Refuse { error: InstallJobError::MissingUpgradeTarget },
        Some(id) => id,
    };
    match event {
        RunEvent::Started => match &job_state.request {
            InstallRequest::UpgradeUnmanagedInstance { instance_id, .. } => RunAction::RunUpgrade {
                source_instance_id: instance_id.clone(),
                instance_id: id,
            },
            _ => RunAction::Unexpected,
        },
        RunEvent::UpgradeFinished => RunAction::Complete { instance_id: Some(id) },
        _ => RunAction::Unexpected,
    }
}

/// The job state after the rollback of an existing instance, read as
/// `instance`, is prepared.
pub open spec fn rollback_prepared(j: InstallJobStateView, instance: InstanceSnapshot) -> InstallJobStateView {
    InstallJobStateView {
        display: Some(InstallJobDisplay { title: instance.name, icon: instance.icon_path }),
        cleanup: InstallCleanup::RestoreExistingInstance { instance_id: instance.instance_id },
        rollback: Some(InstallRollbackState { instance, install_stage: instance.install_stage }),
        ..j
    }
}

/// The instance a job on an existing instance changes.
pub open spec fn existing_instance_id(r: InstallRequest) -> String {
    match r {
        InstallRequest::InstallExistingInstance { instance_id, .. } => instance_id,
        InstallRequest::InstallPackToExistingInstance { instance_id, .. } => instance_id,
        InstallRequest::UpdateManagedCurseForgeModpack { instance_id, .. } => instance_id,
        _ => arbitrary(),
    }
}

/// Whether a request changes an existing instance.
pub open spec fn is_existing_request(r: InstallRequest) -> bool {
    r is InstallExistingInstance || r is InstallPackToExistingInstance
        || r is UpdateManagedCurseForgeModpack
}

/// The first step of a job on an existing instance once its rollback is
/// prepared.
pub open spec fn existing_begin(j0: InstallJobStateView, j1: InstallJobStateView, action: RunAction) -> bool {
    let id = existing_instance_id(j0.request);
    match j0.request {
        InstallRequest::InstallExistingInstance { .. } => j1 == with_progress(
            j0,
            InstallPhaseId::DownloadingMinecraft,
            InstallPhaseDetails::Empty,
        ) && action == RunAction::StoreProgress,
        InstallRequest::InstallPackToExistingInstance { .. } => j1 == j0 && if j0.continuation is Some {
            action == RunAction::InstallPack { instance_id: id }
        } else {
            action == RunAction::RemovePackContent { instance_id: id }
        },
        _ => j1 == j0 && action == RunAction::MarkPackInstalling { instance_id: id },
    }
}

/// The projects kept in a continuation, if any.
pub open spec fn continued_projects(c: Option<InstallContinuationState>) -> Seq<String> {
    match c {
        Some(InstallContinuationState::InstallingPackToExistingInstance { disabled_project_ids }) =>
            disabled_project_ids@,
        None => Seq::empty(),
    }
}

/// A step of a job that changes an existing instance.
pub open spec fn existing_step(
    j0: InstallJobStateView,
    event: RunEvent,
    j1: InstallJobStateView,
    action: RunAction,
) -> bool {
    let id = existing_instance_id(j0.request);
    match event {
        RunEvent::Started => if j0.rollback is Some {
            existing_begin(j0, j1, action)
        } else {
            j1 == j0 && action == RunAction::ReadInstance { instance_id: id }
        },
        RunEvent::InstanceRead { instance } => if j0.rollback is Some {
            j1 == j0 && action == RunAction::Unexpected
        } else {
            match instance {
                None => j1 == j0 && action == RunAction::Refuse {
                    error: InstallJobError::UnknownInstance { instance_id: id },
                },
                Some(snapshot) => j1 == rollback_prepared(j0, snapshot) && action
                    == RunAction::MarkMinecraftInstalling { instance_id: id },
            }
        },
        RunEvent::MinecraftInstallingMarked => existing_begin(j0, j1, action),
        _ => match j0.request {
            InstallRequest::InstallExistingInstance { force, .. } => j1 == j0 && match event {
                RunEvent::ProgressStored => action == RunAction::InstallMinecraft { instance_id: id, force },
                RunEvent::MinecraftInstalled => action == RunAction::Complete { instance_id: Some(id) },
                _ => action == RunAction::Unexpected,
            },
            InstallRequest::InstallPackToExistingInstance { post_install_edit, .. } => match event {
                RunEvent::PackContentRemoved { link, project_files } => if j0.continuation is None {
                    &&& j1 == (InstallJobStateView { continuation: j1.continuation, ..j0 })
                    &&& action == RunAction::StoreContinuation
                    &&& j1.continuation matches Some(
                        InstallContinuationState::InstallingPackToExistingInstance {
                            disabled_project_ids,
                        },
                    )
                    &&& !(pack_source_of(link) is Version) ==> disabled_project_ids@.len() == 0
                    &&& pack_source_of(link) is Version ==> {
                        &&& strictly_sorted(disabled_project_ids@)
                        &&& forall|p: Seq<char>|
                            #[trigger] view_set(disabled_project_ids@).contains(p)
                                <==> is_disabled_project(project_files@, p)
                    }
                } else {
                    j1 == j0 && action == RunAction::Unexpected
                },
                RunEvent::ContinuationStored => j1 == j0 && if j0.continuation is Some {
                    action == RunAction::InstallPack { instance_id: id }
                } else {
                    action == after_pack(post_install_edit, id)
                },
                RunEvent::PackInstalled { pause } => j1 == j0 && match pause {
                    Some(p) => action == RunAction::Wait { pause: p, abort_minecraft: false },
                    None => action matches RunAction::RestoreDisabledProjects {
                        instance_id,
                        project_ids,
                    } && instance_id == id && project_ids@ == continued_projects(j0.continuation),
                },
                RunEvent::DisabledProjectsRestored => j1 == (InstallJobStateView {
                    continuation: None,
                    ..j0
                }) && action == RunAction::StoreContinuation,
                RunEvent::PostInstallEditApplied => j1 == j0 && action == RunAction::Complete {
                    instance_id: Some(id),
                },
                _ => j1 == j0 && action == RunAction::Unexpected,
            },
            InstallRequest::UpdateManagedCurseForgeModpack { file_id, .. } => match event {
                RunEvent::PackInstallingMarked => j1 == with_progress(
                    j0,
                    InstallPhaseId::DownloadingContent,
                    InstallPhaseDetails::Empty,
                ) && action == RunAction::StoreProgress,
                RunEvent::ProgressStored => j1 == j0 && action == RunAction::UpdateModpack {
                    instance_id: id,
                    file_id,
                },
                RunEvent::ModpackUpdated { failed_downloads, pause } => j1 == j0 && if failed_downloads
                    > 0 {
                    action matches RunAction::Fail { error } && error.kind is NetworkError
                        && error.message@ == decimal(failed_downloads as nat)
                        + " CurseForge files could not be downloaded automatically"@
                } else {
                    match pause {
                        Some(p) => action == RunAction::Wait { pause: p, abort_minecraft: false },
                        None => action == RunAction::Complete { instance_id: Some(id) },
                    }
                },
                _ => j1 == j0 && action == RunAction::Unexpected,
            },
            _ => false,
        },
    }
}

fn existing_id(job_state: &InstallJobState) -> (id: String)
    requires
        is_existing_request(job_state.request),
    ensures
        id == existing_instance_id(job_state.request),
{
    match &job_state.request {
        InstallRequest::InstallExistingInstance { instance_id, .. } => instance_id.clone(),
        InstallRequest::InstallPackToExistingInstance { instance_id, .. } => instance_id.clone(),
        InstallRequest::UpdateManagedCurseForgeModpack { instance_id, .. } => instance_id.clone(),
        _ => String::new(),
    }
}

fn existing_begin_run(job_state: &mut InstallJobState) -> (action: RunAction)
    requires
        is_existing_request(old(job_state).request),
    ensures
        existing_begin(old(job_state)@, final(job_state)@, action),
{
    let id = existing_id(job_state);
    match &job_state.request {
        InstallRequest::InstallExistingInstance { .. } => {
            set_progress(job_state, InstallPhaseId::DownloadingMinecraft, InstallPhaseDetails::Empty);
            RunAction::StoreProgress
        },
        InstallRequest::InstallPackToExistingInstance { .. } => if job_state.continuation.is_some() {
            RunAction::InstallPack { instance_id: id }
        } else {
            RunAction::RemovePackContent { instance_id: id }
        },
        _ => RunAction::MarkPackInstalling { instance_id: id },
    }
}

fn clone_projects(c: &Option<InstallContinuationState>) -> (ids: Vec<String>)
    ensures
        ids@ == continued_projects(*c),
{
    match c {
        Some(InstallContinuationState::InstallingPackToExistingInstance { disabled_project_ids }) => {
            let mut ids: Vec<String> = Vec::new();
            let mut i: usize = 0;
            while i < disabled_project_ids.len()
                invariant
                    i <= disabled_project_ids@.len(),
                    ids@ == disabled_project_ids@.take(i as int),
                decreases disabled_project_ids@.len() - i,
            {
                ids.push(disabled_project_ids[i].clone());
                assert(ids@ =~= disabled_project_ids@.take(i + 1));
                i += 1;
            }
            assert(disabled_project_ids@.take(disabled_project_ids@.len() as int) =~= disabled_project_ids@);
            ids
        },
        None => Vec::new(),
    }
}

fn existing_run(job_state: &mut InstallJobState, event: RunEvent) -> (action: RunAction)
    requires
        is_existing_request(old(job_state).request),
    ensures
        existing_step(old(job_state)@, event, final(job_state)@, action),
{
    let id = existing_id(job_state);
    match event {
        RunEvent::Started => if job_state.rollback.is_some() {
            existing_begin_run(job_state)
        } else {
            RunAction::ReadInstance { instance_id: id }
        },
        RunEvent::InstanceRead { instance } => if job_state.rollback.is_some() {
            RunAction::Unexpected
        } else {
            match instance {
                None => RunAction::Refuse { error: InstallJobError::UnknownInstance { instance_id: id } },
                Some(snapshot) => {
                    let _ = begin_existing_rollback(job_state, snapshot);
                    RunAction::MarkMinecraftInstalling { instance_id: id }
                },
            }
        },
        RunEvent::MinecraftInstallingMarked => existing_begin_run(job_state),
        event => {
            let kind = job_state.request.kind();
            match &job_state.request {
                InstallRequest::InstallExistingInstance { force, .. } => match event {
                    RunEvent::ProgressStored => RunAction::InstallMinecraft { instance_id: id, force: *force },
                    RunEvent::MinecraftInstalled => RunAction::Complete { instance_id: Some(id) },
                    _ => RunAction::Unexpected,
                },
                InstallRequest::InstallPackToExistingInstance { post_install_edit, .. } => match event {
                    RunEvent::PackContentRemoved { link, project_files } => if job_state.continuation.is_none() {
                        let disabled_project_ids = disabled_projects_to_keep(&link, &project_files);
                        job_state.continuation = Some(
                            InstallContinuationState::InstallingPackToExistingInstance {
                                disabled_project_ids,
                            },
                        );
                        RunAction::StoreContinuation
                    } else {
                        RunAction::Unexpected
                    },
                    RunEvent::ContinuationStored => if job_state.continuation.is_some() {
                        RunAction::InstallPack { instance_id: id }
                    } else {
                        after_pack_action(post_install_edit, id)
                    },
                    RunEvent::PackInstalled { pause } => match pause {
                        Some(p) => RunAction::Wait { pause: p, abort_minecraft: false },
                        None => RunAction::RestoreDisabledProjects {
                            instance_id: id,
                            project_ids: clone_projects(&job_state.continuation),
                        },
                    },
                    RunEvent::DisabledProjectsRestored => {
                        job_state.continuation = None;
                        RunAction::StoreContinuation
                    },
                    RunEvent::PostInstallEditApplied => RunAction::Complete { instance_id: Some(id) },
                    _ => RunAction::Unexpected,
                },
                InstallRequest::UpdateManagedCurseForgeModpack { file_id, .. } => {
                    let file_id = *file_id;
                    match event {
                        RunEvent::PackInstallingMarked => {
                            set_progress(
                                job_state,
                                InstallPhaseId::DownloadingContent,
                                InstallPhaseDetails::Empty,
                            );
                            RunAction::StoreProgress
                        },
                        RunEvent::ProgressStored => RunAction::UpdateModpack { instance_id: id, file_id },
                        RunEvent::ModpackUpdated { failed_downloads, pause } => {
                            match check_update_downloads(failed_downloads) {
                                Err(error) => RunAction::Fail { error },
                                Ok(()) => match pause {
                                    Some(p) => RunAction::Wait { pause: p, abort_minecraft: false },
                                    None => RunAction::Complete { instance_id: Some(id) },
                                },
                            }
                        },
                        _ => RunAction::Unexpected,
                    }
                },
                _ => RunAction::Unexpected,
            }
        },
    }
}

/// The project keys of the dependencies a CurseForge install brought, in
/// order.
pub open spec fn dependency_keys(installed: Seq<InstalledCurseForgeFile>) -> Seq<Seq<char>>
    decreases installed.len(),
{
    if installed.len() == 0 {
        Seq::empty()
    } else if installed.last().dependency {
        dependency_keys(installed.drop_last()).push(curseforge_key_text(installed.last().project_id))
    } else {
        dependency_keys(installed.drop_last())
    }
}

fn dependency_project_keys(installed: &Vec<InstalledCurseForgeFile>) -> (keys: Vec<String>)
    ensures
        views(keys@) == dependency_keys(installed@),
{
    let mut keys: Vec<String> = Vec::new();
    let mut i: usize = 0;
    while i < installed.len()
        invariant
            i <= installed@.len(),
            views(keys@) == dependency_keys(installed@.take(i as int)),
        decreases installed@.len() - i,
    {
        let ghost before = keys@;
        if installed[i].dependency {
            keys.push(curseforge_project_key(installed[i].project_id));
            assert(views(keys@) =~= views(before).push(keys@[before.len() as int]@));
        }
        assert(installed@.take(i + 1).drop_last() =~= installed@.take(i as int));
        i += 1;
    }
    assert(installed@.take(installed@.len() as int) =~= installed@);
    keys
}

/// A step of a job that installs content into an instance.
pub open spec fn content_step(
    j0: InstallJobStateView,
    event: RunEvent,
    j1: InstallJobStateView,
    action: RunAction,
) -> bool {
    match j0.request {
        InstallRequest::InstallContent { instance_id: id, project_id, .. } => match event {
            RunEvent::Started => j1 == with_progress(
                j0,
                InstallPhaseId::DownloadingContent,
                InstallPhaseDetails::Empty,
            ) && action == RunAction::StoreProgress,
            RunEvent::ProgressStored => j1 == j0 && action == RunAction::ResolveContentPlan {
                instance_id: id,
            },
            RunEvent::ContentPlanResolved { dependency_project_ids } => j1 == j0 && action
                == RunAction::InstallContentPlan {
                instance_id: id,
                total: if dependency_project_ids@.len() >= u64::MAX {
                    u64::MAX
                } else {
                    (dependency_project_ids@.len() + 1) as u64
                },
            },
            RunEvent::ContentPlanInstalled { dependency_project_ids } => j1 == j0 && (action matches RunAction::ReportContentInstalled {
                instance_id,
                project_ids,
                dependency_project_ids: deps,
            } && instance_id == id && project_ids@ == seq![project_id] + dependency_project_ids@
                && deps@ == dependency_project_ids@),
            RunEvent::ContentInstallReported => j1 == j0 && action == RunAction::Complete {
                instance_id: Some(id),
            },
            _ => j1 == j0 && action == RunAction::Unexpected,
        },
        InstallRequest::InstallCurseForgeContent { instance_id: id, project_id, .. } => match event {
            RunEvent::Started => j1 == with_progress(
                j0,
                InstallPhaseId::DownloadingContent,
                InstallPhaseDetails::Empty,
            ) && action == RunAction::StoreProgress,
            RunEvent::ProgressStored => j1 == j0 && action == RunAction::InstallCurseForgeFile {
                instance_id: id,
            },
            RunEvent::CurseForgeFileInstalled { installed } => j1 == j0 && (action matches RunAction::ReportContentInstalled {
                instance_id,
                project_ids,
                dependency_project_ids: deps,
            } && instance_id == id && views(project_ids@) == seq![curseforge_key_text(project_id)]
                + dependency_keys(installed@) && views(deps@) == dependency_keys(installed@)),
            RunEvent::ContentInstallReported => j1 == j0 && action == RunAction::Complete {
                instance_id: Some(id),
            },
            _ => j1 == j0 && action == RunAction::Unexpected,
        },
        _ => false,
    }
}

fn content_run(job_state: &mut InstallJobState, event: RunEvent) -> (action: RunAction)
    requires
        old(job_state).request is InstallContent || old(job_state).request is InstallCurseForgeContent,
    ensures
        content_step(old(job_state)@, event, final(job_state)@, action),
{
    let (id, modrinth) = match &job_state.request {
        InstallRequest::InstallContent { instance_id, project_id, .. } => (
            instance_id.clone(),
            Ok(project_id.clone()),
        ),
        InstallRequest::InstallCurseForgeContent { instance_id, project_id, .. } => (
            instance_id.clone(),
            Err(*project_id),
        ),
        _ => { return RunAction::Unexpected; },
    };
    match event {
        RunEvent::Started => {
            set_progress(job_state, InstallPhaseId::DownloadingContent, InstallPhaseDetails::Empty);
            RunAction::StoreProgress
        },
        RunEvent::ProgressStored => match modrinth {
            Ok(_) => RunAction::ResolveContentPlan { instance_id: id },
            Err(_) => RunAction::InstallCurseForgeFile { instance_id: id },
        },
        RunEvent::ContentPlanResolved { dependency_project_ids } => match modrinth {
            Ok(_) => RunAction::InstallContentPlan {
                instance_id: id,
                total: (dependency_project_ids.len() as u64).saturating_add(1),
            },
            Err(_) => RunAction::Unexpected,
        },
        RunEvent::ContentPlanInstalled { dependency_project_ids } => match modrinth {
            Ok(project_id) => {
                let project_ids = content_install_project_ids(project_id, &dependency_project_ids);
                RunAction::ReportContentInstalled {
                    instance_id: id,
                    project_ids,
                    dependency_project_ids,
                }
            },
            Err(_) => RunAction::Unexpected,
        },
        RunEvent::CurseForgeFileInstalled { installed } => match modrinth {
            Ok(_) => RunAction::Unexpected,
            Err(project_id) => {
                let deps = dependency_project_keys(&installed);
                let mut project_ids: Vec<String> = Vec::new();
                project_ids.push(curseforge_project_key(project_id));
                let mut i: usize = 0;
                while i < deps.len()
                    invariant
                        i <= deps@.len(),
                        views(project_ids@) == seq![curseforge_key_text(project_id)] + views(
                            deps@.take(i as int),
                        ),
                    decreases deps@.len() - i,
                {
                    let ghost before = project_ids@;
                    project_ids.push(deps[i].clone());
                    assert(views(project_ids@) =~= views(before).push(deps@[i as int]@));
                    assert(views(deps@.take(i + 1)) =~= views(deps@.take(i as int)).push(deps@[i as int]@));
                    assert(views(project_ids@) =~= seq![curseforge_key_text(project_id)] + views(
                        deps@.take(i + 1),
                    ));
                    i += 1;
                }
                assert(deps@.take(deps@.len() as int) =~= deps@);
                RunAction::ReportContentInstalled {
                    instance_id: id,
                    project_ids,
                    dependency_project_ids: deps,
                }
            },
        },
        RunEvent::ContentInstallReported => RunAction::Complete { instance_id: Some(id) },
        _ => RunAction::Unexpected,
    }
}

/// The reason recorded for a file that needs a manual download.
pub open spec fn manual_download_reason() -> Seq<char> {
    "CurseForge requires a manual download"@
}

/// A step of a job that installs a CurseForge world.
pub open spec fn world_step(
    j0: InstallJobStateView,
    event: RunEvent,
    j1: InstallJobStateView,
    action: RunAction,
) -> bool {
    match j0.request {
        InstallRequest::InstallCurseForgeWorld { instance_id: id, .. } => match event {
            RunEvent::Started => j1 == j0 && action == RunAction::CheckWorldImport,
            RunEvent::WorldImportChecked { imported_manually } => if imported_manually {
                j1 == j0 && action == RunAction::Complete { instance_id: Some(id) }
            } else {
                j1 == with_progress(j0, InstallPhaseId::DownloadingContent, InstallPhaseDetails::Empty)
                    && action == RunAction::StoreProgress
            },
            RunEvent::ProgressStored => j1 == j0 && action == RunAction::InstallWorld { instance_id: id },
            RunEvent::WorldInstalled { manual_download } => match manual_download {
                None => j1 == j0 && action == RunAction::Complete { instance_id: Some(id) },
                Some(m) => {
                    &&& j1 == (InstallJobStateView { events: j1.events, ..j0 })
                    &&& j1.events.drop_last() == j0.events
                    &&& j1.events.len() == j0.events.len() + 1
                    &&& j1.events.last() matches InstallJobEventKind::ContentFileSkipped {
                        path,
                        reason,
                        project_id,
                        version_id,
                        manual_url,
                    }
                    &&& path@ == world_path_text(m.file_name@)
                    &&& reason@ == manual_download_reason()
                    &&& project_id matches Some(p) && p@ == decimal(m.project_id as nat)
                    &&& version_id matches Some(v) && v@ == decimal(m.file_id as nat)
                    &&& manual_url matches Some(u) && u@ == world_url_text(
                        m.website_url,
                        m.project_slug@,
                        m.file_id,
                    )
                    &&& action matches RunAction::Wait { pause, abort_minecraft }
                    &&& !abort_minecraft
                    &&& pause matches InstallPauseReason::MissingRequiredContent { failed_files, paths }
                    &&& failed_files == 1
                    &&& paths@.len() == 1
                    &&& paths@[0]@ == world_path_text(m.file_name@)
                },
            },
            _ => j1 == j0 && action == RunAction::Unexpected,
        },
        _ => false,
    }
}

fn world_run(job_state: &mut InstallJobState, event: RunEvent) -> (action: RunAction)
    requires
        old(job_state).request is InstallCurseForgeWorld,
    ensures
        world_step(old(job_state)@, event, final(job_state)@, action),
{
    let id = match &job_state.request {
        InstallRequest::InstallCurseForgeWorld { instance_id, .. } => instance_id.clone(),
        _ => { return RunAction::Unexpected; },
    };
    match event {
        RunEvent::Started => RunAction::CheckWorldImport,
        RunEvent::WorldImportChecked { imported_manually } => if imported_manually {
            RunAction::Complete { instance_id: Some(id) }
        } else {
            set_progress(job_state, InstallPhaseId::DownloadingContent, InstallPhaseDetails::Empty);
            RunAction::StoreProgress
        },
        RunEvent::ProgressStored => RunAction::InstallWorld { instance_id: id },
        RunEvent::WorldInstalled { manual_download } => match manual_download {
            None => RunAction::Complete { instance_id: Some(id) },
            Some(m) => {
                let (path, url) = curseforge_world_manual_download(
                    m.file_name.as_str(),
                    clone_option_string(&m.website_url),
                    m.project_slug.as_str(),
                    m.file_id,
                );
                let ghost old_events = job_state@.events;
                job_state.record_event(
                    InstallJobEventKind::ContentFileSkipped {
                        path: path.clone(),
                        reason: String::from_str("CurseForge requires a manual download"),
                        project_id: Some(decimal_string(m.project_id as u64)),
                        version_id: Some(decimal_string(m.file_id as u64)),
                        manual_url: Some(url),
                    },
                );
                assert(job_state@.events.drop_last() =~= old_events);
                RunAction::Wait { pause: single_missing_file_pause(path), abort_minecraft: false }
            },
        },
        _ => RunAction::Unexpected,
    }
}

/// A step of a job that downloads a Java runtime.
pub open spec fn java_step(
    j0: InstallJobStateView,
    event: RunEvent,
    j1: InstallJobStateView,
    action: RunAction,
) -> bool {
    match j0.request {
        InstallRequest::DownloadJava { vendor, version } => match event {
            RunEvent::Started => j1 == with_progress(
                j0,
                InstallPhaseId::PreparingJava,
                InstallPhaseDetails::Java { major_version: version },
            ) && action == RunAction::StoreProgress,
            RunEvent::ProgressStored => j1 == j0 && action == RunAction::DownloadJava { vendor, version },
            RunEvent::JavaDownloaded => j1 == j0 && action == RunAction::Complete { instance_id: None },
            _ => j1 == j0 && action == RunAction::Unexpected,
        },
        _ => false,
    }
}

fn java_run(job_state: &mut InstallJobState, event: RunEvent) -> (action: RunAction)
    requires
        old(job_state).request is DownloadJava,
    ensures
        java_step(old(job_state)@, event, final(job_state)@, action),
{
    let (vendor, version) = match &job_state.request {
        InstallRequest::DownloadJava { vendor, version } => (vendor.clone(), *version),
        _ => { return RunAction::Unexpected; },
    };
    match event {
        RunEvent::Started => {
            set_progress(
                job_state,
                InstallPhaseId::PreparingJava,
                InstallPhaseDetails::Java { major_version: version },
            );
            RunAction::StoreProgress
        },
        RunEvent::ProgressStored => RunAction::DownloadJava { vendor, version },
        RunEvent::JavaDownloaded => RunAction::Complete { instance_id: None },
        _ => RunAction::Unexpected,
    }
}

/// One step of the run of an install job, by the kind of its request.
pub open spec fn run_step(
    j0: InstallJobStateView,
    event: RunEvent,
    j1: InstallJobStateView,
    action: RunAction,
) -> bool {
    match j0.request {
        InstallRequest::CreateInstance { .. } => create_step(j0, event, j1, action),
        InstallRequest::CreateModpackInstance { .. } => modpack_step(j0, event, j1, action),
        InstallRequest::ImportInstance { .. } | InstallRequest::DuplicateInstance { .. } => import_step(
            j0,
            event,
            j1,
            action,
        ),
        InstallRequest::UpgradeUnmanagedInstance { .. } => upgrade_step(j0, event, j1, action),
        InstallRequest::InstallContent { .. } | InstallRequest::InstallCurseForgeContent { .. } =>
            content_step(j0, event, j1, action),
        InstallRequest::InstallCurseForgeWorld { .. } => world_step(j0, event, j1, action),
        InstallRequest::DownloadJava { .. } => java_step(j0, event, j1, action),
        _ => existing_step(j0, event, j1, action),
    }
}

/// Runs one step of an install job: takes the outcome of the outside work
/// asked for last, updates the job state and returns the outside work to do
/// next. A run begins with `Started` and ends with `Complete`, `Wait`,
/// `Refuse` or `Fail`.
pub fn run_request_step(job_state: &mut InstallJobState, event: RunEvent) -> (action: RunAction)
    ensures
        run_step(old(job_state)@, event, final(job_state)@, action),
{
    match &job_state.request {
        InstallRequest::CreateInstance { .. } => create_run(job_state, event),
        InstallRequest::CreateModpackInstance { .. } => modpack_run(job_state, event),
        InstallRequest::ImportInstance { .. } | InstallRequest::DuplicateInstance { .. } => import_run(
            job_state,
            event,
        ),
        InstallRequest::UpgradeUnmanagedInstance { .. } => upgrade_run(job_state, event),
        InstallRequest::InstallContent { .. } | InstallRequest::InstallCurseForgeContent { .. } =>
            content_run(job_state, event),
        InstallRequest::InstallCurseForgeWorld { .. } => world_run(job_state, event),
        InstallRequest::DownloadJava { .. } => java_run(job_state, event),
        _ => existing_run(job_state, event),
    }
}

/// A duplicate of an instance gets Minecraft installed before it is done:
/// once the game directory is copied, the run asks to install Minecraft for
/// the copy, without forcing it, and a duplicate job completes only once
/// Minecraft is installed.
pub proof fn duplicates_install_minecraft_before_completing(
    j0: InstallJobStateView,
    id: String,
    event: RunEvent,
    j1: InstallJobStateView,
    action: RunAction,
)
    requires
        j0.request is DuplicateInstance,
        target_instance_id(j0.target) == Some(id),
        run_step(j0, event, j1, action),
    ensures
        event is InstanceCopied ==> j1 == j0 && action == (RunAction::InstallMinecraft {
            instance_id: id,
            force: false,
        }),
        action is Complete ==> event is MinecraftInstalled,
{
}

} // verus!
