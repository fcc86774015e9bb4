//! The state of an install job, as the job runner reads and updates it.

use vstd::prelude::*;
use crate::loader::{LoaderComponent, ModLoader};
use crate::install_requests::{CreatePackLocation, InstallPostInstallEdit, InstanceLink};

verus! {

/// Lifecycle status of an install job.
#[derive(Clone, Copy, Debug, PartialEq, Eq, Structural)]
pub enum InstallJobStatus {
    Queued,
    Running,
    WaitingForUser,
    Canceling,
    Canceled,
    Completed,
    Failed,
    Interrupted,
}

/// The phase an install job is in.
#[derive(Clone, Copy, Debug, PartialEq, Eq, Structural)]
pub enum InstallPhaseId {
    PreparingInstance,
    CreatingBackup,
    ResolvingPack,
    DownloadingPackFile,
    ReadingPackManifest,
    ResolvingMinecraft,
    ResolvingLoader,
    DownloadingMinecraft,
    RunningLoaderProcessors,
    UpdatingLoader,
    PreparingJava,
    DownloadingContent,
    StagingContent,
    ApplyingContent,
    ExtractingOverrides,
    Verifying,
    Finalizing,
    RollingBack,
    Completed,
}

/// What an install job was asked to do.
#[derive(Clone, Copy, Debug, PartialEq, Eq, Structural)]
pub enum InstallRequestKind {
    CreateInstance,
    CreateModpackInstance,
    ImportInstance,
    DuplicateInstance,
    InstallExistingInstance,
    UpgradeUnmanagedInstance,
    InstallContent,
    InstallCurseForgeContent,
    InstallCurseForgeWorld,
    DownloadJava,
    InstallPackToExistingInstance,
    UpdateManagedCurseForgeModpack,
}

/// What an install job was asked to do, with what its steps read of it.
#[derive(Debug)]
pub enum InstallRequest {
    CreateInstance {
        name: String,
        game_version: String,
        loader: ModLoader,
        loader_version: Option<String>,
        adjuncts: Vec<LoaderComponent>,
        icon_path: Option<String>,
        link: InstanceLink,
    },
    CreateModpackInstance {
        location: CreatePackLocation,
        post_install_edit: Option<InstallPostInstallEdit>,
    },
    ImportInstance { launcher_type: String, instance_folder: String },
    DuplicateInstance { source_instance_id: String },
    InstallExistingInstance { instance_id: String, force: bool },
    UpgradeUnmanagedInstance { instance_id: String, direct: bool, copy_name: Option<String> },
    InstallContent {
        instance_id: String,
        project_id: String,
        display_title: String,
        display_icon: Option<String>,
    },
    InstallCurseForgeContent {
        instance_id: String,
        project_id: u32,
        display_title: String,
        display_icon: Option<String>,
    },
    InstallCurseForgeWorld {
        instance_id: String,
        display_title: String,
        display_icon: Option<String>,
    },
    DownloadJava { vendor: String, version: u32 },
    InstallPackToExistingInstance {
        instance_id: String,
        location: CreatePackLocation,
        post_install_edit: Option<InstallPostInstallEdit>,
    },
    UpdateManagedCurseForgeModpack { instance_id: String, file_id: u32 },
}

/// The kind of a request.
pub open spec fn request_kind_of(r: InstallRequest) -> InstallRequestKind {
    match r {
        InstallRequest::CreateInstance { .. } => InstallRequestKind::CreateInstance,
        InstallRequest::CreateModpackInstance { .. } => InstallRequestKind::CreateModpackInstance,
        InstallRequest::ImportInstance { .. } => InstallRequestKind::ImportInstance,
        InstallRequest::DuplicateInstance { .. } => InstallRequestKind::DuplicateInstance,
        InstallRequest::InstallExistingInstance { .. } => InstallRequestKind::InstallExistingInstance,
        InstallRequest::UpgradeUnmanagedInstance { .. } => InstallRequestKind::UpgradeUnmanagedInstance,
        InstallRequest::InstallContent { .. } => InstallRequestKind::InstallContent,
        InstallRequest::InstallCurseForgeContent { .. } => InstallRequestKind::InstallCurseForgeContent,
        InstallRequest::InstallCurseForgeWorld { .. } => InstallRequestKind::InstallCurseForgeWorld,
        InstallRequest::DownloadJava { .. } => InstallRequestKind::DownloadJava,
        InstallRequest::InstallPackToExistingInstance { .. } => InstallRequestKind::InstallPackToExistingInstance,
        InstallRequest::UpdateManagedCurseForgeModpack { .. } => InstallRequestKind::UpdateManagedCurseForgeModpack,
    }
}

impl InstallRequest {
    /// The kind of this request.
    pub fn kind(&self) -> (k: InstallRequestKind)
        ensures
            k == request_kind_of(*self),
    {
        match self {
            InstallRequest::CreateInstance { .. } => InstallRequestKind::CreateInstance,
            InstallRequest::CreateModpackInstance { .. } => InstallRequestKind::CreateModpackInstance,
            InstallRequest::ImportInstance { .. } => InstallRequestKind::ImportInstance,
            InstallRequest::DuplicateInstance { .. } => InstallRequestKind::DuplicateInstance,
            InstallRequest::InstallExistingInstance { .. } => InstallRequestKind::InstallExistingInstance,
            InstallRequest::UpgradeUnmanagedInstance { .. } => InstallRequestKind::UpgradeUnmanagedInstance,
            InstallRequest::InstallContent { .. } => InstallRequestKind::InstallContent,
            InstallRequest::InstallCurseForgeContent { .. } => InstallRequestKind::InstallCurseForgeContent,
            InstallRequest::InstallCurseForgeWorld { .. } => InstallRequestKind::InstallCurseForgeWorld,
            InstallRequest::DownloadJava { .. } => InstallRequestKind::DownloadJava,
            InstallRequest::InstallPackToExistingInstance { .. } => InstallRequestKind::InstallPackToExistingInstance,
            InstallRequest::UpdateManagedCurseForgeModpack { .. } => InstallRequestKind::UpdateManagedCurseForgeModpack,
        }
    }
}

/// The install stage of an instance.
#[derive(Clone, Copy, Debug, PartialEq, Eq, Structural)]
pub enum InstanceInstallStage {
    Installed,
    MinecraftInstalling,
    PackInstalling,
    NotInstalled,
}

/// An instance as read from the instance database.
#[derive(Debug)]
pub struct InstanceSnapshot {
    pub instance_id: String,
    pub name: String,
    pub icon_path: Option<String>,
    pub install_stage: InstanceInstallStage,
    pub game_version: String,
    pub loader: ModLoader,
    pub loader_version: Option<String>,
    pub link: InstanceLink,
    /// Whether the instance is directly associated with an external
    /// launcher, which owns its files.
    pub direct_linked: bool,
}

/// The instance a job installs into.
#[derive(Debug)]
#[allow(inconsistent_fields)]
pub enum InstallTarget {
    NewInstance { instance_id: Option<String> },
    ExistingInstance { instance_id: String },
}

/// What to undo when a job fails or is canceled.
#[derive(Debug)]
#[allow(inconsistent_fields)]
pub enum InstallCleanup {
    NoCleanup,
    RestoreExistingInstance { instance_id: String },
    DeleteNewInstance { instance_id: Option<String> },
}

/// Title and icon shown for a job.
#[derive(Debug)]
pub struct InstallJobDisplay {
    pub title: String,
    pub icon: Option<String>,
}

/// Extra facts recorded with an install error.
#[derive(Debug)]
pub struct InstallErrorContext {
    pub operation: String,
    pub cache_types: Vec<String>,
    pub sqlite_code: Option<String>,
}

/// An error as the job reports it.
#[derive(Debug)]
pub struct InstallErrorView {
    pub code: String,
    pub phase: InstallPhaseId,
    pub message: String,
    pub context: Option<InstallErrorContext>,
}

/// Why a job waits for the user.
#[derive(Debug)]
pub enum InstallPauseReason {
    MissingRequiredContent { failed_files: u32, paths: Vec<String> },
}

/// A count of finished steps out of a total.
#[derive(Clone, Copy, Debug, PartialEq, Eq, Structural)]
pub struct InstallProgressCount {
    pub current: u64,
    pub total: u64,
}

/// What the current phase works on.
#[derive(Debug)]
pub enum InstallPhaseDetails {
    Empty,
    Instance { name: String },
    Modpack { project_id: Option<String>, version_id: Option<String>, title: Option<String> },
    Minecraft { game_version: String, loader: ModLoader },
    Import { launcher_type: String, instance_folder: String },
    /// Fetching the metadata of a Java runtime.
    Java { major_version: u32 },
}

/// Where a job stands.
#[derive(Debug)]
pub struct InstallProgressState {
    pub phase: InstallPhaseId,
    pub progress: Option<InstallProgressCount>,
    pub details: InstallPhaseDetails,
    pub parallel: Option<InstallProgressCount>,
}

/// An entry of a job's history.
#[derive(Debug)]
pub enum InstallJobEventKind {
    JobQueued { kind: InstallRequestKind },
    JobCanceled { phase: InstallPhaseId },
    RollbackStarted { cleanup: InstallCleanup },
    RollbackFailed { message: String },
    ContentFileSkipped {
        path: String,
        reason: String,
        project_id: Option<String>,
        version_id: Option<String>,
        manual_url: Option<String>,
    },
}

/// What is kept to restore an existing instance: the instance as it was
/// read before the job changed it, and its install stage then.
#[derive(Debug)]
pub struct InstallRollbackState {
    pub instance: InstanceSnapshot,
    pub install_stage: InstanceInstallStage,
}

/// Progress kept across a pause of a pack install into an existing instance.
#[derive(Debug)]
pub enum InstallContinuationState {
    InstallingPackToExistingInstance { disabled_project_ids: Vec<String> },
}

/// The persisted state of an install job.
#[derive(Debug)]
pub struct InstallJobState {
    pub request: InstallRequest,
    pub target: InstallTarget,
    pub cleanup: InstallCleanup,
    pub rollback: Option<InstallRollbackState>,
    pub error: Option<InstallErrorView>,
    pub rollback_error: Option<InstallErrorView>,
    pub pause_reason: Option<InstallPauseReason>,
    pub continuation: Option<InstallContinuationState>,
    pub context: Option<InstallErrorContext>,
    pub progress: InstallProgressState,
    pub display: Option<InstallJobDisplay>,
    pub skipped_missing_content_paths: Vec<String>,
    pub active_downloads: Vec<String>,
    pub events: Vec<InstallJobEventKind>,
}

/// A copy of an optional string.
pub fn clone_option_string(o: &Option<String>) -> (c: Option<String>)
    ensures
        c == *o,
{
    match o {
        None => None,
        Some(s) => Some(s.clone()),
    }
}

impl InstallCleanup {
    /// A copy of this cleanup.
    pub fn cloned(&self) -> (c: InstallCleanup)
        ensures
            c == *self,
    {
        match self {
            InstallCleanup::NoCleanup => InstallCleanup::NoCleanup,
            InstallCleanup::RestoreExistingInstance { instance_id } => {
                InstallCleanup::RestoreExistingInstance { instance_id: instance_id.clone() }
            },
            InstallCleanup::DeleteNewInstance { instance_id } => {
                InstallCleanup::DeleteNewInstance { instance_id: clone_option_string(instance_id) }
            },
        }
    }
}

/// Download state of one file of a job.
#[derive(Clone, Copy, Debug, PartialEq, Eq, Structural)]
pub enum DownloadItemStatus {
    Queued,
    Downloading,
    Completed,
    Failed,
    Skipped,
}

/// One file a job downloads.
#[derive(Debug)]
pub struct DownloadItem {
    pub id: String,
    pub status: DownloadItemStatus,
    pub manual_url: Option<String>,
}

/// The abstract state of an install job: its lists seen as sequences.
pub struct InstallJobStateView {
    pub request: InstallRequest,
    pub target: InstallTarget,
    pub cleanup: InstallCleanup,
    pub rollback: Option<InstallRollbackState>,
    pub error: Option<InstallErrorView>,
    pub rollback_error: Option<InstallErrorView>,
    pub pause_reason: Option<InstallPauseReason>,
    pub continuation: Option<InstallContinuationState>,
    pub context: Option<InstallErrorContext>,
    pub progress: InstallProgressState,
    pub display: Option<InstallJobDisplay>,
    pub skipped_missing_content_paths: Seq<String>,
    pub active_downloads: Seq<String>,
    pub events: Seq<InstallJobEventKind>,
}

impl View for InstallJobState {
    type V = InstallJobStateView;

    open spec fn view(&self) -> InstallJobStateView {
        InstallJobStateView {
            request: self.request,
            target: self.target,
            cleanup: self.cleanup,
            rollback: self.rollback,
            error: self.error,
            rollback_error: self.rollback_error,
            pause_reason: self.pause_reason,
            continuation: self.continuation,
            context: self.context,
            progress: self.progress,
            display: self.display,
            skipped_missing_content_paths: self.skipped_missing_content_paths@,
            active_downloads: self.active_downloads@,
            events: self.events@,
        }
    }
}

impl InstallJobState {
    /// Appends an event to the job's history.
    pub fn record_event(&mut self, kind: InstallJobEventKind)
        ensures
            final(self)@ == (InstallJobStateView { events: old(self)@.events.push(kind), ..old(self)@ }),
    {
        self.events.push(kind);
    }
}

} // verus!
