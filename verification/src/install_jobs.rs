//! Decisions of the install job runner: which jobs may be retried, resumed
//! or canceled, and how each of those operations rewrites the job state.

use vstd::prelude::*;
use crate::install_model::{
    InstallJobStatus, InstallPhaseId, InstallRequestKind, InstallTarget, InstallCleanup,
    InstallJobDisplay, InstallErrorView, InstallProgressState, InstallPhaseDetails,
    InstallJobEventKind, InstallJobState, InstallJobStateView, clone_option_string,
    InstallPauseReason, DownloadItem, DownloadItemStatus, InstallRollbackState, InstanceSnapshot,
    request_kind_of,
};
use crate::text::{
    views, view_set, strictly_sorted, sorted_unique, extend_cloned, lemma_view_set_concat,
    contains_str, str_eq,
};

verus! {

/// Why a job operation was refused.
#[derive(Debug)]
pub enum InstallJobError {
    NotRetryable,
    NotRetryableAsNew,
    NotResumable,
    NotSkippable,
    CannotSkipCurseForgeUpdate,
    NoMissingContent,
    NotCancelable,
    CacheRepairNotAllowed,
    NoCacheRepairError,
    CacheRepairNotRequired,
    NoRepairableCacheTypes,
    CacheTypeNotRepairable { cache_type: String },
    MissingInstanceId,
    MissingUpgradeTarget,
    UnknownInstance { instance_id: String },
    UnknownSourceInstance,
    UnknownUpgradeSource,
    DirectLinkedInstance { name: String },
    NoLongerWaiting,
    InvalidCurseForgeProjectId,
    InvalidCurseForgeFileId,
}

/// The message shown for a refused job operation.
pub open spec fn job_error_text(e: InstallJobError) -> Seq<char> {
    match e {
        InstallJobError::NotRetryable => "Only failed or interrupted install jobs can be retried"@,
        InstallJobError::NotRetryableAsNew => "Only failed, interrupted, or canceled downloads can be retried"@,
        InstallJobError::NotResumable => "Only install jobs waiting for user action can be resumed"@,
        InstallJobError::NotSkippable => "Only install jobs waiting for user action can skip missing content"@,
        InstallJobError::CannotSkipCurseForgeUpdate => "CurseForge modpack version updates cannot skip required manual downloads"@,
        InstallJobError::NoMissingContent => "Install job has no missing content to skip"@,
        InstallJobError::NotCancelable => "Only queued, running, or waiting install jobs can be canceled"@,
        InstallJobError::CacheRepairNotAllowed => "Only failed or interrupted install jobs can repair cache"@,
        InstallJobError::NoCacheRepairError => "Install job has no cache repair error"@,
        InstallJobError::CacheRepairNotRequired => "Install job does not require cache repair"@,
        InstallJobError::NoRepairableCacheTypes => "Install job has no repairable cache types"@,
        InstallJobError::CacheTypeNotRepairable { cache_type } => "Cache type is not repairable: "@
            + cache_type@,
        InstallJobError::MissingInstanceId => "Install job is missing its instance id"@,
        InstallJobError::MissingUpgradeTarget => "Upgrade job is missing its target instance id"@,
        InstallJobError::UnknownInstance { instance_id } => "Unknown instance "@ + instance_id@,
        InstallJobError::UnknownSourceInstance => "Unknown instance"@,
        InstallJobError::UnknownUpgradeSource => "Unknown upgrade source instance"@,
        InstallJobError::DirectLinkedInstance { name } => "\""@ + name@
            + "\" is directly associated with an external launcher and cannot be duplicated; its files are managed by that launcher"@,
        InstallJobError::InvalidCurseForgeProjectId => "CurseForge project ID is invalid"@,
        InstallJobError::InvalidCurseForgeFileId => "CurseForge file ID is invalid"@,
        InstallJobError::NoLongerWaiting => "Install job is no longer waiting for user action"@,
    }
}

impl InstallJobError {
    /// The message shown for this refusal.
    pub fn message(&self) -> (m: String)
        ensures
            m@ == job_error_text(*self),
    {
        match self {
            InstallJobError::NotRetryable => String::from_str(
                "Only failed or interrupted install jobs can be retried",
            ),
            InstallJobError::NotRetryableAsNew => String::from_str(
                "Only failed, interrupted, or canceled downloads can be retried",
            ),
            InstallJobError::NotResumable => String::from_str(
                "Only install jobs waiting for user action can be resumed",
            ),
            InstallJobError::NotSkippable => String::from_str(
                "Only install jobs waiting for user action can skip missing content",
            ),
            InstallJobError::CannotSkipCurseForgeUpdate => String::from_str(
                "CurseForge modpack version updates cannot skip required manual downloads",
            ),
            InstallJobError::NoMissingContent => String::from_str(
                "Install job has no missing content to skip",
            ),
            InstallJobError::NotCancelable => String::from_str(
                "Only queued, running, or waiting install jobs can be canceled",
            ),
            InstallJobError::CacheRepairNotAllowed => String::from_str(
                "Only failed or interrupted install jobs can repair cache",
            ),
            InstallJobError::NoCacheRepairError => String::from_str(
                "Install job has no cache repair error",
            ),
            InstallJobError::CacheRepairNotRequired => String::from_str(
                "Install job does not require cache repair",
            ),
            InstallJobError::NoRepairableCacheTypes => String::from_str(
                "Install job has no repairable cache types",
            ),
            InstallJobError::CacheTypeNotRepairable { cache_type } => {
                let mut m = String::from_str("Cache type is not repairable: ");
                m.append(cache_type.as_str());
                m
            },
            InstallJobError::NoLongerWaiting => String::from_str(
                "Install job is no longer waiting for user action",
            ),
            InstallJobError::MissingInstanceId => String::from_str(
                "Install job is missing its instance id",
            ),
            InstallJobError::MissingUpgradeTarget => String::from_str(
                "Upgrade job is missing its target instance id",
            ),
            InstallJobError::UnknownInstance { instance_id } => {
                let mut m = String::from_str("Unknown instance ");
                m.append(instance_id.as_str());
                m
            },
            InstallJobError::UnknownSourceInstance => String::from_str("Unknown instance"),
            InstallJobError::UnknownUpgradeSource => String::from_str(
                "Unknown upgrade source instance",
            ),
            InstallJobError::DirectLinkedInstance { name } => {
                let mut m = String::from_str("\"");
                m.append(name.as_str());
                m.append(
                    "\" is directly associated with an external launcher and cannot be duplicated; its files are managed by that launcher",
                );
                m
            },
            InstallJobError::InvalidCurseForgeProjectId => String::from_str(
                "CurseForge project ID is invalid",
            ),
            InstallJobError::InvalidCurseForgeFileId => String::from_str(
                "CurseForge file ID is invalid",
            ),
        }
    }
}

/// The instance a target names, if it names one yet.
pub open spec fn target_instance_id(target: InstallTarget) -> Option<String> {
    match target {
        InstallTarget::NewInstance { instance_id } => instance_id,
        InstallTarget::ExistingInstance { instance_id } => Some(instance_id),
    }
}

/// The instance the job installs into, if it has been created.
pub fn current_instance_id(job_state: &InstallJobState) -> (id: Option<String>)
    ensures
        id == target_instance_id(job_state.target),
{
    match &job_state.target {
        InstallTarget::NewInstance { instance_id } => clone_option_string(instance_id),
        InstallTarget::ExistingInstance { instance_id } => Some(instance_id.clone()),
    }
}

/// `target` with its instance replaced by `instance_id`.
pub open spec fn retarget(target: InstallTarget, instance_id: String) -> InstallTarget {
    match target {
        InstallTarget::ExistingInstance { .. } => InstallTarget::ExistingInstance { instance_id },
        InstallTarget::NewInstance { .. } => InstallTarget::NewInstance {
            instance_id: Some(instance_id),
        },
    }
}

/// `cleanup` with its instance replaced by `instance_id`.
pub open spec fn reclean(cleanup: InstallCleanup, instance_id: String) -> InstallCleanup {
    match cleanup {
        InstallCleanup::RestoreExistingInstance { .. } => InstallCleanup::RestoreExistingInstance {
            instance_id,
        },
        InstallCleanup::DeleteNewInstance { .. } => InstallCleanup::DeleteNewInstance {
            instance_id: Some(instance_id),
        },
        InstallCleanup::NoCleanup => InstallCleanup::NoCleanup,
    }
}

/// Points the job's target and cleanup at `instance_id`, keeping their kinds.
pub fn set_instance_id(job_state: &mut InstallJobState, instance_id: String)
    ensures
        final(job_state)@ == (InstallJobStateView {
            target: retarget(old(job_state).target, instance_id),
            cleanup: reclean(old(job_state).cleanup, instance_id),
            ..old(job_state)@
        }),
{
    let target = match &job_state.target {
        InstallTarget::ExistingInstance { .. } => InstallTarget::ExistingInstance {
            instance_id: instance_id.clone(),
        },
        InstallTarget::NewInstance { .. } => InstallTarget::NewInstance {
            instance_id: Some(instance_id.clone()),
        },
    };
    let cleanup = match &job_state.cleanup {
        InstallCleanup::RestoreExistingInstance { .. } => InstallCleanup::RestoreExistingInstance {
            instance_id,
        },
        InstallCleanup::DeleteNewInstance { .. } => InstallCleanup::DeleteNewInstance {
            instance_id: Some(instance_id),
        },
        InstallCleanup::NoCleanup => InstallCleanup::NoCleanup,
    };
    job_state.target = target;
    job_state.cleanup = cleanup;
}

/// Forgets a new instance that the cleanup has deleted.
pub fn clear_deleted_new_instance_id(job_state: &mut InstallJobState)
    ensures
        final(job_state)@ == if old(job_state).cleanup is DeleteNewInstance {
            InstallJobStateView {
                target: InstallTarget::NewInstance { instance_id: None },
                cleanup: InstallCleanup::DeleteNewInstance { instance_id: None },
                ..old(job_state)@
            }
        } else {
            old(job_state)@
        },
{
    if let InstallCleanup::DeleteNewInstance { .. } = &job_state.cleanup {
        job_state.target = InstallTarget::NewInstance { instance_id: None };
        job_state.cleanup = InstallCleanup::DeleteNewInstance { instance_id: None };
    }
}

/// Sets the title and icon shown for the job.
pub fn set_display(job_state: &mut InstallJobState, title: String, icon: Option<String>)
    ensures
        final(job_state)@ == (InstallJobStateView {
            display: Some(InstallJobDisplay { title, icon }),
            ..old(job_state)@
        }),
{
    job_state.display = Some(InstallJobDisplay { title, icon });
}

/// Clears what a paused job left behind and records that it is queued again.
pub fn prepare_resumed_job(job_state: &mut InstallJobState)
    ensures
        final(job_state)@ == (InstallJobStateView {
            pause_reason: None,
            error: None,
            rollback_error: None,
            context: None,
            active_downloads: Seq::empty(),
            events: old(job_state)@.events.push(
                InstallJobEventKind::JobQueued { kind: request_kind_of(old(job_state).request) },
            ),
            ..old(job_state)@
        }),
{
    job_state.pause_reason = None;
    job_state.error = None;
    job_state.rollback_error = None;
    job_state.context = None;
    job_state.active_downloads.clear();
    let kind = job_state.request.kind();
    job_state.record_event(InstallJobEventKind::JobQueued { kind });
}

/// Whether `e` is the error recorded on a job canceled in `phase`.
pub open spec fn is_canceled_error(e: InstallErrorView, phase: InstallPhaseId) -> bool {
    &&& e.code@ == "canceled"@
    &&& e.phase == phase
    &&& e.message@ == "Install was canceled"@
    &&& e.context is None
}

/// The progress of a job that is rolling back.
pub open spec fn rolling_back_progress() -> InstallProgressState {
    InstallProgressState {
        phase: InstallPhaseId::RollingBack,
        progress: None,
        details: InstallPhaseDetails::Empty,
        parallel: None,
    }
}

/// Marks a queued or waiting job as canceled in its current phase and starts
/// its rollback.
pub fn begin_canceling_job(job_state: &mut InstallJobState)
    ensures
        final(job_state).error matches Some(e) && is_canceled_error(
            e,
            old(job_state).progress.phase,
        ),
        final(job_state)@ == (InstallJobStateView {
            error: final(job_state).error,
            pause_reason: None,
            progress: rolling_back_progress(),
            events: old(job_state)@.events.push(
                InstallJobEventKind::JobCanceled { phase: old(job_state).progress.phase },
            ).push(InstallJobEventKind::RollbackStarted { cleanup: old(job_state).cleanup }),
            ..old(job_state)@
        }),
{
    let canceled_phase = job_state.progress.phase;
    job_state.error = Some(
        InstallErrorView {
            code: String::from_str("canceled"),
            phase: canceled_phase,
            message: String::from_str("Install was canceled"),
            context: None,
        },
    );
    job_state.pause_reason = None;
    job_state.record_event(InstallJobEventKind::JobCanceled { phase: canceled_phase });
    job_state.progress.phase = InstallPhaseId::RollingBack;
    job_state.progress.progress = None;
    job_state.progress.details = InstallPhaseDetails::Empty;
    job_state.progress.parallel = None;
    let cleanup = job_state.cleanup.cloned();
    job_state.record_event(InstallJobEventKind::RollbackStarted { cleanup });
}

/// The phase a job of `kind` starts in: the phase its run reports first.
pub open spec fn initial_phase(kind: InstallRequestKind) -> InstallPhaseId {
    match kind {
        InstallRequestKind::CreateModpackInstance
        | InstallRequestKind::InstallPackToExistingInstance => InstallPhaseId::ResolvingPack,
        InstallRequestKind::InstallExistingInstance => InstallPhaseId::DownloadingMinecraft,
        InstallRequestKind::InstallContent
        | InstallRequestKind::InstallCurseForgeContent
        | InstallRequestKind::InstallCurseForgeWorld
        | InstallRequestKind::UpdateManagedCurseForgeModpack => InstallPhaseId::DownloadingContent,
        InstallRequestKind::DownloadJava => InstallPhaseId::PreparingJava,
        _ => InstallPhaseId::PreparingInstance,
    }
}

/// The phase a job of `kind` starts in.
pub fn initial_phase_for(kind: InstallRequestKind) -> (phase: InstallPhaseId)
    ensures
        phase == initial_phase(kind),
{
    match kind {
        InstallRequestKind::CreateModpackInstance
        | InstallRequestKind::InstallPackToExistingInstance => InstallPhaseId::ResolvingPack,
        InstallRequestKind::InstallExistingInstance => InstallPhaseId::DownloadingMinecraft,
        InstallRequestKind::InstallContent
        | InstallRequestKind::InstallCurseForgeContent
        | InstallRequestKind::InstallCurseForgeWorld
        | InstallRequestKind::UpdateManagedCurseForgeModpack => InstallPhaseId::DownloadingContent,
        InstallRequestKind::DownloadJava => InstallPhaseId::PreparingJava,
        _ => InstallPhaseId::PreparingInstance,
    }
}

/// Resets a failed or interrupted job so that it runs again from the start
/// and is queued again: `target` and `cleanup` are what the job's request
/// starts from, and the job restarts in the first phase of its request.
pub fn reset_for_retry(job_state: &mut InstallJobState, target: InstallTarget, cleanup: InstallCleanup)
    ensures
        final(job_state)@ == (InstallJobStateView {
            target,
            cleanup,
            rollback: None,
            error: None,
            rollback_error: None,
            pause_reason: None,
            continuation: None,
            context: None,
            progress: InstallProgressState {
                phase: initial_phase(request_kind_of(old(job_state).request)),
                progress: None,
                details: InstallPhaseDetails::Empty,
                parallel: None,
            },
            events: old(job_state)@.events.push(
                InstallJobEventKind::JobQueued { kind: request_kind_of(old(job_state).request) },
            ),
            ..old(job_state)@
        }),
{
    let kind = job_state.request.kind();
    job_state.target = target;
    job_state.cleanup = cleanup;
    job_state.rollback = None;
    job_state.error = None;
    job_state.rollback_error = None;
    job_state.pause_reason = None;
    job_state.continuation = None;
    job_state.context = None;
    job_state.progress.phase = initial_phase_for(kind);
    job_state.progress.progress = None;
    job_state.progress.details = InstallPhaseDetails::Empty;
    job_state.progress.parallel = None;
    job_state.record_event(InstallJobEventKind::JobQueued { kind });
}

/// An instance may be duplicated unless it is directly associated with an
/// external launcher: it owns no files to copy, and duplicating it would copy
/// that launcher's files. `instance` is the source instance, if it exists;
/// a missing one is left to the duplication itself.
pub fn check_duplicable(instance: Option<&InstanceSnapshot>) -> (r: Result<(), InstallJobError>)
    ensures
        match instance {
            Some(i) => if i.direct_linked {
                r matches Err(InstallJobError::DirectLinkedInstance { name }) && name == i.name
            } else {
                r is Ok
            },
            None => r is Ok,
        },
{
    match instance {
        Some(i) => if i.direct_linked {
            Err(InstallJobError::DirectLinkedInstance { name: i.name.clone() })
        } else {
            Ok(())
        },
        None => Ok(()),
    }
}

/// Only failed or interrupted jobs may be retried.
pub fn check_retryable(status: InstallJobStatus) -> (r: Result<(), InstallJobError>)
    ensures
        r == if status == InstallJobStatus::Failed || status == InstallJobStatus::Interrupted {
            Ok::<(), InstallJobError>(())
        } else {
            Err(InstallJobError::NotRetryable)
        },
{
    match status {
        InstallJobStatus::Failed | InstallJobStatus::Interrupted => Ok(()),
        _ => Err(InstallJobError::NotRetryable),
    }
}

/// Only failed, interrupted or canceled jobs may be started again as a new job.
pub fn check_retryable_as_new(status: InstallJobStatus) -> (r: Result<(), InstallJobError>)
    ensures
        r == if status == InstallJobStatus::Failed || status == InstallJobStatus::Interrupted
            || status == InstallJobStatus::Canceled {
            Ok::<(), InstallJobError>(())
        } else {
            Err(InstallJobError::NotRetryableAsNew)
        },
{
    match status {
        InstallJobStatus::Failed | InstallJobStatus::Interrupted | InstallJobStatus::Canceled => Ok(
            (),
        ),
        _ => Err(InstallJobError::NotRetryableAsNew),
    }
}

/// Only jobs waiting for the user may be resumed.
pub fn check_resumable(status: InstallJobStatus) -> (r: Result<(), InstallJobError>)
    ensures
        r == if status == InstallJobStatus::WaitingForUser {
            Ok::<(), InstallJobError>(())
        } else {
            Err(InstallJobError::NotResumable)
        },
{
    match status {
        InstallJobStatus::WaitingForUser => Ok(()),
        _ => Err(InstallJobError::NotResumable),
    }
}

/// Only jobs waiting for the user may skip their missing content, and a
/// CurseForge modpack update may not skip required manual downloads.
pub fn check_skippable(status: InstallJobStatus, request_kind: InstallRequestKind) -> (r: Result<
    (),
    InstallJobError,
>)
    ensures
        r == if status != InstallJobStatus::WaitingForUser {
            Err(InstallJobError::NotSkippable)
        } else if request_kind == InstallRequestKind::UpdateManagedCurseForgeModpack {
            Err(InstallJobError::CannotSkipCurseForgeUpdate)
        } else {
            Ok::<(), InstallJobError>(())
        },
{
    if status != InstallJobStatus::WaitingForUser {
        return Err(InstallJobError::NotSkippable);
    }
    if request_kind == InstallRequestKind::UpdateManagedCurseForgeModpack {
        return Err(InstallJobError::CannotSkipCurseForgeUpdate);
    }
    Ok(())
}

/// A waiting job is queued again only by a status change from
/// `WaitingForUser` to `Queued` that the job store applied; `applied` says
/// whether it did.
pub fn check_requeued(applied: bool) -> (r: Result<(), InstallJobError>)
    ensures
        r == if applied {
            Ok::<(), InstallJobError>(())
        } else {
            Err(InstallJobError::NoLongerWaiting)
        },
{
    if applied {
        Ok(())
    } else {
        Err(InstallJobError::NoLongerWaiting)
    }
}

/// What a cancel request does to a job in a given status.
#[derive(Clone, Copy, Debug, PartialEq, Eq, Structural)]
pub enum CancelAction {
    /// Move the running job to `Canceling` and signal its cancellation token;
    /// the job rolls itself back.
    SignalRunningJob,
    /// The job is already being canceled; report it as it is.
    AlreadyCanceling,
    /// Move the job to `Canceling`, then roll it back here.
    RollBackIdleJob,
    /// The job cannot be canceled.
    Refuse,
}

/// The cancel action for a job in `status`.
pub open spec fn cancel_action_for(status: InstallJobStatus) -> CancelAction {
    match status {
        InstallJobStatus::Running => CancelAction::SignalRunningJob,
        InstallJobStatus::Canceling => CancelAction::AlreadyCanceling,
        InstallJobStatus::Queued | InstallJobStatus::WaitingForUser => CancelAction::RollBackIdleJob,
        _ => CancelAction::Refuse,
    }
}

/// Decides how a cancel request treats a job in `status`.
pub fn cancel_action(status: InstallJobStatus) -> (a: CancelAction)
    ensures
        a == cancel_action_for(status),
{
    match status {
        InstallJobStatus::Running => CancelAction::SignalRunningJob,
        InstallJobStatus::Canceling => CancelAction::AlreadyCanceling,
        InstallJobStatus::Queued | InstallJobStatus::WaitingForUser => CancelAction::RollBackIdleJob,
        _ => CancelAction::Refuse,
    }
}

/// Decides a cancel request for a job in `status`: a job that is not
/// queued, running, waiting or being canceled cannot be canceled.
pub fn cancel_decision(status: InstallJobStatus) -> (r: Result<CancelAction, InstallJobError>)
    ensures
        cancel_action_for(status) == CancelAction::Refuse ==> r == Err::<CancelAction, InstallJobError>(
            InstallJobError::NotCancelable,
        ),
        cancel_action_for(status) != CancelAction::Refuse ==> r == Ok::<CancelAction, InstallJobError>(
            cancel_action_for(status),
        ),        !(status == InstallJobStatus::Queued || status == InstallJobStatus::Running || status
            == InstallJobStatus::WaitingForUser || status == InstallJobStatus::Canceling) ==> r
            == Err::<CancelAction, InstallJobError>(InstallJobError::NotCancelable),
{
    match cancel_action(status) {
        CancelAction::Refuse => Err(InstallJobError::NotCancelable),
        a => Ok(a),
    }
}

/// A whole cancel request on a job in `status`, where `cleanup` is how the
/// cleanup of an idle job ended. A running job is moved to `Canceling` and
/// rolls itself back; a job already being canceled is left as it is, so a
/// repeated cancel changes nothing; a queued or waiting job is marked as
/// canceled in its phase, rolled back and ends `Canceled`, with the
/// failure of its cleanup recorded as its rollback error; any other job is refused and left
/// as it is. Returns the status the job is stored with.
pub fn cancel_job_state(
    status: InstallJobStatus,
    job_state: &mut InstallJobState,
    cleanup: Result<(), String>,
) -> (r: Result<InstallJobStatus, InstallJobError>)
    ensures
        (status == InstallJobStatus::Running || status == InstallJobStatus::Canceling) ==> r
            == Ok::<InstallJobStatus, InstallJobError>(InstallJobStatus::Canceling) && final(job_state)@ == old(job_state)@,
        cancel_action_for(status) == CancelAction::Refuse ==> r == Err::<
            InstallJobStatus,
            InstallJobError,
        >(InstallJobError::NotCancelable) && final(job_state)@ == old(job_state)@,
        !(status == InstallJobStatus::Queued || status == InstallJobStatus::Running || status
            == InstallJobStatus::WaitingForUser || status == InstallJobStatus::Canceling) ==> r
            == Err::<InstallJobStatus, InstallJobError>(InstallJobError::NotCancelable) && final(job_state)@
            == old(job_state)@,
        (status == InstallJobStatus::Queued || status == InstallJobStatus::WaitingForUser) ==> {
            &&& r == Ok::<InstallJobStatus, InstallJobError>(InstallJobStatus::Canceled)
            &&& final(job_state).error matches Some(e) && is_canceled_error(
                e,
                old(job_state).progress.phase,
            )
            &&& final(job_state).pause_reason is None
            &&& final(job_state).progress == rolling_back_progress()
            &&& match cleanup {
                Ok(_) => final(job_state).rollback_error == old(job_state).rollback_error,
                Err(message) => final(job_state).rollback_error matches Some(re) && re.code@
                    == "rollback_error"@ && re.message@ == message@,
            }
            &&& final(job_state)@.events.take(old(job_state)@.events.len() + 2int) == old(job_state)@.events.push(
                InstallJobEventKind::JobCanceled { phase: old(job_state).progress.phase },
            ).push(InstallJobEventKind::RollbackStarted { cleanup: old(job_state).cleanup })
            &&& final(job_state)@.events.len() == old(job_state)@.events.len() + if cleanup is Err {
                3int
            } else {
                2int
            }
            &&& (cleanup is Ok && old(job_state).cleanup is DeleteNewInstance) ==> target_instance_id(
                final(job_state).target,
            ) is None
        },
{
    match cancel_decision(status) {
        Err(e) => Err(e),
        Ok(CancelAction::SignalRunningJob) | Ok(CancelAction::AlreadyCanceling) => Ok(
            InstallJobStatus::Canceling,
        ),
        Ok(_) => {
            let ghost before = job_state@;
            begin_canceling_job(job_state);
            let ghost mid = job_state@;
            let _ = record_cancel_cleanup(job_state, cleanup);
            assert(job_state@.events.take(before.events.len() + 2int) =~= mid.events);
            Ok(InstallJobStatus::Canceled)
        },
    }
}

/// Whether a downloaded file still needs the user: it failed, or it was
/// skipped and can be downloaded by hand.
pub open spec fn is_missing_item(item: DownloadItem) -> bool {
    item.status == DownloadItemStatus::Failed || (item.status == DownloadItemStatus::Skipped
        && item.manual_url is Some)
}

/// The ids of the files of `items` that still need the user, in order.
pub open spec fn missing_ids(items: Seq<DownloadItem>) -> Seq<String>
    decreases items.len(),
{
    if items.len() == 0 {
        seq![]
    } else if is_missing_item(items.last()) {
        missing_ids(items.drop_last()).push(items.last().id)
    } else {
        missing_ids(items.drop_last())
    }
}

/// The ids of the files of a job that still need the user.
pub fn missing_item_paths(items: &Vec<DownloadItem>) -> (paths: Vec<String>)
    ensures
        paths@ == missing_ids(items@),
{
    let mut paths: Vec<String> = Vec::new();
    let mut i: usize = 0;
    while i < items.len()
        invariant
            i <= items@.len(),
            paths@ == missing_ids(items@.take(i as int)),
        decreases items@.len() - i,
    {
        let item = &items[i];
        assert(items@.take(i + 1).drop_last() =~= items@.take(i as int));
        let missing = match item.status {
            DownloadItemStatus::Failed => true,
            DownloadItemStatus::Skipped => item.manual_url.is_some(),
            _ => false,
        };
        if missing {
            paths.push(item.id.clone());
        }
        i += 1;
    }
    assert(items@.take(items@.len() as int) =~= items@);
    paths
}

/// The paths a skip request marks as skipped: the files that still need the
/// user, or where none is known, the paths the pause reason names; `None`
/// when there is nothing to skip.
pub open spec fn paths_to_skip(current: Seq<String>, pause: Option<InstallPauseReason>) -> Option<
    Seq<String>,
> {
    match pause {
        None => None,
        Some(InstallPauseReason::MissingRequiredContent { paths, .. }) => {
            let chosen = if current.len() > 0 {
                current
            } else {
                paths@
            };
            if chosen.len() == 0 {
                None
            } else {
                Some(chosen)
            }
        },
    }
}

/// Records the missing content of a paused job as skipped, so that the job
/// can resume without it. The skipped paths are kept sorted and without
/// repetition.
pub fn skip_missing_content(job_state: &mut InstallJobState, current_missing: Vec<String>) -> (r:
    Result<(), InstallJobError>)
    ensures
        match paths_to_skip(current_missing@, old(job_state).pause_reason) {
            None => r == Err::<(), InstallJobError>(InstallJobError::NoMissingContent)
                && final(job_state)@ == old(job_state)@,
            Some(chosen) => {
                &&& r is Ok
                &&& strictly_sorted(final(job_state).skipped_missing_content_paths@)
                &&& view_set(final(job_state).skipped_missing_content_paths@) == view_set(
                    old(job_state).skipped_missing_content_paths@,
                ).union(view_set(chosen))
                &&& final(job_state)@ == (InstallJobStateView {
                    skipped_missing_content_paths: final(job_state).skipped_missing_content_paths@,
                    ..old(job_state)@
                })
            },
        },
{
    let mut all: Vec<String> = Vec::new();
    extend_cloned(&mut all, &job_state.skipped_missing_content_paths);
    match &job_state.pause_reason {
        None => {
            return Err(InstallJobError::NoMissingContent);
        },
        Some(InstallPauseReason::MissingRequiredContent { paths, .. }) => {
            if current_missing.len() > 0 {
                extend_cloned(&mut all, &current_missing);
            } else if paths.len() > 0 {
                extend_cloned(&mut all, paths);
            } else {
                return Err(InstallJobError::NoMissingContent);
            }
        },
    }
    proof {
        let chosen = paths_to_skip(current_missing@, job_state.pause_reason)->0;
        lemma_view_set_concat(job_state.skipped_missing_content_paths@, chosen);
    }
    let merged = sorted_unique(&all);
    job_state.skipped_missing_content_paths = merged;
    Ok(())
}

/// The cache types an error names for repair.
pub open spec fn error_cache_types(e: InstallErrorView) -> Seq<String> {
    match e.context {
        Some(c) => c.cache_types@,
        None => Seq::empty(),
    }
}

/// `s` without repetitions, each element kept where it first occurs.
pub open spec fn dedup(s: Seq<Seq<char>>) -> Seq<Seq<char>>
    decreases s.len(),
{
    if s.len() == 0 {
        seq![]
    } else {
        let d = dedup(s.drop_last());
        if d.contains(s.last()) {
            d
        } else {
            d.push(s.last())
        }
    }
}

/// Whether `k` is the first position of `types` whose cache type is not repairable.
pub open spec fn first_unrepairable_at(types: Seq<String>, repairable: Seq<String>, k: int) -> bool {
    &&& 0 <= k < types.len()
    &&& !views(repairable).contains(types[k]@)
    &&& forall|j: int| 0 <= j < k ==> views(repairable).contains(#[trigger] types[j]@)
}

/// The code an error view carries when the project cache must be repaired.
pub open spec fn cache_repair_code() -> Seq<char> {
    "cache_repair_required"@
}

/// The cache types to purge before a failed job is retried: those the job's
/// error names, each once, in the order they are first named. Every one must
/// be among `repairable`, the cache types the launcher knows how to purge.
pub fn validated_cache_repair_types_for(
    status: InstallJobStatus,
    error: Option<&InstallErrorView>,
    repairable: &Vec<String>,
) -> (r: Result<Vec<String>, InstallJobError>)
    ensures
        !(status == InstallJobStatus::Failed || status == InstallJobStatus::Interrupted) ==> r
            == Err::<Vec<String>, InstallJobError>(InstallJobError::CacheRepairNotAllowed),
        (status == InstallJobStatus::Failed || status == InstallJobStatus::Interrupted) ==> match error {
            None => r == Err::<Vec<String>, InstallJobError>(InstallJobError::NoCacheRepairError),
            Some(e) => {
                let types = error_cache_types(*e);
                if e.code@ != cache_repair_code() {
                    r == Err::<Vec<String>, InstallJobError>(InstallJobError::CacheRepairNotRequired)
                } else if types.len() == 0 {
                    r == Err::<Vec<String>, InstallJobError>(InstallJobError::NoRepairableCacheTypes)
                } else {
                    match r {
                        Ok(v) => {
                            &&& forall|i: int|
                                0 <= i < types.len() ==> views(repairable@).contains(
                                    #[trigger] types[i]@,
                                )
                            &&& views(v@) == dedup(views(types))
                        },
                        Err(InstallJobError::CacheTypeNotRepairable { cache_type }) => exists|k: int|
                            first_unrepairable_at(types, repairable@, k) && cache_type@
                                == types[k]@,
                        Err(_) => false,
                    }
                }
            },
        },
{
    match status {
        InstallJobStatus::Failed | InstallJobStatus::Interrupted => {},
        _ => {
            return Err(InstallJobError::CacheRepairNotAllowed);
        },
    }
    let view = match error {
        None => {
            return Err(InstallJobError::NoCacheRepairError);
        },
        Some(e) => e,
    };
    if !str_eq(view.code.as_str(), "cache_repair_required") {
        return Err(InstallJobError::CacheRepairNotRequired);
    }
    let types = match &view.context {
        None => {
            return Err(InstallJobError::NoRepairableCacheTypes);
        },
        Some(context) => &context.cache_types,
    };
    if types.len() == 0 {
        return Err(InstallJobError::NoRepairableCacheTypes);
    }
    let mut validated: Vec<String> = Vec::new();
    let mut i: usize = 0;
    while i < types.len()
        invariant
            i <= types@.len(),
            status == InstallJobStatus::Failed || status == InstallJobStatus::Interrupted,
            error == Some(view),
            view.code@ == cache_repair_code(),
            types@ == error_cache_types(*view),
            types@.len() > 0,
            views(validated@) == dedup(views(types@.take(i as int))),
            forall|j: int| 0 <= j < i ==> views(repairable@).contains(#[trigger] types@[j]@),
        decreases types@.len() - i,
    {
        let cache_type = &types[i];
        assert(views(types@.take(i + 1)) =~= views(types@.take(i as int)).push(cache_type@));
        assert(views(types@.take(i + 1)).drop_last() =~= views(types@.take(i as int)));
        if !contains_str(repairable, cache_type.as_str()) {
            let named = cache_type.clone();
            assert(first_unrepairable_at(types@, repairable@, i as int) && named@ == types@[i as int]@);
            return Err(InstallJobError::CacheTypeNotRepairable { cache_type: named });
        }
        if !contains_str(&validated, cache_type.as_str()) {
            let ghost prev = validated@;
            validated.push(cache_type.clone());
            assert(views(validated@) =~= views(prev).push(cache_type@));
        }
        i += 1;
    }
    assert(types@.take(types@.len() as int) =~= types@);
    Ok(validated)
}

/// The cache types to purge before the failed job in `status` with state
/// `job_state` is retried.
pub fn validated_cache_repair_types(
    status: InstallJobStatus,
    job_state: &InstallJobState,
    repairable: &Vec<String>,
) -> (r: Result<Vec<String>, InstallJobError>)
    ensures
        !(status == InstallJobStatus::Failed || status == InstallJobStatus::Interrupted) ==> r
            == Err::<Vec<String>, InstallJobError>(InstallJobError::CacheRepairNotAllowed),
        (status == InstallJobStatus::Failed || status == InstallJobStatus::Interrupted) ==> match job_state.error {
            None => r == Err::<Vec<String>, InstallJobError>(InstallJobError::NoCacheRepairError),
            Some(e) => {
                let types = error_cache_types(e);
                if e.code@ != cache_repair_code() {
                    r == Err::<Vec<String>, InstallJobError>(InstallJobError::CacheRepairNotRequired)
                } else if types.len() == 0 {
                    r == Err::<Vec<String>, InstallJobError>(InstallJobError::NoRepairableCacheTypes)
                } else {
                    match r {
                        Ok(v) => {
                            &&& forall|i: int|
                                0 <= i < types.len() ==> views(repairable@).contains(
                                    #[trigger] types[i]@,
                                )
                            &&& views(v@) == dedup(views(types))
                        },
                        Err(InstallJobError::CacheTypeNotRepairable { cache_type }) => exists|k: int|
                            first_unrepairable_at(types, repairable@, k) && cache_type@
                                == types[k]@,
                        Err(_) => false,
                    }
                }
            },
        },
{
    validated_cache_repair_types_for(status, job_state.error.as_ref(), repairable)
}

/// Records that the cleanup of a canceled job failed with `message`.
pub fn record_rollback_failure(job_state: &mut InstallJobState, message: String)
    ensures
        final(job_state).rollback_error matches Some(e) && e.code@ == "rollback_error"@ && e.phase
            == InstallPhaseId::RollingBack && e.message@ == message@ && e.context is None,
        final(job_state)@ == (InstallJobStateView {
            rollback_error: final(job_state).rollback_error,
            events: old(job_state)@.events.push(
                InstallJobEventKind::RollbackFailed { message },
            ),
            ..old(job_state)@
        }),
{
    job_state.rollback_error = Some(
        InstallErrorView {
            code: String::from_str("rollback_error"),
            phase: InstallPhaseId::RollingBack,
            message: message.clone(),
            context: None,
        },
    );
    job_state.record_event(InstallJobEventKind::RollbackFailed { message });
}

/// Records how the cleanup of a canceled job ended: a failure with its
/// message is kept as the rollback error; after a cleanup that succeeded, a
/// deleted new instance is forgotten. Returns whether the cleanup succeeded.
pub fn record_cancel_cleanup(job_state: &mut InstallJobState, cleanup: Result<(), String>) -> (ok:
    bool)
    ensures
        ok == (cleanup is Ok),
        match cleanup {
            Ok(_) => final(job_state)@ == if old(job_state).cleanup is DeleteNewInstance {
                InstallJobStateView {
                    target: InstallTarget::NewInstance { instance_id: None },
                    cleanup: InstallCleanup::DeleteNewInstance { instance_id: None },
                    ..old(job_state)@
                }
            } else {
                old(job_state)@
            },
            Err(message) => {
                &&& final(job_state).rollback_error matches Some(e) && e.code@ == "rollback_error"@
                    && e.phase == InstallPhaseId::RollingBack && e.message@ == message@
                    && e.context is None
                &&& final(job_state)@ == (InstallJobStateView {
                    rollback_error: final(job_state).rollback_error,
                    events: old(job_state)@.events.push(
                        InstallJobEventKind::RollbackFailed { message },
                    ),
                    ..old(job_state)@
                })
            },
        },
{
    match cleanup {
        Ok(()) => {
            clear_deleted_new_instance_id(job_state);
            true
        },
        Err(message) => {
            record_rollback_failure(job_state, message);
            false
        },
    }
}

/// Prepares the rollback of a job that changes an existing instance, read
/// from the instance database as `instance`: unless a rollback is prepared
/// already, the job shows the instance, keeps it with its install stage for
/// the rollback and restores it on failure. Returns whether the rollback was
/// prepared now, in which case the instance must be marked as installing.
pub fn begin_existing_rollback(job_state: &mut InstallJobState, instance: InstanceSnapshot) -> (prepared:
    bool)
    ensures
        prepared == (old(job_state).rollback is None),
        !prepared ==> final(job_state)@ == old(job_state)@,
        prepared ==> final(job_state)@ == (InstallJobStateView {
            display: Some(InstallJobDisplay { title: instance.name, icon: instance.icon_path }),
            cleanup: InstallCleanup::RestoreExistingInstance { instance_id: instance.instance_id },
            rollback: Some(InstallRollbackState { instance, install_stage: instance.install_stage }),
            ..old(job_state)@
        }),
{
    if job_state.rollback.is_some() {
        return false;
    }
    let title = instance.name.clone();
    let icon = clone_option_string(&instance.icon_path);
    let instance_id = instance.instance_id.clone();
    let install_stage = instance.install_stage;
    job_state.display = Some(InstallJobDisplay { title, icon });
    job_state.rollback = Some(InstallRollbackState { instance, install_stage });
    job_state.cleanup = InstallCleanup::RestoreExistingInstance { instance_id };
    true
}

/// Setting the instance of a job is read back by `current_instance_id`,
/// and keeps the kinds of its target and cleanup.
pub proof fn set_instance_id_is_read_back(
    target: InstallTarget,
    cleanup: InstallCleanup,
    instance_id: String,
)
    ensures
        target_instance_id(retarget(target, instance_id)) == Some(instance_id),
        (retarget(target, instance_id) is NewInstance) == (target is NewInstance),
        (reclean(cleanup, instance_id) is DeleteNewInstance) == (cleanup is DeleteNewInstance),
        (reclean(cleanup, instance_id) is NoCleanup) == (cleanup is NoCleanup),
{
}

/// Only a queued, running, waiting or canceling job can be canceled: a
/// running job is signalled, a canceling one is left to finish, a queued or
/// waiting one is rolled back here, and a cancel request on a job in any
/// other status (canceled, completed, failed, interrupted) is refused.
pub proof fn only_live_jobs_can_be_canceled(status: InstallJobStatus)
    ensures
        (cancel_action_for(status) == CancelAction::Refuse) <==> !(status == InstallJobStatus::Queued
            || status == InstallJobStatus::Running || status == InstallJobStatus::WaitingForUser
            || status == InstallJobStatus::Canceling),
        status == InstallJobStatus::Running ==> cancel_action_for(status)
            == CancelAction::SignalRunningJob,
        status == InstallJobStatus::Canceling ==> cancel_action_for(status)
            == CancelAction::AlreadyCanceling,
        (status == InstallJobStatus::Queued || status == InstallJobStatus::WaitingForUser)
            ==> cancel_action_for(status) == CancelAction::RollBackIdleJob,
{
}

} // verus!
