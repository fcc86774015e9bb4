use app_lib::install_errors::{
    cache_purge_error, failed_initialization_error, install_error_code, install_error_view,
    retry_after_purge_error, ErrorKind, InstallError,
};
use app_lib::install_jobs::{
    begin_canceling_job, begin_existing_rollback, cancel_action, check_requeued,
    record_cancel_cleanup, record_rollback_failure, validated_cache_repair_types, check_resumable, check_retryable, check_retryable_as_new,
    check_skippable, clear_deleted_new_instance_id, current_instance_id, missing_item_paths,
    cancel_decision, cancel_job_state, check_duplicable, initial_phase_for, prepare_resumed_job, reset_for_retry, set_display, set_instance_id, skip_missing_content,
    validated_cache_repair_types_for, CancelAction, InstallJobError,
};
use app_lib::install_model::{
    DownloadItem, DownloadItemStatus, InstallCleanup, InstallErrorContext, InstallErrorView,
    InstallJobEventKind, InstallJobState, InstallJobStatus, InstallPauseReason, InstallPhaseDetails,
    InstallPhaseId, InstallProgressState, InstallRequest, InstallRequestKind, InstallTarget,
    InstanceInstallStage, InstanceSnapshot,
};
use app_lib::install_requests::{CreatePackLocation, InstanceLink};
use app_lib::loader::ModLoader;

fn request_of(kind: InstallRequestKind) -> InstallRequest {
    match kind {
        InstallRequestKind::CreateInstance => InstallRequest::CreateInstance {
            name: "Pack".to_string(),
            game_version: "1.20.1".to_string(),
            loader: ModLoader::Fabric,
            loader_version: None,
            adjuncts: Vec::new(),
            icon_path: None,
            link: InstanceLink::Unmanaged,
        },
        InstallRequestKind::CreateModpackInstance => InstallRequest::CreateModpackInstance {
            location: CreatePackLocation::FromFile { path: "pack.mrpack".to_string() },
            post_install_edit: None,
        },
        InstallRequestKind::ImportInstance => InstallRequest::ImportInstance {
            launcher_type: "MultiMC".to_string(),
            instance_folder: "old".to_string(),
        },
        InstallRequestKind::DuplicateInstance => InstallRequest::DuplicateInstance {
            source_instance_id: "src".to_string(),
        },
        InstallRequestKind::InstallExistingInstance => InstallRequest::InstallExistingInstance {
            instance_id: "inst".to_string(),
            force: false,
        },
        InstallRequestKind::UpgradeUnmanagedInstance => InstallRequest::UpgradeUnmanagedInstance {
            instance_id: "src".to_string(),
            direct: false,
            copy_name: None,
        },
        InstallRequestKind::InstallContent => InstallRequest::InstallContent {
            instance_id: "inst".to_string(),
            project_id: "AANobbMI".to_string(),
            display_title: "Sodium".to_string(),
            display_icon: None,
        },
        InstallRequestKind::InstallCurseForgeContent => InstallRequest::InstallCurseForgeContent {
            instance_id: "inst".to_string(),
            project_id: 238222,
            display_title: "JEI".to_string(),
            display_icon: None,
        },
        InstallRequestKind::InstallCurseForgeWorld => InstallRequest::InstallCurseForgeWorld {
            instance_id: "inst".to_string(),
            display_title: "World".to_string(),
            display_icon: None,
        },
        InstallRequestKind::DownloadJava => InstallRequest::DownloadJava {
            vendor: "temurin".to_string(),
            version: 21,
        },
        InstallRequestKind::InstallPackToExistingInstance => InstallRequest::InstallPackToExistingInstance {
            instance_id: "inst".to_string(),
            location: CreatePackLocation::FromFile { path: "pack.mrpack".to_string() },
            post_install_edit: None,
        },
        InstallRequestKind::UpdateManagedCurseForgeModpack => InstallRequest::UpdateManagedCurseForgeModpack {
            instance_id: "inst".to_string(),
            file_id: 7,
        },
    }
}

fn snapshot(id: &str, name: &str) -> InstanceSnapshot {
    InstanceSnapshot {
        instance_id: id.to_string(),
        name: name.to_string(),
        icon_path: None,
        install_stage: InstanceInstallStage::Installed,
        game_version: "1.20.1".to_string(),
        loader: ModLoader::Fabric,
        loader_version: None,
        link: InstanceLink::Unmanaged,
        direct_linked: false,
    }
}

fn new_job(kind: InstallRequestKind) -> InstallJobState {
    InstallJobState {
        request: request_of(kind),
        target: InstallTarget::NewInstance { instance_id: None },
        cleanup: InstallCleanup::DeleteNewInstance { instance_id: None },
        rollback: None,
        error: None,
        rollback_error: None,
        pause_reason: None,
        continuation: None,
        context: None,
        progress: InstallProgressState {
            phase: InstallPhaseId::DownloadingContent,
            progress: None,
            details: InstallPhaseDetails::Empty,
            parallel: None,
        },
        display: None,
        skipped_missing_content_paths: Vec::new(),
        active_downloads: vec!["x".to_string()],
        events: Vec::new(),
    }
}

fn strings(values: &[&str]) -> Vec<String> {
    values.iter().map(|value| value.to_string()).collect()
}

#[test]
fn set_instance_id_is_read_back() {
    let mut job = new_job(InstallRequestKind::CreateInstance);
    assert_eq!(current_instance_id(&job), None);
    set_instance_id(&mut job, "abc".to_string());
    assert_eq!(current_instance_id(&job), Some("abc".to_string()));
    assert!(matches!(
        job.cleanup,
        InstallCleanup::DeleteNewInstance { instance_id: Some(ref id) } if id == "abc"
    ));

    let mut existing = new_job(InstallRequestKind::InstallExistingInstance);
    existing.target = InstallTarget::ExistingInstance { instance_id: "old".to_string() };
    existing.cleanup = InstallCleanup::NoCleanup;
    set_instance_id(&mut existing, "new".to_string());
    assert_eq!(current_instance_id(&existing), Some("new".to_string()));
    assert!(matches!(existing.cleanup, InstallCleanup::NoCleanup));
}

#[test]
fn deleted_new_instance_is_forgotten() {
    let mut job = new_job(InstallRequestKind::CreateInstance);
    set_instance_id(&mut job, "abc".to_string());
    clear_deleted_new_instance_id(&mut job);
    assert_eq!(current_instance_id(&job), None);

    let mut existing = new_job(InstallRequestKind::InstallExistingInstance);
    existing.target = InstallTarget::ExistingInstance { instance_id: "keep".to_string() };
    existing.cleanup = InstallCleanup::RestoreExistingInstance { instance_id: "keep".to_string() };
    clear_deleted_new_instance_id(&mut existing);
    assert_eq!(current_instance_id(&existing), Some("keep".to_string()));
}

#[test]
fn resumed_job_is_queued_again() {
    let mut job = new_job(InstallRequestKind::InstallContent);
    job.pause_reason = Some(InstallPauseReason::MissingRequiredContent {
        failed_files: 1,
        paths: strings(&["a"]),
    });
    prepare_resumed_job(&mut job);
    assert!(job.pause_reason.is_none());
    assert!(job.active_downloads.is_empty());
    assert!(matches!(
        job.events.as_slice(),
        [InstallJobEventKind::JobQueued { kind: InstallRequestKind::InstallContent }]
    ));
}

#[test]
fn canceled_job_rolls_back_from_its_phase() {
    let mut job = new_job(InstallRequestKind::CreateInstance);
    begin_canceling_job(&mut job);
    let error = job.error.as_ref().unwrap();
    assert_eq!(error.code, "canceled");
    assert_eq!(error.message, "Install was canceled");
    assert_eq!(error.phase, InstallPhaseId::DownloadingContent);
    assert_eq!(job.progress.phase, InstallPhaseId::RollingBack);
    assert!(matches!(
        job.events.as_slice(),
        [
            InstallJobEventKind::JobCanceled { phase: InstallPhaseId::DownloadingContent },
            InstallJobEventKind::RollbackStarted { cleanup: InstallCleanup::DeleteNewInstance { instance_id: None } },
        ]
    ));
}

#[test]
fn retried_job_starts_over() {
    let mut job = new_job(InstallRequestKind::CreateInstance);
    begin_canceling_job(&mut job);
    reset_for_retry(
        &mut job,
        InstallTarget::NewInstance { instance_id: None },
        InstallCleanup::DeleteNewInstance { instance_id: None },
    );
    assert!(job.error.is_none());
    assert_eq!(job.progress.phase, InstallPhaseId::PreparingInstance);
    assert!(matches!(
        job.events.last(),
        Some(InstallJobEventKind::JobQueued { kind: InstallRequestKind::CreateInstance })
    ));
    let mut java = new_job(InstallRequestKind::DownloadJava);
    reset_for_retry(&mut java, InstallTarget::NewInstance { instance_id: None }, InstallCleanup::NoCleanup);
    assert_eq!(java.progress.phase, InstallPhaseId::PreparingJava);
    assert_eq!(initial_phase_for(InstallRequestKind::InstallContent), InstallPhaseId::DownloadingContent);
    assert_eq!(initial_phase_for(InstallRequestKind::InstallExistingInstance), InstallPhaseId::DownloadingMinecraft);
    assert!(matches!(job.progress.details, InstallPhaseDetails::Empty));
}

#[test]
fn job_operations_check_the_status() {
    assert!(check_retryable(InstallJobStatus::Failed).is_ok());
    assert!(check_retryable(InstallJobStatus::Interrupted).is_ok());
    assert!(matches!(check_retryable(InstallJobStatus::Canceled), Err(InstallJobError::NotRetryable)));
    assert!(check_retryable_as_new(InstallJobStatus::Canceled).is_ok());
    assert!(check_retryable_as_new(InstallJobStatus::Running).is_err());
    assert!(check_resumable(InstallJobStatus::WaitingForUser).is_ok());
    assert!(check_resumable(InstallJobStatus::Queued).is_err());
    assert!(check_skippable(InstallJobStatus::WaitingForUser, InstallRequestKind::InstallContent).is_ok());
    assert!(matches!(
        check_skippable(InstallJobStatus::WaitingForUser, InstallRequestKind::UpdateManagedCurseForgeModpack),
        Err(InstallJobError::CannotSkipCurseForgeUpdate)
    ));
    assert!(matches!(
        check_skippable(InstallJobStatus::Running, InstallRequestKind::InstallContent),
        Err(InstallJobError::NotSkippable)
    ));
    assert_eq!(cancel_action(InstallJobStatus::Running), CancelAction::SignalRunningJob);
    assert_eq!(cancel_action(InstallJobStatus::Canceling), CancelAction::AlreadyCanceling);
    assert_eq!(cancel_action(InstallJobStatus::Queued), CancelAction::RollBackIdleJob);
    assert_eq!(cancel_action(InstallJobStatus::WaitingForUser), CancelAction::RollBackIdleJob);
    assert_eq!(cancel_action(InstallJobStatus::Completed), CancelAction::Refuse);
    assert_eq!(
        InstallJobError::NotCancelable.message(),
        "Only queued, running, or waiting install jobs can be canceled"
    );
}

#[test]
fn missing_items_are_failed_or_manual() {
    let items = vec![
        DownloadItem { id: "a".to_string(), status: DownloadItemStatus::Failed, manual_url: None },
        DownloadItem { id: "b".to_string(), status: DownloadItemStatus::Skipped, manual_url: None },
        DownloadItem {
            id: "c".to_string(),
            status: DownloadItemStatus::Skipped,
            manual_url: Some("https://example.invalid".to_string()),
        },
        DownloadItem { id: "d".to_string(), status: DownloadItemStatus::Completed, manual_url: None },
    ];
    assert_eq!(missing_item_paths(&items), strings(&["a", "c"]));
}

#[test]
fn skipped_paths_stay_sorted_and_unique() {
    let mut job = new_job(InstallRequestKind::InstallContent);
    assert!(matches!(
        skip_missing_content(&mut job, strings(&["x"])),
        Err(InstallJobError::NoMissingContent)
    ));
    job.pause_reason = Some(InstallPauseReason::MissingRequiredContent {
        failed_files: 2,
        paths: strings(&["mods/z.jar", "mods/a.jar"]),
    });
    job.skipped_missing_content_paths = strings(&["mods/m.jar"]);
    skip_missing_content(&mut job, Vec::new()).unwrap();
    assert_eq!(job.skipped_missing_content_paths, strings(&["mods/a.jar", "mods/m.jar", "mods/z.jar"]));
    skip_missing_content(&mut job, strings(&["mods/b.jar", "mods/a.jar"])).unwrap();
    assert_eq!(
        job.skipped_missing_content_paths,
        strings(&["mods/a.jar", "mods/b.jar", "mods/m.jar", "mods/z.jar"])
    );

    job.pause_reason = Some(InstallPauseReason::MissingRequiredContent { failed_files: 0, paths: Vec::new() });
    assert!(matches!(
        skip_missing_content(&mut job, Vec::new()),
        Err(InstallJobError::NoMissingContent)
    ));
}

fn cache_error(code: &str, cache_types: &[&str]) -> InstallErrorView {
    InstallErrorView {
        code: code.to_string(),
        phase: InstallPhaseId::ResolvingPack,
        message: "failed".to_string(),
        context: Some(InstallErrorContext {
            operation: "read project metadata cache".to_string(),
            cache_types: strings(cache_types),
            sqlite_code: None,
        }),
    }
}

#[test]
fn cache_repair_types_are_validated() {
    let repairable = strings(&["project", "version"]);
    let error = cache_error("cache_repair_required", &["version", "project", "version"]);
    assert_eq!(
        validated_cache_repair_types_for(InstallJobStatus::Failed, Some(&error), &repairable).unwrap(),
        strings(&["version", "project"])
    );
    assert!(matches!(
        validated_cache_repair_types_for(InstallJobStatus::Running, Some(&error), &repairable),
        Err(InstallJobError::CacheRepairNotAllowed)
    ));
    assert!(matches!(
        validated_cache_repair_types_for(InstallJobStatus::Failed, None, &repairable),
        Err(InstallJobError::NoCacheRepairError)
    ));
    let other = cache_error("network_error", &["project"]);
    assert!(matches!(
        validated_cache_repair_types_for(InstallJobStatus::Interrupted, Some(&other), &repairable),
        Err(InstallJobError::CacheRepairNotRequired)
    ));
    let empty = cache_error("cache_repair_required", &[]);
    assert!(matches!(
        validated_cache_repair_types_for(InstallJobStatus::Failed, Some(&empty), &repairable),
        Err(InstallJobError::NoRepairableCacheTypes)
    ));
    let unknown = cache_error("cache_repair_required", &["project", "user", "team"]);
    match validated_cache_repair_types_for(InstallJobStatus::Failed, Some(&unknown), &repairable) {
        Err(error @ InstallJobError::CacheTypeNotRepairable { .. }) => {
            assert_eq!(error.message(), "Cache type is not repairable: user");
        }
        other => panic!("unexpected {other:?}"),
    }
}

#[test]
fn install_errors_are_classified() {
    let cache = ErrorKind::CacheReadError { cache_type: "project".to_string(), sqlite_code: None };
    assert_eq!(install_error_code(InstallPhaseId::Verifying, &cache), "cache_repair_required");
    let format = ErrorKind::InputError("Unrecognized modpack format: x".to_string());
    assert_eq!(install_error_code(InstallPhaseId::ResolvingPack, &format), "unrecognized_format");
    assert_eq!(install_error_code(InstallPhaseId::DownloadingContent, &format), "content_error");
    let input = ErrorKind::InputError("bad".to_string());
    assert_eq!(install_error_code(InstallPhaseId::ExtractingOverrides, &input), "path_error");
    assert_eq!(install_error_code(InstallPhaseId::RollingBack, &input), "rollback_error");
    assert_eq!(install_error_code(InstallPhaseId::Verifying, &input), "launcher_error");
    assert_eq!(install_error_code(InstallPhaseId::RunningLoaderProcessors, &ErrorKind::LauncherError), "processor_error");
    assert_eq!(install_error_code(InstallPhaseId::Finalizing, &ErrorKind::LauncherError), "launcher_error");
    assert_eq!(install_error_code(InstallPhaseId::ResolvingLoader, &ErrorKind::MetadataError), "loader_error");
    assert_eq!(install_error_code(InstallPhaseId::Finalizing, &ErrorKind::NoValueFor), "metadata_error");
    assert_eq!(install_error_code(InstallPhaseId::Finalizing, &ErrorKind::HttpError), "network_error");
    assert_eq!(install_error_code(InstallPhaseId::DownloadingMinecraft, &ErrorKind::Any), "network_error");
    assert_eq!(install_error_code(InstallPhaseId::Finalizing, &ErrorKind::Any), "internal_error");
    assert_eq!(install_error_code(InstallPhaseId::Finalizing, &ErrorKind::ZipError), "archive_error");
    assert_eq!(install_error_code(InstallPhaseId::Finalizing, &ErrorKind::StdIOError), "filesystem_error");
    assert_eq!(install_error_code(InstallPhaseId::Finalizing, &ErrorKind::JSONError), "parse_error");
    assert_eq!(install_error_code(InstallPhaseId::Finalizing, &ErrorKind::SqlxMigrate), "database_error");
    assert_eq!(install_error_code(InstallPhaseId::Finalizing, &ErrorKind::Unclassified), "unknown_error");
}

#[test]
fn cache_read_error_view_names_its_cache() {
    let error = InstallError {
        kind: ErrorKind::CacheReadError {
            cache_type: "version".to_string(),
            sqlite_code: Some("11".to_string()),
        },
        message: "cache is corrupt".to_string(),
    };
    let view = install_error_view(InstallPhaseId::ResolvingPack, &error, None);
    assert_eq!(view.code, "cache_repair_required");
    assert_eq!(view.message, "cache is corrupt");
    let context = view.context.as_ref().unwrap();
    assert_eq!(context.operation, "read project metadata cache");
    assert_eq!(context.cache_types, strings(&["version"]));
    assert_eq!(context.sqlite_code.as_deref(), Some("11"));
    assert_eq!(
        validated_cache_repair_types_for(InstallJobStatus::Failed, Some(&view), &strings(&["version"])).unwrap(),
        strings(&["version"])
    );

    let plain = InstallError { kind: ErrorKind::NetworkError, message: "offline".to_string() };
    let view = install_error_view(InstallPhaseId::DownloadingContent, &plain, None);
    assert_eq!(view.code, "network_error");
    assert!(view.context.is_none());
}

#[test]
fn display_is_set() {
    let mut job = new_job(InstallRequestKind::DownloadJava);
    set_display(&mut job, "Java 21 (temurin)".to_string(), None);
    assert_eq!(job.display.as_ref().unwrap().title, "Java 21 (temurin)");
}

#[test]
fn rollback_failures_are_recorded() {
    let mut job = new_job(InstallRequestKind::InstallExistingInstance);
    record_rollback_failure(&mut job, "could not restore".to_string());
    let error = job.rollback_error.as_ref().unwrap();
    assert_eq!(error.code, "rollback_error");
    assert_eq!(error.phase, InstallPhaseId::RollingBack);
    assert_eq!(error.message, "could not restore");
    assert!(matches!(
        job.events.last(),
        Some(InstallJobEventKind::RollbackFailed { message }) if message == "could not restore"
    ));
}

#[test]
fn existing_rollback_is_prepared_once() {
    let mut job = new_job(InstallRequestKind::InstallExistingInstance);
    let mut read = snapshot("inst", "My pack");
    read.install_stage = InstanceInstallStage::PackInstalling;
    assert!(begin_existing_rollback(&mut job, read));
    assert_eq!(job.display.as_ref().unwrap().title, "My pack");
    let rollback = job.rollback.as_ref().unwrap();
    assert_eq!(rollback.instance.instance_id, "inst");
    assert_eq!(rollback.install_stage, InstanceInstallStage::PackInstalling);
    assert!(matches!(
        job.cleanup,
        InstallCleanup::RestoreExistingInstance { ref instance_id } if instance_id == "inst"
    ));
    assert!(!begin_existing_rollback(&mut job, snapshot("other", "Other")));
    assert_eq!(job.rollback.as_ref().unwrap().instance.instance_id, "inst");
    assert_eq!(job.display.as_ref().unwrap().title, "My pack");
}

#[test]
fn cache_repair_reads_the_job_error() {
    let mut job = new_job(InstallRequestKind::CreateModpackInstance);
    job.error = Some(cache_error("cache_repair_required", &["project"]));
    assert_eq!(
        validated_cache_repair_types(InstallJobStatus::Interrupted, &job, &strings(&["project"])).unwrap(),
        strings(&["project"])
    );
    job.error = None;
    assert!(matches!(
        validated_cache_repair_types(InstallJobStatus::Failed, &job, &strings(&["project"])),
        Err(InstallJobError::NoCacheRepairError)
    ));
}

#[test]
fn requeue_needs_the_waiting_status() {
    assert!(check_requeued(true).is_ok());
    let error = check_requeued(false).unwrap_err();
    assert_eq!(error.message(), "Install job is no longer waiting for user action");
}

#[test]
fn cancel_cleanup_outcome_is_recorded() {
    let mut job = new_job(InstallRequestKind::CreateInstance);
    set_instance_id(&mut job, "made".to_string());
    assert!(record_cancel_cleanup(&mut job, Ok(())));
    assert_eq!(current_instance_id(&job), None);
    assert!(job.rollback_error.is_none());

    let mut failed = new_job(InstallRequestKind::CreateInstance);
    set_instance_id(&mut failed, "made".to_string());
    assert!(!record_cancel_cleanup(&mut failed, Err("disk full".to_string())));
    assert_eq!(current_instance_id(&failed), Some("made".to_string()));
    assert_eq!(failed.rollback_error.as_ref().unwrap().message, "disk full");
}

#[test]
fn initialization_failures_report_the_cleanup() {
    let error = InstallError { kind: ErrorKind::NetworkError, message: "offline".to_string() };
    let kept = failed_initialization_error(error, Ok(()));
    assert!(matches!(kept.kind, ErrorKind::NetworkError));
    assert_eq!(kept.message, "offline");
    let error = InstallError { kind: ErrorKind::NetworkError, message: "offline".to_string() };
    let both = failed_initialization_error(error, Err("locked".to_string()));
    assert!(matches!(both.kind, ErrorKind::OtherError));
    assert_eq!(both.message, "Install initialization failed: offline; cleanup also failed: locked");
}

#[test]
fn cache_repair_failures_say_what_happened() {
    assert_eq!(
        cache_purge_error("database is locked").message,
        "Project cache cleanup failed; retry was not started: database is locked"
    );
    assert_eq!(
        retry_after_purge_error("busy").message,
        "Project cache was cleared, but retry could not be started: busy"
    );
}

#[test]
fn cancel_requests_are_decided_by_status() {
    assert!(matches!(cancel_decision(InstallJobStatus::Running), Ok(CancelAction::SignalRunningJob)));
    assert!(matches!(cancel_decision(InstallJobStatus::Canceling), Ok(CancelAction::AlreadyCanceling)));
    assert!(matches!(cancel_decision(InstallJobStatus::Queued), Ok(CancelAction::RollBackIdleJob)));
    let error = cancel_decision(InstallJobStatus::Completed).unwrap_err();
    assert_eq!(error.message(), "Only queued, running, or waiting install jobs can be canceled");
}

#[test]
fn a_whole_cancel_ends_as_its_status_says() {
    let mut running = new_job(InstallRequestKind::CreateInstance);
    assert_eq!(
        cancel_job_state(InstallJobStatus::Running, &mut running, Ok(())).unwrap(),
        InstallJobStatus::Canceling
    );
    assert!(running.events.is_empty() && running.error.is_none());
    assert_eq!(
        cancel_job_state(InstallJobStatus::Canceling, &mut running, Ok(())).unwrap(),
        InstallJobStatus::Canceling
    );
    assert!(running.events.is_empty());
    assert!(matches!(
        cancel_job_state(InstallJobStatus::Failed, &mut running, Ok(())),
        Err(InstallJobError::NotCancelable)
    ));

    let mut idle = new_job(InstallRequestKind::CreateInstance);
    set_instance_id(&mut idle, "made".to_string());
    assert_eq!(
        cancel_job_state(InstallJobStatus::Queued, &mut idle, Ok(())).unwrap(),
        InstallJobStatus::Canceled
    );
    assert_eq!(idle.error.as_ref().unwrap().code, "canceled");
    assert_eq!(idle.progress.phase, InstallPhaseId::RollingBack);
    assert!(idle.rollback_error.is_none());
    assert_eq!(current_instance_id(&idle), None);
    assert_eq!(idle.events.len(), 2);

    let mut failed = new_job(InstallRequestKind::CreateInstance);
    assert_eq!(
        cancel_job_state(InstallJobStatus::WaitingForUser, &mut failed, Err("locked".to_string())).unwrap(),
        InstallJobStatus::Canceled
    );
    assert_eq!(failed.rollback_error.as_ref().unwrap().message, "locked");
    assert_eq!(failed.events.len(), 3);
}

#[test]
fn instances_of_external_launchers_are_not_duplicated() {
    let mut linked = snapshot("inst", "Prism pack");
    assert!(check_duplicable(Some(&linked)).is_ok());
    assert!(check_duplicable(None).is_ok());
    linked.direct_linked = true;
    let error = check_duplicable(Some(&linked)).unwrap_err();
    assert_eq!(
        error.message(),
        "\"Prism pack\" is directly associated with an external launcher and cannot be duplicated; its files are managed by that launcher"
    );
}
