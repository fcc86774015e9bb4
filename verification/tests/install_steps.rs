use app_lib::install_adjuncts::{adjunct_install_step, AdjunctAction, AdjunctEvent, AdjunctInstall};
use app_lib::loader::{CurseForgeInstallOutcome, InstalledCurseForgeFile};
use app_lib::install_jobs::{current_instance_id, InstallJobError};
use app_lib::install_model::{
    InstallCleanup, InstallContinuationState, InstallJobEventKind, InstallJobState,
    InstallPauseReason, InstallPhaseDetails, InstallPhaseId, InstallProgressState, InstallRequest,
    InstallTarget, InstanceInstallStage, InstanceSnapshot,
};
use app_lib::install_prepare::{prepare_initial_instance_step, PrepareAction, PrepareEvent};
use app_lib::install_requests::{ContentProviderRef, CreatePackLocation, InstanceLink, ProjectFile};
use app_lib::install_run::{run_request_step, ManualWorldDownload, RunAction, RunEvent};
use app_lib::loader::{
    CurseForgeFile, LoaderComponent, LoaderComponentKind, LoaderComponentRole, ModLoader,
    OPTIFABRIC_CURSEFORGE_PROJECT_ID,
};

fn job(request: InstallRequest, target: InstallTarget, cleanup: InstallCleanup) -> InstallJobState {
    InstallJobState {
        request,
        target,
        cleanup,
        rollback: None,
        error: None,
        rollback_error: None,
        pause_reason: None,
        continuation: None,
        context: None,
        progress: InstallProgressState {
            phase: InstallPhaseId::PreparingInstance,
            progress: None,
            details: InstallPhaseDetails::Empty,
            parallel: None,
        },
        display: None,
        skipped_missing_content_paths: Vec::new(),
        active_downloads: Vec::new(),
        events: Vec::new(),
    }
}

fn new_instance_job(request: InstallRequest) -> InstallJobState {
    job(
        request,
        InstallTarget::NewInstance { instance_id: None },
        InstallCleanup::DeleteNewInstance { instance_id: None },
    )
}

fn adjunct(kind: LoaderComponentKind) -> LoaderComponent {
    LoaderComponent {
        instance_id: String::new(),
        kind,
        version: None,
        role: LoaderComponentRole::Adjunct,
        provider_metadata: None,
    }
}

fn snapshot(id: &str) -> InstanceSnapshot {
    InstanceSnapshot {
        instance_id: id.to_string(),
        name: "Existing".to_string(),
        icon_path: None,
        install_stage: InstanceInstallStage::Installed,
        game_version: "1.20.1".to_string(),
        loader: ModLoader::Fabric,
        loader_version: None,
        link: InstanceLink::Unmanaged,
        direct_linked: false,
    }
}

fn fabric_request(adjuncts: Vec<LoaderComponent>) -> InstallRequest {
    InstallRequest::CreateInstance {
        name: "Pack".to_string(),
        game_version: "1.20.1".to_string(),
        loader: ModLoader::Fabric,
        loader_version: None,
        adjuncts,
        icon_path: None,
        link: InstanceLink::Unmanaged,
    }
}

#[test]
fn a_new_fabric_instance_with_optifine_gets_optifabric() {
    let mut state = new_instance_job(fabric_request(vec![adjunct(LoaderComponentKind::OptiFine)]));
    assert!(matches!(
        prepare_initial_instance_step(&mut state, PrepareEvent::Started),
        PrepareAction::ResolveAdjunctVersions { ref game_version } if game_version == "1.20.1"
    ));
    let action = prepare_initial_instance_step(
        &mut state,
        PrepareEvent::AdjunctVersionsResolved { versions: vec![Some("HD_U_I6".to_string())] },
    );
    assert!(matches!(action, PrepareAction::FetchOptiFabricFiles));
    let files = vec![CurseForgeFile {
        id: 4711,
        mod_id: OPTIFABRIC_CURSEFORGE_PROJECT_ID,
        is_available: true,
        game_versions: vec!["1.20.1".to_string()],
    }];
    let action = prepare_initial_instance_step(&mut state, PrepareEvent::OptiFabricFilesFetched { files });
    assert!(matches!(action, PrepareAction::CreateInstance { ref instance } if instance.name == "Pack"));
    match &state.request {
        InstallRequest::CreateInstance { adjuncts, .. } => {
            assert_eq!(adjuncts.len(), 2);
            assert_eq!(adjuncts[0].version.as_deref(), Some("HD_U_I6"));
            assert_eq!(adjuncts[1].kind, LoaderComponentKind::OptiFabric);
            assert_eq!(adjuncts[1].version.as_deref(), Some("4711"));
        }
        _ => panic!("request changed kind"),
    }
    let primary = LoaderComponent {
        instance_id: "new".to_string(),
        kind: LoaderComponentKind::Fabric,
        version: None,
        role: LoaderComponentRole::Primary,
        provider_metadata: None,
    };
    let action = prepare_initial_instance_step(
        &mut state,
        PrepareEvent::InstanceCreated {
            instance_id: "new".to_string(),
            name: "Pack".to_string(),
            icon_path: None,
            loader_components: vec![primary],
        },
    );
    match action {
        PrepareAction::ReplaceLoaderComponents { instance_id, components } => {
            assert_eq!(instance_id, "new");
            assert_eq!(components.len(), 3);
            assert_eq!(components[2].instance_id, "new");
        }
        other => panic!("unexpected {other:?}"),
    }
    assert_eq!(current_instance_id(&state), Some("new".to_string()));
    assert!(matches!(
        prepare_initial_instance_step(&mut state, PrepareEvent::LoaderComponentsReplaced),
        PrepareAction::Done
    ));
}

#[test]
fn preparation_refuses_bad_requests() {
    let mut state = new_instance_job(InstallRequest::CreateInstance {
        name: "Pack".to_string(),
        game_version: "1.20.1".to_string(),
        loader: ModLoader::Fabric,
        loader_version: None,
        adjuncts: Vec::new(),
        icon_path: None,
        link: InstanceLink::CurseForgeModpack { project_id: "x".to_string(), version_id: "1".to_string() },
    });
    assert!(matches!(
        prepare_initial_instance_step(&mut state, PrepareEvent::Started),
        PrepareAction::Refuse { error: InstallJobError::InvalidCurseForgeProjectId }
    ));
    let mut missing = new_instance_job(fabric_request(vec![adjunct(LoaderComponentKind::OptiFine)]));
    prepare_initial_instance_step(&mut missing, PrepareEvent::Started);
    match prepare_initial_instance_step(&mut missing, PrepareEvent::AdjunctVersionsResolved { versions: vec![None] }) {
        PrepareAction::Fail { error } => {
            assert_eq!(error.message(), "No OptiFine version supports Minecraft 1.20.1")
        }
        other => panic!("unexpected {other:?}"),
    }
    let mut content = job(
        InstallRequest::InstallContent {
            instance_id: "gone".to_string(),
            project_id: "p".to_string(),
            display_title: "Mod".to_string(),
            display_icon: None,
        },
        InstallTarget::ExistingInstance { instance_id: "gone".to_string() },
        InstallCleanup::NoCleanup,
    );
    assert!(matches!(
        prepare_initial_instance_step(&mut content, PrepareEvent::Started),
        PrepareAction::ReadInstance { .. }
    ));
    match prepare_initial_instance_step(&mut content, PrepareEvent::InstanceRead { instance: None }) {
        PrepareAction::Refuse { error } => assert_eq!(error.message(), "Unknown instance gone"),
        other => panic!("unexpected {other:?}"),
    }
}

#[test]
fn existing_instances_get_their_rollback_once() {
    let request = InstallRequest::InstallExistingInstance { instance_id: "inst".to_string(), force: true };
    let mut state = job(
        request,
        InstallTarget::ExistingInstance { instance_id: "inst".to_string() },
        InstallCleanup::NoCleanup,
    );
    assert!(matches!(
        prepare_initial_instance_step(&mut state, PrepareEvent::Started),
        PrepareAction::ReadInstance { ref instance_id } if instance_id == "inst"
    ));
    assert!(matches!(
        prepare_initial_instance_step(&mut state, PrepareEvent::InstanceRead { instance: Some(snapshot("inst")) }),
        PrepareAction::MarkMinecraftInstalling { .. }
    ));
    assert_eq!(state.rollback.as_ref().unwrap().install_stage, InstanceInstallStage::Installed);
    assert!(matches!(state.cleanup, InstallCleanup::RestoreExistingInstance { .. }));
    // The run finds the rollback prepared and goes on.
    assert!(matches!(run_request_step(&mut state, RunEvent::Started), RunAction::StoreProgress));
    assert_eq!(state.progress.phase, InstallPhaseId::DownloadingMinecraft);
    assert!(matches!(
        run_request_step(&mut state, RunEvent::ProgressStored),
        RunAction::InstallMinecraft { force: true, .. }
    ));
    assert!(matches!(
        run_request_step(&mut state, RunEvent::MinecraftInstalled),
        RunAction::Complete { instance_id: Some(ref id) } if id == "inst"
    ));
}

#[test]
fn a_pack_over_an_existing_instance_keeps_disabled_projects() {
    let request = InstallRequest::InstallPackToExistingInstance {
        instance_id: "inst".to_string(),
        location: CreatePackLocation::FromFile { path: "pack.mrpack".to_string() },
        post_install_edit: None,
    };
    let mut state = job(
        request,
        InstallTarget::ExistingInstance { instance_id: "inst".to_string() },
        InstallCleanup::NoCleanup,
    );
    run_request_step(&mut state, RunEvent::Started);
    assert!(matches!(
        run_request_step(&mut state, RunEvent::InstanceRead { instance: Some(snapshot("inst")) }),
        RunAction::MarkMinecraftInstalling { .. }
    ));
    assert!(matches!(
        run_request_step(&mut state, RunEvent::MinecraftInstallingMarked),
        RunAction::RemovePackContent { .. }
    ));
    let files = vec![ProjectFile {
        relative_path: "mods/b.jar".to_string(),
        enabled: false,
        provider_refs: vec![ContentProviderRef::Modrinth { project_id: "B".to_string() }],
    }];
    let link = InstanceLink::ModrinthModpack { project_id: "p".to_string(), version_id: "v".to_string() };
    assert!(matches!(
        run_request_step(&mut state, RunEvent::PackContentRemoved { link, project_files: files }),
        RunAction::StoreContinuation
    ));
    assert!(matches!(
        state.continuation,
        Some(InstallContinuationState::InstallingPackToExistingInstance { ref disabled_project_ids })
            if disabled_project_ids == &vec!["B".to_string()]
    ));
    assert!(matches!(run_request_step(&mut state, RunEvent::ContinuationStored), RunAction::InstallPack { .. }));
    match run_request_step(&mut state, RunEvent::PackInstalled { pause: None }) {
        RunAction::RestoreDisabledProjects { project_ids, .. } => assert_eq!(project_ids, vec!["B".to_string()]),
        other => panic!("unexpected {other:?}"),
    }
    assert!(matches!(run_request_step(&mut state, RunEvent::DisabledProjectsRestored), RunAction::StoreContinuation));
    assert!(state.continuation.is_none());
    assert!(matches!(
        run_request_step(&mut state, RunEvent::ContinuationStored),
        RunAction::Complete { instance_id: Some(_) }
    ));
}

#[test]
fn a_world_that_needs_a_manual_download_waits() {
    let request = InstallRequest::InstallCurseForgeWorld {
        instance_id: "inst".to_string(),
        display_title: "World".to_string(),
        display_icon: None,
    };
    let mut state = job(
        request,
        InstallTarget::ExistingInstance { instance_id: "inst".to_string() },
        InstallCleanup::NoCleanup,
    );
    assert!(matches!(run_request_step(&mut state, RunEvent::Started), RunAction::CheckWorldImport));
    assert!(matches!(
        run_request_step(&mut state, RunEvent::WorldImportChecked { imported_manually: false }),
        RunAction::StoreProgress
    ));
    assert!(matches!(run_request_step(&mut state, RunEvent::ProgressStored), RunAction::InstallWorld { .. }));
    let manual = ManualWorldDownload {
        project_id: 12,
        file_id: 34,
        file_name: "World.zip".to_string(),
        project_slug: "world".to_string(),
        website_url: None,
    };
    match run_request_step(&mut state, RunEvent::WorldInstalled { manual_download: Some(manual) }) {
        RunAction::Wait { pause: InstallPauseReason::MissingRequiredContent { failed_files, paths }, abort_minecraft } => {
            assert_eq!(failed_files, 1);
            assert_eq!(paths, vec!["saves/World.zip".to_string()]);
            assert!(!abort_minecraft);
        }
        other => panic!("unexpected {other:?}"),
    }
    match state.events.last() {
        Some(InstallJobEventKind::ContentFileSkipped { path, reason, project_id, version_id, manual_url }) => {
            assert_eq!(path, "saves/World.zip");
            assert_eq!(reason, "CurseForge requires a manual download");
            assert_eq!(project_id.as_deref(), Some("12"));
            assert_eq!(version_id.as_deref(), Some("34"));
            assert_eq!(
                manual_url.as_deref(),
                Some("https://www.curseforge.com/minecraft/worlds/world/download/34")
            );
        }
        other => panic!("unexpected {other:?}"),
    }
}

#[test]
fn runs_of_new_instances_need_their_instance() {
    let mut state = new_instance_job(fabric_request(Vec::new()));
    assert!(matches!(
        run_request_step(&mut state, RunEvent::Started),
        RunAction::Refuse { error: InstallJobError::MissingInstanceId }
    ));
    state.target = InstallTarget::NewInstance { instance_id: Some("made".to_string()) };
    assert!(matches!(run_request_step(&mut state, RunEvent::Started), RunAction::StoreProgress));
    assert!(matches!(run_request_step(&mut state, RunEvent::ProgressStored), RunAction::StoreProgress));
    assert_eq!(state.progress.phase, InstallPhaseId::DownloadingMinecraft);
    assert!(matches!(run_request_step(&mut state, RunEvent::ProgressStored), RunAction::InstallMinecraft { force: false, .. }));
    assert!(matches!(run_request_step(&mut state, RunEvent::MinecraftInstalled), RunAction::InstallAdjuncts { .. }));
    assert!(matches!(run_request_step(&mut state, RunEvent::AdjunctsInstalled), RunAction::Complete { .. }));
    assert!(matches!(run_request_step(&mut state, RunEvent::JavaDownloaded), RunAction::Unexpected));

    let mut update = job(
        InstallRequest::UpdateManagedCurseForgeModpack { instance_id: "inst".to_string(), file_id: 9 },
        InstallTarget::ExistingInstance { instance_id: "inst".to_string() },
        InstallCleanup::NoCleanup,
    );
    update.rollback = None;
    run_request_step(&mut update, RunEvent::Started);
    run_request_step(&mut update, RunEvent::InstanceRead { instance: Some(snapshot("inst")) });
    assert!(matches!(run_request_step(&mut update, RunEvent::MinecraftInstallingMarked), RunAction::MarkPackInstalling { .. }));
    run_request_step(&mut update, RunEvent::PackInstallingMarked);
    assert!(matches!(run_request_step(&mut update, RunEvent::ProgressStored), RunAction::UpdateModpack { file_id: 9, .. }));
    match run_request_step(&mut update, RunEvent::ModpackUpdated { failed_downloads: 2, pause: None }) {
        RunAction::Fail { error } => assert_eq!(error.message, "2 CurseForge files could not be downloaded automatically"),
        other => panic!("unexpected {other:?}"),
    }
}

#[test]
fn adjuncts_are_installed_in_order_and_recorded() {
    let mut none = AdjunctInstall::new("new".to_string(), "1.20.1".to_string(), ModLoader::Fabric, Vec::new());
    assert!(matches!(adjunct_install_step(&mut none, AdjunctEvent::Started), AdjunctAction::Done));

    let adjuncts = vec![
        adjunct(LoaderComponentKind::OptiFine),
        adjunct(LoaderComponentKind::Fabric),
        adjunct(LoaderComponentKind::OptiFabric),
    ];
    let mut install = AdjunctInstall::new("new".to_string(), "1.20.1".to_string(), ModLoader::Fabric, adjuncts);
    assert!(matches!(
        adjunct_install_step(&mut install, AdjunctEvent::Started),
        AdjunctAction::ReadInstance { ref instance_id } if instance_id == "new"
    ));
    let components = vec![
        LoaderComponent {
            instance_id: "new".to_string(),
            kind: LoaderComponentKind::Fabric,
            version: Some("0.15".to_string()),
            role: LoaderComponentRole::Primary,
            provider_metadata: None,
        },
        adjunct(LoaderComponentKind::OptiFine),
        adjunct(LoaderComponentKind::OptiFabric),
    ];
    assert!(matches!(
        adjunct_install_step(&mut install, AdjunctEvent::InstanceRead { components: Some(components) }),
        AdjunctAction::ResolveOptiFine { .. }
    ));
    assert!(matches!(
        adjunct_install_step(&mut install, AdjunctEvent::OptiFineResolved { version: Some("HD_U_I6".to_string()) }),
        AdjunctAction::InstallOptiFine { ref version } if version == "HD_U_I6"
    ));
    assert!(matches!(
        adjunct_install_step(&mut install, AdjunctEvent::OptiFineInstalled),
        AdjunctAction::FetchOptiFabricFiles
    ));
    let files = vec![CurseForgeFile {
        id: 4711,
        mod_id: OPTIFABRIC_CURSEFORGE_PROJECT_ID,
        is_available: true,
        game_versions: vec!["1.20.1".to_string()],
    }];
    assert!(matches!(
        adjunct_install_step(&mut install, AdjunctEvent::OptiFabricFilesFetched { files }),
        AdjunctAction::FetchOptiFabricFile { file_id: 4711 }
    ));
    let file = CurseForgeFile {
        id: 4711,
        mod_id: OPTIFABRIC_CURSEFORGE_PROJECT_ID,
        is_available: true,
        game_versions: vec!["1.20.1".to_string()],
    };
    assert!(matches!(
        adjunct_install_step(&mut install, AdjunctEvent::OptiFabricFileFetched { file }),
        AdjunctAction::InstallOptiFabricFile { file_id: 4711 }
    ));
    let outcome = CurseForgeInstallOutcome {
        manual_download_count: 0,
        failed_downloads: Vec::new(),
        installed: vec![InstalledCurseForgeFile {
            project_id: OPTIFABRIC_CURSEFORGE_PROJECT_ID,
            file_id: 4711,
            dependency: false,
        }],
    };
    match adjunct_install_step(&mut install, AdjunctEvent::OptiFabricInstalled { outcome }) {
        AdjunctAction::StoreComponents { instance_id, components } => {
            assert_eq!(instance_id, "new");
            assert_eq!(components[0].version.as_deref(), Some("0.15"));
            assert_eq!(components[1].version.as_deref(), Some("HD_U_I6"));
            assert_eq!(components[2].version.as_deref(), Some("4711"));
        }
        other => panic!("unexpected {other:?}"),
    }
    assert!(matches!(adjunct_install_step(&mut install, AdjunctEvent::ComponentsStored), AdjunctAction::Done));

    let mut lite = AdjunctInstall::new(
        "new".to_string(),
        "1.12.2".to_string(),
        ModLoader::Forge,
        vec![adjunct(LoaderComponentKind::LiteLoader)],
    );
    adjunct_install_step(&mut lite, AdjunctEvent::Started);
    adjunct_install_step(&mut lite, AdjunctEvent::InstanceRead { components: Some(Vec::new()) });
    match adjunct_install_step(&mut lite, AdjunctEvent::LiteLoaderResolved { version: None }) {
        AdjunctAction::Fail { error } => assert_eq!(error.message(), "No LiteLoader version supports Minecraft 1.12.2"),
        other => panic!("unexpected {other:?}"),
    }
}
