use app_lib::install_jobs::{set_instance_id, InstallJobError};
use app_lib::install_model::{
    InstallCleanup, InstallJobState, InstallPauseReason, InstallPhaseDetails, InstallPhaseId,
    InstallProgressState, InstallRequest, InstallRequestKind, InstallTarget,
};
use app_lib::install_requests::{
    check_update_downloads, content_install_project_ids, curseforge_project_key,
    curseforge_world_manual_download, disabled_modrinth_project_ids, disabled_projects_to_keep, files_to_reenable,
    java_display_title, modpack_details, modpack_instance_settings, pack_source,
    parse_curseforge_ids, post_install_edit_needed, require_instance_id, single_missing_file_pause, upgraded_copy_name, ContentProviderRef, CreatePackLocation,
    InstallPostInstallEdit, InstanceLink, PackPreview, PackSource, ProjectFile,
};
use app_lib::text::{decimal_string, parse_u32};

fn preview() -> PackPreview {
    PackPreview {
        name: "Pack".to_string(),
        icon: None,
        icon_url: Some("https://example.invalid/icon.png".to_string()),
        link: None,
    }
}

#[test]
fn modpack_instance_settings_prefer_the_edit() {
    let settings = modpack_instance_settings(None, preview());
    assert_eq!(settings.name, "Pack");
    assert_eq!(settings.icon_path.as_deref(), Some("https://example.invalid/icon.png"));
    assert!(matches!(settings.link, InstanceLink::Unmanaged));

    let edit = InstallPostInstallEdit {
        name: Some("Mine".to_string()),
        icon_path: Some(None),
        link: Some(InstanceLink::ImportedModpack),
    };
    let settings = modpack_instance_settings(Some(edit), preview());
    assert_eq!(settings.name, "Mine");
    assert_eq!(settings.icon_path, None);
    assert!(matches!(settings.link, InstanceLink::ImportedModpack));
}

#[test]
fn post_install_edits_apply_only_when_they_change_something() {
    assert!(!post_install_edit_needed(&None));
    let empty = InstallPostInstallEdit { name: None, icon_path: None, link: None };
    assert!(!post_install_edit_needed(&Some(empty)));
    let renamed = InstallPostInstallEdit { name: Some("x".to_string()), icon_path: None, link: None };
    assert!(post_install_edit_needed(&Some(renamed)));
}

#[test]
fn modpack_details_name_the_version() {
    let location = CreatePackLocation::FromVersionId {
        project_id: "p".to_string(),
        version_id: "v".to_string(),
        title: "Title".to_string(),
        icon_url: None,
    };
    assert!(matches!(
        modpack_details(&location),
        InstallPhaseDetails::Modpack { project_id: Some(ref p), version_id: Some(ref v), title: Some(ref t) }
            if p == "p" && v == "v" && t == "Title"
    ));
    let file = CreatePackLocation::FromFile { path: "/tmp/pack.mrpack".to_string() };
    assert!(matches!(
        modpack_details(&file),
        InstallPhaseDetails::Modpack { project_id: None, version_id: None, title: None }
    ));
}

#[test]
fn curseforge_ids_are_parsed() {
    assert_eq!(parse_curseforge_ids("322385", "+17").unwrap(), (322385, 17));
    assert!(matches!(parse_curseforge_ids("-1", "2"), Err(InstallJobError::InvalidCurseForgeProjectId)));
    assert!(matches!(parse_curseforge_ids("1", "4294967296"), Err(InstallJobError::InvalidCurseForgeFileId)));
    assert_eq!(parse_u32("4294967295"), Some(u32::MAX));
    assert_eq!(parse_u32(""), None);
    assert_eq!(parse_u32("+"), None);
    assert_eq!(parse_u32("00012"), Some(12));
    assert_eq!(parse_u32(" 1"), None);
}

#[test]
fn derived_names_and_titles() {
    assert_eq!(upgraded_copy_name(None, "World"), "World (Upgraded Copy)");
    assert_eq!(upgraded_copy_name(Some("Mine".to_string()), "World"), "Mine");
    assert_eq!(java_display_title("temurin", 21), "Java 21 (temurin)");
    assert_eq!(curseforge_project_key(238222), "curseforge:238222");
    assert_eq!(decimal_string(0), "0");
    assert_eq!(decimal_string(4294967295), "4294967295");
    assert_eq!(
        content_install_project_ids("main".to_string(), &vec!["dep1".to_string(), "dep2".to_string()]),
        vec!["main".to_string(), "dep1".to_string(), "dep2".to_string()]
    );
}

#[test]
fn curseforge_worlds_wait_for_manual_downloads() {
    let (path, url) = curseforge_world_manual_download("map.zip", None, "skyblock", 42);
    assert_eq!(path, "saves/map.zip");
    assert_eq!(url, "https://www.curseforge.com/minecraft/worlds/skyblock/download/42");
    let (_, url) = curseforge_world_manual_download("map.zip", Some("https://example.invalid".to_string()), "s", 1);
    assert_eq!(url, "https://example.invalid");
    let InstallPauseReason::MissingRequiredContent { failed_files, paths } = single_missing_file_pause(path);
    assert_eq!(failed_files, 1);
    assert_eq!(paths, vec!["saves/map.zip".to_string()]);
}

fn project_file(path: &str, enabled: bool, refs: Vec<ContentProviderRef>) -> ProjectFile {
    ProjectFile { relative_path: path.to_string(), enabled, provider_refs: refs }
}

#[test]
fn disabled_projects_are_found_and_reenabled() {
    let before = vec![
        project_file("mods/b.jar", false, vec![ContentProviderRef::Modrinth { project_id: "B".to_string() }]),
        project_file("mods/a.jar", false, vec![
            ContentProviderRef::CurseForge { project_id: 1 },
            ContentProviderRef::Modrinth { project_id: "A".to_string() },
        ]),
        project_file("mods/c.jar", true, vec![ContentProviderRef::Modrinth { project_id: "C".to_string() }]),
        project_file("mods/d.jar", false, vec![ContentProviderRef::McArchive]),
        project_file("mods/b2.jar", false, vec![ContentProviderRef::Modrinth { project_id: "B".to_string() }]),
    ];
    let disabled = disabled_modrinth_project_ids(&before);
    assert_eq!(disabled, vec!["A".to_string(), "B".to_string()]);

    let after = vec![
        project_file("mods/a-2.jar", true, vec![ContentProviderRef::Modrinth { project_id: "A".to_string() }]),
        project_file("mods/c.jar", true, vec![ContentProviderRef::Modrinth { project_id: "C".to_string() }]),
        project_file("mods/b.jar", false, vec![ContentProviderRef::Modrinth { project_id: "B".to_string() }]),
    ];
    assert_eq!(files_to_reenable(&after, &disabled), vec!["mods/a-2.jar".to_string()]);
}

#[test]
fn pack_sources_follow_the_link() {
    let modrinth = InstanceLink::ModrinthModpack { project_id: "p".to_string(), version_id: "v".to_string() };
    assert!(matches!(pack_source(&modrinth), PackSource::Version { ref project_id, .. } if project_id == "p"));
    let server = InstanceLink::ServerProjectModpack {
        content_project_id: "cp".to_string(),
        content_version_id: "cv".to_string(),
    };
    assert!(matches!(pack_source(&server), PackSource::Version { ref version_id, .. } if version_id == "cv"));
    assert!(matches!(pack_source(&InstanceLink::ImportedModpack), PackSource::ImportedPack));
    assert!(matches!(pack_source(&InstanceLink::Unmanaged), PackSource::NoPack));
}

fn job(kind: InstallRequestKind) -> InstallJobState {
    InstallJobState {
        request: match kind {
            InstallRequestKind::UpgradeUnmanagedInstance => InstallRequest::UpgradeUnmanagedInstance {
                instance_id: "src".to_string(),
                direct: false,
                copy_name: None,
            },
            _ => InstallRequest::DownloadJava { vendor: "temurin".to_string(), version: 21 },
        },
        target: InstallTarget::NewInstance { instance_id: None },
        cleanup: InstallCleanup::DeleteNewInstance { instance_id: None },
        rollback: None,
        error: None,
        rollback_error: None,
        pause_reason: None,
        continuation: None,
        context: None,
        progress: InstallProgressState {
            phase: InstallPhaseId::PreparingInstance,
            progress: None,
            details: InstallPhaseDetails::Empty,
            parallel: None,
        },
        display: None,
        skipped_missing_content_paths: Vec::new(),
        active_downloads: Vec::new(),
        events: Vec::new(),
    }
}

#[test]
fn running_jobs_need_their_instance() {
    let mut create = job(InstallRequestKind::DownloadJava);
    let error = require_instance_id(&create).unwrap_err();
    assert_eq!(error.message(), "Install job is missing its instance id");
    set_instance_id(&mut create, "made".to_string());
    assert_eq!(require_instance_id(&create).unwrap(), "made");

    let upgrade = job(InstallRequestKind::UpgradeUnmanagedInstance);
    let error = require_instance_id(&upgrade).unwrap_err();
    assert!(matches!(error, InstallJobError::MissingUpgradeTarget));
    assert_eq!(error.message(), "Upgrade job is missing its target instance id");
}

#[test]
fn pack_updates_need_every_automatic_download() {
    assert!(check_update_downloads(0).is_ok());
    let error = check_update_downloads(3).unwrap_err();
    assert!(matches!(error.kind, app_lib::install_errors::ErrorKind::NetworkError));
    assert_eq!(error.message, "3 CurseForge files could not be downloaded automatically");
}

#[test]
fn only_followed_packs_keep_disabled_projects() {
    let files = vec![project_file("mods/b.jar", false, vec![ContentProviderRef::Modrinth { project_id: "B".to_string() }])];
    let link = InstanceLink::ModrinthModpack { project_id: "p".to_string(), version_id: "v".to_string() };
    assert_eq!(disabled_projects_to_keep(&link, &files), vec!["B".to_string()]);
    assert!(disabled_projects_to_keep(&InstanceLink::ImportedModpack, &files).is_empty());
    assert!(disabled_projects_to_keep(&InstanceLink::Unmanaged, &files).is_empty());
}
