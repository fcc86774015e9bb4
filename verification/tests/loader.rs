use app_lib::loader::LoaderComponentKind::{
    Fabric, Forge, LegacyFabric, LiteLoader, NeoForge, OptiFabric, OptiFine, Vanilla,
};
use app_lib::loader::{
    attach_adjuncts, attach_and_validate, liteloader_version_id, optifabric_install_result,
    pin_adjunct_version, pin_installed_adjuncts, pin_resolved_adjuncts, validate_with_primary, resolve_optifabric_file, check_adjunct_support, check_optifabric_file, check_optifabric_install, needs_optifabric,
    normalize_adjuncts, optifabric_component, parse_optifabric_file_id, select_optifabric_file_id,
    selection_with_primary, set_component_version, validate_loader_components, CurseForgeFile,
    CurseForgeInstallOutcome, FailedCurseForgeDownload, InstalledCurseForgeFile, LoaderComponent,
    LoaderComponentKind, LoaderComponentRole, LoaderError, ModLoader,
    OPTIFABRIC_CURSEFORGE_PROJECT_ID,
};

fn component(kind: LoaderComponentKind, role: LoaderComponentRole) -> LoaderComponent {
    LoaderComponent {
        instance_id: "instance".to_string(),
        kind,
        version: None,
        role,
        provider_metadata: None,
    }
}

fn primary(kind: LoaderComponentKind) -> LoaderComponent {
    component(kind, LoaderComponentRole::Primary)
}

fn adjunct(kind: LoaderComponentKind) -> LoaderComponent {
    component(kind, LoaderComponentRole::Adjunct)
}

#[test]
fn loader_selections_are_validated() {
    assert!(validate_loader_components(&vec![primary(Forge), adjunct(OptiFine)]).is_ok());
    assert!(validate_loader_components(&vec![primary(Vanilla), adjunct(LiteLoader)]).is_ok());
    assert!(validate_loader_components(&vec![primary(Fabric), adjunct(OptiFine), adjunct(OptiFabric)]).is_ok());
    assert!(matches!(
        validate_loader_components(&vec![adjunct(OptiFine)]),
        Err(LoaderError::NoPrimaryLoader)
    ));
    let error = validate_loader_components(&vec![primary(Fabric), adjunct(OptiFine)]).unwrap_err();
    assert_eq!(error.message(), "OptiFine is not supported with fabric");
    assert!(matches!(
        validate_loader_components(&vec![primary(Fabric), adjunct(OptiFabric)]),
        Err(LoaderError::OptiFabricWithoutOptiFine)
    ));
    assert!(matches!(
        validate_loader_components(&vec![primary(Forge), adjunct(OptiFine), adjunct(OptiFabric)]),
        Err(LoaderError::OptiFabricUnsupported { primary: Forge })
    ));
    assert!(matches!(
        validate_loader_components(&vec![primary(NeoForge), adjunct(LiteLoader)]),
        Err(LoaderError::LiteLoaderUnsupported { primary: NeoForge })
    ));
    assert!(matches!(
        validate_loader_components(&vec![primary(Forge), adjunct(Fabric)]),
        Err(LoaderError::InvalidAdjunct)
    ));
}

#[test]
fn adjuncts_are_checked_and_completed() {
    assert!(check_adjunct_support(ModLoader::Fabric, &vec![adjunct(OptiFine)]).is_ok());
    assert!(matches!(
        check_adjunct_support(ModLoader::Vanilla, &vec![adjunct(OptiFine)]),
        Err(LoaderError::OptiFineUnsupported { primary: Vanilla })
    ));
    assert!(matches!(
        check_adjunct_support(ModLoader::Fabric, &vec![adjunct(LiteLoader)]),
        Err(LoaderError::LiteLoaderUnsupported { primary: Fabric })
    ));

    let mut adjuncts = vec![component(OptiFine, LoaderComponentRole::Primary)];
    normalize_adjuncts(&mut adjuncts);
    assert_eq!(adjuncts[0].role, LoaderComponentRole::Adjunct);
    assert_eq!(adjuncts[0].instance_id, "");
    assert!(needs_optifabric(ModLoader::Fabric, &adjuncts));
    assert!(!needs_optifabric(ModLoader::Forge, &adjuncts));
    adjuncts.push(optifabric_component("4711".to_string()));
    assert!(!needs_optifabric(ModLoader::Fabric, &adjuncts));
    let selection = selection_with_primary(ModLoader::Fabric, &adjuncts);
    assert_eq!(selection.len(), 3);
    assert!(validate_loader_components(&selection).is_ok());
}

#[test]
fn component_versions_are_pinned() {
    let mut components = vec![primary(Forge), adjunct(OptiFine), adjunct(OptiFine)];
    set_component_version(&mut components, OptiFine, "HD_U_I5".to_string());
    assert_eq!(components[1].version.as_deref(), Some("HD_U_I5"));
    assert_eq!(components[2].version, None);
    set_component_version(&mut components, LiteLoader, "1".to_string());
    assert!(components.iter().all(|c| c.kind == Forge || c.kind == OptiFine));
}

fn file(id: u32, available: bool, versions: &[&str]) -> CurseForgeFile {
    CurseForgeFile {
        id,
        mod_id: OPTIFABRIC_CURSEFORGE_PROJECT_ID,
        is_available: available,
        game_versions: versions.iter().map(|v| v.to_string()).collect(),
    }
}

#[test]
fn optifabric_files_are_selected_and_checked() {
    let files = vec![
        file(1, false, &["1.20.1"]),
        file(2, true, &["1.19.2"]),
        file(3, true, &["1.20.1", "Fabric"]),
        file(4, true, &["1.20.1"]),
    ];
    assert_eq!(select_optifabric_file_id(&files, "1.20.1"), Some(3));
    assert_eq!(select_optifabric_file_id(&files, "1.8.9"), None);
    assert_eq!(parse_optifabric_file_id("4711").unwrap(), 4711);
    assert!(matches!(parse_optifabric_file_id("x"), Err(LoaderError::InvalidOptiFabricFileId)));
    assert!(check_optifabric_file(&files[2], 3, "1.20.1").is_ok());
    let error = check_optifabric_file(&files[1], 2, "1.20.1").unwrap_err();
    assert_eq!(error.message(), "OptiFabric file 2 does not support Minecraft 1.20.1");
    let mut foreign = file(5, true, &["1.20.1"]);
    foreign.mod_id = 1;
    assert!(check_optifabric_file(&foreign, 5, "1.20.1").is_err());
}

#[test]
fn optifabric_install_outcomes_are_checked() {
    let installed = vec![InstalledCurseForgeFile {
        project_id: OPTIFABRIC_CURSEFORGE_PROJECT_ID,
        file_id: 7,
        dependency: false,
    }];
    let ok = CurseForgeInstallOutcome { manual_download_count: 0, failed_downloads: Vec::new(), installed };
    assert!(check_optifabric_install(&ok, 7).is_ok());
    assert!(matches!(check_optifabric_install(&ok, 8), Err(LoaderError::OptiFabricNotInstalled)));
    let manual = CurseForgeInstallOutcome { manual_download_count: 1, failed_downloads: Vec::new(), installed: Vec::new() };
    assert!(matches!(check_optifabric_install(&manual, 7), Err(LoaderError::OptiFabricManualDownload)));
    let failed = CurseForgeInstallOutcome {
        manual_download_count: 0,
        failed_downloads: vec![FailedCurseForgeDownload { reason: "timeout".to_string() }],
        installed: Vec::new(),
    };
    let error = check_optifabric_install(&failed, 7).unwrap_err();
    assert_eq!(error.message(), "Failed to install OptiFabric: timeout");
}

#[test]
fn adjuncts_are_attached_to_the_instance() {
    let mut components = vec![primary(Forge)];
    let mut optifine = component(OptiFine, LoaderComponentRole::Primary);
    optifine.version = Some("HD_U_I5".to_string());
    optifine.instance_id = "other".to_string();
    attach_adjuncts(&mut components, &vec![optifine, adjunct(LiteLoader)], "pack");
    assert_eq!(components.len(), 3);
    assert_eq!(components[0].kind, Forge);
    assert_eq!(components[0].instance_id, "instance");
    assert_eq!(components[1].instance_id, "pack");
    assert_eq!(components[1].role, LoaderComponentRole::Adjunct);
    assert_eq!(components[1].version.as_deref(), Some("HD_U_I5"));
    assert_eq!(components[2].kind, LiteLoader);
    assert_eq!(components[2].instance_id, "pack");
}

#[test]
fn optifabric_version_is_resolved_from_the_files() {
    let files = vec![file(12, false, &["1.20.1"]), file(4711, true, &["1.20.1"])];
    assert_eq!(resolve_optifabric_file(&files, "1.20.1").unwrap(), "4711");
    let error = resolve_optifabric_file(&files, "1.16.5").unwrap_err();
    assert_eq!(
        error.message(),
        "OptiFine requires OptiFabric, but no OptiFabric version supports Minecraft 1.16.5"
    );
}

#[test]
fn liteloader_profile_id_needs_a_pinned_primary() {
    assert_eq!(
        liteloader_version_id("1.12.2", Some("14.23.5.2860"), ModLoader::Forge).unwrap(),
        "1.12.2-14.23.5.2860"
    );
    let error = liteloader_version_id("1.12.2", None, ModLoader::Forge).unwrap_err();
    assert!(matches!(error, LoaderError::PinnedPrimaryVersionRequired { primary: Forge }));
    assert_eq!(error.message(), "forge adjunct installation requires a pinned primary version");
}

#[test]
fn resolved_adjuncts_are_pinned() {
    let mut optifine = adjunct(OptiFine);
    assert!(pin_adjunct_version(&mut optifine, "1.20.1", Some("HD_U_I6".to_string())).is_ok());
    assert_eq!(optifine.version.as_deref(), Some("HD_U_I6"));
    let mut missing = adjunct(OptiFine);
    let error = pin_adjunct_version(&mut missing, "1.7.2", None).unwrap_err();
    assert_eq!(error.message(), "No OptiFine version supports Minecraft 1.7.2");
    assert_eq!(missing.version, None);
    let mut lite = adjunct(LiteLoader);
    let error = pin_adjunct_version(&mut lite, "1.13", None).unwrap_err();
    assert_eq!(error.message(), "No LiteLoader version supports Minecraft 1.13");
    let mut fabric = adjunct(OptiFabric);
    assert!(pin_adjunct_version(&mut fabric, "1.20.1", Some("1".to_string())).is_ok());
    assert_eq!(fabric.version, None);
}

#[test]
fn requested_adjuncts_are_resolved_in_order() {
    let mut adjuncts = vec![component(OptiFine, LoaderComponentRole::Primary), adjunct(LiteLoader)];
    adjuncts[0].instance_id = "x".to_string();
    let versions = vec![Some("HD_U_I6".to_string()), Some("1.12.2-SNAPSHOT".to_string())];
    assert!(pin_resolved_adjuncts(ModLoader::Forge, "1.12.2", &mut adjuncts, &versions).is_ok());
    assert_eq!(adjuncts[0].role, LoaderComponentRole::Adjunct);
    assert_eq!(adjuncts[0].instance_id, "");
    assert_eq!(adjuncts[0].version.as_deref(), Some("HD_U_I6"));
    assert_eq!(adjuncts[1].version.as_deref(), Some("1.12.2-SNAPSHOT"));

    let mut missing = vec![adjunct(OptiFine), adjunct(LiteLoader)];
    let error = pin_resolved_adjuncts(ModLoader::Forge, "1.13", &mut missing, &vec![Some("a".to_string())])
        .unwrap_err();
    assert_eq!(error.message(), "No LiteLoader version supports Minecraft 1.13");
    assert_eq!(missing[0].version, None);

    let mut unsupported = vec![adjunct(LiteLoader)];
    let error = pin_resolved_adjuncts(ModLoader::Fabric, "1.12.2", &mut unsupported, &vec![]).unwrap_err();
    assert!(matches!(error, LoaderError::LiteLoaderUnsupported { primary: Fabric }));

    assert!(validate_with_primary(ModLoader::Forge, &adjuncts).is_ok());
    assert!(matches!(
        validate_with_primary(ModLoader::Vanilla, &vec![adjunct(OptiFabric)]),
        Err(LoaderError::OptiFabricWithoutOptiFine)
    ));
}

#[test]
fn installed_adjunct_versions_are_recorded() {
    let mut components = vec![primary(Forge), adjunct(OptiFine), adjunct(LiteLoader)];
    pin_installed_adjuncts(
        &mut components,
        &vec![(OptiFine, "HD_U_I6".to_string()), (LiteLoader, "1.12.2".to_string()), (OptiFabric, "9".to_string())],
    );
    assert_eq!(components[1].version.as_deref(), Some("HD_U_I6"));
    assert_eq!(components[2].version.as_deref(), Some("1.12.2"));
    assert_eq!(components.len(), 3);
    pin_installed_adjuncts(&mut components, &vec![]);
    assert_eq!(components.len(), 3);
    assert_eq!(components[1].version.as_deref(), Some("HD_U_I6"));
    assert_eq!(components[0].version, None);
}

#[test]
fn adjuncts_are_attached_and_checked() {
    let components = vec![primary(Fabric)];
    let attached = attach_and_validate(&components, &vec![adjunct(OptiFine), adjunct(OptiFabric)], "new").unwrap();
    assert_eq!(attached.len(), 3);
    assert_eq!(attached[1].instance_id, "new");
    assert!(matches!(
        attach_and_validate(&components, &vec![adjunct(LiteLoader)], "new"),
        Err(LoaderError::LiteLoaderUnsupported { primary: Fabric })
    ));
}

#[test]
fn optifabric_install_gives_the_file_id() {
    let installed = vec![InstalledCurseForgeFile {
        project_id: OPTIFABRIC_CURSEFORGE_PROJECT_ID,
        file_id: 4711,
        dependency: false,
    }];
    let ok = CurseForgeInstallOutcome { manual_download_count: 0, failed_downloads: Vec::new(), installed };
    let good = file(4711, true, &["1.20.1"]);
    assert_eq!(optifabric_install_result(4711, &good, "1.20.1", &ok).unwrap(), "4711");
    let error = optifabric_install_result(4711, &good, "1.19", &ok).unwrap_err();
    assert_eq!(error.message(), "OptiFabric file 4711 does not support Minecraft 1.19");
    let manual = CurseForgeInstallOutcome { manual_download_count: 2, failed_downloads: Vec::new(), installed: Vec::new() };
    assert!(matches!(
        optifabric_install_result(4711, &good, "1.20.1", &manual),
        Err(LoaderError::OptiFabricManualDownload)
    ));
}
