//! The preparation of an install job before it is queued, as a sequence of
//! steps: each step takes the outcome of the outside work asked for last,
//! updates the job state (its request among it) and names the outside work
//! to do next. New instances are created here; jobs on an existing instance
//! prepare its rollback.

use vstd::prelude::*;
use crate::install_model::{
    InstallJobState, InstallJobStateView, InstallRequest, InstallJobDisplay, InstanceSnapshot,
    InstallRollbackState, InstallCleanup, clone_option_string,
};
use crate::install_jobs::{
    InstallJobError, retarget, reclean, set_display, set_instance_id, begin_existing_rollback,
};
use crate::install_requests::{
    InstanceLink, PackPreview, ModpackInstanceSettings, modpack_settings, modpack_instance_settings,
    upgraded_copy_name_text, upgraded_copy_name, java_title_text, java_display_title,
    parse_curseforge_ids,
};
use crate::install_run::{rollback_prepared, existing_instance_id, is_existing_request};
use crate::loader::{
    LoaderComponent, LoaderError, ModLoader, CurseForgeFile, adjunct_support_error, check_adjunct_support,
    unresolved_at, is_pinned_adjunct, version_at, is_no_version_error, pin_resolved_adjuncts,
    optifabric_needed, needs_optifabric, first_supporting_file, resolve_optifabric_file,
    is_optifabric_component, optifabric_component, primary_selection_error, validate_with_primary,
    selection_error, with_adjuncts_attached, is_attached, attach_and_validate,
};
use crate::text::{decimal, parsed_u32};

verus! {

/// An instance to create.
#[derive(Debug)]
pub struct NewInstance {
    pub name: String,
    pub game_version: String,
    pub loader: ModLoader,
    pub loader_version: Option<String>,
    pub icon_path: Option<String>,
    pub link: InstanceLink,
}

/// The outcome of the outside work a preparation asked for last.
#[derive(Debug)]
pub enum PrepareEvent {
    /// The preparation begins.
    Started,
    /// The Minecraft version and loader a CurseForge modpack needs.
    ModpackTargetFetched { game_version: String, loader: ModLoader, loader_version: Option<String> },
    /// The versions resolved for the adjuncts, one for each adjunct of the
    /// request in order (`None` where none was resolved or none was asked).
    AdjunctVersionsResolved { versions: Vec<Option<String>> },
    /// The files of OptiFabric.
    OptiFabricFilesFetched { files: Vec<CurseForgeFile> },
    /// The instance was created, with these components.
    InstanceCreated {
        instance_id: String,
        name: String,
        icon_path: Option<String>,
        loader_components: Vec<LoaderComponent>,
    },
    /// The components of the new instance were replaced.
    LoaderComponentsReplaced,
    /// What the modpack says about the instance it makes.
    PackPreviewFetched { preview: PackPreview },
    /// An existing instance was read, if it exists.
    InstanceRead { instance: Option<InstanceSnapshot> },
    /// The existing instance was marked as installing.
    MinecraftInstallingMarked,
    /// The loader components of the upgraded instance were copied.
    LoaderComponentsCloned,
}

/// The outside work a preparation asks for next.
#[derive(Debug)]
pub enum PrepareAction {
    /// Ask CurseForge which Minecraft version and loader a modpack needs.
    FetchModpackTarget { project_id: u32, file_id: u32 },
    /// Resolve the version of each OptiFine and LiteLoader adjunct of the
    /// request, in order, for Minecraft `game_version`.
    ResolveAdjunctVersions { game_version: String },
    /// Fetch the files of OptiFabric.
    FetchOptiFabricFiles,
    /// Create an instance.
    CreateInstance { instance: NewInstance },
    /// Create the instance of a modpack, with the versions its preview names.
    CreateModpackInstance { settings: ModpackInstanceSettings },
    /// Store the components of the new instance.
    ReplaceLoaderComponents { instance_id: String, components: Vec<LoaderComponent> },
    /// Read what the request's modpack says about its instance.
    FetchPackPreview,
    /// Read an existing instance.
    ReadInstance { instance_id: String },
    /// Mark an existing instance as installing, and report it.
    MarkMinecraftInstalling { instance_id: String },
    /// Copy the loader components of the upgraded instance to its copy.
    CloneLoaderComponents { source_instance_id: String, instance_id: String },
    /// The job is prepared.
    Done,
    /// The request is refused.
    Refuse { error: InstallJobError },
    /// The loader selection is refused.
    Fail { error: LoaderError },
    /// The event does not answer what the preparation asked for; nothing
    /// changes.
    Unexpected,
}

/// Whether `r` asks to create an instance with these values.
pub open spec fn is_create_request(
    r: InstallRequest,
    name: String,
    game_version: String,
    loader: ModLoader,
    loader_version: Option<String>,
    adjuncts: Seq<LoaderComponent>,
    icon_path: Option<String>,
    link: InstanceLink,
) -> bool {
    &&& r matches InstallRequest::CreateInstance {
        name: n,
        game_version: g,
        loader: l,
        loader_version: lv,
        adjuncts: a,
        icon_path: ip,
        link: lk,
    }
    &&& n == name && g == game_version && l == loader && lv == loader_version && a@ == adjuncts
    &&& ip == icon_path && lk == link
}

/// The first action of the adjunct resolution.
pub open spec fn adjuncts_begin(loader: ModLoader, adjuncts: Seq<LoaderComponent>, game_version: String) -> PrepareAction {
    match adjunct_support_error(loader, adjuncts) {
        Some(e) => PrepareAction::Fail { error: e },
        None => PrepareAction::ResolveAdjunctVersions { game_version },
    }
}

/// The action once the adjuncts `adjuncts` are complete: the selection is
/// checked, then the instance is created.
pub open spec fn creation(
    name: String,
    game_version: String,
    loader: ModLoader,
    loader_version: Option<String>,
    adjuncts: Seq<LoaderComponent>,
    icon_path: Option<String>,
    link: InstanceLink,
) -> PrepareAction {
    match primary_selection_error(loader, adjuncts) {
        Some(e) => PrepareAction::Fail { error: e },
        None => PrepareAction::CreateInstance {
            instance: NewInstance { name, game_version, loader, loader_version, icon_path, link },
        },
    }
}

/// The job state once the instance `instance_id` exists.
pub open spec fn created(
    j: InstallJobStateView,
    instance_id: String,
    name: String,
    icon_path: Option<String>,
) -> InstallJobStateView {
    InstallJobStateView {
        display: Some(InstallJobDisplay { title: name, icon: icon_path }),
        target: retarget(j.target, instance_id),
        cleanup: reclean(j.cleanup, instance_id),
        ..j
    }
}

/// A preparation step of a job that creates an instance.
pub open spec fn prepare_create(
    j0: InstallJobStateView,
    event: PrepareEvent,
    j1: InstallJobStateView,
    action: PrepareAction,
) -> bool {
    match j0.request {
        InstallRequest::CreateInstance {
            name,
            game_version,
            loader,
            loader_version,
            adjuncts,
            icon_path,
            link,
        } => match event {
            PrepareEvent::Started => j1 == j0 && match link {
                InstanceLink::CurseForgeModpack { project_id, version_id } => action == match (
                    parsed_u32(project_id@),
                    parsed_u32(version_id@),
                ) {
                    (None, _) => PrepareAction::Refuse {
                        error: InstallJobError::InvalidCurseForgeProjectId,
                    },
                    (Some(_), None) => PrepareAction::Refuse {
                        error: InstallJobError::InvalidCurseForgeFileId,
                    },
                    (Some(p), Some(f)) => PrepareAction::FetchModpackTarget { project_id: p, file_id: f },
                },
                _ => action == adjuncts_begin(loader, adjuncts@, game_version),
            },
            PrepareEvent::ModpackTargetFetched { game_version: g, loader: l, loader_version: lv } =>
                if link is CurseForgeModpack {
                &&& j1 == (InstallJobStateView { request: j1.request, ..j0 })
                &&& is_create_request(j1.request, name, g, l, lv, Seq::empty(), icon_path, link)
                &&& action == adjuncts_begin(l, Seq::empty(), g)
            } else {
                j1 == j0 && action == PrepareAction::Unexpected
            },
            PrepareEvent::AdjunctVersionsResolved { versions } => match adjunct_support_error(
                loader,
                adjuncts@,
            ) {
                Some(e) => j1 == j0 && action == PrepareAction::Fail { error: e },
                None => if exists|k: int| 0 <= k < adjuncts@.len() && unresolved_at(adjuncts@, versions@, k) {
                    &&& j1 == j0
                    &&& action matches PrepareAction::Fail { error }
                    &&& exists|k: int|
                        0 <= k < adjuncts@.len() && unresolved_at(adjuncts@, versions@, k) && (forall|
                            j: int,
                        | 0 <= j < k ==> !unresolved_at(adjuncts@, versions@, j)) && is_no_version_error(
                            error,
                            adjuncts@[k].kind,
                            game_version@,
                        )
                } else {
                    &&& j1 == (InstallJobStateView { request: j1.request, ..j0 })
                    &&& j1.request matches InstallRequest::CreateInstance { adjuncts: pinned, .. }
                    &&& is_create_request(
                        j1.request,
                        name,
                        game_version,
                        loader,
                        loader_version,
                        pinned@,
                        icon_path,
                        link,
                    )
                    &&& pinned@.len() == adjuncts@.len()
                    &&& forall|i: int|
                        0 <= i < adjuncts@.len() ==> is_pinned_adjunct(
                            #[trigger] pinned@[i],
                            adjuncts@[i],
                            version_at(versions@, i),
                        )
                    &&& action == if optifabric_needed(loader, pinned@) {
                        PrepareAction::FetchOptiFabricFiles
                    } else {
                        creation(name, game_version, loader, loader_version, pinned@, icon_path, link)
                    }
                },
            },
            PrepareEvent::OptiFabricFilesFetched { files } => if !optifabric_needed(loader, adjuncts@) {
                j1 == j0 && action == PrepareAction::Unexpected
            } else {
                match first_supporting_file(files@, game_version@) {
                    None => j1 == j0 && (action matches PrepareAction::Fail {
                        error: LoaderError::NoOptiFabricVersion { game_version: g },
                    } && g@ == game_version@),
                    Some(file_id) => {
                        &&& j1 == (InstallJobStateView { request: j1.request, ..j0 })
                        &&& j1.request matches InstallRequest::CreateInstance { adjuncts: completed, .. }
                        &&& is_create_request(
                            j1.request,
                            name,
                            game_version,
                            loader,
                            loader_version,
                            completed@,
                            icon_path,
                            link,
                        )
                        &&& completed@.len() == adjuncts@.len() + 1
                        &&& completed@.drop_last() == adjuncts@
                        &&& completed@.last().version matches Some(v)
                        &&& v@ == decimal(file_id as nat)
                        &&& is_optifabric_component(completed@.last(), v)
                        &&& action == creation(
                            name,
                            game_version,
                            loader,
                            loader_version,
                            completed@,
                            icon_path,
                            link,
                        )
                    },
                }
            },
            PrepareEvent::InstanceCreated { instance_id, name: n, icon_path: ip, loader_components } =>
                if adjuncts@.len() == 0 {
                j1 == created(j0, instance_id, n, ip) && action == PrepareAction::Done
            } else {
                match selection_error(with_adjuncts_attached(loader_components@, adjuncts@)) {
                    Some(e) => j1 == j0 && action == PrepareAction::Fail { error: e },
                    None => j1 == created(j0, instance_id, n, ip) && (action matches PrepareAction::ReplaceLoaderComponents {
                        instance_id: x,
                        components,
                    } && x == instance_id && is_attached(
                        components@,
                        loader_components@,
                        adjuncts@,
                        instance_id@,
                    )),
                }
            },
            PrepareEvent::LoaderComponentsReplaced => j1 == j0 && action == PrepareAction::Done,
            _ => j1 == j0 && action == PrepareAction::Unexpected,
        },
        _ => false,
    }
}

fn clone_components(v: &Vec<LoaderComponent>) -> (c: Vec<LoaderComponent>)
    ensures
        c@ == v@,
{
    let mut c: Vec<LoaderComponent> = Vec::new();
    let mut i: usize = 0;
    while i < v.len()
        invariant
            i <= v@.len(),
            c@ == v@.take(i as int),
        decreases v@.len() - i,
    {
        c.push(v[i].cloned());
        assert(c@ =~= v@.take(i + 1));
        i += 1;
    }
    assert(v@.take(v@.len() as int) =~= v@);
    c
}

fn creation_action(
    name: String,
    game_version: String,
    loader: ModLoader,
    loader_version: Option<String>,
    adjuncts: &Vec<LoaderComponent>,
    icon_path: Option<String>,
    link: InstanceLink,
) -> (a: PrepareAction)
    ensures
        a == creation(name, game_version, loader, loader_version, adjuncts@, icon_path, link),
{
    match validate_with_primary(loader, adjuncts) {
        Err(error) => PrepareAction::Fail { error },
        Ok(()) => PrepareAction::CreateInstance {
            instance: NewInstance { name, game_version, loader, loader_version, icon_path, link },
        },
    }
}

fn prepare_create_run(job_state: &mut InstallJobState, event: PrepareEvent) -> (action: PrepareAction)
    requires
        old(job_state).request is CreateInstance,
    ensures
        prepare_create(old(job_state)@, event, final(job_state)@, action),
{
    let (name, game_version, loader, loader_version, adjuncts, icon_path, link) = match &job_state.request {
        InstallRequest::CreateInstance {
            name,
            game_version,
            loader,
            loader_version,
            adjuncts,
            icon_path,
            link,
        } => (
            name.clone(),
            game_version.clone(),
            *loader,
            clone_option_string(loader_version),
            clone_components(adjuncts),
            clone_option_string(icon_path),
            link.cloned(),
        ),
        _ => { return PrepareAction::Unexpected; },
    };
    match event {
        PrepareEvent::Started => match &link {
            InstanceLink::CurseForgeModpack { project_id, version_id } => match parse_curseforge_ids(
                project_id.as_str(),
                version_id.as_str(),
            ) {
                Err(error) => PrepareAction::Refuse { error },
                Ok((p, f)) => PrepareAction::FetchModpackTarget { project_id: p, file_id: f },
            },
            _ => match check_adjunct_support(loader, &adjuncts) {
                Err(error) => PrepareAction::Fail { error },
                Ok(()) => PrepareAction::ResolveAdjunctVersions { game_version },
            },
        },
        PrepareEvent::ModpackTargetFetched { game_version: g, loader: l, loader_version: lv } => {
            if let InstanceLink::CurseForgeModpack { .. } = &link {
                let none: Vec<LoaderComponent> = Vec::new();
                let a = match check_adjunct_support(l, &none) {
                    Err(error) => PrepareAction::Fail { error },
                    Ok(()) => PrepareAction::ResolveAdjunctVersions { game_version: g.clone() },
                };
                job_state.request = InstallRequest::CreateInstance {
                    name,
                    game_version: g,
                    loader: l,
                    loader_version: lv,
                    adjuncts: none,
                    icon_path,
                    link,
                };
                a
            } else {
                PrepareAction::Unexpected
            }
        },
        PrepareEvent::AdjunctVersionsResolved { versions } => {
            let mut pinned = adjuncts;
            match pin_resolved_adjuncts(loader, game_version.as_str(), &mut pinned, &versions) {
                Err(error) => PrepareAction::Fail { error },
                Ok(()) => {
                    let a = if needs_optifabric(loader, &pinned) {
                        PrepareAction::FetchOptiFabricFiles
                    } else {
                        creation_action(
                            name.clone(),
                            game_version.clone(),
                            loader,
                            clone_option_string(&loader_version),
                            &pinned,
                            clone_option_string(&icon_path),
                            link.cloned(),
                        )
                    };
                    job_state.request = InstallRequest::CreateInstance {
                        name,
                        game_version,
                        loader,
                        loader_version,
                        adjuncts: pinned,
                        icon_path,
                        link,
                    };
                    a
                },
            }
        },
        PrepareEvent::OptiFabricFilesFetched { files } => {
            if !needs_optifabric(loader, &adjuncts) {
                return PrepareAction::Unexpected;
            }
            match resolve_optifabric_file(&files, game_version.as_str()) {
                Err(error) => PrepareAction::Fail { error },
                Ok(version) => {
                    let mut completed = adjuncts;
                    let ghost before = completed@;
                    let component = optifabric_component(version);
                    completed.push(component);
                    assert(completed@.drop_last() =~= before);
                    let a = creation_action(
                        name.clone(),
                        game_version.clone(),
                        loader,
                        clone_option_string(&loader_version),
                        &completed,
                        clone_option_string(&icon_path),
                        link.cloned(),
                    );
                    job_state.request = InstallRequest::CreateInstance {
                        name,
                        game_version,
                        loader,
                        loader_version,
                        adjuncts: completed,
                        icon_path,
                        link,
                    };
                    a
                },
            }
        },
        PrepareEvent::InstanceCreated { instance_id, name: n, icon_path: ip, loader_components } => {
            if adjuncts.len() == 0 {
                set_display(job_state, n, ip);
                set_instance_id(job_state, instance_id);
                PrepareAction::Done
            } else {
                match attach_and_validate(&loader_components, &adjuncts, instance_id.as_str()) {
                    Err(error) => PrepareAction::Fail { error },
                    Ok(components) => {
                        set_display(job_state, n, ip);
                        set_instance_id(job_state, instance_id.clone());
                        PrepareAction::ReplaceLoaderComponents { instance_id, components }
                    },
                }
            }
        },
        PrepareEvent::LoaderComponentsReplaced => PrepareAction::Done,
        _ => PrepareAction::Unexpected,
    }
}

/// A preparation step of a job that does not create an instance from its
/// own request values: a modpack instance, an imported or copied instance, an
/// upgrade, a job on an existing instance, a content install or a Java
/// download.
pub open spec fn prepare_other(
    j0: InstallJobStateView,
    event: PrepareEvent,
    j1: InstallJobStateView,
    action: PrepareAction,
) -> bool {
    match j0.request {
        InstallRequest::CreateModpackInstance { post_install_edit, .. } => match event {
            PrepareEvent::Started => j1 == j0 && action == PrepareAction::FetchPackPreview,
            PrepareEvent::PackPreviewFetched { preview } => j1 == j0 && action
                == PrepareAction::CreateModpackInstance {
                settings: modpack_settings(post_install_edit, preview),
            },
            PrepareEvent::InstanceCreated { instance_id, name, icon_path, .. } => j1 == created(
                j0,
                instance_id,
                name,
                icon_path,
            ) && action == PrepareAction::Done,
            _ => j1 == j0 && action == PrepareAction::Unexpected,
        },
        InstallRequest::ImportInstance { instance_folder, .. } => match event {
            PrepareEvent::Started => j1 == j0 && (action matches PrepareAction::CreateInstance {
                instance,
            } && instance.name == instance_folder && instance.game_version@ == "unknown"@
                && instance.loader == ModLoader::Vanilla && instance.loader_version is None
                && instance.icon_path is None && instance.link is Unmanaged),
            PrepareEvent::InstanceCreated { instance_id, name, icon_path, .. } => j1 == created(
                j0,
                instance_id,
                name,
                icon_path,
            ) && action == PrepareAction::Done,
            _ => j1 == j0 && action == PrepareAction::Unexpected,
        },
        InstallRequest::DuplicateInstance { source_instance_id } => match event {
            PrepareEvent::Started => j1 == j0 && action == PrepareAction::ReadInstance {
                instance_id: source_instance_id,
            },
            PrepareEvent::InstanceRead { instance } => j1 == j0 && match instance {
                None => action == PrepareAction::Refuse { error: InstallJobError::UnknownSourceInstance },
                Some(s) => action == PrepareAction::CreateInstance {
                    instance: NewInstance {
                        name: s.name,
                        game_version: s.game_version,
                        loader: s.loader,
                        loader_version: s.loader_version,
                        icon_path: s.icon_path,
                        link: s.link,
                    },
                },
            },
            PrepareEvent::InstanceCreated { instance_id, name, icon_path, .. } => j1 == created(
                j0,
                instance_id,
                name,
                icon_path,
            ) && action == PrepareAction::Done,
            _ => j1 == j0 && action == PrepareAction::Unexpected,
        },
        InstallRequest::UpgradeUnmanagedInstance { instance_id: source, direct, copy_name } => match event {
            PrepareEvent::Started => j1 == j0 && action == PrepareAction::ReadInstance {
                instance_id: source,
            },
            PrepareEvent::InstanceRead { instance } => match instance {
                None => j1 == j0 && action == PrepareAction::Refuse {
                    error: InstallJobError::UnknownUpgradeSource,
                },
                Some(s) => {
                    let shown = InstallJobStateView {
                        display: Some(InstallJobDisplay { title: s.name, icon: s.icon_path }),
                        ..j0
                    };
                    if direct {
                        if j0.rollback is Some {
                            j1 == shown && action == PrepareAction::Done
                        } else {
                            j1 == rollback_prepared(shown, s) && action
                                == PrepareAction::MarkMinecraftInstalling { instance_id: source }
                        }
                    } else {
                        j1 == shown && (action matches PrepareAction::CreateInstance { instance }
                            && instance.name@ == upgraded_copy_name_text(copy_name, s.name@)
                            && instance.game_version == s.game_version && instance.loader == s.loader
                            && instance.loader_version == s.loader_version && instance.icon_path
                            == s.icon_path && instance.link is Unmanaged)
                    }
                },
            },
            PrepareEvent::MinecraftInstallingMarked => j1 == j0 && if direct {
                action == PrepareAction::Done
            } else {
                action == PrepareAction::Unexpected
            },
            PrepareEvent::InstanceCreated { instance_id, .. } => if direct {
                j1 == j0 && action == PrepareAction::Unexpected
            } else {
                j1 == (InstallJobStateView {
                    target: retarget(j0.target, instance_id),
                    cleanup: reclean(j0.cleanup, instance_id),
                    ..j0
                }) && action == PrepareAction::CloneLoaderComponents {
                    source_instance_id: source,
                    instance_id,
                }
            },
            PrepareEvent::LoaderComponentsCloned => j1 == j0 && if direct {
                action == PrepareAction::Unexpected
            } else {
                action == PrepareAction::Done
            },
            _ => j1 == j0 && action == PrepareAction::Unexpected,
        },
        InstallRequest::InstallContent { instance_id, display_title, display_icon, .. }
        | InstallRequest::InstallCurseForgeWorld { instance_id, display_title, display_icon }
        | InstallRequest::InstallCurseForgeContent {
            instance_id,
            display_title,
            display_icon,
            ..
        } => match event {
            PrepareEvent::Started => j1 == j0 && action == PrepareAction::ReadInstance { instance_id },
            PrepareEvent::InstanceRead { instance } => match instance {
                None => j1 == j0 && action == PrepareAction::Refuse {
                    error: InstallJobError::UnknownInstance { instance_id },
                },
                Some(_) => j1 == (InstallJobStateView {
                    display: Some(InstallJobDisplay { title: display_title, icon: display_icon }),
                    ..j0
                }) && action == PrepareAction::Done,
            },
            _ => j1 == j0 && action == PrepareAction::Unexpected,
        },
        InstallRequest::DownloadJava { vendor, version } => match event {
            PrepareEvent::Started => {
                &&& j1 == (InstallJobStateView { display: j1.display, ..j0 })
                &&& j1.display matches Some(d)
                &&& d.title@ == java_title_text(vendor@, version)
                &&& d.icon is None
                &&& action == PrepareAction::Done
            },
            _ => j1 == j0 && action == PrepareAction::Unexpected,
        },
        _ => {
            let id = existing_instance_id(j0.request);
            match event {
                PrepareEvent::Started => j1 == j0 && if j0.rollback is Some {
                    action == PrepareAction::Done
                } else {
                    action == PrepareAction::ReadInstance { instance_id: id }
                },
                PrepareEvent::InstanceRead { instance } => if j0.rollback is Some {
                    j1 == j0 && action == PrepareAction::Unexpected
                } else {
                    match instance {
                        None => j1 == j0 && action == PrepareAction::Refuse {
                            error: InstallJobError::UnknownInstance { instance_id: id },
                        },
                        Some(s) => j1 == rollback_prepared(j0, s) && action
                            == PrepareAction::MarkMinecraftInstalling { instance_id: id },
                    }
                },
                PrepareEvent::MinecraftInstallingMarked => j1 == j0 && action == PrepareAction::Done,
                _ => j1 == j0 && action == PrepareAction::Unexpected,
            }
        },
    }
}

fn snapshot_instance(s: &InstanceSnapshot) -> (n: NewInstance)
    ensures
        n == (NewInstance {
            name: s.name,
            game_version: s.game_version,
            loader: s.loader,
            loader_version: s.loader_version,
            icon_path: s.icon_path,
            link: s.link,
        }),
{
    NewInstance {
        name: s.name.clone(),
        game_version: s.game_version.clone(),
        loader: s.loader,
        loader_version: clone_option_string(&s.loader_version),
        icon_path: clone_option_string(&s.icon_path),
        link: s.link.cloned(),
    }
}

fn prepare_other_run(job_state: &mut InstallJobState, event: PrepareEvent) -> (action: PrepareAction)
    requires
        !(old(job_state).request is CreateInstance),
    ensures
        prepare_other(old(job_state)@, event, final(job_state)@, action),
{
    match &job_state.request {
        InstallRequest::CreateModpackInstance { post_install_edit, .. } => {
            let edit = match post_install_edit {
                None => None,
                Some(e) => Some(e.cloned()),
            };
            match event {
                PrepareEvent::Started => PrepareAction::FetchPackPreview,
                PrepareEvent::PackPreviewFetched { preview } => PrepareAction::CreateModpackInstance {
                    settings: modpack_instance_settings(edit, preview),
                },
                PrepareEvent::InstanceCreated { instance_id, name, icon_path, .. } => {
                    set_display(job_state, name, icon_path);
                    set_instance_id(job_state, instance_id);
                    PrepareAction::Done
                },
                _ => PrepareAction::Unexpected,
            }
        },
        InstallRequest::ImportInstance { instance_folder, .. } => {
            let folder = instance_folder.clone();
            match event {
                PrepareEvent::Started => PrepareAction::CreateInstance {
                    instance: NewInstance {
                        name: folder,
                        game_version: String::from_str("unknown"),
                        loader: ModLoader::Vanilla,
                        loader_version: None,
                        icon_path: None,
                        link: InstanceLink::Unmanaged,
                    },
                },
                PrepareEvent::InstanceCreated { instance_id, name, icon_path, .. } => {
                    set_display(job_state, name, icon_path);
                    set_instance_id(job_state, instance_id);
                    PrepareAction::Done
                },
                _ => PrepareAction::Unexpected,
            }
        },
        InstallRequest::DuplicateInstance { source_instance_id } => {
            let source = source_instance_id.clone();
            match event {
                PrepareEvent::Started => PrepareAction::ReadInstance { instance_id: source },
                PrepareEvent::InstanceRead { instance } => match instance {
                    None => PrepareAction::Refuse { error: InstallJobError::UnknownSourceInstance },
                    Some(s) => PrepareAction::CreateInstance { instance: snapshot_instance(&s) },
                },
                PrepareEvent::InstanceCreated { instance_id, name, icon_path, .. } => {
                    set_display(job_state, name, icon_path);
                    set_instance_id(job_state, instance_id);
                    PrepareAction::Done
                },
                _ => PrepareAction::Unexpected,
            }
        },
        InstallRequest::UpgradeUnmanagedInstance { instance_id, direct, copy_name } => {
            let source = instance_id.clone();
            let direct = *direct;
            let copy_name = clone_option_string(copy_name);
            match event {
                PrepareEvent::Started => PrepareAction::ReadInstance { instance_id: source },
                PrepareEvent::InstanceRead { instance } => match instance {
                    None => PrepareAction::Refuse { error: InstallJobError::UnknownUpgradeSource },
                    Some(s) => {
                        set_display(job_state, s.name.clone(), clone_option_string(&s.icon_path));
                        if direct {
                            if job_state.rollback.is_some() {
                                PrepareAction::Done
                            } else {
                                let _ = begin_existing_rollback(job_state, s);
                                PrepareAction::MarkMinecraftInstalling { instance_id: source }
                            }
                        } else {
                            PrepareAction::CreateInstance {
                                instance: NewInstance {
                                    name: upgraded_copy_name(copy_name, s.name.as_str()),
                                    game_version: s.game_version.clone(),
                                    loader: s.loader,
                                    loader_version: clone_option_string(&s.loader_version),
                                    icon_path: clone_option_string(&s.icon_path),
                                    link: InstanceLink::Unmanaged,
                                },
                            }
                        }
                    },
                },
                PrepareEvent::MinecraftInstallingMarked => if direct {
                    PrepareAction::Done
                } else {
                    PrepareAction::Unexpected
                },
                PrepareEvent::InstanceCreated { instance_id, .. } => if direct {
                    PrepareAction::Unexpected
                } else {
                    set_instance_id(job_state, instance_id.clone());
                    PrepareAction::CloneLoaderComponents { source_instance_id: source, instance_id }
                },
                PrepareEvent::LoaderComponentsCloned => if direct {
                    PrepareAction::Unexpected
                } else {
                    PrepareAction::Done
                },
                _ => PrepareAction::Unexpected,
            }
        },
        InstallRequest::InstallContent { instance_id, display_title, display_icon, .. }
        | InstallRequest::InstallCurseForgeWorld { instance_id, display_title, display_icon }
        | InstallRequest::InstallCurseForgeContent {
            instance_id,
            display_title,
            display_icon,
            ..
        } => {
            let id = instance_id.clone();
            let title = display_title.clone();
            let icon = clone_option_string(display_icon);
            match event {
                PrepareEvent::Started => PrepareAction::ReadInstance { instance_id: id },
                PrepareEvent::InstanceRead { instance } => match instance {
                    None => PrepareAction::Refuse {
                        error: InstallJobError::UnknownInstance { instance_id: id },
                    },
                    Some(_) => {
                        set_display(job_state, title, icon);
                        PrepareAction::Done
                    },
                },
                _ => PrepareAction::Unexpected,
            }
        },
        InstallRequest::DownloadJava { vendor, version } => match event {
            PrepareEvent::Started => {
                let title = java_display_title(vendor.as_str(), *version);
                set_display(job_state, title, None);
                PrepareAction::Done
            },
            _ => PrepareAction::Unexpected,
        },
        InstallRequest::CreateInstance { .. } => PrepareAction::Unexpected,
        _ => {
            let ghost j0 = job_state@;
            let id = match &job_state.request {
                InstallRequest::InstallExistingInstance { instance_id, .. } => instance_id.clone(),
                InstallRequest::InstallPackToExistingInstance { instance_id, .. } => instance_id.clone(),
                InstallRequest::UpdateManagedCurseForgeModpack { instance_id, .. } => instance_id.clone(),
                _ => String::new(),
            };
            assert(id == existing_instance_id(j0.request));
            match event {
                PrepareEvent::Started => if job_state.rollback.is_some() {
                    PrepareAction::Done
                } else {
                    PrepareAction::ReadInstance { instance_id: id }
                },
                PrepareEvent::InstanceRead { instance } => if job_state.rollback.is_some() {
                    PrepareAction::Unexpected
                } else {
                    match instance {
                        None => PrepareAction::Refuse {
                            error: InstallJobError::UnknownInstance { instance_id: id },
                        },
                        Some(s) => {
                            let _ = begin_existing_rollback(job_state, s);
                            PrepareAction::MarkMinecraftInstalling { instance_id: id }
                        },
                    }
                },
                PrepareEvent::MinecraftInstallingMarked => PrepareAction::Done,
                _ => PrepareAction::Unexpected,
            }
        },
    }
}

/// One preparation step of an install job, by the kind of its request.
pub open spec fn prepare_step(
    j0: InstallJobStateView,
    event: PrepareEvent,
    j1: InstallJobStateView,
    action: PrepareAction,
) -> bool {
    if j0.request is CreateInstance {
        prepare_create(j0, event, j1, action)
    } else {
        prepare_other(j0, event, j1, action)
    }
}

/// Runs one preparation step of an install job: takes the outcome of the
/// outside work asked for last, updates the job state and returns the
/// outside work to do next. A preparation begins with `Started` and ends
/// with `Done`, `Refuse` or `Fail`.
pub fn prepare_initial_instance_step(job_state: &mut InstallJobState, event: PrepareEvent) -> (action:
    PrepareAction)
    ensures
        prepare_step(old(job_state)@, event, final(job_state)@, action),
{
    if let InstallRequest::CreateInstance { .. } = &job_state.request {
        prepare_create_run(job_state, event)
    } else {
        prepare_other_run(job_state, event)
    }
}

/// Preparing a job on an existing instance reads the instance once: with a
/// rollback already recorded, the preparation is done at once and changes
/// nothing; without one, it asks to read the instance.
pub proof fn prepared_rollback_is_kept(
    j0: InstallJobStateView,
    j1: InstallJobStateView,
    action: PrepareAction,
)
    requires
        is_existing_request(j0.request),
        prepare_step(j0, PrepareEvent::Started, j1, action),
    ensures
        j1 == j0,
        j0.rollback is Some ==> action == PrepareAction::Done,
        j0.rollback is None ==> action == (PrepareAction::ReadInstance {
            instance_id: existing_instance_id(j0.request),
        }),
{
}

/// The rollback of an existing instance is prepared once: the instance as
/// read is kept with its install stage, the job restores that instance on
/// failure and asks to mark it as installing; preparing again afterwards
/// changes nothing.
pub proof fn existing_rollback_is_prepared_once(
    j0: InstallJobStateView,
    instance: InstanceSnapshot,
    j1: InstallJobStateView,
    a1: PrepareAction,
    j2: InstallJobStateView,
    a2: PrepareAction,
)
    requires
        is_existing_request(j0.request),
        j0.rollback is None,
        prepare_step(j0, (PrepareEvent::InstanceRead { instance: Some(instance) }), j1, a1),
        prepare_step(j1, PrepareEvent::Started, j2, a2),
    ensures
        j1.rollback == Some((InstallRollbackState { instance, install_stage: instance.install_stage })),
        j1.cleanup == (InstallCleanup::RestoreExistingInstance { instance_id: instance.instance_id }),
        a1 == (PrepareAction::MarkMinecraftInstalling { instance_id: existing_instance_id(j0.request) }),
        j2 == j1,
        a2 == PrepareAction::Done,
{
    assert(j1.request == j0.request);
}

} // verus!
