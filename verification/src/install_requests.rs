//! Decisions the job runner takes while preparing and running a request:
//! the names, titles and identifiers it derives, and which content it touches.

use vstd::prelude::*;
use crate::install_model::{
    InstallJobState, InstallPhaseDetails, InstallRequestKind, request_kind_of, InstallPauseReason, clone_option_string,
};
use crate::install_jobs::{InstallJobError, target_instance_id, current_instance_id};
use crate::install_errors::{ErrorKind, InstallError};
use crate::text::{
    parse_u32, parsed_u32, append_decimal, decimal, views, view_set, strictly_sorted,
    sorted_unique, contains_str, lemma_view_set_push,
};

verus! {

/// Where an instance's content comes from.
#[derive(Debug)]
pub enum InstanceLink {
    Unmanaged,
    ModrinthModpack { project_id: String, version_id: String },
    CurseForgeModpack { project_id: String, version_id: String },
    ServerProjectModpack { content_project_id: String, content_version_id: String },
    ImportedModpack,
}

/// Where a modpack to install is found.
#[derive(Debug)]
pub enum CreatePackLocation {
    FromVersionId { project_id: String, version_id: String, title: String, icon_url: Option<String> },
    FromFile { path: String },
}

/// Changes the user asked for once a modpack is installed.
#[derive(Debug)]
pub struct InstallPostInstallEdit {
    pub name: Option<String>,
    /// `Some(None)` removes the icon.
    pub icon_path: Option<Option<String>>,
    pub link: Option<InstanceLink>,
}

impl InstanceLink {
    /// A copy of this link.
    pub fn cloned(&self) -> (c: InstanceLink)
        ensures
            c == *self,
    {
        match self {
            InstanceLink::Unmanaged => InstanceLink::Unmanaged,
            InstanceLink::ModrinthModpack { project_id, version_id } => InstanceLink::ModrinthModpack {
                project_id: project_id.clone(),
                version_id: version_id.clone(),
            },
            InstanceLink::CurseForgeModpack { project_id, version_id } => InstanceLink::CurseForgeModpack {
                project_id: project_id.clone(),
                version_id: version_id.clone(),
            },
            InstanceLink::ServerProjectModpack { content_project_id, content_version_id } =>
                InstanceLink::ServerProjectModpack {
                content_project_id: content_project_id.clone(),
                content_version_id: content_version_id.clone(),
            },
            InstanceLink::ImportedModpack => InstanceLink::ImportedModpack,
        }
    }
}

impl InstallPostInstallEdit {
    /// A copy of these edits.
    pub fn cloned(&self) -> (c: InstallPostInstallEdit)
        ensures
            c == *self,
    {
        InstallPostInstallEdit {
            name: clone_option_string(&self.name),
            icon_path: match &self.icon_path {
                None => None,
                Some(icon) => Some(clone_option_string(icon)),
            },
            link: match &self.link {
                None => None,
                Some(link) => Some(link.cloned()),
            },
        }
    }
}

/// What a modpack says about the instance it makes.
#[derive(Debug)]
pub struct PackPreview {
    pub name: String,
    pub icon: Option<String>,
    pub icon_url: Option<String>,
    pub link: Option<InstanceLink>,
}

/// Name, icon and link of the instance created for a modpack.
#[derive(Debug)]
pub struct ModpackInstanceSettings {
    pub name: String,
    pub icon_path: Option<String>,
    pub link: InstanceLink,
}

/// The name, icon and link of a new modpack instance: the user's edits
/// where given, else what the pack says; the icon falls back from a local
/// file to the pack's icon URL, and the link to an unmanaged instance.
pub open spec fn modpack_settings(
    edit: Option<InstallPostInstallEdit>,
    preview: PackPreview,
) -> ModpackInstanceSettings {
    let name = match edit {
        Some(e) => match e.name {
            Some(n) => n,
            None => preview.name,
        },
        None => preview.name,
    };
    let preview_icon = match preview.icon {
        Some(i) => Some(i),
        None => preview.icon_url,
    };
    let icon_path = match edit {
        Some(e) => match e.icon_path {
            Some(i) => i,
            None => preview_icon,
        },
        None => preview_icon,
    };
    let link = match edit {
        Some(e) => match e.link {
            Some(l) => l,
            None => match preview.link {
                Some(l) => l,
                None => InstanceLink::Unmanaged,
            },
        },
        None => match preview.link {
            Some(l) => l,
            None => InstanceLink::Unmanaged,
        },
    };
    ModpackInstanceSettings { name, icon_path, link }
}

/// Decides the name, icon and link of the instance created for a modpack.
pub fn modpack_instance_settings(edit: Option<InstallPostInstallEdit>, preview: PackPreview) -> (s:
    ModpackInstanceSettings)
    ensures
        s == modpack_settings(edit, preview),
{
    let preview_icon = match preview.icon {
        Some(i) => Some(i),
        None => preview.icon_url,
    };
    match edit {
        None => {
            let link = match preview.link {
                Some(l) => l,
                None => InstanceLink::Unmanaged,
            };
            ModpackInstanceSettings { name: preview.name, icon_path: preview_icon, link }
        },
        Some(e) => {
            let name = match e.name {
                Some(n) => n,
                None => preview.name,
            };
            let icon_path = match e.icon_path {
                Some(i) => i,
                None => preview_icon,
            };
            let link = match e.link {
                Some(l) => l,
                None => match preview.link {
                    Some(l) => l,
                    None => InstanceLink::Unmanaged,
                },
            };
            ModpackInstanceSettings { name, icon_path, link }
        },
    }
}

/// Whether a post-install edit changes nothing.
pub open spec fn edit_is_empty(edit: InstallPostInstallEdit) -> bool {
    edit.name is None && edit.icon_path is None && edit.link is None
}

/// Whether a post-install edit must be applied to the instance.
pub fn post_install_edit_needed(edit: &Option<InstallPostInstallEdit>) -> (b: bool)
    ensures
        b == (*edit matches Some(e) && !edit_is_empty(e)),
{
    match edit {
        None => false,
        Some(e) => !(e.name.is_none() && e.icon_path.is_none() && e.link.is_none()),
    }
}

/// What the progress shows while a modpack is resolved.
pub open spec fn modpack_phase_details(location: CreatePackLocation) -> InstallPhaseDetails {
    match location {
        CreatePackLocation::FromVersionId { project_id, version_id, title, .. } =>
            InstallPhaseDetails::Modpack {
            project_id: Some(project_id),
            version_id: Some(version_id),
            title: Some(title),
        },
        CreatePackLocation::FromFile { .. } => InstallPhaseDetails::Modpack {
            project_id: None,
            version_id: None,
            title: None,
        },
    }
}

/// The progress details of a modpack being resolved.
pub fn modpack_details(location: &CreatePackLocation) -> (d: InstallPhaseDetails)
    ensures
        d == modpack_phase_details(*location),
{
    match location {
        CreatePackLocation::FromVersionId { project_id, version_id, title, .. } => {
            InstallPhaseDetails::Modpack {
                project_id: Some(project_id.clone()),
                version_id: Some(version_id.clone()),
                title: Some(title.clone()),
            }
        },
        CreatePackLocation::FromFile { .. } => InstallPhaseDetails::Modpack {
            project_id: None,
            version_id: None,
            title: None,
        },
    }
}

/// Reads the CurseForge project and file ids of a CurseForge modpack link.
pub fn parse_curseforge_ids(project_id: &str, version_id: &str) -> (r: Result<(u32, u32), InstallJobError>)
    ensures
        r == match (parsed_u32(project_id@), parsed_u32(version_id@)) {
            (None, _) => Err(InstallJobError::InvalidCurseForgeProjectId),
            (Some(_), None) => Err(InstallJobError::InvalidCurseForgeFileId),
            (Some(p), Some(f)) => Ok::<(u32, u32), InstallJobError>((p, f)),
        },
{
    let project = match parse_u32(project_id) {
        None => {
            return Err(InstallJobError::InvalidCurseForgeProjectId);
        },
        Some(p) => p,
    };
    let file = match parse_u32(version_id) {
        None => {
            return Err(InstallJobError::InvalidCurseForgeFileId);
        },
        Some(f) => f,
    };
    Ok((project, file))
}

/// The instance a running job works on; a job whose instance was never
/// created cannot run. For an upgrade this is the instance it writes to.
pub fn require_instance_id(job_state: &InstallJobState) -> (r: Result<String, InstallJobError>)
    ensures
        r == match target_instance_id(job_state.target) {
            Some(id) => Ok::<String, InstallJobError>(id),
            None => Err(
                if request_kind_of(job_state.request) == InstallRequestKind::UpgradeUnmanagedInstance {
                    InstallJobError::MissingUpgradeTarget
                } else {
                    InstallJobError::MissingInstanceId
                },
            ),
        },
{
    match current_instance_id(job_state) {
        Some(id) => Ok(id),
        None => if job_state.request.kind() == InstallRequestKind::UpgradeUnmanagedInstance {
            Err(InstallJobError::MissingUpgradeTarget)
        } else {
            Err(InstallJobError::MissingInstanceId)
        },
    }
}

/// The name of the copy an upgrade makes of an instance.
pub open spec fn upgraded_copy_name_text(copy: Option<String>, source_name: Seq<char>) -> Seq<char> {
    match copy {
        Some(name) => name@,
        None => source_name + " (Upgraded Copy)"@,
    }
}

/// Names the copy an upgrade makes: the name the user chose, or the source
/// name marked as an upgraded copy.
pub fn upgraded_copy_name(copy: Option<String>, source_name: &str) -> (name: String)
    ensures
        name@ == upgraded_copy_name_text(copy, source_name@),
{
    match copy {
        Some(name) => name,
        None => {
            let mut name = String::from_str(source_name);
            name.append(" (Upgraded Copy)");
            name
        },
    }
}

/// The title of a Java download job.
pub open spec fn java_title_text(vendor: Seq<char>, version: u32) -> Seq<char> {
    "Java "@ + decimal(version as nat) + " ("@ + vendor + ")"@
}

/// Titles a Java download job: `Java {version} ({vendor})`.
pub fn java_display_title(vendor: &str, version: u32) -> (title: String)
    ensures
        title@ == java_title_text(vendor@, version),
{
    let mut title = String::from_str("Java ");
    append_decimal(&mut title, version as u64);
    title.append(" (");
    title.append(vendor);
    title.append(")");
    title
}

/// The key under which a CurseForge project is reported.
pub open spec fn curseforge_key_text(project_id: u32) -> Seq<char> {
    "curseforge:"@ + decimal(project_id as nat)
}

/// The key under which a CurseForge project is reported: `curseforge:{id}`.
pub fn curseforge_project_key(project_id: u32) -> (key: String)
    ensures
        key@ == curseforge_key_text(project_id),
{
    let mut key = String::from_str("curseforge:");
    append_decimal(&mut key, project_id as u64);
    key
}

/// The projects a finished content install reports: the requested project
/// first, then its dependencies in order.
pub fn content_install_project_ids(primary: String, dependencies: &Vec<String>) -> (ids: Vec<String>)
    ensures
        ids@ == seq![primary] + dependencies@,
{
    let mut ids: Vec<String> = Vec::new();
    ids.push(primary);
    let mut i: usize = 0;
    while i < dependencies.len()
        invariant
            i <= dependencies@.len(),
            ids@ == seq![primary] + dependencies@.take(i as int),
        decreases dependencies@.len() - i,
    {
        ids.push(dependencies[i].clone());
        assert(seq![primary] + dependencies@.take(i + 1) =~= (seq![primary] + dependencies@.take(
            i as int,
        )).push(dependencies@[i as int]));
        i += 1;
    }
    assert(dependencies@.take(dependencies@.len() as int) =~= dependencies@);
    ids
}

/// Where a CurseForge world that must be downloaded by hand goes.
pub open spec fn world_path_text(file_name: Seq<char>) -> Seq<char> {
    "saves/"@ + file_name
}

/// The page a CurseForge world is downloaded from by hand.
pub open spec fn world_url_text(
    website_url: Option<String>,
    project_slug: Seq<char>,
    file_id: u32,
) -> Seq<char> {
    match website_url {
        Some(url) => url@,
        None => "https://www.curseforge.com/minecraft/worlds/"@ + project_slug + "/download/"@
            + decimal(file_id as nat),
    }
}

/// A CurseForge world the user must download by hand: the path it goes to
/// and the page to download it from.
pub fn curseforge_world_manual_download(
    file_name: &str,
    website_url: Option<String>,
    project_slug: &str,
    file_id: u32,
) -> (r: (String, String))
    ensures
        r.0@ == world_path_text(file_name@),
        r.1@ == world_url_text(website_url, project_slug@, file_id),
{
    let mut path = String::from_str("saves/");
    path.append(file_name);
    let url = match website_url {
        Some(url) => url,
        None => {
            let mut url = String::from_str("https://www.curseforge.com/minecraft/worlds/");
            url.append(project_slug);
            url.append("/download/");
            append_decimal(&mut url, file_id as u64);
            url
        },
    };
    (path, url)
}

/// The pause of a world install waiting for one manual download at `path`.
pub fn single_missing_file_pause(path: String) -> (p: InstallPauseReason)
    ensures
        p matches InstallPauseReason::MissingRequiredContent { failed_files, paths } && failed_files
            == 1 && paths@ == seq![path],
{
    let mut paths: Vec<String> = Vec::new();
    paths.push(path);
    assert(paths@ =~= seq![path]);
    InstallPauseReason::MissingRequiredContent { failed_files: 1, paths }
}

/// An update of a managed CurseForge modpack fails when some of its files
/// could not be downloaded automatically; `failed_downloads` counts them.
pub fn check_update_downloads(failed_downloads: u64) -> (r: Result<(), InstallError>)
    ensures
        failed_downloads == 0 ==> r is Ok,
        failed_downloads > 0 ==> (r matches Err(e) && e.kind is NetworkError && e.message@
            == decimal(failed_downloads as nat)
            + " CurseForge files could not be downloaded automatically"@),
{
    if failed_downloads == 0 {
        return Ok(());
    }
    let mut message = String::new();
    append_decimal(&mut message, failed_downloads);
    message.append(" CurseForge files could not be downloaded automatically");
    Err(InstallError { kind: ErrorKind::NetworkError, message })
}

/// How the content of an instance's current pack is found again before a
/// new pack replaces it.
#[derive(Debug)]
pub enum PackSource {
    /// A version of a Modrinth project.
    Version { project_id: String, version_id: String },
    /// A pack imported from a file; its content is only snapshotted.
    ImportedPack,
    /// The instance is not linked to a pack.
    NoPack,
}

/// The pack an instance link points at.
pub open spec fn pack_source_of(link: InstanceLink) -> PackSource {
    match link {
        InstanceLink::ModrinthModpack { project_id, version_id } => PackSource::Version {
            project_id,
            version_id,
        },
        InstanceLink::ServerProjectModpack { content_project_id, content_version_id } =>
            PackSource::Version { project_id: content_project_id, version_id: content_version_id },
        InstanceLink::ImportedModpack => PackSource::ImportedPack,
        _ => PackSource::NoPack,
    }
}

/// Finds the pack an instance link points at.
pub fn pack_source(link: &InstanceLink) -> (s: PackSource)
    ensures
        s == pack_source_of(*link),
{
    match link {
        InstanceLink::ModrinthModpack { project_id, version_id } => PackSource::Version {
            project_id: project_id.clone(),
            version_id: version_id.clone(),
        },
        InstanceLink::ServerProjectModpack { content_project_id, content_version_id } =>
            PackSource::Version {
            project_id: content_project_id.clone(),
            version_id: content_version_id.clone(),
        },
        InstanceLink::ImportedModpack => PackSource::ImportedPack,
        _ => PackSource::NoPack,
    }
}

/// A provider an installed project file is known to.
#[derive(Debug)]
pub enum ContentProviderRef {
    Modrinth { project_id: String },
    CurseForge { project_id: u32 },
    McArchive,
}

/// A project file installed in an instance.
#[derive(Debug)]
pub struct ProjectFile {
    pub relative_path: String,
    pub enabled: bool,
    pub provider_refs: Vec<ContentProviderRef>,
}

/// The Modrinth project of the first Modrinth reference, if any.
pub open spec fn first_modrinth_project(refs: Seq<ContentProviderRef>) -> Option<String>
    decreases refs.len(),
{
    if refs.len() == 0 {
        None
    } else {
        match refs[0] {
            ContentProviderRef::Modrinth { project_id } => Some(project_id),
            _ => first_modrinth_project(refs.drop_first()),
        }
    }
}

fn find_modrinth_project(refs: &Vec<ContentProviderRef>) -> (p: Option<String>)
    ensures
        p == first_modrinth_project(refs@),
{
    let mut i: usize = 0;
    assert(refs@.skip(0) =~= refs@);
    while i < refs.len()
        invariant
            i <= refs@.len(),
            first_modrinth_project(refs@) == first_modrinth_project(refs@.skip(i as int)),
        decreases refs@.len() - i,
    {
        assert(refs@.skip(i as int)[0] == refs@[i as int]);
        assert(refs@.skip(i as int).drop_first() =~= refs@.skip(i + 1));
        if let ContentProviderRef::Modrinth { project_id } = &refs[i] {
            return Some(project_id.clone());
        }
        i += 1;
    }
    None
}

/// Whether `p` is the Modrinth project of a disabled file of `files`.
pub open spec fn is_disabled_project(files: Seq<ProjectFile>, p: Seq<char>) -> bool {
    exists|i: int|
        0 <= i < files.len() && !(#[trigger] files[i]).enabled && (first_modrinth_project(
            files[i].provider_refs@,
        ) matches Some(q) && q@ == p)
}

/// The Modrinth projects whose files the user disabled, each once and in
/// order, so that a pack update can enable them again afterwards.
pub fn disabled_modrinth_project_ids(files: &Vec<ProjectFile>) -> (ids: Vec<String>)
    ensures
        strictly_sorted(ids@),
        forall|p: Seq<char>| #[trigger] view_set(ids@).contains(p) <==> is_disabled_project(files@, p),
{
    let mut found: Vec<String> = Vec::new();
    let mut i: usize = 0;
    while i < files.len()
        invariant
            i <= files@.len(),
            forall|p: Seq<char>| #[trigger] view_set(found@).contains(p) <==> is_disabled_project(
                files@.take(i as int),
                p,
            ),
        decreases files@.len() - i,
    {
        let file = &files[i];
        let ghost before = found@;
        assert forall|j: int| 0 <= j < i implies files@.take(i + 1)[j] == files@.take(i as int)[j]
            by {}
        assert(files@.take(i + 1)[i as int] == files@[i as int]);
        if !file.enabled {
            if let Some(p) = find_modrinth_project(&file.provider_refs) {
                found.push(p);
                proof {
                    lemma_view_set_push(before, p);
                }
                assert forall|q: Seq<char>| #[trigger] view_set(found@).contains(q)
                    <==> is_disabled_project(files@.take(i + 1), q) by {
                    if is_disabled_project(files@.take(i + 1), q) {
                        let j = choose|j: int|
                            0 <= j < i + 1 && !(#[trigger] files@.take(i + 1)[j]).enabled && (
                            first_modrinth_project(files@.take(i + 1)[j].provider_refs@) matches Some(
                                r,
                            ) && r@ == q);
                        if j < i {
                            assert(is_disabled_project(files@.take(i as int), q));
                        }
                    }
                    if view_set(before).contains(q) {
                        let j = choose|j: int|
                            0 <= j < i && !(#[trigger] files@.take(i as int)[j]).enabled && (
                            first_modrinth_project(files@.take(i as int)[j].provider_refs@) matches Some(
                                r,
                            ) && r@ == q);
                        assert(files@.take(i + 1)[j] == files@.take(i as int)[j]);
                    }
                }
            } else {
                assert forall|q: Seq<char>| #[trigger] view_set(found@).contains(q)
                    <==> is_disabled_project(files@.take(i + 1), q) by {
                    if is_disabled_project(files@.take(i + 1), q) {
                        let j = choose|j: int|
                            0 <= j < i + 1 && !(#[trigger] files@.take(i + 1)[j]).enabled && (
                            first_modrinth_project(files@.take(i + 1)[j].provider_refs@) matches Some(
                                r,
                            ) && r@ == q);
                        if j < i {
                            assert(is_disabled_project(files@.take(i as int), q));
                        }
                    }
                    if view_set(before).contains(q) {
                        let j = choose|j: int|
                            0 <= j < i && !(#[trigger] files@.take(i as int)[j]).enabled && (
                            first_modrinth_project(files@.take(i as int)[j].provider_refs@) matches Some(
                                r,
                            ) && r@ == q);
                        assert(files@.take(i + 1)[j] == files@.take(i as int)[j]);
                    }
                }
            }
        } else {
            assert forall|q: Seq<char>| #[trigger] view_set(found@).contains(q)
                <==> is_disabled_project(files@.take(i + 1), q) by {
                if is_disabled_project(files@.take(i + 1), q) {
                    let j = choose|j: int|
                        0 <= j < i + 1 && !(#[trigger] files@.take(i + 1)[j]).enabled && (
                        first_modrinth_project(files@.take(i + 1)[j].provider_refs@) matches Some(r)
                            && r@ == q);
                    if j < i {
                        assert(is_disabled_project(files@.take(i as int), q));
                    }
                }
                if view_set(before).contains(q) {
                    let j = choose|j: int|
                        0 <= j < i && !(#[trigger] files@.take(i as int)[j]).enabled && (
                        first_modrinth_project(files@.take(i as int)[j].provider_refs@) matches Some(
                            r,
                        ) && r@ == q);
                    assert(files@.take(i + 1)[j] == files@.take(i as int)[j]);
                }
            }
        }
        i += 1;
    }
    assert(files@.take(files@.len() as int) =~= files@);
    sorted_unique(&found)
}


/// The disabled Modrinth projects to enable again once a new pack is
/// installed over an instance linked by `link`, whose project files are
/// `files`: none unless the instance follows a version of a pack, and then
/// each disabled project once, sorted.
pub fn disabled_projects_to_keep(link: &InstanceLink, files: &Vec<ProjectFile>) -> (ids: Vec<String>)
    ensures
        !(pack_source_of(*link) is Version) ==> ids@.len() == 0,
        pack_source_of(*link) is Version ==> {
            &&& strictly_sorted(ids@)
            &&& forall|p: Seq<char>|
                #[trigger] view_set(ids@).contains(p) <==> is_disabled_project(files@, p)
        },
{
    match link {
        InstanceLink::ModrinthModpack { .. } | InstanceLink::ServerProjectModpack { .. } => {
            disabled_modrinth_project_ids(files)
        },
        _ => Vec::new(),
    }
}

/// Whether `refs` names one of the `disabled` Modrinth projects.
pub open spec fn names_disabled_project(refs: Seq<ContentProviderRef>, disabled: Seq<String>) -> bool {
    exists|i: int|
        0 <= i < refs.len() && (#[trigger] refs[i] matches ContentProviderRef::Modrinth {
            project_id,
        } && views(disabled).contains(project_id@))
}

/// The paths of the enabled files of `files` that belong to one of the
/// `disabled` projects, in order.
pub open spec fn paths_to_reenable(files: Seq<ProjectFile>, disabled: Seq<String>) -> Seq<String>
    decreases files.len(),
{
    if files.len() == 0 {
        seq![]
    } else {
        let rest = paths_to_reenable(files.drop_last(), disabled);
        if files.last().enabled && names_disabled_project(files.last().provider_refs@, disabled) {
            rest.push(files.last().relative_path)
        } else {
            rest
        }
    }
}

fn refs_name_disabled(refs: &Vec<ContentProviderRef>, disabled: &Vec<String>) -> (b: bool)
    ensures
        b == names_disabled_project(refs@, disabled@),
{
    let mut i: usize = 0;
    while i < refs.len()
        invariant
            i <= refs@.len(),
            forall|j: int|
                0 <= j < i ==> !(#[trigger] refs@[j] matches ContentProviderRef::Modrinth {
                    project_id,
                } && views(disabled@).contains(project_id@)),
        decreases refs@.len() - i,
    {
        if let ContentProviderRef::Modrinth { project_id } = &refs[i] {
            if contains_str(disabled, project_id.as_str()) {
                return true;
            }
        }
        i += 1;
    }
    false
}

/// The files to enable again after a pack update: the enabled files of the
/// projects the user had disabled before.
pub fn files_to_reenable(files: &Vec<ProjectFile>, disabled: &Vec<String>) -> (paths: Vec<String>)
    ensures
        paths@ == paths_to_reenable(files@, disabled@),
{
    let mut paths: Vec<String> = Vec::new();
    let mut i: usize = 0;
    while i < files.len()
        invariant
            i <= files@.len(),
            paths@ == paths_to_reenable(files@.take(i as int), disabled@),
        decreases files@.len() - i,
    {
        let file = &files[i];
        assert(files@.take(i + 1).drop_last() =~= files@.take(i as int));
        if file.enabled && refs_name_disabled(&file.provider_refs, disabled) {
            paths.push(file.relative_path.clone());
        }
        i += 1;
    }
    assert(files@.take(files@.len() as int) =~= files@);
    paths
}

/// The link of a new modpack instance is the link the user's edit gives;
/// an edit that gives none keeps what the pack gives, exactly as if there
/// were no edit: the pack's link when it has one, otherwise none. The same
/// holds of the name and the icon.
pub proof fn edits_change_only_what_they_give(
    edit: InstallPostInstallEdit,
    preview: PackPreview,
)
    ensures
        edit.link matches Some(l) ==> modpack_settings(Some(edit), preview).link == l,
        edit.link is None ==> modpack_settings(Some(edit), preview).link == modpack_settings(
            None,
            preview,
        ).link,
        preview.link matches Some(l) ==> modpack_settings(None, preview).link == l,
        preview.link is None ==> modpack_settings(None, preview).link is Unmanaged,
        edit.name matches Some(n) ==> modpack_settings(Some(edit), preview).name == n,
        edit.name is None ==> modpack_settings(Some(edit), preview).name == preview.name,
        modpack_settings(None, preview).name == preview.name,
        edit.icon_path matches Some(i) ==> modpack_settings(Some(edit), preview).icon_path == i,
        edit.icon_path is None ==> modpack_settings(Some(edit), preview).icon_path
            == modpack_settings(None, preview).icon_path,
{
}

} // verus!
