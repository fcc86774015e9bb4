//! The installation of the adjunct loaders of a new instance, as a sequence
//! of steps: each step takes the outcome of the outside work asked for last,
//! updates the installation and names the outside work to do next. Each
//! adjunct is installed in order, and the version installed is recorded in
//! the instance's components, which are stored at the end.

use vstd::prelude::*;
use crate::install_jobs::InstallJobError;
use crate::install_model::clone_option_string;
use crate::loader::{
    LoaderComponent, LoaderComponentKind, LoaderError, ModLoader, CurseForgeFile,
    CurseForgeInstallOutcome, first_supporting_file, select_optifabric_file_id,
    parse_optifabric_file_id, check_optifabric_file, check_optifabric_install, set_component_version,
    with_version_pinned, supports, optifabric_installed, OPTIFABRIC_CURSEFORGE_PROJECT_ID,
};
use crate::text::{decimal, decimal_string, parsed_u32};

verus! {

/// The installation of the adjuncts of instance `instance_id`.
#[derive(Debug)]
pub struct AdjunctInstall {
    pub instance_id: String,
    pub game_version: String,
    pub loader: ModLoader,
    pub adjuncts: Vec<LoaderComponent>,
    /// Whether the instance's components were read.
    pub read: bool,
    /// The instance's components, with the versions installed so far.
    pub components: Vec<LoaderComponent>,
    /// The position of the adjunct being installed.
    pub next: usize,
    /// The version resolved for the adjunct being installed.
    pub pending: Option<String>,
    /// The OptiFabric file being installed.
    pub optifabric_file: Option<u32>,
}

/// An installation with its lists seen as sequences.
pub struct AdjunctInstallView {
    pub instance_id: String,
    pub game_version: String,
    pub loader: ModLoader,
    pub adjuncts: Seq<LoaderComponent>,
    pub read: bool,
    pub components: Seq<LoaderComponent>,
    pub next: int,
    pub pending: Option<String>,
    pub optifabric_file: Option<u32>,
}

impl View for AdjunctInstall {
    type V = AdjunctInstallView;

    open spec fn view(&self) -> AdjunctInstallView {
        AdjunctInstallView {
            instance_id: self.instance_id,
            game_version: self.game_version,
            loader: self.loader,
            adjuncts: self.adjuncts@,
            read: self.read,
            components: self.components@,
            next: self.next as int,
            pending: self.pending,
            optifabric_file: self.optifabric_file,
        }
    }
}

impl AdjunctInstall {
    /// The installation of `adjuncts` into the new instance `instance_id`
    /// of Minecraft `game_version` with the primary `loader`, not begun.
    pub fn new(
        instance_id: String,
        game_version: String,
        loader: ModLoader,
        adjuncts: Vec<LoaderComponent>,
    ) -> (install: AdjunctInstall)
        ensures
            install@.instance_id == instance_id,
            install@.game_version == game_version,
            install@.loader == loader,
            install@.adjuncts == adjuncts@,
            !install@.read,
            install@.components.len() == 0,
            install@.next == 0,
            install@.pending is None,
            install@.optifabric_file is None,
    {
        AdjunctInstall {
            instance_id,
            game_version,
            loader,
            adjuncts,
            read: false,
            components: Vec::new(),
            next: 0,
            pending: None,
            optifabric_file: None,
        }
    }
}

/// The outcome of the outside work the installation asked for last.
#[derive(Debug)]
pub enum AdjunctEvent {
    Started,
    /// The instance's components, if the instance exists.
    InstanceRead { components: Option<Vec<LoaderComponent>> },
    /// The OptiFine version resolved, if any.
    OptiFineResolved { version: Option<String> },
    OptiFineInstalled,
    /// The files of OptiFabric.
    OptiFabricFilesFetched { files: Vec<CurseForgeFile> },
    /// The record of the OptiFabric file.
    OptiFabricFileFetched { file: CurseForgeFile },
    /// What installing the OptiFabric file did.
    OptiFabricInstalled { outcome: CurseForgeInstallOutcome },
    /// The LiteLoader version resolved, if any.
    LiteLoaderResolved { version: Option<String> },
    LiteLoaderInstalled,
    ComponentsStored,
}

/// The outside work the installation asks for next.
#[derive(Debug)]
pub enum AdjunctAction {
    /// Read the components of the instance.
    ReadInstance { instance_id: String },
    /// Resolve the OptiFine version for Minecraft `game_version`, the
    /// requested one if any.
    ResolveOptiFine { game_version: String, requested: Option<String> },
    /// Install that OptiFine version into the instance.
    InstallOptiFine { version: String },
    /// Fetch the files of OptiFabric.
    FetchOptiFabricFiles,
    /// Fetch the record of OptiFabric file `file_id`.
    FetchOptiFabricFile { file_id: u32 },
    /// Install OptiFabric file `file_id` into the instance.
    InstallOptiFabricFile { file_id: u32 },
    /// Resolve the LiteLoader version for Minecraft `game_version`.
    ResolveLiteLoader { game_version: String, requested: Option<String> },
    /// Install that LiteLoader version beside the primary loader.
    InstallLiteLoader { version: String },
    /// Store the components of the instance.
    StoreComponents { instance_id: String, components: Vec<LoaderComponent> },
    /// The adjuncts are installed.
    Done,
    /// The instance does not exist.
    Refuse { error: InstallJobError },
    /// An adjunct cannot be installed.
    Fail { error: LoaderError },
    /// The event does not answer what the installation asked for; nothing
    /// changes.
    Unexpected,
}

/// Whether an adjunct of `kind` is installed; others are left alone.
pub open spec fn installs(kind: LoaderComponentKind) -> bool {
    kind == LoaderComponentKind::OptiFine || kind == LoaderComponentKind::OptiFabric || kind
        == LoaderComponentKind::LiteLoader
}

/// The position of the first adjunct at or after `from` that is installed,
/// or the number of adjuncts.
pub open spec fn next_adjunct(adjuncts: Seq<LoaderComponent>, from: int) -> int
    decreases adjuncts.len() - from,
{
    if from >= adjuncts.len() {
        adjuncts.len() as int
    } else if installs(adjuncts[from].kind) {
        from
    } else {
        next_adjunct(adjuncts, from + 1)
    }
}

/// The step that moves the installation `s` to the adjunct at `k`: its
/// first outside work, or storing the components after the last.
pub open spec fn moved_to(
    s: AdjunctInstallView,
    k: int,
    s1: AdjunctInstallView,
    action: AdjunctAction,
) -> bool {
    let plain = AdjunctInstallView { next: k, pending: None, optifabric_file: None, ..s };
    if k >= s.adjuncts.len() {
        s1 == plain && (action matches AdjunctAction::StoreComponents { instance_id, components }
            && instance_id == s.instance_id && components@ == s.components)
    } else {
        let a = s.adjuncts[k];
        if a.kind == LoaderComponentKind::OptiFine {
            s1 == plain && action == AdjunctAction::ResolveOptiFine {
                game_version: s.game_version,
                requested: a.version,
            }
        } else if a.kind == LoaderComponentKind::LiteLoader {
            s1 == plain && action == AdjunctAction::ResolveLiteLoader {
                game_version: s.game_version,
                requested: a.version,
            }
        } else {
            match a.version {
                None => s1 == plain && action == AdjunctAction::FetchOptiFabricFiles,
                Some(v) => match parsed_u32(v@) {
                    None => s1 == plain && action == AdjunctAction::Fail {
                        error: LoaderError::InvalidOptiFabricFileId,
                    },
                    Some(id) => s1 == (AdjunctInstallView { optifabric_file: Some(id), ..plain })
                        && action == AdjunctAction::FetchOptiFabricFile { file_id: id },
                },
            }
        }
    }
}

/// Whether the installation `s` is at an adjunct of `kind`.
pub open spec fn at_kind(s: AdjunctInstallView, kind: LoaderComponentKind) -> bool {
    s.read && 0 <= s.next < s.adjuncts.len() && s.adjuncts[s.next].kind == kind
}

/// `s` after the adjunct at its position was installed at `version`: the
/// first component of its kind has that version, and the installation
/// moves on.
pub open spec fn installed(
    s: AdjunctInstallView,
    kind: LoaderComponentKind,
    version: String,
    s1: AdjunctInstallView,
    action: AdjunctAction,
) -> bool {
    moved_to(
        AdjunctInstallView { components: with_version_pinned(s.components, kind, version), ..s },
        next_adjunct(s.adjuncts, s.next + 1),
        s1,
        action,
    )
}

/// One step of the installation of the adjuncts.
pub open spec fn adjunct_install_spec(
    s: AdjunctInstallView,
    event: AdjunctEvent,
    s1: AdjunctInstallView,
    action: AdjunctAction,
) -> bool {
    let unexpected = s1 == s && action == AdjunctAction::Unexpected;
    match event {
        AdjunctEvent::Started => s1 == s && if s.adjuncts.len() == 0 {
            action == AdjunctAction::Done
        } else {
            action == AdjunctAction::ReadInstance { instance_id: s.instance_id }
        },
        AdjunctEvent::InstanceRead { components } => if s.read || s.adjuncts.len() == 0 {
            unexpected
        } else {
            match components {
                None => s1 == s && action == AdjunctAction::Refuse {
                    error: InstallJobError::UnknownSourceInstance,
                },
                Some(cs) => moved_to(
                    AdjunctInstallView { read: true, components: cs@, ..s },
                    next_adjunct(s.adjuncts, 0),
                    s1,
                    action,
                ),
            }
        },
        AdjunctEvent::OptiFineResolved { version } => if at_kind(s, LoaderComponentKind::OptiFine)
            && s.pending is None {
            match version {
                None => s1 == s && (action matches AdjunctAction::Fail {
                    error: LoaderError::NoOptiFineVersion { game_version: g },
                } && g == s.game_version),
                Some(v) => s1 == (AdjunctInstallView { pending: Some(v), ..s }) && action
                    == AdjunctAction::InstallOptiFine { version: v },
            }
        } else {
            unexpected
        },
        AdjunctEvent::OptiFineInstalled => if at_kind(s, LoaderComponentKind::OptiFine) {
            match s.pending {
                Some(v) => installed(s, LoaderComponentKind::OptiFine, v, s1, action),
                None => unexpected,
            }
        } else {
            unexpected
        },
        AdjunctEvent::LiteLoaderResolved { version } => if at_kind(s, LoaderComponentKind::LiteLoader)
            && s.pending is None {
            match version {
                None => s1 == s && (action matches AdjunctAction::Fail {
                    error: LoaderError::NoLiteLoaderVersion { game_version: g },
                } && g == s.game_version),
                Some(v) => s1 == (AdjunctInstallView { pending: Some(v), ..s }) && action
                    == AdjunctAction::InstallLiteLoader { version: v },
            }
        } else {
            unexpected
        },
        AdjunctEvent::LiteLoaderInstalled => if at_kind(s, LoaderComponentKind::LiteLoader) {
            match s.pending {
                Some(v) => installed(s, LoaderComponentKind::LiteLoader, v, s1, action),
                None => unexpected,
            }
        } else {
            unexpected
        },
        AdjunctEvent::OptiFabricFilesFetched { files } => if at_kind(s, LoaderComponentKind::OptiFabric)
            && s.optifabric_file is None {
            match first_supporting_file(files@, s.game_version@) {
                None => s1 == s && (action matches AdjunctAction::Fail {
                    error: LoaderError::NoOptiFabricVersion { game_version: g },
                } && g@ == s.game_version@),
                Some(id) => s1 == (AdjunctInstallView { optifabric_file: Some(id), ..s }) && action
                    == AdjunctAction::FetchOptiFabricFile { file_id: id },
            }
        } else {
            unexpected
        },
        AdjunctEvent::OptiFabricFileFetched { file } => if at_kind(s, LoaderComponentKind::OptiFabric) {
            match s.optifabric_file {
                Some(id) => s1 == s && if file.mod_id == OPTIFABRIC_CURSEFORGE_PROJECT_ID && supports(
                    file,
                    s.game_version@,
                ) {
                    action == AdjunctAction::InstallOptiFabricFile { file_id: id }
                } else {
                    action matches AdjunctAction::Fail {
                        error: LoaderError::OptiFabricFileUnsupported { file_id: f, game_version: g },
                    } && f == id && g@ == s.game_version@
                },
                None => unexpected,
            }
        } else {
            unexpected
        },
        AdjunctEvent::OptiFabricInstalled { outcome } => if at_kind(s, LoaderComponentKind::OptiFabric) {
            match s.optifabric_file {
                Some(id) => if outcome.manual_download_count > 0 {
                    s1 == s && action == AdjunctAction::Fail {
                        error: LoaderError::OptiFabricManualDownload,
                    }
                } else if outcome.failed_downloads@.len() > 0 {
                    s1 == s && (action matches AdjunctAction::Fail {
                        error: LoaderError::OptiFabricInstallFailed { reason },
                    } && reason@ == outcome.failed_downloads@[0].reason@)
                } else if !optifabric_installed(outcome.installed@, id) {
                    s1 == s && action == AdjunctAction::Fail { error: LoaderError::OptiFabricNotInstalled }
                } else {
                    exists|v: String|
                        v@ == decimal(id as nat) && #[trigger] installed(
                            s,
                            LoaderComponentKind::OptiFabric,
                            v,
                            s1,
                            action,
                        )
                },
                None => unexpected,
            }
        } else {
            unexpected
        },
        AdjunctEvent::ComponentsStored => s1 == s && if s.read && s.next >= s.adjuncts.len() {
            action == AdjunctAction::Done
        } else {
            action == AdjunctAction::Unexpected
        },
    }
}

fn next_adjunct_from(adjuncts: &Vec<LoaderComponent>, from: usize) -> (k: usize)
    requires
        from <= adjuncts@.len(),
    ensures
        k as int == next_adjunct(adjuncts@, from as int),
        k <= adjuncts@.len(),
{
    let mut k = from;
    while k < adjuncts.len() && !(adjuncts[k].kind == LoaderComponentKind::OptiFine
        || adjuncts[k].kind == LoaderComponentKind::OptiFabric || adjuncts[k].kind
        == LoaderComponentKind::LiteLoader)
        invariant
            from <= k <= adjuncts@.len(),
            next_adjunct(adjuncts@, from as int) == next_adjunct(adjuncts@, k as int),
        decreases adjuncts@.len() - k,
    {
        k += 1;
    }
    k
}

fn clone_components(v: &Vec<LoaderComponent>) -> (c: Vec<LoaderComponent>)
    ensures
        c@ == v@,
{
    let mut c: Vec<LoaderComponent> = Vec::new();
    let mut i: usize = 0;
    while i < v.len()
        invariant
            i <= v@.len(),
            c@ == v@.take(i as int),
        decreases v@.len() - i,
    {
        c.push(v[i].cloned());
        assert(c@ =~= v@.take(i + 1));
        i += 1;
    }
    assert(v@.take(v@.len() as int) =~= v@);
    c
}

fn move_to(install: &mut AdjunctInstall, k: usize) -> (action: AdjunctAction)
    requires
        k <= old(install).adjuncts@.len(),
    ensures
        moved_to(old(install)@, k as int, final(install)@, action),
        final(install).next <= final(install).adjuncts@.len(),
{
    install.next = k;
    install.pending = None;
    install.optifabric_file = None;
    if k >= install.adjuncts.len() {
        return AdjunctAction::StoreComponents {
            instance_id: install.instance_id.clone(),
            components: clone_components(&install.components),
        };
    }
    let kind = install.adjuncts[k].kind;
    let requested = clone_option_string(&install.adjuncts[k].version);
    if kind == LoaderComponentKind::OptiFine {
        AdjunctAction::ResolveOptiFine { game_version: install.game_version.clone(), requested }
    } else if kind == LoaderComponentKind::LiteLoader {
        AdjunctAction::ResolveLiteLoader { game_version: install.game_version.clone(), requested }
    } else {
        match requested {
            None => AdjunctAction::FetchOptiFabricFiles,
            Some(v) => match parse_optifabric_file_id(v.as_str()) {
                Err(error) => AdjunctAction::Fail { error },
                Ok(id) => {
                    install.optifabric_file = Some(id);
                    AdjunctAction::FetchOptiFabricFile { file_id: id }
                },
            },
        }
    }
}

fn finish_adjunct(install: &mut AdjunctInstall, kind: LoaderComponentKind, version: String) -> (action:
    AdjunctAction)
    requires
        0 <= old(install).next < old(install).adjuncts@.len(),
    ensures
        installed(old(install)@, kind, version, final(install)@, action),
        final(install).next <= final(install).adjuncts@.len(),
{
    set_component_version(&mut install.components, kind, version);
    let n = install.adjuncts.len();
    assert(install.next < n);
    let k = next_adjunct_from(&install.adjuncts, install.next + 1);
    move_to(install, k)
}

/// Runs one step of the installation of the adjuncts of a new instance:
/// takes the outcome of the outside work asked for last, updates the
/// installation and returns the outside work to do next. Without adjuncts
/// it is done at once, before anything is read.
pub fn adjunct_install_step(install: &mut AdjunctInstall, event: AdjunctEvent) -> (action:
    AdjunctAction)
    requires
        old(install).next <= old(install).adjuncts@.len(),
    ensures
        adjunct_install_spec(old(install)@, event, final(install)@, action),
        final(install).next <= final(install).adjuncts@.len(),
{
    let n = install.adjuncts.len();
    let at = install.read && install.next < n;
    let kind = if at {
        Some(install.adjuncts[install.next].kind)
    } else {
        None
    };
    match event {
        AdjunctEvent::Started => if n == 0 {
            AdjunctAction::Done
        } else {
            AdjunctAction::ReadInstance { instance_id: install.instance_id.clone() }
        },
        AdjunctEvent::InstanceRead { components } => if install.read || n == 0 {
            AdjunctAction::Unexpected
        } else {
            match components {
                None => AdjunctAction::Refuse { error: InstallJobError::UnknownSourceInstance },
                Some(cs) => {
                    install.read = true;
                    install.components = cs;
                    let k = next_adjunct_from(&install.adjuncts, 0);
                    move_to(install, k)
                },
            }
        },
        AdjunctEvent::OptiFineResolved { version } => if kind == Some(LoaderComponentKind::OptiFine)
            && install.pending.is_none() {
            match version {
                None => AdjunctAction::Fail {
                    error: LoaderError::NoOptiFineVersion { game_version: install.game_version.clone() },
                },
                Some(v) => {
                    install.pending = Some(v.clone());
                    AdjunctAction::InstallOptiFine { version: v }
                },
            }
        } else {
            AdjunctAction::Unexpected
        },
        AdjunctEvent::OptiFineInstalled => if kind == Some(LoaderComponentKind::OptiFine) {
            match clone_option_string(&install.pending) {
                Some(v) => finish_adjunct(install, LoaderComponentKind::OptiFine, v),
                None => AdjunctAction::Unexpected,
            }
        } else {
            AdjunctAction::Unexpected
        },
        AdjunctEvent::LiteLoaderResolved { version } => if kind == Some(LoaderComponentKind::LiteLoader)
            && install.pending.is_none() {
            match version {
                None => AdjunctAction::Fail {
                    error: LoaderError::NoLiteLoaderVersion {
                        game_version: install.game_version.clone(),
                    },
                },
                Some(v) => {
                    install.pending = Some(v.clone());
                    AdjunctAction::InstallLiteLoader { version: v }
                },
            }
        } else {
            AdjunctAction::Unexpected
        },
        AdjunctEvent::LiteLoaderInstalled => if kind == Some(LoaderComponentKind::LiteLoader) {
            match clone_option_string(&install.pending) {
                Some(v) => finish_adjunct(install, LoaderComponentKind::LiteLoader, v),
                None => AdjunctAction::Unexpected,
            }
        } else {
            AdjunctAction::Unexpected
        },
        AdjunctEvent::OptiFabricFilesFetched { files } => if kind == Some(LoaderComponentKind::OptiFabric)
            && install.optifabric_file.is_none() {
            match select_optifabric_file_id(&files, install.game_version.as_str()) {
                None => AdjunctAction::Fail {
                    error: LoaderError::NoOptiFabricVersion {
                        game_version: install.game_version.clone(),
                    },
                },
                Some(id) => {
                    install.optifabric_file = Some(id);
                    AdjunctAction::FetchOptiFabricFile { file_id: id }
                },
            }
        } else {
            AdjunctAction::Unexpected
        },
        AdjunctEvent::OptiFabricFileFetched { file } => if kind == Some(LoaderComponentKind::OptiFabric) {
            match install.optifabric_file {
                Some(id) => match check_optifabric_file(&file, id, install.game_version.as_str()) {
                    Err(error) => AdjunctAction::Fail { error },
                    Ok(()) => AdjunctAction::InstallOptiFabricFile { file_id: id },
                },
                None => AdjunctAction::Unexpected,
            }
        } else {
            AdjunctAction::Unexpected
        },
        AdjunctEvent::OptiFabricInstalled { outcome } => if kind == Some(LoaderComponentKind::OptiFabric) {
            match install.optifabric_file {
                Some(id) => match check_optifabric_install(&outcome, id) {
                    Err(error) => AdjunctAction::Fail { error },
                    Ok(()) => {
                        let v = decimal_string(id as u64);
                        let ghost gv = v;
                        let a = finish_adjunct(install, LoaderComponentKind::OptiFabric, v);
                        assert(installed(old(install)@, LoaderComponentKind::OptiFabric, gv, install@, a));
                        a
                    },
                },
                None => AdjunctAction::Unexpected,
            }
        } else {
            AdjunctAction::Unexpected
        },
        AdjunctEvent::ComponentsStored => if install.read && install.next >= n {
            AdjunctAction::Done
        } else {
            AdjunctAction::Unexpected
        },
    }
}

} // verus!
