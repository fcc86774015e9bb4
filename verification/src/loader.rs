//! Loader selections: a primary mod loader with optional adjunct loaders
//! (OptiFine, LiteLoader, OptiFabric), and the checks that keep a selection
//! installable.

use vstd::prelude::*;
use crate::install_model::clone_option_string;
use crate::text::{views, contains_str, str_eq, parse_u32, parsed_u32, append_decimal, decimal};

verus! {

/// The CurseForge project of OptiFabric.
pub const OPTIFABRIC_CURSEFORGE_PROJECT_ID: u32 = 322385;

/// The mod loader of an instance.
#[derive(Clone, Copy, Debug, PartialEq, Eq, Structural)]
pub enum ModLoader {
    Vanilla,
    Forge,
    Fabric,
    Quilt,
    NeoForge,
    LegacyFabric,
    LiteLoader,
}

/// The kind of one loader component of an instance.
#[derive(Clone, Copy, Debug, PartialEq, Eq, Structural)]
pub enum LoaderComponentKind {
    Vanilla,
    Forge,
    Fabric,
    Quilt,
    NeoForge,
    LegacyFabric,
    LiteLoader,
    OptiFine,
    OptiFabric,
}

/// Whether a component is the instance's loader or an addition to it.
#[derive(Clone, Copy, Debug, PartialEq, Eq, Structural)]
pub enum LoaderComponentRole {
    Primary,
    Adjunct,
}

/// Where a component's files come from.
#[derive(Clone, Copy, Debug, PartialEq, Eq, Structural)]
pub enum ProviderMetadata {
    CurseForge { project_id: u32 },
}

/// One loader component of an instance.
#[derive(Debug)]
pub struct LoaderComponent {
    pub instance_id: String,
    pub kind: LoaderComponentKind,
    pub version: Option<String>,
    pub role: LoaderComponentRole,
    pub provider_metadata: Option<ProviderMetadata>,
}

impl LoaderComponent {
    /// A copy of this component.
    pub fn cloned(&self) -> (c: LoaderComponent)
        ensures
            c == *self,
    {
        LoaderComponent {
            instance_id: self.instance_id.clone(),
            kind: self.kind,
            version: clone_option_string(&self.version),
            role: self.role,
            provider_metadata: self.provider_metadata,
        }
    }
}

/// The component kind of a primary mod loader.
pub open spec fn loader_kind(loader: ModLoader) -> LoaderComponentKind {
    match loader {
        ModLoader::Vanilla => LoaderComponentKind::Vanilla,
        ModLoader::Forge => LoaderComponentKind::Forge,
        ModLoader::Fabric => LoaderComponentKind::Fabric,
        ModLoader::Quilt => LoaderComponentKind::Quilt,
        ModLoader::NeoForge => LoaderComponentKind::NeoForge,
        ModLoader::LegacyFabric => LoaderComponentKind::LegacyFabric,
        ModLoader::LiteLoader => LoaderComponentKind::LiteLoader,
    }
}

/// The component kind of a primary mod loader.
pub fn primary_kind(loader: ModLoader) -> (kind: LoaderComponentKind)
    ensures
        kind == loader_kind(loader),
{
    match loader {
        ModLoader::Vanilla => LoaderComponentKind::Vanilla,
        ModLoader::Forge => LoaderComponentKind::Forge,
        ModLoader::Fabric => LoaderComponentKind::Fabric,
        ModLoader::Quilt => LoaderComponentKind::Quilt,
        ModLoader::NeoForge => LoaderComponentKind::NeoForge,
        ModLoader::LegacyFabric => LoaderComponentKind::LegacyFabric,
        ModLoader::LiteLoader => LoaderComponentKind::LiteLoader,
    }
}

/// The name of a component kind in messages.
pub open spec fn kind_name(kind: LoaderComponentKind) -> Seq<char> {
    match kind {
        LoaderComponentKind::Vanilla => "vanilla"@,
        LoaderComponentKind::Forge => "forge"@,
        LoaderComponentKind::Fabric => "fabric"@,
        LoaderComponentKind::Quilt => "quilt"@,
        LoaderComponentKind::NeoForge => "neoforge"@,
        LoaderComponentKind::LegacyFabric => "legacy_fabric"@,
        LoaderComponentKind::LiteLoader => "liteloader"@,
        LoaderComponentKind::OptiFine => "optifine"@,
        LoaderComponentKind::OptiFabric => "optifabric"@,
    }
}

impl LoaderComponentKind {
    /// The name of this kind in messages.
    pub fn as_str(&self) -> (name: &'static str)
        ensures
            name@ == kind_name(*self),
    {
        match self {
            LoaderComponentKind::Vanilla => "vanilla",
            LoaderComponentKind::Forge => "forge",
            LoaderComponentKind::Fabric => "fabric",
            LoaderComponentKind::Quilt => "quilt",
            LoaderComponentKind::NeoForge => "neoforge",
            LoaderComponentKind::LegacyFabric => "legacy_fabric",
            LoaderComponentKind::LiteLoader => "liteloader",
            LoaderComponentKind::OptiFine => "optifine",
            LoaderComponentKind::OptiFabric => "optifabric",
        }
    }
}

/// Why a loader selection or an adjunct installation is refused.
#[derive(Debug)]
pub enum LoaderError {
    NoPrimaryLoader,
    OptiFineUnsupported { primary: LoaderComponentKind },
    OptiFabricWithoutOptiFine,
    OptiFabricUnsupported { primary: LoaderComponentKind },
    LiteLoaderUnsupported { primary: LoaderComponentKind },
    InvalidAdjunct,
    NoOptiFabricVersion { game_version: String },
    NoOptiFineVersion { game_version: String },
    NoLiteLoaderVersion { game_version: String },
    InvalidOptiFabricFileId,
    OptiFabricFileUnsupported { file_id: u32, game_version: String },
    OptiFabricManualDownload,
    OptiFabricInstallFailed { reason: String },
    OptiFabricNotInstalled,
    PinnedPrimaryVersionRequired { primary: LoaderComponentKind },
}

/// The message shown for a refused loader selection.
pub open spec fn loader_error_text(e: LoaderError) -> Seq<char> {
    match e {
        LoaderError::NoPrimaryLoader => "Loader selection has no primary loader"@,
        LoaderError::OptiFineUnsupported { primary } => "OptiFine is not supported with "@
            + kind_name(primary),
        LoaderError::OptiFabricWithoutOptiFine => "OptiFabric can only be installed with OptiFine"@,
        LoaderError::OptiFabricUnsupported { primary } => "OptiFabric is not supported with "@
            + kind_name(primary),
        LoaderError::LiteLoaderUnsupported { primary } => "LiteLoader is not supported with "@
            + kind_name(primary),
        LoaderError::InvalidAdjunct => "Only OptiFine, LiteLoader, and OptiFabric can be adjunct loaders"@,
        LoaderError::NoOptiFabricVersion { game_version } =>
            "OptiFine requires OptiFabric, but no OptiFabric version supports Minecraft "@
            + game_version@,
        LoaderError::NoOptiFineVersion { game_version } => "No OptiFine version supports Minecraft "@
            + game_version@,
        LoaderError::NoLiteLoaderVersion { game_version } =>
            "No LiteLoader version supports Minecraft "@ + game_version@,
        LoaderError::InvalidOptiFabricFileId => "OptiFabric CurseForge file ID is invalid"@,
        LoaderError::OptiFabricFileUnsupported { file_id, game_version } => "OptiFabric file "@
            + decimal(file_id as nat) + " does not support Minecraft "@ + game_version@,
        LoaderError::OptiFabricManualDownload => "OptiFabric requires a manual CurseForge download"@,
        LoaderError::OptiFabricInstallFailed { reason } => "Failed to install OptiFabric: "@
            + reason@,
        LoaderError::OptiFabricNotInstalled => "OptiFabric was not installed"@,
        LoaderError::PinnedPrimaryVersionRequired { primary } => kind_name(primary)
            + " adjunct installation requires a pinned primary version"@,
    }
}

impl LoaderError {
    /// The message shown for this refusal.
    pub fn message(&self) -> (m: String)
        ensures
            m@ == loader_error_text(*self),
    {
        match self {
            LoaderError::NoPrimaryLoader => String::from_str(
                "Loader selection has no primary loader",
            ),
            LoaderError::OptiFineUnsupported { primary } => {
                let mut m = String::from_str("OptiFine is not supported with ");
                m.append(primary.as_str());
                m
            },
            LoaderError::OptiFabricWithoutOptiFine => String::from_str(
                "OptiFabric can only be installed with OptiFine",
            ),
            LoaderError::OptiFabricUnsupported { primary } => {
                let mut m = String::from_str("OptiFabric is not supported with ");
                m.append(primary.as_str());
                m
            },
            LoaderError::LiteLoaderUnsupported { primary } => {
                let mut m = String::from_str("LiteLoader is not supported with ");
                m.append(primary.as_str());
                m
            },
            LoaderError::InvalidAdjunct => String::from_str(
                "Only OptiFine, LiteLoader, and OptiFabric can be adjunct loaders",
            ),
            LoaderError::NoOptiFabricVersion { game_version } => {
                let mut m = String::from_str(
                    "OptiFine requires OptiFabric, but no OptiFabric version supports Minecraft ",
                );
                m.append(game_version.as_str());
                m
            },
            LoaderError::NoOptiFineVersion { game_version } => {
                let mut m = String::from_str("No OptiFine version supports Minecraft ");
                m.append(game_version.as_str());
                m
            },
            LoaderError::NoLiteLoaderVersion { game_version } => {
                let mut m = String::from_str("No LiteLoader version supports Minecraft ");
                m.append(game_version.as_str());
                m
            },
            LoaderError::InvalidOptiFabricFileId => String::from_str(
                "OptiFabric CurseForge file ID is invalid",
            ),
            LoaderError::OptiFabricFileUnsupported { file_id, game_version } => {
                let mut m = String::from_str("OptiFabric file ");
                append_decimal(&mut m, *file_id as u64);
                m.append(" does not support Minecraft ");
                m.append(game_version.as_str());
                m
            },
            LoaderError::OptiFabricManualDownload => String::from_str(
                "OptiFabric requires a manual CurseForge download",
            ),
            LoaderError::OptiFabricInstallFailed { reason } => {
                let mut m = String::from_str("Failed to install OptiFabric: ");
                m.append(reason.as_str());
                m
            },
            LoaderError::OptiFabricNotInstalled => String::from_str("OptiFabric was not installed"),
            LoaderError::PinnedPrimaryVersionRequired { primary } => {
                let mut m = String::from_str(primary.as_str());
                m.append(" adjunct installation requires a pinned primary version");
                m
            },
        }
    }
}

/// The kind of the first primary component of a selection.
pub open spec fn first_primary_kind(cs: Seq<LoaderComponent>) -> Option<LoaderComponentKind>
    decreases cs.len(),
{
    if cs.len() == 0 {
        None
    } else if cs[0].role == LoaderComponentRole::Primary {
        Some(cs[0].kind)
    } else {
        first_primary_kind(cs.drop_first())
    }
}

/// Whether the selection has an adjunct of `kind`.
pub open spec fn has_adjunct(cs: Seq<LoaderComponent>, kind: LoaderComponentKind) -> bool {
    exists|i: int|
        0 <= i < cs.len() && (#[trigger] cs[i]).role == LoaderComponentRole::Adjunct && cs[i].kind
            == kind
}

/// Whether `kind` may be an adjunct at all.
pub open spec fn is_adjunct_kind(kind: LoaderComponentKind) -> bool {
    kind == LoaderComponentKind::OptiFine || kind == LoaderComponentKind::LiteLoader || kind
        == LoaderComponentKind::OptiFabric
}

/// Whether the selection has an adjunct of a kind that cannot be one.
pub open spec fn has_invalid_adjunct(cs: Seq<LoaderComponent>) -> bool {
    exists|i: int|
        0 <= i < cs.len() && (#[trigger] cs[i]).role == LoaderComponentRole::Adjunct
            && !is_adjunct_kind(cs[i].kind)
}

/// Why a loader selection is refused, or `None` when it is accepted:
/// OptiFine runs on Vanilla, Forge and NeoForge, and on Fabric or Legacy
/// Fabric through OptiFabric; OptiFabric needs OptiFine and a Fabric loader;
/// LiteLoader runs on Vanilla and Forge; nothing else may be an adjunct.
pub open spec fn selection_error(cs: Seq<LoaderComponent>) -> Option<LoaderError> {
    match first_primary_kind(cs) {
        None => Some(LoaderError::NoPrimaryLoader),
        Some(p) => {
            let fabric = p == LoaderComponentKind::Fabric || p == LoaderComponentKind::LegacyFabric;
            if has_adjunct(cs, LoaderComponentKind::OptiFine) && !(p == LoaderComponentKind::Vanilla
                || p == LoaderComponentKind::Forge || p == LoaderComponentKind::NeoForge || (fabric
                && has_adjunct(cs, LoaderComponentKind::OptiFabric))) {
                Some(LoaderError::OptiFineUnsupported { primary: p })
            } else if has_adjunct(cs, LoaderComponentKind::OptiFabric) && !has_adjunct(
                cs,
                LoaderComponentKind::OptiFine,
            ) {
                Some(LoaderError::OptiFabricWithoutOptiFine)
            } else if has_adjunct(cs, LoaderComponentKind::OptiFabric) && !fabric {
                Some(LoaderError::OptiFabricUnsupported { primary: p })
            } else if has_adjunct(cs, LoaderComponentKind::LiteLoader) && !(p
                == LoaderComponentKind::Vanilla || p == LoaderComponentKind::Forge) {
                Some(LoaderError::LiteLoaderUnsupported { primary: p })
            } else if has_invalid_adjunct(cs) {
                Some(LoaderError::InvalidAdjunct)
            } else {
                None
            }
        },
    }
}

fn find_primary_kind(cs: &Vec<LoaderComponent>) -> (k: Option<LoaderComponentKind>)
    ensures
        k == first_primary_kind(cs@),
{
    let mut i: usize = 0;
    assert(cs@.skip(0) =~= cs@);
    while i < cs.len()
        invariant
            i <= cs@.len(),
            first_primary_kind(cs@) == first_primary_kind(cs@.skip(i as int)),
        decreases cs@.len() - i,
    {
        if cs[i].role == LoaderComponentRole::Primary {
            assert(cs@.skip(i as int)[0] == cs@[i as int]);
            return Some(cs[i].kind);
        }
        assert(cs@.skip(i as int).drop_first() =~= cs@.skip(i + 1));
        i += 1;
    }
    None
}

fn find_adjunct(cs: &Vec<LoaderComponent>, kind: LoaderComponentKind) -> (b: bool)
    ensures
        b == has_adjunct(cs@, kind),
{
    let mut i: usize = 0;
    while i < cs.len()
        invariant
            i <= cs@.len(),
            forall|j: int|
                0 <= j < i ==> !((#[trigger] cs@[j]).role == LoaderComponentRole::Adjunct
                    && cs@[j].kind == kind),
        decreases cs@.len() - i,
    {
        if cs[i].role == LoaderComponentRole::Adjunct && cs[i].kind == kind {
            return true;
        }
        i += 1;
    }
    false
}

fn find_invalid_adjunct(cs: &Vec<LoaderComponent>) -> (b: bool)
    ensures
        b == has_invalid_adjunct(cs@),
{
    let mut i: usize = 0;
    while i < cs.len()
        invariant
            i <= cs@.len(),
            forall|j: int|
                0 <= j < i ==> !((#[trigger] cs@[j]).role == LoaderComponentRole::Adjunct
                    && !is_adjunct_kind(cs@[j].kind)),
        decreases cs@.len() - i,
    {
        let k = cs[i].kind;
        if cs[i].role == LoaderComponentRole::Adjunct && !(k == LoaderComponentKind::OptiFine || k
            == LoaderComponentKind::LiteLoader || k == LoaderComponentKind::OptiFabric) {
            return true;
        }
        i += 1;
    }
    false
}

/// Checks that a loader selection can be installed.
pub fn validate_loader_components(components: &Vec<LoaderComponent>) -> (r: Result<(), LoaderError>)
    ensures
        r == match selection_error(components@) {
            None => Ok::<(), LoaderError>(()),
            Some(e) => Err(e),
        },
{
    let primary = match find_primary_kind(components) {
        None => {
            return Err(LoaderError::NoPrimaryLoader);
        },
        Some(p) => p,
    };
    let optifine = find_adjunct(components, LoaderComponentKind::OptiFine);
    let optifabric = find_adjunct(components, LoaderComponentKind::OptiFabric);
    let liteloader = find_adjunct(components, LoaderComponentKind::LiteLoader);
    let fabric = primary == LoaderComponentKind::Fabric || primary
        == LoaderComponentKind::LegacyFabric;
    if optifine && !(primary == LoaderComponentKind::Vanilla || primary
        == LoaderComponentKind::Forge || primary == LoaderComponentKind::NeoForge || (fabric
        && optifabric)) {
        return Err(LoaderError::OptiFineUnsupported { primary });
    }
    if optifabric && !optifine {
        return Err(LoaderError::OptiFabricWithoutOptiFine);
    }
    if optifabric && !fabric {
        return Err(LoaderError::OptiFabricUnsupported { primary });
    }
    if liteloader && !(primary == LoaderComponentKind::Vanilla || primary
        == LoaderComponentKind::Forge) {
        return Err(LoaderError::LiteLoaderUnsupported { primary });
    }
    if find_invalid_adjunct(components) {
        return Err(LoaderError::InvalidAdjunct);
    }
    Ok(())
}

/// The first refusal of an adjunct for a primary `loader`, in the order of
/// the adjuncts: OptiFine needs Forge, NeoForge, Fabric or Legacy Fabric, and
/// LiteLoader needs Forge.
pub open spec fn adjunct_support_error(loader: ModLoader, adjuncts: Seq<LoaderComponent>) -> Option<
    LoaderError,
>
    decreases adjuncts.len(),
{
    if adjuncts.len() == 0 {
        None
    } else if adjuncts[0].kind == LoaderComponentKind::OptiFine && !(loader == ModLoader::Forge
        || loader == ModLoader::NeoForge || loader == ModLoader::Fabric || loader
        == ModLoader::LegacyFabric) {
        Some(LoaderError::OptiFineUnsupported { primary: loader_kind(loader) })
    } else if adjuncts[0].kind == LoaderComponentKind::LiteLoader && loader != ModLoader::Forge {
        Some(LoaderError::LiteLoaderUnsupported { primary: loader_kind(loader) })
    } else {
        adjunct_support_error(loader, adjuncts.drop_first())
    }
}

/// Checks the requested adjuncts against the primary loader before any of
/// them is resolved.
pub fn check_adjunct_support(loader: ModLoader, adjuncts: &Vec<LoaderComponent>) -> (r: Result<
    (),
    LoaderError,
>)
    ensures
        r == match adjunct_support_error(loader, adjuncts@) {
            None => Ok::<(), LoaderError>(()),
            Some(e) => Err(e),
        },
{
    let mut i: usize = 0;
    assert(adjuncts@.skip(0) =~= adjuncts@);
    while i < adjuncts.len()
        invariant
            i <= adjuncts@.len(),
            adjunct_support_error(loader, adjuncts@) == adjunct_support_error(
                loader,
                adjuncts@.skip(i as int),
            ),
        decreases adjuncts@.len() - i,
    {
        let kind = adjuncts[i].kind;
        assert(adjuncts@.skip(i as int)[0] == adjuncts@[i as int]);
        assert(adjuncts@.skip(i as int).drop_first() =~= adjuncts@.skip(i + 1));
        if kind == LoaderComponentKind::OptiFine && !(loader == ModLoader::Forge || loader
            == ModLoader::NeoForge || loader == ModLoader::Fabric || loader
            == ModLoader::LegacyFabric) {
            return Err(LoaderError::OptiFineUnsupported { primary: primary_kind(loader) });
        }
        if kind == LoaderComponentKind::LiteLoader && loader != ModLoader::Forge {
            return Err(LoaderError::LiteLoaderUnsupported { primary: primary_kind(loader) });
        }
        i += 1;
    }
    Ok(())
}

/// Marks every requested component as an adjunct not yet tied to an instance.
pub fn normalize_adjuncts(adjuncts: &mut Vec<LoaderComponent>)
    ensures
        final(adjuncts)@.len() == old(adjuncts)@.len(),
        forall|i: int|
            0 <= i < old(adjuncts)@.len() ==> {
                &&& (#[trigger] final(adjuncts)@[i]).role == LoaderComponentRole::Adjunct
                &&& final(adjuncts)@[i].instance_id@ == Seq::<char>::empty()
                &&& final(adjuncts)@[i].kind == old(adjuncts)@[i].kind
                &&& final(adjuncts)@[i].version == old(adjuncts)@[i].version
                &&& final(adjuncts)@[i].provider_metadata == old(adjuncts)@[i].provider_metadata
            },
{
    let n = adjuncts.len();
    let mut i: usize = 0;
    while i < n
        invariant
            n == old(adjuncts)@.len(),
            adjuncts@.len() == n,
            i <= n,
            forall|j: int|
                0 <= j < i ==> {
                    &&& (#[trigger] adjuncts@[j]).role == LoaderComponentRole::Adjunct
                    &&& adjuncts@[j].instance_id@ == Seq::<char>::empty()
                    &&& adjuncts@[j].kind == old(adjuncts)@[j].kind
                    &&& adjuncts@[j].version == old(adjuncts)@[j].version
                    &&& adjuncts@[j].provider_metadata == old(adjuncts)@[j].provider_metadata
                },
            forall|j: int| i <= j < n ==> adjuncts@[j] == old(adjuncts)@[j],
        decreases n - i,
    {
        let old_component = adjuncts[i].cloned();
        let component = LoaderComponent {
            instance_id: String::new(),
            kind: old_component.kind,
            version: old_component.version,
            role: LoaderComponentRole::Adjunct,
            provider_metadata: old_component.provider_metadata,
        };
        adjuncts.set(i, component);
        i += 1;
    }
}

/// Whether the selection has a component of `kind`, in any role.
pub open spec fn has_kind(cs: Seq<LoaderComponent>, kind: LoaderComponentKind) -> bool {
    exists|i: int| 0 <= i < cs.len() && (#[trigger] cs[i]).kind == kind
}

fn find_kind(cs: &Vec<LoaderComponent>, kind: LoaderComponentKind) -> (b: bool)
    ensures
        b == has_kind(cs@, kind),
{
    let mut i: usize = 0;
    while i < cs.len()
        invariant
            i <= cs@.len(),
            forall|j: int| 0 <= j < i ==> (#[trigger] cs@[j]).kind != kind,
        decreases cs@.len() - i,
    {
        if cs[i].kind == kind {
            return true;
        }
        i += 1;
    }
    false
}

/// Whether OptiFabric must be added: OptiFine on a Fabric loader needs it,
/// unless it was requested already.
pub open spec fn optifabric_needed(loader: ModLoader, adjuncts: Seq<LoaderComponent>) -> bool {
    &&& has_kind(adjuncts, LoaderComponentKind::OptiFine)
    &&& (loader == ModLoader::Fabric || loader == ModLoader::LegacyFabric)
    &&& !has_kind(adjuncts, LoaderComponentKind::OptiFabric)
}

/// Decides whether OptiFabric must be added to the adjuncts.
pub fn needs_optifabric(loader: ModLoader, adjuncts: &Vec<LoaderComponent>) -> (b: bool)
    ensures
        b == optifabric_needed(loader, adjuncts@),
{
    find_kind(adjuncts, LoaderComponentKind::OptiFine) && (loader == ModLoader::Fabric || loader
        == ModLoader::LegacyFabric) && !find_kind(adjuncts, LoaderComponentKind::OptiFabric)
}

/// Whether `c` is the OptiFabric adjunct of CurseForge file `version`.
pub open spec fn is_optifabric_component(c: LoaderComponent, version: String) -> bool {
    &&& c.instance_id@ == Seq::<char>::empty()
    &&& c.kind == LoaderComponentKind::OptiFabric
    &&& c.version == Some(version)
    &&& c.role == LoaderComponentRole::Adjunct
    &&& c.provider_metadata == Some(
        ProviderMetadata::CurseForge { project_id: OPTIFABRIC_CURSEFORGE_PROJECT_ID },
    )
}

/// The OptiFabric adjunct of CurseForge file `version`.
pub fn optifabric_component(version: String) -> (c: LoaderComponent)
    ensures
        is_optifabric_component(c, version),
{
    LoaderComponent {
        instance_id: String::new(),
        kind: LoaderComponentKind::OptiFabric,
        version: Some(version),
        role: LoaderComponentRole::Adjunct,
        provider_metadata: Some(
            ProviderMetadata::CurseForge { project_id: OPTIFABRIC_CURSEFORGE_PROJECT_ID },
        ),
    }
}

/// Whether `c` is the primary component of `loader`, at no pinned version.
pub open spec fn is_primary_component(c: LoaderComponent, loader: ModLoader) -> bool {
    &&& c.instance_id@ == Seq::<char>::empty()
    &&& c.kind == loader_kind(loader)
    &&& c.version is None
    &&& c.role == LoaderComponentRole::Primary
    &&& c.provider_metadata is None
}

/// The full selection to validate: the primary `loader` followed by the adjuncts.
pub fn selection_with_primary(loader: ModLoader, adjuncts: &Vec<LoaderComponent>) -> (cs: Vec<
    LoaderComponent,
>)
    ensures
        cs@.len() == adjuncts@.len() + 1,
        is_primary_component(cs@[0], loader),
        cs@.drop_first() == adjuncts@,
{
    let mut cs: Vec<LoaderComponent> = Vec::new();
    cs.push(
        LoaderComponent {
            instance_id: String::new(),
            kind: primary_kind(loader),
            version: None,
            role: LoaderComponentRole::Primary,
            provider_metadata: None,
        },
    );
    let mut i: usize = 0;
    while i < adjuncts.len()
        invariant
            i <= adjuncts@.len(),
            cs@.len() == i + 1,
            is_primary_component(cs@[0], loader),
            cs@.drop_first() == adjuncts@.take(i as int),
        decreases adjuncts@.len() - i,
    {
        let ghost prev = cs@;
        cs.push(adjuncts[i].cloned());
        assert(cs@.drop_first() =~= prev.drop_first().push(adjuncts@[i as int]));
        assert(adjuncts@.take(i + 1) =~= adjuncts@.take(i as int).push(adjuncts@[i as int]));
        i += 1;
    }
    assert(adjuncts@.take(adjuncts@.len() as int) =~= adjuncts@);
    cs
}

/// The position of the first component of `kind`.
pub open spec fn first_of_kind(cs: Seq<LoaderComponent>, kind: LoaderComponentKind) -> Option<int> {
    if has_kind(cs, kind) {
        Some(
            choose|i: int|
                0 <= i < cs.len() && (#[trigger] cs[i]).kind == kind && forall|j: int|
                    0 <= j < i ==> (#[trigger] cs[j]).kind != kind,
        )
    } else {
        None
    }
}

/// Pins an OptiFine or LiteLoader adjunct to the version its metadata
/// resolved, `resolved`; when nothing was resolved, no version of it supports
/// Minecraft `game_version`. Other adjuncts are not resolved and stay as
/// they are.
pub fn pin_adjunct_version(
    adjunct: &mut LoaderComponent,
    game_version: &str,
    resolved: Option<String>,
) -> (r: Result<(), LoaderError>)
    ensures
        !(old(adjunct).kind == LoaderComponentKind::OptiFine || old(adjunct).kind
            == LoaderComponentKind::LiteLoader) ==> r is Ok && *final(adjunct) == *old(adjunct),
        (old(adjunct).kind == LoaderComponentKind::OptiFine || old(adjunct).kind
            == LoaderComponentKind::LiteLoader) ==> match resolved {
            Some(id) => r is Ok && *final(adjunct) == (LoaderComponent {
                version: Some(id),
                ..*old(adjunct)
            }),
            None => {
                &&& *final(adjunct) == *old(adjunct)
                &&& r matches Err(e)
                &&& if old(adjunct).kind == LoaderComponentKind::OptiFine {
                    e matches LoaderError::NoOptiFineVersion { game_version: g } && g@
                        == game_version@
                } else {
                    e matches LoaderError::NoLiteLoaderVersion { game_version: g } && g@
                        == game_version@
                }
            },
        },
{
    let optifine = adjunct.kind == LoaderComponentKind::OptiFine;
    if !optifine && adjunct.kind != LoaderComponentKind::LiteLoader {
        return Ok(());
    }
    match resolved {
        Some(id) => {
            adjunct.version = Some(id);
            Ok(())
        },
        None => if optifine {
            Err(LoaderError::NoOptiFineVersion { game_version: String::from_str(game_version) })
        } else {
            Err(LoaderError::NoLiteLoaderVersion { game_version: String::from_str(game_version) })
        },
    }
}

/// Pins the version of the first component of `kind`, if there is one.
pub fn set_component_version(
    components: &mut Vec<LoaderComponent>,
    kind: LoaderComponentKind,
    version: String,
)
    ensures
        match first_of_kind(old(components)@, kind) {
            None => final(components)@ == old(components)@,
            Some(i) => final(components)@ == old(components)@.update(
                i,
                LoaderComponent { version: Some(version), ..old(components)@[i] },
            ),
        },
{
    let mut i: usize = 0;
    while i < components.len()
        invariant
            i <= components@.len(),
            components@ == old(components)@,
            forall|j: int| 0 <= j < i ==> (#[trigger] components@[j]).kind != kind,
        decreases components@.len() - i,
    {
        if components[i].kind == kind {
            proof {
                let w = choose|w: int|
                    0 <= w < components@.len() && (#[trigger] components@[w]).kind == kind
                        && forall|j: int| 0 <= j < w ==> (#[trigger] components@[j]).kind != kind;
                assert(components@[i as int].kind == kind);
                if w < i {
                } else if w > i {
                    assert(components@[i as int].kind != kind);
                }
                assert(w == i);
            }
            let old_component = components[i].cloned();
            let updated = LoaderComponent {
                instance_id: old_component.instance_id,
                kind: old_component.kind,
                version: Some(version),
                role: old_component.role,
                provider_metadata: old_component.provider_metadata,
            };
            components.set(i, updated);
            return ;
        }
        i += 1;
    }
}

/// A file of a CurseForge project.
#[derive(Debug)]
pub struct CurseForgeFile {
    pub id: u32,
    pub mod_id: u32,
    pub is_available: bool,
    pub game_versions: Vec<String>,
}

/// Whether `file` is available and supports `game_version`.
pub open spec fn supports(file: CurseForgeFile, game_version: Seq<char>) -> bool {
    file.is_available && views(file.game_versions@).contains(game_version)
}

/// The id of the first file of `files` that is available for `game_version`.
pub open spec fn first_supporting_file(files: Seq<CurseForgeFile>, game_version: Seq<char>) -> Option<
    u32,
>
    decreases files.len(),
{
    if files.len() == 0 {
        None
    } else if supports(files[0], game_version) {
        Some(files[0].id)
    } else {
        first_supporting_file(files.drop_first(), game_version)
    }
}

/// Picks the OptiFabric file for a Minecraft version: the first listed file
/// that is available and supports it.
pub fn select_optifabric_file_id(files: &Vec<CurseForgeFile>, game_version: &str) -> (id: Option<
    u32,
>)
    ensures
        id == first_supporting_file(files@, game_version@),
{
    let mut i: usize = 0;
    assert(files@.skip(0) =~= files@);
    while i < files.len()
        invariant
            i <= files@.len(),
            first_supporting_file(files@, game_version@) == first_supporting_file(
                files@.skip(i as int),
                game_version@,
            ),
        decreases files@.len() - i,
    {
        let file = &files[i];
        assert(files@.skip(i as int)[0] == files@[i as int]);
        assert(files@.skip(i as int).drop_first() =~= files@.skip(i + 1));
        if file.is_available && contains_str(&file.game_versions, game_version) {
            return Some(file.id);
        }
        i += 1;
    }
    None
}

/// Reads the OptiFabric file id pinned as a component version.
pub fn parse_optifabric_file_id(version: &str) -> (r: Result<u32, LoaderError>)
    ensures
        r == match parsed_u32(version@) {
            Some(id) => Ok::<u32, LoaderError>(id),
            None => Err(LoaderError::InvalidOptiFabricFileId),
        },
{
    match parse_u32(version) {
        Some(id) => Ok(id),
        None => Err(LoaderError::InvalidOptiFabricFileId),
    }
}

/// Checks that the fetched file `file_id` is an OptiFabric file for `game_version`.
pub fn check_optifabric_file(file: &CurseForgeFile, file_id: u32, game_version: &str) -> (r: Result<
    (),
    LoaderError,
>)
    ensures
        (file.mod_id == OPTIFABRIC_CURSEFORGE_PROJECT_ID && supports(*file, game_version@)) ==> r
            is Ok,
        !(file.mod_id == OPTIFABRIC_CURSEFORGE_PROJECT_ID && supports(*file, game_version@)) ==> (
        r matches Err(LoaderError::OptiFabricFileUnsupported { file_id: f, game_version: g }) && f
            == file_id && g@ == game_version@),
{
    if file.mod_id != OPTIFABRIC_CURSEFORGE_PROJECT_ID || !file.is_available || !contains_str(
        &file.game_versions,
        game_version,
    ) {
        return Err(
            LoaderError::OptiFabricFileUnsupported {
                file_id,
                game_version: String::from_str(game_version),
            },
        );
    }
    Ok(())
}

/// A file the CurseForge installer reported as installed.
#[derive(Clone, Copy, Debug, PartialEq, Eq, Structural)]
pub struct InstalledCurseForgeFile {
    pub project_id: u32,
    pub file_id: u32,
    pub dependency: bool,
}

/// A file the CurseForge installer could not download.
#[derive(Debug)]
pub struct FailedCurseForgeDownload {
    pub reason: String,
}

/// What the CurseForge installer reports after installing a file.
#[derive(Debug)]
pub struct CurseForgeInstallOutcome {
    pub manual_download_count: usize,
    pub failed_downloads: Vec<FailedCurseForgeDownload>,
    pub installed: Vec<InstalledCurseForgeFile>,
}

/// Whether the outcome lists file `file_id` of OptiFabric itself as installed.
pub open spec fn optifabric_installed(installed: Seq<InstalledCurseForgeFile>, file_id: u32) -> bool {
    exists|i: int|
        0 <= i < installed.len() && !(#[trigger] installed[i]).dependency && installed[i].project_id
            == OPTIFABRIC_CURSEFORGE_PROJECT_ID && installed[i].file_id == file_id
}

/// Checks that the install of OptiFabric file `file_id` succeeded: nothing is
/// left for a manual download, nothing failed, and the file itself was installed.
pub fn check_optifabric_install(outcome: &CurseForgeInstallOutcome, file_id: u32) -> (r: Result<
    (),
    LoaderError,
>)
    ensures
        outcome.manual_download_count > 0 ==> r == Err::<(), LoaderError>(
            LoaderError::OptiFabricManualDownload,
        ),
        outcome.manual_download_count == 0 && outcome.failed_downloads@.len() > 0 ==> (r matches Err(
            LoaderError::OptiFabricInstallFailed { reason },
        ) && reason@ == outcome.failed_downloads@[0].reason@),
        outcome.manual_download_count == 0 && outcome.failed_downloads@.len() == 0 ==> r == if optifabric_installed(
            outcome.installed@,
            file_id,
        ) {
            Ok::<(), LoaderError>(())
        } else {
            Err(LoaderError::OptiFabricNotInstalled)
        },
{
    if outcome.manual_download_count > 0 {
        return Err(LoaderError::OptiFabricManualDownload);
    }
    if outcome.failed_downloads.len() > 0 {
        return Err(
            LoaderError::OptiFabricInstallFailed {
                reason: outcome.failed_downloads[0].reason.clone(),
            },
        );
    }
    let mut i: usize = 0;
    while i < outcome.installed.len()
        invariant
            i <= outcome.installed@.len(),
            outcome.manual_download_count == 0,
            outcome.failed_downloads@.len() == 0,
            forall|j: int|
                0 <= j < i ==> !(!(#[trigger] outcome.installed@[j]).dependency
                    && outcome.installed@[j].project_id == OPTIFABRIC_CURSEFORGE_PROJECT_ID
                    && outcome.installed@[j].file_id == file_id),
        decreases outcome.installed@.len() - i,
    {
        let f = outcome.installed[i];
        if !f.dependency && f.project_id == OPTIFABRIC_CURSEFORGE_PROJECT_ID && f.file_id
            == file_id {
            return Ok(());
        }
        i += 1;
    }
    Err(LoaderError::OptiFabricNotInstalled)
}

/// A selection that validation accepts is coherent: it has a primary loader,
/// OptiFine only runs on a loader that can carry it, OptiFabric only with
/// OptiFine on a Fabric loader, LiteLoader only on Vanilla or Forge, and every
/// adjunct is OptiFine, LiteLoader or OptiFabric.
pub proof fn accepted_selections_are_coherent(cs: Seq<LoaderComponent>)
    requires
        selection_error(cs) is None,
    ensures
        first_primary_kind(cs) matches Some(p) && {
            let fabric = p == LoaderComponentKind::Fabric || p == LoaderComponentKind::LegacyFabric;
            &&& has_adjunct(cs, LoaderComponentKind::OptiFine) ==> (p == LoaderComponentKind::Vanilla
                || p == LoaderComponentKind::Forge || p == LoaderComponentKind::NeoForge || fabric)
            &&& has_adjunct(cs, LoaderComponentKind::OptiFabric) ==> has_adjunct(
                cs,
                LoaderComponentKind::OptiFine,
            ) && fabric
            &&& has_adjunct(cs, LoaderComponentKind::LiteLoader) ==> (p
                == LoaderComponentKind::Vanilla || p == LoaderComponentKind::Forge)
        },
        forall|i: int|
            0 <= i < cs.len() && (#[trigger] cs[i]).role == LoaderComponentRole::Adjunct
                ==> is_adjunct_kind(cs[i].kind),
{
}

proof fn lemma_support_checked(loader: ModLoader, adjuncts: Seq<LoaderComponent>)
    requires
        adjunct_support_error(loader, adjuncts) is None,
    ensures
        forall|i: int|
            0 <= i < adjuncts.len() ==> {
                &&& (#[trigger] adjuncts[i]).kind == LoaderComponentKind::OptiFine ==> (loader
                    == ModLoader::Forge || loader == ModLoader::NeoForge || loader
                    == ModLoader::Fabric || loader == ModLoader::LegacyFabric)
                &&& adjuncts[i].kind == LoaderComponentKind::LiteLoader ==> loader
                    == ModLoader::Forge
            },
    decreases adjuncts.len(),
{
    if adjuncts.len() > 0 {
        lemma_support_checked(loader, adjuncts.drop_first());
        assert forall|i: int| 0 < i < adjuncts.len() implies adjuncts[i] == adjuncts.drop_first()[i
            - 1] by {}
    }
}

/// The adjuncts of a new instance once resolved: the requested ones, and
/// OptiFabric (as `optifabric`) where OptiFine on a Fabric loader needs it.
pub open spec fn completed_adjuncts(
    loader: ModLoader,
    adjuncts: Seq<LoaderComponent>,
    optifabric: LoaderComponent,
) -> Seq<LoaderComponent> {
    if optifabric_needed(loader, adjuncts) {
        adjuncts.push(optifabric)
    } else {
        adjuncts
    }
}

/// Requested OptiFine and LiteLoader adjuncts that passed the support check,
/// completed with OptiFabric where needed and put after the primary loader,
/// always form a selection that validation accepts.
pub proof fn resolved_selections_validate(
    loader: ModLoader,
    primary: LoaderComponent,
    adjuncts: Seq<LoaderComponent>,
    optifabric: LoaderComponent,
    optifabric_version: String,
)
    requires
        adjunct_support_error(loader, adjuncts) is None,
        forall|i: int|
            0 <= i < adjuncts.len() ==> (#[trigger] adjuncts[i]).role == LoaderComponentRole::Adjunct
                && (adjuncts[i].kind == LoaderComponentKind::OptiFine || adjuncts[i].kind
                == LoaderComponentKind::LiteLoader),
        is_primary_component(primary, loader),
        is_optifabric_component(optifabric, optifabric_version),
    ensures
        selection_error(seq![primary] + completed_adjuncts(loader, adjuncts, optifabric)) is None,
{
    lemma_support_checked(loader, adjuncts);
    let done = completed_adjuncts(loader, adjuncts, optifabric);
    let cs = seq![primary] + done;
    assert(cs[0] == primary);
    assert(first_primary_kind(cs) == Some(loader_kind(loader)));
    assert forall|i: int| 0 < i < cs.len() implies cs[i] == done[i - 1] by {}
    assert(!has_kind(adjuncts, LoaderComponentKind::OptiFabric));
    if has_adjunct(cs, LoaderComponentKind::OptiFine) {
        let i = choose|i: int|
            0 <= i < cs.len() && (#[trigger] cs[i]).role == LoaderComponentRole::Adjunct
                && cs[i].kind == LoaderComponentKind::OptiFine;
        assert(done[i - 1] == adjuncts[i - 1]);
        assert(has_kind(adjuncts, LoaderComponentKind::OptiFine));
        if loader == ModLoader::Fabric || loader == ModLoader::LegacyFabric {
            assert(optifabric_needed(loader, adjuncts));
            assert(cs[cs.len() - 1] == optifabric);
            assert(has_adjunct(cs, LoaderComponentKind::OptiFabric));
        }
    }
    if has_adjunct(cs, LoaderComponentKind::OptiFabric) {
        let i = choose|i: int|
            0 <= i < cs.len() && (#[trigger] cs[i]).role == LoaderComponentRole::Adjunct
                && cs[i].kind == LoaderComponentKind::OptiFabric;
        assert(optifabric_needed(loader, adjuncts));
        let k = choose|k: int|
            0 <= k < adjuncts.len() && (#[trigger] adjuncts[k]).kind
                == LoaderComponentKind::OptiFine;
        assert(cs[k + 1] == adjuncts[k]);
        assert(has_adjunct(cs, LoaderComponentKind::OptiFine));
    }
    if has_adjunct(cs, LoaderComponentKind::LiteLoader) {
        let i = choose|i: int|
            0 <= i < cs.len() && (#[trigger] cs[i]).role == LoaderComponentRole::Adjunct
                && cs[i].kind == LoaderComponentKind::LiteLoader;
        assert(done[i - 1] == adjuncts[i - 1]);
    }
    assert(!has_invalid_adjunct(cs)) by {
        if has_invalid_adjunct(cs) {
            let i = choose|i: int|
                0 <= i < cs.len() && (#[trigger] cs[i]).role == LoaderComponentRole::Adjunct
                    && !is_adjunct_kind(cs[i].kind);
            if i - 1 < adjuncts.len() {
                assert(done[i - 1] == adjuncts[i - 1]);
            }
        }
    }
}

/// Adds the resolved adjuncts to the components of the instance
/// `instance_id`, each tied to the instance as an adjunct.
pub fn attach_adjuncts(
    components: &mut Vec<LoaderComponent>,
    adjuncts: &Vec<LoaderComponent>,
    instance_id: &str,
)
    ensures
        final(components)@.len() == old(components)@.len() + adjuncts@.len(),
        final(components)@.take(old(components)@.len() as int) == old(components)@,
        forall|i: int|
            0 <= i < adjuncts@.len() ==> {
                let c = #[trigger] final(components)@[old(components)@.len() + i];
                &&& c.instance_id@ == instance_id@
                &&& c.role == LoaderComponentRole::Adjunct
                &&& c.kind == adjuncts@[i].kind
                &&& c.version == adjuncts@[i].version
                &&& c.provider_metadata == adjuncts@[i].provider_metadata
            },
{
    let base = components.len();
    let mut i: usize = 0;
    while i < adjuncts.len()
        invariant
            base == old(components)@.len(),
            i <= adjuncts@.len(),
            components@.len() == base + i,
            components@.take(base as int) == old(components)@,
            forall|k: int|
                0 <= k < i ==> {
                    let c = #[trigger] components@[base + k];
                    &&& c.instance_id@ == instance_id@
                    &&& c.role == LoaderComponentRole::Adjunct
                    &&& c.kind == adjuncts@[k].kind
                    &&& c.version == adjuncts@[k].version
                    &&& c.provider_metadata == adjuncts@[k].provider_metadata
                },
        decreases adjuncts@.len() - i,
    {
        let a = &adjuncts[i];
        let ghost prev = components@;
        components.push(
            LoaderComponent {
                instance_id: String::from_str(instance_id),
                kind: a.kind,
                version: clone_option_string(&a.version),
                role: LoaderComponentRole::Adjunct,
                provider_metadata: a.provider_metadata,
            },
        );
        assert(components@.take(base as int) =~= prev.take(base as int));
        assert forall|k: int| 0 <= k < i implies #[trigger] components@[base + k] == prev[base + k] by {}
        i += 1;
    }
}

/// The file id of the OptiFabric version for a Minecraft version, as text.
pub fn resolve_optifabric_file(files: &Vec<CurseForgeFile>, game_version: &str) -> (r: Result<
    String,
    LoaderError,
>)
    ensures
        match first_supporting_file(files@, game_version@) {
            Some(id) => r matches Ok(s) && s@ == decimal(id as nat),
            None => r matches Err(LoaderError::NoOptiFabricVersion { game_version: g }) && g@
                == game_version@,
        },
{
    match select_optifabric_file_id(files, game_version) {
        Some(id) => Ok(crate::text::decimal_string(id as u64)),
        None => Err(LoaderError::NoOptiFabricVersion { game_version: String::from_str(game_version) }),
    }
}

/// The version id of the merged LiteLoader profile:
/// `{game_version}-{primary_version}`; the primary loader must be pinned.
pub fn liteloader_version_id(
    game_version: &str,
    primary_version: Option<&str>,
    primary_loader: ModLoader,
) -> (r: Result<String, LoaderError>)
    ensures
        match primary_version {
            Some(v) => r matches Ok(id) && id@ == game_version@ + "-"@ + v@,
            None => r == Err::<String, LoaderError>(
                LoaderError::PinnedPrimaryVersionRequired { primary: loader_kind(primary_loader) },
            ),
        },
{
    match primary_version {
        Some(v) => {
            let mut id = String::from_str(game_version);
            id.append("-");
            id.append(v);
            Ok(id)
        },
        None => Err(LoaderError::PinnedPrimaryVersionRequired { primary: primary_kind(primary_loader) }),
    }
}

/// Whether the metadata is asked for the version of an adjunct of `kind`.
pub open spec fn is_resolved_kind(kind: LoaderComponentKind) -> bool {
    kind == LoaderComponentKind::OptiFine || kind == LoaderComponentKind::LiteLoader
}

/// The version resolved for the adjunct at `i`, if any.
pub open spec fn version_at(versions: Seq<Option<String>>, i: int) -> Option<String> {
    if 0 <= i < versions.len() {
        versions[i]
    } else {
        None
    }
}

/// Whether the adjunct at `i` needed a version and none was resolved.
pub open spec fn unresolved_at(
    adjuncts: Seq<LoaderComponent>,
    versions: Seq<Option<String>>,
    i: int,
) -> bool {
    is_resolved_kind(adjuncts[i].kind) && version_at(versions, i) is None
}

/// Whether `out` is the adjunct `a` tied to no instance, in the adjunct role,
/// with the version resolved for it (`v`) where one is resolved.
pub open spec fn is_pinned_adjunct(out: LoaderComponent, a: LoaderComponent, v: Option<String>) -> bool {
    &&& out.role == LoaderComponentRole::Adjunct
    &&& out.instance_id@ == Seq::<char>::empty()
    &&& out.kind == a.kind
    &&& out.provider_metadata == a.provider_metadata
    &&& out.version == if is_resolved_kind(a.kind) {
        v
    } else {
        a.version
    }
}

/// Whether `e` is the error for an adjunct of `kind` that no version supports
/// on Minecraft `game_version`.
pub open spec fn is_no_version_error(e: LoaderError, kind: LoaderComponentKind, game_version: Seq<char>) -> bool {
    if kind == LoaderComponentKind::OptiFine {
        e matches LoaderError::NoOptiFineVersion { game_version: g } && g@ == game_version
    } else {
        e matches LoaderError::NoLiteLoaderVersion { game_version: g } && g@ == game_version
    }
}

/// Resolves the adjuncts requested with a new instance of `loader` for
/// Minecraft `game_version`. An adjunct the loader does not support refuses
/// the request; otherwise every adjunct becomes an adjunct tied to no
/// instance, and each OptiFine and LiteLoader adjunct is pinned to the
/// version its metadata resolved, `versions[i]` for the adjunct at `i`. The
/// first of them with no resolved version refuses the request, and a refused
/// request leaves the adjuncts as they were.
pub fn pin_resolved_adjuncts(
    loader: ModLoader,
    game_version: &str,
    adjuncts: &mut Vec<LoaderComponent>,
    versions: &Vec<Option<String>>,
) -> (r: Result<(), LoaderError>)
    ensures
        adjunct_support_error(loader, old(adjuncts)@) matches Some(e) ==> r == Err::<(), LoaderError>(
            e,
        ) && final(adjuncts)@ == old(adjuncts)@,
        adjunct_support_error(loader, old(adjuncts)@) is None ==> {
            if exists|k: int| 0 <= k < old(adjuncts)@.len() && unresolved_at(old(adjuncts)@, versions@, k) {
                &&& final(adjuncts)@ == old(adjuncts)@
                &&& r matches Err(e)
                &&& exists|k: int|
                    0 <= k < old(adjuncts)@.len() && unresolved_at(old(adjuncts)@, versions@, k)
                        && (forall|j: int| 0 <= j < k ==> !unresolved_at(old(adjuncts)@, versions@, j))
                        && is_no_version_error(e, old(adjuncts)@[k].kind, game_version@)
            } else {
                &&& r is Ok
                &&& final(adjuncts)@.len() == old(adjuncts)@.len()
                &&& forall|i: int|
                    0 <= i < old(adjuncts)@.len() ==> is_pinned_adjunct(
                        #[trigger] final(adjuncts)@[i],
                        old(adjuncts)@[i],
                        version_at(versions@, i),
                    )
            }
        },
{
    match check_adjunct_support(loader, adjuncts) {
        Err(e) => return Err(e),
        Ok(()) => {},
    }
    let n = adjuncts.len();
    let mut out: Vec<LoaderComponent> = Vec::new();
    let mut i: usize = 0;
    while i < n
        invariant
            n == adjuncts@.len(),
            adjuncts@ == old(adjuncts)@,
            adjunct_support_error(loader, adjuncts@) is None,
            i <= n,
            out@.len() == i,
            forall|j: int| 0 <= j < i ==> !unresolved_at(adjuncts@, versions@, j),
            forall|j: int|
                0 <= j < i ==> is_pinned_adjunct(
                    #[trigger] out@[j],
                    adjuncts@[j],
                    version_at(versions@, j),
                ),
        decreases n - i,
    {
        let a = adjuncts[i].cloned();
        let resolved = if i < versions.len() {
            clone_option_string(&versions[i])
        } else {
            None
        };
        assert(resolved == version_at(versions@, i as int));
        let mut c = LoaderComponent {
            instance_id: String::new(),
            kind: a.kind,
            version: a.version,
            role: LoaderComponentRole::Adjunct,
            provider_metadata: a.provider_metadata,
        };
        match pin_adjunct_version(&mut c, game_version, resolved) {
            Err(e) => {
                assert(unresolved_at(adjuncts@, versions@, i as int));
                return Err(e);
            },
            Ok(()) => {},
        }
        out.push(c);
        i += 1;
    }
    *adjuncts = out;
    Ok(())
}

/// `cs` with the version of the first component of `kind` set to `version`,
/// as `set_component_version` does.
pub open spec fn with_version_pinned(
    cs: Seq<LoaderComponent>,
    kind: LoaderComponentKind,
    version: String,
) -> Seq<LoaderComponent> {
    match first_of_kind(cs, kind) {
        None => cs,
        Some(i) => cs.update(i, LoaderComponent { version: Some(version), ..cs[i] }),
    }
}

/// `cs` after pinning each installed adjunct in turn.
pub open spec fn with_versions_pinned(
    cs: Seq<LoaderComponent>,
    installed: Seq<(LoaderComponentKind, String)>,
) -> Seq<LoaderComponent>
    decreases installed.len(),
{
    if installed.len() == 0 {
        cs
    } else {
        with_version_pinned(
            with_versions_pinned(cs, installed.drop_last()),
            installed.last().0,
            installed.last().1,
        )
    }
}

/// Records the versions of the installed adjuncts in the components of an
/// instance: for each installed adjunct in turn, the first component of its
/// kind gets its version. Without installed adjuncts nothing changes.
pub fn pin_installed_adjuncts(
    components: &mut Vec<LoaderComponent>,
    installed: &Vec<(LoaderComponentKind, String)>,
)
    ensures
        final(components)@ == with_versions_pinned(old(components)@, installed@),
        installed@.len() == 0 ==> final(components)@ == old(components)@,
{
    let mut i: usize = 0;
    while i < installed.len()
        invariant
            i <= installed@.len(),
            components@ == with_versions_pinned(old(components)@, installed@.take(i as int)),
        decreases installed@.len() - i,
    {
        let (kind, version) = &installed[i];
        let ghost before = components@;
        set_component_version(components, *kind, version.clone());
        proof {
            let t = installed@.take(i + 1);
            assert(t.drop_last() =~= installed@.take(i as int));
            assert(t.last() == installed@[i as int]);
        }
        i += 1;
    }
    assert(installed@.take(installed@.len() as int) =~= installed@);
}

/// Checks an OptiFabric install of file `file_id`: the file record must be
/// OptiFabric's and support Minecraft `game_version`, then the install must
/// have needed no manual download, failed no download and installed that
/// file. The version then recorded is the file id as text.
pub fn optifabric_install_result(
    file_id: u32,
    file: &CurseForgeFile,
    game_version: &str,
    outcome: &CurseForgeInstallOutcome,
) -> (r: Result<String, LoaderError>)
    ensures
        !(file.mod_id == OPTIFABRIC_CURSEFORGE_PROJECT_ID && supports(*file, game_version@)) ==> (
        r matches Err(LoaderError::OptiFabricFileUnsupported { file_id: f, game_version: g }) && f
            == file_id && g@ == game_version@),
        (file.mod_id == OPTIFABRIC_CURSEFORGE_PROJECT_ID && supports(*file, game_version@)) ==> {
            &&& outcome.manual_download_count > 0 ==> r == Err::<String, LoaderError>(
                LoaderError::OptiFabricManualDownload,
            )
            &&& outcome.manual_download_count == 0 && outcome.failed_downloads@.len() > 0 ==> (
            r matches Err(LoaderError::OptiFabricInstallFailed { reason }) && reason@
                == outcome.failed_downloads@[0].reason@)
            &&& outcome.manual_download_count == 0 && outcome.failed_downloads@.len() == 0 ==> if optifabric_installed(
                outcome.installed@,
                file_id,
            ) {
                r matches Ok(s) && s@ == decimal(file_id as nat)
            } else {
                r == Err::<String, LoaderError>(LoaderError::OptiFabricNotInstalled)
            }
        },
{
    match check_optifabric_file(file, file_id, game_version) {
        Err(e) => return Err(e),
        Ok(()) => {},
    }
    match check_optifabric_install(outcome, file_id) {
        Err(e) => Err(e),
        Ok(()) => Ok(crate::text::decimal_string(file_id as u64)),
    }
}

/// Whether two selections have the same kinds in the same roles.
pub open spec fn same_kinds_and_roles(a: Seq<LoaderComponent>, b: Seq<LoaderComponent>) -> bool {
    &&& a.len() == b.len()
    &&& forall|i: int| 0 <= i < a.len() ==> (#[trigger] a[i]).kind == b[i].kind && a[i].role == b[i].role
}

proof fn lemma_first_primary_kinds(a: Seq<LoaderComponent>, b: Seq<LoaderComponent>)
    requires
        same_kinds_and_roles(a, b),
    ensures
        first_primary_kind(a) == first_primary_kind(b),
    decreases a.len(),
{
    if a.len() > 0 {
        assert(a[0].kind == b[0].kind && a[0].role == b[0].role);
        assert forall|i: int| 0 <= i < a.drop_first().len() implies (#[trigger] a.drop_first()[i]).kind
            == b.drop_first()[i].kind && a.drop_first()[i].role == b.drop_first()[i].role by {
            assert(a[i + 1].kind == b[i + 1].kind);
        }
        lemma_first_primary_kinds(a.drop_first(), b.drop_first());
    }
}

/// Whether a selection is accepted depends on the kinds and roles of its
/// components alone.
proof fn lemma_selection_error_kinds(a: Seq<LoaderComponent>, b: Seq<LoaderComponent>)
    requires
        same_kinds_and_roles(a, b),
    ensures
        selection_error(a) == selection_error(b),
{
    lemma_first_primary_kinds(a, b);
    assert forall|k: LoaderComponentKind| has_adjunct(a, k) == has_adjunct(b, k) by {
        if has_adjunct(a, k) {
            let i = choose|i: int|
                0 <= i < a.len() && (#[trigger] a[i]).role == LoaderComponentRole::Adjunct && a[i].kind
                    == k;
            assert(b[i].role == LoaderComponentRole::Adjunct && b[i].kind == k);
        }
        if has_adjunct(b, k) {
            let i = choose|i: int|
                0 <= i < b.len() && (#[trigger] b[i]).role == LoaderComponentRole::Adjunct && b[i].kind
                    == k;
            assert(a[i].role == LoaderComponentRole::Adjunct && a[i].kind == k);
        }
    }
    if has_invalid_adjunct(a) {
        let i = choose|i: int|
            0 <= i < a.len() && (#[trigger] a[i]).role == LoaderComponentRole::Adjunct
                && !is_adjunct_kind(a[i].kind);
        assert(b[i].role == LoaderComponentRole::Adjunct);
    }
    if has_invalid_adjunct(b) {
        let i = choose|i: int|
            0 <= i < b.len() && (#[trigger] b[i]).role == LoaderComponentRole::Adjunct
                && !is_adjunct_kind(b[i].kind);
        assert(a[i].role == LoaderComponentRole::Adjunct);
    }
}

/// A primary component of `loader`, as the rules read it.
pub open spec fn primary_stub(loader: ModLoader) -> LoaderComponent {
    LoaderComponent {
        instance_id: arbitrary(),
        kind: loader_kind(loader),
        version: None,
        role: LoaderComponentRole::Primary,
        provider_metadata: None,
    }
}

/// Why the adjuncts `adjuncts` are refused beside a primary `loader`.
pub open spec fn primary_selection_error(loader: ModLoader, adjuncts: Seq<LoaderComponent>) -> Option<
    LoaderError,
> {
    selection_error(seq![primary_stub(loader)] + adjuncts)
}

/// Checks the adjuncts of a new instance beside its primary `loader`.
pub fn validate_with_primary(loader: ModLoader, adjuncts: &Vec<LoaderComponent>) -> (r: Result<
    (),
    LoaderError,
>)
    ensures
        r == match primary_selection_error(loader, adjuncts@) {
            None => Ok::<(), LoaderError>(()),
            Some(e) => Err(e),
        },
{
    let cs = selection_with_primary(loader, adjuncts);
    proof {
        let stub = seq![primary_stub(loader)] + adjuncts@;
        assert forall|i: int| 0 <= i < cs@.len() implies (#[trigger] cs@[i]).kind == stub[i].kind
            && cs@[i].role == stub[i].role by {
            if i > 0 {
                assert(cs@[i] == cs@.drop_first()[i - 1]);
            }
        }
        lemma_selection_error_kinds(cs@, stub);
    }
    validate_loader_components(&cs)
}

/// The components `components` with the adjuncts `adjuncts` added, as the
/// rules read them.
pub open spec fn with_adjuncts_attached(
    components: Seq<LoaderComponent>,
    adjuncts: Seq<LoaderComponent>,
) -> Seq<LoaderComponent> {
    components + adjuncts.map_values(
        |c: LoaderComponent| LoaderComponent { role: LoaderComponentRole::Adjunct, ..c },
    )
}

/// Whether `cs` is `components` with `adjuncts` added as adjuncts of the
/// instance `instance_id`.
pub open spec fn is_attached(
    cs: Seq<LoaderComponent>,
    components: Seq<LoaderComponent>,
    adjuncts: Seq<LoaderComponent>,
    instance_id: Seq<char>,
) -> bool {
    &&& cs.len() == components.len() + adjuncts.len()
    &&& cs.take(components.len() as int) == components
    &&& forall|i: int|
        0 <= i < adjuncts.len() ==> {
            let c = #[trigger] cs[components.len() + i];
            &&& c.instance_id@ == instance_id
            &&& c.role == LoaderComponentRole::Adjunct
            &&& c.kind == adjuncts[i].kind
            &&& c.version == adjuncts[i].version
            &&& c.provider_metadata == adjuncts[i].provider_metadata
        }
}

/// The components of a new instance `instance_id` once the resolved
/// adjuncts are added to the components it was created with, if the
/// selection is accepted.
pub fn attach_and_validate(
    components: &Vec<LoaderComponent>,
    adjuncts: &Vec<LoaderComponent>,
    instance_id: &str,
) -> (r: Result<Vec<LoaderComponent>, LoaderError>)
    ensures
        match selection_error(with_adjuncts_attached(components@, adjuncts@)) {
            Some(e) => r == Err::<Vec<LoaderComponent>, LoaderError>(e),
            None => r matches Ok(cs) && is_attached(cs@, components@, adjuncts@, instance_id@),
        },
{
    let mut cs: Vec<LoaderComponent> = Vec::new();
    let mut i: usize = 0;
    while i < components.len()
        invariant
            i <= components@.len(),
            cs@ == components@.take(i as int),
        decreases components@.len() - i,
    {
        cs.push(components[i].cloned());
        assert(cs@ =~= components@.take(i + 1));
        i += 1;
    }
    assert(components@.take(components@.len() as int) =~= components@);
    attach_adjuncts(&mut cs, adjuncts, instance_id);
    proof {
        let w = with_adjuncts_attached(components@, adjuncts@);
        let n = components@.len();
        assert forall|k: int| 0 <= k < cs@.len() implies (#[trigger] cs@[k]).kind == w[k].kind
            && cs@[k].role == w[k].role by {
            if k < n {
                assert(cs@[k] == cs@.take(n as int)[k]);
            } else {
                assert(cs@[n + (k - n)] == cs@[k]);
            }
        }
        lemma_selection_error_kinds(cs@, w);
    }
    match validate_loader_components(&cs) {
        Err(e) => Err(e),
        Ok(()) => Ok(cs),
    }
}

/// OptiFine alone runs beside a Vanilla, Forge or NeoForge primary loader,
/// and OptiFine and LiteLoader together beside Vanilla or Forge: a
/// selection whose first component is such a primary loader and whose other
/// components are such adjuncts is accepted, so `validate_loader_components`
/// returns `Ok` on it.
pub proof fn optifine_and_liteloader_run_on_their_loaders(cs: Seq<LoaderComponent>)
    requires
        cs.len() >= 1,
        cs[0].role == LoaderComponentRole::Primary,
        (cs[0].kind == LoaderComponentKind::Vanilla || cs[0].kind == LoaderComponentKind::Forge
            || cs[0].kind == LoaderComponentKind::NeoForge) && (forall|i: int|
            1 <= i < cs.len() ==> (#[trigger] cs[i]).role == LoaderComponentRole::Adjunct
                && cs[i].kind == LoaderComponentKind::OptiFine) || (cs[0].kind
            == LoaderComponentKind::Vanilla || cs[0].kind == LoaderComponentKind::Forge) && (forall|
            i: int|
            1 <= i < cs.len() ==> (#[trigger] cs[i]).role == LoaderComponentRole::Adjunct
                && (cs[i].kind == LoaderComponentKind::OptiFine || cs[i].kind
                == LoaderComponentKind::LiteLoader)),
    ensures
        selection_error(cs) is None,
{
    assert(first_primary_kind(cs) == Some(cs[0].kind));
    assert(!has_adjunct(cs, LoaderComponentKind::OptiFabric)) by {
        if has_adjunct(cs, LoaderComponentKind::OptiFabric) {
            let i = choose|i: int|
                0 <= i < cs.len() && (#[trigger] cs[i]).role == LoaderComponentRole::Adjunct
                    && cs[i].kind == LoaderComponentKind::OptiFabric;
            assert(i >= 1);
        }
    }
    assert(!has_invalid_adjunct(cs)) by {
        if has_invalid_adjunct(cs) {
            let i = choose|i: int|
                0 <= i < cs.len() && (#[trigger] cs[i]).role == LoaderComponentRole::Adjunct
                    && !is_adjunct_kind(cs[i].kind);
            assert(i >= 1);
        }
    }
    if cs[0].kind == LoaderComponentKind::NeoForge {
        assert(!has_adjunct(cs, LoaderComponentKind::LiteLoader)) by {
            if has_adjunct(cs, LoaderComponentKind::LiteLoader) {
                let i = choose|i: int|
                    0 <= i < cs.len() && (#[trigger] cs[i]).role == LoaderComponentRole::Adjunct
                        && cs[i].kind == LoaderComponentKind::LiteLoader;
                assert(i >= 1);
            }
        }
    }
}

} // verus!
