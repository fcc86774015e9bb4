//! Classification of install failures into the stable error codes the user
//! interface and the support tooling rely on.

use vstd::prelude::*;
use crate::install_model::{
    InstallPhaseId, InstallErrorContext, InstallErrorView, clone_option_string,
};
use crate::install_jobs::{error_cache_types, dedup, cache_repair_code};
use crate::text::{starts_with, has_prefix, views};

verus! {

/// The kind of a failure, as far as install error codes tell kinds apart.
#[derive(Debug)]
pub enum ErrorKind {
    CacheReadError { cache_type: String, sqlite_code: Option<String> },
    InputError(String),
    LauncherError,
    JREError,
    NoValueFor,
    MetadataError,
    FetchError,
    NetworkError,
    HttpError,
    ApiIsDownError,
    Any,
    LabrinthError,
    HashError,
    ZipError,
    DeserializationError,
    StripPrefixError,
    FSError,
    IOError,
    StdIOError,
    UTFError,
    INIError,
    JSONError,
    Sqlx,
    SqlxMigrate,
    JoinError,
    RecvError,
    AcquireError,
    EventError,
    OtherError,
    /// Every other kind of failure.
    Unclassified,
}

/// A failure of an install step: its kind and the text it displays as.
#[derive(Debug)]
pub struct InstallError {
    pub kind: ErrorKind,
    pub message: String,
}

/// Whether an `Any` failure in `phase` is taken for a network failure.
pub open spec fn is_network_phase(phase: InstallPhaseId) -> bool {
    phase == InstallPhaseId::DownloadingPackFile || phase == InstallPhaseId::DownloadingContent
        || phase == InstallPhaseId::ResolvingMinecraft || phase == InstallPhaseId::ResolvingLoader
        || phase == InstallPhaseId::PreparingJava || phase == InstallPhaseId::DownloadingMinecraft
}

/// The code of invalid input, by the phase it was found in.
pub open spec fn input_error_code(phase: InstallPhaseId) -> Seq<char> {
    match phase {
        InstallPhaseId::PreparingInstance | InstallPhaseId::CreatingBackup
        | InstallPhaseId::Finalizing | InstallPhaseId::Completed => "instance_error"@,
        InstallPhaseId::ResolvingPack | InstallPhaseId::DownloadingPackFile
        | InstallPhaseId::ReadingPackManifest => "pack_error"@,
        InstallPhaseId::DownloadingContent | InstallPhaseId::StagingContent
        | InstallPhaseId::ApplyingContent => "content_error"@,
        InstallPhaseId::ExtractingOverrides => "path_error"@,
        InstallPhaseId::PreparingJava => "java_error"@,
        InstallPhaseId::DownloadingMinecraft => "instance_error"@,
        InstallPhaseId::RollingBack => "rollback_error"@,
        InstallPhaseId::ResolvingMinecraft | InstallPhaseId::ResolvingLoader
        | InstallPhaseId::RunningLoaderProcessors | InstallPhaseId::UpdatingLoader
        | InstallPhaseId::Verifying => "launcher_error"@,
    }
}

/// The error code of a failure of `kind` in `phase`.
pub open spec fn error_code_text(phase: InstallPhaseId, kind: ErrorKind) -> Seq<char> {
    match kind {
        ErrorKind::CacheReadError { .. } => cache_repair_code(),
        ErrorKind::InputError(msg) => if has_prefix(msg@, "Unrecognized modpack format"@) && phase
            == InstallPhaseId::ResolvingPack {
            "unrecognized_format"@
        } else {
            input_error_code(phase)
        },
        ErrorKind::LauncherError => match phase {
            InstallPhaseId::RunningLoaderProcessors => "processor_error"@,
            InstallPhaseId::PreparingJava => "java_error"@,
            InstallPhaseId::ResolvingLoader => "loader_error"@,
            _ => "launcher_error"@,
        },
        ErrorKind::JREError => "java_error"@,
        ErrorKind::NoValueFor | ErrorKind::MetadataError => match phase {
            InstallPhaseId::ResolvingLoader => "loader_error"@,
            InstallPhaseId::PreparingJava => "java_error"@,
            _ => "metadata_error"@,
        },
        ErrorKind::FetchError | ErrorKind::NetworkError | ErrorKind::HttpError
        | ErrorKind::ApiIsDownError => "network_error"@,
        ErrorKind::Any => if is_network_phase(phase) {
            "network_error"@
        } else {
            "internal_error"@
        },
        ErrorKind::LabrinthError => "api_error"@,
        ErrorKind::HashError => "hash_error"@,
        ErrorKind::ZipError => "archive_error"@,
        ErrorKind::DeserializationError | ErrorKind::StripPrefixError => "path_error"@,
        ErrorKind::FSError | ErrorKind::IOError | ErrorKind::StdIOError | ErrorKind::UTFError =>
            "filesystem_error"@,
        ErrorKind::INIError | ErrorKind::JSONError => "parse_error"@,
        ErrorKind::Sqlx | ErrorKind::SqlxMigrate => "database_error"@,
        ErrorKind::JoinError | ErrorKind::RecvError | ErrorKind::AcquireError
        | ErrorKind::EventError | ErrorKind::OtherError => "internal_error"@,
        ErrorKind::Unclassified => "unknown_error"@,
    }
}

fn input_error_code_str(phase: InstallPhaseId) -> (code: &'static str)
    ensures
        code@ == input_error_code(phase),
{
    match phase {
        InstallPhaseId::PreparingInstance | InstallPhaseId::CreatingBackup
        | InstallPhaseId::Finalizing | InstallPhaseId::Completed => "instance_error",
        InstallPhaseId::ResolvingPack | InstallPhaseId::DownloadingPackFile
        | InstallPhaseId::ReadingPackManifest => "pack_error",
        InstallPhaseId::DownloadingContent | InstallPhaseId::StagingContent
        | InstallPhaseId::ApplyingContent => "content_error",
        InstallPhaseId::ExtractingOverrides => "path_error",
        InstallPhaseId::PreparingJava => "java_error",
        InstallPhaseId::DownloadingMinecraft => "instance_error",
        InstallPhaseId::RollingBack => "rollback_error",
        InstallPhaseId::ResolvingMinecraft | InstallPhaseId::ResolvingLoader
        | InstallPhaseId::RunningLoaderProcessors | InstallPhaseId::UpdatingLoader
        | InstallPhaseId::Verifying => "launcher_error",
    }
}

/// The stable code of a failure of `kind` in `phase`.
pub fn install_error_code(phase: InstallPhaseId, kind: &ErrorKind) -> (code: &'static str)
    ensures
        code@ == error_code_text(phase, *kind),
{
    match kind {
        ErrorKind::CacheReadError { .. } => "cache_repair_required",
        ErrorKind::InputError(msg) => {
            if starts_with(msg.as_str(), "Unrecognized modpack format") && phase
                == InstallPhaseId::ResolvingPack {
                "unrecognized_format"
            } else {
                input_error_code_str(phase)
            }
        },
        ErrorKind::LauncherError => match phase {
            InstallPhaseId::RunningLoaderProcessors => "processor_error",
            InstallPhaseId::PreparingJava => "java_error",
            InstallPhaseId::ResolvingLoader => "loader_error",
            _ => "launcher_error",
        },
        ErrorKind::JREError => "java_error",
        ErrorKind::NoValueFor | ErrorKind::MetadataError => match phase {
            InstallPhaseId::ResolvingLoader => "loader_error",
            InstallPhaseId::PreparingJava => "java_error",
            _ => "metadata_error",
        },
        ErrorKind::FetchError | ErrorKind::NetworkError | ErrorKind::HttpError
        | ErrorKind::ApiIsDownError => "network_error",
        ErrorKind::Any => match phase {
            InstallPhaseId::DownloadingPackFile | InstallPhaseId::DownloadingContent
            | InstallPhaseId::ResolvingMinecraft | InstallPhaseId::ResolvingLoader
            | InstallPhaseId::PreparingJava | InstallPhaseId::DownloadingMinecraft =>
                "network_error",
            _ => "internal_error",
        },
        ErrorKind::LabrinthError => "api_error",
        ErrorKind::HashError => "hash_error",
        ErrorKind::ZipError => "archive_error",
        ErrorKind::DeserializationError | ErrorKind::StripPrefixError => "path_error",
        ErrorKind::FSError | ErrorKind::IOError | ErrorKind::StdIOError | ErrorKind::UTFError =>
            "filesystem_error",
        ErrorKind::INIError | ErrorKind::JSONError => "parse_error",
        ErrorKind::Sqlx | ErrorKind::SqlxMigrate => "database_error",
        ErrorKind::JoinError | ErrorKind::RecvError | ErrorKind::AcquireError
        | ErrorKind::EventError | ErrorKind::OtherError => "internal_error",
        ErrorKind::Unclassified => "unknown_error",
    }
}

/// The operation recorded for a failed read of the project cache.
pub open spec fn cache_read_operation() -> Seq<char> {
    "read project metadata cache"@
}

/// Whether `view` is the error view of `error` in `phase`, given the
/// `context` the failing step recorded. A failed cache read names its cache
/// type and SQLite code in the context, so that the cache can be repaired.
pub open spec fn is_error_view_of(
    view: InstallErrorView,
    phase: InstallPhaseId,
    error: InstallError,
    context: Option<InstallErrorContext>,
) -> bool {
    &&& view.code@ == error_code_text(phase, error.kind)
    &&& view.phase == phase
    &&& view.message@ == error.message@
    &&& match error.kind {
        ErrorKind::CacheReadError { cache_type, sqlite_code } => {
            &&& view.context matches Some(c)
            &&& c.cache_types@ == seq![cache_type]
            &&& c.sqlite_code == sqlite_code
            &&& match context {
                Some(given) => c.operation == given.operation,
                None => c.operation@ == cache_read_operation(),
            }
        },
        _ => view.context == context,
    }
}

/// The error view recorded for a failure in `phase`.
pub fn install_error_view(
    phase: InstallPhaseId,
    error: &InstallError,
    context: Option<InstallErrorContext>,
) -> (view: InstallErrorView)
    ensures
        is_error_view_of(view, phase, *error, context),
{
    let ghost given = context;
    let context = match &error.kind {
        ErrorKind::CacheReadError { cache_type, sqlite_code } => {
            let operation = match context {
                Some(c) => c.operation,
                None => String::from_str("read project metadata cache"),
            };
            let mut cache_types: Vec<String> = Vec::new();
            cache_types.push(cache_type.clone());
            assert(cache_types@ =~= seq![*cache_type]);
            Some(
                InstallErrorContext {
                    operation,
                    cache_types,
                    sqlite_code: clone_option_string(sqlite_code),
                },
            )
        },
        _ => context,
    };
    let code = install_error_code(phase, &error.kind);
    InstallErrorView {
        code: String::from_str(code),
        phase,
        message: error.message.clone(),
        context,
    }
}

/// The error of a job whose preparation failed with `error`: after a
/// cleanup that succeeded it is `error` itself, otherwise both failures are
/// reported together.
pub fn failed_initialization_error(error: InstallError, cleanup: Result<(), String>) -> (r:
    InstallError)
    ensures
        match cleanup {
            Ok(_) => r == error,
            Err(c) => r.kind is OtherError && r.message@ == "Install initialization failed: "@
                + error.message@ + "; cleanup also failed: "@ + c@,
        },
{
    match cleanup {
        Ok(()) => error,
        Err(c) => {
            let mut message = String::from_str("Install initialization failed: ");
            message.append(error.message.as_str());
            message.append("; cleanup also failed: ");
            message.append(c.as_str());
            InstallError { kind: ErrorKind::OtherError, message }
        },
    }
}

/// The error of a cache repair whose purge of the caches failed with
/// `cause`; the job is not retried.
pub fn cache_purge_error(cause: &str) -> (r: InstallError)
    ensures
        r.kind is OtherError,
        r.message@ == "Project cache cleanup failed; retry was not started: "@ + cause@,
{
    let mut message = String::from_str("Project cache cleanup failed; retry was not started: ");
    message.append(cause);
    InstallError { kind: ErrorKind::OtherError, message }
}

/// The error of a cache repair that purged the caches but could not start
/// the retry, which failed with `cause`.
pub fn retry_after_purge_error(cause: &str) -> (r: InstallError)
    ensures
        r.kind is OtherError,
        r.message@ == "Project cache was cleared, but retry could not be started: "@ + cause@,
{
    let mut message = String::from_str(
        "Project cache was cleared, but retry could not be started: ",
    );
    message.append(cause);
    InstallError { kind: ErrorKind::OtherError, message }
}

/// A failed read of the project cache is always reported as a cache repair,
/// whatever the phase, and its error view names exactly the cache type that
/// failed: the cache repair of that job purges that one type.
pub proof fn cache_read_errors_name_their_cache(
    phase: InstallPhaseId,
    error: InstallError,
    context: Option<InstallErrorContext>,
    view: InstallErrorView,
)
    requires
        is_error_view_of(view, phase, error, context),
        error.kind is CacheReadError,
    ensures
        view.code@ == cache_repair_code(),
        views(error_cache_types(view)) == seq![error.kind->cache_type@],
        dedup(views(error_cache_types(view))) == seq![error.kind->cache_type@],
{
    let t = error.kind->cache_type@;
    let c = view.context->0;
    assert(views(c.cache_types@) =~= seq![t]);
    assert(seq![t].drop_last() =~= Seq::<Seq<char>>::empty());
    assert(dedup(Seq::<Seq<char>>::empty()) == Seq::<Seq<char>>::empty());
    assert(dedup(seq![t]) =~= seq![t]);
}

} // verus!
