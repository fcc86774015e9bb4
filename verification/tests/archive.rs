use std::collections::HashMap;

use app_lib::archive::{
    check_cancellation, decode_entry_text, plan_archive_entry, safe_relative_path, sibling_path,
    ArchiveError, EntryDecision, PathStyle, EXTRACTION_SIZE_LIMIT,
};
use app_lib::archive_journal::{
    discard_staged_archive_entries, FsOp, MaterializePlan, ReplacementJournal,
};

/// An in-memory directory tree that performs journal operations.
#[derive(Default)]
struct MemoryFs {
    files: HashMap<String, Vec<u8>>,
}

impl MemoryFs {
    fn apply(&mut self, op: &FsOp) -> Result<(), String> {
        match op {
            FsOp::RemoveIfExists { path } => {
                self.files.remove(path);
                Ok(())
            }
            FsOp::Rename { from, to } => match self.files.remove(from) {
                Some(data) => {
                    self.files.insert(to.clone(), data);
                    Ok(())
                }
                None => Err(format!("missing {from}")),
            },
            FsOp::RestoreIfExists { from, to } => {
                if let Some(data) = self.files.remove(from) {
                    self.files.insert(to.clone(), data);
                }
                Ok(())
            }
        }
    }

    fn run(&mut self, ops: &[FsOp]) -> Result<(), String> {
        for op in ops {
            self.apply(op)?;
        }
        Ok(())
    }

    fn publish(&mut self, journal: &mut ReplacementJournal, target: &str) -> Result<(), String> {
        let exists = self.files.contains_key(target);
        let plan: MaterializePlan = journal.materialize_plan(target, exists).map_err(|e| e.message())?;
        let last = plan.steps.len() - 1;
        for (index, op) in plan.steps.iter().enumerate() {
            if let Err(error) = self.apply(op) {
                if index == last {
                    for recovery in &plan.on_publish_failure {
                        let _ = self.apply(recovery);
                    }
                }
                return Err(error);
            }
        }
        journal.record(plan);
        Ok(())
    }

    fn write_entry(&mut self, journal: &mut ReplacementJournal, target: &str, data: &[u8]) {
        self.files.insert(sibling_path(target, ".installing"), data.to_vec());
        self.publish(journal, target).unwrap();
    }

    fn read(&self, path: &str) -> Option<&[u8]> {
        self.files.get(path).map(Vec::as_slice)
    }
}

#[test]
fn archive_batch_rollback_restores_all_original_files() {
    let mut fs = MemoryFs::default();
    fs.files.insert("config/first.txt".to_string(), b"old-first".to_vec());
    fs.files.insert("config/second.txt".to_string(), b"old-second".to_vec());
    let mut journal = ReplacementJournal::new();

    fs.write_entry(&mut journal, "config/first.txt", b"new-first");
    fs.write_entry(&mut journal, "config/second.txt", b"new-second");
    fs.run(&journal.rollback_plan()).unwrap();

    assert_eq!(fs.read("config/first.txt").unwrap(), b"old-first");
    assert_eq!(fs.read("config/second.txt").unwrap(), b"old-second");
    assert!(fs.read("config/first.txt.installing.previous").is_none());
    assert!(fs.read("config/second.txt.installing.previous").is_none());
}

#[test]
fn duplicate_archive_entries_preserve_preinstall_backup() {
    let mut fs = MemoryFs::default();
    fs.files.insert("config/example.txt".to_string(), b"original".to_vec());
    let mut journal = ReplacementJournal::new();

    fs.write_entry(&mut journal, "config/example.txt", b"first-entry");
    fs.write_entry(&mut journal, "config/example.txt", b"second-entry");
    assert_eq!(fs.read("config/example.txt").unwrap(), b"second-entry");
    assert_eq!(journal.len(), 1);

    fs.run(&journal.rollback_plan()).unwrap();
    assert_eq!(fs.read("config/example.txt").unwrap(), b"original");
}

#[test]
fn successful_archive_batch_removes_previous_backups() {
    let mut fs = MemoryFs::default();
    fs.files.insert("config/example.txt".to_string(), b"original".to_vec());
    let mut journal = ReplacementJournal::new();

    fs.write_entry(&mut journal, "config/example.txt", b"replacement");
    fs.run(&journal.finalize_plan()).unwrap();

    assert_eq!(fs.read("config/example.txt").unwrap(), b"replacement");
    assert!(fs.read("config/example.txt.installing.previous").is_none());
}

/// Writes `chunks` to the staging file of `target` as an extraction does,
/// checking for cancellation before each read and before each write, and
/// publishes the staged file; `cancel_on_read` cancels the install while the
/// first chunk is read. A failed write removes the staging file.
fn write_entry_atomically(
    fs: &mut MemoryFs,
    journal: &mut ReplacementJournal,
    target: &str,
    chunks: &[&[u8]],
    token: &tokio_util::sync::CancellationToken,
    cancel_on_read: bool,
) -> Result<(), String> {
    let staging = sibling_path(target, ".installing");
    fs.files.insert(staging.clone(), Vec::new());
    for chunk in chunks {
        let step = check_cancellation(Some(token)).and_then(|()| {
            if cancel_on_read {
                token.cancel();
            }
            check_cancellation(Some(token))
        });
        if let Err(error) = step {
            fs.files.remove(&staging);
            return Err(error.message());
        }
        fs.files.get_mut(&staging).unwrap().extend_from_slice(chunk);
    }
    fs.publish(journal, target)
}

#[test]
fn canceled_atomic_entry_keeps_existing_target() {
    let mut fs = MemoryFs::default();
    fs.files.insert("config/example.bin".to_string(), b"previous".to_vec());
    let mut journal = ReplacementJournal::new();
    let cancellation = tokio_util::sync::CancellationToken::new();

    let error = write_entry_atomically(
        &mut fs,
        &mut journal,
        "config/example.bin",
        &[b"replacement"],
        &cancellation,
        true,
    )
    .unwrap_err();

    assert!(error.contains("Install was canceled"));
    assert_eq!(fs.read("config/example.bin").unwrap(), b"previous");
    assert!(fs.read("config/example.bin.installing").is_none());
    assert_eq!(journal.len(), 0);
}

#[test]
fn publishing_without_a_staged_file_keeps_existing_target() {
    let mut fs = MemoryFs::default();
    fs.files.insert("config/example.bin".to_string(), b"previous".to_vec());
    let mut journal = ReplacementJournal::new();

    // The staging file never got written, so publishing fails at its last step.
    assert!(fs.publish(&mut journal, "config/example.bin").is_err());
    assert_eq!(fs.read("config/example.bin").unwrap(), b"previous");
    assert!(fs.read("config/example.bin.installing").is_none());
    assert_eq!(journal.len(), 0);
}

#[test]
fn rollback_removes_files_that_did_not_exist_before() {
    let mut fs = MemoryFs::default();
    let mut journal = ReplacementJournal::new();
    fs.write_entry(&mut journal, "mods/new.jar", b"jar");
    assert!(journal.contains("mods/new.jar"));
    fs.run(&journal.rollback_plan()).unwrap();
    assert!(fs.files.is_empty());
}

#[test]
fn materialize_plan_moves_existing_file_to_backup() {
    let journal = ReplacementJournal::new();
    let plan = journal.materialize_plan("a.txt", true).unwrap();
    assert_eq!(plan.steps.len(), 3);
    match &plan.steps[1] {
        FsOp::Rename { from, to } => {
            assert_eq!(from, "a.txt");
            assert_eq!(to, "a.txt.installing.previous");
        }
        other => panic!("unexpected step {other:?}"),
    }
    let record = plan.record.unwrap();
    assert_eq!(record.previous.as_deref(), Some("a.txt.installing.previous"));
}

#[test]
fn discard_removes_staging_files() {
    let targets = vec!["a".to_string(), "b/c".to_string()];
    let ops = discard_staged_archive_entries(&targets);
    assert_eq!(ops.len(), 2);
    match &ops[1] {
        FsOp::RemoveIfExists { path } => assert_eq!(path, "b/c.installing"),
        other => panic!("unexpected step {other:?}"),
    }
}

#[test]
fn safe_relative_path_accepts_normal_paths() {
    assert_eq!(safe_relative_path("config/a.txt", PathStyle::Windows).unwrap(), "config/a.txt");
    assert_eq!(safe_relative_path("config\\b.txt", PathStyle::Windows).unwrap(), "config/b.txt");
    assert_eq!(safe_relative_path("a/./b", PathStyle::Windows).unwrap(), "a/./b");
    assert_eq!(safe_relative_path("a..b/c", PathStyle::Windows).unwrap(), "a..b/c");
    assert_eq!(safe_relative_path(".hidden", PathStyle::Windows).unwrap(), ".hidden");
    assert_eq!(safe_relative_path("C:foo", PathStyle::Unix).unwrap(), "C:foo");
    assert_eq!(safe_relative_path("c:\\x", PathStyle::Unix).unwrap(), "c:/x");
    assert_eq!(safe_relative_path(".\\x", PathStyle::Unix).unwrap(), "./x");
    assert_eq!(safe_relative_path("a\\..\\b", PathStyle::Unix).unwrap(), "a/../b");
    assert_eq!(safe_relative_path("a/..\\b", PathStyle::Unix).unwrap(), "a/../b");
    assert_eq!(safe_relative_path("a/./b", PathStyle::Unix).unwrap(), "a/./b");
    assert_eq!(safe_relative_path("a\\..", PathStyle::Unix).unwrap(), "a/..");
}

#[test]
fn safe_relative_path_rejects_escaping_paths() {
    for value in ["", "/etc/passwd", "\\server\\share", "../evil", "a/../../b", "a\\..\\b", "..", ".", "./a", "C:\\x", "c:x", "a/.."] {
        assert_eq!(safe_relative_path(value, PathStyle::Windows), Err(ArchiveError::InvalidPath), "{value:?}");
    }
    for value in ["", "/etc/passwd", "\\abs", "\\etc\\x", "../evil", "..\\evil", "a/../../b", "a/../b", "./a", ".", "a\\..\\..\\b", "a/..\\..\\b"] {
        assert_eq!(safe_relative_path(value, PathStyle::Unix), Err(ArchiveError::InvalidPath), "{value:?}");
    }
    assert_eq!(
        ArchiveError::InvalidPath.message(),
        "Modpack archive contains an invalid file path"
    );
}

#[test]
fn archive_entries_are_planned_by_prefix_and_size() {
    assert!(matches!(
        plan_archive_entry("overrides/", "overrides/config/a.txt", false, 10, 5, PathStyle::Unix),
        Ok(EntryDecision::Extract { ref relative, total_size: 15 }) if relative == "config/a.txt"
    ));
    assert!(matches!(
        plan_archive_entry("overrides/", "overrides/config/", true, 0, 0, PathStyle::Unix),
        Ok(EntryDecision::Skip)
    ));
    assert!(matches!(
        plan_archive_entry("overrides/", "mods/a.jar", false, 1, 0, PathStyle::Unix),
        Ok(EntryDecision::Skip)
    ));
    assert!(matches!(
        plan_archive_entry("overrides/", "overrides/", false, 1, 0, PathStyle::Unix),
        Ok(EntryDecision::Skip)
    ));
    assert!(matches!(
        plan_archive_entry("overrides/", "overrides/../x", false, 1, 0, PathStyle::Unix),
        Err(ArchiveError::InvalidPath)
    ));
    assert!(matches!(
        plan_archive_entry("overrides/", "overrides/big", false, u64::MAX, 1, PathStyle::Unix),
        Err(ArchiveError::SizeLimitExceeded)
    ));
    assert!(matches!(
        plan_archive_entry("overrides/", "overrides/ok", false, 1, EXTRACTION_SIZE_LIMIT - 1, PathStyle::Unix),
        Ok(EntryDecision::Extract { total_size: EXTRACTION_SIZE_LIMIT, .. })
    ));
}

#[test]
fn entry_text_is_utf8_or_gb18030() {
    assert_eq!(decode_entry_text("héllo".as_bytes().to_vec()), "héllo");
    // "你好" in GB18030.
    assert_eq!(decode_entry_text(vec![0xC4, 0xE3, 0xBA, 0xC3]), "你好");
}

#[test]
fn cancellation_is_checked_against_the_token() {
    let token = tokio_util::sync::CancellationToken::new();
    assert_eq!(check_cancellation(None), Ok(()));
    assert_eq!(check_cancellation(Some(&token)), Ok(()));
    token.cancel();
    assert_eq!(check_cancellation(Some(&token)), Err(ArchiveError::Canceled));
    assert_eq!(ArchiveError::Canceled.message(), "Install was canceled");
}

#[test]
fn targets_colliding_with_scratch_files_are_refused() {
    let mut fs = MemoryFs::default();
    fs.files.insert("x".to_string(), b"original".to_vec());
    let mut journal = ReplacementJournal::new();
    fs.write_entry(&mut journal, "x", b"new");
    assert!(journal.collides_with("x.installing.previous"));
    assert!(journal.collides_with("x.installing"));
    assert!(!journal.collides_with("x"));
    assert!(!journal.collides_with("y"));
    assert_eq!(
        journal.materialize_plan("x.installing.previous", true).unwrap_err(),
        ArchiveError::ConflictingPaths
    );
    let mut other = ReplacementJournal::new();
    fs.files.insert("a.installing.previous".to_string(), b"file".to_vec());
    fs.write_entry(&mut other, "a.installing.previous", b"new");
    assert!(other.collides_with("a"));
    assert_eq!(
        ArchiveError::ConflictingPaths.message(),
        "Modpack archive contains conflicting file paths"
    );
}
