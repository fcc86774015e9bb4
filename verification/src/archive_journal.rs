//! The replacement journal of an archive extraction. Each archive entry is
//! first written to a staging file next to its target; publishing it moves
//! the previous file aside to a backup and the staging file into place. The
//! journal remembers every target replaced so far, so that the whole batch
//! can be rolled back (restoring every previous file) or finalized (deleting
//! the backups). The file system work itself is described as a list of
//! operations that the caller performs in order.

use vstd::prelude::*;
use crate::text::str_eq;
use crate::archive::ArchiveError;

verus! {

/// The staging file of `target`.
pub open spec fn staging_path(target: Seq<char>) -> Seq<char> {
    target + ".installing"@
}

/// The backup of the file that `target` replaced.
pub open spec fn backup_path(target: Seq<char>) -> Seq<char> {
    target + ".installing.previous"@
}

/// A file system operation of an extraction.
#[derive(Debug)]
pub enum FsOp {
    /// Delete `path` if it exists.
    RemoveIfExists { path: String },
    /// Move `from` to `to`, replacing `to`; fails when `from` is missing.
    Rename { from: String, to: String },
    /// Move `from` to `to` if `from` exists.
    RestoreIfExists { from: String, to: String },
}

/// A file system operation over path names.
pub enum FsOpView {
    RemoveIfExists(Seq<char>),
    Rename(Seq<char>, Seq<char>),
    RestoreIfExists(Seq<char>, Seq<char>),
}

impl View for FsOp {
    type V = FsOpView;

    open spec fn view(&self) -> FsOpView {
        match self {
            FsOp::RemoveIfExists { path } => FsOpView::RemoveIfExists(path@),
            FsOp::Rename { from, to } => FsOpView::Rename(from@, to@),
            FsOp::RestoreIfExists { from, to } => FsOpView::RestoreIfExists(from@, to@),
        }
    }
}

/// The views of a list of operations.
pub open spec fn op_views(ops: Seq<FsOp>) -> Seq<FsOpView> {
    ops.map_values(|o: FsOp| o@)
}

/// The files of a directory tree: each path mapped to its contents.
pub type Files = Map<Seq<char>, Seq<u8>>;

/// `fs` after one operation, or `None` when it fails.
pub open spec fn apply_op(fs: Files, op: FsOpView) -> Option<Files> {
    match op {
        FsOpView::RemoveIfExists(p) => Some(fs.remove(p)),
        FsOpView::Rename(from, to) => if fs.dom().contains(from) {
            Some(fs.remove(from).insert(to, fs[from]))
        } else {
            None
        },
        FsOpView::RestoreIfExists(from, to) => if fs.dom().contains(from) {
            Some(fs.remove(from).insert(to, fs[from]))
        } else {
            Some(fs)
        },
    }
}

/// `fs` after the operations in order, or `None` when one fails.
pub open spec fn apply_ops(fs: Files, ops: Seq<FsOpView>) -> Option<Files>
    decreases ops.len(),
{
    if ops.len() == 0 {
        Some(fs)
    } else {
        match apply_op(fs, ops[0]) {
            None => None,
            Some(next) => apply_ops(next, ops.drop_first()),
        }
    }
}

/// A target replaced by the extraction, and the backup of the file it
/// replaced, if there was one.
#[derive(Debug)]
pub struct Replacement {
    pub target: String,
    pub previous: Option<String>,
}

/// A replacement as path names.
pub open spec fn replacement_view(r: Replacement) -> (Seq<char>, Option<Seq<char>>) {
    (
        r.target@,
        match r.previous {
            Some(p) => Some(p@),
            None => None,
        },
    )
}

/// One journal entry: a target and the backup of the file it replaced.
pub type JournalEntry = (Seq<char>, Option<Seq<char>>);

/// Whether the journal has replaced `target` already.
pub open spec fn journal_has(j: Seq<JournalEntry>, target: Seq<char>) -> bool {
    exists|k: int| 0 <= k < j.len() && (#[trigger] j[k]).0 == target
}

/// The operations that publish the staged file of `target`. A target
/// replaced earlier in the batch is overwritten, keeping the backup of the
/// original file; otherwise any stale backup is deleted, an existing file is
/// moved to the backup, and the staged file is moved into place.
pub open spec fn materialize_steps(j: Seq<JournalEntry>, target: Seq<char>, target_exists: bool) -> Seq<
    FsOpView,
> {
    if journal_has(j, target) {
        seq![
            FsOpView::RemoveIfExists(target),
            FsOpView::Rename(staging_path(target), target),
        ]
    } else if target_exists {
        seq![
            FsOpView::RemoveIfExists(backup_path(target)),
            FsOpView::Rename(target, backup_path(target)),
            FsOpView::Rename(staging_path(target), target),
        ]
    } else {
        seq![
            FsOpView::RemoveIfExists(backup_path(target)),
            FsOpView::Rename(staging_path(target), target),
        ]
    }
}

/// The operations attempted, without regard to their failure, when the
/// last publishing step fails: the previous file is moved back and the
/// staged file is deleted.
pub open spec fn publish_failure_steps(
    j: Seq<JournalEntry>,
    target: Seq<char>,
    target_exists: bool,
) -> Seq<FsOpView> {
    if !journal_has(j, target) && target_exists {
        seq![
            FsOpView::Rename(backup_path(target), target),
            FsOpView::RemoveIfExists(staging_path(target)),
        ]
    } else {
        seq![FsOpView::RemoveIfExists(staging_path(target))]
    }
}

/// The journal entry a successful publish of `target` adds, if any.
pub open spec fn materialized_entry(
    j: Seq<JournalEntry>,
    target: Seq<char>,
    target_exists: bool,
) -> Option<JournalEntry> {
    if journal_has(j, target) {
        None
    } else {
        Some(
            (
                target,
                if target_exists {
                    Some(backup_path(target))
                } else {
                    None
                },
            ),
        )
    }
}

/// `j` after a successful publish of `target`.
pub open spec fn journal_after(j: Seq<JournalEntry>, target: Seq<char>, target_exists: bool) -> Seq<
    JournalEntry,
> {
    match materialized_entry(j, target, target_exists) {
        Some(e) => j.push(e),
        None => j,
    }
}

/// The operations that undo one replacement: delete the new file, move the
/// backup back if there is one, and delete a leftover staging file.
pub open spec fn undo_steps(e: JournalEntry) -> Seq<FsOpView> {
    seq![FsOpView::RemoveIfExists(e.0)] + match e.1 {
        Some(p) => seq![FsOpView::RestoreIfExists(p, e.0)],
        None => Seq::empty(),
    } + seq![FsOpView::RemoveIfExists(staging_path(e.0))]
}

/// The operations that roll back the whole batch, newest replacement first.
pub open spec fn rollback_steps(j: Seq<JournalEntry>) -> Seq<FsOpView>
    decreases j.len(),
{
    if j.len() == 0 {
        Seq::empty()
    } else {
        undo_steps(j.last()) + rollback_steps(j.drop_last())
    }
}

/// The operations that commit the batch: delete every backup.
pub open spec fn finalize_steps(j: Seq<JournalEntry>) -> Seq<FsOpView>
    decreases j.len(),
{
    if j.len() == 0 {
        Seq::empty()
    } else {
        finalize_steps(j.drop_last()) + match j.last().1 {
            Some(p) => seq![FsOpView::RemoveIfExists(p)],
            None => Seq::empty(),
        }
    }
}

/// The operations that delete the staging files of `targets`.
pub open spec fn discard_steps(targets: Seq<Seq<char>>) -> Seq<FsOpView>
    decreases targets.len(),
{
    if targets.len() == 0 {
        Seq::empty()
    } else {
        discard_steps(targets.drop_last()).push(
            FsOpView::RemoveIfExists(staging_path(targets.last())),
        )
    }
}

/// How to publish one staged file, and what it adds to the journal.
#[derive(Debug)]
pub struct MaterializePlan {
    pub target: String,
    /// Performed in order; the first failure stops the publish.
    pub steps: Vec<FsOp>,
    /// Attempted, ignoring their failures, when the last of `steps` fails.
    pub on_publish_failure: Vec<FsOp>,
    /// Added to the journal once every step succeeded.
    pub record: Option<Replacement>,
}

/// The targets a batch has replaced, in order, without repetition.
#[derive(Debug)]
pub struct ReplacementJournal {
    entries: Vec<Replacement>,
}

fn remove_op(path: String) -> (op: FsOp)
    ensures
        op@ == FsOpView::RemoveIfExists(path@),
{
    FsOp::RemoveIfExists { path }
}

fn staging_of(target: &str) -> (p: String)
    ensures
        p@ == staging_path(target@),
{
    let mut p = String::from_str(target);
    p.append(".installing");
    p
}

fn backup_of(target: &str) -> (p: String)
    ensures
        p@ == backup_path(target@),
{
    let mut p = String::from_str(target);
    p.append(".installing.previous");
    p
}

fn push_op(ops: &mut Vec<FsOp>, op: FsOp)
    ensures
        op_views(final(ops)@) == op_views(old(ops)@).push(op@),
{
    ops.push(op);
    assert(op_views(ops@) =~= op_views(old(ops)@).push(op@));
}

impl View for ReplacementJournal {
    type V = Seq<JournalEntry>;

    closed spec fn view(&self) -> Seq<JournalEntry> {
        self.entries@.map_values(|r: Replacement| replacement_view(r))
    }
}

impl ReplacementJournal {
    /// An empty journal.
    pub fn new() -> (j: ReplacementJournal)
        ensures
            j@ == Seq::<JournalEntry>::empty(),
    {
        let j = ReplacementJournal { entries: Vec::new() };
        assert(j@ =~= Seq::<JournalEntry>::empty());
        j
    }

    /// The number of replaced targets.
    pub fn len(&self) -> (n: usize)
        ensures
            n == self@.len(),
    {
        self.entries.len()
    }

    /// Whether the journal has replaced `target`.
    pub fn contains(&self, target: &str) -> (b: bool)
        ensures
            b == journal_has(self@, target@),
    {
        let mut i: usize = 0;
        while i < self.entries.len()
            invariant
                i <= self@.len(),
                self@ == self.entries@.map_values(|r: Replacement| replacement_view(r)),
                forall|k: int| 0 <= k < i ==> (#[trigger] self@[k]).0 != target@,
            decreases self.entries@.len() - i,
        {
            if str_eq(self.entries[i].target.as_str(), target) {
                assert(self@[i as int].0 == target@);
                return true;
            }
            i += 1;
        }
        false
    }

    /// Plans the publish of the staged file of `target`; `target_exists`
    /// says whether a file is at `target` now.
    /// Whether publishing `target` would overwrite a file the rollback of
    /// the journal needs, or the reverse.
    pub fn collides_with(&self, target: &str) -> (b: bool)
        ensures
            b == collides(self@, target@),
    {
        let own_staging = staging_of(target);
        let own_backup = backup_of(target);
        let mut i: usize = 0;
        while i < self.entries.len()
            invariant
                i <= self@.len(),
                self@ == self.entries@.map_values(|r: Replacement| replacement_view(r)),
                own_staging@ == staging_path(target@),
                own_backup@ == backup_path(target@),
                forall|k: int|
                    0 <= k < i ==> separated(target@, (#[trigger] self@[k]).0) && separated(
                        self@[k].0,
                        target@,
                    ),
            decreases self.entries@.len() - i,
        {
            let t = self.entries[i].target.as_str();
            let staging = staging_of(t);
            let backup = backup_of(t);
            assert(self@[i as int].0 == t@);
            if str_eq(target, staging.as_str()) || str_eq(target, backup.as_str()) || str_eq(
                t,
                own_staging.as_str(),
            ) || str_eq(t, own_backup.as_str()) {
                assert(!(separated(target@, self@[i as int].0) && separated(self@[i as int].0, target@)));
                return true;
            }
            i += 1;
        }
        false
    }

    pub fn materialize_plan(&self, target: &str, target_exists: bool) -> (r: Result<
        MaterializePlan,
        ArchiveError,
    >)
        ensures
            collides(self@, target@) ==> r == Err::<MaterializePlan, ArchiveError>(
                ArchiveError::ConflictingPaths,
            ),
            !collides(self@, target@) ==> (r matches Ok(plan) && {
                &&& plan.target@ == target@
                &&& op_views(plan.steps@) == materialize_steps(self@, target@, target_exists)
                &&& op_views(plan.on_publish_failure@) == publish_failure_steps(
                    self@,
                    target@,
                    target_exists,
                )
                &&& match plan.record {
                    Some(rec) => materialized_entry(self@, target@, target_exists) == Some(
                        replacement_view(rec),
                    ),
                    None => materialized_entry(self@, target@, target_exists) is None,
                }
            }),
    {
        if self.collides_with(target) {
            return Err(ArchiveError::ConflictingPaths);
        }
        let mut steps: Vec<FsOp> = Vec::new();
        let mut on_failure: Vec<FsOp> = Vec::new();
        assert(op_views(steps@) =~= Seq::<FsOpView>::empty());
        assert(op_views(on_failure@) =~= Seq::<FsOpView>::empty());
        if self.contains(target) {
            push_op(&mut steps, remove_op(String::from_str(target)));
            push_op(
                &mut steps,
                FsOp::Rename { from: staging_of(target), to: String::from_str(target) },
            );
            push_op(&mut on_failure, remove_op(staging_of(target)));
            assert(op_views(steps@) =~= materialize_steps(self@, target@, target_exists));
            assert(op_views(on_failure@) =~= publish_failure_steps(
                self@,
                target@,
                target_exists,
            ));
            return Ok(MaterializePlan {
                target: String::from_str(target),
                steps,
                on_publish_failure: on_failure,
                record: None,
            });
        }
        push_op(&mut steps, remove_op(backup_of(target)));
        if target_exists {
            push_op(&mut steps, FsOp::Rename { from: String::from_str(target), to: backup_of(target) });
            push_op(
                &mut on_failure,
                FsOp::Rename { from: backup_of(target), to: String::from_str(target) },
            );
        }
        push_op(&mut steps, FsOp::Rename { from: staging_of(target), to: String::from_str(target) });
        push_op(&mut on_failure, remove_op(staging_of(target)));
        assert(op_views(steps@) =~= materialize_steps(self@, target@, target_exists));
        assert(op_views(on_failure@) =~= publish_failure_steps(self@, target@, target_exists));
        let previous = if target_exists {
            Some(backup_of(target))
        } else {
            None
        };
        Ok(
            MaterializePlan {
                target: String::from_str(target),
                steps,
                on_publish_failure: on_failure,
                record: Some(Replacement { target: String::from_str(target), previous }),
            },
        )
    }

    /// Records a publish whose steps all succeeded.
    pub fn record(&mut self, plan: MaterializePlan)
        requires
            match plan.record {
                Some(r) => !journal_has(old(self)@, r.target@) && !collides(old(self)@, r.target@),
                None => true,
            },
        ensures
            final(self)@ == match plan.record {
                Some(r) => old(self)@.push(replacement_view(r)),
                None => old(self)@,
            },
    {
        if let Some(r) = plan.record {
            let ghost rv = replacement_view(r);
            self.entries.push(r);
            assert(self@ =~= old(self)@.push(rv));
        }
    }

    /// The operations that roll the batch back.
    pub fn rollback_plan(&self) -> (ops: Vec<FsOp>)
        ensures
            op_views(ops@) == rollback_steps(self@),
    {
        let mut ops: Vec<FsOp> = Vec::new();
        let n = self.entries.len();
        let mut k: usize = n;
        assert(self@.take(n as int) =~= self@);
        assert(op_views(ops@) =~= Seq::<FsOpView>::empty());
        while k > 0
            invariant
                k <= n,
                n == self@.len(),
                self@ == self.entries@.map_values(|r: Replacement| replacement_view(r)),
                op_views(ops@) + rollback_steps(self@.take(k as int)) == rollback_steps(self@),
            decreases k,
        {
            let r = &self.entries[k - 1];
            let ghost e = replacement_view(*r);
            let ghost before = op_views(ops@);
            assert(self@[k - 1] == e);
            assert(self@.take(k as int).drop_last() =~= self@.take(k - 1));
            assert(self@.take(k as int).last() == e);
            push_op(&mut ops, remove_op(r.target.clone()));
            match &r.previous {
                Some(p) => {
                    push_op(
                        &mut ops,
                        FsOp::RestoreIfExists { from: p.clone(), to: r.target.clone() },
                    );
                },
                None => {},
            }
            push_op(&mut ops, remove_op(staging_of(r.target.as_str())));
            assert(op_views(ops@) =~= before + undo_steps(e));
            assert(op_views(ops@) + rollback_steps(self@.take(k - 1)) =~= before + (undo_steps(e)
                + rollback_steps(self@.take(k - 1))));
            k -= 1;
        }
        assert(self@.take(0) =~= Seq::<JournalEntry>::empty());
        assert(op_views(ops@) + Seq::<FsOpView>::empty() =~= op_views(ops@));
        ops
    }

    /// The operations that commit the batch.
    pub fn finalize_plan(&self) -> (ops: Vec<FsOp>)
        ensures
            op_views(ops@) == finalize_steps(self@),
    {
        let mut ops: Vec<FsOp> = Vec::new();
        let mut i: usize = 0;
        assert(op_views(ops@) =~= finalize_steps(self@.take(0)));
        while i < self.entries.len()
            invariant
                i <= self@.len(),
                self@ == self.entries@.map_values(|r: Replacement| replacement_view(r)),
                op_views(ops@) == finalize_steps(self@.take(i as int)),
            decreases self@.len() - i,
        {
            let r = &self.entries[i];
            assert(self@.take(i + 1).drop_last() =~= self@.take(i as int));
            assert(self@.take(i + 1).last() == replacement_view(*r));
            match &r.previous {
                Some(p) => {
                    push_op(&mut ops, remove_op(p.clone()));
                    assert(op_views(ops@) =~= finalize_steps(self@.take(i + 1)));
                },
                None => {
                    assert(op_views(ops@) =~= finalize_steps(self@.take(i + 1)));
                },
            }
            i += 1;
        }
        assert(self@.take(self@.len() as int) =~= self@);
        ops
    }
}

/// The operations that delete the staging files of `targets`.
pub fn discard_staged_archive_entries(targets: &Vec<String>) -> (ops: Vec<FsOp>)
    ensures
        op_views(ops@) == discard_steps(targets@.map_values(|t: String| t@)),
{
    let ghost names = targets@.map_values(|t: String| t@);
    let mut ops: Vec<FsOp> = Vec::new();
    let mut i: usize = 0;
    assert(op_views(ops@) =~= discard_steps(names.take(0)));
    while i < targets.len()
        invariant
            i <= targets@.len(),
            names == targets@.map_values(|t: String| t@),
            op_views(ops@) == discard_steps(names.take(i as int)),
        decreases targets@.len() - i,
    {
        assert(names.take(i + 1).drop_last() =~= names.take(i as int));
        assert(names.take(i + 1).last() == targets@[i as int]@);
        push_op(&mut ops, remove_op(staging_of(targets[i].as_str())));
        i += 1;
    }
    assert(names.take(names.len() as int) =~= names);
    ops
}

proof fn lemma_sibling_names(a: Seq<char>, b: Seq<char>)
    ensures
        staging_path(a) != backup_path(b),
        staging_path(a) == staging_path(b) ==> a == b,
        backup_path(a) == backup_path(b) ==> a == b,
        a != staging_path(a),
        a != backup_path(a),
{
    reveal_strlit(".installing");
    reveal_strlit(".installing.previous");
    assert(staging_path(a).last() == 'g');
    assert(backup_path(b).last() == 's');
    if staging_path(a) == staging_path(b) {
        assert(a =~= staging_path(a).subrange(0, a.len() as int));
        assert(b =~= staging_path(b).subrange(0, b.len() as int));
    }
    if backup_path(a) == backup_path(b) {
        assert(a =~= backup_path(a).subrange(0, a.len() as int));
        assert(b =~= backup_path(b).subrange(0, b.len() as int));
    }
}

/// Whether `t` is neither the staging file nor the backup of `u`.
pub open spec fn separated(t: Seq<char>, u: Seq<char>) -> bool {
    t != staging_path(u) && t != backup_path(u)
}

/// Whether `target` is the staging file or the backup of a target of the
/// journal, or one of them is the staging file or the backup of `target`:
/// publishing it would overwrite a file the rollback needs.
pub open spec fn collides(j: Seq<JournalEntry>, target: Seq<char>) -> bool {
    exists|k: int|
        0 <= k < j.len() && !(separated(target, (#[trigger] j[k]).0) && separated(j[k].0, target))
}

/// Whether `p` is a target of the journal, or its staging file or backup.
pub open spec fn touched_by(j: Seq<JournalEntry>, p: Seq<char>) -> bool {
    exists|k: int|
        0 <= k < j.len() && (p == (#[trigger] j[k]).0 || p == staging_path(j[k].0) || p
            == backup_path(j[k].0))
}

/// Whether `p` is the staging file or the backup of a target of the journal.
pub open spec fn scratch_of(j: Seq<JournalEntry>, p: Seq<char>) -> bool {
    exists|k: int|
        0 <= k < j.len() && (p == staging_path((#[trigger] j[k]).0) || p == backup_path(j[k].0))
}

/// The staging files and backups of the targets of the journal.
pub open spec fn scratch_files(j: Seq<JournalEntry>) -> Set<Seq<char>> {
    Set::new(|p: Seq<char>| scratch_of(j, p))
}

/// The backups the journal keeps.
pub open spec fn backup_files(j: Seq<JournalEntry>) -> Set<Seq<char>> {
    Set::new(
        |p: Seq<char>|
            exists|k: int| 0 <= k < j.len() && (#[trigger] j[k]).1 == Some(p),
    )
}

/// Whether `a` and `b` hold the same file at `p`, or both none.
pub open spec fn agree_at(a: Files, b: Files, p: Seq<char>) -> bool {
    a.dom().contains(p) == b.dom().contains(p) && (a.dom().contains(p) ==> a[p] == b[p])
}

/// Whether the journal `j` describes the extraction that turned `fs0` into
/// `fs`: its targets are distinct and none is the staging file or backup of
/// another; a target that had a file in `fs0` has that file as its backup,
/// one that had none has no backup; and every path the extraction did not
/// touch is as it was.
pub open spec fn journal_matches(j: Seq<JournalEntry>, fs0: Files, fs: Files) -> bool {
    &&& forall|k: int, l: int| 0 <= k < l < j.len() ==> (#[trigger] j[k]).0 != (#[trigger] j[l]).0
    &&& forall|k: int, l: int|
        0 <= k < j.len() && 0 <= l < j.len() ==> separated((#[trigger] j[k]).0, (#[trigger] j[l]).0)
    &&& forall|k: int|
        0 <= k < j.len() ==> (#[trigger] j[k]).1 == if fs0.dom().contains(j[k].0) {
            Some(backup_path(j[k].0))
        } else {
            None
        }
    &&& forall|k: int|
        0 <= k < j.len() ==> if fs0.dom().contains((#[trigger] j[k]).0) {
            fs.dom().contains(backup_path(j[k].0)) && fs[backup_path(j[k].0)] == fs0[j[k].0]
        } else {
            !fs.dom().contains(backup_path(j[k].0))
        }
    &&& forall|p: Seq<char>| !touched_by(j, p) ==> #[trigger] agree_at(fs, fs0, p)
}

proof fn lemma_apply_ops_concat(fs: Files, a: Seq<FsOpView>, b: Seq<FsOpView>)
    ensures
        apply_ops(fs, a + b) == match apply_ops(fs, a) {
            Some(f) => apply_ops(f, b),
            None => None,
        },
    decreases a.len(),
{
    if a.len() == 0 {
        assert(a + b =~= b);
    } else {
        assert((a + b)[0] == a[0]);
        assert((a + b).drop_first() =~= a.drop_first() + b);
        if let Some(next) = apply_op(fs, a[0]) {
            lemma_apply_ops_concat(next, a.drop_first(), b);
        }
    }
}

proof fn lemma_apply_ops_one(fs: Files, a: FsOpView)
    ensures
        apply_ops(fs, seq![a]) == apply_op(fs, a),
{
    reveal_with_fuel(apply_ops, 2);
    assert(seq![a].drop_first() =~= Seq::<FsOpView>::empty());
}

proof fn lemma_apply_ops_two(fs: Files, a: FsOpView, b: FsOpView)
    ensures
        apply_ops(fs, seq![a, b]) == match apply_op(fs, a) {
            Some(f) => apply_op(f, b),
            None => None,
        },
{
    assert(seq![a, b] =~= seq![a] + seq![b]);
    lemma_apply_ops_concat(fs, seq![a], seq![b]);
    lemma_apply_ops_one(fs, a);
    if let Some(f) = apply_op(fs, a) {
        lemma_apply_ops_one(f, b);
    }
}

proof fn lemma_apply_ops_three(fs: Files, a: FsOpView, b: FsOpView, c: FsOpView)
    ensures
        apply_ops(fs, seq![a, b, c]) == match apply_op(fs, a) {
            Some(f) => match apply_op(f, b) {
                Some(g) => apply_op(g, c),
                None => None,
            },
            None => None,
        },
{
    assert(seq![a, b, c] =~= seq![a] + seq![b, c]);
    lemma_apply_ops_concat(fs, seq![a], seq![b, c]);
    lemma_apply_ops_one(fs, a);
    if let Some(f) = apply_op(fs, a) {
        lemma_apply_ops_two(f, b, c);
    }
}

/// An extraction that has replaced nothing yet matches the empty journal.
pub proof fn empty_journal_matches(fs0: Files)
    ensures
        journal_matches(Seq::empty(), fs0, fs0),
{
}

/// Publishing a staged file keeps the journal describing the extraction:
/// starting from a state the journal describes, writing `data` to the
/// staging file of `target` and performing the publish steps always
/// succeeds, puts `data` at `target`, leaves no staging file behind, and the
/// journal with the publish recorded describes the new state. A target
/// replaced before keeps the backup of its original file. A target that
/// collides with the journal is refused by `materialize_plan`, so every
/// journal built from accepted plans describes its extraction.
pub proof fn publishing_keeps_the_journal(
    j: Seq<JournalEntry>,
    fs0: Files,
    fs: Files,
    target: Seq<char>,
    data: Seq<u8>,
)
    requires
        journal_matches(j, fs0, fs),
        !collides(j, target),
    ensures
        ({
            let staged = fs.insert(staging_path(target), data);
            let exists = staged.dom().contains(target);
            apply_ops(staged, materialize_steps(j, target, exists)) matches Some(done) && {
                &&& done.dom().contains(target)
                &&& done[target] == data
                &&& !done.dom().contains(staging_path(target))
                &&& journal_matches(journal_after(j, target, exists), fs0, done)
            }
        }),
{
    assert forall|k: int| 0 <= k < j.len() implies separated(target, (#[trigger] j[k]).0) && separated(
        j[k].0,
        target,
    ) by {
        if !(separated(target, j[k].0) && separated(j[k].0, target)) {
            assert(collides(j, target));
        }
    }
    let st = staging_path(target);
    let bk = backup_path(target);
    let staged = fs.insert(st, data);
    let exists = staged.dom().contains(target);
    lemma_sibling_names(target, target);
    assert forall|k: int| 0 <= k < j.len() implies {
        &&& backup_path((#[trigger] j[k]).0) != st
        &&& backup_path(j[k].0) != target
        &&& staging_path(j[k].0) != target
    } by {
        lemma_sibling_names(target, j[k].0);
    }
    if journal_has(j, target) {
        let k0 = choose|k: int| 0 <= k < j.len() && (#[trigger] j[k]).0 == target;
        lemma_apply_ops_two(staged, FsOpView::RemoveIfExists(target), FsOpView::Rename(st, target));
        let done = staged.remove(target).remove(st).insert(target, data);
        assert(apply_ops(staged, materialize_steps(j, target, exists)) == Some(done));
        assert forall|k: int| 0 <= k < j.len() implies if fs0.dom().contains((#[trigger] j[k]).0) {
            done.dom().contains(backup_path(j[k].0)) && done[backup_path(j[k].0)] == fs0[j[k].0]
        } else {
            !done.dom().contains(backup_path(j[k].0))
        } by {
            lemma_sibling_names(target, j[k].0);
        }
        assert forall|p: Seq<char>| !touched_by(j, p) implies #[trigger] agree_at(done, fs0, p) by {
            if p == target || p == st {
                assert(touched_by(j, p)) by {
                    assert(j[k0].0 == target);
                }
            } else {
                assert(agree_at(fs, fs0, p));
            }
        }
    } else {
        let e = (
            target,
            if exists {
                Some(bk)
            } else {
                None
            },
        );
        let j2 = j.push(e);
        assert(exists == fs0.dom().contains(target)) by {
            if !touched_by(j, target) {
                assert(agree_at(fs, fs0, target));
            } else {
                let k = choose|k: int|
                    0 <= k < j.len() && (target == (#[trigger] j[k]).0 || target == staging_path(
                        j[k].0,
                    ) || target == backup_path(j[k].0));
            }
        }
        let done = if exists {
            lemma_apply_ops_three(
                staged,
                FsOpView::RemoveIfExists(bk),
                FsOpView::Rename(target, bk),
                FsOpView::Rename(st, target),
            );
            let a = staged.remove(bk);
            let b = a.remove(target).insert(bk, a[target]);
            b.remove(st).insert(target, b[st])
        } else {
            lemma_apply_ops_two(staged, FsOpView::RemoveIfExists(bk), FsOpView::Rename(st, target));
            let a = staged.remove(bk);
            a.remove(st).insert(target, a[st])
        };
        assert(apply_ops(staged, materialize_steps(j, target, exists)) == Some(done));
        assert(done[target] == data);
        assert(!done.dom().contains(st));
        assert(journal_after(j, target, exists) == j2);
        assert forall|k: int, l: int| 0 <= k < l < j2.len() implies (#[trigger] j2[k]).0 != (
        #[trigger] j2[l]).0 by {
            if l == j.len() {
                assert(!journal_has(j, target));
                assert(j2[k] == j[k]);
            } else {
                assert(j2[k] == j[k] && j2[l] == j[l]);
            }
        }
        assert forall|k: int, l: int| 0 <= k < j2.len() && 0 <= l < j2.len() implies separated(
            (#[trigger] j2[k]).0,
            (#[trigger] j2[l]).0,
        ) by {
            if k < j.len() {
                assert(j2[k] == j[k]);
            }
            if l < j.len() {
                assert(j2[l] == j[l]);
            }
        }
        assert forall|k: int| 0 <= k < j2.len() implies (#[trigger] j2[k]).1 == if fs0.dom().contains(
            j2[k].0,
        ) {
            Some(backup_path(j2[k].0))
        } else {
            None
        } by {
            if k < j.len() {
                assert(j2[k] == j[k]);
            }
        }
        assert forall|k: int| 0 <= k < j2.len() implies if fs0.dom().contains(
            (#[trigger] j2[k]).0,
        ) {
            done.dom().contains(backup_path(j2[k].0)) && done[backup_path(j2[k].0)] == fs0[j2[k].0]
        } else {
            !done.dom().contains(backup_path(j2[k].0))
        } by {
            if k < j.len() {
                assert(j2[k] == j[k]);
                lemma_sibling_names(target, j[k].0);
                lemma_sibling_names(j[k].0, target);
            } else {
                if exists {
                    assert(!touched_by(j, target));
                    assert(agree_at(fs, fs0, target));
                }
            }
        }
        assert forall|p: Seq<char>| !touched_by(j2, p) implies #[trigger] agree_at(done, fs0, p) by {
            assert(j2[j.len() as int] == e);
            if touched_by(j, p) {
                let k = choose|k: int|
                    0 <= k < j.len() && (p == (#[trigger] j[k]).0 || p == staging_path(j[k].0) || p
                        == backup_path(j[k].0));
                assert(j2[k] == j[k]);
            }
            assert(agree_at(fs, fs0, p));
        }
    }
}

/// Rolling back restores every file the extraction replaced: from a state
/// the journal describes, the rollback operations always succeed and leave
/// exactly the original files, without the staging files and backups of the
/// replaced targets.
pub proof fn rollback_restores_original_files(j: Seq<JournalEntry>, fs0: Files, fs: Files)
    requires
        journal_matches(j, fs0, fs),
    ensures
        apply_ops(fs, rollback_steps(j)) == Some(fs0.remove_keys(scratch_files(j))),
    decreases j.len(),
{
    if j.len() == 0 {
        assert forall|p: Seq<char>| #[trigger] fs.dom().contains(p) <==> fs0.dom().contains(p) by {
            assert(agree_at(fs, fs0, p));
        }
        assert forall|p: Seq<char>| fs.dom().contains(p) implies #[trigger] fs[p] == fs0[p] by {
            assert(agree_at(fs, fs0, p));
        }
        assert(fs =~= fs0);
        assert(scratch_files(j) =~= Set::<Seq<char>>::empty());
        assert(fs0.remove_keys(scratch_files(j)) =~= fs0);
    } else {
        let n = j.len() - 1;
        let e = j.last();
        let t = e.0;
        let st = staging_path(t);
        let bk = backup_path(t);
        let rest = j.drop_last();
        assert(e == j[n]);
        lemma_sibling_names(t, t);
        let after_remove = fs.remove(t);
        let after_restore = match e.1 {
            Some(p) => if after_remove.dom().contains(p) {
                after_remove.remove(p).insert(t, after_remove[p])
            } else {
                after_remove
            },
            None => after_remove,
        };
        let undone = after_restore.remove(st);
        if let Some(p) = e.1 {
            assert(undo_steps(e) =~= seq![
                FsOpView::RemoveIfExists(t),
                FsOpView::RestoreIfExists(p, t),
                FsOpView::RemoveIfExists(st),
            ]);
            lemma_apply_ops_three(
                fs,
                FsOpView::RemoveIfExists(t),
                FsOpView::RestoreIfExists(p, t),
                FsOpView::RemoveIfExists(st),
            );
        } else {
            assert(undo_steps(e) =~= seq![FsOpView::RemoveIfExists(t), FsOpView::RemoveIfExists(st)]);
            lemma_apply_ops_two(fs, FsOpView::RemoveIfExists(t), FsOpView::RemoveIfExists(st));
        }
        assert(apply_ops(fs, undo_steps(e)) == Some(undone));
        lemma_apply_ops_concat(fs, undo_steps(e), rollback_steps(rest));
        let fs0r = fs0.remove(st).remove(bk);
        // The remaining journal describes the state after undoing `e`,
        // relative to the original files without `e`'s scratch files.
        assert forall|k: int| 0 <= k < rest.len() implies {
            &&& (#[trigger] rest[k]) == j[k]
            &&& rest[k].0 != t
            &&& rest[k].0 != st
            &&& rest[k].0 != bk
            &&& backup_path(rest[k].0) != t
            &&& backup_path(rest[k].0) != st
            &&& backup_path(rest[k].0) != bk
        } by {
            assert(rest[k] == j[k]);
            assert(separated(j[k].0, j[n].0));
            assert(separated(j[n].0, j[k].0));
            lemma_sibling_names(t, j[k].0);
            lemma_sibling_names(j[k].0, t);
        }
        assert(journal_matches(rest, fs0r, undone)) by {
            assert forall|k: int, l: int| 0 <= k < l < rest.len() implies (#[trigger] rest[k]).0 != (
            #[trigger] rest[l]).0 by {
                assert(rest[k] == j[k] && rest[l] == j[l]);
            }
            assert forall|k: int, l: int| 0 <= k < rest.len() && 0 <= l < rest.len() implies separated(
                (#[trigger] rest[k]).0,
                (#[trigger] rest[l]).0,
            ) by {
                assert(rest[k] == j[k] && rest[l] == j[l]);
            }
            assert forall|k: int| 0 <= k < rest.len() implies (#[trigger] rest[k]).1 == if fs0r.dom().contains(
                rest[k].0,
            ) {
                Some(backup_path(rest[k].0))
            } else {
                None
            } by {
                assert(rest[k] == j[k]);
            }
            assert forall|k: int| 0 <= k < rest.len() implies if fs0r.dom().contains(
                (#[trigger] rest[k]).0,
            ) {
                undone.dom().contains(backup_path(rest[k].0)) && undone[backup_path(rest[k].0)]
                    == fs0r[rest[k].0]
            } else {
                !undone.dom().contains(backup_path(rest[k].0))
            } by {
                assert(rest[k] == j[k]);
            }
            assert forall|p: Seq<char>| !touched_by(rest, p) implies #[trigger] agree_at(
                undone,
                fs0r,
                p,
            ) by {
                if p == t {
                    if fs0.dom().contains(t) {
                        assert(fs.dom().contains(bk) && fs[bk] == fs0[t]);
                    }
                } else if p == st {
                } else if p == bk {
                } else {
                    if touched_by(j, p) {
                        let k = choose|k: int|
                            0 <= k < j.len() && (p == (#[trigger] j[k]).0 || p == staging_path(
                                j[k].0,
                            ) || p == backup_path(j[k].0));
                        if k < n {
                            assert(rest[k] == j[k]);
                            assert(touched_by(rest, p));
                        }
                    }
                    assert(agree_at(fs, fs0, p));
                }
            }
        }
        rollback_restores_original_files(rest, fs0r, undone);
        assert(fs0r.remove_keys(scratch_files(rest)) =~= fs0.remove_keys(scratch_files(j))) by {
            assert forall|p: Seq<char>| #[trigger] scratch_files(j).contains(p) <==> (
            scratch_files(rest).contains(p) || p == st || p == bk) by {
                if scratch_files(j).contains(p) {
                    let k = choose|k: int|
                        0 <= k < j.len() && (p == staging_path((#[trigger] j[k]).0) || p
                            == backup_path(j[k].0));
                    if k < n {
                        assert(rest[k] == j[k]);
                    }
                }
                if scratch_files(rest).contains(p) {
                    let k = choose|k: int|
                        0 <= k < rest.len() && (p == staging_path((#[trigger] rest[k]).0) || p
                            == backup_path(rest[k].0));
                    assert(rest[k] == j[k]);
                }
                if p == st || p == bk {
                    assert(j[n].0 == t);
                }
            }
        }
    }
}

/// Committing deletes exactly the backups: from a state the journal
/// describes, the finalize operations always succeed and leave every other
/// file, the newly extracted ones included, as it is.
pub proof fn finalize_deletes_only_backups(j: Seq<JournalEntry>, fs: Files)
    ensures
        apply_ops(fs, finalize_steps(j)) == Some(fs.remove_keys(backup_files(j))),
    decreases j.len(),
{
    if j.len() == 0 {
        assert(backup_files(j) =~= Set::<Seq<char>>::empty());
        assert(fs.remove_keys(backup_files(j)) =~= fs);
    } else {
        let rest = j.drop_last();
        finalize_deletes_only_backups(rest, fs);
        let mid = fs.remove_keys(backup_files(rest));
        let tail = match j.last().1 {
            Some(p) => seq![FsOpView::RemoveIfExists(p)],
            None => Seq::<FsOpView>::empty(),
        };
        lemma_apply_ops_concat(fs, finalize_steps(rest), tail);
        assert forall|p: Seq<char>| #[trigger] backup_files(j).contains(p) <==> (backup_files(
            rest,
        ).contains(p) || j.last().1 == Some(p)) by {
            if backup_files(j).contains(p) {
                let k = choose|k: int| 0 <= k < j.len() && (#[trigger] j[k]).1 == Some(p);
                if k < j.len() - 1 {
                    assert(rest[k] == j[k]);
                }
            }
            if backup_files(rest).contains(p) {
                let k = choose|k: int| 0 <= k < rest.len() && (#[trigger] rest[k]).1 == Some(p);
                assert(rest[k] == j[k]);
            }
            if j.last().1 == Some(p) {
                assert(j[j.len() - 1].1 == Some(p));
            }
        }
        if let Some(p) = j.last().1 {
            lemma_apply_ops_one(mid, FsOpView::RemoveIfExists(p));
            assert(mid.remove(p) =~= fs.remove_keys(backup_files(j)));
        } else {
            assert(mid =~= fs.remove_keys(backup_files(j)));
        }
    }
}

} // verus!
