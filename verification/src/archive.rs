//! Extraction of modpack archives: which entries are written where, and the
//! bookkeeping that lets a batch of replaced files be rolled back or
//! committed as one.

use vstd::prelude::*;
use vstd::utf8::{valid_utf8, decode_utf8};
use crate::text::{push_char, str_chars, has_prefix, starts_with, append_chars};

verus! {

/// Most bytes a modpack archive may unpack to.
pub const EXTRACTION_SIZE_LIMIT: u64 = 8589934592;

/// Why an archive extraction stops.
#[derive(Clone, Copy, Debug, PartialEq, Eq, Structural)]
pub enum ArchiveError {
    InvalidPath,
    SizeLimitExceeded,
    Canceled,
    ConflictingPaths,
}

/// The message shown for an archive error.
pub open spec fn archive_error_text(e: ArchiveError) -> Seq<char> {
    match e {
        ArchiveError::InvalidPath => "Modpack archive contains an invalid file path"@,
        ArchiveError::SizeLimitExceeded => "Modpack archive contents exceed the extraction limit"@,
        ArchiveError::Canceled => "Install was canceled"@,
        ArchiveError::ConflictingPaths => "Modpack archive contains conflicting file paths"@,
    }
}

impl ArchiveError {
    /// The message shown for this error.
    pub fn message(&self) -> (m: String)
        ensures
            m@ == archive_error_text(*self),
    {
        match self {
            ArchiveError::InvalidPath => String::from_str(
                "Modpack archive contains an invalid file path",
            ),
            ArchiveError::SizeLimitExceeded => String::from_str(
                "Modpack archive contents exceed the extraction limit",
            ),
            ArchiveError::Canceled => String::from_str("Install was canceled"),
            ArchiveError::ConflictingPaths => String::from_str(
                "Modpack archive contains conflicting file paths",
            ),
        }
    }
}

/// A path separator once a path is normalized: a slash or a backslash.
pub open spec fn is_separator(c: char) -> bool {
    c == '/' || c == '\\'
}

/// The path convention of the platform an archive is extracted on.
#[derive(Clone, Copy, Debug, PartialEq, Eq, Structural)]
pub enum PathStyle {
    Unix,
    Windows,
}

/// A path separator of the platform: a slash, and under Windows a
/// backslash too.
pub open spec fn separates(c: char, style: PathStyle) -> bool {
    c == '/' || (style == PathStyle::Windows && c == '\\')
}

/// Whether a `..` component of the platform starts at position `i`.
pub open spec fn parent_at(s: Seq<char>, i: int, style: PathStyle) -> bool {
    &&& 0 <= i && i + 1 < s.len()
    &&& s[i] == '.' && s[i + 1] == '.'
    &&& (i == 0 || separates(s[i - 1], style))
    &&& (i + 2 == s.len() || separates(s[i + 2], style))
}

/// Whether `s` begins with a `.` component of the platform.
pub open spec fn starts_with_current_dir(s: Seq<char>, style: PathStyle) -> bool {
    s.len() > 0 && s[0] == '.' && (s.len() == 1 || separates(s[1], style))
}

/// Whether `s` begins with a drive prefix such as `C:`.
pub open spec fn has_drive_prefix(s: Seq<char>) -> bool {
    s.len() >= 2 && (('a' <= s[0] && s[0] <= 'z') || ('A' <= s[0] && s[0] <= 'Z')) && s[1] == ':'
}

/// How a component of a normalized path moves the depth below the
/// extraction directory: `..` goes up, an empty or `.` component stays,
/// any other goes down.
pub open spec fn component_step(c: Seq<char>) -> int {
    if c.len() == 2 && c[0] == '.' && c[1] == '.' {
        -1
    } else if c.len() == 0 || (c.len() == 1 && c[0] == '.') {
        0
    } else {
        1
    }
}

/// Whether the components of `s`, split at both separators, climb above the
/// extraction directory from position `i`, at `depth` below it, with the
/// current component starting at `start`.
pub open spec fn climbs_from(s: Seq<char>, i: int, depth: int, start: int) -> bool
    decreases s.len() - i,
{
    if i >= s.len() {
        depth + component_step(s.subrange(start, s.len() as int)) < 0
    } else if is_separator(s[i]) {
        let d = depth + component_step(s.subrange(start, i));
        d < 0 || climbs_from(s, i + 1, d, i + 1)
    } else {
        climbs_from(s, i + 1, depth, start)
    }
}

/// Whether `s`, with its backslashes taken as separators, climbs above the
/// extraction directory.
pub open spec fn climbs_out(s: Seq<char>) -> bool {
    climbs_from(s, 0, 0, 0)
}

/// Whether an archive path is accepted on the platform: it is not empty, it
/// has only normal components under the platform's separators (no leading
/// `.`, no `..`), and under Windows no drive prefix. Since every backslash
/// becomes a slash once accepted, the path may neither start with a slash
/// or a backslash nor climb above the extraction directory once its
/// backslashes are separators, so an accepted file lands below that
/// directory on every platform.
pub open spec fn is_safe_relative_path(s: Seq<char>, style: PathStyle) -> bool {
    &&& s.len() > 0
    &&& !is_separator(s[0])
    &&& (style == PathStyle::Windows ==> !has_drive_prefix(s))
    &&& !starts_with_current_dir(s, style)
    &&& !(exists|i: int| parent_at(s, i, style))
    &&& !climbs_out(s)
}

/// `s` with every backslash turned into a slash.
pub open spec fn forward_slashes(s: Seq<char>) -> Seq<char> {
    s.map_values(|c: char| if c == '\\' { '/' } else { c })
}

fn component_kind(chars: &Vec<char>, start: usize, end: usize) -> (k: i8)
    requires
        start <= end <= chars@.len(),
    ensures
        k as int == component_step(chars@.subrange(start as int, end as int)),
{
    let len = end - start;
    if len == 2 && chars[start] == '.' && chars[start + 1] == '.' {
        -1
    } else if len == 0 || (len == 1 && chars[start] == '.') {
        0
    } else {
        1
    }
}

fn climbs_out_exec(chars: &Vec<char>) -> (b: bool)
    ensures
        b == climbs_out(chars@),
{
    let n = chars.len();
    let mut i: usize = 0;
    let mut depth: usize = 0;
    let mut start: usize = 0;
    while i < n
        invariant
            n == chars@.len(),
            start <= i <= n,
            depth <= i,
            climbs_out(chars@) == climbs_from(chars@, i as int, depth as int, start as int),
        decreases n - i,
    {
        if chars[i] == '/' || chars[i] == '\\' {
            let k = component_kind(chars, start, i);
            if k < 0 {
                if depth == 0 {
                    return true;
                }
                depth -= 1;
            } else if k > 0 {
                depth += 1;
            }
            start = i + 1;
        }
        i += 1;
    }
    let k = component_kind(chars, start, n);
    k < 0 && depth == 0
}

/// Checks an archive path and normalizes its separators to slashes.
pub fn safe_relative_path(value: &str, style: PathStyle) -> (r: Result<String, ArchiveError>)
    ensures
        match r {
            Ok(path) => is_safe_relative_path(value@, style) && path@ == forward_slashes(value@),
            Err(e) => !is_safe_relative_path(value@, style) && e == ArchiveError::InvalidPath,
        },
{
    let chars = str_chars(value);
    let n = chars.len();
    let windows = style == PathStyle::Windows;
    if n == 0 {
        return Err(ArchiveError::InvalidPath);
    }
    let c0 = chars[0];
    if c0 == '/' || c0 == '\\' {
        return Err(ArchiveError::InvalidPath);
    }
    if windows && n >= 2 && (('a' <= c0 && c0 <= 'z') || ('A' <= c0 && c0 <= 'Z')) && chars[1]
        == ':' {
        return Err(ArchiveError::InvalidPath);
    }
    if c0 == '.' && (n == 1 || chars[1] == '/' || (windows && chars[1] == '\\')) {
        return Err(ArchiveError::InvalidPath);
    }
    let mut i: usize = 0;
    while i + 1 < n
        invariant
            chars@ == value@,
            n == chars@.len(),
            windows == (style == PathStyle::Windows),
            i < n,
            forall|j: int| 0 <= j < i ==> !parent_at(value@, j, style),
        decreases n - i,
    {
        if chars[i] == '.' && chars[i + 1] == '.' && (i == 0 || chars[i - 1] == '/' || (windows
            && chars[i - 1] == '\\')) && (i + 2 == n || chars[i + 2] == '/' || (windows && chars[i
            + 2] == '\\')) {
            assert(parent_at(value@, i as int, style));
            return Err(ArchiveError::InvalidPath);
        }
        i += 1;
    }
    assert forall|j: int| !parent_at(value@, j, style) by {
        if 0 <= j && j + 1 < n {
            assert(j < i);
        }
    }
    if climbs_out_exec(&chars) {
        return Err(ArchiveError::InvalidPath);
    }
    let mut path = String::new();
    let mut k: usize = 0;
    while k < n
        invariant
            chars@ == value@,
            n == chars@.len(),
            k <= n,
            path@ == forward_slashes(value@).take(k as int),
        decreases n - k,
    {
        let c = chars[k];
        push_char(&mut path, if c == '\\' { '/' } else { c });
        assert(forward_slashes(value@).take(k + 1) =~= forward_slashes(value@).take(k as int).push(
            if c == '\\' { '/' } else { c },
        ));
        k += 1;
    }
    assert(forward_slashes(value@).take(n as int) =~= forward_slashes(value@));
    Ok(path)
}

/// Whether a `..` component between slashes starts at position `i`.
pub open spec fn slash_parent_at(f: Seq<char>, i: int) -> bool {
    &&& 0 <= i && i + 1 < f.len()
    &&& f[i] == '.' && f[i + 1] == '.'
    &&& (i == 0 || f[i - 1] == '/')
    &&& (i + 2 == f.len() || f[i + 2] == '/')
}

proof fn lemma_climbs_normalized(s: Seq<char>, i: int, depth: int, start: int)
    requires
        0 <= start <= i <= s.len(),
    ensures
        climbs_from(forward_slashes(s), i, depth, start) == climbs_from(s, i, depth, start),
    decreases s.len() - i,
{
    let f = forward_slashes(s);
    assert forall|a: int, b: int| 0 <= a <= b <= s.len() implies component_step(f.subrange(a, b))
        == component_step(s.subrange(a, b)) by {
        let x = f.subrange(a, b);
        let y = s.subrange(a, b);
        assert(x.len() == y.len());
        if x.len() >= 1 {
            assert(x[0] == f[a] && y[0] == s[a]);
        }
        if x.len() == 2 {
            assert(x[1] == f[a + 1] && y[1] == s[a + 1]);
        }
    }
    if i < s.len() {
        assert(is_separator(f[i]) == is_separator(s[i]));
        let d = depth + component_step(s.subrange(start, i));
        lemma_climbs_normalized(s, i + 1, d, i + 1);
        lemma_climbs_normalized(s, i + 1, depth, start);
    }
}

/// An accepted archive path, once its separators are slashes, is not empty,
/// does not start at the root and never climbs above the extraction
/// directory: joined to that directory, it stays inside it. Under the
/// Windows convention it has no `..` component at all.
pub proof fn accepted_paths_stay_inside(s: Seq<char>, style: PathStyle)
    requires
        is_safe_relative_path(s, style),
    ensures
        forward_slashes(s).len() > 0,
        forward_slashes(s)[0] != '/',
        !climbs_out(forward_slashes(s)),
        style == PathStyle::Windows ==> forall|i: int| !#[trigger] slash_parent_at(forward_slashes(s), i),
{
    let f = forward_slashes(s);
    lemma_climbs_normalized(s, 0, 0, 0);
    if style == PathStyle::Windows {
        assert forall|i: int| !#[trigger] slash_parent_at(f, i) by {
            if slash_parent_at(f, i) {
                assert(f[i] == s[i] || s[i] == '\\');
                assert(parent_at(s, i, style));
            }
        }
    }
}

/// The path of a file next to `path`: `path` followed by `suffix`.
pub fn sibling_path(path: &str, suffix: &str) -> (sibling: String)
    ensures
        sibling@ == path@ + suffix@,
{
    let mut sibling = String::from_str(path);
    sibling.append(suffix);
    sibling
}

/// What extraction does with one archive entry.
#[derive(Debug)]
pub enum EntryDecision {
    /// A directory, an entry outside the extracted folder, or the folder itself.
    Skip,
    /// Write the entry to `relative` below the target directory; `total_size`
    /// counts the bytes of the extracted entries so far.
    Extract { relative: String, total_size: u64 },
}

/// The extracted size after adding an entry of `size` bytes, saturating.
pub open spec fn added_size(total: u64, size: u64) -> u64 {
    if total + size > u64::MAX {
        u64::MAX
    } else {
        (total + size) as u64
    }
}

/// Decides what to do with the archive entry `name` when extracting the
/// folder `prefix`, with `total_so_far` bytes extracted before it, under the
/// path convention `style`.
pub fn plan_archive_entry(
    prefix: &str,
    name: &str,
    is_dir: bool,
    size: u64,
    total_so_far: u64,
    style: PathStyle,
) -> (r: Result<EntryDecision, ArchiveError>)
    ensures
        (is_dir || !has_prefix(name@, prefix@) || name@.len() == prefix@.len()) ==> r matches Ok(
            EntryDecision::Skip,
        ),
        !(is_dir || !has_prefix(name@, prefix@) || name@.len() == prefix@.len()) ==> {
            let relative = name@.skip(prefix@.len() as int);
            let total = added_size(total_so_far, size);
            if total > EXTRACTION_SIZE_LIMIT {
                r == Err::<EntryDecision, ArchiveError>(ArchiveError::SizeLimitExceeded)
            } else if !is_safe_relative_path(relative, style) {
                r == Err::<EntryDecision, ArchiveError>(ArchiveError::InvalidPath)
            } else {
                r matches Ok(EntryDecision::Extract { relative: p, total_size: t }) && p@
                    == forward_slashes(relative) && t == total
            }
        },
{
    if is_dir || !starts_with(name, prefix) {
        return Ok(EntryDecision::Skip);
    }
    let name_chars = str_chars(name);
    let start = prefix.unicode_len();
    if start == name_chars.len() {
        return Ok(EntryDecision::Skip);
    }
    let total = total_so_far.saturating_add(size);
    if total > EXTRACTION_SIZE_LIMIT {
        return Err(ArchiveError::SizeLimitExceeded);
    }
    let mut relative = String::new();
    append_chars(&mut relative, &name_chars, start, name_chars.len());
    assert(relative@ =~= name@.skip(start as int));
    match safe_relative_path(relative.as_str(), style) {
        Ok(path) => Ok(EntryDecision::Extract { relative: path, total_size: total }),
        Err(e) => Err(e),
    }
}

/// The result of a cancellation check that saw `cancelled`.
pub fn cancellation_result(cancelled: bool) -> (r: Result<(), ArchiveError>)
    ensures
        r == if cancelled {
            Err(ArchiveError::Canceled)
        } else {
            Ok::<(), ArchiveError>(())
        },
{
    if cancelled {
        Err(ArchiveError::Canceled)
    } else {
        Ok(())
    }
}

#[verifier::external_type_specification]
#[verifier::external_body]
pub struct ExCancellationToken(tokio_util::sync::CancellationToken);

/// `CancellationToken::is_cancelled`. Another thread may cancel the token at
/// any time, so nothing is stated of the answer.
#[verifier::external_body]
fn token_is_cancelled(token: &tokio_util::sync::CancellationToken) -> bool {
    token.is_cancelled()
}

/// Stops an extraction once its install has been canceled. Without a token
/// the extraction cannot be canceled.
pub fn check_cancellation(cancellation: Option<&tokio_util::sync::CancellationToken>) -> (r: Result<
    (),
    ArchiveError,
>)
    ensures
        cancellation is None ==> r is Ok,
        r is Err ==> r == Err::<(), ArchiveError>(ArchiveError::Canceled),
{
    match cancellation {
        None => Ok(()),
        Some(token) => cancellation_result(token_is_cancelled(token)),
    }
}

/// The text GB18030 decoding (with BOM sniffing) gives for `bytes`.
pub uninterp spec fn gb18030_decoded(bytes: Seq<u8>) -> Seq<char>;

/// `encoding_rs::GB18030.decode`: decodes `bytes` as GB18030, unless a byte
/// order mark names another encoding; malformed sequences become U+FFFD.
/// The result is named, not stated.
#[verifier::external_body]
fn decode_gb18030(bytes: &[u8]) -> (text: String)
    ensures
        text@ == gb18030_decoded(bytes@),
{
    let (decoded, _, _) = encoding_rs::GB18030.decode(bytes);
    decoded.into_owned()
}

/// `String::from_utf8`: the text of `bytes` if they are valid UTF-8, else the
/// bytes back.
#[verifier::external_body]
fn utf8_string(bytes: Vec<u8>) -> (r: Result<String, Vec<u8>>)
    ensures
        match r {
            Ok(s) => valid_utf8(bytes@) && s@ == decode_utf8(bytes@),
            Err(b) => !valid_utf8(bytes@) && b@ == bytes@,
        },
{
    String::from_utf8(bytes).map_err(|error| error.into_bytes())
}

/// The text of an archive entry: UTF-8 where the bytes are valid UTF-8,
/// otherwise GB18030, as produced by Chinese packaging tools.
pub fn decode_entry_text(bytes: Vec<u8>) -> (text: String)
    ensures
        text@ == if valid_utf8(bytes@) {
            decode_utf8(bytes@)
        } else {
            gb18030_decoded(bytes@)
        },
{
    match utf8_string(bytes) {
        Ok(text) => text,
        Err(bytes) => decode_gb18030(bytes.as_slice()),
    }
}

} // verus!
