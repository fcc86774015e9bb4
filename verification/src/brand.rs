//! Product identity strings: the HTTP user agent and the name of the data
//! directory.

use vstd::prelude::*;
use crate::text::{push_char, str_chars, append_chars, has_prefix};

verus! {

/// The name of the product shown to users.
pub const PRODUCT_NAME: &'static str = "Axolotl Launcher";

/// The short name of the product.
pub const SHORT_PRODUCT_NAME: &'static str = "Axolotl";

/// The product's website.
pub const WEBSITE: &'static str = "https://www.ghs.red";

/// The bundle identifier, also the default name of the data directory.
pub const BUNDLE_IDENTIFIER: &'static str = "red.ghs.axolotl";

/// The URL scheme of the launcher's deep links.
pub const DEEP_LINK_SCHEME: &'static str = "axolotl";

/// Longest accepted data directory suffix; enough to name a branch or a build.
pub const MAX_DATA_DIR_SUFFIX_LEN: usize = 32;

/// The user agent sent with every request of the launcher.
pub open spec fn user_agent_text(version: Seq<char>, os: Seq<char>) -> Seq<char> {
    "garbage-human-studio/axolotl/"@ + version + " ("@ + os + ")"@
}

/// Builds the user agent `garbage-human-studio/axolotl/{version} ({os})`.
pub fn user_agent(version: &str, os: &str) -> (agent: String)
    ensures
        agent@ == user_agent_text(version@, os@),
{
    let mut agent = String::from_str("garbage-human-studio/axolotl/");
    agent.append(version);
    agent.append(" (");
    agent.append(os);
    agent.append(")");
    agent
}

/// Characters that may appear in a data directory suffix.
pub open spec fn is_suffix_char(c: char) -> bool {
    ||| ('a' <= c && c <= 'z')
    ||| ('A' <= c && c <= 'Z')
    ||| ('0' <= c && c <= '9')
    ||| c == '-'
    ||| c == '_'
    ||| c == '.'
}

/// Characters trimmed from both ends of a suffix.
pub open spec fn is_edge_char(c: char) -> bool {
    c == '.' || c == '-'
}

/// The characters of `s` that may appear in a suffix, in order.
pub open spec fn kept_chars(s: Seq<char>) -> Seq<char>
    decreases s.len(),
{
    if s.len() == 0 {
        seq![]
    } else if is_suffix_char(s.last()) {
        kept_chars(s.drop_last()).push(s.last())
    } else {
        kept_chars(s.drop_last())
    }
}

/// The first `MAX_DATA_DIR_SUFFIX_LEN` characters of `s`.
pub open spec fn bounded(s: Seq<char>) -> Seq<char> {
    if s.len() <= MAX_DATA_DIR_SUFFIX_LEN {
        s
    } else {
        s.take(MAX_DATA_DIR_SUFFIX_LEN as int)
    }
}

/// `s` without its leading dots and dashes.
pub open spec fn trim_start(s: Seq<char>) -> Seq<char>
    decreases s.len(),
{
    if s.len() > 0 && is_edge_char(s[0]) {
        trim_start(s.drop_first())
    } else {
        s
    }
}

/// `s` without its trailing dots and dashes.
pub open spec fn trim_end(s: Seq<char>) -> Seq<char>
    decreases s.len(),
{
    if s.len() > 0 && is_edge_char(s.last()) {
        trim_end(s.drop_last())
    } else {
        s
    }
}

/// The part of a requested suffix that is kept: its allowed characters, at
/// most `MAX_DATA_DIR_SUFFIX_LEN` of them, without dots and dashes at either end.
pub open spec fn sanitized_suffix(s: Seq<char>) -> Seq<char> {
    trim_end(trim_start(bounded(kept_chars(s))))
}

/// The data directory name for `base` and an optional suffix.
pub open spec fn data_dir_identifier_text(base: Seq<char>, suffix: Option<Seq<char>>) -> Seq<char> {
    match suffix {
        None => base,
        Some(s) => {
            let t = sanitized_suffix(s);
            if t.len() == 0 {
                base
            } else {
                base + seq!['-'] + t
            }
        },
    }
}

/// The view of an optional string slice.
pub open spec fn option_str_view(o: Option<&str>) -> Option<Seq<char>> {
    match o {
        None => None,
        Some(s) => Some(s@),
    }
}

fn is_suffix_char_exec(c: char) -> (b: bool)
    ensures
        b == is_suffix_char(c),
{
    ('a' <= c && c <= 'z') || ('A' <= c && c <= 'Z') || ('0' <= c && c <= '9') || c == '-' || c
        == '_' || c == '.'
}

fn is_edge_char_exec(c: char) -> (b: bool)
    ensures
        b == is_edge_char(c),
{
    c == '.' || c == '-'
}

proof fn lemma_kept_chars_push(s: Seq<char>, c: char)
    ensures
        kept_chars(s.push(c)) == if is_suffix_char(c) {
            kept_chars(s).push(c)
        } else {
            kept_chars(s)
        },
{
    assert(s.push(c).drop_last() =~= s);
}

proof fn lemma_trim_start_skip(s: Seq<char>, j: int)
    requires
        0 <= j < s.len(),
        is_edge_char(s[j]),
    ensures
        trim_start(s.subrange(j, s.len() as int)) == trim_start(s.subrange(j + 1, s.len() as int)),
{
    assert(s.subrange(j, s.len() as int).drop_first() =~= s.subrange(j + 1, s.len() as int));
}

proof fn lemma_trim_end_skip(s: Seq<char>, e: int)
    requires
        0 < e <= s.len(),
        is_edge_char(s[e - 1]),
    ensures
        trim_end(s.subrange(0, e)) == trim_end(s.subrange(0, e - 1)),
{
    assert(s.subrange(0, e).drop_last() =~= s.subrange(0, e - 1));
}

/// Appends a sanitized suffix to the identifier.
///
/// The result becomes a directory name, so anything that could escape the data
/// directory (path separators, traversal) is dropped rather than escaped. A
/// suffix that leaves nothing usable behind is ignored entirely.
pub fn data_dir_identifier(base: &str, suffix: Option<&str>) -> (identifier: String)
    ensures
        identifier@ == data_dir_identifier_text(base@, option_str_view(suffix)),
{
    let suffix = match suffix {
        None => {
            return String::from_str(base);
        },
        Some(s) => s,
    };
    let n = suffix.unicode_len();
    let mut kept: Vec<char> = Vec::new();
    let mut i: usize = 0;
    while i < n
        invariant
            n == suffix@.len(),
            i <= n,
            kept@ == bounded(kept_chars(suffix@.take(i as int))),
        decreases n - i,
    {
        let c = suffix.get_char(i);
        proof {
            assert(suffix@.take(i as int).push(c) =~= suffix@.take(i + 1));
            lemma_kept_chars_push(suffix@.take(i as int), c);
        }
        let ghost k = kept_chars(suffix@.take(i as int));
        if is_suffix_char_exec(c) {
            if kept.len() < MAX_DATA_DIR_SUFFIX_LEN {
                kept.push(c);
            } else {
                assert(k.push(c).take(MAX_DATA_DIR_SUFFIX_LEN as int) =~= k.take(
                    MAX_DATA_DIR_SUFFIX_LEN as int,
                ));
            }
        }
        i += 1;
    }
    assert(suffix@.take(n as int) =~= suffix@);
    let len = kept.len();
    // Skip leading dots and dashes.
    let mut start: usize = 0;
    assert(kept@.subrange(0, len as int) =~= kept@);
    while start < len && is_edge_char_exec(kept[start])
        invariant
            len == kept@.len(),
            start <= len,
            trim_start(kept@) == trim_start(kept@.subrange(start as int, len as int)),
        decreases len - start,
    {
        proof {
            lemma_trim_start_skip(kept@, start as int);
        }
        start += 1;
    }
    let ghost head = kept@.subrange(start as int, len as int);
    assert(kept@.subrange(0, len as int) =~= kept@);
    assert(trim_start(kept@) == head) by {
        if start < len {
            assert(head[0] == kept@[start as int]);
        } else {
            assert(head.len() == 0);
        }
    }
    // Skip trailing dots and dashes.
    let mut end: usize = len;
    assert(head.subrange(0, (len - start) as int) =~= head);
    while end > start && is_edge_char_exec(kept[end - 1])
        invariant
            len == kept@.len(),
            start <= end <= len,
            head == kept@.subrange(start as int, len as int),
            trim_end(head) == trim_end(head.subrange(0, end - start)),
        decreases end,
    {
        proof {
            assert(head[end - start - 1] == kept@[end - 1]);
            lemma_trim_end_skip(head, (end - start) as int);
        }
        end -= 1;
    }
    let ghost trimmed = head.subrange(0, end - start);
    assert(head.subrange(0, (len - start) as int) =~= head);
    assert(trim_end(head) == trimmed) by {
        if end > start {
            assert(trimmed.last() == kept@[end - 1]);
        } else {
            assert(trimmed.len() == 0);
        }
    }
    assert(trimmed =~= kept@.subrange(start as int, end as int));
    if start == end {
        return String::from_str(base);
    }
    let mut identifier = String::from_str(base);
    push_char(&mut identifier, '-');
    append_chars(&mut identifier, &kept, start, end);
    identifier
}

/// Name of the directory the launcher keeps its settings, databases and logs in.
///
/// A build can opt into its own directory with a suffix chosen at build time;
/// local and test builds use this to stay away from the database of an
/// installed launcher. Releases pass no suffix, so they resolve to the plain
/// identifier.
pub fn app_data_dir_identifier(app_identifier: &str, build_suffix: Option<&str>) -> (identifier:
    String)
    ensures
        identifier@ == data_dir_identifier_text(app_identifier@, option_str_view(build_suffix)),
{
    data_dir_identifier(app_identifier, build_suffix)
}

/// Whether a path separator occurs in `s`.
pub open spec fn has_separator(s: Seq<char>) -> bool {
    exists|i: int| 0 <= i < s.len() && (s[i] == '/' || s[i] == '\\')
}

proof fn lemma_kept_chars_allowed(s: Seq<char>)
    ensures
        forall|i: int| 0 <= i < kept_chars(s).len() ==> is_suffix_char(#[trigger] kept_chars(s)[i]),
    decreases s.len(),
{
    if s.len() > 0 {
        lemma_kept_chars_allowed(s.drop_last());
        let k = kept_chars(s.drop_last());
        assert forall|i: int| 0 <= i < kept_chars(s).len() implies is_suffix_char(
            #[trigger] kept_chars(s)[i],
        ) by {
            if i < k.len() {
                assert(kept_chars(s)[i] == k[i]);
            }
        }
    }
}

proof fn lemma_kept_chars_edge_only(s: Seq<char>)
    requires
        forall|i: int| 0 <= i < s.len() ==> !is_suffix_char(#[trigger] s[i]) || is_edge_char(s[i]),
    ensures
        forall|i: int| 0 <= i < kept_chars(s).len() ==> is_edge_char(#[trigger] kept_chars(s)[i]),
    decreases s.len(),
{
    if s.len() > 0 {
        assert forall|i: int| 0 <= i < s.drop_last().len() implies !is_suffix_char(
            #[trigger] s.drop_last()[i],
        ) || is_edge_char(s.drop_last()[i]) by {
            assert(s.drop_last()[i] == s[i]);
        }
        lemma_kept_chars_edge_only(s.drop_last());
        let k = kept_chars(s.drop_last());
        assert forall|i: int| 0 <= i < kept_chars(s).len() implies is_edge_char(
            #[trigger] kept_chars(s)[i],
        ) by {
            if i < k.len() {
                assert(kept_chars(s)[i] == k[i]);
            }
        }
    }
}

proof fn lemma_trim_start_shape(s: Seq<char>)
    ensures
        exists|k: int| 0 <= k <= s.len() && trim_start(s) == s.subrange(k, s.len() as int),
        trim_start(s).len() > 0 ==> !is_edge_char(trim_start(s)[0]),
        (forall|i: int| 0 <= i < s.len() ==> is_edge_char(#[trigger] s[i])) ==> trim_start(s).len()
            == 0,
    decreases s.len(),
{
    if s.len() > 0 && is_edge_char(s[0]) {
        lemma_trim_start_shape(s.drop_first());
        let k = choose|k: int|
            0 <= k <= s.drop_first().len() && trim_start(s.drop_first()) == s.drop_first().subrange(
                k,
                s.drop_first().len() as int,
            );
        assert(s.drop_first().subrange(k, s.drop_first().len() as int) =~= s.subrange(
            k + 1,
            s.len() as int,
        ));
        if forall|i: int| 0 <= i < s.len() ==> is_edge_char(#[trigger] s[i]) {
            assert forall|i: int| 0 <= i < s.drop_first().len() implies is_edge_char(
                #[trigger] s.drop_first()[i],
            ) by {
                assert(s.drop_first()[i] == s[i + 1]);
            }
        }
    } else {
        assert(s.subrange(0, s.len() as int) =~= s);
    }
}

proof fn lemma_trim_end_shape(s: Seq<char>)
    ensures
        exists|k: int| 0 <= k <= s.len() && trim_end(s) == s.subrange(0, k),
        trim_end(s).len() > 0 ==> !is_edge_char(trim_end(s).last()),
        s.len() > 0 && !is_edge_char(s[0]) ==> trim_end(s).len() > 0 && trim_end(s)[0] == s[0],
    decreases s.len(),
{
    if s.len() > 0 && is_edge_char(s.last()) {
        lemma_trim_end_shape(s.drop_last());
        let k = choose|k: int|
            0 <= k <= s.drop_last().len() && trim_end(s.drop_last()) == s.drop_last().subrange(
                0,
                k,
            );
        assert(s.drop_last().subrange(0, k) =~= s.subrange(0, k));
    } else {
        assert(s.subrange(0, s.len() as int) =~= s);
    }
}

proof fn lemma_sanitized_shape(s: Seq<char>)
    ensures
        sanitized_suffix(s).len() <= MAX_DATA_DIR_SUFFIX_LEN,
        forall|i: int|
            0 <= i < sanitized_suffix(s).len() ==> is_suffix_char(#[trigger] sanitized_suffix(s)[i]),
        sanitized_suffix(s).len() > 0 ==> !is_edge_char(sanitized_suffix(s)[0]) && !is_edge_char(
            sanitized_suffix(s).last(),
        ),
{
    let k = kept_chars(s);
    let b = bounded(k);
    let a = trim_start(b);
    let t = trim_end(a);
    lemma_kept_chars_allowed(s);
    assert forall|i: int| 0 <= i < b.len() implies is_suffix_char(#[trigger] b[i]) by {
        assert(b[i] == k[i]);
    }
    lemma_trim_start_shape(b);
    let ka = choose|ka: int| 0 <= ka <= b.len() && a == b.subrange(ka, b.len() as int);
    assert forall|i: int| 0 <= i < a.len() implies is_suffix_char(#[trigger] a[i]) by {
        assert(a[i] == b[i + ka]);
    }
    lemma_trim_end_shape(a);
    let kt = choose|kt: int| 0 <= kt <= a.len() && t == a.subrange(0, kt);
    assert forall|i: int| 0 <= i < t.len() implies is_suffix_char(#[trigger] t[i]) by {
        assert(t[i] == a[i]);
    }
}

/// The data directory name always begins with the base identifier.
pub proof fn identifier_keeps_base(base: Seq<char>, suffix: Option<Seq<char>>)
    ensures
        has_prefix(data_dir_identifier_text(base, suffix), base),
{
    let id = data_dir_identifier_text(base, suffix);
    assert(id.subrange(0, base.len() as int) =~= base);
}

/// The data directory name is either the base identifier, or the base
/// identifier, a dash and at most `MAX_DATA_DIR_SUFFIX_LEN` letters, digits,
/// dashes, underscores and dots that neither begin nor end with a dot or a dash.
pub proof fn identifier_suffix_is_sanitized(base: Seq<char>, suffix: Option<Seq<char>>)
    ensures
        ({
            let id = data_dir_identifier_text(base, suffix);
            ||| id == base
            ||| {
                &&& base.len() + 2 <= id.len() <= base.len() + 1 + MAX_DATA_DIR_SUFFIX_LEN
                &&& id.subrange(0, base.len() as int) == base
                &&& id[base.len() as int] == '-'
                &&& forall|i: int| base.len() < i < id.len() ==> is_suffix_char(#[trigger] id[i])
                &&& !is_edge_char(id[base.len() + 1int])
                &&& !is_edge_char(id.last())
            }
        }),
{
    if let Some(s) = suffix {
        let t = sanitized_suffix(s);
        lemma_sanitized_shape(s);
        if t.len() > 0 {
            let id = base + seq!['-'] + t;
            assert(id.subrange(0, base.len() as int) =~= base);
            assert forall|i: int| base.len() < i < id.len() implies is_suffix_char(
                #[trigger] id[i],
            ) by {
                assert(id[i] == t[i - base.len() - 1]);
            }
            assert(id[base.len() + 1int] == t[0]);
            assert(id.last() == t.last());
        }
    }
}

/// A suffix never brings a path separator or a parent reference into the
/// data directory name: a base without separators stays without, and the
/// name is `.` or `..` only where the base identifier itself is.
pub proof fn identifier_never_escapes(base: Seq<char>, suffix: Option<Seq<char>>)
    ensures
        ({
            let id = data_dir_identifier_text(base, suffix);
            &&& !has_separator(base) ==> !has_separator(id)
            &&& (id == "."@ || id == ".."@) ==> id == base
        }),
{
    let id = data_dir_identifier_text(base, suffix);
    identifier_suffix_is_sanitized(base, suffix);
    if id != base {
        if !has_separator(base) {
            assert forall|i: int| 0 <= i < id.len() implies !(id[i] == '/' || id[i] == '\\') by {
                if i < base.len() {
                    assert(id[i] == id.subrange(0, base.len() as int)[i]);
                }
            }
        }
        if id == "."@ || id == ".."@ {
            assert(id[base.len() as int] == '-');
            reveal_strlit(".");
            reveal_strlit("..");
        }
    }
}

/// A suffix made only of characters that are dropped or trimmed leaves the
/// base identifier unchanged.
pub proof fn identifier_ignores_unusable_suffix(base: Seq<char>, s: Seq<char>)
    requires
        forall|i: int| 0 <= i < s.len() ==> !is_suffix_char(#[trigger] s[i]) || is_edge_char(s[i]),
    ensures
        data_dir_identifier_text(base, Some(s)) == base,
{
    let k = kept_chars(s);
    let b = bounded(k);
    lemma_kept_chars_edge_only(s);
    assert forall|i: int| 0 <= i < b.len() implies is_edge_char(#[trigger] b[i]) by {
        assert(b[i] == k[i]);
    }
    lemma_trim_start_shape(b);
}

/// Whether `c` is an ASCII letter of either case or an ASCII digit.
pub open spec fn is_ascii_alphanumeric(c: char) -> bool {
    ('a' <= c && c <= 'z') || ('A' <= c && c <= 'Z') || ('0' <= c && c <= '9')
}

proof fn lemma_kept_chars_all(s: Seq<char>)
    requires
        forall|i: int| 0 <= i < s.len() ==> is_ascii_alphanumeric(#[trigger] s[i]),
    ensures
        kept_chars(s) == s,
    decreases s.len(),
{
    if s.len() > 0 {
        assert(is_ascii_alphanumeric(s[s.len() - 1]));
        assert forall|i: int| 0 <= i < s.drop_last().len() implies is_ascii_alphanumeric(
            #[trigger] s.drop_last()[i],
        ) by {
            assert(s.drop_last()[i] == s[i]);
        }
        lemma_kept_chars_all(s.drop_last());
        assert(s.drop_last().push(s.last()) =~= s);
    }
}

/// A suffix of ASCII letters (of either case) and digits, at most
/// `MAX_DATA_DIR_SUFFIX_LEN` of them, is kept whole: the data directory is
/// the base, a dash and the suffix as given.
pub proof fn alphanumeric_suffixes_are_kept_whole(base: Seq<char>, suffix: Seq<char>)
    requires
        1 <= suffix.len() <= MAX_DATA_DIR_SUFFIX_LEN,
        forall|i: int| 0 <= i < suffix.len() ==> is_ascii_alphanumeric(#[trigger] suffix[i]),
    ensures
        data_dir_identifier_text(base, Some(suffix)) == base + seq!['-'] + suffix,
{
    lemma_kept_chars_all(suffix);
    assert(bounded(suffix) == suffix);
    assert(is_ascii_alphanumeric(suffix[0]));
    assert(trim_start(suffix) == suffix);
    assert(is_ascii_alphanumeric(suffix[suffix.len() - 1]));
    assert(trim_end(suffix) == suffix);
}

} // verus!
