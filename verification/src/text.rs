//! Small string utilities shared by the other modules.

use vstd::prelude::*;
use vstd::multiset::Multiset;

verus! {

/// `String::push`: appends one character.
#[verifier::external_body]
pub(crate) fn push_char(s: &mut String, c: char)
    ensures
        final(s)@ == old(s)@.push(c),
{
    s.push(c);
}

/// The decimal digit character for a value below ten.
pub open spec fn digit_char(d: nat) -> char {
    if d == 0 {
        '0'
    } else if d == 1 {
        '1'
    } else if d == 2 {
        '2'
    } else if d == 3 {
        '3'
    } else if d == 4 {
        '4'
    } else if d == 5 {
        '5'
    } else if d == 6 {
        '6'
    } else if d == 7 {
        '7'
    } else if d == 8 {
        '8'
    } else {
        '9'
    }
}

/// The decimal representation of a natural number, without leading zeros.
pub open spec fn decimal(n: nat) -> Seq<char>
    decreases n,
{
    if n < 10 {
        seq![digit_char(n)]
    } else {
        decimal(n / 10).push(digit_char(n % 10))
    }
}

fn digit(d: u64) -> (c: char)
    requires
        d < 10,
    ensures
        c == digit_char(d as nat),
{
    if d == 0 {
        '0'
    } else if d == 1 {
        '1'
    } else if d == 2 {
        '2'
    } else if d == 3 {
        '3'
    } else if d == 4 {
        '4'
    } else if d == 5 {
        '5'
    } else if d == 6 {
        '6'
    } else if d == 7 {
        '7'
    } else if d == 8 {
        '8'
    } else {
        '9'
    }
}

/// Appends the decimal representation of `n`.
pub fn append_decimal(s: &mut String, n: u64)
    ensures
        final(s)@ == old(s)@ + decimal(n as nat),
    decreases n,
{
    if n >= 10 {
        append_decimal(s, n / 10);
    }
    push_char(s, digit(n % 10));
}

/// The decimal representation of `n` as a new string.
pub fn decimal_string(n: u64) -> (s: String)
    ensures
        s@ == decimal(n as nat),
{
    let mut s = String::new();
    append_decimal(&mut s, n);
    s
}

/// The characters of a string slice.
pub fn str_chars(s: &str) -> (chars: Vec<char>)
    ensures
        chars@ == s@,
{
    let n = s.unicode_len();
    let mut chars: Vec<char> = Vec::new();
    let mut i: usize = 0;
    while i < n
        invariant
            n == s@.len(),
            i <= n,
            chars@ == s@.take(i as int),
        decreases n - i,
    {
        let c = s.get_char(i);
        chars.push(c);
        assert(s@.take(i as int).push(c) =~= s@.take(i + 1));
        i += 1;
    }
    assert(s@.take(n as int) =~= s@);
    chars
}

/// Appends the characters `chars[from..to]`.
pub fn append_chars(s: &mut String, chars: &Vec<char>, from: usize, to: usize)
    requires
        from <= to <= chars@.len(),
    ensures
        final(s)@ == old(s)@ + chars@.subrange(from as int, to as int),
{
    let mut i = from;
    while i < to
        invariant
            from <= i <= to <= chars@.len(),
            s@ == old(s)@ + chars@.subrange(from as int, i as int),
        decreases to - i,
    {
        push_char(s, chars[i]);
        assert(chars@.subrange(from as int, i as int).push(chars@[i as int]) =~= chars@.subrange(
            from as int,
            i + 1,
        ));
        i += 1;
    }
}

/// Whether `prefix` is a prefix of `s`.
pub open spec fn has_prefix(s: Seq<char>, prefix: Seq<char>) -> bool {
    prefix.len() <= s.len() && s.subrange(0, prefix.len() as int) == prefix
}

/// Whether `s` begins with `prefix`.
pub fn starts_with(s: &str, prefix: &str) -> (b: bool)
    ensures
        b == has_prefix(s@, prefix@),
{
    let n = s.unicode_len();
    let m = prefix.unicode_len();
    if m > n {
        return false;
    }
    let mut i: usize = 0;
    while i < m
        invariant
            n == s@.len(),
            m == prefix@.len(),
            m <= n,
            i <= m,
            forall|j: int| 0 <= j < i ==> s@[j] == prefix@[j],
        decreases m - i,
    {
        if s.get_char(i) != prefix.get_char(i) {
            assert(s@.subrange(0, m as int)[i as int] != prefix@[i as int]);
            return false;
        }
        i += 1;
    }
    assert(s@.subrange(0, m as int) =~= prefix@);
    true
}

/// Lexicographic order of character sequences; for strings this is the order
/// of `String`, since UTF-8 keeps the order of code points.
pub open spec fn seq_lt(a: Seq<char>, b: Seq<char>) -> bool
    decreases a.len(),
{
    if a.len() == 0 {
        b.len() > 0
    } else if b.len() == 0 {
        false
    } else if a[0] != b[0] {
        a[0] < b[0]
    } else {
        seq_lt(a.drop_first(), b.drop_first())
    }
}

pub proof fn lemma_seq_lt_irreflexive(a: Seq<char>)
    ensures
        !seq_lt(a, a),
    decreases a.len(),
{
    if a.len() > 0 {
        lemma_seq_lt_irreflexive(a.drop_first());
    }
}

pub proof fn lemma_seq_lt_asymmetric(a: Seq<char>, b: Seq<char>)
    ensures
        seq_lt(a, b) ==> !seq_lt(b, a),
    decreases a.len(),
{
    if a.len() > 0 && b.len() > 0 && a[0] == b[0] {
        lemma_seq_lt_asymmetric(a.drop_first(), b.drop_first());
    }
}

pub proof fn lemma_seq_lt_transitive(a: Seq<char>, b: Seq<char>, c: Seq<char>)
    ensures
        seq_lt(a, b) && seq_lt(b, c) ==> seq_lt(a, c),
    decreases a.len(),
{
    if a.len() > 0 && b.len() > 0 && c.len() > 0 {
        lemma_seq_lt_transitive(a.drop_first(), b.drop_first(), c.drop_first());
    }
}

pub proof fn lemma_seq_lt_total(a: Seq<char>, b: Seq<char>)
    ensures
        a != b ==> seq_lt(a, b) || seq_lt(b, a),
    decreases a.len(),
{
    if a.len() > 0 && b.len() > 0 && a[0] == b[0] {
        lemma_seq_lt_total(a.drop_first(), b.drop_first());
        if a.drop_first() == b.drop_first() {
            assert(a =~= seq![a[0]] + a.drop_first());
            assert(b =~= seq![b[0]] + b.drop_first());
        }
    } else if a.len() == 0 && b.len() == 0 {
        assert(a =~= b);
    }
}

/// Whether two strings are equal.
pub fn str_eq(a: &str, b: &str) -> (eq: bool)
    ensures
        eq == (a@ == b@),
{
    let n = a.unicode_len();
    let m = b.unicode_len();
    if n != m {
        return false;
    }
    let mut i: usize = 0;
    while i < n
        invariant
            n == a@.len(),
            m == b@.len(),
            n == m,
            i <= n,
            forall|j: int| 0 <= j < i ==> a@[j] == b@[j],
        decreases n - i,
    {
        if a.get_char(i) != b.get_char(i) {
            return false;
        }
        i += 1;
    }
    assert(a@ =~= b@);
    true
}

/// Whether `a` comes before `b` in the order of strings.
pub fn str_lt(a: &str, b: &str) -> (lt: bool)
    ensures
        lt == seq_lt(a@, b@),
{
    let n = a.unicode_len();
    let m = b.unicode_len();
    let mut i: usize = 0;
    assert(a@.skip(0) =~= a@);
    assert(b@.skip(0) =~= b@);
    while i < n && i < m
        invariant
            n == a@.len(),
            m == b@.len(),
            i <= n,
            i <= m,
            seq_lt(a@, b@) == seq_lt(a@.skip(i as int), b@.skip(i as int)),
        decreases n - i,
    {
        let ca = a.get_char(i);
        let cb = b.get_char(i);
        assert(a@.skip(i as int)[0] == ca);
        assert(b@.skip(i as int)[0] == cb);
        if ca != cb {
            return ca < cb;
        }
        assert(a@.skip(i as int).drop_first() =~= a@.skip(i + 1));
        assert(b@.skip(i as int).drop_first() =~= b@.skip(i + 1));
        i += 1;
    }
    i < m && i == n
}

/// The views of a sequence of strings.
pub open spec fn views(s: Seq<String>) -> Seq<Seq<char>> {
    s.map_values(|x: String| x@)
}

/// The set of the views of a sequence of strings.
pub open spec fn view_set(s: Seq<String>) -> Set<Seq<char>> {
    Set::new(|x: Seq<char>| exists|i: int| 0 <= i < s.len() && s[i]@ == x)
}

/// Strings in strictly increasing order, so without repetition.
pub open spec fn strictly_sorted(s: Seq<String>) -> bool {
    forall|i: int, j: int| 0 <= i < j < s.len() ==> seq_lt(#[trigger] s[i]@, #[trigger] s[j]@)
}

/// Strings in increasing order, repetitions allowed.
pub open spec fn sorted(s: Seq<String>) -> bool {
    forall|i: int, j: int| 0 <= i < j < s.len() ==> !seq_lt(#[trigger] s[j]@, #[trigger] s[i]@)
}

/// Two sorted lists that hold the same strings hold them in the same order.
pub proof fn lemma_sorted_permutations_agree(a: Seq<String>, b: Seq<String>)
    requires
        sorted(a),
        sorted(b),
        a.to_multiset() == b.to_multiset(),
    ensures
        views(a) == views(b),
    decreases a.len(),
{
    broadcast use vstd::seq_lib::group_to_multiset_ensures;

    if a.len() == 0 {
        assert(b.to_multiset().len() == 0);
        assert(views(a) =~= views(b));
    } else {
        let x = a[0];
        assert(a.contains(x));
        assert(b.to_multiset().count(x) > 0);
        assert(b.contains(x));
        let j = choose|j: int| 0 <= j < b.len() && b[j] == x;
        assert(b.contains(b[0]));
        assert(a.to_multiset().count(b[0]) > 0);
        assert(a.contains(b[0]));
        let i = choose|i: int| 0 <= i < a.len() && a[i] == b[0];
        if i > 0 {
            assert(!seq_lt(a[i]@, a[0]@));
        }
        if j > 0 {
            assert(!seq_lt(b[j]@, b[0]@));
        }
        lemma_seq_lt_total(x@, b[0]@);
        assert(x@ == b[0]@);
        assert forall|k: int| 0 <= k <= j implies (#[trigger] b[k])@ == x@ by {
            if 0 < k {
                assert(!seq_lt(b[k]@, b[0]@));
            }
            if k < j {
                assert(!seq_lt(b[j]@, b[k]@));
            }
            lemma_seq_lt_total(b[k]@, x@);
        }
        let a2 = a.remove(0);
        let b2 = b.remove(j);
        assert(a2.to_multiset() == b2.to_multiset());
        assert forall|p: int, q: int| 0 <= p < q < b2.len() implies !seq_lt(
            #[trigger] b2[q]@,
            #[trigger] b2[p]@,
        ) by {
            let pp = if p < j { p } else { p + 1 };
            let qq = if q < j { q } else { q + 1 };
            assert(b2[p] == b[pp] && b2[q] == b[qq]);
        }
        assert forall|p: int, q: int| 0 <= p < q < a2.len() implies !seq_lt(
            #[trigger] a2[q]@,
            #[trigger] a2[p]@,
        ) by {
            assert(a2[p] == a[p + 1] && a2[q] == a[q + 1]);
        }
        lemma_sorted_permutations_agree(a2, b2);
        assert(a.to_multiset().len() == a.len() && b.to_multiset().len() == b.len());
        assert(views(a).len() == views(b).len());
        assert forall|k: int| 0 <= k < views(a).len() implies views(a)[k] == views(b)[k] by {
            if k == 0 {
            } else {
                assert(views(a)[k] == views(a2)[k - 1]);
                assert(views(b2)[k - 1] == b2[k - 1]@);
                if k <= j {
                    assert(b2[k - 1] == b[k - 1]);
                    assert(b[k - 1]@ == x@);
                    assert(b[k]@ == x@);
                } else {
                    assert(b2[k - 1] == b[k]);
                }
            }
        }
        assert(views(a) =~= views(b));
    }
}

/// Adds `x` to a strictly sorted list unless an equal string is there.
pub fn insert_sorted_unique(v: &mut Vec<String>, x: String)
    requires
        strictly_sorted(old(v)@),
    ensures
        strictly_sorted(final(v)@),
        view_set(final(v)@) == view_set(old(v)@).insert(x@),
{
    let n = v.len();
    let mut j: usize = 0;
    while j < n && str_lt(v[j].as_str(), x.as_str())
        invariant
            n == v@.len(),
            j <= n,
            v@ == old(v)@,
            forall|k: int| 0 <= k < j ==> seq_lt(#[trigger] v@[k]@, x@),
        decreases n - j,
    {
        j += 1;
    }
    if j < n && str_eq(v[j].as_str(), x.as_str()) {
        assert(view_set(v@) =~= view_set(old(v)@).insert(x@)) by {
            assert(v@[j as int]@ == x@);
        }
        return ;
    }
    let ghost old_v = v@;
    proof {
        if j < n {
            lemma_seq_lt_total(old_v[j as int]@, x@);
        }
    }
    v.insert(j, x);
    assert forall|a: int, b: int| 0 <= a < b < v@.len() implies seq_lt(
        #[trigger] v@[a]@,
        #[trigger] v@[b]@,
    ) by {
        if b < j {
            assert(v@[a] == old_v[a] && v@[b] == old_v[b]);
        } else if b == j {
            assert(v@[a] == old_v[a]);
        } else if a == j {
            assert(v@[b] == old_v[b - 1]);
            if b - 1 > j {
                lemma_seq_lt_transitive(x@, old_v[j as int]@, old_v[b - 1]@);
            }
        } else if a < j {
            assert(v@[a] == old_v[a] && v@[b] == old_v[b - 1]);
        } else {
            assert(v@[a] == old_v[a - 1] && v@[b] == old_v[b - 1]);
        }
    }
    assert forall|y: Seq<char>| view_set(v@).contains(y) <==> view_set(old_v).insert(
        x@,
    ).contains(y) by {
        if view_set(v@).contains(y) {
            let i = choose|i: int| 0 <= i < v@.len() && v@[i]@ == y;
            if i < j {
                assert(v@[i] == old_v[i]);
            } else if i > j {
                assert(v@[i] == old_v[i - 1]);
            }
        }
        if view_set(old_v).contains(y) {
            let i = choose|i: int| 0 <= i < old_v.len() && old_v[i]@ == y;
            if i < j {
                assert(v@[i] == old_v[i]);
            } else {
                assert(v@[i + 1] == old_v[i]);
            }
        }
        if y == x@ {
            assert(v@[j as int]@ == x@);
        }
    }
    assert(view_set(v@) =~= view_set(old_v).insert(x@));
}

pub proof fn lemma_view_set_push(s: Seq<String>, x: String)
    ensures
        view_set(s.push(x)) == view_set(s).insert(x@),
{
    assert forall|y: Seq<char>| view_set(s.push(x)).contains(y) <==> view_set(s).insert(
        x@,
    ).contains(y) by {
        if view_set(s.push(x)).contains(y) {
            let k = choose|k: int| 0 <= k < s.push(x).len() && #[trigger] s.push(x)[k]@ == y;
            if k < s.len() {
                assert(s.push(x)[k] == s[k]);
            }
        }
        if view_set(s).contains(y) {
            let k = choose|k: int| 0 <= k < s.len() && #[trigger] s[k]@ == y;
            assert(s.push(x)[k] == s[k]);
        }
        if y == x@ {
            assert(s.push(x)[s.len() as int] == x);
        }
    }
    assert(view_set(s.push(x)) =~= view_set(s).insert(x@));
}

/// The strings of `items`, in increasing order and without repetition.
pub fn sorted_unique(items: &Vec<String>) -> (out: Vec<String>)
    ensures
        strictly_sorted(out@),
        view_set(out@) == view_set(items@),
{
    let mut out: Vec<String> = Vec::new();
    let mut i: usize = 0;
    assert(view_set(out@) =~= view_set(items@.take(0)));
    while i < items.len()
        invariant
            i <= items@.len(),
            strictly_sorted(out@),
            view_set(out@) == view_set(items@.take(i as int)),
        decreases items@.len() - i,
    {
        insert_sorted_unique(&mut out, items[i].clone());
        proof {
            assert(items@.take(i as int).push(items@[i as int]) =~= items@.take(i + 1));
            lemma_view_set_push(items@.take(i as int), items@[i as int]);
        }
        i += 1;
    }
    assert(items@.take(items@.len() as int) =~= items@);
    out
}

/// Appends copies of the strings of `src`.
pub fn extend_cloned(dst: &mut Vec<String>, src: &Vec<String>)
    ensures
        final(dst)@ == old(dst)@ + src@,
{
    let mut i: usize = 0;
    while i < src.len()
        invariant
            i <= src@.len(),
            dst@ == old(dst)@ + src@.take(i as int),
        decreases src@.len() - i,
    {
        dst.push(src[i].clone());
        assert(old(dst)@ + src@.take(i + 1) =~= (old(dst)@ + src@.take(i as int)).push(
            src@[i as int],
        ));
        i += 1;
    }
    assert(src@.take(src@.len() as int) =~= src@);
}

pub proof fn lemma_view_set_concat(a: Seq<String>, b: Seq<String>)
    ensures
        view_set(a + b) == view_set(a).union(view_set(b)),
{
    assert forall|y: Seq<char>| view_set(a + b).contains(y) <==> view_set(a).union(
        view_set(b),
    ).contains(y) by {
        if view_set(a + b).contains(y) {
            let k = choose|k: int| 0 <= k < (a + b).len() && #[trigger] (a + b)[k]@ == y;
            if k < a.len() {
                assert((a + b)[k] == a[k]);
            } else {
                assert((a + b)[k] == b[k - a.len()]);
            }
        }
        if view_set(a).contains(y) {
            let k = choose|k: int| 0 <= k < a.len() && #[trigger] a[k]@ == y;
            assert((a + b)[k] == a[k]);
        }
        if view_set(b).contains(y) {
            let k = choose|k: int| 0 <= k < b.len() && #[trigger] b[k]@ == y;
            assert((a + b)[k + a.len()] == b[k]);
        }
    }
    assert(view_set(a + b) =~= view_set(a).union(view_set(b)));
}

/// Whether a string equal to `x` is in `v`.
pub fn contains_str(v: &Vec<String>, x: &str) -> (b: bool)
    ensures
        b == views(v@).contains(x@),
{
    let mut i: usize = 0;
    while i < v.len()
        invariant
            i <= v@.len(),
            forall|j: int| 0 <= j < i ==> v@[j]@ != x@,
        decreases v@.len() - i,
    {
        if str_eq(v[i].as_str(), x) {
            assert(views(v@)[i as int] == x@);
            return true;
        }
        i += 1;
    }
    assert forall|j: int| 0 <= j < views(v@).len() implies views(v@)[j] != x@ by {
        assert(views(v@)[j] == v@[j]@);
    }
    false
}

/// Whether `c` is an ASCII decimal digit.
pub open spec fn is_digit(c: char) -> bool {
    '0' <= c && c <= '9'
}

/// The value of a sequence of decimal digits.
pub open spec fn digits_value(d: Seq<char>) -> nat
    decreases d.len(),
{
    if d.len() == 0 {
        0
    } else {
        digits_value(d.drop_last()) * 10 + ((d.last() as u32) - ('0' as u32)) as nat
    }
}

/// The digits of unsigned number text: the text without one leading `+`.
pub open spec fn unsigned_digits(s: Seq<char>) -> Seq<char> {
    if s.len() > 0 && s[0] == '+' {
        s.drop_first()
    } else {
        s
    }
}

/// The number a string denotes as `u32` text: decimal digits after an
/// optional `+`, with a value that fits; `None` for any other string.
pub open spec fn parsed_u32(s: Seq<char>) -> Option<u32> {
    let d = unsigned_digits(s);
    if d.len() > 0 && (forall|i: int| 0 <= i < d.len() ==> is_digit(#[trigger] d[i]))
        && digits_value(d) <= u32::MAX {
        Some(digits_value(d) as u32)
    } else {
        None
    }
}

/// Parses `u32` text the way `str::parse::<u32>` accepts it.
pub fn parse_u32(s: &str) -> (r: Option<u32>)
    ensures
        r == parsed_u32(s@),
{
    let n = s.unicode_len();
    let mut i: usize = 0;
    if n > 0 && s.get_char(0) == '+' {
        i = 1;
    }
    let start = i;
    let ghost d = unsigned_digits(s@);
    assert(d =~= s@.skip(start as int));
    if start == n {
        return None;
    }
    let mut value: u64 = 0;
    let mut overflow = false;
    while i < n
        invariant
            n == s@.len(),
            start <= i <= n,
            d == s@.skip(start as int),
            d == unsigned_digits(s@),
            forall|j: int| start <= j < i ==> is_digit(#[trigger] s@[j]),
            !overflow ==> value == digits_value(d.take(i - start)) && value <= u32::MAX,
            overflow ==> digits_value(d.take(i - start)) > u32::MAX,
        decreases n - i,
    {
        let c = s.get_char(i);
        if !('0' <= c && c <= '9') {
            assert(d[i - start] == c);
            assert(!is_digit(d[i - start]));
            return None;
        }
        let ghost prefix = d.take(i - start);
        assert(d.take(i - start + 1).drop_last() =~= prefix);
        assert(d.take(i - start + 1).last() == c);
        if !overflow {
            let next = value * 10 + (c as u64 - '0' as u64);
            if next > 4294967295 {
                overflow = true;
            } else {
                value = next;
            }
        }
        i += 1;
    }
    assert(d.take(n - start) =~= d);
    assert forall|j: int| 0 <= j < d.len() implies is_digit(#[trigger] d[j]) by {
        assert(d[j] == s@[j + start]);
    }
    if overflow {
        None
    } else {
        Some(value as u32)
    }
}

/// Inserts `x` into a sorted list after the strings that do not come after it.
pub fn insert_sorted(v: &mut Vec<String>, x: String)
    requires
        sorted(old(v)@),
    ensures
        sorted(final(v)@),
        final(v)@.to_multiset() == old(v)@.to_multiset().insert(x),
{
    let n = v.len();
    let mut j: usize = 0;
    while j < n && !str_lt(x.as_str(), v[j].as_str())
        invariant
            n == v@.len(),
            j <= n,
            v@ == old(v)@,
            forall|k: int| 0 <= k < j ==> !seq_lt(x@, #[trigger] v@[k]@),
        decreases n - j,
    {
        j += 1;
    }
    let ghost old_v = v@;
    v.insert(j, x);
    proof {
        vstd::seq_lib::to_multiset_insert(old_v, j as int, x);
        assert(v@ == old_v.insert(j as int, x));
    }
    assert forall|a: int, b: int| 0 <= a < b < v@.len() implies !seq_lt(
        #[trigger] v@[b]@,
        #[trigger] v@[a]@,
    ) by {
        if b < j {
            assert(v@[a] == old_v[a] && v@[b] == old_v[b]);
        } else if b == j {
            assert(v@[a] == old_v[a]);
        } else if a == j {
            assert(v@[b] == old_v[b - 1]);
            if j < n {
                lemma_seq_lt_transitive(old_v[b - 1]@, x@, old_v[j as int]@);
                lemma_seq_lt_irreflexive(old_v[j as int]@);
            }
        } else if a < j {
            assert(v@[a] == old_v[a] && v@[b] == old_v[b - 1]);
        } else {
            assert(v@[a] == old_v[a - 1] && v@[b] == old_v[b - 1]);
        }
    }
}

/// Sorts strings in increasing order, keeping repetitions.
pub fn sort_strings(v: &mut Vec<String>)
    ensures
        sorted(final(v)@),
        final(v)@.to_multiset() == old(v)@.to_multiset(),
{
    broadcast use vstd::multiset::group_multiset_axioms;

    let mut out: Vec<String> = Vec::new();
    assert(out@.to_multiset() =~= Multiset::<String>::empty()) by {
        broadcast use vstd::seq_lib::group_to_multiset_ensures;

    }
    assert(v@.to_multiset().add(out@.to_multiset()) =~= old(v)@.to_multiset());
    while v.len() > 0
        invariant
            sorted(out@),
            v@.to_multiset().add(out@.to_multiset()) == old(v)@.to_multiset(),
        decreases v@.len(),
    {
        let ghost before = v@;
        let ghost out_before = out@;
        let x = v.pop().unwrap();
        proof {
            assert(before =~= v@.push(x));
            vstd::seq_lib::to_multiset_build(v@, x);
        }
        insert_sorted(&mut out, x);
        assert(v@.to_multiset().add(out@.to_multiset()) =~= before.to_multiset().add(
            out_before.to_multiset(),
        ));
    }
    proof {
        broadcast use vstd::seq_lib::group_to_multiset_ensures;

        assert(v@.to_multiset() =~= Multiset::<String>::empty());
    }
    assert(out@.to_multiset() =~= old(v)@.to_multiset());
    *v = out;
}

} // verus!
