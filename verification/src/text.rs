//! Character-level helpers on strings: scanning, splitting, prefixes and
//! suffixes, each stated over the string's sequence of characters.

use vstd::prelude::*;
use vstd::string::StringExecFns;

verus! {

/// The views of a sequence of strings, in order.
pub open spec fn texts(items: Seq<String>) -> Seq<Seq<char>> {
    items.map_values(|t: String| t@)
}

/// The view of an optional string.
pub open spec fn opt_text(item: Option<String>) -> Option<Seq<char>> {
    match item {
        Some(t) => Some(t@),
        None => None,
    }
}

/// The views of an optional list of strings.
pub open spec fn opt_texts(items: Option<Vec<String>>) -> Option<Seq<Seq<char>>> {
    match items {
        Some(list) => Some(texts(list@)),
        None => None,
    }
}

/// The text of an optional string, empty where there is none.
pub open spec fn text_or_empty(item: Option<String>) -> Seq<char> {
    match item {
        Some(t) => t@,
        None => Seq::empty(),
    }
}

/// Number of bytes that the UTF-8 form of `s` takes.
pub open spec fn byte_len(s: Seq<char>) -> nat {
    vstd::utf8::encode_utf8(s).len()
}

/// Position of the first `c` in `s`, or `s.len()` where there is none.
pub open spec fn first_index(s: Seq<char>, c: char) -> int
    decreases s.len(),
{
    if s.len() == 0 {
        0
    } else if s[0] == c {
        0
    } else {
        1 + first_index(s.drop_first(), c)
    }
}

/// `first_index` is the least position that holds `c`.
pub proof fn lemma_first_index(s: Seq<char>, c: char)
    ensures
        0 <= first_index(s, c) <= s.len(),
        forall|k: int| 0 <= k < first_index(s, c) ==> s[k] != c,
        first_index(s, c) < s.len() ==> s[first_index(s, c)] == c,
    decreases s.len(),
{
    if s.len() > 0 && s[0] != c {
        let rest = s.drop_first();
        lemma_first_index(rest, c);
        assert forall|k: int| 0 <= k < first_index(s, c) implies s[k] != c by {
            if k > 0 {
                assert(s[k] == rest[k - 1]);
            }
        }
        if first_index(s, c) < s.len() {
            assert(s[first_index(s, c)] == rest[first_index(rest, c)]);
        }
    }
}

/// A position with no `c` before it, which holds `c` or ends the string, is
/// the first index.
pub proof fn lemma_first_index_is(s: Seq<char>, c: char, at: int)
    requires
        0 <= at <= s.len(),
        forall|k: int| 0 <= k < at ==> s[k] != c,
        at < s.len() ==> s[at] == c,
    ensures
        first_index(s, c) == at,
{
    lemma_first_index(s, c);
}

/// Whether `c` occurs in `s`.
pub open spec fn has_char(s: Seq<char>, c: char) -> bool {
    exists|k: int| 0 <= k < s.len() && s[k] == c
}

/// The pieces of `s` between occurrences of `sep`: always at least one piece,
/// none of which holds `sep`.
pub open spec fn split_spec(s: Seq<char>, sep: char) -> Seq<Seq<char>>
    decreases s.len(),
{
    let at = first_index(s, sep);
    if 0 <= at < s.len() {
        seq![s.take(at)] + split_spec(s.skip(at + 1), sep)
    } else {
        seq![s]
    }
}

/// The pieces in one text, with `sep` between each two of them.
pub open spec fn join_spec(pieces: Seq<Seq<char>>, sep: char) -> Seq<char>
    decreases pieces.len(),
{
    if pieces.len() == 0 {
        Seq::empty()
    } else if pieces.len() == 1 {
        pieces[0]
    } else {
        pieces[0] + seq![sep] + join_spec(pieces.drop_first(), sep)
    }
}

/// Splitting yields at least one piece, no piece holds the separator, and
/// joining the pieces restores the string.
pub proof fn lemma_split_spec(s: Seq<char>, sep: char)
    ensures
        split_spec(s, sep).len() >= 1,
        forall|i: int|
            0 <= i < split_spec(s, sep).len() ==> !has_char(#[trigger] split_spec(s, sep)[i], sep),
        join_spec(split_spec(s, sep), sep) == s,
    decreases s.len(),
{
    lemma_first_index(s, sep);
    let at = first_index(s, sep);
    if 0 <= at < s.len() {
        let rest = s.skip(at + 1);
        lemma_split_spec(rest, sep);
        let tail = split_spec(rest, sep);
        let all = split_spec(s, sep);
        assert(all == seq![s.take(at)] + tail);
        assert(all.drop_first() == tail);
        assert forall|i: int| 0 <= i < all.len() implies !has_char(#[trigger] all[i], sep) by {
            if i > 0 {
                assert(all[i] == tail[i - 1]);
            }
        }
        assert(join_spec(all, sep) == s.take(at) + seq![sep] + join_spec(tail, sep));
        assert(s.take(at) + seq![sep] + rest == s);
    } else {
        assert(!has_char(s, sep));
    }
}

/// Two texts without the separator, joined by it, split into just these two.
pub proof fn lemma_split_pair(left: Seq<char>, right: Seq<char>, sep: char)
    requires
        !has_char(left, sep),
        !has_char(right, sep),
    ensures
        split_spec(left + seq![sep] + right, sep) == seq![left, right],
{
    let s = left + seq![sep] + right;
    assert forall|k: int| 0 <= k < left.len() implies s[k] != sep by {
        assert(s[k] == left[k]);
    }
    lemma_first_index_is(s, sep, left.len() as int);
    assert(s.take(left.len() as int) == left);
    assert(s.skip(left.len() as int + 1) == right);
    assert forall|k: int| 0 <= k < right.len() implies right[k] != sep by {}
    lemma_first_index_is(right, sep, right.len() as int);
    assert(split_spec(right, sep) == seq![right]);
    assert(seq![left] + seq![right] == seq![left, right]);
}

/// How often `c` occurs in `s`.
pub open spec fn count_char(s: Seq<char>, c: char) -> nat
    decreases s.len(),
{
    if s.len() == 0 {
        0
    } else {
        count_char(s.drop_first(), c) + if s[0] == c {
            1nat
        } else {
            0nat
        }
    }
}

/// A split has one piece more than the string has separators.
pub proof fn lemma_split_len(s: Seq<char>, sep: char)
    ensures
        split_spec(s, sep).len() == count_char(s, sep) + 1,
    decreases s.len(),
{
    if s.len() > 0 {
        let rest = s.drop_first();
        lemma_split_len(rest, sep);
        lemma_first_index(rest, sep);
        if s[0] == sep {
            assert(s.skip(1) == rest);
        } else {
            let at = first_index(rest, sep);
            if at < rest.len() {
                assert(s.skip(at + 2) == rest.skip(at + 1));
            }
        }
    }
}

/// Whether `s` begins with `prefix`.
pub open spec fn starts_with(s: Seq<char>, prefix: Seq<char>) -> bool {
    prefix.len() <= s.len() && s.take(prefix.len() as int) == prefix
}

/// Whether `s` ends with `suffix`.
pub open spec fn ends_with(s: Seq<char>, suffix: Seq<char>) -> bool {
    suffix.len() <= s.len() && s.skip(s.len() - suffix.len()) == suffix
}

/// Whether `needle` occurs in `s` as a run of neighbouring characters.
pub open spec fn has_infix(s: Seq<char>, needle: Seq<char>) -> bool {
    exists|at: int|
        0 <= at <= s.len() - needle.len() && #[trigger] s.subrange(at, at + needle.len())
            == needle
}

/// `s` without its leading run of `c`.
pub open spec fn skip_leading(s: Seq<char>, c: char) -> Seq<char>
    decreases s.len(),
{
    if s.len() > 0 && s[0] == c {
        skip_leading(s.drop_first(), c)
    } else {
        s
    }
}

/// What `char::is_whitespace` answers: whether the character has Unicode's
/// `White_Space` property.
pub uninterp spec fn is_white_space(c: char) -> bool;

/// `char::is_whitespace` of the standard library. Its answer depends on the
/// character alone and is named, not spelled out, by `is_white_space`.
pub assume_specification[ char::is_whitespace ](c: char) -> (r: bool)
    ensures
        r == is_white_space(c),
;

/// `s` without the white space at its start.
pub open spec fn skip_leading_space(s: Seq<char>) -> Seq<char>
    decreases s.len(),
{
    if s.len() > 0 && is_white_space(s[0]) {
        skip_leading_space(s.drop_first())
    } else {
        s
    }
}

/// `s` without the white space at its end.
pub open spec fn drop_trailing_space(s: Seq<char>) -> Seq<char>
    decreases s.len(),
{
    if s.len() > 0 && is_white_space(s.last()) {
        drop_trailing_space(s.drop_last())
    } else {
        s
    }
}

/// `s` without the white space at its two ends.
pub open spec fn trimmed(s: Seq<char>) -> Seq<char> {
    drop_trailing_space(skip_leading_space(s))
}

/// What `str::to_lowercase` returns: the lowercase form of the text under
/// Unicode's case mapping.
pub uninterp spec fn lowercased(s: Seq<char>) -> Seq<char>;

/// `str::to_lowercase` of the standard library. Its result depends on the
/// text alone and is named, not spelled out, by `lowercased`.
pub assume_specification[ str::to_lowercase ](s: &str) -> (r: String)
    ensures
        r@ == lowercased(s@),
;

/// The characters of `s`, in order.
pub fn chars_of(s: &str) -> (out: Vec<char>)
    ensures
        out@ == s@,
{
    let mut out: Vec<char> = Vec::new();
    for c in it: s.chars()
        invariant
            out@ == s@.take(it.index()),
            it.seq() == s@,
    {
        out.push(c);
    }
    out
}

/// Splits `s` at every `sep`, keeping empty pieces.
pub fn split_on(s: &str, sep: char) -> (parts: Vec<String>)
    ensures
        texts(parts@) == split_spec(s@, sep),
{
    let chars = chars_of(s);
    let n = chars.len();
    let mut parts: Vec<String> = Vec::new();
    let mut start: usize = 0;
    let mut i: usize = 0;
    assert(s@.skip(0) == s@);
    assert(texts(parts@) == Seq::<Seq<char>>::empty());
    while i < n
        invariant
            chars@ == s@,
            n == chars.len(),
            start <= i <= n,
            forall|k: int| start <= k < i ==> chars@[k] != sep,
            split_spec(s@, sep) == texts(parts@) + split_spec(s@.skip(start as int), sep),
        decreases n - i,
    {
        if chars[i] == sep {
            let piece = String::from_str(s.substring_char(start, i));
            proof {
                let rest = s@.skip(start as int);
                lemma_first_index_is(rest, sep, i - start);
                assert(rest.take(i - start) == s@.subrange(start as int, i as int));
                assert(rest.skip(i - start + 1) == s@.skip(i + 1));
                assert(texts(parts@.push(piece)) == texts(parts@).push(piece@));
            }
            parts.push(piece);
            start = i + 1;
        }
        i += 1;
    }
    let last = String::from_str(s.substring_char(start, n));
    proof {
        let rest = s@.skip(start as int);
        lemma_first_index_is(rest, sep, rest.len() as int);
        assert(rest == s@.subrange(start as int, n as int));
        assert(texts(parts@.push(last)) == texts(parts@).push(last@));
    }
    parts.push(last);
    parts
}

/// Whether the characters of `window` stand in `chars` from position `at`.
fn matches_at(chars: &Vec<char>, at: usize, window: &Vec<char>) -> (r: bool)
    requires
        at + window.len() <= chars.len(),
    ensures
        r == (chars@.subrange(at as int, at + window.len()) == window@),
{
    let m = window.len();
    let mut j: usize = 0;
    while j < m
        invariant
            m == window.len(),
            j <= m,
            at + m <= chars.len(),
            forall|k: int| 0 <= k < j ==> chars@[at + k] == window@[k],
        decreases m - j,
    {
        if chars[at + j] != window[j] {
            assert(chars@.subrange(at as int, at + m)[j as int] == chars@[at + j]);
            return false;
        }
        j += 1;
    }
    assert(chars@.subrange(at as int, at + m) =~= window@);
    true
}

/// Whether two strings hold the same characters.
pub fn text_eq(a: &str, b: &str) -> (r: bool)
    ensures
        r == (a@ == b@),
{
    let x = chars_of(a);
    let y = chars_of(b);
    if x.len() != y.len() {
        return false;
    }
    assert(x@.subrange(0, 0 + y.len()) == x@);
    matches_at(&x, 0, &y)
}

/// Whether `s` begins with `prefix`.
pub fn str_starts_with(s: &str, prefix: &str) -> (r: bool)
    ensures
        r == starts_with(s@, prefix@),
{
    let x = chars_of(s);
    let y = chars_of(prefix);
    if y.len() > x.len() {
        return false;
    }
    assert(x@.subrange(0, 0 + y.len()) == x@.take(y.len() as int));
    matches_at(&x, 0, &y)
}

/// Whether `s` ends with `suffix`.
pub fn str_ends_with(s: &str, suffix: &str) -> (r: bool)
    ensures
        r == ends_with(s@, suffix@),
{
    let x = chars_of(s);
    let y = chars_of(suffix);
    if y.len() > x.len() {
        return false;
    }
    let at = x.len() - y.len();
    assert(x@.subrange(at as int, at + y.len()) == x@.skip(x.len() - y.len()));
    matches_at(&x, at, &y)
}

/// Whether `needle` occurs somewhere in `s`.
pub fn str_contains(s: &str, needle: &str) -> (r: bool)
    ensures
        r == has_infix(s@, needle@),
{
    let x = chars_of(s);
    let y = chars_of(needle);
    if y.len() > x.len() {
        return false;
    }
    let last = x.len() - y.len();
    let mut at: usize = 0;
    loop
        invariant
            x@ == s@,
            y@ == needle@,
            y.len() <= x.len(),
            last == x.len() - y.len(),
            at <= last,
            forall|k: int| 0 <= k < at ==> #[trigger] x@.subrange(k, k + y.len()) != y@,
        decreases last - at,
    {
        if matches_at(&x, at, &y) {
            return true;
        }
        if at == last {
            return false;
        }
        at += 1;
    }
}

/// Whether `c` occurs in `s`.
pub fn str_has_char(s: &str, c: char) -> (r: bool)
    ensures
        r == has_char(s@, c),
{
    let x = chars_of(s);
    let mut i: usize = 0;
    while i < x.len()
        invariant
            x@ == s@,
            i <= x.len(),
            forall|k: int| 0 <= k < i ==> x@[k] != c,
        decreases x.len() - i,
    {
        if x[i] == c {
            return true;
        }
        i += 1;
    }
    false
}

/// `s` without the white space at its two ends.
pub fn trim_text<'a>(s: &'a str) -> (r: &'a str)
    ensures
        r@ == trimmed(s@),
{
    let x = chars_of(s);
    let n = x.len();
    let mut start: usize = 0;
    assert(s@.skip(0) == s@);
    while start < n && x[start].is_whitespace()
        invariant
            x@ == s@,
            n == x.len(),
            start <= n,
            skip_leading_space(s@) == skip_leading_space(s@.skip(start as int)),
        decreases n - start,
    {
        assert(s@.skip(start as int).drop_first() == s@.skip(start + 1));
        start += 1;
    }
    let mut end: usize = n;
    assert(s@.skip(start as int) == s@.subrange(start as int, n as int));
    while end > start && x[end - 1].is_whitespace()
        invariant
            x@ == s@,
            n == x.len(),
            start <= end <= n,
            trimmed(s@) == drop_trailing_space(s@.subrange(start as int, end as int)),
        decreases end,
    {
        assert(s@.subrange(start as int, end as int).drop_last() == s@.subrange(
            start as int,
            end - 1,
        ));
        end -= 1;
    }
    s.substring_char(start, end)
}

/// `s` without its leading run of `c`.
pub fn strip_leading(s: &str, c: char) -> (r: String)
    ensures
        r@ == skip_leading(s@, c),
{
    let x = chars_of(s);
    let n = x.len();
    let mut i: usize = 0;
    assert(s@.skip(0) == s@);
    while i < n && x[i] == c
        invariant
            x@ == s@,
            n == x.len(),
            i <= n,
            skip_leading(s@, c) == skip_leading(s@.skip(i as int), c),
        decreases n - i,
    {
        assert(s@.skip(i as int).drop_first() == s@.skip(i + 1));
        i += 1;
    }
    assert(s@.skip(i as int) == s@.subrange(i as int, n as int));
    String::from_str(s.substring_char(i, n))
}

/// Adding a string at the end of a list adds its view at the end of the
/// list's views.
pub proof fn lemma_texts_push(items: Seq<String>, item: String)
    ensures
        texts(items.push(item)) == texts(items).push(item@),
{
    assert(texts(items.push(item)) =~= texts(items).push(item@));
}

/// A copy of a list of strings.
pub fn copy_texts(items: &Vec<String>) -> (r: Vec<String>)
    ensures
        texts(r@) == texts(items@),
{
    let mut r: Vec<String> = Vec::new();
    let n = items.len();
    let mut i: usize = 0;
    while i < n
        invariant
            n == items.len(),
            i <= n,
            texts(r@) == texts(items@).take(i as int),
        decreases n - i,
    {
        let item = items[i].clone();
        proof {
            lemma_texts_push(r@, item);
            assert(texts(items@).take(i + 1) =~= texts(items@).take(i as int).push(
                items@[i as int]@,
            ));
        }
        r.push(item);
        i += 1;
    }
    assert(texts(items@).take(n as int) == texts(items@));
    r
}

/// A copy of an optional string.
pub fn copy_opt_text(item: &Option<String>) -> (r: Option<String>)
    ensures
        opt_text(r) == opt_text(*item),
{
    match item {
        Some(t) => Some(t.clone()),
        None => None,
    }
}

/// A copy of an optional list of strings.
pub fn copy_opt_texts(items: &Option<Vec<String>>) -> (r: Option<Vec<String>>)
    ensures
        opt_texts(r) == opt_texts(*items),
{
    match items {
        Some(list) => Some(copy_texts(list)),
        None => None,
    }
}

/// The string of an optional string, empty where there is none.
pub fn text_or_default(item: Option<String>) -> (r: String)
    ensures
        r@ == text_or_empty(item),
{
    match item {
        Some(t) => t,
        None => String::new(),
    }
}

} // verus!
