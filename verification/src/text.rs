//! Strings as sequences of characters.
//!
//! Everything the rules need from a string — searching, trimming, replacing,
//! folding whitespace — is written here over `Seq<char>` and proved, rather
//! than taken on trust from `str`. Only two things are believed: appending a
//! character to a `String`, and Unicode lowercasing.

use vstd::prelude::*;

verus! {

// ---------------------------------------------------------------------
// Specifications
// ---------------------------------------------------------------------

/// `needle` occurs in `hay` starting at index `i`.
pub open spec fn occurs_at(hay: Seq<char>, needle: Seq<char>, i: int) -> bool {
    &&& 0 <= i
    &&& i + needle.len() <= hay.len()
    &&& hay.subrange(i, i + needle.len()) == needle
}

/// `needle` occurs somewhere in `hay`.
pub open spec fn contains(hay: Seq<char>, needle: Seq<char>) -> bool {
    exists|i: int| occurs_at(hay, needle, i)
}

pub open spec fn starts_with(hay: Seq<char>, prefix: Seq<char>) -> bool {
    occurs_at(hay, prefix, 0)
}

pub open spec fn ends_with(hay: Seq<char>, suffix: Seq<char>) -> bool {
    occurs_at(hay, suffix, hay.len() - suffix.len())
}

/// Some needle in the list occurs in `hay`.
pub open spec fn contains_any(hay: Seq<char>, needles: Seq<&'static str>) -> bool {
    exists|k: int| 0 <= k < needles.len() && contains(hay, needles[k]@)
}

/// Unicode's White_Space property, which is what `char::is_whitespace` reads.
pub open spec fn is_space(c: char) -> bool {
    let u = c as u32;
    ||| 0x09 <= u <= 0x0D
    ||| u == 0x20
    ||| u == 0x85
    ||| u == 0xA0
    ||| u == 0x1680
    ||| 0x2000 <= u <= 0x200A
    ||| u == 0x2028
    ||| u == 0x2029
    ||| u == 0x202F
    ||| u == 0x205F
    ||| u == 0x3000
}

/// `s` without leading whitespace.
pub open spec fn trim_start(s: Seq<char>) -> Seq<char>
    decreases s.len(),
{
    if s.len() > 0 && is_space(s[0]) {
        trim_start(s.drop_first())
    } else {
        s
    }
}

/// `s` without the trailing characters that `strip` holds.
pub open spec fn trim_end_of(s: Seq<char>, strip: spec_fn(char) -> bool) -> Seq<char>
    decreases s.len(),
{
    if s.len() > 0 && strip(s.last()) {
        trim_end_of(s.drop_last(), strip)
    } else {
        s
    }
}

/// `s` without trailing whitespace.
pub open spec fn trim_end(s: Seq<char>) -> Seq<char> {
    trim_end_of(s, |c: char| is_space(c))
}

/// `str::trim`: whitespace removed from both ends.
pub open spec fn trim(s: Seq<char>) -> Seq<char> {
    trim_end(trim_start(s))
}

/// `str::replace`: every non-overlapping occurrence of `from`, scanning
/// left to right, replaced by `to`.
pub open spec fn replace(s: Seq<char>, from: Seq<char>, to: Seq<char>) -> Seq<char>
    decreases s.len(),
{
    if from.len() == 0 || s.len() < from.len() {
        s
    } else if s.take(from.len() as int) == from {
        to + replace(s.skip(from.len() as int), from, to)
    } else {
        seq![s[0]] + replace(s.drop_first(), from, to)
    }
}

/// The words of `s` joined by single spaces, as
/// `s.split_whitespace().collect::<Vec<_>>().join(" ")` gives them.
/// `started` says a word has already been written; `gap` that whitespace has
/// been seen since.
pub open spec fn collapse_from(s: Seq<char>, started: bool, gap: bool) -> Seq<char>
    decreases s.len(),
{
    if s.len() == 0 {
        Seq::empty()
    } else if is_space(s[0]) {
        collapse_from(s.drop_first(), started, true)
    } else {
        (if started && gap { seq![' '] } else { Seq::empty() }) + seq![s[0]]
            + collapse_from(s.drop_first(), true, false)
    }
}

pub open spec fn collapse_whitespace(s: Seq<char>) -> Seq<char> {
    collapse_from(s, false, false)
}

/// `s` with every leading copy of `prefix` removed, as
/// `str::trim_start_matches` with a string pattern does.
pub open spec fn strip_prefixes(s: Seq<char>, prefix: Seq<char>) -> Seq<char>
    decreases s.len(),
{
    if prefix.len() > 0 && starts_with(s, prefix) {
        strip_prefixes(s.skip(prefix.len() as int), prefix)
    } else {
        s
    }
}

/// Index of the first occurrence of `c`, if any.
pub open spec fn first_index_of(s: Seq<char>, c: char) -> Option<int> {
    if exists|i: int| 0 <= i < s.len() && s[i] == c {
        Some(choose|i: int| 0 <= i < s.len() && s[i] == c && forall|j: int| 0 <= j < i ==> s[j] != c)
    } else {
        None
    }
}

/// Index of the last occurrence of `c`, if any.
pub open spec fn last_index_of(s: Seq<char>, c: char) -> Option<int> {
    if exists|i: int| 0 <= i < s.len() && s[i] == c {
        Some(choose|i: int| 0 <= i < s.len() && s[i] == c && forall|j: int| i < j < s.len() ==> s[j] != c)
    } else {
        None
    }
}

/// What `first_index_of` finds is in range.
pub proof fn lemma_first_index(s: Seq<char>, c: char)
    ensures
        match first_index_of(s, c) {
            Some(i) => 0 <= i < s.len() && s[i] == c,
            None => true,
        },
{
    if exists|i: int| 0 <= i < s.len() && s[i] == c {
        let w = choose|i: int| 0 <= i < s.len() && s[i] == c;
        lemma_first_exists(s, c, w);
    }
}

/// A `c` at `w` means there is a first one.
proof fn lemma_first_exists(s: Seq<char>, c: char, w: int)
    requires
        0 <= w < s.len(),
        s[w] == c,
    ensures
        exists|i: int| 0 <= i < s.len() && s[i] == c && forall|j: int| 0 <= j < i ==> s[j] != c,
    decreases w,
{
    if exists|j: int| 0 <= j < w && s[j] == c {
        let v = choose|j: int| 0 <= j < w && s[j] == c;
        lemma_first_exists(s, c, v);
    }
}

/// What `last_index_of` finds is in range.
pub proof fn lemma_last_index(s: Seq<char>, c: char)
    ensures
        match last_index_of(s, c) {
            Some(i) => 0 <= i < s.len() && s[i] == c,
            None => true,
        },
{
    if exists|i: int| 0 <= i < s.len() && s[i] == c {
        let w = choose|i: int| 0 <= i < s.len() && s[i] == c;
        lemma_last_exists(s, c, w);
    }
}

/// A `c` at `w` means there is a last one.
proof fn lemma_last_exists(s: Seq<char>, c: char, w: int)
    requires
        0 <= w < s.len(),
        s[w] == c,
    ensures
        exists|i: int| 0 <= i < s.len() && s[i] == c && forall|j: int| i < j < s.len() ==> s[j] != c,
    decreases s.len() - w,
{
    if exists|j: int| w < j < s.len() && s[j] == c {
        let v = choose|j: int| w < j < s.len() && s[j] == c;
        lemma_last_exists(s, c, v);
    }
}

/// The text before the first `c`, or all of it: `s.split(c).next()`.
pub open spec fn before_first(s: Seq<char>, c: char) -> Seq<char> {
    match first_index_of(s, c) {
        Some(i) => s.take(i),
        None => s,
    }
}

/// Join `parts` with `sep` between each pair.
pub open spec fn join(parts: Seq<Seq<char>>, sep: Seq<char>) -> Seq<char>
    decreases parts.len(),
{
    if parts.len() == 0 {
        Seq::empty()
    } else if parts.len() == 1 {
        parts[0]
    } else {
        join(parts.drop_last(), sep) + sep + parts.last()
    }
}

/// What `str::to_lowercase` writes after the lowered leading ASCII run of
/// `s`. Unicode lowercasing depends on context (a final sigma lowers
/// differently) and may turn one character into several, so it is named
/// rather than written out here.
pub uninterp spec fn lowercase_rest(s: Seq<char>) -> Seq<char>;

/// How many characters `s` begins with that are ASCII.
pub open spec fn ascii_run(s: Seq<char>) -> nat
    decreases s.len(),
{
    if s.len() == 0 || !is_ascii_char(s[0]) {
        0
    } else {
        1 + ascii_run(s.drop_first())
    }
}

/// What `str::to_lowercase` makes of `s`: each ASCII character lowers to
/// its ASCII lowercase form, one for one, so the leading ASCII run lowers
/// that way; what follows it is named by `lowercase_rest`.
pub open spec fn lowercase_of(s: Seq<char>) -> Seq<char> {
    ascii_lowered(s.take(ascii_run(s) as int)) + if ascii_run(s) == s.len() {
        Seq::empty()
    } else {
        lowercase_rest(s)
    }
}

/// The leading ASCII run is no longer than the text, and reaches at least
/// as far as any ASCII prefix.
pub proof fn lemma_ascii_run(s: Seq<char>, n: int)
    ensures
        ascii_run(s) <= s.len(),
        forall|i: int| 0 <= i < ascii_run(s) ==> is_ascii_char(#[trigger] s[i]),
        0 <= n <= s.len() && all_ascii(s.take(n)) ==> n <= ascii_run(s),
    decreases s.len(),
{
    if s.len() > 0 && is_ascii_char(s[0]) {
        lemma_ascii_run(s.drop_first(), n - 1);
        assert forall|i: int| 0 <= i < ascii_run(s) implies is_ascii_char(#[trigger] s[i]) by {
            if i > 0 {
                assert(s[i] == s.drop_first()[i - 1]);
            }
        }
        if 0 < n <= s.len() && all_ascii(s.take(n)) {
            assert forall|i: int| 0 <= i < n - 1 implies is_ascii_char(
                #[trigger] s.drop_first().take(n - 1)[i],
            ) by {
                assert(s.drop_first().take(n - 1)[i] == s.take(n)[i + 1]);
            }
        }
    } else if 0 < n <= s.len() && all_ascii(s.take(n)) {
        assert(s.take(n)[0] == s[0]);
    }
}

/// ASCII text lowers to its ASCII lowercase form.
pub proof fn lemma_ascii_lowercase(s: Seq<char>)
    requires
        all_ascii(s),
    ensures
        lowercase_of(s) == ascii_lowered(s),
{
    assert(s.take(s.len() as int) =~= s);
    lemma_ascii_run(s, s.len() as int);
    assert(lowercase_of(s) =~= ascii_lowered(s));
}

/// A text that begins with ASCII begins, lowered, with that ASCII lowered.
pub proof fn lemma_ascii_prefix_lowercase(s: Seq<char>, n: int)
    requires
        0 <= n <= s.len(),
        all_ascii(s.take(n)),
    ensures
        lowercase_of(s).len() >= n,
        lowercase_of(s).take(n) == ascii_lowered(s.take(n)),
{
    lemma_ascii_run(s, n);
    let r = ascii_run(s) as int;
    assert(lowercase_of(s).take(n) =~= ascii_lowered(s.take(n)));
}

/// A character of the ASCII range.
pub open spec fn is_ascii_char(c: char) -> bool {
    '\0' <= c <= '\u{7f}'
}

/// Every character of `s` is ASCII.
pub open spec fn all_ascii(s: Seq<char>) -> bool {
    forall|i: int| 0 <= i < s.len() ==> is_ascii_char(#[trigger] s[i])
}

/// The ASCII lowercase form of a character: `A`-`Z` to `a`-`z`, the rest
/// unchanged.
pub open spec fn ascii_lower(c: char) -> char {
    if 65 <= (c as u32) <= 90 {
        ((c as u32) + 32) as char
    } else {
        c
    }
}

/// `s` with each character put in its ASCII lowercase form.
pub open spec fn ascii_lowered(s: Seq<char>) -> Seq<char> {
    s.map_values(|c: char| ascii_lower(c))
}

/// Lowercasing ignores the case of ASCII text: two ASCII texts that differ
/// only in the case of their letters lower to the same text, which is the
/// ASCII lowercase form of either.
pub proof fn law_ascii_case_is_ignored(a: Seq<char>, b: Seq<char>)
    requires
        all_ascii(a),
        all_ascii(b),
        ascii_lowered(a) == ascii_lowered(b),
    ensures
        lowercase_of(a) == lowercase_of(b),
        lowercase_of(a) == ascii_lowered(a),
{
    lemma_ascii_lowercase(a);
    lemma_ascii_lowercase(b);
}

/// Lowering ASCII letters turns no character into whitespace or out of it.
pub proof fn lemma_lower_keeps_space(c: char)
    ensures
        is_space(ascii_lower(c)) == is_space(c),
{
}

/// Trimming and lowering ASCII letters can be done in either order, and
/// trimming ASCII text leaves ASCII text.
pub proof fn lemma_trim_start_lowered(s: Seq<char>)
    ensures
        trim_start(ascii_lowered(s)) == ascii_lowered(trim_start(s)),
        all_ascii(s) ==> all_ascii(trim_start(s)),
    decreases s.len(),
{
    if s.len() > 0 {
        lemma_lower_keeps_space(s[0]);
        assert(ascii_lowered(s)[0] == ascii_lower(s[0]));
        assert(ascii_lowered(s).drop_first() =~= ascii_lowered(s.drop_first()));
        lemma_trim_start_lowered(s.drop_first());
        if all_ascii(s) {
            assert forall|i: int| 0 <= i < s.drop_first().len() implies is_ascii_char(
                #[trigger] s.drop_first()[i],
            ) by {
                assert(s.drop_first()[i] == s[i + 1]);
            }
        }
    } else {
        assert(ascii_lowered(s) =~= s);
    }
}

/// The same, for the end of the text.
pub proof fn lemma_trim_end_lowered(s: Seq<char>)
    ensures
        trim_end(ascii_lowered(s)) == ascii_lowered(trim_end(s)),
        all_ascii(s) ==> all_ascii(trim_end(s)),
    decreases s.len(),
{
    if s.len() > 0 {
        lemma_lower_keeps_space(s.last());
        assert(ascii_lowered(s).last() == ascii_lower(s.last()));
        assert(ascii_lowered(s).drop_last() =~= ascii_lowered(s.drop_last()));
        lemma_trim_end_lowered(s.drop_last());
        if all_ascii(s) {
            assert forall|i: int| 0 <= i < s.drop_last().len() implies is_ascii_char(
                #[trigger] s.drop_last()[i],
            ) by {
                assert(s.drop_last()[i] == s[i]);
            }
        }
    } else {
        assert(ascii_lowered(s) =~= s);
    }
}

/// Trimming commutes with lowering ASCII letters, and keeps text ASCII.
pub proof fn lemma_trim_lowered(s: Seq<char>)
    ensures
        trim(ascii_lowered(s)) == ascii_lowered(trim(s)),
        all_ascii(s) ==> all_ascii(trim(s)),
{
    lemma_trim_start_lowered(s);
    lemma_trim_end_lowered(trim_start(s));
}

/// Trimming the start keeps a suffix whose first character, if any, is not
/// whitespace.
pub proof fn lemma_trim_start_shape(s: Seq<char>) -> (k: int)
    ensures
        0 <= k <= s.len(),
        trim_start(s) == s.skip(k),
        trim_start(s).len() > 0 ==> !is_space(trim_start(s)[0]),
    decreases s.len(),
{
    if s.len() > 0 && is_space(s[0]) {
        let k = lemma_trim_start_shape(s.drop_first());
        assert(s.drop_first().skip(k) =~= s.skip(k + 1));
        k + 1
    } else {
        assert(s.skip(0) =~= s);
        0
    }
}

/// Trimming the end keeps a prefix whose last character, if any, is not
/// stripped.
pub proof fn lemma_trim_end_shape(s: Seq<char>) -> (k: int)
    ensures
        0 <= k <= s.len(),
        trim_end(s) == s.take(k),
        trim_end(s).len() > 0 ==> !is_space(trim_end(s).last()),
    decreases s.len(),
{
    if s.len() > 0 && is_space(s.last()) {
        let k = lemma_trim_end_shape(s.drop_last());
        assert(s.drop_last().take(k) =~= s.take(k));
        k
    } else {
        assert(s.take(s.len() as int) =~= s);
        s.len() as int
    }
}

/// Text that neither begins nor ends with whitespace is its own trim.
pub proof fn lemma_trimmed_is_fixed(s: Seq<char>)
    requires
        s.len() > 0 ==> !is_space(s[0]) && !is_space(s.last()),
    ensures
        trim(s) == s,
{
    if s.len() > 0 {
        assert(trim_start(s) == s);
    }
}

/// Trimming twice is trimming once.
pub proof fn lemma_trim_idempotent(s: Seq<char>)
    ensures
        trim(trim(s)) == trim(s),
{
    let k = lemma_trim_start_shape(s);
    let ts = trim_start(s);
    let j = lemma_trim_end_shape(ts);
    let t = trim(s);
    if t.len() > 0 {
        assert(t[0] == ts[0]);
    }
    lemma_trimmed_is_fixed(t);
}

/// The views of a list of strings.
pub open spec fn views(v: Seq<String>) -> Seq<Seq<char>> {
    v.map_values(|s: String| s@)
}

// ---------------------------------------------------------------------
// Trusted items
// ---------------------------------------------------------------------

/// `String::push`, which appends one character to the end.
#[verifier::external_body]
fn push_char(s: &mut String, c: char)
    ensures
        final(s)@ == old(s)@.push(c),
{
    s.push(c);
}

/// `str::to_lowercase`. What is claimed is what std documents of ASCII: an
/// ASCII character lowers to its ASCII lowercase form, one character for
/// one, so the text's leading ASCII run comes out lowered that way. What
/// follows that run (non-ASCII characters, some of which lower to several,
/// and a final sigma that depends on its neighbours) is named by
/// `lowercase_rest` of the whole text, and is nothing when the text is all
/// ASCII.
#[verifier::external_body]
pub(crate) fn lowercase(s: &str) -> (r: String)
    ensures
        r@ == lowercase_of(s@),
        ascii_run(s@) == s@.len() ==> r@ == ascii_lowered(s@),
        ascii_run(s@) < s@.len() ==> r@ == ascii_lowered(s@.take(ascii_run(s@) as int))
            + lowercase_rest(s@),
{
    s.to_lowercase()
}

// ---------------------------------------------------------------------
// Conversions
// ---------------------------------------------------------------------

/// The characters of `s`, in order.
pub fn chars_of(s: &str) -> (v: Vec<char>)
    ensures
        v@ == s@,
{
    let mut v: Vec<char> = Vec::new();
    for c in it: s.chars()
        invariant
            v@ == it.seq().take(it.index() as int),
            it.seq() == s@,
    {
        v.push(c);
    }
    v
}

/// A string holding exactly the characters of `v`.
pub fn string_of(v: &[char]) -> (s: String)
    ensures
        s@ == v@,
{
    let mut s = String::new();
    let mut i: usize = 0;
    while i < v.len()
        invariant
            i <= v@.len(),
            s@ == v@.take(i as int),
        decreases v@.len() - i,
    {
        push_char(&mut s, v[i]);
        i = i + 1;
        assert(v@.take(i as int) == v@.take(i - 1).push(v@[i - 1]));
    }
    assert(v@.take(v@.len() as int) == v@);
    s
}

/// Append every character of `tail` to `out`.
pub fn append_chars(out: &mut Vec<char>, tail: &[char])
    ensures
        final(out)@ == old(out)@ + tail@,
{
    let mut i: usize = 0;
    while i < tail.len()
        invariant
            i <= tail@.len(),
            out@ == old(out)@ + tail@.take(i as int),
        decreases tail@.len() - i,
    {
        out.push(tail[i]);
        i = i + 1;
        assert(tail@.take(i as int) == tail@.take(i - 1).push(tail@[i - 1]));
    }
    assert(tail@.take(tail@.len() as int) == tail@);
}

/// `a` followed by `b`, as a new string.
pub fn concat(a: &str, b: &str) -> (r: String)
    ensures
        r@ == a@ + b@,
{
    let mut v = chars_of(a);
    let w = chars_of(b);
    append_chars(&mut v, &w);
    string_of(&v)
}

/// Copy a sub-slice into a vector.
pub fn slice_to_vec(s: &[char], from: usize, to: usize) -> (v: Vec<char>)
    requires
        from <= to <= s@.len(),
    ensures
        v@ == s@.subrange(from as int, to as int),
{
    let mut v: Vec<char> = Vec::new();
    let mut i = from;
    while i < to
        invariant
            from <= i <= to,
            to <= s@.len(),
            v@ == s@.subrange(from as int, i as int),
        decreases to - i,
    {
        v.push(s[i]);
        i = i + 1;
        assert(s@.subrange(from as int, i as int) == s@.subrange(from as int, i - 1).push(
            s@[i - 1],
        ));
    }
    v
}

/// Two strings hold the same characters.
pub fn same_text(a: &str, b: &str) -> (r: bool)
    ensures
        r == (a@ == b@),
{
    let x = chars_of(a);
    let y = chars_of(b);
    chars_equal(&x, &y)
}

/// Two character slices are equal.
pub fn chars_equal(a: &[char], b: &[char]) -> (r: bool)
    ensures
        r == (a@ == b@),
{
    if a.len() != b.len() {
        return false;
    }
    let mut i: usize = 0;
    while i < a.len()
        invariant
            i <= a@.len(),
            a@.len() == b@.len(),
            forall|j: int| 0 <= j < i ==> a@[j] == b@[j],
        decreases a@.len() - i,
    {
        if a[i] != b[i] {
            return false;
        }
        i = i + 1;
    }
    assert(a@ =~= b@);
    true
}

// ---------------------------------------------------------------------
// Searching
// ---------------------------------------------------------------------

/// Whether `needle` occurs in `hay` at index `i`.
pub fn occurs_at_exec(hay: &[char], needle: &[char], i: usize) -> (r: bool)
    ensures
        r == occurs_at(hay@, needle@, i as int),
{
    if i > hay.len() || needle.len() > hay.len() - i {
        return false;
    }
    let mut j: usize = 0;
    while j < needle.len()
        invariant
            j <= needle@.len(),
            i + needle@.len() <= hay@.len(),
            i + needle.len() <= hay.len(),
            forall|k: int| 0 <= k < j ==> hay@[i + k] == needle@[k],
        decreases needle@.len() - j,
    {
        if hay[i + j] != needle[j] {
            assert(hay@.subrange(i as int, i + needle@.len())[j as int] != needle@[j as int]);
            return false;
        }
        j = j + 1;
    }
    assert(hay@.subrange(i as int, i + needle@.len()) =~= needle@);
    true
}

/// The first index at which `needle` occurs in `hay` at or after `from`.
pub fn find_from(hay: &[char], needle: &[char], from: usize) -> (r: Option<usize>)
    ensures
        match r {
            Some(i) => from <= i && occurs_at(hay@, needle@, i as int) && forall|k: int|
                from <= k < i ==> !occurs_at(hay@, needle@, k),
            None => forall|k: int| from <= k ==> !occurs_at(hay@, needle@, k),
        },
{
    if needle.len() > hay.len() {
        return None;
    }
    let last = hay.len() - needle.len();
    if from > last {
        return None;
    }
    let mut i = from;
    while i < last
        invariant
            from <= i <= last,
            last == hay@.len() - needle@.len(),
            forall|k: int| from <= k < i ==> !occurs_at(hay@, needle@, k),
        decreases last - i,
    {
        if occurs_at_exec(hay, needle, i) {
            return Some(i);
        }
        i = i + 1;
    }
    if occurs_at_exec(hay, needle, last) {
        return Some(last);
    }
    None
}

/// Whether `needle` occurs anywhere in `hay`.
pub fn contains_chars(hay: &[char], needle: &[char]) -> (r: bool)
    ensures
        r == contains(hay@, needle@),
{
    match find_from(hay, needle, 0) {
        Some(i) => true,
        None => {
            assert forall|k: int| !occurs_at(hay@, needle@, k) by {
                if k < 0 {
                }
            }
            false
        },
    }
}

/// `str::contains`.
pub fn contains_str(hay: &str, needle: &str) -> (r: bool)
    ensures
        r == contains(hay@, needle@),
{
    let h = chars_of(hay);
    let n = chars_of(needle);
    contains_chars(&h, &n)
}

/// `str::starts_with`.
pub fn starts_with_str(hay: &str, prefix: &str) -> (r: bool)
    ensures
        r == starts_with(hay@, prefix@),
{
    let h = chars_of(hay);
    let p = chars_of(prefix);
    occurs_at_exec(&h, &p, 0)
}

/// `str::ends_with`.
pub fn ends_with_str(hay: &str, suffix: &str) -> (r: bool)
    ensures
        r == ends_with(hay@, suffix@),
{
    let h = chars_of(hay);
    let s = chars_of(suffix);
    if s.len() > h.len() {
        return false;
    }
    occurs_at_exec(&h, &s, h.len() - s.len())
}

/// Whether any of `needles` occurs in `hay`.
pub fn contains_any_of(hay: &[char], needles: &Vec<&'static str>) -> (r: bool)
    ensures
        r == contains_any(hay@, needles@),
{
    let mut k: usize = 0;
    while k < needles.len()
        invariant
            k <= needles@.len(),
            forall|j: int| 0 <= j < k ==> !contains(hay@, needles@[j]@),
        decreases needles@.len() - k,
    {
        let n = chars_of(needles[k]);
        if contains_chars(hay, &n) {
            return true;
        }
        k = k + 1;
    }
    false
}

/// Index of the first `c` in `s`.
pub fn find_char(s: &[char], c: char) -> (r: Option<usize>)
    ensures
        r == (match first_index_of(s@, c) {
            Some(i) => Some(i as usize),
            None => None::<usize>,
        }),
        r is Some ==> r->0 < s@.len(),
{
    let mut i: usize = 0;
    while i < s.len()
        invariant
            i <= s@.len(),
            forall|j: int| 0 <= j < i ==> s@[j] != c,
        decreases s@.len() - i,
    {
        if s[i] == c {
            assert(exists|k: int| 0 <= k < s@.len() && s@[k] == c);
            let ghost w = choose|k: int|
                0 <= k < s@.len() && s@[k] == c && forall|j: int| 0 <= j < k ==> s@[j] != c;
            assert(w == i) by {
                if w < i {
                } else if w > i {
                }
            }
            return Some(i);
        }
        i = i + 1;
    }
    None
}

/// Index of the last `c` in `s`.
pub fn rfind_char(s: &[char], c: char) -> (r: Option<usize>)
    ensures
        r == (match last_index_of(s@, c) {
            Some(i) => Some(i as usize),
            None => None::<usize>,
        }),
        r is Some ==> r->0 < s@.len(),
{
    let mut i: usize = s.len();
    while i > 0
        invariant
            i <= s@.len(),
            forall|j: int| i <= j < s@.len() ==> s@[j] != c,
        decreases i,
    {
        if s[i - 1] == c {
            let k = i - 1;
            assert(exists|m: int| 0 <= m < s@.len() && s@[m] == c);
            let ghost w = choose|m: int|
                0 <= m < s@.len() && s@[m] == c && forall|j: int| m < j < s@.len() ==> s@[j] != c;
            assert(w == k) by {
                if w < k {
                } else if w > k {
                }
            }
            return Some(k);
        }
        i = i - 1;
    }
    None
}

// ---------------------------------------------------------------------
// Whitespace and trimming
// ---------------------------------------------------------------------

/// `char::is_whitespace`.
pub fn is_space_char(c: char) -> (r: bool)
    ensures
        r == is_space(c),
{
    let u = c as u32;
    (0x09 <= u && u <= 0x0D) || u == 0x20 || u == 0x85 || u == 0xA0 || u == 0x1680 || (0x2000
        <= u && u <= 0x200A) || u == 0x2028 || u == 0x2029 || u == 0x202F || u == 0x205F || u
        == 0x3000
}

proof fn lemma_trim_start_skip(s: Seq<char>, i: int)
    requires
        0 <= i <= s.len(),
        forall|j: int| 0 <= j < i ==> is_space(s[j]),
    ensures
        trim_start(s) == trim_start(s.skip(i)),
    decreases i,
{
    if i > 0 {
        lemma_trim_start_skip(s.drop_first(), i - 1);
        assert(s.drop_first().skip(i - 1) == s.skip(i));
    } else {
        assert(s.skip(0) == s);
    }
}

proof fn lemma_trim_end_take(s: Seq<char>, strip: spec_fn(char) -> bool, i: int)
    requires
        0 <= i <= s.len(),
        forall|j: int| i <= j < s.len() ==> strip(s[j]),
    ensures
        trim_end_of(s, strip) == trim_end_of(s.take(i), strip),
    decreases s.len() - i,
{
    if i < s.len() {
        lemma_trim_end_take(s.drop_last(), strip, i);
        assert(s.drop_last().take(i) == s.take(i));
    } else {
        assert(s.take(i) == s);
    }
}

/// `str::trim`.
pub fn trim_chars(s: &[char]) -> (r: Vec<char>)
    ensures
        r@ == trim(s@),
{
    let mut start: usize = 0;
    while start < s.len() && is_space_char(s[start])
        invariant
            start <= s@.len(),
            forall|j: int| 0 <= j < start ==> is_space(s@[j]),
        decreases s@.len() - start,
    {
        start = start + 1;
    }
    proof {
        lemma_trim_start_skip(s@, start as int);
    }
    let ghost t = s@.skip(start as int);
    assert(trim_start(t) == t);
    let mut end: usize = s.len();
    while end > start && is_space_char(s[end - 1])
        invariant
            start <= end <= s@.len(),
            forall|j: int| end <= j < s@.len() ==> is_space(s@[j]),
        decreases end,
    {
        end = end - 1;
    }
    let r = slice_to_vec(s, start, end);
    proof {
        let strip = |c: char| is_space(c);
        lemma_trim_end_take(t, strip, end - start);
        assert(t.take(end - start) == s@.subrange(start as int, end as int));
    }
    r
}

/// `str::trim`, on a string.
pub fn trim_str(s: &str) -> (r: String)
    ensures
        r@ == trim(s@),
{
    let v = chars_of(s);
    let t = trim_chars(&v);
    string_of(&t)
}

/// `str::trim_end_matches` with a set of characters.
pub fn trim_end_matching(s: &[char], set: &[char]) -> (r: Vec<char>)
    ensures
        r@ == trim_end_of(s@, |c: char| set@.contains(c)),
{
    let ghost strip = |c: char| set@.contains(c);
    let mut end: usize = s.len();
    while end > 0 && char_in(set, s[end - 1])
        invariant
            end <= s@.len(),
            forall|j: int| end <= j < s@.len() ==> set@.contains(#[trigger] s@[j]),
        decreases end,
    {
        end = end - 1;
    }
    proof {
        lemma_trim_end_take(s@, strip, end as int);
        let t = s@.take(end as int);
        assert(end == 0 || !strip(t.last()));
        assert(trim_end_of(t, strip) == t);
        assert(t == s@.subrange(0, end as int));
    }
    slice_to_vec(s, 0, end)
}

/// Whether `c` is in `set`.
pub fn char_in(set: &[char], c: char) -> (r: bool)
    ensures
        r == set@.contains(c),
{
    let mut i: usize = 0;
    while i < set.len()
        invariant
            i <= set@.len(),
            forall|j: int| 0 <= j < i ==> set@[j] != c,
        decreases set@.len() - i,
    {
        if set[i] == c {
            assert(set@[i as int] == c);
            return true;
        }
        i = i + 1;
    }
    false
}

/// `str::trim_start_matches` with a string pattern.
pub fn strip_prefixes_chars(s: &[char], prefix: &[char]) -> (r: Vec<char>)
    ensures
        r@ == strip_prefixes(s@, prefix@),
{
    if prefix.len() == 0 {
        return slice_to_vec(s, 0, s.len());
    }
    let mut i: usize = 0;
    assert(s@.skip(0) == s@);
    let mut at = occurs_at_exec(s, prefix, i);
    while at
        invariant
            i <= s@.len(),
            prefix@.len() > 0,
            at == occurs_at(s@, prefix@, i as int),
            strip_prefixes(s@, prefix@) == strip_prefixes(s@.skip(i as int), prefix@),
        decreases s@.len() - i,
    {
        proof {
            let t = s@.skip(i as int);
            assert(t.subrange(0, prefix@.len() as int) == s@.subrange(
                i as int,
                i + prefix@.len(),
            ));
            assert(t.skip(prefix@.len() as int) == s@.skip(i + prefix@.len()));
        }
        assert(i + prefix@.len() <= s@.len());
        assert(i + prefix.len() <= s.len());
        i = i + prefix.len();
        at = occurs_at_exec(s, prefix, i);
    }
    proof {
        let t = s@.skip(i as int);
        if starts_with(t, prefix@) {
            assert(t.subrange(0, prefix@.len() as int) == s@.subrange(
                i as int,
                i + prefix@.len(),
            ));
        }
        assert(t == s@.subrange(i as int, s@.len() as int));
    }
    slice_to_vec(s, i, s.len())
}

// ---------------------------------------------------------------------
// Rewriting
// ---------------------------------------------------------------------

/// `str::replace`.
pub fn replace_chars(s: &[char], from: &[char], to: &[char]) -> (r: Vec<char>)
    ensures
        r@ == replace(s@, from@, to@),
{
    let mut out: Vec<char> = Vec::new();
    if from.len() == 0 {
        return slice_to_vec(s, 0, s.len());
    }
    let mut i: usize = 0;
    assert(s@.skip(0) == s@);
    while i < s.len()
        invariant
            i <= s@.len(),
            from@.len() > 0,
            out@ + replace(s@.skip(i as int), from@, to@) == replace(s@, from@, to@),
        decreases s@.len() - i,
    {
        let ghost t = s@.skip(i as int);
        if occurs_at_exec(s, from, i) {
            proof {
                assert(t.take(from@.len() as int) == s@.subrange(i as int, i + from@.len()));
                assert(t.skip(from@.len() as int) == s@.skip(i + from@.len()));
            }
            append_chars(&mut out, to);
            i = i + from.len();
            assert(out@ + replace(s@.skip(i as int), from@, to@) == replace(s@, from@, to@));
        } else {
            proof {
                if t.len() >= from@.len() {
                    assert(t.take(from@.len() as int) == s@.subrange(
                        i as int,
                        i + from@.len(),
                    ));
                }
                assert(t.drop_first() == s@.skip(i + 1));
                assert(t[0] == s@[i as int]);
            }
            out.push(s[i]);
            i = i + 1;
            assert(out@ + replace(s@.skip(i as int), from@, to@) =~= replace(s@, from@, to@));
        }
    }
    assert(s@.skip(i as int).len() == 0);
    assert(out@ + Seq::<char>::empty() == out@);
    out
}

/// `str::replace`, on strings.
pub fn replace_str(s: &str, from: &str, to: &str) -> (r: String)
    ensures
        r@ == replace(s@, from@, to@),
{
    let a = chars_of(s);
    let f = chars_of(from);
    let t = chars_of(to);
    let r = replace_chars(&a, &f, &t);
    string_of(&r)
}

/// Runs of whitespace squeezed to single spaces, and none at either end.
pub fn collapse_whitespace_str(s: &str) -> (r: String)
    ensures
        r@ == collapse_whitespace(s@),
{
    let v = chars_of(s);
    let mut out: Vec<char> = Vec::new();
    let mut started = false;
    let mut gap = false;
    let mut i: usize = 0;
    assert(v@.skip(0) == v@);
    while i < v.len()
        invariant
            i <= v@.len(),
            out@ + collapse_from(v@.skip(i as int), started, gap) == collapse_whitespace(v@),
        decreases v@.len() - i,
    {
        let ghost t = v@.skip(i as int);
        assert(t.drop_first() == v@.skip(i + 1));
        let c = v[i];
        if is_space_char(c) {
            gap = true;
        } else {
            if started && gap {
                out.push(' ');
            }
            out.push(c);
            started = true;
            gap = false;
            assert(out@ + collapse_from(v@.skip(i + 1), started, gap) =~= collapse_whitespace(
                v@,
            ));
        }
        i = i + 1;
    }
    assert(out@ + Seq::<char>::empty() == out@);
    string_of(&out)
}

/// `parts` joined by `sep`.
pub fn join_strings(parts: &Vec<String>, sep: &str) -> (r: String)
    ensures
        r@ == join(views(parts@), sep@),
{
    let ghost vs = views(parts@);
    let sepv = chars_of(sep);
    let mut out: Vec<char> = Vec::new();
    let mut i: usize = 0;
    while i < parts.len()
        invariant
            i <= parts@.len(),
            vs == views(parts@),
            sepv@ == sep@,
            out@ == join(vs.take(i as int), sep@),
        decreases parts@.len() - i,
    {
        let piece = chars_of(parts[i].as_str());
        proof {
            let p = vs.take(i + 1);
            assert(p.drop_last() == vs.take(i as int));
            assert(p.last() == parts@[i as int]@);
        }
        if i > 0 {
            append_chars(&mut out, &sepv);
        } else {
            assert(vs.take(1) == seq![vs[0]]);
        }
        append_chars(&mut out, &piece);
        i = i + 1;
    }
    assert(vs.take(parts@.len() as int) == vs);
    string_of(&out)
}

// ---------------------------------------------------------------------
// Numbers
// ---------------------------------------------------------------------

/// The digit character for `d`, which is below ten.
pub open spec fn digit_char(d: nat) -> char {
    if d == 0 {
        '0'
    } else if d == 1 {
        '1'
    } else if d == 2 {
        '2'
    } else if d == 3 {
        '3'
    } else if d == 4 {
        '4'
    } else if d == 5 {
        '5'
    } else if d == 6 {
        '6'
    } else if d == 7 {
        '7'
    } else if d == 8 {
        '8'
    } else {
        '9'
    }
}

/// `n` written in decimal, as `Display` writes an unsigned integer.
pub open spec fn decimal(n: nat) -> Seq<char>
    decreases n,
{
    if n < 10 {
        seq![digit_char(n)]
    } else {
        decimal(n / 10).push(digit_char(n % 10))
    }
}

/// `n` written in decimal.
pub fn decimal_string(n: u64) -> (r: String)
    ensures
        r@ == decimal(n as nat),
{
    let mut out: Vec<char> = Vec::new();
    push_decimal(&mut out, n);
    assert(out@ == decimal(n as nat));
    string_of(&out)
}

/// Append `n` in decimal.
fn push_decimal(out: &mut Vec<char>, n: u64)
    ensures
        final(out)@ == old(out)@ + decimal(n as nat),
    decreases n,
{
    if n >= 10 {
        push_decimal(out, n / 10);
    }
    let c = char_of_digit(n % 10);
    out.push(c);
    proof {
        if n < 10 {
            assert(decimal(n as nat) == seq![c]);
        }
    }
}

/// The character for a digit.
fn char_of_digit(d: u64) -> (c: char)
    requires
        d < 10,
    ensures
        c == digit_char(d as nat),
{
    match d {
        0 => '0',
        1 => '1',
        2 => '2',
        3 => '3',
        4 => '4',
        5 => '5',
        6 => '6',
        7 => '7',
        8 => '8',
        _ => '9',
    }
}

/// `n` written in decimal, with a leading `-` when negative.
pub open spec fn signed_decimal(n: int) -> Seq<char> {
    if n < 0 {
        seq!['-'] + decimal((-n) as nat)
    } else {
        decimal(n as nat)
    }
}

/// `n` written in decimal, as `i64::to_string` writes it.
pub fn signed_decimal_string(n: i64) -> (r: String)
    ensures
        r@ == signed_decimal(n as int),
{
    if n < 0 {
        let magnitude: u64 = if n == i64::MIN {
            9223372036854775808u64
        } else {
            (-n) as u64
        };
        let digits = decimal_string(magnitude);
        let r = concat("-", digits.as_str());
        proof {
            reveal_strlit("-");
        }
        r
    } else {
        decimal_string(n as u64)
    }
}

// ---------------------------------------------------------------------
// Words
// ---------------------------------------------------------------------

/// The word in progress, as a list of at most one word.
pub open spec fn pending_word(cur: Seq<char>) -> Seq<Seq<char>> {
    if cur.len() > 0 {
        seq![cur]
    } else {
        Seq::empty()
    }
}

/// The whitespace-separated words of `s`, the first one continuing `cur`.
pub open spec fn words_from(s: Seq<char>, cur: Seq<char>) -> Seq<Seq<char>>
    decreases s.len(),
{
    if s.len() == 0 {
        pending_word(cur)
    } else if is_space(s[0]) {
        pending_word(cur) + words_from(s.drop_first(), Seq::empty())
    } else {
        words_from(s.drop_first(), cur.push(s[0]))
    }
}

/// `str::split_whitespace`: the words of `s`, in order.
pub open spec fn words(s: Seq<char>) -> Seq<Seq<char>> {
    words_from(s, Seq::empty())
}

/// The words of `s`, in order.
pub fn split_words(s: &str) -> (r: Vec<String>)
    ensures
        views(r@) == words(s@),
{
    let chars = chars_of(s);
    let mut out: Vec<String> = Vec::new();
    let mut word: Vec<char> = Vec::new();
    let mut i: usize = 0;
    assert(chars@.skip(0) == chars@);
    while i < chars.len()
        invariant
            i <= chars@.len(),
            chars@ == s@,
            views(out@) + words_from(chars@.skip(i as int), word@) == words(s@),
        decreases chars@.len() - i,
    {
        let ghost rest = chars@.skip(i as int);
        assert(rest.drop_first() == chars@.skip(i + 1));
        let c = chars[i];
        if is_space_char(c) {
            if word.len() > 0 {
                let ghost before = out@;
                let w = string_of(&word);
                out.push(w);
                proof {
                    assert(views(out@) =~= views(before) + seq![word@]);
                    assert(views(out@) + words_from(rest.drop_first(), Seq::empty()) =~= views(before)
                        + (pending_word(word@) + words_from(rest.drop_first(), Seq::empty())));
                }
            } else {
                proof {
                    assert(pending_word(word@) =~= Seq::<Seq<char>>::empty());
                    assert(pending_word(word@) + words_from(rest.drop_first(), Seq::empty())
                        =~= words_from(rest.drop_first(), Seq::empty()));
                }
            }
            word = Vec::new();
        } else {
            word.push(c);
        }
        i = i + 1;
    }
    if word.len() > 0 {
        let ghost before = out@;
        let w = string_of(&word);
        out.push(w);
        proof {
            assert(views(out@) =~= views(before) + seq![word@]);
        }
    } else {
        proof {
            assert(views(out@) + pending_word(word@) =~= views(out@));
        }
    }
    out
}

} // verus!
