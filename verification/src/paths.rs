//! Path strings: joining, suffix tests and the standard library's
//! component-aware path operations that the configuration logic needs.

use vstd::prelude::*;

verus! {

/// `s` ends with `suffix`.
pub open spec fn ends_with(s: Seq<char>, suffix: Seq<char>) -> bool {
    suffix.len() <= s.len() && s.subrange(s.len() - suffix.len(), s.len() as int) == suffix
}

/// Joining `rel` onto `base` as a Unix path: an absolute `rel` replaces
/// `base`; otherwise one separator is put between them unless `base` is
/// empty or already ends in one.
pub open spec fn spec_join(base: Seq<char>, rel: Seq<char>) -> Seq<char> {
    if rel.len() > 0 && rel[0] == '/' {
        rel
    } else if base.len() == 0 || base.last() == '/' {
        base + rel
    } else {
        base + seq!['/'] + rel
    }
}

/// `base.join(rel)` on Unix, as `PathBuf::push` defines it.
pub fn join_path(base: &str, rel: &str) -> (r: String)
    ensures
        r@ == spec_join(base@, rel@),
{
    let rel_len = rel.unicode_len();
    if rel_len > 0 && rel.get_char(0) == '/' {
        return rel.to_owned();
    }
    let base_len = base.unicode_len();
    let mut out = String::from_str(base);
    if base_len > 0 && base.get_char(base_len - 1) != '/' {
        proof {
            reveal_strlit("/");
        }
        out.append("/");
    }
    out.append(rel);
    out
}

/// Whether two strings hold the same characters.
pub fn str_eq(a: &str, b: &str) -> (r: bool)
    ensures
        r == (a@ == b@),
{
    let n = a.unicode_len();
    if n != b.unicode_len() {
        return false;
    }
    let mut i: usize = 0;
    while i < n
        invariant
            n == a@.len(),
            n == b@.len(),
            i <= n,
            forall|j: int| 0 <= j < i ==> a@[j] == b@[j],
        decreases n - i,
    {
        if a.get_char(i) != b.get_char(i) {
            return false;
        }
        i = i + 1;
    }
    assert(a@ =~= b@);
    true
}

/// `s` starts with `prefix`.
pub open spec fn starts_with(s: Seq<char>, prefix: Seq<char>) -> bool {
    prefix.len() <= s.len() && s.subrange(0, prefix.len() as int) == prefix
}

/// Whether `s` starts with `prefix`.
pub fn has_prefix(s: &str, prefix: &str) -> (r: bool)
    ensures
        r == starts_with(s@, prefix@),
{
    let n = s.unicode_len();
    let m = prefix.unicode_len();
    if m > n {
        return false;
    }
    let mut i: usize = 0;
    while i < m
        invariant
            n == s@.len(),
            m == prefix@.len(),
            m <= n,
            i <= m,
            forall|j: int| 0 <= j < i ==> s@[j] == prefix@[j],
        decreases m - i,
    {
        if s.get_char(i) != prefix.get_char(i) {
            assert(s@.subrange(0, m as int)[i as int] != prefix@[i as int]);
            return false;
        }
        i = i + 1;
    }
    assert(s@.subrange(0, m as int) =~= prefix@);
    true
}

/// Whether `s` ends with `suffix`.
pub fn has_suffix(s: &str, suffix: &str) -> (r: bool)
    ensures
        r == ends_with(s@, suffix@),
{
    let n = s.unicode_len();
    let m = suffix.unicode_len();
    if m > n {
        return false;
    }
    let off = n - m;
    let mut i: usize = 0;
    while i < m
        invariant
            n == s@.len(),
            m == suffix@.len(),
            off == n - m,
            i <= m,
            forall|j: int| 0 <= j < i ==> s@[off + j] == suffix@[j],
        decreases m - i,
    {
        if s.get_char(off + i) != suffix.get_char(i) {
            assert(s@.subrange(off as int, n as int)[i as int] != suffix@[i as int]);
            return false;
        }
        i = i + 1;
    }
    assert(s@.subrange(off as int, n as int) =~= suffix@);
    true
}


/// The view of an optional string.
pub open spec fn opt_view(o: Option<&str>) -> Option<Seq<char>> {
    match o {
        Some(s) => Some(s@),
        None => None,
    }
}

/// What `std::path::Path::strip_prefix` gives: the part of `path` after the
/// leading whole components that make up `base`, or nothing when `base`
/// does not lead `path` component by component.
pub uninterp spec fn spec_strip_prefix(path: Seq<char>, base: Seq<char>) -> Option<Seq<char>>;

/// What `std::path::Path::file_stem` gives for `path`.
pub uninterp spec fn spec_file_stem(path: Seq<char>) -> Option<Seq<char>>;

/// What `std::path::Path::with_file_name` gives for `path` and `name`.
pub uninterp spec fn spec_with_file_name(path: Seq<char>, name: Seq<char>) -> Seq<char>;

/// Calls `std::path::Path::strip_prefix`. The contract claims only that
/// the result, taken as characters, is the value named `spec_strip_prefix`
/// of the two arguments; the component rules themselves are left to the
/// standard library.
#[verifier::external_body]
pub(crate) fn strip_prefix(path: &str, base: &str) -> (r: Option<String>)
    ensures
        match r {
            Some(s) => spec_strip_prefix(path@, base@) == Some(s@),
            None => spec_strip_prefix(path@, base@) is None,
        },
{
    std::path::Path::new(path).strip_prefix(base).ok().map(|p| p.to_string_lossy().into_owned())
}

/// Calls `std::path::Path::file_stem`. The contract claims only that the
/// result is the value named `spec_file_stem` of the argument.
#[verifier::external_body]
pub(crate) fn file_stem(path: &str) -> (r: Option<String>)
    ensures
        match r {
            Some(s) => spec_file_stem(path@) == Some(s@),
            None => spec_file_stem(path@) is None,
        },
{
    std::path::Path::new(path).file_stem().map(|s| s.to_string_lossy().into_owned())
}

/// Calls `std::path::Path::with_file_name`. The contract claims only that
/// the result is the value named `spec_with_file_name` of the arguments.
#[verifier::external_body]
pub(crate) fn with_file_name(path: &str, name: &str) -> (r: String)
    ensures
        r@ == spec_with_file_name(path@, name@),
{
    std::path::Path::new(path).with_file_name(name).to_string_lossy().into_owned()
}

/// What `std::path::Path::with_extension` gives for `path` and `extension`.
pub uninterp spec fn spec_with_extension(path: Seq<char>, extension: Seq<char>) -> Seq<char>;

/// Calls `std::path::Path::with_extension`, which panics on an extension
/// that holds a path separator; such extensions are excluded. The contract
/// claims only that the result is the value named `spec_with_extension` of
/// the arguments.
#[verifier::external_body]
pub(crate) fn with_extension(path: &str, extension: &str) -> (r: String)
    requires
        !extension@.contains('/'),
    ensures
        r@ == spec_with_extension(path@, extension@),
{
    std::path::Path::new(path).with_extension(extension).to_string_lossy().into_owned()
}

/// Unicode `White_Space`, as `char::is_whitespace` defines it.
pub open spec fn is_whitespace(c: char) -> bool {
    ||| '\u{9}' <= c <= '\u{d}'
    ||| c == ' ' || c == '\u{85}' || c == '\u{a0}' || c == '\u{1680}'
    ||| '\u{2000}' <= c <= '\u{200a}'
    ||| c == '\u{2028}' || c == '\u{2029}' || c == '\u{202f}' || c == '\u{205f}' || c == '\u{3000}'
}

/// `s` without its leading whitespace.
pub open spec fn trim_start(s: Seq<char>) -> Seq<char>
    decreases s.len(),
{
    if s.len() > 0 && is_whitespace(s[0]) {
        trim_start(s.drop_first())
    } else {
        s
    }
}

/// `s` without its trailing whitespace.
pub open spec fn trim_end(s: Seq<char>) -> Seq<char>
    decreases s.len(),
{
    if s.len() > 0 && is_whitespace(s.last()) {
        trim_end(s.drop_last())
    } else {
        s
    }
}

/// `s` without leading and trailing whitespace.
pub open spec fn spec_trim(s: Seq<char>) -> Seq<char> {
    trim_end(trim_start(s))
}

/// Whether `c` is Unicode `White_Space`.
pub fn char_is_whitespace(c: char) -> (r: bool)
    ensures
        r == is_whitespace(c),
{
    ('\u{9}' <= c && c <= '\u{d}') || c == ' ' || c == '\u{85}' || c == '\u{a0}' || c == '\u{1680}'
        || ('\u{2000}' <= c && c <= '\u{200a}') || c == '\u{2028}' || c == '\u{2029}' || c == '\u{202f}'
        || c == '\u{205f}' || c == '\u{3000}'
}

/// `s` without leading and trailing Unicode `White_Space`, as `str::trim`
/// documents it.
pub fn trim(s: &str) -> (r: &str)
    ensures
        r@ == spec_trim(s@),
{
    let n = s.unicode_len();
    let mut a: usize = 0;
    assert(s@.subrange(0, n as int) =~= s@);
    loop
        invariant
            n == s@.len(),
            a <= n,
            trim_start(s@) == trim_start(s@.subrange(a as int, n as int)),
        ensures
            a <= n,
            trim_start(s@) == s@.subrange(a as int, n as int),
        decreases n - a,
    {
        let ghost t = s@.subrange(a as int, n as int);
        if a == n {
            assert(t.len() == 0);
            break;
        }
        if !char_is_whitespace(s.get_char(a)) {
            assert(t[0] == s@[a as int]);
            break;
        }
        assert(t.drop_first() =~= s@.subrange(a + 1, n as int));
        a = a + 1;
    }
    let mut b: usize = n;
    loop
        invariant
            n == s@.len(),
            a <= b <= n,
            trim_start(s@) == s@.subrange(a as int, n as int),
            trim_end(s@.subrange(a as int, n as int)) == trim_end(s@.subrange(a as int, b as int)),
        ensures
            a <= b <= n,
            trim_end(s@.subrange(a as int, n as int)) == s@.subrange(a as int, b as int),
        decreases b - a,
    {
        let ghost t = s@.subrange(a as int, b as int);
        if b == a {
            assert(t.len() == 0);
            break;
        }
        if !char_is_whitespace(s.get_char(b - 1)) {
            assert(t.last() == s@[b - 1]);
            break;
        }
        assert(t.drop_last() =~= s@.subrange(a as int, b - 1));
        b = b - 1;
    }
    s.substring_char(a, b)
}

/// Every character of `d` is an ASCII decimal digit.
pub open spec fn all_digits(d: Seq<char>) -> bool {
    forall|i: int| 0 <= i < d.len() ==> '0' <= #[trigger] d[i] <= '9'
}

/// The number that the decimal digits `d` write.
pub open spec fn digits_value(d: Seq<char>) -> int
    decreases d.len(),
{
    if d.len() == 0 {
        0
    } else {
        digits_value(d.drop_last()) * 10 + (d.last() as int - '0' as int)
    }
}

/// What `<u8 as FromStr>::from_str` gives for `s`: an optional `+` sign,
/// then at least one decimal digit and nothing else, writing a number no
/// greater than 255.
pub open spec fn spec_parse_u8(s: Seq<char>) -> Option<u8> {
    let d = if s.len() > 0 && s[0] == '+' { s.drop_first() } else { s };
    if d.len() > 0 && all_digits(d) && digits_value(d) <= 255 {
        Some(digits_value(d) as u8)
    } else {
        None
    }
}

/// The value of decimal digits is never negative.
proof fn lemma_digits_value_nonneg(d: Seq<char>)
    requires
        all_digits(d),
    ensures
        digits_value(d) >= 0,
    decreases d.len(),
{
    if d.len() > 0 {
        assert(all_digits(d.drop_last()));
        lemma_digits_value_nonneg(d.drop_last());
        assert('0' <= d[d.len() - 1]);
    }
}

/// A prefix of decimal digits writes no larger a number than the whole.
proof fn lemma_digits_value_prefix(d: Seq<char>, k: int)
    requires
        all_digits(d),
        0 <= k <= d.len(),
    ensures
        digits_value(d.subrange(0, k)) <= digits_value(d),
    decreases d.len(),
{
    if k < d.len() {
        let p = d.drop_last();
        assert(all_digits(p));
        assert(p.subrange(0, k) =~= d.subrange(0, k));
        lemma_digits_value_prefix(p, k);
        lemma_digits_value_nonneg(p);
        assert('0' <= d[d.len() - 1]);
    } else {
        assert(d.subrange(0, k) =~= d);
    }
}

/// Parses an unsigned byte as `<u8 as FromStr>::from_str` documents it:
/// an optional `+`, then decimal digits only, at most 255.
pub fn parse_u8(s: &str) -> (r: Option<u8>)
    ensures
        r == spec_parse_u8(s@),
{
    let n = s.unicode_len();
    let mut start: usize = 0;
    if n > 0 && s.get_char(0) == '+' {
        start = 1;
    }
    let ghost d = if s@.len() > 0 && s@[0] == '+' { s@.drop_first() } else { s@ };
    assert(d =~= s@.subrange(start as int, n as int));
    if start >= n {
        return None;
    }
    let mut v: u32 = 0;
    let mut i: usize = start;
    while i < n
        invariant
            n == s@.len(),
            start <= i <= n,
            start < n,
            d == s@.subrange(start as int, n as int),
            d == (if s@.len() > 0 && s@[0] == '+' { s@.drop_first() } else { s@ }),
            all_digits(s@.subrange(start as int, i as int)),
            v == digits_value(s@.subrange(start as int, i as int)),
            v <= 255,
        decreases n - i,
    {
        let c = s.get_char(i);
        if !('0' <= c && c <= '9') {
            assert(d[i - start] == c);
            return None;
        }
        let ghost p1 = s@.subrange(start as int, i + 1);
        assert(p1.drop_last() =~= s@.subrange(start as int, i as int));
        assert(p1.last() == c);
        assert(all_digits(p1));
        let digit: u32 = (c as u32) - ('0' as u32);
        v = v * 10 + digit;
        if v > 255 {
            proof {
                if all_digits(d) {
                    assert(d.subrange(0, i + 1 - start) =~= p1);
                    lemma_digits_value_prefix(d, i + 1 - start);
                }
            }
            return None;
        }
        i = i + 1;
    }
    assert(s@.subrange(start as int, n as int) =~= d);
    Some(v as u8)
}

/// `~` expanded against the home directory: a path whose first component
/// is `~` becomes the rest of it joined onto `home`; any other path, or
/// any path when no home is known, is kept as it is.
pub open spec fn spec_expand_tilde(p: Seq<char>, home: Option<Seq<char>>) -> Seq<char> {
    match spec_strip_prefix(p, seq!['~']) {
        Some(rest) => match home {
            Some(h) => spec_join(h, rest),
            None => p,
        },
        None => p,
    }
}

/// Expands a leading `~` component against `home` (the value of `$HOME`,
/// if it is set and valid Unicode).
pub fn expand_tilde(p: &str, home: Option<&str>) -> (r: String)
    ensures
        r@ == spec_expand_tilde(p@, opt_view(home)),
{
    let tilde = "~";
    proof {
        reveal_strlit("~");
        assert(tilde@ =~= seq!['~']);
    }
    match strip_prefix(p, tilde) {
        Some(rest) => match home {
            Some(h) => join_path(h, rest.as_str()),
            None => p.to_owned(),
        },
        None => p.to_owned(),
    }
}

} // verus!
