//! Operations on strings, byte strings and slash-separated paths.
//!
//! Strings are described by their sequence of characters, byte strings by
//! their sequence of bytes.

use vstd::prelude::*;
use vstd::string::*;
use vstd::utf8::*;

verus! {

broadcast use vstd::string::group_string_axioms;

/// The characters of a string, in order.
pub fn to_chars(s: &str) -> (r: Vec<char>)
    ensures
        r@ == s@,
{
    let mut r: Vec<char> = Vec::new();
    for c in it: s.chars()
        invariant
            it.seq() == s@,
            r@ == s@.take(it.index()),
    {
        r.push(c);
    }
    assert(s@.take(s@.len() as int) =~= s@);
    r
}

/// Whether two strings hold the same characters.
pub fn same_text(a: &str, b: &str) -> (r: bool)
    ensures
        r == (a@ == b@),
{
    let x = to_chars(a);
    let y = to_chars(b);
    if x.len() != y.len() {
        return false;
    }
    let mut i: usize = 0;
    while i < x.len()
        invariant
            x@ == a@,
            y@ == b@,
            x@.len() == y@.len(),
            i <= x.len(),
            forall|j: int| 0 <= j < i ==> x@[j] == y@[j],
        decreases x.len() - i,
    {
        if x[i] != y[i] {
            return false;
        }
        i += 1;
    }
    assert(a@ =~= b@);
    true
}

/// Whether `s` begins with `prefix`.
pub fn starts_with(s: &str, prefix: &str) -> (r: bool)
    ensures
        r == prefix@.is_prefix_of(s@),
{
    let n: usize = s.unicode_len();
    let m: usize = prefix.unicode_len();
    if m > n {
        return false;
    }
    same_text(s.substring_char(0, m), prefix)
}

/// Whether `s` ends with `suffix`.
pub fn ends_with(s: &str, suffix: &str) -> (r: bool)
    ensures
        r == suffix@.is_suffix_of(s@),
{
    let n: usize = s.unicode_len();
    let m: usize = suffix.unicode_len();
    if m > n {
        return false;
    }
    same_text(s.substring_char(n - m, n), suffix)
}

/// What follows `prefix` in a string that begins with it.
pub open spec fn without_prefix(s: Seq<char>, prefix: Seq<char>) -> Option<Seq<char>> {
    if prefix.is_prefix_of(s) {
        Some(s.skip(prefix.len() as int))
    } else {
        None
    }
}

/// The rest of `s` after `prefix`, or `None` when `s` does not begin with it.
pub fn strip_prefix<'a>(s: &'a str, prefix: &str) -> (r: Option<&'a str>)
    ensures
        r is Some == without_prefix(s@, prefix@) is Some,
        r is Some ==> r->0@ == without_prefix(s@, prefix@)->0,
{
    if starts_with(s, prefix) {
        let n: usize = s.unicode_len();
        let m: usize = prefix.unicode_len();
        assert(s@.subrange(m as int, n as int) =~= s@.skip(m as int));
        Some(s.substring_char(m, n))
    } else {
        None
    }
}

/// `s` with every trailing repetition of `suffix` taken away.
pub open spec fn without_trailing(s: Seq<char>, suffix: Seq<char>) -> Seq<char>
    decreases s.len(),
{
    if suffix.len() > 0 && suffix.is_suffix_of(s) {
        without_trailing(s.take(s.len() - suffix.len()), suffix)
    } else {
        s
    }
}

/// `s` without the repetitions of `suffix` at its end.
pub fn trim_end_matches<'a>(s: &'a str, suffix: &str) -> (r: &'a str)
    ensures
        r@ == without_trailing(s@, suffix@),
{
    let m: usize = suffix.unicode_len();
    let mut rest: &'a str = s;
    if m == 0 {
        return rest;
    }
    while ends_with(rest, suffix)
        invariant
            m == suffix@.len(),
            m > 0,
            without_trailing(rest@, suffix@) == without_trailing(s@, suffix@),
        decreases rest@.len(),
    {
        let n: usize = rest.unicode_len();
        let ghost before = rest@;
        rest = rest.substring_char(0, n - m);
        assert(rest@ =~= before.take(before.len() - suffix@.len()));
    }
    rest
}

/// Whether `part` occurs somewhere in `s`.
pub open spec fn occurs_in(part: Seq<char>, s: Seq<char>) -> bool {
    exists|i: int| 0 <= i <= s.len() && part.is_prefix_of(#[trigger] s.skip(i))
}

/// Whether `s` holds `part`.
pub fn contains(s: &str, part: &str) -> (r: bool)
    ensures
        r == occurs_in(part@, s@),
{
    let n: usize = s.unicode_len();
    let mut i: usize = 0;
    while i < n
        invariant
            n == s@.len(),
            i <= n,
            forall|j: int| 0 <= j < i ==> !part@.is_prefix_of(#[trigger] s@.skip(j)),
        decreases n - i,
    {
        let rest = s.substring_char(i, n);
        assert(rest@ =~= s@.skip(i as int));
        if starts_with(rest, part) {
            return true;
        }
        i += 1;
    }
    let last = s.substring_char(n, n);
    assert(last@ =~= s@.skip(n as int));
    starts_with(last, part)
}

/// The concatenation of two strings.
pub fn concat(a: &str, b: &str) -> (r: String)
    ensures
        r@ == a@ + b@,
{
    let mut r = a.to_owned();
    r.append(b);
    r
}

/// The concatenation of three strings.
pub fn concat3(a: &str, b: &str, c: &str) -> (r: String)
    ensures
        r@ == a@ + b@ + c@,
{
    let mut r = concat(a, b);
    r.append(c);
    r
}

/// `part` taken relative to the directory `base`: an absolute `part` stands
/// for itself, any other is put behind `base` and a single separator.
pub open spec fn joined(base: Seq<char>, part: Seq<char>) -> Seq<char> {
    if part.len() > 0 && part[0] == '/' {
        part
    } else if base.len() == 0 || base.last() == '/' {
        base + part
    } else {
        base + "/"@ + part
    }
}

/// Joins a path to a directory.
pub fn join(base: &str, part: &str) -> (r: String)
    ensures
        r@ == joined(base@, part@),
{
    let n: usize = base.unicode_len();
    let m: usize = part.unicode_len();
    if m > 0 && part.get_char(0) == '/' {
        part.to_owned()
    } else if n == 0 || base.get_char(n - 1) == '/' {
        concat(base, part)
    } else {
        concat3(base, "/", part)
    }
}

/// `path` without its trailing separators and without the trailing `.`
/// components, which name nothing; a `.` at the very start stays.
pub open spec fn without_trailing_dots(path: Seq<char>) -> Seq<char>
    decreases path.len(),
{
    if path.len() == 0 {
        path
    } else if path.last() == '/' {
        without_trailing_dots(path.drop_last())
    } else if path.last() == '.' && path.len() >= 2 && path[path.len() - 2] == '/' {
        without_trailing_dots(path.drop_last())
    } else {
        path
    }
}

/// What follows the last separator of `path`.
pub open spec fn last_component(path: Seq<char>) -> Seq<char>
    decreases path.len(),
{
    if path.len() == 0 || path.last() == '/' {
        Seq::empty()
    } else {
        last_component(path.drop_last()).push(path.last())
    }
}

/// The file name of a slash-separated path: its final component, unless
/// there is none or it is `.` or `..`.
pub open spec fn file_name_of(path: Seq<char>) -> Option<Seq<char>> {
    let name = last_component(without_trailing_dots(path));
    if name.len() == 0 || name == seq!['.'] || name == seq!['.', '.'] {
        None
    } else {
        Some(name)
    }
}

/// The file name of a slash-separated path, if it has one.
pub fn file_name<'a>(path: &'a str) -> (r: Option<&'a str>)
    ensures
        r is Some == file_name_of(path@) is Some,
        r is Some ==> r->0@ == file_name_of(path@)->0,
{
    let chars = to_chars(path);
    let mut end: usize = chars.len();
    assert(path@.take(end as int) =~= path@);
    while end > 0 && (chars[end - 1] == '/' || (chars[end - 1] == '.' && end >= 2 && chars[end - 2]
        == '/'))
        invariant
            chars@ == path@,
            end <= chars.len(),
            without_trailing_dots(path@.take(end as int)) == without_trailing_dots(path@),
        decreases end,
    {
        assert(path@.take(end as int).drop_last() =~= path@.take(end - 1));
        end -= 1;
    }
    let ghost visible = path@.take(end as int);
    assert(without_trailing_dots(path@) == visible);
    let mut start: usize = end;
    assert(visible =~= visible.take(start as int) + visible.skip(start as int));
    assert(last_component(visible) =~= last_component(visible.take(start as int)) + visible.skip(
        start as int,
    )) by {
        assert(visible.take(start as int) =~= visible);
    }
    while start > 0 && chars[start - 1] != '/'
        invariant
            chars@ == path@,
            start <= end <= chars.len(),
            visible == path@.take(end as int),
            last_component(visible) == last_component(visible.take(start as int)) + visible.skip(
                start as int,
            ),
        decreases start,
    {
        assert(visible.take(start as int).drop_last() =~= visible.take(start - 1));
        assert(last_component(visible.take(start as int)) == last_component(
            visible.take(start - 1),
        ).push(visible[start - 1]));
        assert(last_component(visible.take(start - 1)).push(visible[start - 1]) + visible.skip(
            start as int,
        ) =~= last_component(visible.take(start - 1)) + visible.skip(start - 1));
        start -= 1;
    }
    assert(last_component(visible.take(start as int)) =~= Seq::<char>::empty());
    assert(last_component(visible) =~= path@.subrange(start as int, end as int));
    let ghost name = path@.subrange(start as int, end as int);
    if end == start {
        return None;
    }
    if end - start == 1 && chars[start] == '.' {
        assert(name =~= seq!['.']);
        return None;
    }
    if end - start == 2 && chars[start] == '.' && chars[start + 1] == '.' {
        assert(name =~= seq!['.', '.']);
        return None;
    }
    assert(name != seq!['.']) by {
        if name == seq!['.'] {
            assert(name[0] == '.');
        }
    }
    assert(name != seq!['.', '.']) by {
        if name == seq!['.', '.'] {
            assert(name[0] == '.' && name[1] == '.');
        }
    }
    Some(path.substring_char(start, end))
}

/// The string that a byte string encodes, by `std::str::from_utf8`: the same
/// bytes, and `None` exactly when they are not valid UTF-8.
#[verifier::external_body]
pub(crate) fn from_utf8<'a>(bytes: &'a [u8]) -> (r: Option<&'a str>)
    ensures
        r is Some == valid_utf8(bytes@),
        r is Some ==> r->0.spec_bytes() == bytes@,
{
    std::str::from_utf8(bytes).ok()
}

/// The string that `String::from_utf8_lossy` makes of a byte string.
pub uninterp spec fn lossy_text(bytes: Seq<u8>) -> Seq<char>;

/// The string that a byte string encodes, by `String::from_utf8_lossy`: valid
/// UTF-8 is decoded as it stands, any other sequence is replaced. The result
/// depends on nothing but the bytes.
#[verifier::external_body]
pub(crate) fn from_utf8_lossy(bytes: &[u8]) -> (r: String)
    ensures
        r@ == lossy_text(bytes@),
        valid_utf8(bytes@) ==> r@ == decode_utf8(bytes@),
{
    String::from_utf8_lossy(bytes).into_owned()
}

/// The string that a byte string encodes, if it encodes one.
pub fn decode<'a>(bytes: &'a [u8]) -> (r: Option<&'a str>)
    ensures
        r is Some == valid_utf8(bytes@),
        r is Some ==> r->0@ == decode_utf8(bytes@),
{
    let r = from_utf8(bytes);
    proof {
        if r is Some {
            encode_utf8_decode_utf8(r->0@);
        }
    }
    r
}

/// Whether a byte string ends with another one.
pub fn bytes_end_with(bytes: &[u8], suffix: &[u8]) -> (r: bool)
    ensures
        r == suffix@.is_suffix_of(bytes@),
{
    let n: usize = bytes.len();
    let m: usize = suffix.len();
    if m > n {
        return false;
    }
    let mut i: usize = 0;
    while i < m
        invariant
            n == bytes@.len(),
            m == suffix@.len(),
            m <= n,
            i <= m,
            forall|j: int| 0 <= j < i ==> suffix@[j] == bytes@[n - m + j],
        decreases m - i,
    {
        if bytes[n - m + i] != suffix[i] {
            assert(bytes@.subrange(n - m, n as int)[i as int] != suffix@[i as int]);
            return false;
        }
        i += 1;
    }
    assert(bytes@.subrange(n - m, n as int) =~= suffix@);
    true
}

/// Whether two byte strings are the same.
pub fn same_bytes(a: &[u8], b: &[u8]) -> (r: bool)
    ensures
        r == (a@ == b@),
{
    if a.len() != b.len() {
        return false;
    }
    let r = bytes_end_with(a, b);
    assert(a@.subrange(0, a@.len() as int) =~= a@);
    r
}

/// A copy of a byte string.
pub fn copy_bytes(bytes: &[u8]) -> (r: Vec<u8>)
    ensures
        r@ == bytes@,
{
    vstd::slice::slice_to_vec(bytes)
}

} // verus!
