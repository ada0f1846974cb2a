//! Character-level text operations used by the descriptors, with their
//! mathematical meaning.
use vstd::prelude::*;

verus! {

/// Characters that carry the Unicode `White_Space` property, the set that
/// `char::is_whitespace` and `str::trim` use.
pub open spec fn is_white_space(c: char) -> bool {
    ('\u{9}' <= c && c <= '\u{d}') || c == ' ' || c == '\u{85}' || c == '\u{a0}'
        || c == '\u{1680}' || ('\u{2000}' <= c && c <= '\u{200a}') || c == '\u{2028}'
        || c == '\u{2029}' || c == '\u{202f}' || c == '\u{205f}' || c == '\u{3000}'
}

/// `s` without its leading white space.
pub open spec fn trim_start_seq(s: Seq<char>) -> Seq<char>
    decreases s.len(),
{
    if s.len() > 0 && is_white_space(s[0]) {
        trim_start_seq(s.drop_first())
    } else {
        s
    }
}

/// `s` without its trailing white space.
pub open spec fn trim_end_seq(s: Seq<char>) -> Seq<char>
    decreases s.len(),
{
    if s.len() > 0 && is_white_space(s.last()) {
        trim_end_seq(s.drop_last())
    } else {
        s
    }
}

/// `s` without its leading and trailing white space.
pub open spec fn trim_seq(s: Seq<char>) -> Seq<char> {
    trim_end_seq(trim_start_seq(s))
}

proof fn lemma_trim_start_shape(s: Seq<char>)
    ensures
        trim_start_seq(s).len() == 0 || !is_white_space(trim_start_seq(s)[0]),
    decreases s.len(),
{
    if s.len() > 0 && is_white_space(s[0]) {
        lemma_trim_start_shape(s.drop_first());
    }
}

proof fn lemma_trim_end_shape(s: Seq<char>)
    ensures
        trim_end_seq(s).len() <= s.len(),
        trim_end_seq(s) == s.subrange(0, trim_end_seq(s).len() as int),
        trim_end_seq(s).len() == 0 || !is_white_space(trim_end_seq(s).last()),
        s.len() > 0 && !is_white_space(s[0]) ==> trim_end_seq(s).len() > 0,
    decreases s.len(),
{
    if s.len() > 0 && is_white_space(s.last()) {
        lemma_trim_end_shape(s.drop_last());
        assert(s.drop_last().subrange(0, trim_end_seq(s).len() as int) =~= s.subrange(
            0,
            trim_end_seq(s).len() as int,
        ));
    } else {
        assert(s.subrange(0, s.len() as int) =~= s);
    }
}

/// Trimming twice gives what trimming once gives.
pub proof fn lemma_trim_seq_idempotent(s: Seq<char>)
    ensures
        trim_seq(trim_seq(s)) == trim_seq(s),
{
    let a = trim_start_seq(s);
    let t = trim_end_seq(a);
    lemma_trim_start_shape(s);
    lemma_trim_end_shape(a);
    if t.len() > 0 {
        assert(t[0] == a[0]);
    }
    assert(trim_start_seq(t) == t);
    assert(trim_end_seq(t) == t);
}

/// Relies on `str::trim`: the slice without leading and trailing characters
/// of the Unicode `White_Space` property.
#[verifier::external_body]
fn trim_slice(s: &str) -> (r: &str)
    ensures
        r@ == trim_seq(s@),
{
    s.trim()
}

/// A copy of `s` without its leading and trailing white space.
pub fn trim_string(s: &String) -> (r: String)
    ensures
        r@ == trim_seq(s@),
{
    String::from_str(trim_slice(s.as_str()))
}

/// `s` with every occurrence of `from` replaced by `to`.
pub open spec fn replace_char_seq(s: Seq<char>, from: char, to: Seq<char>) -> Seq<char>
    decreases s.len(),
{
    if s.len() == 0 {
        seq![]
    } else {
        (if s[0] == from {
            to
        } else {
            seq![s[0]]
        }) + replace_char_seq(s.drop_first(), from, to)
    }
}

/// `s` with every occurrence of `from` replaced by `to`, one character by one.
pub open spec fn substitute(s: Seq<char>, from: char, to: char) -> Seq<char> {
    s.map_values(|c: char| if c == from { to } else { c })
}

proof fn lemma_replace_single(s: Seq<char>, from: char, to: char)
    ensures
        replace_char_seq(s, from, seq![to]) == substitute(s, from, to),
    decreases s.len(),
{
    if s.len() > 0 {
        lemma_replace_single(s.drop_first(), from, to);
        assert(replace_char_seq(s, from, seq![to]) =~= substitute(s, from, to));
    } else {
        assert(replace_char_seq(s, from, seq![to]) =~= substitute(s, from, to));
    }
}

/// Relies on `str::replace` with a `char` pattern: every occurrence of the
/// character is replaced by `to`.
#[verifier::external_body]
fn replace_char(s: &str, from: char, to: &str) -> (r: String)
    ensures
        r@ == replace_char_seq(s@, from, to@),
{
    s.replace(from, to)
}

/// The characters that are not safe in a path segment or a cache key and
/// are written `_` in an identifier.
pub open spec fn is_substituted(c: char) -> bool {
    c == ' ' || c == '\t' || c == '-' || c == '.' || c == '+' || c == '*'
}

/// `s` with every character of `is_substituted` written `_`.
pub open spec fn sanitize_seq(s: Seq<char>) -> Seq<char> {
    s.map_values(|c: char| if is_substituted(c) { '_' } else { c })
}

/// Writes `_` in place of every character of `is_substituted`.
pub fn sanitize(s: &str) -> (r: String)
    ensures
        r@ == sanitize_seq(s@),
{
    let ghost s0 = s@;
    proof {
        reveal_strlit("_");
        assert("_"@ =~= seq!['_']);
    }
    let r = replace_char(s, ' ', "_");
    proof {
        lemma_replace_single(s0, ' ', '_');
    }
    let ghost s1 = r@;
    let r = replace_char(r.as_str(), '\t', "_");
    proof {
        lemma_replace_single(s1, '\t', '_');
    }
    let ghost s2 = r@;
    let r = replace_char(r.as_str(), '-', "_");
    proof {
        lemma_replace_single(s2, '-', '_');
    }
    let ghost s3 = r@;
    let r = replace_char(r.as_str(), '.', "_");
    proof {
        lemma_replace_single(s3, '.', '_');
    }
    let ghost s4 = r@;
    let r = replace_char(r.as_str(), '+', "_");
    proof {
        lemma_replace_single(s4, '+', '_');
    }
    let ghost s5 = r@;
    let r = replace_char(r.as_str(), '*', "_");
    proof {
        lemma_replace_single(s5, '*', '_');
    }
    assert forall|i: int| 0 <= i < s0.len() implies r@[i] == sanitize_seq(s0)[i] by {
        assert(s1[i] == (if s0[i] == ' ' { '_' } else { s0[i] }));
        assert(s2[i] == (if s1[i] == '\t' { '_' } else { s1[i] }));
        assert(s3[i] == (if s2[i] == '-' { '_' } else { s2[i] }));
        assert(s4[i] == (if s3[i] == '.' { '_' } else { s3[i] }));
        assert(s5[i] == (if s4[i] == '+' { '_' } else { s4[i] }));
    }
    assert(r@ =~= sanitize_seq(s0));
    r
}

/// The ASCII upper-case form of `c`; every other character is unchanged.
pub open spec fn ascii_upper(c: char) -> char {
    if 'a' <= c && c <= 'z' {
        (((c as u32) - 32) as u8) as char
    } else {
        c
    }
}

/// Relies on `str::to_ascii_uppercase`: ASCII letters `a` to `z` become `A`
/// to `Z`, every other character stays.
#[verifier::external_body]
pub(crate) fn ascii_uppercase(s: &str) -> (r: String)
    ensures
        r@ == s@.map_values(|c: char| ascii_upper(c)),
{
    s.to_ascii_uppercase()
}

/// `a`, a hyphen, then `b`.
pub open spec fn hyphen_join(a: Seq<char>, b: Seq<char>) -> Seq<char> {
    a + seq!['-'] + b
}

/// Joins `a` and `b` with a hyphen.
pub fn join_with_hyphen(a: &str, b: &str) -> (r: String)
    ensures
        r@ == hyphen_join(a@, b@),
{
    proof {
        reveal_strlit("-");
    }
    String::from_str(a).concat("-").concat(b)
}

/// Whether `s` begins with `p`.
pub open spec fn has_prefix(s: Seq<char>, p: Seq<char>) -> bool {
    p.len() <= s.len() && s.subrange(0, p.len() as int) == p
}

/// Whether `s` begins with `p`.
pub fn starts_with(s: &str, p: &str) -> (r: bool)
    ensures
        r == has_prefix(s@, p@),
{
    let n = s.unicode_len();
    let m = p.unicode_len();
    if m > n {
        return false;
    }
    let mut i: usize = 0;
    while i < m
        invariant
            m == p@.len(),
            n == s@.len(),
            m <= n,
            i <= m,
            forall|j: int| 0 <= j < i ==> s@[j] == p@[j],
        decreases m - i,
    {
        if s.get_char(i) != p.get_char(i) {
            assert(s@.subrange(0, m as int)[i as int] != p@[i as int]);
            return false;
        }
        i = i + 1;
    }
    assert(s@.subrange(0, m as int) =~= p@);
    true
}

/// A path is absolute when it begins at the root, `/`.
pub open spec fn is_absolute_path(s: Seq<char>) -> bool {
    s.len() > 0 && s[0] == '/'
}

/// Whether the path `s` is absolute.
pub fn is_absolute(s: &str) -> (r: bool)
    ensures
        r == is_absolute_path(s@),
{
    s.unicode_len() > 0 && s.get_char(0) == '/'
}

/// Whether `a` and `b` hold the same characters.
pub fn str_eq(a: &str, b: &str) -> (r: bool)
    ensures
        r == (a@ == b@),
{
    String::from_str(a) == String::from_str(b)
}

/// The characters of an optional string.
pub open spec fn opt_view(o: Option<String>) -> Option<Seq<char>> {
    match o {
        Some(s) => Some(s@),
        None => None,
    }
}

/// An optional text, trimmed where present.
pub open spec fn opt_trim(o: Option<Seq<char>>) -> Option<Seq<char>> {
    match o {
        Some(s) => Some(trim_seq(s)),
        None => None,
    }
}

/// A copy of an optional string, trimmed where present.
pub fn trim_option(o: &Option<String>) -> (r: Option<String>)
    ensures
        opt_view(r) == opt_trim(opt_view(*o)),
{
    match o {
        Some(s) => Some(trim_string(s)),
        None => None,
    }
}

/// Trimming an optional text twice gives what trimming it once gives.
pub proof fn lemma_opt_trim_idempotent(o: Option<Seq<char>>)
    ensures
        opt_trim(opt_trim(o)) == opt_trim(o),
{
    if let Some(s) = o {
        lemma_trim_seq_idempotent(s);
    }
}

/// Whether a check that returns `r` reported exactly `e`: success where `e`
/// is `None`, the message of `e` otherwise.
pub open spec fn reports(r: Result<(), String>, e: Option<Seq<char>>) -> bool {
    match r {
        Ok(_) => e is None,
        Err(m) => e == Some(m@),
    }
}

} // verus!
