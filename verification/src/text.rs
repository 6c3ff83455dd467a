//! Character-level string helpers with exact specifications: Unicode
//! whitespace trimming, ASCII case mapping, character replacement, prefix
//! tests and comparison with literals.
use vstd::prelude::*;

verus! {

/// The characters that `char::is_whitespace` accepts: those with the
/// Unicode `White_Space` property.
pub open spec fn is_ws(c: char) -> bool {
    ||| ('\u{9}' <= c && c <= '\u{d}')
    ||| c == ' '
    ||| c == '\u{85}'
    ||| c == '\u{a0}'
    ||| c == '\u{1680}'
    ||| ('\u{2000}' <= c && c <= '\u{200a}')
    ||| c == '\u{2028}'
    ||| c == '\u{2029}'
    ||| c == '\u{202f}'
    ||| c == '\u{205f}'
    ||| c == '\u{3000}'
}

/// `s` without its leading whitespace.
pub open spec fn trim_start(s: Seq<char>) -> Seq<char>
    decreases s.len(),
{
    if s.len() > 0 && is_ws(s[0]) {
        trim_start(s.drop_first())
    } else {
        s
    }
}

/// `s` without its trailing whitespace.
pub open spec fn trim_end(s: Seq<char>) -> Seq<char>
    decreases s.len(),
{
    if s.len() > 0 && is_ws(s.last()) {
        trim_end(s.drop_last())
    } else {
        s
    }
}

/// `s` without leading and trailing whitespace, as `str::trim` gives it.
pub open spec fn trim(s: Seq<char>) -> Seq<char> {
    trim_end(trim_start(s))
}

/// ASCII lower-case mapping of one character (`char::to_ascii_lowercase`).
pub open spec fn lower_char(c: char) -> char {
    if 'A' <= c && c <= 'Z' {
        ((c as u32) + 32) as char
    } else {
        c
    }
}

/// ASCII upper-case mapping of one character (`char::to_ascii_uppercase`).
pub open spec fn upper_char(c: char) -> char {
    if 'a' <= c && c <= 'z' {
        ((c as u32) - 32) as char
    } else {
        c
    }
}

/// `str::to_ascii_lowercase`.
pub open spec fn lower(s: Seq<char>) -> Seq<char> {
    s.map_values(|c: char| lower_char(c))
}

/// `str::to_ascii_uppercase`.
pub open spec fn upper(s: Seq<char>) -> Seq<char> {
    s.map_values(|c: char| upper_char(c))
}

/// Every `'-'` of `s` replaced by `'_'`.
pub open spec fn dash_to_underscore(s: Seq<char>) -> Seq<char> {
    s.map_values(|c: char| if c == '-' { '_' } else { c })
}

/// Whether `s` begins with `p`.
pub open spec fn has_prefix(s: Seq<char>, p: Seq<char>) -> bool {
    p.len() <= s.len() && s.subrange(0, p.len() as int) == p
}

/// Whether `c` is whitespace in the sense of `char::is_whitespace`.
pub fn is_whitespace(c: char) -> (r: bool)
    ensures
        r == is_ws(c),
{
    ('\u{9}' <= c && c <= '\u{d}') || c == ' ' || c == '\u{85}' || c == '\u{a0}' || c
        == '\u{1680}' || ('\u{2000}' <= c && c <= '\u{200a}') || c == '\u{2028}' || c
        == '\u{2029}' || c == '\u{202f}' || c == '\u{205f}' || c == '\u{3000}'
}

fn lower_one(c: char) -> (r: char)
    ensures
        r == lower_char(c),
{
    if 'A' <= c && c <= 'Z' {
        let v: u8 = (c as u8) + 32;
        v as char
    } else {
        c
    }
}

fn upper_one(c: char) -> (r: char)
    ensures
        r == upper_char(c),
{
    if 'a' <= c && c <= 'z' {
        let v: u8 = (c as u8) - 32;
        v as char
    } else {
        c
    }
}

/// `String::push`: appends one character.
#[verifier::external_body]
fn push_char(s: &mut String, c: char)
    ensures
        final(s)@ == old(s)@.push(c),
{
    s.push(c);
}

/// The characters of `s`, in order.
pub fn chars_of(s: &str) -> (r: Vec<char>)
    ensures
        r@ == s@,
{
    let mut out: Vec<char> = Vec::new();
    for c in it: s.chars()
        invariant
            out@ == it.seq().take(it.index() as int),
    {
        out.push(c);
    }
    out
}

/// The string made of the characters of `v`.
pub fn string_of(v: &Vec<char>) -> (r: String)
    ensures
        r@ == v@,
{
    let mut out = String::new();
    let n = v.len();
    let mut i: usize = 0;
    while i < n
        invariant
            n == v.len(),
            i <= n,
            out@ == v@.take(i as int),
        decreases n - i,
    {
        push_char(&mut out, v[i]);
        assert(v@.take(i + 1) =~= v@.take(i as int).push(v@[i as int]));
        i = i + 1;
    }
    assert(v@.take(n as int) =~= v@);
    out
}

/// A copy of `v` with leading and trailing whitespace removed.
pub fn trim_chars(v: &Vec<char>) -> (r: Vec<char>)
    ensures
        r@ == trim(v@),
{
    let n = v.len();
    let mut i: usize = 0;
    assert(v@.subrange(0, n as int) =~= v@);
    while i < n && is_whitespace(v[i])
        invariant
            i <= n,
            n == v.len(),
            trim_start(v@) == trim_start(v@.subrange(i as int, n as int)),
        decreases n - i,
    {
        assert(v@.subrange(i as int, n as int).drop_first() =~= v@.subrange(i + 1, n as int));
        i = i + 1;
    }
    let ghost front = v@.subrange(i as int, n as int);
    assert(trim_start(v@) == front);
    let mut j: usize = n;
    assert(front =~= v@.subrange(i as int, j as int));
    while j > i && is_whitespace(v[j - 1])
        invariant
            i <= j <= n,
            n == v.len(),
            trim_end(front) == trim_end(v@.subrange(i as int, j as int)),
        decreases j,
    {
        assert(v@.subrange(i as int, j as int).drop_last() =~= v@.subrange(i as int, j - 1));
        j = j - 1;
    }
    let mut out: Vec<char> = Vec::new();
    let mut k: usize = i;
    while k < j
        invariant
            i <= k <= j <= n,
            n == v.len(),
            out@ == v@.subrange(i as int, k as int),
        decreases j - k,
    {
        out.push(v[k]);
        assert(out@ =~= v@.subrange(i as int, k + 1));
        k = k + 1;
    }
    out
}

/// ASCII lower-case copy of `v`.
pub fn lower_chars(v: &Vec<char>) -> (r: Vec<char>)
    ensures
        r@ == lower(v@),
{
    let mut out: Vec<char> = Vec::new();
    let n = v.len();
    let mut i: usize = 0;
    while i < n
        invariant
            n == v.len(),
            i <= n,
            out@ =~= lower(v@.take(i as int)),
        decreases n - i,
    {
        out.push(lower_one(v[i]));
        assert(lower(v@.take(i + 1)) =~= lower(v@.take(i as int)).push(lower_char(v@[i as int])));
        i = i + 1;
    }
    assert(v@.take(n as int) =~= v@);
    out
}

/// ASCII upper-case copy of `v`.
pub fn upper_chars(v: &Vec<char>) -> (r: Vec<char>)
    ensures
        r@ == upper(v@),
{
    let mut out: Vec<char> = Vec::new();
    let n = v.len();
    let mut i: usize = 0;
    while i < n
        invariant
            n == v.len(),
            i <= n,
            out@ =~= upper(v@.take(i as int)),
        decreases n - i,
    {
        out.push(upper_one(v[i]));
        assert(upper(v@.take(i + 1)) =~= upper(v@.take(i as int)).push(upper_char(v@[i as int])));
        i = i + 1;
    }
    assert(v@.take(n as int) =~= v@);
    out
}

/// Copy of `v` with every `'-'` replaced by `'_'`.
pub fn dash_to_underscore_chars(v: &Vec<char>) -> (r: Vec<char>)
    ensures
        r@ == dash_to_underscore(v@),
{
    let mut out: Vec<char> = Vec::new();
    let n = v.len();
    let mut i: usize = 0;
    while i < n
        invariant
            n == v.len(),
            i <= n,
            out@ =~= dash_to_underscore(v@.take(i as int)),
        decreases n - i,
    {
        let c = v[i];
        out.push(if c == '-' { '_' } else { c });
        assert(dash_to_underscore(v@.take(i + 1)) =~= dash_to_underscore(v@.take(i as int)).push(
            if v@[i as int] == '-' { '_' } else { v@[i as int] },
        ));
        i = i + 1;
    }
    assert(v@.take(n as int) =~= v@);
    out
}

/// Whether `v` holds exactly the characters of `lit`.
pub fn equals_str(v: &Vec<char>, lit: &str) -> (r: bool)
    ensures
        r == (v@ == lit@),
{
    let w = chars_of(lit);
    if v.len() != w.len() {
        return false;
    }
    let n = v.len();
    let mut i: usize = 0;
    while i < n
        invariant
            n == v.len(),
            n == w.len(),
            w@ == lit@,
            i <= n,
            forall|k: int| 0 <= k < i ==> v@[k] == w@[k],
        decreases n - i,
    {
        if v[i] != w[i] {
            return false;
        }
        i = i + 1;
    }
    assert(v@ =~= w@);
    true
}

/// Whether `v` begins with the characters of `lit`.
pub fn starts_with_str(v: &Vec<char>, lit: &str) -> (r: bool)
    ensures
        r == has_prefix(v@, lit@),
{
    let w = chars_of(lit);
    if w.len() > v.len() {
        return false;
    }
    let n = w.len();
    let mut i: usize = 0;
    while i < n
        invariant
            n == w.len(),
            n <= v.len(),
            w@ == lit@,
            i <= n,
            forall|k: int| 0 <= k < i ==> v@[k] == w@[k],
        decreases n - i,
    {
        if v[i] != w[i] {
            assert(v@.subrange(0, n as int)[i as int] != w@[i as int]);
            return false;
        }
        i = i + 1;
    }
    assert(v@.subrange(0, n as int) =~= w@);
    true
}

/// The string `prefix` followed by `rest`.
pub fn concat_str(prefix: &str, rest: &str) -> (r: String)
    ensures
        r@ == prefix@ + rest@,
{
    let mut out = String::from_str(prefix);
    out.append(rest);
    out
}

/// A copy of `s` without leading and trailing whitespace (`str::trim`).
pub fn trim_string(s: &String) -> (r: String)
    ensures
        r@ == trim(s@),
{
    string_of(&trim_chars(&chars_of(s.as_str())))
}

/// Whether `s` is empty or whitespace only.
pub fn is_blank(s: &str) -> (r: bool)
    ensures
        r == (trim(s@).len() == 0),
{
    trim_chars(&chars_of(s)).len() == 0
}

/// `trim_start(s)` is empty or starts with a non-whitespace character, and
/// `trim_end(s)` is empty or ends with one; both keep a contiguous part of `s`.
pub proof fn lemma_trim_start_shape(s: Seq<char>)
    ensures
        trim_start(s).len() == 0 || !is_ws(trim_start(s)[0]),
        trim_start(s).len() <= s.len(),
        trim_start(s) == s.skip(s.len() - trim_start(s).len()),
    decreases s.len(),
{
    if s.len() > 0 && is_ws(s[0]) {
        lemma_trim_start_shape(s.drop_first());
        assert(s.drop_first().skip(s.drop_first().len() - trim_start(s).len()) =~= s.skip(
            s.len() - trim_start(s).len(),
        ));
    } else {
        assert(s.skip(0) =~= s);
    }
}

/// `trim_end(s)` is empty or ends with a non-whitespace character, and is a
/// prefix of `s`.
pub proof fn lemma_trim_end_shape(s: Seq<char>)
    ensures
        trim_end(s).len() == 0 || !is_ws(trim_end(s).last()),
        trim_end(s).len() <= s.len(),
        trim_end(s) == s.take(trim_end(s).len() as int),
    decreases s.len(),
{
    if s.len() > 0 && is_ws(s.last()) {
        lemma_trim_end_shape(s.drop_last());
        assert(s.drop_last().take(trim_end(s).len() as int) =~= s.take(trim_end(s).len() as int));
    } else {
        assert(s.take(s.len() as int) =~= s);
    }
}

/// A string with no whitespace at either end is its own trim.
pub proof fn lemma_trim_of_clean(s: Seq<char>)
    requires
        s.len() == 0 || (!is_ws(s[0]) && !is_ws(s.last())),
    ensures
        trim(s) == s,
{
}

/// Trimming twice trims no more than trimming once.
pub proof fn lemma_trim_idempotent(s: Seq<char>)
    ensures
        trim(trim(s)) == trim(s),
{
    let a = trim_start(s);
    lemma_trim_start_shape(s);
    lemma_trim_end_shape(a);
    let b = trim_end(a);
    if b.len() > 0 {
        assert(b[0] == a[0]);
    }
    lemma_trim_of_clean(b);
}

/// A character that may occur in an evdev key name: an ASCII capital, a
/// digit or `_`.
pub open spec fn name_char(c: char) -> bool {
    ('A' <= c && c <= 'Z') || ('0' <= c && c <= '9') || c == '_'
}

/// For a string of key-name characters, lower-casing loses nothing: it holds
/// no whitespace or `-`, upper-casing its lower case gives it back, and its
/// lower case is its own trim.
pub proof fn lemma_name_chars(s: Seq<char>)
    requires
        forall|i: int| 0 <= i < s.len() ==> name_char(#[trigger] s[i]),
    ensures
        upper(lower(s)) == s,
        lower(lower(s)) == lower(s),
        dash_to_underscore(lower(s)) == lower(s),
        trim(lower(s)) == lower(s),
        trim(s) == s,
        dash_to_underscore(s) == s,
{
    assert(upper(lower(s)) =~= s);
    assert(lower(lower(s)) =~= lower(s));
    assert(dash_to_underscore(lower(s)) =~= lower(s));
    assert(dash_to_underscore(s) =~= s);
    if s.len() > 0 {
        assert(name_char(s[0]));
        assert(name_char(s[s.len() - 1]));
    }
    lemma_trim_of_clean(lower(s));
    lemma_trim_of_clean(s);
}

/// How the ASCII case mappings act on one character: they keep whether it is
/// whitespace and whether it is `-`, each is idempotent, and each undoes the
/// other up to case.
pub proof fn lemma_case_char(c: char)
    ensures
        lower_char(upper_char(c)) == lower_char(c),
        upper_char(lower_char(c)) == upper_char(c),
        upper_char(upper_char(c)) == upper_char(c),
        lower_char(lower_char(c)) == lower_char(c),
        is_ws(upper_char(c)) == is_ws(c),
        is_ws(lower_char(c)) == is_ws(c),
        (upper_char(c) == '-') == (c == '-'),
        (lower_char(c) == '-') == (c == '-'),
{
}

/// Case mappings commute with removing leading whitespace.
proof fn lemma_trim_start_case(s: Seq<char>)
    ensures
        trim_start(upper(s)) == upper(trim_start(s)),
        trim_start(lower(s)) == lower(trim_start(s)),
    decreases s.len(),
{
    if s.len() > 0 {
        lemma_case_char(s[0]);
        assert(upper(s).drop_first() =~= upper(s.drop_first()));
        assert(lower(s).drop_first() =~= lower(s.drop_first()));
        lemma_trim_start_case(s.drop_first());
    } else {
        assert(upper(s) =~= s);
        assert(lower(s) =~= s);
    }
}

/// Case mappings commute with removing trailing whitespace.
proof fn lemma_trim_end_case(s: Seq<char>)
    ensures
        trim_end(upper(s)) == upper(trim_end(s)),
        trim_end(lower(s)) == lower(trim_end(s)),
    decreases s.len(),
{
    if s.len() > 0 {
        lemma_case_char(s.last());
        assert(upper(s).drop_last() =~= upper(s.drop_last()));
        assert(lower(s).drop_last() =~= lower(s.drop_last()));
        lemma_trim_end_case(s.drop_last());
    } else {
        assert(upper(s) =~= s);
        assert(lower(s) =~= s);
    }
}

/// Case mappings commute with trimming and with replacing `-` by `_`, and
/// the lower case of the upper case (or the other way round) is the lower
/// case (or upper case) of the original.
pub proof fn lemma_case_commutes(s: Seq<char>)
    ensures
        trim(upper(s)) == upper(trim(s)),
        trim(lower(s)) == lower(trim(s)),
        dash_to_underscore(upper(s)) == upper(dash_to_underscore(s)),
        dash_to_underscore(lower(s)) == lower(dash_to_underscore(s)),
        lower(upper(s)) == lower(s),
        upper(lower(s)) == upper(s),
        upper(upper(s)) == upper(s),
        lower(lower(s)) == lower(s),
        upper(s).len() == s.len(),
        lower(s).len() == s.len(),
{
    lemma_trim_start_case(s);
    lemma_trim_end_case(trim_start(s));
    assert forall|i: int| 0 <= i < s.len() implies lower_char(upper_char(s[i])) == lower_char(s[i])
        && upper_char(lower_char(s[i])) == upper_char(s[i]) && upper_char(upper_char(s[i]))
        == upper_char(s[i]) && lower_char(lower_char(s[i])) == lower_char(s[i]) && (upper_char(
        s[i],
    ) == '-') == (s[i] == '-') && (lower_char(s[i]) == '-') == (s[i] == '-') by {
        lemma_case_char(s[i]);
    }
    assert(dash_to_underscore(upper(s)) =~= upper(dash_to_underscore(s)));
    assert(dash_to_underscore(lower(s)) =~= lower(dash_to_underscore(s)));
    assert(lower(upper(s)) =~= lower(s));
    assert(upper(lower(s)) =~= upper(s));
    assert(upper(upper(s)) =~= upper(s));
    assert(lower(lower(s)) =~= lower(s));
}

} // verus!
