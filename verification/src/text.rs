//! Text building blocks shared by the encoders: decimal rendering,
//! character-level search and joining of lines.
use vstd::prelude::*;

verus! {

/// Appends one character to a string (`String::push`).
#[verifier::external_body]
pub(crate) fn push_char(s: &mut String, c: char)
    ensures
        final(s)@ == old(s)@.push(c),
{
    s.push(c);
}

/// The ASCII digit for a value below ten.
pub open spec fn digit_char(d: nat) -> char {
    (d + 48) as char
}

/// Decimal rendering of a natural number, as `Display` prints integers.
pub open spec fn decimal_text(n: nat) -> Seq<char>
    decreases n,
{
    if n < 10 {
        seq![digit_char(n)]
    } else {
        decimal_text(n / 10).push(digit_char(n % 10))
    }
}

fn digit(d: u64) -> (c: char)
    requires
        d < 10,
    ensures
        c == digit_char(d as nat),
{
    let b: u8 = (48 + d) as u8;
    b as char
}

/// Appends the decimal rendering of `n`.
pub fn push_decimal(s: &mut String, n: u64)
    ensures
        final(s)@ == old(s)@ + decimal_text(n as nat),
    decreases n,
{
    if n >= 10 {
        push_decimal(s, n / 10);
    }
    let c = digit(n % 10);
    push_char(s, c);
}

/// Appends the decimal rendering of a 128-bit `n`.
pub fn push_decimal_wide(s: &mut String, n: u128)
    ensures
        final(s)@ == old(s)@ + decimal_text(n as nat),
    decreases n,
{
    if n >= 10 {
        push_decimal_wide(s, n / 10);
    }
    let c = digit((n % 10) as u64);
    push_char(s, c);
}

/// The lowest `w` decimal digits of `f`, zero-padded, most significant
/// first.
pub open spec fn frac_digits(f: nat, w: nat) -> Seq<char>
    decreases w,
{
    if w == 0 {
        Seq::empty()
    } else {
        frac_digits(f / 10, (w - 1) as nat).push(digit_char(f % 10))
    }
}

/// The `w` fractional digits of `f` without trailing zeros.
pub open spec fn trimmed_frac(f: nat, w: nat) -> Seq<char>
    decreases w,
{
    if w == 0 {
        Seq::empty()
    } else if f % 10 == 0 {
        trimmed_frac(f / 10, (w - 1) as nat)
    } else {
        frac_digits(f, w)
    }
}

/// The shortest decimal text of `v` millionths: the integer part, then a
/// point and the fractional digits without trailing zeros when there is
/// a fraction (`1.5`, `0.95`, `2`), as `Display` prints a float holding
/// that value.
pub open spec fn micro_text(v: nat) -> Seq<char> {
    let ip = v / 1_000_000;
    let fp = v % 1_000_000;
    if fp == 0 {
        decimal_text(ip)
    } else {
        decimal_text(ip) + seq!['.'] + trimmed_frac(fp, 6)
    }
}

pub fn push_frac_digits(s: &mut String, f: u64, w: u64)
    ensures
        final(s)@ == old(s)@ + frac_digits(f as nat, w as nat),
    decreases w,
{
    if w > 0 {
        push_frac_digits(s, f / 10, w - 1);
        let c = digit(f % 10);
        push_char(s, c);
    }
}

fn push_trimmed_frac(s: &mut String, f: u64, w: u64)
    ensures
        final(s)@ == old(s)@ + trimmed_frac(f as nat, w as nat),
    decreases w,
{
    if w == 0 {
        assert(old(s)@ + Seq::<char>::empty() =~= old(s)@);
    } else if f % 10 == 0 {
        push_trimmed_frac(s, f / 10, w - 1);
    } else {
        push_frac_digits(s, f, w);
    }
}

/// Appends the decimal text of a 128-bit `v` millionths.
pub fn push_micro_wide(s: &mut String, v: u128)
    ensures
        final(s)@ == old(s)@ + micro_text(v as nat),
{
    let ip = v / 1_000_000;
    let fp = (v % 1_000_000) as u64;
    push_decimal_wide(s, ip);
    if fp != 0 {
        push_char(s, '.');
        push_trimmed_frac(s, fp, 6);
        assert(s@ =~= old(s)@ + micro_text(v as nat));
    }
}

/// Appends the decimal text of `v` millionths.
pub fn push_micro(s: &mut String, v: u64)
    ensures
        final(s)@ == old(s)@ + micro_text(v as nat),
{
    let ip = v / 1_000_000;
    let fp = v % 1_000_000;
    push_decimal(s, ip);
    if fp != 0 {
        let ghost mid = s@;
        push_char(s, '.');
        push_trimmed_frac(s, fp, 6);
        assert(s@ =~= old(s)@ + micro_text(v as nat));
    }
}

/// The name for what `{:?}` prints for a string: the text in double
/// quotes with `std`'s debug escapes.
pub uninterp spec fn str_debug_text(s: Seq<char>) -> Seq<char>;

/// Prints a string with `{:?}`. Claimed: the result is
/// `str_debug_text` of the string, a function of the string alone.
#[verifier::external_body]
pub(crate) fn str_debug_string(s: &str) -> (r: String)
    ensures
        r@ == str_debug_text(s@),
{
    format!("{:?}", s)
}

/// The name for what `str::to_lowercase` returns: the Unicode lowercase
/// mapping of each character.
pub uninterp spec fn lowercase_text(s: Seq<char>) -> Seq<char>;

/// Lowercases a string (`str::to_lowercase`). Claimed: the result is
/// `lowercase_text` of the string, a function of the string alone.
#[verifier::external_body]
pub(crate) fn to_lowercase_string(s: &str) -> (r: String)
    ensures
        r@ == lowercase_text(s@),
{
    s.to_lowercase()
}

/// The name for what `str::to_uppercase` returns: the Unicode uppercase
/// mapping of each character.
pub uninterp spec fn uppercase_text(s: Seq<char>) -> Seq<char>;

/// Uppercases a string (`str::to_uppercase`). Claimed: the result is
/// `uppercase_text` of the string, a function of the string alone.
#[verifier::external_body]
pub(crate) fn to_uppercase_string(s: &str) -> (r: String)
    ensures
        r@ == uppercase_text(s@),
{
    s.to_uppercase()
}

/// Unicode white space, as `char::is_whitespace` classifies it.
pub open spec fn is_ws(c: char) -> bool {
    ||| '\u{9}' <= c <= '\u{d}'
    ||| c == ' '
    ||| c == '\u{85}'
    ||| c == '\u{a0}'
    ||| c == '\u{1680}'
    ||| '\u{2000}' <= c <= '\u{200a}'
    ||| c == '\u{2028}'
    ||| c == '\u{2029}'
    ||| c == '\u{202f}'
    ||| c == '\u{205f}'
    ||| c == '\u{3000}'
}

/// How many characters at the start of `s` are white space.
pub open spec fn leading_ws(s: Seq<char>) -> nat
    decreases s.len(),
{
    if s.len() == 0 || !is_ws(s[0]) {
        0
    } else {
        1 + leading_ws(s.drop_first())
    }
}

/// How many characters at the end of `s` are white space.
pub open spec fn trailing_ws(s: Seq<char>) -> nat
    decreases s.len(),
{
    if s.len() == 0 || !is_ws(s.last()) {
        0
    } else {
        1 + trailing_ws(s.drop_last())
    }
}

/// The text without its leading and trailing white space, as `str::trim`
/// documents it.
pub open spec fn trim_text(s: Seq<char>) -> Seq<char> {
    if leading_ws(s) >= s.len() {
        Seq::empty()
    } else {
        s.subrange(leading_ws(s) as int, s.len() - trailing_ws(s))
    }
}

/// Is the character white space?
pub(crate) fn is_ws_exec(c: char) -> (r: bool)
    ensures
        r == is_ws(c),
{
    ('\u{9}' <= c && c <= '\u{d}') || c == ' ' || c == '\u{85}' || c == '\u{a0}' || c == '\u{1680}' || (
    '\u{2000}' <= c && c <= '\u{200a}') || c == '\u{2028}' || c == '\u{2029}' || c == '\u{202f}' || c
        == '\u{205f}' || c == '\u{3000}'
}

/// Trims a string: the string without its leading and trailing white
/// space, as `str::trim` does.
pub(crate) fn trim_str(s: &str) -> (r: &str)
    ensures
        r@ == trim_text(s@),
{
    let n = s.unicode_len();
    let mut a: usize = 0;
    assert(s@.skip(0) =~= s@);
    while a < n
        invariant
            n == s@.len(),
            a <= n,
            leading_ws(s@) == a + leading_ws(s@.skip(a as int)),
        ensures
            a <= n,
            leading_ws(s@) == a + leading_ws(s@.skip(a as int)),
            a < n ==> !is_ws(s@[a as int]),
        decreases n - a,
    {
        if !is_ws_exec(s.get_char(a)) {
            break;
        }
        assert(s@.skip(a as int).drop_first() =~= s@.skip(a + 1));
        a = a + 1;
    }
    if a == n {
        assert(s@.skip(n as int).len() == 0);
        let e = s.substring_char(n, n);
        assert(e@ =~= Seq::<char>::empty());
        return e;
    }
    assert(s@.skip(a as int)[0] == s@[a as int]);
    assert(leading_ws(s@) == a);
    let mut b: usize = n;
    assert(s@.take(n as int) =~= s@);
    while b > a + 1
        invariant
            n == s@.len(),
            a < b <= n,
            !is_ws(s@[a as int]),
            trailing_ws(s@) == (n - b) + trailing_ws(s@.take(b as int)),
        ensures
            a < b <= n,
            trailing_ws(s@) == (n - b) + trailing_ws(s@.take(b as int)),
            b > a + 1 ==> !is_ws(s@[b - 1]),
        decreases b,
    {
        if !is_ws_exec(s.get_char(b - 1)) {
            break;
        }
        assert(s@.take(b as int).drop_last() =~= s@.take(b - 1));
        b = b - 1;
    }
    assert(s@.take(b as int).last() == s@[b - 1]);
    if b == a + 1 {
        assert(!is_ws(s@.take(b as int).last()));
    }
    assert(trailing_ws(s@) == n - b);
    s.substring_char(a, b)
}

/// `true` or `false`, as `Display` prints a boolean.
pub open spec fn bool_text(b: bool) -> Seq<char> {
    if b {
        "true"@
    } else {
        "false"@
    }
}

/// The texts of a sequence, one after the other.
pub open spec fn concat_all(parts: Seq<Seq<char>>) -> Seq<char>
    decreases parts.len(),
{
    if parts.len() == 0 {
        Seq::empty()
    } else {
        concat_all(parts.drop_last()) + parts.last()
    }
}

/// `needle` occurs somewhere in `hay`.
pub open spec fn has_infix(hay: Seq<char>, needle: Seq<char>) -> bool {
    exists|i: int|
        0 <= i && i + needle.len() <= hay.len() && #[trigger] hay.subrange(i, i + needle.len())
            == needle
}

/// Does `s` start with `prefix` (character-wise, as `str::starts_with`)?
pub fn str_starts_with(s: &str, prefix: &str) -> (r: bool)
    ensures
        r == prefix@.is_prefix_of(s@),
{
    let n = s.unicode_len();
    let m = prefix.unicode_len();
    if m > n {
        return false;
    }
    let mut i: usize = 0;
    while i < m
        invariant
            n == s@.len(),
            m == prefix@.len(),
            m <= n,
            i <= m,
            forall|j: int| 0 <= j < i ==> s@[j] == prefix@[j],
        decreases m - i,
    {
        if s.get_char(i) != prefix.get_char(i) {
            return false;
        }
        i = i + 1;
    }
    assert(prefix@ =~= s@.subrange(0, m as int));
    true
}

/// Are the two texts equal?
pub fn str_equal(a: &str, b: &str) -> (r: bool)
    ensures
        r == (a@ == b@),
{
    if a.unicode_len() != b.unicode_len() {
        return false;
    }
    let r = str_starts_with(a, b);
    if r {
        assert(a@ =~= b@);
    }
    r
}

/// Does `s` end with `suffix` (character-wise, as `str::ends_with`)?
pub fn str_ends_with(s: &str, suffix: &str) -> (r: bool)
    ensures
        r == suffix@.is_suffix_of(s@),
{
    let n = s.unicode_len();
    let m = suffix.unicode_len();
    if m > n {
        return false;
    }
    let off = n - m;
    let mut i: usize = 0;
    while i < m
        invariant
            n == s@.len(),
            m == suffix@.len(),
            m <= n,
            off == n - m,
            i <= m,
            forall|j: int| 0 <= j < i ==> s@[off + j] == suffix@[j],
        decreases m - i,
    {
        if s.get_char(off + i) != suffix.get_char(i) {
            return false;
        }
        i = i + 1;
    }
    assert(suffix@ =~= s@.subrange(off as int, n as int));
    true
}

fn matches_at(hay: &str, needle: &str, start: usize) -> (r: bool)
    requires
        start + needle@.len() <= hay@.len(),
    ensures
        r == (hay@.subrange(start as int, start + needle@.len()) == needle@),
{
    let m = needle.unicode_len();
    let n = hay.unicode_len();
    let mut i: usize = 0;
    while i < m
        invariant
            m == needle@.len(),
            n == hay@.len(),
            start + m <= hay@.len(),
            i <= m,
            forall|j: int| 0 <= j < i ==> hay@[start + j] == needle@[j],
        decreases m - i,
    {
        if hay.get_char(start + i) != needle.get_char(i) {
            assert(hay@.subrange(start as int, start + m)[i as int] != needle@[i as int]);
            return false;
        }
        i = i + 1;
    }
    assert(hay@.subrange(start as int, start + m) =~= needle@);
    true
}

/// Does `needle` occur in `hay` (as `str::contains` with a string pattern)?
pub fn str_contains(hay: &str, needle: &str) -> (r: bool)
    ensures
        r == has_infix(hay@, needle@),
{
    let n = hay.unicode_len();
    let m = needle.unicode_len();
    if m > n {
        return false;
    }
    let mut start: usize = 0;
    while start <= n - m
        invariant
            n == hay@.len(),
            m == needle@.len(),
            m <= n,
            start <= n - m,
            forall|k: int| 0 <= k < start ==> #[trigger] hay@.subrange(k, k + m) != needle@,
        ensures
            forall|k: int| 0 <= k <= n - m ==> #[trigger] hay@.subrange(k, k + m) != needle@,
        decreases n - m - start,
    {
        if matches_at(hay, needle, start) {
            return true;
        }
        if start == n - m {
            break;
        }
        start = start + 1;
    }
    assert forall|k: int| 0 <= k && k + needle@.len() <= hay@.len() implies #[trigger] hay@.subrange(
        k,
        k + needle@.len(),
    ) != needle@ by {}
    false
}

/// A string with every `"` replaced by `\"`, as `str::replace('"', "\\\"")`.
pub open spec fn escape_quotes(s: Seq<char>) -> Seq<char>
    decreases s.len(),
{
    if s.len() == 0 {
        Seq::empty()
    } else if s.last() == '"' {
        escape_quotes(s.drop_last()) + seq!['\\', '"']
    } else {
        escape_quotes(s.drop_last()).push(s.last())
    }
}

/// Appends `s` with its double quotes escaped.
pub fn push_escaped_quotes(out: &mut String, s: &str)
    ensures
        final(out)@ == old(out)@ + escape_quotes(s@),
{
    let n = s.unicode_len();
    let mut i: usize = 0;
    while i < n
        invariant
            n == s@.len(),
            i <= n,
            out@ == old(out)@ + escape_quotes(s@.subrange(0, i as int)),
        decreases n - i,
    {
        let c = s.get_char(i);
        assert(s@.subrange(0, i + 1).drop_last() =~= s@.subrange(0, i as int));
        if c == '"' {
            push_char(out, '\\');
            push_char(out, '"');
        } else {
            push_char(out, c);
        }
        i = i + 1;
        assert(out@ =~= old(out)@ + escape_quotes(s@.subrange(0, i as int)));
    }
    assert(s@.subrange(0, n as int) =~= s@);
}

/// Lines joined with a newline between each two of them, as `join("\n")`.
pub open spec fn join_lines(lines: Seq<Seq<char>>) -> Seq<char>
    decreases lines.len(),
{
    if lines.len() == 0 {
        Seq::empty()
    } else if lines.len() == 1 {
        lines[0]
    } else {
        join_lines(lines.drop_last()).push('\n') + lines.last()
    }
}

/// The character content of each string of a vector.
pub open spec fn texts(v: Seq<String>) -> Seq<Seq<char>> {
    Seq::new(v.len(), |i: int| v[i]@)
}

/// Pushing a string adds its text.
pub proof fn lemma_texts_push(v: Seq<String>, x: String)
    ensures
        texts(v.push(x)) == texts(v).push(x@),
{
    assert(texts(v.push(x)) =~= texts(v).push(x@));
}

/// Joins lines with newlines.
pub fn join_with_newlines(lines: &Vec<String>) -> (r: String)
    ensures
        r@ == join_lines(texts(lines@)),
{
    let mut out = String::new();
    let mut i: usize = 0;
    while i < lines.len()
        invariant
            i <= lines.len(),
            out@ == join_lines(texts(lines@.subrange(0, i as int))),
        decreases lines.len() - i,
    {
        assert(texts(lines@.subrange(0, i + 1)).drop_last() =~= texts(lines@.subrange(0, i as int)));
        if i > 0 {
            push_char(&mut out, '\n');
        }
        out.append(lines[i].as_str());
        i = i + 1;
        assert(out@ =~= join_lines(texts(lines@.subrange(0, i as int))));
    }
    assert(lines@.subrange(0, lines.len() as int) =~= lines@);
    out
}

} // verus!
