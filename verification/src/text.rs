//! Character-level text operations on `Seq<char>` models of strings.

use vstd::prelude::*;
use vstd::string::*;

verus! {

/// Unicode `White_Space` property, as `char::is_whitespace` reports it.
pub open spec fn is_space(c: char) -> bool {
    ||| ('\u{9}' <= c && c <= '\u{d}')
    ||| c == ' '
    ||| c == '\u{85}'
    ||| c == '\u{a0}'
    ||| c == '\u{1680}'
    ||| ('\u{2000}' <= c && c <= '\u{200a}')
    ||| c == '\u{2028}'
    ||| c == '\u{2029}'
    ||| c == '\u{202f}'
    ||| c == '\u{205f}'
    ||| c == '\u{3000}'
}

/// `s` without its leading white space.
pub open spec fn trim_start(s: Seq<char>) -> Seq<char>
    decreases s.len(),
{
    if s.len() > 0 && is_space(s[0]) {
        trim_start(s.drop_first())
    } else {
        s
    }
}

/// `s` without its trailing white space.
pub open spec fn trim_end(s: Seq<char>) -> Seq<char>
    decreases s.len(),
{
    if s.len() > 0 && is_space(s.last()) {
        trim_end(s.drop_last())
    } else {
        s
    }
}

/// `s` without leading and trailing white space (`str::trim`).
pub open spec fn trim(s: Seq<char>) -> Seq<char> {
    trim_end(trim_start(s))
}

/// ASCII upper-case letters mapped to lower case; every other character kept.
pub open spec fn lower_char(c: char) -> char {
    if 'A' <= c && c <= 'Z' {
        ((c as u32) + 32) as char
    } else {
        c
    }
}

/// `str::to_ascii_lowercase`.
pub open spec fn ascii_lower(s: Seq<char>) -> Seq<char> {
    s.map_values(|c: char| lower_char(c))
}

/// Every `from` in `s` replaced by `to`.
pub open spec fn replace_char(s: Seq<char>, from: char, to: char) -> Seq<char> {
    s.map_values(|c: char| if c == from { to } else { c })
}

/// `str::eq_ignore_ascii_case`.
pub open spec fn same_ignoring_ascii_case(a: Seq<char>, b: Seq<char>) -> bool {
    ascii_lower(a) == ascii_lower(b)
}

/// `s` begins with `p`.
pub open spec fn has_prefix(s: Seq<char>, p: Seq<char>) -> bool {
    p.len() <= s.len() && s.subrange(0, p.len() as int) == p
}

/// `s` ends with `p`.
pub open spec fn has_suffix(s: Seq<char>, p: Seq<char>) -> bool {
    p.len() <= s.len() && s.subrange(s.len() - p.len(), s.len() as int) == p
}

/// `p` occurs in `s` as a contiguous run of characters.
pub open spec fn has_infix(s: Seq<char>, p: Seq<char>) -> bool {
    exists|i: int| 0 <= i && i + p.len() <= s.len() && #[trigger] s.subrange(i, i + p.len()) == p
}

/// The characters of `s`, collected into a vector.
pub fn chars_of(s: &str) -> (r: Vec<char>)
    ensures
        r@ == s@,
{
    let mut r: Vec<char> = Vec::new();
    for c in it: s.chars()
        invariant
            r@ == it.seq().take(it.index() as int),
            it.seq() == s@,
    {
        r.push(c);
    }
    r
}

/// Appends one character to `s` (`String::push`).
#[verifier::external_body]
pub(crate) fn push_char(s: &mut String, c: char)
    ensures
        final(s)@ == old(s)@.push(c),
{
    s.push(c);
}

/// The characters `v[from..to]` as a string.
pub fn string_of_range(v: &Vec<char>, from: usize, to: usize) -> (r: String)
    requires
        from <= to <= v.len(),
    ensures
        r@ == v@.subrange(from as int, to as int),
{
    let mut r = String::new();
    let mut i = from;
    while i < to
        invariant
            from <= i <= to <= v.len(),
            r@ == v@.subrange(from as int, i as int),
        decreases to - i,
    {
        push_char(&mut r, v[i]);
        i += 1;
        assert(r@ =~= v@.subrange(from as int, i as int));
    }
    r
}

/// The characters of `v` as a string.
pub fn string_of(v: &Vec<char>) -> (r: String)
    ensures
        r@ == v@,
{
    let r = string_of_range(v, 0, v.len());
    assert(v@.subrange(0, v@.len() as int) =~= v@);
    r
}

/// Whether `c` is white space (`char::is_whitespace`).
pub fn char_is_space(c: char) -> (r: bool)
    ensures
        r == is_space(c),
{
    ('\u{9}' <= c && c <= '\u{d}') || c == ' ' || c == '\u{85}' || c == '\u{a0}' || c == '\u{1680}'
        || ('\u{2000}' <= c && c <= '\u{200a}') || c == '\u{2028}' || c == '\u{2029}' || c
        == '\u{202f}' || c == '\u{205f}' || c == '\u{3000}'
}

proof fn lemma_trim_start_skip(s: Seq<char>, k: int)
    requires
        0 <= k <= s.len(),
        forall|j: int| 0 <= j < k ==> is_space(#[trigger] s[j]),
    ensures
        trim_start(s) == trim_start(s.subrange(k, s.len() as int)),
    decreases k,
{
    if k > 0 {
        assert(s.drop_first() =~= s.subrange(1, s.len() as int));
        let t = s.drop_first();
        assert forall|j: int| 0 <= j < k - 1 implies is_space(#[trigger] t[j]) by {
            assert(t[j] == s[j + 1]);
        }
        lemma_trim_start_skip(t, k - 1);
        assert(t.subrange(k - 1, t.len() as int) =~= s.subrange(k, s.len() as int));
    } else {
        assert(s.subrange(0, s.len() as int) =~= s);
    }
}

proof fn lemma_trim_end_skip(s: Seq<char>, k: int)
    requires
        0 <= k <= s.len(),
        forall|j: int| k <= j < s.len() ==> is_space(#[trigger] s[j]),
    ensures
        trim_end(s) == trim_end(s.subrange(0, k)),
    decreases s.len() - k,
{
    if k < s.len() {
        let t = s.drop_last();
        assert forall|j: int| k <= j < t.len() implies is_space(#[trigger] t[j]) by {
            assert(t[j] == s[j]);
        }
        lemma_trim_end_skip(t, k);
        assert(t.subrange(0, k) =~= s.subrange(0, k));
    } else {
        assert(s.subrange(0, k) =~= s);
    }
}

/// The bounds `[start, end)` of `trim(v@)` inside `v`.
pub fn trim_bounds(v: &Vec<char>) -> (r: (usize, usize))
    ensures
        r.0 <= r.1 <= v.len(),
        v@.subrange(r.0 as int, r.1 as int) == trim(v@),
{
    let mut start: usize = 0;
    while start < v.len() && char_is_space(v[start])
        invariant
            start <= v.len(),
            forall|j: int| 0 <= j < start ==> is_space(#[trigger] v@[j]),
        decreases v.len() - start,
    {
        start += 1;
    }
    proof {
        lemma_trim_start_skip(v@, start as int);
    }
    let ghost rest = v@.subrange(start as int, v@.len() as int);
    assert(start == v.len() || !is_space(rest[0]));
    assert(trim_start(v@) == rest);
    let mut end: usize = v.len();
    while end > start && char_is_space(v[end - 1])
        invariant
            start <= end <= v.len(),
            forall|j: int| end <= j < v.len() ==> is_space(#[trigger] v@[j]),
        decreases end,
    {
        end -= 1;
    }
    proof {
        let e = end - start;
        assert forall|j: int| e <= j < rest.len() implies is_space(#[trigger] rest[j]) by {
            assert(rest[j] == v@[j + start]);
        }
        lemma_trim_end_skip(rest, e);
        let t = rest.subrange(0, e);
        assert(t =~= v@.subrange(start as int, end as int));
        if t.len() > 0 {
            assert(t.last() == v@[end - 1]);
        }
    }
    (start, end)
}

/// `s` with leading and trailing white space removed (`str::trim`).
pub fn trimmed(s: &str) -> (r: String)
    ensures
        r@ == trim(s@),
{
    let v = chars_of(s);
    let (a, b) = trim_bounds(&v);
    string_of_range(&v, a, b)
}

/// Lower-cases one ASCII letter.
pub fn lower_char_exec(c: char) -> (r: char)
    ensures
        r == lower_char(c),
{
    if 'A' <= c && c <= 'Z' {
        let u = c as u8;
        assert(c as u32 == u as u32);
        ((u + 32) as char)
    } else {
        c
    }
}

/// `v@` with ASCII letters lower-cased.
pub fn lower_chars(v: &Vec<char>) -> (r: Vec<char>)
    ensures
        r@ == ascii_lower(v@),
{
    let mut r: Vec<char> = Vec::new();
    let mut i: usize = 0;
    while i < v.len()
        invariant
            i <= v.len(),
            r@ == ascii_lower(v@.subrange(0, i as int)),
        decreases v.len() - i,
    {
        let c = lower_char_exec(v[i]);
        r.push(c);
        i += 1;
        assert(ascii_lower(v@.subrange(0, i as int)) =~= ascii_lower(v@.subrange(0, (i - 1) as int)).push(lower_char(v@[i - 1])));
    }
    assert(v@.subrange(0, v@.len() as int) =~= v@);
    r
}

/// `str::to_ascii_lowercase`.
pub fn ascii_lowercase(s: &str) -> (r: String)
    ensures
        r@ == ascii_lower(s@),
{
    let v = chars_of(s);
    let l = lower_chars(&v);
    string_of(&l)
}

/// `v@` with every `from` replaced by `to`.
pub fn replace_chars(v: &Vec<char>, from: char, to: char) -> (r: Vec<char>)
    ensures
        r@ == replace_char(v@, from, to),
{
    let mut r: Vec<char> = Vec::new();
    let mut i: usize = 0;
    while i < v.len()
        invariant
            i <= v.len(),
            r@ == replace_char(v@.subrange(0, i as int), from, to),
        decreases v.len() - i,
    {
        let c = v[i];
        if c == from {
            r.push(to);
        } else {
            r.push(c);
        }
        i += 1;
        assert(r@ =~= replace_char(v@.subrange(0, i as int), from, to));
    }
    assert(v@.subrange(0, v@.len() as int) =~= v@);
    r
}

/// Whether the two character vectors hold the same characters.
pub fn same_chars(a: &Vec<char>, b: &Vec<char>) -> (r: bool)
    ensures
        r == (a@ == b@),
{
    if a.len() != b.len() {
        return false;
    }
    let mut i: usize = 0;
    while i < a.len()
        invariant
            i <= a.len() == b.len(),
            forall|j: int| 0 <= j < i ==> a@[j] == b@[j],
        decreases a.len() - i,
    {
        if a[i] != b[i] {
            return false;
        }
        i += 1;
    }
    assert(a@ =~= b@);
    true
}

/// Whether `v@` spells out `lit`.
pub fn spells(v: &Vec<char>, lit: &str) -> (r: bool)
    ensures
        r == (v@ == lit@),
{
    let w = chars_of(lit);
    same_chars(v, &w)
}

/// `str::eq_ignore_ascii_case`.
pub fn same_text_ignoring_ascii_case(a: &str, b: &str) -> (r: bool)
    ensures
        r == same_ignoring_ascii_case(a@, b@),
{
    let x = lower_chars(&chars_of(a));
    let y = lower_chars(&chars_of(b));
    same_chars(&x, &y)
}

/// Whether `p@` occurs in `s@` at position `at`.
pub fn occurs_at(s: &Vec<char>, p: &Vec<char>, at: usize) -> (r: bool)
    requires
        at + p.len() <= s.len(),
    ensures
        r == (s@.subrange(at as int, at + p.len()) == p@),
{
    let mut j: usize = 0;
    while j < p.len()
        invariant
            j <= p.len(),
            at + p.len() <= s.len(),
            forall|k: int| 0 <= k < j ==> s@[at + k] == p@[k],
        decreases p.len() - j,
    {
        if s[at + j] != p[j] {
            assert(s@.subrange(at as int, at + p.len())[j as int] != p@[j as int]);
            return false;
        }
        j += 1;
    }
    assert(s@.subrange(at as int, at + p.len()) =~= p@);
    true
}

/// Whether `p@` is a prefix of `s@`.
pub fn chars_start_with(s: &Vec<char>, p: &Vec<char>) -> (r: bool)
    ensures
        r == has_prefix(s@, p@),
{
    if p.len() > s.len() {
        return false;
    }
    occurs_at(s, p, 0)
}

/// Whether `p@` is a suffix of `s@`.
pub fn chars_end_with(s: &Vec<char>, p: &Vec<char>) -> (r: bool)
    ensures
        r == has_suffix(s@, p@),
{
    if p.len() > s.len() {
        return false;
    }
    occurs_at(s, p, s.len() - p.len())
}

/// Whether `p@` occurs anywhere in `s@` (`str::contains`).
pub fn chars_contain(s: &Vec<char>, p: &Vec<char>) -> (r: bool)
    ensures
        r == has_infix(s@, p@),
{
    if p.len() > s.len() {
        return false;
    }
    let last = s.len() - p.len();
    let mut i: usize = 0;
    while i <= last
        invariant
            p.len() <= s.len(),
            last == s.len() - p.len(),
            i <= last + 1,
            forall|k: int| 0 <= k < i ==> #[trigger] s@.subrange(k, k + p.len()) != p@,
        decreases last + 1 - i,
    {
        if occurs_at(s, p, i) {
            return true;
        }
        if i == last {
            return false;
        }
        i += 1;
    }
    false
}

/// Whether `s` begins with `p` (`str::starts_with`).
pub fn text_starts_with(s: &str, p: &str) -> (r: bool)
    ensures
        r == has_prefix(s@, p@),
{
    chars_start_with(&chars_of(s), &chars_of(p))
}

/// Whether `p` occurs in `s` (`str::contains`).
pub fn text_contains(s: &str, p: &str) -> (r: bool)
    ensures
        r == has_infix(s@, p@),
{
    chars_contain(&chars_of(s), &chars_of(p))
}

/// `s` trimmed and ASCII-lower-cased: the form in which option values are compared.
pub open spec fn folded(s: Seq<char>) -> Seq<char> {
    ascii_lower(trim(s))
}

/// `folded(s)` with every `_` written as `-`.
pub open spec fn dashed(s: Seq<char>) -> Seq<char> {
    replace_char(folded(s), '_', '-')
}

/// Lower-case ASCII letters, digits and `-` only.
pub open spec fn is_plain_word(s: Seq<char>) -> bool {
    forall|i: int|
        0 <= i < s.len() ==> ('a' <= #[trigger] s[i] && s[i] <= 'z') || s[i] == '-' || ('0' <= s[i]
            && s[i] <= '9')
}

/// A plain word is its own folded and dashed form.
pub proof fn lemma_plain_word_fixed(s: Seq<char>)
    requires
        is_plain_word(s),
    ensures
        trim(s) == s,
        folded(s) == s,
        dashed(s) == s,
{
    if s.len() > 0 {
        assert(!is_space(s[0]));
        assert(!is_space(s.last()));
    }
    assert(trim_start(s) == s);
    assert(trim(s) == s);
    assert(ascii_lower(s) =~= s);
    assert(replace_char(s, '_', '-') =~= s);
}

/// The folded form of `s`.
pub fn folded_chars(s: &str) -> (r: Vec<char>)
    ensures
        r@ == folded(s@),
{
    let v = chars_of(s);
    let (a, b) = trim_bounds(&v);
    let mut t: Vec<char> = Vec::new();
    let mut i = a;
    while i < b
        invariant
            a <= i <= b <= v.len(),
            t@ == v@.subrange(a as int, i as int),
        decreases b - i,
    {
        t.push(v[i]);
        i += 1;
        assert(t@ =~= v@.subrange(a as int, i as int));
    }
    lower_chars(&t)
}

/// The dashed form of `s`.
pub fn dashed_chars(s: &str) -> (r: Vec<char>)
    ensures
        r@ == dashed(s@),
{
    let f = folded_chars(s);
    replace_chars(&f, '_', '-')
}

/// The decimal digit for `d < 10`.
pub open spec fn digit_char(d: nat) -> char {
    ((d + 48) as u32) as char
}

/// The decimal spelling of `n`, without leading zeros (`u64::to_string`).
pub open spec fn decimal(n: nat) -> Seq<char>
    decreases n,
{
    if n < 10 {
        seq![digit_char(n)]
    } else {
        decimal(n / 10).push(digit_char(n % 10))
    }
}

/// The decimal spelling of `n`.
pub fn decimal_text(n: u64) -> (r: String)
    ensures
        r@ == decimal(n as nat),
{
    let mut digits: Vec<char> = Vec::new();
    let mut m = n;
    while m >= 10
        invariant
            decimal(n as nat) == decimal(m as nat) + digits@,
        decreases m,
    {
        let d = (m % 10) as u8;
        let c = (d + 48) as char;
        assert(c == digit_char((m % 10) as nat));
        let ghost old_digits = digits@;
        digits.insert(0, c);
        assert(decimal(m as nat) == decimal((m / 10) as nat).push(c));
        assert(decimal(m as nat) + old_digits =~= decimal((m / 10) as nat) + digits@);
        m = m / 10;
    }
    let d = m as u8;
    let c = (d + 48) as char;
    assert(c == digit_char(m as nat));
    digits.insert(0, c);
    assert(decimal(n as nat) =~= digits@);
    string_of(&digits)
}

/// `s` in Unicode lower case, by std's rules for `str::to_lowercase`
/// (which look at the context of a character, as for a final sigma).
pub uninterp spec fn unicode_lowercase(s: Seq<char>) -> Seq<char>;

/// `str::to_lowercase`. The contract names the result.
#[verifier::external_body]
pub(crate) fn lowercase(s: &str) -> (r: String)
    ensures
        r@ == unicode_lowercase(s@),
{
    s.to_lowercase()
}

/// `s` without trailing white space (`str::trim_end`).
pub fn trimmed_end(s: &String) -> (r: String)
    ensures
        r@ == trim_end(s@),
{
    let v = chars_of(s.as_str());
    let mut end: usize = v.len();
    while end > 0 && char_is_space(v[end - 1])
        invariant
            end <= v.len(),
            forall|j: int| end <= j < v.len() ==> is_space(#[trigger] v@[j]),
        decreases end,
    {
        end -= 1;
    }
    proof {
        lemma_trim_end_skip(v@, end as int);
        let t = v@.subrange(0, end as int);
        if t.len() > 0 {
            assert(t.last() == v@[end - 1]);
        }
    }
    string_of_range(&v, 0, end)
}

/// `n` spaces.
pub open spec fn spaces(n: nat) -> Seq<char> {
    Seq::new(n, |i: int| ' ')
}

/// `n` dashes.
pub open spec fn dashes(n: nat) -> Seq<char> {
    Seq::new(n, |i: int| '-')
}

/// Appends `n` copies of `c`.
pub fn push_repeated(out: &mut String, c: char, n: usize)
    ensures
        final(out)@ == old(out)@ + Seq::new(n as nat, |i: int| c),
{
    let mut k: usize = 0;
    while k < n
        invariant
            k <= n,
            out@ == old(out)@ + Seq::new(k as nat, |i: int| c),
        decreases n - k,
    {
        push_char(out, c);
        k += 1;
        assert(out@ =~= old(out)@ + Seq::new(k as nat, |i: int| c));
    }
}

/// The parts joined by `sep` (`[&str]::join`).
pub open spec fn joined(parts: Seq<Seq<char>>, sep: Seq<char>) -> Seq<char>
    decreases parts.len(),
{
    if parts.len() == 0 {
        Seq::empty()
    } else if parts.len() == 1 {
        parts[0]
    } else {
        joined(parts.drop_last(), sep) + sep + parts.last()
    }
}

/// Joins `parts` with `sep` between them.
pub fn join_texts(parts: &Vec<String>, sep: &str) -> (r: String)
    ensures
        r@ == joined(parts.deep_view(), sep@),
{
    let ghost l = parts.deep_view();
    let mut out = String::new();
    let mut k: usize = 0;
    assert(l.take(0) =~= Seq::<Seq<char>>::empty());
    while k < parts.len()
        invariant
            l == parts.deep_view(),
            k <= parts.len(),
            out@ == joined(l.take(k as int), sep@),
        decreases parts.len() - k,
    {
        if k > 0 {
            out.append(sep);
        }
        out.append(parts[k].as_str());
        k += 1;
        proof {
            let t = l.take(k as int);
            assert(t.drop_last() =~= l.take(k - 1));
            if k == 1 {
                assert(out@ =~= t[0]);
            } else {
                assert(out@ =~= joined(t, sep@));
            }
        }
    }
    assert(l.take(parts.len() as int) =~= l);
    out
}

/// Where `trim_start(s)` begins inside `s`.
pub proof fn lemma_trim_start_offset(s: Seq<char>) -> (k: int)
    ensures
        0 <= k <= s.len(),
        trim_start(s) =~= s.subrange(k, s.len() as int),
    decreases s.len(),
{
    if s.len() > 0 && is_space(s[0]) {
        let k = lemma_trim_start_offset(s.drop_first());
        assert(s.drop_first().subrange(k, s.drop_first().len() as int) =~= s.subrange(k + 1, s.len() as int));
        k + 1
    } else {
        0
    }
}

/// Where `trim_end(s)` ends inside `s`.
pub proof fn lemma_trim_end_offset(s: Seq<char>) -> (m: int)
    ensures
        0 <= m <= s.len(),
        trim_end(s) =~= s.subrange(0, m),
    decreases s.len(),
{
    if s.len() > 0 && is_space(s.last()) {
        let m = lemma_trim_end_offset(s.drop_last());
        assert(s.drop_last().subrange(0, m) =~= s.subrange(0, m));
        m
    } else {
        s.len() as int
    }
}

/// The trimmed text is a run of characters of the text, so a text whose
/// ASCII-lower-cased form is `t` contains the trimmed text, lower-cased.
pub proof fn lemma_trim_lower_is_infix(s: Seq<char>, t: Seq<char>)
    requires
        ascii_lower(t) == ascii_lower(s),
    ensures
        has_infix(ascii_lower(t), ascii_lower(trim(s))),
{
    let k = lemma_trim_start_offset(s);
    let u = trim_start(s);
    let m = lemma_trim_end_offset(u);
    let a = k;
    let b = k + m;
    assert(trim(s) =~= s.subrange(a, b));
    let l = ascii_lower(s);
    assert(ascii_lower(s.subrange(a, b)) =~= l.subrange(a, b));
    assert(l.subrange(a, a + ascii_lower(trim(s)).len()) == ascii_lower(trim(s)));
}

} // verus!
