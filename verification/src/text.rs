//! Character-level string helpers with exact specifications.
//!
//! Every predicate is stated over the `Seq<char>` view of a string.
use vstd::prelude::*;

verus! {

/// `p` occurs in `s` starting at position `i`.
pub open spec fn matches_at(s: Seq<char>, p: Seq<char>, i: int) -> bool {
    &&& 0 <= i
    &&& i + p.len() <= s.len()
    &&& forall|j: int| 0 <= j < p.len() ==> s[i + j] == p[j]
}

/// `s` begins with `p`.
pub open spec fn has_prefix(s: Seq<char>, p: Seq<char>) -> bool {
    matches_at(s, p, 0)
}

/// `s` ends with `p`.
pub open spec fn has_suffix(s: Seq<char>, p: Seq<char>) -> bool {
    p.len() <= s.len() && matches_at(s, p, s.len() - p.len())
}

/// `p` occurs somewhere in `s`.
pub open spec fn has_infix(s: Seq<char>, p: Seq<char>) -> bool {
    exists|i: int| #[trigger] matches_at(s, p, i)
}

/// ASCII lower-casing of one character; other characters are unchanged.
pub open spec fn lower_char(c: char) -> char {
    if 'A' <= c && c <= 'Z' {
        ((c as u32) + 32) as char
    } else {
        c
    }
}

/// ASCII lower-casing of a whole string.
pub open spec fn lower_seq(s: Seq<char>) -> Seq<char> {
    s.map_values(|c: char| lower_char(c))
}

/// Equality up to ASCII case.
pub open spec fn eq_ignore_case(a: Seq<char>, b: Seq<char>) -> bool {
    lower_seq(a) == lower_seq(b)
}

/// `s` with every leading occurrence of `c` removed.
pub open spec fn trim_start_char(s: Seq<char>, c: char) -> Seq<char>
    decreases s.len(),
{
    if s.len() > 0 && s[0] == c {
        trim_start_char(s.drop_first(), c)
    } else {
        s
    }
}

/// The decimal digit character for `d < 10`.
pub open spec fn digit_char(d: nat) -> char {
    ((d + 48) as u32) as char
}

/// The decimal rendering of a natural number, without leading zeros.
pub open spec fn decimal(n: nat) -> Seq<char>
    decreases n,
{
    if n < 10 {
        seq![digit_char(n)]
    } else {
        decimal(n / 10).push(digit_char(n % 10))
    }
}

/// Concatenation of `parts` with `sep` between consecutive parts.
pub open spec fn join(parts: Seq<Seq<char>>, sep: Seq<char>) -> Seq<char>
    decreases parts.len(),
{
    if parts.len() == 0 {
        Seq::empty()
    } else if parts.len() == 1 {
        parts[0]
    } else {
        join(parts.drop_last(), sep) + sep + parts.last()
    }
}


/// Lexicographic order on character sequences (code point order; a proper prefix comes first).
pub open spec fn seq_lt(a: Seq<char>, b: Seq<char>) -> bool
    decreases a.len(),
{
    if a.len() == 0 {
        b.len() > 0
    } else if b.len() == 0 {
        false
    } else if a[0] != b[0] {
        (a[0] as u32) < (b[0] as u32)
    } else {
        seq_lt(a.drop_first(), b.drop_first())
    }
}

/// `a` comes before `b` in lexicographic order.
pub fn str_lt(a: &str, b: &str) -> (r: bool)
    ensures
        r == seq_lt(a@, b@),
{
    let av = chars_of(a);
    let bv = chars_of(b);
    let mut i: usize = 0;
    assert(a@.skip(0) =~= a@ && b@.skip(0) =~= b@);
    while i < av.len() && i < bv.len() && av[i] == bv[i]
        invariant
            i <= av.len(),
            i <= bv.len(),
            av@ == a@,
            bv@ == b@,
            seq_lt(a@, b@) == seq_lt(a@.skip(i as int), b@.skip(i as int)),
        decreases av.len() - i,
    {
        proof {
            assert(a@.skip(i as int).drop_first() =~= a@.skip(i + 1));
            assert(b@.skip(i as int).drop_first() =~= b@.skip(i + 1));
        }
        i = i + 1;
    }
    if i == av.len() {
        i < bv.len()
    } else if i == bv.len() {
        false
    } else {
        (av[i] as u32) < (bv[i] as u32)
    }
}

/// Joins `parts` with `sep` between consecutive parts.
pub fn join_strings(parts: &Vec<String>, sep: &str) -> (r: String)
    ensures
        r@ == join(parts@.map_values(|p: String| p@), sep@),
{
    let ghost views = parts@.map_values(|p: String| p@);
    let mut r = String::new();
    let mut i: usize = 0;
    while i < parts.len()
        invariant
            i <= parts.len(),
            views == parts@.map_values(|p: String| p@),
            r@ == join(views.take(i as int), sep@),
        decreases parts.len() - i,
    {
        if i != 0 {
            push_str(&mut r, sep);
        }
        push_str(&mut r, parts[i].as_str());
        proof {
            assert(views.take(i + 1).drop_last() =~= views.take(i as int));
            if i == 0 {
                assert(r@ =~= join(views.take(1), sep@));
            }
        }
        i = i + 1;
    }
    proof {
        assert(views.take(parts.len() as int) =~= views);
    }
    r
}

/// The character sequences of a sequence of strings.
pub open spec fn string_views(v: Seq<String>) -> Seq<Seq<char>> {
    v.map_values(|s: String| s@)
}

/// Pushing a string pushes its view.
pub proof fn lemma_string_views_push(v: Seq<String>, s: String)
    ensures
        string_views(v.push(s)) == string_views(v).push(s@),
{
    assert(string_views(v.push(s)) =~= string_views(v).push(s@));
}

/// Whether one of the strings in `v` equals `s`.
pub fn contains_string(v: &Vec<String>, s: &str) -> (b: bool)
    ensures
        b == string_views(v@).contains(s@),
{
    let mut i: usize = 0;
    while i < v.len()
        invariant
            i <= v.len(),
            forall|k: int| 0 <= k < i ==> v@[k]@ != s@,
        decreases v.len() - i,
    {
        if str_eq(v[i].as_str(), s) {
            assert(string_views(v@)[i as int] == s@);
            return true;
        }
        i = i + 1;
    }
    assert(!string_views(v@).contains(s@)) by {
        if string_views(v@).contains(s@) {
            let k = choose|k: int| 0 <= k < string_views(v@).len() && string_views(v@)[k] == s@;
            assert(v@[k]@ == s@);
        }
    }
    false
}

/// The characters of a string slice, in order.
pub fn chars_of(s: &str) -> (v: Vec<char>)
    ensures
        v@ == s@,
{
    let mut v: Vec<char> = Vec::new();
    for c in it: s.chars()
        invariant
            v.len() == it.index(),
            forall|j: int| 0 <= j < v.len() ==> v@[j] == it.seq()[j],
    {
        v.push(c);
    }
    v
}

/// Whether `p` occurs in `s` at position `i`.
pub fn slice_matches_at(s: &[char], p: &[char], i: usize) -> (b: bool)
    ensures
        b == matches_at(s@, p@, i as int),
{
    if p.len() > s.len() || i > s.len() - p.len() {
        return false;
    }
    let mut j: usize = 0;
    while j < p.len()
        invariant
            j <= p.len(),
            i + p.len() <= s.len(),
            forall|k: int| 0 <= k < j ==> s@[i + k] == p@[k],
        decreases p.len() - j,
    {
        if s[i + j] != p[j] {
            return false;
        }
        j = j + 1;
    }
    true
}

/// Whether `p` occurs anywhere in `s`.
pub fn slice_contains(s: &[char], p: &[char]) -> (b: bool)
    ensures
        b == has_infix(s@, p@),
{
    if p.len() > s.len() {
        assert forall|i: int| !matches_at(s@, p@, i) by {}
        return false;
    }
    let last = s.len() - p.len();
    let mut i: usize = 0;
    while i <= last
        invariant_except_break
            i <= last,
            forall|k: int| 0 <= k < i ==> !matches_at(s@, p@, k),
        invariant
            last == s.len() - p.len(),
            p.len() <= s.len(),
        ensures
            forall|k: int| 0 <= k <= last ==> !matches_at(s@, p@, k),
        decreases last + 1 - i,
    {
        if slice_matches_at(s, p, i) {
            return true;
        }
        if i == last {
            break;
        }
        i = i + 1;
    }
    assert forall|k: int| !matches_at(s@, p@, k) by {
        if matches_at(s@, p@, k) {
            assert(0 <= k <= last);
        }
    }
    false
}

/// Whether `s` begins with `p`.
pub fn starts_with(s: &str, p: &str) -> (b: bool)
    ensures
        b == has_prefix(s@, p@),
{
    let sv = chars_of(s);
    let pv = chars_of(p);
    slice_matches_at(sv.as_slice(), pv.as_slice(), 0)
}

/// Whether `s` ends with `p`.
pub fn ends_with(s: &str, p: &str) -> (b: bool)
    ensures
        b == has_suffix(s@, p@),
{
    let sv = chars_of(s);
    let pv = chars_of(p);
    if pv.len() > sv.len() {
        return false;
    }
    slice_matches_at(sv.as_slice(), pv.as_slice(), sv.len() - pv.len())
}

/// Whether `p` occurs in `s`.
pub fn contains(s: &str, p: &str) -> (b: bool)
    ensures
        b == has_infix(s@, p@),
{
    let sv = chars_of(s);
    let pv = chars_of(p);
    slice_contains(sv.as_slice(), pv.as_slice())
}

/// Whether two strings are equal.
pub fn str_eq(a: &str, b: &str) -> (r: bool)
    ensures
        r == (a@ == b@),
{
    let av = chars_of(a);
    let bv = chars_of(b);
    if av.len() != bv.len() {
        return false;
    }
    let r = slice_matches_at(av.as_slice(), bv.as_slice(), 0);
    if r {
        assert(av@ =~= bv@);
    }
    r
}

/// ASCII lower-casing of one character.
pub fn lower(c: char) -> (r: char)
    ensures
        r == lower_char(c),
{
    if 'A' <= c && c <= 'Z' {
        let u: u32 = (c as u32) + 32;
        let b: u8 = u as u8;
        b as char
    } else {
        c
    }
}

/// Whether two strings are equal up to ASCII case.
pub fn eq_ignore_ascii_case(a: &str, b: &str) -> (r: bool)
    ensures
        r == eq_ignore_case(a@, b@),
{
    let av = chars_of(a);
    let bv = chars_of(b);
    if av.len() != bv.len() {
        proof {
            assert(lower_seq(a@).len() != lower_seq(b@).len());
        }
        return false;
    }
    let mut i: usize = 0;
    while i < av.len()
        invariant
            i <= av.len(),
            av.len() == bv.len(),
            av@ == a@,
            bv@ == b@,
            forall|k: int| 0 <= k < i ==> lower_char(av@[k]) == lower_char(bv@[k]),
        decreases av.len() - i,
    {
        if lower(av[i]) != lower(bv[i]) {
            proof {
                assert(lower_seq(a@)[i as int] != lower_seq(b@)[i as int]);
            }
            return false;
        }
        i = i + 1;
    }
    proof {
        assert(lower_seq(a@) =~= lower_seq(b@));
    }
    true
}

/// A fresh `String` holding the characters of `s`.
pub fn owned(s: &str) -> (r: String)
    ensures
        r@ == s@,
{
    s.to_owned()
}

/// Appends `c` to `s`: a call of `String::push`.
#[verifier::external_body]
pub(crate) fn push_char(s: &mut String, c: char)
    ensures
        final(s)@ == old(s)@.push(c),
{
    s.push(c)
}

/// Appends `t` to `s`.
pub fn push_str(s: &mut String, t: &str)
    ensures
        final(s)@ == old(s)@ + t@,
{
    s.append(t)
}

/// A `String` built from a sequence of characters.
pub fn string_from_chars(v: &[char]) -> (r: String)
    ensures
        r@ == v@,
{
    let mut r = String::new();
    let mut i: usize = 0;
    while i < v.len()
        invariant
            i <= v.len(),
            r@ == v@.take(i as int),
        decreases v.len() - i,
    {
        push_char(&mut r, v[i]);
        proof {
            assert(v@.take(i + 1) =~= v@.take(i as int).push(v@[i as int]));
        }
        i = i + 1;
    }
    proof {
        assert(v@.take(v.len() as int) =~= v@);
    }
    r
}

/// ASCII lower-casing of a whole string.
pub fn to_ascii_lowercase(s: &str) -> (r: String)
    ensures
        r@ == lower_seq(s@),
{
    let sv = chars_of(s);
    let mut out: Vec<char> = Vec::new();
    let mut i: usize = 0;
    while i < sv.len()
        invariant
            i <= sv.len(),
            sv@ == s@,
            out@ == lower_seq(sv@.take(i as int)),
        decreases sv.len() - i,
    {
        out.push(lower(sv[i]));
        proof {
            assert(lower_seq(sv@.take(i + 1)) =~= lower_seq(sv@.take(i as int)).push(
                lower_char(sv@[i as int]),
            ));
        }
        i = i + 1;
    }
    proof {
        assert(sv@.take(sv.len() as int) =~= sv@);
    }
    string_from_chars(out.as_slice())
}

/// Removes every leading occurrence of `c` from `s`.
pub fn trim_start_matches_char(s: &str, c: char) -> (r: String)
    ensures
        r@ == trim_start_char(s@, c),
{
    let sv = chars_of(s);
    let mut i: usize = 0;
    assert(sv@.skip(0) =~= sv@);
    while i < sv.len() && sv[i] == c
        invariant
            i <= sv.len(),
            sv@ == s@,
            trim_start_char(s@, c) == trim_start_char(sv@.skip(i as int), c),
        decreases sv.len() - i,
    {
        proof {
            assert(sv@.skip(i as int).drop_first() =~= sv@.skip(i + 1));
        }
        i = i + 1;
    }
    let mut out: Vec<char> = Vec::new();
    let start = i;
    while i < sv.len()
        invariant
            start <= i <= sv.len(),
            out@ == sv@.subrange(start as int, i as int),
        decreases sv.len() - i,
    {
        out.push(sv[i]);
        proof {
            assert(sv@.subrange(start as int, i + 1) =~= sv@.subrange(start as int, i as int).push(
                sv@[i as int],
            ));
        }
        i = i + 1;
    }
    proof {
        assert(sv@.skip(start as int) =~= sv@.subrange(start as int, sv.len() as int));
    }
    string_from_chars(out.as_slice())
}

/// The decimal digit character for `d < 10`.
fn digit(d: u64) -> (c: char)
    requires
        d < 10,
    ensures
        c == digit_char(d as nat),
{
    let b: u8 = (d as u8) + 48;
    b as char
}

/// The decimal rendering of `n`.
pub fn decimal_string(n: u64) -> (r: String)
    ensures
        r@ == decimal(n as nat),
{
    let mut out: Vec<char> = Vec::new();
    let mut m: u64 = n;
    while m >= 10
        invariant
            decimal(n as nat) == decimal(m as nat) + out@,
        decreases m,
    {
        let c = digit(m % 10);
        proof {
            assert(decimal(m as nat) == decimal((m / 10) as nat).push(c));
            assert(decimal((m / 10) as nat).push(c) + out@ =~= decimal((m / 10) as nat) + out@.insert(
                0,
                c,
            ));
        }
        out.insert(0, c);
        m = m / 10;
    }
    let c = digit(m);
    proof {
        assert(decimal(m as nat) == seq![c]);
        assert(seq![c] + out@ =~= out@.insert(0, c));
    }
    out.insert(0, c);
    string_from_chars(out.as_slice())
}


/// The characters of `s` from position `n` on.
pub fn skip_chars(s: &str, n: usize) -> (r: String)
    requires
        n <= s@.len(),
    ensures
        r@ == s@.skip(n as int),
{
    let sv = chars_of(s);
    let mut out: Vec<char> = Vec::new();
    let mut i: usize = n;
    while i < sv.len()
        invariant
            n <= i <= sv.len(),
            sv@ == s@,
            out@ == sv@.subrange(n as int, i as int),
        decreases sv.len() - i,
    {
        out.push(sv[i]);
        proof {
            assert(sv@.subrange(n as int, i + 1) =~= sv@.subrange(n as int, i as int).push(sv@[i as int]));
        }
        i = i + 1;
    }
    proof {
        assert(sv@.skip(n as int) =~= sv@.subrange(n as int, sv.len() as int));
    }
    string_from_chars(out.as_slice())
}


/// The characters that `str::trim` removes: those with the Unicode `White_Space` property.
pub open spec fn is_white_space(c: char) -> bool {
    ||| ('\u{9}' <= c && c <= '\u{d}')
    ||| c == ' '
    ||| c == '\u{85}'
    ||| c == '\u{a0}'
    ||| c == '\u{1680}'
    ||| ('\u{2000}' <= c && c <= '\u{200a}')
    ||| c == '\u{2028}'
    ||| c == '\u{2029}'
    ||| c == '\u{202f}'
    ||| c == '\u{205f}'
    ||| c == '\u{3000}'
}

/// `s` without leading white space.
pub open spec fn trim_start_ws(s: Seq<char>) -> Seq<char>
    decreases s.len(),
{
    if s.len() > 0 && is_white_space(s[0]) {
        trim_start_ws(s.drop_first())
    } else {
        s
    }
}

/// `s` without trailing white space.
pub open spec fn trim_end_ws(s: Seq<char>) -> Seq<char>
    decreases s.len(),
{
    if s.len() > 0 && is_white_space(s.last()) {
        trim_end_ws(s.drop_last())
    } else {
        s
    }
}

/// `s` without white space at either end, as `str::trim` gives it.
pub open spec fn trim_ws(s: Seq<char>) -> Seq<char> {
    trim_end_ws(trim_start_ws(s))
}

/// Whether `c` is white space.
pub fn white_space(c: char) -> (b: bool)
    ensures
        b == is_white_space(c),
{
    ('\u{9}' <= c && c <= '\u{d}') || c == ' ' || c == '\u{85}' || c == '\u{a0}' || c == '\u{1680}'
        || ('\u{2000}' <= c && c <= '\u{200a}') || c == '\u{2028}' || c == '\u{2029}' || c
        == '\u{202f}' || c == '\u{205f}' || c == '\u{3000}'
}

proof fn lemma_trim_start_skip(s: Seq<char>, k: int)
    requires
        0 <= k <= s.len(),
        forall|t: int| 0 <= t < k ==> is_white_space(#[trigger] s[t]),
    ensures
        trim_start_ws(s) == trim_start_ws(s.skip(k)),
    decreases k,
{
    if k > 0 {
        assert(s.drop_first().skip(k - 1) =~= s.skip(k));
        assert forall|t: int| 0 <= t < k - 1 implies is_white_space(#[trigger] s.drop_first()[t]) by {
            assert(s.drop_first()[t] == s[t + 1]);
        }
        lemma_trim_start_skip(s.drop_first(), k - 1);
    } else {
        assert(s.skip(0) =~= s);
    }
}

proof fn lemma_trim_end_take(s: Seq<char>, k: int)
    requires
        0 <= k <= s.len(),
        forall|t: int| k <= t < s.len() ==> is_white_space(#[trigger] s[t]),
    ensures
        trim_end_ws(s) == trim_end_ws(s.take(k)),
    decreases s.len() - k,
{
    if k < s.len() {
        assert(s.drop_last().take(k) =~= s.take(k));
        assert(s.last() == s[s.len() - 1]);
        assert forall|t: int| k <= t < s.drop_last().len() implies is_white_space(#[trigger] s.drop_last()[t]) by {
            assert(s.drop_last()[t] == s[t]);
        }
        lemma_trim_end_take(s.drop_last(), k);
    } else {
        assert(s.take(k) =~= s);
    }
}

/// `line` with white space removed at both ends.
pub fn trim_white_space(line: &[char]) -> (r: Vec<char>)
    ensures
        r@ == trim_ws(line@),
{
    let mut a: usize = 0;
    while a < line.len() && white_space(line[a])
        invariant
            a <= line.len(),
            forall|t: int| 0 <= t < a ==> is_white_space(#[trigger] line@[t]),
        decreases line.len() - a,
    {
        a = a + 1;
    }
    proof {
        lemma_trim_start_skip(line@, a as int);
        if a < line.len() {
            assert(line@.skip(a as int)[0] == line@[a as int]);
        }
        assert(trim_start_ws(line@.skip(a as int)) == line@.skip(a as int));
    }
    let ghost rest = line@.skip(a as int);
    let mut b: usize = line.len();
    while b > a && white_space(line[b - 1])
        invariant
            a <= b <= line.len(),
            rest == line@.skip(a as int),
            forall|t: int| b - a <= t < rest.len() ==> is_white_space(#[trigger] rest[t]),
        decreases b,
    {
        assert(rest[b - 1 - a] == line@[b - 1]);
        b = b - 1;
    }
    proof {
        lemma_trim_end_take(rest, (b - a) as int);
        let kept = rest.take((b - a) as int);
        if b > a {
            assert(kept.last() == line@[b - 1]);
        }
        assert(trim_end_ws(kept) == kept);
    }
    let mut r: Vec<char> = Vec::new();
    let mut k: usize = a;
    while k < b
        invariant
            a <= k <= b <= line.len(),
            r@ == line@.subrange(a as int, k as int),
        decreases b - k,
    {
        r.push(line[k]);
        proof {
            assert(line@.subrange(a as int, k + 1) =~= line@.subrange(a as int, k as int).push(line@[k as int]));
        }
        k = k + 1;
    }
    proof {
        assert(r@ =~= rest.take((b - a) as int));
    }
    r
}


} // verus!
