//! Text-level decisions of the file analysis: positions in the source, named imports,
//! suppression comments, alias chains, secrets in string literals and authentication helpers.
use vstd::prelude::*;

use crate::rules::{select_map, ConvexFunction, FunctionKind};
use crate::text::{
    chars_of, contains, has_infix, has_prefix, is_white_space, lower_seq, owned, starts_with,
    str_eq, string_from_chars, string_views, to_ascii_lowercase, trim_white_space, trim_ws,
};

verus! {

/// How many bytes of `s` equal `b`.
pub open spec fn count_byte(s: Seq<u8>, b: u8) -> nat
    decreases s.len(),
{
    if s.len() == 0 {
        0
    } else {
        count_byte(s.drop_last(), b) + if s.last() == b {
            1nat
        } else {
            0nat
        }
    }
}

/// The position of the last line feed in `s`, or -1.
pub open spec fn last_newline(s: Seq<u8>) -> int
    decreases s.len(),
{
    if s.len() == 0 {
        -1
    } else if s.last() == 10 {
        s.len() - 1
    } else {
        last_newline(s.drop_last())
    }
}

/// The 1-based line and column of byte `offset` of `source`: the line feeds before it, and
/// its distance from the last of them (from the start when there is none).
pub open spec fn line_col_of(source: Seq<u8>, offset: nat) -> (int, int) {
    let k = if offset <= source.len() {
        offset as int
    } else {
        source.len() as int
    };
    let before = source.take(k);
    (
        count_byte(before, 10) as int + 1,
        if last_newline(before) >= 0 {
            offset as int - last_newline(before)
        } else {
            offset as int + 1
        },
    )
}

proof fn lemma_count_byte_bound(s: Seq<u8>, b: u8)
    ensures
        count_byte(s, b) <= s.len(),
    decreases s.len(),
{
    if s.len() > 0 {
        lemma_count_byte_bound(s.drop_last(), b);
    }
}

proof fn lemma_last_newline_range(s: Seq<u8>)
    ensures
        -1 <= last_newline(s) < s.len(),
    decreases s.len(),
{
    if s.len() > 0 {
        lemma_last_newline_range(s.drop_last());
    }
}

/// The 1-based line and column of byte `offset` of the UTF-8 text `source`.
pub fn line_col(source: &[u8], offset: u32) -> (r: (u32, u32))
    requires
        source@.len() < 0xffff_ffff,
        offset < 0xffff_ffff,
    ensures
        r.0 as int == line_col_of(source@, offset as nat).0,
        r.1 as int == line_col_of(source@, offset as nat).1,
{
    let end: usize = if (offset as usize) <= source.len() { offset as usize } else { source.len() };
    let mut lines: u32 = 0;
    let mut last: Option<usize> = None;
    let mut i: usize = 0;
    while i < end
        invariant
            i <= end <= source.len(),
            source@.len() < 0xffff_ffff,
            lines as nat == count_byte(source@.take(i as int), 10),
            match last {
                Some(p) => p as int == last_newline(source@.take(i as int)) && p < i,
                None => last_newline(source@.take(i as int)) == -1,
            },
        decreases end - i,
    {
        proof {
            assert(source@.take(i + 1).drop_last() =~= source@.take(i as int));
            assert(source@.take(i + 1).last() == source@[i as int]);
            lemma_count_byte_bound(source@.take(i as int), 10);
        }
        if source[i] == 10 {
            lines = lines + 1;
            last = Some(i);
        }
        i = i + 1;
    }
    proof {
        lemma_count_byte_bound(source@.take(end as int), 10);
    }
    let col: u32 = match last {
        Some(p) => offset - (p as u32),
        None => offset + 1,
    };
    (lines + 1, col)
}

/// A byte that `char::is_whitespace` accepts when read as a character (as `b as char` does).
pub open spec fn white_space_byte(b: u8) -> bool {
    (9 <= b && b <= 13) || b == 32 || b == 0x85 || b == 0xa0
}

/// The first byte at or after `start` that is not white space is `(`.
pub open spec fn invoked_at(source: Seq<u8>, start: int) -> bool {
    exists|j: int|
        start <= j < source.len() && source[j] == 40 && forall|k: int|
            start <= k < j ==> white_space_byte(#[trigger] source[k])
}

/// Whether the call that ends at byte `call_end` is called again at once: the next byte that
/// is not white space opens a parenthesis.
pub fn is_immediately_invoked(source: &[u8], call_end: u32) -> (b: bool)
    ensures
        b == invoked_at(source@, call_end as int),
{
    let mut idx: usize = call_end as usize;
    while idx < source.len()
        invariant
            call_end as int <= idx,
            forall|k: int| call_end as int <= k < idx ==> white_space_byte(#[trigger] source@[k]),
        decreases source.len() - idx,
    {
        let c = source[idx];
        if !((9 <= c && c <= 13) || c == 32 || c == 0x85 || c == 0xa0) {
            proof {
                if c != 40 && invoked_at(source@, call_end as int) {
                    let j = choose|j: int|
                        call_end as int <= j < source@.len() && source@[j] == 40 && forall|k: int|
                            call_end as int <= k < j ==> white_space_byte(#[trigger] source@[k]);
                    if j > idx {
                        assert(white_space_byte(source@[idx as int]));
                    }
                }
            }
            return c == 40;
        }
        idx = idx + 1;
    }
    proof {
        if invoked_at(source@, call_end as int) {
            let j = choose|j: int|
                call_end as int <= j < source@.len() && source@[j] == 40 && forall|k: int|
                    call_end as int <= k < j ==> white_space_byte(#[trigger] source@[k]);
            assert(white_space_byte(source@[j]));
        }
    }
    false
}


/// The pieces of `s` between the characters that `sep` accepts, as `str::split` gives them:
/// one more piece than there are separators, pieces possibly empty.
pub open spec fn split_by(s: Seq<char>, sep: spec_fn(char) -> bool) -> Seq<Seq<char>>
    decreases s.len(),
{
    if s.len() == 0 {
        seq![Seq::empty()]
    } else {
        let prev = split_by(s.drop_last(), sep);
        if sep(s.last()) {
            prev.push(Seq::empty())
        } else {
            prev.drop_last().push(prev.last().push(s.last()))
        }
    }
}

proof fn lemma_split_by_nonempty(s: Seq<char>, sep: spec_fn(char) -> bool)
    ensures
        split_by(s, sep).len() >= 1,
    decreases s.len(),
{
    if s.len() > 0 {
        lemma_split_by_nonempty(s.drop_last(), sep);
    }
}

/// A comma.
pub open spec fn is_comma() -> spec_fn(char) -> bool {
    |c: char| c == ','
}

/// A white-space character.
pub open spec fn is_space() -> spec_fn(char) -> bool {
    |c: char| is_white_space(c)
}

/// A nonempty piece.
pub open spec fn nonempty() -> spec_fn(Seq<char>) -> bool {
    |w: Seq<char>| w.len() > 0
}

/// A piece as itself.
pub open spec fn same_piece() -> spec_fn(Seq<char>) -> Seq<char> {
    |w: Seq<char>| w
}

/// The words of `s`, as `str::split_whitespace` gives them.
pub open spec fn words(s: Seq<char>) -> Seq<Seq<char>> {
    select_map(split_by(s, is_space()), nonempty(), same_piece())
}

/// One entry of a named import list: `name` imports `name` as itself, `name as local` under
/// another name; anything else is no entry.
pub open spec fn import_entry(part: Seq<char>) -> Option<(Seq<char>, Seq<char>)> {
    let t = trim_ws(part);
    let ws = words(t);
    if t.len() == 0 || ws.len() == 0 {
        None
    } else if ws.len() == 1 {
        Some((ws[0], ws[0]))
    } else if ws.len() == 3 && ws[1] == "as"@ {
        Some((ws[0], ws[2]))
    } else {
        None
    }
}

/// The position of the first `c` in `s`, or -1.
pub open spec fn first_index(s: Seq<char>, c: char) -> int
    decreases s.len(),
{
    if s.len() == 0 {
        -1
    } else if s[0] == c {
        0
    } else if first_index(s.drop_first(), c) < 0 {
        -1
    } else {
        1 + first_index(s.drop_first(), c)
    }
}

/// The position of the last `c` in `s`, or -1.
pub open spec fn last_index(s: Seq<char>, c: char) -> int
    decreases s.len(),
{
    if s.len() == 0 {
        -1
    } else if s.last() == c {
        s.len() - 1
    } else {
        last_index(s.drop_last(), c)
    }
}

/// An entry is present.
pub open spec fn is_entry() -> spec_fn(Seq<char>) -> bool {
    |part: Seq<char>| import_entry(part) is Some
}

/// The entry of a part that has one.
pub open spec fn entry_of() -> spec_fn(Seq<char>) -> (Seq<char>, Seq<char>) {
    |part: Seq<char>| import_entry(part)->0
}

/// The `(imported, local)` names of an import's braces: the text between the first `{` and
/// the last `}` split at commas, each piece an entry or nothing.
pub open spec fn named_imports(raw: Seq<char>) -> Seq<(Seq<char>, Seq<char>)> {
    let open = first_index(raw, '{');
    let close = last_index(raw, '}');
    if open < 0 || close < 0 || close <= open {
        Seq::empty()
    } else {
        select_map(split_by(raw.subrange(open + 1, close), is_comma()), is_entry(), entry_of())
    }
}

/// The pieces of `s` split at commas, or at white space when `by_space`.
fn split_chars(s: &Vec<char>, by_space: bool) -> (r: Vec<Vec<char>>)
    ensures
        r@.map_values(|v: Vec<char>| v@) == split_by(s@, if by_space { is_space() } else { is_comma() }),
{
    let ghost sep = if by_space { is_space() } else { is_comma() };
    let mut done: Vec<Vec<char>> = Vec::new();
    let mut cur: Vec<char> = Vec::new();
    let mut k: usize = 0;
    assert(s@.take(0) =~= Seq::<char>::empty());
    assert(done@.map_values(|v: Vec<char>| v@).push(cur@) =~= split_by(s@.take(0), sep));
    while k < s.len()
        invariant
            k <= s.len(),
            sep == if by_space { is_space() } else { is_comma() },
            done@.map_values(|v: Vec<char>| v@).push(cur@) == split_by(s@.take(k as int), sep),
        decreases s.len() - k,
    {
        let c = s[k];
        let is_sep = if by_space { crate::text::white_space(c) } else { c == ',' };
        proof {
            assert(s@.take(k + 1).drop_last() =~= s@.take(k as int));
            assert(s@.take(k + 1).last() == c);
            assert(is_sep == sep(c));
        }
        let ghost prev = done@.map_values(|v: Vec<char>| v@).push(cur@);
        if is_sep {
            let finished = cur;
            done.push(finished);
            cur = Vec::new();
            proof {
                assert(done@.map_values(|v: Vec<char>| v@).push(cur@) =~= prev.push(Seq::empty()));
            }
        } else {
            cur.push(c);
            proof {
                assert(prev.drop_last() =~= done@.map_values(|v: Vec<char>| v@));
                assert(done@.map_values(|v: Vec<char>| v@).push(cur@) =~= prev.drop_last().push(
                    prev.last().push(c),
                ));
            }
        }
        k = k + 1;
    }
    assert(s@.take(s.len() as int) =~= s@);
    let ghost before = done@;
    done.push(cur);
    assert(done@.map_values(|v: Vec<char>| v@) =~= before.map_values(|v: Vec<char>| v@).push(done@.last()@));
    done
}

/// The nonempty pieces, in order.
fn nonempty_pieces(pieces: &Vec<Vec<char>>) -> (r: Vec<Vec<char>>)
    ensures
        r@.map_values(|v: Vec<char>| v@) == select_map(
            pieces@.map_values(|v: Vec<char>| v@),
            nonempty(),
            same_piece(),
        ),
{
    let ghost ps = pieces@.map_values(|v: Vec<char>| v@);
    let mut r: Vec<Vec<char>> = Vec::new();
    let mut k: usize = 0;
    while k < pieces.len()
        invariant
            k <= pieces.len(),
            ps == pieces@.map_values(|v: Vec<char>| v@),
            r@.map_values(|v: Vec<char>| v@) == select_map(ps.take(k as int), nonempty(), same_piece()),
        decreases pieces.len() - k,
    {
        proof {
            crate::rules::lemma_select_map_step(ps, k as int, nonempty(), same_piece());
            assert(ps[k as int] == pieces@[k as int]@);
        }
        if pieces[k].len() > 0 {
            let ghost before = r@;
            r.push(pieces[k].clone());
            proof {
                assert(r@.map_values(|v: Vec<char>| v@) =~= before.map_values(|v: Vec<char>| v@).push(ps[k as int]));
            }
        }
        k = k + 1;
    }
    assert(ps.take(pieces.len() as int) =~= ps);
    r
}

/// The entry of one piece of an import list.
fn entry_of_piece(part: &Vec<char>) -> (r: Option<(String, String)>)
    ensures
        match r {
            Some(e) => import_entry(part@) == Some((e.0@, e.1@)),
            None => import_entry(part@) is None,
        },
{
    let t = trim_white_space(part.as_slice());
    if t.len() == 0 {
        return None;
    }
    let pieces = split_chars(&t, true);
    let ws = nonempty_pieces(&pieces);
    proof {
        assert(ws@.map_values(|v: Vec<char>| v@) == words(t@));
    }
    if ws.len() == 0 {
        return None;
    }
    assert(ws@.map_values(|v: Vec<char>| v@)[0] == ws@[0]@);
    if ws.len() == 1 {
        let a = string_from_chars(ws[0].as_slice());
        let b = string_from_chars(ws[0].as_slice());
        return Some((a, b));
    }
    if ws.len() == 3 {
        assert(ws@.map_values(|v: Vec<char>| v@)[1] == ws@[1]@);
        assert(ws@.map_values(|v: Vec<char>| v@)[2] == ws@[2]@);
        let middle = string_from_chars(ws[1].as_slice());
        if str_eq(middle.as_str(), "as") {
            let a = string_from_chars(ws[0].as_slice());
            let b = string_from_chars(ws[2].as_slice());
            return Some((a, b));
        }
    }
    None
}

/// The `(imported, local)` names listed in the braces of an import statement's text.
pub fn parse_named_import_entries(raw_import: &str) -> (r: Vec<(String, String)>)
    ensures
        r@.map_values(|e: (String, String)| (e.0@, e.1@)) == named_imports(raw_import@),
{
    let rv = chars_of(raw_import);
    let mut open: usize = 0;
    while open < rv.len() && rv[open] != '{'
        invariant
            open <= rv.len(),
            rv@ == raw_import@,
            forall|t: int| 0 <= t < open ==> rv@[t] != '{',
        decreases rv.len() - open,
    {
        open = open + 1;
    }
    proof {
        lemma_first_index(rv@, '{', open as int);
    }
    if open == rv.len() {
        return Vec::new();
    }
    let mut close: usize = rv.len();
    assert(rv@.take(close as int) =~= rv@);
    while close > 0 && rv[close - 1] != '}'
        invariant
            close <= rv.len(),
            rv@ == raw_import@,
            last_index(rv@, '}') == last_index(rv@.take(close as int), '}'),
        decreases close,
    {
        proof {
            assert(rv@.take(close as int).drop_last() =~= rv@.take(close - 1));
            assert(rv@.take(close as int).last() == rv@[close - 1]);
        }
        close = close - 1;
    }
    proof {
        if close > 0 {
            assert(rv@.take(close as int).last() == rv@[close - 1]);
        } else {
            assert(rv@.take(0) =~= Seq::<char>::empty());
        }
    }
    if close == 0 || close - 1 <= open {
        return Vec::new();
    }
    let close = close - 1;
    let mut inner: Vec<char> = Vec::new();
    let mut k: usize = open + 1;
    while k < close
        invariant
            open + 1 <= k <= close,
            close <= rv.len(),
            inner@ == rv@.subrange(open + 1, k as int),
        decreases close - k,
    {
        inner.push(rv[k]);
        proof {
            assert(rv@.subrange(open + 1, k + 1) =~= rv@.subrange(open + 1, k as int).push(rv@[k as int]));
        }
        k = k + 1;
    }
    let parts = split_chars(&inner, false);
    let ghost ps = parts@.map_values(|v: Vec<char>| v@);
    let mut out: Vec<(String, String)> = Vec::new();
    let mut j: usize = 0;
    while j < parts.len()
        invariant
            j <= parts.len(),
            ps == parts@.map_values(|v: Vec<char>| v@),
            out@.map_values(|e: (String, String)| (e.0@, e.1@)) == select_map(ps.take(j as int), is_entry(), entry_of()),
        decreases parts.len() - j,
    {
        proof {
            crate::rules::lemma_select_map_step(ps, j as int, is_entry(), entry_of());
            assert(ps[j as int] == parts@[j as int]@);
        }
        match entry_of_piece(&parts[j]) {
            Some(e) => {
                let ghost before = out@;
                let ghost m = (e.0@, e.1@);
                out.push(e);
                proof {
                    assert(out@.map_values(|e: (String, String)| (e.0@, e.1@)) =~= before.map_values(
                        |e: (String, String)| (e.0@, e.1@),
                    ).push(m));
                }
            },
            None => {},
        }
        j = j + 1;
    }
    assert(ps.take(parts.len() as int) =~= ps);
    out
}

proof fn lemma_first_index(s: Seq<char>, c: char, k: int)
    requires
        0 <= k <= s.len(),
        forall|t: int| 0 <= t < k ==> s[t] != c,
        k == s.len() || s[k] == c,
    ensures
        first_index(s, c) == if k == s.len() { -1 } else { k },
    decreases s.len(),
{
    if s.len() > 0 && k > 0 {
        assert forall|t: int| 0 <= t < k - 1 implies s.drop_first()[t] != c by {
            assert(s.drop_first()[t] == s[t + 1]);
        }
        if k < s.len() {
            assert(s.drop_first()[k - 1] == s[k]);
        }
        lemma_first_index(s.drop_first(), c, k - 1);
    }
}


/// The marker that silences the findings at a line.
pub const IGNORE_MARKER: &'static str = "convex-doctor-ignore";

/// A source line carries the marker, in any ASCII case.
pub open spec fn marks_ignore(line: Seq<char>) -> bool {
    has_infix(lower_seq(line), IGNORE_MARKER@)
}

/// Line `line` (1-based) or one of the two lines before it carries the marker.
pub open spec fn ignore_comment_near(lines: Seq<String>, line: u32) -> bool {
    line > 0 && exists|idx: int|
        line - 3 <= idx <= line - 1 && 0 <= idx < lines.len() && marks_ignore(#[trigger] lines[idx]@)
}

/// Whether line `line` (1-based) of `source_lines`, or one of the two lines before it, holds a
/// `convex-doctor-ignore` comment (in any ASCII case).
pub fn has_doctor_ignore_comment(source_lines: &Vec<String>, line: u32) -> (b: bool)
    ensures
        b == ignore_comment_near(source_lines@, line),
{
    if line == 0 {
        return false;
    }
    let target: u64 = (line - 1) as u64;
    let start: u64 = if target >= 2 { target - 2 } else { 0 };
    let mut idx: u64 = start;
    while idx <= target
        invariant
            start <= idx <= target + 1,
            target == line - 1,
            start == if target >= 2 { target - 2 } else { 0 },
            forall|t: int| start <= t < idx && 0 <= t < source_lines@.len() ==> !marks_ignore(#[trigger] source_lines@[t]@),
        decreases target + 1 - idx,
    {
        if idx < source_lines.len() as u64 {
            let lowered = to_ascii_lowercase(source_lines[idx as usize].as_str());
            if contains(lowered.as_str(), IGNORE_MARKER) {
                assert(marks_ignore(source_lines@[idx as int]@));
                return true;
            }
        }
        idx = idx + 1;
    }
    false
}

/// The value of the first pair whose key is `key`, as a map lookup gives it.
pub open spec fn lookup(pairs: Seq<(String, String)>, key: Seq<char>) -> Option<Seq<char>>
    decreases pairs.len(),
{
    if pairs.len() == 0 {
        None
    } else if pairs[0].0@ == key {
        Some(pairs[0].1@)
    } else {
        lookup(pairs.drop_first(), key)
    }
}

/// Following aliases from `current` after `hops` steps: stop at a name without an alias or
/// aliased to itself, and after the 33rd step.
pub open spec fn follow_aliases(aliases: Seq<(String, String)>, current: Seq<char>, hops: nat) -> Seq<char>
    decreases 33 - hops,
{
    match lookup(aliases, current) {
        None => current,
        Some(next) => if next == current {
            current
        } else if hops + 1 > 32 {
            next
        } else {
            follow_aliases(aliases, next, hops + 1)
        },
    }
}

/// The name that `identifier` is an alias of, through a chain of aliases; `None` when it is
/// its own root.
pub open spec fn alias_root(aliases: Seq<(String, String)>, identifier: Seq<char>) -> Option<Seq<char>> {
    let root = follow_aliases(aliases, identifier, 0);
    if root == identifier {
        None
    } else {
        Some(root)
    }
}

/// The value of the first pair whose key is `key`.
fn lookup_pair(pairs: &Vec<(String, String)>, key: &str) -> (r: Option<String>)
    ensures
        match r {
            Some(v) => lookup(pairs@, key@) == Some(v@),
            None => lookup(pairs@, key@) is None,
        },
{
    let mut i: usize = 0;
    assert(pairs@.skip(0) =~= pairs@);
    while i < pairs.len()
        invariant
            i <= pairs.len(),
            lookup(pairs@, key@) == lookup(pairs@.skip(i as int), key@),
        decreases pairs.len() - i,
    {
        proof {
            assert(pairs@.skip(i as int)[0] == pairs@[i as int]);
            assert(pairs@.skip(i as int).drop_first() =~= pairs@.skip(i + 1));
        }
        if str_eq(pairs[i].0.as_str(), key) {
            return Some(owned(pairs[i].1.as_str()));
        }
        i = i + 1;
    }
    assert(pairs@.skip(i as int) =~= Seq::<(String, String)>::empty());
    None
}

/// The root of the alias chain that starts at `identifier`, when it is another name.
pub fn resolve_identifier_alias_root(aliases: &Vec<(String, String)>, identifier: &str) -> (r: Option<String>)
    ensures
        match r {
            Some(root) => alias_root(aliases@, identifier@) == Some(root@),
            None => alias_root(aliases@, identifier@) is None,
        },
{
    let mut current = owned(identifier);
    let mut hops: u64 = 0;
    loop
        invariant_except_break
            hops <= 32,
            follow_aliases(aliases@, identifier@, 0) == follow_aliases(aliases@, current@, hops as nat),
        ensures
            follow_aliases(aliases@, identifier@, 0) == current@,
        decreases 33 - hops,
    {
        match lookup_pair(aliases, current.as_str()) {
            None => break,
            Some(next) => {
                if str_eq(next.as_str(), current.as_str()) {
                    break;
                }
                hops = hops + 1;
                current = next;
                if hops > 32 {
                    break;
                }
            },
        }
    }
    if str_eq(current.as_str(), identifier) {
        None
    } else {
        Some(current)
    }
}


/// The number of bytes of `c` in UTF-8.
pub open spec fn utf8_width(c: char) -> nat {
    if (c as u32) < 0x80 {
        1
    } else if (c as u32) < 0x800 {
        2
    } else if (c as u32) < 0x10000 {
        3
    } else {
        4
    }
}

/// The number of bytes of `s` in UTF-8, as `str::len` counts them.
pub open spec fn utf8_len(s: Seq<char>) -> nat
    decreases s.len(),
{
    if s.len() == 0 {
        0
    } else {
        utf8_len(s.drop_last()) + utf8_width(s.last())
    }
}

/// Whether `s` takes more than `n` bytes in UTF-8.
fn longer_than(s: &str, n: u64) -> (b: bool)
    requires
        n < 0xffff_ffff,
    ensures
        b == (utf8_len(s@) > n),
{
    let sv = chars_of(s);
    let mut total: u64 = 0;
    let mut i: usize = 0;
    while i < sv.len()
        invariant
            i <= sv.len(),
            sv@ == s@,
            total == utf8_len(sv@.take(i as int)),
            total <= n,
            n < 0xffff_ffff,
        decreases sv.len() - i,
    {
        proof {
            assert(sv@.take(i + 1).drop_last() =~= sv@.take(i as int));
            assert(sv@.take(i + 1).last() == sv@[i as int]);
        }
        let c = sv[i];
        let w: u64 = if (c as u32) < 0x80 {
            1
        } else if (c as u32) < 0x800 {
            2
        } else if (c as u32) < 0x10000 {
            3
        } else {
            4
        };
        total = total + w;
        i = i + 1;
        if total > n {
            proof {
                lemma_utf8_len_grows(sv@, i as int);
            }
            return true;
        }
    }
    assert(sv@.take(sv.len() as int) =~= sv@);
    false
}

proof fn lemma_utf8_len_grows(s: Seq<char>, k: int)
    requires
        0 <= k <= s.len(),
    ensures
        utf8_len(s.take(k)) <= utf8_len(s),
    decreases s.len() - k,
{
    if k < s.len() {
        lemma_utf8_len_grows(s, k + 1);
        assert(s.take(k + 1).drop_last() =~= s.take(k));
    } else {
        assert(s.take(k) =~= s);
    }
}

/// The prefixes that mark a string literal as a likely secret, in the order they are tried.
pub open spec fn secret_prefixes() -> Seq<Seq<char>> {
    seq![
        "sk-"@,
        "pk-"@,
        "AKIA"@,
        "ghp_"@,
        "gho_"@,
        "sk_live_"@,
        "sk_test_"@,
        "pk_live_"@,
        "pk_test_"@,
    ]
}

/// The first secret prefix of `value`, when it is longer than ten bytes.
pub open spec fn secret_prefix_of(value: Seq<char>) -> Option<Seq<char>> {
    if utf8_len(value) > 10 && exists|i: int| 0 <= i < 9 && has_prefix(value, #[trigger] secret_prefixes()[i]) {
        Some(secret_prefixes()[first_prefix_index(value, 0)])
    } else {
        None
    }
}

/// The first position from `from` on of a secret prefix of `value`, or 9.
pub open spec fn first_prefix_index(value: Seq<char>, from: int) -> int
    decreases 9 - from,
{
    if from >= 9 || from < 0 {
        9
    } else if has_prefix(value, secret_prefixes()[from]) {
        from
    } else {
        first_prefix_index(value, from + 1)
    }
}

/// The secret prefix that `value` starts with, the first of the list, when the value is longer
/// than ten bytes.
pub fn secret_prefix(value: &str) -> (r: Option<&'static str>)
    ensures
        match r {
            Some(p) => secret_prefix_of(value@) == Some(p@),
            None => secret_prefix_of(value@) is None,
        },
{
    let prefixes: [&'static str; 9] = [
        "sk-",
        "pk-",
        "AKIA",
        "ghp_",
        "gho_",
        "sk_live_",
        "sk_test_",
        "pk_live_",
        "pk_test_",
    ];
    proof {
        reveal_strlit("sk-");
        reveal_strlit("pk-");
        reveal_strlit("AKIA");
        reveal_strlit("ghp_");
        reveal_strlit("gho_");
        reveal_strlit("sk_live_");
        reveal_strlit("sk_test_");
        reveal_strlit("pk_live_");
        reveal_strlit("pk_test_");
        assert(prefixes@.map_values(|p: &str| p@) =~= secret_prefixes());
    }
    if !longer_than(value, 10) {
        return None;
    }
    let mut i: usize = 0;
    while i < 9
        invariant
            i <= 9,
            prefixes@.len() == 9,
            prefixes@.map_values(|p: &str| p@) == secret_prefixes(),
            utf8_len(value@) > 10,
            forall|t: int| 0 <= t < i ==> !has_prefix(value@, #[trigger] secret_prefixes()[t]),
            first_prefix_index(value@, 0) == first_prefix_index(value@, i as int),
        decreases 9 - i,
    {
        assert(prefixes@[i as int]@ == secret_prefixes()[i as int]);
        if starts_with(value, prefixes[i]) {
            return Some(prefixes[i]);
        }
        i = i + 1;
    }
    None
}

/// The names of functions known to check authentication, lower-cased.
pub open spec fn known_auth_helpers() -> Seq<Seq<char>> {
    seq![
        "requireadmin"@,
        "requireauth"@,
        "requireuser"@,
        "verifytoken"@,
        "verifyjwt"@,
        "ensureauthenticated"@,
        "assertauthenticated"@,
        "getauthenticateduser"@,
        "parseauthheader"@,
    ]
}

/// A lower-cased name reads as an authentication check: it starts with `require`, `ensure`,
/// `assert` or `verify` and mentions `auth`, `token`, `user`, `admin` or `session`.
pub open spec fn reads_as_auth_check(name: Seq<char>) -> bool {
    &&& (has_prefix(name, "require"@) || has_prefix(name, "ensure"@) || has_prefix(name, "assert"@)
        || has_prefix(name, "verify"@))
    &&& (has_infix(name, "auth"@) || has_infix(name, "token"@) || has_infix(name, "user"@) || has_infix(
        name,
        "admin"@,
    ) || has_infix(name, "session"@))
}

/// A call counts as an authentication check when an argument mentions `ctx` or `request` and
/// the callee, lower-cased, is a known helper or reads as a check.
pub open spec fn auth_helper_call_spec(callee: Seq<char>, has_args: bool, passes_ctx_or_request: bool) -> bool {
    let name = lower_seq(callee);
    (has_args && known_auth_helpers().contains(name) && passes_ctx_or_request) || (passes_ctx_or_request
        && reads_as_auth_check(name))
}

/// Whether a call of `callee` checks authentication; `has_args` says the call has arguments,
/// `passes_ctx_or_request` that one of them mentions `ctx` or `request`.
pub fn is_auth_helper_call(callee: &str, has_args: bool, passes_ctx_or_request: bool) -> (b: bool)
    ensures
        b == auth_helper_call_spec(callee@, has_args, passes_ctx_or_request),
{
    let name = to_ascii_lowercase(callee);
    let n = name.as_str();
    let helpers: [&'static str; 9] = [
        "requireadmin",
        "requireauth",
        "requireuser",
        "verifytoken",
        "verifyjwt",
        "ensureauthenticated",
        "assertauthenticated",
        "getauthenticateduser",
        "parseauthheader",
    ];
    proof {
        reveal_strlit("requireadmin");
        reveal_strlit("requireauth");
        reveal_strlit("requireuser");
        reveal_strlit("verifytoken");
        reveal_strlit("verifyjwt");
        reveal_strlit("ensureauthenticated");
        reveal_strlit("assertauthenticated");
        reveal_strlit("getauthenticateduser");
        reveal_strlit("parseauthheader");
        assert(helpers@.map_values(|p: &str| p@) =~= known_auth_helpers());
    }
    let mut known = false;
    let mut i: usize = 0;
    while i < 9
        invariant
            i <= 9,
            helpers@.len() == 9,
            helpers@.map_values(|p: &str| p@) == known_auth_helpers(),
            known == exists|t: int| 0 <= t < i && known_auth_helpers()[t] == n@,
        decreases 9 - i,
    {
        assert(helpers@[i as int]@ == known_auth_helpers()[i as int]);
        if str_eq(helpers[i], n) {
            known = true;
        }
        i = i + 1;
    }
    proof {
        if known_auth_helpers().contains(n@) {
            let t = choose|t: int| 0 <= t < known_auth_helpers().len() && known_auth_helpers()[t] == n@;
            assert(known);
        }
    }
    if has_args && known && passes_ctx_or_request {
        return true;
    }
    let prefixed = starts_with(n, "require") || starts_with(n, "ensure") || starts_with(n, "assert")
        || starts_with(n, "verify");
    let topical = contains(n, "auth") || contains(n, "token") || contains(n, "user") || contains(n, "admin")
        || contains(n, "session");
    passes_ctx_or_request && prefixed && topical
}


/// What the analyser has learned so far of one Convex function.
#[derive(Debug, Default)]
pub struct FunctionBuilder {
    pub name: String,
    pub kind: Option<FunctionKind>,
    pub has_args_validator: bool,
    pub has_any_validator_in_args: bool,
    pub arg_names: Vec<String>,
    pub has_internal_secret: bool,
    pub is_intentionally_public: bool,
    pub has_return_validator: bool,
    pub has_auth_check: bool,
    pub handler_line_count: u32,
    pub span_line: u32,
    pub span_col: u32,
}

impl FunctionBuilder {
    /// The function the builder describes; a function of unknown kind is taken for a query.
    pub fn build(self) -> (f: ConvexFunction)
        ensures
            f.name == self.name,
            f.kind == match self.kind {
                Some(k) => k,
                None => FunctionKind::Query,
            },
            f.has_args_validator == self.has_args_validator,
            f.has_any_validator_in_args == self.has_any_validator_in_args,
            f.arg_names == self.arg_names,
            f.has_internal_secret == self.has_internal_secret,
            f.is_intentionally_public == self.is_intentionally_public,
            f.has_return_validator == self.has_return_validator,
            f.has_auth_check == self.has_auth_check,
            f.handler_line_count == self.handler_line_count,
            f.span_line == self.span_line,
            f.span_col == self.span_col,
    {
        ConvexFunction {
            name: self.name,
            kind: match self.kind {
                Some(k) => k,
                None => FunctionKind::Query,
            },
            has_args_validator: self.has_args_validator,
            has_any_validator_in_args: self.has_any_validator_in_args,
            arg_names: self.arg_names,
            has_internal_secret: self.has_internal_secret,
            is_intentionally_public: self.is_intentionally_public,
            has_return_validator: self.has_return_validator,
            has_auth_check: self.has_auth_check,
            handler_line_count: self.handler_line_count,
            span_line: self.span_line,
            span_col: self.span_col,
        }
    }
}

/// No two of the functions share a name.
pub open spec fn names_distinct(fs: Seq<ConvexFunction>) -> bool {
    forall|a: int, b: int| 0 <= a < b < fs.len() ==> (#[trigger] fs[a]).name@ != (#[trigger] fs[b]).name@
}

/// Functions registered under a local name and not exported yet (`const f = query(..)`,
/// exported later by `export { f }`): at most one per name.
pub struct PendingFunctions {
    items: Vec<ConvexFunction>,
}

impl PendingFunctions {
    /// The pending functions.
    pub closed spec fn view(&self) -> Seq<ConvexFunction> {
        self.items@
    }

    /// No two pending functions share a name.
    #[verifier::type_invariant]
    spec fn wf(self) -> bool {
        names_distinct(self.items@)
    }

    /// No function is pending.
    pub fn new() -> (r: Self)
        ensures
            r.view() == Seq::<ConvexFunction>::empty(),
    {
        PendingFunctions { items: Vec::new() }
    }

    fn position(&self, name: &str) -> (r: Option<usize>)
        ensures
            match r {
                Some(i) => i < self.items@.len() && self.items@[i as int].name@ == name@,
                None => forall|i: int| 0 <= i < self.items@.len() ==> (#[trigger] self.items@[i]).name@ != name@,
            },
    {
        let mut i: usize = 0;
        while i < self.items.len()
            invariant
                i <= self.items@.len(),
                forall|k: int| 0 <= k < i ==> (#[trigger] self.items@[k]).name@ != name@,
            decreases self.items.len() - i,
        {
            if str_eq(self.items[i].name.as_str(), name) {
                return Some(i);
            }
            i = i + 1;
        }
        None
    }

    /// Records `f` under its name, in place of a function pending under the same name.
    pub fn defer(&mut self, f: ConvexFunction)
        ensures
            (exists|i: int|
                0 <= i < old(self).view().len() && (#[trigger] old(self).view()[i]).name@ == f.name@
                    && final(self).view() == old(self).view().update(i, f)) || ((forall|i: int|
                0 <= i < old(self).view().len() ==> (#[trigger] old(self).view()[i]).name@ != f.name@)
                && final(self).view() == old(self).view().push(f)),
    {
        proof {
            use_type_invariant(&*self);
        }
        let ghost before = self.items@;
        let ghost name = f.name@;
        let found = self.position(f.name.as_str());
        let mut items: Vec<ConvexFunction> = Vec::new();
        std::mem::swap(&mut items, &mut self.items);
        match found {
            Some(i) => {
                items.set(i, f);
                assert(items@ == before.update(i as int, f));
                assert(before[i as int].name@ == name);
                assert(names_distinct(items@)) by {
                    assert forall|a: int, b: int| 0 <= a < b < items@.len() implies (
                    #[trigger] items@[a]).name@ != (#[trigger] items@[b]).name@ by {
                        if a != i && b != i {
                            assert(items@[a] == before[a] && items@[b] == before[b]);
                        } else if a == i {
                            assert(items@[b] == before[b]);
                            assert(before[i as int].name@ != before[b].name@);
                        } else {
                            assert(items@[a] == before[a]);
                            assert(before[a].name@ != before[i as int].name@);
                        }
                    }
                }
            },
            None => {
                items.push(f);
                assert(names_distinct(items@)) by {
                    assert forall|a: int, b: int| 0 <= a < b < items@.len() implies (
                    #[trigger] items@[a]).name@ != (#[trigger] items@[b]).name@ by {
                        assert(items@[a] == before[a]);
                        if b < before.len() {
                            assert(items@[b] == before[b]);
                        }
                    }
                }
            },
        }
        self.items = items;
    }

    /// Removes and returns the function pending under `name`, if there is one.
    pub fn take(&mut self, name: &str) -> (r: Option<ConvexFunction>)
        ensures
            match r {
                Some(f) => exists|i: int|
                    0 <= i < old(self).view().len() && #[trigger] old(self).view()[i] == f && f.name@
                        == name@ && final(self).view() == old(self).view().remove(i),
                None => (forall|i: int|
                    0 <= i < old(self).view().len() ==> (#[trigger] old(self).view()[i]).name@ != name@)
                    && final(self).view() == old(self).view(),
            },
    {
        proof {
            use_type_invariant(&*self);
        }
        match self.position(name) {
            Some(i) => {
                let ghost before = self.items@;
                let mut items: Vec<ConvexFunction> = Vec::new();
                std::mem::swap(&mut items, &mut self.items);
                let f = items.remove(i);
                assert(names_distinct(items@)) by {
                    assert forall|a: int, b: int| 0 <= a < b < items@.len() implies (
                    #[trigger] items@[a]).name@ != (#[trigger] items@[b]).name@ by {
                        let a2 = if a < i { a } else { a + 1 };
                        let b2 = if b < i { b } else { b + 1 };
                        assert(items@[a] == before[a2] && items@[b] == before[b2]);
                    }
                }
                assert(before[i as int] == f);
                self.items = items;
                Some(f)
            },
            None => None,
        }
    }
}

/// No two pairs share a key.
pub open spec fn keys_distinct(pairs: Seq<(String, String)>) -> bool {
    forall|a: int, b: int| 0 <= a < b < pairs.len() ==> (#[trigger] pairs[a]).0@ != (#[trigger] pairs[b]).0@
}

/// `lookup` finds the first pair with the key.
proof fn lemma_lookup_first(pairs: Seq<(String, String)>, key: Seq<char>, i: int)
    requires
        0 <= i <= pairs.len(),
        forall|j: int| 0 <= j < i ==> (#[trigger] pairs[j]).0@ != key,
        i < pairs.len() ==> pairs[i].0@ == key,
    ensures
        lookup(pairs, key) == if i < pairs.len() {
            Some(pairs[i].1@)
        } else {
            None
        },
    decreases i,
{
    if pairs.len() > 0 && i > 0 {
        let rest = pairs.drop_first();
        assert forall|j: int| 0 <= j < i - 1 implies (#[trigger] rest[j]).0@ != key by {
            assert(rest[j] == pairs[j + 1]);
        }
        assert(pairs[0].0@ != key);
        lemma_lookup_first(rest, key, i - 1);
        if i < pairs.len() {
            assert(rest[i - 1] == pairs[i]);
        }
    }
}

/// In pairs with distinct keys, `lookup` finds the pair with the key, wherever it is.
proof fn lemma_lookup_at(pairs: Seq<(String, String)>, key: Seq<char>)
    requires
        keys_distinct(pairs),
    ensures
        forall|i: int| 0 <= i < pairs.len() && (#[trigger] pairs[i]).0@ == key ==> lookup(pairs, key) == Some(pairs[i].1@),
        (forall|i: int| 0 <= i < pairs.len() ==> (#[trigger] pairs[i]).0@ != key) ==> lookup(pairs, key) is None,
{
    assert forall|i: int| 0 <= i < pairs.len() && (#[trigger] pairs[i]).0@ == key implies lookup(pairs, key) == Some(pairs[i].1@) by {
        assert forall|j: int| 0 <= j < i implies (#[trigger] pairs[j]).0@ != key by {
            assert(pairs[j].0@ != pairs[i].0@);
        }
        lemma_lookup_first(pairs, key, i);
    }
    if forall|i: int| 0 <= i < pairs.len() ==> (#[trigger] pairs[i]).0@ != key {
        lemma_lookup_first(pairs, key, pairs.len() as int);
    }
}

/// A map from names to names, such as the aliases a file declares.
#[derive(Debug)]
pub struct NameMap {
    pairs: Vec<(String, String)>,
}

impl NameMap {
    /// The pairs of the map.
    pub closed spec fn view(&self) -> Seq<(String, String)> {
        self.pairs@
    }

    /// No two pairs share a key.
    #[verifier::type_invariant]
    spec fn wf(self) -> bool {
        keys_distinct(self.pairs@)
    }

    /// The empty map.
    pub fn new() -> (r: Self)
        ensures
            r.view() == Seq::<(String, String)>::empty(),
            forall|k: Seq<char>| lookup(r.view(), k) is None,
    {
        NameMap { pairs: Vec::new() }
    }

    /// The number of keys.
    pub fn len(&self) -> (n: usize)
        ensures
            n == self.view().len(),
    {
        self.pairs.len()
    }

    /// Whether the map has no key.
    pub fn is_empty(&self) -> (b: bool)
        ensures
            b == (self.view().len() == 0),
    {
        self.pairs.len() == 0
    }

    fn position(&self, key: &str) -> (r: Option<usize>)
        ensures
            match r {
                Some(i) => i < self.pairs@.len() && self.pairs@[i as int].0@ == key@ && forall|j: int|
                    0 <= j < i ==> (#[trigger] self.pairs@[j]).0@ != key@,
                None => forall|i: int| 0 <= i < self.pairs@.len() ==> (#[trigger] self.pairs@[i]).0@ != key@,
            },
    {
        let mut i: usize = 0;
        while i < self.pairs.len()
            invariant
                i <= self.pairs@.len(),
                forall|k: int| 0 <= k < i ==> (#[trigger] self.pairs@[k]).0@ != key@,
            decreases self.pairs.len() - i,
        {
            if str_eq(self.pairs[i].0.as_str(), key) {
                return Some(i);
            }
            i = i + 1;
        }
        None
    }

    /// The value of `key`.
    pub fn get(&self, key: &str) -> (r: Option<String>)
        ensures
            match r {
                Some(v) => lookup(self.view(), key@) == Some(v@),
                None => lookup(self.view(), key@) is None,
            },
    {
        match self.position(key) {
            Some(i) => {
                proof {
                    lemma_lookup_first(self.pairs@, key@, i as int);
                }
                Some(owned(self.pairs[i].1.as_str()))
            },
            None => {
                proof {
                    lemma_lookup_first(self.pairs@, key@, self.pairs@.len() as int);
                }
                None
            },
        }
    }

    /// Sets `key` to `value`.
    pub fn insert(&mut self, key: String, value: String)
        ensures
            lookup(final(self).view(), key@) == Some(value@),
            forall|k: Seq<char>| k != key@ ==> lookup(final(self).view(), k) == lookup(old(self).view(), k),
    {
        proof {
            use_type_invariant(&*self);
        }
        let ghost before = self.pairs@;
        let ghost kv = key@;
        let ghost vv = value@;
        let ghost mut idx: int = 0;
        let found = self.position(key.as_str());
        let mut pairs: Vec<(String, String)> = Vec::new();
        std::mem::swap(&mut pairs, &mut self.pairs);
        match found {
            Some(i) => {
                pairs.set(i, (key, value));
                proof {
                    idx = i as int;
                }
            },
            None => {
                pairs.push((key, value));
                proof {
                    idx = before.len() as int;
                }
            },
        }
        let ghost after = pairs@;
        assert(0 <= idx < after.len() && after[idx].0@ == kv && after[idx].1@ == vv);
        assert(keys_distinct(after)) by {
            assert forall|a: int, b: int| 0 <= a < b < after.len() implies (#[trigger] after[a]).0@ != (#[trigger] after[b]).0@ by {
                if a < before.len() && b < before.len() {
                    if after[a].0@ == before[a].0@ && after[b].0@ == before[b].0@ {
                        assert(before[a].0@ != before[b].0@);
                    }
                }
            }
        }
        proof {
            lemma_lookup_at(before, kv);
            lemma_lookup_at(after, kv);
            assert forall|k: Seq<char>| k != kv implies lookup(after, k) == lookup(before, k) by {
                lemma_lookup_at(before, k);
                lemma_lookup_at(after, k);
                if exists|i: int| 0 <= i < before.len() && (#[trigger] before[i]).0@ == k {
                    let i = choose|i: int| 0 <= i < before.len() && (#[trigger] before[i]).0@ == k;
                    assert(after[i] == before[i]);
                } else {
                    assert forall|i: int| 0 <= i < after.len() implies (#[trigger] after[i]).0@ != k by {
                        if i < before.len() && after[i] == before[i] {
                        }
                    }
                }
            }
        }
        self.pairs = pairs;
    }

    /// Removes `key`.
    pub fn remove(&mut self, key: &str)
        ensures
            lookup(final(self).view(), key@) is None,
            forall|k: Seq<char>| k != key@ ==> lookup(final(self).view(), k) == lookup(old(self).view(), k),
    {
        proof {
            use_type_invariant(&*self);
        }
        let ghost before = self.pairs@;
        match self.position(key) {
            Some(i) => {
                let mut pairs: Vec<(String, String)> = Vec::new();
                std::mem::swap(&mut pairs, &mut self.pairs);
                let _ = pairs.remove(i);
                let ghost after = pairs@;
                assert(keys_distinct(after)) by {
                    assert forall|a: int, b: int| 0 <= a < b < after.len() implies (#[trigger] after[a]).0@ != (#[trigger] after[b]).0@ by {
                        let a2 = if a < i { a } else { a + 1 };
                        let b2 = if b < i { b } else { b + 1 };
                        assert(after[a] == before[a2] && after[b] == before[b2]);
                    }
                }
                proof {
                    lemma_lookup_at(after, key@);
                    assert forall|j: int| 0 <= j < after.len() implies (#[trigger] after[j]).0@ != key@ by {
                        let j2 = if j < i { j } else { j + 1 };
                        assert(after[j] == before[j2]);
                        assert(before[j2].0@ != before[i as int].0@);
                    }
                    assert forall|k: Seq<char>| k != key@ implies lookup(after, k) == lookup(before, k) by {
                        lemma_lookup_at(before, k);
                        lemma_lookup_at(after, k);
                        if exists|t: int| 0 <= t < before.len() && (#[trigger] before[t]).0@ == k {
                            let t = choose|t: int| 0 <= t < before.len() && (#[trigger] before[t]).0@ == k;
                            assert(t != i);
                            let t2 = if t < i { t } else { t - 1 };
                            assert(after[t2] == before[t]);
                        } else {
                            assert forall|j: int| 0 <= j < after.len() implies (#[trigger] after[j]).0@ != k by {
                                let j2 = if j < i { j } else { j + 1 };
                                assert(after[j] == before[j2]);
                            }
                        }
                    }
                }
                self.pairs = pairs;
            },
            None => {
                proof {
                    lemma_lookup_at(before, key@);
                }
            },
        }
    }

    /// The pairs of the map.
    pub fn pairs(&self) -> (r: &Vec<(String, String)>)
        ensures
            r@ == self.view(),
    {
        &self.pairs
    }
}

impl Clone for NameMap {
    /// A copy with the same pairs.
    fn clone(&self) -> (r: Self)
        ensures
            r.view().len() == self.view().len(),
            forall|i: int| 0 <= i < self.view().len() ==> (#[trigger] r.view()[i]).0@ == self.view()[i].0@
                && r.view()[i].1@ == self.view()[i].1@,
    {
        proof {
            use_type_invariant(self);
        }
        let mut pairs: Vec<(String, String)> = Vec::new();
        let mut i: usize = 0;
        while i < self.pairs.len()
            invariant
                i <= self.pairs@.len(),
                pairs@.len() == i,
                keys_distinct(self.pairs@),
                forall|k: int| 0 <= k < i ==> (#[trigger] pairs@[k]).0@ == self.pairs@[k].0@ && pairs@[k].1@
                    == self.pairs@[k].1@,
            decreases self.pairs.len() - i,
        {
            let key = owned(self.pairs[i].0.as_str());
            let value = owned(self.pairs[i].1.as_str());
            pairs.push((key, value));
            i = i + 1;
        }
        assert(keys_distinct(pairs@)) by {
            assert forall|a: int, b: int| 0 <= a < b < pairs@.len() implies (#[trigger] pairs@[a]).0@ != (#[trigger] pairs@[b]).0@ by {
                assert(self.pairs@[a].0@ != self.pairs@[b].0@);
            }
        }
        NameMap { pairs }
    }
}

/// The names an export declaration gives (`export const a = query(..), b = mutation(..)`),
/// handed out in order to the registrations inside it.
#[derive(Debug)]
pub struct ExportNames {
    names: Vec<String>,
    next: usize,
}

impl ExportNames {
    /// The names of the declaration being read.
    pub closed spec fn names(&self) -> Seq<String> {
        self.names@
    }

    /// How many of them were handed out.
    pub closed spec fn handed_out(&self) -> nat {
        self.next as nat
    }

    /// Outside any export declaration.
    pub fn new() -> (r: Self)
        ensures
            r.names().len() == 0,
            r.handed_out() == 0,
    {
        ExportNames { names: Vec::new(), next: 0 }
    }

    /// Enters a declaration that gives `names`.
    pub fn enter(&mut self, names: Vec<String>)
        ensures
            final(self).names() == names@,
            final(self).handed_out() == 0,
    {
        self.names = names;
        self.next = 0;
    }

    /// Leaves the declaration.
    pub fn leave(&mut self)
        ensures
            final(self).names().len() == 0,
            final(self).handed_out() == 0,
    {
        self.names = Vec::new();
        self.next = 0;
    }

    /// Whether no export declaration is being read.
    pub fn is_empty(&self) -> (b: bool)
        ensures
            b == (self.names().len() == 0),
    {
        self.names.len() == 0
    }

    /// The next name not handed out yet, if any, now handed out.
    pub fn next_name(&mut self) -> (r: Option<String>)
        ensures
            final(self).names() == old(self).names(),
            old(self).handed_out() < old(self).names().len() ==> (r matches Some(n) && n@ == old(
                self,
            ).names()[old(self).handed_out() as int]@ && final(self).handed_out() == old(self).handed_out()
                + 1),
            old(self).handed_out() >= old(self).names().len() ==> (r is None && final(self).handed_out()
                == old(self).handed_out()),
    {
        if self.next < self.names.len() {
            let name = owned(self.names[self.next].as_str());
            self.next = self.next + 1;
            Some(name)
        } else {
            None
        }
    }
}

/// What a name imported from `convex/react` is to the analyser.
#[derive(Debug, Clone, Copy, PartialEq, Eq, Structural)]
pub enum ReactImport {
    /// `useMutation`, `useQuery` or `useAction`.
    Hook,
    /// `ConvexProvider` or `ConvexReactClient`.
    Provider,
    /// Anything else.
    Other,
}

/// What the imported name `imported` is, among the names of `convex/react`.
pub open spec fn react_import_of(imported: Seq<char>) -> ReactImport {
    if imported == "useMutation"@ || imported == "useQuery"@ || imported == "useAction"@ {
        ReactImport::Hook
    } else if imported == "ConvexProvider"@ || imported == "ConvexReactClient"@ {
        ReactImport::Provider
    } else {
        ReactImport::Other
    }
}

/// What a name imported from `convex/react` is.
pub fn react_import(imported: &str) -> (r: ReactImport)
    ensures
        r == react_import_of(imported@),
{
    if str_eq(imported, "useMutation") || str_eq(imported, "useQuery") || str_eq(imported, "useAction") {
        ReactImport::Hook
    } else if str_eq(imported, "ConvexProvider") || str_eq(imported, "ConvexReactClient") {
        ReactImport::Provider
    } else {
        ReactImport::Other
    }
}

/// An import's source names `convex/react`.
pub open spec fn imports_convex_react(source: Seq<char>) -> bool {
    has_infix(source, "convex/react"@)
}

/// Whether an import's source names `convex/react`.
pub fn is_convex_react_import(source: &str) -> (b: bool)
    ensures
        b == imports_convex_react(source@),
{
    contains(source, "convex/react")
}

} // verus!
