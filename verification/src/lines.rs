//! Splitting text into lines as `str::lines` does, trimming whitespace as
//! `str::trim` does, and removing every occurrence of a pattern as
//! `str::replace(pattern, "")` does.

use vstd::prelude::*;

use crate::text::{has_prefix, matches_at};

verus! {

/// The index of the first newline of `t`, or its length when it has none.
pub open spec fn line_end(t: Seq<char>) -> int
    decreases t.len(),
{
    if t.len() == 0 {
        0
    } else if t[0] == '\n' {
        0
    } else {
        1 + line_end(t.drop_first())
    }
}

/// The first newline of `t` lies within it, or at its end when there is none.
pub proof fn lemma_line_end_bound(t: Seq<char>)
    ensures
        0 <= line_end(t) <= t.len(),
        line_end(t) < t.len() ==> t[line_end(t)] == '\n',
        forall|k: int| 0 <= k < line_end(t) ==> t[k] != '\n',
    decreases t.len(),
{
    if t.len() > 0 && t[0] != '\n' {
        lemma_line_end_bound(t.drop_first());
        assert forall|k: int| 0 <= k < line_end(t) implies t[k] != '\n' by {
            if k > 0 {
                assert(t[k] == t.drop_first()[k - 1]);
            }
        }
    }
}

/// The position of the first newline characterizes `line_end`.
pub proof fn lemma_line_end_at(t: Seq<char>, e: int)
    requires
        0 <= e <= t.len(),
        e < t.len() ==> t[e] == '\n',
        forall|k: int| 0 <= k < e ==> t[k] != '\n',
    ensures
        line_end(t) == e,
    decreases t.len(),
{
    if t.len() > 0 && e > 0 {
        assert(t[0] != '\n');
        assert forall|k: int| 0 <= k < e - 1 implies t.drop_first()[k] != '\n' by {
            assert(t.drop_first()[k] == t[k + 1]);
        }
        lemma_line_end_at(t.drop_first(), e - 1);
    }
}

/// A line without its carriage return, when it ends with one.
pub open spec fn strip_cr(line: Seq<char>) -> Seq<char> {
    if line.len() > 0 && line.last() == '\r' {
        line.drop_last()
    } else {
        line
    }
}

/// The lines of a text as `str::lines` yields them: split at each newline, a
/// carriage return before the newline dropped, and no empty line after a
/// final newline.
pub open spec fn split_lines(t: Seq<char>) -> Seq<Seq<char>>
    decreases t.len(),
{
    if t.len() == 0 {
        Seq::empty()
    } else {
        let e = line_end(t);
        if e >= t.len() {
            seq![t]
        } else {
            proof {
                lemma_line_end_bound(t);
            }
            seq![strip_cr(t.take(e))] + split_lines(t.skip(e + 1))
        }
    }
}

/// The characters `str::trim` removes: those with the Unicode White_Space property.
pub open spec fn is_white_space(c: char) -> bool {
    let v = c as u32;
    (0x9 <= v <= 0xd) || v == 0x20 || v == 0x85 || v == 0xa0 || v == 0x1680 || (0x2000 <= v
        <= 0x200a) || v == 0x2028 || v == 0x2029 || v == 0x202f || v == 0x205f || v == 0x3000
}

/// Whether a character is white space, as `char::is_whitespace` answers.
pub fn white_space(c: char) -> (b: bool)
    ensures
        b == is_white_space(c),
{
    let v = c as u32;
    (0x9 <= v && v <= 0xd) || v == 0x20 || v == 0x85 || v == 0xa0 || v == 0x1680 || (0x2000 <= v
        && v <= 0x200a) || v == 0x2028 || v == 0x2029 || v == 0x202f || v == 0x205f || v == 0x3000
}

/// `t` without its leading white space.
pub open spec fn trim_start(t: Seq<char>) -> Seq<char>
    decreases t.len(),
{
    if t.len() > 0 && is_white_space(t[0]) {
        trim_start(t.drop_first())
    } else {
        t
    }
}

/// `t` without its trailing white space.
pub open spec fn trim_end(t: Seq<char>) -> Seq<char>
    decreases t.len(),
{
    if t.len() > 0 && is_white_space(t.last()) {
        trim_end(t.drop_last())
    } else {
        t
    }
}

/// `t` without leading and trailing white space, as `str::trim` gives it.
pub open spec fn trim(t: Seq<char>) -> Seq<char> {
    trim_end(trim_start(t))
}

/// `t` with every occurrence of `pattern` removed, matching from the left
/// without overlap, as `str::replace(pattern, "")` gives it.
pub open spec fn remove_all(t: Seq<char>, pattern: Seq<char>) -> Seq<char>
    decreases t.len(),
{
    if t.len() == 0 {
        t
    } else if pattern.len() > 0 && has_prefix(t, pattern) {
        remove_all(t.skip(pattern.len() as int), pattern)
    } else {
        seq![t[0]] + remove_all(t.drop_first(), pattern)
    }
}

/// Skipping one more leading white-space character.
proof fn lemma_trim_start_step(t: Seq<char>, i: int)
    requires
        0 <= i < t.len(),
        is_white_space(t[i]),
    ensures
        trim_start(t.skip(i)) == trim_start(t.skip(i + 1)),
{
    assert(t.skip(i).drop_first() =~= t.skip(i + 1));
}

/// Dropping one more trailing white-space character.
proof fn lemma_trim_end_step(u: Seq<char>, j: int)
    requires
        0 < j <= u.len(),
        is_white_space(u[j - 1]),
    ensures
        trim_end(u.take(j)) == trim_end(u.take(j - 1)),
{
    assert(u.take(j).drop_last() =~= u.take(j - 1));
}

/// The characters of `t` without leading and trailing white space.
pub fn trim_chars(t: &Vec<char>) -> (r: Vec<char>)
    ensures
        r@ == trim(t@),
{
    let len = t.len();
    assert(t@.skip(0) =~= t@);
    let mut start: usize = 0;
    while start < len && white_space(t[start])
        invariant
            len == t@.len(),
            start <= len,
            trim_start(t@) == trim_start(t@.skip(start as int)),
        decreases len - start,
    {
        proof {
            lemma_trim_start_step(t@, start as int);
        }
        start = start + 1;
    }
    let ghost u = t@.skip(start as int);
    assert(trim_start(u) == u);
    assert(u.take(len - start) =~= u);
    let mut end: usize = len;
    while end > start && white_space(t[end - 1])
        invariant
            len == t@.len(),
            start <= end <= len,
            u == t@.skip(start as int),
            trim_end(u) == trim_end(u.take(end - start)),
        decreases end - start,
    {
        proof {
            assert(u[end - start - 1] == t@[end - 1]);
            lemma_trim_end_step(u, end - start);
        }
        end = end - 1;
    }
    let ghost w = u.take(end - start);
    assert(trim_end(w) == w);
    let mut r: Vec<char> = Vec::new();
    let mut k: usize = start;
    while k < end
        invariant
            start <= k <= end <= len,
            len == t@.len(),
            r@ == t@.subrange(start as int, k as int),
        decreases end - k,
    {
        r.push(t[k]);
        k = k + 1;
        assert(r@ =~= t@.subrange(start as int, k as int));
    }
    assert(w =~= t@.subrange(start as int, end as int));
    r
}

/// The characters of `t` with every occurrence of `pattern` removed.
pub fn remove_all_chars(t: &Vec<char>, pattern: &Vec<char>) -> (r: Vec<char>)
    requires
        pattern@.len() > 0,
    ensures
        r@ == remove_all(t@, pattern@),
{
    let len = t.len();
    let plen = pattern.len();
    let mut r: Vec<char> = Vec::new();
    let mut i: usize = 0;
    assert(t@.skip(0) =~= t@);
    assert(r@ + remove_all(t@, pattern@) =~= remove_all(t@, pattern@));
    while i < len
        invariant
            len == t@.len(),
            plen == pattern@.len(),
            plen > 0,
            i <= len,
            r@ + remove_all(t@.skip(i as int), pattern@) == remove_all(t@, pattern@),
        decreases len - i,
    {
        let ghost rest = t@.skip(i as int);
        let found = if plen <= len - i {
            matches_at(t, pattern, i)
        } else {
            false
        };
        proof {
            if plen <= len - i {
                assert(rest.subrange(0, plen as int) =~= t@.subrange(i as int, i + plen));
            }
            assert(found == has_prefix(rest, pattern@));
        }
        if found {
            proof {
                assert(rest.skip(plen as int) =~= t@.skip(i + plen));
            }
            i = i + plen;
        } else {
            let ghost before = r@;
            r.push(t[i]);
            proof {
                assert(rest.drop_first() =~= t@.skip(i + 1));
                assert(rest[0] == t@[i as int]);
                assert(r@ + remove_all(t@.skip(i + 1), pattern@) =~= before + (seq![rest[0]]
                    + remove_all(rest.drop_first(), pattern@)));
            }
            i = i + 1;
        }
    }
    proof {
        assert(t@.skip(len as int) =~= Seq::<char>::empty());
        assert(r@ + Seq::<char>::empty() =~= r@);
    }
    r
}

/// The first of `lines` that begins with `prefix`.
pub open spec fn first_with_prefix(lines: Seq<Seq<char>>, prefix: Seq<char>) -> Option<Seq<char>>
    decreases lines.len(),
{
    if lines.len() == 0 {
        None
    } else if has_prefix(lines[0], prefix) {
        Some(lines[0])
    } else {
        first_with_prefix(lines.drop_first(), prefix)
    }
}

/// Looking one line further for the first line with a prefix.
pub proof fn lemma_first_with_prefix_push(lines: Seq<Seq<char>>, line: Seq<char>, prefix: Seq<char>)
    ensures
        first_with_prefix(lines.push(line), prefix) == match first_with_prefix(lines, prefix) {
            Some(l) => Some(l),
            None => if has_prefix(line, prefix) {
                Some(line)
            } else {
                None
            },
        },
    decreases lines.len(),
{
    if lines.len() > 0 {
        assert(lines.push(line)[0] == lines[0]);
        assert(lines.push(line).drop_first() =~= lines.drop_first().push(line));
        lemma_first_with_prefix_push(lines.drop_first(), line, prefix);
    } else {
        assert(lines.push(line)[0] == line);
        assert(lines.push(line).drop_first() =~= Seq::<Seq<char>>::empty());
        assert(first_with_prefix(Seq::<Seq<char>>::empty(), prefix) is None);
        assert(first_with_prefix(lines, prefix) is None);
    }
}

/// The first line of a text, and the text after it, by `split_lines`.
pub proof fn lemma_split_lines_step(t: Seq<char>, e: int)
    requires
        0 < t.len(),
        0 <= e <= t.len(),
        e < t.len() ==> t[e] == '\n',
        forall|k: int| 0 <= k < e ==> t[k] != '\n',
    ensures
        e < t.len() ==> split_lines(t) == seq![strip_cr(t.take(e))] + split_lines(t.skip(e + 1)),
        e == t.len() ==> split_lines(t) == seq![t],
{
    lemma_line_end_at(t, e);
}

/// The character sequences of a list of lines.
pub open spec fn char_views(lines: Seq<Vec<char>>) -> Seq<Seq<char>> {
    lines.map_values(|l: Vec<char>| l@)
}

/// The lines of a text, as `str::lines` yields them
pub fn lines_of(text: &Vec<char>) -> (r: Vec<Vec<char>>)
    ensures
        char_views(r@) == split_lines(text@),
{
    let len = text.len();
    let mut out: Vec<Vec<char>> = Vec::new();
    let mut start: usize = 0;
    assert(text@.skip(0) =~= text@);
    assert(char_views(out@) =~= Seq::<Seq<char>>::empty());
    while start < len
        invariant
            len == text@.len(),
            start <= len,
            split_lines(text@) == char_views(out@) + split_lines(text@.skip(start as int)),
        decreases len - start,
    {
        let ghost rest = text@.skip(start as int);
        let mut e: usize = start;
        while e < len && text[e] != '\n'
            invariant
                start <= e <= len,
                len == text@.len(),
                forall|k: int| start <= k < e ==> text@[k] != '\n',
            decreases len - e,
        {
            e = e + 1;
        }
        let mut line: Vec<char> = Vec::new();
        let mut k: usize = start;
        while k < e
            invariant
                start <= k <= e <= len,
                len == text@.len(),
                line@ == text@.subrange(start as int, k as int),
            decreases e - k,
        {
            line.push(text[k]);
            k = k + 1;
            assert(line@ =~= text@.subrange(start as int, k as int));
        }
        proof {
            assert forall|j: int| 0 <= j < e - start implies rest[j] != '\n' by {
                assert(rest[j] == text@[start + j]);
            }
            if e < len {
                assert(rest[e - start] == text@[e as int]);
            }
            lemma_split_lines_step(rest, e - start);
            assert(rest.take(e - start) =~= line@);
        }
        if e < len {
            let n = line.len();
            if n > 0 && line[n - 1] == '\r' {
                line.pop();
            }
            proof {
                assert(line@ == strip_cr(rest.take(e - start)));
                assert(rest.skip(e - start + 1) =~= text@.skip(e + 1));
            }
            start = e + 1;
        } else {
            proof {
                assert(rest =~= line@);
                assert(text@.skip(len as int) =~= Seq::<char>::empty());
            }
            start = len;
        }
        let ghost before = char_views(out@);
        let ghost lv = line@;
        out.push(line);
        proof {
            assert(char_views(out@) =~= before.push(lv));
            assert(before.push(lv) + split_lines(text@.skip(start as int)) =~= before + split_lines(rest));
        }
    }
    assert(text@.skip(len as int) =~= Seq::<char>::empty());
    assert(char_views(out@) + Seq::<Seq<char>>::empty() =~= char_views(out@));
    out
}

} // verus!
