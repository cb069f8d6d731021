//! Text layout for the command line: repetition, truncation, visible width
//! and word wrapping, and the lines each command prints.

pub mod commands;
pub mod fill_laws;
pub mod output;

use vstd::prelude::*;
use vstd::string::StrSliceExecFns;
use vstd::utf8::{encode_scalar, encode_utf8, is_char_boundary};

use crate::lines::{is_white_space, white_space};
use crate::text::{chars_of, join_text, push_char};

verus! {

/// The number of bytes of the UTF-8 encoding of a text.
pub open spec fn byte_len(t: Seq<char>) -> nat {
    encode_utf8(t).len()
}

/// The encoding of two texts one after the other is the two encodings one after the other.
pub proof fn lemma_encode_concat(a: Seq<char>, b: Seq<char>)
    ensures
        encode_utf8(a + b) == encode_utf8(a) + encode_utf8(b),
    decreases a.len(),
{
    if a.len() == 0 {
        assert(a + b =~= b);
        assert(encode_utf8(a) =~= Seq::<u8>::empty());
        assert(encode_utf8(a) + encode_utf8(b) =~= encode_utf8(b));
    } else {
        lemma_encode_concat(a.drop_first(), b);
        assert((a + b).drop_first() =~= a.drop_first() + b);
        assert((a + b)[0] == a[0]);
        assert(encode_utf8(a + b) =~= encode_scalar(a[0] as u32) + encode_utf8(a.drop_first() + b));
        assert(encode_utf8(a) + encode_utf8(b) =~= encode_scalar(a[0] as u32) + (encode_utf8(a.drop_first())
            + encode_utf8(b)));
    }
}

/// Every character takes at least one byte.
pub proof fn lemma_bytes_at_least_chars(t: Seq<char>)
    ensures
        byte_len(t) >= t.len(),
    decreases t.len(),
{
    if t.len() > 0 {
        lemma_bytes_at_least_chars(t.drop_first());
        assert(encode_scalar(t[0] as u32).len() >= 1);
    }
}

/// No character takes more than four bytes.
pub proof fn lemma_bytes_at_most(t: Seq<char>)
    ensures
        byte_len(t) <= 4 * t.len(),
    decreases t.len(),
{
    if t.len() > 0 {
        lemma_bytes_at_most(t.drop_first());
        assert(encode_scalar(t[0] as u32).len() <= 4);
    }
}

/// `n` spaces.
pub open spec fn spaces(n: nat) -> Seq<char> {
    Seq::new(n, |_i: int| ' ')
}

/// Helper to repeat a character
pub fn repeat_char(ch: char, count: usize) -> (r: String)
    ensures
        r@ == Seq::new(count as nat, |_i: int| ch),
{
    let mut r = String::new();
    let mut i: usize = 0;
    while i < count
        invariant
            i <= count,
            r@ == Seq::new(i as nat, |_i: int| ch),
        decreases count - i,
    {
        push_char(&mut r, ch);
        i = i + 1;
        assert(r@ =~= Seq::new(i as nat, |_i: int| ch));
    }
    r
}

/// Truncate a string to `max_len` bytes with an ellipsis: a string that fits
/// is padded with spaces to `max_len` characters; a longer one keeps its
/// first `max_len - 3` bytes followed by "...". Cutting a longer string
/// needs `max_len` of at least 3 and a character boundary at `max_len - 3`.
pub fn truncate(s: &str, max_len: usize) -> (r: String)
    requires
        byte_len(s@) <= usize::MAX,
        byte_len(s@) > max_len ==> max_len >= 3 && is_char_boundary(encode_utf8(s@), max_len - 3),
    ensures
        byte_len(s@) <= max_len ==> s@.len() <= max_len && r@ == s@ + spaces((max_len - s@.len()) as nat),
        byte_len(s@) > max_len ==> exists|head: Seq<char>|
            r@ == head + "..."@ && encode_utf8(head) == encode_utf8(s@).take(max_len - 3),
{
    if s.len() <= max_len {
        proof {
            lemma_bytes_at_least_chars(s@);
        }
        let n = s.unicode_len();
        let mut r = String::new();
        r.append(s);
        let mut i: usize = n;
        while i < max_len
            invariant
                n == s@.len(),
                n <= i <= max_len,
                r@ == s@ + spaces((i - n) as nat),
            decreases max_len - i,
        {
            push_char(&mut r, ' ');
            i = i + 1;
            assert(r@ =~= s@ + spaces((i - n) as nat));
        }
        r
    } else {
        let (head, _rest) = s.split_at(max_len - 3);
        let mut r = String::new();
        r.append(head);
        r.append("...");
        proof {
            assert(encode_utf8(head@) =~= encode_utf8(s@).take(max_len - 3));
            assert(r@ == head@ + "..."@);
            assert(exists|h: Seq<char>| r@ == h + "..."@ && encode_utf8(h) == encode_utf8(s@).take(max_len - 3));
        }
        r
    }
}

/// The named result of std's `char::is_alphabetic`: whether the character has
/// Unicode's Alphabetic property.
pub uninterp spec fn std_alphabetic(c: char) -> bool;

/// Whether a character is alphabetic as std answers: among ASCII characters
/// exactly the letters 'a'..='z' and 'A'..='Z'; beyond ASCII the Unicode
/// property named `std_alphabetic`.
pub open spec fn alphabetic(c: char) -> bool {
    if (c as u32) < 128 {
        ('a' <= c && c <= 'z') || ('A' <= c && c <= 'Z')
    } else {
        std_alphabetic(c)
    }
}

/// std's `char::is_alphabetic`: whether the character has the Unicode
/// Alphabetic property. Its result is named `std_alphabetic`; among ASCII
/// characters exactly the letters 'a'..='z' and 'A'..='Z' have the property.
#[verifier::external_body]
fn is_alphabetic(c: char) -> (b: bool)
    ensures
        b == std_alphabetic(c),
        b == alphabetic(c),
{
    c.is_alphabetic()
}

/// The scan that measures visible text: whether it ends inside an escape
/// sequence (from an ESC character up to the next alphabetic character), and
/// how many characters lay outside escape sequences.
pub open spec fn visible_scan(t: Seq<char>) -> (bool, nat)
    decreases t.len(),
{
    if t.len() == 0 {
        (false, 0)
    } else {
        let (in_escape, n) = visible_scan(t.drop_last());
        let c = t.last();
        if c == '\x1b' {
            (true, n)
        } else if in_escape {
            (!alphabetic(c), n)
        } else {
            (false, n + 1)
        }
    }
}

/// Calculate visible length of a string (excluding ANSI escape codes)
pub fn visible_len(s: &str) -> (n: usize)
    ensures
        n == visible_scan(s@).1,
{
    let chars = chars_of(s);
    let mut len: usize = 0;
    let mut in_escape = false;
    let mut i: usize = 0;
    while i < chars.len()
        invariant
            i <= chars@.len(),
            chars@ == s@,
            len <= i,
            (in_escape, len as nat) == visible_scan(chars@.take(i as int)),
        decreases chars@.len() - i,
    {
        let c = chars[i];
        proof {
            assert(chars@.take(i + 1).drop_last() =~= chars@.take(i as int));
        }
        if c == '\x1b' {
            in_escape = true;
        } else if in_escape {
            if is_alphabetic(c) {
                in_escape = false;
            }
        } else {
            len = len + 1;
        }
        i = i + 1;
    }
    assert(chars@.take(chars@.len() as int) =~= chars@);
    len
}

/// A text without escape characters is all visible: its visible length is
/// its number of characters.
pub proof fn law_plain_text_is_all_visible(t: Seq<char>)
    requires
        !t.contains('\x1b'),
    ensures
        visible_scan(t) == (false, t.len()),
    decreases t.len(),
{
    if t.len() > 0 {
        assert(!t.drop_last().contains('\x1b')) by {
            if t.drop_last().contains('\x1b') {
                let k = choose|k: int| 0 <= k < t.drop_last().len() && t.drop_last()[k] == '\x1b';
                assert(t[k] == '\x1b');
            }
        }
        law_plain_text_is_all_visible(t.drop_last());
        assert(t.last() != '\x1b') by {
            if t.last() == '\x1b' {
                assert(t[t.len() - 1] == '\x1b');
            }
        }
    }
}

/// Scanning on from a point outside any escape sequence adds the visible
/// characters of the rest.
pub proof fn lemma_visible_concat(a: Seq<char>, b: Seq<char>)
    requires
        !visible_scan(a).0,
    ensures
        visible_scan(a + b) == (visible_scan(b).0, visible_scan(a).1 + visible_scan(b).1),
    decreases b.len(),
{
    if b.len() == 0 {
        assert(a + b =~= a);
    } else {
        lemma_visible_concat(a, b.drop_last());
        assert((a + b).drop_last() =~= a + b.drop_last());
        assert((a + b).last() == b.last());
    }
}

/// Inside an escape sequence, characters that are neither ESC nor
/// alphabetic keep the scan inside it and show nothing.
pub proof fn lemma_escape_body(a: Seq<char>, p: Seq<char>)
    requires
        visible_scan(a).0,
        forall|k: int| 0 <= k < p.len() ==> #[trigger] p[k] != '\x1b' && !alphabetic(p[k]),
    ensures
        visible_scan(a + p) == visible_scan(a),
    decreases p.len(),
{
    if p.len() > 0 {
        let p0 = p.drop_last();
        assert forall|k: int| 0 <= k < p0.len() implies #[trigger] p0[k] != '\x1b' && !alphabetic(p0[k]) by {
            assert(p0[k] == p[k]);
        }
        lemma_escape_body(a, p0);
        assert((a + p).drop_last() =~= a + p0);
        assert((a + p).last() == p[p.len() - 1]);
    }
}

/// The length std's `str::len` reports for a text: its number of bytes, as a `usize`.
pub open spec fn reported_len(t: Seq<char>) -> int {
    (byte_len(t) as usize) as int
}

/// The scan that splits a text at white space, as `str::split_whitespace`
/// does: the words finished so far and the word being read.
pub open spec fn word_scan(t: Seq<char>) -> (Seq<Seq<char>>, Seq<char>)
    decreases t.len(),
{
    if t.len() == 0 {
        (Seq::empty(), Seq::empty())
    } else {
        let (words, cur) = word_scan(t.drop_last());
        let c = t.last();
        if is_white_space(c) {
            if cur.len() > 0 {
                (words.push(cur), Seq::empty())
            } else {
                (words, Seq::empty())
            }
        } else {
            (words, cur.push(c))
        }
    }
}

/// The words of a text: its runs of characters that are not white space.
pub open spec fn words_of(t: Seq<char>) -> Seq<Seq<char>> {
    let (words, cur) = word_scan(t);
    if cur.len() > 0 {
        words.push(cur)
    } else {
        words
    }
}

/// The texts of a sequence of strings.
pub open spec fn views(v: Seq<String>) -> Seq<Seq<char>> {
    v.map_values(|s: String| s@)
}

/// No word is empty.
pub open spec fn all_nonempty(words: Seq<Seq<char>>) -> bool {
    forall|k: int| 0 <= k < words.len() ==> #[trigger] words[k].len() > 0
}

/// The words of a text, in order.
fn split_words(text: &str) -> (v: Vec<String>)
    ensures
        views(v@) == words_of(text@),
        all_nonempty(views(v@)),
{
    let chars = chars_of(text);
    let mut words: Vec<String> = Vec::new();
    let mut cur = String::new();
    let mut i: usize = 0;
    while i < chars.len()
        invariant
            i <= chars@.len(),
            chars@ == text@,
            (views(words@), cur@) == word_scan(chars@.take(i as int)),
            all_nonempty(views(words@)),
        decreases chars@.len() - i,
    {
        let c = chars[i];
        proof {
            assert(chars@.take(i + 1).drop_last() =~= chars@.take(i as int));
        }
        if white_space(c) {
            if !cur.as_str().is_empty() {
                let ghost before = views(words@);
                words.push(cur);
                cur = String::new();
                proof {
                    assert(views(words@) =~= before.push(words@.last()@));
                }
            } else {
                cur = String::new();
            }
        } else {
            push_char(&mut cur, c);
        }
        i = i + 1;
    }
    assert(chars@.take(chars@.len() as int) =~= chars@);
    if !cur.as_str().is_empty() {
        let ghost before = views(words@);
        words.push(cur);
        proof {
            assert(views(words@) =~= before.push(words@.last()@));
        }
    }
    words
}

/// A line of words with one space between consecutive words.
pub open spec fn line_text(group: Seq<Seq<char>>) -> Seq<char> {
    join_text(group, " "@)
}

/// The greedy wrap of words into lines no longer than `width` bytes: the
/// lines finished so far and the words of the line being filled. A word goes
/// on the current line when the line, a space and the word fit in `width`;
/// otherwise it begins the next line.
pub open spec fn wrap_scan(words: Seq<Seq<char>>, width: nat) -> (Seq<Seq<Seq<char>>>, Seq<Seq<char>>)
    decreases words.len(),
{
    if words.len() == 0 {
        (Seq::empty(), Seq::empty())
    } else {
        let (groups, cur) = wrap_scan(words.drop_last(), width);
        let w = words.last();
        if cur.len() == 0 {
            (groups, seq![w])
        } else if reported_len(line_text(cur)) + 1 + reported_len(w) <= width {
            (groups, cur.push(w))
        } else {
            (groups.push(cur), seq![w])
        }
    }
}

/// The words of each wrapped line.
pub open spec fn wrap_groups(words: Seq<Seq<char>>, width: nat) -> Seq<Seq<Seq<char>>> {
    let (groups, cur) = wrap_scan(words, width);
    if cur.len() > 0 {
        groups.push(cur)
    } else {
        groups
    }
}

/// The text of each wrapped line.
pub open spec fn line_texts(groups: Seq<Seq<Seq<char>>>) -> Seq<Seq<char>> {
    groups.map_values(|g: Seq<Seq<char>>| line_text(g))
}

/// A text's words wrapped to `width` bytes, one line per row.
pub open spec fn filled(text: Seq<char>, width: nat) -> Seq<char> {
    join_text(line_texts(wrap_groups(words_of(text), width)), "\n"@)
}

/// Whether a line of `line_len` bytes, a space and a word of `word_len` bytes fit in `width`.
fn fits(line_len: usize, word_len: usize, width: usize) -> (b: bool)
    ensures
        b == (line_len + 1 + word_len <= width),
{
    match line_len.checked_add(1) {
        Some(a) => match a.checked_add(word_len) {
            Some(total) => total <= width,
            None => false,
        },
        None => false,
    }
}

/// Adding a word to a line of words adds a space and the word.
proof fn lemma_line_push(g: Seq<Seq<char>>, w: Seq<char>)
    requires
        g.len() > 0,
    ensures
        line_text(g.push(w)) == line_text(g) + " "@ + w,
        line_text(seq![w]) == w,
{
    assert(g.push(w).drop_last() =~= g);
}

/// A line of nonempty words is not empty.
proof fn lemma_line_nonempty(g: Seq<Seq<char>>)
    requires
        g.len() > 0,
        all_nonempty(g),
    ensures
        line_text(g).len() > 0,
    decreases g.len(),
{
    if g.len() > 1 {
        lemma_line_nonempty(g.drop_last());
    } else {
        assert(g[0].len() > 0);
    }
}

/// The lines of `text` wrapped to `width` bytes: its words, greedily put on
/// lines with one space between words.
pub fn wrap_lines(text: &str, width: usize) -> (r: Vec<String>)
    ensures
        views(r@) == line_texts(wrap_groups(words_of(text@), width as nat)),
        all_nonempty(views(r@)),
{
    let words = split_words(text);
    let ghost ws = views(words@);
    let mut lines: Vec<String> = Vec::new();
    let mut current = String::new();
    let mut j: usize = 0;
    assert(ws.take(0) =~= Seq::<Seq<char>>::empty());
    while j < words.len()
        invariant
            j <= words@.len(),
            ws == views(words@),
            ws == words_of(text@),
            all_nonempty(ws),
            current@ == line_text(wrap_scan(ws.take(j as int), width as nat).1),
            views(lines@) == line_texts(wrap_scan(ws.take(j as int), width as nat).0),
            all_nonempty(views(lines@)),
            wrap_scan(ws.take(j as int), width as nat).1.len() == 0 <==> current@.len() == 0,
            all_nonempty(wrap_scan(ws.take(j as int), width as nat).1),
        decreases words@.len() - j,
    {
        let ghost before = wrap_scan(ws.take(j as int), width as nat);
        proof {
            assert(ws.take(j + 1).drop_last() =~= ws.take(j as int));
            assert(ws.take(j + 1).last() == ws[j as int]);
            assert(ws[j as int] == words@[j as int]@);
            assert(ws[j as int].len() > 0);
        }
        let word = &words[j];
        if current.as_str().is_empty() {
            current.append(word.as_str());
            proof {
                lemma_line_push(seq![word@], word@);
                assert(current@ == line_text(seq![word@]));
                assert(all_nonempty(seq![word@]));
            }
        } else if fits(current.as_str().len(), word.as_str().len(), width) {
            push_char(&mut current, ' ');
            current.append(word.as_str());
            proof {
                reveal_strlit(" ");
                lemma_line_push(before.1, word@);
                assert(current@ =~= line_text(before.1) + " "@ + word@);
                assert(all_nonempty(before.1.push(word@))) by {
                    assert forall|k: int| 0 <= k < before.1.push(word@).len() implies #[trigger] before.1.push(word@)[k].len() > 0 by {
                        if k < before.1.len() {
                            assert(before.1.push(word@)[k] == before.1[k]);
                        }
                    }
                }
            }
        } else {
            let ghost done = views(lines@);
            proof {
                lemma_line_nonempty(before.1);
            }
            lines.push(current);
            proof {
                assert(views(lines@) =~= done.push(line_text(before.1)));
                assert(line_texts(before.0.push(before.1)) =~= line_texts(before.0).push(line_text(before.1)));
                lemma_line_push(seq![word@], word@);
                assert(all_nonempty(seq![word@]));
            }
            current = word.clone();
        }
        j = j + 1;
    }
    assert(ws.take(words@.len() as int) =~= ws);
    let ghost last = wrap_scan(ws, width as nat);
    if !current.as_str().is_empty() {
        let ghost done = views(lines@);
        lines.push(current);
        proof {
            assert(views(lines@) =~= done.push(line_text(last.1)));
            assert(line_texts(last.0.push(last.1)) =~= line_texts(last.0).push(line_text(last.1)));
        }
    }
    lines
}

/// Strings joined with a separator between consecutive ones.
pub fn join_strings(items: &Vec<String>, sep: &str) -> (r: String)
    ensures
        r@ == join_text(views(items@), sep@),
{
    let mut r = String::new();
    let mut i: usize = 0;
    while i < items.len()
        invariant
            i <= items@.len(),
            r@ == join_text(views(items@).take(i as int), sep@),
        decreases items@.len() - i,
    {
        proof {
            assert(views(items@).take(i + 1).drop_last() =~= views(items@).take(i as int));
            assert(views(items@).take(i + 1).last() == items@[i as int]@);
            if i == 0 {
                assert(views(items@).take(0) =~= Seq::<Seq<char>>::empty());
            }
        }
        if i > 0 {
            r.append(sep);
        }
        r.append(items[i].as_str());
        i = i + 1;
    }
    assert(views(items@).take(items@.len() as int) =~= views(items@));
    r
}

/// Simple text wrapping for descriptions: the words of `text`, greedily
/// wrapped into lines of at most `width` bytes (a longer word stands alone on
/// its line), joined with newlines
pub fn fill(text: &str, width: usize) -> (r: String)
    ensures
        r@ == filled(text@, width as nat),
{
    let lines = wrap_lines(text, width);
    join_strings(&lines, "\n")
}

/// A line of words fits in `width` bytes unless it is a single word.
pub open spec fn line_fits(g: Seq<Seq<char>>, width: nat) -> bool {
    &&& g.len() >= 1
    &&& g.len() >= 2 ==> byte_len(line_text(g)) <= width
}

/// One space is one byte.
proof fn lemma_space_byte()
    ensures
        byte_len(" "@) == 1,
{
    reveal_strlit(" ");
    assert(" "@.drop_first() =~= Seq::<char>::empty());
    assert(encode_utf8(" "@.drop_first()) =~= Seq::<u8>::empty());
}

/// What the greedy wrap keeps at every step: the finished lines followed by
/// the current line's words are the words read so far, every finished line
/// fits, and the current line fits or is its first word.
proof fn lemma_wrap_scan(words: Seq<Seq<char>>, width: nat)
    requires
        width <= usize::MAX,
        forall|k: int| 0 <= k < words.len() ==> byte_len(#[trigger] words[k]) <= usize::MAX,
    ensures
        wrap_scan(words, width).0.flatten_alt() + wrap_scan(words, width).1 == words,
        forall|i: int|
            0 <= i < wrap_scan(words, width).0.len() ==> line_fits(
                #[trigger] wrap_scan(words, width).0[i],
                width,
            ),
        words.len() > 0 ==> line_fits(wrap_scan(words, width).1, width),
        words.len() == 0 ==> wrap_scan(words, width).1.len() == 0,
        byte_len(line_text(wrap_scan(words, width).1)) <= usize::MAX,
    decreases words.len(),
{
    if words.len() == 0 {
        assert(Seq::<Seq<Seq<char>>>::empty().flatten_alt() =~= Seq::<Seq<char>>::empty());
        assert(Seq::<Seq<char>>::empty() + Seq::<Seq<char>>::empty() =~= words);
        assert(line_text(Seq::<Seq<char>>::empty()) =~= Seq::<char>::empty());
    } else {
        let init = words.drop_last();
        let w = words.last();
        assert forall|k: int| 0 <= k < init.len() implies byte_len(#[trigger] init[k]) <= usize::MAX by {
            assert(init[k] == words[k]);
        }
        assert(byte_len(w) <= usize::MAX) by {
            assert(w == words[words.len() - 1]);
        }
        lemma_wrap_scan(init, width);
        let (groups, cur) = wrap_scan(init, width);
        assert(words =~= init.push(w));
        if cur.len() == 0 {
            assert(init.len() == 0);
            assert(groups.flatten_alt() + cur =~= Seq::<Seq<char>>::empty());
            assert(groups.len() == 0) by {
                if groups.len() > 0 {
                    assert(groups.flatten_alt().len() >= 0);
                }
            }
            assert(groups.flatten_alt() + seq![w] =~= words);
            assert(line_text(seq![w]) == w);
        } else if reported_len(line_text(cur)) + 1 + reported_len(w) <= width {
            lemma_line_push(cur, w);
            lemma_space_byte();
            lemma_encode_concat(line_text(cur), " "@);
            lemma_encode_concat(line_text(cur) + " "@, w);
            assert(groups.flatten_alt() + cur.push(w) =~= (groups.flatten_alt() + cur).push(w));
        } else {
            assert(groups.push(cur).drop_last() =~= groups);
            assert(groups.push(cur).flatten_alt() == groups.flatten_alt() + cur);
            assert(groups.push(cur).flatten_alt() + seq![w] =~= (groups.flatten_alt() + cur).push(w));
            assert(line_text(seq![w]) == w);
            assert forall|i: int| 0 <= i < groups.push(cur).len() implies line_fits(
                #[trigger] groups.push(cur)[i],
                width,
            ) by {
                if i < groups.len() {
                    assert(groups.push(cur)[i] == groups[i]);
                }
            }
        }
    }
}

/// Wrapping keeps every word, in order, and breaks no line early: each line
/// holds at least one word, and a line of two or more words is at most
/// `width` bytes long (only a word longer than the width stands alone on a
/// longer line).
pub proof fn law_wrap_keeps_words_within_width(words: Seq<Seq<char>>, width: nat)
    requires
        width <= usize::MAX,
        forall|k: int| 0 <= k < words.len() ==> byte_len(#[trigger] words[k]) <= usize::MAX,
    ensures
        wrap_groups(words, width).flatten_alt() == words,
        forall|i: int|
            0 <= i < wrap_groups(words, width).len() ==> line_fits(
                #[trigger] wrap_groups(words, width)[i],
                width,
            ),
{
    lemma_wrap_scan(words, width);
    let (groups, cur) = wrap_scan(words, width);
    if cur.len() > 0 {
        assert(groups.push(cur).drop_last() =~= groups);
        assert forall|i: int| 0 <= i < groups.push(cur).len() implies line_fits(
            #[trigger] groups.push(cur)[i],
            width,
        ) by {
            if i < groups.len() {
                assert(groups.push(cur)[i] == groups[i]);
            }
        }
    } else {
        assert(groups.flatten_alt() + cur =~= groups.flatten_alt());
    }
}

} // verus!
