//! Filling text is stable: the words of a filled text are the words it was
//! made of, so filling it again gives it back.

use vstd::prelude::*;

use crate::cli::{filled, line_text, line_texts, word_scan, words_of, wrap_groups, wrap_scan};
use crate::lines::is_white_space;
use crate::text::join_text;

verus! {

/// A word: not empty, and no white space in it.
pub open spec fn is_word(w: Seq<char>) -> bool {
    &&& w.len() > 0
    &&& forall|k: int| 0 <= k < w.len() ==> !is_white_space(#[trigger] w[k])
}

/// Every item is a word.
pub open spec fn all_words(ws: Seq<Seq<char>>) -> bool {
    forall|k: int| 0 <= k < ws.len() ==> is_word(#[trigger] ws[k])
}

/// Scanning past a white space character finishes the words before it.
proof fn lemma_scan_after_space(a: Seq<char>, c: char, b: Seq<char>)
    requires
        is_white_space(c),
    ensures
        word_scan(a + seq![c] + b) == (words_of(a) + word_scan(b).0, word_scan(b).1),
    decreases b.len(),
{
    if b.len() == 0 {
        assert(a + seq![c] + b =~= a.push(c));
        assert(a.push(c).drop_last() =~= a);
        assert(words_of(a) + Seq::<Seq<char>>::empty() =~= words_of(a));
    } else {
        let b0 = b.drop_last();
        lemma_scan_after_space(a, c, b0);
        assert((a + seq![c] + b).drop_last() =~= a + seq![c] + b0);
        assert((a + seq![c] + b).last() == b.last());
        let (w, cur) = word_scan(b0);
        if is_white_space(b.last()) && cur.len() > 0 {
            assert((words_of(a) + w).push(cur) =~= words_of(a) + w.push(cur));
        }
    }
}

/// The words of two texts joined by a white space character are the words
/// of the first followed by the words of the second.
proof fn lemma_words_split(a: Seq<char>, c: char, b: Seq<char>)
    requires
        is_white_space(c),
    ensures
        words_of(a + seq![c] + b) == words_of(a) + words_of(b),
{
    lemma_scan_after_space(a, c, b);
    let (w, cur) = word_scan(b);
    if cur.len() > 0 {
        assert((words_of(a) + w).push(cur) =~= words_of(a) + w.push(cur));
    }
}

/// Scanning a word leaves it as the word being read.
proof fn lemma_scan_word(w: Seq<char>)
    requires
        forall|k: int| 0 <= k < w.len() ==> !is_white_space(#[trigger] w[k]),
    ensures
        word_scan(w) == (Seq::<Seq<char>>::empty(), w),
    decreases w.len(),
{
    if w.len() > 0 {
        let w0 = w.drop_last();
        assert forall|k: int| 0 <= k < w0.len() implies !is_white_space(#[trigger] w0[k]) by {
            assert(w0[k] == w[k]);
        }
        lemma_scan_word(w0);
        assert(!is_white_space(w[w.len() - 1]));
        assert(w0.push(w.last()) =~= w);
    }
}

/// The words of a word are that word alone.
proof fn lemma_words_of_word(w: Seq<char>)
    requires
        is_word(w),
    ensures
        words_of(w) == seq![w],
{
    lemma_scan_word(w);
    assert(Seq::<Seq<char>>::empty().push(w) =~= seq![w]);
}

/// The words of items joined by a white space character are the items'
/// words, in order.
proof fn lemma_words_of_join(items: Seq<Seq<char>>, c: char, parts: Seq<Seq<Seq<char>>>)
    requires
        is_white_space(c),
        parts.len() == items.len(),
        forall|i: int| 0 <= i < items.len() ==> words_of(#[trigger] items[i]) == parts[i],
    ensures
        words_of(join_text(items, seq![c])) == parts.flatten_alt(),
    decreases items.len(),
{
    if items.len() == 0 {
        assert(word_scan(Seq::<char>::empty()) == (Seq::<Seq<char>>::empty(), Seq::<char>::empty()));
    } else if items.len() == 1 {
        assert(words_of(items[0]) == parts[0]);
        assert(parts.drop_last() =~= Seq::<Seq<Seq<char>>>::empty());
        assert(parts.drop_last().flatten_alt() =~= Seq::<Seq<char>>::empty());
        assert(Seq::<Seq<char>>::empty() + parts[0] =~= parts[0]);
    } else {
        let init = items.drop_last();
        let pinit = parts.drop_last();
        assert forall|i: int| 0 <= i < init.len() implies words_of(#[trigger] init[i]) == pinit[i] by {
            assert(init[i] == items[i]);
            assert(words_of(items[i]) == parts[i]);
        }
        lemma_words_of_join(init, c, pinit);
        lemma_words_split(join_text(init, seq![c]), c, items.last());
        assert(words_of(items[items.len() - 1]) == parts[parts.len() - 1]);
    }
}

/// Flattening single words gives the words back.
proof fn lemma_flatten_singletons(ws: Seq<Seq<char>>)
    ensures
        Seq::new(ws.len(), |i: int| seq![ws[i]]).flatten_alt() == ws,
    decreases ws.len(),
{
    let s = Seq::new(ws.len(), |i: int| seq![ws[i]]);
    if ws.len() > 0 {
        let w0 = ws.drop_last();
        lemma_flatten_singletons(w0);
        assert(s.drop_last() =~= Seq::new(w0.len(), |i: int| seq![w0[i]]));
        assert(w0 + seq![ws.last()] =~= ws);
    }
}

/// The words of a line of words are those words.
proof fn lemma_words_of_line(g: Seq<Seq<char>>)
    requires
        all_words(g),
    ensures
        words_of(line_text(g)) == g,
{
    reveal_strlit(" ");
    assert(" "@ =~= seq![' ']);
    let parts = Seq::new(g.len(), |i: int| seq![g[i]]);
    assert forall|i: int| 0 <= i < g.len() implies words_of(#[trigger] g[i]) == parts[i] by {
        lemma_words_of_word(g[i]);
    }
    lemma_words_of_join(g, ' ', parts);
    lemma_flatten_singletons(g);
}

/// The words of a text are words.
proof fn lemma_words_are_words(t: Seq<char>)
    ensures
        all_words(word_scan(t).0),
        forall|k: int| 0 <= k < word_scan(t).1.len() ==> !is_white_space(#[trigger] word_scan(t).1[k]),
        all_words(words_of(t)),
    decreases t.len(),
{
    if t.len() > 0 {
        lemma_words_are_words(t.drop_last());
        let (w, cur) = word_scan(t.drop_last());
        let c = t.last();
        if is_white_space(c) {
            if cur.len() > 0 {
                assert forall|k: int| 0 <= k < w.push(cur).len() implies is_word(#[trigger] w.push(cur)[k]) by {
                    if k < w.len() {
                        assert(w.push(cur)[k] == w[k]);
                    }
                }
            }
        } else {
            assert forall|k: int| 0 <= k < cur.push(c).len() implies !is_white_space(#[trigger] cur.push(c)[k]) by {
                if k < cur.len() {
                    assert(cur.push(c)[k] == cur[k]);
                }
            }
        }
    }
    let (w, cur) = word_scan(t);
    if cur.len() > 0 {
        assert forall|k: int| 0 <= k < w.push(cur).len() implies is_word(#[trigger] w.push(cur)[k]) by {
            if k < w.len() {
                assert(w.push(cur)[k] == w[k]);
            }
        }
    }
}

/// The greedy wrap puts words in lines of words, which flattened give the
/// words back.
proof fn lemma_wrap_scan_words(words: Seq<Seq<char>>, width: nat)
    requires
        all_words(words),
    ensures
        wrap_scan(words, width).0.flatten_alt() + wrap_scan(words, width).1 == words,
        forall|i: int| 0 <= i < wrap_scan(words, width).0.len() ==> all_words(#[trigger] wrap_scan(words, width).0[i]),
        forall|i: int| 0 <= i < wrap_scan(words, width).0.len() ==> (#[trigger] wrap_scan(words, width).0[i]).len() > 0,
        all_words(wrap_scan(words, width).1),
        words.len() > 0 ==> wrap_scan(words, width).1.len() > 0,
        words.len() == 0 ==> wrap_scan(words, width).1.len() == 0 && wrap_scan(words, width).0.len() == 0,
    decreases words.len(),
{
    if words.len() == 0 {
        assert(Seq::<Seq<Seq<char>>>::empty().flatten_alt() =~= Seq::<Seq<char>>::empty());
        assert(Seq::<Seq<char>>::empty() + Seq::<Seq<char>>::empty() =~= words);
    } else {
        let init = words.drop_last();
        let w = words.last();
        assert forall|k: int| 0 <= k < init.len() implies is_word(#[trigger] init[k]) by {
            assert(init[k] == words[k]);
        }
        assert(is_word(w)) by {
            assert(w == words[words.len() - 1]);
        }
        lemma_wrap_scan_words(init, width);
        let (groups, cur) = wrap_scan(init, width);
        assert(words =~= init.push(w));
        if cur.len() == 0 {
            assert(groups.flatten_alt() + seq![w] =~= words);
        } else if crate::cli::reported_len(line_text(cur)) + 1 + crate::cli::reported_len(w) <= width {
            assert(groups.flatten_alt() + cur.push(w) =~= (groups.flatten_alt() + cur).push(w));
            assert forall|k: int| 0 <= k < cur.push(w).len() implies is_word(#[trigger] cur.push(w)[k]) by {
                if k < cur.len() {
                    assert(cur.push(w)[k] == cur[k]);
                }
            }
        } else {
            assert(groups.push(cur).drop_last() =~= groups);
            assert(groups.push(cur).flatten_alt() == groups.flatten_alt() + cur);
            assert(groups.push(cur).flatten_alt() + seq![w] =~= (groups.flatten_alt() + cur).push(w));
            assert forall|i: int| 0 <= i < groups.push(cur).len() implies all_words(#[trigger] groups.push(cur)[i])
                && groups.push(cur)[i].len() > 0 by {
                if i < groups.len() {
                    assert(groups.push(cur)[i] == groups[i]);
                }
            }
            assert forall|k: int| 0 <= k < seq![w].len() implies is_word(#[trigger] seq![w][k]) by {}
        }
    }
}

/// The lines of words the wrap gives, flattened, are the words.
proof fn lemma_wrap_groups_words(words: Seq<Seq<char>>, width: nat)
    requires
        all_words(words),
    ensures
        wrap_groups(words, width).flatten_alt() == words,
        forall|i: int| 0 <= i < wrap_groups(words, width).len() ==> all_words(#[trigger] wrap_groups(words, width)[i]),
{
    lemma_wrap_scan_words(words, width);
    let (groups, cur) = wrap_scan(words, width);
    if cur.len() > 0 {
        assert(groups.push(cur).drop_last() =~= groups);
        assert forall|i: int| 0 <= i < groups.push(cur).len() implies all_words(#[trigger] groups.push(cur)[i]) by {
            if i < groups.len() {
                assert(groups.push(cur)[i] == groups[i]);
            }
        }
    } else {
        assert(groups.flatten_alt() + cur =~= groups.flatten_alt());
    }
}

/// Filling keeps the words: the words of a filled text are the words of the text.
pub proof fn lemma_filled_words(text: Seq<char>, width: nat)
    ensures
        words_of(filled(text, width)) == words_of(text),
{
    let words = words_of(text);
    lemma_words_are_words(text);
    lemma_wrap_groups_words(words, width);
    let groups = wrap_groups(words, width);
    let lines = line_texts(groups);
    assert forall|i: int| 0 <= i < lines.len() implies words_of(#[trigger] lines[i]) == groups[i] by {
        lemma_words_of_line(groups[i]);
    }
    reveal_strlit("\n");
    assert("\n"@ =~= seq!['\n']);
    assert(is_white_space('\n'));
    lemma_words_of_join(lines, '\n', groups);
}

/// Filling a filled text to the same width changes nothing.
pub proof fn law_fill_twice_changes_nothing(text: Seq<char>, width: nat)
    ensures
        filled(filled(text, width), width) == filled(text, width),
{
    lemma_filled_words(text, width);
}

} // verus!
