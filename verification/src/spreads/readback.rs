//! What the journal reads back from a saved reading: the spread's name and
//! the number of cards, as the reading wrote them.

use vstd::prelude::*;

use crate::cards::{keywords_text, DrawnCard, SpreadPosition};
use crate::timestamp::Timestamp;
use crate::journal::{card_count_of, heading_marker, is_heading, spread_marker, spread_name_of};
use crate::lines::{
    first_with_prefix, is_white_space, lemma_split_lines_step, remove_all, split_lines, strip_cr,
    trim, trim_end, trim_start,
};
use crate::spreads::reading::{
    card_block, card_blocks, header_lines, markdown_lines, reading_date_text, lemma_lines_text_concat, lines_text, shown_count,
};
use crate::spreads::Spread;
use crate::text::{decimal_text, digit_char, has_prefix, is_substring};
use crate::timestamp::{documented_text, lemma_zero_padded_digits, zero_padded};

verus! {

/// A text without line breaks: no newline and no carriage return.
pub open spec fn single_line(t: Seq<char>) -> bool {
    forall|k: int| 0 <= k < t.len() ==> t[k] != '\n' && t[k] != '\r'
}

/// A single line that the journal takes neither for a card heading nor for
/// the spread line.
pub open spec fn plain_line(t: Seq<char>) -> bool {
    &&& single_line(t)
    &&& !has_prefix(t, heading_marker())
    &&& !has_prefix(t, spread_marker())
}

/// The texts a card writes into its block are single lines, and its meaning
/// is a plain line.
pub open spec fn block_reads_back(position: SpreadPosition, drawn: DrawnCard) -> bool {
    &&& single_line(position.name@)
    &&& single_line(drawn.card.name@)
    &&& single_line(keywords_text(drawn.card))
    &&& plain_line(
        (if drawn.reversed {
            drawn.card.reversed
        } else {
            drawn.card.upright
        })@,
    )
}

/// A spread name the journal reads back as written: a single line without
/// the spread marker in it and without white space at either end.
pub open spec fn name_reads_back(name: Seq<char>) -> bool {
    &&& single_line(name)
    &&& !is_substring(spread_marker(), name)
    &&& name.len() > 0 ==> !is_white_space(name[0]) && !is_white_space(name.last())
}

/// What a saved reading needs for the journal to read it back: a date line,
/// spread name, notes and card texts that keep to their lines.
pub open spec fn reads_back(
    date_text: Seq<char>,
    spread: Spread,
    drawn: Seq<DrawnCard>,
    notes: Option<Seq<char>>,
) -> bool {
    single_line(date_text) && texts_read_back(spread, drawn, notes)
}

/// The spread name, notes and card texts of a reading keep to their lines.
pub open spec fn texts_read_back(spread: Spread, drawn: Seq<DrawnCard>, notes: Option<Seq<char>>) -> bool {
    &&& name_reads_back(spread.name@)
    &&& (notes matches Some(n) ==> plain_line(n))
    &&& forall|k: int|
        0 <= k < shown_count(drawn, spread.positions@) ==> #[trigger] block_reads_back(
            spread.positions@[k],
            drawn[k],
        )
}

/// Lines that are all single lines.
pub open spec fn all_single(lines: Seq<Seq<char>>) -> bool {
    forall|i: int| 0 <= i < lines.len() ==> #[trigger] single_line(lines[i])
}

/// The text of a first line and more lines.
proof fn lemma_lines_text_front(l: Seq<char>, rest: Seq<Seq<char>>)
    ensures
        lines_text(seq![l] + rest) == l + seq!['\n'] + lines_text(rest),
{
    lemma_lines_text_concat(seq![l], rest);
    assert(seq![l].drop_last() =~= Seq::<Seq<char>>::empty());
    assert(lines_text(Seq::<Seq<char>>::empty()) =~= Seq::<char>::empty());
    assert(lines_text(seq![l]) =~= l + seq!['\n']);
}

/// Splitting the text of single lines gives the lines back.
pub proof fn lemma_split_lines_text(lines: Seq<Seq<char>>)
    requires
        all_single(lines),
    ensures
        split_lines(lines_text(lines)) == lines,
    decreases lines.len(),
{
    if lines.len() == 0 {
        assert(lines_text(lines) =~= Seq::<char>::empty());
        assert(split_lines(Seq::<char>::empty()) =~= lines);
    } else {
        let l = lines[0];
        let rest = lines.drop_first();
        assert(lines =~= seq![l] + rest);
        assert(all_single(rest)) by {
            assert forall|i: int| 0 <= i < rest.len() implies #[trigger] single_line(rest[i]) by {
                assert(rest[i] == lines[i + 1]);
            }
        }
        lemma_split_lines_text(rest);
        lemma_lines_text_front(l, rest);
        let t = l + seq!['\n'] + lines_text(rest);
        assert(single_line(lines[0]));
        let e = l.len() as int;
        assert(t[e] == '\n');
        assert forall|k: int| 0 <= k < e implies t[k] != '\n' by {
            assert(t[k] == l[k]);
        }
        lemma_split_lines_step(t, e);
        assert(t.take(e) =~= l);
        assert(t.skip(e + 1) =~= lines_text(rest));
        assert(strip_cr(l) == l);
        assert(split_lines(t) =~= seq![l] + rest);
    }
}

/// The lines of one item kept by a filter.
proof fn lemma_filter_one(x: Seq<char>, p: spec_fn(Seq<char>) -> bool)
    ensures
        seq![x].filter(p) == if p(x) {
            seq![x]
        } else {
            Seq::<Seq<char>>::empty()
        },
{
    assert(seq![x] =~= Seq::<Seq<char>>::empty().push(x));
    Seq::<Seq<char>>::empty().lemma_filter_push(x, p);
    assert(Seq::<Seq<char>>::empty().filter(p) =~= Seq::<Seq<char>>::empty());
}

/// The lines of two parts kept by a filter are those of each part.
proof fn lemma_filter_add(a: Seq<Seq<char>>, b: Seq<Seq<char>>, p: spec_fn(Seq<char>) -> bool)
    ensures
        (a + b).filter(p) == a.filter(p) + b.filter(p),
{
    Seq::filter_distributes_over_add(a, b, p);
}

/// The decimal digits of a number are neither a newline nor a carriage return.
proof fn lemma_decimal_single_line(n: nat)
    ensures
        single_line(decimal_text(n)),
    decreases n,
{
    if n >= 10 {
        lemma_decimal_single_line(n / 10);
        let d = digit_char((n % 10) as int);
        assert(d != '\n' && d != '\r');
        assert forall|k: int| 0 <= k < decimal_text(n).len() implies decimal_text(n)[k] != '\n'
            && decimal_text(n)[k] != '\r' by {
            if k < decimal_text(n / 10).len() {
                assert(decimal_text(n)[k] == decimal_text(n / 10)[k]);
            }
        }
    } else {
        let d = digit_char(n as int);
        assert(d != '\n' && d != '\r');
    }
}

/// No line kept: a filter keeps nothing of lines none of which it accepts.
proof fn lemma_filter_none(lines: Seq<Seq<char>>, p: spec_fn(Seq<char>) -> bool)
    requires
        forall|i: int| 0 <= i < lines.len() ==> !p(#[trigger] lines[i]),
    ensures
        lines.filter(p) == Seq::<Seq<char>>::empty(),
    decreases lines.len(),
{
    if lines.len() == 0 {
        assert(lines.filter(p) =~= Seq::<Seq<char>>::empty());
    } else {
        let init = lines.drop_last();
        assert(lines =~= init.push(lines.last()));
        assert forall|i: int| 0 <= i < init.len() implies !p(#[trigger] init[i]) by {
            assert(init[i] == lines[i]);
        }
        lemma_filter_none(init, p);
        init.lemma_filter_push(lines.last(), p);
    }
}

/// No line found: none of the lines has the prefix.
proof fn lemma_no_prefix_line(lines: Seq<Seq<char>>, prefix: Seq<char>)
    requires
        forall|i: int| 0 <= i < lines.len() ==> !has_prefix(#[trigger] lines[i], prefix),
    ensures
        first_with_prefix(lines, prefix) is None,
    decreases lines.len(),
{
    if lines.len() > 0 {
        assert(!has_prefix(lines[0], prefix));
        assert forall|i: int| 0 <= i < lines.drop_first().len() implies !has_prefix(
            #[trigger] lines.drop_first()[i],
            prefix,
        ) by {
            assert(lines.drop_first()[i] == lines[i + 1]);
        }
        lemma_no_prefix_line(lines.drop_first(), prefix);
    }
}

/// A line beginning with a character other than '#' begins neither marker.
proof fn lemma_not_marked(t: Seq<char>)
    requires
        t.len() > 0 ==> t[0] != '#',
    ensures
        !has_prefix(t, heading_marker()),
        !has_prefix(t, spread_marker()),
{
    reveal_strlit("### ");
    reveal_strlit("## Spread:");
    if t.len() >= 4 {
        assert(t.subrange(0, 4)[0] == t[0]);
    }
    if t.len() >= 10 {
        assert(t.subrange(0, 10)[0] == t[0]);
    }
}

/// The heading line of a card block.
pub open spec fn block_heading(number: nat, position: SpreadPosition, drawn: DrawnCard) -> Seq<char> {
    "### "@ + decimal_text(number) + ". "@ + position.name@ + " — "@ + drawn.card.name@
}

/// The heading of a card block is a single line that begins with the heading marker.
proof fn lemma_heading_line(number: nat, position: SpreadPosition, drawn: DrawnCard)
    requires
        block_reads_back(position, drawn),
    ensures
        single_line(block_heading(number, position, drawn)),
        has_prefix(block_heading(number, position, drawn), heading_marker()),
        !has_prefix(block_heading(number, position, drawn), spread_marker()),
{
    reveal_strlit("### ");
    reveal_strlit(". ");
    reveal_strlit(" — ");
    reveal_strlit("## Spread:");
    let heading = block_heading(number, position, drawn);
    let d = decimal_text(number);
    lemma_decimal_single_line(number);
    assert forall|k: int| 0 <= k < heading.len() implies heading[k] != '\n' && heading[k] != '\r' by {
        if k < 4 {
        } else if k < 4 + d.len() {
            assert(heading[k] == d[k - 4]);
        } else if k < 4 + d.len() + 2 {
        } else if k < 4 + d.len() + 2 + position.name@.len() {
            assert(heading[k] == position.name@[k - 4 - d.len() - 2]);
        } else if k < 4 + d.len() + 2 + position.name@.len() + 3 {
        } else {
            assert(heading[k] == drawn.card.name@[k - 4 - d.len() - 2 - position.name@.len() - 3]);
        }
    }
    assert(heading.subrange(0, 4) =~= "### "@);
    assert(heading.len() >= 10 ==> heading.subrange(0, 10)[2] == '#');
}

/// The lines of a card block after its heading: none is a heading or the
/// spread line, and all are single lines.
proof fn lemma_block_body(number: nat, position: SpreadPosition, drawn: DrawnCard)
    requires
        block_reads_back(position, drawn),
    ensures
        all_single(card_block(number, position, drawn).drop_first()),
        forall|i: int|
            0 <= i < card_block(number, position, drawn).drop_first().len() ==> {
                &&& !has_prefix(#[trigger] card_block(number, position, drawn).drop_first()[i], heading_marker())
                &&& !has_prefix(card_block(number, position, drawn).drop_first()[i], spread_marker())
            },
{
    reveal_strlit("**Reversed**");
    reveal_strlit("**Upright**");
    reveal_strlit("Keywords: ");
    let mark: Seq<char> = if drawn.reversed {
        "**Reversed**"@
    } else {
        "**Upright**"@
    };
    let kw = "Keywords: "@ + keywords_text(drawn.card);
    let meaning = (if drawn.reversed {
        drawn.card.reversed
    } else {
        drawn.card.upright
    })@;
    let empty = Seq::<char>::empty();
    let body = card_block(number, position, drawn).drop_first();
    assert(body =~= seq![mark, empty, kw, empty, meaning, empty]);
    assert forall|k: int| 0 <= k < kw.len() implies kw[k] != '\n' && kw[k] != '\r' by {
        if k >= 10 {
            assert(kw[k] == keywords_text(drawn.card)[k - 10]);
        }
    }
    lemma_not_marked(mark);
    lemma_not_marked(empty);
    lemma_not_marked(kw);
    assert forall|i: int| 0 <= i < body.len() implies #[trigger] single_line(body[i]) by {}
}

/// A card block has one heading line and no spread line.
proof fn lemma_block_headings(number: nat, position: SpreadPosition, drawn: DrawnCard)
    requires
        block_reads_back(position, drawn),
    ensures
        all_single(card_block(number, position, drawn)),
        card_block(number, position, drawn).filter(is_heading()).len() == 1,
        forall|i: int|
            0 <= i < card_block(number, position, drawn).len() ==> !has_prefix(
                #[trigger] card_block(number, position, drawn)[i],
                spread_marker(),
            ),
{
    let b = card_block(number, position, drawn);
    let heading = block_heading(number, position, drawn);
    let body = b.drop_first();
    lemma_heading_line(number, position, drawn);
    lemma_block_body(number, position, drawn);
    assert(b =~= seq![heading] + body);
    assert forall|i: int| 0 <= i < b.len() implies #[trigger] single_line(b[i]) by {
        if i > 0 {
            assert(b[i] == body[i - 1]);
        }
    }
    assert forall|i: int| 0 <= i < b.len() implies !has_prefix(#[trigger] b[i], spread_marker()) by {
        if i > 0 {
            assert(b[i] == body[i - 1]);
        }
    }
    let p = is_heading();
    assert forall|i: int| 0 <= i < body.len() implies !p(#[trigger] body[i]) by {}
    lemma_filter_none(body, p);
    lemma_filter_one(heading, p);
    lemma_filter_add(seq![heading], body, p);
}

/// Zero-padded decimal digits are a single line.
proof fn lemma_zero_padded_single_line(n: nat, width: nat)
    ensures
        single_line(zero_padded(n, width)),
{
    lemma_zero_padded_digits(n, width);
    let z = zero_padded(n, width);
    assert forall|k: int| 0 <= k < z.len() implies z[k] != '\n' && z[k] != '\r' by {
        assert('0' <= z[k] && z[k] <= '9');
    }
}

/// Two single lines joined by a character that is neither a newline nor a
/// carriage return make a single line.
proof fn lemma_join_single(a: Seq<char>, c: char, b: Seq<char>)
    requires
        single_line(a),
        single_line(b),
        c != '\n' && c != '\r',
    ensures
        single_line(a + seq![c] + b),
{
    let t = a + seq![c] + b;
    assert forall|k: int| 0 <= k < t.len() implies t[k] != '\n' && t[k] != '\r' by {
        if k < a.len() {
            assert(t[k] == a[k]);
        } else if k == a.len() {
        } else {
            assert(t[k] == b[k - a.len() - 1]);
        }
    }
}

/// The date and time as the documented specifiers write them is a single line.
pub proof fn lemma_documented_single_line(
    year: int,
    month: int,
    day: int,
    hour: int,
    minute: int,
    second: int,
    pattern: Seq<char>,
)
    ensures
        single_line(documented_text(year, month, day, hour, minute, second, pattern)),
{
    lemma_zero_padded_single_line(year as nat, 4);
    lemma_zero_padded_single_line(month as nat, 2);
    lemma_zero_padded_single_line(day as nat, 2);
    lemma_zero_padded_single_line(hour as nat, 2);
    lemma_zero_padded_single_line(minute as nat, 2);
    lemma_zero_padded_single_line(second as nat, 2);
    let y = zero_padded(year as nat, 4);
    let mo = zero_padded(month as nat, 2);
    let d = zero_padded(day as nat, 2);
    let h = zero_padded(hour as nat, 2);
    let mi = zero_padded(minute as nat, 2);
    let se = zero_padded(second as nat, 2);
    lemma_join_single(y, '-', mo);
    lemma_join_single(y + seq!['-'] + mo, '-', d);
    let ymd = y + seq!['-'] + mo + seq!['-'] + d;
    lemma_join_single(ymd, ' ', h);
    lemma_join_single(ymd + seq![' '] + h, ':', mi);
    lemma_join_single(ymd, '-', h);
    lemma_join_single(ymd + seq!['-'] + h, '-', mi);
    lemma_join_single(ymd + seq!['-'] + h + seq!['-'] + mi, '-', se);
}

/// The first `k` card blocks: single lines, `k` headings and no spread line.
proof fn lemma_blocks_headings(drawn: Seq<DrawnCard>, positions: Seq<SpreadPosition>, k: nat)
    requires
        k <= drawn.len(),
        k <= positions.len(),
        forall|j: int| 0 <= j < k ==> #[trigger] block_reads_back(positions[j], drawn[j]),
    ensures
        all_single(card_blocks(drawn, positions, k)),
        card_blocks(drawn, positions, k).filter(is_heading()).len() == k,
        forall|i: int|
            0 <= i < card_blocks(drawn, positions, k).len() ==> !has_prefix(
                #[trigger] card_blocks(drawn, positions, k)[i],
                spread_marker(),
            ),
    decreases k,
{
    let p = is_heading();
    if k == 0 {
        assert(card_blocks(drawn, positions, 0) =~= Seq::<Seq<char>>::empty());
        assert(Seq::<Seq<char>>::empty().filter(p) =~= Seq::<Seq<char>>::empty());
    } else {
        let prev = card_blocks(drawn, positions, (k - 1) as nat);
        let block = card_block(k as nat, positions[k - 1], drawn[k - 1]);
        assert(block_reads_back(positions[k - 1], drawn[k - 1]));
        lemma_blocks_headings(drawn, positions, (k - 1) as nat);
        lemma_block_headings(k as nat, positions[k - 1], drawn[k - 1]);
        let all = card_blocks(drawn, positions, k);
        assert(all == prev + block);
        lemma_filter_add(prev, block, p);
        assert forall|i: int| 0 <= i < all.len() implies #[trigger] single_line(all[i]) by {
            if i < prev.len() {
                assert(all[i] == prev[i]);
            } else {
                assert(all[i] == block[i - prev.len()]);
            }
        }
        assert forall|i: int| 0 <= i < all.len() implies !has_prefix(#[trigger] all[i], spread_marker()) by {
            if i < prev.len() {
                assert(all[i] == prev[i]);
            } else {
                assert(all[i] == block[i - prev.len()]);
            }
        }
    }
}

/// A text without the pattern in it loses nothing when the pattern is removed.
proof fn lemma_remove_absent(t: Seq<char>, pattern: Seq<char>)
    requires
        pattern.len() > 0,
        !is_substring(pattern, t),
    ensures
        remove_all(t, pattern) == t,
    decreases t.len(),
{
    if t.len() > 0 {
        if has_prefix(t, pattern) {
            assert(t.subrange(0int, 0int + pattern.len()) == pattern);
        }
        let rest = t.drop_first();
        assert(!is_substring(pattern, rest)) by {
            if is_substring(pattern, rest) {
                let i = choose|i: int| 0 <= i && i + pattern.len() <= rest.len() && #[trigger] rest.subrange(i, i + pattern.len()) == pattern;
                assert(t.subrange(i + 1, i + 1 + pattern.len()) =~= rest.subrange(i, i + pattern.len()));
            }
        }
        lemma_remove_absent(rest, pattern);
        assert(seq![t[0]] + rest =~= t);
    }
}

/// The spread line read back without its marker and surrounding white space
/// is the spread name.
proof fn lemma_spread_line_name(name: Seq<char>)
    requires
        name_reads_back(name),
    ensures
        trim(remove_all("## Spread: "@ + name, spread_marker())) == name,
{
    reveal_strlit("## Spread: ");
    reveal_strlit("## Spread:");
    let m = spread_marker();
    let t = "## Spread: "@ + name;
    let rest = seq![' '] + name;
    assert(t =~= m + rest);
    assert(has_prefix(t, m)) by {
        assert(t.subrange(0, 10) =~= m);
    }
    assert(t.skip(10) =~= rest);
    assert(!has_prefix(rest, m)) by {
        if rest.len() >= 10 {
            assert(rest.subrange(0, 10)[0] == ' ');
        }
    }
    lemma_remove_absent(name, m);
    assert(rest.drop_first() =~= name);
    assert(remove_all(rest, m) =~= seq![' '] + name);
    assert(is_white_space(' '));
    assert(trim_start(rest) == trim_start(name));
    if name.len() > 0 {
        assert(trim_start(name) == name);
        assert(trim_end(name) == name);
    } else {
        assert(trim_start(name) == name);
    }
}

/// The lines of a saved reading's header: single lines, no card heading, and
/// the spread line third.
proof fn lemma_header(date_text: Seq<char>, name: Seq<char>, notes: Option<Seq<char>>)
    requires
        single_line(date_text),
        name_reads_back(name),
        notes matches Some(n) ==> plain_line(n),
    ensures
        all_single(header_lines(date_text, name, notes)),
        header_lines(date_text, name, notes).filter(is_heading()).len() == 0,
        header_lines(date_text, name, notes).len() >= 3,
        !has_prefix(header_lines(date_text, name, notes)[0], spread_marker()),
        !has_prefix(header_lines(date_text, name, notes)[1], spread_marker()),
        header_lines(date_text, name, notes)[2] == "## Spread: "@ + name,
        has_prefix("## Spread: "@ + name, spread_marker()),
{
    reveal_strlit("# Tarot Reading — ");
    reveal_strlit("## Spread: ");
    reveal_strlit("## Spread:");
    reveal_strlit("## Notes");
    reveal_strlit("### ");
    let h = header_lines(date_text, name, notes);
    let title = "# Tarot Reading — "@ + date_text;
    let spread_line = "## Spread: "@ + name;
    let empty = Seq::<char>::empty();
    assert(h[0] == title);
    assert(h[1] == empty);
    assert(h[2] == spread_line);
    assert(h[3] == empty);
    assert(forall|k: int| 0 <= k < title.len() ==> title[k] != '\n' && title[k] != '\r') by {
        assert forall|k: int| 0 <= k < title.len() implies title[k] != '\n' && title[k] != '\r' by {
            if k >= 18 {
                assert(title[k] == date_text[k - 18]);
            }
        }
    }
    assert(forall|k: int| 0 <= k < spread_line.len() ==> spread_line[k] != '\n' && spread_line[k] != '\r') by {
        assert forall|k: int| 0 <= k < spread_line.len() implies spread_line[k] != '\n' && spread_line[k]
            != '\r' by {
            if k >= 11 {
                assert(spread_line[k] == name[k - 11]);
            }
        }
    }
    assert(has_prefix(spread_line, spread_marker())) by {
        assert(spread_line.subrange(0, 10) =~= "## Spread:"@);
    }
    assert(!has_prefix(spread_line, heading_marker())) by {
        assert(spread_line.subrange(0, 4)[2] == ' ');
    }
    assert(!has_prefix(title, heading_marker())) by {
        assert(title.subrange(0, 4)[1] == ' ');
    }
    assert(!has_prefix(title, spread_marker())) by {
        assert(title.subrange(0, 10)[1] == ' ');
    }
    lemma_not_marked(empty);
    assert("## Notes"@.len() == 8);
    assert(!has_prefix("## Notes"@, heading_marker())) by {
        assert("## Notes"@.subrange(0, 4)[2] == ' ');
    }
    let p = is_heading();
    assert forall|i: int| 0 <= i < h.len() implies #[trigger] single_line(h[i]) && !p(h[i]) by {
        if i >= 4 {
            match notes {
                Some(n) => {
                    assert(h[4] == "## Notes"@);
                    assert(h[5] == n);
                    assert(h[6] == empty);
                },
                None => {},
            }
        }
    }
    lemma_filter_none(h, p);
}

/// Reading back saved lines: the spread line gives the spread name and the
/// headings count the cards shown.
pub proof fn law_saved_reading_reads_back(
    date_text: Seq<char>,
    spread: Spread,
    drawn: Seq<DrawnCard>,
    notes: Option<Seq<char>>,
)
    requires
        reads_back(date_text, spread, drawn, notes),
    ensures
        spread_name_of(
            lines_text(
                header_lines(date_text, spread.name@, notes) + card_blocks(
                    drawn,
                    spread.positions@,
                    shown_count(drawn, spread.positions@),
                ),
            ),
        ) == spread.name@,
        card_count_of(
            lines_text(
                header_lines(date_text, spread.name@, notes) + card_blocks(
                    drawn,
                    spread.positions@,
                    shown_count(drawn, spread.positions@),
                ),
            ),
        ) == shown_count(drawn, spread.positions@),
{
    let n = shown_count(drawn, spread.positions@);
    let h = header_lines(date_text, spread.name@, notes);
    let b = card_blocks(drawn, spread.positions@, n);
    let lines = h + b;
    lemma_header(date_text, spread.name@, notes);
    assert forall|j: int| 0 <= j < n implies #[trigger] block_reads_back(spread.positions@[j], drawn[j]) by {}
    lemma_blocks_headings(drawn, spread.positions@, n);
    assert forall|i: int| 0 <= i < lines.len() implies #[trigger] single_line(lines[i]) by {
        if i < h.len() {
            assert(lines[i] == h[i]);
        } else {
            assert(lines[i] == b[i - h.len()]);
        }
    }
    lemma_split_lines_text(lines);
    lemma_filter_add(h, b, is_heading());
    let m = spread_marker();
    assert(lines[0] == h[0]);
    assert(lines[1] == h[1]);
    assert(lines[2] == h[2]);
    assert(lines.drop_first()[0] == h[1]);
    assert(lines.drop_first().drop_first()[0] == h[2]);
    assert(lines.len() >= 3);
    assert(first_with_prefix(lines.drop_first().drop_first(), m) == Some(h[2]));
    assert(first_with_prefix(lines.drop_first(), m) == Some(h[2]));
    assert(first_with_prefix(lines, m) == Some("## Spread: "@ + spread.name@));
    lemma_spread_line_name(spread.name@);
}


/// The blocks of the first `n` cards are seven lines each, card after card.
proof fn lemma_block_lines(drawn: Seq<DrawnCard>, positions: Seq<SpreadPosition>, n: nat, k: int, j: int)
    requires
        0 <= k < n,
        0 <= j < 7,
        n <= drawn.len(),
        n <= positions.len(),
    ensures
        card_blocks(drawn, positions, n).len() == 7 * n,
        card_blocks(drawn, positions, n)[7 * k + j] == card_block((k + 1) as nat, positions[k], drawn[k])[j],
    decreases n,
{
    lemma_blocks_len(drawn, positions, n);
    if k < n - 1 {
        lemma_block_lines(drawn, positions, (n - 1) as nat, k, j);
        lemma_blocks_len(drawn, positions, (n - 1) as nat);
    } else {
        lemma_blocks_len(drawn, positions, (n - 1) as nat);
    }
}

/// The blocks of `n` cards are `7 * n` lines.
proof fn lemma_blocks_len(drawn: Seq<DrawnCard>, positions: Seq<SpreadPosition>, n: nat)
    ensures
        card_blocks(drawn, positions, n).len() == 7 * n,
    decreases n,
{
    if n > 0 {
        lemma_blocks_len(drawn, positions, (n - 1) as nat);
    }
}

/// In a saved reading each card's heading line is followed by its
/// orientation: "**Reversed**" exactly when the card was drawn reversed,
/// "**Upright**" exactly when it was drawn upright.
pub proof fn law_saved_orientation_reads_back(
    spread: Spread,
    drawn: Seq<DrawnCard>,
    timestamp: Timestamp,
    notes: Option<Seq<char>>,
    k: int,
)
    requires
        0 <= k < shown_count(drawn, spread.positions@),
    ensures
        ({
            let lines = markdown_lines(spread, drawn, timestamp, notes);
            let h = header_lines(reading_date_text(timestamp), spread.name@, notes).len() + 7 * k;
            &&& lines[h] == "### "@ + decimal_text((k + 1) as nat) + ". "@ + spread.positions@[k].name@ + " — "@
                + drawn[k].card.name@
            &&& (lines[h + 1] == "**Reversed**"@) == drawn[k].reversed
            &&& (lines[h + 1] == "**Upright**"@) == !drawn[k].reversed
        }),
{
    reveal_strlit("**Reversed**");
    reveal_strlit("**Upright**");
    let n = shown_count(drawn, spread.positions@);
    let head = header_lines(reading_date_text(timestamp), spread.name@, notes);
    let blocks = card_blocks(drawn, spread.positions@, n);
    lemma_block_lines(drawn, spread.positions@, n, k, 0);
    lemma_block_lines(drawn, spread.positions@, n, k, 1);
    let lines = markdown_lines(spread, drawn, timestamp, notes);
    assert(lines == head + blocks);
    assert(lines[head.len() + 7 * k] == blocks[7 * k]);
    assert(lines[head.len() + 7 * k + 1] == blocks[7 * k + 1]);
    assert("**Reversed**"@.len() != "**Upright**"@.len());
}

} // verus!
