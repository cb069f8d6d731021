//! A completed reading and its markdown form.

use vstd::prelude::*;

use crate::cards::{keywords_text, DrawnCard, SpreadPosition};
use crate::journal::{card_count_of, spread_name_of};
use crate::spreads::readback::{law_saved_reading_reads_back, lemma_documented_single_line, texts_read_back};
use crate::spreads::Spread;
use crate::text::{decimal_string, decimal_text};
use crate::timestamp::{chrono_text, local_now, minute_pattern, Timestamp};

verus! {

/// Text made of lines, each followed by a newline.
pub open spec fn lines_text(lines: Seq<Seq<char>>) -> Seq<char>
    decreases lines.len(),
{
    if lines.len() == 0 {
        Seq::empty()
    } else {
        lines_text(lines.drop_last()) + lines.last() + seq!['\n']
    }
}

/// Text of consecutive blocks of lines is the text of each block in turn.
pub proof fn lemma_lines_text_concat(a: Seq<Seq<char>>, b: Seq<Seq<char>>)
    ensures
        lines_text(a + b) == lines_text(a) + lines_text(b),
    decreases b.len(),
{
    if b.len() == 0 {
        assert(a + b =~= a);
        assert(lines_text(b) =~= Seq::<char>::empty());
        assert(lines_text(a) + lines_text(b) =~= lines_text(a));
    } else {
        lemma_lines_text_concat(a, b.drop_last());
        assert((a + b).drop_last() =~= a + b.drop_last());
        assert((a + b).last() == b.last());
        assert(lines_text(a) + lines_text(b) =~= (lines_text(a) + lines_text(b.drop_last())) + b.last()
            + seq!['\n']);
    }
}

/// The lines a drawn card writes under a position in the journal's markdown.
pub open spec fn card_block(number: nat, position: SpreadPosition, drawn: DrawnCard) -> Seq<Seq<char>> {
    seq![
        "### "@ + decimal_text(number) + ". "@ + position.name@ + " — "@ + drawn.card.name@,
        if drawn.reversed {
            "**Reversed**"@
        } else {
            "**Upright**"@
        },
        Seq::empty(),
        "Keywords: "@ + keywords_text(drawn.card),
        Seq::empty(),
        (if drawn.reversed {
            drawn.card.reversed
        } else {
            drawn.card.upright
        })@,
        Seq::empty(),
    ]
}

/// The blocks of the first `k` cards matched with their positions.
pub open spec fn card_blocks(drawn: Seq<DrawnCard>, positions: Seq<SpreadPosition>, k: nat) -> Seq<
    Seq<char>,
>
    decreases k,
{
    if k == 0 {
        Seq::empty()
    } else {
        card_blocks(drawn, positions, (k - 1) as nat) + card_block(
            k as nat,
            positions[k - 1],
            drawn[k - 1],
        )
    }
}

/// The number of cards a reading shows: drawn cards matched with positions.
pub open spec fn shown_count(drawn: Seq<DrawnCard>, positions: Seq<SpreadPosition>) -> nat {
    if drawn.len() <= positions.len() {
        drawn.len()
    } else {
        positions.len()
    }
}

/// A completed reading with drawn cards matched to positions
#[derive(Debug, Clone)]
pub struct Reading {
    pub spread: Spread,
    pub drawn: Vec<DrawnCard>,
    pub timestamp: Timestamp,
    pub notes: Option<String>,
}

/// The header lines of a reading: title with date, spread name, and notes if any.
pub open spec fn header_lines(date_text: Seq<char>, spread_name: Seq<char>, notes: Option<Seq<char>>) -> Seq<
    Seq<char>,
> {
    seq!["# Tarot Reading — "@ + date_text, Seq::empty(), "## Spread: "@ + spread_name, Seq::empty()]
        + match notes {
        Some(n) => seq!["## Notes"@, n, Seq::empty()],
        None => Seq::empty(),
    }
}

/// The date text of a reading's title.
pub open spec fn reading_date_text(t: Timestamp) -> Seq<char> {
    chrono_text(
        t.date.year as int,
        t.date.month as int,
        t.date.day as int,
        t.hour as int,
        t.minute as int,
        t.second as int,
        minute_pattern(),
    )
}

/// The optional notes of a reading, as text.
pub open spec fn notes_view(notes: Option<String>) -> Option<Seq<char>> {
    match notes {
        Some(n) => Some(n@),
        None => None,
    }
}

/// All lines of the markdown for a reading.
pub open spec fn markdown_lines(
    spread: Spread,
    drawn: Seq<DrawnCard>,
    timestamp: Timestamp,
    notes: Option<Seq<char>>,
) -> Seq<Seq<char>> {
    header_lines(reading_date_text(timestamp), spread.name@, notes) + card_blocks(
        drawn,
        spread.positions@,
        shown_count(drawn, spread.positions@),
    )
}

/// Adding one line to lined text.
pub proof fn lemma_lines_text_push(lines: Seq<Seq<char>>, line: Seq<char>)
    ensures
        lines_text(lines.push(line)) == lines_text(lines) + line + seq!['\n'],
{
    assert(lines.push(line).drop_last() =~= lines);
}

fn push_line(out: &mut String, line: &str, Ghost(lines): Ghost<Seq<Seq<char>>>)
    requires
        old(out)@ == lines_text(lines),
    ensures
        final(out)@ == lines_text(lines.push(line@)),
{
    proof {
        reveal_strlit("\n");
        lemma_lines_text_push(lines, line@);
    }
    out.append(line);
    out.append("\n");
}

fn push_card_block(
    output: &mut String,
    number: usize,
    position: &SpreadPosition,
    card: &DrawnCard,
    Ghost(lines): Ghost<Seq<Seq<char>>>,
)
    requires
        old(output)@ == lines_text(lines),
    ensures
        final(output)@ == lines_text(lines + card_block(number as nat, *position, *card)),
{
    proof {
        reveal_strlit("");
        assert(""@ =~= Seq::<char>::empty());
    }
    let ghost mut lines = lines;
    let ghost start = lines;
    let mut heading = String::new();
    heading.append("### ");
    let digits = decimal_string(number);
    heading.append(digits.as_str());
    heading.append(". ");
    heading.append(position.name);
    heading.append(" — ");
    heading.append(card.card.name);
    assert(heading@ =~= "### "@ + decimal_text(number as nat) + ". "@ + position.name@ + " — "@
        + card.card.name@);
    push_line(output, heading.as_str(), Ghost(lines));
    proof { lines = lines.push(heading@); }
    if card.reversed {
        push_line(output, "**Reversed**", Ghost(lines));
        proof { lines = lines.push("**Reversed**"@); }
    } else {
        push_line(output, "**Upright**", Ghost(lines));
        proof { lines = lines.push("**Upright**"@); }
    }
    push_line(output, "", Ghost(lines));
    proof { lines = lines.push(""@); }
    let keywords = card.keywords();
    let mut keyword_line = String::new();
    keyword_line.append("Keywords: ");
    keyword_line.append(keywords.as_str());
    assert(keyword_line@ =~= "Keywords: "@ + keywords_text(card.card));
    push_line(output, keyword_line.as_str(), Ghost(lines));
    proof { lines = lines.push(keyword_line@); }
    push_line(output, "", Ghost(lines));
    proof { lines = lines.push(""@); }
    let meaning = card.meaning();
    push_line(output, meaning, Ghost(lines));
    proof { lines = lines.push(meaning@); }
    push_line(output, "", Ghost(lines));
    proof {
        lines = lines.push(""@);
        assert(lines =~= start + card_block(number as nat, *position, *card));
    }
}

impl Reading {
    /// Create a new reading from a spread and drawn cards, stamped with the current local time
    pub fn new(spread: Spread, drawn: Vec<DrawnCard>) -> (r: Reading)
        ensures
            r.spread == spread,
            r.drawn@ == drawn@,
            r.timestamp.is_valid(),
            r.notes is None,
    {
        Reading { spread, drawn, timestamp: local_now(), notes: None }
    }

    /// Get the number of cards in this reading
    pub fn card_count(&self) -> (n: usize)
        ensures
            n == self.drawn@.len(),
    {
        self.drawn.len()
    }

    /// Get a specific card and its position
    pub fn get_card_at(&self, index: usize) -> (r: Option<(&DrawnCard, &'static SpreadPosition)>)
        ensures
            r is Some <==> index < self.drawn@.len() && index < self.spread.positions@.len(),
            r matches Some(pair) ==> *pair.0 == self.drawn@[index as int] && *pair.1
                == self.spread.positions@[index as int],
    {
        if index < self.drawn.len() && index < self.spread.positions.len() {
            Some((&self.drawn[index], &self.spread.positions[index]))
        } else {
            None
        }
    }

    /// Format the reading as markdown for journaling
    pub fn to_markdown(&self) -> (r: String)
        requires
            self.timestamp.is_valid(),
        ensures
            r@ == lines_text(
                markdown_lines(self.spread, self.drawn@, self.timestamp, notes_view(self.notes)),
            ),
            (0 <= self.timestamp.date.year <= 9999 && texts_read_back(
                self.spread,
                self.drawn@,
                notes_view(self.notes),
            )) ==> {
                &&& spread_name_of(r@) == self.spread.name@
                &&& card_count_of(r@) == shown_count(self.drawn@, self.spread.positions@)
            },
    {
        proof {
            reveal_strlit("# Tarot Reading — ");
            reveal_strlit("");
            assert(""@ =~= Seq::<char>::empty());
        }
        let mut output = String::new();
        let ghost mut lines: Seq<Seq<char>> = Seq::empty();
        let date = self.timestamp.minute_text();
        let mut title = String::new();
        title.append("# Tarot Reading — ");
        title.append(date.as_str());
        assert(title@ =~= "# Tarot Reading — "@ + reading_date_text(self.timestamp));
        push_line(&mut output, title.as_str(), Ghost(lines));
        proof { lines = lines.push(title@); }
        push_line(&mut output, "", Ghost(lines));
        proof { lines = lines.push(""@); }
        let mut spread_line = String::new();
        spread_line.append("## Spread: ");
        spread_line.append(self.spread.name);
        assert(spread_line@ =~= "## Spread: "@ + self.spread.name@);
        push_line(&mut output, spread_line.as_str(), Ghost(lines));
        proof { lines = lines.push(spread_line@); }
        push_line(&mut output, "", Ghost(lines));
        proof { lines = lines.push(""@); }
        match &self.notes {
            Some(notes) => {
                push_line(&mut output, "## Notes", Ghost(lines));
                proof { lines = lines.push("## Notes"@); }
                push_line(&mut output, notes.as_str(), Ghost(lines));
                proof { lines = lines.push(notes@); }
                push_line(&mut output, "", Ghost(lines));
                proof { lines = lines.push(""@); }
            },
            None => {},
        }
        proof {
            assert(lines =~= header_lines(reading_date_text(self.timestamp), self.spread.name@, notes_view(self.notes)));
        }
        let n = if self.drawn.len() <= self.spread.positions.len() {
            self.drawn.len()
        } else {
            self.spread.positions.len()
        };
        let ghost header = lines;
        let mut i: usize = 0;
        while i < n
            invariant
                i <= n,
                n == shown_count(self.drawn@, self.spread.positions@),
                n <= self.drawn@.len(),
                n <= self.spread.positions@.len(),
                lines == header + card_blocks(self.drawn@, self.spread.positions@, i as nat),
                output@ == lines_text(lines),
            decreases n - i,
        {
            let ghost before = lines;
            push_card_block(&mut output, i + 1, &self.spread.positions[i], &self.drawn[i], Ghost(lines));
            proof {
                let block = card_block((i + 1) as nat, self.spread.positions@[i as int], self.drawn@[i as int]);
                lines = before + block;
                assert(card_blocks(self.drawn@, self.spread.positions@, (i + 1) as nat)
                    == card_blocks(self.drawn@, self.spread.positions@, i as nat) + block);
                assert(header + card_blocks(self.drawn@, self.spread.positions@, (i + 1) as nat)
                    =~= before + block);
            }
            i = i + 1;
        }
        proof {
            if 0 <= self.timestamp.date.year <= 9999 && texts_read_back(
                self.spread,
                self.drawn@,
                notes_view(self.notes),
            ) {
                lemma_documented_single_line(
                    self.timestamp.date.year as int,
                    self.timestamp.date.month as int,
                    self.timestamp.date.day as int,
                    self.timestamp.hour as int,
                    self.timestamp.minute as int,
                    self.timestamp.second as int,
                    minute_pattern(),
                );
                law_saved_reading_reads_back(
                    reading_date_text(self.timestamp),
                    self.spread,
                    self.drawn@,
                    notes_view(self.notes),
                );
            }
        }
        output
    }
}

} // verus!
