//! Journal system for saving and loading readings: file names, the parts of
//! a saved reading that the journal reads back, and the order of entries.
//! Reading and writing the files is the application's part.

use vstd::prelude::*;

use crate::lines::{
    first_with_prefix, lemma_first_with_prefix_push, lemma_split_lines_step, remove_all,
    remove_all_chars, split_lines, strip_cr, trim, trim_chars,
};
use crate::spreads::reading::Reading;
use crate::text::{
    all_ascii, ascii_lower, chars_of, has_prefix, lowercase_chars, push_char, starts_with_chars, lowercase,
    string_of,
};
use crate::cli::commands::{ascii_text, lemma_ascii_bytes};
use crate::cli::{byte_len, lemma_encode_concat};
use crate::timestamp::{
    chrono_text, file_fields_text, file_pattern, lemma_file_fields_text, local_now, local_time_at,
    minute_pattern, parse_date_time, parsed_date_time, valid_fields, wall_clock, DateTimeFields,
    Timestamp,
};
use vstd::utf8::{decode_utf8, encode_utf8, is_char_boundary};

verus! {

/// The prefix of the line that names the spread of a saved reading.
pub open spec fn spread_marker() -> Seq<char> {
    "## Spread:"@
}

/// The prefix of each card heading in a saved reading.
pub open spec fn heading_marker() -> Seq<char> {
    "### "@
}

/// Lines that are card headings.
pub open spec fn is_heading() -> spec_fn(Seq<char>) -> bool {
    |line: Seq<char>| has_prefix(line, heading_marker())
}

/// The spread name the journal reads from a saved reading: the first line
/// that begins with the spread marker, without the marker and surrounding
/// white space; "Unknown Spread" when no line has it.
pub open spec fn spread_name_of(content: Seq<char>) -> Seq<char> {
    match first_with_prefix(split_lines(content), spread_marker()) {
        Some(line) => trim(remove_all(line, spread_marker())),
        None => "Unknown Spread"@,
    }
}

/// The number of cards the journal counts in a saved reading: its lines that
/// begin with the heading marker.
pub open spec fn card_count_of(content: Seq<char>) -> nat {
    split_lines(content).filter(is_heading()).len()
}

/// Read the spread name and the number of cards from a saved reading's text
pub fn parse_entry_content(content: &str) -> (r: (String, usize))
    ensures
        r.0@ == spread_name_of(content@),
        r.1 == card_count_of(content@),
{
    proof {
        reveal_strlit("## Spread:");
        reveal_strlit("### ");
    }
    let chars = chars_of(content);
    let spread_marker_chars = chars_of("## Spread:");
    let heading_chars = chars_of("### ");
    let len = chars.len();
    let mut spread_line: Option<Vec<char>> = None;
    let mut count: usize = 0;
    let mut start: usize = 0;
    let ghost mut done: Seq<Seq<char>> = Seq::empty();
    assert(chars@.skip(0) =~= chars@);
    while start < len
        invariant
            len == chars@.len(),
            chars@ == content@,
            spread_marker_chars@ == spread_marker(),
            heading_chars@ == heading_marker(),
            start <= len,
            split_lines(chars@) == done + split_lines(chars@.skip(start as int)),
            count == done.filter(is_heading()).len(),
            count <= start,
            match spread_line {
                Some(l) => first_with_prefix(done, spread_marker()) == Some(l@),
                None => first_with_prefix(done, spread_marker()) is None,
            },
        decreases len - start,
    {
        let ghost rest = chars@.skip(start as int);
        let mut e: usize = start;
        while e < len && chars[e] != '\n'
            invariant
                start <= e <= len,
                len == chars@.len(),
                forall|k: int| start <= k < e ==> chars@[k] != '\n',
            decreases len - e,
        {
            e = e + 1;
        }
        let mut line: Vec<char> = Vec::new();
        let mut k: usize = start;
        while k < e
            invariant
                start <= k <= e <= len,
                len == chars@.len(),
                line@ == chars@.subrange(start as int, k as int),
            decreases e - k,
        {
            line.push(chars[k]);
            k = k + 1;
            assert(line@ =~= chars@.subrange(start as int, k as int));
        }
        proof {
            assert forall|j: int| 0 <= j < e - start implies rest[j] != '\n' by {
                assert(rest[j] == chars@[start + j]);
            }
            if e < len {
                assert(rest[e - start] == chars@[e as int]);
            }
            lemma_split_lines_step(rest, e - start);
            assert(rest.take(e - start) =~= line@);
        }
        if e < len {
            let n = line.len();
            if n > 0 && line[n - 1] == '\r' {
                line.pop();
            }
            proof {
                assert(line@ == strip_cr(rest.take(e - start)));
                assert(rest.skip(e - start + 1) =~= chars@.skip(e + 1));
            }
            start = e + 1;
        } else {
            proof {
                assert(rest =~= line@);
                assert(chars@.skip(len as int) =~= Seq::<char>::empty());
            }
            start = len;
        }
        proof {
            lemma_first_with_prefix_push(done, line@, spread_marker());
            done.lemma_filter_push(line@, is_heading());
            assert(done.push(line@) + split_lines(chars@.skip(start as int)) =~= done + split_lines(
                rest,
            ));
            done = done.push(line@);
        }
        if starts_with_chars(&line, &heading_chars) {
            count = count + 1;
        }
        let take_it = match spread_line {
            Some(_) => false,
            None => starts_with_chars(&line, &spread_marker_chars),
        };
        if take_it {
            spread_line = Some(line);
        }
    }
    proof {
        assert(chars@.skip(len as int) =~= Seq::<char>::empty());
        assert(done + Seq::<Seq<char>>::empty() =~= done);
    }
    let name = match spread_line {
        Some(line) => {
            let removed = remove_all_chars(&line, &spread_marker_chars);
            string_of(&trim_chars(&removed))
        },
        None => {
            let mut unknown = String::new();
            unknown.append("Unknown Spread");
            unknown
        },
    };
    (name, count)
}

/// The characters `sanitize_filename` replaces with a dash.
pub open spec fn is_forbidden_in_file_name(c: char) -> bool {
    c == ' ' || c == '/' || c == '\\' || c == ':' || c == '*' || c == '?' || c == '"' || c == '<'
        || c == '>' || c == '|'
}

/// A name made safe for a file name: lowercased, each forbidden character a dash.
pub open spec fn sanitized(name: Seq<char>) -> Seq<char> {
    lowercase(name).map_values(|c: char| if is_forbidden_in_file_name(c) { '-' } else { c })
}

/// A sanitized name holds none of the characters file names cannot hold, and
/// keeps the length of the lowercased name.
pub proof fn law_sanitized_name_is_safe(name: Seq<char>)
    ensures
        sanitized(name).len() == lowercase(name).len(),
        forall|k: int| 0 <= k < sanitized(name).len() ==> !is_forbidden_in_file_name(#[trigger] sanitized(name)[k]),
{
}

/// The lowercase of an ASCII character is ASCII and no capital letter.
proof fn lemma_ascii_lower(c: char)
    requires
        (c as u32) < 128,
    ensures
        (ascii_lower(c) as u32) < 128,
        !('A' <= ascii_lower(c) && ascii_lower(c) <= 'Z'),
{
    if 'A' <= c && c <= 'Z' {
        let d = ((c as u32) + 32) as char;
        assert((d as u32) == (c as u32) + 32);
    }
}

/// Sanitizing a name a second time changes nothing whenever lowercasing the
/// sanitized name leaves it as it is (as it does for every ASCII name; for
/// other names that rests on std's Unicode lowercasing).
pub proof fn law_sanitize_twice_when_lowercase_is_stable(name: Seq<char>)
    requires
        lowercase(sanitized(name)) == sanitized(name),
    ensures
        sanitized(sanitized(name)) == sanitized(name),
{
    law_sanitized_name_is_safe(name);
    assert(sanitized(sanitized(name)) =~= sanitized(name));
}

/// Sanitizing an ASCII name a second time changes nothing.
pub proof fn law_sanitize_twice_changes_nothing(name: Seq<char>)
    requires
        all_ascii(name),
    ensures
        sanitized(sanitized(name)) == sanitized(name),
{
    let once = sanitized(name);
    assert forall|k: int| 0 <= k < once.len() implies (#[trigger] once[k] as u32) < 128
        && !('A' <= once[k] && once[k] <= 'Z') by {
        lemma_ascii_lower(name[k]);
    }
    assert(all_ascii(once));
    assert(lowercase(once) =~= once);
    law_sanitized_name_is_safe(name);
    assert(sanitized(once) =~= once);
}

/// Sanitize a string for use in a filename
pub fn sanitize_filename(name: &str) -> (r: String)
    ensures
        r@ == sanitized(name@),
{
    let lower = lowercase_chars(name);
    let mut r = String::new();
    let mut i: usize = 0;
    while i < lower.len()
        invariant
            i <= lower@.len(),
            lower@ == lowercase(name@),
            r@ == sanitized(name@).take(i as int),
        decreases lower@.len() - i,
    {
        let c = lower[i];
        let forbidden = c == ' ' || c == '/' || c == '\\' || c == ':' || c == '*' || c == '?' || c
            == '"' || c == '<' || c == '>' || c == '|';
        if forbidden {
            push_char(&mut r, '-');
        } else {
            push_char(&mut r, c);
        }
        i = i + 1;
        assert(r@ =~= sanitized(name@).take(i as int));
    }
    assert(sanitized(name@).take(lower@.len() as int) =~= sanitized(name@));
    r
}

/// The file name of a saved reading: its timestamp to the second, a dash,
/// the sanitized spread name, and ".md".
pub open spec fn reading_file_name_text(timestamp: Timestamp, spread_name: Seq<char>) -> Seq<char> {
    chrono_text(
        timestamp.date.year as int,
        timestamp.date.month as int,
        timestamp.date.day as int,
        timestamp.hour as int,
        timestamp.minute as int,
        timestamp.second as int,
        file_pattern(),
    ) + "-"@ + sanitized(spread_name) + ".md"@
}

/// The file name a reading is saved under, for the years 0 to 9999 where
/// the date and time are written as the documented specifiers write them.
pub open spec fn documented_file_name(timestamp: Timestamp, spread_name: Seq<char>) -> Seq<char> {
    file_fields_text(wall_clock(timestamp)) + "-"@ + sanitized(spread_name) + ".md"@
}

/// The file name a reading is saved under
pub fn reading_file_name(reading: &Reading) -> (r: String)
    requires
        reading.timestamp.is_valid(),
    ensures
        r@ == reading_file_name_text(reading.timestamp, reading.spread.name@),
        0 <= reading.timestamp.date.year <= 9999 ==> r@ == documented_file_name(
            reading.timestamp,
            reading.spread.name@,
        ),
{
    let mut r = reading.timestamp.file_text();
    r.append("-");
    let name = sanitize_filename(reading.spread.name);
    r.append(name.as_str());
    r.append(".md");
    r
}

/// The file name of the entry with the given id
pub fn entry_file_name(id: &str) -> (r: String)
    ensures
        r@ == id@ + ".md"@,
{
    let mut r = String::new();
    r.append(id);
    r.append(".md");
    r
}

/// The id of a journal entry whose file has this name: the name without
/// ".md", for names with the "md" extension (a dot that is not the first
/// character, followed by "md").
pub open spec fn entry_id_text(file_name: Seq<char>) -> Option<Seq<char>> {
    if file_name.len() > 3 && file_name.skip(file_name.len() - 3) == ".md"@ {
        Some(file_name.take(file_name.len() - 3))
    } else {
        None
    }
}

/// A reading saved in the years 0 to 9999 is listed again with the time it
/// was saved at: its file is a journal entry whose id starts with that time
/// as saving writes it, which `id_timestamp` reads back.
pub proof fn law_saved_file_keeps_its_time(timestamp: Timestamp, spread_name: Seq<char>)
    requires
        timestamp.is_valid(),
        0 <= timestamp.date.year <= 9999,
    ensures
        entry_id_text(documented_file_name(timestamp, spread_name)) matches Some(id) && has_prefix(
            id,
            file_fields_text(wall_clock(timestamp)),
        ),
{
    reveal_strlit(".md");
    reveal_strlit("-");
    let head = file_fields_text(wall_clock(timestamp));
    let id = head + "-"@ + sanitized(spread_name);
    let name = documented_file_name(timestamp, spread_name);
    assert(name == id + ".md"@);
    assert(name.skip(name.len() - 3) =~= ".md"@);
    assert(name.take(name.len() - 3) =~= id);
    assert(id.subrange(0, head.len() as int) =~= head);
}

/// The date and time a journal entry's id starts with: its first 19 bytes
/// read with the file pattern; none for a shorter id.
pub open spec fn id_date_time(id: Seq<char>) -> Option<DateTimeFields> {
    if byte_len(id) >= 19 {
        parsed_date_time(decode_utf8(encode_utf8(id).take(19)), file_pattern())
    } else {
        None
    }
}

/// A text that starts with an ASCII prefix has the prefix's characters as
/// its first bytes.
proof fn lemma_ascii_head(t: Seq<char>, p: Seq<char>)
    requires
        has_prefix(t, p),
        ascii_text(p),
    ensures
        byte_len(t) >= p.len(),
        decode_utf8(encode_utf8(t).take(p.len() as int)) == p,
{
    let rest = t.skip(p.len() as int);
    assert(t =~= p + rest);
    lemma_encode_concat(p, rest);
    lemma_ascii_bytes(p);
    assert(encode_utf8(t).take(p.len() as int) =~= encode_utf8(p));
    vstd::utf8::encode_utf8_decode_utf8(p);
}

/// An id that starts with a valid date and time of the years 0 to 9999,
/// written with the file pattern, gives back that date and time.
proof fn lemma_id_starts_with(id: Seq<char>, f: DateTimeFields)
    requires
        valid_fields(f),
        0 <= f.0 <= 9999,
        has_prefix(id, file_fields_text(f)),
    ensures
        byte_len(id) >= 19,
        decode_utf8(encode_utf8(id).take(19)) == file_fields_text(f),
{
    lemma_file_fields_text(f);
    lemma_ascii_head(id, file_fields_text(f));
}

/// The local time a journal entry's id starts with. An id without a date and
/// time gives none; so may one whose wall-clock time the local time zone
/// skips or repeats. An id that starts with a date and time as saving writes
/// it (for the years 0 to 9999) is read as that date and time. Cutting the id
/// needs a character boundary after its 19th byte.
pub fn id_timestamp(id: &str) -> (r: Option<Timestamp>)
    requires
        byte_len(id@) <= usize::MAX,
        byte_len(id@) >= 19 ==> is_char_boundary(encode_utf8(id@), 19),
    ensures
        id_date_time(id@) is None ==> r is None,
        r matches Some(t) ==> t.is_valid() && id_date_time(id@) == Some(wall_clock(t)),
        forall|f: DateTimeFields|
            valid_fields(f) && 0 <= f.0 <= 9999 && #[trigger] has_prefix(id@, file_fields_text(f))
                ==> id_date_time(id@) == Some(f),
{
    if id.len() < 19 {
        proof {
            assert forall|f: DateTimeFields|
                valid_fields(f) && 0 <= f.0 <= 9999 && #[trigger] has_prefix(id@, file_fields_text(f))
                implies id_date_time(id@) == Some(f) by {
                lemma_id_starts_with(id@, f);
            }
        }
        return None;
    }
    let (head, _rest) = id.split_at(19);
    proof {
        vstd::utf8::encode_utf8_decode_utf8(head@);
        assert(encode_utf8(head@) =~= encode_utf8(id@).take(19));
        reveal_strlit("%Y-%m-%d-%H-%M-%S");
    }
    let parsed = parse_date_time(head, "%Y-%m-%d-%H-%M-%S");
    proof {
        assert forall|f: DateTimeFields|
            valid_fields(f) && 0 <= f.0 <= 9999 && #[trigger] has_prefix(id@, file_fields_text(f))
            implies id_date_time(id@) == Some(f) by {
            lemma_id_starts_with(id@, f);
        }
    }
    match parsed {
        Some(f) => local_time_at(f),
        None => None,
    }
}

/// The entry id for a file name of the journal directory, if it is a saved reading
pub fn entry_id_of(file_name: &str) -> (r: Option<String>)
    ensures
        match entry_id_text(file_name@) {
            Some(id) => r matches Some(s) && s@ == id,
            None => r is None,
        },
{
    proof {
        reveal_strlit(".md");
    }
    let chars = chars_of(file_name);
    let n = chars.len();
    if n > 3 && chars[n - 3] == '.' && chars[n - 2] == 'm' && chars[n - 1] == 'd' {
        assert(chars@.skip(n - 3) =~= ".md"@);
        let mut stem: Vec<char> = Vec::new();
        let mut k: usize = 0;
        while k < n - 3
            invariant
                k <= n - 3,
                n == chars@.len(),
                n > 3,
                stem@ == chars@.take(k as int),
            decreases n - 3 - k,
        {
            stem.push(chars[k]);
            k = k + 1;
            assert(stem@ =~= chars@.take(k as int));
        }
        Some(string_of(&stem))
    } else {
        proof {
            if n > 3 && chars@.skip(n - 3) == ".md"@ {
                assert(chars@.skip(n - 3)[0] == chars@[n - 3]);
                assert(chars@.skip(n - 3)[1] == chars@[n - 2]);
                assert(chars@.skip(n - 3)[2] == chars@[n - 1]);
            }
        }
        None
    }
}

/// Journal entry metadata
#[derive(Debug, Clone)]
pub struct JournalEntry {
    pub id: String,
    pub timestamp: Timestamp,
    pub spread_name: String,
    pub card_count: usize,
}

impl JournalEntry {
    /// Format the timestamp for display
    pub fn formatted_date(&self) -> (r: String)
        requires
            self.timestamp.is_valid(),
        ensures
            r@ == chrono_text(
                self.timestamp.date.year as int,
                self.timestamp.date.month as int,
                self.timestamp.date.day as int,
                self.timestamp.hour as int,
                self.timestamp.minute as int,
                self.timestamp.second as int,
                minute_pattern(),
            ),
    {
        self.timestamp.minute_text()
    }
}

/// The instant an entry is ordered by, in nanoseconds since the Unix epoch.
pub open spec fn entry_key(e: JournalEntry) -> int {
    e.timestamp.unix_seconds * 1_000_000_000 + e.timestamp.nanosecond
}

/// The instant an entry is ordered by
fn instant_of(e: &JournalEntry) -> (k: i128)
    ensures
        k == entry_key(*e),
{
    (e.timestamp.unix_seconds as i128) * 1_000_000_000 + (e.timestamp.nanosecond as i128)
}

/// The entries stamped with the instant `k`.
pub open spec fn key_is(k: int) -> spec_fn(JournalEntry) -> bool {
    |e: JournalEntry| entry_key(e) == k
}

/// Newest first: no entry is older than one after it.
pub open spec fn newest_first(s: Seq<JournalEntry>) -> bool {
    forall|i: int, j: int| 0 <= i < j < s.len() ==> entry_key(s[i]) >= entry_key(s[j])
}

/// Inserting an entry after every entry at least as new keeps the entries of
/// each instant in order, the new one last among its own instant.
proof fn lemma_insert_keeps_groups(s: Seq<JournalEntry>, p: int, x: JournalEntry, k: int)
    requires
        0 <= p <= s.len(),
        newest_first(s),
        forall|j: int| 0 <= j < p ==> entry_key(s[j]) >= entry_key(x),
        forall|j: int| p <= j < s.len() ==> entry_key(s[j]) < entry_key(x),
    ensures
        s.insert(p, x).filter(key_is(k)) == if entry_key(x) == k {
            s.filter(key_is(k)).push(x)
        } else {
            s.filter(key_is(k))
        },
{
    let a = s.take(p);
    let b = s.skip(p);
    assert(s =~= a + b);
    assert(s.insert(p, x) =~= a.push(x) + b);
    Seq::filter_distributes_over_add(a, b, key_is(k));
    Seq::filter_distributes_over_add(a.push(x), b, key_is(k));
    a.lemma_filter_push(x, key_is(k));
    if entry_key(x) == k {
        assert forall|j: int| 0 <= j < b.len() implies !key_is(k)(b[j]) by {
            assert(b[j] == s[p + j]);
        }
        b.lemma_all_neg_filter_empty(key_is(k));
        assert(b.filter(key_is(k)) =~= Seq::<JournalEntry>::empty());
        assert(a.filter(key_is(k)) + Seq::<JournalEntry>::empty() =~= a.filter(key_is(k)));
        assert(a.filter(key_is(k)).push(x) + Seq::<JournalEntry>::empty() =~= a.filter(key_is(k)).push(x));
    }
}

/// Sort entries newest first, keeping entries of the same instant in their
/// original order (a stable sort by timestamp, newest first)
pub fn sort_newest_first(entries: &mut Vec<JournalEntry>)
    ensures
        final(entries)@.len() == old(entries)@.len(),
        newest_first(final(entries)@),
        forall|k: int| #[trigger] final(entries)@.filter(key_is(k)) == old(entries)@.filter(key_is(k)),
{
    let ghost original = entries@;
    let mut sorted: Vec<JournalEntry> = Vec::new();
    let mut remaining: Vec<JournalEntry> = Vec::new();
    std::mem::swap(&mut remaining, entries);
    let n = remaining.len();
    assert(original.skip(0) =~= original);
    let mut i: usize = 0;
    while i < n
        invariant
            n == original.len(),
            i <= n,
            remaining@ == original.skip(i as int),
            sorted@.len() == i,
            newest_first(sorted@),
            forall|k: int| #[trigger] sorted@.filter(key_is(k)) == original.take(i as int).filter(key_is(k)),
        decreases n - i,
    {
        let x = remaining.remove(0);
        proof {
            assert(x == original[i as int]);
            assert(remaining@ =~= original.skip(i + 1));
        }
        let mut p: usize = 0;
        while p < sorted.len() && instant_of(&sorted[p]) >= instant_of(&x)
            invariant
                p <= sorted@.len(),
                newest_first(sorted@),
                forall|j: int| 0 <= j < p ==> entry_key(sorted@[j]) >= entry_key(x),
            decreases sorted@.len() - p,
        {
            p = p + 1;
        }
        proof {
            assert forall|j: int| p <= j < sorted@.len() implies entry_key(sorted@[j]) < entry_key(x) by {
                if p < sorted@.len() {
                    assert(entry_key(sorted@[p as int]) < entry_key(x));
                }
            }
            assert forall|k: int| #[trigger] sorted@.insert(p as int, x).filter(key_is(k))
                == original.take(i + 1).filter(key_is(k)) by {
                lemma_insert_keeps_groups(sorted@, p as int, x, k);
                assert(original.take(i + 1) =~= original.take(i as int).push(x));
                original.take(i as int).lemma_filter_push(x, key_is(k));
            }
        }
        sorted.insert(p, x);
        i = i + 1;
    }
    proof {
        assert(original.take(n as int) =~= original);
    }
    *entries = sorted;
}

/// Journal manager: where readings are saved; an empty base path means the
/// journal is disabled (its directory could not be created)
pub struct Journal {
    base_path: String,
}

impl View for Journal {
    type V = Seq<char>;

    closed spec fn view(&self) -> Seq<char> {
        self.base_path@
    }
}

/// The message of a save refused by a disabled journal.
pub open spec fn disabled_save_message() -> Seq<char> {
    "Journal is disabled (could not create journal directory)"@
}

/// The message of a load refused by a disabled journal.
pub open spec fn disabled_load_message() -> Seq<char> {
    "Journal is disabled"@
}

impl Journal {
    /// A journal that saves under the given directory
    pub fn with_base_path(base_path: String) -> (j: Journal)
        ensures
            j@ == base_path@,
    {
        Journal { base_path }
    }

    /// A journal that could not be initialized
    pub fn disabled() -> (j: Journal)
        ensures
            j@.len() == 0,
    {
        Journal { base_path: String::new() }
    }

    /// The directory readings are saved under
    pub fn base_path(&self) -> (p: &str)
        ensures
            p@ == self@,
    {
        self.base_path.as_str()
    }

    /// Returns true if the journal is in a disabled state (could not be initialized)
    pub fn is_disabled(&self) -> (b: bool)
        ensures
            b == (self@.len() == 0),
    {
        self.base_path.as_str().is_empty()
    }

    /// What saving a reading writes: the file name (under the base path) and
    /// the markdown text; refused while the journal is disabled
    pub fn prepare_save(&self, reading: &Reading) -> (r: Result<(String, String), &'static str>)
        requires
            reading.timestamp.is_valid(),
        ensures
            self@.len() == 0 ==> (r matches Err(m) && m@ == disabled_save_message()),
            self@.len() > 0 ==> (r matches Ok(pair) && pair.0@ == reading_file_name_text(
                reading.timestamp,
                reading.spread.name@,
            ) && pair.1@ == crate::spreads::reading::lines_text(
                crate::spreads::reading::markdown_lines(
                    reading.spread,
                    reading.drawn@,
                    reading.timestamp,
                    crate::spreads::reading::notes_view(reading.notes),
                ),
            )),
    {
        if self.is_disabled() {
            return Err("Journal is disabled (could not create journal directory)");
        }
        Ok((reading_file_name(reading), reading.to_markdown()))
    }

    /// The journal entry of a saved reading, from its id (the file name
    /// without ".md") and its text: the spread name and the number of cards
    /// read from the text, and the local time the id starts with, or the
    /// current time where the id gives none. Cutting the id needs a
    /// character boundary after its 19th byte.
    pub fn parse_entry(id: &str, content: &str) -> (e: JournalEntry)
        requires
            byte_len(id@) <= usize::MAX,
            byte_len(id@) >= 19 ==> is_char_boundary(encode_utf8(id@), 19),
        ensures
            e.id@ == id@,
            e.spread_name@ == spread_name_of(content@),
            e.card_count == card_count_of(content@),
            e.timestamp.is_valid(),
    {
        let timestamp = match id_timestamp(id) {
            Some(t) => t,
            None => local_now(),
        };
        let (spread_name, card_count) = parse_entry_content(content);
        let mut owned_id = String::new();
        owned_id.append(id);
        JournalEntry { id: owned_id, timestamp, spread_name, card_count }
    }

    /// The file name (under the base path) of the entry to load; refused while
    /// the journal is disabled
    pub fn prepare_load(&self, id: &str) -> (r: Result<String, &'static str>)
        ensures
            self@.len() == 0 ==> (r matches Err(m) && m@ == disabled_load_message()),
            self@.len() > 0 ==> (r matches Ok(name) && name@ == id@ + ".md"@),
    {
        if self.is_disabled() {
            return Err("Journal is disabled");
        }
        Ok(entry_file_name(id))
    }
}

} // verus!
