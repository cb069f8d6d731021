# arcana

A terminal tarot application: a 78-card deck with reversals, six spreads, a
card browser, a daily card, and a journal of saved readings, used from the
command line or from an interactive terminal interface.

## Layout

- `src/` is the library, written in Verus. Every function there has a
  contract; Verus proves each of them except the fourteen trusted wrappers
  around outside calls (described below), whose contracts it takes on trust:
  - `cards`, `deck`: the cards and their data, the deck (shuffling, drawing,
    reversals, lookups, the card of the day);
  - `spreads`: the spreads and readings, and the markdown a reading is saved as;
  - `journal`: file names, reading a saved entry back, the order of entries;
  - `cli`: the pages the command line prints, as lines of styled spans;
  - `tui`: the terminal application's state machine (`App::handle_key`) and
    what its screens show;
  - `timestamp`, `text`, `lines`, `ui`: dates, text helpers and the colour theme.
  Laws that span several functions are public proof functions (`law_*`).
- Calls into rand, chrono, crossterm and std that Verus cannot read sit behind
  small trusted wrappers whose contracts state what those crates document.
- `app/` is the program: argument parsing (clap), file I/O, the event loop and
  drawing with ratatui. It hands the library plain values and prints what
  the library computes.
- `tests/` runs the library on concrete values.
