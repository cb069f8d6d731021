//! Catppuccin Mocha color theme for terminal output

pub mod style;

use crossterm::style::Stylize;
use vstd::prelude::*;

use crate::cards::Suit;
use crate::cli::{alphabetic, law_plain_text_is_all_visible, lemma_escape_body, lemma_visible_concat, visible_scan};
use crate::text::decimal_text;
use crate::timestamp::{digits_only, lemma_decimal_digits};

verus! {

/// A 24-bit colour.
#[derive(Debug, Clone, Copy, PartialEq, Eq, Structural)]
pub struct Rgb {
    pub r: u8,
    pub g: u8,
    pub b: u8,
}

/// The colour a text is written in: a 24-bit colour or one of the
/// terminal's named colours.
#[derive(Debug, Clone, Copy, PartialEq, Eq, Structural)]
pub enum Ink {
    Rgb(Rgb),
    Red,
    Green,
    Yellow,
}

/// How a text is styled: its colour, if any, and whether it is bold or underlined.
#[derive(Debug, Clone, Copy, PartialEq, Eq, Structural)]
pub struct TextStyle {
    pub ink: Option<Ink>,
    pub bold: bool,
    pub underlined: bool,
}

/// An SGR escape sequence: ESC, '[', the parameters and 'm'.
pub open spec fn sgr(params: Seq<char>) -> Seq<char> {
    seq!['\x1b', '['] + params + seq!['m']
}

/// The parameters crossterm writes to set the foreground to an ink; none
/// when colours are turned off (the `NO_COLOR` environment variable).
pub open spec fn ink_params(ink: Ink, colors: bool) -> Seq<char> {
    if !colors {
        Seq::empty()
    } else {
        match ink {
            Ink::Rgb(c) => "38;2;"@ + decimal_text(c.r as nat) + ";"@ + decimal_text(c.g as nat) + ";"@
                + decimal_text(c.b as nat),
            Ink::Red => "38;5;9"@,
            Ink::Green => "38;5;10"@,
            Ink::Yellow => "38;5;11"@,
        }
    }
}

/// The escape codes crossterm writes before a styled text: the foreground
/// colour, then bold, then underlined.
pub open spec fn style_open(style: TextStyle, colors: bool) -> Seq<char> {
    (match style.ink {
        Some(ink) => sgr(ink_params(ink, colors)),
        None => Seq::empty(),
    }) + (if style.bold {
        sgr("1"@)
    } else {
        Seq::empty()
    }) + (if style.underlined {
        sgr("4"@)
    } else {
        Seq::empty()
    })
}

/// The escape codes crossterm writes after a styled text: a full reset after
/// attributes, else a reset of the foreground colour after a colour.
pub open spec fn style_close(style: TextStyle, colors: bool) -> Seq<char> {
    if style.bold || style.underlined {
        sgr("0"@)
    } else if style.ink is Some {
        sgr(if colors {
            "39"@
        } else {
            Seq::empty()
        })
    } else {
        Seq::empty()
    }
}

/// What crossterm renders for a text in a style: the text between the
/// style's escape codes (each written with colours on or off, as the
/// `NO_COLOR` environment variable says), or nothing at all on a Windows
/// console without ANSI support, where the styling goes through the console
/// API instead.
pub open spec fn styled_outcome(text: Seq<char>, style: TextStyle, r: Seq<char>) -> bool {
    ||| exists|on_open: bool, on_close: bool|
        r == style_open(style, on_open) + text + style_close(style, on_close)
    ||| r.len() == 0
}

/// crossterm's `Stylize` (`with`, `red`, `green`, `yellow`, `bold`,
/// `underlined`) followed by `to_string()`. `Display` for `StyledContent`
/// writes the foreground colour (`ESC[38;2;r;g;bm`, or `ESC[38;5;nm` for
/// the named colours), the attributes in order (`ESC[1m`, `ESC[4m`), the text,
/// then `ESC[0m` after attributes or `ESC[39m` after a colour alone. With
/// `NO_COLOR` set the colour codes lose their parameters (`ESC[m`). On a
/// Windows console without ANSI support nothing is written into the string.
/// Which of these happens depends on the environment, so the contract states
/// all of them.
#[verifier::external_body]
fn crossterm_styled(text: &str, style: TextStyle) -> (r: String)
    ensures
        styled_outcome(text@, style, r@),
{
    let mut content = text.stylize();
    content = match style.ink {
        Some(Ink::Rgb(c)) => content.with(crossterm::style::Color::Rgb { r: c.r, g: c.g, b: c.b }),
        Some(Ink::Red) => content.red(),
        Some(Ink::Green) => content.green(),
        Some(Ink::Yellow) => content.yellow(),
        None => content,
    };
    if style.bold {
        content = content.bold();
    }
    if style.underlined {
        content = content.underlined();
    }
    content.to_string()
}

/// The text with its style's escape codes around it, as the terminal renders it.
pub fn styled(text: &str, style: TextStyle) -> (r: String)
    ensures
        styled_outcome(text@, style, r@),
{
    crossterm_styled(text, style)
}

/// The characters of SGR parameters: digits and semicolons.
pub open spec fn sgr_param_chars(p: Seq<char>) -> bool {
    forall|k: int| 0 <= k < p.len() ==> ('0' <= #[trigger] p[k] && p[k] <= '9') || p[k] == ';'
}

/// An SGR sequence shows nothing and leaves the scan outside escape sequences.
proof fn lemma_sgr_invisible(a: Seq<char>, params: Seq<char>)
    requires
        !visible_scan(a).0,
        sgr_param_chars(params),
    ensures
        visible_scan(a + sgr(params)) == visible_scan(a),
{
    let n = visible_scan(a).1;
    let e1 = a.push('\x1b');
    assert(e1.drop_last() =~= a);
    assert(e1.last() == '\x1b');
    assert(visible_scan(e1) == (true, n));
    let e2 = e1.push('[');
    assert(e2.drop_last() =~= e1);
    assert(e2.last() == '[');
    assert(!alphabetic('['));
    assert(visible_scan(e2) == (true, n));
    assert forall|k: int| 0 <= k < params.len() implies #[trigger] params[k] != '\x1b' && !alphabetic(params[k]) by {}
    lemma_escape_body(e2, params);
    let e3 = (e2 + params).push('m');
    assert(e3.drop_last() =~= e2 + params);
    assert(e3.last() == 'm');
    assert(alphabetic('m'));
    assert(visible_scan(e3) == (false, n));
    assert(a + sgr(params) =~= e3);
}

/// Concatenated texts are SGR parameters when each is.
proof fn lemma_params_concat(a: Seq<char>, b: Seq<char>)
    requires
        sgr_param_chars(a),
        sgr_param_chars(b),
    ensures
        sgr_param_chars(a + b),
{
    assert forall|k: int| 0 <= k < (a + b).len() implies ('0' <= #[trigger] (a + b)[k] && (a + b)[k] <= '9') || (a
        + b)[k] == ';' by {
        if k < a.len() {
            assert((a + b)[k] == a[k]);
        } else {
            assert((a + b)[k] == b[k - a.len()]);
        }
    }
}

/// Decimal digits are SGR parameters.
proof fn lemma_decimal_params(n: nat)
    ensures
        sgr_param_chars(decimal_text(n)),
{
    lemma_decimal_digits(n, 0);
    assert(digits_only(decimal_text(n)));
}

/// The parameters of each ink are digits and semicolons.
proof fn lemma_ink_params(ink: Ink, colors: bool)
    ensures
        sgr_param_chars(ink_params(ink, colors)),
{
    reveal_strlit("38;2;");
    reveal_strlit(";");
    reveal_strlit("38;5;9");
    reveal_strlit("38;5;10");
    reveal_strlit("38;5;11");
    if colors {
        match ink {
            Ink::Rgb(c) => {
                lemma_decimal_params(c.r as nat);
                lemma_decimal_params(c.g as nat);
                lemma_decimal_params(c.b as nat);
                assert(sgr_param_chars("38;2;"@));
                assert(sgr_param_chars(";"@));
                lemma_params_concat("38;2;"@, decimal_text(c.r as nat));
                lemma_params_concat("38;2;"@ + decimal_text(c.r as nat), ";"@);
                lemma_params_concat("38;2;"@ + decimal_text(c.r as nat) + ";"@, decimal_text(c.g as nat));
                lemma_params_concat("38;2;"@ + decimal_text(c.r as nat) + ";"@ + decimal_text(c.g as nat), ";"@);
                lemma_params_concat(
                    "38;2;"@ + decimal_text(c.r as nat) + ";"@ + decimal_text(c.g as nat) + ";"@,
                    decimal_text(c.b as nat),
                );
            },
            _ => {},
        }
    }
}

/// The codes before and after a styled text show nothing.
proof fn lemma_style_codes_invisible(a: Seq<char>, style: TextStyle, on_open: bool, on_close: bool)
    requires
        !visible_scan(a).0,
    ensures
        visible_scan(a + style_open(style, on_open)) == visible_scan(a),
        visible_scan(a + style_close(style, on_close)) == visible_scan(a),
{
    reveal_strlit("1");
    reveal_strlit("4");
    reveal_strlit("0");
    reveal_strlit("39");
    let empty = Seq::<char>::empty();
    assert(a + empty =~= a);
    let ink_part = match style.ink {
        Some(ink) => sgr(ink_params(ink, on_open)),
        None => empty,
    };
    match style.ink {
        Some(ink) => {
            lemma_ink_params(ink, on_open);
            lemma_sgr_invisible(a, ink_params(ink, on_open));
        },
        None => {},
    }
    let a1 = a + ink_part;
    let bold_part = if style.bold { sgr("1"@) } else { empty };
    if style.bold {
        lemma_sgr_invisible(a1, "1"@);
    } else {
        assert(a1 + empty =~= a1);
    }
    let a2 = a1 + bold_part;
    if style.underlined {
        lemma_sgr_invisible(a2, "4"@);
    } else {
        assert(a2 + empty =~= a2);
    }
    assert(a + style_open(style, on_open) =~= a2 + if style.underlined { sgr("4"@) } else { empty });
    if style.bold || style.underlined {
        lemma_sgr_invisible(a, "0"@);
    } else if style.ink is Some {
        if on_close {
            lemma_sgr_invisible(a, "39"@);
        } else {
            lemma_sgr_invisible(a, empty);
        }
    }
}

/// Styling adds no visible width: what the terminal styling renders for a
/// text without escape characters shows exactly the text's characters (or,
/// on a console without ANSI support, is empty).
pub proof fn law_styling_adds_no_visible_width(text: Seq<char>, style: TextStyle, r: Seq<char>)
    requires
        !text.contains('\x1b'),
        styled_outcome(text, style, r),
    ensures
        r.len() == 0 || visible_scan(r) == (false, text.len()),
{
    if r.len() > 0 {
        let (on_open, on_close) = choose|on_open: bool, on_close: bool|
            r == style_open(style, on_open) + text + style_close(style, on_close);
        let empty = Seq::<char>::empty();
        assert(visible_scan(empty) == (false, 0nat));
        lemma_style_codes_invisible(empty, style, on_open, on_close);
        assert(empty + style_open(style, on_open) =~= style_open(style, on_open));
        let open = style_open(style, on_open);
        law_plain_text_is_all_visible(text);
        lemma_visible_concat(open, text);
        let mid = open + text;
        lemma_style_codes_invisible(mid, style, on_open, on_close);
        assert(r =~= mid + style_close(style, on_close));
    }
}

/// A style of only a colour.
pub open spec fn colored(c: Rgb) -> TextStyle {
    TextStyle { ink: Some(Ink::Rgb(c)), bold: false, underlined: false }
}

/// A bold style in a colour.
pub open spec fn bold_in(ink: Ink) -> TextStyle {
    TextStyle { ink: Some(ink), bold: true, underlined: false }
}

/// Catppuccin Mocha color palette
#[derive(Debug, Clone, Copy, PartialEq, Eq, Structural)]
pub struct Theme {
    pub subtext0: Rgb,
    pub lavender: Rgb,
    pub mauve: Rgb,
    pub pink: Rgb,
    pub red: Rgb,
    pub peach: Rgb,
    pub green: Rgb,
    pub yellow: Rgb,
    pub sky: Rgb,
}

/// The Catppuccin Mocha palette.
pub open spec fn mocha() -> Theme {
    Theme {
        subtext0: Rgb { r: 166, g: 173, b: 200 },
        lavender: Rgb { r: 180, g: 190, b: 254 },
        mauve: Rgb { r: 203, g: 166, b: 247 },
        pink: Rgb { r: 245, g: 194, b: 231 },
        red: Rgb { r: 243, g: 139, b: 168 },
        peach: Rgb { r: 250, g: 179, b: 135 },
        green: Rgb { r: 166, g: 227, b: 161 },
        yellow: Rgb { r: 249, g: 226, b: 175 },
        sky: Rgb { r: 137, g: 220, b: 235 },
    }
}

/// The colour of each suit in a palette: Wands peach, Cups pink, Swords red, Pentacles green.
pub open spec fn suit_color_of(t: Theme, suit: Suit) -> Rgb {
    match suit {
        Suit::Wands => t.peach,
        Suit::Cups => t.pink,
        Suit::Swords => t.red,
        Suit::Pentacles => t.green,
    }
}

impl Theme {
    /// The default Catppuccin Mocha theme
    pub fn catppuccin_mocha() -> (t: Theme)
        ensures
            t == mocha(),
    {
        Theme {
            subtext0: Rgb { r: 166, g: 173, b: 200 },
            lavender: Rgb { r: 180, g: 190, b: 254 },
            mauve: Rgb { r: 203, g: 166, b: 247 },
            pink: Rgb { r: 245, g: 194, b: 231 },
            red: Rgb { r: 243, g: 139, b: 168 },
            peach: Rgb { r: 250, g: 179, b: 135 },
            green: Rgb { r: 166, g: 227, b: 161 },
            yellow: Rgb { r: 249, g: 226, b: 175 },
            sky: Rgb { r: 137, g: 220, b: 235 },
        }
    }

    /// Get color for a suit
    pub fn suit_color(&self, suit: Suit) -> (c: Rgb)
        ensures
            c == suit_color_of(*self, suit),
    {
        match suit {
            Suit::Wands => self.peach,
            Suit::Cups => self.pink,
            Suit::Swords => self.red,
            Suit::Pentacles => self.green,
        }
    }
}

impl Default for Theme {
    fn default() -> (t: Theme)
        ensures
            t == mocha(),
    {
        Self::catppuccin_mocha()
    }
}

/// Global theme instance
pub fn theme() -> (t: Theme)
    ensures
        t == mocha(),
{
    Theme::catppuccin_mocha()
}

/// Styling strings with theme colors
pub trait ColorStyle: Sized {
    fn with_color(self, color: Rgb) -> String;

    fn mauve(self) -> String;

    fn lavender(self) -> String;

    fn pink(self) -> String;

    fn peach(self) -> String;

    fn sky(self) -> String;

    fn subtext(self) -> String;
}

impl<'a> ColorStyle for &'a str {
    /// The text in the given colour
    fn with_color(self, color: Rgb) -> (r: String)
        ensures
            styled_outcome(self@, colored(color), r@),
    {
        styled(self, TextStyle { ink: Some(Ink::Rgb(color)), bold: false, underlined: false })
    }

    /// The text in the theme's mauve
    fn mauve(self) -> (r: String)
        ensures
            styled_outcome(self@, colored(mocha().mauve), r@),
    {
        self.with_color(theme().mauve)
    }

    /// The text in the theme's lavender
    fn lavender(self) -> (r: String)
        ensures
            styled_outcome(self@, colored(mocha().lavender), r@),
    {
        self.with_color(theme().lavender)
    }

    /// The text in the theme's pink
    fn pink(self) -> (r: String)
        ensures
            styled_outcome(self@, colored(mocha().pink), r@),
    {
        self.with_color(theme().pink)
    }

    /// The text in the theme's peach
    fn peach(self) -> (r: String)
        ensures
            styled_outcome(self@, colored(mocha().peach), r@),
    {
        self.with_color(theme().peach)
    }

    /// The text in the theme's sky blue
    fn sky(self) -> (r: String)
        ensures
            styled_outcome(self@, colored(mocha().sky), r@),
    {
        self.with_color(theme().sky)
    }

    /// The text in the theme's subdued text colour
    fn subtext(self) -> (r: String)
        ensures
            styled_outcome(self@, colored(mocha().subtext0), r@),
    {
        self.with_color(theme().subtext0)
    }
}

impl ColorStyle for String {
    /// The text in the given colour
    fn with_color(self, color: Rgb) -> (r: String)
        ensures
            styled_outcome(self@, colored(color), r@),
    {
        self.as_str().with_color(color)
    }

    /// The text in the theme's mauve
    fn mauve(self) -> (r: String)
        ensures
            styled_outcome(self@, colored(mocha().mauve), r@),
    {
        self.as_str().mauve()
    }

    /// The text in the theme's lavender
    fn lavender(self) -> (r: String)
        ensures
            styled_outcome(self@, colored(mocha().lavender), r@),
    {
        self.as_str().lavender()
    }

    /// The text in the theme's pink
    fn pink(self) -> (r: String)
        ensures
            styled_outcome(self@, colored(mocha().pink), r@),
    {
        self.as_str().pink()
    }

    /// The text in the theme's peach
    fn peach(self) -> (r: String)
        ensures
            styled_outcome(self@, colored(mocha().peach), r@),
    {
        self.as_str().peach()
    }

    /// The text in the theme's sky blue
    fn sky(self) -> (r: String)
        ensures
            styled_outcome(self@, colored(mocha().sky), r@),
    {
        self.as_str().sky()
    }

    /// The text in the theme's subdued text colour
    fn subtext(self) -> (r: String)
        ensures
            styled_outcome(self@, colored(mocha().subtext0), r@),
    {
        self.as_str().subtext()
    }
}

} // verus!
