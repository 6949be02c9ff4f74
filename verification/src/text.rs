//! Text drawable on a canvas: its style, the font string handed to the
//! host drawing surface, and the split of the text into lines.

use vstd::prelude::*;
use vstd::string::StringExecFns;

use crate::color::Color;
use crate::decimal::dec_str;
use crate::decimal::push_decimal;
use crate::font::Font;

verus! {

/// A struct representing the style of a [`Text`].
#[derive(Clone, Copy, Debug)]
pub struct TextStyle {
    /// Italic
    pub italic: bool,
    /// Bold
    pub bold: bool,
    /// Underlined is not supported for now!
    pub underlined: bool,
    /// The color of the text
    pub color: Color,
}

/// The style a text starts with: upright, normal weight, black.
pub open spec fn default_text_style() -> TextStyle {
    TextStyle {
        italic: false,
        bold: false,
        underlined: false,
        color: Color { red: 0u8, green: 0u8, blue: 0u8, alpha: 255u8 },
    }
}

impl Default for TextStyle {
    fn default() -> (r: TextStyle)
        ensures
            r == default_text_style(),
    {
        TextStyle { italic: false, bold: false, underlined: false, color: Color::black() }
    }
}

/// A text drawable on a canvas.
#[derive(Debug)]
pub struct Text {
    /// The coords of the text in px.
    pub coords: (usize, usize),
    /// The font of the text.
    pub font: Font,
    /// The text.
    pub text: String,
    /// The style of the text (bold/italic...)
    pub style: TextStyle,
    /// The character size. example: (14, "px")
    pub character_size: (usize, String),
}

/// The font string the host drawing surface is given for a text:
/// the optional `italic` and `bold` markers, the character size with its
/// unit, and the quoted family name.
pub open spec fn font_css(t: Text) -> Seq<char> {
    (if t.style.italic {
        "italic "@
    } else {
        Seq::<char>::empty()
    }) + (if t.style.bold {
        "bold "@
    } else {
        Seq::<char>::empty()
    }) + dec_str(t.character_size.0 as int) + t.character_size.1@ + " '"@ + t.font.name@ + "'"@
}

impl Text {
    /// Create a new text with default values.
    pub fn new(font: Font) -> (r: Text)
        ensures
            r.coords == (0usize, 0usize),
            r.font == font,
            r.text@ == Seq::<char>::empty(),
            r.style == default_text_style(),
            r.character_size.0 == 26usize,
            r.character_size.1@ == "px"@,
    {
        Text {
            coords: (0, 0),
            font,
            text: String::new(),
            style: TextStyle::default(),
            character_size: (26, String::from_str("px")),
        }
    }

    /// Create a new text with some default values.
    pub fn new_with_text_and_coords(font: Font, text: String, coords: (usize, usize)) -> (r: Text)
        ensures
            r.coords == coords,
            r.font == font,
            r.text == text,
            r.style == default_text_style(),
            r.character_size.0 == 26usize,
            r.character_size.1@ == "px"@,
    {
        Text {
            coords,
            font,
            text,
            style: TextStyle::default(),
            character_size: (26, String::from_str("px")),
        }
    }

    /// Create a new text with no default value.
    pub fn new_with_options(
        font: Font,
        text: String,
        coords: (usize, usize),
        style: TextStyle,
        character_size: (usize, String),
    ) -> (r: Text)
        ensures
            r.coords == coords,
            r.font == font,
            r.text == text,
            r.style == style,
            r.character_size == character_size,
    {
        Text { coords, font, text, style, character_size }
    }

    /// Set the displayed text.
    pub fn set_text(&mut self, text: String)
        ensures
            *final(self) == (Text { text, ..*old(self) }),
    {
        self.text = text;
    }

    /// Set the style of the text.
    pub fn set_style(&mut self, style: TextStyle)
        ensures
            *final(self) == (Text { style, ..*old(self) }),
    {
        self.style = style;
    }

    /// The font string the host drawing surface is given for this text.
    /// Underlined text is not supported for now.
    pub fn font_string(&self) -> (r: String)
        requires
            !self.style.underlined,
        ensures
            r@ == font_css(*self),
    {
        let mut font = String::new();
        if self.style.italic {
            font.append("italic ");
        }
        if self.style.bold {
            font.append("bold ");
        }
        push_decimal(&mut font, self.character_size.0 as u64);
        font.append(self.character_size.1.as_str());
        font.append(" '");
        font.append(self.font.name.as_str());
        font.append("'");
        proof {
            assert(font@ =~= font_css(*self));
        }
        font
    }

    /// The vertical position of one line of this text: each line steps
    /// down by the character size.
    pub fn line_y(&self, index: usize) -> (y: usize)
        requires
            self.coords.1 + self.character_size.0 * index <= usize::MAX,
        ensures
            y == self.coords.1 + self.character_size.0 * index,
    {
        self.coords.1 + self.character_size.0 * index
    }
}

/// A text's lines: the pieces between newline characters, in order. A text
/// without newlines is one line; every newline ends a line, so a trailing
/// newline yields a final empty line.
pub open spec fn spec_lines(s: Seq<char>) -> Seq<Seq<char>>
    decreases s.len(),
{
    if s.len() == 0 {
        seq![Seq::<char>::empty()]
    } else if s[0] == '\n' {
        seq![Seq::<char>::empty()] + spec_lines(s.subrange(1, s.len() as int))
    } else {
        prepend_first(seq![s[0]], spec_lines(s.subrange(1, s.len() as int)))
    }
}

/// A sequence of lines with the first line extended on its left.
pub open spec fn prepend_first(p: Seq<char>, ls: Seq<Seq<char>>) -> Seq<Seq<char>>
    recommends
        ls.len() > 0,
{
    seq![p + ls[0]] + ls.subrange(1, ls.len() as int)
}

/// A text always has at least one line.
pub proof fn lemma_spec_lines_nonempty(s: Seq<char>)
    ensures
        spec_lines(s).len() >= 1,
    decreases s.len(),
{
    if s.len() == 0 {
    } else if s[0] == '\n' {
        lemma_spec_lines_nonempty(s.subrange(1, s.len() as int));
    } else {
        lemma_spec_lines_nonempty(s.subrange(1, s.len() as int));
    }
}

/// Extending the first line twice is extending it once by the
/// concatenation.
proof fn lemma_prepend_first_twice(a: Seq<char>, b: Seq<char>, ls: Seq<Seq<char>>)
    requires
        ls.len() > 0,
    ensures
        prepend_first(a, prepend_first(b, ls)) == prepend_first(a + b, ls),
{
    assert(prepend_first(a, prepend_first(b, ls)) =~~= prepend_first(a + b, ls));
}

/// Extending the first line by nothing changes nothing.
proof fn lemma_prepend_first_empty(ls: Seq<Seq<char>>)
    requires
        ls.len() > 0,
    ensures
        prepend_first(Seq::<char>::empty(), ls) == ls,
{
    assert(prepend_first(Seq::<char>::empty(), ls) =~~= ls);
}

/// A first line that a newline just closed stands whole before the
/// remaining lines.
proof fn lemma_prepend_first_newline(p: Seq<char>, ls: Seq<Seq<char>>)
    ensures
        prepend_first(p, seq![Seq::<char>::empty()] + ls) == seq![p] + ls,
{
    assert(prepend_first(p, seq![Seq::<char>::empty()] + ls) =~~= seq![p] + ls);
}

/// Relies on String::push: it appends exactly the given character.
#[verifier::external_body]
fn push_char(s: &mut String, c: char)
    ensures
        final(s)@ == old(s)@.push(c),
{
    s.push(c);
}

/// Split a text into its lines, as [`spec_lines`] lists them.
pub fn split_lines(text: &str) -> (r: Vec<String>)
    ensures
        r@.map(|i: int, s: String| s@) == spec_lines(text@),
{
    let ghost whole = text@;
    let n = text.unicode_len();
    let mut lines: Vec<String> = Vec::new();
    let mut cur = String::new();
    let mut idx: usize = 0;
    proof {
        lemma_spec_lines_nonempty(whole);
        assert(whole.subrange(0, n as int) =~= whole);
        lemma_prepend_first_empty(spec_lines(whole));
        assert(lines@.map(|i: int, s: String| s@) =~= Seq::<Seq<char>>::empty());
    }
    while idx < n
        invariant
            idx <= n,
            n == whole.len(),
            whole == text@,
            spec_lines(whole) == lines@.map(|i: int, s: String| s@) + prepend_first(
                cur@,
                spec_lines(whole.subrange(idx as int, n as int)),
            ),
        decreases n - idx,
    {
        let ghost rest = whole.subrange(idx as int, n as int);
        let ghost rest_tail = whole.subrange(idx as int + 1, n as int);
        proof {
            assert(rest.subrange(1, rest.len() as int) =~= rest_tail);
            lemma_spec_lines_nonempty(rest_tail);
        }
        let c = text.get_char(idx);
        if c == '\n' {
            let done = cur;
            cur = String::new();
            let ghost before = lines@;
            lines.push(done);
            proof {
                assert(rest[0] == '\n');
                lemma_prepend_first_newline(done@, spec_lines(rest_tail));
                lemma_prepend_first_empty(spec_lines(rest_tail));
                assert(lines@.map(|i: int, s: String| s@) =~= before.map(|i: int, s: String| s@)
                    + seq![done@]);
                assert(lines@.map(|i: int, s: String| s@) + prepend_first(
                    cur@,
                    spec_lines(rest_tail),
                ) =~= (before.map(|i: int, s: String| s@) + seq![done@]) + spec_lines(rest_tail));
                assert((before.map(|i: int, s: String| s@) + seq![done@]) + spec_lines(rest_tail)
                    =~= before.map(|i: int, s: String| s@) + (seq![done@] + spec_lines(rest_tail)));
            }
        } else {
            proof {
                assert(rest[0] == c && c != '\n');
                lemma_prepend_first_twice(cur@, seq![c], spec_lines(rest_tail));
                assert(cur@ + seq![c] =~= cur@.push(c));
            }
            push_char(&mut cur, c);
        }
        idx += 1;
    }
    proof {
        assert(whole.subrange(idx as int, n as int) =~= Seq::<char>::empty());
        assert(cur@ + Seq::<char>::empty() =~= cur@);
        assert(prepend_first(cur@, spec_lines(Seq::<char>::empty())) =~= seq![cur@]);
    }
    let ghost before = lines@;
    lines.push(cur);
    proof {
        assert(lines@.map(|i: int, s: String| s@) =~= before.map(|i: int, s: String| s@) + seq![
            cur@,
        ]);
        assert(lines@.map(|i: int, s: String| s@) =~= spec_lines(whole));
    }
    lines
}

} // verus!
