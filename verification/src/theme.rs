//! Interface colours, their `#RRGGBB` overrides and their hex rendering.

use vstd::prelude::*;
use vstd::utf8::{encode_utf8, is_ascii_chars, is_ascii_chars_encode_utf8};
use crate::text::{hex_char, hex_digit_char, push_char, push_str, string_of};

verus! {

/// A 24-bit colour.
#[derive(PartialEq, Eq, Structural, Clone, Copy, Debug)]
pub struct Rgb {
    pub r: u8,
    pub g: u8,
    pub b: u8,
}

/// The colours the interface draws with.
#[derive(PartialEq, Eq, Structural, Clone, Copy, Debug)]
pub struct Theme {
    pub bg: Rgb,
    pub bg_soft: Rgb,
    pub bg_raised: Rgb,
    pub line: Rgb,
    pub line_soft: Rgb,
    pub fg: Rgb,
    pub fg_dim: Rgb,
    pub fg_mute: Rgb,
    pub fg_faint: Rgb,
    pub accent: Rgb,
    pub red: Rgb,
    pub yellow: Rgb,
    pub green: Rgb,
    pub teal: Rgb,
    pub blue: Rgb,
    pub purple: Rgb,
    pub pink: Rgb,
}

/// The built-in palette.
pub open spec fn default_theme() -> Theme {
    Theme {
        bg: Rgb { r: 0x23, g: 0x21, b: 0x1f },
        bg_soft: Rgb { r: 0x26, g: 0x23, b: 0x21 },
        bg_raised: Rgb { r: 0x29, g: 0x26, b: 0x24 },
        line: Rgb { r: 0x3a, g: 0x33, b: 0x2f },
        line_soft: Rgb { r: 0x2f, g: 0x2a, b: 0x27 },
        fg: Rgb { r: 0xe8, g: 0xdf, b: 0xd3 },
        fg_dim: Rgb { r: 0xa8, g: 0x9c, b: 0x8a },
        fg_mute: Rgb { r: 0x6b, g: 0x64, b: 0x59 },
        fg_faint: Rgb { r: 0x4a, g: 0x45, b: 0x3e },
        accent: Rgb { r: 0xd9, g: 0x9a, b: 0x5e },
        red: Rgb { r: 0xe0, g: 0x6c, b: 0x75 },
        yellow: Rgb { r: 0xe5, g: 0xc0, b: 0x7b },
        green: Rgb { r: 0xa3, g: 0xb5, b: 0x65 },
        teal: Rgb { r: 0x7c, g: 0xb7, b: 0xa8 },
        blue: Rgb { r: 0x82, g: 0xaa, b: 0xdc },
        purple: Rgb { r: 0xc0, g: 0x8b, b: 0xc0 },
        pink: Rgb { r: 0xd8, g: 0x8a, b: 0xa0 },
    }
}

impl Default for Theme {
    fn default() -> (t: Theme)
        ensures
            t == default_theme(),
    {
        Theme {
            bg: Rgb { r: 0x23, g: 0x21, b: 0x1f },
            bg_soft: Rgb { r: 0x26, g: 0x23, b: 0x21 },
            bg_raised: Rgb { r: 0x29, g: 0x26, b: 0x24 },
            line: Rgb { r: 0x3a, g: 0x33, b: 0x2f },
            line_soft: Rgb { r: 0x2f, g: 0x2a, b: 0x27 },
            fg: Rgb { r: 0xe8, g: 0xdf, b: 0xd3 },
            fg_dim: Rgb { r: 0xa8, g: 0x9c, b: 0x8a },
            fg_mute: Rgb { r: 0x6b, g: 0x64, b: 0x59 },
            fg_faint: Rgb { r: 0x4a, g: 0x45, b: 0x3e },
            accent: Rgb { r: 0xd9, g: 0x9a, b: 0x5e },
            red: Rgb { r: 0xe0, g: 0x6c, b: 0x75 },
            yellow: Rgb { r: 0xe5, g: 0xc0, b: 0x7b },
            green: Rgb { r: 0xa3, g: 0xb5, b: 0x65 },
            teal: Rgb { r: 0x7c, g: 0xb7, b: 0xa8 },
            blue: Rgb { r: 0x82, g: 0xaa, b: 0xdc },
            purple: Rgb { r: 0xc0, g: 0x8b, b: 0xc0 },
            pink: Rgb { r: 0xd8, g: 0x8a, b: 0xa0 },
        }
    }
}

/// Colour overrides as read from the `[theme]` table; absent entries keep
/// the built-in palette.
pub struct ThemeOverrides {
    pub bg: Option<String>,
    pub bg_soft: Option<String>,
    pub bg_raised: Option<String>,
    pub line: Option<String>,
    pub line_soft: Option<String>,
    pub fg: Option<String>,
    pub fg_dim: Option<String>,
    pub fg_mute: Option<String>,
    pub fg_faint: Option<String>,
    pub accent: Option<String>,
    pub red: Option<String>,
    pub yellow: Option<String>,
    pub green: Option<String>,
    pub teal: Option<String>,
    pub blue: Option<String>,
    pub purple: Option<String>,
    pub pink: Option<String>,
}

/// What is wrong with a colour override.
#[derive(PartialEq, Eq, Structural, Clone, Copy, Debug)]
pub enum ThemeErrorKind {
    /// Not six hex digits after an optional `#`.
    Format,
    /// The red pair is not a hex number.
    Red,
    /// The green pair is not a hex number.
    Green,
    /// The blue pair is not a hex number.
    Blue,
}

/// A refused colour override: its configuration key and what is wrong.
#[derive(Debug)]
pub struct ThemeError {
    pub field: String,
    pub kind: ThemeErrorKind,
}

/// The value of a hex digit byte, either case.
pub open spec fn hex_digit_value(c: u8) -> Option<u8> {
    if 0x30 <= c <= 0x39 {
        Some((c - 0x30) as u8)
    } else if 0x61 <= c <= 0x66 {
        Some((c - 0x61 + 10) as u8)
    } else if 0x41 <= c <= 0x46 {
        Some((c - 0x41 + 10) as u8)
    } else {
        None
    }
}

/// A two-byte channel read as a base-16 `u8`: two hex digits, or a `+`
/// sign followed by one hex digit.
pub open spec fn channel_value(a: u8, b: u8) -> Option<u8> {
    if a == 0x2b {
        hex_digit_value(b)
    } else {
        match (hex_digit_value(a), hex_digit_value(b)) {
            (Some(x), Some(y)) => Some((x * 16 + y) as u8),
            _ => None,
        }
    }
}

/// The bytes after a leading `#`, if there is one.
pub open spec fn hex_body(b: Seq<u8>) -> Seq<u8> {
    if b.len() > 0 && b[0] == 0x23 {
        b.subrange(1, b.len() as int)
    } else {
        b
    }
}

/// A UTF-8 continuation byte: no character starts there.
pub open spec fn is_continuation(c: u8) -> bool {
    0x80 <= c <= 0xbf
}

/// The colour written in the UTF-8 bytes `b`, or why it is refused.
pub open spec fn parse_color(b: Seq<u8>) -> Result<Rgb, ThemeErrorKind> {
    let h = hex_body(b);
    if h.len() != 6 {
        Err(ThemeErrorKind::Format)
    } else {
        match channel_value(h[0], h[1]) {
            None => Err(ThemeErrorKind::Red),
            Some(r) => match channel_value(h[2], h[3]) {
                None => Err(ThemeErrorKind::Green),
                Some(g) => match channel_value(h[4], h[5]) {
                    None => Err(ThemeErrorKind::Blue),
                    Some(bl) => Ok(Rgb { r, g, b: bl }),
                },
            },
        }
    }
}

/// The channels of a six-byte value are cut at character boundaries as far
/// as they are read: byte 2 always, byte 4 once the red pair is accepted.
pub open spec fn color_cuts_ok(b: Seq<u8>) -> bool {
    let h = hex_body(b);
    h.len() == 6 ==> {
        &&& !is_continuation(h[2])
        &&& (channel_value(h[0], h[1]) is Some ==> !is_continuation(h[4]))
    }
}

/// Why an override is refused, if it is.
pub open spec fn color_override_error(v: Option<String>) -> Option<ThemeErrorKind> {
    match v {
        Some(s) => match parse_color(encode_utf8(s@)) {
            Err(k) => Some(k),
            Ok(_) => None,
        },
        None => None,
    }
}

/// A colour after its override.
pub open spec fn color_after(v: Option<String>, default: Rgb) -> Rgb {
    match v {
        Some(s) => match parse_color(encode_utf8(s@)) {
            Ok(c) => c,
            Err(_) => default,
        },
        None => default,
    }
}

/// An override that can be read without cutting a character.
pub open spec fn color_override_cuts_ok(v: Option<String>) -> bool {
    match v {
        Some(s) => color_cuts_ok(encode_utf8(s@)),
        None => true,
    }
}

/// The value of a hex digit byte.
fn hex_digit(c: u8) -> (r: Option<u8>)
    ensures
        r == hex_digit_value(c),
{
    if 0x30 <= c && c <= 0x39 {
        Some(c - 0x30)
    } else if 0x61 <= c && c <= 0x66 {
        Some(c - 0x61 + 10)
    } else if 0x41 <= c && c <= 0x46 {
        Some(c - 0x41 + 10)
    } else {
        None
    }
}

/// A two-byte channel read as a base-16 `u8`.
fn channel(a: u8, b: u8) -> (r: Option<u8>)
    ensures
        r == channel_value(a, b),
{
    if a == 0x2b {
        hex_digit(b)
    } else {
        match (hex_digit(a), hex_digit(b)) {
            (Some(x), Some(y)) => Some(x * 16 + y),
            _ => None,
        }
    }
}

/// Reads a `#RRGGBB` colour (the `#` is optional) given for the key
/// `field`.
pub fn parse_hex_color(field: &str, value: &str) -> (r: Result<Rgb, ThemeError>)
    requires
        color_cuts_ok(encode_utf8(value@)),
    ensures
        match r {
            Ok(c) => parse_color(encode_utf8(value@)) == Ok::<Rgb, ThemeErrorKind>(c),
            Err(e) => parse_color(encode_utf8(value@)) == Err::<Rgb, ThemeErrorKind>(e.kind)
                && e.field@ == field@,
        },
{
    let bytes = value.as_bytes();
    let ghost all = bytes@;
    let start: usize = if bytes.len() > 0 && bytes[0] == 0x23 { 1 } else { 0 };
    let ghost h = hex_body(all);
    assert(h =~= all.subrange(start as int, all.len() as int));
    if bytes.len() - start != 6 {
        return Err(ThemeError { field: string_of(field), kind: ThemeErrorKind::Format });
    }
    let r = match channel(bytes[start], bytes[start + 1]) {
        Some(v) => v,
        None => {
            return Err(ThemeError { field: string_of(field), kind: ThemeErrorKind::Red });
        },
    };
    let g = match channel(bytes[start + 2], bytes[start + 3]) {
        Some(v) => v,
        None => {
            return Err(ThemeError { field: string_of(field), kind: ThemeErrorKind::Green });
        },
    };
    let b = match channel(bytes[start + 4], bytes[start + 5]) {
        Some(v) => v,
        None => {
            return Err(ThemeError { field: string_of(field), kind: ThemeErrorKind::Blue });
        },
    };
    Ok(Rgb { r, g, b })
}

/// A colour override applied over `target`.
fn apply_color(field: &str, target: Rgb, v: &Option<String>) -> (r: Result<Rgb, ThemeError>)
    requires
        color_override_cuts_ok(*v),
    ensures
        match r {
            Ok(c) => color_override_error(*v) is None && c == color_after(*v, target),
            Err(e) => color_override_error(*v) == Some(e.kind) && e.field@ == field@,
        },
{
    match v {
        Some(s) => parse_hex_color(field, s.as_str()),
        None => Ok(target),
    }
}

impl ThemeOverrides {
    /// Every override can be read without cutting a character.
    pub open spec fn cuts_ok(self) -> bool {
        &&& color_override_cuts_ok(self.bg)
        &&& color_override_cuts_ok(self.bg_soft)
        &&& color_override_cuts_ok(self.bg_raised)
        &&& color_override_cuts_ok(self.line)
        &&& color_override_cuts_ok(self.line_soft)
        &&& color_override_cuts_ok(self.fg)
        &&& color_override_cuts_ok(self.fg_dim)
        &&& color_override_cuts_ok(self.fg_mute)
        &&& color_override_cuts_ok(self.fg_faint)
        &&& color_override_cuts_ok(self.accent)
        &&& color_override_cuts_ok(self.red)
        &&& color_override_cuts_ok(self.yellow)
        &&& color_override_cuts_ok(self.green)
        &&& color_override_cuts_ok(self.teal)
        &&& color_override_cuts_ok(self.blue)
        &&& color_override_cuts_ok(self.purple)
        &&& color_override_cuts_ok(self.pink)
    }

    /// The key and refusal of the first refused override, in the order of
    /// the `[theme]` keys.
    pub open spec fn first_error(self) -> Option<(Seq<char>, ThemeErrorKind)> {
        if color_override_error(self.bg) is Some {
            Some(("theme.bg"@, color_override_error(self.bg)->0))
        } else if color_override_error(self.bg_soft) is Some {
            Some(("theme.bg_soft"@, color_override_error(self.bg_soft)->0))
        } else if color_override_error(self.bg_raised) is Some {
            Some(("theme.bg_raised"@, color_override_error(self.bg_raised)->0))
        } else if color_override_error(self.line) is Some {
            Some(("theme.line"@, color_override_error(self.line)->0))
        } else if color_override_error(self.line_soft) is Some {
            Some(("theme.line_soft"@, color_override_error(self.line_soft)->0))
        } else if color_override_error(self.fg) is Some {
            Some(("theme.fg"@, color_override_error(self.fg)->0))
        } else if color_override_error(self.fg_dim) is Some {
            Some(("theme.fg_dim"@, color_override_error(self.fg_dim)->0))
        } else if color_override_error(self.fg_mute) is Some {
            Some(("theme.fg_mute"@, color_override_error(self.fg_mute)->0))
        } else if color_override_error(self.fg_faint) is Some {
            Some(("theme.fg_faint"@, color_override_error(self.fg_faint)->0))
        } else if color_override_error(self.accent) is Some {
            Some(("theme.accent"@, color_override_error(self.accent)->0))
        } else if color_override_error(self.red) is Some {
            Some(("theme.red"@, color_override_error(self.red)->0))
        } else if color_override_error(self.yellow) is Some {
            Some(("theme.yellow"@, color_override_error(self.yellow)->0))
        } else if color_override_error(self.green) is Some {
            Some(("theme.green"@, color_override_error(self.green)->0))
        } else if color_override_error(self.teal) is Some {
            Some(("theme.teal"@, color_override_error(self.teal)->0))
        } else if color_override_error(self.blue) is Some {
            Some(("theme.blue"@, color_override_error(self.blue)->0))
        } else if color_override_error(self.purple) is Some {
            Some(("theme.purple"@, color_override_error(self.purple)->0))
        } else if color_override_error(self.pink) is Some {
            Some(("theme.pink"@, color_override_error(self.pink)->0))
        } else {
            None
        }
    }

    /// `t` holds the built-in palette with every override applied.
    pub open spec fn applied(self, t: Theme) -> bool {
        let d = default_theme();
        &&& t.bg == color_after(self.bg, d.bg)
        &&& t.bg_soft == color_after(self.bg_soft, d.bg_soft)
        &&& t.bg_raised == color_after(self.bg_raised, d.bg_raised)
        &&& t.line == color_after(self.line, d.line)
        &&& t.line_soft == color_after(self.line_soft, d.line_soft)
        &&& t.fg == color_after(self.fg, d.fg)
        &&& t.fg_dim == color_after(self.fg_dim, d.fg_dim)
        &&& t.fg_mute == color_after(self.fg_mute, d.fg_mute)
        &&& t.fg_faint == color_after(self.fg_faint, d.fg_faint)
        &&& t.accent == color_after(self.accent, d.accent)
        &&& t.red == color_after(self.red, d.red)
        &&& t.yellow == color_after(self.yellow, d.yellow)
        &&& t.green == color_after(self.green, d.green)
        &&& t.teal == color_after(self.teal, d.teal)
        &&& t.blue == color_after(self.blue, d.blue)
        &&& t.purple == color_after(self.purple, d.purple)
        &&& t.pink == color_after(self.pink, d.pink)
    }

    /// Whether every override can be read without cutting a character.
    pub fn check_cuts(&self) -> (ok: bool)
        ensures
            ok == self.cuts_ok(),
    {
        override_cuts_ok(&self.bg)
        && override_cuts_ok(&self.bg_soft)
        && override_cuts_ok(&self.bg_raised)
        && override_cuts_ok(&self.line)
        && override_cuts_ok(&self.line_soft)
        && override_cuts_ok(&self.fg)
        && override_cuts_ok(&self.fg_dim)
        && override_cuts_ok(&self.fg_mute)
        && override_cuts_ok(&self.fg_faint)
        && override_cuts_ok(&self.accent)
        && override_cuts_ok(&self.red)
        && override_cuts_ok(&self.yellow)
        && override_cuts_ok(&self.green)
        && override_cuts_ok(&self.teal)
        && override_cuts_ok(&self.blue)
        && override_cuts_ok(&self.purple)
        && override_cuts_ok(&self.pink)
    }

    /// The built-in palette with these overrides applied, or the first
    /// refused override.
    #[verifier::rlimit(40)]
    pub fn resolve(&self) -> (r: Result<Theme, ThemeError>)
        requires
            self.cuts_ok(),
        ensures
            match r {
                Ok(t) => self.first_error() is None && self.applied(t),
                Err(e) => self.first_error() == Some((e.field@, e.kind)),
            },
    {
        let mut theme = Theme::default();
        match apply_color("theme.bg", theme.bg, &self.bg) {
            Ok(c) => { theme.bg = c; },
            Err(e) => { return Err(e); },
        }
        match apply_color("theme.bg_soft", theme.bg_soft, &self.bg_soft) {
            Ok(c) => { theme.bg_soft = c; },
            Err(e) => { return Err(e); },
        }
        match apply_color("theme.bg_raised", theme.bg_raised, &self.bg_raised) {
            Ok(c) => { theme.bg_raised = c; },
            Err(e) => { return Err(e); },
        }
        match apply_color("theme.line", theme.line, &self.line) {
            Ok(c) => { theme.line = c; },
            Err(e) => { return Err(e); },
        }
        match apply_color("theme.line_soft", theme.line_soft, &self.line_soft) {
            Ok(c) => { theme.line_soft = c; },
            Err(e) => { return Err(e); },
        }
        match apply_color("theme.fg", theme.fg, &self.fg) {
            Ok(c) => { theme.fg = c; },
            Err(e) => { return Err(e); },
        }
        match apply_color("theme.fg_dim", theme.fg_dim, &self.fg_dim) {
            Ok(c) => { theme.fg_dim = c; },
            Err(e) => { return Err(e); },
        }
        match apply_color("theme.fg_mute", theme.fg_mute, &self.fg_mute) {
            Ok(c) => { theme.fg_mute = c; },
            Err(e) => { return Err(e); },
        }
        match apply_color("theme.fg_faint", theme.fg_faint, &self.fg_faint) {
            Ok(c) => { theme.fg_faint = c; },
            Err(e) => { return Err(e); },
        }
        match apply_color("theme.accent", theme.accent, &self.accent) {
            Ok(c) => { theme.accent = c; },
            Err(e) => { return Err(e); },
        }
        match apply_color("theme.red", theme.red, &self.red) {
            Ok(c) => { theme.red = c; },
            Err(e) => { return Err(e); },
        }
        match apply_color("theme.yellow", theme.yellow, &self.yellow) {
            Ok(c) => { theme.yellow = c; },
            Err(e) => { return Err(e); },
        }
        match apply_color("theme.green", theme.green, &self.green) {
            Ok(c) => { theme.green = c; },
            Err(e) => { return Err(e); },
        }
        match apply_color("theme.teal", theme.teal, &self.teal) {
            Ok(c) => { theme.teal = c; },
            Err(e) => { return Err(e); },
        }
        match apply_color("theme.blue", theme.blue, &self.blue) {
            Ok(c) => { theme.blue = c; },
            Err(e) => { return Err(e); },
        }
        match apply_color("theme.purple", theme.purple, &self.purple) {
            Ok(c) => { theme.purple = c; },
            Err(e) => { return Err(e); },
        }
        match apply_color("theme.pink", theme.pink, &self.pink) {
            Ok(c) => { theme.pink = c; },
            Err(e) => { return Err(e); },
        }
        Ok(theme)
    }
}

/// Whether an override can be read without cutting a character.
fn override_cuts_ok(v: &Option<String>) -> (ok: bool)
    ensures
        ok == color_override_cuts_ok(*v),
{
    match v {
        Some(s) => {
            let bytes = s.as_str().as_bytes();
            let ghost all = bytes@;
            let start: usize = if bytes.len() > 0 && bytes[0] == 0x23 { 1 } else { 0 };
            assert(hex_body(all) =~= all.subrange(start as int, all.len() as int));
            if bytes.len() - start != 6 {
                true
            } else if 0x80 <= bytes[start + 2] && bytes[start + 2] <= 0xbf {
                false
            } else if channel(bytes[start], bytes[start + 1]).is_some() {
                !(0x80 <= bytes[start + 4] && bytes[start + 4] <= 0xbf)
            } else {
                true
            }
        },
        None => true,
    }
}

/// `#rrggbb` in lowercase hex.
pub open spec fn hex_text(c: Rgb) -> Seq<char> {
    seq![
        '#',
        hex_char((c.r / 16) as int),
        hex_char((c.r % 16) as int),
        hex_char((c.g / 16) as int),
        hex_char((c.g % 16) as int),
        hex_char((c.b / 16) as int),
        hex_char((c.b % 16) as int),
    ]
}

/// Renders a colour as `#rrggbb`.
pub fn color_to_hex(c: Rgb) -> (s: String)
    ensures
        s@ == hex_text(c),
{
    let mut s = String::new();
    push_char(&mut s, '#');
    push_char(&mut s, hex_digit_char(c.r / 16));
    push_char(&mut s, hex_digit_char(c.r % 16));
    push_char(&mut s, hex_digit_char(c.g / 16));
    push_char(&mut s, hex_digit_char(c.g % 16));
    push_char(&mut s, hex_digit_char(c.b / 16));
    push_char(&mut s, hex_digit_char(c.b % 16));
    s
}

/// Reading back a hex digit written by `hex_char`.
proof fn lemma_hex_char_value(d: int)
    requires
        0 <= d < 16,
    ensures
        hex_digit_value(hex_char(d) as u8) == Some(d as u8),
        (hex_char(d) as u8) != 0x2b,
        '\0' <= hex_char(d) <= '\u{7f}',
{
}

/// Reading back a channel written as two hex digits.
proof fn lemma_channel_round_trip(v: u8)
    ensures
        channel_value(hex_char((v / 16) as int) as u8, hex_char((v % 16) as int) as u8) == Some(v),
{
    lemma_hex_char_value((v / 16) as int);
    lemma_hex_char_value((v % 16) as int);
}

/// Every colour reads back from its hex rendering, and reading it cuts no
/// character.
pub proof fn lemma_hex_round_trip(c: Rgb)
    ensures
        parse_color(encode_utf8(hex_text(c))) == Ok::<Rgb, ThemeErrorKind>(c),
        color_cuts_ok(encode_utf8(hex_text(c))),
{
    let t = hex_text(c);
    lemma_hex_char_value((c.r / 16) as int);
    lemma_hex_char_value((c.r % 16) as int);
    lemma_hex_char_value((c.g / 16) as int);
    lemma_hex_char_value((c.g % 16) as int);
    lemma_hex_char_value((c.b / 16) as int);
    lemma_hex_char_value((c.b % 16) as int);
    assert(is_ascii_chars(t)) by {
        assert forall|i| 0 <= i < t.len() implies '\0' <= #[trigger] t[i] <= '\u{7f}' by {
            if i == 0 {
            } else if i == 1 {
            } else if i == 2 {
            } else if i == 3 {
            } else if i == 4 {
            } else if i == 5 {
            } else {
            }
        }
    }
    is_ascii_chars_encode_utf8(t);
    let b = encode_utf8(t);
    assert(b[0] == t[0] as u8);
    assert(b[0] == 0x23);
    let h = hex_body(b);
    assert(h.len() == 6);
    assert(h[0] == b[1] && b[1] == t[1] as u8);
    assert(h[1] == b[2] && b[2] == t[2] as u8);
    assert(h[2] == b[3] && b[3] == t[3] as u8);
    assert(h[3] == b[4] && b[4] == t[4] as u8);
    assert(h[4] == b[5] && b[5] == t[5] as u8);
    assert(h[5] == b[6] && b[6] == t[6] as u8);
    lemma_channel_round_trip(c.r);
    lemma_channel_round_trip(c.g);
    lemma_channel_round_trip(c.b);
}

/// The message of a refused colour override.
pub open spec fn theme_error_message(field: Seq<char>, kind: ThemeErrorKind) -> Seq<char> {
    match kind {
        ThemeErrorKind::Format => field + " must use #RRGGBB format"@,
        ThemeErrorKind::Red => field + " has an invalid red channel"@,
        ThemeErrorKind::Green => field + " has an invalid green channel"@,
        ThemeErrorKind::Blue => field + " has an invalid blue channel"@,
    }
}

impl ThemeError {
    /// The message shown for this refusal.
    pub fn message(&self) -> (m: String)
        ensures
            m@ == theme_error_message(self.field@, self.kind),
    {
        let mut m = self.field.clone();
        match self.kind {
            ThemeErrorKind::Format => push_str(&mut m, " must use #RRGGBB format"),
            ThemeErrorKind::Red => push_str(&mut m, " has an invalid red channel"),
            ThemeErrorKind::Green => push_str(&mut m, " has an invalid green channel"),
            ThemeErrorKind::Blue => push_str(&mut m, " has an invalid blue channel"),
        }
        m
    }
}


/// Hex digits read the same in either case: `A`..`F` are 10..15, like
/// `a`..`f`; `0`..`9` are 0..9; no other byte is a digit.
pub proof fn lemma_hex_digits_ignore_case(c: u8)
    ensures
        (0x41 <= c && c <= 0x46) ==> hex_digit_value(c) == Some((c - 0x41 + 10) as u8) && hex_digit_value(
            (c + 0x20) as u8,
        ) == hex_digit_value(c),
        (0x61 <= c && c <= 0x66) ==> hex_digit_value(c) == Some((c - 0x61 + 10) as u8),
        (0x30 <= c && c <= 0x39) ==> hex_digit_value(c) == Some((c - 0x30) as u8),
        !((0x30 <= c && c <= 0x39) || (0x41 <= c && c <= 0x46) || (0x61 <= c && c <= 0x66)) ==> hex_digit_value(c)
            is None,
{
}

/// A colour channel reads the same whether its hex letters are upper or
/// lower case.
pub proof fn lemma_channel_ignores_case(a: u8, b: u8)
    requires
        (0x41 <= a && a <= 0x46) || (0x30 <= a && a <= 0x39),
        (0x41 <= b && b <= 0x46) || (0x30 <= b && b <= 0x39),
    ensures
        channel_value(a, b) == channel_value(
            if a >= 0x41 { (a + 0x20) as u8 } else { a },
            if b >= 0x41 { (b + 0x20) as u8 } else { b },
        ),
        channel_value(a, b) is Some,
{
}


/// An ASCII upper-case letter made lower case; every other byte as it is.
pub open spec fn ascii_lower(c: u8) -> u8 {
    if 0x41 <= c <= 0x5a { (c + 0x20) as u8 } else { c }
}

/// A digit's value does not change with its letter case.
proof fn lemma_hex_digit_lower(c: u8)
    ensures
        hex_digit_value(ascii_lower(c)) == hex_digit_value(c),
{
}

/// A channel's value does not change with its letters' case.
proof fn lemma_channel_lower(a: u8, b: u8)
    ensures
        channel_value(ascii_lower(a), ascii_lower(b)) == channel_value(a, b),
{
    lemma_hex_digit_lower(a);
    lemma_hex_digit_lower(b);
}

/// A colour reads the same whatever the case of its hex letters: the value
/// with every upper-case letter made lower case parses to the same colour,
/// or is refused for the same reason.
pub proof fn lemma_color_ignores_case(b: Seq<u8>)
    ensures
        parse_color(b.map_values(|c: u8| ascii_lower(c))) == parse_color(b),
{
    let l = b.map_values(|c: u8| ascii_lower(c));
    let h = hex_body(b);
    let hl = hex_body(l);
    assert(hl =~= h.map_values(|c: u8| ascii_lower(c)));
    if h.len() == 6 {
        lemma_channel_lower(h[0], h[1]);
        lemma_channel_lower(h[2], h[3]);
        lemma_channel_lower(h[4], h[5]);
    }
}

} // verus!

