//! Colors of the cleaning overlay.
//!
//! The overlay's ink (text, button, bar) is chosen for legibility against the background by
//! luminance: white ink on dark backgrounds, black ink on light ones.
use vstd::prelude::*;

use crate::text::push_char;

verus! {

/// A 24-bit RGB color.
#[derive(Debug, Clone, Copy, PartialEq, Eq, Structural)]
pub struct Rgb {
    /// Red channel, 0-255.
    pub r: u8,
    /// Green channel, 0-255.
    pub g: u8,
    /// Blue channel, 0-255.
    pub b: u8,
}

/// Perceptual luminance weights `0.299 R + 0.587 G + 0.114 B`, scaled by 1000 so they are
/// integers: the weighted sum of a color ranges over `0..=255_000`.
pub open spec fn weighted_luminance(c: Rgb) -> int {
    299 * c.r + 587 * c.g + 114 * c.b
}

/// The uppercase hexadecimal digit for `d < 16`.
pub open spec fn hex_digit(d: int) -> char {
    if d < 10 {
        (d + 48) as char
    } else {
        (d + 55) as char
    }
}

/// The two uppercase hexadecimal digits of a byte.
pub open spec fn hex_byte(v: u8) -> Seq<char> {
    seq![hex_digit((v / 16) as int), hex_digit((v % 16) as int)]
}

impl Rgb {
    /// Creates a color from its 8-bit channels.
    pub fn new(r: u8, g: u8, b: u8) -> (c: Rgb)
        ensures
            c == (Rgb { r, g, b }),
    {
        Rgb { r, g, b }
    }

    /// Pure black, `#000000`.
    pub fn black() -> (c: Rgb)
        ensures
            c == (Rgb { r: 0, g: 0, b: 0 }),
    {
        Rgb { r: 0, g: 0, b: 0 }
    }

    /// Pure white, `#FFFFFF`.
    pub fn white() -> (c: Rgb)
        ensures
            c == (Rgb { r: 255, g: 255, b: 255 }),
    {
        Rgb { r: 255, g: 255, b: 255 }
    }

    /// Whether this color reads as light: its luminance `0.299 R + 0.587 G + 0.114 B` (channels
    /// taken as fractions of 255) is above the midpoint 0.5.
    pub fn is_light(self) -> (b: bool)
        ensures
            b == (weighted_luminance(self) > 127_500),
    {
        let sum: u32 = 299 * (self.r as u32) + 587 * (self.g as u32) + 114 * (self.b as u32);
        sum > 127_500
    }

    /// Packs this color into the `0x00RRGGBB` word format of a pixel buffer.
    pub fn to_u32(self) -> (w: u32)
        ensures
            w == self.r * 65536 + self.g * 256 + self.b,
    {
        let r = self.r as u32;
        let g = self.g as u32;
        let b = self.b as u32;
        assert(((r << 16u32) | (g << 8u32) | b) == r * 65536 + g * 256 + b) by (bit_vector)
            requires
                r < 256,
                g < 256,
                b < 256,
        ;
        (r << 16) | (g << 8) | b
    }

    /// Unpacks a `0x00RRGGBB` pixel word (the top byte is ignored).
    pub fn from_u32(w: u32) -> (c: Rgb)
        ensures
            c.r == (w / 65536) % 256,
            c.g == (w / 256) % 256,
            c.b == w % 256,
    {
        let r = (w >> 16) & 0xFF;
        let g = (w >> 8) & 0xFF;
        let b = w & 0xFF;
        assert(r == (w / 65536) % 256 && g == (w / 256) % 256 && b == w % 256) by (bit_vector)
            requires
                r == (w >> 16u32) & 0xFFu32,
                g == (w >> 8u32) & 0xFFu32,
                b == w & 0xFFu32,
        ;
        Rgb { r: r as u8, g: g as u8, b: b as u8 }
    }

    /// The color as `#RRGGBB` with uppercase hexadecimal digits.
    pub fn to_hex_string(self) -> (s: String)
        ensures
            s@ == seq!['#'] + hex_byte(self.r) + hex_byte(self.g) + hex_byte(self.b),
    {
        let mut s = String::new();
        push_char(&mut s, '#');
        push_hex_byte(&mut s, self.r);
        push_hex_byte(&mut s, self.g);
        push_hex_byte(&mut s, self.b);
        s
    }
}

fn hex_char(d: u8) -> (c: char)
    requires
        d < 16,
    ensures
        c == hex_digit(d as int),
{
    if d < 10 {
        (d + 48) as char
    } else {
        (d + 55) as char
    }
}

fn push_hex_byte(s: &mut String, v: u8)
    ensures
        final(s)@ == old(s)@ + hex_byte(v),
{
    push_char(s, hex_char(v / 16));
    push_char(s, hex_char(v % 16));
}

impl Default for Rgb {
    fn default() -> (c: Rgb)
        ensures
            c == (Rgb { r: 0, g: 0, b: 0 }),
    {
        Rgb { r: 0, g: 0, b: 0 }
    }
}

/// The two cleaning screen colors offered by the app.
#[derive(Debug, Clone, Copy, PartialEq, Eq, Structural)]
pub enum CleaningColor {
    /// Pure black cleaning screen (the default).
    Black,
    /// Pure white cleaning screen.
    White,
}

/// The settings-file spelling of a cleaning color.
pub open spec fn setting_str(c: CleaningColor) -> Seq<char> {
    match c {
        CleaningColor::Black => seq!['b', 'l', 'a', 'c', 'k'],
        CleaningColor::White => seq!['w', 'h', 'i', 't', 'e'],
    }
}

/// The cleaning color spelled `s` in the settings file, if any.
pub open spec fn color_from_setting(s: Seq<char>) -> Option<CleaningColor> {
    if s == setting_str(CleaningColor::Black) {
        Some(CleaningColor::Black)
    } else if s == setting_str(CleaningColor::White) {
        Some(CleaningColor::White)
    } else {
        None
    }
}

impl CleaningColor {
    /// The screen's fill color: black or white.
    pub open spec fn spec_rgb(self) -> Rgb {
        match self {
            CleaningColor::Black => Rgb { r: 0, g: 0, b: 0 },
            CleaningColor::White => Rgb { r: 255, g: 255, b: 255 },
        }
    }

    /// The screen's fill color.
    pub fn rgb(self) -> (c: Rgb)
        ensures
            c == self.spec_rgb(),
    {
        match self {
            CleaningColor::Black => Rgb::black(),
            CleaningColor::White => Rgb::white(),
        }
    }

    /// The settings file's string form (`"black"` / `"white"`).
    pub fn as_setting_str(self) -> (s: &'static str)
        ensures
            s@ == setting_str(self),
    {
        proof {
            reveal_strlit("black");
            reveal_strlit("white");
        }
        match self {
            CleaningColor::Black => "black",
            CleaningColor::White => "white",
        }
    }

    /// Parses a settings string; `None` for anything but `"black"` or `"white"`.
    pub fn from_setting_str(s: &str) -> (c: Option<CleaningColor>)
        ensures
            c == color_from_setting(s@),
    {
        let v = crate::text::chars_of(s);
        if chars_equal(&v, &['b', 'l', 'a', 'c', 'k']) {
            Some(CleaningColor::Black)
        } else if chars_equal(&v, &['w', 'h', 'i', 't', 'e']) {
            Some(CleaningColor::White)
        } else {
            None
        }
    }
}

impl Default for CleaningColor {
    fn default() -> (c: CleaningColor)
        ensures
            c == CleaningColor::Black,
    {
        CleaningColor::Black
    }
}

/// A cleaning color reads back from its own settings-file spelling, and the two spellings
/// differ.
pub proof fn lemma_setting_str_round_trip(c: CleaningColor)
    ensures
        color_from_setting(setting_str(c)) == Some(c),
        setting_str(CleaningColor::Black) != setting_str(CleaningColor::White),
{
    assert(setting_str(CleaningColor::Black)[0] != setting_str(CleaningColor::White)[0]);
}

/// Whether `a` and `b` hold the same characters.
pub(crate) fn chars_equal(a: &[char], b: &[char]) -> (r: bool)
    ensures
        r == (a@ == b@),
{
    if a.len() != b.len() {
        return false;
    }
    let mut i: usize = 0;
    while i < a.len()
        invariant
            a@.len() == b@.len(),
            i <= a@.len(),
            forall|j: int| 0 <= j < i ==> a@[j] == b@[j],
        decreases a.len() - i,
    {
        if a[i] != b[i] {
            return false;
        }
        i += 1;
    }
    assert(a@ =~= b@);
    true
}

/// The system's light or dark appearance, which the keyboard-only heads-up pill follows.
#[derive(Debug, Clone, Copy, PartialEq, Eq, Structural)]
pub enum Appearance {
    /// Dark system appearance.
    Dark,
    /// Light system appearance.
    Light,
}

/// The heads-up pill's colors under `appearance`: `(fill, border, ink)`.
pub open spec fn hud_colors_spec(appearance: Appearance) -> (Rgb, Rgb, Rgb) {
    match appearance {
        Appearance::Dark => (
            Rgb { r: 28, g: 28, b: 30 },
            Rgb { r: 60, g: 60, b: 62 },
            Rgb { r: 255, g: 255, b: 255 },
        ),
        Appearance::Light => (
            Rgb { r: 246, g: 246, b: 248 },
            Rgb { r: 214, g: 214, b: 217 },
            Rgb { r: 0, g: 0, b: 0 },
        ),
    }
}

/// The heads-up pill's fill, border and ink colors: near-black with white ink in dark mode,
/// near-white with black ink in light mode.
pub fn hud_colors(appearance: Appearance) -> (c: (Rgb, Rgb, Rgb))
    ensures
        c == hud_colors_spec(appearance),
{
    match appearance {
        Appearance::Dark => (Rgb::new(28, 28, 30), Rgb::new(60, 60, 62), Rgb::white()),
        Appearance::Light => (Rgb::new(246, 246, 248), Rgb::new(214, 214, 217), Rgb::black()),
    }
}

/// The ink for `background`: black on light backgrounds, white on dark ones.
pub open spec fn ink_spec(background: Rgb) -> Rgb {
    if weighted_luminance(background) > 127_500 {
        Rgb { r: 0, g: 0, b: 0 }
    } else {
        Rgb { r: 255, g: 255, b: 255 }
    }
}

/// The overlay ink for legibility against `background`: black on light backgrounds, white on
/// dark ones.
pub fn ink_for(background: Rgb) -> (ink: Rgb)
    ensures
        ink == ink_spec(background),
{
    if background.is_light() {
        Rgb::black()
    } else {
        Rgb::white()
    }
}

} // verus!
