//! Terminal colour schemes: the options of the colour generator, the scheme
//! it produces, and the text written from a scheme (terminal escape
//! sequences, the `colors` and `sequences` cache files, the preview), as well
//! as the `#rrggbb` notation of colours.
//!
//! A scheme holds a background, a foreground and the sixteen terminal colours
//! `color0` to `color15`, each as `#rrggbb` text; any of them may be missing.

use vstd::prelude::*;
use vstd::string::StringSliceAdditionalSpecFns;
use crate::text::{decimal, hex2, opt_view, owned, push_decimal, push_hex2, str_eq, string_views};
use crate::wallpaper::{CommandStep, StepSpec, optional_step, step_views};

verus! {

// ---------------------------------------------------------------------------
// Options
// ---------------------------------------------------------------------------

/// How colours are extracted from the image.
#[derive(Debug, Clone, Copy, PartialEq, Eq, Structural)]
pub enum Backend {
    FastResize,
    Kmeans,
    Wal,
}

/// The colour space colours are compared in.
#[derive(Debug, Clone, Copy, PartialEq, Eq, Structural)]
pub enum Colorspace {
    Salience,
    Lab,
    Lch,
}

/// The kind of palette produced.
#[derive(Debug, Clone, Copy, PartialEq, Eq, Structural)]
pub enum Palette {
    Dark,
    Light,
    Dark16,
}

/// Whether an optional argument is present and equal to `name`.
pub open spec fn arg_is(arg: Option<&str>, name: Seq<char>) -> bool {
    arg matches Some(a) && a@ == name
}

fn arg_equals(arg: Option<&str>, name: &str) -> (b: bool)
    ensures
        b == arg_is(arg, name@),
{
    match arg {
        Some(a) => str_eq(a, name),
        None => false,
    }
}

impl Backend {
    /// The extraction backend a command-line value names: `kmeans`, `wal`,
    /// anything else (or nothing) the fast resize.
    pub fn from_arg(arg: Option<&str>) -> (b: Backend)
        ensures
            b == if arg_is(arg, "kmeans"@) {
                Backend::Kmeans
            } else if arg_is(arg, "wal"@) {
                Backend::Wal
            } else {
                Backend::FastResize
            },
    {
        if arg_equals(arg, "kmeans") {
            Backend::Kmeans
        } else if arg_equals(arg, "wal") {
            Backend::Wal
        } else {
            Backend::FastResize
        }
    }
}

impl Colorspace {
    /// The colour space a command-line value names: `lch`, anything else
    /// (or nothing) Lab.
    pub fn from_arg(arg: Option<&str>) -> (c: Colorspace)
        ensures
            c == if arg_is(arg, "lab"@) {
                Colorspace::Lab
            } else if arg_is(arg, "lch"@) {
                Colorspace::Lch
            } else {
                Colorspace::Lab
            },
    {
        if arg_equals(arg, "lab") {
            Colorspace::Lab
        } else if arg_equals(arg, "lch") {
            Colorspace::Lch
        } else {
            Colorspace::Lab
        }
    }
}

impl Palette {
    /// The palette a command-line value names: `light`, `dark16`, anything
    /// else (or nothing) dark.
    pub fn from_arg(arg: Option<&str>) -> (p: Palette)
        ensures
            p == if arg_is(arg, "light"@) {
                Palette::Light
            } else if arg_is(arg, "dark16"@) {
                Palette::Dark16
            } else {
                Palette::Dark
            },
    {
        if arg_equals(arg, "light") {
            Palette::Light
        } else if arg_equals(arg, "dark16") {
            Palette::Dark16
        } else {
            Palette::Dark
        }
    }

    /// The palette of a light or dark scheme.
    pub fn for_light(light: bool) -> (p: Palette)
        ensures
            p == if light {
                Palette::Light
            } else {
                Palette::Dark
            },
    {
        if light {
            Palette::Light
        } else {
            Palette::Dark
        }
    }
}

// ---------------------------------------------------------------------------
// Colour notation
// ---------------------------------------------------------------------------

/// `#rrggbb` for a colour (`format!("#{:02x}{:02x}{:02x}", r, g, b)`).
pub open spec fn hex_color(r: u8, g: u8, b: u8) -> Seq<char> {
    "#"@ + hex2(r) + hex2(g) + hex2(b)
}

/// The `#rrggbb` text of a colour.
pub fn rgb_to_hex(r: u8, g: u8, b: u8) -> (s: String)
    ensures
        s@ == hex_color(r, g, b),
{
    let mut s = owned("#");
    push_hex2(&mut s, r);
    push_hex2(&mut s, g);
    push_hex2(&mut s, b);
    s
}

/// `bytes` without its leading `#` bytes (`str::trim_start_matches('#')`).
pub open spec fn skip_hashes(bytes: Seq<u8>) -> Seq<u8>
    decreases bytes.len(),
{
    if bytes.len() > 0 && bytes[0] == 35 {
        skip_hashes(bytes.drop_first())
    } else {
        bytes
    }
}

/// Whether byte offset `i` of UTF-8 text starts a character or ends the text
/// (`str::is_char_boundary`).
pub open spec fn is_boundary(bytes: Seq<u8>, i: int) -> bool {
    i == 0 || i == bytes.len() || (0 < i < bytes.len() && !(0x80 <= bytes[i] < 0xc0))
}

/// The value of a hexadecimal digit byte.
pub open spec fn hex_digit_value(c: u8) -> Option<nat> {
    if 48 <= c <= 57 {
        Some((c - 48) as nat)
    } else if 97 <= c <= 102 {
        Some((c - 87) as nat)
    } else if 65 <= c <= 70 {
        Some((c - 55) as nat)
    } else {
        None
    }
}

pub open spec fn all_hex_digits(d: Seq<u8>) -> bool {
    forall|i: int| 0 <= i < d.len() ==> hex_digit_value(d[i]) is Some
}

/// The value of a sequence of hexadecimal digits.
pub open spec fn hex_value(d: Seq<u8>) -> nat
    decreases d.len(),
{
    if d.len() == 0 {
        0
    } else {
        hex_value(d.drop_last()) * 16 + hex_digit_value(d.last())->0
    }
}

/// `u8::from_str_radix(text, 16)`: an optional `+` (not alone), then one or
/// more hexadecimal digits whose value is at most 255.
pub open spec fn parse_hex_u8(p: Seq<u8>) -> Option<u8> {
    if p.len() == 0 || (p.len() == 1 && (p[0] == 43 || p[0] == 45)) {
        None
    } else {
        let d = if p[0] == 43 {
            p.drop_first()
        } else {
            p
        };
        if all_hex_digits(d) && hex_value(d) <= 255 {
            Some(hex_value(d) as u8)
        } else {
            None
        }
    }
}

/// A colour channel read from two bytes of text: its hexadecimal value, 0
/// when they are not one.
pub open spec fn channel(p: Seq<u8>) -> u8 {
    match parse_hex_u8(p) {
        Some(v) => v,
        None => 0,
    }
}

/// The text after the leading `#`s splits into three two-byte channels: it
/// has at least six bytes and characters start at bytes 2, 4 and 6.
pub open spec fn hex_channels_readable(bytes: Seq<u8>) -> bool {
    let t = skip_hashes(bytes);
    t.len() >= 6 && is_boundary(t, 2) && is_boundary(t, 4) && is_boundary(t, 6)
}

/// The colour `#rrggbb` text names: bytes 0-1, 2-3 and 4-5 after the leading
/// `#`s, each read as a channel.
pub open spec fn hex_triplet(bytes: Seq<u8>) -> (u8, u8, u8) {
    let t = skip_hashes(bytes);
    (channel(t.subrange(0, 2)), channel(t.subrange(2, 4)), channel(t.subrange(4, 6)))
}

fn hex_digit(c: u8) -> (r: Option<u8>)
    ensures
        match hex_digit_value(c) {
            Some(v) => r == Some(v as u8),
            None => r is None,
        },
{
    if 48 <= c && c <= 57 {
        Some(c - 48)
    } else if 97 <= c && c <= 102 {
        Some(c - 87)
    } else if 65 <= c && c <= 70 {
        Some(c - 55)
    } else {
        None
    }
}

/// Reads a channel from two bytes.
fn read_channel(a: u8, b: u8) -> (r: u8)
    ensures
        r == channel(seq![a, b]),
{
    let ghost p = seq![a, b];
    if a == 43 {
        let ghost d = p.drop_first();
        assert(d =~= seq![b]);
        assert(hex_value(d) == hex_value(d.drop_last()) * 16 + hex_digit_value(b)->0);
        assert(d.drop_last() =~= Seq::<u8>::empty());
        match hex_digit(b) {
            Some(v) => v,
            None => {
                assert(!all_hex_digits(d));
                0
            },
        }
    } else {
        assert(p.drop_last() =~= seq![a]);
        assert(seq![a].drop_last() =~= Seq::<u8>::empty());
        match (hex_digit(a), hex_digit(b)) {
            (Some(x), Some(y)) => {
                assert(hex_value(p) == hex_value(seq![a]) * 16 + (y as nat));
                assert(seq![a].last() == a);
                assert(hex_value(Seq::<u8>::empty()) == 0);
                assert(hex_value(seq![a]) == x as nat);
                x * 16 + y
            },
            (None, _) => {
                assert(!(hex_digit_value(p[0]) is Some));
                0
            },
            (_, None) => {
                assert(!(hex_digit_value(p[1]) is Some));
                0
            },
        }
    }
}

/// The colour a `#rrggbb` text names (any number of leading `#`s; a channel
/// that is not hexadecimal reads as 0).
pub fn hex_to_rgb(hex: &str) -> (r: (u8, u8, u8))
    requires
        hex_channels_readable(hex.spec_bytes()),
    ensures
        r == hex_triplet(hex.spec_bytes()),
{
    let bytes = hex.as_bytes();
    let ghost all = bytes@;
    let mut start: usize = 0;
    assert(all.skip(0) == all);
    while start < bytes.len() && bytes[start] == 35
        invariant
            start <= bytes.len(),
            all == bytes@,
            skip_hashes(all) == skip_hashes(all.skip(start as int)),
        decreases bytes.len() - start,
    {
        assert(all.skip(start as int).drop_first() == all.skip(start + 1));
        start = start + 1;
    }
    let ghost t = all.skip(start as int);
    assert(skip_hashes(t) == t);
    assert(t.subrange(0, 2) =~= seq![all[start as int], all[start + 1]]);
    assert(t.subrange(2, 4) =~= seq![all[start + 2], all[start + 3]]);
    assert(t.subrange(4, 6) =~= seq![all[start + 4], all[start + 5]]);
    let r = read_channel(bytes[start], bytes[start + 1]);
    let g = read_channel(bytes[start + 2], bytes[start + 3]);
    let b = read_channel(bytes[start + 4], bytes[start + 5]);
    (r, g, b)
}


/// A lower-case hexadecimal digit is one ASCII byte with that digit value.
proof fn lemma_digit_byte(d: int)
    requires
        0 <= d < 16,
    ensures
        (crate::text::digit_char(d) as u32) < 128,
        crate::text::digit_char(d) as u8 != 35,
        crate::text::digit_char(d) as u8 != 43,
        crate::text::digit_char(d) as u8 != 45,
        hex_digit_value(crate::text::digit_char(d) as u8) == Some(d as nat),
{
    assert('0' as int == 48);
    assert('a' as int == 97);
}

/// Writing a colour as `#rrggbb` and reading it back gives the colour again.
pub proof fn hex_color_round_trip(r: u8, g: u8, b: u8)
    ensures
        hex_channels_readable(vstd::utf8::encode_utf8(hex_color(r, g, b))),
        hex_triplet(vstd::utf8::encode_utf8(hex_color(r, g, b))) == (r, g, b),
{
    reveal_strlit("#");
    let chars = hex_color(r, g, b);
    lemma_digit_byte((r / 16) as int);
    lemma_digit_byte((r % 16) as int);
    lemma_digit_byte((g / 16) as int);
    lemma_digit_byte((g % 16) as int);
    lemma_digit_byte((b / 16) as int);
    lemma_digit_byte((b % 16) as int);
    assert(chars =~= seq![
        '#',
        crate::text::digit_char((r / 16) as int),
        crate::text::digit_char((r % 16) as int),
        crate::text::digit_char((g / 16) as int),
        crate::text::digit_char((g % 16) as int),
        crate::text::digit_char((b / 16) as int),
        crate::text::digit_char((b % 16) as int),
    ]);
    assert(vstd::utf8::is_ascii_chars(chars));
    vstd::utf8::is_ascii_chars_encode_utf8(chars);
    let bytes = vstd::utf8::encode_utf8(chars);
    assert(bytes.len() == 7);
    assert(bytes[0] == 35);
    assert(bytes.drop_first().len() == 6);
    assert(bytes.drop_first()[0] == bytes[1]);
    assert(skip_hashes(bytes.drop_first()) == bytes.drop_first());
    let t = skip_hashes(bytes);
    assert(t == bytes.drop_first());
    lemma_pair_channel(t[0], t[1], (r / 16) as int, (r % 16) as int);
    lemma_pair_channel(t[2], t[3], (g / 16) as int, (g % 16) as int);
    lemma_pair_channel(t[4], t[5], (b / 16) as int, (b % 16) as int);
    assert(t.subrange(0, 2) =~= seq![t[0], t[1]]);
    assert(t.subrange(2, 4) =~= seq![t[2], t[3]]);
    assert(t.subrange(4, 6) =~= seq![t[4], t[5]]);
}

/// Two hexadecimal digit bytes read as a channel give their value.
proof fn lemma_pair_channel(a: u8, c: u8, hi: int, lo: int)
    requires
        0 <= hi < 16,
        0 <= lo < 16,
        hex_digit_value(a) == Some(hi as nat),
        hex_digit_value(c) == Some(lo as nat),
        a != 43,
        a != 45,
    ensures
        channel(seq![a, c]) == (hi * 16 + lo) as u8,
{
    let p = seq![a, c];
    assert(p.drop_last() =~= seq![a]);
    assert(seq![a].drop_last() =~= Seq::<u8>::empty());
    assert(seq![a].last() == a);
    assert(hex_value(Seq::<u8>::empty()) == 0);
    assert(hex_value(seq![a]) == hi);
    assert(hex_value(p) == hi * 16 + lo);
    assert(all_hex_digits(p));
}


// ---------------------------------------------------------------------------
// Schemes
// ---------------------------------------------------------------------------

/// A colour scheme: background, foreground and the terminal colours, each as
/// `#rrggbb` text when present. `colors[i]` is `color<i>`; only the first
/// sixteen are used.
pub struct ColorScheme {
    pub background: Option<String>,
    pub foreground: Option<String>,
    pub colors: Vec<Option<String>>,
}

/// The view of a [`ColorScheme`].
pub struct SchemeView {
    pub background: Option<Seq<char>>,
    pub foreground: Option<Seq<char>>,
    pub colors: Seq<Option<Seq<char>>>,
}

impl View for ColorScheme {
    type V = SchemeView;

    open spec fn view(&self) -> SchemeView {
        SchemeView {
            background: opt_view(self.background),
            foreground: opt_view(self.foreground),
            colors: self.colors@.map_values(|c: Option<String>| opt_view(c)),
        }
    }
}

/// `color<i>` of a scheme, if present.
pub open spec fn slot(colors: Seq<Option<Seq<char>>>, i: int) -> Option<Seq<char>> {
    if 0 <= i < colors.len() {
        colors[i]
    } else {
        None
    }
}

/// The number of terminal colours in a scheme.
pub const COLOR_COUNT: usize = 16;

fn color_at(scheme: &ColorScheme, i: usize) -> (r: Option<&String>)
    ensures
        match slot(scheme@.colors, i as int) {
            Some(c) => r matches Some(s) && s@ == c,
            None => r is None,
        },
{
    if i < scheme.colors.len() {
        match &scheme.colors[i] {
            Some(c) => Some(c),
            None => None,
        }
    } else {
        None
    }
}

/// The background and foreground escape sequences, present when both colours
/// are.
pub open spec fn special_sequences(s: SchemeView) -> Seq<char> {
    match (s.background, s.foreground) {
        (Some(bg), Some(fg)) => "\x1b]11;"@ + bg + "\x1b\\"@ + "\x1b]10;"@ + fg + "\x1b\\"@,
        _ => Seq::empty(),
    }
}

/// The escape sequences that set terminal colours `0` to `n - 1`, each
/// present colour in turn.
pub open spec fn color_sequences(s: SchemeView, n: nat) -> Seq<char>
    decreases n,
{
    if n == 0 {
        Seq::empty()
    } else {
        color_sequences(s, (n - 1) as nat) + match slot(s.colors, n - 1) {
            Some(c) => "\x1b]4;"@ + decimal((n - 1) as nat) + ";"@ + c + "\x1b\\"@,
            None => Seq::empty(),
        }
    }
}

/// The escape sequences that apply a scheme to a terminal.
pub open spec fn ansi_sequences(s: SchemeView) -> Seq<char> {
    color_sequences(s, COLOR_COUNT as nat) + special_sequences(s)
}

/// The `colors` cache file: one line per present colour, in order.
pub open spec fn color_lines(s: SchemeView, n: nat) -> Seq<char>
    decreases n,
{
    if n == 0 {
        Seq::empty()
    } else {
        color_lines(s, (n - 1) as nat) + match slot(s.colors, n - 1) {
            Some(c) => c + "\n"@,
            None => Seq::empty(),
        }
    }
}

/// The entries of the `sequences` cache file's colour list: `<i>;<colour>`
/// for each present colour, each but the one for colour 15 followed by `\`.
pub open spec fn sequence_entries(s: SchemeView, n: nat) -> Seq<char>
    decreases n,
{
    if n == 0 {
        Seq::empty()
    } else {
        sequence_entries(s, (n - 1) as nat) + match slot(s.colors, n - 1) {
            Some(c) => decimal((n - 1) as nat) + ";"@ + c + if n - 1 < 15 {
                "\\"@
            } else {
                Seq::empty()
            },
            None => Seq::empty(),
        }
    }
}

/// The `sequences` cache file.
pub open spec fn sequences_file(s: SchemeView) -> Seq<char> {
    "\x1b]4;"@ + sequence_entries(s, COLOR_COUNT as nat) + "\x1b\\"@ + special_sequences(s)
}

/// The preview's colour lines: `color<i>: <colour>` for each present colour.
pub open spec fn preview_lines(s: SchemeView, n: nat) -> Seq<char>
    decreases n,
{
    if n == 0 {
        Seq::empty()
    } else {
        preview_lines(s, (n - 1) as nat) + match slot(s.colors, n - 1) {
            Some(c) => "color"@ + decimal((n - 1) as nat) + ": "@ + c + "\n"@,
            None => Seq::empty(),
        }
    }
}

/// The preview of a scheme, as printed.
pub open spec fn preview_text(s: SchemeView) -> Seq<char> {
    "\nGenerated Color Palette:\n\n"@ + preview_lines(s, COLOR_COUNT as nat) + match (
        s.background,
        s.foreground,
    ) {
        (Some(bg), Some(fg)) => "\nBackground: "@ + bg + "\n"@ + "Foreground: "@ + fg + "\n"@,
        _ => Seq::empty(),
    } + "\n"@
}

fn push_special_sequences(out: &mut String, scheme: &ColorScheme)
    ensures
        final(out)@ == old(out)@ + special_sequences(scheme@),
{
    match (&scheme.background, &scheme.foreground) {
        (Some(bg), Some(fg)) => {
            out.append("\x1b]11;");
            out.append(bg.as_str());
            out.append("\x1b\\");
            out.append("\x1b]10;");
            out.append(fg.as_str());
            out.append("\x1b\\");
        },
        _ => {},
    }
}

/// The escape sequences that apply a scheme to a terminal: colours 0 to 15,
/// then background and foreground.
pub fn build_ansi_sequences(scheme: &ColorScheme) -> (r: String)
    ensures
        r@ == ansi_sequences(scheme@),
{
    let mut out = String::new();
    for i in 0..COLOR_COUNT
        invariant
            out@ == color_sequences(scheme@, i as nat),
    {
        match color_at(scheme, i) {
            Some(c) => {
                out.append("\x1b]4;");
                push_decimal(&mut out, i as u64);
                out.append(";");
                out.append(c.as_str());
                out.append("\x1b\\");
            },
            None => {},
        }
    }
    push_special_sequences(&mut out, scheme);
    out
}

/// The contents of the `colors` cache file.
pub fn colors_file_contents(scheme: &ColorScheme) -> (r: String)
    ensures
        r@ == color_lines(scheme@, COLOR_COUNT as nat),
{
    let mut out = String::new();
    for i in 0..COLOR_COUNT
        invariant
            out@ == color_lines(scheme@, i as nat),
    {
        match color_at(scheme, i) {
            Some(c) => {
                out.append(c.as_str());
                out.append("\n");
            },
            None => {},
        }
    }
    out
}

/// The contents of the `sequences` cache file.
pub fn sequences_file_contents(scheme: &ColorScheme) -> (r: String)
    ensures
        r@ == sequences_file(scheme@),
{
    let mut out = owned("\x1b]4;");
    let ghost head = out@;
    for i in 0..COLOR_COUNT
        invariant
            out@ == head + sequence_entries(scheme@, i as nat),
    {
        match color_at(scheme, i) {
            Some(c) => {
                push_decimal(&mut out, i as u64);
                out.append(";");
                out.append(c.as_str());
                if i < 15 {
                    out.append("\\");
                }
            },
            None => {},
        }
    }
    out.append("\x1b\\");
    push_special_sequences(&mut out, scheme);
    out
}

/// The preview of a scheme.
pub fn palette_preview(scheme: &ColorScheme) -> (r: String)
    ensures
        r@ == preview_text(scheme@),
{
    let mut out = owned("\nGenerated Color Palette:\n\n");
    let ghost head = out@;
    for i in 0..COLOR_COUNT
        invariant
            out@ == head + preview_lines(scheme@, i as nat),
    {
        match color_at(scheme, i) {
            Some(c) => {
                out.append("color");
                push_decimal(&mut out, i as u64);
                out.append(": ");
                out.append(c.as_str());
                out.append("\n");
            },
            None => {},
        }
    }
    match (&scheme.background, &scheme.foreground) {
        (Some(bg), Some(fg)) => {
            out.append("\nBackground: ");
            out.append(bg.as_str());
            out.append("\n");
            out.append("Foreground: ");
            out.append(fg.as_str());
            out.append("\n");
        },
        _ => {},
    }
    out.append("\n");
    out
}


/// Which of the six sorted extracted colours become the accents, in accent
/// order: the sixth first, down to the first. (A light palette darkens the
/// first accent.)
pub fn accent_order() -> (r: Vec<usize>)
    ensures
        r@ == seq![5usize, 4, 3, 2, 1, 0],
{
    let mut v: Vec<usize> = Vec::new();
    v.push(5);
    v.push(4);
    v.push(3);
    v.push(2);
    v.push(1);
    v.push(0);
    assert(v@ =~= seq![5usize, 4, 3, 2, 1, 0]);
    v
}

/// The terminal colours of a generated palette: `color0`, the six accent
/// colours as colours 1 to 6, `color7`, `color8`, the six accents again as
/// colours 9 to 14, and `color15`.
pub open spec fn palette_slots(
    color0: Seq<char>,
    accents: Seq<Seq<char>>,
    color7: Seq<char>,
    color8: Seq<char>,
    color15: Seq<char>,
) -> Seq<Option<Seq<char>>> {
    Seq::new(
        16,
        |i: int|
            if i == 0 {
                Some(color0)
            } else if 1 <= i <= 6 {
                Some(accents[i - 1])
            } else if i == 7 {
                Some(color7)
            } else if i == 8 {
                Some(color8)
            } else if 9 <= i <= 14 {
                Some(accents[i - 9])
            } else {
                Some(color15)
            },
    )
}

impl ColorScheme {
    /// A scheme with every colour present, laid out as generated palettes
    /// are: the accents fill colours 1 to 6 and again 9 to 14.
    pub fn from_palette(
        background: String,
        foreground: String,
        color0: String,
        accents: &Vec<String>,
        color7: String,
        color8: String,
        color15: String,
    ) -> (r: ColorScheme)
        requires
            accents.len() == 6,
        ensures
            r@.background == Some(background@),
            r@.foreground == Some(foreground@),
            r@.colors == palette_slots(
                color0@,
                crate::text::string_views(accents@),
                color7@,
                color8@,
                color15@,
            ),
    {
        let ghost c0 = color0@;
        let ghost c7 = color7@;
        let ghost c8 = color8@;
        let ghost c15 = color15@;
        let ghost expected = palette_slots(c0, crate::text::string_views(accents@), c7, c8, c15);
        let mut colors: Vec<Option<String>> = Vec::new();
        colors.push(Some(color0));
        for k in 0..6
            invariant
                accents.len() == 6,
                colors.len() == k + 1,
                expected == palette_slots(c0, crate::text::string_views(accents@), c7, c8, c15),
                forall|i: int|
                    0 <= i < colors.len() ==> opt_view(#[trigger] colors@[i]) == expected[i],
        {
            colors.push(Some(accents[k].clone()));
        }
        colors.push(Some(color7));
        colors.push(Some(color8));
        for k in 0..6
            invariant
                accents.len() == 6,
                colors.len() == k + 9,
                expected == palette_slots(c0, crate::text::string_views(accents@), c7, c8, c15),
                forall|i: int|
                    0 <= i < colors.len() ==> opt_view(#[trigger] colors@[i]) == expected[i],
        {
            colors.push(Some(accents[k].clone()));
        }
        colors.push(Some(color15));
        let r = ColorScheme { background: Some(background), foreground: Some(foreground), colors };
        assert(r@.colors =~= expected);
        r
    }
}

/// In a generated palette the bright colours 9 to 14 repeat colours 1 to 6.
pub proof fn palette_repeats_accents(
    color0: Seq<char>,
    accents: Seq<Seq<char>>,
    color7: Seq<char>,
    color8: Seq<char>,
    color15: Seq<char>,
    k: int,
)
    requires
        accents.len() == 6,
        1 <= k <= 6,
    ensures
        slot(palette_slots(color0, accents, color7, color8, color15), k) == slot(
            palette_slots(color0, accents, color7, color8, color15),
            k + 8,
        ),
        slot(palette_slots(color0, accents, color7, color8, color15), k) == Some(accents[k - 1]),
{
}

// ---------------------------------------------------------------------------
// The `wal` command
// ---------------------------------------------------------------------------

/// The image of the `wal` command: the positional one before the one given
/// with `-i`; an error when neither is given.
pub fn wal_image<T>(positional: Option<T>, flag: Option<T>) -> (r: Result<T, String>)
    ensures
        match positional {
            Some(p) => r matches Ok(x) && x == p,
            None => match flag {
                Some(f) => r matches Ok(x) && x == f,
                None => r matches Err(m) && m@ == "No image provided. Use: styli-rs wal <image>"@,
            },
        },
{
    match positional {
        Some(p) => Ok(p),
        None => match flag {
            Some(f) => Ok(f),
            None => Err(owned("No image provided. Use: styli-rs wal <image>")),
        },
    }
}

/// The steps of the `-o`/`--other` script: run through `sh -c` after the
/// colours are generated, its outcome ignored; none without a script.
pub open spec fn other_script_plan(other: Option<Seq<char>>) -> Seq<StepSpec> {
    match other {
        Some(c) => seq![
            StepSpec {
                program: "sh"@,
                args: seq!["-c"@, c],
                on_spawn_error: None,
                on_failure: None,
            },
        ],
        None => seq![],
    }
}

/// The steps that run the `-o` script.
pub fn other_script_steps(other: Option<&str>) -> (r: Vec<CommandStep>)
    ensures
        step_views(r@) == other_script_plan(match other {
            Some(c) => Some(c@),
            None => None,
        }),
{
    let mut steps: Vec<CommandStep> = Vec::new();
    match other {
        Some(c) => {
            let mut args: Vec<String> = Vec::new();
            args.push(owned("-c"));
            args.push(owned(c));
            assert(string_views(args@) =~= seq!["-c"@, c@]);
            steps.push(optional_step("sh", args));
            assert(step_views(steps@) =~= other_script_plan(Some(c@)));
        },
        None => {
            assert(step_views(steps@) =~= other_script_plan(None));
        },
    }
    steps
}

/// The arguments of `wallust`: `run <wallpaper>`, then `--light` for a
/// light palette, then `--preview` when only previewing.
pub open spec fn wallust_arguments(wallpaper: Seq<char>, light: bool, preview: bool) -> Seq<
    Seq<char>,
> {
    seq!["run"@, wallpaper] + (if light {
        seq!["--light"@]
    } else {
        seq![]
    }) + (if preview {
        seq!["--preview"@]
    } else {
        seq![]
    })
}

/// The arguments `wallust` is run with.
pub fn wallust_args(wallpaper: &str, light: bool, preview: bool) -> (r: Vec<String>)
    ensures
        string_views(r@) == wallust_arguments(wallpaper@, light, preview),
{
    let mut args: Vec<String> = Vec::new();
    args.push(owned("run"));
    args.push(owned(wallpaper));
    if light {
        args.push(owned("--light"));
    }
    if preview {
        args.push(owned("--preview"));
    }
    assert(string_views(args@) =~= wallust_arguments(wallpaper@, light, preview));
    args
}


/// Parts joined by a separator: the separator stands between each two
/// neighbouring parts.
pub open spec fn joined_by(parts: Seq<Seq<char>>, sep: Seq<char>) -> Seq<char>
    decreases parts.len(),
{
    if parts.len() == 0 {
        Seq::empty()
    } else if parts.len() == 1 {
        parts[0]
    } else {
        joined_by(parts.drop_last(), sep) + sep + parts.last()
    }
}

/// The `<i>;<colour>` entries of a scheme whose sixteen colours are all
/// present.
pub open spec fn full_entries(s: SchemeView) -> Seq<Seq<char>> {
    Seq::new(16, |i: int| decimal(i as nat) + ";"@ + slot(s.colors, i)->0)
}

proof fn lemma_entries_joined(s: SchemeView, n: nat)
    requires
        n <= 16,
        forall|i: int| 0 <= i < 16 ==> #[trigger] slot(s.colors, i) is Some,
    ensures
        sequence_entries(s, n) == if n == 0 {
            Seq::<char>::empty()
        } else if n < 16 {
            joined_by(full_entries(s).take(n as int), "\\"@) + "\\"@
        } else {
            joined_by(full_entries(s).take(n as int), "\\"@)
        },
    decreases n,
{
    if n > 0 {
        let m = (n - 1) as nat;
        lemma_entries_joined(s, m);
        assert(slot(s.colors, m as int) is Some);
        let e = full_entries(s);
        let t = e.take(n as int);
        assert(t.last() == e[m as int]);
        if m == 0 {
            assert(t.len() == 1);
            assert(sequence_entries(s, n) =~= if n < 16 {
                joined_by(t, "\\"@) + "\\"@
            } else {
                joined_by(t, "\\"@)
            });
        } else {
            assert(t.drop_last() =~= e.take(m as int));
            assert(sequence_entries(s, n) =~= if n < 16 {
                joined_by(t, "\\"@) + "\\"@
            } else {
                joined_by(t, "\\"@)
            });
        }
    }
}

/// Every entry of the `sequences` file before colour 15's ends with a
/// backslash: the entries of colours `0` to `n - 1`, for `n` up to 15, are
/// empty or end with one.
pub proof fn sequence_entries_end_with_backslash(s: SchemeView, n: nat)
    requires
        n <= 15,
    ensures
        sequence_entries(s, n).len() > 0 ==> sequence_entries(s, n).last() == '\\',
    decreases n,
{
    reveal_strlit("\\");
    if n > 0 {
        sequence_entries_end_with_backslash(s, (n - 1) as nat);
    }
}

/// With all sixteen colours present, the `sequences` file lists the sixteen
/// entries `<i>;<colour>` joined by backslashes, between `ESC]4;` and `ESC\`,
/// followed by the background and foreground sequences.
pub proof fn full_sequences_file(s: SchemeView)
    requires
        forall|i: int| 0 <= i < 16 ==> #[trigger] slot(s.colors, i) is Some,
    ensures
        sequences_file(s) == "\x1b]4;"@ + joined_by(full_entries(s), "\\"@) + "\x1b\\"@
            + special_sequences(s),
{
    lemma_entries_joined(s, 16);
    assert(full_entries(s).take(16) =~= full_entries(s));
}

} // verus!
