//! Colour palettes: the default palette, and reading one from a palette
//! service's answer (`#rrggbb` strings).

use vstd::prelude::*;
use vstd::string::StringSliceAdditionalSpecFns;
use vstd::utf8::encode_utf8;

verus! {

/// A colour given by its red, green and blue bytes.
#[derive(Debug, Clone, Copy, PartialEq, Eq, Structural)]
pub struct Rgb8 {
    pub r: u8,
    pub g: u8,
    pub b: u8,
}

/// A named list of colours.
#[derive(Debug, Clone)]
pub struct Palette<C> {
    pub name: String,
    pub colors: Vec<C>,
}

// ---------------------------------------------------------------------------
// `#rrggbb`
// ---------------------------------------------------------------------------

/// The value of an ASCII hexadecimal digit.
pub open spec fn hex_digit(b: u8) -> Option<u8> {
    if 0x30 <= b <= 0x39 {
        Some((b - 0x30) as u8)
    } else if 0x61 <= b <= 0x66 {
        Some((b - 0x61 + 10) as u8)
    } else if 0x41 <= b <= 0x46 {
        Some((b - 0x41 + 10) as u8)
    } else {
        None
    }
}

/// Two bytes read as a base-16 number that fits a byte: two digits, or a
/// `+` sign and one digit.
pub open spec fn hex_pair(a: u8, b: u8) -> Option<u8> {
    if a == 0x2b {
        hex_digit(b)
    } else {
        match (hex_digit(a), hex_digit(b)) {
            (Some(x), Some(y)) => Some((x * 16 + y) as u8),
            _ => None,
        }
    }
}

/// The number of `#` bytes `s` starts with.
pub open spec fn leading_hashes(s: Seq<u8>) -> nat
    decreases s.len(),
{
    if s.len() > 0 && s[0] == 0x23 {
        1 + leading_hashes(s.drop_first())
    } else {
        0
    }
}

/// `s` without its leading `#` bytes.
pub open spec fn without_hashes(s: Seq<u8>) -> Seq<u8> {
    s.skip(leading_hashes(s) as int)
}

/// A byte that continues a multi-byte UTF-8 character.
pub open spec fn is_continuation(b: u8) -> bool {
    0x80 <= b < 0xc0
}

/// Cutting the colour into its three two-byte parts falls between characters.
pub open spec fn parts_on_char_boundaries(s: Seq<u8>) -> bool {
    let t = without_hashes(s);
    t.len() == 6 ==> !is_continuation(t[2]) && !is_continuation(t[4])
}

/// The colour that the bytes `s` of `#rrggbb` (any number of leading `#`)
/// spell, if they spell one.
pub open spec fn spec_parse_hex_color(s: Seq<u8>) -> Option<Rgb8> {
    let t = without_hashes(s);
    if t.len() != 6 {
        None
    } else {
        match (hex_pair(t[0], t[1]), hex_pair(t[2], t[3]), hex_pair(t[4], t[5])) {
            (Some(r), Some(g), Some(b)) => Some(Rgb8 { r, g, b }),
            _ => None,
        }
    }
}

proof fn lemma_leading_hashes(s: Seq<u8>, k: int)
    requires
        0 <= k <= s.len(),
        forall|j: int| 0 <= j < k ==> s[j] == 0x23,
        k == s.len() || s[k] != 0x23,
    ensures
        leading_hashes(s) == k,
    decreases k,
{
    if k > 0 {
        lemma_leading_hashes(s.drop_first(), k - 1);
    }
}

fn hex_digit_exec(b: u8) -> (r: Option<u8>)
    ensures
        r == hex_digit(b),
{
    if 0x30 <= b && b <= 0x39 {
        Some(b - 0x30)
    } else if 0x61 <= b && b <= 0x66 {
        Some(b - 0x61 + 10)
    } else if 0x41 <= b && b <= 0x46 {
        Some(b - 0x41 + 10)
    } else {
        None
    }
}

fn hex_pair_exec(a: u8, b: u8) -> (r: Option<u8>)
    ensures
        r == hex_pair(a, b),
{
    if a == 0x2b {
        hex_digit_exec(b)
    } else {
        match (hex_digit_exec(a), hex_digit_exec(b)) {
            (Some(x), Some(y)) => Some(x * 16 + y),
            _ => None,
        }
    }
}

/// Whether `parse_hex_color` may be called on `hex`: its three two-byte
/// parts do not cut through a character.
pub fn hex_parts_on_char_boundaries(hex: &str) -> (ok: bool)
    ensures
        ok == parts_on_char_boundaries(hex.spec_bytes()),
{
    let s = hex.as_bytes();
    let k = count_hashes(s);
    if s.len() - k != 6 {
        return true;
    }
    let c2 = s[k + 2];
    let c4 = s[k + 4];
    proof {
        assert(without_hashes(s@) =~= s@.skip(k as int));
    }
    !(0x80 <= c2 && c2 < 0xc0) && !(0x80 <= c4 && c4 < 0xc0)
}

fn count_hashes(s: &[u8]) -> (k: usize)
    ensures
        k == leading_hashes(s@),
        k <= s@.len(),
{
    let mut k: usize = 0;
    while k < s.len() && s[k] == 0x23
        invariant
            k <= s@.len(),
            forall|j: int| 0 <= j < k ==> s@[j] == 0x23,
        decreases s@.len() - k,
    {
        k += 1;
    }
    proof {
        lemma_leading_hashes(s@, k as int);
    }
    k
}

/// Reads a `#rrggbb` colour (any number of leading `#`; each part may also
/// be written `+d`, as base-16 number parsing allows).
pub fn parse_hex_color(hex: &str) -> (c: Option<Rgb8>)
    requires
        parts_on_char_boundaries(hex.spec_bytes()),
    ensures
        c == spec_parse_hex_color(hex.spec_bytes()),
{
    let s = hex.as_bytes();
    let k = count_hashes(s);
    proof {
        assert(without_hashes(s@) =~= s@.skip(k as int));
    }
    if s.len() - k != 6 {
        return None;
    }
    let r = hex_pair_exec(s[k], s[k + 1]);
    let g = hex_pair_exec(s[k + 2], s[k + 3]);
    let b = hex_pair_exec(s[k + 4], s[k + 5]);
    match (r, g, b) {
        (Some(r), Some(g), Some(b)) => Some(Rgb8 { r, g, b }),
        _ => None,
    }
}

// ---------------------------------------------------------------------------
// Palettes from a palette service
// ---------------------------------------------------------------------------

/// The colours that a list of answer items spells, in order: items that are
/// not strings, or not `#rrggbb` colours, are left out.
pub open spec fn parsed_colors(items: Seq<Option<String>>) -> Seq<Rgb8>
    decreases items.len(),
{
    if items.len() == 0 {
        Seq::empty()
    } else {
        let rest = parsed_colors(items.drop_last());
        match items.last() {
            Some(s) => match spec_parse_hex_color(encode_utf8(s@)) {
                Some(c) => rest.push(c),
                None => rest,
            },
            None => rest,
        }
    }
}

/// Every string item can be given to `parse_hex_color`.
pub open spec fn items_parseable(items: Seq<Option<String>>) -> bool {
    forall|i: int|
        0 <= i < items.len() ==> (#[trigger] items[i] matches Some(s) ==> parts_on_char_boundaries(
            encode_utf8(s@),
        ))
}

/// The address of a palette's description on lospec.com.
pub fn lospec_url(slug: &str) -> (url: String)
    ensures
        url@ == "https://lospec.com/palette-list/"@ + slug@ + ".json"@,
{
    let mut url = String::from_str("https://lospec.com/palette-list/");
    url.append(slug);
    url.append(".json");
    url
}

/// Builds the palette that a palette service answered with: `name` is the
/// answer's name, if it is a string, and `colors` its colour list, if it
/// has one, each item given as a string when it is one. The palette is
/// named `slug` when the answer names none; it is an error when the answer
/// has no colour list.
pub fn palette_from_response(
    slug: &str,
    name: Option<&str>,
    colors: Option<Vec<Option<String>>>,
) -> (r: Result<Palette<Rgb8>, String>)
    requires
        colors matches Some(items) ==> items_parseable(items@),
    ensures
        match colors {
            None => r matches Err(e) && e@ == "No colors array in response"@,
            Some(items) => r matches Ok(p) && p.name@ == (match name {
                Some(n) => n@,
                None => slug@,
            }) && p.colors@ == parsed_colors(items@),
        },
{
    let items = match colors {
        None => {
            return Err(String::from_str("No colors array in response"));
        },
        Some(items) => items,
    };
    let name = match name {
        Some(n) => String::from_str(n),
        None => String::from_str(slug),
    };
    let mut out: Vec<Rgb8> = Vec::new();
    let mut i: usize = 0;
    while i < items.len()
        invariant
            i <= items@.len(),
            items_parseable(items@),
            out@ == parsed_colors(items@.take(i as int)),
        decreases items@.len() - i,
    {
        proof {
            assert(items@.take(i + 1).drop_last() =~= items@.take(i as int));
        }
        match &items[i] {
            Some(text) => {
                let t = text.as_str();
                assert(items@[i as int] matches Some(s) ==> parts_on_char_boundaries(encode_utf8(s@)));
                if let Some(c) = parse_hex_color(t) {
                    out.push(c);
                }
            },
            None => {},
        }
        i += 1;
    }
    proof {
        assert(items@.take(items@.len() as int) =~= items@);
    }
    Ok(Palette { name, colors: out })
}

// ---------------------------------------------------------------------------
// The default palette
// ---------------------------------------------------------------------------

/// The colours of the Sweetie 16 palette (https://lospec.com/palette-list/sweetie-16).
pub open spec fn sweetie16_colors() -> Seq<Rgb8> {
    seq![
        Rgb8 { r: 0x1a, g: 0x1c, b: 0x2c },
        Rgb8 { r: 0x5d, g: 0x27, b: 0x5d },
        Rgb8 { r: 0xb1, g: 0x3e, b: 0x53 },
        Rgb8 { r: 0xef, g: 0x7d, b: 0x57 },
        Rgb8 { r: 0xff, g: 0xcd, b: 0x75 },
        Rgb8 { r: 0xa7, g: 0xf0, b: 0x70 },
        Rgb8 { r: 0x38, g: 0xb7, b: 0x64 },
        Rgb8 { r: 0x25, g: 0x71, b: 0x79 },
        Rgb8 { r: 0x29, g: 0x36, b: 0x6f },
        Rgb8 { r: 0x3b, g: 0x5d, b: 0xc9 },
        Rgb8 { r: 0x41, g: 0xa6, b: 0xf6 },
        Rgb8 { r: 0x73, g: 0xef, b: 0xf7 },
        Rgb8 { r: 0xf4, g: 0xf4, b: 0xf4 },
        Rgb8 { r: 0x94, g: 0xb0, b: 0xc2 },
        Rgb8 { r: 0x56, g: 0x6c, b: 0x86 },
        Rgb8 { r: 0x33, g: 0x3c, b: 0x57 },
    ]
}

impl Default for Palette<Rgb8> {
    /// The Sweetie 16 palette.
    fn default() -> (p: Self)
        ensures
            p.name@ == "Sweetie 16"@,
            p.colors@ == sweetie16_colors(),
    {
        let colors = vec![
            Rgb8 { r: 0x1a, g: 0x1c, b: 0x2c },
            Rgb8 { r: 0x5d, g: 0x27, b: 0x5d },
            Rgb8 { r: 0xb1, g: 0x3e, b: 0x53 },
            Rgb8 { r: 0xef, g: 0x7d, b: 0x57 },
            Rgb8 { r: 0xff, g: 0xcd, b: 0x75 },
            Rgb8 { r: 0xa7, g: 0xf0, b: 0x70 },
            Rgb8 { r: 0x38, g: 0xb7, b: 0x64 },
            Rgb8 { r: 0x25, g: 0x71, b: 0x79 },
            Rgb8 { r: 0x29, g: 0x36, b: 0x6f },
            Rgb8 { r: 0x3b, g: 0x5d, b: 0xc9 },
            Rgb8 { r: 0x41, g: 0xa6, b: 0xf6 },
            Rgb8 { r: 0x73, g: 0xef, b: 0xf7 },
            Rgb8 { r: 0xf4, g: 0xf4, b: 0xf4 },
            Rgb8 { r: 0x94, g: 0xb0, b: 0xc2 },
            Rgb8 { r: 0x56, g: 0x6c, b: 0x86 },
            Rgb8 { r: 0x33, g: 0x3c, b: 0x57 },
        ];
        assert(colors@ =~= sweetie16_colors());
        Palette { name: String::from_str("Sweetie 16"), colors }
    }
}

} // verus!
