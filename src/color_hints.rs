use vstd::prelude::*;

verus! {

/// What `str::to_lowercase` makes of a text.
pub uninterp spec fn lower_of(s: Seq<char>) -> Seq<char>;

/// Relies on str::to_lowercase: the result depends on the characters alone.
#[verifier::external_body]
fn lowercase(s: &str) -> (r: String)
    ensures
        r@ == lower_of(s@),
{
    s.to_lowercase()
}

/// Red, green and blue components of a lowercase color name; black for an unknown name.
pub open spec fn rgb_of_name(name: Seq<char>) -> (u8, u8, u8) {
    if name == "red"@ {
        (255, 0, 0)
    } else if name == "blue"@ {
        (0, 0, 255)
    } else if name == "green"@ {
        (0, 255, 0)
    } else if name == "cyan"@ {
        (0, 255, 255)
    } else if name == "yellow"@ {
        (255, 255, 0)
    } else if name == "brown"@ {
        (139, 69, 19)
    } else if name == "white"@ {
        (255, 255, 255)
    } else if name == "gray"@ || name == "grey"@ {
        (128, 128, 128)
    } else {
        (0, 0, 0)
    }
}

/// The color packed as `0xRRGGBB`.
pub open spec fn packed(r: u8, g: u8, b: u8) -> int {
    r * 65536 + g * 256 + b
}

/// Upper-case hexadecimal digit of a value below 16.
pub open spec fn hex_digit(d: int) -> char {
    if d == 0 { '0' } else if d == 1 { '1' } else if d == 2 { '2' } else if d == 3 { '3' }
    else if d == 4 { '4' } else if d == 5 { '5' } else if d == 6 { '6' } else if d == 7 { '7' }
    else if d == 8 { '8' } else if d == 9 { '9' } else if d == 10 { 'A' } else if d == 11 { 'B' }
    else if d == 12 { 'C' } else if d == 13 { 'D' } else if d == 14 { 'E' } else { 'F' }
}

/// Two upper-case hexadecimal digits of a byte.
pub open spec fn hex_byte(x: u8) -> Seq<char> {
    seq![hex_digit(x as int / 16), hex_digit(x as int % 16)]
}

/// The color written as `#RRGGBB`.
pub open spec fn hex_text_of(r: u8, g: u8, b: u8) -> Seq<char> {
    seq!['#'] + hex_byte(r) + hex_byte(g) + hex_byte(b)
}

/// Relies on the `{:02X}` format of std: two upper-case hexadecimal digits per byte.
#[verifier::external_body]
fn hex_text(r: u8, g: u8, b: u8) -> (s: String)
    ensures
        s@ == hex_text_of(r, g, b),
{
    format!("#{:02X}{:02X}{:02X}", r, g, b)
}

/// Whether two texts hold the same characters.
pub fn same_text(a: &str, b: &str) -> (r: bool)
    ensures
        r == (a@ == b@),
{
    let n = a.unicode_len();
    if n != b.unicode_len() {
        return false;
    }
    let mut i: usize = 0;
    while i < n
        invariant
            n == a@.len(),
            n == b@.len(),
            i <= n,
            forall|k: int| 0 <= k < i ==> a@[k] == b@[k],
        decreases n - i,
    {
        if a.get_char(i) != b.get_char(i) {
            return false;
        }
        i += 1;
    }
    proof {
        assert(a@ =~= b@);
    }
    true
}

/// Components of a color name that is already lowercase.
pub fn rgb_of_lowercase(name: &str) -> (r: (u8, u8, u8))
    ensures
        r == rgb_of_name(name@),
{
    if same_text(name, "red") {
        (255, 0, 0)
    } else if same_text(name, "blue") {
        (0, 0, 255)
    } else if same_text(name, "green") {
        (0, 255, 0)
    } else if same_text(name, "cyan") {
        (0, 255, 255)
    } else if same_text(name, "yellow") {
        (255, 255, 0)
    } else if same_text(name, "brown") {
        (139, 69, 19)
    } else if same_text(name, "white") {
        (255, 255, 255)
    } else if same_text(name, "gray") || same_text(name, "grey") {
        (128, 128, 128)
    } else {
        (0, 0, 0)
    }
}

/// Components of a color name, whatever its case.
pub fn rgb_for(name: &str) -> (r: (u8, u8, u8))
    ensures
        r == rgb_of_name(lower_of(name@)),
{
    let lowered = lowercase(name);
    rgb_of_lowercase(lowered.as_str())
}

/// The color packed as `0xRRGGBB`.
pub fn hex_of(r: u8, g: u8, b: u8) -> (x: u32)
    ensures
        x == packed(r, g, b),
{
    (r as u32) * 65536 + (g as u32) * 256 + (b as u32)
}

/// A color name for display, with its components derived from it.
pub trait ColorHint {
    /// The color's name.
    fn color(&self) -> String;

    /// Red, green and blue components of the color's name.
    fn rgb(&self) -> (u8, u8, u8) {
        let c = self.color();
        rgb_for(c.as_str())
    }

    /// The color packed as `0xRRGGBB`.
    fn hex(&self) -> u32 {
        let (r, g, b) = self.rgb();
        hex_of(r, g, b)
    }

    /// The color written as `#RRGGBB`.
    fn hex_string(&self) -> String {
        let (r, g, b) = self.rgb();
        hex_text(r, g, b)
    }
}

} // verus!
