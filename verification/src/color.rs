use vstd::prelude::*;

verus! {

/// A fully resolved color, one byte per channel.
#[derive(Clone, Copy, PartialEq, Eq, Structural, Debug)]
pub struct Rgb {
    pub r: u8,
    pub g: u8,
    pub b: u8,
}

/// The value of one hexadecimal digit, or `None` for any other character.
pub open spec fn spec_hex_digit(c: char) -> Option<u8> {
    if '0' <= c && c <= '9' {
        Some(((c as int) - 48) as u8)
    } else if 'a' <= c && c <= 'f' {
        Some(((c as int) - 87) as u8)
    } else if 'A' <= c && c <= 'F' {
        Some(((c as int) - 55) as u8)
    } else {
        None
    }
}

/// Two hexadecimal digits read as one byte, high digit first.
pub open spec fn spec_hex_pair(hi: char, lo: char) -> Option<u8> {
    match (spec_hex_digit(hi), spec_hex_digit(lo)) {
        (Some(h), Some(l)) => Some((16 * h + l) as u8),
        _ => None,
    }
}

/// The string with one leading `#`, if there is one, removed.
pub open spec fn spec_strip_hash(s: Seq<char>) -> Seq<char> {
    if s.len() > 0 && s[0] == '#' {
        s.skip(1)
    } else {
        s
    }
}

/// An explicit color spec parses exactly when, after at most one leading `#`,
/// exactly six hexadecimal digits remain; anything else yields no explicit
/// color.
pub open spec fn spec_parse_hex(s: Seq<char>) -> Option<Rgb> {
    let t = spec_strip_hash(s);
    if t.len() == 6 {
        match (spec_hex_pair(t[0], t[1]), spec_hex_pair(t[2], t[3]), spec_hex_pair(t[4], t[5])) {
            (Some(r), Some(g), Some(b)) => Some(Rgb { r, g, b }),
            _ => None,
        }
    } else {
        None
    }
}

fn hex_digit(c: char) -> (r: Option<u8>)
    ensures
        r == spec_hex_digit(c),
{
    if '0' <= c && c <= '9' {
        Some((c as u8) - 48)
    } else if 'a' <= c && c <= 'f' {
        Some((c as u8) - 87)
    } else if 'A' <= c && c <= 'F' {
        Some((c as u8) - 55)
    } else {
        None
    }
}

fn hex_pair(hi: char, lo: char) -> (r: Option<u8>)
    ensures
        r == spec_hex_pair(hi, lo),
{
    match (hex_digit(hi), hex_digit(lo)) {
        (Some(h), Some(l)) => Some(16 * h + l),
        _ => None,
    }
}

/// Parse an explicit color spec: at most one leading `#` followed by exactly
/// six hexadecimal digits, case-insensitive. Any other shape yields `None`,
/// which callers treat as "no explicit color", never as an error.
pub fn parse_hex_color(s: &str) -> (r: Option<Rgb>)
    ensures
        r == spec_parse_hex(s@),
{
    let n = s.unicode_len();
    let mut i: usize = 0;
    if n > 0 && s.get_char(0) == '#' {
        i = 1;
    }
    proof {
        if i == 0 {
            assert(s@.skip(0) =~= s@);
        }
        assert(spec_strip_hash(s@) == s@.skip(i as int));
    }
    if n - i != 6 {
        return None;
    }
    assert(forall|k: int| 0 <= k < 6 ==> s@.skip(i as int)[k] == s@[i + k]);
    let p0 = hex_pair(s.get_char(i), s.get_char(i + 1));
    let p1 = hex_pair(s.get_char(i + 2), s.get_char(i + 3));
    let p2 = hex_pair(s.get_char(i + 4), s.get_char(i + 5));
    match (p0, p1, p2) {
        (Some(r), Some(g), Some(b)) => Some(Rgb { r, g, b }),
        _ => None,
    }
}

/// FNV-1a offset basis, the initial state of the label hash.
pub const FNV_OFFSET: u64 = 0xcbf2_9ce4_8422_2325;

/// FNV-1a multiplier.
pub const FNV_PRIME: u64 = 0x0000_0100_0000_01b3;

/// FNV-1a over the first `i` characters' code points: a stable string hash,
/// the same in every process, used to seed the derived-color draws.
pub open spec fn spec_fnv1a_prefix(s: Seq<char>, i: int) -> u64
    decreases i,
{
    if i <= 0 {
        FNV_OFFSET
    } else {
        (spec_fnv1a_prefix(s, i - 1) ^ ((s[i - 1] as u32) as u64)).wrapping_mul(FNV_PRIME)
    }
}

/// FNV-1a hash of a whole string.
pub open spec fn spec_fnv1a(s: Seq<char>) -> u64 {
    spec_fnv1a_prefix(s, s.len() as int)
}

pub fn fnv1a_hash(s: &str) -> (h: u64)
    ensures
        h == spec_fnv1a(s@),
{
    let n = s.unicode_len();
    let mut h: u64 = FNV_OFFSET;
    let mut i: usize = 0;
    while i < n
        invariant
            0 <= i <= n,
            n == s@.len(),
            h == spec_fnv1a_prefix(s@, i as int),
        decreases n - i,
    {
        let c = s.get_char(i);
        h = (h ^ ((c as u32) as u64)).wrapping_mul(FNV_PRIME);
        i = i + 1;
    }
    h
}

/// The hue, saturation and value drawn for a given seed: hue in thousandths
/// of a degree, saturation and value in thousandths. The draws come from a
/// portable generator seeded with the label hash alone, so the triple is a
/// fixed function of the seed.
pub uninterp spec fn seeded_hsv_of(seed: u64) -> (u32, u32, u32);

/// Relies on `rand::rngs::ChaCha12Rng` (the chacha20 crate's RNG, whose
/// keystream is fixed by the ChaCha algorithm), `SeedableRng::seed_from_u64`
/// (rand_core's default, documented as value-stable), and
/// `RngExt::random_range`: the three draws depend on the seed alone and lie
/// in the stated ranges, matching hue in `[0, 360)` degrees, saturation in
/// `[0.7, 0.9)` and value in `[0.8, 0.95)`, each scaled by 1000.
#[verifier::external_body]
fn draw_seeded_hsv(seed: u64) -> (r: (u32, u32, u32))
    ensures
        r == seeded_hsv_of(seed),
        r.0 < 360000,
        700 <= r.1 < 900,
        800 <= r.2 < 950,
{
    let mut rng: rand::rngs::ChaCha12Rng = rand::SeedableRng::seed_from_u64(seed);
    let h = rand::RngExt::random_range(&mut rng, 0u32..360000);
    let s = rand::RngExt::random_range(&mut rng, 700u32..900);
    let v = rand::RngExt::random_range(&mut rng, 800u32..950);
    (h, s, v)
}

/// The six-sector HSV to RGB conversion in thousandth units, before the
/// channels are scaled to bytes: chroma `c = v s`, the secondary channel
/// `x = c (1 - |((h / 60°) mod 2) - 1|)`, and the sector picked by the hue.
pub open spec fn spec_hsv_sector(h: u32, s: u32, v: u32) -> (int, int, int) {
    let c = (v as int) * (s as int) / 1000;
    let d = ((h as int) / 60) % 2000;
    let dist = if d >= 1000 {
        d - 1000
    } else {
        1000 - d
    };
    let x = c * (1000 - dist) / 1000;
    if h < 60000 {
        (c, x, 0)
    } else if h < 120000 {
        (x, c, 0)
    } else if h < 180000 {
        (0, c, x)
    } else if h < 240000 {
        (0, x, c)
    } else if h < 300000 {
        (x, 0, c)
    } else {
        (c, 0, x)
    }
}

/// HSV to RGB with hue in thousandths of a degree and saturation and value in
/// thousandths; each byte channel is `(channel + m) * 255` truncated, where
/// `m = v - c` lifts the sector channels to the value.
pub open spec fn spec_hsv_to_rgb(h: u32, s: u32, v: u32) -> Rgb {
    let c = (v as int) * (s as int) / 1000;
    let m = v as int - c;
    let sector = spec_hsv_sector(h, s, v);
    Rgb {
        r: ((sector.0 + m) * 255 / 1000) as u8,
        g: ((sector.1 + m) * 255 / 1000) as u8,
        b: ((sector.2 + m) * 255 / 1000) as u8,
    }
}

/// One sector channel plus the value lift, scaled to a byte by truncation.
fn scale_channel(ch: u32, m: u32) -> (b: u8)
    requires
        ch + m <= 1000,
    ensures
        b == ((ch + m) * 255 / 1000) as u8,
{
    (((ch + m) * 255) / 1000) as u8
}

pub fn hsv_to_rgb(h: u32, s: u32, v: u32) -> (c: Rgb)
    requires
        h < 360000,
        s <= 1000,
        v <= 1000,
    ensures
        c == spec_hsv_to_rgb(h, s, v),
{
    assert(0 <= v as int * (s as int) <= 1000 * 1000) by (nonlinear_arith)
        requires
            0 <= s <= 1000,
            0 <= v <= 1000,
    ;
    let chroma: u32 = (v * s) / 1000;
    assert(chroma <= v) by {
        assert(v as int * (s as int) <= v as int * 1000) by (nonlinear_arith)
            requires
                0 <= s <= 1000,
                0 <= v,
        ;
        vstd::arithmetic::div_mod::lemma_div_is_ordered(
            v as int * (s as int),
            v as int * 1000,
            1000,
        );
        assert(v as int * 1000 / 1000 == v as int) by (nonlinear_arith);
    }
    let m: u32 = v - chroma;
    let d: u32 = (h / 60) % 2000;
    let dist: u32 = if d >= 1000 {
        d - 1000
    } else {
        1000 - d
    };
    assert(0 <= chroma as int * ((1000 - dist) as int) <= chroma as int * 1000)
        by (nonlinear_arith)
        requires
            0 <= dist <= 1000,
            0 <= chroma,
    ;
    let x: u32 = (chroma * (1000 - dist)) / 1000;
    assert(x <= chroma) by {
        vstd::arithmetic::div_mod::lemma_div_is_ordered(
            chroma as int * ((1000 - dist) as int),
            chroma as int * 1000,
            1000,
        );
        assert(chroma as int * 1000 / 1000 == chroma as int) by (nonlinear_arith);
    }
    let (r0, g0, b0): (u32, u32, u32) = if h < 60000 {
        (chroma, x, 0)
    } else if h < 120000 {
        (x, chroma, 0)
    } else if h < 180000 {
        (0, chroma, x)
    } else if h < 240000 {
        (0, x, chroma)
    } else if h < 300000 {
        (x, 0, chroma)
    } else {
        (chroma, 0, x)
    };
    Rgb { r: scale_channel(r0, m), g: scale_channel(g0, m), b: scale_channel(b0, m) }
}

/// The color derived from a label when no explicit color is given: hash the
/// label, draw hue, saturation and value from a generator seeded with the
/// hash, and convert to RGB. A fixed function of the label, so the same label
/// names the same color in every run.
pub open spec fn spec_derived_color(seed: Seq<char>) -> Rgb {
    let hsv = seeded_hsv_of(spec_fnv1a(seed));
    spec_hsv_to_rgb(hsv.0, hsv.1, hsv.2)
}

pub fn generate_deterministic_color(seed: &str) -> (c: Rgb)
    ensures
        c == spec_derived_color(seed@),
        ({
            let hsv = seeded_hsv_of(spec_fnv1a(seed@));
            hsv.0 < 360000 && 700 <= hsv.1 < 900 && 800 <= hsv.2 < 950
        }),
{
    let hash = fnv1a_hash(seed);
    let (h, s, v) = draw_seeded_hsv(hash);
    hsv_to_rgb(h, s, v)
}

/// Within the ranges the derived-color draws come from, the converted color's
/// largest channel is the truncated value level — between 204 and 241 — and
/// its smallest channel is at most 72: a derived color is never black, white,
/// or fully desaturated.
pub proof fn lemma_derived_draw_channel_bounds(h: u32, s: u32, v: u32)
    requires
        h < 360000,
        700 <= s < 900,
        800 <= v < 950,
    ensures
        ({
            let col = spec_hsv_to_rgb(h, s, v);
            let top = (v as int) * 255 / 1000;
            &&& 204 <= top < 242
            &&& col.r <= top && col.g <= top && col.b <= top
            &&& (col.r == top || col.g == top || col.b == top)
            &&& (col.r <= 72 || col.g <= 72 || col.b <= 72)
        }),
{
    let cw = (v as int) * (s as int) / 1000;
    let m = v as int - cw;
    assert(0 <= (v as int) * (s as int) <= (v as int) * 1000) by (nonlinear_arith)
        requires
            0 <= s <= 1000,
            0 <= v,
    ;
    assert(0 <= cw <= v) by {
        vstd::arithmetic::div_mod::lemma_div_is_ordered(0, (v as int) * (s as int), 1000);
        vstd::arithmetic::div_mod::lemma_div_is_ordered(
            (v as int) * (s as int),
            (v as int) * 1000,
            1000,
        );
        assert((v as int) * 1000 / 1000 == v as int) by (nonlinear_arith);
    }
    let d = (((h as int) / 60)) % 2000;
    let dist = if d >= 1000 {
        d - 1000
    } else {
        1000 - d
    };
    let x = cw * (1000 - dist) / 1000;
    assert(0 <= cw * (1000 - dist) <= cw * 1000) by (nonlinear_arith)
        requires
            0 <= dist <= 1000,
            0 <= cw,
    ;
    assert(0 <= x <= cw) by {
        vstd::arithmetic::div_mod::lemma_div_is_ordered(0, cw * (1000 - dist), 1000);
        vstd::arithmetic::div_mod::lemma_div_is_ordered(cw * (1000 - dist), cw * 1000, 1000);
        assert(cw * 1000 / 1000 == cw) by (nonlinear_arith);
    }
    // the scaled level of each channel is monotone in the channel, the
    // chroma channel reaching the value level exactly
    let top = (v as int) * 255 / 1000;
    assert((cw + m) * 255 / 1000 == top);
    assert forall|ch: int| 0 <= ch <= cw implies 0 <= #[trigger] ((ch + m) * 255 / 1000)
        <= top by {
        assert(0 <= (ch + m) * 255 <= (cw + m) * 255) by (nonlinear_arith)
            requires
                0 <= ch + m <= cw + m,
        ;
        vstd::arithmetic::div_mod::lemma_div_is_ordered(0, (ch + m) * 255, 1000);
        vstd::arithmetic::div_mod::lemma_div_is_ordered((ch + m) * 255, (cw + m) * 255, 1000);
    }
    assert(204 <= top < 242) by {
        vstd::arithmetic::div_mod::lemma_div_is_ordered(204000, (v as int) * 255, 1000);
        vstd::arithmetic::div_mod::lemma_div_is_ordered((v as int) * 255, 241995, 1000);
        assert(204000int / 1000 == 204 && 241995int / 1000 == 241) by (nonlinear_arith);
    }
    // the zero channel scales to the lift alone, which the floor of the
    // chroma division keeps at or below 285 of 1000
    assert(m * 255 / 1000 <= 72) by {
        vstd::arithmetic::div_mod::lemma_fundamental_div_mod((v as int) * (s as int), 1000);
        vstd::arithmetic::div_mod::lemma_mod_division_less_than_divisor(
            (v as int) * (s as int),
            1000,
        );
        assert(1000 * cw >= (v as int) * (s as int) - 999);
        assert(1000 * m <= (v as int) * (1000 - s as int) + 999) by (nonlinear_arith)
            requires
                m == v as int - cw,
                1000 * cw >= (v as int) * (s as int) - 999,
        ;
        assert((v as int) * (1000 - s as int) <= 284700) by (nonlinear_arith)
            requires
                700 <= s,
                v < 950,
        ;
        assert(m <= 285);
        vstd::arithmetic::div_mod::lemma_div_is_ordered(m * 255, 72675, 1000);
        assert(72675int / 1000 == 72) by (nonlinear_arith);
    }
}

/// A segment's color: the explicit spec when it parses as six hex digits,
/// otherwise the color derived from the fallback seed. A malformed explicit
/// spec is not an error; it falls through to the derived color.
pub open spec fn spec_resolve(explicit: Option<Seq<char>>, seed: Seq<char>) -> Rgb {
    match explicit {
        Some(e) => match spec_parse_hex(e) {
            Some(c) => c,
            None => spec_derived_color(seed),
        },
        None => spec_derived_color(seed),
    }
}

pub fn resolve(explicit: &Option<String>, seed: &str) -> (c: Rgb)
    ensures
        c == spec_resolve(explicit.deep_view(), seed@),
{
    match explicit {
        Some(e) => match parse_hex_color(e.as_str()) {
            Some(c) => c,
            None => generate_deterministic_color(seed),
        },
        None => generate_deterministic_color(seed),
    }
}

/// Perceived luminance test used to pick a readable text color: the integer
/// form of `0.299 r + 0.587 g + 0.114 b > 128`, scaled by 1000.
pub open spec fn spec_is_bright(c: Rgb) -> bool {
    299 * (c.r as int) + 587 * (c.g as int) + 114 * (c.b as int) > 128000
}

pub fn is_bright(c: Rgb) -> (r: bool)
    ensures
        r == spec_is_bright(c),
{
    let lum: u32 = 299 * (c.r as u32) + 587 * (c.g as u32) + 114 * (c.b as u32);
    lum > 128000
}

} // verus!
