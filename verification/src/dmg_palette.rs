use vstd::prelude::*;
use crate::bits::lemma_u16;

verus! {

/// Accurate GBC DMG-compatibility palettes decoded from the GBC boot ROM binary.
#[derive(Clone, Copy)]
pub struct PaletteSet {
    pub bg: [u8; 8],
    pub obj0: [u8; 8],
    pub obj1: [u8; 8],
}

/// A palette set as the three byte sequences of its palettes.
pub struct PaletteView {
    pub bg: Seq<u8>,
    pub obj0: Seq<u8>,
    pub obj1: Seq<u8>,
}

impl View for PaletteSet {
    type V = PaletteView;

    open spec fn view(&self) -> PaletteView {
        PaletteView { bg: self.bg@, obj0: self.obj0@, obj1: self.obj1@ }
    }
}

/// Four RGB555 words as the eight bytes of a CGB palette, each word little-endian.
pub open spec fn packed(c: Seq<u16>) -> Seq<u8> {
    Seq::new(8, |i: int| if i % 2 == 0 { (c[i / 2] % 256) as u8 } else { (c[i / 2] / 256) as u8 })
}

/// One palette for each of background, OBJ0 and OBJ1.
pub open spec fn palette_of(bg: Seq<u16>, obj0: Seq<u16>, obj1: Seq<u16>) -> PaletteView {
    PaletteView { bg: packed(bg), obj0: packed(obj0), obj1: packed(obj1) }
}

/// The boot ROM's colour sets `bg`, `obj0` and `obj1`.
pub open spec fn sets(bg: int, obj0: int, obj1: int) -> PaletteView {
    palette_of(RAW[bg]@, RAW[obj0]@, RAW[obj1]@)
}

/// Classic DMG green-screen palette (matches the hardcoded DMG_COLORS in the PPU).
pub open spec fn green_screen_spec() -> PaletteView {
    let c = seq![0x73DCu16, 0x46D1, 0x1986, 0x0461];
    palette_of(c, c, c)
}

/// Neutral greyscale palette (white → light grey → dark grey → black).
pub open spec fn neutral_grey_spec() -> PaletteView {
    let c = seq![0x7FFFu16, 0x56B5, 0x318C, 0x0000];
    palette_of(c, c, c)
}

/// Sum of the bytes of `s`, modulo 256.
pub open spec fn byte_sum(s: Seq<u8>) -> u8
    decreases s.len(),
{
    if s.len() == 0 {
        0
    } else {
        ((byte_sum(s.drop_last()) + s.last()) % 256) as u8
    }
}

/// The boot ROM's title checksum: the sum of the first 16 title bytes, modulo 256.
pub open spec fn checksum(title: Seq<u8>) -> u8 {
    byte_sum(title.take(if title.len() < 16 { title.len() as int } else { 16 }))
}

/// Index of the first entry of TABLE at or after `i` with checksum `sum`, if any.
pub open spec fn first_plain(sum: u8, i: int) -> Option<int>
    decreases 65 - i,
{
    if i < 0 || i >= 65 {
        None
    } else if TABLE[i][0] == sum {
        Some(i)
    } else {
        first_plain(sum, i + 1)
    }
}

/// Index of the first entry of TABLE_ALT at or after `i` with checksum `sum`, if any.
pub open spec fn first_alt(sum: u8, i: int) -> Option<int>
    decreases 13 - i,
{
    if i < 0 || i >= 13 {
        None
    } else if TABLE_ALT[i][0] == sum {
        Some(i)
    } else {
        first_alt(sum, i + 1)
    }
}

/// The palette the GBC boot ROM gives a DMG game with this title: the colour
/// sets of the first table entry whose checksum matches (the alternative sets
/// when the title's fourth byte, or 0 if it has none, selects them), or
/// neutral grey when no entry matches.
pub open spec fn auto_palette_spec(title: Seq<u8>) -> PaletteView {
    let sum = checksum(title);
    let byte3: u8 = if title.len() > 3 { title[3] } else { 0 };
    match first_plain(sum, 0) {
        Some(i) => sets(TABLE[i][1] as int, TABLE[i][2] as int, TABLE[i][3] as int),
        None => match first_alt(sum, 0) {
            Some(k) => if byte3 == TABLE_ALT[k][4] {
                sets(TABLE_ALT[k][5] as int, TABLE_ALT[k][6] as int, TABLE_ALT[k][7] as int)
            } else {
                sets(TABLE_ALT[k][1] as int, TABLE_ALT[k][2] as int, TABLE_ALT[k][3] as int)
            },
            None => neutral_grey_spec(),
        },
    }
}

fn pack(c: [u16; 4]) -> (r: [u8; 8])
    ensures
        r@ == packed(c@),
{
    proof {
        lemma_u16(c[0]);
        lemma_u16(c[1]);
        lemma_u16(c[2]);
        lemma_u16(c[3]);
    }
    let r = [
        c[0] as u8,
        (c[0] >> 8) as u8,
        c[1] as u8,
        (c[1] >> 8) as u8,
        c[2] as u8,
        (c[2] >> 8) as u8,
        c[3] as u8,
        (c[3] >> 8) as u8,
    ];
    assert(r@ =~= packed(c@));
    r
}

/// The 35 colour sets of the boot ROM, four RGB555 words each (lightest first).
pub const RAW: [[u16; 4]; 35] = [
    [0x7FFF, 0x32BF, 0x00D0, 0x0000],  // 0
    [0x639F, 0x4279, 0x15B0, 0x04CB],  // 1
    [0x7FFF, 0x6E31, 0x454A, 0x0000],  // 2
    [0x7FFF, 0x1BEF, 0x0200, 0x0000],  // 3
    [0x7FFF, 0x421F, 0x1CF2, 0x0000],  // 4
    [0x7FFF, 0x5294, 0x294A, 0x0000],  // 5
    [0x7FFF, 0x03FF, 0x012F, 0x0000],  // 6
    [0x7FFF, 0x03EF, 0x01D6, 0x0000],  // 7
    [0x7FFF, 0x42B5, 0x3DC8, 0x0000],  // 8
    [0x7E74, 0x03FF, 0x0180, 0x0000],  // 9
    [0x67FF, 0x77AC, 0x1A13, 0x2D6B],  // 10
    [0x7ED6, 0x4BFF, 0x2175, 0x0000],  // 11
    [0x53FF, 0x4A5F, 0x7E52, 0x0000],  // 12
    [0x4FFF, 0x7ED2, 0x3A4C, 0x1CE0],  // 13
    [0x03ED, 0x7FFF, 0x255F, 0x0000],  // 14
    [0x036A, 0x021F, 0x03FF, 0x7FFF],  // 15
    [0x7FFF, 0x01DF, 0x0112, 0x0000],  // 16
    [0x231F, 0x035F, 0x00F2, 0x0009],  // 17
    [0x7FFF, 0x03EA, 0x011F, 0x0000],  // 18
    [0x299F, 0x001A, 0x000C, 0x0000],  // 19
    [0x7FFF, 0x027F, 0x001F, 0x0000],  // 20
    [0x7FFF, 0x03E0, 0x0206, 0x0120],  // 21
    [0x7FFF, 0x7EEB, 0x001F, 0x7C00],  // 22
    [0x7FFF, 0x3FFF, 0x7E00, 0x001F],  // 23
    [0x7FFF, 0x03FF, 0x001F, 0x0000],  // 24
    [0x03FF, 0x001F, 0x000C, 0x0000],  // 25
    [0x7FFF, 0x033F, 0x0193, 0x0000],  // 26
    [0x0000, 0x4200, 0x037F, 0x7FFF],  // 27
    [0x7FFF, 0x7E8C, 0x7C00, 0x0000],  // 28
    [0x7FFF, 0x1BEF, 0x6180, 0x0000],  // 29
    [0x7FFF, 0x7C00, 0x03E0, 0x7C1F],  // 30
    [0x001F, 0x03FF, 0x4140, 0x2042],  // 31
    [0x2221, 0x8180, 0x1082, 0x1211],  // 32
    [0xB012, 0xB879, 0x16AD, 0x0717],  // 33
    [0x05BA, 0x137C, 0x0000, 0x0000],  // 34
];

/// Title checksum → colour sets for background, OBJ0 and OBJ1.
pub const TABLE: [[u8; 4]; 65] = [
    [0x00,  4, 29, 28],
    [0x88,  9, 19, 22],
    [0x16,  0,  3, 28],
    [0x36, 27,  4, 15],
    [0xD1, 27,  0, 14],
    [0xDB, 24, 28, 22],
    [0xF2, 22, 24, 28],
    [0x3C, 23,  4, 28],
    [0x8C,  8, 22, 16],
    [0x92,  0,  3, 28],
    [0x3D,  4, 18, 22],
    [0x5C, 19, 22,  9],
    [0x58,  5,  5,  5],
    [0xC9, 16, 28, 10],
    [0x3E, 22, 20,  4],
    [0x70, 21, 28,  4],
    [0x1D, 19,  9, 22],
    [0x59, 16, 22,  8],
    [0x69, 22, 24, 28],
    [0x19,  4, 20, 22],
    [0x35,  0,  3, 28],
    [0xA8, 17,  4, 13],
    [0x14,  4, 28,  3],
    [0xAA, 29, 28,  4],
    [0x75,  0,  3, 28],
    [0x95, 22, 18,  4],
    [0x99,  0,  3, 28],
    [0x34,  4,  7,  4],
    [0x6F, 26, 26, 26],
    [0x15, 24, 28, 22],
    [0xFF, 20,  4, 22],
    [0x97, 28,  0,  3],
    [0x4B,  4,  3, 28],
    [0x90,  4,  3, 28],
    [0x17,  4, 28,  3],
    [0x10, 28,  3,  0],
    [0x39, 28,  0,  3],
    [0xF7,  3, 28,  0],
    [0xF6, 28,  3,  0],
    [0xA2,  3, 28,  0],
    [0x49, 19, 22,  9],
    [0x4E,  4, 23, 28],
    [0x43, 28,  0,  3],
    [0x68, 28,  3,  0],
    [0xE0, 22, 20,  4],
    [0x8B,  4, 28,  3],
    [0xF0, 27,  0, 14],
    [0xCE, 27,  0, 14],
    [0x0C,  0,  3, 28],
    [0x29, 28,  3,  0],
    [0xE8, 27,  4,  3],
    [0xB7,  0,  3, 28],
    [0x86, 17,  4, 13],
    [0x9A,  4,  3, 28],
    [0x52, 28,  3,  0],
    [0x01, 28,  3,  0],
    [0x9D,  4,  0,  2],
    [0x71, 20,  4, 22],
    [0x9C, 22, 17,  2],
    [0xBD,  4,  3, 28],
    [0x5D, 28,  3,  0],
    [0x6D, 28,  3,  0],
    [0x67,  0,  3, 28],
    [0x3F,  4, 29, 28],
    [0x6B, 17, 22,  2],
];

/// Title checksum → colour sets, then the fourth title byte that selects the
/// alternative sets, and those alternative sets.
pub const TABLE_ALT: [[u8; 8]; 13] = [
    [0xB3, 19, 22,  9, 0x42,  4, 28, 29],
    [0x46,  3, 11,  3, 0x45, 16,  8, 22],
    [0x28,  4,  3, 28, 0x46, 25,  3, 28],
    [0xA5, 27,  4,  3, 0x41, 27,  4,  3],
    [0xC6, 16, 22,  8, 0x41,  3,  0, 28],
    [0xD3,  2,  0,  4, 0x52,  4, 29, 28],
    [0x27, 19, 22,  9, 0x42,  0, 28,  8],
    [0x61, 28, 23,  4, 0x45,  4, 28,  3],
    [0x18, 17, 22,  2, 0x4B,  4, 28,  3],
    [0x66,  4,  7,  4, 0x45,  4, 29, 28],
    [0x6A, 17, 22,  2, 0x4B,  4, 29, 28],
    [0xBF,  4,  2,  0, 0x20,  4, 18, 22],
    [0x0D, 22, 24, 28, 0x52, 27,  0, 14],
];

fn ps(bg: usize, obj0: usize, obj1: usize) -> (r: PaletteSet)
    requires
        bg < 35,
        obj0 < 35,
        obj1 < 35,
    ensures
        r@ == sets(bg as int, obj0 as int, obj1 as int),
{
    PaletteSet { bg: pack(RAW[bg]), obj0: pack(RAW[obj0]), obj1: pack(RAW[obj1]) }
}

fn green_screen() -> (r: PaletteSet)
    ensures
        r@ == green_screen_spec(),
{
    let p = pack([0x73DC, 0x46D1, 0x1986, 0x0461]);
    PaletteSet { bg: p, obj0: p, obj1: p }
}

fn neutral_grey() -> (r: PaletteSet)
    ensures
        r@ == neutral_grey_spec(),
{
    let p = pack([0x7FFF, 0x56B5, 0x318C, 0x0000]);
    PaletteSet { bg: p, obj0: p, obj1: p }
}

pub fn title_checksum(title_bytes: &[u8]) -> (r: u8)
    ensures
        r == checksum(title_bytes@),
{
    let n = if title_bytes.len() < 16 { title_bytes.len() } else { 16 };
    let mut acc: u8 = 0;
    let mut i: usize = 0;
    while i < n
        invariant
            i <= n <= title_bytes.len(),
            n == (if title_bytes.len() < 16 { title_bytes.len() as int } else { 16 }),
            acc == byte_sum(title_bytes@.take(i as int)),
        decreases n - i,
    {
        assert(title_bytes@.take(i + 1).drop_last() =~= title_bytes@.take(i as int));
        acc = acc.wrapping_add(title_bytes[i]);
        i = i + 1;
    }
    acc
}

pub fn auto_palette(title_bytes: &[u8]) -> (r: PaletteSet)
    ensures
        r@ == auto_palette_spec(title_bytes@),
{
    let sum = title_checksum(title_bytes);
    let byte3 = if title_bytes.len() > 3 { title_bytes[3] } else { 0 };
    let mut i: usize = 0;
    while i < 65
        invariant
            i <= 65,
            sum == checksum(title_bytes@),
            first_plain(sum, 0) == first_plain(sum, i as int),
        decreases 65 - i,
    {
        let entry = TABLE[i];
        if entry[0] == sum {
            assert(first_plain(sum, i as int) == Some(i as int));
            return ps(entry[1] as usize, entry[2] as usize, entry[3] as usize);
        }
        i = i + 1;
    }
    let mut k: usize = 0;
    while k < 13
        invariant
            k <= 13,
            sum == checksum(title_bytes@),
            byte3 == (if title_bytes.len() > 3 { title_bytes@[3] } else { 0 }),
            first_plain(sum, 0) is None,
            first_alt(sum, 0) == first_alt(sum, k as int),
        decreases 13 - k,
    {
        let entry = TABLE_ALT[k];
        if entry[0] == sum {
            if byte3 == entry[4] {
                return ps(entry[5] as usize, entry[6] as usize, entry[7] as usize);
            }
            return ps(entry[1] as usize, entry[2] as usize, entry[3] as usize);
        }
        k = k + 1;
    }
    neutral_grey()
}

/// The palette named in the configuration: "grey", "green", or anything else
/// for the one the GBC boot ROM picks for this title.
pub fn resolve(name: &str, title_bytes: &[u8]) -> (r: PaletteSet)
    ensures
        name@ == "grey"@ ==> r@ == neutral_grey_spec(),
        name@ == "green"@ ==> r@ == green_screen_spec(),
        name@ != "grey"@ && name@ != "green"@ ==> r@ == auto_palette_spec(title_bytes@),
{
    proof {
        reveal_strlit("grey");
        reveal_strlit("green");
        assert("green"@.len() != "grey"@.len());
    }
    let name = name.to_owned();
    if name == "grey".to_owned() {
        neutral_grey()
    } else if name == "green".to_owned() {
        green_screen()
    } else {
        auto_palette(title_bytes)
    }
}

} // verus!
