//! Which glyph of a font image draws which character.

use crate::util::Size;
use std::collections::HashMap;
use vstd::prelude::*;
use vstd::std_specs::iter::IteratorSpec;
use vstd::string::StrSliceExecFns;

verus! {

/// Column and row of a glyph in a font image, counted in glyphs.
pub type FontIndex = (i32, i32);

/// The characters of IBM code page 437 in the order of their codes, with a
/// blank for each code that prints nothing, and without the last code.
pub const CODE_PAGE_437: &'static str =
    " ☺☻♥♦♣♠•◘○◙♂♀♪♫☼►◄↕‼¶§▬↨↑↓→←∟↔▲▼ !\"#$%&'()*+,-./0123456789:;<=>?@ABCDEFGHIJKLMNOPQRSTUVWXYZ[\\]^_`abcdefghijklmnopqrstuvwxyz{|}~⌂ÇüéâäàåçêëèïîìÄÅÉæÆôöòûùÿÖÜ¢£¥₧ƒáíóúñÑªº¿⌐¬½¼¡«»░▒▓│┤╡╢╖╕╣║╗╝╜╛┐└┴┬├─┼╞╟╚╔╩╦╠═╬╧╨╤╥╙╘╒╓╫╪┘┌█▄▌▐▀αßΓπΣσµτΦΘΩδ∞φε∩≡±≥≤⌠⌡÷≈°∙·√ⁿ²■";

/// A font that can be loaded: where its image is, how large its glyphs are,
/// and which glyph draws which character. Characters are keyed by their
/// code points.
pub struct FontInfo {
    /// Path of the font image.
    pub image_path: String,
    /// Width and height of a glyph in pixels.
    pub glyph_size: Size,
    /// Glyph of each character.
    pub font_map: HashMap<u32, FontIndex>,
}

/// The glyph of the `i`th character of a sheet that is sixteen glyphs wide.
pub open spec fn sheet_index(i: int) -> FontIndex {
    ((i % 16) as i32, (i / 16) as i32)
}

/// The font map of the first `upto` characters of a sheet. A character that
/// occurs twice keeps the glyph of its last occurrence.
pub open spec fn sheet_map(chars: Seq<char>, upto: int) -> Map<u32, FontIndex>
    decreases upto,
{
    if upto <= 0 {
        Map::empty()
    } else {
        sheet_map(chars, upto - 1).insert(chars[upto - 1] as u32, sheet_index(upto - 1))
    }
}

/// Whether a glyph lies inside an image: neither index is negative, and the
/// glyph ends at or before the right and lower edges.
pub open spec fn spec_valid_index(index: FontIndex, glyph_size: Size, image: Size) -> bool {
    &&& index.0 >= 0
    &&& index.1 >= 0
    &&& index.0 * glyph_size.w + glyph_size.w <= image.w
    &&& index.1 * glyph_size.h + glyph_size.h <= image.h
}

/// Whether a glyph lies inside an image of the given size in pixels.
pub fn valid_index(index: FontIndex, glyph_size: Size, image: Size) -> (valid: bool)
    ensures
        valid == spec_valid_index(index, glyph_size, image),
{
    if index.0 < 0 || index.1 < 0 {
        return false;
    }
    let gw: u64 = glyph_size.w as u64;
    let gh: u64 = glyph_size.h as u64;
    assert(index.0 as u64 * gw + gw <= 0x7fff_ffff * 0xffff_ffff + 0xffff_ffff)
        by (nonlinear_arith)
        requires
            0 <= index.0 <= 0x7fff_ffff,
            0 <= gw <= 0xffff_ffff,
    ;
    assert(index.1 as u64 * gh + gh <= 0x7fff_ffff * 0xffff_ffff + 0xffff_ffff)
        by (nonlinear_arith)
        requires
            0 <= index.1 <= 0x7fff_ffff,
            0 <= gh <= 0xffff_ffff,
    ;
    index.0 as u64 * gw + gw <= image.w as u64 && index.1 as u64 * gh + gh <= image.h as u64
}

/// A pixel of a font image as the glyphs are drawn from it: white, and as
/// opaque as the pixel of the image file is red; nothing at all where that
/// is not red at all. The four numbers are red, green, blue and alpha.
pub open spec fn spec_glyph_pixel(red: u8) -> (u8, u8, u8, u8) {
    if (red * 30 + red * 59 + red * 11) / 100 == 0 {
        (0, 0, 0, 0)
    } else {
        (255, 255, 255, ((red * 30 + red * 59 + red * 11) / 100) as u8)
    }
}

/// The pixel that a font image gets for a pixel of the image file whose red
/// is `red`.
pub fn glyph_pixel(red: u8) -> (pixel: (u8, u8, u8, u8))
    ensures
        pixel == spec_glyph_pixel(red),
        pixel.3 == red,
{
    let r: u16 = red as u16;
    let gray: u8 = ((r * 30 + r * 59 + r * 11) / 100) as u8;
    if gray == 0 {
        (0, 0, 0, 0)
    } else {
        (255, 255, 255, gray)
    }
}

impl FontInfo {
    /// The font map of a sheet of sixteen by sixteen glyphs in the order of
    /// IBM code page 437.
    pub fn map_code_page_437() -> (font_map: HashMap<u32, FontIndex>)
        ensures
            font_map@ == sheet_map(CODE_PAGE_437@, CODE_PAGE_437@.len() as int),
    {
        broadcast use vstd::std_specs::hash::group_hash_axioms;
        broadcast use vstd::string::group_string_axioms;

        let mut font_map: HashMap<u32, FontIndex> = HashMap::new();
        let count: usize = CODE_PAGE_437.unicode_len();
        let mut it = CODE_PAGE_437.chars();
        let mut i: usize = 0;
        proof {
            assert(CODE_PAGE_437@.subrange(0, CODE_PAGE_437@.len() as int) =~= CODE_PAGE_437@);
        }
        loop
            invariant
                i <= CODE_PAGE_437@.len() == count,
                it.remaining() == CODE_PAGE_437@.subrange(i as int, CODE_PAGE_437@.len() as int),
                it.obeys_prophetic_iter_laws(),
                font_map@ == sheet_map(CODE_PAGE_437@, i as int),
            ensures
                font_map@ == sheet_map(CODE_PAGE_437@, CODE_PAGE_437@.len() as int),
            decreases CODE_PAGE_437@.len() - i,
        {
            match it.next() {
                Some(ch) => {
                    proof {
                        assert(it.remaining() =~= CODE_PAGE_437@.subrange(
                            i + 1,
                            CODE_PAGE_437@.len() as int,
                        ));
                    }
                    font_map.insert(ch as u32, ((i % 16) as i32, (i / 16) as i32));
                    i = i + 1;
                },
                None => {
                    break ;
                },
            }
        }
        font_map
    }
}

/// Whether every glyph of a font map lies inside an image of the given
/// size in pixels.
pub fn validate_font_map(font_map: &HashMap<u32, FontIndex>, image: Size, glyph_size: Size) -> (valid:
    bool)
    ensures
        valid == forall|c: u32|
            font_map@.contains_key(c) ==> spec_valid_index(
                #[trigger] font_map@[c],
                glyph_size,
                image,
            ),
{
    broadcast use vstd::std_specs::hash::group_hash_axioms;

    let values = font_map.values();
    let ghost all = values.remaining().unref();
    for index in it: values
        invariant
            it.seq().unref() == all,
            all.to_set() == font_map@.values(),
            forall|j: int| 0 <= j < it.index() ==> spec_valid_index(all[j], glyph_size, image),
    {
        if !valid_index(*index, glyph_size, image) {
            proof {
                let bad = all[it.index()];
                assert(all.to_set().contains(bad));
                assert(font_map@.values().contains(bad));
            }
            return false;
        }
    }
    proof {
        assert forall|c: u32| font_map@.contains_key(c) implies spec_valid_index(
            #[trigger] font_map@[c],
            glyph_size,
            image,
        ) by {
            assert(font_map@.values().contains(font_map@[c]));
            assert(all.to_set().contains(font_map@[c]));
        }
    }
    true
}

} // verus!
