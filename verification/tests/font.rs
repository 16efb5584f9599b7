use rogue_turns::font::{
    glyph_pixel, valid_index, validate_font_map, FontInfo, CODE_PAGE_437,
};
use rogue_turns::util::Size;
use std::collections::HashMap;

#[test]
fn the_code_page_has_its_characters_in_rows_of_sixteen() {
    let map = FontInfo::map_code_page_437();
    assert_eq!(CODE_PAGE_437.chars().count(), 255);
    assert_eq!(map.get(&('☺' as u32)), Some(&(1, 0)));
    assert_eq!(map.get(&('A' as u32)), Some(&(1, 4)));
    assert_eq!(map.get(&('a' as u32)), Some(&(1, 6)));
    assert_eq!(map.get(&('0' as u32)), Some(&(0, 3)));
    assert_eq!(map.get(&('!' as u32)), Some(&(1, 2)));
    assert_eq!(map.get(&('█' as u32)), Some(&(11, 13)));
    assert_eq!(map.get(&('░' as u32)), Some(&(0, 11)));
    assert_eq!(map.get(&('┌' as u32)), Some(&(10, 13)));
    assert_eq!(map.get(&('■' as u32)), Some(&(14, 15)));
    assert_eq!(map.get(&('\\' as u32)), Some(&(12, 5)));
    assert_eq!(map.get(&('"' as u32)), Some(&(2, 2)));
    assert_eq!(map.get(&0), None);
    assert_eq!(map.get(&0xa0), None);
}

#[test]
fn a_character_that_occurs_twice_keeps_its_last_glyph() {
    let map = FontInfo::map_code_page_437();
    assert_eq!(map.get(&(' ' as u32)), Some(&(0, 2)));
    assert_eq!(map.len(), 254);
    for (i, ch) in CODE_PAGE_437.chars().enumerate() {
        if ch != ' ' {
            assert_eq!(map.get(&(ch as u32)), Some(&(i as i32 % 16, i as i32 / 16)));
        }
    }
}

#[test]
fn a_glyph_is_valid_if_it_lies_in_the_image() {
    let glyph = Size { w: 8, h: 14 };
    let image = Size { w: 128, h: 224 };
    assert!(valid_index((0, 0), glyph, image));
    assert!(valid_index((15, 15), glyph, image));
    assert!(!valid_index((16, 0), glyph, image));
    assert!(!valid_index((0, 16), glyph, image));
    assert!(!valid_index((-1, 0), glyph, image));
    assert!(!valid_index((0, -1), glyph, image));
    assert!(!valid_index((15, 15), glyph, Size { w: 127, h: 224 }));
    assert!(!valid_index((15, 15), glyph, Size { w: 128, h: 223 }));
    assert!(valid_index((i32::MAX, i32::MAX), Size { w: 0, h: 0 }, Size { w: 0, h: 0 }));
    assert!(!valid_index(
        (i32::MAX, 0),
        Size { w: u32::MAX, h: 1 },
        Size { w: u32::MAX, h: u32::MAX }
    ));
}

#[test]
fn a_font_map_is_valid_if_all_its_glyphs_are() {
    let map = FontInfo::map_code_page_437();
    let glyph = Size { w: 8, h: 14 };
    assert!(validate_font_map(&map, Size { w: 128, h: 224 }, glyph));
    assert!(!validate_font_map(&map, Size { w: 127, h: 224 }, glyph));
    assert!(!validate_font_map(&map, Size { w: 128, h: 223 }, glyph));
    assert!(validate_font_map(&HashMap::new(), Size { w: 0, h: 0 }, glyph));
    let mut one_bad = map.clone();
    one_bad.insert('x' as u32, (-1, 3));
    assert!(!validate_font_map(&one_bad, Size { w: 128, h: 224 }, glyph));
}

#[test]
fn the_red_of_the_file_becomes_the_alpha_of_the_font() {
    assert_eq!(glyph_pixel(0), (0, 0, 0, 0));
    assert_eq!(glyph_pixel(1), (255, 255, 255, 1));
    assert_eq!(glyph_pixel(130), (255, 255, 255, 130));
    assert_eq!(glyph_pixel(255), (255, 255, 255, 255));
}
