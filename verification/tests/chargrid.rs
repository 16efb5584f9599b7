use rogue_turns::chargrid::{default_cell, utf8_width, Cell, RawCharGrid};
use rogue_turns::components::Position;
use rogue_turns::util::{Color, Size};

const RED: Color = Color { r: 200, g: 0, b: 0 };
const BLUE: Color = Color { r: 0, g: 0, b: 200 };
const WHITE: Color = Color { r: 255, g: 255, b: 255 };
const BLACK: Color = Color { r: 0, g: 0, b: 0 };

fn at(x: i32, y: i32) -> Position {
    Position { x, y }
}

fn grid(w: u32, h: u32) -> RawCharGrid {
    RawCharGrid::new(Size { w, h })
}

fn cell(g: &RawCharGrid, x: i32, y: i32) -> Cell {
    g.cells[g.index(at(x, y))]
}

fn rows(g: &RawCharGrid) -> Vec<String> {
    (0..g.size.h as i32)
        .map(|y| (0..g.size.w as i32).map(|x| cell(g, x, y).ch).collect())
        .collect()
}

#[test]
fn a_new_grid_is_blank() {
    let g = grid(4, 3);
    assert_eq!(g.size, Size { w: 4, h: 3 });
    assert_eq!(g.draw_offset, at(0, 0));
    assert_eq!(g.cells.len(), 12);
    assert!(g.cells.iter().all(|c| *c == Cell { ch: ' ', fg: WHITE, bg: BLACK }));
    assert_eq!(default_cell(), Cell { ch: ' ', fg: WHITE, bg: BLACK });
}

#[test]
fn cells_are_stored_row_by_row() {
    let g = grid(4, 3);
    assert_eq!(g.index(at(0, 0)), 0);
    assert_eq!(g.index(at(3, 0)), 3);
    assert_eq!(g.index(at(0, 1)), 4);
    assert_eq!(g.index(at(3, 2)), 11);
    assert_eq!(g.index(at(4, 0)), 0);
    assert_eq!(g.index(at(5, 3)), 1);
}

#[test]
fn the_draw_offset_shifts_where_cells_are_stored() {
    let mut g = grid(4, 3);
    g.set_draw_offset(at(1, 2));
    assert_eq!(g.draw_offset, at(1, 2));
    assert_eq!(g.index(at(0, 0)), 9);
    assert_eq!(g.index(at(3, 0)), 8);
    assert_eq!(g.index(at(0, 1)), 1);
    g.set_draw_offset(at(9, 7));
    assert_eq!(g.draw_offset, at(1, 1));
    g.set_draw_offset(at(-1, -2));
    assert_eq!(g.draw_offset, at(3, 1));
    g.set_draw_offset(at(-4, -3));
    assert_eq!(g.draw_offset, at(4, 3));
    assert_eq!(g.index(at(0, 0)), 0);
    g.set_draw_offset(at(-i32::MAX, i32::MAX));
    assert_eq!(g.draw_offset, at(1, 1));
}

#[test]
fn put_changes_one_cell() {
    let mut g = grid(4, 3);
    g.set_draw_offset(at(2, 1));
    g.put_color(at(1, 1), Some(RED), None, 'a');
    g.put_color(at(3, 2), None, Some(BLUE), 'b');
    assert_eq!(cell(&g, 1, 1), Cell { ch: 'a', fg: RED, bg: BLACK });
    assert_eq!(cell(&g, 3, 2), Cell { ch: 'b', fg: WHITE, bg: BLUE });
    assert_eq!(rows(&g), vec!["    ", " a  ", "   b"]);
    g.put_color(at(1, 1), None, Some(BLUE), 'c');
    assert_eq!(cell(&g, 1, 1), Cell { ch: 'c', fg: RED, bg: BLUE });
}

#[test]
fn put_off_the_grid_does_nothing() {
    let mut g = grid(4, 3);
    for pos in [at(-1, 0), at(0, -1), at(4, 0), at(0, 3), at(i32::MAX, i32::MIN)] {
        g.put_color(pos, Some(RED), Some(BLUE), 'x');
        g.set_bg(pos, RED);
    }
    assert!(g.cells.iter().all(|c| *c == default_cell()));
}

#[test]
fn raw_put_wraps_round() {
    let mut g = grid(4, 3);
    g.put_color_raw(at(5, 4), Some(RED), None, 'w');
    assert_eq!(cell(&g, 1, 1), Cell { ch: 'w', fg: RED, bg: BLACK });
}

#[test]
fn set_bg_keeps_the_rest_of_the_cell() {
    let mut g = grid(4, 3);
    g.put_color(at(2, 0), Some(RED), None, 'q');
    g.set_bg(at(2, 0), BLUE);
    assert_eq!(cell(&g, 2, 0), Cell { ch: 'q', fg: RED, bg: BLUE });
    assert_eq!(cell(&g, 1, 0), default_cell());
}

#[test]
fn clear_fills_every_cell() {
    let mut g = grid(3, 2);
    g.put_color(at(1, 1), Some(RED), Some(BLUE), 'z');
    g.clear_color(None, Some(BLUE));
    assert!(g.cells.iter().all(|c| *c == Cell { ch: ' ', fg: WHITE, bg: BLUE }));
    g.clear_color(Some(RED), None);
    assert!(g.cells.iter().all(|c| *c == Cell { ch: ' ', fg: RED, bg: BLACK }));
    g.clear_color(None, None);
    assert!(g.cells.iter().all(|c| *c == default_cell()));
}

#[test]
fn resize_keeps_the_stored_cells_it_can() {
    let mut g = grid(2, 2);
    g.set_draw_offset(at(1, 1));
    g.put_color(at(0, 0), Some(RED), None, 'a');
    let stored = g.cells.clone();
    g.resize(Size { w: 2, h: 2 });
    assert_eq!(g.draw_offset, at(1, 1));
    assert_eq!(g.cells, stored);
    g.resize(Size { w: 3, h: 2 });
    assert_eq!(g.size, Size { w: 3, h: 2 });
    assert_eq!(g.draw_offset, at(0, 0));
    assert_eq!(g.cells.len(), 6);
    assert_eq!(&g.cells[..4], &stored[..]);
    assert_eq!(g.cells[4], default_cell());
    assert_eq!(g.cells[5], default_cell());
    g.resize(Size { w: 1, h: 3 });
    assert_eq!(g.cells.len(), 3);
    assert_eq!(&g.cells[..], &stored[..3]);
}

#[test]
fn visible_diff_of_cells() {
    let a = Cell { ch: 'a', fg: RED, bg: BLUE };
    assert!(a.visible_diff(&Cell { ch: 'b', fg: RED, bg: BLUE }));
    assert!(a.visible_diff(&Cell { ch: 'a', fg: RED, bg: BLACK }));
    assert!(a.visible_diff(&a));
    let same = Cell { ch: 'a', fg: BLUE, bg: BLUE };
    assert!(!same.visible_diff(&Cell { ch: 'a', fg: RED, bg: BLUE }));
    let blank = Cell { ch: ' ', fg: RED, bg: BLUE };
    assert!(!blank.visible_diff(&Cell { ch: ' ', fg: WHITE, bg: BLUE }));
    assert!(blank.visible_diff(&Cell { ch: ' ', fg: RED, bg: RED }));
}

#[test]
fn a_box_on_the_grid() {
    let mut g = grid(6, 5);
    g.draw_box(at(1, 1), Size { w: 4, h: 3 }, RED, BLUE);
    assert_eq!(rows(&g), vec!["      ", " ┌──┐ ", " │  │ ", " └──┘ ", "      "]);
    assert_eq!(cell(&g, 2, 2), Cell { ch: ' ', fg: RED, bg: BLUE });
    assert_eq!(cell(&g, 1, 1), Cell { ch: '┌', fg: RED, bg: BLUE });
    assert_eq!(cell(&g, 0, 0), default_cell());
    assert_eq!(cell(&g, 5, 2), default_cell());
}

#[test]
fn a_box_is_clipped_at_the_edges() {
    let mut g = grid(4, 3);
    g.draw_box(at(-2, -1), Size { w: 4, h: 3 }, RED, BLUE);
    assert_eq!(rows(&g), vec![" │  ", "─┘  ", "    "]);
    let mut g = grid(4, 3);
    g.draw_box(at(2, 1), Size { w: 9, h: 9 }, RED, BLUE);
    assert_eq!(rows(&g), vec!["    ", "  ┌─", "  │ "]);
    let mut g = grid(4, 3);
    g.draw_box(at(-3, -3), Size { w: 20, h: 20 }, RED, BLUE);
    assert_eq!(rows(&g), vec!["    ", "    ", "    "]);
    assert!(g.cells.iter().all(|c| *c == Cell { ch: ' ', fg: RED, bg: BLUE }));
}

#[test]
fn a_box_off_the_grid_or_without_size_draws_nothing() {
    let mut g = grid(4, 3);
    g.draw_box(at(4, 0), Size { w: 2, h: 2 }, RED, BLUE);
    g.draw_box(at(0, 3), Size { w: 2, h: 2 }, RED, BLUE);
    g.draw_box(at(-2, 0), Size { w: 2, h: 2 }, RED, BLUE);
    g.draw_box(at(0, -2), Size { w: 2, h: 2 }, RED, BLUE);
    g.draw_box(at(1, 1), Size { w: 0, h: 2 }, RED, BLUE);
    g.draw_box(at(1, 1), Size { w: 2, h: 0 }, RED, BLUE);
    g.draw_box(at(0, 0), Size { w: u32::MAX, h: 2 }, RED, BLUE);
    g.draw_box(at(0, 0), Size { w: 2, h: 0x8000_0000 }, RED, BLUE);
    assert!(g.cells.iter().all(|c| *c == default_cell()));
}

#[test]
fn thin_boxes_show_their_last_edge() {
    let mut g = grid(4, 3);
    g.draw_box(at(0, 0), Size { w: 1, h: 3 }, RED, BLUE);
    g.draw_box(at(1, 1), Size { w: 3, h: 1 }, RED, BLUE);
    assert_eq!(rows(&g), vec!["┐   ", "│└─┘", "┘   "]);
    let mut g = grid(2, 2);
    g.draw_box(at(0, 0), Size { w: 1, h: 1 }, RED, BLUE);
    assert_eq!(rows(&g), vec!["┘ ", "  "]);
    let mut g = grid(2, 2);
    g.draw_box(at(i32::MAX, i32::MAX), Size { w: i32::MAX as u32, h: 1 }, RED, BLUE);
    assert_eq!(rows(&g), vec!["  ", "  "]);
}

#[test]
fn a_box_follows_the_draw_offset() {
    let mut g = grid(4, 3);
    g.set_draw_offset(at(3, 2));
    g.draw_box(at(0, 0), Size { w: 4, h: 3 }, RED, BLUE);
    assert_eq!(rows(&g), vec!["┌──┐", "│  │", "└──┘"]);
    assert_eq!(g.cells[g.index(at(0, 0))].ch, '┌');
    assert_eq!(g.cells[11].ch, '┌');
}

#[test]
fn a_bar_shows_its_share() {
    let mut g = grid(10, 2);
    g.draw_bar(false, at(1, 0), 8, 0, 5, 10, Some(RED), None);
    assert_eq!(rows(&g), vec![" ████░░░░ ", "          "]);
    assert_eq!(cell(&g, 1, 0), Cell { ch: '█', fg: RED, bg: BLACK });
    assert_eq!(cell(&g, 8, 0), Cell { ch: '░', fg: RED, bg: BLACK });
    assert_eq!(cell(&g, 0, 0), default_cell());
    let mut g = grid(10, 1);
    g.draw_bar(false, at(0, 0), 10, 0, 10, 10, None, Some(BLUE));
    assert_eq!(rows(&g), vec!["██████████"]);
    let mut g = grid(10, 1);
    g.draw_bar(false, at(0, 0), 10, 0, 0, 10, None, None);
    assert_eq!(rows(&g), vec!["░░░░░░░░░░"]);
    let mut g = grid(10, 1);
    g.draw_bar(false, at(0, 0), 10, 0, 99, 10, None, None);
    assert_eq!(rows(&g), vec!["██████████"]);
    let mut g = grid(10, 1);
    g.draw_bar(false, at(0, 0), 10, 0, -5, 10, None, None);
    assert_eq!(rows(&g), vec!["░░░░░░░░░░"]);
    let mut g = grid(10, 1);
    g.draw_bar(false, at(0, 0), 10, 0, 5, 0, None, None);
    assert_eq!(rows(&g), vec!["░░░░░░░░░░"]);
}

#[test]
fn a_bar_can_start_its_fill_later() {
    let mut g = grid(10, 1);
    // 4 of 10 filled; the 6 empty cells are shared out by 3 of the 6 missing
    g.draw_bar(false, at(0, 0), 10, 3, 4, 10, None, None);
    assert_eq!(rows(&g), vec!["░░░████░░░"]);
    let mut g = grid(10, 1);
    g.draw_bar(false, at(0, 0), 10, 6, 4, 10, None, None);
    assert_eq!(rows(&g), vec!["░░░░░░████"]);
    let mut g = grid(10, 1);
    g.draw_bar(false, at(2, 0), 6, -3, 2, 6, None, None);
    // the fill starts three cells before the bar and is clipped to one cell
    assert_eq!(rows(&g), vec!["█░░░░░░░  "]);
    let mut g = grid(10, 1);
    g.draw_bar(false, at(2, 0), 6, 9, 2, 6, None, None);
    // an offset beyond what is missing pushes the fill off the grid
    assert_eq!(rows(&g), vec!["  ░░░░░░░░"]);
}

#[test]
fn a_bar_can_stand_upright_and_is_clipped() {
    let mut g = grid(3, 4);
    g.draw_bar(true, at(1, -1), 6, 0, 3, 6, None, None);
    assert_eq!(rows(&g), vec![" █ ", " █ ", " ░ ", " ░ "]);
    let mut g = grid(3, 4);
    g.draw_bar(true, at(3, 0), 4, 0, 2, 4, None, None);
    g.draw_bar(true, at(-1, 0), 4, 0, 2, 4, None, None);
    g.draw_bar(true, at(0, 4), 4, 0, 2, 4, None, None);
    g.draw_bar(true, at(0, -5), 4, 0, 2, 4, None, None);
    g.draw_bar(false, at(0, 4), 4, 0, 2, 4, None, None);
    g.draw_bar(false, at(3, 0), 4, 0, 2, 4, None, None);
    assert!(g.cells.iter().all(|c| *c == default_cell()));
}

#[test]
fn bars_of_any_numbers_stay_on_the_grid() {
    let mut g = grid(5, 1);
    g.draw_bar(false, at(i32::MIN, 0), i32::MAX, i32::MIN, i32::MAX, i32::MAX, None, None);
    g.draw_bar(false, at(0, 0), i32::MAX, i32::MAX, i32::MIN, i32::MAX, None, None);
    assert_eq!(rows(&g), vec!["░░░░░"]);
}

#[test]
fn text_is_printed_from_its_start() {
    let mut g = grid(8, 2);
    g.print_color(at(1, 1), Some(RED), None, "hello");
    assert_eq!(rows(&g), vec!["        ", " hello  "]);
    assert_eq!(cell(&g, 1, 1), Cell { ch: 'h', fg: RED, bg: BLACK });
    assert_eq!(cell(&g, 6, 1), default_cell());
    g.print_color(at(0, 0), None, Some(BLUE), "");
    assert_eq!(rows(&g), vec!["        ", " hello  "]);
}

#[test]
fn text_left_of_the_grid_loses_its_start() {
    let mut g = grid(8, 1);
    g.print_color(at(-3, 0), None, None, "abcdef");
    assert_eq!(rows(&g), vec!["def     "]);
    let mut g = grid(8, 1);
    g.print_color(at(-6, 0), None, None, "abcdef");
    assert_eq!(rows(&g), vec!["        "]);
    g.print_color(at(-5, 0), None, None, "abcdef");
    assert_eq!(rows(&g), vec!["f       "]);
}

#[test]
fn text_outside_the_rows_or_right_of_the_grid_is_not_printed() {
    let mut g = grid(4, 2);
    g.print_color(at(0, -1), None, None, "ab");
    g.print_color(at(0, 2), None, None, "ab");
    g.print_color(at(4, 0), None, None, "ab");
    assert!(g.cells.iter().all(|c| *c == default_cell()));
}

#[test]
fn text_past_the_right_edge_wraps_round() {
    let mut g = grid(4, 2);
    g.print_color(at(2, 1), None, None, "abc");
    assert_eq!(rows(&g), vec!["    ", "c ab"]);
}

#[test]
fn text_is_cut_after_as_many_characters_as_the_grid_is_wide() {
    let mut g = grid(4, 1);
    g.print_color(at(0, 0), None, None, "abcdefgh");
    assert_eq!(rows(&g), vec!["abcd"]);
    let mut g = grid(4, 1);
    g.print_color(at(-2, 0), None, None, "abcdefgh");
    assert_eq!(rows(&g), vec!["cdef"]);
}

#[test]
fn characters_are_spaced_by_their_bytes() {
    let mut g = grid(8, 1);
    g.print_color(at(0, 0), None, None, "aéb");
    assert_eq!(rows(&g), vec!["aé b    "]);
    assert_eq!(utf8_width('a'), 1);
    assert_eq!(utf8_width('é'), 2);
    assert_eq!(utf8_width('░'), 3);
    assert_eq!(utf8_width('\u{1f600}'), 4);
    assert_eq!(utf8_width('\u{7f}'), 1);
    assert_eq!(utf8_width('\u{80}'), 2);
    assert_eq!(utf8_width('\u{7ff}'), 2);
    assert_eq!(utf8_width('\u{800}'), 3);
    assert_eq!(utf8_width('\u{ffff}'), 3);
    assert_eq!(utf8_width('\u{10000}'), 4);
}

#[test]
fn a_run_is_clipped_to_the_grid() {
    let mut g = grid(4, 3);
    g.run(false, 1, -5, 2, None, None, 'x');
    g.run(true, 3, 1, 99, None, None, 'y');
    g.run(true, 0, 2, 2, None, None, 'z');
    g.run(false, 0, 3, 1, None, None, 'z');
    assert_eq!(rows(&g), vec!["    ", "xx y", "   y"]);
}
