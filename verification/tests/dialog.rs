use rogue_turns::chargrid::RawCharGrid;
use rogue_turns::components::Position;
use rogue_turns::grid::CharGrid;
use rogue_turns::util::{Color, Size};
use rogue_turns::yes_no_dialog::{
    black, gray, selected_bg, white, DialogInput, DialogUpdate, YesNoDialogMode,
    YesNoDialogModeResult,
};

const GLYPH: Size = Size { w: 8, h: 14 };

fn dialog(prompt: &str, yes: bool) -> YesNoDialogMode {
    YesNoDialogMode::new(String::from(prompt), yes)
}

fn rows(g: &RawCharGrid) -> Vec<String> {
    (0..g.size.h as i32)
        .map(|y| {
            (0..g.size.w as i32).map(|x| g.cells[g.index(Position { x, y })].ch).collect()
        })
        .collect()
}

#[test]
fn a_bool_is_yes_or_no() {
    assert_eq!(YesNoDialogModeResult::from(true), YesNoDialogModeResult::Yes);
    assert_eq!(YesNoDialogModeResult::from(false), YesNoDialogModeResult::No);
}

#[test]
fn a_new_dialog_keeps_prompt_and_default() {
    let d = dialog("Quit?", true);
    assert_eq!(d.prompt, "Quit?");
    assert!(d.yes_selected);
    assert!(!dialog("Quit?", false).yes_selected);
}

#[test]
fn the_dialog_is_as_wide_as_its_widest_line() {
    assert_eq!(dialog("Quit?", true).grid_size(), Size { w: 19, h: 7 });
    assert_eq!(dialog("", true).grid_size(), Size { w: 19, h: 7 });
    assert_eq!(dialog("123456789012345", true).grid_size(), Size { w: 19, h: 7 });
    assert_eq!(dialog("1234567890123456", true).grid_size(), Size { w: 20, h: 7 });
    assert_eq!(dialog("Really delete the saved game?", true).grid_size(), Size { w: 33, h: 7 });
    assert_eq!(dialog("éééééééé", true).grid_size(), Size { w: 20, h: 7 });
}

#[test]
fn keys_select_confirm_and_cancel() {
    let mut d = dialog("Quit?", true);
    assert_eq!(d.update(None), DialogUpdate::Stay);
    assert_eq!(d.update(Some(DialogInput::Other)), DialogUpdate::Stay);
    assert!(d.yes_selected);
    assert_eq!(d.update(Some(DialogInput::Right)), DialogUpdate::Stay);
    assert!(!d.yes_selected);
    assert_eq!(d.update(Some(DialogInput::Right)), DialogUpdate::Stay);
    assert!(!d.yes_selected);
    assert_eq!(
        d.update(Some(DialogInput::Confirm)),
        DialogUpdate::Pop(YesNoDialogModeResult::No)
    );
    assert_eq!(d.update(Some(DialogInput::Left)), DialogUpdate::Stay);
    assert!(d.yes_selected);
    assert_eq!(
        d.update(Some(DialogInput::Confirm)),
        DialogUpdate::Pop(YesNoDialogModeResult::Yes)
    );
    assert_eq!(d.update(Some(DialogInput::Cancel)), DialogUpdate::Pop(YesNoDialogModeResult::No));
    assert!(d.yes_selected);
    assert_eq!(
        d.update(Some(DialogInput::AppQuit)),
        DialogUpdate::Pop(YesNoDialogModeResult::AppQuit)
    );
    assert!(d.yes_selected);
    assert_eq!(d.prompt, "Quit?");
}

#[test]
fn a_grid_is_made_if_there_is_none() {
    let d = dialog("Really delete the saved game?", true);
    let mut grids: Vec<CharGrid> = Vec::new();
    d.prepare_grids(&mut grids, 3, GLYPH, 2, Size { w: 800, h: 600 });
    assert_eq!(grids.len(), 1);
    let g = &grids[0];
    assert_eq!(g.front.size, Size { w: 33, h: 7 });
    assert_eq!(g.font(), 0);
    assert_eq!(g.view.clear_color, None);
    assert_eq!(g.view.zoom, 2);
    assert_eq!(g.view.size, Size { w: 528, h: 196 });
    assert_eq!(g.view.pos, Position { x: 136, y: 202 });
    assert_eq!((g.view.dx, g.view.dy), (0, 0));
    assert!(g.view.visible);
    assert!(g.force_render && g.needs_render && g.needs_upload);
}

#[test]
fn a_grid_that_is_there_is_used_again() {
    let d = dialog("Quit?", true);
    let mut first = CharGrid::new(Size { w: 19, h: 7 }, 3, 2);
    first.display(GLYPH);
    first.view.color_mod = Color { r: 1, g: 2, b: 3 };
    let mut second = CharGrid::new(Size { w: 2, h: 2 }, 3, 1);
    second.put(Position { x: 1, y: 1 }, 'k');
    let mut grids = vec![first, second];
    d.prepare_grids(&mut grids, 3, GLYPH, 1, Size { w: 100, h: 600 });
    assert_eq!(grids.len(), 2);
    let g = &grids[0];
    assert_eq!(g.front.size, Size { w: 19, h: 7 });
    assert_eq!(g.font(), 2);
    assert!(!g.needs_render && !g.force_render);
    assert!(g.has_texture);
    assert_eq!(g.view.clear_color, Some(Color { r: 0, g: 0, b: 0 }));
    assert_eq!(g.view.color_mod, Color { r: 1, g: 2, b: 3 });
    assert_eq!(g.view.zoom, 1);
    assert_eq!(g.view.size, Size { w: 100, h: 98 });
    assert_eq!(g.view.pos, Position { x: 0, y: 251 });
    assert_eq!((g.view.dx, g.view.dy), (-26, 0));
    assert_eq!(grids[1].front.size, Size { w: 2, h: 2 });
    assert_eq!(grids[1].front.cells[3].ch, 'k');
    assert_eq!(grids[1].font(), 1);
    let longer = dialog("Really delete the saved game?", true);
    longer.prepare_grids(&mut grids, 3, GLYPH, 1, Size { w: 100, h: 600 });
    assert_eq!(grids[0].front.size, Size { w: 33, h: 7 });
    assert!(grids[0].needs_render && grids[0].force_render);
    assert!(!grids[0].has_texture);
    assert_eq!(grids[0].font(), 2);
}

#[test]
fn the_dialog_is_drawn_with_its_buttons() {
    let d = dialog("Quit?", true);
    let mut g = CharGrid::new(d.grid_size(), 1, 0);
    g.display(GLYPH);
    d.draw(&mut g, true);
    assert_eq!(
        rows(&g.front),
        vec![
            "┌─────────────────┐",
            "│                 │",
            "│ Quit?           │",
            "│                 │",
            "│ [ Yes ]  [ No ] │",
            "│                 │",
            "└─────────────────┘",
        ]
    );
    assert!(g.needs_render);
    assert_eq!(g.view.color_mod, white());
    let cell = |x: i32, y: i32| g.front.cells[g.front.index(Position { x, y })];
    assert_eq!((cell(0, 0).fg, cell(0, 0).bg), (white(), black()));
    assert_eq!((cell(2, 2).fg, cell(2, 2).bg), (white(), black()));
    assert_eq!(cell(2, 4).bg, selected_bg());
    assert_eq!(cell(8, 4).bg, selected_bg());
    assert_eq!(cell(9, 4).bg, black());
    assert_eq!(cell(11, 4).bg, black());
    assert_eq!(cell(16, 4).bg, black());
    assert_eq!(cell(11, 4).fg, white());
}

#[test]
fn the_other_button_can_be_selected_and_the_dialog_dimmed() {
    let mut d = dialog("Quit?", true);
    d.update(Some(DialogInput::Right));
    let mut g = CharGrid::new(Size { w: 24, h: 7 }, 1, 0);
    d.draw(&mut g, false);
    assert_eq!(g.view.color_mod, gray());
    let cell = |x: i32, y: i32| g.front.cells[g.front.index(Position { x, y })];
    assert_eq!(rows(&g.front)[4], "│      [ Yes ]  [ No ] │");
    assert_eq!(cell(7, 4).bg, black());
    assert_eq!(cell(13, 4).bg, black());
    assert_eq!(cell(16, 4).bg, selected_bg());
    assert_eq!(cell(21, 4).bg, selected_bg());
    assert_eq!(cell(22, 4).bg, black());
}
