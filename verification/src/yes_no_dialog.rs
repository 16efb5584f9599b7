//! A dialog that asks a question to be answered with yes or no.

use crate::chargrid::{Cell, RawCharGrid};
use crate::components::Position;
use crate::grid::{centered, CharGrid, CharGridView};
use crate::util::{Color, Size};
use vstd::prelude::*;
use vstd::string::StringSliceAdditionalSpecFns;
use vstd::utf8::encode_utf8;

verus! {

/// Columns that the two buttons take with the gap between them.
pub const BUTTONS_WIDTH: u32 = 15;

/// Rows of the dialog.
pub const DIALOG_HEIGHT: u32 = 7;

/// The text of the button for yes.
pub open spec fn yes_text() -> Seq<char> {
    "[ Yes ]"@
}

/// The text of the button for no.
pub open spec fn no_text() -> Seq<char> {
    "[ No ]"@
}

/// White.
pub open spec fn spec_white() -> Color {
    Color { r: 255, g: 255, b: 255 }
}

/// A middle gray.
pub open spec fn spec_gray() -> Color {
    Color { r: 128, g: 128, b: 128 }
}

/// Black.
pub open spec fn spec_black() -> Color {
    Color { r: 0, g: 0, b: 0 }
}

/// A saturated blue.
pub open spec fn spec_selected_bg() -> Color {
    Color { r: 0, g: 128, b: 255 }
}

/// The colour of text and frames.
#[verifier::when_used_as_spec(spec_white)]
pub fn white() -> (c: Color)
    ensures
        c == spec_white(),
{
    Color { r: 255, g: 255, b: 255 }
}

/// The colour that dims a dialog that is not the active one.
#[verifier::when_used_as_spec(spec_gray)]
pub fn gray() -> (c: Color)
    ensures
        c == spec_gray(),
{
    Color { r: 128, g: 128, b: 128 }
}

/// The colour behind text.
#[verifier::when_used_as_spec(spec_black)]
pub fn black() -> (c: Color)
    ensures
        c == spec_black(),
{
    Color { r: 0, g: 0, b: 0 }
}

/// The colour behind the button that is selected.
#[verifier::when_used_as_spec(spec_selected_bg)]
pub fn selected_bg() -> (c: Color)
    ensures
        c == spec_selected_bg(),
{
    Color { r: 0, g: 128, b: 255 }
}

/// How a dialog ended.
#[derive(Clone, Copy, Debug, PartialEq, Eq, Structural)]
pub enum YesNoDialogModeResult {
    /// The application is to quit.
    AppQuit,
    Yes,
    No,
}

impl From<bool> for YesNoDialogModeResult {
    fn from(yes: bool) -> (result: Self) {
        if yes {
            Self::Yes
        } else {
            Self::No
        }
    }
}

impl vstd::std_specs::convert::FromSpecImpl<bool> for YesNoDialogModeResult {
    open spec fn obeys_from_spec() -> bool {
        true
    }

    open spec fn from_spec(yes: bool) -> Self {
        if yes {
            Self::Yes
        } else {
            Self::No
        }
    }
}

/// What the input layer reports to a dialog.
#[derive(Clone, Copy, Debug, PartialEq, Eq, Structural)]
pub enum DialogInput {
    /// The application is asked to quit.
    AppQuit,
    /// The key for left was pressed.
    Left,
    /// The key for right was pressed.
    Right,
    /// The key that confirms was pressed.
    Confirm,
    /// The key that cancels was pressed.
    Cancel,
    /// Another key was pressed.
    Other,
}

/// What a dialog wants after an update.
#[derive(Clone, Copy, Debug, PartialEq, Eq, Structural)]
pub enum DialogUpdate {
    /// The dialog is over, with this result; the next update is due at
    /// once.
    Pop(YesNoDialogModeResult),
    /// The dialog stays and waits for the next event.
    Stay,
}

/// A dialog box with a prompt and a button each for yes and no.
pub struct YesNoDialogMode {
    pub prompt: String,
    pub yes_selected: bool,
}

impl YesNoDialogMode {
    /// A dialog with the given prompt, with yes or no selected to begin
    /// with.
    pub fn new(prompt: String, yes_default: bool) -> (dialog: Self)
        ensures
            dialog.prompt == prompt,
            dialog.yes_selected == yes_default,
    {
        Self { prompt, yes_selected: yes_default }
    }

    /// The size of the dialog in cells: seven rows, and four columns more
    /// than the prompt or the buttons take, whichever is wider.
    pub open spec fn spec_grid_size(&self) -> Size {
        let bytes = encode_utf8(self.prompt@).len();
        Size {
            w: (4 + if bytes >= BUTTONS_WIDTH {
                bytes as int
            } else {
                BUTTONS_WIDTH as int
            }) as u32,
            h: DIALOG_HEIGHT,
        }
    }

    /// The size of the dialog in cells.
    pub fn grid_size(&self) -> (size: Size)
        requires
            encode_utf8(self.prompt@).len() + 4 <= u32::MAX,
        ensures
            size == self.spec_grid_size(),
    {
        let bytes: usize = self.prompt.as_str().len();
        let inner: u32 = if bytes >= BUTTONS_WIDTH as usize {
            bytes as u32
        } else {
            BUTTONS_WIDTH
        };
        Size { w: 4 + inner, h: DIALOG_HEIGHT }
    }

    /// Handles one report of the input layer, or the lack of one.
    ///
    /// A request to quit ends the dialog with `AppQuit`. Left selects yes
    /// and right selects no. Confirming ends the dialog with what is
    /// selected, and cancelling ends it with no. Anything else is ignored.
    pub fn update(&mut self, input: Option<DialogInput>) -> (next: DialogUpdate)
        ensures
            final(self).prompt == old(self).prompt,
            final(self).yes_selected == match input {
                Some(DialogInput::Left) => true,
                Some(DialogInput::Right) => false,
                _ => old(self).yes_selected,
            },
            next == match input {
                Some(DialogInput::AppQuit) => DialogUpdate::Pop(YesNoDialogModeResult::AppQuit),
                Some(DialogInput::Confirm) => DialogUpdate::Pop(
                    if old(self).yes_selected {
                        YesNoDialogModeResult::Yes
                    } else {
                        YesNoDialogModeResult::No
                    },
                ),
                Some(DialogInput::Cancel) => DialogUpdate::Pop(YesNoDialogModeResult::No),
                _ => DialogUpdate::Stay,
            },
    {
        match input {
            Some(DialogInput::AppQuit) => {
                return DialogUpdate::Pop(YesNoDialogModeResult::AppQuit);
            },
            Some(DialogInput::Left) => {
                self.yes_selected = true;
            },
            Some(DialogInput::Right) => {
                self.yes_selected = false;
            },
            Some(DialogInput::Confirm) => {
                return DialogUpdate::Pop(YesNoDialogModeResult::from(self.yes_selected));
            },
            Some(DialogInput::Cancel) => {
                return DialogUpdate::Pop(YesNoDialogModeResult::No);
            },
            _ => {},
        }
        DialogUpdate::Stay
    }

    /// The view of the dialog's grid once it is centred in a window: the
    /// view that the grid had, centred for the given glyphs, at the zoom of
    /// the text.
    pub open spec fn centered_view(
        &self,
        base: CharGridView,
        glyph_size: Size,
        text_zoom: u32,
        window_size: Size,
    ) -> CharGridView {
        let size = self.spec_grid_size();
        let across = centered((size.w * glyph_size.w * text_zoom) as u32, 0, window_size.w);
        let down = centered((size.h * glyph_size.h * text_zoom) as u32, 0, window_size.h);
        CharGridView {
            pos: Position { x: across.0 as i32, y: down.0 as i32 },
            size: Size { w: across.1, h: down.1 },
            dx: across.2 as i32,
            dy: down.2 as i32,
            zoom: text_zoom,
            ..base
        }
    }

    /// Whether a grid for the dialog can be made and centred: the grid has
    /// at most `i32::MAX` columns, its cells and the pixels of its picture
    /// along each edge can be counted in a `u32`, and the centred picture
    /// begins within the coordinates that the screen has.
    pub open spec fn can_prepare(&self, glyph_size: Size, text_zoom: u32, window_size: Size) -> bool {
        let bytes = encode_utf8(self.prompt@).len();
        let size = self.spec_grid_size();
        &&& bytes + 4 <= i32::MAX
        &&& size.w * size.h <= u32::MAX
        &&& size.w * glyph_size.w * text_zoom <= u32::MAX
        &&& size.h * glyph_size.h * text_zoom <= u32::MAX
        &&& i32::MIN <= centered((size.w * glyph_size.w * text_zoom) as u32, 0, window_size.w).0
            <= i32::MAX
        &&& i32::MIN <= centered((size.h * glyph_size.h * text_zoom) as u32, 0, window_size.h).0
            <= i32::MAX
    }

    /// Makes the first grid ready for the dialog: a grid that is there is
    /// resized, and one is made if there is none, with the first of the
    /// fonts and without a colour to clear to. The grid is centred in the
    /// window, at the zoom of the text. Other grids are left alone.
    pub fn prepare_grids(
        &self,
        grids: &mut Vec<CharGrid>,
        font_count: usize,
        glyph_size: Size,
        text_zoom: u32,
        window_size: Size,
    )
        requires
            font_count > 0,
            self.can_prepare(glyph_size, text_zoom, window_size),
            old(grids)@.len() > 0 ==> old(grids)@[0].wf(),
        ensures
            final(grids)@.len() == if old(grids)@.len() == 0 {
                1
            } else {
                old(grids)@.len()
            },
            forall|i: int| 1 <= i < old(grids)@.len() ==> final(grids)@[i] == old(grids)@[i],
            final(grids)@[0].wf(),
            final(grids)@[0].front.size == self.spec_grid_size(),
            old(grids)@.len() > 0 ==> {
                &&& final(grids)@[0].view == self.centered_view(
                    old(grids)@[0].view,
                    glyph_size,
                    text_zoom,
                    window_size,
                )
                &&& final(grids)@[0].font_index == old(grids)@[0].font_index
                &&& old(grids)@[0].front.size == self.spec_grid_size() ==> final(grids)@[0] == (
                CharGrid { view: final(grids)@[0].view, ..old(grids)@[0] })
                &&& old(grids)@[0].front.size != self.spec_grid_size() ==> fresh_picture(
                    final(grids)@[0],
                )
            },
            old(grids)@.len() == 0 ==> {
                &&& final(grids)@[0].view == self.centered_view(
                    CharGridView { clear_color: None, ..CharGrid::spec_default_view() },
                    glyph_size,
                    text_zoom,
                    window_size,
                )
                &&& final(grids)@[0].font_index == 0
                &&& fresh_picture(final(grids)@[0])
                &&& forall|i: int|
                    0 <= i < final(grids)@[0].front.cells@.len() ==> final(grids)@[0].front.cells@[i] == crate::chargrid::default_cell()
            },
    {
        let new_grid_size = self.grid_size();
        let mut grid = if grids.len() > 0 {
            grids.push(CharGrid::new(Size { w: 1, h: 1 }, 1, 0));
            let mut first = grids.swap_remove(0);
            first.resize(new_grid_size);
            first
        } else {
            let mut made = CharGrid::new(new_grid_size, font_count, 0);
            made.view.clear_color = None;
            grids.push(CharGrid::new(Size { w: 1, h: 1 }, 1, 0));
            made
        };
        grid.view_centered(glyph_size, text_zoom, Position { x: 0, y: 0 }, window_size);
        grid.view.zoom = text_zoom;
        grids.set(0, grid);
    }

    /// Whether the dialog can be drawn on a grid: the grid is at most
    /// `i32::MAX - 2` columns away from holding the whole prompt.
    pub open spec fn can_draw(&self) -> bool {
        2 + encode_utf8(self.prompt@).len() <= i32::MAX
    }

    /// Draws the dialog on a grid: a frame round the whole grid, the prompt
    /// in the third row, and the two buttons at the right end of the fifth,
    /// the selected one on a background of its own. A dialog that is not
    /// active is dimmed.
    pub fn draw(&self, grid: &mut CharGrid, active: bool)
        requires
            old(grid).wf(),
            self.can_draw(),
        ensures
            final(grid).wf(),
            *final(grid) == (CharGrid {
                front: final(grid).front,
                needs_render: true,
                view: CharGridView {
                    color_mod: if active {
                        white()
                    } else {
                        gray()
                    },
                    ..old(grid).view
                },
                ..*old(grid)
            }),
            old(grid).front.same_frame(final(grid).front),
            exists|framed: RawCharGrid|
                {
                    &&& #[trigger] old(grid).front.box_drawn(
                        framed,
                        Position { x: 0, y: 0 },
                        old(grid).front.size,
                        white(),
                        black(),
                    )
                    &&& final(grid).front.cells@ == self.lettered(framed)
                },
    {
        let width: i64 = grid.width() as i64;
        let yes_x: i32 = (width - 17) as i32;
        let no_x: i32 = (width - 8) as i32;
        grid.view.color_mod = if active {
            white()
        } else {
            gray()
        };
        grid.draw_box(
            Position { x: 0, y: 0 },
            Size { w: grid.width(), h: grid.height() },
            white(),
            black(),
        );
        let ghost framed = grid.front;
        grid.print_color(Position { x: 2, y: 2 }, Some(white()), Some(black()), self.prompt.as_str());
        proof {
            reveal_strlit("[ Yes ]");
            reveal_strlit("[ No ]");
            vstd::string::is_ascii_spec_bytes("[ Yes ]");
            vstd::string::is_ascii_spec_bytes("[ No ]");
            assert(encode_utf8("[ Yes ]"@).len() == 7);
            assert(encode_utf8("[ No ]"@).len() == 6);
        }
        grid.print_color(
            Position { x: yes_x, y: 4 },
            None,
            if self.yes_selected {
                Some(selected_bg())
            } else {
                None
            },
            "[ Yes ]",
        );
        grid.print_color(
            Position { x: no_x, y: 4 },
            None,
            if self.yes_selected {
                None
            } else {
                Some(selected_bg())
            },
            "[ No ]",
        );
        assert(old(grid).front.box_drawn(
            framed,
            Position { x: 0, y: 0 },
            old(grid).front.size,
            white(),
            black(),
        ));
    }

    /// The stored cells of a framed grid after the prompt and the two
    /// buttons have been printed on it.
    pub open spec fn lettered(&self, framed: RawCharGrid) -> Seq<Cell> {
        let yes_x = (framed.size.w - 17) as i32;
        let no_x = (framed.size.w - 8) as i32;
        let prompted = RawCharGrid::print_onto(
            framed.size,
            framed.draw_offset,
            framed.cells@,
            Position { x: 2, y: 2 },
            Some(white()),
            Some(black()),
            self.prompt@,
        );
        let with_yes = RawCharGrid::print_onto(
            framed.size,
            framed.draw_offset,
            prompted,
            Position { x: yes_x, y: 4 },
            None,
            if self.yes_selected {
                Some(selected_bg())
            } else {
                None
            },
            yes_text(),
        );
        RawCharGrid::print_onto(
            framed.size,
            framed.draw_offset,
            with_yes,
            Position { x: no_x, y: 4 },
            None,
            if self.yes_selected {
                None
            } else {
                Some(selected_bg())
            },
            no_text(),
        )
    }
}

/// Whether a grid has lost its picture: buffer and texture are gone, and
/// everything is to be rendered and uploaded again.
pub open spec fn fresh_picture(grid: CharGrid) -> bool {
    &&& grid.force_render
    &&& grid.needs_render
    &&& grid.needs_upload
    &&& grid.buffer is None
    &&& !grid.has_texture
}

} // verus!
