//! A character grid with what is known of its picture on the screen: which
//! cells have to be rendered again, and which rectangles of the picture go
//! where.

use crate::chargrid::{default_cell, div_toward_zero, Cell, RawCharGrid};
use crate::components::Position;
use crate::util::{Color, Size};
use vstd::prelude::*;

verus! {

/// Where and how a grid is shown on the screen.
#[derive(Clone, Copy, Debug)]
pub struct CharGridView {
    /// Upper left corner of the clipping rectangle, in pixels.
    pub pos: Position,
    /// Width and height of the clipping rectangle, in pixels.
    pub size: Size,
    /// Where the grid starts, in pixels right of `pos.x`.
    pub dx: i32,
    /// Where the grid starts, in pixels below `pos.y`.
    pub dy: i32,
    /// Whether the grid is shown at all.
    pub visible: bool,
    /// Colour that the clipping rectangle is cleared to before the grid is
    /// shown, if it is to be cleared.
    pub clear_color: Option<Color>,
    /// Colour that the grid is multiplied with as it is shown.
    pub color_mod: Color,
    /// How many screen pixels show one pixel of the grid.
    pub zoom: u32,
}

/// A `u32` read as an `i32` of the same bits.
pub open spec fn reinterpreted(d: u32) -> int {
    if d <= i32::MAX {
        d as int
    } else {
        d - 0x1_0000_0000
    }
}

/// Half of the difference of two lengths, read as an `i32` and rounded
/// towards zero.
pub open spec fn half_gap(longer: u32, shorter: u32) -> int
    recommends
        shorter <= longer,
{
    RawCharGrid::toward_zero(reinterpreted((longer - shorter) as u32), 2)
}

/// Half of the difference of two lengths.
fn half_gap_of(longer: u32, shorter: u32) -> (half: i32)
    requires
        shorter <= longer,
    ensures
        half == half_gap(longer, shorter),
{
    let d: u32 = longer - shorter;
    let v: i64 = if d <= 0x7fff_ffff {
        d as i64
    } else {
        d as i64 - 0x1_0000_0000
    };
    div_toward_zero(v, 2) as i32
}

/// One axis of a view that centres `px` pixels of grid in a span of `span`
/// pixels that begins at `at`: where the clipping span begins, how long it
/// is, and where the grid starts in it. A grid that fits is centred in the
/// span; one that does not is clipped evenly on both sides.
pub open spec fn centered(px: u32, at: i32, span: u32) -> (int, u32, int) {
    if px <= span {
        (at + half_gap(span, px), px, 0)
    } else {
        (at as int, span, -half_gap(px, span))
    }
}

/// A grid of character cells together with what is known of its picture:
/// whether the picture is out of date, and how it is shown.
pub struct CharGrid {
    /// The cells as they have been drawn.
    pub front: RawCharGrid,
    /// The cells as the picture shows them.
    pub back: RawCharGrid,
    /// Every cell is to be rendered again.
    pub force_render: bool,
    /// Cells may have changed since the picture was rendered.
    pub needs_render: bool,
    /// The picture has to be uploaded again.
    pub needs_upload: bool,
    /// Which font the grid is rendered with.
    pub font_index: usize,
    /// Width and height in pixels of the buffer that holds the picture, if
    /// there is one.
    pub buffer: Option<Size>,
    /// Whether there is a texture to show the picture with.
    pub has_texture: bool,
    pub view: CharGridView,
}

impl CharGrid {
    /// Both layers are well-formed and of one size.
    pub open spec fn wf(&self) -> bool {
        &&& self.front.wf()
        &&& self.back.wf()
        &&& self.front.size == self.back.size
    }

    /// The view of a new grid: a visible rectangle of 640 by 480 pixels at
    /// the origin, cleared to black, shown at full brightness and scale.
    pub open spec fn spec_default_view() -> CharGridView {
        CharGridView {
            pos: Position { x: 0, y: 0 },
            size: Size { w: 640, h: 480 },
            dx: 0,
            dy: 0,
            visible: true,
            clear_color: Some(Color { r: 0, g: 0, b: 0 }),
            color_mod: Color { r: 255, g: 255, b: 255 },
            zoom: 1,
        }
    }

    /// A grid of the given size, all blanks in white on black, that is yet
    /// to be rendered with the font `font_index` out of `font_count`.
    pub fn new(grid_size: Size, font_count: usize, font_index: usize) -> (grid: CharGrid)
        requires
            font_index < font_count,
            0 < grid_size.w <= i32::MAX,
            0 < grid_size.h <= i32::MAX,
            grid_size.w * grid_size.h <= u32::MAX,
        ensures
            grid.wf(),
            grid.front.size == grid_size,
            grid.front.draw_offset == (Position { x: 0, y: 0 }),
            forall|i: int|
                0 <= i < grid.front.cells@.len() ==> grid.front.cells@[i] == default_cell(),
            grid.force_render && grid.needs_render && grid.needs_upload,
            grid.buffer is None && !grid.has_texture,
            grid.font_index == font_index,
            grid.view == Self::spec_default_view(),
    {
        CharGrid {
            front: RawCharGrid::new(grid_size),
            back: RawCharGrid::new(grid_size),
            force_render: true,
            needs_render: true,
            needs_upload: true,
            font_index,
            buffer: None,
            has_texture: false,
            view: CharGridView {
                pos: Position { x: 0, y: 0 },
                size: Size { w: 640, h: 480 },
                dx: 0,
                dy: 0,
                visible: true,
                clear_color: Some(Color { r: 0, g: 0, b: 0 }),
                color_mod: Color { r: 255, g: 255, b: 255 },
                zoom: 1,
            },
        }
    }

    /// Width of the grid in cells.
    pub fn width(&self) -> (w: u32)
        ensures
            w == self.front.size.w,
    {
        self.front.size.w
    }

    /// Height of the grid in cells.
    pub fn height(&self) -> (h: u32)
        ensures
            h == self.front.size.h,
    {
        self.front.size.h
    }

    /// Gives the grid another size. Nothing happens if it has that size
    /// already; otherwise both layers are resized, and buffer, texture and
    /// picture are all to be made anew.
    pub fn resize(&mut self, new_grid_size: Size)
        requires
            old(self).wf(),
            0 < new_grid_size.w <= i32::MAX,
            0 < new_grid_size.h <= i32::MAX,
            new_grid_size.w * new_grid_size.h <= u32::MAX,
        ensures
            final(self).wf(),
            final(self).front.size == new_grid_size,
            final(self).view == old(self).view,
            final(self).font_index == old(self).font_index,
            new_grid_size == old(self).front.size ==> *final(self) == *old(self),
            new_grid_size != old(self).front.size ==> {
                &&& final(self).force_render && final(self).needs_render && final(self).needs_upload
                &&& final(self).buffer is None && !final(self).has_texture
                &&& final(self).front.draw_offset == (Position { x: 0, y: 0 })
                &&& forall|i: int|
                    0 <= i < final(self).front.cells@.len() ==> final(self).front.cells@[i] == if i
                        < old(self).front.cells@.len() {
                        old(self).front.cells@[i]
                    } else {
                        default_cell()
                    }
            },
    {
        if self.front.size != new_grid_size {
            self.front.resize(new_grid_size);
            self.back.resize(new_grid_size);
            self.force_render = true;
            self.needs_render = true;
            self.needs_upload = true;
            self.buffer = None;
            self.has_texture = false;
        }
    }

    /// Has the picture uploaded again when the grid is next shown.
    pub fn flag_texture_reset(&mut self)
        ensures
            *final(self) == (CharGrid { needs_upload: true, ..*old(self) }),
    {
        self.needs_upload = true;
    }

    /// Has the texture made anew when the grid is next shown.
    pub fn flag_texture_recreate(&mut self)
        ensures
            *final(self) == (CharGrid { has_texture: false, ..*old(self) }),
    {
        self.has_texture = false;
    }

    /// Which font the grid is rendered with.
    pub fn font(&self) -> (index: usize)
        ensures
            index == self.font_index,
    {
        self.font_index
    }

    /// Has the grid rendered with font `new_font_index` out of
    /// `font_count`. A change of font has every cell rendered again.
    pub fn set_font(&mut self, font_count: usize, new_font_index: usize)
        requires
            new_font_index < font_count,
        ensures
            *final(self) == if new_font_index == old(self).font_index {
                *old(self)
            } else {
                CharGrid { font_index: new_font_index, force_render: true, ..*old(self) }
            },
    {
        if self.font_index != new_font_index {
            self.font_index = new_font_index;
            self.force_render = true;
        }
    }

    /// Width and height of the picture of the grid in pixels, with glyphs
    /// of the given size at the given zoom.
    pub open spec fn picture(&self, glyph_size: Size, zoom: u32) -> (int, int) {
        (self.front.size.w * glyph_size.w * zoom, self.front.size.h * glyph_size.h * zoom)
    }

    /// Centres the grid in the rectangle given, for glyphs of the given
    /// size. On each axis a grid that fits is centred, and one that does
    /// not is clipped evenly on both sides.
    pub fn view_centered(&mut self, glyph_size: Size, zoom: u32, rect_pos: Position, rect_size: Size)
        requires
            old(self).picture(glyph_size, zoom).0 <= u32::MAX,
            old(self).picture(glyph_size, zoom).1 <= u32::MAX,
            i32::MIN <= centered(
                old(self).picture(glyph_size, zoom).0 as u32,
                rect_pos.x,
                rect_size.w,
            ).0 <= i32::MAX,
            i32::MIN <= centered(
                old(self).picture(glyph_size, zoom).1 as u32,
                rect_pos.y,
                rect_size.h,
            ).0 <= i32::MAX,
        ensures
            ({
                let across = centered(
                    old(self).picture(glyph_size, zoom).0 as u32,
                    rect_pos.x,
                    rect_size.w,
                );
                let down = centered(
                    old(self).picture(glyph_size, zoom).1 as u32,
                    rect_pos.y,
                    rect_size.h,
                );
                *final(self) == (CharGrid {
                    view: CharGridView {
                        pos: Position { x: across.0 as i32, y: down.0 as i32 },
                        size: Size { w: across.1, h: down.1 },
                        dx: across.2 as i32,
                        dy: down.2 as i32,
                        ..old(self).view
                    },
                    ..*old(self)
                })
            }),
    {
        assert(self.front.size.w * glyph_size.w <= self.front.size.w * glyph_size.w * zoom || zoom
            == 0) by (nonlinear_arith);
        assert(self.front.size.h * glyph_size.h <= self.front.size.h * glyph_size.h * zoom || zoom
            == 0) by (nonlinear_arith);
        let px_width: u32 = if zoom == 0 {
            0
        } else {
            self.front.size.w * glyph_size.w * zoom
        };
        let px_height: u32 = if zoom == 0 {
            0
        } else {
            self.front.size.h * glyph_size.h * zoom
        };
        assert(px_width == self.front.size.w * glyph_size.w * zoom) by (nonlinear_arith)
            requires
                px_width == if zoom == 0 {
                    0
                } else {
                    self.front.size.w * glyph_size.w * zoom
                },
        ;
        assert(px_height == self.front.size.h * glyph_size.h * zoom) by (nonlinear_arith)
            requires
                px_height == if zoom == 0 {
                    0
                } else {
                    self.front.size.h * glyph_size.h * zoom
                },
        ;
        if px_width <= rect_size.w {
            self.view.size.w = px_width;
            self.view.pos.x = rect_pos.x + half_gap_of(rect_size.w, px_width);
            self.view.dx = 0;
        } else {
            self.view.size.w = rect_size.w;
            self.view.pos.x = rect_pos.x;
            self.view.dx = -half_gap_of(px_width, rect_size.w);
        }
        if px_height <= rect_size.h {
            self.view.size.h = px_height;
            self.view.pos.y = rect_pos.y + half_gap_of(rect_size.h, px_height);
            self.view.dy = 0;
        } else {
            self.view.size.h = rect_size.h;
            self.view.pos.y = rect_pos.y;
            self.view.dy = -half_gap_of(px_height, rect_size.h);
        }
    }

    /// `after` is the grid after something was drawn on its front layer:
    /// the picture may be out of date, and all else is as it was.
    pub open spec fn drawn_on(self, after: CharGrid) -> bool {
        after == (CharGrid { front: after.front, needs_render: true, ..self })
    }

    /// Sets the draw offset of the front layer; see
    /// [`RawCharGrid::set_draw_offset`].
    pub fn set_draw_offset(&mut self, pos: Position)
        requires
            old(self).wf(),
            pos.x > i32::MIN,
            pos.y > i32::MIN,
        ensures
            final(self).wf(),
            old(self).front.offset_set(final(self).front, pos),
            *final(self) == (CharGrid { front: final(self).front, ..*old(self) }),
    {
        self.front.set_draw_offset(pos);
    }

    /// Fills the grid with blanks in white on black.
    pub fn clear(&mut self)
        requires
            old(self).wf(),
        ensures
            final(self).wf(),
            old(self).drawn_on(*final(self)),
            old(self).front.cleared(final(self).front, None, None),
    {
        self.clear_color(None, None);
    }

    /// Fills the grid with blanks in the colours given.
    pub fn clear_color(&mut self, fg: Option<Color>, bg: Option<Color>)
        requires
            old(self).wf(),
        ensures
            final(self).wf(),
            old(self).drawn_on(*final(self)),
            old(self).front.cleared(final(self).front, fg, bg),
    {
        self.front.clear_color(fg, bg);
        self.needs_render = true;
    }

    /// Puts a character at a position on the grid, in the colours that the
    /// cell has.
    pub fn put(&mut self, pos: Position, c: char)
        requires
            old(self).wf(),
        ensures
            final(self).wf(),
            old(self).drawn_on(*final(self)),
            old(self).front.put_done(final(self).front, pos, None, None, c),
    {
        self.put_color(pos, None, None, c);
    }

    /// Puts a character at a position on the grid.
    pub fn put_color(&mut self, pos: Position, fg: Option<Color>, bg: Option<Color>, c: char)
        requires
            old(self).wf(),
        ensures
            final(self).wf(),
            old(self).drawn_on(*final(self)),
            old(self).front.put_done(final(self).front, pos, fg, bg, c),
    {
        self.front.put_color(pos, fg, bg, c);
        self.needs_render = true;
    }

    /// Puts a character at a position without asking whether the position is
    /// on the grid.
    pub fn put_color_raw(&mut self, pos: Position, fg: Option<Color>, bg: Option<Color>, c: char)
        requires
            old(self).wf(),
            old(self).front.reachable(pos),
        ensures
            final(self).wf(),
            old(self).drawn_on(*final(self)),
            old(self).front.raw_put_done(final(self).front, pos, fg, bg, c),
    {
        self.front.put_color_raw(pos, fg, bg, c);
        self.needs_render = true;
    }

    /// Gives the cell at a position another background.
    pub fn set_bg(&mut self, pos: Position, bg: Color)
        requires
            old(self).wf(),
        ensures
            final(self).wf(),
            old(self).drawn_on(*final(self)),
            old(self).front.bg_set(final(self).front, pos, bg),
    {
        self.front.set_bg(pos, bg);
        self.needs_render = true;
    }

    /// Prints a text in the colours that the cells have.
    pub fn print(&mut self, pos: Position, s: &str)
        requires
            old(self).wf(),
            pos.x + vstd::utf8::encode_utf8(s@).len() <= i32::MAX,
        ensures
            final(self).wf(),
            old(self).drawn_on(*final(self)),
            old(self).front.text_printed(final(self).front, pos, None, None, s@),
    {
        self.print_color(pos, None, None, s);
    }

    /// Prints a text; see [`RawCharGrid::print_color`].
    pub fn print_color(&mut self, pos: Position, fg: Option<Color>, bg: Option<Color>, s: &str)
        requires
            old(self).wf(),
            pos.x + vstd::utf8::encode_utf8(s@).len() <= i32::MAX,
        ensures
            final(self).wf(),
            old(self).drawn_on(*final(self)),
            old(self).front.text_printed(final(self).front, pos, fg, bg, s@),
    {
        self.front.print_color(pos, fg, bg, s);
        self.needs_render = true;
    }

    /// Draws a box; see [`RawCharGrid::draw_box`].
    pub fn draw_box(&mut self, pos: Position, size: Size, fg: Color, bg: Color)
        requires
            old(self).wf(),
        ensures
            final(self).wf(),
            old(self).drawn_on(*final(self)),
            old(self).front.box_drawn(final(self).front, pos, size, fg, bg),
    {
        self.front.draw_box(pos, size, fg, bg);
        self.needs_render = true;
    }

    /// Draws a bar; see [`RawCharGrid::draw_bar`].
    pub fn draw_bar(
        &mut self,
        vertical: bool,
        pos: Position,
        length: i32,
        offset: i32,
        amount: i32,
        max: i32,
        fg: Option<Color>,
        bg: Option<Color>,
    )
        requires
            old(self).wf(),
            length > 0,
            max >= 0,
        ensures
            final(self).wf(),
            old(self).drawn_on(*final(self)),
            old(self).front.bar_drawn(
                final(self).front,
                vertical,
                pos,
                length as int,
                offset as int,
                amount as int,
                max as int,
                fg,
                bg,
            ),
    {
        self.front.draw_bar(vertical, pos, length, offset, amount, max, fg, bg);
        self.needs_render = true;
    }

    /// Width and height of the picture of the grid in pixels at its own
    /// scale, with glyphs of the given size.
    pub open spec fn buffer_size(&self, glyph_size: Size) -> (int, int) {
        (self.front.size.w * glyph_size.w, self.front.size.h * glyph_size.h)
    }

    /// Works out what has to be rendered to bring the picture up to date
    /// with the front layer, and takes the front layer for rendered.
    ///
    /// The buffer is to be made anew unless there is one of the right size.
    /// Every cell is to be rendered if `force` is set or the buffer is new,
    /// and otherwise each cell that would look different from what the
    /// picture shows.
    pub fn render(&mut self, glyph_size: Size, force: bool) -> (job: RenderJob)
        requires
            old(self).wf(),
            old(self).buffer_size(glyph_size).0 <= i32::MAX,
            old(self).buffer_size(glyph_size).1 <= i32::MAX,
        ensures
            final(self).wf(),
            job.buffer_size.w == old(self).buffer_size(glyph_size).0,
            job.buffer_size.h == old(self).buffer_size(glyph_size).1,
            job.new_buffer == (old(self).buffer != Some(job.buffer_size)),
            job.draws@ == spec_draws(
                old(self).front.cells@,
                old(self).back.cells@,
                old(self).front.size.w as int,
                glyph_size,
                force || job.new_buffer,
                old(self).front.cells@.len() as int,
            ),
            final(self).back.cells@ == old(self).front.cells@,
            *final(self) == (CharGrid {
                back: RawCharGrid { cells: final(self).back.cells, ..old(self).back },
                buffer: Some(job.buffer_size),
                ..*old(self)
            }),
    {
        let grid_w: u32 = self.front.size.w;
        let buffer_size = Size { w: grid_w * glyph_size.w, h: self.front.size.h * glyph_size.h };
        let new_buffer = match self.buffer {
            Some(size) => size.w != buffer_size.w || size.h != buffer_size.h,
            None => true,
        };
        self.buffer = Some(buffer_size);
        let forced = force || new_buffer;
        let mut draws: Vec<CellDraw> = Vec::new();
        let n = self.front.cells.len();
        let mut i: usize = 0;
        while i < n
            invariant
                i <= n,
                n == self.front.cells@.len(),
                n == self.back.cells@.len(),
                n == grid_w * self.front.size.h,
                grid_w == self.front.size.w,
                0 < grid_w <= i32::MAX,
                0 < self.front.size.h <= i32::MAX,
                grid_w * glyph_size.w <= i32::MAX,
                self.front.size.h * glyph_size.h <= i32::MAX,
                self.front == old(self).front,
                self.back.size == old(self).back.size,
                self.back.draw_offset == old(self).back.draw_offset,
                draws@ == spec_draws(
                    old(self).front.cells@,
                    old(self).back.cells@,
                    grid_w as int,
                    glyph_size,
                    forced,
                    i as int,
                ),
                forall|j: int| 0 <= j < i ==> self.back.cells@[j] == old(self).front.cells@[j],
                forall|j: int| i <= j < n ==> self.back.cells@[j] == old(self).back.cells@[j],
                *self == (CharGrid {
                    back: self.back,
                    buffer: Some(buffer_size),
                    ..*old(self)
                }),
            decreases n - i,
        {
            let fcell = self.front.cells[i];
            let bcell = self.back.cells[i];
            if forced || fcell.visible_diff(&bcell) {
                let col: u64 = (i % (grid_w as usize)) as u64;
                let row: u64 = (i / (grid_w as usize)) as u64;
                proof {
                    assert(col * glyph_size.w <= grid_w * glyph_size.w) by (nonlinear_arith)
                        requires
                            0 <= col < grid_w,
                            0 <= glyph_size.w,
                    ;
                    assert(row < self.front.size.h) by (nonlinear_arith)
                        requires
                            row == i as int / grid_w as int,
                            i < grid_w * self.front.size.h,
                            grid_w > 0,
                    ;
                    assert(row * glyph_size.h <= self.front.size.h * glyph_size.h)
                        by (nonlinear_arith)
                        requires
                            0 <= row < self.front.size.h,
                            0 <= glyph_size.h,
                    ;
                }
                draws.push(
                    CellDraw {
                        x: (col * glyph_size.w as u64) as i32,
                        y: (row * glyph_size.h as u64) as i32,
                        cell: fcell,
                    },
                );
            }
            self.back.cells.set(i, fcell);
            i += 1;
        }
        assert(self.back.cells@ =~= old(self).front.cells@);
        RenderJob { buffer_size, new_buffer, draws }
    }

    /// Whether the picture can be put on the screen: the buffer, if there is
    /// one that will be kept, has the size of the picture, and the picture
    /// at the zoom of the view ends within the coordinates that the screen
    /// has.
    pub open spec fn showable(&self, glyph_size: Size) -> bool {
        let size = self.buffer_size(glyph_size);
        &&& size.0 <= i32::MAX
        &&& size.1 <= i32::MAX
        &&& self.needs_render || self.force_render || self.buffer is None || self.buffer == Some(
            Size { w: size.0 as u32, h: size.1 as u32 },
        )
        &&& i32::MIN <= self.view.pos.x + self.view.dx
        &&& i32::MIN <= self.view.pos.y + self.view.dy
        &&& self.view.pos.x + self.view.dx + size.0 * self.view.zoom <= i32::MAX
        &&& self.view.pos.y + self.view.dy + size.1 * self.view.zoom <= i32::MAX
    }

    /// Works out what has to be done to show the grid on the screen, and
    /// takes it for done. Nothing is to be done for a grid that is not
    /// visible or has a zoom of zero.
    ///
    /// The picture is rendered first if it may be out of date, in full if
    /// that was asked for or there is no buffer. The texture is made anew if
    /// there is none, and the picture is uploaded if it has changed or the
    /// texture is new. Then the picture goes to the screen in up to four
    /// parts, so that the cell at the draw offset comes to lie in the upper
    /// left corner.
    pub fn display(&mut self, glyph_size: Size) -> (job: Option<DisplayJob>)
        requires
            old(self).wf(),
            old(self).view.visible && old(self).view.zoom != 0 ==> old(self).showable(glyph_size),
        ensures
            final(self).wf(),
            !old(self).view.visible || old(self).view.zoom == 0 ==> job is None && *final(self)
                == *old(self),
            old(self).view.visible && old(self).view.zoom != 0 ==> job is Some && ({
                let job = job.unwrap();
                let force = old(self).force_render || old(self).buffer is None;
                let renders = old(self).needs_render || force;
                let size = Size {
                    w: old(self).buffer_size(glyph_size).0 as u32,
                    h: old(self).buffer_size(glyph_size).1 as u32,
                };
                let drawn = renders && job.render.unwrap().draws@.len() > 0;
                &&& job.render is Some == renders
                &&& renders ==> {
                    let render = job.render.unwrap();
                    &&& render.buffer_size == size
                    &&& render.new_buffer == (old(self).buffer != Some(size))
                    &&& render.draws@ == spec_draws(
                        old(self).front.cells@,
                        old(self).back.cells@,
                        old(self).front.size.w as int,
                        glyph_size,
                        force || render.new_buffer,
                        old(self).front.cells@.len() as int,
                    )
                    &&& final(self).back.cells@ == old(self).front.cells@
                }
                &&& !renders ==> final(self).back == old(self).back
                &&& job.new_texture == !old(self).has_texture
                &&& job.upload == (old(self).needs_upload || drawn || job.new_texture)
                &&& job.clip == (Rect {
                    x: old(self).view.pos.x,
                    y: old(self).view.pos.y,
                    w: old(self).view.size.w,
                    h: old(self).view.size.h,
                })
                &&& job.clear_color == old(self).view.clear_color
                &&& job.color_mod == old(self).view.color_mod
                &&& job.blits@ == spec_blits(
                    old(self).view,
                    old(self).front.draw_offset,
                    glyph_size,
                    size,
                )
                &&& *final(self) == (CharGrid {
                    back: final(self).back,
                    force_render: force && !drawn,
                    needs_render: false,
                    needs_upload: false,
                    buffer: Some(size),
                    has_texture: true,
                    ..*old(self)
                })
                &&& final(self).back.size == old(self).back.size
                &&& final(self).back.draw_offset == old(self).back.draw_offset
            }),
    {
        if !self.view.visible || self.view.zoom == 0 {
            return None;
        }
        if self.buffer.is_none() {
            self.force_render = true;
        }
        let mut render: Option<RenderJob> = None;
        if self.needs_render || self.force_render {
            let job = self.render(glyph_size, self.force_render);
            if job.draws.len() > 0 {
                self.needs_upload = true;
                self.force_render = false;
            }
            self.needs_render = false;
            render = Some(job);
        }
        let buffer = self.buffer.unwrap();
        let new_texture = !self.has_texture;
        if new_texture {
            self.has_texture = true;
            self.needs_upload = true;
        }
        let upload = self.needs_upload;
        self.needs_upload = false;
        let zoom: i64 = self.view.zoom as i64;
        let bw: i64 = buffer.w as i64;
        let bh: i64 = buffer.h as i64;
        proof {
            assert(0 <= self.front.draw_offset.x * glyph_size.w <= self.front.size.w
                * glyph_size.w) by (nonlinear_arith)
                requires
                    0 <= self.front.draw_offset.x <= self.front.size.w,
                    0 <= glyph_size.w,
            ;
            assert(0 <= self.front.draw_offset.y * glyph_size.h <= self.front.size.h
                * glyph_size.h) by (nonlinear_arith)
                requires
                    0 <= self.front.draw_offset.y <= self.front.size.h,
                    0 <= glyph_size.h,
            ;
        }
        let ox: i64 = self.front.draw_offset.x as i64 * glyph_size.w as i64;
        let oy: i64 = self.front.draw_offset.y as i64 * glyph_size.h as i64;
        proof {
            assert(0 <= ox <= bw) by (nonlinear_arith)
                requires
                    ox == self.front.draw_offset.x * glyph_size.w,
                    bw == self.front.size.w * glyph_size.w,
                    0 <= self.front.draw_offset.x <= self.front.size.w,
                    0 <= glyph_size.w,
            ;
            assert(0 <= oy <= bh) by (nonlinear_arith)
                requires
                    oy == self.front.draw_offset.y * glyph_size.h,
                    bh == self.front.size.h * glyph_size.h,
                    0 <= self.front.draw_offset.y <= self.front.size.h,
                    0 <= glyph_size.h,
            ;
            lemma_scaled(bw - ox, bw as int, zoom as int);
            lemma_scaled(ox as int, bw as int, zoom as int);
            lemma_scaled(bh - oy, bh as int, zoom as int);
            lemma_scaled(oy as int, bh as int, zoom as int);
        }
        let x0: i64 = self.view.pos.x as i64 + self.view.dx as i64;
        let y0: i64 = self.view.pos.y as i64 + self.view.dy as i64;
        let x1: i64 = x0 + (bw - ox) * zoom;
        let y1: i64 = y0 + (bh - oy) * zoom;
        let mut blits: Vec<Blit> = Vec::new();
        blits.push(
            Blit {
                src: rect_of(ox, oy, bw - ox, bh - oy),
                dest: rect_of(x0, y0, (bw - ox) * zoom, (bh - oy) * zoom),
            },
        );
        if ox > 0 {
            blits.push(
                Blit {
                    src: rect_of(0, oy, ox, bh - oy),
                    dest: rect_of(x1, y0, ox * zoom, (bh - oy) * zoom),
                },
            );
            if oy > 0 {
                blits.push(
                    Blit { src: rect_of(0, 0, ox, oy), dest: rect_of(x1, y1, ox * zoom, oy * zoom) },
                );
            }
        }
        if oy > 0 {
            blits.push(
                Blit {
                    src: rect_of(ox, 0, bw - ox, oy),
                    dest: rect_of(x0, y1, (bw - ox) * zoom, oy * zoom),
                },
            );
        }
        assert(blits@ =~= spec_blits(
            old(self).view,
            old(self).front.draw_offset,
            glyph_size,
            buffer,
        ));
        Some(
            DisplayJob {
                render,
                new_texture,
                upload,
                clip: Rect {
                    x: self.view.pos.x,
                    y: self.view.pos.y,
                    w: self.view.size.w,
                    h: self.view.size.h,
                },
                clear_color: self.view.clear_color,
                color_mod: self.view.color_mod,
                blits,
            },
        )
    }
}

/// A part of a length, scaled up, is at most the whole length scaled up.
proof fn lemma_scaled(part: int, whole: int, zoom: int)
    requires
        0 <= part <= whole,
        0 <= zoom,
    ensures
        0 <= part * zoom <= whole * zoom,
{
    assert(0 <= part * zoom <= whole * zoom) by (nonlinear_arith)
        requires
            0 <= part <= whole,
            0 <= zoom,
    ;
}

/// A rectangle of pixels: its upper left corner, its width and its height.
#[derive(Clone, Copy, Debug, PartialEq, Eq, Structural)]
pub struct Rect {
    pub x: i32,
    pub y: i32,
    pub w: u32,
    pub h: u32,
}

/// A rectangle of the picture, and the rectangle of the screen that it is
/// copied to.
#[derive(Clone, Copy, Debug, PartialEq, Eq, Structural)]
pub struct Blit {
    pub src: Rect,
    pub dest: Rect,
}

/// What has to be done to show a grid on the screen, in this order.
pub struct DisplayJob {
    /// What has to be rendered first, if anything may be out of date.
    pub render: Option<RenderJob>,
    /// Whether the texture has to be made anew, with the size of the buffer.
    pub new_texture: bool,
    /// Whether the buffer has to be uploaded to the texture.
    pub upload: bool,
    /// The clipping rectangle on the screen.
    pub clip: Rect,
    /// The colour to mark the clipping rectangle with first, if any.
    pub clear_color: Option<Color>,
    /// The colour that the texture is multiplied with.
    pub color_mod: Color,
    /// The copies from the texture to the screen.
    pub blits: Vec<Blit>,
}

/// The rectangle with the given corner, width and height.
pub open spec fn spec_rect(x: int, y: int, w: int, h: int) -> Rect {
    Rect { x: x as i32, y: y as i32, w: w as u32, h: h as u32 }
}

fn rect_of(x: i64, y: i64, w: i64, h: i64) -> (r: Rect)
    requires
        i32::MIN <= x <= i32::MAX,
        i32::MIN <= y <= i32::MAX,
        0 <= w <= u32::MAX,
        0 <= h <= u32::MAX,
    ensures
        r == spec_rect(x as int, y as int, w as int, h as int),
{
    Rect { x: x as i32, y: y as i32, w: w as u32, h: h as u32 }
}

/// The copies that put a picture on the screen.
///
/// The picture is stored with the cell at the draw offset somewhere inside
/// it. The part from there to the lower right corner goes to the upper left
/// of the screen rectangle, and the parts left of it and above it follow on
/// the right and below: first the main part, then what wraps round on the
/// right, with its lower right corner piece, then what wraps round below.
pub open spec fn spec_blits(
    view: CharGridView,
    draw_offset: Position,
    glyph_size: Size,
    buffer: Size,
) -> Seq<Blit> {
    let ox = draw_offset.x * glyph_size.w;
    let oy = draw_offset.y * glyph_size.h;
    let x0 = view.pos.x + view.dx;
    let y0 = view.pos.y + view.dy;
    let x1 = x0 + (buffer.w - ox) * view.zoom;
    let y1 = y0 + (buffer.h - oy) * view.zoom;
    let main = seq![
        Blit {
            src: spec_rect(ox, oy, buffer.w - ox, buffer.h - oy),
            dest: spec_rect(x0, y0, (buffer.w - ox) * view.zoom, (buffer.h - oy) * view.zoom),
        },
    ];
    let right = if ox > 0 {
        seq![
            Blit {
                src: spec_rect(0, oy, ox, buffer.h - oy),
                dest: spec_rect(x1, y0, ox * view.zoom, (buffer.h - oy) * view.zoom),
            },
        ] + if oy > 0 {
            seq![
                Blit {
                    src: spec_rect(0, 0, ox, oy),
                    dest: spec_rect(x1, y1, ox * view.zoom, oy * view.zoom),
                },
            ]
        } else {
            Seq::empty()
        }
    } else {
        Seq::empty()
    };
    let below = if oy > 0 {
        seq![
            Blit {
                src: spec_rect(ox, 0, buffer.w - ox, oy),
                dest: spec_rect(x0, y1, (buffer.w - ox) * view.zoom, oy * view.zoom),
            },
        ]
    } else {
        Seq::empty()
    };
    main + right + below
}

/// Grids that are shown together as one layer.
pub struct CharGridLayer {
    /// Whether the layers behind this one are shown as well.
    pub draw_behind: bool,
    /// The grids of the layer.
    pub grids: Vec<CharGrid>,
}

/// A cell that is to be rendered: the pixel in the picture where its upper
/// left corner goes, and what it shows. The whole cell is filled with the
/// background, and unless the character is a blank its glyph is drawn on
/// top in the foreground.
#[derive(Clone, Copy, Debug, PartialEq, Eq, Structural)]
pub struct CellDraw {
    pub x: i32,
    pub y: i32,
    pub cell: Cell,
}

/// What has to be done to the picture of a grid.
pub struct RenderJob {
    /// Width and height that the buffer must have, in pixels.
    pub buffer_size: Size,
    /// Whether the buffer has to be made anew.
    pub new_buffer: bool,
    /// The cells to be rendered, in the order in which they are stored.
    pub draws: Vec<CellDraw>,
}

/// The cells among the first `upto` that have to be rendered, in order: all
/// of them if `forced`, else those that differ visibly from the back layer.
/// Cell `i` is stored for column `i % grid_w` and row `i / grid_w` of the
/// picture.
pub open spec fn spec_draws(
    front: Seq<Cell>,
    back: Seq<Cell>,
    grid_w: int,
    glyph_size: Size,
    forced: bool,
    upto: int,
) -> Seq<CellDraw>
    decreases upto,
{
    if upto <= 0 {
        Seq::empty()
    } else {
        let before = spec_draws(front, back, grid_w, glyph_size, forced, upto - 1);
        let i = upto - 1;
        if forced || front[i].spec_visible_diff(&back[i]) {
            before.push(
                CellDraw {
                    x: ((i % grid_w) * glyph_size.w) as i32,
                    y: ((i / grid_w) * glyph_size.h) as i32,
                    cell: front[i],
                },
            )
        } else {
            before
        }
    }
}

} // verus!
