//! A grid of character cells, each with a foreground and a background
//! colour, and the drawing operations on it.

use crate::components::Position;
use crate::util::{Color, Size};
use vstd::prelude::*;
use vstd::std_specs::iter::IteratorSpec;
use vstd::string::StringSliceAdditionalSpecFns;
use vstd::utf8::{encode_scalar, encode_utf8};

verus! {

/// One cell of a grid.
#[derive(Clone, Copy, Debug, PartialEq, Eq, Structural)]
pub struct Cell {
    pub ch: char,
    pub fg: Color,
    pub bg: Color,
}

/// A blank in white on black: what a new grid is filled with.
pub open spec fn spec_default_cell() -> Cell {
    Cell { ch: ' ', fg: Color { r: 255, g: 255, b: 255 }, bg: Color { r: 0, g: 0, b: 0 } }
}

/// A blank in white on black.
#[verifier::when_used_as_spec(spec_default_cell)]
pub fn default_cell() -> (cell: Cell)
    ensures
        cell == spec_default_cell(),
{
    Cell { ch: ' ', fg: Color { r: 255, g: 255, b: 255 }, bg: Color { r: 0, g: 0, b: 0 } }
}

/// A cell after a character has been put into it, with the colours that
/// were given and the old ones where none was.
pub open spec fn overwritten(old: Cell, fg: Option<Color>, bg: Option<Color>, c: char) -> Cell {
    Cell {
        ch: c,
        fg: match fg {
            Some(color) => color,
            None => old.fg,
        },
        bg: match bg {
            Some(color) => color,
            None => old.bg,
        },
    }
}

impl Cell {
    /// Whether drawing `self` over `other` would show: the characters
    /// differ, or the backgrounds do, or `self` is no blank and its
    /// foreground is not the background of `other`.
    pub open spec fn spec_visible_diff(&self, other: &Cell) -> bool {
        self.ch != other.ch || (self.ch != ' ' && self.fg != other.bg) || self.bg != other.bg
    }

    /// Whether drawing `self` over `other` would show.
    #[verifier::when_used_as_spec(spec_visible_diff)]
    pub fn visible_diff(&self, other: &Cell) -> (diff: bool)
        ensures
            diff == self.spec_visible_diff(other),
    {
        self.ch != other.ch || (self.ch != ' ' && self.fg != other.bg) || self.bg != other.bg
    }
}

/// The remainder theorem, read backwards: a number written as `q * d + r`
/// with `0 <= r < d` has quotient `q` and remainder `r`.
proof fn lemma_div_mod_unique(x: int, d: int, q: int, r: int)
    requires
        d > 0,
        0 <= r < d,
        x == q * d + r,
    ensures
        x / d == q,
        x % d == r,
{
    vstd::arithmetic::div_mod::lemma_fundamental_div_mod_converse(x, d, q, r);
}

/// Two numbers less than `d` apart with the same remainder are equal.
proof fn lemma_same_remainder(a: int, b: int, d: int)
    requires
        d > 0,
        a % d == b % d,
        -d < a - b < d,
    ensures
        a == b,
{
    vstd::arithmetic::div_mod::lemma_fundamental_div_mod(a, d);
    vstd::arithmetic::div_mod::lemma_fundamental_div_mod(b, d);
    let k = a / d - b / d;
    assert(a - b == d * k) by (nonlinear_arith)
        requires
            a == d * (a / d) + a % d,
            b == d * (b / d) + b % d,
            a % d == b % d,
            k == a / d - b / d,
    ;
    assert(k == 0) by (nonlinear_arith)
        requires
            -d < d * k < d,
            d > 0,
    ;
}

/// Number of bytes that a character takes in UTF-8.
pub open spec fn spec_utf8_width(c: char) -> int {
    encode_scalar(c as u32).len() as int
}

/// Number of bytes that a character takes in UTF-8.
pub fn utf8_width(c: char) -> (n: usize)
    ensures
        n == spec_utf8_width(c),
        1 <= n <= 4,
{
    proof {
        vstd::utf8::char_is_scalar(c);
    }
    let v: u32 = c as u32;
    if v < 0x80 {
        1
    } else if v < 0x800 {
        2
    } else if v < 0x10000 {
        3
    } else {
        4
    }
}

/// Number of bytes that the first `k` characters of a text take in UTF-8.
pub open spec fn byte_offset(chars: Seq<char>, k: int) -> int {
    encode_utf8(chars.subrange(0, k)).len() as int
}

/// The encoding of two texts in a row is the two encodings in a row.
proof fn lemma_encode_concat(a: Seq<char>, b: Seq<char>)
    ensures
        encode_utf8(a + b) == encode_utf8(a) + encode_utf8(b),
    decreases a.len(),
{
    if a.len() == 0 {
        assert(a + b =~= b);
        assert(encode_utf8(a) + encode_utf8(b) =~= encode_utf8(b));
    } else {
        lemma_encode_concat(a.drop_first(), b);
        assert((a + b).drop_first() =~= a.drop_first() + b);
        assert((a + b)[0] == a[0]);
        assert(encode_utf8(a + b) =~= encode_utf8(a) + encode_utf8(b));
    }
}

/// Each character moves the byte offset on by its width, and no offset is
/// beyond the length of the whole text in bytes.
proof fn lemma_byte_offset_step(chars: Seq<char>, k: int)
    requires
        0 <= k < chars.len(),
    ensures
        byte_offset(chars, k + 1) == byte_offset(chars, k) + spec_utf8_width(chars[k]),
        byte_offset(chars, k + 1) <= encode_utf8(chars).len(),
        byte_offset(chars, 0) == 0,
{
    let head = chars.subrange(0, k);
    let one = seq![chars[k]];
    let tail = chars.subrange(k + 1, chars.len() as int);
    lemma_encode_concat(head, one);
    assert(head + one =~= chars.subrange(0, k + 1));
    assert(one.drop_first() =~= Seq::<char>::empty());
    assert(encode_utf8(Seq::<char>::empty()) =~= Seq::<u8>::empty());
    assert(one[0] == chars[k]);
    assert(encode_utf8(one) =~= encode_scalar(one[0] as u32) + encode_utf8(one.drop_first()));
    assert(encode_utf8(one) =~= encode_scalar(chars[k] as u32));
    lemma_encode_concat(chars.subrange(0, k + 1), tail);
    assert(chars.subrange(0, k + 1) + tail =~= chars);
    assert(chars.subrange(0, 0) =~= Seq::<char>::empty());
}

/// The cells of a grid, stored row by row and shifted by the draw offset:
/// the cell at `(x, y)` is stored where `(x + offset.x, y + offset.y)`
/// falls, with both coordinates wrapping round at the edges.
pub struct RawCharGrid {
    pub size: Size,
    pub draw_offset: Position,
    pub cells: Vec<Cell>,
}

impl RawCharGrid {
    /// The grid has at least one cell and at most `i32::MAX` columns and
    /// rows, one stored cell for each, and a draw offset within its bounds.
    pub open spec fn wf(&self) -> bool {
        &&& 0 < self.size.w <= i32::MAX
        &&& 0 < self.size.h <= i32::MAX
        &&& self.cells@.len() == self.size.w * self.size.h
        &&& 0 <= self.draw_offset.x <= self.size.w
        &&& 0 <= self.draw_offset.y <= self.size.h
    }

    /// Whether a position is on the grid.
    pub open spec fn in_bounds(&self, pos: Position) -> bool {
        0 <= pos.x < self.size.w && 0 <= pos.y < self.size.h
    }

    /// Whether a position can be looked up: shifted by the draw offset it
    /// has no negative coordinate.
    pub open spec fn reachable(&self, pos: Position) -> bool {
        pos.x + self.draw_offset.x >= 0 && pos.y + self.draw_offset.y >= 0
    }

    /// Where a grid of the given size and draw offset stores the cell at a
    /// position.
    pub open spec fn index_of(size: Size, draw_offset: Position, pos: Position) -> int {
        ((pos.y + draw_offset.y) % (size.h as int)) * size.w + (pos.x + draw_offset.x) % (
        size.w as int)
    }

    /// Where the cell at a position is stored.
    pub open spec fn spec_index(&self, pos: Position) -> int {
        Self::index_of(self.size, self.draw_offset, pos)
    }

    /// The cell at a position.
    pub open spec fn cell_at(&self, pos: Position) -> Cell {
        self.cells@[self.spec_index(pos)]
    }

    /// Every reachable position is stored inside the cells.
    pub proof fn lemma_index_in_range(&self, pos: Position)
        requires
            self.wf(),
            self.reachable(pos),
        ensures
            0 <= self.spec_index(pos) < self.cells@.len(),
    {
        let w = self.size.w as int;
        let h = self.size.h as int;
        let ry = (pos.y + self.draw_offset.y) % h;
        let rx = (pos.x + self.draw_offset.x) % w;
        assert(0 <= ry * w + rx < w * h) by (nonlinear_arith)
            requires
                0 <= ry < h,
                0 <= rx < w,
        ;
    }

    /// No two positions on the grid are stored in the same place.
    pub proof fn lemma_index_injective(&self, p: Position, q: Position)
        requires
            self.wf(),
            self.in_bounds(p),
            self.in_bounds(q),
            self.spec_index(p) == self.spec_index(q),
        ensures
            p == q,
    {
        let w = self.size.w as int;
        let h = self.size.h as int;
        let py = (p.y + self.draw_offset.y) % h;
        let px = (p.x + self.draw_offset.x) % w;
        let qy = (q.y + self.draw_offset.y) % h;
        let qx = (q.x + self.draw_offset.x) % w;
        lemma_div_mod_unique(self.spec_index(p), w, py, px);
        lemma_div_mod_unique(self.spec_index(q), w, qy, qx);
        lemma_same_remainder(p.x + self.draw_offset.x, q.x + self.draw_offset.x, w);
        lemma_same_remainder(p.y + self.draw_offset.y, q.y + self.draw_offset.y, h);
    }

    /// `after` is a well-formed grid of the same size and draw offset.
    pub open spec fn same_frame(self, after: RawCharGrid) -> bool {
        &&& after.wf()
        &&& after.size == self.size
        &&& after.draw_offset == self.draw_offset
    }

    /// `after` is the grid with its draw offset set to `pos`, wrapped into
    /// the bounds of the grid; the stored cells are where they were.
    pub open spec fn offset_set(self, after: RawCharGrid, pos: Position) -> bool {
        &&& after.wf()
        &&& after.size == self.size
        &&& after.cells == self.cells
        &&& after.draw_offset.x == Self::wrapped(pos.x as int, self.size.w as int)
        &&& after.draw_offset.y == Self::wrapped(pos.y as int, self.size.h as int)
    }

    /// `after` is the grid filled with blanks in the colours given, or in
    /// white on black where none is.
    pub open spec fn cleared(self, after: RawCharGrid, fg: Option<Color>, bg: Option<Color>) -> bool {
        &&& self.same_frame(after)
        &&& forall|i: int|
            0 <= i < after.cells@.len() ==> after.cells@[i] == overwritten(
                default_cell(),
                fg,
                bg,
                ' ',
            )
    }

    /// `after` is the grid with a character put where `pos` is stored.
    pub open spec fn raw_put_done(
        self,
        after: RawCharGrid,
        pos: Position,
        fg: Option<Color>,
        bg: Option<Color>,
        c: char,
    ) -> bool {
        &&& self.same_frame(after)
        &&& after.cells@ == self.cells@.update(
            self.spec_index(pos),
            overwritten(self.cell_at(pos), fg, bg, c),
        )
        &&& self.in_bounds(pos) ==> forall|q: Position|
            self.in_bounds(q) ==> #[trigger] after.cell_at(q) == if q == pos {
                overwritten(self.cell_at(pos), fg, bg, c)
            } else {
                self.cell_at(q)
            }
    }

    /// `after` is the grid with a character put at `pos`, or the grid as it
    /// was if `pos` is not on it.
    pub open spec fn put_done(
        self,
        after: RawCharGrid,
        pos: Position,
        fg: Option<Color>,
        bg: Option<Color>,
        c: char,
    ) -> bool {
        &&& self.same_frame(after)
        &&& after.cells@.len() == self.cells@.len()
        &&& !self.in_bounds(pos) ==> after.cells@ == self.cells@
        &&& forall|q: Position|
            self.in_bounds(q) ==> #[trigger] after.cell_at(q) == if q == pos {
                overwritten(self.cell_at(pos), fg, bg, c)
            } else {
                self.cell_at(q)
            }
    }

    /// `after` is the grid with another background at `pos`, or the grid as
    /// it was if `pos` is not on it.
    pub open spec fn bg_set(self, after: RawCharGrid, pos: Position, bg: Color) -> bool {
        &&& self.same_frame(after)
        &&& after.cells@.len() == self.cells@.len()
        &&& !self.in_bounds(pos) ==> after.cells@ == self.cells@
        &&& forall|q: Position|
            self.in_bounds(q) ==> #[trigger] after.cell_at(q) == if q == pos {
                Cell { bg, ..self.cell_at(pos) }
            } else {
                self.cell_at(q)
            }
    }

    /// `after` is the grid with a box drawn on it: every cell that the box
    /// covers shows its part of the box in the colours given, and every
    /// other cell is as it was.
    pub open spec fn box_drawn(
        self,
        after: RawCharGrid,
        pos: Position,
        size: Size,
        fg: Color,
        bg: Color,
    ) -> bool {
        &&& self.same_frame(after)
        &&& forall|q: Position|
            self.in_bounds(q) ==> #[trigger] after.cell_at(q) == if Self::in_box(pos, size, q) {
                Cell {
                    ch: Self::box_char(size.w as int, size.h as int, q.x - pos.x, q.y - pos.y),
                    fg,
                    bg,
                }
            } else {
                self.cell_at(q)
            }
    }

    /// `after` is the grid with a bar drawn on it: every cell that the bar
    /// covers shows its part of the bar, and every other cell is as it was.
    pub open spec fn bar_drawn(
        self,
        after: RawCharGrid,
        vertical: bool,
        pos: Position,
        length: int,
        offset: int,
        amount: int,
        max: int,
        fg: Option<Color>,
        bg: Option<Color>,
    ) -> bool {
        &&& self.same_frame(after)
        &&& forall|q: Position|
            self.in_bounds(q) ==> #[trigger] after.cell_at(q) == if self.bar_shows(
                vertical,
                pos,
                length,
            ) {
                match Self::bar_char(vertical, pos, length, offset, amount, max, q) {
                    Some(c) => overwritten(self.cell_at(q), fg, bg, c),
                    None => self.cell_at(q),
                }
            } else {
                self.cell_at(q)
            }
    }

    /// The stored cells after a text has been printed at `pos` on a grid of
    /// this size and draw offset that stores `cells`.
    pub open spec fn print_onto(
        size: Size,
        draw_offset: Position,
        cells: Seq<Cell>,
        pos: Position,
        fg: Option<Color>,
        bg: Option<Color>,
        chars: Seq<char>,
    ) -> Seq<Cell> {
        if Self::print_shows(size, pos, encode_utf8(chars).len() as int) {
            let skip = if pos.x < 0 {
                -pos.x
            } else {
                0
            };
            Self::printed(
                size,
                draw_offset,
                cells,
                chars,
                skip,
                if chars.len() < skip + size.w {
                    chars.len() as int
                } else {
                    skip + size.w
                },
                pos.x as int,
                pos.y,
                fg,
                bg,
            )
        } else {
            cells
        }
    }

    /// The stored cells after a text has been printed at `pos`.
    pub open spec fn print_result(
        self,
        pos: Position,
        fg: Option<Color>,
        bg: Option<Color>,
        chars: Seq<char>,
    ) -> Seq<Cell> {
        Self::print_onto(self.size, self.draw_offset, self.cells@, pos, fg, bg, chars)
    }

    /// `after` is the grid with a text printed at `pos`.
    pub open spec fn text_printed(
        self,
        after: RawCharGrid,
        pos: Position,
        fg: Option<Color>,
        bg: Option<Color>,
        chars: Seq<char>,
    ) -> bool {
        &&& self.same_frame(after)
        &&& after.cells@ == self.print_result(pos, fg, bg, chars)
    }

    /// A grid of the given size, all blanks in white on black.
    pub fn new(size: Size) -> (grid: RawCharGrid)
        requires
            0 < size.w <= i32::MAX,
            0 < size.h <= i32::MAX,
            size.w * size.h <= u32::MAX,
        ensures
            grid.wf(),
            grid.size == size,
            grid.draw_offset == (Position { x: 0, y: 0 }),
            forall|i: int| 0 <= i < grid.cells@.len() ==> grid.cells@[i] == default_cell(),
    {
        let count: usize = (size.w as u64 * size.h as u64) as usize;
        let mut cells: Vec<Cell> = Vec::new();
        cells.resize(count, default_cell());
        RawCharGrid { size, draw_offset: Position { x: 0, y: 0 }, cells }
    }

    /// Gives the grid another size. Nothing happens if it has that size
    /// already. Otherwise the draw offset goes back to the origin, and the
    /// stored cells are cut off or filled up with blanks in white on black
    /// at the end.
    pub fn resize(&mut self, new_size: Size)
        requires
            old(self).wf(),
            0 < new_size.w <= i32::MAX,
            0 < new_size.h <= i32::MAX,
            new_size.w * new_size.h <= u32::MAX,
        ensures
            final(self).wf(),
            final(self).size == new_size,
            new_size == old(self).size ==> *final(self) == *old(self),
            new_size != old(self).size ==> {
                &&& final(self).draw_offset == (Position { x: 0, y: 0 })
                &&& forall|i: int|
                    0 <= i < final(self).cells@.len() ==> final(self).cells@[i] == if i < old(
                        self,
                    ).cells@.len() {
                        old(self).cells@[i]
                    } else {
                        default_cell()
                    }
            },
    {
        if self.size != new_size {
            let count: usize = (new_size.w as u64 * new_size.h as u64) as usize;
            self.size = new_size;
            self.draw_offset = Position { x: 0, y: 0 };
            self.cells.resize(count, default_cell());
            assert forall|i: int| 0 <= i < self.cells@.len() implies self.cells@[i] == if i < old(
                self,
            ).cells@.len() {
                old(self).cells@[i]
            } else {
                default_cell()
            } by {
                if i < old(self).cells@.len() && count > old(self).cells@.len() {
                    assert(self.cells@.subrange(0, old(self).cells@.len() as int)[i]
                        == self.cells@[i]);
                }
            }
        }
    }

    /// The draw offset for one axis: `at` wrapped into a grid that is
    /// `extent` long. Positions before the origin wrap to the far edge.
    pub open spec fn wrapped(at: int, extent: int) -> int {
        if at >= 0 {
            at % extent
        } else {
            extent - ((-at) % extent)
        }
    }

    /// Sets the draw offset, wrapped into the bounds of the grid. The
    /// stored cells stay where they are, so what the grid shows shifts.
    pub fn set_draw_offset(&mut self, pos: Position)
        requires
            old(self).wf(),
            pos.x > i32::MIN,
            pos.y > i32::MIN,
        ensures
            old(self).offset_set(*final(self), pos),
    {
        let w: i32 = self.size.w as i32;
        let h: i32 = self.size.h as i32;
        self.draw_offset.x = if pos.x >= 0 {
            pos.x % w
        } else {
            w - (-pos.x % w)
        };
        self.draw_offset.y = if pos.y >= 0 {
            pos.y % h
        } else {
            h - (-pos.y % h)
        };
    }

    /// Fills the grid with blanks, in the colours given, or in white on
    /// black where none is.
    pub fn clear_color(&mut self, fg: Option<Color>, bg: Option<Color>)
        requires
            old(self).wf(),
        ensures
            old(self).cleared(*final(self), fg, bg),
    {
        let mut clear_cell = default_cell();
        match fg {
            Some(color) => {
                clear_cell.fg = color;
            },
            None => {},
        }
        match bg {
            Some(color) => {
                clear_cell.bg = color;
            },
            None => {},
        }
        let n = self.cells.len();
        let mut i: usize = 0;
        while i < n
            invariant
                i <= n,
                n == self.cells@.len(),
                self.size == old(self).size,
                self.draw_offset == old(self).draw_offset,
                self.wf(),
                clear_cell == overwritten(default_cell(), fg, bg, ' '),
                forall|j: int| 0 <= j < i ==> self.cells@[j] == clear_cell,
            decreases n - i,
        {
            self.cells.set(i, clear_cell);
            i += 1;
        }
    }

    /// Where the cell at a position is stored.
    pub fn index(&self, pos: Position) -> (i: usize)
        requires
            self.wf(),
            self.reachable(pos),
        ensures
            i == self.spec_index(pos),
            i < self.cells@.len(),
    {
        let real_x: i64 = (pos.x as i64 + self.draw_offset.x as i64) % (self.size.w as i64);
        let real_y: i64 = (pos.y as i64 + self.draw_offset.y as i64) % (self.size.h as i64);
        proof {
            self.lemma_index_in_range(pos);
            assert(0 <= real_y * (self.size.w as i64) <= self.spec_index(pos)) by (nonlinear_arith)
                requires
                    0 <= real_y,
                    0 <= real_x,
                    self.size.w > 0,
                    self.spec_index(pos) == real_y * (self.size.w as int) + real_x,
            ;
            assert(self.cells@.len() == self.cells.len());
            assert(self.size.w * self.size.h <= 0x7fff_ffff * 0x7fff_ffff) by (nonlinear_arith)
                requires
                    0 < self.size.w <= 0x7fff_ffff,
                    0 < self.size.h <= 0x7fff_ffff,
            ;
        }
        (real_y * (self.size.w as i64) + real_x) as usize
    }

    /// Puts a character at a position without asking whether the position
    /// is on the grid: one beyond the right or the lower edge wraps round.
    pub fn put_color_raw(&mut self, pos: Position, fg: Option<Color>, bg: Option<Color>, c: char)
        requires
            old(self).wf(),
            old(self).reachable(pos),
        ensures
            old(self).raw_put_done(*final(self), pos, fg, bg, c),
    {
        let index = self.index(pos);
        let mut cell = self.cells[index];
        cell.ch = c;
        match fg {
            Some(color) => {
                cell.fg = color;
            },
            None => {},
        }
        match bg {
            Some(color) => {
                cell.bg = color;
            },
            None => {},
        }
        self.cells.set(index, cell);
        proof {
            if old(self).in_bounds(pos) {
                assert forall|q: Position| old(self).in_bounds(q) implies #[trigger] self.cell_at(
                    q,
                ) == if q == pos {
                    overwritten(old(self).cell_at(pos), fg, bg, c)
                } else {
                    old(self).cell_at(q)
                } by {
                    old(self).lemma_index_in_range(q);
                    if q != pos && old(self).spec_index(q) == old(self).spec_index(pos) {
                        old(self).lemma_index_injective(q, pos);
                    }
                }
            }
        }
    }

    /// Puts a character at a position if the position is on the grid.
    pub fn put_color(&mut self, pos: Position, fg: Option<Color>, bg: Option<Color>, c: char)
        requires
            old(self).wf(),
        ensures
            old(self).put_done(*final(self), pos, fg, bg, c),
    {
        if pos.x >= 0 && pos.y >= 0 && pos.x < self.size.w as i32 && pos.y < self.size.h as i32 {
            self.put_color_raw(pos, fg, bg, c);
        }
    }

    /// Gives the cell at a position another background, if the position is
    /// on the grid.
    pub fn set_bg(&mut self, pos: Position, bg: Color)
        requires
            old(self).wf(),
        ensures
            old(self).bg_set(*final(self), pos, bg),
    {
        if pos.x >= 0 && pos.y >= 0 && pos.x < self.size.w as i32 && pos.y < self.size.h as i32 {
            let index = self.index(pos);
            let mut cell = self.cells[index];
            cell.bg = bg;
            self.cells.set(index, cell);
            proof {
                assert forall|q: Position| old(self).in_bounds(q) implies #[trigger] self.cell_at(
                    q,
                ) == if q == pos {
                    Cell { bg, ..old(self).cell_at(pos) }
                } else {
                    old(self).cell_at(q)
                } by {
                    old(self).lemma_index_in_range(q);
                    if q != pos && old(self).spec_index(q) == old(self).spec_index(pos) {
                        old(self).lemma_index_injective(q, pos);
                    }
                }
            }
        }
    }

    /// Whether a position lies on a line that runs from `from` up to, but
    /// without, `to`: along row `fixed`, or, if upright, along column
    /// `fixed`.
    pub open spec fn on_line(vertical: bool, fixed: int, from: int, to: int, q: Position) -> bool {
        if vertical {
            q.x == fixed && from <= q.y < to
        } else {
            q.y == fixed && from <= q.x < to
        }
    }

    /// Puts one character into each cell of a line, as far as the line lies
    /// on the grid.
    pub fn run(
        &mut self,
        vertical: bool,
        fixed: i32,
        from: i64,
        to: i64,
        fg: Option<Color>,
        bg: Option<Color>,
        c: char,
    )
        requires
            old(self).wf(),
            0 <= fixed,
            vertical ==> fixed < old(self).size.w,
            !vertical ==> fixed < old(self).size.h,
        ensures
            final(self).wf(),
            final(self).size == old(self).size,
            final(self).draw_offset == old(self).draw_offset,
            forall|q: Position|
                old(self).in_bounds(q) ==> #[trigger] final(self).cell_at(q) == if Self::on_line(
                    vertical,
                    fixed as int,
                    from as int,
                    to as int,
                    q,
                ) {
                    overwritten(old(self).cell_at(q), fg, bg, c)
                } else {
                    old(self).cell_at(q)
                },
    {
        let extent: i64 = if vertical {
            self.size.h as i64
        } else {
            self.size.w as i64
        };
        let first: i64 = if from > 0 {
            from
        } else {
            0
        };
        let last: i64 = if to < extent {
            to
        } else {
            extent
        };
        let mut t: i64 = first;
        while t < last
            invariant
                first <= t,
                t <= last || t == first,
                first == if from > 0 {
                    from
                } else {
                    0
                },
                last == if to < extent {
                    to
                } else {
                    extent
                },
                last <= extent,
                extent == if vertical {
                    old(self).size.h as i64
                } else {
                    old(self).size.w as i64
                },
                0 <= fixed,
                vertical ==> fixed < old(self).size.w,
                !vertical ==> fixed < old(self).size.h,
                self.wf(),
                old(self).wf(),
                self.size == old(self).size,
                self.draw_offset == old(self).draw_offset,
                forall|q: Position|
                    old(self).in_bounds(q) ==> #[trigger] self.cell_at(q) == if Self::on_line(
                        vertical,
                        fixed as int,
                        first as int,
                        t as int,
                        q,
                    ) {
                        overwritten(old(self).cell_at(q), fg, bg, c)
                    } else {
                        old(self).cell_at(q)
                    },
            decreases last - t,
        {
            let pos = if vertical {
                Position { x: fixed, y: t as i32 }
            } else {
                Position { x: t as i32, y: fixed }
            };
            let ghost before = *self;
            self.put_color_raw(pos, fg, bg, c);
            proof {
                assert forall|q: Position| old(self).in_bounds(q) implies #[trigger] self.cell_at(
                    q,
                ) == if Self::on_line(vertical, fixed as int, first as int, t + 1, q) {
                    overwritten(old(self).cell_at(q), fg, bg, c)
                } else {
                    old(self).cell_at(q)
                } by {
                    let _ = before.cell_at(q);
                }
            }
            t += 1;
        }
        proof {
            assert forall|q: Position| old(self).in_bounds(q) implies (Self::on_line(
                vertical,
                fixed as int,
                first as int,
                t as int,
                q,
            ) <==> Self::on_line(vertical, fixed as int, from as int, to as int, q)) by {}
        }
    }

    /// The character of one row of a box, `dx` cells from its left edge:
    /// `right` in the last column, else `left` in the first, else `mid`.
    pub open spec fn row_char(w: int, dx: int, left: char, mid: char, right: char) -> char {
        if dx == w - 1 {
            right
        } else if dx == 0 {
            left
        } else {
            mid
        }
    }

    /// The character of a box above its last row: the upper edge in the
    /// first row, else the sides round a blank interior.
    pub open spec fn upper_char(w: int, dx: int, dy: int) -> char {
        if dy == 0 {
            Self::row_char(w, dx, '┌', '─', '┐')
        } else {
            Self::row_char(w, dx, '│', ' ', '│')
        }
    }

    /// The character of a box of `w` by `h` cells at `dx`, `dy` from its
    /// upper left corner: the lower edge in the last row, else the upper
    /// edge in the first, else the sides round a blank interior.
    pub open spec fn box_char(w: int, h: int, dx: int, dy: int) -> char {
        if dy == h - 1 {
            Self::row_char(w, dx, '└', '─', '┘')
        } else {
            Self::upper_char(w, dx, dy)
        }
    }

    /// Whether a position is covered by a box. A box wider or higher than
    /// `i32::MAX` covers nothing.
    pub open spec fn in_box(pos: Position, size: Size, q: Position) -> bool {
        &&& size.w <= i32::MAX
        &&& size.h <= i32::MAX
        &&& pos.x <= q.x < pos.x + size.w
        &&& pos.y <= q.y < pos.y + size.h
    }

    /// Draws one row of a box: `left`, then `mid` as often as needed, then
    /// `right`, as far as they lie on the grid.
    fn box_row(
        &mut self,
        y: i32,
        x: i64,
        w: i64,
        fg: Color,
        bg: Color,
        left: char,
        mid: char,
        right: char,
    )
        requires
            old(self).wf(),
            0 <= y < old(self).size.h,
            i32::MIN <= x <= i32::MAX,
            0 < w <= i32::MAX,
        ensures
            final(self).wf(),
            final(self).size == old(self).size,
            final(self).draw_offset == old(self).draw_offset,
            forall|q: Position|
                old(self).in_bounds(q) ==> #[trigger] final(self).cell_at(q) == if q.y == y && x
                    <= q.x < x + w {
                    Cell { ch: Self::row_char(w as int, q.x - x, left, mid, right), fg, bg }
                } else {
                    old(self).cell_at(q)
                },
    {
        self.run(false, y, x, x + 1, Some(fg), Some(bg), left);
        let ghost first = *self;
        self.run(false, y, x + 1, x + w - 1, Some(fg), Some(bg), mid);
        let ghost second = *self;
        self.run(false, y, x + w - 1, x + w, Some(fg), Some(bg), right);
        proof {
            assert forall|q: Position| old(self).in_bounds(q) implies #[trigger] self.cell_at(q)
                == if q.y == y && x <= q.x < x + w {
                Cell { ch: Self::row_char(w as int, q.x - x, left, mid, right), fg, bg }
            } else {
                old(self).cell_at(q)
            } by {
                let _ = first.cell_at(q);
                let _ = second.cell_at(q);
            }
        }
    }

    /// Draws a box with its upper left corner at `pos`. What falls outside
    /// the grid is left out.
    pub fn draw_box(&mut self, pos: Position, size: Size, fg: Color, bg: Color)
        requires
            old(self).wf(),
        ensures
            old(self).box_drawn(*final(self), pos, size, fg, bg),
    {
        if size.w > 0x7fff_ffff || size.h > 0x7fff_ffff {
            return ;
        }
        let x: i64 = pos.x as i64;
        let y: i64 = pos.y as i64;
        let w: i64 = size.w as i64;
        let h: i64 = size.h as i64;
        let grid_w: i64 = self.size.w as i64;
        let grid_h: i64 = self.size.h as i64;
        if w > 0 && h > 0 && x + w > 0 && y + h > 0 && x < grid_w && y < grid_h {
            if y >= 0 {
                self.box_row(pos.y, x, w, fg, bg, '┌', '─', '┐');
            }
            let start: i64 = if y + 1 > 0 {
                y + 1
            } else {
                0
            };
            let end: i64 = if y + h - 1 < grid_h {
                y + h - 1
            } else {
                grid_h
            };
            let mut yy: i64 = start;
            while yy < end
                invariant
                    start <= yy,
                    0 <= start,
                    y + 1 <= start,
                    end <= grid_h,
                    end <= y + h - 1,
                    grid_h == old(self).size.h,
                    x == pos.x,
                    y == pos.y,
                    w == size.w,
                    h == size.h,
                    0 < w <= i32::MAX,
                    0 < h <= i32::MAX,
                    self.wf(),
                    old(self).wf(),
                    self.size == old(self).size,
                    self.draw_offset == old(self).draw_offset,
                    forall|q: Position|
                        old(self).in_bounds(q) ==> #[trigger] self.cell_at(q) == if Self::in_box(
                            pos,
                            size,
                            q,
                        ) && q.y < yy {
                            Cell { ch: Self::upper_char(w as int, q.x - pos.x, q.y - pos.y), fg, bg }
                        } else {
                            old(self).cell_at(q)
                        },
                decreases end - yy,
            {
                let ghost before = *self;
                self.box_row(yy as i32, x, w, fg, bg, '│', ' ', '│');
                proof {
                    assert forall|q: Position| old(self).in_bounds(q) implies #[trigger] self.cell_at(
                        q,
                    ) == if Self::in_box(pos, size, q) && q.y < yy + 1 {
                        Cell { ch: Self::upper_char(w as int, q.x - pos.x, q.y - pos.y), fg, bg }
                    } else {
                        old(self).cell_at(q)
                    } by {
                        let _ = before.cell_at(q);
                    }
                }
                yy += 1;
            }
            let ghost middle = *self;
            if y + h - 1 < grid_h {
                self.box_row((y + h - 1) as i32, x, w, fg, bg, '└', '─', '┘');
            }
            proof {
                assert forall|q: Position| old(self).in_bounds(q) implies #[trigger] self.cell_at(
                    q,
                ) == if Self::in_box(pos, size, q) {
                    Cell {
                        ch: Self::box_char(w as int, h as int, q.x - pos.x, q.y - pos.y),
                        fg,
                        bg,
                    }
                } else {
                    old(self).cell_at(q)
                } by {
                    let _ = middle.cell_at(q);
                }
            }
        }
    }

    /// `p / q` rounded towards zero, for a positive `q`.
    pub open spec fn toward_zero(p: int, q: int) -> int {
        if p >= 0 {
            p / q
        } else {
            -((-p) / q)
        }
    }

    /// How many cells of a bar of `length` cells are filled when it shows
    /// `amount` out of `max`.
    pub open spec fn fill_length(length: int, amount: int, max: int) -> int {
        if max > 0 {
            let filled = Self::toward_zero(length * amount, max);
            if filled < 0 {
                0
            } else if filled > length {
                length
            } else {
                filled
            }
        } else {
            0
        }
    }

    /// How many cells from its start the filled part of a bar begins: the
    /// share of the unfilled cells that `offset` is of what is missing to
    /// `max`.
    pub open spec fn fill_start(length: int, offset: int, amount: int, max: int) -> int {
        let gap = length - Self::fill_length(length, amount, max);
        if gap > 0 && amount < max {
            Self::toward_zero(gap * offset, max - amount)
        } else {
            0
        }
    }

    /// Whether any of a bar is drawn: its line crosses the grid, and it
    /// does not end before the grid begins or begin after it ends.
    pub open spec fn bar_shows(&self, vertical: bool, pos: Position, length: int) -> bool {
        if vertical {
            0 <= pos.x < self.size.w && pos.y < self.size.h && pos.y + length >= 0
        } else {
            0 <= pos.y < self.size.h && pos.x < self.size.w && pos.x + length >= 0
        }
    }

    /// The character that a bar puts at a position, if it puts any: a full
    /// block on the filled part, a light shade before and after it.
    pub open spec fn bar_char(
        vertical: bool,
        pos: Position,
        length: int,
        offset: int,
        amount: int,
        max: int,
        q: Position,
    ) -> Option<char> {
        let (fixed, start) = if vertical {
            (pos.x as int, pos.y as int)
        } else {
            (pos.y as int, pos.x as int)
        };
        let fill = start + Self::fill_start(length, offset, amount, max);
        let rest = fill + Self::fill_length(length, amount, max);
        if Self::on_line(vertical, fixed, fill, rest, q) {
            Some('█')
        } else if Self::on_line(vertical, fixed, start, fill, q) || Self::on_line(
            vertical,
            fixed,
            rest,
            start + length,
            q,
        ) {
            Some('░')
        } else {
            None
        }
    }

    /// Draws a bar of `length` cells that starts at `pos` and runs to the
    /// right, or down if `vertical`. The bar shows `amount` out of `max` as
    /// a run of full blocks; the rest is shaded. The run starts `offset`
    /// out of the missing `max - amount` into the unfilled cells.
    pub fn draw_bar(
        &mut self,
        vertical: bool,
        pos: Position,
        length: i32,
        offset: i32,
        amount: i32,
        max: i32,
        fg: Option<Color>,
        bg: Option<Color>,
    )
        requires
            old(self).wf(),
            length > 0,
            max >= 0,
        ensures
            old(self).bar_drawn(
                *final(self),
                vertical,
                pos,
                length as int,
                offset as int,
                amount as int,
                max as int,
                fg,
                bg,
            ),
    {
        let len: i64 = length as i64;
        assert(-0x4000_0000_0000_0000 <= len * (amount as i64) <= 0x4000_0000_0000_0000)
            by (nonlinear_arith)
            requires
                0 < len <= 0x7fff_ffff,
                -0x8000_0000 <= amount <= 0x7fff_ffff,
        ;
        let filled: i64 = if max > 0 {
            let share = div_toward_zero(len * (amount as i64), max as i64);
            if share < 0 {
                0
            } else if share > len {
                len
            } else {
                share
            }
        } else {
            0
        };
        let gap: i64 = len - filled;
        assert(-0x4000_0000_0000_0000 <= gap * (offset as i64) <= 0x4000_0000_0000_0000)
            by (nonlinear_arith)
            requires
                0 <= gap <= 0x7fff_ffff,
                -0x8000_0000 <= offset <= 0x7fff_ffff,
        ;
        let lead: i64 = if gap > 0 && amount < max {
            div_toward_zero(gap * (offset as i64), max as i64 - amount as i64)
        } else {
            0
        };
        let grid_w: i64 = self.size.w as i64;
        let grid_h: i64 = self.size.h as i64;
        let x: i64 = pos.x as i64;
        let y: i64 = pos.y as i64;
        let shows = if vertical {
            x >= 0 && x < grid_w && y < grid_h && y + len >= 0
        } else {
            y >= 0 && y < grid_h && x < grid_w && x + len >= 0
        };
        if shows {
            let fixed: i32 = if vertical {
                pos.x
            } else {
                pos.y
            };
            let start: i64 = if vertical {
                y
            } else {
                x
            };
            self.run(vertical, fixed, start, start + lead, fg, bg, '░');
            let ghost first = *self;
            self.run(vertical, fixed, start + lead, start + lead + filled, fg, bg, '█');
            let ghost second = *self;
            self.run(vertical, fixed, start + lead + filled, start + len, fg, bg, '░');
            proof {
                assert forall|q: Position| old(self).in_bounds(q) implies #[trigger] self.cell_at(
                    q,
                ) == match Self::bar_char(
                    vertical,
                    pos,
                    length as int,
                    offset as int,
                    amount as int,
                    max as int,
                    q,
                ) {
                    Some(c) => overwritten(old(self).cell_at(q), fg, bg, c),
                    None => old(self).cell_at(q),
                } by {
                    let _ = first.cell_at(q);
                    let _ = second.cell_at(q);
                }
            }
        }
    }

    /// The stored cells after the characters `k` up to, but without, `end`
    /// of a text have been put into row `y`, one after the other, each as
    /// many columns from `x` as the characters before it take bytes.
    pub open spec fn printed(
        size: Size,
        draw_offset: Position,
        cells: Seq<Cell>,
        chars: Seq<char>,
        k: int,
        end: int,
        x: int,
        y: i32,
        fg: Option<Color>,
        bg: Option<Color>,
    ) -> Seq<Cell>
        decreases end - k,
    {
        if k >= end {
            cells
        } else {
            let i = Self::index_of(
                size,
                draw_offset,
                Position { x: (x + byte_offset(chars, k)) as i32, y },
            );
            Self::printed(
                size,
                draw_offset,
                cells.update(i, overwritten(cells[i], fg, bg, chars[k])),
                chars,
                k + 1,
                end,
                x,
                y,
                fg,
                bg,
            )
        }
    }

    /// Whether any of a text of `bytes` bytes printed at `pos` may fall on a
    /// grid of the given size.
    pub open spec fn print_shows(size: Size, pos: Position, bytes: int) -> bool {
        0 <= pos.y < size.h && pos.x < size.w && pos.x + bytes > 0
    }

    /// Printing characters of one byte each that all fall on the grid puts
    /// each into its own cell, one column after the other.
    proof fn lemma_printed_plain(
        grid: RawCharGrid,
        cells: Seq<Cell>,
        chars: Seq<char>,
        k: int,
        end: int,
        x: int,
        y: i32,
        fg: Option<Color>,
        bg: Option<Color>,
    )
        requires
            grid.wf(),
            cells.len() == grid.cells@.len(),
            vstd::utf8::is_ascii_chars(chars),
            0 <= k <= end <= chars.len(),
            0 <= y < grid.size.h,
            0 <= x,
            x + end <= grid.size.w,
        ensures
            forall|q: Position|
                grid.in_bounds(q) ==> (#[trigger] Self::printed(
                    grid.size,
                    grid.draw_offset,
                    cells,
                    chars,
                    k,
                    end,
                    x,
                    y,
                    fg,
                    bg,
                )[grid.spec_index(q)]) == if q.y == y && x + k <= q.x < x + end {
                    overwritten(cells[grid.spec_index(q)], fg, bg, chars[q.x - x])
                } else {
                    cells[grid.spec_index(q)]
                },
        decreases end - k,
    {
        if k < end {
            let head = chars.subrange(0, k);
            assert(vstd::utf8::is_ascii_chars(head)) by {
                assert forall|j: int| 0 <= j < head.len() implies '\0' <= #[trigger] head[j]
                    <= '\u{7f}' by {
                    assert(head[j] == chars[j]);
                }
            }
            vstd::utf8::is_ascii_chars_encode_utf8(head);
            assert(byte_offset(chars, k) == k);
            let at = Position { x: (x + k) as i32, y };
            let i = grid.spec_index(at);
            let next = cells.update(i, overwritten(cells[i], fg, bg, chars[k]));
            grid.lemma_index_in_range(at);
            Self::lemma_printed_plain(grid, next, chars, k + 1, end, x, y, fg, bg);
            assert forall|q: Position| grid.in_bounds(q) implies (#[trigger] Self::printed(
                grid.size,
                grid.draw_offset,
                cells,
                chars,
                k,
                end,
                x,
                y,
                fg,
                bg,
            )[grid.spec_index(q)]) == if q.y == y && x + k <= q.x < x + end {
                overwritten(cells[grid.spec_index(q)], fg, bg, chars[q.x - x])
            } else {
                cells[grid.spec_index(q)]
            } by {
                grid.lemma_index_in_range(q);
                let _ = Self::printed(
                    grid.size,
                    grid.draw_offset,
                    next,
                    chars,
                    k + 1,
                    end,
                    x,
                    y,
                    fg,
                    bg,
                )[grid.spec_index(q)];
                if q != at && grid.spec_index(q) == i {
                    grid.lemma_index_injective(q, at);
                }
            }
        }
    }

    /// A text of one-byte characters that lies wholly in one row of the
    /// grid is printed one character to a cell: the cell `k` columns right
    /// of `pos` shows character `k`, and every other cell is as it was.
    pub proof fn lemma_print_plain(
        self,
        pos: Position,
        fg: Option<Color>,
        bg: Option<Color>,
        chars: Seq<char>,
    )
        requires
            self.wf(),
            vstd::utf8::is_ascii_chars(chars),
            0 <= pos.y < self.size.h,
            0 <= pos.x,
            pos.x + chars.len() <= self.size.w,
        ensures
            forall|q: Position|
                self.in_bounds(q) ==> (#[trigger] self.print_result(pos, fg, bg, chars)[self.spec_index(
                    q,
                )]) == if q.y == pos.y && pos.x <= q.x < pos.x + chars.len() {
                    overwritten(self.cell_at(q), fg, bg, chars[q.x - pos.x])
                } else {
                    self.cell_at(q)
                },
    {
        vstd::utf8::is_ascii_chars_encode_utf8(chars);
        if chars.len() > 0 {
            Self::lemma_printed_plain(
                self,
                self.cells@,
                chars,
                0,
                chars.len() as int,
                pos.x as int,
                pos.y,
                fg,
                bg,
            );
        }
    }

    /// Prints a text into the row of `pos`, starting there.
    ///
    /// Each character goes as many columns from `pos.x` as the characters
    /// before it take bytes in UTF-8. Characters left of the grid are
    /// skipped, one for each column that `pos.x` is left of it. At most as
    /// many characters are put as the grid has columns, and one that falls
    /// beyond the right edge wraps round to the start of the row.
    pub fn print_color(&mut self, pos: Position, fg: Option<Color>, bg: Option<Color>, s: &str)
        requires
            old(self).wf(),
            pos.x + encode_utf8(s@).len() <= i32::MAX,
        ensures
            old(self).text_printed(*final(self), pos, fg, bg, s@),
    {
        broadcast use vstd::string::group_string_axioms;

        let bytes: usize = s.len();
        if pos.y >= 0 && pos.y < self.size.h as i32 && pos.x < self.size.w as i32 && pos.x as i64
            + bytes as i64 > 0 {
            let skip: usize = if pos.x < 0 {
                (-(pos.x as i64)) as usize
            } else {
                0
            };
            let limit: usize = skip + self.size.w as usize;
            let ghost end: int = if s@.len() < limit {
                s@.len() as int
            } else {
                limit as int
            };
            let mut it = s.chars();
            let mut k: usize = 0;
            let mut b: usize = 0;
            proof {
                assert(s@.subrange(0, 0) =~= Seq::<char>::empty());
                assert(s@.subrange(0, s@.len() as int) =~= s@);
            }
            while k < limit
                invariant
                    self.wf(),
                    old(self).wf(),
                    self.size == old(self).size,
                    self.draw_offset == old(self).draw_offset,
                    0 <= pos.y < self.size.h,
                    pos.x + bytes <= i32::MAX,
                    bytes == encode_utf8(s@).len(),
                    limit == skip + self.size.w,
                    skip == if pos.x < 0 {
                        -pos.x
                    } else {
                        0
                    },
                    end == if s@.len() < limit {
                        s@.len() as int
                    } else {
                        limit as int
                    },
                    k <= s@.len(),
                    k <= limit,
                    k <= b,
                    b == byte_offset(s@, k as int),
                    b <= bytes,
                    it.remaining() == s@.subrange(k as int, s@.len() as int),
                    it.obeys_prophetic_iter_laws(),
                    Self::printed(
                        old(self).size,
                        old(self).draw_offset,
                        self.cells@,
                        s@,
                        if k < skip {
                            skip as int
                        } else {
                            k as int
                        },
                        end,
                        pos.x as int,
                        pos.y,
                        fg,
                        bg,
                    ) == Self::printed(
                        old(self).size,
                        old(self).draw_offset,
                        old(self).cells@,
                        s@,
                        skip as int,
                        end,
                        pos.x as int,
                        pos.y,
                        fg,
                        bg,
                    ),
                    k < skip ==> self.cells@ == old(self).cells@,
                ensures
                    self.wf(),
                    self.size == old(self).size,
                    self.draw_offset == old(self).draw_offset,
                    self.cells@ == Self::printed(
                        old(self).size,
                        old(self).draw_offset,
                        old(self).cells@,
                        s@,
                        skip as int,
                        end,
                        pos.x as int,
                        pos.y,
                        fg,
                        bg,
                    ),
                decreases s@.len() - k,
            {
                match it.next() {
                    Some(c) => {
                        proof {
                            lemma_byte_offset_step(s@, k as int);
                            assert(it.remaining() =~= s@.subrange(k + 1, s@.len() as int));
                        }
                        if k >= skip {
                            let at = Position { x: (pos.x as i64 + b as i64) as i32, y: pos.y };
                            self.put_color_raw(at, fg, bg, c);
                        }
                        b = b + utf8_width(c);
                        k = k + 1;
                    },
                    None => {
                        break ;
                    },
                }
            }
        }
    }
}

/// `p / q` rounded towards zero.
pub(crate) fn div_toward_zero(p: i64, q: i64) -> (r: i64)
    requires
        q > 0,
        -0x4000_0000_0000_0000 <= p <= 0x4000_0000_0000_0000,
    ensures
        r == RawCharGrid::toward_zero(p as int, q as int),
        p >= 0 ==> 0 <= r <= p,
        p <= 0 ==> p <= r <= 0,
{
    if p >= 0 {
        assert(0 <= p as int / q as int <= p) by (nonlinear_arith)
            requires
                p >= 0,
                q > 0,
        ;
        p / q
    } else {
        assert(0 <= (-p) as int / q as int <= -p) by (nonlinear_arith)
            requires
                p < 0,
                q > 0,
        ;
        -((-p) / q)
    }
}

} // verus!
