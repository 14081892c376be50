use vstd::prelude::*;

use crate::color::{encode_attribute, attribute_byte, Color, CGA_STD_ATTR};
use crate::cursor::CursorRegister;
use crate::frame_buffer::{
    in_range, offset_of, placed, FrameBuffer, CGA_CELLS, CGA_COLUMNS, CGA_ROWS,
};

verus! {

/// The blank cell: a space with the standard attribute.
pub open spec fn blank_cell() -> (u8, u8) {
    (32u8, CGA_STD_ATTR)
}

/// A page of blank cells.
pub open spec fn blank_page() -> Seq<(u8, u8)> {
    Seq::new(CGA_CELLS as nat, |i: int| blank_cell())
}

/// The page moved up by one row, with a blank last row.
pub open spec fn scrolled(cells: Seq<(u8, u8)>) -> Seq<(u8, u8)> {
    Seq::new(
        CGA_CELLS as nat,
        |i: int|
            if i < offset_of(0, CGA_ROWS - 1) {
                cells[i + CGA_COLUMNS]
            } else {
                blank_cell()
            },
    )
}

/// Page and cursor offset after printing `b` at cursor offset `pos`.
///
/// Where advancing would leave the page (the last cell), the page is
/// scrolled first: the byte lands in the last cell of the row above and the
/// cursor goes to the start of the blank last row.
pub open spec fn printed(cells: Seq<(u8, u8)>, pos: nat, b: u8) -> (Seq<(u8, u8)>, nat) {
    if pos + 1 >= CGA_CELLS {
        (scrolled(cells).update(pos - CGA_COLUMNS, (b, CGA_STD_ATTR)), offset_of(0, CGA_ROWS - 1) as nat)
    } else {
        (cells.update(pos as int, (b, CGA_STD_ATTR)), pos + 1)
    }
}

/// The text screen: a frame buffer and the hardware cursor.
pub struct CGA {
    cursor: CursorRegister,
    buffer: FrameBuffer,
}

impl CGA {
    /// The cursor register holds an offset on the page.
    pub closed spec fn wf(&self) -> bool {
        &&& self.cursor.wf()
        &&& self.buffer.wf()
        &&& self.buffer@.len() == CGA_CELLS
        &&& self.cursor.offset() < CGA_CELLS
    }

    /// The cells of the page, by linear offset.
    pub closed spec fn cells(&self) -> Seq<(u8, u8)> {
        self.buffer@
    }

    /// The cursor's linear offset, as the cursor register holds it.
    pub closed spec fn pos(&self) -> nat {
        self.cursor.offset()
    }

    /// A screen with zeroed memory and the cursor at (0, 0).
    pub fn new() -> (r: CGA)
        ensures
            r.wf(),
            r.cells() == Seq::new(CGA_CELLS as nat, |i: int| (0u8, 0u8)),
            r.pos() == 0,
    {
        CGA { cursor: CursorRegister::new(), buffer: FrameBuffer::new() }
    }

    /// Clears the page to blank cells and sets the cursor to (0, 0).
    pub fn clear(&mut self)
        requires
            old(self).wf(),
        ensures
            final(self).wf(),
            final(self).cells() == blank_page(),
            final(self).pos() == 0,
    {
        for y in 0..CGA_ROWS
            invariant
                self.wf(),
                forall|i: int| 0 <= i < offset_of(0, y as int) ==> self.cells()[i] == blank_cell(),
        {
            for x in 0..CGA_COLUMNS
                invariant
                    self.wf(),
                    y < CGA_ROWS,
                    forall|i: int|
                        0 <= i < offset_of(x as int, y as int) ==> self.cells()[i] == blank_cell(),
            {
                self.show(x, y, ' ', CGA_STD_ATTR);
            }
        }
        self.setpos(0, 0);
        assert(self.cells() =~= blank_page());
    }

    /// Writes `character` with attribute `attrib` into the cell (x, y); the
    /// cursor stays. A silent no-op where (x, y) is off the page.
    pub fn show(&mut self, x: usize, y: usize, character: char, attrib: u8)
        requires
            old(self).wf(),
        ensures
            final(self).wf(),
            final(self).cells() == placed(
                old(self).cells(),
                x as int,
                y as int,
                (character as u8, attrib),
            ),
            final(self).pos() == old(self).pos(),
    {
        self.buffer.write_cell(x, y, character as u8, attrib);
    }

    /// The cursor position (x, y), read from the cursor register:
    /// `x = offset % COLUMNS`, `y = offset / COLUMNS`.
    pub fn getpos(&mut self) -> (r: (usize, usize))
        requires
            old(self).wf(),
        ensures
            final(self).wf(),
            final(self).cells() == old(self).cells(),
            final(self).pos() == old(self).pos(),
            r == ((old(self).pos() % CGA_COLUMNS as nat) as usize, (old(self).pos()
                / CGA_COLUMNS as nat) as usize),
            in_range(r.0 as int, r.1 as int),
    {
        let pos = self.cursor.read();
        let x = (pos % (CGA_COLUMNS as u16)) as usize;
        let y = (pos / (CGA_COLUMNS as u16)) as usize;
        (x, y)
    }

    /// Sets the cursor to (x, y) by writing `y * COLUMNS + x` to the cursor
    /// register.
    pub fn setpos(&mut self, x: usize, y: usize)
        requires
            old(self).wf(),
            in_range(x as int, y as int),
        ensures
            final(self).wf(),
            final(self).cells() == old(self).cells(),
            final(self).pos() == offset_of(x as int, y as int),
    {
        let offset = y * CGA_COLUMNS + x;
        self.cursor.write(offset as u16);
    }

    /// The (character, attribute) of the cell (x, y).
    pub fn read_cell(&self, x: usize, y: usize) -> (r: (u8, u8))
        requires
            self.wf(),
            in_range(x as int, y as int),
        ensures
            r == self.cells()[offset_of(x as int, y as int)],
    {
        self.buffer.read_cell(x, y)
    }

    /// Prints byte `b` with the standard attribute at the cursor and advances
    /// the cursor, wrapping to the next row after the last column. Where the
    /// advance would leave the page, the page is scrolled up first and the
    /// byte lands on the last cell of the row above the blank last row.
    pub fn print_byte(&mut self, b: u8)
        requires
            old(self).wf(),
        ensures
            final(self).wf(),
            (final(self).cells(), final(self).pos()) == printed(old(self).cells(), old(self).pos(), b),
    {
        let (mut x, mut y) = self.getpos();
        if y == CGA_ROWS - 1 && x == CGA_COLUMNS - 1 {
            self.scrollup();
            y = y - 1;
        }
        self.show(x, y, b as char, CGA_STD_ATTR);
        x = x + 1;
        if x >= CGA_COLUMNS {
            x = 0;
            y = y + 1;
        }
        self.setpos(x, y);
    }

    /// Moves every row up by one (row r receives row r + 1, in increasing
    /// order of r, over all columns), blanks the last row and sets the cursor
    /// to the start of the last row.
    pub fn scrollup(&mut self)
        requires
            old(self).wf(),
        ensures
            final(self).wf(),
            final(self).cells() == scrolled(old(self).cells()),
            final(self).pos() == offset_of(0, CGA_ROWS - 1),
    {
        let ghost start = self.cells();
        for y in 1..CGA_ROWS
            invariant
                self.wf(),
                start.len() == CGA_CELLS,
                forall|i: int|
                    0 <= i < offset_of(0, y - 1) ==> self.cells()[i] == start[i + CGA_COLUMNS],
                forall|i: int| offset_of(0, y - 1) <= i < CGA_CELLS ==> self.cells()[i] == start[i],
        {
            for x in 0..CGA_COLUMNS
                invariant
                    self.wf(),
                    1 <= y < CGA_ROWS,
                    start.len() == CGA_CELLS,
                    forall|i: int|
                        0 <= i < offset_of(x as int, y - 1) ==> self.cells()[i] == start[i
                            + CGA_COLUMNS],
                    forall|i: int|
                        offset_of(x as int, y - 1) <= i < CGA_CELLS ==> self.cells()[i] == start[i],
            {
                let (character, attrib) = self.buffer.read_cell(x, y);
                assert(offset_of(x as int, y as int) == offset_of(x as int, y - 1) + CGA_COLUMNS);
                assert((character, attrib) == start[offset_of(x as int, y - 1) + CGA_COLUMNS]);
                self.buffer.write_cell(x, y - 1, character, attrib);
            }
        }
        for x in 0..CGA_COLUMNS
            invariant
                self.wf(),
                start.len() == CGA_CELLS,
                forall|i: int|
                    0 <= i < offset_of(0, CGA_ROWS - 1) ==> self.cells()[i] == start[i + CGA_COLUMNS],
                forall|i: int|
                    offset_of(0, CGA_ROWS - 1) <= i < offset_of(x as int, CGA_ROWS - 1)
                        ==> self.cells()[i] == blank_cell(),
        {
            self.show(x, CGA_ROWS - 1, ' ', CGA_STD_ATTR);
        }
        self.setpos(0, CGA_ROWS - 1);
        assert(self.cells() =~= scrolled(start));
    }

    /// The attribute byte for foreground `fg` on background `bg`; `blink` is
    /// a hint that leaves the byte as it is.
    pub fn attribute(&mut self, bg: Color, fg: Color, blink: bool) -> (r: u8)
        ensures
            *final(self) == *old(self),
            r == attribute_byte(fg, bg, blink),
    {
        encode_attribute(fg, bg, blink)
    }
}

/// Page and cursor offset after printing the bytes of `s` in order.
pub open spec fn printed_all(cells: Seq<(u8, u8)>, pos: nat, s: Seq<u8>) -> (Seq<(u8, u8)>, nat)
    decreases s.len(),
{
    if s.len() == 0 {
        (cells, pos)
    } else {
        let (c, p) = printed_all(cells, pos, s.drop_last());
        printed(c, p, s.last())
    }
}

/// Setting the cursor to a position on the page and reading it back gives
/// that position again.
pub proof fn cursor_round_trip(x: usize, y: usize)
    requires
        in_range(x as int, y as int),
    ensures
        ((offset_of(x as int, y as int) as nat % CGA_COLUMNS as nat) as usize, (offset_of(
            x as int,
            y as int,
        ) as nat / CGA_COLUMNS as nat) as usize) == (x, y),
{
    let o = offset_of(x as int, y as int) as nat;
    assert(o % 80 == x && o / 80 == y) by (nonlinear_arith)
        requires
            o == y * 80 + x,
            x < 80,
    ;
}

/// Writing a cell at coordinates off the page changes no cell.
pub proof fn off_page_write_is_noop(cells: Seq<(u8, u8)>, x: int, y: int, cell: (u8, u8))
    requires
        !in_range(x, y),
    ensures
        placed(cells, x, y, cell) == cells,
{
}

/// On a page whose row r holds the character `'A' + r`, scrolling leaves row
/// r holding `'A' + (r + 1)` for every row but the last, which is blank.
pub proof fn scroll_shifts_lettered_rows(cells: Seq<(u8, u8)>)
    requires
        cells.len() == CGA_CELLS,
        forall|x: int, r: int|
            0 <= x < CGA_COLUMNS && 0 <= r < CGA_ROWS ==> #[trigger] cells[offset_of(x, r)].0 == 65
                + r,
    ensures
        forall|x: int, r: int|
            0 <= x < CGA_COLUMNS && 0 <= r < CGA_ROWS - 1 ==> #[trigger] scrolled(cells)[offset_of(
                x,
                r,
            )].0 == 65 + r + 1,
        forall|x: int|
            0 <= x < CGA_COLUMNS ==> #[trigger] scrolled(cells)[offset_of(x, CGA_ROWS - 1)]
                == blank_cell(),
{
    assert forall|x: int, r: int| 0 <= x < CGA_COLUMNS && 0 <= r < CGA_ROWS - 1 implies #[trigger] scrolled(
        cells,
    )[offset_of(x, r)].0 == 65 + r + 1 by {
        assert(offset_of(x, r) + CGA_COLUMNS == offset_of(x, r + 1));
        assert(cells[offset_of(x, r + 1)].0 == 65 + r + 1);
    }
}

/// The page after printing the first `k` bytes of `s` onto a blank page
/// from offset 0, while no scroll has happened yet.
spec fn partly_printed(s: Seq<u8>, k: int) -> Seq<(u8, u8)> {
    Seq::new(
        CGA_CELLS as nat,
        |i: int|
            if i < k {
                (s[i], CGA_STD_ATTR)
            } else {
                blank_cell()
            },
    )
}

proof fn lemma_print_without_scroll(s: Seq<u8>, k: int)
    requires
        0 <= k < CGA_CELLS,
        k <= s.len(),
    ensures
        printed_all(blank_page(), 0, s.take(k)) == (partly_printed(s, k), k as nat),
    decreases k,
{
    if k > 0 {
        lemma_print_without_scroll(s, k - 1);
        assert(s.take(k).drop_last() =~= s.take(k - 1));
        assert(partly_printed(s, k - 1).update(k - 1, (s[k - 1], CGA_STD_ATTR)) =~= partly_printed(
            s,
            k,
        ));
    } else {
        assert(partly_printed(s, 0) =~= blank_page());
    }
}

/// Printing a full page of bytes onto a blank page with the cursor at (0, 0)
/// scrolls once: the cursor ends at the start of the last row, which is
/// blank, and every earlier row holds the printed bytes shifted up by one row,
/// so the row above the last holds the last `COLUMNS` bytes printed.
pub proof fn full_page_print_scrolls_once(s: Seq<u8>)
    requires
        s.len() == CGA_CELLS,
    ensures
        printed_all(blank_page(), 0, s).1 == offset_of(0, CGA_ROWS - 1),
        forall|i: int|
            0 <= i < offset_of(0, CGA_ROWS - 1) ==> #[trigger] printed_all(blank_page(), 0, s).0[i]
                == (s[i + CGA_COLUMNS], CGA_STD_ATTR),
        forall|i: int|
            offset_of(0, CGA_ROWS - 1) <= i < CGA_CELLS ==> #[trigger] printed_all(
                blank_page(),
                0,
                s,
            ).0[i] == blank_cell(),
        printed_all(blank_page(), 0, s).0.len() == CGA_CELLS,
{
    lemma_print_without_scroll(s, CGA_CELLS - 1);
    assert(s.drop_last() =~= s.take(CGA_CELLS - 1));
    assert(s.take(CGA_CELLS as int) =~= s);
}

} // verus!
