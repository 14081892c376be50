use vstd::prelude::*;

verus! {

/// Number of character columns of the text page.
pub const CGA_COLUMNS: usize = 80;

/// Number of character rows of the text page.
pub const CGA_ROWS: usize = 25;

/// Number of cells of the text page.
pub const CGA_CELLS: usize = 2000;

/// Number of bytes of the frame buffer: a character and an attribute per cell.
pub const CGA_BUFFER_BYTES: usize = 4000;

/// Whether (x, y) names a cell of the page.
pub open spec fn in_range(x: int, y: int) -> bool {
    0 <= x < CGA_COLUMNS && 0 <= y < CGA_ROWS
}

/// The linear offset of the cell (x, y): `y * COLUMNS + x`.
pub open spec fn offset_of(x: int, y: int) -> int {
    y * CGA_COLUMNS + x
}

/// The page after writing `cell` at (x, y): coordinates off the page leave it
/// as it is.
pub open spec fn placed(cells: Seq<(u8, u8)>, x: int, y: int, cell: (u8, u8)) -> Seq<(u8, u8)> {
    if in_range(x, y) {
        cells.update(offset_of(x, y), cell)
    } else {
        cells
    }
}

/// The character grid's memory: cell `i` is the character at byte `2 * i`
/// and the attribute at byte `2 * i + 1`.
pub struct FrameBuffer {
    mem: Vec<u8>,
}

impl View for FrameBuffer {
    type V = Seq<(u8, u8)>;

    closed spec fn view(&self) -> Seq<(u8, u8)> {
        Seq::new(CGA_CELLS as nat, |i: int| (self.mem@[2 * i], self.mem@[2 * i + 1]))
    }
}

impl FrameBuffer {
    /// The memory spans exactly the page.
    pub closed spec fn wf(&self) -> bool {
        self.mem@.len() == CGA_BUFFER_BYTES
    }

    /// A frame buffer whose bytes are all zero.
    pub fn new() -> (r: FrameBuffer)
        ensures
            r.wf(),
            r@ == Seq::new(CGA_CELLS as nat, |i: int| (0u8, 0u8)),
    {
        let mut mem: Vec<u8> = Vec::new();
        while mem.len() < CGA_BUFFER_BYTES
            invariant
                mem@.len() <= CGA_BUFFER_BYTES,
                forall|k: int| 0 <= k < mem@.len() ==> mem@[k] == 0u8,
            decreases CGA_BUFFER_BYTES - mem@.len(),
        {
            mem.push(0u8);
        }
        let r = FrameBuffer { mem };
        assert(r@ =~= Seq::new(CGA_CELLS as nat, |i: int| (0u8, 0u8)));
        r
    }

    /// Writes `character` then `attribute` into the cell (x, y); a silent
    /// no-op where (x, y) is off the page.
    pub fn write_cell(&mut self, x: usize, y: usize, character: u8, attribute: u8)
        requires
            old(self).wf(),
        ensures
            final(self).wf(),
            final(self)@ == placed(old(self)@, x as int, y as int, (character, attribute)),
    {
        if x >= CGA_COLUMNS || y >= CGA_ROWS {
            return;
        }
        let pos = (y * CGA_COLUMNS + x) * 2;
        self.mem.set(pos, character);
        self.mem.set(pos + 1, attribute);
        assert(self@ =~= old(self)@.update(offset_of(x as int, y as int), (character, attribute)));
    }

    /// The (character, attribute) of the cell (x, y).
    pub fn read_cell(&self, x: usize, y: usize) -> (r: (u8, u8))
        requires
            self.wf(),
            in_range(x as int, y as int),
        ensures
            r == self@[offset_of(x as int, y as int)],
    {
        let pos = (y * CGA_COLUMNS + x) * 2;
        (self.mem[pos], self.mem[pos + 1])
    }
}

} // verus!
