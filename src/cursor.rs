use vstd::prelude::*;

verus! {

/// Index of the register that holds the cursor offset's high byte.
pub const CGA_HIGH_BYTE_CMD: u8 = 14;

/// Index of the register that holds the cursor offset's low byte.
pub const CGA_LOW_BYTE_CMD: u8 = 15;

/// The two cursor registers of the display controller, reached through an
/// index port (which selects a register) and a data port (which transfers
/// its value).
pub struct CursorRegister {
    selected: u8,
    high: u8,
    low: u8,
}

impl CursorRegister {
    /// The selected register is one of the two cursor registers.
    pub closed spec fn wf(&self) -> bool {
        self.selected == CGA_HIGH_BYTE_CMD || self.selected == CGA_LOW_BYTE_CMD
    }

    /// The 16-bit linear offset that the two registers hold.
    pub closed spec fn offset(&self) -> nat {
        self.high as nat * 256 + self.low as nat
    }

    /// Registers that hold offset 0.
    pub fn new() -> (r: CursorRegister)
        ensures
            r.wf(),
            r.offset() == 0,
    {
        CursorRegister { selected: CGA_HIGH_BYTE_CMD, high: 0, low: 0 }
    }

    /// A byte sent to the index port: selects the register `cmd`.
    fn select(&mut self, cmd: u8)
        requires
            cmd == CGA_HIGH_BYTE_CMD || cmd == CGA_LOW_BYTE_CMD,
        ensures
            final(self).selected == cmd,
            final(self).high == old(self).high,
            final(self).low == old(self).low,
    {
        self.selected = cmd;
    }

    /// A byte sent to the data port: stored in the selected register.
    fn send(&mut self, b: u8)
        requires
            old(self).wf(),
        ensures
            final(self).selected == old(self).selected,
            old(self).selected == CGA_HIGH_BYTE_CMD ==> final(self).high == b && final(self).low
                == old(self).low,
            old(self).selected == CGA_LOW_BYTE_CMD ==> final(self).low == b && final(self).high
                == old(self).high,
    {
        if self.selected == CGA_HIGH_BYTE_CMD {
            self.high = b;
        } else {
            self.low = b;
        }
    }

    /// A byte read from the data port: the selected register's value.
    fn receive(&self) -> (r: u8)
        requires
            self.wf(),
        ensures
            self.selected == CGA_HIGH_BYTE_CMD ==> r == self.high,
            self.selected == CGA_LOW_BYTE_CMD ==> r == self.low,
    {
        if self.selected == CGA_HIGH_BYTE_CMD {
            self.high
        } else {
            self.low
        }
    }

    /// Reads the linear offset: high byte first, then low byte, each by
    /// selecting its register and reading the data port.
    pub fn read(&mut self) -> (r: u16)
        requires
            old(self).wf(),
        ensures
            final(self).wf(),
            r as nat == old(self).offset(),
            final(self).offset() == old(self).offset(),
    {
        self.select(CGA_HIGH_BYTE_CMD);
        let high = self.receive();
        let mut pos: u16 = (high as u16) << 8;
        self.select(CGA_LOW_BYTE_CMD);
        let low = self.receive();
        pos = pos | (low as u16);
        assert(((high as u16) << 8) | (low as u16) == high as u16 * 256 + low as u16)
            by (bit_vector);
        pos
    }

    /// Writes the linear offset: high byte first, then low byte.
    pub fn write(&mut self, offset: u16)
        requires
            old(self).wf(),
        ensures
            final(self).wf(),
            final(self).offset() == offset as nat,
    {
        let high_byte = (offset >> 8) as u8;
        let low_byte = (offset & 0xFF) as u8;
        assert(((offset >> 8) as u8) as u16 * 256 + ((offset & 0xFF) as u8) as u16 == offset)
            by (bit_vector);
        self.select(CGA_HIGH_BYTE_CMD);
        self.send(high_byte);
        self.select(CGA_LOW_BYTE_CMD);
        self.send(low_byte);
    }
}

} // verus!
