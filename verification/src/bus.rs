//! The memory bus: a flat 64 KiB byte-addressable space with little-endian
//! word access, two fixed vectors, and two memory-mapped regions (a 32x32
//! framebuffer window and an input-state byte) shared with the host between
//! instruction steps.

use vstd::prelude::*;

verus! {

/// Size of the address space: the bus covers the full 16-bit range, so every
/// address a 16-bit program counter can hold is in range.
pub const MEM_SIZE: usize = 0x10000;

/// Little-endian reset vector; `load` records the program's start address here.
pub const RESET_VECTOR: u16 = 0xfffc;

/// Little-endian interrupt vector; `BRK` loads `pc` from here.
pub const IRQ_VECTOR: u16 = 0xfffe;

/// First byte of the memory-mapped framebuffer window.
pub const FRAMEBUFFER_START: u16 = 0x0200;

/// Pixel count of the framebuffer window (32 x 32).
pub const FRAMEBUFFER_PIXELS: usize = 1024;

/// The memory-mapped input-state byte, written by the host between steps and
/// read by program code through ordinary loads.
pub const INPUT_STATE: u16 = 0x00ff;

/// The 16-bit word stored little-endian at `addr`; the second byte's address
/// wraps around the top of the address space per 6502 convention.
pub open spec fn word_at(mem: Seq<u8>, addr: u16) -> u16 {
    (mem[addr as int] + mem[addr.wrapping_add(1) as int] * 0x100) as u16
}

/// Memory after storing `word` little-endian at `addr`, the second byte's
/// address wrapping around the top of the address space.
pub open spec fn word_written(mem: Seq<u8>, addr: u16, word: u16) -> Seq<u8> {
    mem.update(addr as int, (word % 0x100) as u8).update(
        addr.wrapping_add(1) as int,
        (word / 0x100) as u8,
    )
}

/// The packed RGBA value of framebuffer pixel `i`: four consecutive bytes of
/// the framebuffer window read big-endian (red, green, blue, alpha).
pub open spec fn pixel_at(mem: Seq<u8>, i: int) -> u32 {
    (mem[FRAMEBUFFER_START + 4 * i] * 0x1000000 + mem[FRAMEBUFFER_START + 4 * i + 1] * 0x10000
        + mem[FRAMEBUFFER_START + 4 * i + 2] * 0x100 + mem[FRAMEBUFFER_START + 4 * i + 3]) as u32
}

/// The memory bus. Owns the full memory array exclusively; its view is the
/// sequence of all `MEM_SIZE` bytes.
pub struct Bus {
    mem: Vec<u8>,
}

impl View for Bus {
    type V = Seq<u8>;

    closed spec fn view(&self) -> Seq<u8> {
        self.mem@
    }
}

impl Bus {
    /// Well-formed bus: the memory array covers the whole address space, so
    /// in-range accesses can never fail at run time.
    pub open spec fn wf(&self) -> bool {
        self@.len() == MEM_SIZE
    }

    /// A bus with every byte zeroed.
    pub fn new() -> (r: Bus)
        ensures
            r.wf(),
            r@ == Seq::new(MEM_SIZE as nat, |i: int| 0u8),
    {
        let mut mem: Vec<u8> = Vec::new();
        while mem.len() < MEM_SIZE
            invariant
                mem@.len() <= MEM_SIZE,
                forall|i: int| 0 <= i < mem@.len() ==> mem@[i] == 0u8,
            decreases MEM_SIZE - mem.len(),
        {
            mem.push(0u8);
        }
        proof {
            assert(mem@ =~= Seq::new(MEM_SIZE as nat, |i: int| 0u8));
        }
        Bus { mem }
    }

    /// Read the byte at `addr`.
    pub fn read(&self, addr: u16) -> (r: u8)
        requires
            self.wf(),
        ensures
            r == self@[addr as int],
    {
        self.mem[addr as usize]
    }

    /// Write `byte` at `addr`.
    pub fn write(&mut self, addr: u16, byte: u8)
        requires
            old(self).wf(),
        ensures
            final(self).wf(),
            final(self)@ == old(self)@.update(addr as int, byte),
    {
        self.mem[addr as usize] = byte;
    }

    /// Read the little-endian 16-bit word at `addr`; the high byte comes from
    /// `addr + 1` with wraparound at the top of the address space.
    pub fn read_u16(&self, addr: u16) -> (r: u16)
        requires
            self.wf(),
        ensures
            r == word_at(self@, addr),
    {
        let lo = self.read(addr);
        let hi = self.read(addr.wrapping_add(1));
        lo as u16 + hi as u16 * 0x100
    }

    /// Store `word` little-endian at `addr`; the high byte goes to `addr + 1`
    /// with wraparound at the top of the address space.
    pub fn write_u16(&mut self, addr: u16, word: u16)
        requires
            old(self).wf(),
        ensures
            final(self).wf(),
            final(self)@ == word_written(old(self)@, addr, word),
    {
        self.write(addr, (word % 0x100) as u8);
        self.write(addr.wrapping_add(1), (word / 0x100) as u8);
    }

    /// The framebuffer window as packed big-endian RGBA pixels, read directly
    /// from the memory-mapped region. Side-effect-free; callable any number of
    /// times between steps.
    pub fn framebuffer(&self) -> (r: Vec<u32>)
        requires
            self.wf(),
        ensures
            r@.len() == FRAMEBUFFER_PIXELS,
            forall|i: int| 0 <= i < FRAMEBUFFER_PIXELS ==> r@[i] == pixel_at(self@, i),
    {
        let mut pixels: Vec<u32> = Vec::new();
        let mut i: usize = 0;
        while i < FRAMEBUFFER_PIXELS
            invariant
                self.wf(),
                i <= FRAMEBUFFER_PIXELS,
                pixels@.len() == i,
                forall|j: int| 0 <= j < i ==> pixels@[j] == pixel_at(self@, j),
            decreases FRAMEBUFFER_PIXELS - i,
        {
            let base = FRAMEBUFFER_START as usize + 4 * i;
            let px = self.mem[base] as u32 * 0x1000000 + self.mem[base + 1] as u32 * 0x10000
                + self.mem[base + 2] as u32 * 0x100 + self.mem[base + 3] as u32;
            pixels.push(px);
            i = i + 1;
        }
        pixels
    }

    /// Write the memory-mapped input-state byte.
    pub fn set_input_state(&mut self, byte: u8)
        requires
            old(self).wf(),
        ensures
            final(self).wf(),
            final(self)@ == old(self)@.update(INPUT_STATE as int, byte),
    {
        self.write(INPUT_STATE, byte);
    }
}

} // verus!
