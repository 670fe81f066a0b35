//! The CPU's view of the console address space.
//!
//! `0x0000..=0x1FFF` holds 2 KiB of work RAM mirrored four times,
//! `0x2000..=0x3FFF` the eight picture-unit registers, mirrored, and
//! `0x4020..=0xFFFF` the cartridge space, backed here by a flat image that
//! holds program code and the interrupt vectors. The audio, I/O and
//! test-mode registers in between are not modelled: accessing them yields a
//! `BusError` naming the region.
use vstd::prelude::*;

verus! {

/// Size of the cartridge space `0x4020..=0xFFFF`.
pub const CARTRIDGE_SIZE: usize = 0xBFE0;

/// A region of the address space that no device backs yet.
#[derive(Clone, Copy, Debug, PartialEq, Eq, Structural)]
pub enum BusError {
    /// `0x4000..=0x4017`: audio and I/O registers.
    ApuIo,
    /// `0x4018..=0x401F`: CPU test-mode registers.
    TestMode,
}

/// Contents of the bus: work RAM, picture-unit registers and cartridge space.
pub struct MemoryView {
    pub work: Seq<u8>,
    pub ppu: Seq<u8>,
    pub cartridge: Seq<u8>,
}

/// Whether `address` lies in a backed region.
pub open spec fn mapped(address: u16) -> bool {
    address < 0x4000 || address >= 0x4020
}

/// The error raised when accessing an unbacked `address`.
pub open spec fn region_error(address: u16) -> BusError {
    if address < 0x4018 {
        BusError::ApuIo
    } else {
        BusError::TestMode
    }
}

/// The byte held at a backed `address`, mirrors folded.
pub open spec fn peek(m: MemoryView, address: u16) -> u8 {
    if address < 0x2000 {
        m.work[address as int % 2048]
    } else if address < 0x4000 {
        m.ppu[address as int % 8]
    } else {
        m.cartridge[address - 0x4020]
    }
}

/// The contents after storing `value` at a backed `address`.
pub open spec fn poke(m: MemoryView, address: u16, value: u8) -> MemoryView {
    if address < 0x2000 {
        MemoryView { work: m.work.update(address as int % 2048, value), ..m }
    } else if address < 0x4000 {
        MemoryView { ppu: m.ppu.update(address as int % 8, value), ..m }
    } else {
        MemoryView { cartridge: m.cartridge.update(address - 0x4020, value), ..m }
    }
}

/// What a read of `address` yields.
pub open spec fn bus_read(m: MemoryView, address: u16) -> Result<u8, BusError> {
    if mapped(address) {
        Ok(peek(m, address))
    } else {
        Err(region_error(address))
    }
}

/// What a write of `value` to `address` leaves, or the error it raises.
pub open spec fn bus_write(m: MemoryView, address: u16, value: u8) -> Result<MemoryView, BusError> {
    if mapped(address) {
        Ok(poke(m, address, value))
    } else {
        Err(region_error(address))
    }
}

pub open spec fn view_wf(m: MemoryView) -> bool {
    m.work.len() == 2048 && m.ppu.len() == 8 && m.cartridge.len() == CARTRIDGE_SIZE
}

pub struct CpuMemory {
    work_memory: Vec<u8>,
    ppu_ctrl: Vec<u8>,
    cartridge: Vec<u8>,
}

impl View for CpuMemory {
    type V = MemoryView;

    closed spec fn view(&self) -> MemoryView {
        MemoryView { work: self.work_memory@, ppu: self.ppu_ctrl@, cartridge: self.cartridge@ }
    }
}

fn region_of(address: u16) -> (r: BusError)
    requires
        !mapped(address),
    ensures
        r == region_error(address),
{
    if address <= 0x4017 {
        BusError::ApuIo
    } else {
        BusError::TestMode
    }
}

impl CpuMemory {
    pub open spec fn wf(&self) -> bool {
        view_wf(self@)
    }

    /// Power-up contents: every backed byte is zero.
    pub fn new() -> (r: CpuMemory)
        ensures
            r.wf(),
            forall|a: u16| mapped(a) ==> #[trigger] peek(r@, a) == 0,
    {
        let r = CpuMemory {
            work_memory: vec![0u8; 2048],
            ppu_ctrl: vec![0u8; 8],
            cartridge: vec![0u8; CARTRIDGE_SIZE],
        };
        r
    }

    /// Reads the byte at `address`.
    pub fn read(&self, address: u16) -> (r: Result<u8, BusError>)
        requires
            self.wf(),
        ensures
            r == bus_read(self@, address),
    {
        if address <= 0x1FFF {
            Ok(self.work_memory[(address % 2048) as usize])
        } else if address <= 0x3FFF {
            Ok(self.ppu_ctrl[(address % 8) as usize])
        } else if address >= 0x4020 {
            Ok(self.cartridge[(address - 0x4020) as usize])
        } else {
            Err(region_of(address))
        }
    }

    /// Writes `value` at `address`; an unbacked address leaves the bus as it was.
    pub fn write(&mut self, address: u16, value: u8) -> (r: Result<(), BusError>)
        requires
            old(self).wf(),
        ensures
            final(self).wf(),
            match bus_write(old(self)@, address, value) {
                Ok(m) => r == Ok::<(), BusError>(()) && final(self)@ == m,
                Err(e) => r == Err::<(), BusError>(e) && final(self)@ == old(self)@,
            },
    {
        if address <= 0x1FFF {
            self.work_memory.set((address % 2048) as usize, value);
            Ok(())
        } else if address <= 0x3FFF {
            self.ppu_ctrl.set((address % 8) as usize, value);
            Ok(())
        } else if address >= 0x4020 {
            self.cartridge.set((address - 0x4020) as usize, value);
            Ok(())
        } else {
            Err(region_of(address))
        }
    }
}

} // verus!
