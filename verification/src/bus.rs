use vstd::prelude::*;
use crate::buffer::{zeroed, zeros};
use crate::joypad::{Joypad, JoypadState};
use crate::ppu::{Ppu, PpuState};
use crate::rom_loader::RomLoader;

verus! {

/// Size of the console's internal RAM.
pub const RAM_SIZE: usize = 0x0800;
/// Last address of the internal RAM and its mirrors.
pub const RAM_MIRRORS_END: u16 = 0x1FFF;
/// Last address of the PPU registers and their mirrors.
pub const PPU_REGISTERS_MIRRORS_END: u16 = 0x3FFF;

/// An access with no defined meaning: a PPUDATA read of pattern data the
/// cartridge lacks (`addr` is then the PPU address), or a read of cartridge
/// space, directly or by OAM DMA, when the cartridge has no PRG ROM (`addr`
/// is then the CPU address read).
#[derive(Clone, Copy, Debug, PartialEq, Eq, Structural)]
pub struct BusFault {
    pub addr: u16,
}

/// The CPU's view of the machine: internal RAM, cartridge PRG ROM, the PPU
/// registers and controller 1.
pub struct Bus {
    pub cpu_vram: Vec<u8>,
    pub prg_rom: Vec<u8>,
    pub ppu: Ppu,
    pub cycles: usize,
    pub joypad1: Joypad,
}

/// Mathematical value of the bus. `fault` marks a state reached through an
/// access with no defined meaning; every later access leaves it as it is.
pub struct BusState {
    pub ram: Seq<u8>,
    pub prg_rom: Seq<u8>,
    pub ppu: PpuState,
    pub cycles: usize,
    pub joypad: JoypadState,
    pub fault: bool,
}

impl View for Bus {
    type V = BusState;

    open spec fn view(&self) -> BusState {
        BusState {
            ram: self.cpu_vram@,
            prg_rom: self.prg_rom@,
            ppu: self.ppu@,
            cycles: self.cycles,
            joypad: self.joypad1@,
            fault: false,
        }
    }
}

/// The register a CPU address in $2000-$3FFF selects: the eight PPU
/// registers repeat every 8 bytes.
pub open spec fn ppu_register(addr: u16) -> u16 {
    (0x2000 + addr % 8) as u16
}

/// The address a write acts on: PPU register mirrors fold onto $2000-$2007.
pub open spec fn write_target(addr: u16) -> u16 {
    if 0x2008 <= addr <= PPU_REGISTERS_MIRRORS_END {
        ppu_register(addr)
    } else {
        addr
    }
}

impl BusState {
    /// The PPU's position within its frame is the same in both states.
    pub open spec fn same_clock(self, other: BusState) -> bool {
        self.ppu.scanline == other.ppu.scanline && self.ppu.cycles == other.ppu.cycles
    }

    pub open spec fn wf(self) -> bool {
        &&& self.ram.len() == RAM_SIZE
        &&& (self.prg_rom.len() == 0 || self.prg_rom.len() == 0x4000 || self.prg_rom.len() >= 0x8000)
        &&& self.ppu.wf()
        &&& self.joypad.wf()
    }

    /// Index into PRG ROM for a CPU address in $8000-$FFFF; a single 16KB
    /// bank is mirrored into both halves.
    pub open spec fn prg_index(self, addr: int) -> int {
        let a = addr - 0x8000;
        if self.prg_rom.len() == 0x4000 && a >= 0x4000 {
            a % 0x4000
        } else {
            a
        }
    }

    pub open spec fn read_faults(self, addr: u16) -> bool {
        ||| (0x2000 <= addr <= PPU_REGISTERS_MIRRORS_END && ppu_register(addr) == 0x2007
            && self.ppu.read_data_faults())
        ||| (addr >= 0x8000 && self.prg_rom.len() == 0)
    }

    /// The address a faulting read of `addr` reports.
    pub open spec fn read_fault_addr(self, addr: u16) -> u16 {
        if addr >= 0x8000 {
            addr
        } else {
            self.ppu.addr.get()
        }
    }

    /// A CPU read: the new bus state (PPU and controller reads have side
    /// effects) and the byte read.
    pub open spec fn read(self, addr: u16) -> (BusState, u8) {
        if self.fault {
            (self, 0)
        } else if addr >= 0x8000 {
            if self.prg_rom.len() == 0 {
                (BusState { fault: true, ..self }, 0)
            } else {
                (self, self.prg_rom[self.prg_index(addr as int)])
            }
        } else if 0x2000 <= addr <= PPU_REGISTERS_MIRRORS_END {
            let r = ppu_register(addr);
            if r == 0x2002 {
                (BusState { ppu: self.ppu.read_status().0, ..self }, self.ppu.read_status().1)
            } else if r == 0x2004 {
                (self, self.ppu.read_oam_data())
            } else if r == 0x2007 {
                if self.ppu.read_data_faults() {
                    (BusState { fault: true, ..self }, 0)
                } else {
                    (BusState { ppu: self.ppu.read_data().0, ..self }, self.ppu.read_data().1)
                }
            } else {
                (self, 0)
            }
        } else if addr <= RAM_MIRRORS_END {
            (self, self.ram[(addr % 0x800) as int])
        } else if addr == 0x4016 {
            (BusState { joypad: self.joypad.read_next(), ..self }, self.joypad.read_value())
        } else {
            (self, 0)
        }
    }

    /// Little-endian 16-bit read of `addr` and the byte after it.
    pub open spec fn read_u16(self, addr: u16) -> (BusState, u16) {
        let (b1, lo) = self.read(addr);
        let (b2, hi) = b1.read(addr.wrapping_add(1));
        (b2, (hi * 256 + lo) as u16)
    }

    /// Byte that OAM DMA copies from CPU address `a`: PRG ROM or RAM, and 0
    /// elsewhere.
    pub open spec fn dma_byte(self, a: int) -> u8 {
        if a >= 0x8000 {
            self.prg_rom[self.prg_index(a)]
        } else if a <= RAM_MIRRORS_END {
            self.ram[a % 0x800]
        } else {
            0
        }
    }

    pub open spec fn write_faults(self, addr: u16, data: u8) -> bool {
        write_target(addr) == 0x4014 && data >= 0x80 && self.prg_rom.len() == 0
    }

    /// The address a faulting write of `data` reports: the first byte of
    /// the DMA page.
    pub open spec fn write_fault_addr(self, addr: u16, data: u8) -> u16 {
        (data * 256) as u16
    }

    /// A CPU write: RAM (mirrored every 2KB), the PPU registers (mirrored
    /// every 8 bytes), OAM DMA at $4014 and the controller strobe at $4016.
    /// Writes anywhere else are ignored.
    pub open spec fn write(self, addr: u16, data: u8) -> BusState {
        let t = write_target(addr);
        if self.fault {
            self
        } else if t <= RAM_MIRRORS_END {
            BusState { ram: self.ram.update((t % 0x800) as int, data), ..self }
        } else if t == 0x2000 {
            BusState { ppu: self.ppu.write_control(data), ..self }
        } else if t == 0x2001 {
            BusState { ppu: PpuState { mask: data, ..self.ppu }, ..self }
        } else if t == 0x2003 {
            BusState { ppu: PpuState { oam_addr: data, ..self.ppu }, ..self }
        } else if t == 0x2004 {
            BusState { ppu: self.ppu.write_oam_data(data), ..self }
        } else if t == 0x2005 {
            BusState { ppu: PpuState { scroll: self.ppu.scroll.write(data), ..self.ppu }, ..self }
        } else if t == 0x2006 {
            BusState { ppu: PpuState { addr: self.ppu.addr.update(data), ..self.ppu }, ..self }
        } else if t == 0x2007 {
            BusState { ppu: self.ppu.write_data(data), ..self }
        } else if t == 0x4014 && data >= 0x80 && self.prg_rom.len() == 0 {
            BusState { fault: true, ..self }
        } else if t == 0x4014 {
            BusState {
                ppu: PpuState {
                    oam_data: Seq::new(256, |i: int| self.dma_byte(data * 256 + i)),
                    ..self.ppu
                },
                ..self
            }
        } else if t == 0x4016 {
            BusState { joypad: self.joypad.write(data), ..self }
        } else {
            self
        }
    }

    /// Advances the machine by `c` CPU cycles (three PPU cycles each); the
    /// boolean tells whether the PPU finished a frame.
    pub open spec fn tick(self, c: u8) -> (BusState, bool) {
        if self.fault {
            (self, false)
        } else {
            let (p, f) = self.ppu.tick((c * 3) as u8);
            (BusState { cycles: self.cycles.wrapping_add(c as usize), ppu: p, ..self }, f)
        }
    }
}

impl Bus {
    /// A bus for a loaded cartridge, with cleared RAM.
    pub fn new(rom: RomLoader) -> (b: Bus)
        requires
            rom.wf(),
        ensures
            b@.wf(),
            b@.ram == zeros(RAM_SIZE as nat),
            b@.prg_rom == rom.prg_rom@,
            b@.ppu == Ppu::new_state(rom.vertical_mirroring, rom.chr_rom@),
            b@.cycles == 0,
            b@.joypad == (JoypadState { strobe: false, button_index: 0, button_status: 0 }),
    {
        let RomLoader { prg_rom, chr_rom, vertical_mirroring, .. } = rom;
        let ppu = Ppu::new(vertical_mirroring, chr_rom);
        Bus { cpu_vram: zeroed(RAM_SIZE), prg_rom, ppu, cycles: 0, joypad1: Joypad::new() }
    }

    pub fn read_u16(&mut self, addr: u16) -> (r: u16)
        requires
            old(self)@.wf(),
            !old(self)@.read_faults(addr),
            !old(self)@.read(addr).0.read_faults(addr.wrapping_add(1)),
        ensures
            final(self)@.same_clock(old(self)@),
            final(self)@.wf(),
            (final(self)@, r) == old(self)@.read_u16(addr),
    {
        let lo = self.read(addr) as u16;
        let hi = self.read(addr.wrapping_add(1)) as u16;
        proof {
            assert((hi << 8u16) | lo == hi * 256 + lo) by (bit_vector)
                requires hi < 256, lo < 256;
        }
        (hi << 8) | lo
    }

    pub fn read(&mut self, addr: u16) -> (r: u8)
        requires
            old(self)@.wf(),
            !old(self)@.read_faults(addr),
        ensures
            final(self)@.same_clock(old(self)@),
            final(self)@.wf(),
            (final(self)@, r) == old(self)@.read(addr),
    {
        if addr >= 0x8000 {
            let mut a = addr - 0x8000;
            if self.prg_rom.len() == 0x4000 && a >= 0x4000 {
                a = a % 0x4000;
            }
            return self.prg_rom[a as usize];
        }
        if addr >= 0x2000 && addr <= PPU_REGISTERS_MIRRORS_END {
            let mirror_addr = 0x2000 + (addr % 8);
            if mirror_addr == 0x2002 {
                self.ppu.read_status()
            } else if mirror_addr == 0x2004 {
                self.ppu.read_oam_data()
            } else if mirror_addr == 0x2007 {
                self.ppu.read_data()
            } else {
                0
            }
        } else if addr <= RAM_MIRRORS_END {
            self.cpu_vram[(addr % 0x0800) as usize]
        } else if addr == 0x4016 {
            self.joypad1.read()
        } else {
            0
        }
    }

    /// Whether a read of `addr` would be an access with no defined meaning.
    pub fn read_faults(&self, addr: u16) -> (r: bool)
        requires
            self@.wf(),
        ensures
            r == self@.read_faults(addr),
    {
        (addr >= 0x2000 && addr <= PPU_REGISTERS_MIRRORS_END && 0x2000 + (addr % 8) == 0x2007
            && self.ppu.read_data_faults()) || (addr >= 0x8000 && self.prg_rom.len() == 0)
    }

    /// A read that reports, instead of performing, an access with no defined
    /// meaning.
    pub fn try_read(&mut self, addr: u16) -> (r: Result<u8, BusFault>)
        requires
            old(self)@.wf(),
        ensures
            final(self)@.same_clock(old(self)@),
            final(self)@.wf(),
            match r {
                Ok(v) => (final(self)@, v) == old(self)@.read(addr),
                Err(e) => old(self)@.read(addr).0.fault && e.addr == old(self)@.read_fault_addr(addr)
                    && final(self)@ == old(self)@,
            },
    {
        if self.read_faults(addr) {
            Err(BusFault { addr: if addr >= 0x8000 { addr } else { self.ppu.addr.get() } })
        } else {
            Ok(self.read(addr))
        }
    }

    fn write_register(&mut self, reg: u16, data: u8)
        requires
            old(self)@.wf(),
            0x2000 <= reg <= 0x2007,
        ensures
            final(self)@.same_clock(old(self)@),
            final(self)@.wf(),
            final(self)@ == old(self)@.write(reg, data),
    {
        if reg == 0x2000 {
            self.ppu.write_control(data);
        } else if reg == 0x2001 {
            self.ppu.write_mask(data);
        } else if reg == 0x2003 {
            self.ppu.write_oam_addr(data);
        } else if reg == 0x2004 {
            self.ppu.write_oam_data(data);
        } else if reg == 0x2005 {
            self.ppu.write_scroll(data);
        } else if reg == 0x2006 {
            self.ppu.write_to_ppu_addr(data);
        } else if reg == 0x2007 {
            self.ppu.write_to_data(data);
        }
    }

    fn oam_dma(&mut self, data: u8)
        requires
            old(self)@.wf(),
            !(data >= 0x80 && old(self)@.prg_rom.len() == 0),
        ensures
            final(self)@.same_clock(old(self)@),
            final(self)@.wf(),
            final(self)@ == old(self)@.write(0x4014, data),
    {
        let ghost b0 = self@;
        let page = (data as u16) << 8u16;
        assert(page == data * 256) by (bit_vector)
            requires page == (data as u16) << 8u16;
        let mut i: u16 = 0;
        while i < 256
            invariant
                0 <= i <= 256,
                page == data * 256,
                data >= 0x80 ==> self.prg_rom.len() > 0,
                self@.wf(),
                self@ == (BusState {
                    ppu: PpuState { oam_data: self@.ppu.oam_data, ..b0.ppu },
                    ..b0
                }),
                forall|k: int| 0 <= k < i ==> self@.ppu.oam_data[k] == b0.dma_byte(page + k),
            decreases 256 - i,
        {
            let a = page + i;
            let byte = if a >= 0x8000 {
                let mut idx = a - 0x8000;
                if self.prg_rom.len() == 0x4000 && idx >= 0x4000 {
                    idx = idx % 0x4000;
                }
                self.prg_rom[idx as usize]
            } else if a <= RAM_MIRRORS_END {
                self.cpu_vram[(a % 0x0800) as usize]
            } else {
                0
            };
            self.ppu.oam_data.set(i as usize, byte);
            i = i + 1;
        }
        assert(self@.ppu.oam_data =~= Seq::new(256, |k: int| b0.dma_byte(data * 256 + k)));
    }

    pub fn write(&mut self, addr: u16, data: u8)
        requires
            old(self)@.wf(),
            !old(self)@.write_faults(addr, data),
        ensures
            final(self)@.same_clock(old(self)@),
            final(self)@.wf(),
            final(self)@ == old(self)@.write(addr, data),
    {
        if addr <= RAM_MIRRORS_END {
            let mirror_down_addr = addr & 0b11111111111;
            assert(addr & 0b11111111111 == addr % 0x800) by (bit_vector);
            self.cpu_vram.set(mirror_down_addr as usize, data);
        } else if addr <= 0x2007 {
            self.write_register(addr, data);
        } else if addr == 0x4014 {
            self.oam_dma(data);
        } else if addr == 0x4016 {
            self.joypad1.write(data);
        } else if addr <= PPU_REGISTERS_MIRRORS_END {
            let mirror_down_addr = addr & 0b00100000_00000111;
            assert(0x2008 <= addr <= 0x3fff ==> addr & 0b00100000_00000111 == 0x2000 + addr % 8)
                by (bit_vector);
            self.write_register(mirror_down_addr, data);
        }
    }

    /// A write that reports, instead of performing, an access with no defined
    /// meaning.
    pub fn try_write(&mut self, addr: u16, data: u8) -> (r: Result<(), BusFault>)
        requires
            old(self)@.wf(),
        ensures
            final(self)@.same_clock(old(self)@),
            final(self)@.wf(),
            match r {
                Ok(_) => final(self)@ == old(self)@.write(addr, data),
                Err(e) => old(self)@.write(addr, data).fault && e.addr == old(self)@.write_fault_addr(
                    addr,
                    data,
                ) && final(self)@ == old(self)@,
            },
    {
        let t = if addr >= 0x2008 && addr <= PPU_REGISTERS_MIRRORS_END {
            0x2000 + addr % 8
        } else {
            addr
        };
        if t == 0x4014 && data >= 0x80 && self.prg_rom.len() == 0 {
            Err(BusFault { addr: (data as u16) * 256 })
        } else {
            self.write(addr, data);
            Ok(())
        }
    }

    /// Advances the machine by `cycles` CPU cycles; returns whether the PPU
    /// finished a frame.
    pub fn tick(&mut self, cycles: u8) -> (new_frame: bool)
        requires
            old(self)@.wf(),
            cycles <= 85,
        ensures
            final(self)@.wf(),
            (final(self)@, new_frame) == old(self)@.tick(cycles),
    {
        self.cycles = self.cycles.wrapping_add(cycles as usize);
        self.ppu.tick(cycles * 3)
    }

    /// Takes a pending NMI: `Some` when one was raised, which is then cleared.
    pub fn poll_nmi_status(&mut self) -> (r: Option<()>)
        ensures
            final(self)@.same_clock(old(self)@),
            r.is_some() == old(self)@.ppu.nmi_interrupt.is_some(),
            final(self)@ == (BusState {
                ppu: PpuState { nmi_interrupt: None, ..old(self)@.ppu },
                ..old(self)@
            }),
    {
        if self.ppu.nmi_interrupt.is_some() {
            self.ppu.nmi_interrupt = None;
            Some(())
        } else {
            None
        }
    }
}

} // verus!
