use vstd::prelude::*;
use crate::add_register::{AddrRegister, AddrState};
use crate::buffer::{zeroed, zeros};
use crate::controller_register::{
    spec_generate_vblank_nmi, spec_nametable_addr, spec_vram_addr_increment, ControlRegister,
};
use crate::scroll::{ScrollRegister, ScrollState};
use crate::status::{
    with_bits, StatusRegister, STATUS_SPRITE_ZERO_HIT, STATUS_VBLANK_STARTED,
};

verus! {

/// Width of the PPU's frame buffer in pixels.
pub const SCREEN_WIDTH: usize = 256;
/// Height of the PPU's frame buffer in pixels.
pub const SCREEN_HEIGHT: usize = 240;
/// PPU cycles per scanline.
pub const CYCLES_PER_SCANLINE: usize = 341;
/// Scanline at which vertical blank starts.
pub const VBLANK_SCANLINE: i32 = 241;
/// Scanlines per frame.
pub const SCANLINES_PER_FRAME: i32 = 262;

/// How the two physical name tables fill the four logical ones.
#[derive(Clone, Copy, Debug, PartialEq, Eq, Structural)]
pub enum Mirroring {
    VERTICAL,
    HORIZONTAL,
}

/// The picture processing unit (2C02).
pub struct Ppu {
    pub control: u8,
    pub mask: u8,
    pub oam_addr: u8,
    pub scroll: ScrollRegister,
    pub data: u8,
    pub oam_dma: u8,
    pub internal_data_buf: u8,
    pub ctrl: ControlRegister,
    pub status: StatusRegister,
    pub chr_rom: Vec<u8>,
    pub framebuffer: Vec<u8>,
    pub vram: Vec<u8>,
    pub name_table: Vec<u8>,
    pub palette_table: Vec<u8>,
    pub oam_data: Vec<u8>,
    pub scanline: i32,
    pub cycles: usize,
    pub frame_complete: bool,
    pub addr: AddrRegister,
    pub mirroring: Mirroring,
    pub tile_id: u8,
    pub tile_attrib: u8,
    pub tile_lsb: u8,
    pub tile_msb: u8,
    pub nmi_interrupt: Option<u8>,
    pub latched_nametable_addr: u16,
    pub chr_ram: bool,
}

/// Mathematical value of the PPU.
pub struct PpuState {
    pub control: u8,
    pub mask: u8,
    pub oam_addr: u8,
    pub scroll: ScrollState,
    pub data: u8,
    pub oam_dma: u8,
    pub internal_data_buf: u8,
    pub ctrl: u8,
    pub status: u8,
    pub chr_rom: Seq<u8>,
    pub framebuffer: Seq<u8>,
    pub vram: Seq<u8>,
    pub name_table: Seq<u8>,
    pub palette_table: Seq<u8>,
    pub oam_data: Seq<u8>,
    pub scanline: i32,
    pub cycles: usize,
    pub frame_complete: bool,
    pub addr: AddrState,
    pub mirroring: Mirroring,
    pub tile_id: u8,
    pub tile_attrib: u8,
    pub tile_lsb: u8,
    pub tile_msb: u8,
    pub nmi_interrupt: Option<u8>,
    pub latched_nametable_addr: u16,
    pub chr_ram: bool,
}

impl View for Ppu {
    type V = PpuState;

    open spec fn view(&self) -> PpuState {
        PpuState {
            control: self.control,
            mask: self.mask,
            oam_addr: self.oam_addr,
            scroll: self.scroll@,
            data: self.data,
            oam_dma: self.oam_dma,
            internal_data_buf: self.internal_data_buf,
            ctrl: self.ctrl.bits,
            status: self.status.bits,
            chr_rom: self.chr_rom@,
            framebuffer: self.framebuffer@,
            vram: self.vram@,
            name_table: self.name_table@,
            palette_table: self.palette_table@,
            oam_data: self.oam_data@,
            scanline: self.scanline,
            cycles: self.cycles,
            frame_complete: self.frame_complete,
            addr: self.addr@,
            mirroring: self.mirroring,
            tile_id: self.tile_id,
            tile_attrib: self.tile_attrib,
            tile_lsb: self.tile_lsb,
            tile_msb: self.tile_msb,
            nmi_interrupt: self.nmi_interrupt,
            latched_nametable_addr: self.latched_nametable_addr,
            chr_ram: self.chr_ram,
        }
    }
}

/// Index into the 2KB of name table RAM for a PPU address in $2000-$3EFF:
/// $3000-$3EFF mirrors $2000-$2EFF, and the four logical tables fold onto
/// the two physical ones as the cartridge's mirroring says.
pub open spec fn spec_mirror_vram_addr(mirroring: Mirroring, addr: u16) -> u16 {
    let mirrored_vram = addr & 0x2fff;
    let vram_index = (mirrored_vram - 0x2000) as u16;
    let name_table = vram_index / 0x400;
    match mirroring {
        Mirroring::VERTICAL => if name_table == 2 || name_table == 3 {
            (vram_index - 0x800) as u16
        } else {
            vram_index
        },
        Mirroring::HORIZONTAL => if name_table == 1 || name_table == 2 {
            (vram_index - 0x400) as u16
        } else if name_table == 3 {
            (vram_index - 0x800) as u16
        } else {
            vram_index
        },
    }
}

/// Law: a frame is 262 scanlines of 341 cycles. A tick finishes the frame
/// exactly when it reaches the end of the last scanline; one that does not
/// moves the PPU forward by the cycles given, and one that does carries the
/// cycles past the end into the next frame, which starts at scanline 0.
pub proof fn lemma_tick_advances(s: PpuState, c: u8)
    requires
        s.wf(),
    ensures
        s.tick(c).0.wf(),
        s.cycles + c < CYCLES_PER_SCANLINE ==> s.tick(c) == (PpuState { cycles: (s.cycles + c) as usize, ..s }, false),
        s.tick(c).1 <==> s.frame_position() + c >= SCANLINES_PER_FRAME * CYCLES_PER_SCANLINE,
        !s.tick(c).1 ==> s.tick(c).0.frame_position() == s.frame_position() + c,
        s.tick(c).1 ==> s.tick(c).0.frame_position() == s.frame_position() + c
            - SCANLINES_PER_FRAME * CYCLES_PER_SCANLINE,
        s.tick(c).1 ==> s.tick(c).0.scanline == 0 && s.scanline == SCANLINES_PER_FRAME - 1,
{
}

/// $3000-$3EFF folds onto $2000-$2EFF, which maps to itself.
pub proof fn lemma_mirror_mask(a: u16)
    ensures
        0x2000 <= a <= 0x2fff ==> a & 0x2fff == a,
        0x3000 <= a <= 0x3eff ==> a & 0x2fff == a - 0x1000,
{
    assert((0x2000 <= a <= 0x2fff ==> a & 0x2fff == a) && (0x3000 <= a <= 0x3eff ==> a & 0x2fff == a
        - 0x1000)) by (bit_vector);
}

impl PpuState {
    pub open spec fn wf(self) -> bool {
        &&& self.framebuffer.len() == SCREEN_WIDTH * SCREEN_HEIGHT
        &&& self.vram.len() == 0x4000
        &&& self.name_table.len() == 1024
        &&& self.palette_table.len() == 64
        &&& self.oam_data.len() == 256
        &&& self.addr.wf()
        &&& 0 <= self.scanline < SCANLINES_PER_FRAME
        &&& self.cycles < CYCLES_PER_SCANLINE
    }

    /// Position within the frame, counted in PPU cycles from its start.
    pub open spec fn frame_position(self) -> int {
        self.scanline * CYCLES_PER_SCANLINE + self.cycles
    }

    /// PPUSTATUS read: returns the status and clears vertical blank and the
    /// write toggle of PPUADDR.
    pub open spec fn read_status(self) -> (PpuState, u8) {
        (
            PpuState {
                status: with_bits(self.status, STATUS_VBLANK_STARTED, false),
                addr: AddrState { hi_ptr: true, ..self.addr },
                ..self
            },
            self.status,
        )
    }

    /// Whether a PPUDATA read at the current address has no defined meaning:
    /// pattern data the cartridge lacks.
    pub open spec fn read_data_faults(self) -> bool {
        let a = self.addr.get();
        a <= 0x1fff && a >= self.chr_rom.len()
    }

    pub open spec fn with_next_addr(self) -> PpuState {
        PpuState { addr: self.addr.increment(spec_vram_addr_increment(self.ctrl)), ..self }
    }

    /// PPUDATA read. Pattern and name table data ($2000-$3EFF, the upper
    /// part mirroring the lower) go through the read buffer (the previous
    /// buffer content is returned); palette data is returned directly. The
    /// address then advances by the PPUCTRL step.
    pub open spec fn read_data(self) -> (PpuState, u8) {
        let a = self.addr.get();
        let s1 = self.with_next_addr();
        if a <= 0x1fff {
            (PpuState { internal_data_buf: self.chr_rom[a as int], ..s1 }, self.internal_data_buf)
        } else if a <= 0x3eff {
            (
                PpuState {
                    internal_data_buf: self.vram[spec_mirror_vram_addr(self.mirroring, a) as int],
                    ..s1
                },
                self.internal_data_buf,
            )
        } else {
            (s1, self.palette_table[PpuState::palette_index(a)])
        }
    }

    /// Palette entry of a PPU address in $3F00-$3FFF: the 32 entries repeat
    /// every 32 bytes, and $3F10, $3F14, $3F18 and $3F1C are mirrors of
    /// $3F00, $3F04, $3F08 and $3F0C.
    pub open spec fn palette_index(a: u16) -> int {
        let i = (a - 0x3f00) % 32;
        if i == 0x10 || i == 0x14 || i == 0x18 || i == 0x1c {
            i - 0x10
        } else {
            i
        }
    }

    /// PPUDATA write: pattern data is stored when it is CHR RAM and ignored
    /// when it is CHR ROM; name table and palette data are stored. The
    /// address then advances by the PPUCTRL step.
    pub open spec fn write_data(self, value: u8) -> PpuState {
        let a = self.addr.get();
        let s1 = if a <= 0x1fff {
            if self.chr_ram && a < self.chr_rom.len() {
                PpuState { chr_rom: self.chr_rom.update(a as int, value), ..self }
            } else {
                self
            }
        } else if a <= 0x3eff {
            PpuState {
                vram: self.vram.update(spec_mirror_vram_addr(self.mirroring, a) as int, value),
                ..self
            }
        } else {
            PpuState {
                palette_table: self.palette_table.update(PpuState::palette_index(a), value),
                ..self
            }
        };
        s1.with_next_addr()
    }

    /// PPUCTRL write; enabling the NMI while in vertical blank raises it at once.
    pub open spec fn write_control(self, data: u8) -> PpuState {
        let before = spec_generate_vblank_nmi(self.ctrl);
        let raise = !before && spec_generate_vblank_nmi(data) && self.status
            & STATUS_VBLANK_STARTED != 0;
        PpuState {
            ctrl: data,
            nmi_interrupt: if raise { Some(1u8) } else { self.nmi_interrupt },
            ..self
        }
    }

    /// OAMDATA write: stores at OAMADDR and advances OAMADDR.
    pub open spec fn write_oam_data(self, data: u8) -> PpuState {
        PpuState {
            oam_data: self.oam_data.update(self.oam_addr as int, data),
            oam_addr: self.oam_addr.wrapping_add(1),
            ..self
        }
    }

    pub open spec fn read_oam_data(self) -> u8 {
        self.oam_data[self.oam_addr as int]
    }

    /// Advances the PPU by `c` cycles. A tick that ends no scanline only
    /// moves the cycle count. At the end of a scanline, sprite 0 hit is
    /// raised when that scanline holds sprite 0's top row; crossing into
    /// scanline 241 starts
    /// vertical blank (raising the NMI if PPUCTRL asks for it) and latches the
    /// scroll position and name table used for rendering; crossing scanline
    /// 261 ends the frame, which the boolean reports.
    pub open spec fn tick(self, c: u8) -> (PpuState, bool) {
        let cyc = self.cycles + c;
        if cyc >= CYCLES_PER_SCANLINE {
            let status = if self.sprite_zero_hit_at(cyc) {
                with_bits(self.status, STATUS_SPRITE_ZERO_HIT, true)
            } else {
                self.status
            };
            let sl = self.scanline + 1;
            let s1 = PpuState {
                cycles: (cyc - CYCLES_PER_SCANLINE) as usize,
                scanline: sl as i32,
                status,
                ..self
            };
            let s2 = if sl == VBLANK_SCANLINE {
                PpuState {
                    status: with_bits(
                        with_bits(s1.status, STATUS_VBLANK_STARTED, true),
                        STATUS_SPRITE_ZERO_HIT,
                        false,
                    ),
                    nmi_interrupt: if spec_generate_vblank_nmi(s1.ctrl) {
                        Some(1u8)
                    } else {
                        s1.nmi_interrupt
                    },
                    scroll: s1.scroll.latch_for_render(),
                    latched_nametable_addr: spec_nametable_addr(s1.ctrl),
                    ..s1
                }
            } else {
                s1
            };
            if sl >= SCANLINES_PER_FRAME {
                (
                    PpuState {
                        scanline: 0,
                        nmi_interrupt: None,
                        status: with_bits(
                            with_bits(s2.status, STATUS_SPRITE_ZERO_HIT, false),
                            STATUS_VBLANK_STARTED,
                            false,
                        ),
                        ..s2
                    },
                    true,
                )
            } else {
                (s2, false)
            }
        } else {
            (PpuState { cycles: cyc as usize, ..self }, false)
        }
    }

    /// Sprite 0 hit, tested as a scanline ends: sprites are shown (PPUMASK
    /// bit 4), the scanline is that of sprite 0's top row, and the PPU has
    /// passed sprite 0's left column.
    pub open spec fn sprite_zero_hit_at(self, cyc: int) -> bool {
        &&& self.mask & 0x10 != 0
        &&& self.oam_data[0] as int == self.scanline
        &&& self.oam_data[3] as int <= cyc
    }

    /// The 2-bit colour of pixel `i` (0-7, left to right) of the tile row
    /// currently held in the pattern bytes.
    pub open spec fn tile_pixel(self, i: int) -> u8 {
        (((self.tile_msb >> (7 - i) as u8) & 1) << 1u8) | ((self.tile_lsb >> (7 - i) as u8) & 1)
    }

    /// Whether frame buffer entry `k` is one of the eight that `render_tile`
    /// writes: the pixels of the current tile on the current scanline.
    pub open spec fn in_current_tile(self, k: int) -> bool {
        &&& self.scanline < SCREEN_HEIGHT
        &&& self.scanline * 256 + self.tile_x() <= k < self.scanline * 256 + self.tile_x() + 8
        &&& k - self.scanline * 256 < SCREEN_WIDTH
    }

    /// Column of the first pixel of the tile being fetched at this cycle.
    pub open spec fn tile_x(self) -> int {
        (self.cycles - 1) / 8 * 8
    }
}

/// Computes `palette_index`.
fn palette_index_exec(a: u16) -> (r: usize)
    requires
        0x3f00 <= a,
    ensures
        r == PpuState::palette_index(a),
        r < 32,
{
    let i = ((a - 0x3f00) % 32) as usize;
    if i == 0x10 || i == 0x14 || i == 0x18 || i == 0x1c {
        i - 0x10
    } else {
        i
    }
}

impl Ppu {
    /// The state of a freshly powered PPU. A cartridge without CHR ROM has
    /// 8KB of CHR RAM in its place, cleared.
    pub open spec fn new_state(mirroring: bool, chr_rom: Seq<u8>) -> PpuState {
        PpuState {
            control: 0,
            mask: 0,
            oam_addr: 0,
            scroll: ScrollState { scroll_x: 0, scroll_y: 0, latch: false, temp_x: 0, temp_y: 0 },
            data: 0,
            oam_dma: 0,
            internal_data_buf: 0,
            ctrl: 0,
            status: 0,
            chr_rom: if chr_rom.len() == 0 { zeros(0x2000) } else { chr_rom },
            framebuffer: zeros((SCREEN_WIDTH * SCREEN_HEIGHT) as nat),
            vram: zeros(0x4000),
            name_table: zeros(1024),
            palette_table: zeros(64),
            oam_data: zeros(256),
            scanline: 0,
            cycles: 0,
            frame_complete: false,
            addr: AddrState { hi: 0, lo: 0, hi_ptr: true },
            mirroring: if mirroring { Mirroring::VERTICAL } else { Mirroring::HORIZONTAL },
            tile_id: 0,
            tile_attrib: 0,
            tile_lsb: 0,
            tile_msb: 0,
            nmi_interrupt: None,
            latched_nametable_addr: 0x2000,
            chr_ram: chr_rom.len() == 0,
        }
    }

    pub fn new(mirroring: bool, chr_rom: Vec<u8>) -> (p: Self)
        ensures
            p@ == Ppu::new_state(mirroring, chr_rom@),
            p@.wf(),
            p@.chr_rom == (if chr_rom@.len() == 0 { zeros(0x2000) } else { chr_rom@ }),
            p@.chr_ram == (chr_rom@.len() == 0),
            p@.mirroring == (if mirroring { Mirroring::VERTICAL } else { Mirroring::HORIZONTAL }),
            p@.framebuffer == zeros((SCREEN_WIDTH * SCREEN_HEIGHT) as nat),
            p@.vram == zeros(0x4000),
            p@.name_table == zeros(1024),
            p@.palette_table == zeros(64),
            p@.oam_data == zeros(256),
            p@.control == 0 && p@.mask == 0 && p@.oam_addr == 0 && p@.data == 0 && p@.oam_dma == 0,
            p@.internal_data_buf == 0,
            p@.ctrl == 0 && p@.status == 0,
            p@.scroll == (ScrollState { scroll_x: 0, scroll_y: 0, latch: false, temp_x: 0, temp_y: 0 }),
            p@.addr == (AddrState { hi: 0, lo: 0, hi_ptr: true }),
            p@.scanline == 0 && p@.cycles == 0 && !p@.frame_complete,
            p@.tile_id == 0 && p@.tile_attrib == 0 && p@.tile_lsb == 0 && p@.tile_msb == 0,
            p@.nmi_interrupt.is_none(),
            p@.latched_nametable_addr == 0x2000,
    {
        let chr_ram = chr_rom.len() == 0;
        let chr_rom = if chr_ram { zeroed(0x2000) } else { chr_rom };
        Ppu {
            control: 0,
            mask: 0,
            oam_addr: 0,
            scroll: ScrollRegister::new(),
            data: 0,
            oam_dma: 0,
            framebuffer: zeroed(SCREEN_WIDTH * SCREEN_HEIGHT),
            vram: zeroed(0x4000),
            name_table: zeroed(1024),
            palette_table: zeroed(64),
            oam_data: zeroed(256),
            scanline: 0,
            cycles: 0,
            frame_complete: false,
            tile_id: 0,
            tile_attrib: 0,
            tile_lsb: 0,
            tile_msb: 0,
            mirroring: if mirroring {
                Mirroring::VERTICAL
            } else {
                Mirroring::HORIZONTAL
            },
            chr_rom,
            ctrl: ControlRegister::new(),
            status: StatusRegister::new(),
            addr: AddrRegister::new(),
            internal_data_buf: 0,
            nmi_interrupt: None,
            latched_nametable_addr: 0x2000,
            chr_ram,
        }
    }

    pub fn get_frame(&self) -> (r: &[u8])
        ensures
            r@ == self.framebuffer@,
    {
        self.framebuffer.as_slice()
    }

    fn write_to_ctrl(&mut self, value: u8)
        ensures
            final(self)@ == (PpuState { ctrl: value, ..old(self)@ }),
    {
        self.ctrl.update(value);
    }

    fn increment_vram_addr(&mut self)
        requires
            old(self)@.wf(),
        ensures
            final(self)@ == old(self)@.with_next_addr(),
            final(self)@.wf(),
    {
        let inc = self.ctrl.vram_addr_increment();
        self.addr.increment(inc);
    }

    /// Whether a PPUDATA read now would have no defined meaning.
    pub fn read_data_faults(&self) -> (r: bool)
        requires
            self@.wf(),
        ensures
            r == self@.read_data_faults(),
    {
        let a = self.addr.get();
        a <= 0x1fff && a as usize >= self.chr_rom.len()
    }

    pub fn read_data(&mut self) -> (r: u8)
        requires
            old(self)@.wf(),
            !old(self)@.read_data_faults(),
        ensures
            final(self)@.wf(),
            (final(self)@, r) == old(self)@.read_data(),
    {
        let addr = self.addr.get();
        self.increment_vram_addr();
        if addr <= 0x1fff {
            let result = self.internal_data_buf;
            self.internal_data_buf = self.chr_rom[addr as usize];
            result
        } else if addr <= 0x3eff {
            let result = self.internal_data_buf;
            proof {
                lemma_mirror_mask(addr);
            }
            let i = self.mirror_vram_addr(addr);
            self.internal_data_buf = self.vram[i as usize];
            result
        } else {
            self.palette_table[palette_index_exec(addr)]
        }
    }

    pub fn write_to_data(&mut self, value: u8)
        requires
            old(self)@.wf(),
        ensures
            final(self)@.wf(),
            final(self)@ == old(self)@.write_data(value),
    {
        let addr = self.addr.get();
        if addr <= 0x1fff {
            if self.chr_ram && (addr as usize) < self.chr_rom.len() {
                self.chr_rom.set(addr as usize, value);
            }
        } else if addr <= 0x3eff {
            proof {
                lemma_mirror_mask(addr);
            }
            let i = self.mirror_vram_addr(addr);
            self.vram.set(i as usize, value);
        } else {
            self.palette_table.set(palette_index_exec(addr), value);
        }
        self.increment_vram_addr();
    }

    pub fn tick(&mut self, cycles: u8) -> (new_frame: bool)
        requires
            old(self)@.wf(),
        ensures
            final(self)@.wf(),
            (final(self)@, new_frame) == old(self)@.tick(cycles),
    {
        self.cycles = self.cycles + cycles as usize;
        if self.cycles >= CYCLES_PER_SCANLINE {
            if self.mask & 0x10 != 0 && self.oam_data[0] as i32 == self.scanline
                && self.oam_data[3] as usize <= self.cycles {
                self.status.set_sprite_zero_hit(true);
            }
            self.cycles = self.cycles - CYCLES_PER_SCANLINE;
            self.scanline = self.scanline + 1;
            if self.scanline == VBLANK_SCANLINE {
                self.status.set_vblank_status(true);
                self.status.set_sprite_zero_hit(false);
                if self.ctrl.generate_vblank_nmi() {
                    self.nmi_interrupt = Some(1);
                }
                self.scroll.latch_for_render();
                self.latched_nametable_addr = self.ctrl.nametable_addr();
            }
            if self.scanline >= SCANLINES_PER_FRAME {
                self.scanline = 0;
                self.nmi_interrupt = None;
                self.status.set_sprite_zero_hit(false);
                self.status.reset_vblank_status();
                return true;
            }
        }
        false
    }

    /// Writes the eight pixels of the current tile row on the current
    /// scanline into the frame buffer, as colour numbers 0-3; pixels right of
    /// the screen or below it are dropped.
    pub fn render_tile(&mut self)
        requires
            old(self)@.wf(),
            old(self)@.cycles >= 1,
        ensures
            final(self)@.wf(),
            final(self)@ == (PpuState { framebuffer: final(self)@.framebuffer, ..old(self)@ }),
            forall|k: int|
                0 <= k < SCREEN_WIDTH * SCREEN_HEIGHT ==> #[trigger] final(self)@.framebuffer[k] == if old(self)@.in_current_tile(k) {
                    old(self)@.tile_pixel(k - old(self)@.scanline * 256 - old(self)@.tile_x())
                } else {
                    old(self)@.framebuffer[k]
                },
    {
        let ghost s0 = self@;
        let tile_x = (self.cycles - 1) / 8;
        let mut i: usize = 0;
        while i < 8
            invariant
                0 <= i <= 8,
                self@.wf(),
                s0.wf(),
                s0.cycles >= 1,
                tile_x == (s0.cycles - 1) / 8,
                self@ == (PpuState { framebuffer: self@.framebuffer, ..s0 }),
                forall|k: int|
                    0 <= k < SCREEN_WIDTH * SCREEN_HEIGHT ==> #[trigger] self@.framebuffer[k] == if s0.in_current_tile(k)
                        && k - s0.scanline * 256 - s0.tile_x() < i {
                        s0.tile_pixel(k - s0.scanline * 256 - s0.tile_x())
                    } else {
                        s0.framebuffer[k]
                    },
            decreases 8 - i,
        {
            let shift = (7 - i) as u8;
            let bit0: u8 = (self.tile_lsb >> shift) & 1;
            let bit1: u8 = (self.tile_msb >> shift) & 1;
            let color_index = (bit1 << 1u8) | bit0;
            let x = tile_x * 8 + i;
            let y = self.scanline;
            if x < 256 && y < 240 {
                self.framebuffer.set(y as usize * 256 + x, color_index);
            }
            i = i + 1;
        }
    }

    pub fn mirror_vram_addr(&self, addr: u16) -> (r: u16)
        requires
            addr & 0x2fff >= 0x2000,
        ensures
            r == spec_mirror_vram_addr(self.mirroring, addr),
            r < 0x800,
    {
        let mirrored_vram = addr & 0x2fff;
        assert(mirrored_vram <= 0x2fff) by (bit_vector)
            requires mirrored_vram == addr & 0x2fff;
        let vram_index = mirrored_vram - 0x2000;
        let name_table = vram_index / 0x400;
        match self.mirroring {
            Mirroring::VERTICAL => if name_table == 2 || name_table == 3 {
                vram_index - 0x800
            } else {
                vram_index
            },
            Mirroring::HORIZONTAL => if name_table == 1 || name_table == 2 {
                vram_index - 0x400
            } else if name_table == 3 {
                vram_index - 0x800
            } else {
                vram_index
            },
        }
    }

    pub fn write_to_ppu_addr(&mut self, value: u8)
        ensures
            final(self)@ == (PpuState { addr: old(self)@.addr.update(value), ..old(self)@ }),
            final(self)@.addr.wf(),
    {
        self.addr.update(value);
    }

    pub fn is_frame_complete(&self) -> (r: bool)
        ensures
            r == self.frame_complete,
    {
        self.frame_complete
    }

    pub fn reset_frame_complete(&mut self)
        ensures
            final(self)@ == (PpuState { frame_complete: false, ..old(self)@ }),
    {
        self.frame_complete = false;
    }

    pub fn read_status(&mut self) -> (r: u8)
        ensures
            (final(self)@, r) == old(self)@.read_status(),
    {
        let status = self.status.snapshot();
        self.status.reset_vblank_status();
        self.addr.reset_latch();
        status
    }

    pub fn write_control(&mut self, data: u8)
        ensures
            final(self)@ == old(self)@.write_control(data),
    {
        let before_nmi_status = self.ctrl.generate_vblank_nmi();
        self.write_to_ctrl(data);
        if !before_nmi_status && self.ctrl.generate_vblank_nmi() && self.status.is_in_vblank() {
            self.nmi_interrupt = Some(1);
        }
    }

    pub fn write_mask(&mut self, data: u8)
        ensures
            final(self)@ == (PpuState { mask: data, ..old(self)@ }),
    {
        self.mask = data;
    }

    pub fn write_oam_addr(&mut self, data: u8)
        ensures
            final(self)@ == (PpuState { oam_addr: data, ..old(self)@ }),
    {
        self.oam_addr = data;
    }

    pub fn write_oam_data(&mut self, data: u8)
        requires
            old(self)@.wf(),
        ensures
            final(self)@ == old(self)@.write_oam_data(data),
            final(self)@.wf(),
    {
        self.oam_data.set(self.oam_addr as usize, data);
        self.oam_addr = self.oam_addr.wrapping_add(1);
    }

    pub fn read_oam_data(&self) -> (r: u8)
        requires
            self@.wf(),
        ensures
            r == self@.read_oam_data(),
    {
        self.oam_data[self.oam_addr as usize]
    }

    pub fn write_scroll(&mut self, data: u8)
        ensures
            final(self)@ == (PpuState { scroll: old(self)@.scroll.write(data), ..old(self)@ }),
    {
        self.scroll.write(data);
    }
}

} // verus!
