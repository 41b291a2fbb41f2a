use vstd::prelude::*;

pub mod frame;
pub mod reg_addr;
pub mod reg_controller;
pub mod reg_mask;
pub mod reg_scroll;
pub mod reg_status;

use crate::cartridge::MirroringType;
use reg_addr::PPUADDR;
use reg_controller::{GENERATE_NMI, PPUCTRL};
use reg_mask::PPUMASK;
use reg_scroll::PPUSCROLL;
use reg_status::{PPUSTATUS, SPRITE_ZERO_HIT, VBLANK_STARTED};

verus! {

pub const FRAME_SCANLINE_LIMIT: u16 = 262;

pub const VBLANK_SCANLINE_LIMIT: u16 = 241;

pub const SCANLINE_PPU_CYCLE_LIMIT: u16 = 341;

/// Dots in one frame: 262 scanlines of 341 dots.
pub const DOTS_PER_FRAME: u32 = 89342;

pub const VRAM_SIZE: usize = 2048;

pub const PALETTE_SIZE: usize = 32;

pub const OAM_SIZE: usize = 256;

/// Size of the CHR-RAM given to a cartridge that has no CHR-ROM.
pub const CHR_RAM_SIZE: usize = 8192;

/// The Picture Processing Unit: its memories, its registers and where it
/// stands in the frame.
pub struct PPU {
    pub chr_rom: Vec<u8>,
    /// The cartridge has no CHR-ROM, and `chr_rom` is writable CHR-RAM.
    pub chr_is_ram: bool,
    pub palette_table: Vec<u8>,
    pub vram: Vec<u8>,
    pub mirroring: MirroringType,
    pub reg_address: PPUADDR,
    pub reg_controller: PPUCTRL,
    pub reg_mask: PPUMASK,
    pub reg_status: PPUSTATUS,
    pub reg_scroll: PPUSCROLL,
    pub nmi_interrupt: Option<u8>,
    pub internal_data_buffer: u8,
    pub oam_data: Vec<u8>,
    pub oam_address: u8,
    pub scanline: u16,
    /// The dot within the scanline.
    pub cycles: u16,
}

/// What a `PPU` holds, with its memories as sequences.
pub struct PpuState {
    pub chr: Seq<u8>,
    pub chr_is_ram: bool,
    pub palette: Seq<u8>,
    pub vram: Seq<u8>,
    pub mirroring: MirroringType,
    pub addr: PPUADDR,
    pub ctrl: PPUCTRL,
    pub mask: PPUMASK,
    pub status: PPUSTATUS,
    pub scroll: PPUSCROLL,
    pub nmi: Option<u8>,
    pub buffer: u8,
    pub oam: Seq<u8>,
    pub oam_address: u8,
    pub scanline: u16,
    pub dot: u16,
}

impl View for PPU {
    type V = PpuState;

    open spec fn view(&self) -> PpuState {
        PpuState {
            chr: self.chr_rom@,
            chr_is_ram: self.chr_is_ram,
            palette: self.palette_table@,
            vram: self.vram@,
            mirroring: self.mirroring,
            addr: self.reg_address,
            ctrl: self.reg_controller,
            mask: self.reg_mask,
            status: self.reg_status,
            scroll: self.reg_scroll,
            nmi: self.nmi_interrupt,
            buffer: self.internal_data_buffer,
            oam: self.oam_data@,
            oam_address: self.oam_address,
            scanline: self.scanline,
            dot: self.cycles,
        }
    }
}

impl PpuState {
    /// Memory sizes, the position in the frame, and one write toggle shared
    /// by PPUSCROLL and PPUADDR.
    pub open spec fn wf(self) -> bool {
        &&& self.palette.len() == PALETTE_SIZE
        &&& self.vram.len() == VRAM_SIZE
        &&& self.oam.len() == OAM_SIZE
        &&& self.scanline < FRAME_SCANLINE_LIMIT
        &&& self.dot < SCANLINE_PPU_CYCLE_LIMIT
        &&& self.addr.first_write == !self.scroll.write_latch
    }

    /// The shared write toggle: set when the next $2005/$2006 write is the
    /// second of a pair.
    pub open spec fn write_toggle(self) -> bool {
        self.scroll.write_latch
    }

    /// How far into the frame the PPU is, in dots.
    pub open spec fn frame_position(self) -> int {
        self.scanline * SCANLINE_PPU_CYCLE_LIMIT + self.dot
    }
}

/// Index into the 2 KiB of nametable RAM for a PPU address in 0x2000..0x3FFF.
pub open spec fn mirror_vram_spec(mirroring: MirroringType, address: u16) -> u16 {
    let vram_position = ((address & 0x2FFF) - 0x2000) as u16;
    let nametable = vram_position / 0x400;
    match mirroring {
        MirroringType::Vertical => if nametable >= 2 {
            (vram_position - 0x800) as u16
        } else {
            vram_position
        },
        MirroringType::Horizontal => if nametable == 3 {
            (vram_position - 0x800) as u16
        } else if nametable == 1 || nametable == 2 {
            (vram_position - 0x400) as u16
        } else {
            vram_position
        },
        MirroringType::FourScreen => vram_position % 0x800,
    }
}

/// Index into palette RAM: 0x3F10/14/18/1C fall on 0x3F00/04/08/0C, and the
/// 32 bytes repeat over 0x3F00..0x3FFF.
pub open spec fn palette_index(address: u16) -> int {
    let i = (address & 0x1F) as int;
    if i >= 0x10 && i % 4 == 0 {
        i - 0x10
    } else {
        i
    }
}

/// A byte of CHR memory, 0 beyond its end.
pub open spec fn chr_byte(chr: Seq<u8>, address: int) -> u8 {
    if 0 <= address < chr.len() {
        chr[address]
    } else {
        0
    }
}

/// $2007 read: the byte returned, and the data buffer refilled. Palette bytes
/// come back at once, and the buffer is then filled from the nametable byte
/// underneath. 0x3000..0x3EFF reads the nametable RAM of 0x2000..0x2EFF.
pub open spec fn read_data_spec(s: PpuState) -> (u8, u8) {
    let address = s.addr.value() & 0x3FFF;
    if address < 0x2000 {
        (s.buffer, chr_byte(s.chr, address as int))
    } else if address < 0x3F00 {
        (s.buffer, s.vram[mirror_vram_spec(s.mirroring, address) as int])
    } else {
        (
            s.palette[palette_index(address)],
            s.vram[mirror_vram_spec(s.mirroring, (address - 0x1000) as u16) as int],
        )
    }
}

/// The PPU after a $2007 write of `value`: the byte stored, the address moved on.
pub open spec fn write_data_spec(s: PpuState, value: u8) -> PpuState {
    PpuState { addr: s.addr.incremented(s.ctrl.increment_spec()), ..store_data_spec(s, value) }
}

/// The memories after a $2007 write of `value`.
pub open spec fn store_data_spec(s: PpuState, value: u8) -> PpuState {
    let address = s.addr.value() & 0x3FFF;
    if address < 0x2000 {
        if s.chr_is_ram && (address as int) < s.chr.len() {
            PpuState { chr: s.chr.update(address as int, value), ..s }
        } else {
            s
        }
    } else if address < 0x3F00 {
        PpuState { vram: s.vram.update(mirror_vram_spec(s.mirroring, address) as int, value), ..s }
    } else {
        PpuState { palette: s.palette.update(palette_index(address), value), ..s }
    }
}

/// Sprite 0 sits on the current scanline, at or left of `cycle`, and sprites
/// are shown.
pub open spec fn sprite_zero_hit_spec(s: PpuState, cycle: int) -> bool {
    &&& s.oam[0] as int == s.scanline as int
    &&& s.oam[3] as int <= cycle
    &&& s.mask.shows_sprites()
}

/// The PPU after `dots` more dots, and whether a frame was completed.
pub open spec fn tick_spec(s: PpuState, dots: u8) -> (PpuState, bool) {
    let c = s.dot + dots;
    if c < SCANLINE_PPU_CYCLE_LIMIT {
        (PpuState { dot: c as u16, ..s }, false)
    } else {
        let status1 = if sprite_zero_hit_spec(s, c) {
            s.status.with(SPRITE_ZERO_HIT, true)
        } else {
            s.status
        };
        let line = s.scanline + 1;
        let dot = (c - SCANLINE_PPU_CYCLE_LIMIT) as u16;
        if line == VBLANK_SCANLINE_LIMIT {
            (
                PpuState {
                    dot,
                    scanline: line as u16,
                    status: status1.with(VBLANK_STARTED, true).with(SPRITE_ZERO_HIT, false),
                    nmi: if s.ctrl.nmi_enabled() {
                        Some(1u8)
                    } else {
                        s.nmi
                    },
                    ..s
                },
                false,
            )
        } else if line >= FRAME_SCANLINE_LIMIT {
            (
                PpuState {
                    dot,
                    scanline: 0,
                    status: status1.with(SPRITE_ZERO_HIT, false).with(VBLANK_STARTED, false),
                    nmi: None,
                    ..s
                },
                true,
            )
        } else {
            (PpuState { dot, scanline: line as u16, status: status1, ..s }, false)
        }
    }
}

/// The PPU after a $2007 read: the address moved on, the buffer refilled.
pub open spec fn read_data_state(s: PpuState) -> PpuState {
    PpuState {
        addr: s.addr.incremented(s.ctrl.increment_spec()),
        buffer: read_data_spec(s).1,
        ..s
    }
}

/// $2006 write; the write toggle is shared with $2005.
pub open spec fn write_addr_spec(s: PpuState, value: u8) -> PpuState {
    PpuState {
        addr: s.addr.updated(value),
        scroll: PPUSCROLL { write_latch: !s.scroll.write_latch, ..s.scroll },
        ..s
    }
}

/// $2005 write; the write toggle is shared with $2006.
pub open spec fn write_scroll_spec(s: PpuState, value: u8) -> PpuState {
    PpuState {
        scroll: s.scroll.written(value),
        addr: PPUADDR { first_write: !s.addr.first_write, ..s.addr },
        ..s
    }
}

/// $2004 write: the byte stored at the OAM address, which moves on.
pub open spec fn write_oam_data_spec(s: PpuState, value: u8) -> PpuState {
    PpuState {
        oam: s.oam.update(s.oam_address as int, value),
        oam_address: s.oam_address.wrapping_add(1),
        ..s
    }
}

/// $2000 write: a 0 to 1 change of the NMI bit during VBlank raises an NMI.
pub open spec fn write_ctrl_spec(s: PpuState, value: u8) -> PpuState {
    let ctrl = PPUCTRL { bits: value };
    PpuState {
        ctrl,
        nmi: if !s.ctrl.nmi_enabled() && ctrl.nmi_enabled() && s.status.vblank() {
            Some(1u8)
        } else {
            s.nmi
        },
        ..s
    }
}

/// $2002 read: the status before, then VBlank cleared and the write toggle
/// reset.
pub open spec fn read_status_spec(s: PpuState) -> PpuState {
    PpuState {
        status: s.status.with(VBLANK_STARTED, false),
        addr: PPUADDR { first_write: true, ..s.addr },
        scroll: PPUSCROLL { write_latch: false, ..s.scroll },
        ..s
    }
}

/// OAM after a DMA of `data` starting at the OAM address: byte `j` of OAM
/// holds byte `j - oam_address` (mod 256) of the page.
pub open spec fn oam_after_dma(oam_address: u8, data: Seq<u8>) -> Seq<u8> {
    Seq::new(OAM_SIZE as nat, |j: int| data[(j - oam_address) % 256])
}

pub proof fn lemma_index_bounds(mirroring: MirroringType, address: u16)
    ensures
        0 <= palette_index(address) < PALETTE_SIZE,
        0x2000 <= address <= 0x3FFF ==> mirror_vram_spec(mirroring, address) < VRAM_SIZE,
{
    assert(address & 0x1F <= 0x1F) by (bit_vector);
    if 0x2000 <= address <= 0x3FFF {
        assert(0x2000 <= address & 0x2FFF <= 0x2FFF) by (bit_vector)
            requires
                0x2000 <= address <= 0x3FFF,
        ;
    }
}

/// The PPU stays well formed through $2007 accesses.
pub proof fn lemma_data_access_wf(s: PpuState, value: u8)
    requires
        s.wf(),
    ensures
        write_data_spec(s, value).wf(),
        read_data_state(s).wf(),
{
    let v = s.addr.value();
    let address = v & 0x3FFF;
    assert(address <= 0x3FFF) by (bit_vector)
        requires
            address == v & 0x3FFF,
    ;
    lemma_index_bounds(s.mirroring, address);
}

/// A PPU at power-on for a cartridge with CHR memory `chr` (empty: 8 KiB of
/// CHR-RAM instead): memories cleared, registers 0, at the top of the frame.
pub open spec fn ppu_initial(chr: Seq<u8>, mirroring: MirroringType) -> PpuState {
    PpuState {
        chr: if chr.len() == 0 {
            Seq::new(CHR_RAM_SIZE as nat, |i: int| 0u8)
        } else {
            chr
        },
        chr_is_ram: chr.len() == 0,
        palette: Seq::new(PALETTE_SIZE as nat, |i: int| 0u8),
        vram: Seq::new(VRAM_SIZE as nat, |i: int| 0u8),
        mirroring,
        addr: PPUADDR { ll: 0, hh: 0, first_write: true },
        ctrl: PPUCTRL { bits: 0 },
        mask: PPUMASK { bits: 0 },
        status: PPUSTATUS { bits: 0 },
        scroll: PPUSCROLL { scx: 0, scy: 0, write_latch: false },
        nmi: None,
        buffer: 0,
        oam: Seq::new(OAM_SIZE as nat, |i: int| 0u8),
        oam_address: 0,
        scanline: 0,
        dot: 0,
    }
}

/// When a $2000 write turns the NMI bit from 0 to 1 during VBlank, one NMI
/// becomes pending; once it is polled, nothing raises another while the PPU
/// stays in the VBlank scanlines.
pub proof fn lemma_nmi_enable_in_vblank(s: PpuState, value: u8, dots: u8)
    requires
        !s.ctrl.nmi_enabled(),
        s.status.vblank(),
        value & GENERATE_NMI != 0,
    ensures
        write_ctrl_spec(s, value).nmi is Some,
        s.scanline >= VBLANK_SCANLINE_LIMIT ==> (tick_spec(
            PpuState { nmi: None, ..write_ctrl_spec(s, value) },
            dots,
        ).0.nmi is None),
{
}

/// A palette write at 0x3F10, 0x3F14, 0x3F18 or 0x3F1C is read back at 0x3F00,
/// 0x3F04, 0x3F08 or 0x3F0C, and the other way round.
pub proof fn lemma_palette_mirror(s1: PpuState, s2: PpuState, k: u16, value: u8, upper_first: bool)
    requires
        s1.wf(),
        k < 4,
        s1.addr.value() == (if upper_first {
            0x3F10 + 4 * k
        } else {
            0x3F00 + 4 * k
        }),
        s2 == (PpuState { addr: s2.addr, ..write_data_spec(s1, value) }),
        s2.addr.value() == (if upper_first {
            0x3F00 + 4 * k
        } else {
            0x3F10 + 4 * k
        }),
    ensures
        read_data_spec(s2).0 == value,
{
    let lo = (0x3F00 + 4 * k) as u16;
    let hi = (0x3F10 + 4 * k) as u16;
    assert(lo & 0x3FFF == lo && hi & 0x3FFF == hi && lo & 0x1F == 4 * k && hi & 0x1F == 0x10 + 4
        * k) by (bit_vector)
        requires
            k < 4,
            lo == 0x3F00 + 4 * k,
            hi == 0x3F10 + 4 * k,
    ;
    assert(palette_index(lo) == palette_index(hi));
}

impl PPU {
    pub fn new(chr_rom: Vec<u8>, mirroring: MirroringType) -> (r: Self)
        ensures
            r@.wf(),
            r@ == ppu_initial(chr_rom@, mirroring),
    {
        let chr_is_ram = chr_rom.len() == 0;
        let chr = if chr_is_ram {
            zeroed(CHR_RAM_SIZE)
        } else {
            chr_rom
        };
        PPU {
            chr_rom: chr,
            chr_is_ram,
            palette_table: zeroed(PALETTE_SIZE),
            vram: zeroed(VRAM_SIZE),
            mirroring,
            reg_address: PPUADDR::new(),
            reg_controller: PPUCTRL::new(),
            reg_mask: PPUMASK::new(),
            reg_status: PPUSTATUS::new(),
            reg_scroll: PPUSCROLL::new(),
            nmi_interrupt: None,
            internal_data_buffer: 0,
            oam_data: zeroed(OAM_SIZE),
            oam_address: 0,
            scanline: 0,
            cycles: 0,
        }
    }

    /// Advances the PPU by `cycles` dots; true when a frame was completed.
    pub fn tick(&mut self, cycles: u8) -> (frame_complete: bool)
        requires
            old(self)@.wf(),
        ensures
            final(self)@.wf(),
            (final(self)@, frame_complete) == tick_spec(old(self)@, cycles),
    {
        let c = self.cycles + cycles as u16;
        if c < SCANLINE_PPU_CYCLE_LIMIT {
            self.cycles = c;
            return false;
        }
        if self.poll_sprite_zero_hit(c) {
            self.reg_status.set_sprite_zero_hit(true);
        }
        self.cycles = c - SCANLINE_PPU_CYCLE_LIMIT;
        self.scanline = self.scanline + 1;
        if self.scanline == VBLANK_SCANLINE_LIMIT {
            self.reg_status.set_vblank_started(true);
            self.reg_status.set_sprite_zero_hit(false);
            if self.reg_controller.generate_nmi() {
                self.nmi_interrupt = Some(1);
            }
        }
        if self.scanline >= FRAME_SCANLINE_LIMIT {
            self.scanline = 0;
            self.nmi_interrupt = None;
            self.reg_status.set_sprite_zero_hit(false);
            self.reg_status.reset_vblank();
            return true;
        }
        false
    }

    pub fn poll_sprite_zero_hit(&self, cycle: u16) -> (r: bool)
        requires
            self@.wf(),
        ensures
            r == sprite_zero_hit_spec(self@, cycle as int),
    {
        let x = self.oam_data[3] as u16;
        let y = self.oam_data[0] as u16;
        y == self.scanline && x <= cycle && self.reg_mask.is_sprite_enabled()
    }

    /// Takes the pending NMI, if any.
    pub fn poll_for_nmi_interrupt(&mut self) -> (r: Option<u8>)
        ensures
            r == old(self)@.nmi,
            final(self)@ == (PpuState { nmi: None, ..old(self)@ }),
    {
        self.nmi_interrupt.take()
    }

    pub fn write_to_oam_address(&mut self, value: u8)
        ensures
            final(self)@ == (PpuState { oam_address: value, ..old(self)@ }),
    {
        self.oam_address = value;
    }

    pub fn write_to_oam_data(&mut self, value: u8)
        requires
            old(self)@.wf(),
        ensures
            final(self)@ == write_oam_data_spec(old(self)@, value),
    {
        self.oam_data.set(self.oam_address as usize, value);
        self.oam_address = self.oam_address.wrapping_add(1);
    }

    /// Copies a page of 256 bytes into OAM, starting at the OAM address.
    pub fn write_to_oam_dma(&mut self, data: &[u8])
        requires
            old(self)@.wf(),
            data@.len() == OAM_SIZE,
        ensures
            final(self)@ == (PpuState {
                oam: oam_after_dma(old(self)@.oam_address, data@),
                ..old(self)@
            }),
    {
        let start = self.oam_address;
        let mut i: usize = 0;
        while i < OAM_SIZE
            invariant
                0 <= i <= OAM_SIZE,
                data@.len() == OAM_SIZE,
                self.oam_data@.len() == OAM_SIZE,
                self.oam_address as int == (start as int + i) % 256,
                self@ == (PpuState { oam: self@.oam, oam_address: self@.oam_address, ..old(self)@ }),
                forall|j: int|
                    0 <= j < OAM_SIZE ==> #[trigger] self.oam_data@[j] == if (j - start) % 256 < i {
                        data@[(j - start) % 256]
                    } else {
                        old(self)@.oam[j]
                    },
            decreases OAM_SIZE - i,
        {
            let k = self.oam_address;
            self.oam_data.set(k as usize, data[i]);
            self.oam_address = self.oam_address.wrapping_add(1);
            i = i + 1;
            assert forall|j: int| 0 <= j < OAM_SIZE implies #[trigger] self.oam_data@[j] == if (j
                - start) % 256 < i {
                data@[(j - start) % 256]
            } else {
                old(self)@.oam[j]
            } by {
                if j == k as int {
                    assert((j - start) % 256 == i - 1);
                } else {
                    assert((j - start) % 256 != i - 1);
                }
            }
        }
        assert(self.oam_data@ =~= oam_after_dma(start, data@));
    }

    pub fn read_oam_data(&self) -> (r: u8)
        requires
            self@.wf(),
        ensures
            r == self@.oam[self@.oam_address as int],
    {
        self.oam_data[self.oam_address as usize]
    }

    /// $2006 write. The write toggle is shared with $2005.
    pub fn write_to_reg_addr(&mut self, value: u8)
        requires
            old(self)@.wf(),
        ensures
            final(self)@.wf(),
            final(self)@ == write_addr_spec(old(self)@, value),
            final(self)@.write_toggle() == !old(self)@.write_toggle(),
    {
        self.reg_address.update(value);
        self.reg_scroll.write_latch = !self.reg_scroll.write_latch;
    }

    pub fn write_to_reg_ctrl(&mut self, value: u8)
        ensures
            final(self)@ == write_ctrl_spec(old(self)@, value),
    {
        let previous_nmi_status = self.reg_controller.generate_nmi();
        self.reg_controller.update(value);
        if !previous_nmi_status && self.reg_controller.generate_nmi()
            && self.reg_status.in_vblank() {
            self.nmi_interrupt = Some(1);
        }
    }

    pub fn write_to_reg_mask(&mut self, value: u8)
        ensures
            final(self)@ == (PpuState { mask: PPUMASK { bits: value }, ..old(self)@ }),
    {
        self.reg_mask.update(value);
    }

    /// $2005 write. The write toggle is shared with $2006.
    pub fn write_to_reg_scroll(&mut self, value: u8)
        requires
            old(self)@.wf(),
        ensures
            final(self)@.wf(),
            final(self)@ == write_scroll_spec(old(self)@, value),
            final(self)@.write_toggle() == !old(self)@.write_toggle(),
    {
        self.reg_scroll.write_scroll(value);
        self.reg_address.first_write = !self.reg_address.first_write;
    }

    /// $2002 read: returns the status, then clears VBlank and resets the
    /// shared write toggle.
    pub fn read_status(&mut self) -> (r: u8)
        requires
            old(self)@.wf(),
        ensures
            r == old(self)@.status.bits,
            final(self)@ == read_status_spec(old(self)@),
            final(self)@.wf(),
            !final(self)@.status.vblank(),
            !final(self)@.write_toggle(),
    {
        let current_status = self.reg_status.get_bits();
        self.reg_status.reset_vblank();
        self.reg_address.reset();
        self.reg_scroll.reset_scroll();
        current_status
    }

    pub fn increment_vram_address(&mut self)
        ensures
            final(self)@ == (PpuState {
                addr: old(self)@.addr.incremented(old(self)@.ctrl.increment_spec()),
                ..old(self)@
            }),
    {
        let inc = self.reg_controller.vram_addr_increment();
        self.reg_address.increment(inc);
    }

    /// $2007 write.
    pub fn write_data(&mut self, value: u8)
        requires
            old(self)@.wf(),
        ensures
            final(self)@.wf(),
            final(self)@ == write_data_spec(old(self)@, value),
    {
        let v = self.reg_address.get();
        let address = v & 0x3FFF;
        assert(address <= 0x3FFF) by (bit_vector)
            requires
                address == v & 0x3FFF,
        ;
        if address < 0x2000 {
            if self.chr_is_ram && (address as usize) < self.chr_rom.len() {
                self.chr_rom.set(address as usize, value);
            }
        } else if address < 0x3F00 {
            let i = self.mirror_vram(address);
            self.vram.set(i as usize, value);
        } else {
            let i = palette_offset(address);
            self.palette_table.set(i, value);
        }
        self.increment_vram_address();
    }

    /// $2007 read: returns the buffered byte (or a palette byte at once) and
    /// refills the buffer.
    pub fn read_data(&mut self) -> (r: u8)
        requires
            old(self)@.wf(),
        ensures
            final(self)@.wf(),
            r == read_data_spec(old(self)@).0,
            final(self)@ == read_data_state(old(self)@),
    {
        let v = self.reg_address.get();
        let address = v & 0x3FFF;
        assert(address <= 0x3FFF) by (bit_vector)
            requires
                address == v & 0x3FFF,
        ;
        self.increment_vram_address();
        if address < 0x2000 {
            let buffer_data = self.internal_data_buffer;
            self.internal_data_buffer = if (address as usize) < self.chr_rom.len() {
                self.chr_rom[address as usize]
            } else {
                0
            };
            buffer_data
        } else if address < 0x3F00 {
            let buffer_data = self.internal_data_buffer;
            let i = self.mirror_vram(address);
            self.internal_data_buffer = self.vram[i as usize];
            buffer_data
        } else {
            let i = self.mirror_vram(address - 0x1000);
            self.internal_data_buffer = self.vram[i as usize];
            self.palette_table[palette_offset(address)]
        }
    }

    /// Index into nametable RAM for a PPU address in 0x2000..0x3FFF.
    pub fn mirror_vram(&self, address: u16) -> (r: u16)
        requires
            0x2000 <= address <= 0x3FFF,
        ensures
            r == mirror_vram_spec(self.mirroring, address),
            r < VRAM_SIZE,
    {
        let mirror_down = address & 0x2FFF;
        assert(0x2000 <= mirror_down <= 0x2FFF) by (bit_vector)
            requires
                mirror_down == address & 0x2FFF,
                0x2000 <= address <= 0x3FFF,
        ;
        let vram_position = mirror_down - 0x2000;
        let nametable = vram_position / 0x400;
        match self.mirroring {
            MirroringType::Vertical => if nametable >= 2 {
                vram_position - 0x800
            } else {
                vram_position
            },
            MirroringType::Horizontal => if nametable == 3 {
                vram_position - 0x800
            } else if nametable == 1 || nametable == 2 {
                vram_position - 0x400
            } else {
                vram_position
            },
            MirroringType::FourScreen => vram_position % 0x800,
        }
    }
}

fn palette_offset(address: u16) -> (r: usize)
    ensures
        r == palette_index(address),
        r < PALETTE_SIZE,
{
    let i = address & 0x1F;
    assert(i <= 0x1F) by (bit_vector)
        requires
            i == address & 0x1F,
    ;
    if i >= 0x10 && i % 4 == 0 {
        (i - 0x10) as usize
    } else {
        i as usize
    }
}

fn zeroed(len: usize) -> (r: Vec<u8>)
    ensures
        r@ == Seq::new(len as nat, |i: int| 0u8),
{
    let mut r: Vec<u8> = Vec::new();
    let mut i: usize = 0;
    while i < len
        invariant
            i <= len,
            r@ == Seq::new(i as nat, |j: int| 0u8),
        decreases len - i,
    {
        r.push(0);
        i = i + 1;
        assert(r@ =~= Seq::new(i as nat, |j: int| 0u8));
    }
    r
}

} // verus!
