use vstd::prelude::*;

use crate::cartridge::{LoadError, ROM};
use crate::cpu::Memory;
use crate::joypad::{joypad_read_spec, joypad_write_spec, Joypad};
use crate::mapper::nrom::NROM;
use crate::mapper::uxrom::UXROM;
use crate::mapper::{Mapper, MapperChip};
use crate::ppu::reg_mask::PPUMASK;
use crate::ppu::{
    lemma_data_access_wf, oam_after_dma, ppu_initial, read_data_spec, read_data_state,
    read_status_spec, tick_spec, write_addr_spec, write_ctrl_spec, write_data_spec,
    write_oam_data_spec, write_scroll_spec, PpuState, DOTS_PER_FRAME, OAM_SIZE, PPU,
};

verus! {

pub const RAM_SIZE: usize = 0x800;

pub const RAM_ADDRESS_SPACE_END: u16 = 0x1FFF;

pub const PPU_ADDRESS_SPACE_END: u16 = 0x3FFF;

pub const PRG_ADDRESS_SPACE_START: u16 = 0x8000;

pub const PRG_BANK_SIZE: usize = 0x4000;

/// The CPU's view of the machine: work RAM, the cartridge, the PPU and the
/// controller, and the CPU cycles counted since power-on.
pub struct Bus {
    pub ram: Vec<u8>,
    pub prg: Vec<u8>,
    pub mapper: MapperChip,
    pub ppu: PPU,
    pub cycles: u64,
    pub joypad: Joypad,
    /// The CPU wrote to the read-only PPUSTATUS register.
    pub illegal_write: bool,
}

pub struct BusState {
    pub ram: Seq<u8>,
    pub prg: Seq<u8>,
    pub mapper: MapperChip,
    pub ppu: PpuState,
    pub cycles: u64,
    pub joypad: Joypad,
    pub illegal_write: bool,
}

impl View for Bus {
    type V = BusState;

    open spec fn view(&self) -> BusState {
        BusState {
            ram: self.ram@,
            prg: self.prg@,
            mapper: self.mapper,
            ppu: self.ppu@,
            cycles: self.cycles,
            joypad: self.joypad,
            illegal_write: self.illegal_write,
        }
    }
}

impl BusState {
    pub open spec fn wf(self) -> bool {
        self.ram.len() == RAM_SIZE && self.ppu.wf()
    }

    /// The cycle counter and the PPU's place in the frame are the same in both.
    pub open spec fn same_clock(self, other: BusState) -> bool {
        &&& self.cycles == other.cycles
        &&& self.ppu.scanline == other.ppu.scanline
        &&& self.ppu.dot == other.ppu.dot
    }
}

/// A byte of PRG memory as the mapper places it; an offset past the end of
/// the image wraps, so that a 16 KiB image shows twice.
pub open spec fn prg_read_spec(s: BusState, address: u16) -> u8 {
    if s.prg.len() == 0 {
        0
    } else {
        s.prg[s.mapper.prg_offset(address) as int % s.prg.len() as int]
    }
}

/// The bus with `value` stored in the PRG image where the mapper places CPU
/// address `addr`, as a loader does; the CPU's own writes there go to the
/// mapper instead.
pub open spec fn poke_prg_spec(s: BusState, addr: u16, value: u8) -> BusState {
    if s.prg.len() == 0 {
        s
    } else {
        BusState { prg: s.prg.update(s.mapper.prg_offset(addr) as int % s.prg.len() as int, value), ..s }
    }
}

/// A CPU read: the bus afterwards (reads of $2002, $2007 and $4016 change
/// it) and the byte read.
pub open spec fn bus_read(s: BusState, addr: u16) -> (BusState, u8) {
    if addr <= RAM_ADDRESS_SPACE_END {
        (s, s.ram[(addr & 0x7FF) as int])
    } else if addr <= PPU_ADDRESS_SPACE_END {
        let reg = addr & 0x2007;
        if reg == 0x2002 {
            (BusState { ppu: read_status_spec(s.ppu), ..s }, s.ppu.status.bits)
        } else if reg == 0x2004 {
            (s, s.ppu.oam[s.ppu.oam_address as int])
        } else if reg == 0x2007 {
            (BusState { ppu: read_data_state(s.ppu), ..s }, read_data_spec(s.ppu).0)
        } else {
            (s, 0)
        }
    } else if addr == 0x4016 {
        (BusState { joypad: joypad_read_spec(s.joypad).0, ..s }, joypad_read_spec(s.joypad).1)
    } else if addr < PRG_ADDRESS_SPACE_START {
        (s, 0)
    } else {
        (s, prg_read_spec(s, addr))
    }
}

/// The first `n` bytes of an OAM DMA from `base`, read in order.
pub open spec fn dma_reads(s: BusState, base: u16, n: nat) -> (BusState, Seq<u8>)
    decreases n,
{
    if n == 0 {
        (s, Seq::empty())
    } else {
        let (s1, bytes) = dma_reads(s, base, (n - 1) as nat);
        let (s2, b) = bus_read(s1, (base + (n - 1)) as u16);
        (s2, bytes.push(b))
    }
}

/// $4014 write: the page `value` is read and copied into OAM.
pub open spec fn dma_spec(s: BusState, value: u8) -> BusState {
    let (s1, bytes) = dma_reads(s, (value as u16 * 256) as u16, OAM_SIZE as nat);
    BusState { ppu: PpuState { oam: oam_after_dma(s1.ppu.oam_address, bytes), ..s1.ppu }, ..s1 }
}

/// A CPU write of `value` at `addr`.
pub open spec fn bus_write(s: BusState, addr: u16, value: u8) -> BusState {
    if addr <= RAM_ADDRESS_SPACE_END {
        BusState { ram: s.ram.update((addr & 0x7FF) as int, value), ..s }
    } else if addr <= PPU_ADDRESS_SPACE_END {
        let reg = addr & 0x2007;
        if reg == 0x2000 {
            BusState { ppu: write_ctrl_spec(s.ppu, value), ..s }
        } else if reg == 0x2001 {
            BusState { ppu: PpuState { mask: PPUMASK { bits: value }, ..s.ppu }, ..s }
        } else if reg == 0x2002 {
            BusState { illegal_write: true, ..s }
        } else if reg == 0x2003 {
            BusState { ppu: PpuState { oam_address: value, ..s.ppu }, ..s }
        } else if reg == 0x2004 {
            BusState { ppu: write_oam_data_spec(s.ppu, value), ..s }
        } else if reg == 0x2005 {
            BusState { ppu: write_scroll_spec(s.ppu, value), ..s }
        } else if reg == 0x2006 {
            BusState { ppu: write_addr_spec(s.ppu, value), ..s }
        } else {
            BusState { ppu: write_data_spec(s.ppu, value), ..s }
        }
    } else if addr == 0x4014 {
        dma_spec(s, value)
    } else if addr == 0x4016 {
        BusState { joypad: joypad_write_spec(s.joypad, value), ..s }
    } else if addr >= PRG_ADDRESS_SPACE_START {
        BusState { mapper: s.mapper.after_select(value), ..s }
    } else {
        s
    }
}

/// `cycles` CPU cycles pass: the counter moves on and the PPU runs three dots
/// for each. The flag tells whether an NMI became pending, the point at which
/// a frame is ready to be shown.
pub open spec fn bus_tick(s: BusState, cycles: u8) -> (BusState, bool) {
    let (p, _) = tick_spec(s.ppu, (cycles * 3) as u8);
    (
        BusState { cycles: ((s.cycles as int + cycles as int) % 0x1_0000_0000_0000_0000) as u64, ppu: p, ..s },
        s.ppu.nmi is None && p.nmi is Some,
    )
}

proof fn lemma_read_keeps(s: BusState, addr: u16)
    requires
        s.wf(),
    ensures
        bus_read(s, addr).0.wf(),
        bus_read(s, addr).0.same_clock(s),
        bus_read(s, addr).0.illegal_write == s.illegal_write,
{
    lemma_data_access_wf(s.ppu, 0);
}

proof fn lemma_dma_reads_keep(s: BusState, base: u16, n: nat)
    requires
        s.wf(),
    ensures
        dma_reads(s, base, n).0.wf(),
        dma_reads(s, base, n).0.same_clock(s),
        dma_reads(s, base, n).1.len() == n,
    decreases n,
{
    if n > 0 {
        lemma_dma_reads_keep(s, base, (n - 1) as nat);
        lemma_read_keeps(dma_reads(s, base, (n - 1) as nat).0, (base + (n - 1)) as u16);
    }
}

/// Writes leave the clock alone and keep the bus well formed.
pub proof fn lemma_write_keeps(s: BusState, addr: u16, value: u8)
    requires
        s.wf(),
    ensures
        bus_write(s, addr, value).wf(),
        bus_write(s, addr, value).same_clock(s),
{
    if addr == 0x4014 {
        lemma_dma_reads_keep(s, (value as u16 * 256) as u16, OAM_SIZE as nat);
        assert(bus_write(s, addr, value).wf());
    } else if addr <= RAM_ADDRESS_SPACE_END {
        assert(addr & 0x7FF < 0x800) by (bit_vector);
    } else if addr <= PPU_ADDRESS_SPACE_END {
        lemma_data_access_wf(s.ppu, value);
    }
}

/// Each tick moves the PPU on by three dots per CPU cycle, within the frame,
/// and the cycle counter by the cycles.
pub proof fn lemma_tick_clock(s: BusState, cycles: u8)
    requires
        s.wf(),
        cycles <= 85,
    ensures
        bus_tick(s, cycles).0.wf(),
        bus_tick(s, cycles).0.ppu.frame_position() == (s.ppu.frame_position() + 3 * cycles)
            % DOTS_PER_FRAME as int,
        bus_tick(s, cycles).0.cycles == (s.cycles as int + cycles as int) % 0x1_0000_0000_0000_0000,
{
}

/// Any read of PPUSTATUS, at $2002 or a mirror of it, leaves VBlank clear
/// and the shared write toggle reset.
pub proof fn lemma_status_read(s: BusState, addr: u16)
    requires
        0x2000 <= addr <= PPU_ADDRESS_SPACE_END,
        addr & 0x2007 == 0x2002,
    ensures
        !bus_read(s, addr).0.ppu.status.vblank(),
        !bus_read(s, addr).0.ppu.write_toggle(),
        bus_read(s, addr).0.ppu.addr.first_write,
{
    let b = s.ppu.status.bits;
    assert((b & !0x80u8) & 0x80u8 == 0) by (bit_vector);
}

/// A RAM write is read back, and RAM repeats every 0x800 bytes up to 0x1FFF.
pub proof fn lemma_ram_mirroring(s: BusState, a: u16, value: u8, k: u16)
    requires
        s.wf(),
        a <= RAM_ADDRESS_SPACE_END,
        k < 4,
    ensures
        bus_read(bus_write(s, a, value), a).1 == value,
        bus_read(s, ((a & 0x7FF) + 0x800 * k) as u16).1 == bus_read(s, a).1,
{
    let b = ((a & 0x7FF) + 0x800 * k) as u16;
    assert((a & 0x7FF) < 0x800 && ((a & 0x7FF) + 0x800 * k) as u16 & 0x7FF == a & 0x7FF) by (bit_vector)
        requires
            k < 4,
    ;
}

impl Bus {
    pub open spec fn wf(&self) -> bool {
        self@.wf()
    }

    /// A bus for the cartridge, with cleared RAM and a fresh PPU and
    /// controller. Mappers 0 (NROM) and 2 (UxROM) are supported.
    pub fn new(cart: ROM) -> (r: Result<Bus, LoadError>)
        ensures
            r is Err <==> cart.rom_mapper != 0 && cart.rom_mapper != 2,
            r is Err ==> r == Err::<Bus, LoadError>(LoadError::UnsupportedMapper(cart.rom_mapper)),
            r matches Ok(bus) ==> {
                &&& bus.wf()
                &&& bus@.ram == Seq::new(RAM_SIZE as nat, |i: int| 0u8)
                &&& bus@.prg == cart.rom_prg@
                &&& bus@.mapper == if cart.rom_mapper == 0 {
                    MapperChip::Nrom(NROM {  })
                } else {
                    MapperChip::Uxrom(
                        UXROM {
                            bank_select_register: 0,
                            prg_banks: if cart.rom_prg@.len() / PRG_BANK_SIZE as nat > 255 {
                                255
                            } else {
                                (cart.rom_prg@.len() / PRG_BANK_SIZE as nat) as u8
                            },
                        },
                    )
                }
                &&& bus@.ppu == ppu_initial(cart.rom_chr@, cart.mirroring_type)
                &&& bus@.cycles == 0
                &&& bus@.joypad == Joypad::new_spec()
                &&& !bus@.illegal_write
            },
    {
        let mapper = if cart.rom_mapper == 0 {
            MapperChip::Nrom(NROM::new())
        } else if cart.rom_mapper == 2 {
            let banks = cart.rom_prg.len() / PRG_BANK_SIZE;
            MapperChip::Uxrom(
                UXROM::new(
                    if banks > 255 {
                        255
                    } else {
                        banks as u8
                    },
                ),
            )
        } else {
            return Err(LoadError::UnsupportedMapper(cart.rom_mapper));
        };
        let ROM { rom_prg, rom_chr, rom_mapper, mirroring_type } = cart;
        let ppu = PPU::new(rom_chr, mirroring_type);
        let mut ram: Vec<u8> = Vec::new();
        let mut i: usize = 0;
        while i < RAM_SIZE
            invariant
                i <= RAM_SIZE,
                ram@ == Seq::new(i as nat, |j: int| 0u8),
            decreases RAM_SIZE - i,
        {
            ram.push(0);
            i = i + 1;
            assert(ram@ =~= Seq::new(i as nat, |j: int| 0u8));
        }
        Ok(
            Bus {
                ram,
                prg: rom_prg,
                mapper,
                ppu,
                cycles: 0,
                joypad: Joypad::new(),
                illegal_write: false,
            },
        )
    }

    /// Counts `cycles` CPU cycles and runs the PPU three dots for each. Returns
    /// true when this made an NMI pending: a frame is then ready.
    pub fn tick(&mut self, cycles: u8) -> (frame_ready: bool)
        requires
            old(self).wf(),
            cycles <= 85,
        ensures
            final(self).wf(),
            (final(self)@, frame_ready) == bus_tick(old(self)@, cycles),
    {
        self.cycles = self.cycles.wrapping_add(cycles as u64);
        let nmi_prior = self.ppu.nmi_interrupt.is_some();
        self.ppu.tick(cycles * 3);
        let nmi_after = self.ppu.nmi_interrupt.is_some();
        !nmi_prior && nmi_after
    }

    /// Takes the pending NMI, if any.
    pub fn poll_nmi_status(&mut self) -> (r: Option<u8>)
        ensures
            r == old(self)@.ppu.nmi,
            final(self)@ == (BusState { ppu: PpuState { nmi: None, ..old(self)@.ppu }, ..old(self)@ }),
    {
        self.ppu.poll_for_nmi_interrupt()
    }

    /// Stores `value` in the PRG image where the mapper places `addr`.
    pub fn poke_prg(&mut self, addr: u16, value: u8)
        requires
            old(self).wf(),
            addr >= PRG_ADDRESS_SPACE_START,
        ensures
            final(self).wf(),
            final(self)@ == poke_prg_spec(old(self)@, addr, value),
    {
        let offset = self.mapper.map_prg(addr);
        let len = self.prg.len();
        if len > 0 {
            self.prg.set((offset as usize) % len, value);
        }
    }

    fn prg_read(&self, addr: u16) -> (r: u8)
        requires
            addr >= PRG_ADDRESS_SPACE_START,
        ensures
            r == prg_read_spec(self@, addr),
    {
        let offset = self.mapper.map_prg(addr);
        let len = self.prg.len();
        if len == 0 {
            0
        } else {
            self.prg[(offset as usize) % len]
        }
    }

    fn oam_dma(&mut self, value: u8)
        requires
            old(self).wf(),
        ensures
            final(self).wf(),
            final(self)@ == dma_spec(old(self)@, value),
    {
        let base: u16 = value as u16 * 256;
        let mut buffer: Vec<u8> = Vec::new();
        let mut i: u16 = 0;
        while i < 256
            invariant
                i <= 256,
                base == value as u16 * 256,
                self.wf(),
                (self@, buffer@) == dma_reads(old(self)@, base, i as nat),
            decreases 256 - i,
        {
            let b = self.mem_read(base + i);
            buffer.push(b);
            i = i + 1;
        }
        proof {
            lemma_dma_reads_keep(old(self)@, base, OAM_SIZE as nat);
        }
        self.ppu.write_to_oam_dma(buffer.as_slice());
    }

}

impl Memory for Bus {
    open spec fn ready(&self) -> bool {
        self.wf()
    }

    open spec fn reads(&self, addr: u16, value: u8, after: Bus) -> bool {
        (after@, value) == bus_read(self@, addr) && after@.same_clock(self@)
    }

    open spec fn writes(&self, addr: u16, value: u8, after: Bus) -> bool {
        after@ == bus_write(self@, addr, value) && after@.same_clock(self@)
    }

    fn mem_read(&mut self, addr: u16) -> (r: u8)
    {
        proof {
            lemma_read_keeps(old(self)@, addr);
        }
        if addr <= RAM_ADDRESS_SPACE_END {
            let i = addr & 0x7FF;
            assert(i < 0x800) by (bit_vector)
                requires
                    i == addr & 0x7FF,
            ;
            self.ram[i as usize]
        } else if addr <= PPU_ADDRESS_SPACE_END {
            let reg = addr & 0x2007;
            if reg == 0x2002 {
                self.ppu.read_status()
            } else if reg == 0x2004 {
                self.ppu.read_oam_data()
            } else if reg == 0x2007 {
                self.ppu.read_data()
            } else {
                0
            }
        } else if addr == 0x4016 {
            self.joypad.read()
        } else if addr < PRG_ADDRESS_SPACE_START {
            0
        } else {
            self.prg_read(addr)
        }
    }

    fn mem_write(&mut self, addr: u16, value: u8)
    {
        proof {
            lemma_write_keeps(old(self)@, addr, value);
        }
        if addr <= RAM_ADDRESS_SPACE_END {
            let i = addr & 0x7FF;
            assert(i < 0x800) by (bit_vector)
                requires
                    i == addr & 0x7FF,
            ;
            self.ram.set(i as usize, value);
        } else if addr <= PPU_ADDRESS_SPACE_END {
            let reg = addr & 0x2007;
            if reg == 0x2000 {
                self.ppu.write_to_reg_ctrl(value);
            } else if reg == 0x2001 {
                self.ppu.write_to_reg_mask(value);
            } else if reg == 0x2002 {
                self.illegal_write = true;
            } else if reg == 0x2003 {
                self.ppu.write_to_oam_address(value);
            } else if reg == 0x2004 {
                self.ppu.write_to_oam_data(value);
            } else if reg == 0x2005 {
                self.ppu.write_to_reg_scroll(value);
            } else if reg == 0x2006 {
                self.ppu.write_to_reg_addr(value);
            } else {
                self.ppu.write_data(value);
            }
        } else if addr == 0x4014 {
            self.oam_dma(value);
        } else if addr == 0x4016 {
            self.joypad.write(value);
        } else if addr >= PRG_ADDRESS_SPACE_START {
            self.mapper.bank_select(value);
        }
    }
}

} // verus!
