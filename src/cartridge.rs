use vstd::prelude::*;

verus! {

pub const ROM_BANK_SIZE: usize = 16384;

pub const VROM_BANK_SIZE: usize = 8192;

pub const TRAINER_SIZE: usize = 512;

pub const HEADER_SIZE: usize = 16;

/// How the four logical nametables are laid over the 2 KiB of nametable RAM.
#[derive(Clone, Copy, Debug, PartialEq, Eq, Structural)]
pub enum MirroringType {
    Vertical,
    Horizontal,
    FourScreen,
}

/// Why a cartridge image could not be loaded.
#[derive(Clone, Copy, Debug, PartialEq, Eq, Structural)]
pub enum LoadError {
    /// The image does not start with "NES" 0x1A.
    InvalidFormat,
    /// The image is shorter than its header says.
    Truncated,
    /// The image asks for a mapper this emulator does not have.
    UnsupportedMapper(u8),
}

/// A parsed iNES image.
pub struct ROM {
    pub rom_prg: Vec<u8>,
    pub rom_chr: Vec<u8>,
    pub rom_mapper: u8,
    pub mirroring_type: MirroringType,
}

pub open spec fn has_magic(b: Seq<u8>) -> bool {
    &&& b.len() >= 4
    &&& b[0] == 0x4E
    &&& b[1] == 0x45
    &&& b[2] == 0x53
    &&& b[3] == 0x1A
}

pub open spec fn has_trainer(b: Seq<u8>) -> bool {
    b[6] & 0b100 != 0
}

pub open spec fn prg_start(b: Seq<u8>) -> int {
    if has_trainer(b) {
        (HEADER_SIZE + TRAINER_SIZE) as int
    } else {
        HEADER_SIZE as int
    }
}

pub open spec fn prg_size(b: Seq<u8>) -> int {
    b[4] as int * ROM_BANK_SIZE
}

pub open spec fn chr_size(b: Seq<u8>) -> int {
    b[5] as int * VROM_BANK_SIZE
}

pub open spec fn chr_start(b: Seq<u8>) -> int {
    prg_start(b) + prg_size(b)
}

pub open spec fn image_end(b: Seq<u8>) -> int {
    chr_start(b) + chr_size(b)
}

/// The header is there and the sections it announces fit in the image.
pub open spec fn is_complete(b: Seq<u8>) -> bool {
    b.len() >= HEADER_SIZE && b.len() >= image_end(b)
}

pub open spec fn ines_ok(b: Seq<u8>) -> bool {
    has_magic(b) && is_complete(b)
}

pub open spec fn mapper_id(b: Seq<u8>) -> u8 {
    (b[7] & 0b1111_0000) | (b[6] >> 4u8)
}

pub open spec fn mirroring_of(b: Seq<u8>) -> MirroringType {
    if b[6] & 0b1000 != 0 {
        MirroringType::FourScreen
    } else if b[6] & 0b1 != 0 {
        MirroringType::Vertical
    } else {
        MirroringType::Horizontal
    }
}

pub open spec fn prg_of(b: Seq<u8>) -> Seq<u8> {
    b.subrange(prg_start(b), chr_start(b))
}

pub open spec fn chr_of(b: Seq<u8>) -> Seq<u8> {
    b.subrange(chr_start(b), image_end(b))
}

pub open spec fn trainer_of(b: Seq<u8>) -> Seq<u8> {
    if has_trainer(b) {
        b.subrange(HEADER_SIZE as int, prg_start(b))
    } else {
        Seq::empty()
    }
}

/// An image laid out from its parts: header, optional trainer, PRG, CHR.
pub open spec fn ines_image(header: Seq<u8>, trainer: Seq<u8>, prg: Seq<u8>, chr: Seq<u8>) -> Seq<u8> {
    header + trainer + prg + chr
}

fn copy_range(b: &[u8], start: usize, len: usize) -> (r: Vec<u8>)
    requires
        start + len <= b@.len(),
    ensures
        r@ == b@.subrange(start as int, start + len),
{
    let n = b.len();
    let mut r: Vec<u8> = Vec::with_capacity(len);
    let mut i: usize = 0;
    while i < len
        invariant
            i <= len,
            start + len <= b@.len(),
            n == b@.len(),
            r@ == b@.subrange(start as int, start + i),
        decreases len - i,
    {
        r.push(b[start + i]);
        i = i + 1;
        assert(r@ =~= b@.subrange(start as int, start + i));
    }
    r
}

impl ROM {
    pub fn new(binary: &[u8]) -> (r: Result<ROM, LoadError>)
        ensures
            r is Ok <==> ines_ok(binary@),
            r == Err::<ROM, LoadError>(LoadError::InvalidFormat) <==> !has_magic(binary@),
            r == Err::<ROM, LoadError>(LoadError::Truncated) <==> has_magic(binary@) && !is_complete(
                binary@,
            ),
            r matches Ok(rom) ==> {
                &&& rom.rom_prg@ == prg_of(binary@)
                &&& rom.rom_chr@ == chr_of(binary@)
                &&& rom.rom_mapper == mapper_id(binary@)
                &&& rom.mirroring_type == mirroring_of(binary@)
            },
    {
        if binary.len() < 4 || binary[0] != 0x4E || binary[1] != 0x45 || binary[2] != 0x53
            || binary[3] != 0x1A {
            return Err(LoadError::InvalidFormat);
        }
        if binary.len() < HEADER_SIZE {
            return Err(LoadError::Truncated);
        }
        let control_byte_one = binary[6];
        let control_byte_two = binary[7];
        let mapper = (control_byte_two & 0b1111_0000) | (control_byte_one >> 4u8);
        let rom_prg_size = binary[4] as usize * ROM_BANK_SIZE;
        let rom_chr_size = binary[5] as usize * VROM_BANK_SIZE;
        let is_trainer = (control_byte_one & 0b100) != 0;
        let rom_prg_start: usize = if is_trainer {
            HEADER_SIZE + TRAINER_SIZE
        } else {
            HEADER_SIZE
        };
        let rom_chr_start = rom_prg_start + rom_prg_size;
        if binary.len() < rom_chr_start || binary.len() - rom_chr_start < rom_chr_size {
            return Err(LoadError::Truncated);
        }
        let mirroring = if (control_byte_one & 0b1000) != 0 {
            MirroringType::FourScreen
        } else if (control_byte_one & 0b1) != 0 {
            MirroringType::Vertical
        } else {
            MirroringType::Horizontal
        };
        Ok(
            ROM {
                rom_prg: copy_range(binary, rom_prg_start, rom_prg_size),
                rom_chr: copy_range(binary, rom_chr_start, rom_chr_size),
                rom_mapper: mapper,
                mirroring_type: mirroring,
            },
        )
    }
}

/// The parts of an iNES image, before they are laid out.
pub struct TestROM {
    pub nes_header: Vec<u8>,
    pub trainer: Option<Vec<u8>>,
    pub prg_rom: Vec<u8>,
    pub chr_rom: Vec<u8>,
}

pub open spec fn trainer_bytes(t: Option<Vec<u8>>) -> Seq<u8> {
    match t {
        Some(v) => v@,
        None => Seq::empty(),
    }
}

fn append_all(dst: &mut Vec<u8>, src: &Vec<u8>)
    ensures
        final(dst)@ == old(dst)@ + src@,
{
    let mut i: usize = 0;
    while i < src.len()
        invariant
            i <= src@.len(),
            dst@ == old(dst)@ + src@.subrange(0, i as int),
        decreases src@.len() - i,
    {
        dst.push(src[i]);
        i = i + 1;
        assert(dst@ =~= old(dst)@ + src@.subrange(0, i as int));
    }
    assert(src@.subrange(0, src@.len() as int) =~= src@);
}

/// Lays out an iNES image from its parts.
pub fn create(rom: TestROM) -> (r: Vec<u8>)
    ensures
        r@ == ines_image(rom.nes_header@, trainer_bytes(rom.trainer), rom.prg_rom@, rom.chr_rom@),
{
    let mut result: Vec<u8> = Vec::new();
    append_all(&mut result, &rom.nes_header);
    match &rom.trainer {
        Some(t) => append_all(&mut result, t),
        None => {},
    }
    append_all(&mut result, &rom.prg_rom);
    append_all(&mut result, &rom.chr_rom);
    assert(result@ =~= ines_image(rom.nes_header@, trainer_bytes(rom.trainer), rom.prg_rom@, rom.chr_rom@));
    result
}

/// Parsing an image and laying out again the header, trainer, PRG and CHR it
/// was found to hold gives back the image, when nothing follows CHR.
pub proof fn lemma_parse_then_emit(b: Seq<u8>)
    requires
        ines_ok(b),
        b.len() == image_end(b),
    ensures
        ines_image(b.subrange(0, HEADER_SIZE as int), trainer_of(b), prg_of(b), chr_of(b)) == b,
{
    assert(ines_image(b.subrange(0, HEADER_SIZE as int), trainer_of(b), prg_of(b), chr_of(b)) =~= b);
}

fn filled(value: u8, len: usize) -> (r: Vec<u8>)
    ensures
        r@ == Seq::new(len as nat, |i: int| value),
{
    let mut r: Vec<u8> = Vec::new();
    let mut i: usize = 0;
    while i < len
        invariant
            i <= len,
            r@ == Seq::new(i as nat, |j: int| value),
        decreases len - i,
    {
        r.push(value);
        i = i + 1;
        assert(r@ =~= Seq::new(i as nat, |j: int| value));
    }
    r
}

/// The image of a cartridge with two PRG banks and one CHR bank, every byte
/// of them 1, vertical mirroring and mapper 3 in its header.
pub fn test_rom() -> (r: ROM)
    ensures
        r.rom_prg@ == Seq::new(2 * ROM_BANK_SIZE as nat, |i: int| 1u8),
        r.rom_chr@ == Seq::new(VROM_BANK_SIZE as nat, |i: int| 1u8),
        r.rom_mapper == 3,
        r.mirroring_type == MirroringType::Vertical,
{
    let header: Vec<u8> = vec![
        0x4E, 0x45, 0x53, 0x1A, 0x02, 0x01, 0x31, 0x00, 0x00, 0x00, 0x00, 0x00, 0x00, 0x00, 0x00, 0x00,
    ];
    let image = create(
        TestROM {
            nes_header: header,
            trainer: None,
            prg_rom: filled(1, 2 * ROM_BANK_SIZE),
            chr_rom: filled(1, 2 * VROM_BANK_SIZE),
        },
    );
    let parsed = ROM::new(image.as_slice());
    assert(0x31u8 & 0b100u8 == 0u8 && 0x31u8 & 0b1000u8 == 0u8 && 0x31u8 & 0b1u8 != 0u8 && ((0u8
        & 0b1111_0000u8) | (0x31u8 >> 4u8)) == 3u8) by (bit_vector);
    match parsed {
        Ok(rom) => {
            assert(rom.rom_prg@ =~= Seq::new(2 * ROM_BANK_SIZE as nat, |i: int| 1u8));
            assert(rom.rom_chr@ =~= Seq::new(VROM_BANK_SIZE as nat, |i: int| 1u8));
            rom
        },
        Err(_) => {
            assert(false);
            ROM {
                rom_prg: Vec::new(),
                rom_chr: Vec::new(),
                rom_mapper: 0,
                mirroring_type: MirroringType::Horizontal,
            }
        },
    }
}

} // verus!
