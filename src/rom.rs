use vstd::prelude::*;

verus! {

/// Size of one PRG-ROM bank.
pub const PRG_BANK_SIZE: usize = 16384;

/// Size of one CHR-ROM bank.
pub const CHR_BANK_SIZE: usize = 8192;

/// Size of one PRG-RAM bank.
pub const PRG_RAM_SIZE: usize = 8192;

/// Length of the iNES header.
pub const HEADER_SIZE: usize = 16;

/// Length of the optional trainer that follows the header.
pub const TRAINER_SIZE: usize = 512;

/// How the four logical nametables are backed by physical pages.
#[derive(Debug, Clone, Copy, PartialEq, Eq, Structural)]
pub enum Mirroring {
    Horizontal,
    Vertical,
    Single0,
    Single1,
    FourScreen,
}

/// Why a byte buffer is not a usable iNES image.
#[derive(Debug, Clone, Copy, PartialEq, Eq, Structural)]
pub enum RomError {
    /// The first four bytes are not `N`, `E`, `S`, 0x1A.
    BadMagic,
    /// The buffer ends before the header, trainer, PRG or CHR data it announces.
    Truncated,
}

/// A cartridge image: immutable after load but for CHR-RAM and PRG-RAM.
#[derive(Debug)]
pub struct Rom {
    pub mirroring: Mirroring,
    pub mapper: u8,
    pub prg: Vec<u8>,
    pub chr: Vec<u8>,
    pub ram: Vec<u8>,
}

/// The sizes that every loaded image has.
pub open spec fn rom_sizes_ok(prg_len: int, chr_len: int, ram_len: int) -> bool {
    &&& prg_len % PRG_BANK_SIZE as int == 0
    &&& 0 <= prg_len <= 255 * PRG_BANK_SIZE
    &&& chr_len % CHR_BANK_SIZE as int == 0
    &&& CHR_BANK_SIZE <= chr_len <= 255 * CHR_BANK_SIZE
    &&& ram_len % PRG_RAM_SIZE as int == 0
    &&& PRG_RAM_SIZE <= ram_len <= 255 * PRG_RAM_SIZE
}

impl Rom {
    pub open spec fn wf(&self) -> bool {
        rom_sizes_ok(self.prg@.len() as int, self.chr@.len() as int, self.ram@.len() as int)
    }

    /// The image holds at least one PRG-ROM bank, which every mapper needs.
    pub open spec fn has_prg(&self) -> bool {
        self.prg@.len() >= PRG_BANK_SIZE
    }
}

pub open spec fn magic_ok(d: Seq<u8>) -> bool {
    d[0] == 0x4E && d[1] == 0x45 && d[2] == 0x53 && d[3] == 0x1A
}

pub open spec fn has_trainer(d: Seq<u8>) -> bool {
    d[6] & 4 != 0
}

/// Where PRG data starts: after the header and the trainer, if any.
pub open spec fn prg_start(d: Seq<u8>) -> int {
    HEADER_SIZE + if has_trainer(d) { TRAINER_SIZE as int } else { 0 }
}

pub open spec fn prg_len(d: Seq<u8>) -> int {
    d[4] * PRG_BANK_SIZE
}

pub open spec fn chr_len(d: Seq<u8>) -> int {
    d[5] * CHR_BANK_SIZE
}

/// The mapper number: high nibble from byte 7, low nibble from byte 6.
pub open spec fn mapper_of(d: Seq<u8>) -> u8 {
    (d[7] & 0xF0) | (d[6] >> 4u8)
}

pub open spec fn mirroring_of(d: Seq<u8>) -> Mirroring {
    if d[6] & 8 != 0 {
        Mirroring::FourScreen
    } else if d[6] & 1 == 0 {
        Mirroring::Horizontal
    } else {
        Mirroring::Vertical
    }
}

/// PRG-RAM banks: byte 8, where 0 stands for 1.
pub open spec fn ram_banks_of(d: Seq<u8>) -> int {
    if d[8] == 0 { 1 } else { d[8] as int }
}

/// The error that loading `d` gives, if any, in the order the checks are made.
pub open spec fn load_error(d: Seq<u8>) -> Option<RomError> {
    if d.len() < 4 {
        Some(RomError::Truncated)
    } else if !magic_ok(d) {
        Some(RomError::BadMagic)
    } else if d.len() < HEADER_SIZE {
        Some(RomError::Truncated)
    } else if d.len() < prg_start(d) + prg_len(d) + chr_len(d) {
        Some(RomError::Truncated)
    } else {
        None
    }
}

/// The CHR data of a well-formed image: as stored, or one zeroed bank when none is.
pub open spec fn chr_of(d: Seq<u8>) -> Seq<u8> {
    if d[5] == 0 {
        Seq::new(CHR_BANK_SIZE as nat, |i: int| 0u8)
    } else {
        d.subrange(prg_start(d) + prg_len(d), prg_start(d) + prg_len(d) + chr_len(d))
    }
}

/// What loading a well-formed image gives, field by field.
pub open spec fn loaded_from(r: Rom, d: Seq<u8>) -> bool {
    &&& r.mirroring == mirroring_of(d)
    &&& r.mapper == mapper_of(d)
    &&& r.prg@ == d.subrange(prg_start(d), prg_start(d) + prg_len(d))
    &&& r.chr@ == chr_of(d)
    &&& r.ram@ == Seq::new((ram_banks_of(d) * PRG_RAM_SIZE) as nat, |i: int| 0u8)
}

/// A buffer of `n` zero bytes.
pub fn zeroed(n: usize) -> (r: Vec<u8>)
    ensures
        r@ == Seq::new(n as nat, |i: int| 0u8),
{
    let mut r: Vec<u8> = Vec::with_capacity(n);
    let mut i: usize = 0;
    while i < n
        invariant
            i <= n,
            r@ == Seq::new(i as nat, |k: int| 0u8),
        decreases n - i,
    {
        r.push(0);
        i = i + 1;
        assert(r@ =~= Seq::new(i as nat, |k: int| 0u8));
    }
    r
}

/// A copy of `d[start .. start + len]`.
fn copy_range(d: &[u8], start: usize, len: usize) -> (r: Vec<u8>)
    requires
        start + len <= d@.len(),
        start + len <= usize::MAX,
    ensures
        r@ == d@.subrange(start as int, start + len),
{
    let mut r: Vec<u8> = Vec::with_capacity(len);
    let mut i: usize = 0;
    while i < len
        invariant
            i <= len,
            start + len <= d@.len(),
            start + len <= usize::MAX,
            r@ == d@.subrange(start as int, start + i),
        decreases len - i,
    {
        r.push(d[start + i]);
        i = i + 1;
        assert(r@ =~= d@.subrange(start as int, start + i));
    }
    r
}

impl Rom {
    /// Parses an iNES image: a 16-byte header, an optional 512-byte trainer,
    /// then PRG and CHR data.
    pub fn load(data: &[u8]) -> (r: Result<Rom, RomError>)
        ensures
            match r {
                Ok(rom) => load_error(data@).is_none() && loaded_from(rom, data@) && rom.wf(),
                Err(e) => load_error(data@) == Some(e),
            },
    {
        if data.len() < 4 {
            return Err(RomError::Truncated);
        }
        if !(data[0] == 0x4E && data[1] == 0x45 && data[2] == 0x53 && data[3] == 0x1A) {
            return Err(RomError::BadMagic);
        }
        if data.len() < HEADER_SIZE {
            return Err(RomError::Truncated);
        }
        let prg_banks = data[4] as usize;
        let chr_banks = data[5] as usize;
        let flags6 = data[6];
        let flags7 = data[7];
        let ram_banks: usize = if data[8] == 0 {
            1
        } else {
            data[8] as usize
        };
        let mapper = (flags7 & 0xF0) | (flags6 >> 4u8);
        let mirroring = if flags6 & 8 != 0 {
            Mirroring::FourScreen
        } else if flags6 & 1 == 0 {
            Mirroring::Horizontal
        } else {
            Mirroring::Vertical
        };
        let start: usize = if flags6 & 4 != 0 {
            HEADER_SIZE + TRAINER_SIZE
        } else {
            HEADER_SIZE
        };
        let prg_size = prg_banks * PRG_BANK_SIZE;
        let chr_size = chr_banks * CHR_BANK_SIZE;
        if data.len() < start + prg_size + chr_size {
            return Err(RomError::Truncated);
        }
        let prg = copy_range(data, start, prg_size);
        let chr = if chr_banks == 0 {
            zeroed(CHR_BANK_SIZE)
        } else {
            copy_range(data, start + prg_size, chr_size)
        };
        let ram = zeroed(ram_banks * PRG_RAM_SIZE);
        Ok(Rom { mirroring, mapper, prg, chr, ram })
    }
}

/// Byte 6 of a header: mapper low nibble, trainer flag and mirroring bits.
pub open spec fn flags6_of(mapper: u8, mirroring: Mirroring, trainer: bool) -> u8 {
    ((mapper & 0x0F) << 4u8) | (if trainer {
        4u8
    } else {
        0u8
    }) | (match mirroring {
        Mirroring::FourScreen => 8u8,
        Mirroring::Vertical => 1u8,
        _ => 0u8,
    })
}

/// The 16 header bytes that describe the given fields.
pub open spec fn header_bytes(
    mapper: u8,
    mirroring: Mirroring,
    prg_banks: u8,
    chr_banks: u8,
    ram_banks: u8,
    trainer: bool,
) -> Seq<u8> {
    seq![
        0x4Eu8, 0x45, 0x53, 0x1A, prg_banks, chr_banks, flags6_of(mapper, mirroring, trainer),
        mapper & 0xF0, ram_banks, 0, 0, 0, 0, 0, 0, 0,
    ]
}

/// Mirrorings that a header can state.
pub open spec fn header_mirroring(m: Mirroring) -> bool {
    m == Mirroring::Horizontal || m == Mirroring::Vertical || m == Mirroring::FourScreen
}

/// Writes the header of an iNES image with the given fields.
pub fn format_header(
    mapper: u8,
    mirroring: Mirroring,
    prg_banks: u8,
    chr_banks: u8,
    ram_banks: u8,
    trainer: bool,
) -> (r: Vec<u8>)
    ensures
        r@ == header_bytes(mapper, mirroring, prg_banks, chr_banks, ram_banks, trainer),
{
    let t: u8 = if trainer {
        4
    } else {
        0
    };
    let m: u8 = match mirroring {
        Mirroring::FourScreen => 8,
        Mirroring::Vertical => 1,
        _ => 0,
    };
    let flags6 = ((mapper & 0x0F) << 4u8) | t | m;
    let r = vec![0x4E, 0x45, 0x53, 0x1A, prg_banks, chr_banks, flags6, mapper & 0xF0, ram_banks, 0, 0, 0, 0, 0, 0, 0];
    assert(r@ =~= header_bytes(mapper, mirroring, prg_banks, chr_banks, ram_banks, trainer));
    r
}

/// Loading a formatted header followed by a body of the announced size
/// gives back every field of the header.
pub proof fn lemma_header_round_trip(
    mapper: u8,
    mirroring: Mirroring,
    prg_banks: u8,
    chr_banks: u8,
    ram_banks: u8,
    trainer: bool,
    body: Seq<u8>,
)
    requires
        header_mirroring(mirroring),
        ram_banks >= 1,
        body.len() == (if trainer {
            TRAINER_SIZE as int
        } else {
            0
        }) + prg_banks * PRG_BANK_SIZE + chr_banks * CHR_BANK_SIZE,
    ensures
        ({
            let d = header_bytes(mapper, mirroring, prg_banks, chr_banks, ram_banks, trainer) + body;
            &&& load_error(d).is_none()
            &&& mapper_of(d) == mapper
            &&& mirroring_of(d) == mirroring
            &&& has_trainer(d) == trainer
            &&& prg_len(d) == prg_banks * PRG_BANK_SIZE
            &&& chr_len(d) == chr_banks * CHR_BANK_SIZE
            &&& ram_banks_of(d) == ram_banks
            &&& d.subrange(prg_start(d), prg_start(d) + prg_len(d)) == body.subrange(
                prg_start(d) - HEADER_SIZE,
                prg_start(d) - HEADER_SIZE + prg_len(d),
            )
        }),
{
    let h = header_bytes(mapper, mirroring, prg_banks, chr_banks, ram_banks, trainer);
    let d = h + body;
    let t: u8 = if trainer {
        4
    } else {
        0
    };
    let m: u8 = match mirroring {
        Mirroring::FourScreen => 8,
        Mirroring::Vertical => 1,
        _ => 0,
    };
    assert(d[6] == ((mapper & 0x0F) << 4u8) | t | m);
    assert(d[7] == mapper & 0xF0);
    let f6 = d[6];
    assert(((mapper & 0xF0) & 0xF0) | (f6 >> 4u8) == mapper && (f6 & 4 != 0) == (t == 4) && (f6 & 8
        != 0) == (m == 8) && (f6 & 1 == 0) == (m != 1)) by (bit_vector)
        requires
            f6 == ((mapper & 0x0F) << 4u8) | t | m,
            t == 0 || t == 4,
            m == 0 || m == 1 || m == 8,
    ;
    assert(d.subrange(prg_start(d), prg_start(d) + prg_len(d)) =~= body.subrange(
        prg_start(d) - HEADER_SIZE,
        prg_start(d) - HEADER_SIZE + prg_len(d),
    ));
}

} // verus!
