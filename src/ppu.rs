use vstd::prelude::*;
use crate::frame::{frame_bytes, with_pixel, FrameBuffer, FRAME_BYTES};
use crate::mapper::Mapper;
use crate::rom::Mirroring;

verus! {

/// Dots per scanline are 0..=LAST_DOT.
pub const LAST_DOT: usize = 340;

/// Scanlines per frame are 0..=PRE_LINE; PRE_LINE is the pre-render line.
pub const PRE_LINE: usize = 261;

/// The scanline whose first dot starts VBlank.
pub const VBLANK_LINE: usize = 241;

/// Dots between the rising edge of NMI and the moment it reaches the CPU.
pub const NMI_DELAY: u8 = 15;

/// The picture processing unit: registers, VRAM, OAM, the background and
/// sprite pipelines and two frame buffers.
#[derive(Debug)]
pub struct PPU {
    pub palette: Vec<u8>,
    pub name_table: Vec<u8>,
    pub oam_data: Vec<u8>,
    pub current_front: usize,
    pub buffer_0: FrameBuffer,
    pub buffer_1: FrameBuffer,
    // background pipeline
    pub name_table_byte: u8,
    pub attribute_table_byte: u8,
    pub low_tile_byte: u8,
    pub high_tile_byte: u8,
    pub tile_data: u64,
    // sprites of the current scanline
    pub sprite_count: usize,
    pub sprite_patterns: Vec<u32>,
    pub sprite_positions: Vec<u8>,
    pub sprite_priorities: Vec<u8>,
    pub sprite_indexes: Vec<u8>,
    // timing
    pub cycle: usize,
    pub scan_line: usize,
    pub frame: u64,
    // internal registers
    pub v: u16,
    pub t: u16,
    pub x: u8,
    pub w: u8,
    pub f: u8,
    pub register: u8,
    // NMI
    pub nmi_occurred: bool,
    pub nmi_output: bool,
    pub nmi_previous: bool,
    pub nmi_delay: u8,
    // $2000
    pub flag_name_table: u8,
    pub flag_increment: u8,
    pub flag_sprite_table: u8,
    pub flag_background_table: u8,
    pub flag_sprite_size: u8,
    pub flag_master_slave: u8,
    // $2001
    pub flag_grayscale: u8,
    pub flag_show_left_background: u8,
    pub flag_show_left_sprites: u8,
    pub flag_show_background: u8,
    pub flag_show_sprites: u8,
    pub flag_red_tint: u8,
    pub flag_green_tint: u8,
    pub flag_blue_tint: u8,
    // $2002
    pub flag_sprite_zero_hit: u8,
    pub flag_sprite_overflow: u8,
    // $2003
    pub oam_address: u8,
    // $2007
    pub buffered_data: u8,
}

/// Which physical nametable backs logical table `table` (0..4).
pub open spec fn mirror_table(m: Mirroring, table: int) -> int {
    match m {
        Mirroring::Horizontal => if table < 2 { 0 } else { 1 },
        Mirroring::Vertical => table % 2,
        Mirroring::Single0 => 0,
        Mirroring::Single1 => 1,
        Mirroring::FourScreen => table,
    }
}

/// The nametable address (0x2000..0x3000) that `address` (0x2000..0x3F00) reaches.
pub open spec fn mirror_spec(m: Mirroring, address: int) -> int {
    let a = (address - 0x2000) % 0x1000;
    0x2000 + mirror_table(m, a / 0x400) * 0x400 + a % 0x400
}

/// Palette RAM slot of a palette address: entries whose low nibble is zero
/// share slot 0.
pub open spec fn palette_slot(address: int) -> int {
    if address % 16 == 0 {
        0
    } else {
        address % 32
    }
}

/// `x` reduced into 16 bits, for `x < 0x20000`.
pub open spec fn wrap16(x: int) -> u16 {
    if x > 0xFFFF {
        (x - 0x10000) as u16
    } else {
        x as u16
    }
}

/// `x` reduced into 8 bits, for `x < 0x200`.
pub open spec fn wrap8(x: int) -> u8 {
    if x > 0xFF {
        (x - 0x100) as u8
    } else {
        x as u8
    }
}

/// `x` reduced into 64 bits, for `x <= 2 * u64::MAX`.
pub open spec fn wrap64(x: int) -> u64 {
    if x > u64::MAX {
        (x - u64::MAX - 1) as u64
    } else {
        x as u64
    }
}

/// The (dot, scanline, odd-frame flag) after one dot from (`c`, `l`, `f`).
pub open spec fn next_dot(c: int, l: int, f: int, rendering: bool) -> (int, int, int) {
    if rendering && f == 1 && l == PRE_LINE && c == 339 {
        (0, 0, 1 - f)
    } else if c < LAST_DOT {
        (c + 1, l, f)
    } else if l < PRE_LINE {
        (0, l + 1, f)
    } else {
        (0, 0, 1 - f)
    }
}

/// The (dot, scanline, odd-frame flag) after `k` dots.
pub open spec fn dots_after(c: int, l: int, f: int, rendering: bool, k: nat) -> (int, int, int)
    decreases k,
{
    if k == 0 {
        (c, l, f)
    } else {
        let p = dots_after(c, l, f, rendering, (k - 1) as nat);
        next_dot(p.0, p.1, p.2, rendering)
    }
}

/// Applies the nametable mirroring of the cartridge to a nametable address.
pub fn mirror_address(mirroring: Mirroring, address: u16) -> (r: usize)
    requires
        0x2000 <= address,
    ensures
        r == mirror_spec(mirroring, address as int),
        0x2000 <= r < 0x3000,
{
    let a = ((address - 0x2000) % 0x1000) as usize;
    let table = a / 0x400;
    let offset = a % 0x400;
    let page: usize = match mirroring {
        Mirroring::Horizontal => if table < 2 { 0 } else { 1 },
        Mirroring::Vertical => table % 2,
        Mirroring::Single0 => 0,
        Mirroring::Single1 => 1,
        Mirroring::FourScreen => table,
    };
    0x2000 + page * 0x400 + offset
}

impl PPU {
    pub open spec fn wf(&self) -> bool {
        &&& self.palette@.len() == 32
        &&& self.name_table@.len() == 2048
        &&& self.oam_data@.len() == 256
        &&& self.current_front <= 1
        &&& frame_bytes(self.buffer_0).len() == FRAME_BYTES
        &&& frame_bytes(self.buffer_1).len() == FRAME_BYTES
        &&& self.sprite_count <= 8
        &&& self.sprite_patterns@.len() == 8
        &&& self.sprite_positions@.len() == 8
        &&& self.sprite_priorities@.len() == 8
        &&& self.sprite_indexes@.len() == 8
        &&& self.cycle <= LAST_DOT
        &&& self.scan_line <= PRE_LINE
        &&& self.x <= 7
        &&& self.flag_background_table <= 1
        &&& self.flag_sprite_table <= 1
        &&& self.f <= 1
    }

    pub open spec fn rendering_enabled(&self) -> bool {
        self.flag_show_background != 0 || self.flag_show_sprites != 0
    }

    /// The frame the host sees.
    pub open spec fn front(&self) -> FrameBuffer {
        if self.current_front == 0 {
            self.buffer_0
        } else {
            self.buffer_1
        }
    }

    /// The frame being drawn.
    pub open spec fn back(&self) -> FrameBuffer {
        if self.current_front == 0 {
            self.buffer_1
        } else {
            self.buffer_0
        }
    }

    /// What the PPU bus holds at `address`, mirrored into 0x0000..0x4000.
    pub open spec fn vram(&self, mapper: Mapper, address: u16) -> u8 {
        let a = (address % 0x4000) as int;
        if a < 0x2000 {
            mapper.read_spec(a as u16)
        } else if a < 0x3F00 {
            self.name_table@[(mirror_spec(mapper.mirroring(), a) - 0x2000) % 2048]
        } else {
            self.palette@[palette_slot(a % 32)]
        }
    }

    /// The state after the NMI line is re-evaluated: a rising edge arms the delay.
    pub open spec fn nmi_changed(p: PPU) -> PPU {
        let nmi = p.nmi_output && p.nmi_occurred;
        PPU {
            nmi_delay: if nmi && !p.nmi_previous {
                NMI_DELAY
            } else {
                p.nmi_delay
            },
            nmi_previous: nmi,
            ..p
        }
    }

    /// The state after a write of `value` to $2000.
    pub open spec fn control_written(p: PPU, value: u8) -> PPU {
        PPU::nmi_changed(
            PPU {
                flag_name_table: (value >> 0u8) & 3,
                flag_increment: (value >> 2u8) & 1,
                flag_sprite_table: (value >> 3u8) & 1,
                flag_background_table: (value >> 4u8) & 1,
                flag_sprite_size: (value >> 5u8) & 1,
                flag_master_slave: (value >> 6u8) & 1,
                nmi_output: (value >> 7u8) & 1 == 1,
                t: (p.t & 0xF3FF) | (((value as u16) & 0x03) << 10u16),
                ..p
            },
        )
    }

    /// The state after a reset: timeline at the start of VBlank, $2000,
    /// $2001 and $2003 cleared.
    pub open spec fn reset_state(p: PPU) -> PPU {
        PPU {
            oam_address: 0,
            ..PPU::mask_written(
                PPU::control_written(
                    (PPU { cycle: 0, scan_line: VBLANK_LINE, frame: 0, ..p }),
                    0,
                ),
                0,
            )
        }
    }

    /// The state after a write of `value` to $2001.
    pub open spec fn mask_written(p: PPU, value: u8) -> PPU {
        PPU {
            flag_grayscale: (value >> 0u8) & 1,
            flag_show_left_background: (value >> 1u8) & 1,
            flag_show_left_sprites: (value >> 2u8) & 1,
            flag_show_background: (value >> 3u8) & 1,
            flag_show_sprites: (value >> 4u8) & 1,
            flag_red_tint: (value >> 5u8) & 1,
            flag_green_tint: (value >> 6u8) & 1,
            flag_blue_tint: (value >> 7u8) & 1,
            ..p
        }
    }

    /// The byte that a read of $2002 returns.
    pub open spec fn status_byte(&self) -> u8 {
        (self.register & 0x1F) | (self.flag_sprite_overflow << 5u8) | (self.flag_sprite_zero_hit
            << 6u8) | if self.nmi_occurred {
            0x80u8
        } else {
            0u8
        }
    }

    /// The state after a write of `value` to $2005.
    pub open spec fn scroll_written(p: PPU, value: u8) -> PPU {
        if p.w == 0 {
            PPU { t: (p.t & 0xFFE0) | ((value as u16) >> 3u16), x: value & 0x07, w: 1, ..p }
        } else {
            PPU {
                t: (((p.t & 0x8FFF) | (((value as u16) & 0x07) << 12u16)) & 0xFC1F) | (((
                value as u16) & 0xF8) << 2u16),
                w: 0,
                ..p
            }
        }
    }

    /// The state after a write of `value` to $2006.
    pub open spec fn address_written(p: PPU, value: u8) -> PPU {
        if p.w == 0 {
            PPU { t: (p.t & 0x80FF) | (((value as u16) & 0x3F) << 8u16), w: 1, ..p }
        } else {
            let t = (p.t & 0xFF00) | (value as u16);
            PPU { t: t, v: t, w: 0, ..p }
        }
    }

    /// `v` after a $2007 access.
    pub open spec fn advanced_v(&self) -> u16 {
        if self.flag_increment == 0 {
            wrap16(self.v + 1)
        } else {
            wrap16(self.v + 0x20)
        }
    }
}

impl PPU {
    pub fn new() -> (r: PPU)
        ensures
            r.wf(),
            r.palette@ == Seq::new(32, |i: int| 0u8),
            r.name_table@ == Seq::new(2048, |i: int| 0u8),
            r.oam_data@ == Seq::new(256, |i: int| 0u8),
            r.current_front == 0,
            frame_bytes(r.buffer_0) == Seq::new(FRAME_BYTES as nat, |i: int| 0u8),
            frame_bytes(r.buffer_1) == Seq::new(FRAME_BYTES as nat, |i: int| 0u8),
            r.name_table_byte == 0 && r.attribute_table_byte == 0 && r.low_tile_byte == 0
                && r.high_tile_byte == 0 && r.tile_data == 0,
            r.sprite_count == 0,
            r.sprite_patterns@ == seq![0u32; 8] && r.sprite_positions@ == seq![0u8; 8]
                && r.sprite_priorities@ == seq![0u8; 8] && r.sprite_indexes@ == seq![0u8; 8],
            r.cycle == 0 && r.scan_line == 0 && r.frame == 0,
            r.v == 0 && r.t == 0 && r.x == 0 && r.w == 0 && r.f == 0 && r.register == 0,
            r.nmi_occurred && !r.nmi_output && !r.nmi_previous && r.nmi_delay == 0,
            r.flag_name_table == 0 && r.flag_increment == 0 && r.flag_sprite_table == 0
                && r.flag_background_table == 0 && r.flag_sprite_size == 0 && r.flag_master_slave == 0,
            r.flag_grayscale == 0 && r.flag_show_left_background == 0 && r.flag_show_left_sprites == 0
                && r.flag_show_background == 0 && r.flag_show_sprites == 0 && r.flag_red_tint == 0
                && r.flag_green_tint == 0 && r.flag_blue_tint == 0,
            r.flag_sprite_zero_hit == 0 && r.flag_sprite_overflow == 1,
            r.oam_address == 0 && r.buffered_data == 0,
    {
        let r = PPU {
            palette: crate::rom::zeroed(32),
            name_table: crate::rom::zeroed(2048),
            oam_data: crate::rom::zeroed(256),
            current_front: 0,
            buffer_0: FrameBuffer::blank(),
            buffer_1: FrameBuffer::blank(),
            name_table_byte: 0,
            attribute_table_byte: 0,
            low_tile_byte: 0,
            high_tile_byte: 0,
            tile_data: 0,
            sprite_count: 0,
            sprite_patterns: vec![0u32, 0, 0, 0, 0, 0, 0, 0],
            sprite_positions: vec![0u8, 0, 0, 0, 0, 0, 0, 0],
            sprite_priorities: vec![0u8, 0, 0, 0, 0, 0, 0, 0],
            sprite_indexes: vec![0u8, 0, 0, 0, 0, 0, 0, 0],
            cycle: 0,
            scan_line: 0,
            frame: 0,
            v: 0,
            t: 0,
            x: 0,
            w: 0,
            f: 0,
            register: 0,
            nmi_occurred: true,
            nmi_output: false,
            nmi_previous: false,
            nmi_delay: 0,
            flag_name_table: 0,
            flag_increment: 0,
            flag_sprite_table: 0,
            flag_background_table: 0,
            flag_sprite_size: 0,
            flag_master_slave: 0,
            flag_grayscale: 0,
            flag_show_left_background: 0,
            flag_show_left_sprites: 0,
            flag_show_background: 0,
            flag_show_sprites: 0,
            flag_red_tint: 0,
            flag_green_tint: 0,
            flag_blue_tint: 0,
            flag_sprite_zero_hit: 0,
            flag_sprite_overflow: 1,
            oam_address: 0,
            buffered_data: 0,
        };
        assert(r.sprite_patterns@ =~= seq![0u32; 8]);
        assert(r.sprite_positions@ =~= seq![0u8; 8]);
        assert(r.sprite_priorities@ =~= seq![0u8; 8]);
        assert(r.sprite_indexes@ =~= seq![0u8; 8]);
        r
    }

    /// Puts the timeline at the start of VBlank and clears $2000, $2001 and $2003.
    pub fn reset(&mut self)
        requires
            old(self).wf(),
        ensures
            final(self).wf(),
            *final(self) == PPU::reset_state(*old(self)),
            final(self).cycle == 0 && final(self).scan_line == VBLANK_LINE,
            final(self).oam_address == 0,
    {
        self.cycle = 0;
        self.scan_line = VBLANK_LINE;
        self.frame = 0;
        self.write_control(0);
        self.write_mask(0);
        self.write_oam_address(0);
    }

    /// The front buffer, RGB24 row-major.
    pub fn get_pixels(&self) -> (r: &[u8])
        requires
            self.wf(),
        ensures
            r@ == frame_bytes(self.front()),
            r@.len() == FRAME_BYTES,
    {
        if self.current_front == 0 {
            self.buffer_0.bytes()
        } else {
            self.buffer_1.bytes()
        }
    }

    pub fn get_cycle(&self) -> (r: usize)
        ensures
            r == self.cycle,
    {
        self.cycle
    }

    /// The scanline, with the pre-render line numbered -1.
    pub fn get_sl(&self) -> (r: i32)
        requires
            self.wf(),
        ensures
            r == if self.scan_line == PRE_LINE {
                -1
            } else {
                self.scan_line as int
            },
    {
        if self.scan_line == PRE_LINE {
            -1
        } else {
            self.scan_line as i32
        }
    }

    fn read_palette(&self, address: u16) -> (r: u8)
        requires
            self.wf(),
            address < 32,
        ensures
            r == self.palette@[palette_slot(address as int)],
    {
        let a: usize = if address % 16 == 0 {
            0
        } else {
            (address % 32) as usize
        };
        self.palette[a]
    }

    fn write_palette(&mut self, address: u16, value: u8)
        requires
            old(self).wf(),
            address < 32,
        ensures
            final(self).palette@ == old(self).palette@.update(palette_slot(address as int), value),
            *final(self) == (PPU { palette: final(self).palette, ..*old(self) }),
    {
        let a: usize = if address % 16 == 0 {
            0
        } else {
            (address % 32) as usize
        };
        self.palette.set(a, value);
    }

    /// Reads the PPU bus: CHR through the mapper, nametables, palette.
    pub fn read(&self, mapper: &Mapper, address: u16) -> (r: u8)
        requires
            self.wf(),
            mapper.wf(),
        ensures
            r == self.vram(*mapper, address),
    {
        let a = address % 0x4000;
        if a < 0x2000 {
            mapper.read(a)
        } else if a < 0x3F00 {
            let m = mirror_address(mapper.get_mirroring(), a);
            self.name_table[(m - 0x2000) % 2048]
        } else {
            self.read_palette(a % 32)
        }
    }

    /// Writes the PPU bus: CHR through the mapper, nametables, palette.
    pub fn write(&mut self, mapper: &mut Mapper, address: u16, value: u8)
        requires
            old(self).wf(),
            old(mapper).wf(),
        ensures
            final(self).wf(),
            final(mapper).wf(),
            address % 0x4000 < 0x2000 ==> *final(self) == *old(self) && Mapper::write_post(
                *old(mapper),
                *final(mapper),
                (address % 0x4000) as u16,
                value,
            ),
            0x2000 <= address % 0x4000 < 0x3F00 ==> *final(mapper) == *old(mapper)
                && final(self).name_table@ == old(self).name_table@.update(
                (mirror_spec(old(mapper).mirroring(), (address % 0x4000) as int) - 0x2000) % 2048,
                value,
            ) && *final(self) == (PPU { name_table: final(self).name_table, ..*old(self) }),
            0x3F00 <= address % 0x4000 ==> *final(mapper) == *old(mapper)
                && final(self).palette@ == old(self).palette@.update(
                palette_slot((address % 32) as int),
                value,
            ) && *final(self) == (PPU { palette: final(self).palette, ..*old(self) }),
    {
        let a = address % 0x4000;
        if a < 0x2000 {
            mapper.write(a, value);
        } else if a < 0x3F00 {
            let m = mirror_address(mapper.get_mirroring(), a);
            self.name_table.set((m - 0x2000) % 2048, value);
        } else {
            assert(a % 32 == address % 32) by (nonlinear_arith)
                requires a == address % 0x4000;
            self.write_palette(a % 32, value);
        }
    }

    fn nmi_change(&mut self)
        ensures
            *final(self) == PPU::nmi_changed(*old(self)),
    {
        let nmi = self.nmi_output && self.nmi_occurred;
        if nmi && !self.nmi_previous {
            self.nmi_delay = NMI_DELAY;
        }
        self.nmi_previous = nmi;
    }

    fn write_control(&mut self, value: u8)
        requires
            old(self).wf(),
        ensures
            final(self).wf(),
            *final(self) == PPU::control_written(*old(self), value),
    {
        assert((value >> 3u8) & 1 <= 1 && (value >> 4u8) & 1 <= 1) by (bit_vector);
        self.flag_name_table = (value >> 0u8) & 3;
        self.flag_increment = (value >> 2u8) & 1;
        self.flag_sprite_table = (value >> 3u8) & 1;
        self.flag_background_table = (value >> 4u8) & 1;
        self.flag_sprite_size = (value >> 5u8) & 1;
        self.flag_master_slave = (value >> 6u8) & 1;
        self.nmi_output = (value >> 7u8) & 1 == 1;
        self.t = (self.t & 0xF3FF) | (((value as u16) & 0x03) << 10u16);
        self.nmi_change();
    }

    fn write_mask(&mut self, value: u8)
        ensures
            *final(self) == PPU::mask_written(*old(self), value),
    {
        self.flag_grayscale = (value >> 0u8) & 1;
        self.flag_show_left_background = (value >> 1u8) & 1;
        self.flag_show_left_sprites = (value >> 2u8) & 1;
        self.flag_show_background = (value >> 3u8) & 1;
        self.flag_show_sprites = (value >> 4u8) & 1;
        self.flag_red_tint = (value >> 5u8) & 1;
        self.flag_green_tint = (value >> 6u8) & 1;
        self.flag_blue_tint = (value >> 7u8) & 1;
    }

    fn read_status(&mut self) -> (r: u8)
        ensures
            r == old(self).status_byte(),
            *final(self) == PPU::nmi_changed((PPU { nmi_occurred: false, w: 0, ..*old(self) })),
    {
        let mut result = self.register & 0x1F;
        result = result | (self.flag_sprite_overflow << 5u8);
        result = result | (self.flag_sprite_zero_hit << 6u8);
        if self.nmi_occurred {
            result = result | 0x80u8;
        } else {
            result = result | 0u8;
        }
        self.nmi_occurred = false;
        self.w = 0;
        self.nmi_change();
        result
    }

    fn write_oam_address(&mut self, value: u8)
        ensures
            *final(self) == (PPU { oam_address: value, ..*old(self) }),
    {
        self.oam_address = value;
    }

    fn read_oam_data(&self) -> (r: u8)
        requires
            self.wf(),
        ensures
            r == self.oam_data@[self.oam_address as int],
    {
        self.oam_data[self.oam_address as usize]
    }

    fn write_oam_data(&mut self, value: u8)
        requires
            old(self).wf(),
        ensures
            final(self).oam_data@ == old(self).oam_data@.update(old(self).oam_address as int, value),
            *final(self) == (PPU {
                oam_data: final(self).oam_data,
                oam_address: wrap8(old(self).oam_address + 1),
                ..*old(self)
            }),
    {
        self.oam_data.set(self.oam_address as usize, value);
        self.oam_address = self.oam_address.wrapping_add(1);
    }

    fn write_scroll(&mut self, value: u8)
        requires
            old(self).wf(),
        ensures
            final(self).wf(),
            *final(self) == PPU::scroll_written(*old(self), value),
    {
        assert(value & 0x07 <= 7) by (bit_vector);
        if self.w == 0 {
            self.t = (self.t & 0xFFE0) | ((value as u16) >> 3u16);
            self.x = value & 0x07;
            self.w = 1;
        } else {
            self.t = (self.t & 0x8FFF) | (((value as u16) & 0x07) << 12u16);
            self.t = (self.t & 0xFC1F) | (((value as u16) & 0xF8) << 2u16);
            self.w = 0;
        }
    }

    fn write_address(&mut self, value: u8)
        ensures
            *final(self) == PPU::address_written(*old(self), value),
    {
        if self.w == 0 {
            self.t = (self.t & 0x80FF) | (((value as u16) & 0x3F) << 8u16);
            self.w = 1;
        } else {
            self.t = (self.t & 0xFF00) | (value as u16);
            self.v = self.t;
            self.w = 0;
        }
    }

    /// A $2007 read: buffered below the palette, direct within it.
    fn read_data(&mut self, mapper: &Mapper) -> (r: u8)
        requires
            old(self).wf(),
            mapper.wf(),
        ensures
            old(self).v % 0x4000 < 0x3F00 ==> r == old(self).buffered_data && *final(self) == (PPU {
                buffered_data: old(self).vram(*mapper, old(self).v),
                v: old(self).advanced_v(),
                ..*old(self)
            }),
            old(self).v % 0x4000 >= 0x3F00 ==> r == old(self).vram(*mapper, old(self).v)
                && *final(self) == (PPU {
                buffered_data: old(self).vram(*mapper, (old(self).v - 0x1000) as u16),
                v: old(self).advanced_v(),
                ..*old(self)
            }),
    {
        let mut value = self.read(mapper, self.v);
        if self.v % 0x4000 < 0x3F00 {
            let buffered = self.buffered_data;
            self.buffered_data = value;
            value = buffered;
        } else {
            self.buffered_data = self.read(mapper, self.v - 0x1000);
        }
        if self.flag_increment == 0 {
            self.v = self.v.wrapping_add(1);
        } else {
            self.v = self.v.wrapping_add(0x20);
        }
        value
    }

    /// A $2007 write through `v`, which then advances.
    fn write_data(&mut self, mapper: &mut Mapper, value: u8)
        requires
            old(self).wf(),
            old(mapper).wf(),
        ensures
            PPU::data_write_post(*old(self), *final(self), *old(mapper), *final(mapper), value),
    {
        let v = self.v;
        self.write(mapper, v, value);
        if self.flag_increment == 0 {
            self.v = self.v.wrapping_add(1);
        } else {
            self.v = self.v.wrapping_add(0x20);
        }
    }
}

/// `v` after coarse X moves one tile right, wrapping into the next
/// horizontal nametable.
pub open spec fn incremented_x(v: u16) -> u16 {
    if v & 0x001F == 31 {
        (v & 0xFFE0) ^ 0x0400
    } else {
        wrap16(v + 1)
    }
}

/// `v` after fine Y moves one row down, carrying into coarse Y, which wraps
/// at 29 into the next vertical nametable and at 31 without it.
pub open spec fn incremented_y(v: u16) -> u16 {
    if v & 0x7000 != 0x7000 {
        wrap16(v + 0x1000)
    } else {
        let v1 = v & 0x8FFF;
        let y = (v1 & 0x03E0) >> 5u16;
        if y == 29 {
            ((v1 ^ 0x0800) & 0xFC1F) | (0u16 << 5u16)
        } else if y == 31 {
            (v1 & 0xFC1F) | (0u16 << 5u16)
        } else {
            (v1 & 0xFC1F) | (((y + 1) as u16) << 5u16)
        }
    }
}

/// `v` with the horizontal bits of `t`.
pub open spec fn copied_x(v: u16, t: u16) -> u16 {
    (v & 0xFBE0) | (t & 0x041F)
}

/// `v` with the vertical bits of `t`.
pub open spec fn copied_y(v: u16, t: u16) -> u16 {
    (v & 0x841F) | (t & 0x7BE0)
}

/// Address of the attribute byte that covers the tile at `v`.
pub open spec fn attribute_address(v: u16) -> u16 {
    0x23C0 | (v & 0x0C00) | ((v >> 4u16) & 0x38) | ((v >> 2u16) & 0x07)
}

/// Shift of the tile's two palette bits within its attribute byte.
pub open spec fn attribute_shift(v: u16) -> u16 {
    ((v >> 4u16) & 4) | (v & 2)
}

/// Address of the low pattern byte of the background tile row at `v`.
pub open spec fn tile_address(table: u8, tile: u8, v: u16) -> u16 {
    (0x1000 * table + tile * 16 + ((v >> 12u16) & 7)) as u16
}

/// The 4-bit pixels of one tile row, leftmost in the high nibble: `steps`
/// more pixels taken from the top bits of `low` and `high` are appended to `acc`.
pub open spec fn row_pixels(attr: u8, low: u8, high: u8, steps: nat, acc: u32) -> u32
    decreases steps,
{
    if steps == 0 {
        acc
    } else {
        let p = (attr | ((low & 0x80) >> 7u8) | ((high & 0x80) >> 6u8)) as u32;
        row_pixels(attr, (low << 1u8) as u8, (high << 1u8) as u8, (steps - 1) as nat, (acc << 4u32) | p)
    }
}

/// The same for a sprite row drawn mirrored: pixels come from the low bits.
pub open spec fn row_pixels_flipped(attr: u8, low: u8, high: u8, steps: nat, acc: u32) -> u32
    decreases steps,
{
    if steps == 0 {
        acc
    } else {
        let p = (attr | (low & 1) | ((high & 1) << 1u8)) as u32;
        row_pixels_flipped(attr, low >> 1u8, high >> 1u8, (steps - 1) as nat, (acc << 4u32) | p)
    }
}

impl PPU {
    /// The byte that a read of a CPU-visible register returns.
    pub open spec fn register_value(&self, mapper: Mapper, address: u16) -> u8 {
        if address == 0x2002 {
            self.status_byte()
        } else if address == 0x2004 {
            self.oam_data@[self.oam_address as int]
        } else if address == 0x2007 {
            if self.v % 0x4000 < 0x3F00 {
                self.buffered_data
            } else {
                self.vram(mapper, self.v)
            }
        } else {
            0
        }
    }

    /// The state after a read of a CPU-visible register.
    pub open spec fn register_read(p: PPU, mapper: Mapper, address: u16) -> PPU {
        if address == 0x2002 {
            PPU::nmi_changed((PPU { nmi_occurred: false, w: 0, ..p }))
        } else if address == 0x2007 {
            PPU {
                buffered_data: if p.v % 0x4000 < 0x3F00 {
                    p.vram(mapper, p.v)
                } else {
                    p.vram(mapper, (p.v - 0x1000) as u16)
                },
                v: p.advanced_v(),
                ..p
            }
        } else {
            p
        }
    }

    /// What a read of a CPU-visible register would return, without its side effects.
    pub fn peek_register(&self, mapper: &Mapper, address: u16) -> (r: u8)
        requires
            self.wf(),
            mapper.wf(),
        ensures
            r == self.register_value(*mapper, address),
    {
        if address == 0x2002 {
            let mut result = self.register & 0x1F;
            result = result | (self.flag_sprite_overflow << 5u8);
            result = result | (self.flag_sprite_zero_hit << 6u8);
            if self.nmi_occurred {
                result = result | 0x80u8;
            } else {
                result = result | 0u8;
            }
            result
        } else if address == 0x2004 {
            self.oam_data[self.oam_address as usize]
        } else if address == 0x2007 {
            if self.v % 0x4000 < 0x3F00 {
                self.buffered_data
            } else {
                self.read(mapper, self.v)
            }
        } else {
            0
        }
    }

    /// Reads $2002, $2004 or $2007; other registers read as 0.
    pub fn read_register(&mut self, mapper: &Mapper, address: u16) -> (r: u8)
        requires
            old(self).wf(),
            mapper.wf(),
        ensures
            final(self).wf(),
            r == old(self).register_value(*mapper, address),
            *final(self) == PPU::register_read(*old(self), *mapper, address),
    {
        if address == 0x2002 {
            self.read_status()
        } else if address == 0x2004 {
            self.read_oam_data()
        } else if address == 0x2007 {
            self.read_data(mapper)
        } else {
            0
        }
    }

    /// What a write of `value` to register `address` guarantees of the new
    /// PPU `q` and mapper `n`.
    pub open spec fn register_write_post(
        p: PPU,
        q: PPU,
        m: Mapper,
        n: Mapper,
        address: u16,
        value: u8,
    ) -> bool {
        let r = PPU { register: value, ..p };
        &&& q.wf()
        &&& n.wf()
        &&& address != 0x2007 ==> n == m
        &&& address == 0x2000 ==> q == PPU::control_written(r, value)
        &&& address == 0x2001 ==> q == PPU::mask_written(r, value)
        &&& address == 0x2003 ==> q == (PPU { oam_address: value, ..r })
        &&& address == 0x2004 ==> q.oam_data@ == p.oam_data@.update(p.oam_address as int, value)
            && q == (PPU { oam_data: q.oam_data, oam_address: wrap8(p.oam_address + 1), ..r })
        &&& address == 0x2005 ==> q == PPU::scroll_written(r, value)
        &&& address == 0x2006 ==> q == PPU::address_written(r, value)
        &&& address == 0x2007 ==> PPU::data_write_post(r, q, m, n, value)
        &&& (address < 0x2000 || address == 0x2002 || address > 0x2007) ==> q == r
    }

    /// What a $2007 write of `value` guarantees of the new PPU `q` and mapper `n`.
    pub open spec fn data_write_post(p: PPU, q: PPU, m: Mapper, n: Mapper, value: u8) -> bool {
        let a = p.v % 0x4000;
        &&& q.wf()
        &&& n.wf()
        &&& a < 0x2000 ==> q == (PPU { v: p.advanced_v(), ..p }) && Mapper::write_post(
            m,
            n,
            a as u16,
            value,
        )
        &&& 0x2000 <= a < 0x3F00 ==> n == m && q.name_table@ == p.name_table@.update(
            (mirror_spec(m.mirroring(), a as int) - 0x2000) % 2048,
            value,
        ) && q == (PPU { name_table: q.name_table, v: p.advanced_v(), ..p })
        &&& 0x3F00 <= a ==> n == m && q.palette@ == p.palette@.update(
            palette_slot((p.v % 32) as int),
            value,
        ) && q == (PPU { palette: q.palette, v: p.advanced_v(), ..p })
    }


    /// Writes one of $2000-$2007; the value is also kept for the open-bus
    /// bits of $2002.
    pub fn write_register(&mut self, mapper: &mut Mapper, address: u16, value: u8)
        requires
            old(self).wf(),
            old(mapper).wf(),
        ensures
            PPU::register_write_post(*old(self), *final(self), *old(mapper), *final(mapper), address, value),
    {
        self.register = value;
        if address == 0x2000 {
            self.write_control(value);
        } else if address == 0x2001 {
            self.write_mask(value);
        } else if address == 0x2003 {
            self.write_oam_address(value);
        } else if address == 0x2004 {
            self.write_oam_data(value);
        } else if address == 0x2005 {
            self.write_scroll(value);
        } else if address == 0x2006 {
            self.write_address(value);
        } else if address == 0x2007 {
            self.write_data(mapper, value);
        }
    }

    fn increment_x(&mut self)
        ensures
            *final(self) == (PPU { v: incremented_x(old(self).v), ..*old(self) }),
    {
        if self.v & 0x001F == 31 {
            self.v = (self.v & 0xFFE0) ^ 0x0400;
        } else {
            self.v = self.v.wrapping_add(1);
        }
    }

    fn increment_y(&mut self)
        ensures
            *final(self) == (PPU { v: incremented_y(old(self).v), ..*old(self) }),
    {
        if self.v & 0x7000 != 0x7000 {
            self.v = self.v.wrapping_add(0x1000);
        } else {
            self.v = self.v & 0x8FFF;
            let vv = self.v;
            let mut y: u16 = (vv & 0x03E0) >> 5u16;
            assert(((vv & 0x03E0) >> 5u16) <= 31) by (bit_vector);
            if y == 29 {
                y = 0;
                self.v = self.v ^ 0x0800;
            } else if y == 31 {
                y = 0;
            } else {
                y = y + 1;
            }
            self.v = (self.v & 0xFC1F) | (y << 5u16);
        }
    }

    fn copy_x(&mut self)
        ensures
            *final(self) == (PPU { v: copied_x(old(self).v, old(self).t), ..*old(self) }),
    {
        self.v = (self.v & 0xFBE0) | (self.t & 0x041F);
    }

    fn copy_y(&mut self)
        ensures
            *final(self) == (PPU { v: copied_y(old(self).v, old(self).t), ..*old(self) }),
    {
        self.v = (self.v & 0x841F) | (self.t & 0x7BE0);
    }

    /// Enters VBlank: the finished frame becomes the front one.
    fn set_vblank(&mut self)
        requires
            old(self).current_front <= 1,
        ensures
            *final(self) == PPU::nmi_changed(
                (PPU {
                    current_front: (1 - old(self).current_front) as usize,
                    nmi_occurred: true,
                    ..*old(self)
                }),
            ),
    {
        self.current_front = if self.current_front == 0 {
            1
        } else {
            0
        };
        self.nmi_occurred = true;
        self.nmi_change();
    }

    fn clear_vblank(&mut self)
        ensures
            *final(self) == PPU::nmi_changed((PPU { nmi_occurred: false, ..*old(self) })),
    {
        self.nmi_occurred = false;
        self.nmi_change();
    }

    fn fetch_name_table_byte(&mut self, mapper: &Mapper)
        requires
            old(self).wf(),
            mapper.wf(),
        ensures
            *final(self) == (PPU {
                name_table_byte: old(self).vram(*mapper, 0x2000 | (old(self).v & 0x0FFF)),
                ..*old(self)
            }),
    {
        let address = 0x2000 | (self.v & 0x0FFF);
        self.name_table_byte = self.read(mapper, address);
    }

    fn fetch_attribute_table_byte(&mut self, mapper: &Mapper)
        requires
            old(self).wf(),
            mapper.wf(),
        ensures
            *final(self) == (PPU {
                attribute_table_byte: ((old(self).vram(*mapper, attribute_address(old(self).v))
                    >> attribute_shift(old(self).v)) & 3) << 2u8,
                ..*old(self)
            }),
    {
        let v = self.v;
        let address = 0x23C0 | (v & 0x0C00) | ((v >> 4u16) & 0x38) | ((v >> 2u16) & 0x07);
        let shift = ((v >> 4u16) & 4) | (v & 2);
        assert((((v >> 4u16) & 4) | (v & 2)) <= 6) by (bit_vector);
        self.attribute_table_byte = ((self.read(mapper, address) >> shift) & 3) << 2u8;
    }

    fn fetch_low_tile_byte(&mut self, mapper: &Mapper)
        requires
            old(self).wf(),
            mapper.wf(),
            old(self).flag_background_table <= 1,
        ensures
            *final(self) == (PPU {
                low_tile_byte: old(self).vram(
                    *mapper,
                    tile_address(old(self).flag_background_table, old(self).name_table_byte, old(self).v),
                ),
                ..*old(self)
            }),
    {
        let vv = self.v;
        let y = (vv >> 12u16) & 7;
        assert(((vv >> 12u16) & 7) <= 7) by (bit_vector);
        let table = self.flag_background_table as u16;
        let tile = self.name_table_byte as u16;
        let address = 0x1000 * table + tile * 16 + y;
        self.low_tile_byte = self.read(mapper, address);
    }

    fn fetch_high_tile_byte(&mut self, mapper: &Mapper)
        requires
            old(self).wf(),
            mapper.wf(),
            old(self).flag_background_table <= 1,
        ensures
            *final(self) == (PPU {
                high_tile_byte: old(self).vram(
                    *mapper,
                    (tile_address(old(self).flag_background_table, old(self).name_table_byte, old(self).v) + 8) as u16,
                ),
                ..*old(self)
            }),
    {
        let vv = self.v;
        let y = (vv >> 12u16) & 7;
        assert(((vv >> 12u16) & 7) <= 7) by (bit_vector);
        let table = self.flag_background_table as u16;
        let tile = self.name_table_byte as u16;
        let address = 0x1000 * table + tile * 16 + y;
        self.high_tile_byte = self.read(mapper, address + 8);
    }

    /// Appends the eight pixels of the fetched tile row to the low half of
    /// the tile-data lane.
    fn store_tile_data(&mut self)
        ensures
            *final(self) == (PPU {
                tile_data: old(self).tile_data | (row_pixels(
                    old(self).attribute_table_byte,
                    old(self).low_tile_byte,
                    old(self).high_tile_byte,
                    8,
                    0,
                ) as u64),
                ..*old(self)
            }),
    {
        let a = self.attribute_table_byte;
        let mut low = self.low_tile_byte;
        let mut high = self.high_tile_byte;
        let mut data: u32 = 0;
        let mut i: usize = 0;
        while i < 8
            invariant
                i <= 8,
                row_pixels(a, low, high, (8 - i) as nat, data) == row_pixels(
                    a,
                    self.low_tile_byte,
                    self.high_tile_byte,
                    8,
                    0,
                ),
            decreases 8 - i,
        {
            let p1 = (low & 0x80) >> 7u8;
            let p2 = (high & 0x80) >> 6u8;
            low = low << 1u8;
            high = high << 1u8;
            data = (data << 4u32) | ((a | p1 | p2) as u32);
            i = i + 1;
        }
        self.tile_data = self.tile_data | (data as u64);
    }

    fn fetch_tile_data(&self) -> (r: u32)
        ensures
            r == (self.tile_data >> 32u64) as u32,
    {
        (self.tile_data >> 32u64) as u32
    }
}

/// The 64 system colors as 0xRRGGBB.
pub open spec fn system_palette() -> Seq<u32> {
    seq![
        0x666666u32, 0x002A88, 0x1412A7, 0x3B00A4, 0x5C007E, 0x6E0040, 0x6C0600, 0x561D00,
        0x333500, 0x0B4800, 0x005200, 0x004F08, 0x00404D, 0x000000, 0x000000, 0x000000,
        0xADADAD, 0x155FD9, 0x4240FF, 0x7527FE, 0xA01ACC, 0xB71E7B, 0xB53120, 0x994E00,
        0x6B6D00, 0x388700, 0x0C9300, 0x008F32, 0x007C8D, 0x000000, 0x000000, 0x000000,
        0xFFFEFF, 0x64B0FF, 0x9290FF, 0xC676FF, 0xF36AFF, 0xFE6ECC, 0xFE8170, 0xEA9E22,
        0xBCBE00, 0x88D800, 0x5CE430, 0x45E082, 0x48CDDE, 0x4F4F4F, 0x000000, 0x000000,
        0xFFFEFF, 0xC0DFFF, 0xD3D2FF, 0xE8C8FF, 0xFBC2FF, 0xFEC4EA, 0xFECCC5, 0xF7D8A5,
        0xE4E594, 0xCFEF96, 0xBDF4AB, 0xB3F3CC, 0xB5EBF2, 0xB8B8B8, 0x000000, 0x000000,
    ]
}

/// Red, green and blue of system color `index`.
pub open spec fn system_rgb(index: int) -> (u8, u8, u8) {
    let c = system_palette()[index];
    ((c >> 16u32) as u8, (c >> 8u32) as u8, c as u8)
}

/// Red, green and blue of system color `index`.
pub fn system_color(index: u8) -> (r: (u8, u8, u8))
    requires
        index < 64,
    ensures
        r == system_rgb(index as int),
{
    let table: [u32; 64] = [
        0x666666u32, 0x002A88, 0x1412A7, 0x3B00A4, 0x5C007E, 0x6E0040, 0x6C0600, 0x561D00,
        0x333500, 0x0B4800, 0x005200, 0x004F08, 0x00404D, 0x000000, 0x000000, 0x000000,
        0xADADAD, 0x155FD9, 0x4240FF, 0x7527FE, 0xA01ACC, 0xB71E7B, 0xB53120, 0x994E00,
        0x6B6D00, 0x388700, 0x0C9300, 0x008F32, 0x007C8D, 0x000000, 0x000000, 0x000000,
        0xFFFEFF, 0x64B0FF, 0x9290FF, 0xC676FF, 0xF36AFF, 0xFE6ECC, 0xFE8170, 0xEA9E22,
        0xBCBE00, 0x88D800, 0x5CE430, 0x45E082, 0x48CDDE, 0x4F4F4F, 0x000000, 0x000000,
        0xFFFEFF, 0xC0DFFF, 0xD3D2FF, 0xE8C8FF, 0xFBC2FF, 0xFEC4EA, 0xFECCC5, 0xF7D8A5,
        0xE4E594, 0xCFEF96, 0xBDF4AB, 0xB3F3CC, 0xB5EBF2, 0xB8B8B8, 0x000000, 0x000000,
    ];
    assert(table@ =~= system_palette());
    let c = table[index as usize];
    ((c >> 16u32) as u8, (c >> 8u32) as u8, c as u8)
}

impl PPU {
    /// The background color index under the current dot (0 when hidden).
    pub open spec fn background_spec(&self) -> u8 {
        if self.flag_show_background == 0 {
            0
        } else {
            ((((self.tile_data >> 32u64) as u32) >> (((7 - self.x) * 4) as u32)) & 0x0F) as u8
        }
    }

    /// The first sprite from slot `i` on that covers the current dot with an
    /// opaque pixel: (slot, color), or (0, 0).
    pub open spec fn sprite_from(&self, i: int) -> (u8, u8)
        decreases 8 - i,
    {
        if i < 0 || i >= self.sprite_count || i >= 8 {
            (0, 0)
        } else {
            let offset = (self.cycle - 1) - self.sprite_positions@[i];
            if offset < 0 || offset > 7 {
                self.sprite_from(i + 1)
            } else {
                let color = (self.sprite_patterns@[i] >> ((7 - offset) * 4) as u32) & 0x0F;
                if color % 4 == 0 {
                    self.sprite_from(i + 1)
                } else {
                    (i as u8, color as u8)
                }
            }
        }
    }

    pub open spec fn sprite_spec(&self) -> (u8, u8) {
        if self.flag_show_sprites == 0 {
            (0, 0)
        } else {
            self.sprite_from(0)
        }
    }

    /// Background color index at screen column `x`, after left-column masking.
    pub open spec fn shown_background(&self, x: int) -> u8 {
        if x < 8 && self.flag_show_left_background == 0 {
            0
        } else {
            self.background_spec()
        }
    }

    /// Sprite color index at screen column `x`, after left-column masking.
    pub open spec fn shown_sprite(&self, x: int) -> u8 {
        if x < 8 && self.flag_show_left_sprites == 0 {
            0
        } else {
            self.sprite_spec().1
        }
    }

    /// Both background and sprite are opaque at column `x`.
    pub open spec fn both_opaque(&self, x: int) -> bool {
        self.shown_background(x) % 4 != 0 && self.shown_sprite(x) % 4 != 0
    }

    /// The palette address (0..32) of the pixel at column `x`.
    pub open spec fn pixel_color(&self, x: int) -> u8 {
        let b = self.shown_background(x);
        let s = self.shown_sprite(x);
        if b % 4 == 0 && s % 4 == 0 {
            0
        } else if b % 4 == 0 {
            s | 0x10
        } else if s % 4 == 0 {
            b
        } else if self.sprite_priorities@[self.sprite_spec().0 as int] == 0 {
            s | 0x10
        } else {
            b
        }
    }

    /// The dot at column `x` sets the sprite-zero-hit flag.
    pub open spec fn zero_hit(&self, x: int) -> bool {
        self.both_opaque(x) && self.sprite_indexes@[self.sprite_spec().0 as int] == 0 && x < 255
    }

    /// The RGB value of the pixel at column `x`.
    pub open spec fn pixel_rgb(&self, x: int) -> (u8, u8, u8) {
        system_rgb((self.palette@[palette_slot(self.pixel_color(x) as int)] % 64) as int)
    }

    /// The slot that `sprite_from` reports is one of the eight.
    pub proof fn lemma_sprite_slot(&self, i: int)
        ensures
            self.sprite_from(i).0 < 8,
            self.sprite_from(i).1 < 16,
        decreases 8 - i,
    {
        if !(i < 0 || i >= self.sprite_count || i >= 8) {
            let offset = (self.cycle - 1) - self.sprite_positions@[i];
            if 0 <= offset <= 7 {
                let shifted = self.sprite_patterns@[i] >> ((7 - offset) * 4) as u32;
                assert(shifted & 0x0F < 16) by (bit_vector);
            }
            self.lemma_sprite_slot(i + 1);
        }
    }

    fn background_pixel(&self) -> (r: u8)
        requires
            self.wf(),
        ensures
            r == self.background_spec(),
            r < 16,
    {
        if self.flag_show_background == 0 {
            0
        } else {
            let shift: u32 = ((7 - self.x) * 4) as u32;
            let data = self.fetch_tile_data() >> shift;
            assert(data & 0x0F < 16) by (bit_vector);
            (data & 0x0F) as u8
        }
    }

    fn sprite_pixel(&self) -> (r: (u8, u8))
        requires
            self.wf(),
        ensures
            r == self.sprite_spec(),
    {
        if self.flag_show_sprites == 0 {
            return (0, 0);
        }
        let mut i: usize = 0;
        while i < self.sprite_count
            invariant
                self.wf(),
                i <= self.sprite_count,
                self.sprite_from(i as int) == self.sprite_from(0),
                self.flag_show_sprites != 0,
            decreases self.sprite_count - i,
        {
            let offset: i32 = (self.cycle as i32 - 1) - self.sprite_positions[i] as i32;
            if offset >= 0 && offset <= 7 {
                let color = (self.sprite_patterns[i] >> (((7 - offset) * 4) as u32)) & 0x0F;
                if color % 4 != 0 {
                    return (i as u8, color as u8);
                }
            }
            i = i + 1;
        }
        (0, 0)
    }
}

impl PPU {
    /// The sprite-zero-hit flag after the dot at column `x` is drawn.
    pub open spec fn zero_hit_after(&self, x: int) -> u8 {
        if self.zero_hit(x) {
            1
        } else {
            self.flag_sprite_zero_hit
        }
    }

    /// Draws the pixel of the current dot into the back buffer.
    fn render_pixel(&mut self)
        requires
            old(self).wf(),
            1 <= old(self).cycle <= 256,
            old(self).scan_line < 240,
        ensures
            final(self).wf(),
            old(self).current_front == 0 ==> frame_bytes(final(self).buffer_1) == with_pixel(
                frame_bytes(old(self).buffer_1),
                old(self).cycle - 1,
                old(self).scan_line as int,
                old(self).pixel_rgb(old(self).cycle - 1),
            ) && *final(self) == (PPU {
                buffer_1: final(self).buffer_1,
                flag_sprite_zero_hit: old(self).zero_hit_after(old(self).cycle - 1),
                ..*old(self)
            }),
            old(self).current_front == 1 ==> frame_bytes(final(self).buffer_0) == with_pixel(
                frame_bytes(old(self).buffer_0),
                old(self).cycle - 1,
                old(self).scan_line as int,
                old(self).pixel_rgb(old(self).cycle - 1),
            ) && *final(self) == (PPU {
                buffer_0: final(self).buffer_0,
                flag_sprite_zero_hit: old(self).zero_hit_after(old(self).cycle - 1),
                ..*old(self)
            }),
    {
        let x = self.cycle - 1;
        let y = self.scan_line;
        let mut background = self.background_pixel();
        let (i, mut sprite) = self.sprite_pixel();
        proof {
            self.lemma_sprite_slot(0);
        }
        if x < 8 && self.flag_show_left_background == 0 {
            background = 0;
        }
        if x < 8 && self.flag_show_left_sprites == 0 {
            sprite = 0;
        }
        let b = background % 4 != 0;
        let s = sprite % 4 != 0;
        let color: u8;
        if !b && !s {
            color = 0;
        } else if !b && s {
            color = sprite | 0x10;
        } else if b && !s {
            color = background;
        } else {
            if self.sprite_indexes[i as usize] == 0 && x < 255 {
                self.flag_sprite_zero_hit = 1;
            }
            if self.sprite_priorities[i as usize] == 0 {
                color = sprite | 0x10;
            } else {
                color = background;
            }
        }
        assert(color < 32) by (bit_vector)
            requires
                color == 0 || color == sprite | 0x10 || color == background,
                sprite < 16,
                background < 16,
        ;
        let address = self.read_palette(color as u16) % 64;
        let c = system_color(address);
        if self.current_front == 0 {
            self.buffer_1.put_pixel(x as u32, y as u32, c);
        } else {
            self.buffer_0.put_pixel(x as u32, y as u32, c);
        }
    }
}

impl PPU {
    /// Sprites are 8 pixels tall, or 16 in the tall-sprite mode.
    pub open spec fn sprite_height(&self) -> int {
        if self.flag_sprite_size == 0 {
            8
        } else {
            16
        }
    }

    /// Row of sprite `i` that the current scanline crosses (may be out of range).
    pub open spec fn sprite_row(&self, i: int) -> int {
        self.scan_line - self.oam_data@[4 * i]
    }

    pub open spec fn on_line(&self, i: int) -> bool {
        0 <= self.sprite_row(i) < self.sprite_height()
    }

    /// The sprites among the first `n` of OAM that the current scanline crosses, in OAM order.
    pub open spec fn sprites_on_line(&self, n: int) -> Seq<int>
        decreases n,
    {
        if n <= 0 {
            seq![]
        } else if self.on_line(n - 1) {
            self.sprites_on_line(n - 1).push(n - 1)
        } else {
            self.sprites_on_line(n - 1)
        }
    }

    /// The sprites on the line depend on the line, OAM and sprite size alone.
    pub proof fn lemma_sprites_on_line_depend(&self, other: &PPU, n: int)
        requires
            self.scan_line == other.scan_line,
            self.oam_data@ == other.oam_data@,
            self.flag_sprite_size == other.flag_sprite_size,
        ensures
            self.sprites_on_line(n) == other.sprites_on_line(n),
        decreases n,
    {
        if n > 0 {
            self.lemma_sprites_on_line_depend(other, n - 1);
        }
    }

    /// Address of the low pattern byte of row `row` of sprite `i`, after
    /// vertical flipping and, for tall sprites, the choice of tile.
    pub open spec fn sprite_row_address(&self, i: int, row: int) -> u16 {
        let tile = self.oam_data@[i * 4 + 1];
        let attr = self.oam_data@[i * 4 + 2];
        if self.flag_sprite_size == 0 {
            let r = if attr & 0x80 == 0x80 {
                7 - row
            } else {
                row
            };
            (0x1000 * self.flag_sprite_table + tile * 16 + r) as u16
        } else {
            let r = if attr & 0x80 == 0x80 {
                15 - row
            } else {
                row
            };
            let table = tile & 1;
            let t = tile & 0xFE;
            if r > 7 {
                (0x1000 * table + (t + 1) * 16 + (r - 8)) as u16
            } else {
                (0x1000 * table + t * 16 + r) as u16
            }
        }
    }

    /// The eight 4-bit pixels of row `row` of sprite `i`, with its palette
    /// bits, mirrored when attribute bit 6 is set.
    pub open spec fn sprite_pattern(&self, mapper: Mapper, i: int, row: int) -> u32 {
        let attr = self.oam_data@[i * 4 + 2];
        let a = (attr & 3) << 2u8;
        let address = self.sprite_row_address(i, row);
        let low = self.vram(mapper, address);
        let high = self.vram(mapper, (address + 8) as u16);
        if attr & 0x40 == 0x40 {
            row_pixels_flipped(a, low, high, 8, 0)
        } else {
            row_pixels(a, low, high, 8, 0)
        }
    }

    /// Slot `k` of the sprite list of `self` holds OAM sprite `j` of `p`.
    pub open spec fn slot_holds(&self, p: PPU, mapper: Mapper, k: int, j: int) -> bool {
        &&& self.sprite_indexes@[k] == j
        &&& self.sprite_positions@[k] == p.oam_data@[4 * j + 3]
        &&& self.sprite_priorities@[k] == (p.oam_data@[4 * j + 2] >> 5u8) & 1
        &&& self.sprite_patterns@[k] == p.sprite_pattern(mapper, j, p.sprite_row(j))
    }

    fn fetch_sprite_pattern(&self, mapper: &Mapper, i: usize, row: u16) -> (r: u32)
        requires
            self.wf(),
            mapper.wf(),
            i < 64,
            row < self.sprite_height(),
        ensures
            r == self.sprite_pattern(*mapper, i as int, row as int),
    {
        let mut row = row;
        let mut tile = self.oam_data[i * 4 + 1] as u16;
        let attributes = self.oam_data[i * 4 + 2];
        let address: u16;
        if self.flag_sprite_size == 0 {
            if attributes & 0x80 == 0x80 {
                row = 7 - row;
            }
            let table = self.flag_sprite_table as u16;
            address = 0x1000 * table + tile * 16 + row;
        } else {
            if attributes & 0x80 == 0x80 {
                row = 15 - row;
            }
            let t8 = self.oam_data[i * 4 + 1];
            assert(t8 & 1 <= 1 && t8 & 0xFE <= 0xFE) by (bit_vector);
            let table = (t8 & 1) as u16;
            tile = (t8 & 0xFE) as u16;
            if row > 7 {
                tile = tile + 1;
                row = row - 8;
            }
            address = 0x1000 * table + tile * 16 + row;
        }
        let a = (attributes & 3) << 2u8;
        let low = self.read(mapper, address);
        let high = self.read(mapper, address + 8);
        let mut lo = low;
        let mut hi = high;
        let mut data: u32 = 0;
        let mut n: usize = 0;
        if attributes & 0x40 == 0x40 {
            while n < 8
                invariant
                    n <= 8,
                    row_pixels_flipped(a, lo, hi, (8 - n) as nat, data) == row_pixels_flipped(
                        a,
                        low,
                        high,
                        8,
                        0,
                    ),
                decreases 8 - n,
            {
                let p1 = lo & 1;
                let p2 = (hi & 1) << 1u8;
                lo = lo >> 1u8;
                hi = hi >> 1u8;
                data = (data << 4u32) | ((a | p1 | p2) as u32);
                n = n + 1;
            }
        } else {
            while n < 8
                invariant
                    n <= 8,
                    row_pixels(a, lo, hi, (8 - n) as nat, data) == row_pixels(a, low, high, 8, 0),
                decreases 8 - n,
            {
                let p1 = (lo & 0x80) >> 7u8;
                let p2 = (hi & 0x80) >> 6u8;
                lo = lo << 1u8;
                hi = hi << 1u8;
                data = (data << 4u32) | ((a | p1 | p2) as u32);
                n = n + 1;
            }
        }
        data
    }

    /// Latches the first eight sprites that the current scanline crosses;
    /// a ninth sets the overflow flag.
    fn evaluate_sprites(&mut self, mapper: &Mapper)
        requires
            old(self).wf(),
            mapper.wf(),
        ensures
            final(self).wf(),
            final(self).sprite_count == if old(self).sprites_on_line(64).len() > 8 {
                8
            } else {
                old(self).sprites_on_line(64).len()
            },
            forall|k: int|
                0 <= k < final(self).sprite_count ==> #[trigger] final(self).slot_holds(
                    *old(self),
                    *mapper,
                    k,
                    old(self).sprites_on_line(64)[k],
                ),
            *final(self) == (PPU {
                sprite_patterns: final(self).sprite_patterns,
                sprite_positions: final(self).sprite_positions,
                sprite_priorities: final(self).sprite_priorities,
                sprite_indexes: final(self).sprite_indexes,
                sprite_count: final(self).sprite_count,
                flag_sprite_overflow: if old(self).sprites_on_line(64).len() > 8 {
                    1
                } else {
                    old(self).flag_sprite_overflow
                },
                ..*old(self)
            }),
    {
        let h: i32 = if self.flag_sprite_size == 0 {
            8
        } else {
            16
        };
        let mut count: usize = 0;
        let mut i: usize = 0;
        while i < 64
            invariant
                old(self).wf(),
                mapper.wf(),
                self.wf(),
                i <= 64,
                h == old(self).sprite_height(),
                count == old(self).sprites_on_line(i as int).len(),
                count <= i,
                *self == (PPU {
                    sprite_patterns: self.sprite_patterns,
                    sprite_positions: self.sprite_positions,
                    sprite_priorities: self.sprite_priorities,
                    sprite_indexes: self.sprite_indexes,
                    ..*old(self)
                }),
                forall|k: int|
                    0 <= k < count && k < 8 ==> #[trigger] self.slot_holds(
                        *old(self),
                        *mapper,
                        k,
                        old(self).sprites_on_line(i as int)[k],
                    ),
            decreases 64 - i,
        {
            let ghost prev = *self;
            let ghost c0 = count;
            let y = self.oam_data[i * 4 + 0];
            let a = self.oam_data[i * 4 + 2];
            let x = self.oam_data[i * 4 + 3];
            let row: i32 = self.scan_line as i32 - y as i32;
            if row >= 0 && row < h {
                if count < 8 {
                    let pattern = self.fetch_sprite_pattern(mapper, i, row as u16);
                    assert(self.oam_data == old(self).oam_data);
                    assert(self.sprite_pattern(*mapper, i as int, row as int) == old(self).sprite_pattern(
                        *mapper,
                        i as int,
                        old(self).sprite_row(i as int),
                    ));
                    self.sprite_patterns.set(count, pattern);
                    self.sprite_positions.set(count, x);
                    self.sprite_priorities.set(count, (a >> 5u8) & 1);
                    self.sprite_indexes.set(count, i as u8);
                }
                count = count + 1;
            }
            proof {
                assert(old(self).on_line(i as int) == (row >= 0 && row < h));
                assert(old(self).sprites_on_line(i + 1) == if old(self).on_line(i as int) {
                    old(self).sprites_on_line(i as int).push(i as int)
                } else {
                    old(self).sprites_on_line(i as int)
                });
                let vis0 = old(self).sprites_on_line(i as int);
                let vis1 = old(self).sprites_on_line(i + 1);
                assert forall|k: int| 0 <= k < count && k < 8 implies #[trigger] self.slot_holds(
                    *old(self),
                    *mapper,
                    k,
                    vis1[k],
                ) by {
                    if k < c0 {
                        assert(prev.slot_holds(*old(self), *mapper, k, vis0[k]));
                        assert(vis1[k] == vis0[k]);
                    }
                }
            }
            i = i + 1;
        }
        let ghost done = *self;
        if count > 8 {
            count = 8;
            self.flag_sprite_overflow = 1;
        }
        self.sprite_count = count;
        proof {
            assert forall|k: int| 0 <= k < self.sprite_count implies #[trigger] self.slot_holds(
                *old(self),
                *mapper,
                k,
                old(self).sprites_on_line(64)[k],
            ) by {
                assert(done.slot_holds(*old(self), *mapper, k, old(self).sprites_on_line(64)[k]));
            }
        }
    }
}

impl PPU {
    /// The NMI delay runs out on this dot while NMI is enabled and VBlank is on.
    pub open spec fn nmi_fires(&self) -> bool {
        self.nmi_delay == 1 && self.nmi_output && self.nmi_occurred
    }

    /// On odd frames with rendering on, the last dot of the pre-render line is skipped.
    pub open spec fn skips_dot(&self) -> bool {
        self.rendering_enabled() && self.f == 1 && self.scan_line == PRE_LINE && self.cycle == 339
    }

    /// The state after one dot of the timeline.
    pub open spec fn ticked(p: PPU) -> PPU {
        let delay = if p.nmi_delay > 0 {
            (p.nmi_delay - 1) as u8
        } else {
            p.nmi_delay
        };
        if p.skips_dot() {
            PPU {
                nmi_delay: delay,
                cycle: 0,
                scan_line: 0,
                frame: wrap64(p.frame + 1),
                f: (1 - p.f) as u8,
                ..p
            }
        } else if p.cycle < LAST_DOT {
            PPU { nmi_delay: delay, cycle: (p.cycle + 1) as usize, ..p }
        } else if p.scan_line < PRE_LINE {
            PPU { nmi_delay: delay, cycle: 0, scan_line: (p.scan_line + 1) as usize, ..p }
        } else {
            PPU {
                nmi_delay: delay,
                cycle: 0,
                scan_line: 0,
                frame: wrap64(p.frame + 1),
                f: (1 - p.f) as u8,
                ..p
            }
        }
    }

    /// Advances the timeline by one dot; true when an NMI reaches the CPU.
    pub fn tick(&mut self) -> (r: bool)
        requires
            old(self).wf(),
        ensures
            final(self).wf(),
            r == old(self).nmi_fires(),
            *final(self) == PPU::ticked(*old(self)),
            (final(self).cycle as int, final(self).scan_line as int, final(self).f as int)
                == next_dot(
                old(self).cycle as int,
                old(self).scan_line as int,
                old(self).f as int,
                old(self).rendering_enabled(),
            ),
    {
        let mut result = false;
        if self.nmi_delay > 0 {
            self.nmi_delay = self.nmi_delay - 1;
            if self.nmi_delay == 0 && self.nmi_output && self.nmi_occurred {
                result = true;
            }
        }
        if self.flag_show_background != 0 || self.flag_show_sprites != 0 {
            if self.f == 1 && self.scan_line == PRE_LINE && self.cycle == 339 {
                self.cycle = 0;
                self.scan_line = 0;
                self.frame = self.frame.wrapping_add(1);
                self.f = 1 - self.f;
                return result;
            }
        }
        if self.cycle < LAST_DOT {
            self.cycle = self.cycle + 1;
        } else {
            self.cycle = 0;
            if self.scan_line < PRE_LINE {
                self.scan_line = self.scan_line + 1;
            } else {
                self.scan_line = 0;
                self.frame = self.frame.wrapping_add(1);
                self.f = 1 - self.f;
            }
        }
        result
    }
}

impl PPU {
    pub open spec fn pre_line(&self) -> bool {
        self.scan_line == PRE_LINE
    }

    pub open spec fn visible_line(&self) -> bool {
        self.scan_line < 240
    }

    pub open spec fn render_line(&self) -> bool {
        self.pre_line() || self.visible_line()
    }

    pub open spec fn visible_dot(&self) -> bool {
        1 <= self.cycle <= 256
    }

    /// A dot on which the background pipeline shifts and fetches.
    pub open spec fn fetch_dot(&self) -> bool {
        self.visible_dot() || (321 <= self.cycle <= 336)
    }

    /// The background pipeline runs on this dot.
    pub open spec fn fetching(&self) -> bool {
        self.rendering_enabled() && self.render_line() && self.fetch_dot()
    }

    /// `v` after this dot's scroll updates.
    pub open spec fn stepped_v(&self) -> u16 {
        if !self.rendering_enabled() || !self.render_line() {
            self.v
        } else {
            let v1 = if self.pre_line() && 280 <= self.cycle <= 304 {
                copied_y(self.v, self.t)
            } else {
                self.v
            };
            let v2 = if self.fetch_dot() && self.cycle % 8 == 0 {
                incremented_x(v1)
            } else {
                v1
            };
            let v3 = if self.cycle == 256 {
                incremented_y(v2)
            } else {
                v2
            };
            if self.cycle == 257 {
                copied_x(v3, self.t)
            } else {
                v3
            }
        }
    }

    /// The tile-data lane after this dot: shifted by one pixel, and refilled
    /// with the fetched row every eighth dot.
    pub open spec fn stepped_tile_data(&self) -> u64 {
        if !self.fetching() {
            self.tile_data
        } else if self.cycle % 8 == 0 {
            ((self.tile_data << 4u64) as u64) | (row_pixels(
                self.attribute_table_byte,
                self.low_tile_byte,
                self.high_tile_byte,
                8,
                0,
            ) as u64)
        } else {
            (self.tile_data << 4u64) as u64
        }
    }

    /// This dot starts or ends VBlank.
    pub open spec fn vblank_edge(&self) -> bool {
        self.cycle == 1 && (self.scan_line == VBLANK_LINE || self.pre_line())
    }

    /// The VBlank flag after this dot.
    pub open spec fn stepped_occurred(&self) -> bool {
        if self.scan_line == VBLANK_LINE && self.cycle == 1 {
            true
        } else if self.pre_line() && self.cycle == 1 {
            false
        } else {
            self.nmi_occurred
        }
    }

    /// Performs the work of the current dot: pixel output, background fetches,
    /// scroll updates, sprite evaluation and the VBlank edges.
    pub fn step(&mut self, mapper: &Mapper)
        requires
            old(self).wf(),
            mapper.wf(),
        ensures
            final(self).wf(),
            final(self).cycle == old(self).cycle,
            final(self).scan_line == old(self).scan_line,
            final(self).frame == old(self).frame,
            final(self).f == old(self).f,
            final(self).t == old(self).t,
            final(self).x == old(self).x,
            final(self).w == old(self).w,
            final(self).nmi_output == old(self).nmi_output,
            final(self).flag_show_background == old(self).flag_show_background,
            final(self).flag_show_sprites == old(self).flag_show_sprites,
            final(self).oam_data == old(self).oam_data,
            final(self).palette == old(self).palette,
            final(self).name_table == old(self).name_table,
            final(self).v == old(self).stepped_v(),
            final(self).tile_data == old(self).stepped_tile_data(),
            final(self).nmi_occurred == old(self).stepped_occurred(),
            final(self).nmi_previous == if old(self).vblank_edge() {
                old(self).nmi_output && old(self).stepped_occurred()
            } else {
                old(self).nmi_previous
            },
            final(self).nmi_delay == if old(self).vblank_edge() && old(self).nmi_output
                && old(self).stepped_occurred() && !old(self).nmi_previous {
                NMI_DELAY
            } else {
                old(self).nmi_delay
            },
            final(self).current_front == if old(self).scan_line == VBLANK_LINE && old(self).cycle
                == 1 {
                (1 - old(self).current_front) as usize
            } else {
                old(self).current_front
            },
            old(self).pre_line() && old(self).cycle == 1 ==> final(self).flag_sprite_zero_hit == 0
                && final(self).flag_sprite_overflow == 0,
            old(self).fetching() && old(self).cycle % 8 == 1 ==> final(self).name_table_byte
                == old(self).vram(*mapper, 0x2000 | (old(self).v & 0x0FFF)),
            old(self).rendering_enabled() && old(self).cycle == 257 && !old(self).visible_line()
                ==> final(self).sprite_count == 0,
            old(self).rendering_enabled() && old(self).cycle == 257 && old(self).visible_line()
                ==> final(self).sprite_count == if old(self).sprites_on_line(64).len() > 8 {
                8
            } else {
                old(self).sprites_on_line(64).len()
            },
            old(self).rendering_enabled() && old(self).visible_line() && old(self).visible_dot()
                ==> frame_bytes(final(self).back()) == with_pixel(
                frame_bytes(old(self).back()),
                old(self).cycle - 1,
                old(self).scan_line as int,
                old(self).pixel_rgb(old(self).cycle - 1),
            ),
            old(self).rendering_enabled() && old(self).visible_line() && old(self).visible_dot()
                ==> final(self).flag_sprite_zero_hit == old(self).zero_hit_after(old(self).cycle - 1),
            old(self).rendering_enabled() && old(self).cycle == 257 && old(self).visible_line()
                ==> forall|k: int|
                0 <= k < final(self).sprite_count ==> #[trigger] final(self).slot_holds(
                    *old(self),
                    *mapper,
                    k,
                    old(self).sprites_on_line(64)[k],
                ),
            old(self).rendering_enabled() && old(self).cycle == 257 && old(self).visible_line()
                ==> final(self).flag_sprite_overflow == if old(self).sprites_on_line(64).len() > 8 {
                1
            } else {
                old(self).flag_sprite_overflow
            },
            !(old(self).rendering_enabled() && old(self).visible_line() && old(self).visible_dot())
                ==> final(self).buffer_0 == old(self).buffer_0 && final(self).buffer_1 == old(
                self,
            ).buffer_1,
    {
        let rendering_enabled = self.flag_show_background != 0 || self.flag_show_sprites != 0;
        let pre_line = self.scan_line == PRE_LINE;
        let visible_line = self.scan_line < 240;
        let render_line = pre_line || visible_line;
        let pre_fetch_cycle = self.cycle >= 321 && self.cycle <= 336;
        let visible_cycle = self.cycle >= 1 && self.cycle <= 256;
        let fetch_cycle = pre_fetch_cycle || visible_cycle;
        if rendering_enabled {
            if visible_line && visible_cycle {
                self.render_pixel();
            }
            if render_line && fetch_cycle {
                self.tile_data = self.tile_data << 4u64;
                let phase = self.cycle % 8;
                if phase == 1 {
                    self.fetch_name_table_byte(mapper);
                } else if phase == 3 {
                    self.fetch_attribute_table_byte(mapper);
                } else if phase == 5 {
                    self.fetch_low_tile_byte(mapper);
                } else if phase == 7 {
                    self.fetch_high_tile_byte(mapper);
                } else if phase == 0 {
                    self.store_tile_data();
                }
            }
            if pre_line && self.cycle >= 280 && self.cycle <= 304 {
                self.copy_y();
            }
            if render_line {
                if fetch_cycle && self.cycle % 8 == 0 {
                    self.increment_x();
                }
                if self.cycle == 256 {
                    self.increment_y();
                }
                if self.cycle == 257 {
                    self.copy_x();
                }
            }
            if self.cycle == 257 {
                if visible_line {
                    proof {
                        self.lemma_sprites_on_line_depend(&*old(self), 64);
                    }
                    let ghost mid = *self;
                    self.evaluate_sprites(mapper);
                    proof {
                        assert forall|k: int| 0 <= k < self.sprite_count implies #[trigger] self.slot_holds(
                            *old(self),
                            *mapper,
                            k,
                            old(self).sprites_on_line(64)[k],
                        ) by {
                            let j = old(self).sprites_on_line(64)[k];
                            assert(self.slot_holds(mid, *mapper, k, j));
                            assert(mid.sprite_pattern(*mapper, j, mid.sprite_row(j)) == old(self).sprite_pattern(
                                *mapper,
                                j,
                                old(self).sprite_row(j),
                            ));
                        }
                    }
                } else {
                    self.sprite_count = 0;
                }
            }
        }
        if self.scan_line == VBLANK_LINE && self.cycle == 1 {
            self.set_vblank();
        }
        if pre_line && self.cycle == 1 {
            self.clear_vblank();
            self.flag_sprite_zero_hit = 0;
            self.flag_sprite_overflow = 0;
        }
    }
}

} // verus!
