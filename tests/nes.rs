use virtual_nes::{
    create_mapper, format_header, describe, mirror_address, system_color, AddressingMode, ConsoleError, Controller,
    CpuError, FrameBuffer, Mapper, MapperError, Mirroring, Operation, Rom, RomError,
    VirtualConsole, PPU, PRG_RAM_SIZE,
};

const PRG_BANK: usize = 16 * 1024;
const CHR_BANK: usize = 8 * 1024;

/// An iNES image with the given header fields and PRG contents.
fn image(flags6: u8, flags7: u8, prg_banks: u8, chr_banks: u8, prg_patch: &[(usize, u8)]) -> Vec<u8> {
    let mut data = vec![0x4E, 0x45, 0x53, 0x1A, prg_banks, chr_banks, flags6, flags7, 0, 0, 0, 0, 0, 0, 0, 0];
    let mut prg = vec![0u8; prg_banks as usize * PRG_BANK];
    for &(i, v) in prg_patch {
        prg[i] = v;
    }
    data.extend_from_slice(&prg);
    data.extend(vec![0u8; chr_banks as usize * CHR_BANK]);
    data
}

/// A one-bank cartridge of the bank-select family whose reset vector points at 0x8000.
fn console_with_prg(prg_patch: &[(usize, u8)]) -> VirtualConsole {
    let mut patch = prg_patch.to_vec();
    patch.push((0x3FFC, 0x00));
    patch.push((0x3FFD, 0x80));
    let data = image(0x00, 0x00, 1, 1, &patch);
    let mut console = VirtualConsole::new(&data).unwrap();
    console.reset();
    console
}

fn mapper_for(flags6: u8, flags7: u8, prg_patch: &[(usize, u8)]) -> Mapper {
    let data = image(flags6, flags7, 2, 1, prg_patch);
    create_mapper(Rom::load(&data).unwrap()).unwrap()
}

#[test]
fn rom_loading() {
    // Mapper 1, vertical mirroring, as the instruction-test cartridge.
    let data = image(0x11, 0x00, 16, 0, &[]);
    let rom = Rom::load(&data).unwrap();
    assert_eq!(rom.mapper, 1);
    assert_eq!(rom.mirroring, Mirroring::Vertical);
    assert_eq!(rom.ram.len(), PRG_RAM_SIZE);
}

#[test]
fn mapper1() {
    let data = image(0x11, 0x00, 16, 0, &[(0, 255)]);
    let rom = Rom::load(&data).unwrap();
    let mut mapper = create_mapper(rom).unwrap();
    // RAM
    mapper.write(0x6234, 12);
    assert_eq!(mapper.read(0x6234), 12);
    // PRG
    assert_eq!(mapper.read(0x8000), 255);
}

#[test]
fn mapper2() {
    let data = image(0x00, 0x00, 1, 1, &[(0, 76)]);
    let rom = Rom::load(&data).unwrap();
    let mut mapper = create_mapper(rom).unwrap();
    // CHR
    mapper.write(0x1234, 12);
    assert_eq!(mapper.read(0x1234), 12);
    // RAM
    mapper.write(0x6234, 12);
    assert_eq!(mapper.read(0x6234), 12);
    // PRG
    assert_eq!(mapper.read(0x8000), 76);
}

#[test]
fn rom_header_fields() {
    let mut data = image(0x24, 0x30, 1, 2, &[]);
    // trainer flag set: 512 bytes follow the header
    let trainer = vec![0xAAu8; 512];
    let tail = data.split_off(16);
    data.extend_from_slice(&trainer);
    data.extend_from_slice(&tail);
    data[16 + 512] = 0x77;
    data[8] = 3;
    let rom = Rom::load(&data).unwrap();
    assert_eq!(rom.mapper, 0x32);
    assert_eq!(rom.mirroring, Mirroring::Horizontal);
    assert_eq!(rom.prg.len(), PRG_BANK);
    assert_eq!(rom.prg[0], 0x77);
    assert_eq!(rom.chr.len(), 2 * CHR_BANK);
    assert_eq!(rom.ram.len(), 3 * PRG_RAM_SIZE);
    let four = Rom::load(&image(0x09, 0, 1, 0, &[])).unwrap();
    assert_eq!(four.mirroring, Mirroring::FourScreen);
    assert_eq!(four.chr.len(), CHR_BANK);
}

#[test]
fn rom_errors() {
    assert_eq!(Rom::load(&[0x4E, 0x45]).unwrap_err(), RomError::Truncated);
    let mut bad = image(0, 0, 1, 1, &[]);
    bad[3] = 0x1B;
    assert_eq!(Rom::load(&bad).unwrap_err(), RomError::BadMagic);
    assert_eq!(Rom::load(&bad[..10]).unwrap_err(), RomError::BadMagic);
    let good = image(0, 0, 1, 1, &[]);
    assert_eq!(Rom::load(&good[..10]).unwrap_err(), RomError::Truncated);
    assert_eq!(Rom::load(&good[..good.len() - 1]).unwrap_err(), RomError::Truncated);
    let empty = Rom::load(&image(0, 0, 0, 1, &[])).unwrap();
    assert_eq!(empty.prg.len(), 0);
    assert_eq!(create_mapper(empty).unwrap_err(), MapperError::NoPrgRom);
    assert!(matches!(
        VirtualConsole::new(&image(0, 0, 0, 1, &[])),
        Err(ConsoleError::Mapper(MapperError::NoPrgRom))
    ));
    let unsupported = image(0x40, 0, 1, 1, &[]);
    assert_eq!(
        create_mapper(Rom::load(&unsupported).unwrap()).unwrap_err(),
        MapperError::Unsupported(4)
    );
    assert!(matches!(
        VirtualConsole::new(&unsupported),
        Err(ConsoleError::Mapper(MapperError::Unsupported(4)))
    ));
    assert!(matches!(VirtualConsole::new(&bad), Err(ConsoleError::Rom(RomError::BadMagic))));
}

#[test]
fn mapper2_bank_select() {
    let data = image(0x00, 0x00, 4, 1, &[(0, 1), (PRG_BANK, 2), (2 * PRG_BANK, 3), (3 * PRG_BANK, 4)]);
    let mut mapper = create_mapper(Rom::load(&data).unwrap()).unwrap();
    assert_eq!(mapper.read(0x8000), 1);
    assert_eq!(mapper.read(0xC000), 4);
    mapper.write(0x8000, 6);
    assert_eq!(mapper.read(0x8000), 3);
    assert_eq!(mapper.read(0xC000), 4);
}

#[test]
fn mapper1_serial_register() {
    let mut patch = Vec::new();
    for bank in 0..4usize {
        patch.push((bank * PRG_BANK, bank as u8 + 10));
    }
    let data = image(0x10, 0x00, 4, 1, &patch);
    let mut mapper = create_mapper(Rom::load(&data).unwrap()).unwrap();
    assert_eq!(mapper.read(0x8000), 10);
    assert_eq!(mapper.read(0xC000), 13);
    // Control = 0b01111: PRG mode 3, mirroring horizontal.
    for bit in [1u8, 1, 1, 1, 0] {
        mapper.write(0x8000, bit);
    }
    assert_eq!(mapper.get_mirroring(), Mirroring::Horizontal);
    // PRG bank 2 into the low window.
    for bit in [0u8, 1, 0, 0, 0] {
        mapper.write(0xE000, bit);
    }
    assert_eq!(mapper.read(0x8000), 12);
    assert_eq!(mapper.read(0xC000), 13);
    // A write with bit 7 resets the shift register and sets PRG mode 3.
    mapper.write(0x8000, 0x80);
    assert_eq!(mapper.read(0xC000), 13);
}

#[test]
fn controller_protocol() {
    let mut c = Controller::new();
    c.set_buttons([true, false, true, false, false, true, false, true]);
    c.write(1);
    assert_eq!(c.read(), 1);
    assert_eq!(c.read(), 1);
    c.write(0);
    let got: Vec<u8> = (0..10).map(|_| c.read()).collect();
    assert_eq!(got, vec![1, 0, 1, 0, 0, 1, 0, 1, 0, 0]);
}

#[test]
fn flags_round_trip() {
    let mut console = console_with_prg(&[]);
    for value in 0..=255u8 {
        console.cpu.set_flags(value);
        assert_eq!(console.cpu.get_flags(), value);
    }
    assert_eq!(console.cpu.sp, 0xFD);
}

#[test]
fn push_pop_lifo() {
    let mut console = console_with_prg(&[]);
    console.cpu.sp = 0x00;
    console.cpu.push(0x42);
    assert_eq!(console.cpu.sp, 0xFF);
    console.cpu.push_word(0xBEEF);
    assert_eq!(console.cpu.pop_word(), 0xBEEF);
    assert_eq!(console.cpu.pop(), 0x42);
    assert_eq!(console.cpu.sp, 0x00);
}

#[test]
fn read16_little_endian() {
    let mut console = console_with_prg(&[]);
    console.cpu.write(0x0234, 0x78);
    console.cpu.write(0x0235, 0x56);
    assert_eq!(console.cpu.read_word(0x0234), 0x5678);
    assert_eq!(console.cpu.read(0x0234) as u16 | (console.cpu.read(0x0235) as u16) << 8, 0x5678);
}

#[test]
fn read16_buggy_wraps_in_page() {
    let mut console = console_with_prg(&[]);
    console.cpu.write(0x02FF, 0x34);
    console.cpu.write(0x0300, 0x12);
    console.cpu.write(0x0200, 0xCD);
    assert_eq!(console.cpu.read_word_bug(0x02FF), 0xCD34);
    assert_eq!(console.cpu.read_word(0x02FF), 0x1234);
}

#[test]
fn ram_mirrors() {
    let mut console = console_with_prg(&[]);
    console.cpu.write(0x1805, 0x99);
    for base in [0x0000u16, 0x0800, 0x1000, 0x1800] {
        assert_eq!(console.cpu.read(base + 5), 0x99);
    }
}

#[test]
fn page_cross_costs_a_cycle() {
    let mut console = console_with_prg(&[]);
    // LDA $1280,X at 0x0200
    console.cpu.write(0x0200, 0xBD);
    console.cpu.write(0x0201, 0x80);
    console.cpu.write(0x0202, 0x12);
    console.cpu.write(0x1300, 0x5A);
    console.cpu.pc = 0x0200;
    console.cpu.x = 0x80;
    assert_eq!(console.cpu.step(), Ok(5));
    assert_eq!(console.cpu.a, 0x5A);
    assert_eq!(console.cpu.pc, 0x0203);
    // Without crossing: 4 cycles.
    console.cpu.pc = 0x0200;
    console.cpu.x = 0x10;
    assert_eq!(console.cpu.step(), Ok(4));
}

#[test]
fn indirect_jump_bug() {
    let mut console = console_with_prg(&[]);
    console.cpu.write(0x0200, 0xAA);
    console.cpu.write(0x02FF, 0x34);
    console.cpu.write(0x0300, 0x12);
    console.cpu.write(0x0200, 0xCD);
    // JMP ($02FF) at 0x0400
    console.cpu.write(0x0400, 0x6C);
    console.cpu.write(0x0401, 0xFF);
    console.cpu.write(0x0402, 0x02);
    console.cpu.pc = 0x0400;
    assert_eq!(console.cpu.step(), Ok(5));
    assert_eq!(console.cpu.pc, 0xCD34);
}

#[test]
fn brk_rti_round_trip() {
    // BRK at 0x8000, RTI at 0x9000, IRQ vector 0x9000.
    let mut console = console_with_prg(&[(0x0000, 0x00), (0x1000, 0x40), (0x3FFE, 0x00), (0x3FFF, 0x90)]);
    assert_eq!(console.cpu.pc, 0x8000);
    console.cpu.set_flags(0x24);
    let sp = console.cpu.sp;
    assert_eq!(console.cpu.step(), Ok(7));
    assert_eq!(console.cpu.pc, 0x9000);
    assert_eq!(console.cpu.read(0x100 + sp as u16), 0x80);
    assert_eq!(console.cpu.read(0x100 + sp as u16 - 1), 0x02);
    assert_eq!(console.cpu.read(0x100 + sp as u16 - 2), 0x34);
    assert_eq!(console.cpu.i, 1);
    assert_eq!(console.cpu.step(), Ok(6));
    assert_eq!(console.cpu.get_flags(), 0x24);
    assert_eq!(console.cpu.pc, 0x8002);
    assert_eq!(console.cpu.sp, sp);
}

#[test]
fn adc_and_sbc_flags() {
    // LDA #$50; ADC #$50; SEC; LDA #$50; SBC #$F0; CMP #$60
    let program = [0xA9, 0x50, 0x69, 0x50, 0x38, 0xA9, 0x50, 0xE9, 0xF0, 0xC9, 0x60];
    let patch: Vec<(usize, u8)> = program.iter().enumerate().map(|(i, b)| (i, *b)).collect();
    let mut console = console_with_prg(&patch);
    console.cpu.c = 0;
    console.cpu.step().unwrap();
    console.cpu.step().unwrap();
    assert_eq!(console.cpu.a, 0xA0);
    assert_eq!((console.cpu.c, console.cpu.v, console.cpu.n, console.cpu.z), (0, 1, 1, 0));
    console.cpu.step().unwrap();
    console.cpu.step().unwrap();
    console.cpu.step().unwrap();
    assert_eq!(console.cpu.a, 0x60);
    assert_eq!((console.cpu.c, console.cpu.v), (0, 0));
    console.cpu.step().unwrap();
    assert_eq!((console.cpu.z, console.cpu.c), (1, 1));
}

#[test]
fn shifts_and_unofficial_combos() {
    // LDA #$81; ASL A; LDX #$03; STX $10; SLO $10; LAX $10; SAX $11
    let program = [0xA9, 0x81, 0x0A, 0xA2, 0x03, 0x86, 0x10, 0x07, 0x10, 0xA7, 0x10, 0x87, 0x11];
    let patch: Vec<(usize, u8)> = program.iter().enumerate().map(|(i, b)| (i, *b)).collect();
    let mut console = console_with_prg(&patch);
    console.cpu.step().unwrap();
    console.cpu.step().unwrap();
    assert_eq!((console.cpu.a, console.cpu.c), (0x02, 1));
    console.cpu.step().unwrap();
    console.cpu.step().unwrap();
    assert_eq!(console.cpu.step(), Ok(5));
    assert_eq!(console.cpu.read(0x10), 0x06);
    assert_eq!(console.cpu.a, 0x06);
    console.cpu.step().unwrap();
    assert_eq!((console.cpu.a, console.cpu.x), (0x06, 0x06));
    console.cpu.step().unwrap();
    assert_eq!(console.cpu.read(0x11), 0x06);
}

#[test]
fn branch_cycles() {
    // BNE +2 taken on the same page, BEQ not taken.
    let mut console = console_with_prg(&[(0, 0xD0), (1, 0x02), (4, 0xF0), (5, 0x10)]);
    console.cpu.z = 0;
    assert_eq!(console.cpu.step(), Ok(3));
    assert_eq!(console.cpu.pc, 0x8004);
    assert_eq!(console.cpu.step(), Ok(2));
    assert_eq!(console.cpu.pc, 0x8006);
    // Backwards across a page: BNE -8 from 0x8100 to 0x80FA.
    let mut console = console_with_prg(&[(0x100, 0xD0), (0x101, 0xF8)]);
    console.cpu.pc = 0x8100;
    console.cpu.z = 0;
    assert_eq!(console.cpu.step(), Ok(4));
    assert_eq!(console.cpu.pc, 0x80FA);
}

#[test]
fn jsr_rts() {
    // JSR $8010 ; at $8010: RTS
    let mut console = console_with_prg(&[(0, 0x20), (1, 0x10), (2, 0x80), (0x10, 0x60)]);
    let sp = console.cpu.sp;
    assert_eq!(console.cpu.step(), Ok(6));
    assert_eq!(console.cpu.pc, 0x8010);
    assert_eq!(console.cpu.read(0x100 + sp as u16), 0x80);
    assert_eq!(console.cpu.read(0x100 + sp as u16 - 1), 0x02);
    assert_eq!(console.cpu.step(), Ok(6));
    assert_eq!(console.cpu.pc, 0x8003);
}

#[test]
fn unsupported_and_unmapped() {
    let mut console = console_with_prg(&[(0, 0x02)]);
    assert_eq!(console.cpu.step(), Err(CpuError::UnsupportedOpcode { opcode: 0x02, pc: 0x8000 }));
    // LDA $5000
    let mut console = console_with_prg(&[(0, 0xAD), (1, 0x00), (2, 0x50)]);
    assert_eq!(console.cpu.step(), Err(CpuError::UnmappedAccess(0x5000)));
}

#[test]
fn interrupt_service() {
    // NMI vector 0x9000; the handler is a NOP.
    let mut console = console_with_prg(&[(0x1000, 0xEA), (0x3FFA, 0x00), (0x3FFB, 0x90)]);
    console.cpu.set_flags(0x24);
    let sp = console.cpu.sp;
    console.cpu.trigger_nmi();
    assert_eq!(console.cpu.step(), Ok(9));
    assert_eq!(console.cpu.cycles, 9);
    assert_eq!(console.cpu.pc, 0x9001);
    assert_eq!(console.cpu.read(0x100 + sp as u16 - 2), 0x24);
    assert_eq!(console.cpu.i, 1);
}

#[test]
fn oam_dma() {
    let mut console = console_with_prg(&[]);
    for i in 0..256u16 {
        console.cpu.write(0x0300 + i, i as u8);
    }
    console.cpu.write(0x2003, 0x10);
    console.cpu.write(0x4014, 0x03);
    assert_eq!(console.cpu.mem.ppu.oam_data[0x10], 0);
    assert_eq!(console.cpu.mem.ppu.oam_data[0x0F], 0xFF);
    assert!(console.cpu.stall == 513 || console.cpu.stall == 514);
    assert_eq!(console.cpu.step(), Ok(1));
}

#[test]
fn vblank_timing() {
    let mut mapper = mapper_for(0, 0, &[]);
    let mut ppu = PPU::new();
    ppu.reset();
    ppu.write_register(&mut mapper, 0x2001, 0x18);
    ppu.read_register(&mapper, 0x2002);
    ppu.write_register(&mut mapper, 0x2000, 0x80);
    assert!(!ppu.nmi_occurred);
    let mut raised_at = None;
    for dot in 0..40 {
        if ppu.tick() && raised_at.is_none() {
            raised_at = Some(dot);
        }
        ppu.step(&mapper);
        if dot == 0 {
            assert_eq!((ppu.get_sl(), ppu.get_cycle()), (241, 1));
            assert!(ppu.nmi_occurred);
        }
    }
    assert_eq!(raised_at, Some(15));
    let status = ppu.read_register(&mapper, 0x2002);
    assert_eq!(status & 0x80, 0x80);
    assert_eq!(ppu.read_register(&mapper, 0x2002) & 0x80, 0);
}

#[test]
fn ppu_scroll_registers() {
    let mut mapper = mapper_for(0, 0, &[]);
    let mut ppu = PPU::new();
    ppu.write_register(&mut mapper, 0x2000, 0x03);
    assert_eq!(ppu.t & 0x0C00, 0x0C00);
    ppu.write_register(&mut mapper, 0x2005, 0x7D);
    assert_eq!((ppu.t & 0x1F, ppu.x, ppu.w), (0x0F, 5, 1));
    ppu.write_register(&mut mapper, 0x2005, 0x5E);
    assert_eq!(ppu.t, 0x6D6F);
    assert_eq!(ppu.w, 0);
    ppu.write_register(&mut mapper, 0x2006, 0x3D);
    ppu.write_register(&mut mapper, 0x2006, 0xF0);
    assert_eq!((ppu.t, ppu.v), (0x3DF0, 0x3DF0));
}

#[test]
fn ppu_data_port() {
    let mut mapper = mapper_for(0x01, 0, &[]);
    let mut ppu = PPU::new();
    // Nametable write through $2006/$2007, read back buffered.
    ppu.write_register(&mut mapper, 0x2006, 0x24);
    ppu.write_register(&mut mapper, 0x2006, 0x05);
    ppu.write_register(&mut mapper, 0x2007, 0x66);
    assert_eq!(ppu.v, 0x2406);
    // Vertical mirroring: 0x2405 and 0x2C05 are the same byte.
    ppu.write_register(&mut mapper, 0x2006, 0x2C);
    ppu.write_register(&mut mapper, 0x2006, 0x05);
    ppu.read_register(&mapper, 0x2007);
    assert_eq!(ppu.read_register(&mapper, 0x2007), 0x66);
    // Palette reads are immediate; 0x3F10 aliases 0x3F00.
    ppu.write_register(&mut mapper, 0x2006, 0x3F);
    ppu.write_register(&mut mapper, 0x2006, 0x10);
    ppu.write_register(&mut mapper, 0x2007, 0x21);
    ppu.write_register(&mut mapper, 0x2006, 0x3F);
    ppu.write_register(&mut mapper, 0x2006, 0x00);
    assert_eq!(ppu.read_register(&mapper, 0x2007), 0x21);
    // OAM port.
    ppu.write_register(&mut mapper, 0x2003, 0xFF);
    ppu.write_register(&mut mapper, 0x2004, 0x07);
    assert_eq!(ppu.oam_address, 0);
    assert_eq!(ppu.oam_data[0xFF], 0x07);
}

#[test]
fn nametable_mirroring() {
    assert_eq!(mirror_address(Mirroring::Horizontal, 0x2400), 0x2000);
    assert_eq!(mirror_address(Mirroring::Horizontal, 0x2800), 0x2400);
    assert_eq!(mirror_address(Mirroring::Vertical, 0x2800), 0x2000);
    assert_eq!(mirror_address(Mirroring::Vertical, 0x2C01), 0x2401);
    assert_eq!(mirror_address(Mirroring::Single1, 0x2013), 0x2413);
    assert_eq!(mirror_address(Mirroring::FourScreen, 0x2C00), 0x2C00);
    assert_eq!(mirror_address(Mirroring::Single0, 0x3000), 0x2000);
}

#[test]
fn system_colors() {
    assert_eq!(system_color(0x00), (0x66, 0x66, 0x66));
    assert_eq!(system_color(0x21), (0x64, 0xB0, 0xFF));
    assert_eq!(system_color(0x3F), (0, 0, 0));
}

#[test]
fn frame_buffer_pixels() {
    let mut frame = FrameBuffer::blank();
    assert_eq!(frame.bytes().len(), 256 * 240 * 3);
    assert!(frame.bytes().iter().all(|b| *b == 0));
    frame.put_pixel(1, 2, (10, 20, 30));
    let i = 3 * (2 * 256 + 1);
    assert_eq!(&frame.bytes()[i..i + 3], &[10, 20, 30]);
    assert_eq!(frame.bytes()[i + 3], 0);
}

#[test]
fn rendering_writes_the_back_buffer() {
    let mut mapper = mapper_for(0, 0, &[]);
    let mut ppu = PPU::new();
    // Universal background color 0x21, background shown everywhere.
    ppu.write_register(&mut mapper, 0x2006, 0x3F);
    ppu.write_register(&mut mapper, 0x2006, 0x00);
    ppu.write_register(&mut mapper, 0x2007, 0x21);
    ppu.write_register(&mut mapper, 0x2001, 0x0A);
    for _ in 0..(341 * 241 + 2) {
        ppu.tick();
        ppu.step(&mapper);
    }
    let pixels = ppu.get_pixels();
    assert_eq!(&pixels[0..3], &[0x64, 0xB0, 0xFF]);
}

#[test]
fn descriptions() {
    let lda = describe(0xBD);
    assert_eq!((lda.name, lda.size, lda.cycles, lda.page_cycles), ("LDA", 3, 4, 1));
    assert_eq!(lda.addressing, AddressingMode::AbsoluteX);
    assert_eq!(virtual_nes::operation(0xBD), Operation::Lda);
    assert_eq!(virtual_nes::operation(0x02), Operation::Unsupported);
}

#[test]
fn console_runs() {
    // JMP $8000 forever.
    let mut console = console_with_prg(&[(0, 0x4C), (1, 0x00), (2, 0x80)]);
    assert_eq!(console.step(), Ok(3));
    assert_eq!(console.step_seconds(2), Ok(()));
    assert_eq!(console.cpu.pc, 0x8000);
    assert_eq!(console.get_pixels().len(), 256 * 240 * 3);
    console.set_controller_buttons(1, [true; 8]);
    assert_eq!(console.cpu.mem.controller_2.buttons, [true; 8]);
}

#[test]
fn header_round_trip() {
    for (mapper, mirroring, trainer) in [
        (0u8, Mirroring::Horizontal, false),
        (1, Mirroring::Vertical, true),
        (0x42, Mirroring::FourScreen, false),
        (0xF2, Mirroring::Vertical, false),
    ] {
        let mut data = format_header(mapper, mirroring, 2, 1, 3, trainer);
        assert_eq!(data.len(), 16);
        if trainer {
            data.extend(vec![0xEEu8; 512]);
        }
        let mut prg = vec![0u8; 2 * PRG_BANK];
        prg[0] = 0x11;
        prg[2 * PRG_BANK - 1] = 0x22;
        data.extend_from_slice(&prg);
        data.extend(vec![0x33u8; CHR_BANK]);
        let rom = Rom::load(&data).unwrap();
        assert_eq!(rom.mapper, mapper);
        assert_eq!(rom.mirroring, mirroring);
        assert_eq!(rom.prg, prg);
        assert_eq!(rom.chr, vec![0x33u8; CHR_BANK]);
        assert_eq!(rom.ram.len(), 3 * PRG_RAM_SIZE);
    }
}

#[test]
fn audio_registers_are_stubbed() {
    // LDA $4000; STA $4003
    let mut console = console_with_prg(&[(0, 0xAD), (1, 0x00), (2, 0x40), (3, 0x8D), (4, 0x03), (5, 0x40)]);
    console.cpu.a = 0x55;
    assert_eq!(console.cpu.step(), Ok(4));
    assert_eq!(console.cpu.a, 0);
    assert_eq!(console.cpu.step(), Ok(4));
    assert_eq!(console.cpu.mem.fault, None);
}

#[test]
fn nmi_takes_seven_cycles() {
    let mut console = console_with_prg(&[(0x3FFA, 0x00), (0x3FFB, 0x90)]);
    let before = console.cpu.cycles;
    console.cpu.nmi();
    assert_eq!(console.cpu.cycles, before + 7);
    assert_eq!(console.cpu.pc, 0x9000);
}

#[test]
fn loads_see_ppu_registers() {
    let mut console = console_with_prg(&[]);
    console.cpu.mem.ppu.nmi_occurred = true;
    assert_eq!(console.cpu.mem.load(0x2002) & 0x80, 0x80);
    assert!(console.cpu.mem.ppu.nmi_occurred);
    assert_eq!(console.cpu.mem.fault, None);
    assert_eq!(console.cpu.mem.load(0x5000), 0);
    assert_eq!(console.cpu.mem.fault, Some(0x5000));
}

#[test]
fn step_seconds_zero_does_nothing() {
    let mut console = console_with_prg(&[(0, 0x4C), (1, 0x00), (2, 0x80)]);
    let pc = console.cpu.pc;
    let cycles = console.cpu.cycles;
    assert_eq!(console.step_seconds(0), Ok(()));
    assert_eq!((console.cpu.pc, console.cpu.cycles), (pc, cycles));
    assert_eq!(console.step_seconds(1), Ok(()));
    let ran = console.cpu.cycles - cycles;
    assert!(ran >= 1789 && ran < 1789 + 3);
}
