//! Machine-level tests: the PPU frame cadence, interrupts, DMA, the CPU
//! through whole instructions, and the boot sequence.

use dmg_core::cpu::Cpu;
use dmg_core::ppu::Ppu;
use dmg_core::CoreError;

fn rom_with_program(program: &[u8]) -> Vec<u8> {
    let mut rom = vec![0u8; 0x8000];
    rom[0x147] = 0x00;
    rom[0x148] = 0x00;
    rom[0x149] = 0x00;
    rom[0x100..0x100 + program.len()].copy_from_slice(program);
    rom
}

fn fastboot(program: &[u8]) -> Cpu {
    Cpu::new_fastboot(rom_with_program(program), vec![0u8; 256]).unwrap()
}

/// Runs whole m-cycles until `n` instructions have completed.
fn run_cycles(cpu: &mut Cpu, n: usize) {
    for _ in 0..n {
        cpu.cycle().unwrap();
    }
}

/// Exactly 154 * 456 = 70224 dots elapse between successive V-Blank
/// entries.
#[test]
fn ppu_frame_period() {
    let mut p = Ppu::new();
    p.write(0xff40, 0x80);
    let mut entries: Vec<u64> = Vec::new();
    for n in 1..=(3 * 70224u64) {
        p.clock();
        let (vblank, _) = p.take_interrupts();
        if vblank {
            entries.push(n);
        }
    }
    assert_eq!(entries.len(), 3);
    assert_eq!(entries[1] - entries[0], 70224);
    assert_eq!(entries[2] - entries[1], 70224);
    // The first frame's entry: the last dot of line 143.
    assert_eq!(entries[0], 143 * 456 + 456);
}

/// With LYC=42 and STAT bit 6 set, the STAT interrupt fires on the dot
/// where LY becomes 42, not before and not later.
#[test]
fn lyc_interrupt_timing() {
    let mut p = Ppu::new();
    p.write(0xff40, 0x80);
    p.write(0xff45, 42);
    p.write(0xff41, 0x40);
    let mut fired_at: Option<u64> = None;
    for n in 1..=30000u64 {
        p.clock();
        let (_, stat) = p.take_interrupts();
        if stat {
            fired_at = Some(n);
            break;
        }
    }
    // LY transitions to 42 on the dot that ends line 41: tick 42 * 456.
    assert_eq!(fired_at, Some(42 * 456));
    assert_eq!(p.ly, 42);
}

/// Writing 0xC0 to FF46 when C000..C09F holds k at offset k leaves OAM
/// holding the same bytes 162 m-cycles later.
#[test]
fn dma_atomicity() {
    // The entry point parks the CPU in a tight loop.
    let mut cpu = fastboot(&[0x18, 0xfe]);
    for k in 0..160u16 {
        cpu.mmu.write(0xc000 + k, k as u8);
    }
    cpu.mmu.write(0xff46, 0xc0);
    for _ in 0..162 {
        cpu.dma_step();
    }
    for k in 0..160u16 {
        assert_eq!(cpu.mmu.read(0xfe00 + k), k as u8);
    }
}

/// Loading a ROM with no cartridge RAM and issuing ten million master
/// ticks from cold reset: the machine must have left the boot image
/// (BANK non-zero) and show the frame its boot ROM and entry point
/// produce - here the all-zero image, since neither turns the LCD on.
#[test]
fn boot_sequence() {
    // The boot image writes 1 to BANK (FF50) and falls through NOPs; the
    // cartridge's 0000..00FF is a NOP sled into the entry point, which
    // parks in a tight loop.
    let mut boot = vec![0u8; 256];
    boot[0] = 0x3e; // LD A, 1
    boot[1] = 0x01;
    boot[2] = 0xe0; // LDH (0x50), A
    boot[3] = 0x50;
    let mut cpu = Cpu::new(rom_with_program(&[0x18, 0xfe]), boot).unwrap();
    for _ in 0..10_000_000u64 {
        cpu.step_master_tick().unwrap();
    }
    assert_ne!(cpu.mmu.io.bank, 0);
    let frame = cpu.frame();
    assert_eq!(frame.len(), 160 * 144);
    assert!(frame.iter().all(|&px| px == 0));
}

/// ADD sets H exactly when the low nibbles carry and C exactly when the
/// full sum carries; SUB mirrors them as borrows; Z tracks the result.
#[test]
fn add_sub_flags_through_instructions() {
    // LD A,0x0F; ADD A,0x01; LD B,A; LD A,0xFF; ADD A,0x01; LD A,0x10; SUB A,0x20
    let mut cpu = fastboot(&[
        0x3e, 0x0f, // LD A, 0x0F
        0xc6, 0x01, // ADD A, 0x01  -> 0x10, H set, C clear
        0x3e, 0xff, // LD A, 0xFF
        0xc6, 0x01, // ADD A, 0x01  -> 0x00, Z H C set
        0x3e, 0x10, // LD A, 0x10
        0xd6, 0x20, // SUB A, 0x20  -> 0xF0, C set, H clear
    ]);
    run_cycles(&mut cpu, 4);
    assert_eq!(cpu.registers.af.high.0, 0x10);
    assert!(cpu.registers.af.low.h && !cpu.registers.af.low.c && !cpu.registers.af.low.z);
    run_cycles(&mut cpu, 4);
    assert_eq!(cpu.registers.af.high.0, 0x00);
    assert!(cpu.registers.af.low.z && cpu.registers.af.low.h && cpu.registers.af.low.c);
    run_cycles(&mut cpu, 4);
    assert_eq!(cpu.registers.af.high.0, 0xf0);
    assert!(cpu.registers.af.low.c && !cpu.registers.af.low.h && cpu.registers.af.low.n);
}

/// The reported m-cycle cost matches the published table, including the
/// extra cycle of a taken conditional jump.
#[test]
fn instruction_costs() {
    let mut cpu = fastboot(&[0x00]);
    cpu.cycle().unwrap(); // NOP
    assert_eq!(cpu.delay, 1);

    let mut cpu = fastboot(&[0xc3, 0x00, 0x02]); // JP 0x0200
    cpu.cycle().unwrap();
    assert_eq!(cpu.delay, 4);
    assert_eq!(cpu.registers.pc.read(), 0x0200);

    // JR NZ taken (Z clear after fastboot? fastboot leaves Z set: 0xB0
    // has Z). Use JR NC: fastboot C is set too. Clear flags first.
    let mut cpu = fastboot(&[
        0xa7, // AND A, A -> clears C, keeps A=1, Z clear
        0x20, 0x02, // JR NZ, +2 (taken)
    ]);
    cpu.cycle().unwrap();
    assert_eq!(cpu.delay, 1);
    cpu.cycle().unwrap(); // spends the delay cycle and decodes JR
    assert_eq!(cpu.delay, 3); // taken: 3 m-cycles
    // Not taken: JR Z when Z is clear.
    let mut cpu = fastboot(&[
        0xa7, // AND A, A
        0x28, 0x02, // JR Z, +2 (not taken)
    ]);
    cpu.cycle().unwrap();
    cpu.cycle().unwrap();
    assert_eq!(cpu.delay, 2);
}

/// Write-then-read round trips through memory and 16-bit transfers.
#[test]
fn load_store_round_trip() {
    let mut cpu = fastboot(&[
        0x21, 0x00, 0xc0, // LD HL, 0xC000
        0x3e, 0x5a, // LD A, 0x5A
        0x77, // LD (HL), A
        0x7e, // LD A, (HL) (redundant, keeps 0x5A)
        0x46, // LD B, (HL)
    ]);
    run_cycles(&mut cpu, 3 + 2 + 2 + 2 + 2);
    assert_eq!(cpu.mmu.read(0xc000), 0x5a);
    assert_eq!(cpu.registers.bc.high.0, 0x5a);
}

/// PUSH then POP restores a register pair through the stack.
#[test]
fn push_pop_round_trip() {
    let mut cpu = fastboot(&[
        0x01, 0x34, 0x12, // LD BC, 0x1234
        0xc5, // PUSH BC
        0xd1, // POP DE
    ]);
    run_cycles(&mut cpu, 3 + 4 + 3);
    assert_eq!(cpu.registers.de.read(), 0x1234);
    assert_eq!(cpu.registers.sp.read(), 0xfffe);
}

/// An unused encoding stops the machine and names the byte.
#[test]
fn illegal_opcode_reported() {
    let mut cpu = fastboot(&[0xd3]);
    let mut err = None;
    for _ in 0..8 {
        if let Err(e) = cpu.cycle() {
            err = Some(e);
            break;
        }
    }
    assert_eq!(err, Some(CoreError::IllegalOpcode(0xd3)));
}

/// The timer interrupt fires through the machine: EI, a pending timer
/// overflow, and the handler at 0x50.
#[test]
fn timer_interrupt_dispatch() {
    let mut cpu = fastboot(&[0x18, 0xfe]); // entry: tight loop
    // Enable the timer interrupt and fake a pending request.
    cpu.mmu.write(0xffff, 0x04);
    cpu.mmu.write(0xff0f, 0x04);
    cpu.ime = true;
    cpu.cycle().unwrap();
    assert_eq!(cpu.registers.pc.read(), 0x50);
    assert!(!cpu.ime);
    assert_eq!(cpu.mmu.read(0xff0f), 0x00);
    assert_eq!(cpu.delay, 5);
}

/// EI takes effect only after the following instruction.
#[test]
fn ei_is_delayed_one_instruction() {
    let mut cpu = fastboot(&[
        0xfb, // EI
        0x00, // NOP
        0x00, // NOP
    ]);
    cpu.mmu.write(0xffff, 0x04);
    cpu.mmu.write(0xff0f, 0x04);
    cpu.cycle().unwrap(); // EI
    assert!(!cpu.ime);
    cpu.cycle().unwrap(); // NOP executes; IME still off at its boundary
    assert!(!cpu.ime);
    assert_eq!(cpu.registers.pc.read(), 0x102);
    cpu.cycle().unwrap(); // boundary after the next instruction: serviced
    assert!(cpu.ime || cpu.registers.pc.read() == 0x50);
}

/// The JOYP register reports the selected nibble with pressed bits low.
#[test]
fn joyp_through_the_bus() {
    let mut cpu = fastboot(&[0x18, 0xfe]);
    let mut buttons = dmg_core::buttons::Buttons::new();
    buttons.start = dmg_core::buttons::ButtonState::Pressed;
    cpu.set_buttons(buttons);
    // Select the action nibble: bit 5 low, bit 4 high.
    cpu.mmu.write(0xff00, 0x10);
    assert_eq!(cpu.mmu.read(0xff00), 0x10 | 0x07);
    // Select the direction nibble: all released.
    cpu.mmu.write(0xff00, 0x20);
    assert_eq!(cpu.mmu.read(0xff00), 0x20 | 0x0f);
}

/// Echo RAM mirrors C000-DDFF, and the prohibited region reads 0xFF.
#[test]
fn bus_quiet_semantics() {
    let mut cpu = fastboot(&[0x18, 0xfe]);
    cpu.mmu.write(0xc123, 0x99);
    assert_eq!(cpu.mmu.read(0xe123), 0x99);
    cpu.mmu.write(0xe200, 0x42);
    assert_eq!(cpu.mmu.read(0xc200), 0x42);
    assert_eq!(cpu.mmu.read(0xfeb0), 0xff);
    cpu.mmu.write(0xfeb0, 0x11);
    assert_eq!(cpu.mmu.read(0xfeb0), 0xff);
}

/// DIV reads the high byte of the system counter and any write clears it.
#[test]
fn div_write_resets_counter() {
    let mut cpu = fastboot(&[0x18, 0xfe]);
    assert_eq!(cpu.mmu.read(0xff04), 0xab); // fastboot counter 0xabcc
    cpu.mmu.write(0xff04, 0x12);
    assert_eq!(cpu.mmu.read(0xff04), 0x00);
    assert_eq!(cpu.mmu.timer.sys, 0);
}

/// The background renderer draws a solid tile through the palette.
#[test]
fn ppu_draws_a_tile() {
    let mut p = Ppu::new();
    // Tile 0: all pixels color 3 (both planes full).
    for row in 0..8u16 {
        p.write(0x8000 + 2 * row, 0xff);
        p.write(0x8000 + 2 * row + 1, 0xff);
    }
    // Tile map 9800 already points at tile 0 everywhere.
    // Palette: identity; LCDC: on, BG on, 8000 addressing.
    p.write(0xff47, 0xe4);
    p.write(0xff40, 0x91);
    // Render one full line.
    for _ in 0..456 {
        p.clock();
    }
    let frame = p.frame();
    assert_eq!(frame[0], 3);
    assert_eq!(frame[159], 3);
}

/// DAA adjusts a BCD addition: 0x15 + 0x27 reads 0x42 after adjustment.
#[test]
fn daa_adjusts_bcd() {
    let mut cpu = fastboot(&[
        0x3e, 0x15, // LD A, 0x15
        0xc6, 0x27, // ADD A, 0x27 -> 0x3C
        0x27, // DAA -> 0x42
    ]);
    run_cycles(&mut cpu, 2 + 2 + 1);
    assert_eq!(cpu.registers.af.high.0, 0x42);
    assert!(!cpu.registers.af.low.c);
}

/// HALT suspends the CPU until an interrupt is pending; with IME off the
/// pending interrupt releases the halt without being serviced.
#[test]
fn halt_waits_for_pending_interrupt() {
    let mut cpu = fastboot(&[
        0x76, // HALT
        0x3e, 0x77, // LD A, 0x77
    ]);
    cpu.cycle().unwrap(); // HALT
    assert!(cpu.halted);
    cpu.cycle().unwrap();
    cpu.cycle().unwrap();
    assert!(cpu.halted);
    assert_eq!(cpu.registers.pc.read(), 0x101);
    cpu.mmu.write(0xffff, 0x04);
    cpu.mmu.write(0xff0f, 0x04);
    cpu.cycle().unwrap(); // released, not serviced (IME off)
    assert!(!cpu.halted);
    cpu.cycle().unwrap(); // LD A, 0x77 decodes
    cpu.cycle().unwrap();
    assert_eq!(cpu.registers.af.high.0, 0x77);
    assert_eq!(cpu.mmu.read(0xff0f), 0x04); // still pending
}

/// The CB-prefixed operations act on registers and memory: SWAP, SET and
/// BIT through a small program.
#[test]
fn cb_operations() {
    let mut cpu = fastboot(&[
        0x3e, 0x12, // LD A, 0x12
        0xcb, 0x37, // SWAP A -> 0x21
        0xcb, 0xe7, // SET 4, A -> 0x31
        0xcb, 0x67, // BIT 4, A -> Z clear
    ]);
    run_cycles(&mut cpu, 2 + 2 + 2 + 2);
    assert_eq!(cpu.registers.af.high.0, 0x31);
    assert!(!cpu.registers.af.low.z);
    assert!(cpu.registers.af.low.h);
}

/// Rotates through carry chain bits across instructions.
#[test]
fn rotate_through_carry() {
    let mut cpu = fastboot(&[
        0xa7, // AND A, A (A=1 after fastboot): clears carry
        0x3e, 0x80, // LD A, 0x80
        0x17, // RLA -> 0x00, carry set
        0x17, // RLA -> 0x01, carry clear
    ]);
    run_cycles(&mut cpu, 1 + 2 + 1 + 1);
    assert_eq!(cpu.registers.af.high.0, 0x01);
    assert!(!cpu.registers.af.low.c);
}
