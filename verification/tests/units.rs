//! Component-level tests: registers, timer, mappers, audio pieces.

use dmg_core::apu::Apu;
use dmg_core::apu::ch1::Ch1;
use dmg_core::apu::ch2::Ch2;
use dmg_core::buttons::{ButtonState, Buttons};
use dmg_core::mbc::CartridgeHeader;
use dmg_core::register::{CpuRegisters, FlagRegister, Register16, RegisterAF};
use dmg_core::timer::Timer;
use dmg_core::CoreError;

#[test]
fn r8_round_trip_all_codes() {
    let mut regs = CpuRegisters::new();
    for code in [0u8, 1, 2, 3, 4, 5, 7] {
        for v in [0u8, 1, 0x5a, 0xff] {
            regs.set_r8(code, v);
            assert_eq!(regs.get_r8(code), v);
        }
    }
}

#[test]
fn af_write_forces_low_nibble_zero() {
    let mut af = RegisterAF::zero();
    af.write(0xffff);
    assert_eq!(af.read(), 0xfff0);
    af.write(0x12b7);
    assert_eq!(af.read(), 0x12b0);
}

#[test]
fn r16_round_trip() {
    let mut r = Register16::zero();
    r.write(0xbeef);
    assert_eq!(r.read(), 0xbeef);
    r.add_wrapping(0xffff);
    assert_eq!(r.read(), 0xbeee);
    r.sub_wrapping(0xbeee);
    assert_eq!(r.read(), 0);
    r.sub_wrapping(1);
    assert_eq!(r.read(), 0xffff);
}

#[test]
fn flag_register_byte_codec() {
    let mut f = FlagRegister::clear();
    f.write(0xff);
    assert_eq!(f.read(), 0xf0);
    assert!(f.z && f.n && f.h && f.c);
    f.write(0x80);
    assert!(f.z && !f.n && !f.h && !f.c);
    assert_eq!(f.read(), 0x80);
}

#[test]
fn joyp_nibbles_report_pressed_as_zero() {
    let mut b = Buttons::new();
    assert_eq!(b.as_joyp(2), 0x0f);
    assert_eq!(b.as_joyp(1), 0x0f);
    b.down = ButtonState::Pressed;
    b.a = ButtonState::Pressed;
    assert_eq!(b.as_joyp(2), 0x07);
    assert_eq!(b.as_joyp(1), 0x0e);
    assert_eq!(b.as_joyp(3), 0x0f);
    assert!(b.down.is_pressed());
    assert!(b.up.is_released());
}

/// With TAC code 00 the period is 1024 master ticks: between two TIMA
/// increments exactly 1024 ticks elapse.
#[test]
fn tima_cadence_1024() {
    let mut t = Timer {
        sys: 0,
        tima: 0,
        tma: 0,
        tac: 0x04,
        overflow_pending: false,
    };
    let mut increments: Vec<u64> = Vec::new();
    let mut last = t.tima;
    for n in 1..=5000u64 {
        t.tick();
        if t.tima != last {
            increments.push(n);
            last = t.tima;
        }
    }
    assert!(increments.len() >= 4);
    for w in increments.windows(2) {
        assert_eq!(w[1] - w[0], 1024);
    }
}

/// DIV is the high byte of `sys` and advances by at most one step over
/// any 256 ticks.
#[test]
fn div_monotonicity() {
    let mut t = Timer {
        sys: 0xfff0,
        tima: 0,
        tma: 0,
        tac: 0,
        overflow_pending: false,
    };
    let mut prev = t.div();
    for _ in 0..4 {
        for _ in 0..256 {
            t.tick();
        }
        let now = t.div();
        let stepped = now == prev || now == prev.wrapping_add(1);
        assert!(stepped);
        prev = now;
    }
}

/// With TMA=0xAB and TAC=0x05 (enabled, period 16), a timer started four
/// ticks into its period sees TIMA overflow on tick 12 and the delayed
/// reload and interrupt on exactly tick 16.
#[test]
fn tima_overflow_reload() {
    let mut t = Timer {
        sys: 4,
        tima: 0xff,
        tma: 0xab,
        tac: 0x05,
        overflow_pending: false,
    };
    let mut raised_at: Option<u32> = None;
    for n in 1..=16u32 {
        let raise = t.tick();
        if raise {
            raised_at = Some(n);
        }
        if n < 16 {
            assert_ne!(t.tima, 0xab);
            assert!(raise == false);
        }
    }
    assert_eq!(raised_at, Some(16));
    assert_eq!(t.tima, 0xab);
}

fn rom_with(mapper: u8, rom_code: u8, ram_code: u8, fill: &[(usize, u8)]) -> Vec<u8> {
    let banks = 2usize << rom_code;
    let mut rom = vec![0u8; banks * 0x4000];
    rom[0x147] = mapper;
    rom[0x148] = rom_code;
    rom[0x149] = ram_code;
    for &(addr, v) in fill {
        rom[addr] = v;
    }
    rom
}

#[test]
fn header_errors_are_exact() {
    assert_eq!(
        CartridgeHeader::new(vec![0u8; 0x100]).err().unwrap(),
        CoreError::RomTooSmall
    );
    let rom = rom_with(0x20, 0, 0, &[]);
    assert_eq!(
        CartridgeHeader::new(rom).err().unwrap(),
        CoreError::UnsupportedMapper(0x20)
    );
    let mut rom = rom_with(0x01, 0, 0, &[]);
    rom[0x148] = 9;
    assert_eq!(
        CartridgeHeader::new(rom).err().unwrap(),
        CoreError::UnsupportedRomSize(9)
    );
    let mut rom = rom_with(0x01, 0, 0, &[]);
    rom[0x149] = 6;
    assert_eq!(
        CartridgeHeader::new(rom).err().unwrap(),
        CoreError::UnsupportedRamSize(6)
    );
}

/// For any ROM-bank selector, a read in the high window comes from bank
/// `(BANK2*32 | max(B,1)) mod N`; and writing 0 to 2000-3FFF selects
/// bank 1, never bank 0.
#[test]
fn mbc1_banking_and_zero_coercion() {
    // 8 banks of 16 KiB; first byte of each bank holds the bank number.
    let mut fills = Vec::new();
    for b in 0..8usize {
        fills.push((b * 0x4000, b as u8));
    }
    let rom = rom_with(0x01, 2, 0, &fills);
    let mut h = CartridgeHeader::new(rom).unwrap();
    // Fresh mapper: high window shows bank 1.
    assert_eq!(h.mbc.read(0x4000), 1);
    // Select bank 5.
    h.mbc.write(0x2000, 5);
    assert_eq!(h.mbc.read(0x4000), 5);
    // Selector is masked to five bits and reduced modulo the bank count.
    h.mbc.write(0x2000, 0x1f); // 31 % 8 == 7
    assert_eq!(h.mbc.read(0x4000), 7);
    // Writing zero coerces to bank 1.
    h.mbc.write(0x2000, 0);
    assert_eq!(h.mbc.read(0x4000), 1);
    // Low window stays bank 0 in mode 0.
    assert_eq!(h.mbc.read(0x0000), 0);
}

#[test]
fn mbc1_ram_enable_gate() {
    let rom = rom_with(0x03, 0, 3, &[]);
    let mut h = CartridgeHeader::new(rom).unwrap();
    // Disabled RAM reads 0xFF and discards writes.
    assert_eq!(h.mbc.read(0xa000), 0xff);
    h.mbc.write(0xa000, 0x55);
    assert_eq!(h.mbc.read(0xa000), 0xff);
    // 0x0A in the low nibble opens the latch.
    h.mbc.write(0x0000, 0x0a);
    h.mbc.write(0xa000, 0x55);
    assert_eq!(h.mbc.read(0xa000), 0x55);
    // Any other value closes it again.
    h.mbc.write(0x0000, 0x00);
    assert_eq!(h.mbc.read(0xa000), 0xff);
}

#[test]
fn mbc3_and_mbc5_banking() {
    let mut fills = Vec::new();
    for b in 0..8usize {
        fills.push((b * 0x4000, 0x40 + b as u8));
    }
    let rom3 = rom_with(0x11, 2, 0, &fills);
    let mut h3 = CartridgeHeader::new(rom3).unwrap();
    h3.mbc.write(0x2000, 6);
    assert_eq!(h3.mbc.read(0x4000), 0x46);
    h3.mbc.write(0x2000, 0); // coerced to 1
    assert_eq!(h3.mbc.read(0x4000), 0x41);

    let rom5 = rom_with(0x19, 2, 0, &fills);
    let mut h5 = CartridgeHeader::new(rom5).unwrap();
    h5.mbc.write(0x2000, 3);
    assert_eq!(h5.mbc.read(0x4000), 0x43);
    // MBC5 allows selecting bank 0 in the high window.
    h5.mbc.write(0x2000, 0);
    assert_eq!(h5.mbc.read(0x4000), 0x40);
}

/// A channel with length-enable set and length L goes silent after
/// exactly L length-clock events.
#[test]
fn length_expiry_after_exactly_l_events() {
    let mut ch = Ch2::new();
    // DAC on.
    ch.write(0, 0xff17, 0xf0, true);
    // Length load 60 -> counter 64 - 60 = 4.
    ch.write(0, 0xff16, 60, true);
    // Trigger with length enable.
    ch.write(0, 0xff19, 0xc0, true);
    assert!(ch.enabled);
    // Length ticks happen on even sequencer steps.
    let mut events = 0;
    for step in 0..16u8 {
        let before = ch.enabled;
        ch.clock(step % 8);
        if step % 2 == 0 {
            events += 1;
        }
        if events < 4 {
            assert!(ch.enabled, "silenced too early after {events} events");
        }
        if events == 4 && step % 2 == 0 {
            assert!(!ch.enabled, "still audible after {events} events");
            break;
        }
        let _ = before;
    }
    assert!(!ch.enabled);
}

/// Writing 0x00 then 0x80 to NR52 must leave wave RAM and all four
/// length counters unchanged.
#[test]
fn apu_power_off_preserves_wave_and_lengths() {
    let mut apu = Apu::new();
    apu.write(0xff26, 0x80);
    for i in 0..16u16 {
        apu.write(0xff30 + i, (0x11 * (i as u8)).wrapping_add(3));
    }
    apu.write(0xff11, 10); // ch1 length counter 54
    apu.write(0xff16, 20); // ch2 length counter 44
    apu.write(0xff1b, 30); // ch3 length counter 226
    apu.write(0xff20, 40); // ch4 length counter 24
    let wave_before: Vec<u8> = (0..16u16).map(|i| apu.read(0xff30 + i)).collect();
    let lengths_before = (
        apu.ch1.length.length,
        apu.ch2.length.length,
        apu.ch3.length.length,
        apu.ch4.length.length,
    );
    apu.write(0xff26, 0x00);
    apu.write(0xff26, 0x80);
    let wave_after: Vec<u8> = (0..16u16).map(|i| apu.read(0xff30 + i)).collect();
    assert_eq!(wave_before, wave_after);
    assert_eq!(
        lengths_before,
        (
            apu.ch1.length.length,
            apu.ch2.length.length,
            apu.ch3.length.length,
            apu.ch4.length.length,
        )
    );
    assert_eq!(lengths_before, (54, 44, 226, 24));
}

#[test]
fn apu_off_discards_other_writes() {
    let mut apu = Apu::new();
    // Powered off: NR50 write is discarded.
    apu.write(0xff24, 0x77);
    assert_eq!(apu.read(0xff24), 0);
    apu.write(0xff26, 0x80);
    apu.write(0xff24, 0x77);
    assert_eq!(apu.read(0xff24), 0x77);
}

#[test]
fn mixer_digital_sample() {
    let mut apu = Apu::new();
    apu.write(0xff26, 0x80);
    // Channel 2: DAC on, full volume, duty 0, trigger.
    apu.write(0xff17, 0xf0);
    apu.write(0xff16, 0x00);
    apu.write(0xff19, 0x80);
    // Pan channel 2 left only; full volume both sides.
    apu.write(0xff25, 0x20);
    apu.write(0xff24, 0x77);
    let (l, r) = apu.sample();
    // Duty pattern 0 is high at position 0: sample 15/15, volume step 8.
    assert_eq!(l, 15 * 8);
    assert_eq!(r, 0);
}

/// On trigger with a non-zero shift, the sweep runs its overflow check at
/// once: a period whose sweep sum leaves the 11-bit range silences the
/// channel immediately.
#[test]
fn sweep_overflow_check_on_trigger() {
    let mut ch = Ch1::new();
    ch.write(0, 0xff12, 0xf0, true); // DAC on
    ch.write(0, 0xff10, 0x11, true); // pace 1, add mode, shift 1
    ch.write(0, 0xff13, 0x80, true); // period low
    ch.write(0, 0xff14, 0x87, true); // trigger, period high 7 -> 0x780
    // 0x780 + (0x780 >> 1) = 0xB40 overflows the 11-bit period.
    assert!(!ch.enabled);
    // A period whose sum stays in range keeps the channel running.
    let mut ch = Ch1::new();
    ch.write(0, 0xff12, 0xf0, true);
    ch.write(0, 0xff10, 0x11, true);
    ch.write(0, 0xff13, 0x00, true);
    ch.write(0, 0xff14, 0x81, true); // period 0x100
    assert!(ch.enabled);
}

/// Clearing the negate bit after a negate-mode sweep calculation
/// silences the channel at once.
#[test]
fn sweep_negate_clear_quirk() {
    let mut ch = Ch1::new();
    ch.write(0, 0xff12, 0xf0, true); // DAC on
    ch.write(0, 0xff10, 0x18, true); // pace 1, negate mode, shift 0
    ch.write(0, 0xff13, 0x40, true);
    ch.write(0, 0xff14, 0x81, true); // trigger, period 0x140
    assert!(ch.enabled);
    // A sweep tick in negate mode performs a negate calculation.
    ch.clock(2);
    assert!(ch.enabled);
    // Switching the sweep back to add mode now kills the channel.
    ch.write(0, 0xff10, 0x10, true);
    assert!(!ch.enabled);
}
