//! The 16-bit system counter and the TIMA/TMA/TAC timer.
//!
//! `sys` advances once per master tick; DIV is its high byte and any write
//! to it clears the whole counter.  TIMA is clocked by the falling edge of
//! the TAC-selected bit of `sys`, which happens exactly when the bits at
//! and below the selected one are all set before the increment.  An
//! overflow of TIMA is latched, and one m-cycle later TIMA is reloaded
//! from TMA and the timer interrupt is requested.

use vstd::prelude::*;
use crate::util::wrap_add16;

verus! {

/// The timer and divider state.
#[derive(Clone, Copy, Debug, PartialEq, Eq, Structural)]
pub struct Timer {
    /// The free-running 16-bit system counter.
    pub sys: u16,
    /// The visible timer counter (FF05).
    pub tima: u8,
    /// The modulo reloaded into TIMA after an overflow (FF06).
    pub tma: u8,
    /// The timer control (FF07): bit 2 enables, bits 1..0 pick the rate.
    pub tac: u8,
    /// Set while an overflow waits for its delayed reload and interrupt.
    pub overflow_pending: bool,
}

/// The mask of `sys` bits that must all be set for the next increment to
/// produce a falling edge of the TAC-selected bit: TAC code 00 watches bit
/// 9 (period 1024), 01 bit 3 (16), 10 bit 5 (64), 11 bit 7 (256).
pub open spec fn edge_mask(tac: u8) -> u16 {
    if tac & 3 == 0 {
        0x3ff
    } else if tac & 3 == 1 {
        0xf
    } else if tac & 3 == 2 {
        0x3f
    } else {
        0xff
    }
}

impl Timer {
    pub open spec fn enabled(self) -> bool {
        self.tac & 4 != 0
    }

    /// Whether the coming `sys` increment clocks TIMA: every bit at and
    /// below the selected one is set, so the selected bit falls.
    pub open spec fn edge_now(self) -> bool {
        self.sys & edge_mask(self.tac) == edge_mask(self.tac)
    }

    /// The timer one master tick later, and whether the tick raised the
    /// timer interrupt.  Per tick: `sys` advances; on an m-cycle boundary
    /// a pending overflow reloads TIMA from TMA and requests the
    /// interrupt; then, if the timer is enabled and the increment produced
    /// a falling edge of the selected bit, TIMA is clocked, latching a new
    /// overflow when it wraps.
    pub open spec fn tick_spec(pre: Timer) -> (Timer, bool) {
        let sys = wrap_add16(pre.sys, 1);
        let reload = sys % 4 == 0 && pre.overflow_pending;
        let tima0: u8 = if reload {
            pre.tma
        } else {
            pre.tima
        };
        let pending0 = if reload {
            false
        } else {
            pre.overflow_pending
        };
        let edge = pre.enabled() && pre.edge_now();
        let tima1: u8 = if edge {
            if tima0 == 0xff {
                0
            } else {
                (tima0 + 1) as u8
            }
        } else {
            tima0
        };
        let pending1 = if edge && tima0 == 0xff {
            true
        } else {
            pending0
        };
        (Timer { sys, tima: tima1, overflow_pending: pending1, ..pre }, reload)
    }

    pub fn new() -> (r: Timer)
        ensures
            r == (Timer { sys: 0, tima: 0, tma: 0, tac: 0, overflow_pending: false }),
    {
        Timer { sys: 0, tima: 0, tma: 0, tac: 0, overflow_pending: false }
    }

    /// Advances the timer by one master tick; the result says whether the
    /// timer interrupt must be requested on this tick.
    pub fn tick(&mut self) -> (raise: bool)
        ensures
            *final(self) == Timer::tick_spec(*old(self)).0,
            raise == Timer::tick_spec(*old(self)).1,
    {
        let edge = (self.tac & 4 != 0) && {
            let mask = match self.tac & 3 {
                0 => 0x3ff,
                1 => 0xf,
                2 => 0x3f,
                _ => 0xff,
            };
            self.sys & mask == mask
        };
        self.sys = self.sys.wrapping_add(1);
        let mut raised = false;
        if self.sys % 4 == 0 && self.overflow_pending {
            self.tima = self.tma;
            self.overflow_pending = false;
            raised = true;
        }
        if edge {
            if self.tima == 0xff {
                self.tima = 0;
                self.overflow_pending = true;
            } else {
                self.tima = self.tima + 1;
            }
        }
        raised
    }

    /// The DIV register (FF04): the high byte of `sys`.
    pub fn div(&self) -> (r: u8)
        ensures
            r == self.sys / 256,
    {
        (self.sys / 256) as u8
    }

    /// A write to DIV (FF04): any value clears the whole counter.
    pub fn write_div(&mut self)
        ensures
            *final(self) == (Timer { sys: 0, ..*old(self) }),
    {
        self.sys = 0;
    }

    pub fn write_tima(&mut self, val: u8)
        ensures
            *final(self) == (Timer { tima: val, ..*old(self) }),
    {
        self.tima = val;
    }

    pub fn write_tma(&mut self, val: u8)
        ensures
            *final(self) == (Timer { tma: val, ..*old(self) }),
    {
        self.tma = val;
    }

    pub fn write_tac(&mut self, val: u8)
        ensures
            *final(self) == (Timer { tac: val, ..*old(self) }),
    {
        self.tac = val;
    }
}

/// With TAC code 00 the TIMA clock watches bit 9: the edge falls exactly
/// when `sys` is 1023 modulo 1024, so increments land where `sys` has just
/// become a multiple of 1024.
pub proof fn lemma_edge_is_mod_1024(t: Timer)
    requires
        t.tac & 3 == 0,
    ensures
        t.edge_now() <==> t.sys % 1024 == 1023,
{
    let x = t.sys;
    assert((x & 0x3ff == 0x3ff) <==> x % 1024 == 1023) by (bit_vector);
}

/// The `sys` value reached after `n` master ticks.
pub open spec fn sys_after(s0: u16, n: int) -> int {
    (s0 + n) % 0x10000
}

/// After any tick, `sys` modulo 1024 is `(s0 + ticks)` modulo 1024: the
/// 2^16 wrap never disturbs the low ten bits' cadence.
pub proof fn lemma_sys_mod_1024(s0: u16, n: int)
    requires
        n >= 0,
    ensures
        sys_after(s0, n) % 1024 == (s0 + n) % 1024,
{
    let a = s0 + n;
    assert(a >= 0);
    assert(0x10000 == 1024 * 64);
    vstd::arithmetic::div_mod::lemma_mod_mod(a, 1024, 64);
}

/// With TAC code 00, exactly 1024 master ticks elapse between one TIMA
/// increment and the next, whatever TMA holds: increments happen at the
/// ticks `n` where `s0 + n` is a multiple of 1024, and two consecutive
/// such points differ by 1024.
pub proof fn lemma_tima_cadence_1024(s0: u16, n1: int, n2: int)
    requires
        0 < n1 < n2,
        (s0 + n1) % 1024 == 0,
        (s0 + n2) % 1024 == 0,
        forall|m: int| n1 < m < n2 ==> #[trigger] ((s0 + m) % 1024) != 0,
    ensures
        n2 - n1 == 1024,
{
    let a = s0 + n1;
    let b = s0 + n2;
    vstd::arithmetic::div_mod::lemma_fundamental_div_mod(a, 1024);
    vstd::arithmetic::div_mod::lemma_fundamental_div_mod(b, 1024);
    let ka = a / 1024;
    let kb = b / 1024;
    assert(a == 1024 * ka);
    assert(b == 1024 * kb);
    assert(kb > ka) by (nonlinear_arith)
        requires
            a == 1024 * ka,
            b == 1024 * kb,
            b > a,
    ;
    if kb - ka > 1 {
        let m = n1 + 1024;
        assert(s0 + m == 1024 * (ka + 1));
        assert((1024 * (ka + 1)) % 1024 == 0) by (nonlinear_arith);
        assert(m < n2) by (nonlinear_arith)
            requires
                a == 1024 * ka,
                b == 1024 * kb,
                kb - ka > 1,
                m == a - s0 + 1024,
                n2 == b - s0,
        ;
        assert((s0 + m) % 1024 != 0);
        assert(false);
    }
    assert(kb == ka + 1);
    assert(b - a == 1024) by (nonlinear_arith)
        requires
            a == 1024 * ka,
            b == 1024 * kb,
            kb == ka + 1,
    ;
}

/// Outside of DIV writes, DIV (the high byte of `sys`) advances by at most
/// one step modulo 256 over any span of up to 256 master ticks.
pub proof fn lemma_div_monotone(s0: u16, n: int)
    requires
        0 <= n <= 256,
    ensures
        sys_after(s0, n) / 256 == s0 / 256 || sys_after(s0, n) / 256 == (s0 / 256 + 1) % 256,
{
    let a = s0 + n;
    vstd::arithmetic::div_mod::lemma_fundamental_div_mod(s0 as int, 256);
    if a < 0x10000 {
        assert(sys_after(s0, n) == a) by {
            vstd::arithmetic::div_mod::lemma_small_mod(a as nat, 0x10000);
        };
    } else {
        assert(a - 0x10000 < 0x10000);
        assert(sys_after(s0, n) == a - 0x10000) by {
            vstd::arithmetic::div_mod::lemma_mod_sub_multiples_vanish(a, 0x10000);
            vstd::arithmetic::div_mod::lemma_small_mod((a - 0x10000) as nat, 0x10000);
        };
        assert(s0 / 256 == 255);
    }
}

} // verus!
