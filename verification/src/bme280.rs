//! BME280 environmental sensor driver.
//!
//! The sensor keeps factory calibration words in its registers; raw ADC
//! readings are turned into temperature, pressure and humidity by the
//! vendor's fixed-point compensation formulas over those words. The driver
//! reads registers one byte per transaction over the shared I2C bus, which
//! the arbiter hands out together with the saved device state.

use vstd::prelude::*;
use vstd::arithmetic::div_mod::{lemma_fundamental_div_mod, lemma_fundamental_div_mod_converse};
use vstd::wrapping::{i32_specs as i32s, i64_specs as i64s};
use crate::ports::{reg_read, reg_write, I2cAction, I2cBus};

verus! {

/// A failure of the sensor driver.
#[derive(Clone, Copy, Debug, PartialEq, Eq, Structural)]
pub enum Error {
    BusRead,
    BusWrite,
    /// The chip identity register did not hold the expected value.
    WrongChipId,
    /// Parameters were read before calibration.
    NotInitialized,
}

/// Floor division on wide signed values, used for the arithmetic shifts of
/// the compensation formulas, whose operands can be negative.
fn div_floor(a: i128, d: i128) -> (q: i128)
    requires
        1 <= d <= 0x1_0000_0000_0000_0000,
        -0x1000_0000_0000_0000_0000_0000_0000 <= a <= 0x1000_0000_0000_0000_0000_0000_0000,
    ensures
        q == a as int / d as int,
        a >= 0 ==> 0 <= q <= a,
        a < 0 ==> a <= q <= 0,
{
    proof {
        lemma_fundamental_div_mod(a as int, d as int);
        assert(a as int <= a as int / d as int <= 0 || 0 <= a as int / d as int <= a as int)
            by (nonlinear_arith)
            requires
                d >= 1,
                a as int == d as int * (a as int / d as int) + (a as int % d as int),
                0 <= (a as int % d as int) && (a as int % d as int) < d as int,
        ;
    }
    if a >= 0 {
        let q0 = (a as u128) / (d as u128);
        q0 as i128
    } else {
        let n = (-a) as u128;
        let du = d as u128;
        let q0 = (n + (du - 1)) / du;
        proof {
            let ni = n as int;
            let di = d as int;
            let qq = ni / di;
            let rr = ni % di;
            lemma_fundamental_div_mod(ni, di);
            if rr == 0 {
                assert(ni + di - 1 == qq * di + (di - 1) && -ni == (-qq) * di) by (nonlinear_arith)
                    requires
                        ni == qq * di + rr,
                        rr == 0,
                ;
                lemma_fundamental_div_mod_converse(ni + di - 1, di, qq, di - 1);
                lemma_fundamental_div_mod_converse(-ni, di, -qq, 0);
            } else {
                assert(ni + di - 1 == (qq + 1) * di + (rr - 1)) by (nonlinear_arith)
                    requires
                        ni == qq * di + rr,
                ;
                lemma_fundamental_div_mod_converse(ni + di - 1, di, qq + 1, rr - 1);
                assert(-ni == (-(qq + 1)) * di + (di - rr)) by (nonlinear_arith)
                    requires
                        ni == qq * di + rr,
                ;
                lemma_fundamental_div_mod_converse(-ni, di, -(qq + 1), di - rr);
            }
        }
        -(q0 as i128)
    }
}

/// Division truncating toward zero, the semantics of the processor
/// division the compensation formulas were written for.
pub open spec fn div_trunc(a: int, d: int) -> int {
    let n = if a >= 0 {
        a
    } else {
        -a
    };
    let m = if d >= 0 {
        d
    } else {
        -d
    };
    if (a >= 0) == (d >= 0) {
        n / m
    } else {
        -(n / m)
    }
}

fn div_trunc_exec(a: i128, d: i128) -> (q: i128)
    requires
        d != 0,
        -0x1000_0000_0000_0000_0000_0000_0000 <= d <= 0x1000_0000_0000_0000_0000_0000_0000,
        -0x1000_0000_0000_0000_0000_0000_0000 <= a <= 0x1000_0000_0000_0000_0000_0000_0000,
    ensures
        q == div_trunc(a as int, d as int),
        a >= 0 ==> 0 - a <= q <= a,
        a < 0 ==> a <= q <= 0 - a,
{
    let n: u128 = if a >= 0 {
        a as u128
    } else {
        (-a) as u128
    };
    let m: u128 = if d >= 0 {
        d as u128
    } else {
        (-d) as u128
    };
    let q0 = n / m;
    proof {
        lemma_fundamental_div_mod(n as int, m as int);
        assert(0 <= n as int / m as int <= n as int) by (nonlinear_arith)
            requires
                m >= 1,
                n as int == m as int * (n as int / m as int) + (n as int % m as int),
                0 <= (n as int % m as int) && (n as int % m as int) < m as int,
        ;
    }
    if (a >= 0) == (d >= 0) {
        q0 as i128
    } else {
        -(q0 as i128)
    }
}

/// The factory calibration words, as parsed from the calibration
/// registers.
#[derive(Clone, Copy, Debug, Default, PartialEq, Eq, Structural)]
pub struct ADCCompensator {
    pub digt1: u16,
    pub digt2: i16,
    pub digt3: i16,
    pub digp1: u16,
    pub digp2: i16,
    pub digp3: i16,
    pub digp4: i16,
    pub digp5: i16,
    pub digp6: i16,
    pub digp7: i16,
    pub digp8: i16,
    pub digp9: i16,
    pub digh1: u8,
    pub digh2: i16,
    pub digh3: u8,
    pub digh4: i16,
    pub digh5: i16,
    pub digh6: i8,
}

/// The processor division the formulas were written for: truncation toward
/// zero, and the one wrapping corner of that division.
pub open spec fn i64_div_wrap(x: i64, d: i64) -> i64 {
    if x == i64::MIN && d == -1 {
        i64::MIN
    } else {
        div_trunc(x as int, d as int) as i64
    }
}

/// The fine temperature of the vendor formula, the value the pressure and
/// humidity formulas reuse. The formula is a transcription of the vendor's
/// 32-bit fixed-point arithmetic: divisions stand for its arithmetic
/// shifts, and products wrap as its 32-bit products do.
pub open spec fn spec_t_fine(c: ADCCompensator, adc_t: i32) -> int
    recommends
        0 <= adc_t < 0x100000,
{
    let var1 = i32s::wrapping_mul((adc_t / 8 - c.digt1 * 2) as i32, c.digt2 as i32) as int / 2048;
    let d = (adc_t / 16 - c.digt1) as i32;
    let var2 = i32s::wrapping_mul(
        (i32s::wrapping_mul(d, d) as int / 4096) as i32,
        c.digt3 as i32,
    ) as int / 16384;
    var1 + var2
}

/// The compensated temperature in hundredths of a degree.
pub open spec fn spec_temperature(c: ADCCompensator, adc_t: i32) -> int
    recommends
        0 <= adc_t < 0x100000,
{
    (spec_t_fine(c, adc_t) * 5 + 128) / 256
}

/// The compensated pressure of the vendor formula, in 256ths of a pascal:
/// a transcription of its 64-bit fixed-point arithmetic, wrapping where it
/// wraps, with the final value truncated to 32 bits.
pub open spec fn spec_pressure(c: ADCCompensator, adc_p: i32, t_fine: i32) -> int
    recommends
        0 <= adc_p < 0x100000,
{
    let a = t_fine as int - 128000;
    let b1 = i64s::wrapping_mul(i64s::wrapping_mul(a as i64, a as i64), c.digp6 as i64);
    let b2 = i64s::wrapping_add(
        b1,
        i64s::wrapping_mul(i64s::wrapping_mul(a as i64, c.digp5 as i64), 0x20000),
    );
    let b3 = i64s::wrapping_add(b2, i64s::wrapping_mul(c.digp4 as i64, 0x800000000));
    let a1 = i64s::wrapping_add(
        (i64s::wrapping_mul(i64s::wrapping_mul(a as i64, a as i64), c.digp3 as i64) as int
            / 256) as i64,
        i64s::wrapping_mul(i64s::wrapping_mul(a as i64, c.digp2 as i64), 0x1000),
    );
    let a2 = (i64s::wrapping_mul(
        i64s::wrapping_add(0x800000000000, a1),
        c.digp1 as i64,
    ) as int / 0x200000000) as i64;
    if a2 == 0 {
        0
    } else {
        let p1 = i64s::wrapping_mul(
            i64s::wrapping_sub(
                i64s::wrapping_mul((1048576 - adc_p) as i64, 0x80000000),
                b3,
            ),
            3125,
        );
        let p2 = i64_div_wrap(p1, a2);
        let a3 = (i64s::wrapping_mul(
            i64s::wrapping_mul(c.digp9 as i64, (p2 as int / 8192) as i64),
            (p2 as int / 8192) as i64,
        ) as int / 0x2000000) as i64;
        let b4 = (i64s::wrapping_mul(c.digp8 as i64, p2) as int / 0x80000) as i64;
        let p3 = i64s::wrapping_add(
            (i64s::wrapping_add(i64s::wrapping_add(p2, a3), b4) as int / 256) as i64,
            i64s::wrapping_mul(c.digp7 as i64, 16),
        );
        p3 as int % 0x1_0000_0000
    }
}

/// The compensated relative humidity of the vendor formula, in 1024ths of
/// a percent, clamped to its valid range: a transcription of its 32-bit
/// fixed-point arithmetic, wrapping where it wraps.
pub open spec fn spec_humidity(c: ADCCompensator, adc_h: i32, t_fine: i32) -> int
    recommends
        0 <= adc_h < 0x10000,
{
    let v1 = i32s::wrapping_sub(t_fine, 76800);
    let x1 = i32s::wrapping_add(
        i32s::wrapping_sub(
            i32s::wrapping_sub(
                (adc_h as int * 16384) as i32,
                i32s::wrapping_mul(c.digh4 as i32, 0x100000),
            ),
            i32s::wrapping_mul(c.digh5 as i32, v1),
        ),
        16384,
    );
    let x = (x1 as int / 32768) as i32;
    let y1 = (i32s::wrapping_mul(v1, c.digh6 as i32) as int / 1024) as i32;
    let y2 = i32s::wrapping_add(
        (i32s::wrapping_mul(v1, c.digh3 as i32) as int / 2048) as i32,
        32768,
    );
    let y3 = i32s::wrapping_add((i32s::wrapping_mul(y1, y2) as int / 1024) as i32, 2097152);
    let y = i32s::wrapping_add(i32s::wrapping_mul(y3, c.digh2 as i32), 8192);
    let v2 = i32s::wrapping_mul(x, (y as int / 16384) as i32);
    let sq = (i32s::wrapping_mul(
        (v2 as int / 32768) as i32,
        (v2 as int / 32768) as i32,
    ) as int / 128) as i32;
    let v3 = (i32s::wrapping_sub(v2, i32s::wrapping_mul(sq, c.digh1 as i32)) as int / 16) as i32;
    let v4 = if v3 < 0 {
        0
    } else {
        if v3 > 419430400 {
            419430400
        } else {
            v3 as int
        }
    };
    v4 / 4096
}

/// Floor division with a small positive divisor, the arithmetic right
/// shift of a 64-bit value.
fn shr_floor(v: i64, d: i64) -> (q: i64)
    requires
        1 <= d <= 0x1_0000_0000_0000,
    ensures
        q == v as int / d as int,
{
    let q = div_floor(v as i128, d as i128);
    q as i64
}

/// The same arithmetic right shift for a 32-bit value.
fn shr_floor32(v: i32, d: i32) -> (q: i32)
    requires
        1 <= d <= 0x4000_0000,
    ensures
        q == v as int / d as int,
{
    let q = div_floor(v as i128, d as i128);
    q as i32
}

impl ADCCompensator {
    /// Compensate a raw temperature reading: the temperature in hundredths
    /// of a degree, and the fine value the other formulas reuse.
    pub fn compensate_t(&self, adc_t: i32) -> (r: (i32, i32))
        requires
            0 <= adc_t < 0x100000,
        ensures
            r.0 == spec_temperature(*self, adc_t),
            r.1 == spec_t_fine(*self, adc_t),
            -0x400000 <= r.1 <= 0x400000,
    {
        let a8 = ((adc_t as u32) / 8) as i32;
        let a16 = ((adc_t as u32) / 16) as i32;
        let var1 = shr_floor32((a8 - (self.digt1 as i32) * 2).wrapping_mul(self.digt2 as i32), 2048);
        let d = a16 - self.digt1 as i32;
        let var2 = shr_floor32(
            shr_floor32(d.wrapping_mul(d), 4096).wrapping_mul(self.digt3 as i32),
            16384,
        );
        let t_fine = var1 + var2;
        let t = shr_floor32(t_fine * 5 + 128, 256);
        (t, t_fine)
    }

    /// Compensate a raw pressure reading against the fine temperature: the
    /// pressure in 256ths of a pascal.
    pub fn compensate_p(&self, adc_p: i32, t_fine: i32) -> (r: u32)
        requires
            0 <= adc_p < 0x100000,
        ensures
            r == spec_pressure(*self, adc_p, t_fine),
    {
        let a: i64 = t_fine as i64 - 128000;
        let b1 = a.wrapping_mul(a).wrapping_mul(self.digp6 as i64);
        let b2 = b1.wrapping_add(a.wrapping_mul(self.digp5 as i64).wrapping_mul(0x20000));
        let b3 = b2.wrapping_add((self.digp4 as i64).wrapping_mul(0x800000000));
        let a1 = shr_floor(a.wrapping_mul(a).wrapping_mul(self.digp3 as i64), 256)
            .wrapping_add(a.wrapping_mul(self.digp2 as i64).wrapping_mul(0x1000));
        let a2 = shr_floor(
            (0x800000000000i64).wrapping_add(a1).wrapping_mul(self.digp1 as i64),
            0x200000000,
        );
        if a2 == 0 {
            return 0;
        }
        let num = (1048576 - adc_p as i64).wrapping_mul(0x80000000).wrapping_sub(b3).wrapping_mul(
            3125,
        );
        let p2: i64 = if num == i64::MIN && a2 == -1 {
            i64::MIN
        } else {
            div_trunc_exec(num as i128, a2 as i128) as i64
        };
        let a3 = shr_floor(
            (self.digp9 as i64).wrapping_mul(shr_floor(p2, 8192)).wrapping_mul(
                shr_floor(p2, 8192),
            ),
            0x2000000,
        );
        let b4 = shr_floor((self.digp8 as i64).wrapping_mul(p2), 0x80000);
        let p3 = shr_floor(p2.wrapping_add(a3).wrapping_add(b4), 256).wrapping_add(
            (self.digp7 as i64).wrapping_mul(16),
        );
        let m = p3 as i128 - div_floor(p3 as i128, 0x1_0000_0000) * 0x1_0000_0000;
        m as u32
    }

    /// Compensate a raw humidity reading against the fine temperature: the
    /// relative humidity in 1024ths of a percent.
    pub fn compensate_h(&self, adc_h: i32, t_fine: i32) -> (r: u32)
        requires
            0 <= adc_h < 0x10000,
        ensures
            r == spec_humidity(*self, adc_h, t_fine),
    {
        let v1 = t_fine.wrapping_sub(76800);
        let x1 = (adc_h * 16384).wrapping_sub((self.digh4 as i32).wrapping_mul(0x100000))
            .wrapping_sub((self.digh5 as i32).wrapping_mul(v1)).wrapping_add(16384);
        let x = shr_floor32(x1, 32768);
        let y1 = shr_floor32(v1.wrapping_mul(self.digh6 as i32), 1024);
        let y2 = shr_floor32(v1.wrapping_mul(self.digh3 as i32), 2048).wrapping_add(32768);
        let y3 = shr_floor32(y1.wrapping_mul(y2), 1024).wrapping_add(2097152);
        let y = y3.wrapping_mul(self.digh2 as i32).wrapping_add(8192);
        let v2 = x.wrapping_mul(shr_floor32(y, 16384));
        let sq = shr_floor32(
            shr_floor32(v2, 32768).wrapping_mul(shr_floor32(v2, 32768)),
            128,
        );
        let v3 = shr_floor32(v2.wrapping_sub(sq.wrapping_mul(self.digh1 as i32)), 16);
        let v4: i32 = if v3 < 0 {
            0
        } else {
            if v3 > 419430400 {
                419430400
            } else {
                v3
            }
        };
        ((v4 as u32) / 4096)
    }

    /// Compensate all three raw readings together, threading the fine
    /// temperature from the temperature formula into the other two.
    pub fn compensate_tph(&self, t: i32, p: i32, h: i32) -> (r: (i32, u32, u32))
        requires
            0 <= t < 0x100000,
            0 <= p < 0x100000,
            0 <= h < 0x10000,
        ensures
            r.0 == spec_temperature(*self, t),
            r.1 == spec_pressure(*self, p, (spec_t_fine(*self, t)) as i32),
            r.2 == spec_humidity(*self, h, (spec_t_fine(*self, t)) as i32),
    {
        let (t_out, t_fine) = self.compensate_t(t);
        let p_out = self.compensate_p(p, t_fine);
        let h_out = self.compensate_h(h, t_fine);
        (t_out, p_out, h_out)
    }
}

/// Chip identity register.
pub const REG_CHIP_ID: u8 = 0xD0;

/// Humidity oversampling control register.
pub const REG_CTRL_HUM: u8 = 0xF2;

/// Measurement control register.
pub const REG_CTRL_MEAS: u8 = 0xF4;

/// Standby and filter configuration register.
pub const REG_CONFIG: u8 = 0xF5;

/// The identity the chip reports.
pub const CHIP_ID: u8 = 0x60;

/// The transactions that read a register list byte by byte, with the bytes
/// that came back.
pub open spec fn reg_reads(addr: u8, regs: Seq<u8>, resps: Seq<u8>) -> Seq<I2cAction>
    recommends
        regs.len() == resps.len(),
{
    Seq::new(regs.len(), |i: int| reg_read(addr, regs[i], resps[i]))
}

/// The temperature calibration registers, in read order.
pub open spec fn t_cal_regs() -> Seq<u8> {
    seq![0x88u8, 0x89, 0x8A, 0x8B, 0x8C, 0x8D]
}

/// The pressure calibration registers, in read order.
pub open spec fn p_cal_regs() -> Seq<u8> {
    seq![
        0x8Eu8,
        0x8F,
        0x90,
        0x91,
        0x92,
        0x93,
        0x94,
        0x95,
        0x96,
        0x97,
        0x98,
        0x99,
        0x9A,
        0x9B,
        0x9C,
        0x9D,
        0x9E,
        0x9F,
    ]
}

/// The humidity calibration registers, in read order.
pub open spec fn h_cal_regs() -> Seq<u8> {
    seq![0xA1u8, 0xE1, 0xE2, 0xE3, 0xE4, 0xE5, 0xE6, 0xE7]
}

/// The raw measurement registers, in read order: pressure, temperature,
/// humidity.
pub open spec fn param_regs() -> Seq<u8> {
    seq![0xF7u8, 0xF8, 0xF9, 0xFA, 0xFB, 0xFC, 0xFD, 0xFE]
}

/// A little-endian unsigned calibration word.
pub open spec fn le16u(lo: u8, hi: u8) -> u16 {
    (lo + hi * 256) as u16
}

/// A little-endian signed calibration word.
pub open spec fn le16i(lo: u8, hi: u8) -> i16 {
    if lo + hi * 256 >= 0x8000 {
        (lo + hi * 256 - 0x10000) as i16
    } else {
        (lo + hi * 256) as i16
    }
}

/// A byte reinterpreted as signed.
pub open spec fn as_i8(v: u8) -> i8 {
    if v >= 128 {
        (v - 256) as i8
    } else {
        v as i8
    }
}

fn le16u_exec(lo: u8, hi: u8) -> (r: u16)
    ensures
        r == le16u(lo, hi),
{
    lo as u16 + hi as u16 * 256
}

fn le16i_exec(lo: u8, hi: u8) -> (r: i16)
    ensures
        r == le16i(lo, hi),
{
    let v: i32 = lo as i32 + hi as i32 * 256;
    if v >= 0x8000 {
        (v - 0x10000) as i16
    } else {
        v as i16
    }
}

fn as_i8_exec(v: u8) -> (r: i8)
    ensures
        r == as_i8(v),
{
    if v >= 128 {
        (v as i16 - 256) as i8
    } else {
        v as i8
    }
}

/// The calibration words parsed from the three register groups.
pub open spec fn parse_compensator(t: Seq<u8>, p: Seq<u8>, h: Seq<u8>) -> ADCCompensator
    recommends
        t.len() == 6,
        p.len() == 18,
        h.len() == 8,
{
    ADCCompensator {
        digt1: le16u(t[0], t[1]),
        digt2: le16i(t[2], t[3]),
        digt3: le16i(t[4], t[5]),
        digp1: le16u(p[0], p[1]),
        digp2: le16i(p[2], p[3]),
        digp3: le16i(p[4], p[5]),
        digp4: le16i(p[6], p[7]),
        digp5: le16i(p[8], p[9]),
        digp6: le16i(p[10], p[11]),
        digp7: le16i(p[12], p[13]),
        digp8: le16i(p[14], p[15]),
        digp9: le16i(p[16], p[17]),
        digh1: h[0],
        digh2: le16i(h[1], h[2]),
        digh3: h[3],
        digh4: (h[4] * 16 + h[5] % 16) as i16,
        digh5: (h[6] * 16 + h[5] / 16) as i16,
        digh6: as_i8(h[7]),
    }
}

/// The raw 20-bit pressure reading of a measurement block.
pub open spec fn raw_p(bs: Seq<u8>) -> int
    recommends
        bs.len() == 8,
{
    bs[0] * 4096 + bs[1] * 16 + bs[2] / 16
}

/// The raw 20-bit temperature reading of a measurement block.
pub open spec fn raw_t(bs: Seq<u8>) -> int
    recommends
        bs.len() == 8,
{
    bs[3] * 4096 + bs[4] * 16 + bs[5] / 16
}

/// The raw 16-bit humidity reading of a measurement block.
pub open spec fn raw_h(bs: Seq<u8>) -> int
    recommends
        bs.len() == 8,
{
    bs[6] * 256 + bs[7]
}

/// Compensated temperature in hundredths of a degree; presentation as a
/// fraction is the caller's business.
#[derive(Clone, Copy, Debug, PartialEq, Eq, Structural)]
pub struct Temperature(i32);

impl Temperature {
    pub closed spec fn spec_raw(&self) -> i32 {
        self.0
    }

    pub fn from_raw(raw: i32) -> (t: Temperature)
        ensures
            t.spec_raw() == raw,
    {
        Temperature(raw)
    }

    /// Hundredths of a degree.
    pub fn raw(&self) -> (r: i32)
        ensures
            r == self.spec_raw(),
    {
        self.0
    }
}

/// Compensated pressure in 256ths of a pascal.
#[derive(Clone, Copy, Debug, PartialEq, Eq, Structural)]
pub struct Pressure(u32);

impl Pressure {
    pub closed spec fn spec_raw(&self) -> u32 {
        self.0
    }

    pub fn from_raw(raw: u32) -> (p: Pressure)
        ensures
            p.spec_raw() == raw,
    {
        Pressure(raw)
    }

    /// 256ths of a pascal.
    pub fn raw(&self) -> (r: u32)
        ensures
            r == self.spec_raw(),
    {
        self.0
    }
}

/// Compensated relative humidity in 1024ths of a percent.
#[derive(Clone, Copy, Debug, PartialEq, Eq, Structural)]
pub struct Humidity(u32);

impl Humidity {
    pub closed spec fn spec_raw(&self) -> u32 {
        self.0
    }

    pub fn from_raw(raw: u32) -> (h: Humidity)
        ensures
            h.spec_raw() == raw,
    {
        Humidity(raw)
    }

    /// 1024ths of a percent.
    pub fn raw(&self) -> (r: u32)
        ensures
            r == self.spec_raw(),
    {
        self.0
    }
}

/// The saved per-device state of the sensor: its bus address and, once
/// calibrated, the parsed calibration words.
pub struct BME280State {
    addr: u8,
    compensator: Option<ADCCompensator>,
}

impl BME280State {
    /// The 7-bit bus address.
    pub closed spec fn spec_addr(&self) -> u8 {
        self.addr
    }

    /// The calibration words, once read.
    pub closed spec fn spec_compensator(&self) -> Option<ADCCompensator> {
        self.compensator
    }

    pub fn new(addr: u8) -> (s: BME280State)
        ensures
            s.spec_addr() == addr,
            s.spec_compensator() is None,
    {
        BME280State { addr, compensator: None }
    }
}

/// The sensor driver: the borrowed bus and the saved device state.
pub struct BME280<I2C> {
    i2c: I2C,
    state: BME280State,
}

impl<I2C> BME280<I2C> {
    /// The driver value combining a bus and a device state.
    pub closed spec fn spec_combine(i2c: I2C, state: BME280State) -> BME280<I2C> {
        BME280 { i2c, state }
    }

    /// A driver is exactly its bus and its device state combined.
    pub proof fn lemma_combine(d: BME280<I2C>)
        ensures
            d == BME280::spec_combine(d.spec_i2c(), d.spec_state()),
    {
    }

    /// The borrowed bus.
    pub closed spec fn spec_i2c(&self) -> I2C {
        self.i2c
    }

    /// The saved device state.
    pub closed spec fn spec_state(&self) -> BME280State {
        self.state
    }

    /// The device address on the bus.
    pub open spec fn addr(&self) -> u8 {
        self.spec_state().spec_addr()
    }

    pub fn new(i2c: I2C, state: BME280State) -> (d: BME280<I2C>)
        ensures
            d == BME280::spec_combine(i2c, state),
            d.spec_i2c() == i2c,
            d.spec_state() == state,
    {
        BME280 { i2c, state }
    }

    /// Decompose the driver back into the bus and the device state.
    pub fn release(self) -> (r: (I2C, BME280State))
        ensures
            r.0 == self.spec_i2c(),
            r.1 == self.spec_state(),
    {
        (self.i2c, self.state)
    }
}

impl<I2C: I2cBus> BME280<I2C> {
    /// The bus transactions performed so far.
    pub open spec fn log(&self) -> Seq<I2cAction> {
        self.spec_i2c().log()
    }

    fn write_reg(&mut self, reg: u8, value: u8) -> (r: Result<(), Error>)
        ensures
            r is Ok ==> final(self).log() == old(self).log().push(
                reg_write(old(self).addr(), reg, value),
            ),
            r is Err ==> r == Err::<(), Error>(Error::BusWrite) && final(self).log() == old(
                self,
            ).log(),
            final(self).spec_state() == old(self).spec_state(),
    {
        let buf: [u8; 2] = [reg, value];
        match self.i2c.write(self.state.addr, buf.as_slice()) {
            Ok(()) => {
                proof {
                    assert(buf@ =~= seq![reg, value]);
                }
                Ok(())
            },
            Err(()) => Err(Error::BusWrite),
        }
    }

    /// Read the listed registers, one single-byte transaction each.
    fn read_regs(&mut self, regs: &[u8]) -> (r: Result<Vec<u8>, Error>)
        ensures
            r matches Ok(resps) ==> resps@.len() == regs@.len() && final(self).log() == old(
                self,
            ).log() + reg_reads(old(self).addr(), regs@, resps@),
            r is Err ==> r == Err::<Vec<u8>, Error>(Error::BusRead) && old(
                self,
            ).log().is_prefix_of(final(self).log()),
            final(self).spec_state() == old(self).spec_state(),
    {
        let mut resps: Vec<u8> = Vec::new();
        let mut i: usize = 0;
        while i < regs.len()
            invariant
                i <= regs@.len(),
                resps@.len() == i,
                self.log() == old(self).log() + reg_reads(
                    old(self).addr(),
                    regs@.take(i as int),
                    resps@,
                ),
                self.spec_state() == old(self).spec_state(),
            decreases regs@.len() - i,
        {
            let reg = regs[i];
            let cmds: [u8; 1] = [reg];
            match self.i2c.write_read(self.state.addr, cmds.as_slice(), 1) {
                Ok(got) => {
                    let b = got[0];
                    proof {
                        assert(got@ =~= seq![b]);
                        assert(cmds@ =~= seq![reg]);
                        assert(reg_reads(
                            old(self).addr(),
                            regs@.take(i + 1 as int),
                            resps@.push(b),
                        ) =~= reg_reads(old(self).addr(), regs@.take(i as int), resps@).push(
                            reg_read(old(self).addr(), reg, b),
                        ));
                    }
                    resps.push(b);
                },
                Err(()) => {
                    proof {
                        let olde = old(self).log();
                        assert(olde =~= self.log().subrange(0, olde.len() as int));
                    }
                    return Err(Error::BusRead);
                },
            }
            i = i + 1;
        }
        proof {
            assert(regs@.take(regs@.len() as int) =~= regs@);
        }
        Ok(resps)
    }

    /// Check the chip identity, configure oversampling and standby, and
    /// read the calibration words.
    pub fn init(&mut self) -> (r: Result<(), Error>)
        ensures
            r is Ok ==> exists|tb: Seq<u8>, pb: Seq<u8>, hb: Seq<u8>|
                tb.len() == 6 && pb.len() == 18 && hb.len() == 8 && final(self).log() == old(
                    self,
                ).log().push(reg_read(old(self).addr(), REG_CHIP_ID, CHIP_ID)).push(
                    reg_write(old(self).addr(), REG_CTRL_HUM, 7),
                ).push(reg_write(old(self).addr(), REG_CTRL_MEAS, 0x27)).push(
                    reg_write(old(self).addr(), REG_CONFIG, 0xA0),
                ) + reg_reads(old(self).addr(), t_cal_regs(), tb) + reg_reads(
                    old(self).addr(),
                    p_cal_regs(),
                    pb,
                ) + reg_reads(old(self).addr(), h_cal_regs(), hb) && final(self).spec_state().spec_compensator() == Some(parse_compensator(tb, pb, hb)),
            r is Ok ==> final(self).spec_state().spec_compensator() is Some,
            r is Ok ==> final(self).spec_state().spec_addr() == old(self).addr(),
            r == Err::<(), Error>(Error::WrongChipId) ==> exists|b: u8|
                final(self).log() == old(self).log().push(
                    reg_read(old(self).addr(), REG_CHIP_ID, b),
                ) && b != CHIP_ID,
            r is Err ==> r == Err::<(), Error>(Error::WrongChipId) || r == Err::<(), Error>(
                Error::BusRead,
            ) || r == Err::<(), Error>(Error::BusWrite),
            r is Err ==> final(self).spec_state().spec_compensator() == old(
                self,
            ).spec_state().spec_compensator() && final(self).spec_state().spec_addr() == old(
                self,
            ).addr(),
            old(self).log().is_prefix_of(final(self).log()),
    {
        let id_regs: [u8; 1] = [REG_CHIP_ID];
        let chip_id = self.read_regs(id_regs.as_slice())?;
        proof {
            assert(id_regs@ =~= seq![REG_CHIP_ID]);
            let olde = old(self).log();
            assert(olde =~= self.log().subrange(0, olde.len() as int));
            assert(self.log() =~= old(self).log().push(
                reg_read(old(self).addr(), REG_CHIP_ID, chip_id@[0]),
            ));
        }
        if chip_id[0] != CHIP_ID {
            return Err(Error::WrongChipId);
        }
        self.set_settings()?;
        let ghost before_cal = self.log();
        self.calibrate()?;
        proof {
            let olde = old(self).log();
            assert(olde =~= self.log().subrange(0, olde.len() as int));
            let a = old(self).addr();
            let (tb, pb, hb) = choose|tb: Seq<u8>, pb: Seq<u8>, hb: Seq<u8>|
                tb.len() == 6 && pb.len() == 18 && hb.len() == 8 && self.log() == before_cal
                    + reg_reads(a, t_cal_regs(), tb) + reg_reads(a, p_cal_regs(), pb) + reg_reads(
                    a,
                    h_cal_regs(),
                    hb,
                ) && self.spec_state().spec_compensator() == Some(parse_compensator(tb, pb, hb));
            assert(self.log() =~= old(self).log().push(reg_read(a, REG_CHIP_ID, CHIP_ID)).push(
                reg_write(a, REG_CTRL_HUM, 7),
            ).push(reg_write(a, REG_CTRL_MEAS, 0x27)).push(reg_write(a, REG_CONFIG, 0xA0))
                + reg_reads(a, t_cal_regs(), tb) + reg_reads(a, p_cal_regs(), pb) + reg_reads(
                a,
                h_cal_regs(),
                hb,
            ));
        }
        Ok(())
    }

    /// Configure oversampling, sensor mode, standby time and filter.
    fn set_settings(&mut self) -> (r: Result<(), Error>)
        ensures
            r is Ok ==> final(self).log() == old(self).log().push(
                reg_write(old(self).addr(), REG_CTRL_HUM, 7),
            ).push(reg_write(old(self).addr(), REG_CTRL_MEAS, 0x27)).push(
                reg_write(old(self).addr(), REG_CONFIG, 0xA0),
            ),
            r is Err ==> r == Err::<(), Error>(Error::BusWrite),
            old(self).log().is_prefix_of(final(self).log()),
            final(self).spec_state() == old(self).spec_state(),
    {
        let ghost olde = self.log();
        self.write_reg(REG_CTRL_HUM, 7)?;
        self.write_reg(REG_CTRL_MEAS, 0x27)?;
        self.write_reg(REG_CONFIG, 0xA0)?;
        proof {
            let olde2 = old(self).log();
            assert(olde2 =~= self.log().subrange(0, olde2.len() as int));
        }
        Ok(())
    }

    /// Read and parse the factory calibration words.
    fn calibrate(&mut self) -> (r: Result<(), Error>)
        ensures
            r is Ok ==> exists|tb: Seq<u8>, pb: Seq<u8>, hb: Seq<u8>|
                tb.len() == 6 && pb.len() == 18 && hb.len() == 8 && final(self).log() == old(
                    self,
                ).log() + reg_reads(old(self).addr(), t_cal_regs(), tb) + reg_reads(
                    old(self).addr(),
                    p_cal_regs(),
                    pb,
                ) + reg_reads(old(self).addr(), h_cal_regs(), hb) && final(self).spec_state().spec_compensator() == Some(parse_compensator(tb, pb, hb)),
            r is Err ==> r == Err::<(), Error>(Error::BusRead) && final(self).spec_state().spec_compensator() == old(self).spec_state().spec_compensator(),
            old(self).log().is_prefix_of(final(self).log()),
            final(self).spec_state().spec_addr() == old(self).addr(),
    {
        let t_regs: [u8; 6] = [0x88, 0x89, 0x8A, 0x8B, 0x8C, 0x8D];
        proof {
            assert(t_regs@ =~= t_cal_regs());
        }
        let t_bytes = self.read_regs(t_regs.as_slice())?;
        let p_regs: [u8; 18] = [
            0x8E,
            0x8F,
            0x90,
            0x91,
            0x92,
            0x93,
            0x94,
            0x95,
            0x96,
            0x97,
            0x98,
            0x99,
            0x9A,
            0x9B,
            0x9C,
            0x9D,
            0x9E,
            0x9F,
        ];
        proof {
            assert(p_regs@ =~= p_cal_regs());
        }
        let p_bytes = self.read_regs(p_regs.as_slice())?;
        let h_regs: [u8; 8] = [0xA1, 0xE1, 0xE2, 0xE3, 0xE4, 0xE5, 0xE6, 0xE7];
        proof {
            assert(h_regs@ =~= h_cal_regs());
        }
        let h_bytes = self.read_regs(h_regs.as_slice())?;
        let compensator = ADCCompensator {
            digt1: le16u_exec(t_bytes[0], t_bytes[1]),
            digt2: le16i_exec(t_bytes[2], t_bytes[3]),
            digt3: le16i_exec(t_bytes[4], t_bytes[5]),
            digp1: le16u_exec(p_bytes[0], p_bytes[1]),
            digp2: le16i_exec(p_bytes[2], p_bytes[3]),
            digp3: le16i_exec(p_bytes[4], p_bytes[5]),
            digp4: le16i_exec(p_bytes[6], p_bytes[7]),
            digp5: le16i_exec(p_bytes[8], p_bytes[9]),
            digp6: le16i_exec(p_bytes[10], p_bytes[11]),
            digp7: le16i_exec(p_bytes[12], p_bytes[13]),
            digp8: le16i_exec(p_bytes[14], p_bytes[15]),
            digp9: le16i_exec(p_bytes[16], p_bytes[17]),
            digh1: h_bytes[0],
            digh2: le16i_exec(h_bytes[1], h_bytes[2]),
            digh3: h_bytes[3],
            digh4: (h_bytes[4] as i16) * 16 + (h_bytes[5] as i16) % 16,
            digh5: (h_bytes[6] as i16) * 16 + (h_bytes[5] as i16) / 16,
            digh6: as_i8_exec(h_bytes[7]),
        };
        self.state.compensator = Some(compensator);
        proof {
            assert(compensator == parse_compensator(t_bytes@, p_bytes@, h_bytes@));
            let olde = old(self).log();
            assert(olde =~= self.log().subrange(0, olde.len() as int));
        }
        Ok(())
    }

    /// Read the raw measurement block and compensate it into temperature,
    /// pressure and humidity.
    pub fn read_params(&mut self) -> (r: Result<(Temperature, Pressure, Humidity), Error>)
        ensures
            r matches Ok(out) ==> exists|bs: Seq<u8>|
                bs.len() == 8 && final(self).log() == old(self).log() + reg_reads(
                    old(self).addr(),
                    param_regs(),
                    bs,
                ) && (old(self).spec_state().spec_compensator() matches Some(c) && out.0.spec_raw()
                    == spec_temperature(c, raw_t(bs) as i32) && out.1.spec_raw() == spec_pressure(
                    c,
                    raw_p(bs) as i32,
                    spec_t_fine(c, raw_t(bs) as i32) as i32,
                ) && out.2.spec_raw() == spec_humidity(
                    c,
                    raw_h(bs) as i32,
                    spec_t_fine(c, raw_t(bs) as i32) as i32,
                )),
            r == Err::<(Temperature, Pressure, Humidity), Error>(Error::NotInitialized) ==> old(
                self,
            ).spec_state().spec_compensator() is None,
            r is Err ==> r == Err::<(Temperature, Pressure, Humidity), Error>(Error::BusRead) || r
                == Err::<(Temperature, Pressure, Humidity), Error>(Error::NotInitialized),
            old(self).log().is_prefix_of(final(self).log()),
            final(self).spec_state() == old(self).spec_state(),
    {
        let regs: [u8; 8] = [0xF7, 0xF8, 0xF9, 0xFA, 0xFB, 0xFC, 0xFD, 0xFE];
        proof {
            assert(regs@ =~= param_regs());
        }
        let bytes = self.read_regs(regs.as_slice())?;
        let compensator = match &self.state.compensator {
            Some(c) => *c,
            None => {
                proof {
                    let olde = old(self).log();
                    assert(olde =~= self.log().subrange(0, olde.len() as int));
                }
                return Err(Error::NotInitialized);
            },
        };
        let p = (bytes[0] as i32) * 4096 + (bytes[1] as i32) * 16 + (bytes[2] as i32) / 16;
        let t = (bytes[3] as i32) * 4096 + (bytes[4] as i32) * 16 + (bytes[5] as i32) / 16;
        let h = (bytes[6] as i32) * 256 + (bytes[7] as i32);
        let (t_out, p_out, h_out) = compensator.compensate_tph(t, p, h);
        proof {
            let olde = old(self).log();
            assert(olde =~= self.log().subrange(0, olde.len() as int));
        }
        Ok((Temperature::from_raw(t_out), Pressure::from_raw(p_out), Humidity::from_raw(h_out)))
    }
}

} // verus!
