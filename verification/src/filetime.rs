//! The host's tick count: 100-nanosecond intervals since 1601-01-01 00:00:00 UTC,
//! held as two 32-bit words.

use vstd::prelude::*;

verus! {

/// Number of 100-nanosecond ticks in one second.
pub const HECTONANOSECS_IN_SEC: i64 = 10_000_000;

/// Ticks between the host's epoch (1601-01-01) and the Unix epoch (1970-01-01):
/// 11,644,473,600 seconds.
pub const HECTONANOSEC_TO_UNIX_EPOCH: i64 = 116_444_736_000_000_000;

/// A 64-bit tick count read as a signed number (two's complement).
pub open spec fn as_signed(ticks: int) -> int {
    if ticks < 0x8000_0000_0000_0000 {
        ticks
    } else {
        ticks - 0x1_0000_0000_0000_0000
    }
}

/// The tick count that stands for `sec` seconds since the Unix epoch, reduced
/// to 64 bits.
pub open spec fn ticks_of_seconds(sec: int) -> int {
    (sec * 10_000_000 + 116_444_736_000_000_000) % 0x1_0000_0000_0000_0000
}

/// Whole seconds since the Unix epoch of a 64-bit tick count, rounded down.
pub open spec fn seconds_of_ticks(ticks: int) -> int {
    (as_signed(ticks) - 116_444_736_000_000_000) / 10_000_000
}

/// A tick count in the host's layout: the low and the high half of a 64-bit number.
#[derive(Clone, Copy, Debug, PartialEq, Eq, Structural)]
pub struct WinFileTime {
    pub low_date_time: u32,
    pub high_date_time: u32,
}

impl WinFileTime {
    /// The 64-bit number that the two halves make.
    pub open spec fn ticks(self) -> int {
        self.high_date_time as int * 0x1_0000_0000 + self.low_date_time as int
    }

    /// The tick count whose two halves make `ticks`.
    pub open spec fn of_ticks(ticks: int) -> WinFileTime {
        WinFileTime {
            low_date_time: (ticks % 0x1_0000_0000) as u32,
            high_date_time: (ticks / 0x1_0000_0000) as u32,
        }
    }

    /// The zero tick count.
    pub fn new() -> (r: Self)
        ensures
            r.low_date_time == 0,
            r.high_date_time == 0,
            r.ticks() == 0,
    {
        WinFileTime { low_date_time: 0, high_date_time: 0 }
    }

    /// The tick count of `sec` seconds since the Unix epoch. Where the count
    /// does not fit in 64 bits, its low 64 bits are kept.
    pub fn from_seconds(sec: i64) -> (r: Self)
        ensures
            r.ticks() == ticks_of_seconds(sec as int),
            r == WinFileTime::of_ticks(ticks_of_seconds(sec as int)),
    {
        let wide: i128 = (sec as i128) * 10_000_000 + 116_444_736_000_000_000;
        // 2^88 is a multiple of 2^64 and lifts every such count above zero.
        let lifted: u128 = (wide + 0x100_0000_0000_0000_0000_0000) as u128;
        let reduced: u128 = lifted % 0x1_0000_0000_0000_0000;
        proof {
            vstd::arithmetic::div_mod::lemma_mod_multiples_vanish(
                0x100_0000,
                wide as int,
                0x1_0000_0000_0000_0000,
            );
        }
        let t: u64 = reduced as u64;
        let low: u32 = (t & 0xffff_ffff) as u32;
        let high: u32 = (t >> 32) as u32;
        assert((t >> 32) * 0x1_0000_0000 + (t & 0xffff_ffff) == t) by (bit_vector);
        assert((t >> 32) <= 0xffff_ffff) by (bit_vector);
        assert((t & 0xffff_ffff) <= 0xffff_ffff) by (bit_vector);
        WinFileTime { low_date_time: low, high_date_time: high }
    }

    /// The two halves as one 64-bit number.
    pub fn as_u64(&self) -> (r: u64)
        ensures
            r as int == self.ticks(),
    {
        let high: u64 = self.high_date_time as u64;
        let low: u64 = self.low_date_time as u64;
        assert((high << 32) | low == high * 0x1_0000_0000 + low) by (bit_vector)
            requires
                high <= 0xffff_ffff,
                low <= 0xffff_ffff,
        ;
        (high << 32) | low
    }

    /// Whole seconds since the Unix epoch, rounded down; what is less than a
    /// second is dropped. The count is read as a signed 64-bit number.
    pub fn as_unix_seconds(&self) -> (r: i64)
        ensures
            r as int == seconds_of_ticks(self.ticks()),
    {
        let t: u64 = self.as_u64();
        let signed: i128 = if t < 0x8000_0000_0000_0000 {
            t as i128
        } else {
            t as i128 - 0x1_0000_0000_0000_0000
        };
        let diff: i128 = signed - 116_444_736_000_000_000;
        let quot: i128 = diff / 10_000_000;
        let rem: i128 = diff % 10_000_000;
        let floor: i128 = if rem < 0 {
            quot - 1
        } else {
            quot
        };
        floor as i64
    }
}

/// Seconds to ticks and back gives the seconds again, for every number of
/// seconds whose tick count fits in a signed 64-bit number. That covers all
/// the counts the host accepts, which are those from 0 to 2^63 - 1.
pub proof fn lemma_seconds_round_trip(sec: int)
    requires
        -0x8000_0000_0000_0000 <= sec * 10_000_000 + 116_444_736_000_000_000
            < 0x8000_0000_0000_0000,
    ensures
        seconds_of_ticks(ticks_of_seconds(sec)) == sec,
{
}

} // verus!
