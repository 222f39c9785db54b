//! Interpreter for a completed DCF77 timeframe register.
//!
//! The register is a 64-bit value whose low 59 bits carry one received
//! minute, bit 0 first. Unchecked accessors decode the raw BCD fields with
//! no validation; checked accessors also verify the embedded parity bits
//! and the civil value ranges and return `Err(())` on any mismatch.

use vstd::prelude::*;

use crate::bits::bcd2;
use crate::bits::bit64;
use crate::bits::field64;
use crate::bits::parity64;

verus! {

/// One received 59-bit DCF77 timeframe, wrapped for field decoding. The
/// value is immutable once built; every accessor re-decodes from it.
pub struct DCF77Time(pub u64);

impl DCF77Time {
    /// Wrap a raw register snapshot for decoding.
    pub fn new(dcf77bits: u64) -> (r: Self)
        ensures
            r.0 == dcf77bits,
    {
        DCF77Time(dcf77bits)
    }

    /// Even parity over the inclusive bit range `start..=end` of the
    /// register.
    pub fn calculate_parity(&self, start: usize, end: usize) -> (r: bool)
        requires
            start <= end,
            end <= 63,
        ensures
            r == parity64(self.0, start as int, end as int),
    {
        let mut parity = false;
        let mut i: usize = start;
        while i <= end
            invariant
                start <= i <= end + 1,
                end <= 63,
                parity == parity64(self.0, start as int, i - 1),
            decreases end + 1 - i,
        {
            parity = parity != ((self.0 >> (i as u64)) & 1 == 1);
            i = i + 1;
        }
        parity
    }

    /// The two-digit BCD value of the inclusive bit range `start..=end`:
    /// ten times the tens nibble plus the units nibble, with no range
    /// check on either nibble.
    pub fn calculate_2digit_bcd(&self, start: usize, end: usize) -> (r: u8)
        requires
            start <= end,
            end <= 63,
        ensures
            r as int == bcd2(field64(self.0, start as int, end as int)),
    {
        let width: usize = end - start;
        let mask: u64 = u64::MAX >> ((63 - width) as u64);
        let word: u64 = (self.0 >> (start as u64)) & mask;
        assert((word >> 4) & 0xF < 16 && word & 0xF < 16) by (bit_vector);
        let tens: u8 = ((word >> 4) & 0xF) as u8;
        let units: u8 = (word & 0xF) as u8;
        tens * 10 + units
    }

    /// Whether the start bit (bit 0) holds the mandatory 0; `Err(())`
    /// when it does not.
    pub fn validate_start(&self) -> (r: Result<(), ()>)
        ensures
            r is Ok <==> !bit64(self.0, 0),
    {
        if (self.0 >> 0) & 1 == 1 {
            Err(())
        } else {
            Ok(())
        }
    }

    /// The summer-time flag (bit 17), taken as transmitted, with no
    /// verification.
    pub fn cest_unchecked(&self) -> (r: bool)
        ensures
            r == bit64(self.0, 17),
    {
        if (self.0 >> 17) & 1 == 1 {
            return true;
        }
        false
    }

    /// The summer-time flag, accepted only when the winter-time flag
    /// (bit 18) disagrees with it, as a valid frame requires.
    pub fn cest(&self) -> (r: Result<bool, ()>)
        ensures
            r is Ok <==> bit64(self.0, 18) != bit64(self.0, 17),
            r is Ok ==> r->Ok_0 == bit64(self.0, 17),
    {
        let cest = self.cest_unchecked();
        if ((self.0 >> 18) & 1 == 1) == cest {
            Err(())
        } else {
            Ok(cest)
        }
    }

    /// The minutes field (bits 21..=27) decoded as two-digit BCD, with no
    /// verification.
    pub fn minutes_unchecked(&self) -> (r: u8)
        ensures
            r as int == bcd2(field64(self.0, 21, 27)),
    {
        self.calculate_2digit_bcd(21, 27)
    }

    /// The minutes field, accepted only when bit 28 matches the parity of
    /// bits 21..=27 and the decoded value is at most 59.
    pub fn minutes(&self) -> (r: Result<u8, ()>)
        ensures
            r is Ok <==> (bit64(self.0, 28) == parity64(self.0, 21, 27) && bcd2(
                field64(self.0, 21, 27),
            ) <= 59),
            r is Ok ==> r->Ok_0 as int == bcd2(field64(self.0, 21, 27)),
    {
        let parity = self.calculate_parity(21, 27);
        let minutes = self.minutes_unchecked();
        if ((self.0 >> 28) & 1 == 1) != parity || minutes > 59 {
            Err(())
        } else {
            Ok(minutes)
        }
    }

    /// The hours field (bits 29..=34) decoded as two-digit BCD, with no
    /// verification.
    pub fn hours_unchecked(&self) -> (r: u8)
        ensures
            r as int == bcd2(field64(self.0, 29, 34)),
    {
        self.calculate_2digit_bcd(29, 34)
    }

    /// The hours field, accepted only when bit 35 matches the parity of
    /// bits 29..=34 and the decoded value is at most 23.
    pub fn hours(&self) -> (r: Result<u8, ()>)
        ensures
            r is Ok <==> (bit64(self.0, 35) == parity64(self.0, 29, 34) && bcd2(
                field64(self.0, 29, 34),
            ) <= 23),
            r is Ok ==> r->Ok_0 as int == bcd2(field64(self.0, 29, 34)),
    {
        let parity = self.calculate_parity(29, 34);
        let hours = self.hours_unchecked();
        if ((self.0 >> 35) & 1 == 1) != parity || hours > 23 {
            Err(())
        } else {
            Ok(hours)
        }
    }

    /// The day-of-month field (bits 36..=41) decoded as two-digit BCD,
    /// with no verification.
    pub fn day_unchecked(&self) -> (r: u8)
        ensures
            r as int == bcd2(field64(self.0, 36, 41)),
    {
        self.calculate_2digit_bcd(36, 41)
    }

    /// The day of month, accepted only when the decoded value is at most
    /// 31; the date parity bit is checked by `date`, not here.
    pub fn day(&self) -> (r: Result<u8, ()>)
        ensures
            r is Ok <==> bcd2(field64(self.0, 36, 41)) <= 31,
            r is Ok ==> r->Ok_0 as int == bcd2(field64(self.0, 36, 41)),
    {
        let day = self.day_unchecked();
        if day > 31 {
            Err(())
        } else {
            Ok(day)
        }
    }

    /// The weekday field (bits 42..=44) decoded as BCD, 1 meaning Monday
    /// through 7 meaning Sunday, with no verification.
    pub fn weekday_unchecked(&self) -> (r: u8)
        ensures
            r as int == bcd2(field64(self.0, 42, 44)),
    {
        self.calculate_2digit_bcd(42, 44)
    }

    /// The month field (bits 45..=49) decoded as two-digit BCD, with no
    /// verification.
    pub fn month_unchecked(&self) -> (r: u8)
        ensures
            r as int == bcd2(field64(self.0, 45, 49)),
    {
        self.calculate_2digit_bcd(45, 49)
    }

    /// The year field (bits 50..=57) decoded as two-digit BCD and counted
    /// from 2000, with no verification.
    pub fn year_unchecked(&self) -> (r: u16)
        ensures
            r as int == 2000 + bcd2(field64(self.0, 50, 57)),
    {
        let century: u16 = 2000;
        century + (self.calculate_2digit_bcd(50, 57) as u16)
    }

    /// The date as (year, month, day, weekday), accepted only when bit 58
    /// matches the parity of bits 36..=57 and every field is within its
    /// civil range (year at most 2100, month at most 12, day at most 31,
    /// weekday at most 7).
    pub fn date(&self) -> (r: Result<(u16, u8, u8, u8), ()>)
        ensures
            r is Ok <==> (bit64(self.0, 58) == parity64(self.0, 36, 57) && 2000 + bcd2(
                field64(self.0, 50, 57),
            ) <= 2100 && bcd2(field64(self.0, 45, 49)) <= 12 && bcd2(field64(self.0, 36, 41)) <= 31
                && bcd2(field64(self.0, 42, 44)) <= 7),
            r is Ok ==> r->Ok_0 == ((2000 + bcd2(field64(self.0, 50, 57))) as u16, bcd2(
                field64(self.0, 45, 49),
            ) as u8, bcd2(field64(self.0, 36, 41)) as u8, bcd2(field64(self.0, 42, 44)) as u8),
    {
        let parity = self.calculate_parity(36, 57);
        if ((self.0 >> 58) & 1 == 1) != parity {
            return Err(());
        }
        let year = self.year_unchecked();
        let month = self.month_unchecked();
        let day = self.day_unchecked();
        let weekday = self.weekday_unchecked();
        if year > 2100 || month > 12 || day > 31 || weekday > 7 {
            Err(())
        } else {
            Ok((year, month, day, weekday))
        }
    }
}

} // verus!
