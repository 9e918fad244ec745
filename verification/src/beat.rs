//! The `Beat` value type and the conversion from civil time to beats.
//!
//! One beat is 86.4 seconds: 1/1000 of a day, counted from midnight
//! Biel Mean Time (UTC+1).  A `Beat` stores the whole-beat count and the
//! sub-beat remainder in thousandths of a beat, so the whole day lies in
//! `[0, 1000)` beats with a resolution of one thousandth.

use vstd::prelude::*;
use std::cmp::Ordering;

verus! {

use vstd::std_specs::cmp::PartialOrdSpec;

/// A civil time of day together with its fixed UTC offset in seconds
/// (positive offsets lie east of Greenwich).
#[derive(Clone, Copy, Debug)]
pub struct ZonedTime {
    pub hour: u32,
    pub minute: u32,
    pub second: u32,
    pub offset: i32,
}

impl ZonedTime {
    /// A valid time of day with an offset of less than one day, the same
    /// range a fixed-offset time zone can take.
    pub open spec fn wf(self) -> bool {
        &&& self.hour < 24
        &&& self.minute < 60
        &&& self.second < 60
        &&& -86400 < self.offset < 86400
    }
}

/// A point in the beat day: `trunc` whole beats plus `fract` thousandths
/// of a beat.
#[derive(Clone, Copy, Debug)]
pub struct Beat {
    pub trunc: u16,
    pub fract: u16,
}

impl Beat {
    /// A well-formed beat value: the whole part lies in `[0, 1000)` beats
    /// and the remainder in `[0, 1)` of a beat.
    pub open spec fn wf(self) -> bool {
        self.trunc < 1000 && self.fract < 1000
    }

    /// The beat of the current moment, read from the system clock in UTC.
    pub fn now() -> (b: Beat)
        ensures
            b.wf(),
    {
        let (hour, minute, second) = crate::clock::utc_now_hms();
        Beat::from(ZonedTime { hour, minute, second, offset: 0 })
    }

    /// The beat of the instant described by `time`: the offset is removed
    /// first, so any civil representation of an instant gives the same
    /// beat as its UTC representation.
    pub fn from(time: ZonedTime) -> (b: Beat)
        requires
            time.wf(),
        ensures
            b.trunc == beat_trunc(time),
            b.fract == beat_fract(time),
            b.wf(),
    {
        calculate_beats(time)
    }
}

impl Beat {
    /// The whole beat value in thousandths of a beat: the reconstructed
    /// scalar `trunc + fract/1000`, scaled by 1000 so that it is an
    /// integer.  Ordering two beats by this sum orders them by the
    /// reconstructed scalar.
    pub open spec fn total_millis(self) -> int {
        self.trunc * 1000 + self.fract
    }
}

impl PartialEq for Beat {
    /// Equality is structural and exact: both components must match.
    fn eq(&self, other: &Beat) -> (r: bool)
    {
        self.trunc == other.trunc && self.fract == other.fract
    }
}

impl vstd::std_specs::cmp::PartialEqSpecImpl for Beat {
    open spec fn obeys_eq_spec() -> bool {
        true
    }

    open spec fn eq_spec(&self, other: &Beat) -> bool {
        self.trunc == other.trunc && self.fract == other.fract
    }
}

impl PartialOrd for Beat {
    /// Ordering compares the reconstructed sums.  The result is optional
    /// so that a caller is handed "no ordering" rather than a panic if
    /// the sums ever failed to compare; with integer components every
    /// pair is comparable, so `None` never occurs.
    fn partial_cmp(&self, other: &Beat) -> (r: Option<Ordering>)
    {
        let my_time: u32 = self.trunc as u32 * 1000 + self.fract as u32;
        let other_time: u32 = other.trunc as u32 * 1000 + other.fract as u32;
        match (my_time <= other_time, my_time >= other_time) {
            (false, false) => None,
            (false, true) => Some(Ordering::Greater),
            (true, false) => Some(Ordering::Less),
            (true, true) => Some(Ordering::Equal),
        }
    }
}

impl vstd::std_specs::cmp::PartialOrdSpecImpl for Beat {
    open spec fn obeys_partial_cmp_spec() -> bool {
        true
    }

    open spec fn partial_cmp_spec(&self, other: &Beat) -> Option<Ordering> {
        if self.total_millis() < other.total_millis() {
            Some(Ordering::Less)
        } else if self.total_millis() == other.total_millis() {
            Some(Ordering::Equal)
        } else {
            Some(Ordering::Greater)
        }
    }
}

/// Seconds into the civil day described by `t`, before any offset is
/// applied.
pub open spec fn local_sod(t: ZonedTime) -> int {
    t.hour * 3600 + t.minute * 60 + t.second
}

/// Seconds into the UTC day at the instant described by `t`: the offset
/// is removed and the result folded back into one day.
pub open spec fn utc_sod(t: ZonedTime) -> int {
    (local_sod(t) - t.offset + 86400) % 86400
}

/// Seconds into the Biel Mean Time day: beats count from midnight UTC+1,
/// so one hour is added to the UTC time of day.
pub open spec fn shifted_sod(t: ZonedTime) -> int {
    utc_sod(t) + 3600
}

/// The whole-beat count before wrapping.  One beat is 86.4 seconds, so
/// `seconds / 86.4` is exactly `seconds * 5 / 432`.
pub open spec fn raw_trunc(t: ZonedTime) -> int {
    shifted_sod(t) * 5 / 432
}

/// The sub-beat remainder in thousandths of a beat, rounded to the
/// nearest thousandth (ties away from zero).  The remainder is
/// `(shifted * 5 mod 432) / 432` of a beat, which never rounds up to a
/// full beat: its largest value, `431 / 432`, rounds to 998 thousandths.
pub open spec fn beat_fract(t: ZonedTime) -> int {
    ((shifted_sod(t) * 5 % 432) * 1000 + 216) / 432
}

/// The whole-beat count after wrapping back into `[0, 1000)`.
pub open spec fn beat_trunc(t: ZonedTime) -> int {
    if raw_trunc(t) >= 1000 {
        raw_trunc(t) - 1000
    } else {
        raw_trunc(t)
    }
}

/// Converts a civil time with its UTC offset into the beat of the day:
/// normalize to UTC, shift to Biel Mean Time, scale seconds to beats,
/// split off the whole-beat count and wrap it back into range.
pub fn calculate_beats(time: ZonedTime) -> (b: Beat)
    requires
        time.wf(),
    ensures
        b.trunc == beat_trunc(time),
        b.fract == beat_fract(time),
        b.wf(),
{
    let local: u32 = time.hour * 3600 + time.minute * 60 + time.second;
    let off: u32 = (time.offset + 86400) as u32;
    let span: u32 = local + 172800 - off;
    let utc: u32 = span % 86400;
    let shifted: u32 = utc + 3600;
    let scaled: u32 = shifted * 5;
    let trunc: u32 = scaled / 432;
    let rem: u32 = scaled % 432;
    let fract: u32 = (rem * 1000 + 216) / 432;

    wrap(Beat { trunc: trunc as u16, fract: fract as u16 })
}

/// Keeps the whole-beat count inside `[0, 1000)` after the Biel meridian
/// shift: a count that ran past the end of the day loses exactly one day
/// of 1000 beats.
pub fn wrap(beat: Beat) -> (r: Beat)
    ensures
        r.trunc == if beat.trunc >= 1000 { beat.trunc - 1000 } else { beat.trunc as int },
        r.fract == beat.fract,
{
    let trunc: u16 = if beat.trunc >= 1000 {
        beat.trunc - 1000
    } else {
        beat.trunc
    };

    Beat { trunc, fract: beat.fract }
}

/// Two zoned times describe the same instant of the day when they land
/// on the same second of the UTC day once their offsets are removed.
pub open spec fn same_instant(a: ZonedTime, b: ZonedTime) -> bool {
    utc_sod(a) == utc_sod(b)
}

/// Law: converting an instant through two different civil
/// representations of it — say its UTC form and a local-zone form —
/// yields equal beat values, because the conversion reads nothing of the
/// input but its UTC second of the day.
pub proof fn lemma_consistency(a: ZonedTime, b: ZonedTime)
    requires
        a.wf(),
        b.wf(),
        same_instant(a, b),
    ensures
        beat_trunc(a) == beat_trunc(b),
        beat_fract(a) == beat_fract(b),
{
}

/// Law: of any two beat values, the one whose reconstructed sum is
/// larger compares greater, and equal sums compare equal; no pair is
/// incomparable.
pub proof fn lemma_ordering(a: Beat, b: Beat)
    ensures
        a.total_millis() < b.total_millis() <==> a.partial_cmp_spec(&b) == Some(Ordering::Less),
        a.total_millis() == b.total_millis() <==> a.partial_cmp_spec(&b) == Some(Ordering::Equal),
        a.total_millis() > b.total_millis() <==> a.partial_cmp_spec(&b) == Some(
            Ordering::Greater,
        ),
{
}

} // verus!
