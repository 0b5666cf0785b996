use vstd::prelude::*;
use chrono::{Datelike, TimeZone, Timelike};

verus! {

/// A civil (timezone-resolved) date-time held as plain integer fields.
///
/// Values compare lexicographically by field, most significant first,
/// which matches the chronological order of civil date-times.
#[derive(Clone, Copy, PartialEq, Eq, Structural, Debug)]
pub struct CivilDateTime {
    pub year: i32,
    pub month: u8,
    pub day: u8,
    pub hour: u8,
    pub minute: u8,
    pub second: u8,
    pub nano: u32,
}

impl CivilDateTime {
    /// Field ranges a civil date-time must satisfy. Nanoseconds up to but
    /// excluding two billion are admitted so that a leap second (represented
    /// as second 59 with an overflowing nanosecond field) fits.
    pub open spec fn wf(self) -> bool {
        &&& 1 <= self.month <= 12
        &&& 1 <= self.day <= 31
        &&& self.hour < 24
        &&& self.minute < 60
        &&& self.second < 60
        &&& self.nano < 2_000_000_000
    }

    /// Runtime check of `wf`.
    pub fn is_wf(&self) -> (r: bool)
        ensures
            r == self.wf(),
    {
        1 <= self.month && self.month <= 12 && 1 <= self.day && self.day <= 31
            && self.hour < 24 && self.minute < 60 && self.second < 60
            && self.nano < 2_000_000_000
    }
}

/// Chronological order on civil date-times: lexicographic by field.
pub open spec fn dt_le(a: CivilDateTime, b: CivilDateTime) -> bool {
    if a.year != b.year {
        a.year < b.year
    } else if a.month != b.month {
        a.month < b.month
    } else if a.day != b.day {
        a.day < b.day
    } else if a.hour != b.hour {
        a.hour < b.hour
    } else if a.minute != b.minute {
        a.minute < b.minute
    } else if a.second != b.second {
        a.second < b.second
    } else {
        a.nano <= b.nano
    }
}

/// Runtime comparison deciding `dt_le`.
pub fn dt_le_exec(a: &CivilDateTime, b: &CivilDateTime) -> (r: bool)
    ensures
        r == dt_le(*a, *b),
{
    if a.year != b.year {
        a.year < b.year
    } else if a.month != b.month {
        a.month < b.month
    } else if a.day != b.day {
        a.day < b.day
    } else if a.hour != b.hour {
        a.hour < b.hour
    } else if a.minute != b.minute {
        a.minute < b.minute
    } else if a.second != b.second {
        a.second < b.second
    } else {
        a.nano <= b.nano
    }
}

/// `m` is an element of `s` no later than every element of `s`.
pub open spec fn is_earliest(s: Seq<CivilDateTime>, m: CivilDateTime) -> bool {
    &&& s.contains(m)
    &&& forall|i: int| 0 <= i < s.len() ==> dt_le(m, #[trigger] s[i])
}

/// The order is total: any two date-times compare one way or the other.
pub proof fn lemma_dt_total(a: CivilDateTime, b: CivilDateTime)
    ensures
        dt_le(a, b) || dt_le(b, a),
{
}

/// The order is transitive.
pub proof fn lemma_dt_trans(a: CivilDateTime, b: CivilDateTime, c: CivilDateTime)
    requires
        dt_le(a, b),
        dt_le(b, c),
    ensures
        dt_le(a, c),
{
}

/// The order is antisymmetric, so the earliest element of a sequence is a
/// unique value: two date-times that are each no later than the other are
/// equal, hence `is_earliest` pins the resolved creation time down.
pub proof fn lemma_earliest_unique(s: Seq<CivilDateTime>, m1: CivilDateTime, m2: CivilDateTime)
    requires
        is_earliest(s, m1),
        is_earliest(s, m2),
    ensures
        m1 == m2,
{
    let i1 = s.index_of(m1);
    let i2 = s.index_of(m2);
    assert(dt_le(m1, s[i2]));
    assert(dt_le(m2, s[i1]));
}

/// The earliest of all candidates, or `None` when there is no candidate.
pub fn earliest_candidate(v: &Vec<CivilDateTime>) -> (r: Option<CivilDateTime>)
    ensures
        r is Some <==> v@.len() > 0,
        r matches Some(m) ==> is_earliest(v@, m),
{
    if v.len() == 0 {
        return None;
    }
    let mut best: CivilDateTime = v[0];
    let mut i: usize = 1;
    let mut best_at: usize = 0;
    while i < v.len()
        invariant
            1 <= i <= v@.len(),
            best_at < i,
            v@[best_at as int] == best,
            forall|j: int| 0 <= j < i ==> dt_le(best, #[trigger] v@[j]),
        decreases v@.len() - i,
    {
        proof {
            lemma_dt_total(best, v@[i as int]);
        }
        if dt_le_exec(&v[i], &best) {
            proof {
                assert forall|j: int| 0 <= j < i implies dt_le(v@[i as int], #[trigger] v@[j]) by {
                    lemma_dt_trans(v@[i as int], best, v@[j]);
                }
            }
            best = v[i];
            best_at = i;
        }
        i += 1;
    }
    proof {
        assert(v@.contains(best));
    }
    Some(best)
}

/// A civil calendar date, the date part of a `CivilDateTime`.
#[derive(Clone, Copy, PartialEq, Eq, Structural, Debug)]
pub struct CivilDate {
    pub year: i32,
    pub month: u8,
    pub day: u8,
}

/// The date part of a date-time.
pub open spec fn date_of(t: CivilDateTime) -> CivilDate {
    CivilDate { year: t.year, month: t.month, day: t.day }
}

/// Chronological order on civil dates: lexicographic by field.
pub open spec fn date_le(a: CivilDate, b: CivilDate) -> bool {
    if a.year != b.year {
        a.year < b.year
    } else if a.month != b.month {
        a.month < b.month
    } else {
        a.day <= b.day
    }
}

/// Whether a record's creation moment falls on a date within the inclusive
/// range `[min, max]`; records outside it are left out of the playlist.
pub fn creation_date_in_range(t: &CivilDateTime, min: &CivilDate, max: &CivilDate) -> (r: bool)
    ensures
        r == (date_le(*min, date_of(*t)) && date_le(date_of(*t), *max)),
{
    let d = CivilDate { year: t.year, month: t.month, day: t.day };
    date_le_exec(min, &d) && date_le_exec(&d, max)
}

/// Runtime comparison deciding `date_le`.
pub fn date_le_exec(a: &CivilDate, b: &CivilDate) -> (r: bool)
    ensures
        r == date_le(*a, *b),
{
    if a.year != b.year {
        a.year < b.year
    } else if a.month != b.month {
        a.month < b.month
    } else {
        a.day <= b.day
    }
}

/// Relies on `chrono::offset::Local::timestamp_opt` (through `TimeZone`),
/// taking the earliest mapping when the local time is ambiguous, and on
/// `NaiveDateTime`'s calendar and clock accessors. The outcome depends on
/// the machine's local time zone, so nothing is claimed of the fields
/// beyond their documented ranges. The bound on `secs` keeps the civil
/// time within year 9999, far from chrono's representable ceiling, so
/// adding any real zone offset in `naive_local` cannot leave the range
/// (past it, that addition panics instead of failing).
#[verifier::external_body]
pub(crate) fn local_civil_from_epoch(secs: u64, nanos: u32) -> (r: Option<CivilDateTime>)
    requires
        secs < 253_402_300_800,
    ensures
        r matches Some(t) ==> t.wf(),
{
    let dt = chrono::offset::Local.timestamp_opt(secs as i64, nanos).earliest()?;
    let n = dt.naive_local();
    Some(CivilDateTime {
        year: n.year(),
        month: n.month() as u8,
        day: n.day() as u8,
        hour: n.hour() as u8,
        minute: n.minute() as u8,
        second: n.second() as u8,
        nano: n.nanosecond(),
    })
}

} // verus!
