use vstd::prelude::*;

use crate::lunisolar_datetime::{days_since_epoch_1900_spec, valid_gregorian_date};
use crate::zodiac_and_element::{Element, YinYang, Zodiac, branch_of_zodiac};

verus! {

/// The solar hour advanced by one and wrapped at 24, so that hour 23 and
/// hour 0 fall in the same two-hour window.
pub open spec fn adjusted_hour(h: int) -> int {
    if h + 1 >= 24 {
        0
    } else {
        h + 1
    }
}

/// Days elapsed from 1900-01-01 to a Gregorian date of the operating era.
///
/// Relies on chrono: `NaiveDate` counts days of the proleptic Gregorian
/// calendar, `NaiveDate::from_ymd_opt` turns a real date of this era into
/// `Some` value of it, `NaiveDate::signed_duration_since` is the exact
/// difference of two such dates, and `TimeDelta::num_days` reads that
/// difference in whole days. The bounds restate that every date of the era
/// lies between the epoch and 2100-12-31, 73413 days later.
#[verifier::external_body]
fn days_since_epoch_1900(day: u32, month: u32, year: u32) -> (r: i64)
    requires
        valid_gregorian_date(day as int, month as int, year as int),
        1900 <= year <= 2100,
    ensures
        r == days_since_epoch_1900_spec(day as int, month as int, year as int),
        0 <= r <= 73413,
{
    let epoch = chrono::NaiveDate::from_ymd_opt(1900, 1, 1).unwrap();
    let date = chrono::NaiveDate::from_ymd_opt(year as i32, month, day).unwrap();
    date.signed_duration_since(epoch).num_days()
}

/// The ten heavenly stems, cyclic under addition modulo 10.
#[derive(Clone, Copy, Debug, PartialEq, Eq, Structural)]
pub enum HeavenlyStem {
    HS1,
    HS2,
    HS3,
    HS4,
    HS5,
    HS6,
    HS7,
    HS8,
    HS9,
    HS10,
}

/// The ordinal of a heavenly stem, always in [0, 9].
pub open spec fn stem_ordinal(s: HeavenlyStem) -> int {
    match s {
        HeavenlyStem::HS1 => 0,
        HeavenlyStem::HS2 => 1,
        HeavenlyStem::HS3 => 2,
        HeavenlyStem::HS4 => 3,
        HeavenlyStem::HS5 => 4,
        HeavenlyStem::HS6 => 5,
        HeavenlyStem::HS7 => 6,
        HeavenlyStem::HS8 => 7,
        HeavenlyStem::HS9 => 8,
        HeavenlyStem::HS10 => 9,
    }
}

/// The element and polarity paired with a heavenly stem.
pub open spec fn stem_yinyang_elem(s: HeavenlyStem) -> (Element, YinYang) {
    match s {
        HeavenlyStem::HS1 => (Element::Wood, YinYang::Yang),
        HeavenlyStem::HS2 => (Element::Wood, YinYang::Yin),
        HeavenlyStem::HS3 => (Element::Fire, YinYang::Yang),
        HeavenlyStem::HS4 => (Element::Fire, YinYang::Yin),
        HeavenlyStem::HS5 => (Element::Earth, YinYang::Yang),
        HeavenlyStem::HS6 => (Element::Earth, YinYang::Yin),
        HeavenlyStem::HS7 => (Element::Metal, YinYang::Yang),
        HeavenlyStem::HS8 => (Element::Metal, YinYang::Yin),
        HeavenlyStem::HS9 => (Element::Water, YinYang::Yang),
        HeavenlyStem::HS10 => (Element::Water, YinYang::Yin),
    }
}

/// No stem ordinal ever escapes the ten-step cycle.
pub proof fn lemma_stem_ordinal_in_cycle(s: HeavenlyStem)
    ensures
        0 <= stem_ordinal(s) <= 9,
{
}

impl HeavenlyStem {
    /// The stem whose ordinal is `num` taken modulo 10.
    pub fn from_numeric(num: u32) -> (r: HeavenlyStem)
        ensures
            stem_ordinal(r) == num % 10,
    {
        match num % 10 {
            0 => HeavenlyStem::HS1,
            1 => HeavenlyStem::HS2,
            2 => HeavenlyStem::HS3,
            3 => HeavenlyStem::HS4,
            4 => HeavenlyStem::HS5,
            5 => HeavenlyStem::HS6,
            6 => HeavenlyStem::HS7,
            7 => HeavenlyStem::HS8,
            8 => HeavenlyStem::HS9,
            _ => HeavenlyStem::HS10,
        }
    }

    /// The ordinal of this stem, in [0, 9].
    pub fn to_numeric(&self) -> (r: u32)
        ensures
            r == stem_ordinal(*self),
            r <= 9,
    {
        match self {
            HeavenlyStem::HS1 => 0,
            HeavenlyStem::HS2 => 1,
            HeavenlyStem::HS3 => 2,
            HeavenlyStem::HS4 => 3,
            HeavenlyStem::HS5 => 4,
            HeavenlyStem::HS6 => 5,
            HeavenlyStem::HS7 => 6,
            HeavenlyStem::HS8 => 7,
            HeavenlyStem::HS9 => 8,
            HeavenlyStem::HS10 => 9,
        }
    }

    /// The element and polarity of this stem.
    pub fn get_yinyang_elem(&self) -> (r: (Element, YinYang))
        ensures
            r == stem_yinyang_elem(*self),
    {
        match self {
            HeavenlyStem::HS1 => (Element::Wood, YinYang::Yang),
            HeavenlyStem::HS2 => (Element::Wood, YinYang::Yin),
            HeavenlyStem::HS3 => (Element::Fire, YinYang::Yang),
            HeavenlyStem::HS4 => (Element::Fire, YinYang::Yin),
            HeavenlyStem::HS5 => (Element::Earth, YinYang::Yang),
            HeavenlyStem::HS6 => (Element::Earth, YinYang::Yin),
            HeavenlyStem::HS7 => (Element::Metal, YinYang::Yang),
            HeavenlyStem::HS8 => (Element::Metal, YinYang::Yin),
            HeavenlyStem::HS9 => (Element::Water, YinYang::Yang),
            HeavenlyStem::HS10 => (Element::Water, YinYang::Yin),
        }
    }

    /// The year stem of a lunisolar year: ordinal `(year + 6) mod 10`.
    pub fn lunar_y_from_lunisolar_y(year: u32) -> (r: HeavenlyStem)
        requires
            year + 6 <= u32::MAX,
        ensures
            stem_ordinal(r) == (year + 6) % 10,
    {
        HeavenlyStem::from_numeric((year + 6) % 10)
    }

    /// The month stem of a lunisolar month: ordinal `(year * 12 + month + 3) mod 10`.
    pub fn lunar_m_from_lunisolar_ym(month: u32, year: u32) -> (r: HeavenlyStem)
        requires
            year * 12 + month + 3 <= u32::MAX,
        ensures
            stem_ordinal(r) == (year * 12 + month + 3) % 10,
    {
        HeavenlyStem::from_numeric(year * 12 + month + 3)
    }

    /// The day stem of a solar date: ordinal `daysSinceEpoch mod 10`, counted
    /// from 1900-01-01.
    pub fn lunar_d_from_gregorian_ymd(day: u32, month: u32, year: u32) -> (r: HeavenlyStem)
        requires
            valid_gregorian_date(day as int, month as int, year as int),
            1900 <= year <= 2100,
        ensures
            stem_ordinal(r) == days_since_epoch_1900_spec(day as int, month as int, year as int)
                % 10,
    {
        let duration = days_since_epoch_1900(day, month, year);
        HeavenlyStem::from_numeric((duration % 10) as u32)
    }

    /// The hour stem of a solar moment: ordinal `hour'/2 + 2 * dayStem`
    /// modulo 10, where `hour'` is the hour advanced by one and wrapped
    /// at 24.
    pub fn lunar_h_from_gregorian_hymd(hour: u32, day: u32, month: u32, year: u32) -> (r:
        HeavenlyStem)
        requires
            hour <= 23,
            valid_gregorian_date(day as int, month as int, year as int),
            1900 <= year <= 2100,
        ensures
            stem_ordinal(r) == (adjusted_hour(hour as int) / 2 + 2 * (days_since_epoch_1900_spec(
                day as int,
                month as int,
                year as int,
            ) % 10)) % 10,
    {
        let lunar_date = HeavenlyStem::lunar_d_from_gregorian_ymd(day, month, year);
        let mut hour = hour + 1;
        if hour >= 24 {
            hour = 0;
        }
        hour /= 2;
        HeavenlyStem::from_numeric(hour + lunar_date.to_numeric() * 2)
    }
}

/// The twelve earthly branches, cyclic under addition modulo 12.
#[derive(Clone, Copy, Debug, PartialEq, Eq, Structural)]
pub enum EarthlyBranch {
    EB1,
    EB2,
    EB3,
    EB4,
    EB5,
    EB6,
    EB7,
    EB8,
    EB9,
    EB10,
    EB11,
    EB12,
}

/// The ordinal of an earthly branch, always in [0, 11].
pub open spec fn branch_ordinal(b: EarthlyBranch) -> int {
    match b {
        EarthlyBranch::EB1 => 0,
        EarthlyBranch::EB2 => 1,
        EarthlyBranch::EB3 => 2,
        EarthlyBranch::EB4 => 3,
        EarthlyBranch::EB5 => 4,
        EarthlyBranch::EB6 => 5,
        EarthlyBranch::EB7 => 6,
        EarthlyBranch::EB8 => 7,
        EarthlyBranch::EB9 => 8,
        EarthlyBranch::EB10 => 9,
        EarthlyBranch::EB11 => 10,
        EarthlyBranch::EB12 => 11,
    }
}

/// The element and polarity paired with an earthly branch.
pub open spec fn branch_yinyang_elem(b: EarthlyBranch) -> (Element, YinYang) {
    match b {
        EarthlyBranch::EB1 => (Element::Water, YinYang::Yang),
        EarthlyBranch::EB2 => (Element::Earth, YinYang::Yin),
        EarthlyBranch::EB3 => (Element::Wood, YinYang::Yang),
        EarthlyBranch::EB4 => (Element::Wood, YinYang::Yin),
        EarthlyBranch::EB5 => (Element::Earth, YinYang::Yang),
        EarthlyBranch::EB6 => (Element::Fire, YinYang::Yin),
        EarthlyBranch::EB7 => (Element::Fire, YinYang::Yang),
        EarthlyBranch::EB8 => (Element::Earth, YinYang::Yin),
        EarthlyBranch::EB9 => (Element::Metal, YinYang::Yang),
        EarthlyBranch::EB10 => (Element::Fire, YinYang::Yin),
        EarthlyBranch::EB11 => (Element::Earth, YinYang::Yang),
        EarthlyBranch::EB12 => (Element::Water, YinYang::Yin),
    }
}

/// No branch ordinal ever escapes the twelve-step cycle.
pub proof fn lemma_branch_ordinal_in_cycle(b: EarthlyBranch)
    ensures
        0 <= branch_ordinal(b) <= 11,
{
}

impl EarthlyBranch {
    /// The branch whose ordinal is `num` taken modulo 12.
    pub fn from_numeric(num: u32) -> (r: EarthlyBranch)
        ensures
            branch_ordinal(r) == num % 12,
    {
        match num % 12 {
            0 => EarthlyBranch::EB1,
            1 => EarthlyBranch::EB2,
            2 => EarthlyBranch::EB3,
            3 => EarthlyBranch::EB4,
            4 => EarthlyBranch::EB5,
            5 => EarthlyBranch::EB6,
            6 => EarthlyBranch::EB7,
            7 => EarthlyBranch::EB8,
            8 => EarthlyBranch::EB9,
            9 => EarthlyBranch::EB10,
            10 => EarthlyBranch::EB11,
            _ => EarthlyBranch::EB12,
        }
    }

    /// The ordinal of this branch, in [0, 11].
    pub fn to_numeric(&self) -> (r: u32)
        ensures
            r == branch_ordinal(*self),
            r <= 11,
    {
        match self {
            EarthlyBranch::EB1 => 0,
            EarthlyBranch::EB2 => 1,
            EarthlyBranch::EB3 => 2,
            EarthlyBranch::EB4 => 3,
            EarthlyBranch::EB5 => 4,
            EarthlyBranch::EB6 => 5,
            EarthlyBranch::EB7 => 6,
            EarthlyBranch::EB8 => 7,
            EarthlyBranch::EB9 => 8,
            EarthlyBranch::EB10 => 9,
            EarthlyBranch::EB11 => 10,
            EarthlyBranch::EB12 => 11,
        }
    }

    /// The element and polarity of this branch.
    pub fn get_yinyang_elem(&self) -> (r: (Element, YinYang))
        ensures
            r == branch_yinyang_elem(*self),
    {
        match self {
            EarthlyBranch::EB1 => (Element::Water, YinYang::Yang),
            EarthlyBranch::EB2 => (Element::Earth, YinYang::Yin),
            EarthlyBranch::EB3 => (Element::Wood, YinYang::Yang),
            EarthlyBranch::EB4 => (Element::Wood, YinYang::Yin),
            EarthlyBranch::EB5 => (Element::Earth, YinYang::Yang),
            EarthlyBranch::EB6 => (Element::Fire, YinYang::Yin),
            EarthlyBranch::EB7 => (Element::Fire, YinYang::Yang),
            EarthlyBranch::EB8 => (Element::Earth, YinYang::Yin),
            EarthlyBranch::EB9 => (Element::Metal, YinYang::Yang),
            EarthlyBranch::EB10 => (Element::Fire, YinYang::Yin),
            EarthlyBranch::EB11 => (Element::Earth, YinYang::Yang),
            EarthlyBranch::EB12 => (Element::Water, YinYang::Yin),
        }
    }

    /// The zodiac identity of this branch: the unique one this branch carries.
    pub fn as_zodiac(&self) -> (r: Zodiac)
        ensures
            branch_of_zodiac(r) == *self,
    {
        match self {
            EarthlyBranch::EB1 => Zodiac::Rat,
            EarthlyBranch::EB2 => Zodiac::Buffalo,
            EarthlyBranch::EB3 => Zodiac::Tiger,
            EarthlyBranch::EB4 => Zodiac::Cat,
            EarthlyBranch::EB5 => Zodiac::Dragon,
            EarthlyBranch::EB6 => Zodiac::Snake,
            EarthlyBranch::EB7 => Zodiac::Horse,
            EarthlyBranch::EB8 => Zodiac::Goat,
            EarthlyBranch::EB9 => Zodiac::Monkey,
            EarthlyBranch::EB10 => Zodiac::Chicken,
            EarthlyBranch::EB11 => Zodiac::Dog,
            EarthlyBranch::EB12 => Zodiac::Pig,
        }
    }

    /// The year branch of a lunisolar year: ordinal `(year + 8) mod 12`.
    pub fn lunar_y_from_lunisolar_y(year: u32) -> (r: EarthlyBranch)
        requires
            year + 8 <= u32::MAX,
        ensures
            branch_ordinal(r) == (year + 8) % 12,
    {
        EarthlyBranch::from_numeric((year + 8) % 12)
    }

    /// The month branch of a lunisolar month: ordinal `(month + 1) mod 12`.
    pub fn lunar_m_from_lunisolar_m(month: u32) -> (r: EarthlyBranch)
        requires
            month + 1 <= u32::MAX,
        ensures
            branch_ordinal(r) == (month + 1) % 12,
    {
        EarthlyBranch::from_numeric((month + 1) % 12)
    }

    /// The day branch of a solar date: ordinal `(daysSinceEpoch + 10) mod 12`,
    /// counted from 1900-01-01.
    pub fn lunar_d_from_gregorian_ymd(day: u32, month: u32, year: u32) -> (r: EarthlyBranch)
        requires
            valid_gregorian_date(day as int, month as int, year as int),
            1900 <= year <= 2100,
        ensures
            branch_ordinal(r) == (days_since_epoch_1900_spec(day as int, month as int, year as int)
                + 10) % 12,
    {
        let duration = days_since_epoch_1900(day, month, year);
        EarthlyBranch::from_numeric(((duration + 10) % 12) as u32)
    }

    /// The hour branch of a solar hour: each branch spans a two-hour window
    /// offset by one hour, so hours 23 and 0 share a branch.
    pub fn lunar_h_from_gregorian_h(hour: u32) -> (r: EarthlyBranch)
        requires
            hour + 1 <= u32::MAX,
        ensures
            branch_ordinal(r) == ((hour + 1) / 2) % 12,
    {
        EarthlyBranch::from_numeric(((hour + 1) / 2) % 12)
    }
}

/// One sexagenary label: a stem together with a branch.
#[derive(Clone, Copy, Debug, PartialEq, Eq, Structural)]
pub struct LunarFormat {
    pub stem: HeavenlyStem,
    pub branch: EarthlyBranch,
}

impl LunarFormat {
    /// Pairs a stem with a branch.
    pub fn new(stem: HeavenlyStem, branch: EarthlyBranch) -> (r: LunarFormat)
        ensures
            r.stem == stem,
            r.branch == branch,
    {
        LunarFormat { stem, branch }
    }
}

/// The full sexagenary label of a moment: one stem-and-branch pair each for
/// the hour, the day, the month and the year.
#[derive(Clone, Copy, Debug, PartialEq, Eq, Structural)]
pub struct NaiveLunarDateTime {
    pub hour_lunar: LunarFormat,
    pub date_lunar: LunarFormat,
    pub month_lunar: LunarFormat,
    pub year_lunar: LunarFormat,
}

impl NaiveLunarDateTime {
    /// Assembles the four sexagenary labels of a moment: hour and day from
    /// the solar date and hour, month and year from the lunisolar month and
    /// year that the solar date converts to.
    pub fn new_from_parts(
        hour: u32,
        day: u32,
        month: u32,
        year: u32,
        lunisolar_month: u32,
        lunisolar_year: u32,
    ) -> (r: NaiveLunarDateTime)
        requires
            hour <= 23,
            valid_gregorian_date(day as int, month as int, year as int),
            1900 <= year <= 2100,
            lunisolar_year * 12 + lunisolar_month + 3 <= u32::MAX,
        ensures
            ({
                let days = days_since_epoch_1900_spec(day as int, month as int, year as int);
                &&& stem_ordinal(r.hour_lunar.stem) == (adjusted_hour(hour as int) / 2 + 2 * (days
                    % 10)) % 10
                &&& branch_ordinal(r.hour_lunar.branch) == ((hour + 1) / 2) % 12
                &&& stem_ordinal(r.date_lunar.stem) == days % 10
                &&& branch_ordinal(r.date_lunar.branch) == (days + 10) % 12
                &&& stem_ordinal(r.month_lunar.stem) == (lunisolar_year * 12 + lunisolar_month + 3)
                    % 10
                &&& branch_ordinal(r.month_lunar.branch) == (lunisolar_month + 1) % 12
                &&& stem_ordinal(r.year_lunar.stem) == (lunisolar_year + 6) % 10
                &&& branch_ordinal(r.year_lunar.branch) == (lunisolar_year + 8) % 12
            }),
    {
        let hour_hs = HeavenlyStem::lunar_h_from_gregorian_hymd(hour, day, month, year);
        let hour_eb = EarthlyBranch::lunar_h_from_gregorian_h(hour);

        let day_hs = HeavenlyStem::lunar_d_from_gregorian_ymd(day, month, year);
        let day_eb = EarthlyBranch::lunar_d_from_gregorian_ymd(day, month, year);

        let month_hs = HeavenlyStem::lunar_m_from_lunisolar_ym(lunisolar_month, lunisolar_year);
        let month_eb = EarthlyBranch::lunar_m_from_lunisolar_m(lunisolar_month);

        let year_hs = HeavenlyStem::lunar_y_from_lunisolar_y(lunisolar_year);
        let year_eb = EarthlyBranch::lunar_y_from_lunisolar_y(lunisolar_year);

        NaiveLunarDateTime {
            hour_lunar: LunarFormat { stem: hour_hs, branch: hour_eb },
            date_lunar: LunarFormat { stem: day_hs, branch: day_eb },
            month_lunar: LunarFormat { stem: month_hs, branch: month_eb },
            year_lunar: LunarFormat { stem: year_hs, branch: year_eb },
        }
    }
}

} // verus!
