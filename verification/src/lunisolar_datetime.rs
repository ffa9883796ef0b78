use vstd::prelude::*;

use vstd::arithmetic::div_mod::{
    lemma_fundamental_div_mod, lemma_fundamental_div_mod_converse,
};

verus! {

/// First year of the validated operating range of the conversion.
pub const MIN_YEAR: i32 = 1900;

/// Last year of the validated operating range of the conversion.
pub const MAX_YEAR: i32 = 2100;

/// Julian Day Number of the Gregorian calendar cutover (October 15, 1582).
pub const GREGORIAN_CUTOVER_JDN: i32 = 2299161;

/// Candidate Julian Day Number of a date read in the Gregorian calendar.
pub open spec fn jdn_gregorian(dd: int, mm: int, yy: int) -> int {
    let a = (14 - mm) / 12;
    let y = yy + 4800 - a;
    let m = mm + 12 * a - 3;
    dd + (153 * m + 2) / 5 + 365 * y + y / 4 - y / 100 + y / 400 - 32045
}

/// Julian Day Number of a date read in the Julian calendar.
pub open spec fn jdn_julian(dd: int, mm: int, yy: int) -> int {
    let a = (14 - mm) / 12;
    let y = yy + 4800 - a;
    let m = mm + 12 * a - 3;
    dd + (153 * m + 2) / 5 + 365 * y + y / 4 - 32083
}

/// Julian Day Number of a calendar date: Gregorian from the 1582 cutover
/// onwards, Julian before it.
pub open spec fn jdn(dd: int, mm: int, yy: int) -> int {
    if jdn_gregorian(dd, mm, yy) < GREGORIAN_CUTOVER_JDN as int {
        jdn_julian(dd, mm, yy)
    } else {
        jdn_gregorian(dd, mm, yy)
    }
}

/// Calendar date of a Julian Day Number after the Gregorian cutover.
pub open spec fn date_of_jdn_gregorian(jd: int) -> (int, int, int) {
    let a = jd + 32044;
    let b = (4 * a + 3) / 146097;
    let c = a - (b * 146097) / 4;
    let d = (4 * c + 3) / 1461;
    let e = c - (1461 * d) / 4;
    let m = (5 * e + 2) / 153;
    let day = e - (153 * m + 2) / 5 + 1;
    let month = m + 3 - 12 * (m / 10);
    let year = b * 100 + d - 4800 + m / 10;
    (day, month, year)
}

/// Calendar date of a Julian Day Number at or before the Gregorian cutover,
/// read in the Julian calendar.
pub open spec fn date_of_jdn_julian(jd: int) -> (int, int, int) {
    let c = jd + 32082;
    let d = (4 * c + 3) / 1461;
    let e = c - (1461 * d) / 4;
    let m = (5 * e + 2) / 153;
    let day = e - (153 * m + 2) / 5 + 1;
    let month = m + 3 - 12 * (m / 10);
    let year = d - 4800 + m / 10;
    (day, month, year)
}

/// Calendar date of a Julian Day Number, branching at the Gregorian cutover.
pub open spec fn date_of_jdn(jd: int) -> (int, int, int) {
    if jd > GREGORIAN_CUTOVER_JDN - 1 {
        date_of_jdn_gregorian(jd)
    } else {
        date_of_jdn_julian(jd)
    }
}

/// Whether a year is a leap year of the Gregorian calendar.
pub open spec fn is_gregorian_leap_year(y: int) -> bool {
    (y % 4 == 0 && y % 100 != 0) || y % 400 == 0
}

/// The number of days of a month of the Gregorian calendar.
pub open spec fn days_in_gregorian_month(m: int, y: int) -> int {
    if m == 2 {
        if is_gregorian_leap_year(y) {
            29
        } else {
            28
        }
    } else if m == 4 || m == 6 || m == 9 || m == 11 {
        30
    } else {
        31
    }
}

/// Whether (day, month, year) names a real Gregorian calendar date.
pub open spec fn valid_gregorian_date(d: int, m: int, y: int) -> bool {
    1 <= m <= 12 && 1 <= d <= days_in_gregorian_month(m, y)
}

/// Days elapsed from the epoch 1900-01-01 to a Gregorian calendar date.
pub open spec fn days_since_epoch_1900_spec(d: int, m: int, y: int) -> int {
    jdn(d, m, y) - jdn(1, 1, 1900)
}

/// Within the operating era, reading a date's Julian Day Number back yields
/// the same date.
pub proof fn lemma_date_of_jdn_inverse(dd: int, mm: int, yy: int)
    requires
        valid_gregorian_date(dd, mm, yy),
        1900 <= yy <= 2100,
    ensures
        date_of_jdn(jdn(dd, mm, yy)) == (dd, mm, yy),
{
    let a = (14 - mm) / 12;
    if mm <= 2 {
        lemma_fundamental_div_mod_converse(14 - mm, 12, 1, 2 - mm);
    } else {
        lemma_fundamental_div_mod_converse(14 - mm, 12, 0, 14 - mm);
    }
    assert(a == if mm <= 2 { 1int } else { 0int });
    let y = yy + 4800 - a;
    let m = mm + 12 * a - 3;
    let f = (153 * m + 2) / 5;
    let doy = f + dd - 1;

    // Pin, per calendar month, the day-of-year offset of the shifted calendar
    // (whose year runs from March to February) and the month the day of year
    // scans back to.
    if mm == 1 {
        lemma_fundamental_div_mod_converse(153 * m + 2, 5, 306, 2);
        lemma_fundamental_div_mod_converse(5 * doy + 2, 153, 10, 5 * dd - 3);
    } else if mm == 2 {
        lemma_fundamental_div_mod_converse(153 * m + 2, 5, 337, 0);
        lemma_fundamental_div_mod_converse(5 * doy + 2, 153, 11, 5 * dd - 1);
    } else if mm == 3 {
        lemma_fundamental_div_mod_converse(153 * m + 2, 5, 0, 2);
        lemma_fundamental_div_mod_converse(5 * doy + 2, 153, 0, 5 * dd - 3);
    } else if mm == 4 {
        lemma_fundamental_div_mod_converse(153 * m + 2, 5, 31, 0);
        lemma_fundamental_div_mod_converse(5 * doy + 2, 153, 1, 5 * dd - 1);
    } else if mm == 5 {
        lemma_fundamental_div_mod_converse(153 * m + 2, 5, 61, 3);
        lemma_fundamental_div_mod_converse(5 * doy + 2, 153, 2, 5 * dd - 4);
    } else if mm == 6 {
        lemma_fundamental_div_mod_converse(153 * m + 2, 5, 92, 1);
        lemma_fundamental_div_mod_converse(5 * doy + 2, 153, 3, 5 * dd - 2);
    } else if mm == 7 {
        lemma_fundamental_div_mod_converse(153 * m + 2, 5, 122, 4);
        lemma_fundamental_div_mod_converse(5 * doy + 2, 153, 4, 5 * dd - 5);
    } else if mm == 8 {
        lemma_fundamental_div_mod_converse(153 * m + 2, 5, 153, 2);
        lemma_fundamental_div_mod_converse(5 * doy + 2, 153, 5, 5 * dd - 3);
    } else if mm == 9 {
        lemma_fundamental_div_mod_converse(153 * m + 2, 5, 184, 0);
        lemma_fundamental_div_mod_converse(5 * doy + 2, 153, 6, 5 * dd - 1);
    } else if mm == 10 {
        lemma_fundamental_div_mod_converse(153 * m + 2, 5, 214, 3);
        lemma_fundamental_div_mod_converse(5 * doy + 2, 153, 7, 5 * dd - 4);
    } else if mm == 11 {
        lemma_fundamental_div_mod_converse(153 * m + 2, 5, 245, 1);
        lemma_fundamental_div_mod_converse(5 * doy + 2, 153, 8, 5 * dd - 2);
    } else {
        lemma_fundamental_div_mod_converse(153 * m + 2, 5, 275, 4);
        lemma_fundamental_div_mod_converse(5 * doy + 2, 153, 9, 5 * dd - 5);
    }
    assert(0 <= doy <= 365);
    assert((5 * doy + 2) / 153 == m);
    assert(doy == 365 ==> mm == 2 && dd == 29 && is_gregorian_leap_year(yy));

    // Decompose the shifted year along its 400-year and 100-year cycles.
    let cb = y / 100;
    let cr = y % 100;
    lemma_fundamental_div_mod(y, 100);
    assert(0 <= cr < 100);
    let p = cb / 4;
    let q = cb % 4;
    lemma_fundamental_div_mod(cb, 4);
    assert(0 <= q < 4);
    lemma_fundamental_div_mod(cr, 4);
    lemma_fundamental_div_mod_converse(y, 4, 25 * cb + cr / 4, cr % 4);
    lemma_fundamental_div_mod_converse(y, 400, p, 100 * q + cr);
    assert(y / 4 == 25 * cb + cr / 4);
    assert(y / 100 == cb);
    assert(y / 400 == p);

    let g = 365 * y + y / 4 - y / 100 + y / 400;
    assert(g == 146097 * p + 36524 * q + 365 * cr + cr / 4);

    let jd = dd + f + g - 32045;
    assert(jdn_gregorian(dd, mm, yy) == jd);
    assert(p >= 16);
    assert(jd >= GREGORIAN_CUTOVER_JDN as int);
    assert(jdn(dd, mm, yy) == jd);

    // A day of year of 365 is the shifted leap day, which pins the year's
    // position in the four-year and four-century cycles.
    if doy == 365 {
        assert(y == yy + 4799);
        if yy % 400 == 0 {
            lemma_fundamental_div_mod(yy, 400);
            lemma_fundamental_div_mod_converse(y, 400, yy / 400 + 11, 399);
            assert(100 * q + cr == 399);
            assert(q == 3 && cr == 99);
        } else {
            lemma_fundamental_div_mod(yy, 4);
            lemma_fundamental_div_mod_converse(y, 4, yy / 4 + 1199, 3);
            assert(cr % 4 == 3);
            if cr == 99 {
                lemma_fundamental_div_mod_converse(yy, 100, cb - 48, 0);
                assert(yy % 100 == 0);
                assert(false);
            }
        }
    }
    assert(doy == 365 ==> cr % 4 == 3);
    assert(doy == 365 && cr == 99 ==> q == 3);

    // Walk the inverse formula: each division step recovers the piece the
    // forward formula folded in.
    let a2 = jd + 32044;
    assert(a2 == doy + g);

    let b = (4 * a2 + 3) / 146097;
    lemma_fundamental_div_mod_converse(
        4 * a2 + 3,
        146097,
        4 * p + q,
        4 * doy - q + 1460 * cr + 4 * (cr / 4) + 3,
    );
    assert(b == 4 * p + q);

    let c = a2 - (b * 146097) / 4;
    lemma_fundamental_div_mod_converse(b * 146097, 4, 146097 * p + 36524 * q, q);
    assert(c == doy + 365 * cr + cr / 4);

    let d0 = (4 * c + 3) / 1461;
    lemma_fundamental_div_mod_converse(4 * c + 3, 1461, cr, 4 * doy + 4 * (cr / 4) - cr + 3);
    assert(d0 == cr);

    let e = c - (1461 * d0) / 4;
    lemma_fundamental_div_mod_converse(1461 * cr, 4, 365 * cr + cr / 4, cr % 4);
    assert(e == doy);

    let m2 = (5 * e + 2) / 153;
    assert(m2 == m);
    if m <= 9 {
        lemma_fundamental_div_mod_converse(m, 10, 0, m);
    } else {
        lemma_fundamental_div_mod_converse(m, 10, 1, m - 10);
    }
    assert(m / 10 == a);

    assert(e - (153 * m2 + 2) / 5 + 1 == dd);
    assert(m2 + 3 - 12 * (m2 / 10) == mm);
    assert(b * 100 + d0 - 4800 + m2 / 10 == yy);
    assert(date_of_jdn_gregorian(jd) == (dd, mm, yy));
}

/// The two failure kinds of the conversions: a year outside the operating
/// range, and a reverse query whose leap-month flag names no real month.
#[derive(Clone, Copy, Debug, PartialEq, Eq, Structural)]
pub enum LunisolarError {
    OutOfRange,
    NotRepresentable,
}

/// Ephemeris samples around one candidate month-11 anchor: the new moon
/// nearest below a year-end estimate, the sun-longitude sector at its local
/// midnight, and the new moon one lunation earlier.
#[derive(Clone, Copy, Debug, PartialEq, Eq, Structural)]
pub struct Month11Samples {
    pub new_moon: i32,
    pub sun_sector: i32,
    pub new_moon_prev: i32,
}

/// The month-11 anchor those samples determine: if the sun has already passed
/// sector 9 (the winter solstice) at the sampled new moon, the anchor is the
/// new moon one lunation earlier.
pub open spec fn month11_anchor_spec(s: Month11Samples) -> int {
    if s.sun_sector >= 9 {
        s.new_moon_prev as int
    } else {
        s.new_moon as int
    }
}

/// Ephemeris samples for one forward conversion: the new moons at the
/// estimated lunation of the date and the next one, month-11 samples for the
/// previous, current and next solar year, and the sun-longitude sectors of the
/// fourteen new moons after each candidate start-of-year anchor.
#[derive(Clone, Debug)]
pub struct SolarToLunisolarSamples {
    pub new_moon: i32,
    pub new_moon_next: i32,
    pub month11_prev_year: Month11Samples,
    pub month11_year: Month11Samples,
    pub month11_next_year: Month11Samples,
    pub leap_sectors_prev_year: Vec<i32>,
    pub leap_sectors_year: Vec<i32>,
}

/// Ephemeris samples for one reverse conversion, for the month-11 anchors of
/// the year before the queried lunisolar year and of that year itself: the
/// sun-longitude sectors of the fourteen new moons after each anchor, and the
/// new moons at the anchor's lunation and the twelve that follow.
#[derive(Clone, Debug)]
pub struct LunisolarToSolarSamples {
    pub leap_sectors_prev_year: Vec<i32>,
    pub leap_sectors_year: Vec<i32>,
    pub new_moons_prev_year: Vec<i32>,
    pub new_moons_year: Vec<i32>,
}

/// The new moon that begins the lunar month containing day `dn`: the sampled
/// next new moon unless it falls after `dn`, else the sampled one below.
pub open spec fn month_start_spec(dn: int, nm: int, nm_next: int) -> int {
    if nm_next > dn {
        nm
    } else {
        nm_next
    }
}

/// The bounded scan of the leap-month search, from position `i`: the first
/// position (capped at 14) where two consecutive new moons share a
/// sun-longitude sector, minus one.
pub open spec fn leap_scan(sectors: Seq<i32>, i: int) -> int
    decreases 14 - i,
{
    if i >= 14 {
        13
    } else if sectors[i - 1] == sectors[i - 2] {
        i - 1
    } else {
        leap_scan(sectors, i + 1)
    }
}

/// The leap-month insertion offset after a month-11 anchor, from the sectors
/// of the fourteen new moons that follow it.
pub open spec fn leap_month_offset_spec(sectors: Seq<i32>) -> int {
    leap_scan(sectors, 2)
}

/// A Julian Day Number within the era the conversion operates in.
pub open spec fn jd_in_range(x: int) -> bool {
    2_000_000 <= x <= 3_000_000
}

/// Both new moons of a month-11 sample lie within the operating era.
pub open spec fn month11_samples_in_range(s: Month11Samples) -> bool {
    jd_in_range(s.new_moon as int) && jd_in_range(s.new_moon_prev as int)
}

/// What the forward conversion asks of its ephemeris samples: era bounds,
/// fourteen sectors per candidate anchor, a sampled new moon not after the
/// date, and a chosen start-of-year anchor at most thirteen full lunations
/// before the month start.
pub open spec fn solar_to_lunisolar_samples_wf(
    dd: int,
    mm: int,
    yy: int,
    s: SolarToLunisolarSamples,
) -> bool {
    let dn = jdn(dd, mm, yy);
    let ms = month_start_spec(dn, s.new_moon as int, s.new_moon_next as int);
    let a11_cur = month11_anchor_spec(s.month11_year);
    let a11 = if a11_cur >= ms {
        month11_anchor_spec(s.month11_prev_year)
    } else {
        a11_cur
    };
    &&& jd_in_range(s.new_moon as int)
    &&& jd_in_range(s.new_moon_next as int)
    &&& month11_samples_in_range(s.month11_prev_year)
    &&& month11_samples_in_range(s.month11_year)
    &&& month11_samples_in_range(s.month11_next_year)
    &&& s.leap_sectors_prev_year@.len() == 14
    &&& s.leap_sectors_year@.len() == 14
    &&& s.new_moon as int <= dn
    &&& a11 <= ms <= a11 + 405
}

/// The forward conversion over given ephemeris samples: the lunisolar
/// (day, month, is-leap-month, year) of the solar date `(dd, mm, yy)`.
pub open spec fn solar_to_lunisolar_spec(
    dd: int,
    mm: int,
    yy: int,
    s: SolarToLunisolarSamples,
) -> (int, int, bool, int) {
    let dn = jdn(dd, mm, yy);
    let ms = month_start_spec(dn, s.new_moon as int, s.new_moon_next as int);
    let a11_cur = month11_anchor_spec(s.month11_year);
    let day = dn - ms + 1;
    let (year0, a11, b11, sectors) = if a11_cur >= ms {
        (yy, month11_anchor_spec(s.month11_prev_year), a11_cur, s.leap_sectors_prev_year@)
    } else {
        (yy + 1, a11_cur, month11_anchor_spec(s.month11_next_year), s.leap_sectors_year@)
    };
    let diff = (ms - a11) / 29;
    let leap_off = leap_month_offset_spec(sectors);
    let is_leap_year = b11 - a11 > 365;
    let month0 = if is_leap_year && diff >= leap_off {
        diff + 10
    } else {
        diff + 11
    };
    let leap = is_leap_year && diff == leap_off;
    let month = if month0 > 12 {
        month0 - 12
    } else {
        month0
    };
    let year = if month >= 11 && diff < 4 {
        year0 - 1
    } else {
        year0
    };
    (day, month, leap, year)
}

/// What the reverse conversion asks of its ephemeris samples: fourteen
/// sectors and thirteen era-bounded new moons per candidate anchor.
pub open spec fn lunisolar_to_solar_samples_wf(s: LunisolarToSolarSamples) -> bool {
    &&& s.leap_sectors_prev_year@.len() == 14
    &&& s.leap_sectors_year@.len() == 14
    &&& s.new_moons_prev_year@.len() == 13
    &&& s.new_moons_year@.len() == 13
    &&& forall|i: int| 0 <= i < 13 ==> jd_in_range(s.new_moons_prev_year@[i] as int)
    &&& forall|i: int| 0 <= i < 13 ==> jd_in_range(s.new_moons_year@[i] as int)
}

/// The reverse conversion over given ephemeris samples: the solar
/// (day, month, year) of the lunisolar query, or nothing when the queried
/// leap-month flag names no real month of that year.
pub open spec fn lunisolar_to_solar_spec(
    ld: int,
    lm: int,
    leap: bool,
    s: LunisolarToSolarSamples,
) -> Option<(int, int, int)> {
    let (sectors, moons) = if lm < 11 {
        (s.leap_sectors_prev_year@, s.new_moons_prev_year@)
    } else {
        (s.leap_sectors_year@, s.new_moons_year@)
    };
    let off = if lm - 11 < 0 {
        lm + 1
    } else {
        lm - 11
    };
    let leap_off = leap_month_offset_spec(sectors);
    let leap_month = if leap_off - 2 < 0 {
        leap_off + 10
    } else {
        leap_off - 2
    };
    if leap && lm != leap_month {
        None
    } else {
        let off2 = if leap || off >= leap_off {
            off + 1
        } else {
            off
        };
        Some(date_of_jdn(moons[off2] as int + ld - 1))
    }
}

/// The leap-month scan from position `i` lands between `i - 1` and 13.
proof fn lemma_leap_scan_bounds(sectors: Seq<i32>, i: int)
    requires
        2 <= i <= 14,
    ensures
        i - 1 <= leap_scan(sectors, i) <= 13,
    decreases 14 - i,
{
    if i < 14 && sectors[i - 1] != sectors[i - 2] {
        lemma_leap_scan_bounds(sectors, i + 1);
    }
}

/// A walk stepping by one lunation of 29 or 30 days stays pinned between the
/// corresponding multiples.
proof fn lemma_lunation_walk_bounds(moons: Seq<i32>, j: int)
    requires
        0 <= j < moons.len(),
        forall|i: int|
            0 <= i < moons.len() - 1 ==> 29 <= moons[i + 1] - #[trigger] moons[i] <= 30,
    ensures
        29 * j <= moons[j] - moons[0] <= 30 * j,
    decreases j,
{
    if j > 0 {
        lemma_lunation_walk_bounds(moons, j - 1);
        assert(29 <= moons[(j - 1) + 1] - moons[j - 1] <= 30);
    }
}

/// One reverse sample set continues a forward run whose start-of-year anchor
/// was `a11`, with sun-longitude sectors `sectors_f` and month start `ms`: it
/// carries the same sectors, its new moons start at the anchor, step by one
/// lunation of 29 or 30 days, and pass through the month start.
pub open spec fn reverse_set_coherent(
    sectors_f: Seq<i32>,
    a11: int,
    ms: int,
    sectors_r: Seq<i32>,
    moons_r: Seq<i32>,
) -> bool {
    &&& sectors_r == sectors_f
    &&& moons_r[0] == a11
    &&& (forall|i: int| 0 <= i < 12 ==> 29 <= moons_r[i + 1] - #[trigger] moons_r[i] <= 30)
    &&& (exists|j: int| 0 <= j <= 12 && moons_r[j] == ms)
}

/// What the round trip of the two conversions asks of its two sample sets,
/// beyond each side's own well-formedness: the reverse set that the produced
/// month picks must continue the forward run's ephemeris; in a year without a
/// leap month the date lies before the scanned insertion slot; and the date
/// does not fall in a month 11 or 12 that opens a lunisolar year (four or
/// more lunations past the anchor).
pub open spec fn round_trip_premises(
    dd: int,
    mm: int,
    yy: int,
    sf: SolarToLunisolarSamples,
    sr: LunisolarToSolarSamples,
) -> bool {
    let dn = jdn(dd, mm, yy);
    let ms = month_start_spec(dn, sf.new_moon as int, sf.new_moon_next as int);
    let a11_cur = month11_anchor_spec(sf.month11_year);
    let a11 = if a11_cur >= ms {
        month11_anchor_spec(sf.month11_prev_year)
    } else {
        a11_cur
    };
    let b11 = if a11_cur >= ms {
        a11_cur
    } else {
        month11_anchor_spec(sf.month11_next_year)
    };
    let sectors_f = if a11_cur >= ms {
        sf.leap_sectors_prev_year@
    } else {
        sf.leap_sectors_year@
    };
    let lm = solar_to_lunisolar_spec(dd, mm, yy, sf).1;
    &&& (if lm < 11 {
        reverse_set_coherent(sectors_f, a11, ms, sr.leap_sectors_prev_year@, sr.new_moons_prev_year@)
    } else {
        reverse_set_coherent(sectors_f, a11, ms, sr.leap_sectors_year@, sr.new_moons_year@)
    })
    &&& (b11 - a11 <= 365 ==> (ms - a11) / 29 < leap_month_offset_spec(sectors_f))
    &&& (lm < 11 || (ms - a11) / 29 < 4)
}

/// A lunation walk that starts at the anchor and passes through the month
/// start meets it exactly at the month count the conversion derives.
proof fn lemma_walk_hits_month_start(moons: Seq<i32>, a11: int, ms: int)
    requires
        moons.len() == 13,
        moons[0] == a11,
        forall|i: int| 0 <= i < 12 ==> 29 <= moons[i + 1] - #[trigger] moons[i] <= 30,
        exists|j: int| 0 <= j <= 12 && moons[j] == ms,
        a11 <= ms <= a11 + 405,
    ensures
        0 <= (ms - a11) / 29 <= 12,
        moons[(ms - a11) / 29] == ms,
{
    let j = choose|j: int| 0 <= j <= 12 && moons[j] == ms;
    lemma_lunation_walk_bounds(moons, j);
    lemma_fundamental_div_mod(ms - a11, 29);
    assert((ms - a11) / 29 == j);
}

/// Round trip of the conversions: a non-leap lunisolar date that the forward
/// conversion produced, queried back through the reverse conversion with
/// coherent ephemeris samples, names exactly the solar date it came from.
pub proof fn lemma_round_trip(
    dd: int,
    mm: int,
    yy: int,
    sf: SolarToLunisolarSamples,
    sr: LunisolarToSolarSamples,
)
    requires
        valid_gregorian_date(dd, mm, yy),
        MIN_YEAR <= yy <= MAX_YEAR,
        solar_to_lunisolar_samples_wf(dd, mm, yy, sf),
        lunisolar_to_solar_samples_wf(sr),
        !solar_to_lunisolar_spec(dd, mm, yy, sf).2,
        round_trip_premises(dd, mm, yy, sf, sr),
    ensures
        lunisolar_to_solar_spec(
            solar_to_lunisolar_spec(dd, mm, yy, sf).0,
            solar_to_lunisolar_spec(dd, mm, yy, sf).1,
            false,
            sr,
        ) == Some((dd, mm, yy)),
{
    let dn = jdn(dd, mm, yy);
    let ms = month_start_spec(dn, sf.new_moon as int, sf.new_moon_next as int);
    let a11_cur = month11_anchor_spec(sf.month11_year);
    let a11 = if a11_cur >= ms {
        month11_anchor_spec(sf.month11_prev_year)
    } else {
        a11_cur
    };
    let b11 = if a11_cur >= ms {
        a11_cur
    } else {
        month11_anchor_spec(sf.month11_next_year)
    };
    let sectors_f = if a11_cur >= ms {
        sf.leap_sectors_prev_year@
    } else {
        sf.leap_sectors_year@
    };
    let diff = (ms - a11) / 29;
    let leap_off = leap_month_offset_spec(sectors_f);
    let r = solar_to_lunisolar_spec(dd, mm, yy, sf);
    let ld = r.0;
    let lm = r.1;

    lemma_leap_scan_bounds(sectors_f, 2);
    lemma_fundamental_div_mod(ms - a11, 29);
    assert(0 <= diff <= 13);

    let is_leap_year = b11 - a11 > 365;
    let bump: int = if is_leap_year && diff >= leap_off {
        1int
    } else {
        0int
    };
    let month0 = diff + 11 - bump;
    assert(lm == if month0 > 12 { month0 - 12 } else { month0 });
    assert(ld == dn - ms + 1);
    assert(bump == 1 ==> diff > leap_off);
    assert(11 <= month0 <= 24);
    assert(1 <= lm <= 12);

    let off = if lm - 11 < 0 {
        lm + 1
    } else {
        lm - 11
    };
    assert(off == diff - bump);
    let off2 = if off >= leap_off {
        off + 1
    } else {
        off
    };
    assert(off2 == diff);

    if lm < 11 {
        assert(reverse_set_coherent(
            sectors_f,
            a11,
            ms,
            sr.leap_sectors_prev_year@,
            sr.new_moons_prev_year@,
        ));
        lemma_walk_hits_month_start(sr.new_moons_prev_year@, a11, ms);
        assert(sr.new_moons_prev_year@[off2] == ms);
    } else {
        assert(reverse_set_coherent(
            sectors_f,
            a11,
            ms,
            sr.leap_sectors_year@,
            sr.new_moons_year@,
        ));
        lemma_walk_hits_month_start(sr.new_moons_year@, a11, ms);
        assert(sr.new_moons_year@[off2] == ms);
    }

    assert(lunisolar_to_solar_spec(ld, lm, false, sr) == Some(date_of_jdn(ms + ld - 1)));
    assert(ms + ld - 1 == dn);
    lemma_date_of_jdn_inverse(dd, mm, yy);
}

/// A solar date together with a lunisolar date and time of day.
#[derive(Clone, Debug, PartialEq, Eq, Structural)]
pub struct NaiveLunisolarDateTime {
    pub hour_lunisolar: u32,
    pub minute_lunisolar: u32,
    pub day_lunisolar: u32,
    pub month_lunisolar: u32,
    pub year_lunisolar: u32,
}

impl NaiveLunisolarDateTime {
    /// The Julian Day Number of a calendar date, Gregorian from the 1582
    /// cutover onwards and Julian before it.
    pub fn jd_from_date(dd: u32, mm: u32, yy: i32) -> (r: i32)
        requires
            1 <= dd <= 31,
            1 <= mm <= 12,
            -4712 <= yy <= 5_000_000,
        ensures
            r == jdn(dd as int, mm as int, yy as int),
    {
        let a: u32 = (14 - mm) / 12;
        let y: i32 = yy + 4800 - a as i32;
        let m: u32 = mm + 12 * a - 3;
        let jd: i32 = dd as i32 + ((153 * m + 2) / 5) as i32 + 365 * y + (y / 4) - (y / 100)
            + (y / 400) - 32045;
        if jd < GREGORIAN_CUTOVER_JDN {
            return dd as i32 + ((153 * m + 2) / 5) as i32 + 365 * y + (y / 4) - 32083;
        }
        jd
    }

    /// The calendar date of a Julian Day Number: the inverse of
    /// `jd_from_date`, branching at the Gregorian cutover.
    pub fn jd_to_date(jd: i32) -> (r: (u32, u32, i32))
        requires
            -32082 <= jd <= 10_000_000,
        ensures
            (r.0 as int, r.1 as int, r.2 as int) == date_of_jdn(jd as int),
            1 <= r.0 <= 31,
            1 <= r.1 <= 12,
    {
        let is_gregorian = jd > GREGORIAN_CUTOVER_JDN - 1;

        if is_gregorian {
            let a: i32 = jd + 32044;
            let b: i32 = (4 * a + 3) / 146097;
            let c: i32 = a - (b * 146097) / 4;

            let d: i32 = (4 * c + 3) / 1461;
            let e: i32 = c - (1461 * d) / 4;
            let m: i32 = (5 * e + 2) / 153;
            let day: i32 = e - (153 * m + 2) / 5 + 1;
            let month: i32 = m + 3 - 12 * (m / 10);
            let year: i32 = b * 100 + d - 4800 + m / 10;

            (day as u32, month as u32, year)
        } else {
            let c: i32 = jd + 32082;

            let d: i32 = (4 * c + 3) / 1461;
            let e: i32 = c - (1461 * d) / 4;
            let m: i32 = (5 * e + 2) / 153;
            let day: i32 = e - (153 * m + 2) / 5 + 1;
            let month: i32 = m + 3 - 12 * (m / 10);
            let year: i32 = d - 4800 + m / 10;

            (day as u32, month as u32, year)
        }
    }

    /// The month-11 anchor of a year, decided from its ephemeris samples:
    /// steps back one lunation when the sampled new moon already lies past the
    /// winter solstice.
    pub fn get_lunisolar_month_11(s: &Month11Samples) -> (r: i32)
        ensures
            r as int == month11_anchor_spec(*s),
    {
        if s.sun_sector >= 9 {
            s.new_moon_prev
        } else {
            s.new_moon
        }
    }

    /// The leap-month insertion offset: the first position after month 11
    /// where two consecutive new moons land in the same sun-longitude sector,
    /// minus one, capped at thirteen.
    pub fn get_leap_month_offset(sectors: &Vec<i32>) -> (r: i32)
        requires
            sectors@.len() == 14,
        ensures
            r as int == leap_month_offset_spec(sectors@),
            1 <= r <= 13,
    {
        let mut i: usize = 2;
        loop
            invariant
                2 <= i <= 14,
                sectors@.len() == 14,
                leap_month_offset_spec(sectors@) == leap_scan(sectors@, i as int),
            decreases 14 - i,
        {
            if sectors[i - 1] == sectors[i - 2] || i == 14 {
                return (i - 1) as i32;
            }
            i += 1;
        }
    }

    /// The forward conversion: the lunisolar (day, month, is-leap-month, year)
    /// of a solar date, over the given ephemeris samples. Rejects a year
    /// outside the operating range before reading any sample.
    pub fn convert_solar_to_lunisolar(
        dd: u32,
        mm: u32,
        yy: i32,
        samples: &SolarToLunisolarSamples,
    ) -> (r: Result<(u32, u32, bool, i32), LunisolarError>)
        requires
            1 <= dd <= 31,
            1 <= mm <= 12,
            MIN_YEAR <= yy <= MAX_YEAR ==> solar_to_lunisolar_samples_wf(
                dd as int,
                mm as int,
                yy as int,
                *samples,
            ),
        ensures
            (yy < MIN_YEAR || yy > MAX_YEAR) <==> r is Err,
            r matches Err(e) ==> e == LunisolarError::OutOfRange,
            r matches Ok(v) ==> {
                let (day, month, leap, year) = solar_to_lunisolar_spec(
                    dd as int,
                    mm as int,
                    yy as int,
                    *samples,
                );
                &&& v.0 == day
                &&& v.1 == month
                &&& v.2 == leap
                &&& v.3 == year
            },
            r matches Ok(v) ==> 1 <= v.0 && 1 <= v.1 <= 12 && yy - 1 <= v.3 <= yy + 1,
    {
        if yy < MIN_YEAR || yy > MAX_YEAR {
            return Err(LunisolarError::OutOfRange);
        }

        let day_number = Self::jd_from_date(dd, mm, yy);
        let mut month_start = samples.new_moon_next;
        if month_start > day_number {
            month_start = samples.new_moon;
        }

        let a11_cur = Self::get_lunisolar_month_11(&samples.month11_year);
        let mut a11 = a11_cur;
        let mut b11 = a11_cur;

        let lunisolar_day = day_number - month_start + 1;
        let mut lunisolar_year: i32;

        if a11_cur >= month_start {
            lunisolar_year = yy;
            a11 = Self::get_lunisolar_month_11(&samples.month11_prev_year);
        } else {
            lunisolar_year = yy + 1;
            b11 = Self::get_lunisolar_month_11(&samples.month11_next_year);
        }

        let diff = (month_start - a11) / 29;
        let mut lunisolar_month = diff + 11;
        let mut lunisolar_leap = false;

        if b11 - a11 > 365 {
            let leap_month_diff = if a11_cur >= month_start {
                Self::get_leap_month_offset(&samples.leap_sectors_prev_year)
            } else {
                Self::get_leap_month_offset(&samples.leap_sectors_year)
            };
            if diff >= leap_month_diff {
                lunisolar_month = diff + 10;
                lunisolar_leap = diff == leap_month_diff;
            }
        }

        if lunisolar_month > 12 {
            lunisolar_month -= 12;
        }
        if lunisolar_month >= 11 && diff < 4 {
            lunisolar_year -= 1;
        }

        Ok((lunisolar_day as u32, lunisolar_month as u32, lunisolar_leap, lunisolar_year))
    }

    /// The reverse conversion: the solar (day, month, year) on which the
    /// queried lunisolar date falls, over the given ephemeris samples, or
    /// an error when the queried leap-month flag names no real month of
    /// that lunisolar year.
    pub fn convert_lunisolar_to_solar(
        lunisolar_day: u32,
        lunisolar_month: u32,
        lunisolar_year: i32,
        lunisolar_leap: bool,
        samples: &LunisolarToSolarSamples,
    ) -> (r: Result<(u32, u32, i32), LunisolarError>)
        requires
            1 <= lunisolar_day <= 30,
            1 <= lunisolar_month <= 12,
            MIN_YEAR <= lunisolar_year <= MAX_YEAR,
            lunisolar_to_solar_samples_wf(*samples),
        ensures
            r is Ok <==> lunisolar_to_solar_spec(
                lunisolar_day as int,
                lunisolar_month as int,
                lunisolar_leap,
                *samples,
            ) is Some,
            r matches Ok(v) ==> lunisolar_to_solar_spec(
                lunisolar_day as int,
                lunisolar_month as int,
                lunisolar_leap,
                *samples,
            ) matches Some(t) && v.0 == t.0 && v.1 == t.1 && v.2 == t.2 && 1 <= v.0 <= 31 && 1
                <= v.1 <= 12,
            r matches Err(e) ==> e == LunisolarError::NotRepresentable,
    {
        let (sectors, moons) = if lunisolar_month < 11 {
            (&samples.leap_sectors_prev_year, &samples.new_moons_prev_year)
        } else {
            (&samples.leap_sectors_year, &samples.new_moons_year)
        };

        let lm = lunisolar_month as i32;
        let mut off: i32 = lm - 11;
        if off < 0 {
            off += 12;
        }

        let leap_off = Self::get_leap_month_offset(sectors);
        let mut leap_month = leap_off - 2;
        if leap_month < 0 {
            leap_month += 12;
        }

        if lunisolar_leap && lm != leap_month {
            return Err(LunisolarError::NotRepresentable);
        }
        if lunisolar_leap || off >= leap_off {
            off += 1;
        }

        let month_start = moons[off as usize];
        let solar_jd = month_start + lunisolar_day as i32 - 1;
        Ok(Self::jd_to_date(solar_jd))
    }

    /// Builds the lunisolar date and time of a solar moment: the time of day
    /// is carried over unchanged, the date runs through the forward
    /// conversion. Rejects a year outside the operating range.
    pub fn new_from_parts(
        hour: u32,
        minute: u32,
        dd: u32,
        mm: u32,
        yy: i32,
        samples: &SolarToLunisolarSamples,
    ) -> (r: Result<NaiveLunisolarDateTime, LunisolarError>)
        requires
            1 <= dd <= 31,
            1 <= mm <= 12,
            MIN_YEAR <= yy <= MAX_YEAR ==> solar_to_lunisolar_samples_wf(
                dd as int,
                mm as int,
                yy as int,
                *samples,
            ),
        ensures
            (yy < MIN_YEAR || yy > MAX_YEAR) <==> r is Err,
            r matches Err(e) ==> e == LunisolarError::OutOfRange,
            r matches Ok(v) ==> {
                let (day, month, leap, year) = solar_to_lunisolar_spec(
                    dd as int,
                    mm as int,
                    yy as int,
                    *samples,
                );
                &&& v.hour_lunisolar == hour
                &&& v.minute_lunisolar == minute
                &&& v.day_lunisolar == day
                &&& v.month_lunisolar == month
                &&& v.year_lunisolar == year
            },
    {
        match Self::convert_solar_to_lunisolar(dd, mm, yy, samples) {
            Ok((day, month, _leap, year)) => Ok(
                NaiveLunisolarDateTime {
                    hour_lunisolar: hour,
                    minute_lunisolar: minute,
                    day_lunisolar: day,
                    month_lunisolar: month,
                    year_lunisolar: year as u32,
                },
            ),
            Err(e) => Err(e),
        }
    }
}

} // verus!
