use lunisolar::lunar_datetime::{EarthlyBranch, HeavenlyStem};
use lunisolar::lunisolar_datetime::{
    LunisolarError, LunisolarToSolarSamples, Month11Samples, NaiveLunisolarDateTime,
    SolarToLunisolarSamples,
};

// The floating-point astronomical series of the reference algorithm. The
// library takes the integer samples these produce as inputs; the tests feed
// it the real thing.

fn get_new_moon_day(k_int: i32, time_zone: f64) -> i32 {
    const DR: f64 = std::f64::consts::PI / 180.0;
    let k = k_int as f64;
    let t = k / 1236.85;
    let t2 = t * t;
    let t3 = t2 * t;

    let jd1 = 2415020.75933 + 29.53058868 * k + 0.0001178 * t2 - 0.000000155 * t3;
    let jd1 = jd1 + 0.00033 * f64::sin(166.56 + 132.87 * t - 0.009173 * t2) * DR;

    let m = 359.2242 + 29.10535608 * k - 0.0000333 * t2 - 0.00000347 * t3;
    let mpr = 306.0253 + 385.81691806 * k + 0.0107306 * t2 + 0.00001236 * t3;
    let f = 21.2964 + 390.67050646 * k - 0.0016528 * t2 - 0.00000239 * t3;

    let c1 = (0.1734 - 0.000393 * t) * f64::sin(m * DR) + 0.0021 * f64::sin(2.0 * DR * m);
    let c1 = c1 - 0.4068 * f64::sin(mpr * DR) + 0.0161 * f64::sin(DR * 2.0 * mpr);
    let c1 = c1 - 0.0004 * f64::sin(DR * 3.0 * mpr);
    let c1 = c1 + 0.0104 * f64::sin(DR * 2.0 * f) - 0.0051 * f64::sin(DR * (m + mpr));
    let c1 = c1 - 0.0074 * f64::sin(DR * (m - mpr)) + 0.0004 * f64::sin(DR * (2.0 * f + m));
    let c1 = c1 - 0.0004 * f64::sin(DR * (2.0 * f - m)) - 0.0006 * f64::sin(DR * (2.0 * f + mpr));
    let c1 =
        c1 + 0.0010 * f64::sin(DR * (2.0 * f - mpr)) + 0.0005 * f64::sin(DR * (2.0 * mpr + m));

    let deltat = if t < -11.0 {
        0.001 + 0.000839 * t + 0.0002261 * t2 - 0.00000845 * t3 - 0.000000081 * t * t3
    } else {
        -0.000278 + 0.000265 * t + 0.000262 * t2
    };

    let jd_new = jd1 + c1 - deltat;

    (jd_new + 0.5 + time_zone / 24_f64) as i32
}

fn get_sun_longitude(jdn: f64, time_zone: f64) -> f64 {
    const DR: f64 = std::f64::consts::PI / 180.0;

    let t = (jdn - 2451545.5 - time_zone / 24.0) / 36525.0;
    let t2 = t * t;

    let m = 357.52910 + 35999.05030 * t - 0.0001559 * t2 - 0.00000048 * t * t2;
    let l0 = 280.46645 + 36000.76983 * t + 0.0003032 * t2;

    let dl = (1.914600 - 0.004817 * t - 0.000014 * t2) * f64::sin(DR * m);
    let dl = dl
        + (0.019993 - 0.000101 * t) * f64::sin(DR * 2.0 * m)
        + 0.000290 * f64::sin(DR * 3.0 * m);

    let l = l0 + dl;
    let l = l * DR;
    let l = l - std::f64::consts::PI * 2.0 * ((l / (std::f64::consts::PI * 2.0)).floor());

    l / std::f64::consts::PI * 6.0
}

fn month11_samples(yy: i32, time_zone: f64) -> Month11Samples {
    let off = NaiveLunisolarDateTime::jd_from_date(31, 12, yy) as f64 - 2415021_f64;
    let k = (off / 29.530588853) as i32;
    let nm = get_new_moon_day(k, time_zone);
    let sector = get_sun_longitude(nm as f64, time_zone) as i32;
    Month11Samples {
        new_moon: nm,
        sun_sector: sector,
        new_moon_prev: get_new_moon_day(k - 1, time_zone),
    }
}

fn anchor_lunation(a11: i32) -> i32 {
    ((a11 as f64 - 2415021.076998695) / 29.530588853 + 0.5) as i32
}

fn leap_sectors(a11: i32, time_zone: f64) -> Vec<i32> {
    let k = anchor_lunation(a11);
    let mut sectors = Vec::new();
    for i in 1..=14 {
        let nm = get_new_moon_day(k + i, time_zone);
        sectors.push(get_sun_longitude(nm as f64, time_zone) as i32);
    }
    sectors
}

fn new_moons_from(a11: i32, time_zone: f64) -> Vec<i32> {
    let k = anchor_lunation(a11);
    let mut moons = Vec::new();
    for i in 0..=12 {
        moons.push(get_new_moon_day(k + i, time_zone));
    }
    moons
}

fn forward_samples(dd: u32, mm: u32, yy: i32, time_zone: f64) -> SolarToLunisolarSamples {
    let day_number = NaiveLunisolarDateTime::jd_from_date(dd, mm, yy);
    let k = ((day_number as f64 - 2415021.076998695) / 29.530588853) as i32;
    let m11_prev = month11_samples(yy - 1, time_zone);
    let m11_cur = month11_samples(yy, time_zone);
    let m11_next = month11_samples(yy + 1, time_zone);
    let a11_prev = NaiveLunisolarDateTime::get_lunisolar_month_11(&m11_prev);
    let a11_cur = NaiveLunisolarDateTime::get_lunisolar_month_11(&m11_cur);
    SolarToLunisolarSamples {
        new_moon: get_new_moon_day(k, time_zone),
        new_moon_next: get_new_moon_day(k + 1, time_zone),
        month11_prev_year: m11_prev,
        month11_year: m11_cur,
        month11_next_year: m11_next,
        leap_sectors_prev_year: leap_sectors(a11_prev, time_zone),
        leap_sectors_year: leap_sectors(a11_cur, time_zone),
    }
}

fn reverse_samples(ly: i32, time_zone: f64) -> LunisolarToSolarSamples {
    let m11_prev = month11_samples(ly - 1, time_zone);
    let m11_cur = month11_samples(ly, time_zone);
    let a11_prev = NaiveLunisolarDateTime::get_lunisolar_month_11(&m11_prev);
    let a11_cur = NaiveLunisolarDateTime::get_lunisolar_month_11(&m11_cur);
    LunisolarToSolarSamples {
        leap_sectors_prev_year: leap_sectors(a11_prev, time_zone),
        leap_sectors_year: leap_sectors(a11_cur, time_zone),
        new_moons_prev_year: new_moons_from(a11_prev, time_zone),
        new_moons_year: new_moons_from(a11_cur, time_zone),
    }
}

fn solar_to_lunisolar(dd: u32, mm: u32, yy: i32, tz: i32) -> Result<(u32, u32, bool, i32), LunisolarError> {
    let samples = if (1900..=2100).contains(&yy) {
        forward_samples(dd, mm, yy, tz as f64)
    } else {
        SolarToLunisolarSamples {
            new_moon: 2_000_000,
            new_moon_next: 2_000_000,
            month11_prev_year: Month11Samples { new_moon: 2_000_000, sun_sector: 0, new_moon_prev: 2_000_000 },
            month11_year: Month11Samples { new_moon: 2_000_000, sun_sector: 0, new_moon_prev: 2_000_000 },
            month11_next_year: Month11Samples { new_moon: 2_000_000, sun_sector: 0, new_moon_prev: 2_000_000 },
            leap_sectors_prev_year: vec![0; 14],
            leap_sectors_year: vec![0; 14],
        }
    };
    NaiveLunisolarDateTime::convert_solar_to_lunisolar(dd, mm, yy, &samples)
}

fn lunisolar_to_solar(
    ld: u32,
    lm: u32,
    ly: i32,
    leap: bool,
    tz: i32,
) -> Result<(u32, u32, i32), LunisolarError> {
    let samples = reverse_samples(ly, tz as f64);
    NaiveLunisolarDateTime::convert_lunisolar_to_solar(ld, lm, ly, leap, &samples)
}

#[test]
fn test_jd_of_known_dates() {
    assert_eq!(NaiveLunisolarDateTime::jd_from_date(1, 1, 2000), 2451545);
    assert_eq!(NaiveLunisolarDateTime::jd_from_date(1, 1, 1900), 2415021);
    // The Gregorian cutover: October 15, 1582 follows October 4, 1582.
    assert_eq!(NaiveLunisolarDateTime::jd_from_date(15, 10, 1582), 2299161);
    assert_eq!(NaiveLunisolarDateTime::jd_from_date(4, 10, 1582), 2299160);
}

#[test]
fn test_jd_round_trips() {
    assert_eq!(NaiveLunisolarDateTime::jd_to_date(2451545), (1, 1, 2000));
    assert_eq!(NaiveLunisolarDateTime::jd_to_date(2299161), (15, 10, 1582));
    assert_eq!(NaiveLunisolarDateTime::jd_to_date(2299160), (4, 10, 1582));
    let jd = NaiveLunisolarDateTime::jd_from_date(9, 1, 2011);
    assert_eq!(NaiveLunisolarDateTime::jd_to_date(jd), (9, 1, 2011));
}

#[test]
fn test_solar_to_lunisolar_fixtures() {
    assert_eq!(solar_to_lunisolar(9, 1, 2011, 7), Ok((6, 12, false, 2010)));
    assert_eq!(solar_to_lunisolar(3, 9, 1925, 7), Ok((16, 7, false, 1925)));
    assert_eq!(solar_to_lunisolar(16, 4, 1964, 7), Ok((5, 3, false, 1964)));
}

#[test]
fn test_timezone_shifts_month_boundary() {
    assert_eq!(solar_to_lunisolar(17, 2, 2007, 7), Ok((1, 1, false, 2007)));
    assert_eq!(solar_to_lunisolar(17, 2, 2007, 8), Ok((30, 12, false, 2006)));
}

#[test]
fn test_year_below_range_is_out_of_range() {
    assert_eq!(solar_to_lunisolar(2, 3, 1890, 7), Err(LunisolarError::OutOfRange));
}

#[test]
fn test_year_above_range_is_out_of_range() {
    assert_eq!(solar_to_lunisolar(1, 1, 2101, 7), Err(LunisolarError::OutOfRange));
}

#[test]
fn test_round_trip_non_leap() {
    for &(dd, mm, yy) in &[(9u32, 1u32, 2011i32), (3, 9, 1925), (16, 4, 1964), (17, 2, 2007)] {
        let (ld, lm, leap, ly) = solar_to_lunisolar(dd, mm, yy, 7).unwrap();
        assert!(!leap);
        assert_eq!(lunisolar_to_solar(ld, lm, ly, false, 7), Ok((dd, mm, yy)));
    }
}

#[test]
fn test_round_trip_late_months() {
    // Dates in lunisolar months 11 and 12 that fall well past the year's
    // first month-11 anchor.
    for &(dd, mm, yy) in &[(1u32, 12u32, 2033i32), (5, 1, 2034), (1, 12, 2010)] {
        let (ld, lm, leap, ly) = solar_to_lunisolar(dd, mm, yy, 7).unwrap();
        if !leap {
            assert_eq!(lunisolar_to_solar(ld, lm, ly, false, 7), Ok((dd, mm, yy)));
        }
    }
}

#[test]
fn test_leap_month_detection_and_round_trip() {
    // The lunisolar year 2004 contains a leap second month.
    let (ld, lm, leap, ly) = solar_to_lunisolar(1, 4, 2004, 7).unwrap();
    assert!(leap);
    assert_eq!(lm, 2);
    assert_eq!(ly, 2004);
    assert_eq!(lunisolar_to_solar(ld, lm, ly, true, 7), Ok((1, 4, 2004)));
}

#[test]
fn test_wrong_leap_flag_is_not_representable() {
    // The leap month of lunisolar year 2004 is the second month, so a query
    // naming a leap fifth month has no solar date.
    assert_eq!(
        lunisolar_to_solar(1, 5, 2004, true, 7),
        Err(LunisolarError::NotRepresentable)
    );
}

#[test]
fn test_new_from_parts_carries_time_of_day() {
    let samples = forward_samples(9, 1, 2011, 7.0);
    let v = NaiveLunisolarDateTime::new_from_parts(10, 25, 9, 1, 2011, &samples).unwrap();
    assert_eq!(v.hour_lunisolar, 10);
    assert_eq!(v.minute_lunisolar, 25);
    assert_eq!(v.day_lunisolar, 6);
    assert_eq!(v.month_lunisolar, 12);
    assert_eq!(v.year_lunisolar, 2010);
}

#[test]
fn test_fixture_year_and_month_labels() {
    // 2011-01-09 falls in lunisolar (12, 2010): year label Canh/Tiger,
    // month label Ky/Buffalo.
    let (_, lm, _, ly) = solar_to_lunisolar(9, 1, 2011, 7).unwrap();
    assert_eq!(HeavenlyStem::lunar_y_from_lunisolar_y(ly as u32), HeavenlyStem::HS_CANH);
    assert_eq!(
        EarthlyBranch::lunar_y_from_lunisolar_y(ly as u32).as_zodiac(),
        lunisolar::zodiac_and_element::Zodiac::Tiger
    );
    assert_eq!(
        HeavenlyStem::lunar_m_from_lunisolar_ym(lm, ly as u32),
        HeavenlyStem::HS_KY
    );
    assert_eq!(EarthlyBranch::lunar_m_from_lunisolar_m(lm), EarthlyBranch::EB_BUFFALO);
}

