use lunisolar::lunar_datetime::{EarthlyBranch, HeavenlyStem, LunarFormat};
use lunisolar::zodiac_and_element::{Element, YinYang, Zodiac};

#[test]
fn test_cal_year_from_lunisolar_y() {
    assert_eq!(HeavenlyStem::lunar_y_from_lunisolar_y(1996), HeavenlyStem::HS3);
    assert_eq!(EarthlyBranch::lunar_y_from_lunisolar_y(1996), EarthlyBranch::EB1)
}

#[test]
fn test_cal_month_from_lunisolar_ym() {
    assert_eq!(HeavenlyStem::lunar_m_from_lunisolar_ym(3, 1996), HeavenlyStem::HS9);
    assert_eq!(EarthlyBranch::lunar_m_from_lunisolar_m(3), EarthlyBranch::EB5);
}

#[test]
fn test_cal_date_from_gregorian_ymd() {
    assert_eq!(HeavenlyStem::lunar_d_from_gregorian_ymd(1, 1, 1900), HeavenlyStem::HS1);
    assert_eq!(HeavenlyStem::lunar_d_from_gregorian_ymd(2, 1, 1950), HeavenlyStem::HS4);
    assert_eq!(HeavenlyStem::lunar_d_from_gregorian_ymd(21, 4, 1996), HeavenlyStem::HS5);
    assert_eq!(EarthlyBranch::lunar_d_from_gregorian_ymd(21, 4, 1996), EarthlyBranch::EB1);
}

#[test]
fn test_cal_time_from_gregorian_hymd() {
    assert_eq!(HeavenlyStem::lunar_h_from_gregorian_hymd(3, 21, 4, 1996), HeavenlyStem::HS1);
    assert_eq!(HeavenlyStem::lunar_h_from_gregorian_hymd(10, 9, 11, 1999), HeavenlyStem::HS8);
    assert_eq!(EarthlyBranch::lunar_h_from_gregorian_h(10), EarthlyBranch::EB6);
}

#[test]
fn test_day_branch_of_epoch() {
    // 1900-01-01 is day zero, so its branch ordinal is (0 + 10) mod 12.
    let b = EarthlyBranch::lunar_d_from_gregorian_ymd(1, 1, 1900);
    assert_eq!(b.to_numeric(), 10);
    assert_eq!(b, EarthlyBranch::EB11);
}

#[test]
fn test_hour_23_and_0_share_a_branch() {
    assert_eq!(
        EarthlyBranch::lunar_h_from_gregorian_h(23),
        EarthlyBranch::lunar_h_from_gregorian_h(0)
    );
    assert_eq!(EarthlyBranch::lunar_h_from_gregorian_h(0), EarthlyBranch::EB1);
}

#[test]
fn test_stem_ordinal_cycle_closure() {
    for num in 0..100u32 {
        let s = HeavenlyStem::from_numeric(num);
        assert!(s.to_numeric() <= 9);
        assert_eq!(s.to_numeric(), num % 10);
    }
}

#[test]
fn test_branch_ordinal_cycle_closure() {
    for num in 0..100u32 {
        let b = EarthlyBranch::from_numeric(num);
        assert!(b.to_numeric() <= 11);
        assert_eq!(b.to_numeric(), num % 12);
    }
}

#[test]
fn test_from_to_numeric_round_trip() {
    for num in 0..10u32 {
        assert_eq!(HeavenlyStem::from_numeric(num).to_numeric(), num);
    }
    for num in 0..12u32 {
        assert_eq!(EarthlyBranch::from_numeric(num).to_numeric(), num);
    }
}

#[test]
fn test_stem_yinyang_elem() {
    assert_eq!(HeavenlyStem::HS1.get_yinyang_elem(), (Element::Wood, YinYang::Yang));
    assert_eq!(HeavenlyStem::HS6.get_yinyang_elem(), (Element::Earth, YinYang::Yin));
    assert_eq!(HeavenlyStem::HS10.get_yinyang_elem(), (Element::Water, YinYang::Yin));
}

#[test]
fn test_branch_yinyang_elem() {
    assert_eq!(EarthlyBranch::EB1.get_yinyang_elem(), (Element::Water, YinYang::Yang));
    assert_eq!(EarthlyBranch::EB7.get_yinyang_elem(), (Element::Fire, YinYang::Yang));
    assert_eq!(EarthlyBranch::EB12.get_yinyang_elem(), (Element::Water, YinYang::Yin));
}

#[test]
fn test_zodiac_round_trip() {
    let branches = vec![
        EarthlyBranch::EB1,
        EarthlyBranch::EB2,
        EarthlyBranch::EB3,
        EarthlyBranch::EB4,
        EarthlyBranch::EB5,
        EarthlyBranch::EB6,
        EarthlyBranch::EB7,
        EarthlyBranch::EB8,
        EarthlyBranch::EB9,
        EarthlyBranch::EB10,
        EarthlyBranch::EB11,
        EarthlyBranch::EB12,
    ];
    for b in branches {
        assert_eq!(b.as_zodiac().as_zodiac(), b);
    }
    assert_eq!(EarthlyBranch::EB3.as_zodiac(), Zodiac::Tiger);
    assert_eq!(Zodiac::Pig.as_zodiac(), EarthlyBranch::EB12);
}

#[test]
fn test_localized_names() {
    assert_eq!(HeavenlyStem::HS_CANH, HeavenlyStem::HS7);
    assert_eq!(EarthlyBranch::EB_TIGER, EarthlyBranch::EB3);
    let f = LunarFormat::new(HeavenlyStem::HS_KY, EarthlyBranch::EB_BUFFALO);
    assert_eq!(f.stem, HeavenlyStem::HS6);
    assert_eq!(f.branch, EarthlyBranch::EB2);
}
