use wotm::ratio::Ratio;

#[test]
fn default_ratio_is_three_quarters() {
    assert_eq!(Ratio::default(), Ratio::ThreeQuarter);
}

#[test]
fn next_cycles_through_the_four_shares() {
    let mut ratio = Ratio::ThreeQuarter;
    ratio.next();
    assert_eq!(ratio, Ratio::Half);
    ratio.next();
    assert_eq!(ratio, Ratio::OneQuarter);
    ratio.next();
    assert_eq!(ratio, Ratio::All);
    ratio.next();
    assert_eq!(ratio, Ratio::ThreeQuarter);
}

#[test]
fn as_usize_counts_quarters() {
    assert_eq!(Ratio::All.as_usize(), 4);
    assert_eq!(Ratio::ThreeQuarter.as_usize(), 3);
    assert_eq!(Ratio::Half.as_usize(), 2);
    assert_eq!(Ratio::OneQuarter.as_usize(), 1);
}

#[test]
fn from_usize_reads_quarters_and_defaults_to_all() {
    assert_eq!(Ratio::from_usize(1), Ratio::OneQuarter);
    assert_eq!(Ratio::from_usize(2), Ratio::Half);
    assert_eq!(Ratio::from_usize(3), Ratio::ThreeQuarter);
    assert_eq!(Ratio::from_usize(4), Ratio::All);
    assert_eq!(Ratio::from_usize(0), Ratio::All);
    assert_eq!(Ratio::from_usize(17), Ratio::All);
}

#[test]
fn from_usize_undoes_as_usize() {
    for ratio in [Ratio::All, Ratio::ThreeQuarter, Ratio::Half, Ratio::OneQuarter] {
        assert_eq!(Ratio::from_usize(ratio.as_usize()), ratio);
    }
}

#[test]
fn share_of_nothing_is_nothing() {
    for ratio in [Ratio::All, Ratio::ThreeQuarter, Ratio::Half, Ratio::OneQuarter] {
        assert_eq!(ratio.of(0), 0);
    }
}

#[test]
fn share_of_one_ship_is_that_ship() {
    for ratio in [Ratio::All, Ratio::ThreeQuarter, Ratio::Half, Ratio::OneQuarter] {
        assert_eq!(ratio.of(1), 1);
    }
}

#[test]
fn share_rounds_down() {
    assert_eq!(Ratio::ThreeQuarter.of(3), 2);
    assert_eq!(Ratio::ThreeQuarter.of(4), 3);
    assert_eq!(Ratio::ThreeQuarter.of(10), 7);
    assert_eq!(Ratio::Half.of(3), 1);
    assert_eq!(Ratio::Half.of(10), 5);
    assert_eq!(Ratio::OneQuarter.of(3), 1);
    assert_eq!(Ratio::OneQuarter.of(7), 1);
    assert_eq!(Ratio::OneQuarter.of(8), 2);
    assert_eq!(Ratio::All.of(3), 3);
    assert_eq!(Ratio::All.of(10), 10);
}

#[test]
fn share_of_the_largest_fleet_does_not_overflow() {
    assert_eq!(Ratio::All.of(usize::MAX), usize::MAX);
    assert_eq!(Ratio::Half.of(usize::MAX), usize::MAX / 2);
    assert_eq!(Ratio::OneQuarter.of(usize::MAX), usize::MAX / 4);
    assert_eq!(Ratio::ThreeQuarter.of(usize::MAX), usize::MAX - usize::MAX / 4 - 1);
}

#[test]
fn share_grows_with_the_fleet_and_with_the_ratio() {
    for count in 0..200usize {
        assert!(Ratio::OneQuarter.of(count) <= Ratio::Half.of(count));
        assert!(Ratio::Half.of(count) <= Ratio::ThreeQuarter.of(count));
        assert!(Ratio::ThreeQuarter.of(count) <= Ratio::All.of(count));
        assert!(Ratio::ThreeQuarter.of(count) <= Ratio::ThreeQuarter.of(count + 1));
        assert!(Ratio::All.of(count) == count);
    }
}
