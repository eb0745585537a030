use boardgame_core::num::{round_to, sat_add_i64, sat_sub_i64, sub_floor_u32};
use boardgame_core::DicePair;
use boardgame_core::TicketCount;

fn counts(
    fh: u32,
    fp: u32,
    dl: u32,
    nt: u32,
    rj: u32,
    b: u32,
) -> TicketCount {
    TicketCount {
        free_hospital: fh,
        free_property: fp,
        double_lotto: dl,
        no_tax: nt,
        release_from_jail: rj,
        bonus: b,
    }
}

#[test]
fn zero_ticket_counter_is_all_zero() {
    let z = TicketCount::zero();
    assert_eq!(z, counts(0, 0, 0, 0, 0, 0));
}

#[test]
fn one_ticket_of_each_kind() {
    assert_eq!(TicketCount::get_one_ticket("FreeHospital"), counts(1, 0, 0, 0, 0, 0));
    assert_eq!(TicketCount::get_one_ticket("FreeProperty"), counts(0, 1, 0, 0, 0, 0));
    assert_eq!(TicketCount::get_one_ticket("DoubleLotto"), counts(0, 0, 1, 0, 0, 0));
    assert_eq!(TicketCount::get_one_ticket("NoTax"), counts(0, 0, 0, 1, 0, 0));
    assert_eq!(TicketCount::get_one_ticket("ReleaseFromJail"), counts(0, 0, 0, 0, 1, 0));
    assert_eq!(TicketCount::get_one_ticket("Bonus"), counts(0, 0, 0, 0, 0, 1));
    assert_eq!(TicketCount::get_one_ticket("SomethingElse"), TicketCount::zero());
}

#[test]
fn ticket_subtraction_never_underflows() {
    let a = counts(1, 0, 2, 0, 3, 0);
    let b = counts(5, 5, 1, 5, 5, 5);
    let d = a.floor_sub(b);
    assert_eq!(d, counts(0, 0, 1, 0, 0, 0));
}

#[test]
fn ticket_addition_saturates() {
    let a = counts(u32::MAX, 1, 0, 0, 0, 0);
    let b = counts(2, 1, 0, 0, 0, 0);
    let s = a.saturating_add(b);
    assert_eq!(s, counts(u32::MAX, 2, 0, 0, 0, 0));
}

#[test]
fn ticket_round_trip_holds_without_saturation() {
    let a = counts(1, 2, 3, 4, 5, 6);
    let b = counts(6, 5, 4, 3, 2, 1);
    assert_eq!(a.saturating_add(b).floor_sub(b), a);
}

#[test]
fn ticket_round_trip_fails_after_saturation() {
    let a = counts(u32::MAX, 0, 0, 0, 0, 0);
    let b = counts(1, 0, 0, 0, 0, 0);
    assert_ne!(a.saturating_add(b).floor_sub(b), a);
}

#[test]
fn saturating_money_arithmetic() {
    assert_eq!(sat_add_i64(1, 2), 3);
    assert_eq!(sat_add_i64(i64::MAX, 1), i64::MAX);
    assert_eq!(sat_sub_i64(i64::MIN, 1), i64::MIN);
    assert_eq!(sat_sub_i64(10, 4), 6);
    assert_eq!(sub_floor_u32(3, 5), 0);
    assert_eq!(sub_floor_u32(5, 3), 2);
}

#[test]
fn rounding_to_hundred_thousand() {
    assert_eq!(round_to(149999, 100000), 100000);
    assert_eq!(round_to(150000, 100000), 200000);
    assert_eq!(round_to(-150000, 100000), -100000);
    assert_eq!(round_to(0, 100000), 0);
}

#[test]
fn dice_pair_packs_and_unpacks() {
    let d = DicePair::new(3, 5);
    assert!(!d.is_double());
    assert!(DicePair::new(4, 4).is_double());
    let packed = d.pack();
    assert_eq!(packed, 3 * 65536 + 5);
    let back = DicePair::unpack(packed);
    assert_eq!(back, d);
}
