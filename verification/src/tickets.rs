//! The six independent, non-negative ticket counters. Counters combine by
//! saturating addition and floor-at-zero subtraction: a subtraction never
//! underflows.
use vstd::prelude::*;

use crate::num::{sat_add_u32, spec_sat_add_u32, spec_sub_floor_u32, sub_floor_u32};
use crate::text::str_eq;

verus! {

#[derive(Clone, Copy, Debug, PartialEq, Eq, Structural)]
pub struct TicketCount {
    pub free_hospital: u32,
    pub free_property: u32,
    pub double_lotto: u32,
    pub no_tax: u32,
    pub release_from_jail: u32,
    pub bonus: u32,
}

/// Field-wise saturating addition of two counters.
pub open spec fn spec_ticket_add(a: TicketCount, b: TicketCount) -> TicketCount {
    (TicketCount {
        free_hospital: spec_sat_add_u32(a.free_hospital as nat, b.free_hospital as nat) as u32,
        free_property: spec_sat_add_u32(a.free_property as nat, b.free_property as nat) as u32,
        double_lotto: spec_sat_add_u32(a.double_lotto as nat, b.double_lotto as nat) as u32,
        no_tax: spec_sat_add_u32(a.no_tax as nat, b.no_tax as nat) as u32,
        release_from_jail: spec_sat_add_u32(
            a.release_from_jail as nat,
            b.release_from_jail as nat,
        ) as u32,
        bonus: spec_sat_add_u32(a.bonus as nat, b.bonus as nat) as u32,
    })
}

/// Field-wise floor-at-zero subtraction of two counters.
pub open spec fn spec_ticket_sub(a: TicketCount, b: TicketCount) -> TicketCount {
    (TicketCount {
        free_hospital: spec_sub_floor_u32(a.free_hospital as nat, b.free_hospital as nat) as u32,
        free_property: spec_sub_floor_u32(a.free_property as nat, b.free_property as nat) as u32,
        double_lotto: spec_sub_floor_u32(a.double_lotto as nat, b.double_lotto as nat) as u32,
        no_tax: spec_sub_floor_u32(a.no_tax as nat, b.no_tax as nat) as u32,
        release_from_jail: spec_sub_floor_u32(
            a.release_from_jail as nat,
            b.release_from_jail as nat,
        ) as u32,
        bonus: spec_sub_floor_u32(a.bonus as nat, b.bonus as nat) as u32,
    })
}

pub open spec fn spec_ticket_zero() -> TicketCount {
    (TicketCount {
        free_hospital: 0,
        free_property: 0,
        double_lotto: 0,
        no_tax: 0,
        release_from_jail: 0,
        bonus: 0,
    })
}

/// The single-ticket counter a kind name denotes; an unknown kind denotes
/// the zero counter.
pub open spec fn spec_one_ticket(kind: Seq<char>) -> TicketCount {
    if kind == "FreeHospital"@ {
        (TicketCount { free_hospital: 1, ..spec_ticket_zero() })
    } else if kind == "FreeProperty"@ {
        (TicketCount { free_property: 1, ..spec_ticket_zero() })
    } else if kind == "DoubleLotto"@ {
        (TicketCount { double_lotto: 1, ..spec_ticket_zero() })
    } else if kind == "NoTax"@ {
        (TicketCount { no_tax: 1, ..spec_ticket_zero() })
    } else if kind == "ReleaseFromJail"@ {
        (TicketCount { release_from_jail: 1, ..spec_ticket_zero() })
    } else if kind == "Bonus"@ {
        (TicketCount { bonus: 1, ..spec_ticket_zero() })
    } else {
        spec_ticket_zero()
    }
}

impl TicketCount {
    pub fn zero() -> (r: Self)
        ensures
            r == spec_ticket_zero(),
    {
        TicketCount {
            free_hospital: 0,
            free_property: 0,
            double_lotto: 0,
            no_tax: 0,
            release_from_jail: 0,
            bonus: 0,
        }
    }

    /// A counter holding exactly one ticket of the named kind.
    pub fn get_one_ticket(kind: &str) -> (r: Self)
        ensures
            r == spec_one_ticket(kind@),
    {
        if str_eq(kind, "FreeHospital") {
            TicketCount { free_hospital: 1, ..TicketCount::zero() }
        } else if str_eq(kind, "FreeProperty") {
            TicketCount { free_property: 1, ..TicketCount::zero() }
        } else if str_eq(kind, "DoubleLotto") {
            TicketCount { double_lotto: 1, ..TicketCount::zero() }
        } else if str_eq(kind, "NoTax") {
            TicketCount { no_tax: 1, ..TicketCount::zero() }
        } else if str_eq(kind, "ReleaseFromJail") {
            TicketCount { release_from_jail: 1, ..TicketCount::zero() }
        } else if str_eq(kind, "Bonus") {
            TicketCount { bonus: 1, ..TicketCount::zero() }
        } else {
            TicketCount::zero()
        }
    }

    /// Saturating field-wise addition.
    pub fn saturating_add(self, rhs: Self) -> (r: Self)
        ensures
            r == spec_ticket_add(self, rhs),
    {
        TicketCount {
            free_hospital: sat_add_u32(self.free_hospital, rhs.free_hospital),
            free_property: sat_add_u32(self.free_property, rhs.free_property),
            double_lotto: sat_add_u32(self.double_lotto, rhs.double_lotto),
            no_tax: sat_add_u32(self.no_tax, rhs.no_tax),
            release_from_jail: sat_add_u32(self.release_from_jail, rhs.release_from_jail),
            bonus: sat_add_u32(self.bonus, rhs.bonus),
        }
    }

    /// Floor-at-zero field-wise subtraction: never underflows.
    pub fn floor_sub(self, rhs: Self) -> (r: Self)
        ensures
            r == spec_ticket_sub(self, rhs),
    {
        TicketCount {
            free_hospital: sub_floor_u32(self.free_hospital, rhs.free_hospital),
            free_property: sub_floor_u32(self.free_property, rhs.free_property),
            double_lotto: sub_floor_u32(self.double_lotto, rhs.double_lotto),
            no_tax: sub_floor_u32(self.no_tax, rhs.no_tax),
            release_from_jail: sub_floor_u32(self.release_from_jail, rhs.release_from_jail),
            bonus: sub_floor_u32(self.bonus, rhs.bonus),
        }
    }
}

/// Subtraction never underflows: every field of `a - b` is at most the
/// corresponding field of `a`, and it is `a - b` exactly where `b` fits.
pub proof fn lemma_ticket_sub_never_underflows(a: TicketCount, b: TicketCount)
    ensures
        spec_ticket_sub(a, b).free_hospital <= a.free_hospital,
        spec_ticket_sub(a, b).free_property <= a.free_property,
        spec_ticket_sub(a, b).double_lotto <= a.double_lotto,
        spec_ticket_sub(a, b).no_tax <= a.no_tax,
        spec_ticket_sub(a, b).release_from_jail <= a.release_from_jail,
        spec_ticket_sub(a, b).bonus <= a.bonus,
{
}

/// Round trip of the counter arithmetic: `(a + b) - b == a` exactly when
/// the addition saturated in no field, that is when `b` is at most `a + b`
/// component-wise.
pub proof fn lemma_ticket_add_sub_round_trip(a: TicketCount, b: TicketCount)
    ensures
        (spec_ticket_sub(spec_ticket_add(a, b), b) == a) <==> {
            &&& a.free_hospital + b.free_hospital <= u32::MAX
            &&& a.free_property + b.free_property <= u32::MAX
            &&& a.double_lotto + b.double_lotto <= u32::MAX
            &&& a.no_tax + b.no_tax <= u32::MAX
            &&& a.release_from_jail + b.release_from_jail <= u32::MAX
            &&& a.bonus + b.bonus <= u32::MAX
        },
{
    let s = spec_ticket_add(a, b);
    let d = spec_ticket_sub(s, b);
    if a.free_hospital + b.free_hospital <= u32::MAX && a.free_property + b.free_property
        <= u32::MAX && a.double_lotto + b.double_lotto <= u32::MAX && a.no_tax + b.no_tax
        <= u32::MAX && a.release_from_jail + b.release_from_jail <= u32::MAX && a.bonus + b.bonus
        <= u32::MAX {
        assert(d == a);
    } else {
        assert(d != a);
    }
}

} // verus!
