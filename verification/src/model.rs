//! The immutable board and card data, the players, and the situation
//! discriminator of the turn state machine.
use vstd::prelude::*;

use crate::text::str_eq;
use crate::tickets::TicketCount;

verus! {

/// One board tile: immutable after construction.
#[derive(Clone, Debug)]
pub struct Tile {
    pub name: String,
    pub tile_type: String,
    pub price: i64,
    pub amount: i64,
    pub is_coastal: bool,
    pub is_megacity: bool,
}

/// The closed set of tile type tags the engine dispatches on; every other
/// tag falls under `Other`.
#[derive(Clone, Copy, Debug, PartialEq, Eq, Structural)]
pub enum TileKind {
    Property,
    Tax,
    Jail,
    Hospital,
    University,
    Infrastructure,
    LuckTest,
    IndustrialComplex,
    Other,
}

/// The kind a type tag denotes.
pub open spec fn spec_kind_of(s: Seq<char>) -> TileKind {
    if s == "Property"@ {
        TileKind::Property
    } else if s == "Tax"@ {
        TileKind::Tax
    } else if s == "Jail"@ {
        TileKind::Jail
    } else if s == "Hospital"@ {
        TileKind::Hospital
    } else if s == "University"@ {
        TileKind::University
    } else if s == "Infrastructure"@ {
        TileKind::Infrastructure
    } else if s == "LuckTest"@ {
        TileKind::LuckTest
    } else if s == "IndustrialComplex"@ {
        TileKind::IndustrialComplex
    } else {
        TileKind::Other
    }
}

impl Tile {
    /// The kind of this tile's type tag.
    pub fn kind(&self) -> (r: TileKind)
        ensures
            r == spec_kind_of(self.tile_type@),
    {
        let t = self.tile_type.as_str();
        if str_eq(t, "Property") {
            TileKind::Property
        } else if str_eq(t, "Tax") {
            TileKind::Tax
        } else if str_eq(t, "Jail") {
            TileKind::Jail
        } else if str_eq(t, "Hospital") {
            TileKind::Hospital
        } else if str_eq(t, "University") {
            TileKind::University
        } else if str_eq(t, "Infrastructure") {
            TileKind::Infrastructure
        } else if str_eq(t, "LuckTest") {
            TileKind::LuckTest
        } else if str_eq(t, "IndustrialComplex") {
            TileKind::IndustrialComplex
        } else {
            TileKind::Other
        }
    }
}

/// One chance card: immutable after construction, keyed by id in the
/// inventory.
#[derive(Clone, Debug)]
pub struct ChanceCard {
    pub title: String,
    pub descriptoin: String,
    pub instruction: String,
}

/// Education advances one step at a time and never goes back.
#[derive(Clone, Copy, Debug, PartialEq, Eq, Structural)]
pub enum EducationStatus {
    NotYet,
    Undergraduated,
    Graduated,
}

/// The next education status after one step of schooling (saturating at
/// `Graduated`).
pub open spec fn spec_educated(e: EducationStatus) -> EducationStatus {
    match e {
        EducationStatus::NotYet => EducationStatus::Undergraduated,
        EducationStatus::Undergraduated => EducationStatus::Graduated,
        EducationStatus::Graduated => EducationStatus::Graduated,
    }
}

impl EducationStatus {
    pub(crate) fn educate(&mut self)
        ensures
            *final(self) == spec_educated(*old(self)),
    {
        *self = match *self {
            EducationStatus::NotYet => EducationStatus::Undergraduated,
            EducationStatus::Undergraduated => EducationStatus::Graduated,
            EducationStatus::Graduated => EducationStatus::Graduated,
        };
    }
}

/// One outstanding loan: id, remaining principal, remaining term.
#[derive(Clone, Copy, Debug, PartialEq, Eq, Structural)]
pub struct Loan {
    pub id: u32,
    pub remaining: i64,
    pub term: u32,
}

/// One player: stable id, board position, signed money, loans, education,
/// completed cycles, remaining jail turns and ticket counters. The
/// next-loan-id counter only ever grows, so a loan id is never reused,
/// even after the loan that held it is fully repaid and purged.
#[derive(Clone, Debug)]
pub struct Player {
    pub id: u32,
    pub position: u32,
    pub money: i64,
    pub remaining_loans: Vec<Loan>,
    pub next_loan_id: u32,
    pub education_status: EducationStatus,
    pub cycles: u32,
    pub remaining_jail_turns: u32,
    pub tickets_count: TicketCount,
}

/// The state-machine discriminator: which operation may legally come next.
#[derive(Clone, Copy, Debug, PartialEq, Eq, Structural)]
pub enum GameSituation {
    InAction,
    PendingBuyResponse,
    PendingFinancialCrisisResponse,
    PendingRollResponse,
    PendingLuckTestResponse,
    PendingUseTicketResponse,
    PendingTryToJailbreakResponse,
    PendingGetRandomChanceCardResponse,
    PendingCheckChanceCardResponse,
    EndTurn,
    EndGame,
}

/// An ordered pair of dice; `(0, 0)` signals a replay with no physical
/// roll.
#[derive(Clone, Copy, Debug, PartialEq, Eq, Structural)]
pub struct DicePair(pub u16, pub u16);

impl DicePair {
    pub fn new(a: u16, b: u16) -> (r: Self)
        ensures
            r.0 == a && r.1 == b,
    {
        DicePair(a, b)
    }

    /// Doubles are equal values.
    pub fn is_double(&self) -> (r: bool)
        ensures
            r == (self.0 == self.1),
    {
        self.0 == self.1
    }

    /// Packs the pair into one 32-bit word: the first die in the upper
    /// half, the second in the lower.
    pub fn pack(&self) -> (r: u32)
        ensures
            r == (self.0 as u32) * 0x10000 + (self.1 as u32),
    {
        let a: u32 = self.0 as u32;
        let b: u32 = self.1 as u32;
        let r: u32 = (a << 16u32) | b;
        proof {
            assert(a <= 0xFFFF && b <= 0xFFFF ==> ((a << 16u32) | b) == a * 0x10000 + b)
                by (bit_vector);
        }
        r
    }

    /// Unpacks a 32-bit word packed by `pack`.
    pub fn unpack(v: u32) -> (r: Self)
        ensures
            r.0 == v / 0x10000,
            r.1 == v % 0x10000,
    {
        let hi: u32 = v >> 16u32;
        let lo: u32 = v & 0xFFFFu32;
        proof {
            assert(v >> 16u32 == v / 0x10000 && (v & 0xFFFFu32) == v % 0x10000 && v >> 16u32
                < 0x10000) by (bit_vector);
        }
        DicePair(hi as u16, lo as u16)
    }
}

/// A packed pair unpacks to itself.
pub proof fn lemma_dice_pack_round_trip(d: DicePair)
    ensures
        ((d.0 as u32) * 0x10000 + (d.1 as u32)) / 0x10000 == d.0,
        ((d.0 as u32) * 0x10000 + (d.1 as u32)) % 0x10000 == d.1,
{
    let v = (d.0 as u32) * 0x10000 + (d.1 as u32);
    assert(v / 0x10000 == d.0 && v % 0x10000 == d.1) by (nonlinear_arith)
        requires
            v == (d.0 as u32) * 0x10000 + (d.1 as u32),
            d.0 <= 0xFFFF,
            d.1 <= 0xFFFF,
    ;
}

} // verus!
