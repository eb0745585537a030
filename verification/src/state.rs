//! The mutable game state: players, the ownership table, counters and the
//! append-only log, with the invariants the engine maintains — building
//! amounts bounded by the MAX_BUILDINGS constant, positions on the board,
//! and one ownership entry per tile.
use vstd::prelude::*;

use crate::model::{spec_kind_of, ChanceCard, Loan, Player, Tile, TileKind};
use crate::num::{
    sat_add_i64, sat_sub_i64, spec_sat_add_i64, spec_sat_sub_i64,
};
use crate::text::str_eq;
use crate::tickets::TicketCount;

verus! {

/// One ownership entry: the board index of the property, its owner's
/// player id, and the building amount.
#[derive(Clone, Copy, Debug, PartialEq, Eq, Structural)]
pub struct Ownership {
    pub tile: usize,
    pub owner: u32,
    pub amount: u32,
}

#[derive(Clone, Debug)]
pub struct GameState {
    pub board: Vec<Tile>,
    pub chance_cards_inventory: Vec<(String, ChanceCard)>,
    pub players: Vec<Player>,
    pub properties: Vec<Ownership>,
    pub log: Vec<String>,
    pub current_turn_idx: usize,
    pub government_income: i64,
    pub dice_double: bool,
    pub pandemic_counter: usize,
    pub catastrophe_counter: usize,
    pub consts: Vec<(String, u32)>,
    pub pending_ticket: TicketCount,
    pub luck_test_cache: i64,
}

/// The effective MAX_BUILDINGS constant: the first entry under that key if
/// it is positive, else 1.
pub open spec fn spec_max_buildings(consts: Seq<(String, u32)>) -> u32
    decreases consts.len(),
{
    if consts.len() == 0 {
        1u32
    } else if consts[0].0@ == "MAX_BUILDINGS"@ {
        if consts[0].1 > 0 {
            consts[0].1
        } else {
            1u32
        }
    } else {
        spec_max_buildings(consts.skip(1))
    }
}

/// The ownership entries that survive garbage collection: exactly those
/// with a non-zero building amount, in order.
pub open spec fn spec_nonzero_entries(s: Seq<Ownership>) -> Seq<Ownership>
    decreases s.len(),
{
    if s.len() == 0 {
        Seq::empty()
    } else {
        let rest = spec_nonzero_entries(s.drop_last());
        if s.last().amount != 0 {
            rest.push(s.last())
        } else {
            rest
        }
    }
}


/// Garbage collection removes exactly the zero-amount entries: every
/// surviving entry has buildings, and every entry with buildings
/// survives.
pub proof fn lemma_gc_removes_exactly_zero(s: Seq<Ownership>)
    ensures
        forall|k: int|
            0 <= k < spec_nonzero_entries(s).len() ==> (#[trigger] spec_nonzero_entries(
                s,
            )[k]).amount != 0,
        forall|j: int|
            0 <= j < s.len() && (#[trigger] s[j]).amount != 0 ==> exists|k: int|
                0 <= k < spec_nonzero_entries(s).len() && spec_nonzero_entries(s)[k] == s[j],
    decreases s.len(),
{
    if s.len() > 0 {
        lemma_gc_removes_exactly_zero(s.drop_last());
        let rest = spec_nonzero_entries(s.drop_last());
        assert forall|j: int| 0 <= j < s.len() && (#[trigger] s[j]).amount != 0 implies exists|
            k: int,
        | 0 <= k < spec_nonzero_entries(s).len() && spec_nonzero_entries(s)[k] == s[j] by {
            if j < s.len() - 1 {
                assert(s.drop_last()[j] == s[j]);
                let k = choose|k: int| 0 <= k < rest.len() && rest[k] == s.drop_last()[j];
                assert(spec_nonzero_entries(s)[k] == s[j]);
            } else {
                assert(spec_nonzero_entries(s)[spec_nonzero_entries(s).len() - 1] == s[j]);
            }
        }
    }
}

/// The first index in `[from, players.len())` of a player with the given
/// id.
pub open spec fn spec_first_player(players: Seq<Player>, pid: u32, from: int) -> Option<int>
    decreases players.len() - from,
{
    if from < 0 || from >= players.len() {
        None
    } else if players[from].id == pid {
        Some(from)
    } else {
        spec_first_player(players, pid, from + 1)
    }
}

/// The first index in `[from, entries.len())` of an entry for the given
/// board tile.
pub open spec fn spec_first_entry(entries: Seq<Ownership>, tile: int, from: int) -> Option<int>
    decreases entries.len() - from,
{
    if from < 0 || from >= entries.len() {
        None
    } else if entries[from].tile == tile {
        Some(from)
    } else {
        spec_first_entry(entries, tile, from + 1)
    }
}


/// The effective MAX_BUILDINGS constant is at least 1.
pub proof fn lemma_max_buildings_pos(consts: Seq<(String, u32)>)
    ensures
        spec_max_buildings(consts) >= 1,
    decreases consts.len(),
{
    if consts.len() > 0 && !(consts[0].0@ == "MAX_BUILDINGS"@) {
        lemma_max_buildings_pos(consts.skip(1));
    }
}

/// When no entry for a tile is found, no entry of the suffix has it.
pub proof fn lemma_first_entry_none(entries: Seq<Ownership>, tile: int, from: int)
    requires
        0 <= from,
        spec_first_entry(entries, tile, from) is None,
    ensures
        forall|k: int| from <= k < entries.len() ==> (#[trigger] entries[k]).tile != tile,
    decreases entries.len() - from,
{
    if from < entries.len() {
        lemma_first_entry_none(entries, tile, from + 1);
    }
}

/// Fields of two states other than the ownership table are equal.
pub open spec fn only_properties_changed(pre: GameState, post: GameState) -> bool {
    &&& post.board == pre.board
    &&& post.chance_cards_inventory == pre.chance_cards_inventory
    &&& post.players == pre.players
    &&& post.log == pre.log
    &&& post.current_turn_idx == pre.current_turn_idx
    &&& post.government_income == pre.government_income
    &&& post.dice_double == pre.dice_double
    &&& post.pandemic_counter == pre.pandemic_counter
    &&& post.catastrophe_counter == pre.catastrophe_counter
    &&& post.consts == pre.consts
    &&& post.pending_ticket == pre.pending_ticket
    &&& post.luck_test_cache == pre.luck_test_cache
}

/// Fields of two states other than the players are equal.
pub open spec fn only_players_changed(pre: GameState, post: GameState) -> bool {
    &&& post.board == pre.board
    &&& post.chance_cards_inventory == pre.chance_cards_inventory
    &&& post.properties == pre.properties
    &&& post.log == pre.log
    &&& post.current_turn_idx == pre.current_turn_idx
    &&& post.government_income == pre.government_income
    &&& post.dice_double == pre.dice_double
    &&& post.pandemic_counter == pre.pandemic_counter
    &&& post.catastrophe_counter == pre.catastrophe_counter
    &&& post.consts == pre.consts
    &&& post.pending_ticket == pre.pending_ticket
    &&& post.luck_test_cache == pre.luck_test_cache
}

/// All fields of two players except the ledger — the loans, the money and
/// the next-loan-id counter — are equal.
pub open spec fn player_same_but_ledger(a: Player, b: Player) -> bool {
    &&& b.id == a.id
    &&& b.position == a.position
    &&& b.education_status == a.education_status
    &&& b.cycles == a.cycles
    &&& b.remaining_jail_turns == a.remaining_jail_turns
    &&& b.tickets_count == a.tickets_count
}


/// All fields of two players except the money are equal.
pub open spec fn player_same_but_money(a: Player, b: Player) -> bool {
    &&& b.next_loan_id == a.next_loan_id
    &&& b.id == a.id
    &&& b.position == a.position
    &&& b.remaining_loans == a.remaining_loans
    &&& b.education_status == a.education_status
    &&& b.cycles == a.cycles
    &&& b.remaining_jail_turns == a.remaining_jail_turns
    &&& b.tickets_count == a.tickets_count
}

/// All fields of two players except the remaining jail turns are equal.
pub open spec fn player_same_but_jail(a: Player, b: Player) -> bool {
    &&& b.next_loan_id == a.next_loan_id
    &&& b.id == a.id
    &&& b.position == a.position
    &&& b.money == a.money
    &&& b.remaining_loans == a.remaining_loans
    &&& b.education_status == a.education_status
    &&& b.cycles == a.cycles
    &&& b.tickets_count == a.tickets_count
}

/// All fields of two players except money and jail turns are equal.
pub open spec fn player_same_but_money_jail(a: Player, b: Player) -> bool {
    &&& b.next_loan_id == a.next_loan_id
    &&& b.id == a.id
    &&& b.position == a.position
    &&& b.remaining_loans == a.remaining_loans
    &&& b.education_status == a.education_status
    &&& b.cycles == a.cycles
    &&& b.tickets_count == a.tickets_count
}

/// All fields of two players except the position are equal.
pub open spec fn player_same_but_position(a: Player, b: Player) -> bool {
    &&& b.next_loan_id == a.next_loan_id
    &&& b.id == a.id
    &&& b.money == a.money
    &&& b.remaining_loans == a.remaining_loans
    &&& b.education_status == a.education_status
    &&& b.cycles == a.cycles
    &&& b.remaining_jail_turns == a.remaining_jail_turns
    &&& b.tickets_count == a.tickets_count
}

/// All fields of two players except money and cycle count are equal.
pub open spec fn player_same_but_money_cycles(a: Player, b: Player) -> bool {
    &&& b.next_loan_id == a.next_loan_id
    &&& b.id == a.id
    &&& b.position == a.position
    &&& b.remaining_loans == a.remaining_loans
    &&& b.education_status == a.education_status
    &&& b.remaining_jail_turns == a.remaining_jail_turns
    &&& b.tickets_count == a.tickets_count
}

/// Every entry that survives the garbage collection stands somewhere in
/// the table before the collection.
pub proof fn lemma_nonzero_entries_membership(s: Seq<Ownership>)
    ensures
        forall|k: int|
            0 <= k < spec_nonzero_entries(s).len() ==> exists|j: int|
                0 <= j < s.len() && #[trigger] spec_nonzero_entries(s)[k] == s[j],
    decreases s.len(),
{
    if s.len() > 0 {
        lemma_nonzero_entries_membership(s.drop_last());
        assert forall|k: int| 0 <= k < spec_nonzero_entries(s).len() implies exists|j: int|
            0 <= j < s.len() && #[trigger] spec_nonzero_entries(s)[k] == s[j] by {
            let rest = spec_nonzero_entries(s.drop_last());
            if k < rest.len() {
                let j = choose|j: int| 0 <= j < s.drop_last().len() && rest[k] == s.drop_last()[j];
                assert(s.drop_last()[j] == s[j]);
                assert(spec_nonzero_entries(s)[k] == s[j]);
            } else {
                assert(spec_nonzero_entries(s)[k] == s.last());
                assert(spec_nonzero_entries(s)[k] == s[s.len() - 1]);
            }
        }
    }
}

/// Garbage collection keeps the table's pairwise tile distinctness.
pub proof fn lemma_nonzero_entries_distinct(s: Seq<Ownership>)
    requires
        forall|i: int, j: int|
            0 <= i < j < s.len() ==> (#[trigger] s[i]).tile != (#[trigger] s[j]).tile,
    ensures
        forall|i: int, j: int|
            0 <= i < j < spec_nonzero_entries(s).len() ==> (#[trigger] spec_nonzero_entries(
                s,
            )[i]).tile != (#[trigger] spec_nonzero_entries(s)[j]).tile,
    decreases s.len(),
{
    if s.len() > 0 {
        let rest = spec_nonzero_entries(s.drop_last());
        lemma_nonzero_entries_distinct(s.drop_last());
        lemma_nonzero_entries_membership(s.drop_last());
        assert forall|i: int, j: int|
            0 <= i < j < spec_nonzero_entries(s).len() implies (#[trigger] spec_nonzero_entries(
            s,
        )[i]).tile != (#[trigger] spec_nonzero_entries(s)[j]).tile by {
            if j < rest.len() {
            } else if s.last().amount != 0 && j == rest.len() {
                let m = choose|m: int|
                    0 <= m < s.drop_last().len() && rest[i] == s.drop_last()[m];
                assert(s[m] == s.drop_last()[m]);
                assert(s[m].tile != s[s.len() - 1].tile);
            }
        }
    }
}

/// The first index in `[from, loans.len())` of a loan with the given id
/// and positive remaining principal.
pub open spec fn spec_first_open_loan(loans: Seq<Loan>, lid: u32, from: int) -> Option<int>
    decreases loans.len() - from,
{
    if from < 0 || from >= loans.len() {
        None
    } else if loans[from].id == lid && loans[from].remaining > 0 {
        Some(from)
    } else {
        spec_first_open_loan(loans, lid, from + 1)
    }
}

/// The loans that survive the purge: exactly those with positive remaining
/// principal, in order.
pub open spec fn spec_open_loans(s: Seq<Loan>) -> Seq<Loan>
    decreases s.len(),
{
    if s.len() == 0 {
        Seq::empty()
    } else {
        let rest = spec_open_loans(s.drop_last());
        if s.last().remaining > 0 {
            rest.push(s.last())
        } else {
            rest
        }
    }
}


/// The full effect of `borrow_money` on the players. The fresh id comes
/// from the player's next-loan-id counter, which only ever grows, so it is
/// strictly greater than every id the player ever held — never reused,
/// even after a loan is fully repaid and purged.
pub open spec fn spec_borrow_rel(pre: GameState, post: GameState, pid: u32, amount: i64) -> bool {
    &&& only_players_changed(pre, post)
    &&& post.players@.len() == pre.players@.len()
    &&& match spec_first_player(pre.players@, pid, 0) {
        None => post.players@ == pre.players@,
        Some(i) => {
            let next = pre.players@[i].next_loan_id;
            if amount <= 0 || next == u32::MAX {
                post.players@ == pre.players@
            } else {
                &&& forall|k: int|
                    0 <= k < pre.players@.len() && k != i ==> post.players@[k] == pre.players@[k]
                &&& player_same_but_ledger(pre.players@[i], post.players@[i])
                &&& post.players@[i].remaining_loans@ == pre.players@[i].remaining_loans@.push(
                    (Loan { id: next, remaining: amount, term: 4u32 }),
                )
                &&& post.players@[i].money == spec_sat_add_i64(
                    pre.players@[i].money as int,
                    amount as int,
                )
                &&& post.players@[i].next_loan_id == next + 1
                &&& forall|k: int|
                    0 <= k < pre.players@[i].remaining_loans@.len() ==> (
                    #[trigger] pre.players@[i].remaining_loans@[k]).id < next
            }
        },
    }
}

/// The full effect of `repay_loan` on the players.
pub open spec fn spec_repay_rel(pre: GameState, post: GameState, pid: u32, lid: u32, amount: i64) -> bool {
    &&& only_players_changed(pre, post)
    &&& post.players@.len() == pre.players@.len()
    &&& match spec_first_player(pre.players@, pid, 0) {
        None => post.players@ == pre.players@,
        Some(i) => if amount <= 0 {
            post.players@ == pre.players@
        } else {
            &&& forall|k: int|
                0 <= k < pre.players@.len() && k != i ==> post.players@[k] == pre.players@[k]
            &&& player_same_but_ledger(pre.players@[i], post.players@[i])
            &&& post.players@[i].next_loan_id == pre.players@[i].next_loan_id
            &&& match spec_first_open_loan(pre.players@[i].remaining_loans@, lid, 0) {
                None => {
                    &&& post.players@[i].money == pre.players@[i].money
                    &&& post.players@[i].remaining_loans@ == spec_open_loans(
                        pre.players@[i].remaining_loans@,
                    )
                },
                Some(j) => {
                    let reduced = pre.players@[i].remaining_loans@.update(
                        j,
                        (Loan {
                            remaining: (pre.players@[i].remaining_loans@[j].remaining
                                - amount) as i64,
                            ..pre.players@[i].remaining_loans@[j]
                        }),
                    );
                    &&& post.players@[i].remaining_loans@ == spec_open_loans(reduced)
                    &&& post.players@[i].money == spec_sat_sub_i64(
                        spec_sat_sub_i64(pre.players@[i].money as int, amount as int),
                        amount as int / 10,
                    )
                },
            }
        },
    }
}


/// The purge keeps only loans from the ledger, so an id bound on the
/// ledger carries to the survivors.
pub proof fn lemma_open_loans_ids_bounded(s: Seq<Loan>, bound: u32)
    requires
        forall|k: int| 0 <= k < s.len() ==> (#[trigger] s[k]).id < bound,
    ensures
        forall|k: int|
            0 <= k < spec_open_loans(s).len() ==> (#[trigger] spec_open_loans(s)[k]).id < bound,
    decreases s.len(),
{
    if s.len() > 0 {
        assert(forall|k: int|
            0 <= k < s.drop_last().len() ==> (#[trigger] s.drop_last()[k]).id < bound);
        lemma_open_loans_ids_bounded(s.drop_last(), bound);
        assert(s.last() == s[s.len() - 1]);
        assert(s[s.len() - 1].id < bound);
        let rest = spec_open_loans(s.drop_last());
        assert forall|k: int|
            0 <= k < spec_open_loans(s).len() implies (#[trigger] spec_open_loans(s)[k]).id
            < bound by {
            if k < rest.len() {
                assert(spec_open_loans(s)[k] == rest[k]);
            }
        }
    }
}


/// The first-open-loan search returns an index into the ledger, pointing
/// at an open loan with the searched id.
pub proof fn lemma_first_open_loan_bounds(loans: Seq<Loan>, lid: u32, from: int)
    requires
        0 <= from,
    ensures
        match spec_first_open_loan(loans, lid, from) {
            Some(j) => from <= j < loans.len() && loans[j].id == lid && loans[j].remaining > 0,
            None => true,
        },
    decreases loans.len() - from,
{
    if from < loans.len() {
        lemma_first_open_loan_bounds(loans, lid, from + 1);
    }
}

/// The index of the first loan with the given id and positive remaining
/// principal, if there is one.
pub fn find_open_loan(loans: &Vec<Loan>, lid: u32) -> (r: Option<usize>)
    ensures
        match r {
            Some(u) => spec_first_open_loan(loans@, lid, 0) == Some(u as int) && u < loans@.len()
                && loans@[u as int].id == lid && loans@[u as int].remaining > 0,
            None => spec_first_open_loan(loans@, lid, 0) is None,
        },
{
    let len = loans.len();
    let mut i: usize = 0;
    while i < len
        invariant
            0 <= i <= len,
            len == loans@.len(),
            spec_first_open_loan(loans@, lid, 0) == spec_first_open_loan(loans@, lid, i as int),
        decreases len - i,
    {
        let l = loans[i];
        if l.id == lid && l.remaining > 0 {
            return Some(i);
        }
        i = i + 1;
    }
    None
}

impl GameState {
    /// The structural invariant the engine maintains: positions and
    /// ownership entries point into the board, the acting index points at
    /// a player, at most one entry per tile, and every building amount is
    /// within the MAX_BUILDINGS bound.
    pub open spec fn wf(self) -> bool {
        &&& 1 <= self.board@.len() <= u32::MAX
        &&& 1 <= self.players@.len() <= u32::MAX
        &&& self.current_turn_idx < self.players@.len()
        &&& forall|i: int|
            0 <= i < self.players@.len() ==> (#[trigger] self.players@[i]).position
                < self.board@.len()
        &&& forall|i: int|
            0 <= i < self.properties@.len() ==> (#[trigger] self.properties@[i]).tile
                < self.board@.len()
        &&& forall|i: int|
            0 <= i < self.properties@.len() ==> (#[trigger] self.properties@[i]).amount
                <= spec_max_buildings(self.consts@)
        &&& forall|i: int, j: int|
            0 <= i < j < self.properties@.len() ==> (#[trigger] self.properties@[i]).tile != (
            #[trigger] self.properties@[j]).tile
        &&& forall|i: int, k: int|
            0 <= i < self.players@.len() && 0 <= k < self.players@[i].remaining_loans@.len()
                ==> (#[trigger] self.players@[i].remaining_loans@[k]).id
                < self.players@[i].next_loan_id
    }

    /// The effective MAX_BUILDINGS constant of this state.
    pub fn max_buildings(&self) -> (r: u32)
        ensures
            r == spec_max_buildings(self.consts@),
    {
        let len = self.consts.len();
        let mut i: usize = 0;
        proof {
            assert(self.consts@.skip(0) =~= self.consts@);
        }
        while i < len
            invariant
                0 <= i <= len,
                len == self.consts@.len(),
                spec_max_buildings(self.consts@) == spec_max_buildings(self.consts@.skip(i as int)),
            decreases len - i,
        {
            proof {
                assert(self.consts@.skip(i as int)[0] == self.consts@[i as int]);
                assert(self.consts@.skip(i as int).skip(1) =~= self.consts@.skip(i + 1));
            }
            if str_eq(self.consts[i].0.as_str(), "MAX_BUILDINGS") {
                if self.consts[i].1 > 0 {
                    return self.consts[i].1;
                } else {
                    return 1;
                }
            }
            i = i + 1;
        }
        1
    }

    /// The index of the ownership entry for a board tile, if there is one.
    pub fn find_property(&self, tile: usize) -> (r: Option<usize>)
        ensures
            match r {
                Some(u) => spec_first_entry(self.properties@, tile as int, 0) == Some(u as int) && u
                    < self.properties@.len() && self.properties@[u as int].tile == tile,
                None => spec_first_entry(self.properties@, tile as int, 0) is None,
            },
    {
        let len = self.properties.len();
        let mut i: usize = 0;
        while i < len
            invariant
                0 <= i <= len,
                len == self.properties@.len(),
                spec_first_entry(self.properties@, tile as int, 0) == spec_first_entry(
                    self.properties@,
                    tile as int,
                    i as int,
                ),
            decreases len - i,
        {
            if self.properties[i].tile == tile {
                return Some(i);
            }
            i = i + 1;
        }
        None
    }

    /// The index of the first player with the given id, if there is one.
    pub fn find_player(&self, pid: u32) -> (r: Option<usize>)
        ensures
            match r {
                Some(u) => spec_first_player(self.players@, pid, 0) == Some(u as int) && u
                    < self.players@.len() && self.players@[u as int].id == pid,
                None => spec_first_player(self.players@, pid, 0) is None,
            },
    {
        let len = self.players.len();
        let mut i: usize = 0;
        while i < len
            invariant
                0 <= i <= len,
                len == self.players@.len(),
                spec_first_player(self.players@, pid, 0) == spec_first_player(
                    self.players@,
                    pid,
                    i as int,
                ),
            decreases len - i,
        {
            if self.players[i].id == pid {
                return Some(i);
            }
            i = i + 1;
        }
        None
    }

    /// End-of-turn garbage collection: removes exactly the zero-amount
    /// ownership entries and changes nothing else.
    pub fn garbage_collect(&mut self)
        ensures
            final(self).properties@ == spec_nonzero_entries(old(self).properties@),
            only_properties_changed(*old(self), *final(self)),
    {
        let len = self.properties.len();
        let mut out: Vec<Ownership> = Vec::new();
        let mut i: usize = 0;
        while i < len
            invariant
                0 <= i <= len,
                len == self.properties@.len(),
                out@ == spec_nonzero_entries(self.properties@.take(i as int)),
            decreases len - i,
        {
            proof {
                assert(self.properties@.take(i + 1).drop_last() =~= self.properties@.take(
                    i as int,
                ));
                assert(self.properties@.take(i + 1).last() == self.properties@[i as int]);
            }
            if self.properties[i].amount != 0 {
                out.push(self.properties[i]);
            }
            i = i + 1;
        }
        proof {
            assert(self.properties@.take(len as int) =~= self.properties@);
        }
        self.properties = out;
    }

    /// Appends a loan with a fresh id — the player's next-loan-id counter,
    /// which only ever grows, so an id is never reused even after a full
    /// repayment purges its loan — with a term of 4, and credits the
    /// amount. A non-positive amount, an unknown player id, or an
    /// exhausted id space leaves the state unchanged.
    pub fn borrow_money(&mut self, pid: u32, amount: i64)
        requires
            old(self).wf(),
        ensures
            spec_borrow_rel(*old(self), *final(self), pid, amount),
    {
        let idx = match self.find_player(pid) {
            Some(i) => i,
            None => {
                return ;
            },
        };
        if amount <= 0 {
            return ;
        }
        let next = self.players[idx].next_loan_id;
        if next == u32::MAX {
            return ;
        }
        self.players[idx].remaining_loans.push(Loan { id: next, remaining: amount, term: 4 });
        self.players[idx].next_loan_id = next + 1;
        let m = self.players[idx].money;
        self.players[idx].money = sat_add_i64(m, amount);
    }

    /// Repays toward the first open loan with the given id: reduces its
    /// remaining principal by the amount and debits the amount plus a 10%
    /// service charge, then purges every loan whose remaining principal is
    /// no longer positive. A non-positive amount or an unknown player id
    /// leaves the state unchanged; an unknown or closed loan id only
    /// purges.
    pub fn repay_loan(&mut self, pid: u32, lid: u32, amount: i64)
        ensures
            spec_repay_rel(*old(self), *final(self), pid, lid, amount),
    {
        let idx = match self.find_player(pid) {
            Some(i) => i,
            None => {
                return ;
            },
        };
        if amount <= 0 {
            return ;
        }
        if let Some(j) = find_open_loan(&self.players[idx].remaining_loans, lid) {
            let l = self.players[idx].remaining_loans[j];
            proof {
                // remaining > 0 and 0 < amount, so the difference stays in range
                assert(l.remaining - amount > i64::MIN as int);
            }
            self.players[idx].remaining_loans[j].remaining = l.remaining - amount;
            let m = self.players[idx].money;
            let m1 = sat_sub_i64(m, amount);
            self.players[idx].money = sat_sub_i64(m1, amount / 10);
        }
        // purge loans with no remaining principal
        let new_len = self.players[idx].remaining_loans.len();
        let mut out: Vec<Loan> = Vec::new();
        let mut k: usize = 0;
        while k < new_len
            invariant
                0 <= k <= new_len,
                idx < self.players@.len(),
                new_len == self.players@[idx as int].remaining_loans@.len(),
                out@ == spec_open_loans(self.players@[idx as int].remaining_loans@.take(k as int)),
            decreases new_len - k,
        {
            proof {
                let loans = self.players@[idx as int].remaining_loans@;
                assert(loans.take(k + 1).drop_last() =~= loans.take(k as int));
                assert(loans.take(k + 1).last() == loans[k as int]);
            }
            let l = self.players[idx].remaining_loans[k];
            if l.remaining > 0 {
                out.push(l);
            }
            k = k + 1;
        }
        proof {
            let loans = self.players@[idx as int].remaining_loans@;
            assert(loans.take(new_len as int) =~= loans);
        }
        self.players[idx].remaining_loans = out;
    }
}


/// How one ownership entry changes when all properties of two players
/// trade owners: entries with buildings owned by either player swap, all
/// others stay.
pub open spec fn spec_swapped_entry(o: Ownership, a: u32, b: u32) -> Ownership {
    if o.owner == a && o.amount > 0 {
        (Ownership { owner: b, ..o })
    } else if o.owner == b && o.amount > 0 {
        (Ownership { owner: a, ..o })
    } else {
        o
    }
}

/// The (name, amount) pairs of the entries owned by the player, in table
/// order.
pub open spec fn spec_owned_pairs(
    entries: Seq<Ownership>,
    board: Seq<Tile>,
    pid: u32,
) -> Seq<(Seq<char>, u32)>
    decreases entries.len(),
{
    if entries.len() == 0 {
        Seq::empty()
    } else {
        let rest = spec_owned_pairs(entries.drop_last(), board, pid);
        let e = entries.last();
        if e.owner == pid && e.tile < board.len() {
            rest.push((board[e.tile as int].name@, e.amount))
        } else {
            rest
        }
    }
}

/// The (name, amount) pairs of the entries not owned by the player, in
/// table order.
pub open spec fn spec_unowned_pairs(
    entries: Seq<Ownership>,
    board: Seq<Tile>,
    pid: u32,
) -> Seq<(Seq<char>, u32)>
    decreases entries.len(),
{
    if entries.len() == 0 {
        Seq::empty()
    } else {
        let rest = spec_unowned_pairs(entries.drop_last(), board, pid);
        let e = entries.last();
        if e.owner != pid && e.tile < board.len() {
            rest.push((board[e.tile as int].name@, e.amount))
        } else {
            rest
        }
    }
}

/// The building count over the player's Property-type holdings, summed
/// with saturation in the signed 64-bit range.
pub open spec fn spec_property_houses(entries: Seq<Ownership>, board: Seq<Tile>, pid: u32) -> int
    decreases entries.len(),
{
    if entries.len() == 0 {
        0
    } else {
        let rest = spec_property_houses(entries.drop_last(), board, pid);
        let e = entries.last();
        if e.owner == pid && e.tile < board.len() && spec_kind_of(board[e.tile as int].tile_type@)
            == TileKind::Property {
            crate::num::clamp_i64(rest + e.amount)
        } else {
            rest
        }
    }
}

impl GameState {
    /// Trades all built properties between two players: every entry with
    /// buildings owned by one of them gets the other as owner; everything
    /// else stays.
    pub fn swap_properties_between(&mut self, a_id: u32, b_id: u32)
        ensures
            only_properties_changed(*old(self), *final(self)),
            final(self).properties@.len() == old(self).properties@.len(),
            forall|k: int|
                0 <= k < old(self).properties@.len() ==> final(self).properties@[k]
                    == spec_swapped_entry(#[trigger] old(self).properties@[k], a_id, b_id),
    {
        let len = self.properties.len();
        let mut k: usize = 0;
        while k < len
            invariant
                0 <= k <= len,
                len == self.properties@.len(),
                only_properties_changed(*old(self), *self),
                forall|j: int|
                    0 <= j < k ==> self.properties@[j] == spec_swapped_entry(
                        #[trigger] old(self).properties@[j],
                        a_id,
                        b_id,
                    ),
                forall|j: int|
                    k <= j < len ==> #[trigger] self.properties@[j] == old(self).properties@[j],
            decreases len - k,
        {
            let e = self.properties[k];
            if e.owner == a_id && e.amount > 0 {
                self.properties[k].owner = b_id;
            } else if e.owner == b_id && e.amount > 0 {
                self.properties[k].owner = a_id;
            }
            k = k + 1;
        }
    }

    /// Swaps the owners of two ownership entries in place.
    pub fn swap_entry_owners(&mut self, gi: usize, ki: usize)
        requires
            gi < old(self).properties@.len(),
            ki < old(self).properties@.len(),
        ensures
            only_properties_changed(*old(self), *final(self)),
            final(self).properties@.len() == old(self).properties@.len(),
            forall|k: int|
                0 <= k < old(self).properties@.len() && k != gi && k != ki
                    ==> final(self).properties@[k] == old(self).properties@[k],
            final(self).properties@[gi as int] == (Ownership {
                owner: old(self).properties@[ki as int].owner,
                ..old(self).properties@[gi as int]
            }),
            gi != ki ==> final(self).properties@[ki as int] == (Ownership {
                owner: old(self).properties@[gi as int].owner,
                ..old(self).properties@[ki as int]
            }),
    {
        let go = self.properties[gi].owner;
        let ko = self.properties[ki].owner;
        self.properties[gi].owner = ko;
        self.properties[ki].owner = go;
    }

    /// Takes one building, floor zero, from every entry whose tile name is
    /// among the targets, regardless of owner.
    pub fn destruct_one_per_each(&mut self, targets: &Vec<String>)
        requires
            forall|k: int|
                0 <= k < old(self).properties@.len() ==> (#[trigger] old(self).properties@[k]).tile
                    < old(self).board@.len(),
        ensures
            only_properties_changed(*old(self), *final(self)),
            final(self).properties@.len() == old(self).properties@.len(),
            forall|k: int|
                0 <= k < old(self).properties@.len() ==> final(self).properties@[k] == {
                    let e = #[trigger] old(self).properties@[k];
                    if crate::text::spec_name_in(targets@, old(self).board@[e.tile as int].name@)
                        && e.amount > 0 {
                        (Ownership { amount: (e.amount - 1) as u32, ..e })
                    } else {
                        e
                    }
                },
    {
        let len = self.properties.len();
        let mut k: usize = 0;
        while k < len
            invariant
                0 <= k <= len,
                len == self.properties@.len(),
                len == old(self).properties@.len(),
                only_properties_changed(*old(self), *self),
                self.board == old(self).board,
                forall|j: int|
                    0 <= j < old(self).properties@.len()
                        ==> (#[trigger] old(self).properties@[j]).tile < old(self).board@.len(),
                forall|j: int|
                    0 <= j < k ==> self.properties@[j] == {
                        let e = #[trigger] old(self).properties@[j];
                        if crate::text::spec_name_in(
                            targets@,
                            old(self).board@[e.tile as int].name@,
                        ) && e.amount > 0 {
                            (Ownership { amount: (e.amount - 1) as u32, ..e })
                        } else {
                            e
                        }
                    },
                forall|j: int|
                    k <= j < len ==> #[trigger] self.properties@[j] == old(self).properties@[j],
            decreases len - k,
        {
            let e = self.properties[k];
            proof {
                assert(self.properties@[k as int] == old(self).properties@[k as int]);
                assert((old(self).properties@[k as int]).tile < old(self).board@.len());
                assert(self.board@.len() == old(self).board@.len());
            }
            let hit = crate::text::str_vec_contains(targets, self.board[e.tile].name.as_str());
            if hit && e.amount > 0 {
                self.properties[k].amount = e.amount - 1;
            }
            k = k + 1;
        }
    }

    /// The earthquake: every property of the player with more than one
    /// building loses one; every other entry is untouched.
    pub fn earthquake(&mut self, pid: u32)
        ensures
            only_properties_changed(*old(self), *final(self)),
            final(self).properties@.len() == old(self).properties@.len(),
            forall|k: int|
                0 <= k < old(self).properties@.len() ==> final(self).properties@[k] == {
                    let e = #[trigger] old(self).properties@[k];
                    if e.owner == pid && e.amount > 1 {
                        (Ownership { amount: (e.amount - 1) as u32, ..e })
                    } else {
                        e
                    }
                },
    {
        let len = self.properties.len();
        let mut k: usize = 0;
        while k < len
            invariant
                0 <= k <= len,
                len == self.properties@.len(),
                only_properties_changed(*old(self), *self),
                forall|j: int|
                    0 <= j < k ==> self.properties@[j] == {
                        let e = #[trigger] old(self).properties@[j];
                        if e.owner == pid && e.amount > 1 {
                            (Ownership { amount: (e.amount - 1) as u32, ..e })
                        } else {
                            e
                        }
                    },
                forall|j: int|
                    k <= j < len ==> #[trigger] self.properties@[j] == old(self).properties@[j],
            decreases len - k,
        {
            let e = self.properties[k];
            if e.owner == pid && e.amount > 1 {
                self.properties[k].amount = e.amount - 1;
            }
            k = k + 1;
        }
    }

    /// The player's own and the other players' holdings, as (name, amount)
    /// pairs in table order.
    pub fn owned_property_pairs(&self, pid: u32) -> (r: (Vec<(String, u32)>, Vec<(String, u32)>))
        requires
            forall|k: int|
                0 <= k < self.properties@.len() ==> (#[trigger] self.properties@[k]).tile
                    < self.board@.len(),
        ensures
            r.0@.map_values(|p: (String, u32)| (p.0@, p.1)) == spec_owned_pairs(
                self.properties@,
                self.board@,
                pid,
            ),
            r.1@.map_values(|p: (String, u32)| (p.0@, p.1)) == spec_unowned_pairs(
                self.properties@,
                self.board@,
                pid,
            ),
    {
        let len = self.properties.len();
        let mut mine: Vec<(String, u32)> = Vec::new();
        let mut others: Vec<(String, u32)> = Vec::new();
        let mut k: usize = 0;
        while k < len
            invariant
                0 <= k <= len,
                len == self.properties@.len(),
                forall|j: int|
                    0 <= j < self.properties@.len() ==> (#[trigger] self.properties@[j]).tile
                        < self.board@.len(),
                mine@.map_values(|p: (String, u32)| (p.0@, p.1)) == spec_owned_pairs(
                    self.properties@.take(k as int),
                    self.board@,
                    pid,
                ),
                others@.map_values(|p: (String, u32)| (p.0@, p.1)) == spec_unowned_pairs(
                    self.properties@.take(k as int),
                    self.board@,
                    pid,
                ),
            decreases len - k,
        {
            proof {
                assert(self.properties@.take(k + 1).drop_last() =~= self.properties@.take(
                    k as int,
                ));
                assert(self.properties@.take(k + 1).last() == self.properties@[k as int]);
            }
            let e = self.properties[k];
            let name = self.board[e.tile].name.clone();
            if e.owner == pid {
                mine.push((name, e.amount));
                proof {
                    assert(mine@.map_values(|p: (String, u32)| (p.0@, p.1)) =~= spec_owned_pairs(
                        self.properties@.take(k + 1),
                        self.board@,
                        pid,
                    ));
                    assert(others@.map_values(|p: (String, u32)| (p.0@, p.1)) =~= spec_unowned_pairs(
                        self.properties@.take(k + 1),
                        self.board@,
                        pid,
                    ));
                }
            } else {
                others.push((name, e.amount));
                proof {
                    assert(mine@.map_values(|p: (String, u32)| (p.0@, p.1)) =~= spec_owned_pairs(
                        self.properties@.take(k + 1),
                        self.board@,
                        pid,
                    ));
                    assert(others@.map_values(|p: (String, u32)| (p.0@, p.1)) =~= spec_unowned_pairs(
                        self.properties@.take(k + 1),
                        self.board@,
                        pid,
                    ));
                }
            }
            k = k + 1;
        }
        proof {
            assert(self.properties@.take(len as int) =~= self.properties@);
        }
        (mine, others)
    }

    /// The building count over the player's Property-type holdings.
    pub fn property_houses_sum(&self, pid: u32) -> (r: i64)
        requires
            forall|k: int|
                0 <= k < self.properties@.len() ==> (#[trigger] self.properties@[k]).tile
                    < self.board@.len(),
        ensures
            r as int == spec_property_houses(self.properties@, self.board@, pid),
    {
        let len = self.properties.len();
        let mut acc: i64 = 0;
        let mut k: usize = 0;
        while k < len
            invariant
                0 <= k <= len,
                len == self.properties@.len(),
                forall|j: int|
                    0 <= j < self.properties@.len() ==> (#[trigger] self.properties@[j]).tile
                        < self.board@.len(),
                acc as int == spec_property_houses(
                    self.properties@.take(k as int),
                    self.board@,
                    pid,
                ),
            decreases len - k,
        {
            proof {
                assert(self.properties@.take(k + 1).drop_last() =~= self.properties@.take(
                    k as int,
                ));
                assert(self.properties@.take(k + 1).last() == self.properties@[k as int]);
            }
            let e = self.properties[k];
            if e.owner == pid && self.board[e.tile].kind() == TileKind::Property {
                acc = sat_add_i64(acc, e.amount as i64);
            }
            k = k + 1;
        }
        proof {
            assert(self.properties@.take(len as int) =~= self.properties@);
        }
        acc
    }
}


} // verus!
