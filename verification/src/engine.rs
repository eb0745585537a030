//! The turn controller: the engine value the host drives, one operation
//! per protocol step. Every operation keeps the state invariant, and each
//! contract below pins what the operation changes.
use vstd::prelude::*;
use vstd::string::StringExecFns;

use crate::board::{find_first_of_kind, get_coastal_cities, spec_first_of_kind};
use crate::model::spec_kind_of;
use crate::bridge;
use crate::construct::{parse_board, parse_cards, parse_consts};
use crate::model::{DicePair, GameSituation, Loan, Player, TileKind};
use crate::num::{
    sat_add_i64, sat_sub_i64, spec_sat_add_i64, spec_sat_sub_i64, spec_sub_floor_u32,
    sub_floor_u32,
};
use crate::state::{
    spec_first_open_loan,
    only_players_changed, player_same_but_jail, player_same_but_money, player_same_but_money_jail,
    spec_borrow_rel, spec_first_entry, spec_max_buildings, spec_nonzero_entries, spec_repay_rel,
    GameState, Ownership,
};
use crate::tickets::{spec_ticket_zero, TicketCount};

verus! {

pub struct GameEngine {
    pub engine: rhai::Engine,
    pub state: GameState,
    pub salary: i64,
    pub building_cost: i64,
    pub now: GameSituation,
    pub pending_chance_card_id: Option<String>,
}

/// The engine's configuration and script machinery are never touched by a
/// turn operation.
pub open spec fn same_engine_config(pre: GameEngine, post: GameEngine) -> bool {
    &&& post.engine == pre.engine
    &&& post.salary == pre.salary
    &&& post.building_cost == pre.building_cost
}

/// The log only ever grows: the old log is a prefix of the new one.
pub open spec fn log_grows(pre: GameState, post: GameState) -> bool {
    pre.log@.is_prefix_of(post.log@)
}

/// One step of the luck test from a cache value: a miss zeroes the cache;
/// a hit seeds the jackpot (double when boosted) or doubles a jackpot in
/// progress, saturating.
pub open spec fn spec_luck_step(cache: int, hit: bool, boosted: bool) -> int {
    if !hit {
        0
    } else if cache < 0 {
        if boosted {
            1000000
        } else {
            500000
        }
    } else {
        spec_sat_add_i64(cache, cache)
    }
}

/// The deterministic part of the luck test, one draw at a time.
pub fn luck_test_step(cache: i64, hit: bool, boosted: bool) -> (r: i64)
    ensures
        r as int == spec_luck_step(cache as int, hit, boosted),
{
    if !hit {
        0
    } else if cache < 0 {
        if boosted {
            1000000
        } else {
            500000
        }
    } else {
        sat_add_i64(cache, cache)
    }
}

/// The destination of a roll: `(position + sum of dice) mod board length`.
pub open spec fn spec_next_position(pos: int, a: int, b: int, len: int) -> int
    recommends
        len > 0,
{
    (pos + a + b) % len
}

/// Computes the destination tile of a roll, for any starting position and
/// dice on a non-empty board.
pub fn next_position(pos: u32, a: u16, b: u16, len: u32) -> (r: u32)
    requires
        len > 0,
    ensures
        r as int == spec_next_position(pos as int, a as int, b as int, len as int),
        r < len,
{
    let sum: u64 = pos as u64 + a as u64 + b as u64;
    (sum % (len as u64)) as u32
}

/// Whether some player still has fewer than four completed cycles.
fn any_cycles_below_four(players: &Vec<Player>) -> (r: bool)
    ensures
        r == exists|k: int| 0 <= k < players@.len() && (#[trigger] players@[k]).cycles < 4,
{
    let n = players.len();
    let mut i: usize = 0;
    while i < n
        invariant
            0 <= i <= n,
            n == players@.len(),
            forall|k: int| 0 <= k < i ==> (#[trigger] players@[k]).cycles >= 4,
        decreases n - i,
    {
        if players[i].cycles < 4 {
            return true;
        }
        i = i + 1;
    }
    false
}

impl GameEngine {
    pub open spec fn wf(self) -> bool {
        self.state.wf()
    }

    pub open spec fn spec_situation(self) -> GameSituation {
        self.now
    }

    pub open spec fn spec_salary(self) -> i64 {
        self.salary
    }

    pub open spec fn spec_building_cost(self) -> i64 {
        self.building_cost
    }

    pub open spec fn spec_pending_card(self) -> Option<String> {
        self.pending_chance_card_id
    }

    /// The situation discriminator the host consults between operations.
    pub fn situation(&self) -> (r: GameSituation)
        ensures
            r == self.spec_situation(),
    {
        self.now
    }

    pub fn salary(&self) -> (r: i64)
        ensures
            r == self.spec_salary(),
    {
        self.salary
    }

    pub fn building_cost(&self) -> (r: i64)
        ensures
            r == self.spec_building_cost(),
    {
        self.building_cost
    }

    pub fn pending_chance_card_id(&self) -> (r: &Option<String>)
        ensures
            *r == self.spec_pending_card(),
    {
        &self.pending_chance_card_id
    }

    /// Builds an engine from the board, chance-card and constants
    /// definitions. Construction fails exactly when one of the three
    /// texts is malformed or the player count is 0 or too large for a
    /// 32-bit id; on success every player starts at position 0 with the
    /// initial money and the first player is prompted to roll.
    pub fn new(
        board_json: &str,
        chance_cards_json: &str,
        consts_json: &str,
        players_count: usize,
        initial_money: i64,
        salary: i64,
        building_cost: i64,
    ) -> (r: Result<GameEngine, String>)
        ensures
            r is Err <==> !crate::construct::spec_board_ok(board_json@)
                || !crate::construct::spec_cards_ok(chance_cards_json@)
                || !crate::construct::spec_consts_ok(consts_json@) || players_count == 0
                || players_count >= u32::MAX,
            match r {
                Ok(e) => {
                    &&& e.wf()
                    &&& e.spec_situation() == GameSituation::PendingRollResponse
                    &&& e.spec_salary() == salary
                    &&& e.spec_building_cost() == building_cost
                    &&& e.spec_pending_card() is None
                    &&& e.state.players@.len() == players_count
                    &&& forall|k: int|
                        0 <= k < players_count ==> {
                            let p = #[trigger] e.state.players@[k];
                            &&& p.id == k + 1
                            &&& p.position == 0
                            &&& p.money == initial_money
                            &&& p.remaining_loans@ == Seq::<Loan>::empty()
                            &&& p.next_loan_id == 0
                            &&& p.education_status == crate::model::EducationStatus::NotYet
                            &&& p.cycles == 0
                            &&& p.remaining_jail_turns == 0
                            &&& p.tickets_count == spec_ticket_zero()
                        }
                    &&& e.state.properties@ == Seq::<Ownership>::empty()
                    &&& e.state.current_turn_idx == 0
                    &&& e.state.government_income == 0
                    &&& e.state.dice_double == false
                    &&& e.state.pandemic_counter == 0
                    &&& e.state.catastrophe_counter == 0
                    &&& e.state.pending_ticket == spec_ticket_zero()
                    &&& e.state.luck_test_cache == -1
                    &&& e.state.board@.len() == crate::construct::spec_board_doc(board_json@)->0.len()
                    &&& forall|i: int|
                        0 <= i < e.state.board@.len() ==> crate::construct::spec_tile_fields(
                            #[trigger] crate::construct::spec_board_doc(board_json@)->0[i],
                        ) == Some(
                            (
                                e.state.board@[i].name@,
                                e.state.board@[i].tile_type@,
                                e.state.board@[i].price,
                                e.state.board@[i].amount,
                                e.state.board@[i].is_coastal,
                                e.state.board@[i].is_megacity,
                            ),
                        )
                    &&& e.state.chance_cards_inventory@.len() == crate::construct::spec_object_doc(
                        chance_cards_json@,
                    )->0.len()
                    &&& e.state.consts@.len() == crate::construct::spec_object_doc(
                        consts_json@,
                    )->0.len()
                },
                Err(_) => true,
            },
    {
        let board = parse_board(board_json)?;
        let chance_cards_inventory = parse_cards(chance_cards_json)?;
        let consts = parse_consts(consts_json)?;
        if players_count == 0 || players_count >= u32::MAX as usize {
            return Err("the player count must be at least 1 and fit a 32-bit id".to_owned());
        }
        let mut players: Vec<Player> = Vec::new();
        let mut i: usize = 0;
        while i < players_count
            invariant
                0 <= i <= players_count,
                players_count < u32::MAX,
                players@.len() == i,
                forall|k: int|
                    0 <= k < i ==> {
                        let p = #[trigger] players@[k];
                        &&& p.id == k + 1
                        &&& p.position == 0
                        &&& p.money == initial_money
                        &&& p.remaining_loans@ == Seq::<Loan>::empty()
                        &&& p.next_loan_id == 0
                        &&& p.education_status == crate::model::EducationStatus::NotYet
                        &&& p.cycles == 0
                        &&& p.remaining_jail_turns == 0
                        &&& p.tickets_count == spec_ticket_zero()
                    },
            decreases players_count - i,
        {
            players.push(
                Player {
                    id: (i + 1) as u32,
                    position: 0,
                    money: initial_money,
                    remaining_loans: Vec::new(),
                    next_loan_id: 0,
                    education_status: crate::model::EducationStatus::NotYet,
                    cycles: 0,
                    remaining_jail_turns: 0,
                    tickets_count: TicketCount::zero(),
                },
            );
            i = i + 1;
        }
        let mut log: Vec<String> = Vec::new();
        log.push("Game started!".to_owned());
        let coastal = get_coastal_cities(&board);
        let mut engine = bridge::engine_new();
        bridge::register_tile_type(&mut engine);
        bridge::register_tile_getters(&mut engine);
        bridge::register_ticket_type(&mut engine);
        bridge::register_ticket_getters(&mut engine);
        bridge::register_player_count(&mut engine, players_count as i64);
        bridge::register_round100000(&mut engine);
        bridge::register_find_next_tile(&mut engine, &board);
        bridge::register_coastal_cities(&mut engine, coastal);
        let state = GameState {
            board,
            chance_cards_inventory,
            players,
            properties: Vec::new(),
            log,
            current_turn_idx: 0,
            government_income: 0,
            dice_double: false,
            pandemic_counter: 0,
            catastrophe_counter: 0,
            consts,
            pending_ticket: TicketCount::zero(),
            luck_test_cache: -1,
        };
        Ok(
            GameEngine {
                engine,
                state,
                salary,
                building_cost,
                now: GameSituation::PendingRollResponse,
                pending_chance_card_id: None,
            },
        )
    }

    /// Opens the financial-crisis prompt.
    pub(crate) fn prompt_financial_crisis(&mut self)
        ensures
            final(self).now == GameSituation::PendingFinancialCrisisResponse,
            final(self).state == old(self).state,
            same_engine_config(*old(self), *final(self)),
            final(self).pending_chance_card_id == old(self).pending_chance_card_id,
    {
        self.now = GameSituation::PendingFinancialCrisisResponse;
    }

    /// A double clears the remaining jail turns; either way the turn ends.
    pub fn try_to_jailbreak_by_dices(&mut self, dices: DicePair)
        requires
            old(self).wf(),
        ensures
            final(self).wf(),
            same_engine_config(*old(self), *final(self)),
            final(self).pending_chance_card_id == old(self).pending_chance_card_id,
            final(self).now == GameSituation::EndTurn,
            only_players_changed(old(self).state, final(self).state),
            final(self).state.players@.len() == old(self).state.players@.len(),
            forall|k: int|
                0 <= k < old(self).state.players@.len() && k != old(self).state.current_turn_idx
                    ==> final(self).state.players@[k] == old(self).state.players@[k],
            player_same_but_jail(
                old(self).state.players@[old(self).state.current_turn_idx as int],
                final(self).state.players@[old(self).state.current_turn_idx as int],
            ),
            final(self).state.players@[old(self).state.current_turn_idx as int].remaining_jail_turns
                == if dices.0 == dices.1 {
                0u32
            } else {
                old(self).state.players@[old(self).state.current_turn_idx as int].remaining_jail_turns
            },
    {
        let idx = self.state.current_turn_idx;
        if dices.is_double() {
            self.state.players[idx].remaining_jail_turns = 0;
        }
        self.now = GameSituation::EndTurn;
    }

    /// Sitting a turn out: the remaining jail turns drop by exactly one,
    /// floor zero, and the turn ends.
    pub fn give_up_jailbreak(&mut self)
        requires
            old(self).wf(),
        ensures
            final(self).wf(),
            same_engine_config(*old(self), *final(self)),
            final(self).pending_chance_card_id == old(self).pending_chance_card_id,
            final(self).now == GameSituation::EndTurn,
            only_players_changed(old(self).state, final(self).state),
            final(self).state.players@.len() == old(self).state.players@.len(),
            forall|k: int|
                0 <= k < old(self).state.players@.len() && k != old(self).state.current_turn_idx
                    ==> final(self).state.players@[k] == old(self).state.players@[k],
            player_same_but_jail(
                old(self).state.players@[old(self).state.current_turn_idx as int],
                final(self).state.players@[old(self).state.current_turn_idx as int],
            ),
            final(self).state.players@[old(self).state.current_turn_idx as int].remaining_jail_turns
                as nat == spec_sub_floor_u32(
                old(self).state.players@[old(self).state.current_turn_idx as int].remaining_jail_turns as nat,
                1,
            ),
    {
        let idx = self.state.current_turn_idx;
        let t = self.state.players[idx].remaining_jail_turns;
        self.state.players[idx].remaining_jail_turns = sub_floor_u32(t, 1);
        self.now = GameSituation::EndTurn;
    }

    /// Paying the Jail tile's amount clears the jail turns and ends the
    /// turn, but only if the player can afford it; a board without a Jail
    /// tile, or too little money, changes nothing.
    pub fn try_to_jailbreak_by_money(&mut self)
        requires
            old(self).wf(),
        ensures
            final(self).wf(),
            same_engine_config(*old(self), *final(self)),
            final(self).pending_chance_card_id == old(self).pending_chance_card_id,
            match spec_first_of_kind(
                old(self).state.board@,
                TileKind::Jail,
                0,
                old(self).state.board@.len() as int,
            ) {
                None => *final(self) == *old(self),
                Some(j) => {
                    let fee = old(self).state.board@[j].amount;
                    let idx = old(self).state.current_turn_idx as int;
                    if old(self).state.players@[idx].money >= fee {
                        &&& final(self).now == GameSituation::EndTurn
                        &&& only_players_changed(old(self).state, final(self).state)
                        &&& final(self).state.players@.len() == old(self).state.players@.len()
                        &&& forall|k: int|
                            0 <= k < old(self).state.players@.len() && k != idx
                                ==> final(self).state.players@[k] == old(self).state.players@[k]
                        &&& player_same_but_money_jail(
                            old(self).state.players@[idx],
                            final(self).state.players@[idx],
                        )
                        &&& final(self).state.players@[idx].remaining_jail_turns == 0
                        &&& final(self).state.players@[idx].money == spec_sat_sub_i64(
                            old(self).state.players@[idx].money as int,
                            fee as int,
                        )
                    } else {
                        *final(self) == *old(self)
                    }
                },
            },
    {
        let idx = self.state.current_turn_idx;
        let jail = match find_first_of_kind(&self.state.board, TileKind::Jail) {
            Some(j) => j,
            None => {
                return ;
            },
        };
        let fee = self.state.board[jail].amount;
        if self.state.players[idx].money >= fee {
            self.state.players[idx].remaining_jail_turns = 0;
            let m = self.state.players[idx].money;
            self.state.players[idx].money = sat_sub_i64(m, fee);
            self.now = GameSituation::EndTurn;
        }
    }

    /// Completes a purchase at the given board position, valid only while
    /// a buy response is awaited (outside that situation nothing changes):
    /// pays the building cost, then starts the ownership entry at one
    /// building or adds one more, capped at MAX_BUILDINGS, and ends the
    /// turn.
    pub fn buy(&mut self, pos: u32)
        requires
            old(self).wf(),
            pos < old(self).state.board@.len(),
        ensures
            final(self).wf(),
            old(self).now != GameSituation::PendingBuyResponse ==> *final(self) == *old(self),
            same_engine_config(*old(self), *final(self)),
            final(self).pending_chance_card_id == old(self).pending_chance_card_id,
            old(self).now == GameSituation::PendingBuyResponse ==> final(self).now
                == GameSituation::EndTurn,
            final(self).state.board == old(self).state.board,
            final(self).state.chance_cards_inventory == old(self).state.chance_cards_inventory,
            final(self).state.consts == old(self).state.consts,
            final(self).state.current_turn_idx == old(self).state.current_turn_idx,
            final(self).state.government_income == old(self).state.government_income,
            final(self).state.dice_double == old(self).state.dice_double,
            final(self).state.pandemic_counter == old(self).state.pandemic_counter,
            final(self).state.catastrophe_counter == old(self).state.catastrophe_counter,
            final(self).state.pending_ticket == old(self).state.pending_ticket,
            final(self).state.luck_test_cache == old(self).state.luck_test_cache,
            log_grows(old(self).state, final(self).state),
            final(self).state.players@.len() == old(self).state.players@.len(),
            forall|k: int|
                0 <= k < old(self).state.players@.len() && k != old(self).state.current_turn_idx
                    ==> final(self).state.players@[k] == old(self).state.players@[k],
            player_same_but_money(
                old(self).state.players@[old(self).state.current_turn_idx as int],
                final(self).state.players@[old(self).state.current_turn_idx as int],
            ),
            old(self).now == GameSituation::PendingBuyResponse ==> final(self).state.players@[old(self).state.current_turn_idx as int].money == spec_sat_sub_i64(
                old(self).state.players@[old(self).state.current_turn_idx as int].money as int,
                old(self).building_cost as int,
            ),
            old(self).now == GameSituation::PendingBuyResponse ==> match spec_first_entry(
                old(self).state.properties@,
                pos as int,
                0,
            ) {
                Some(k) => {
                    let e = old(self).state.properties@[k];
                    let cap = spec_max_buildings(old(self).state.consts@);
                    final(self).state.properties@ == old(self).state.properties@.update(
                        k,
                        (Ownership {
                            amount: if e.amount < cap {
                                (e.amount + 1) as u32
                            } else {
                                cap
                            },
                            ..e
                        }),
                    )
                },
                None => final(self).state.properties@ == old(self).state.properties@.push(
                    (Ownership {
                        tile: pos as usize,
                        owner: old(self).state.players@[old(self).state.current_turn_idx as int].id,
                        amount: 1u32,
                    }),
                ),
            },
    {
        if !(self.now == GameSituation::PendingBuyResponse) {
            return ;
        }
        let idx = self.state.current_turn_idx;
        let m = self.state.players[idx].money;
        self.state.players[idx].money = sat_sub_i64(m, self.building_cost);
        let mut msg: String = "Player bought a building on tile ".to_owned();
        msg.append(self.state.board[pos as usize].name.as_str());
        self.state.log.push(msg);
        let cap = self.state.max_buildings();
        proof {
            crate::state::lemma_max_buildings_pos(self.state.consts@);
        }
        match self.state.find_property(pos as usize) {
            Some(k) => {
                let v = self.state.properties[k].amount;
                let na = if v < cap {
                    v + 1
                } else {
                    cap
                };
                self.state.properties[k].amount = na;
            },
            None => {
                proof {
                    crate::state::lemma_first_entry_none(
                        self.state.properties@,
                        pos as int,
                        0,
                    );
                }
                let owner = self.state.players[idx].id;
                self.state.properties.push(Ownership { tile: pos as usize, owner, amount: 1 });
            },
        }
        self.now = GameSituation::EndTurn;
    }

    /// Opens a loan for the player: see the ledger relation.
    pub fn borrow_money(&mut self, pid: u32, amount: i64)
        requires
            old(self).wf(),
        ensures
            final(self).wf(),
            same_engine_config(*old(self), *final(self)),
            final(self).pending_chance_card_id == old(self).pending_chance_card_id,
            final(self).now == old(self).now,
            spec_borrow_rel(old(self).state, final(self).state, pid, amount),
    {
        self.state.borrow_money(pid, amount);
    }

    /// Repays toward a loan and purges closed loans: see the ledger
    /// relation.
    pub fn repay_loan(&mut self, pid: u32, lid: u32, amount: i64)
        requires
            old(self).wf(),
        ensures
            final(self).wf(),
            same_engine_config(*old(self), *final(self)),
            final(self).pending_chance_card_id == old(self).pending_chance_card_id,
            final(self).now == old(self).now,
            spec_repay_rel(old(self).state, final(self).state, pid, lid, amount),
    {
        self.state.repay_loan(pid, lid, amount);
        proof {
            // every surviving loan stood in the ledger before the purge
            // (with only its principal reduced), so its id stays below the
            // player's counter
            assert forall|ii: int, kk: int|
                0 <= ii < self.state.players@.len() && 0 <= kk
                    < self.state.players@[ii].remaining_loans@.len() implies (
            #[trigger] self.state.players@[ii].remaining_loans@[kk]).id
                < self.state.players@[ii].next_loan_id by {
                if self.state.players@[ii] != old(self).state.players@[ii] {
                    match crate::state::spec_first_player(old(self).state.players@, pid, 0) {
                        None => {
                            assert(self.state.players@ == old(self).state.players@);
                        },
                        Some(i) => {
                            assert(amount > 0 && ii == i);
                        },
                    }
                    let pre_loans = old(self).state.players@[ii].remaining_loans@;
                    let next = old(self).state.players@[ii].next_loan_id;
                    crate::state::lemma_first_open_loan_bounds(pre_loans, lid, 0);
                    match spec_first_open_loan(pre_loans, lid, 0) {
                        None => {
                            crate::state::lemma_open_loans_ids_bounded(pre_loans, next);
                        },
                        Some(j0) => {
                            let reduced = pre_loans.update(
                                j0,
                                (Loan {
                                    remaining: (pre_loans[j0].remaining - amount) as i64,
                                    ..pre_loans[j0]
                                }),
                            );
                            assert(forall|k: int|
                                0 <= k < reduced.len() ==> (#[trigger] reduced[k]).id
                                    == pre_loans[k].id);
                            crate::state::lemma_open_loans_ids_bounded(reduced, next);
                        },
                    }
                }
            }
        }
    }

    /// One luck-test draw: hits with probability one in ten. A hit seeds
    /// or doubles the jackpot cache; a miss zeroes it and ends the turn.
    /// Outside its situation, or with a spent cache, no draw is made.
    pub fn luck_test(&mut self, init_double_lotto: bool)
        requires
            old(self).wf(),
        ensures
            final(self).wf(),
            same_engine_config(*old(self), *final(self)),
            final(self).pending_chance_card_id == old(self).pending_chance_card_id,
            only_luck_cache_changed(old(self).state, final(self).state),
            if old(self).now == GameSituation::PendingLuckTestResponse
                && old(self).state.luck_test_cache != 0 {
                exists|hit: bool|
                    final(self).state.luck_test_cache as int == spec_luck_step(
                        old(self).state.luck_test_cache as int,
                        hit,
                        init_double_lotto,
                    )
            } else {
                final(self).state.luck_test_cache == old(self).state.luck_test_cache
            },
            final(self).now == if final(self).state.luck_test_cache == 0 {
                GameSituation::EndTurn
            } else {
                old(self).now
            },
    {
        if self.now == GameSituation::PendingLuckTestResponse && self.state.luck_test_cache != 0 {
            let hit = bridge::random_u32() % 10 == 0;
            let c = luck_test_step(self.state.luck_test_cache, hit, init_double_lotto);
            self.state.luck_test_cache = c;
            proof {
                assert(self.state.luck_test_cache as int == spec_luck_step(
                    old(self).state.luck_test_cache as int,
                    hit,
                    init_double_lotto,
                ));
            }
        }
        if self.state.luck_test_cache == 0 {
            self.now = GameSituation::EndTurn;
        }
    }

    /// Draws a uniformly random card id from the inventory and opens the
    /// check prompt, valid only while a draw is awaited; outside that
    /// situation, or with an empty inventory, nothing changes.
    pub fn get_random_chance_card(&mut self)
        requires
            old(self).wf(),
        ensures
            final(self).wf(),
            same_engine_config(*old(self), *final(self)),
            final(self).state == old(self).state,
            if old(self).now != GameSituation::PendingGetRandomChanceCardResponse || old(self).state.chance_cards_inventory@.len() == 0 {
                *final(self) == *old(self)
            } else {
                &&& final(self).now == GameSituation::PendingCheckChanceCardResponse
                &&& exists|i: int|
                    0 <= i < old(self).state.chance_cards_inventory@.len() && final(self).pending_chance_card_id == Some(
                        (#[trigger] old(self).state.chance_cards_inventory@[i]).0,
                    )
            },
    {
        if !(self.now == GameSituation::PendingGetRandomChanceCardResponse) {
            return ;
        }
        let n = self.state.chance_cards_inventory.len();
        if n == 0 {
            return ;
        }
        let pick = (bridge::random_u32() as usize) % n;
        let id = self.state.chance_cards_inventory[pick].0.clone();
        self.pending_chance_card_id = Some(id);
        self.now = GameSituation::PendingCheckChanceCardResponse;
    }

    /// Ends the turn: always garbage-collects zero-amount ownership
    /// entries; then, only if the situation is EndTurn, advances the turn
    /// index (unless the roll was a double and the player is not jailed),
    /// ticks the pandemic and catastrophe counters down by one with a
    /// floor of zero, clears the double flag, and primes the next player — EndGame once every player has
    /// four cycles, a jailbreak prompt for a jailed player, else a roll
    /// prompt.
    pub fn end_turn(&mut self)
        requires
            old(self).wf(),
        ensures
            final(self).wf(),
            same_engine_config(*old(self), *final(self)),
            final(self).pending_chance_card_id == old(self).pending_chance_card_id,
            final(self).state.properties@ == spec_nonzero_entries(old(self).state.properties@),
            final(self).state.players == old(self).state.players,
            final(self).state.government_income == old(self).state.government_income,
            final(self).state.pending_ticket == old(self).state.pending_ticket,
            final(self).state.luck_test_cache == old(self).state.luck_test_cache,
            log_grows(old(self).state, final(self).state),
            old(self).now != GameSituation::EndTurn ==> {
                &&& final(self).now == old(self).now
                &&& final(self).state.current_turn_idx == old(self).state.current_turn_idx
                &&& final(self).state.dice_double == old(self).state.dice_double
                &&& final(self).state.pandemic_counter == old(self).state.pandemic_counter
                &&& final(self).state.catastrophe_counter == old(self).state.catastrophe_counter
                &&& final(self).state.log == old(self).state.log
            },
            old(self).now == GameSituation::EndTurn ==> {
                let idx0 = old(self).state.current_turn_idx as int;
                let pos0 = old(self).state.players@[idx0].position as int;
                let in_jail = spec_kind_of(old(self).state.board@[pos0].tile_type@)
                    == TileKind::Jail;
                let advance = !old(self).state.dice_double || in_jail;
                let idx1 = if advance {
                    ((idx0 + 1) % old(self).state.players@.len() as int)
                } else {
                    idx0
                };
                &&& final(self).state.current_turn_idx as int == idx1
                &&& final(self).state.dice_double == false
                &&& final(self).state.pandemic_counter == if old(self).state.pandemic_counter
                    > 0 {
                    (old(self).state.pandemic_counter - 1) as usize
                } else {
                    0usize
                }
                &&& final(self).state.catastrophe_counter == if old(self).state.catastrophe_counter > 0 {
                    (old(self).state.catastrophe_counter - 1) as usize
                } else {
                    0usize
                }
                &&& final(self).now == spec_begin_turn_situation(old(self).state, idx1)
            },
    {
        self.state.garbage_collect();
        proof {
            crate::state::lemma_nonzero_entries_membership(old(self).state.properties@);
            crate::state::lemma_nonzero_entries_distinct(old(self).state.properties@);
        }
        if self.now == GameSituation::EndTurn {
            let idx = self.state.current_turn_idx;
            let pos = self.state.players[idx].position;
            let is_in_jail = self.state.board[pos as usize].kind() == TileKind::Jail;
            if !self.state.dice_double || is_in_jail {
                self.state.current_turn_idx = (self.state.current_turn_idx + 1)
                    % self.state.players.len();
            }
            if self.state.catastrophe_counter > 0 {
                self.state.catastrophe_counter = self.state.catastrophe_counter - 1;
            }
            if self.state.pandemic_counter > 0 {
                self.state.pandemic_counter = self.state.pandemic_counter - 1;
            }
            self.state.dice_double = false;
            self.state.log.push("--- End of Turn ---".to_owned());
            self.before_begin_turn();
        }
    }

    /// Primes the turn of the player at the current index: EndGame once
    /// every player has at least four cycles, a jailbreak prompt for a
    /// jailed player on a Jail tile, else a roll prompt.
    fn before_begin_turn(&mut self)
        requires
            old(self).wf(),
        ensures
            final(self).wf(),
            same_engine_config(*old(self), *final(self)),
            final(self).pending_chance_card_id == old(self).pending_chance_card_id,
            log_grows(old(self).state, final(self).state),
            final(self).state.players == old(self).state.players,
            final(self).state.properties == old(self).state.properties,
            final(self).state.current_turn_idx == old(self).state.current_turn_idx,
            final(self).state.government_income == old(self).state.government_income,
            final(self).state.dice_double == old(self).state.dice_double,
            final(self).state.pandemic_counter == old(self).state.pandemic_counter,
            final(self).state.catastrophe_counter == old(self).state.catastrophe_counter,
            final(self).state.pending_ticket == old(self).state.pending_ticket,
            final(self).state.luck_test_cache == old(self).state.luck_test_cache,
            final(self).now == spec_begin_turn_situation(
                old(self).state,
                old(self).state.current_turn_idx as int,
            ),
    {
        let idx = self.state.current_turn_idx;
        let any_left = any_cycles_below_four(&self.state.players);
        let pos = self.state.players[idx].position;
        let jailed = self.state.board[pos as usize].kind() == TileKind::Jail
            && self.state.players[idx].remaining_jail_turns > 0;
        if !any_left {
            self.state.log.push("The game has ended.".to_owned());
            self.now = GameSituation::EndGame;
        } else if jailed {
            self.state.log.push("The next player's turn begins.".to_owned());
            self.now = GameSituation::PendingTryToJailbreakResponse;
        } else {
            self.state.log.push("The next player's turn begins.".to_owned());
            self.now = GameSituation::PendingRollResponse;
        }
    }
}

/// Fields of two states other than the luck-test cache are equal.
pub open spec fn only_luck_cache_changed(pre: GameState, post: GameState) -> bool {
    &&& post.board == pre.board
    &&& post.chance_cards_inventory == pre.chance_cards_inventory
    &&& post.players == pre.players
    &&& post.properties == pre.properties
    &&& post.log == pre.log
    &&& post.current_turn_idx == pre.current_turn_idx
    &&& post.government_income == pre.government_income
    &&& post.dice_double == pre.dice_double
    &&& post.pandemic_counter == pre.pandemic_counter
    &&& post.catastrophe_counter == pre.catastrophe_counter
    &&& post.consts == pre.consts
    &&& post.pending_ticket == pre.pending_ticket
}

/// The situation a new turn begins in, for the player at `idx`: EndGame
/// once no player is under four cycles, a jailbreak prompt for a jailed
/// player on a Jail tile, else a roll prompt.
pub open spec fn spec_begin_turn_situation(pre: GameState, idx: int) -> GameSituation {
    if forall|k: int| 0 <= k < pre.players@.len() ==> (#[trigger] pre.players@[k]).cycles >= 4 {
        GameSituation::EndGame
    } else if spec_kind_of(pre.board@[pre.players@[idx].position as int].tile_type@)
        == TileKind::Jail && pre.players@[idx].remaining_jail_turns > 0 {
        GameSituation::PendingTryToJailbreakResponse
    } else {
        GameSituation::PendingRollResponse
    }
}

} // verus!
