//! The action resolvers: hospital admission, the cycle/payday computation,
//! and the interpretation of a typed action from a tile-landing or
//! chance-card script into state mutations. Everything here is verified;
//! the script evaluation itself sits behind the trusted bridge and its
//! result reaches this module only as a typed action.
use vstd::prelude::*;
use vstd::string::StringExecFns;

use crate::actions::{
    parse_chance_action, parse_cycle_outcome, parse_tile_action, ChanceAction, CycleOutcome,
    TileAction,
};
use crate::board::{find_first_of_kind, find_first_of_name, spec_half, tax_base};
use crate::bridge;
use crate::model::{
    spec_educated, spec_kind_of, DicePair, EducationStatus, GameSituation, Player, TileKind,
};
use crate::num::{
    sat_add_i64, sat_add_usize, sat_add_u32, sat_mul_i64, sat_sub_i64, spec_sat_add_i64,
    spec_sat_mul_i64, spec_sat_sub_i64, spec_sat_add_u32, spec_sub_floor_u32, sub_floor_u32,
};
use crate::engine::{spec_luck_step, spec_next_position, GameEngine, next_position};
use crate::state::{
    player_same_but_money, spec_first_entry, spec_first_player, spec_max_buildings, GameState,
    Ownership,
};
use crate::tickets::{spec_one_ticket, spec_ticket_add, spec_ticket_zero, TicketCount};

verus! {

/// The player sequence with one player's money replaced.
pub open spec fn with_money(ps: Seq<Player>, i: int, m: int) -> Seq<Player> {
    ps.update(i, (Player { money: m as i64, ..ps[i] }))
}

/// The joint effect of a pay action on the players and the treasury:
/// the optional government debit, the optional market debit, then the
/// optional targeted transfer, applied only if the destination player
/// exists.
pub open spec fn spec_pay_to(
    ps: Seq<Player>,
    gov: int,
    idx: int,
    gov_amount: Option<i64>,
    market_amount: Option<i64>,
    to_player: Option<(i64, u32)>,
) -> (Seq<Player>, int) {
    let m0 = ps[idx].money as int;
    let step1 = match gov_amount {
        Some(a) => (with_money(ps, idx, spec_sat_sub_i64(m0, a as int)), spec_sat_add_i64(gov, a as int)),
        None => (ps, gov),
    };
    let ps1 = step1.0;
    let g1 = step1.1;
    let ps2 = match market_amount {
        Some(a) => with_money(ps1, idx, spec_sat_sub_i64(ps1[idx].money as int, a as int)),
        None => ps1,
    };
    let ps3 = match to_player {
        Some((a, pid)) => match spec_first_player(ps2, pid, 0) {
            Some(t) => {
                let credited = with_money(ps2, t, spec_sat_add_i64(ps2[t].money as int, a as int));
                with_money(credited, idx, spec_sat_sub_i64(credited[idx].money as int, a as int))
            },
            None => ps2,
        },
        None => ps2,
    };
    (ps3, g1)
}

/// The fields a tile or chance action never touches.
pub open spec fn resolver_frame(pre: GameEngine, post: GameEngine) -> bool {
    &&& post.salary == pre.salary
    &&& post.building_cost == pre.building_cost
    &&& post.state.board == pre.state.board
    &&& post.state.chance_cards_inventory == pre.state.chance_cards_inventory
    &&& post.state.consts == pre.state.consts
    &&& post.state.current_turn_idx == pre.state.current_turn_idx
    &&& post.state.dice_double == pre.state.dice_double
    &&& post.state.luck_test_cache == pre.state.luck_test_cache
    &&& pre.state.log@.is_prefix_of(post.state.log@)
}

impl GameEngine {
    /// Hospital admission: the fee is half the first Hospital tile's
    /// amount; the player pays it unless waived, the treasury absorbs the
    /// same fee clamped at zero, and when the treasury falls short the
    /// shortfall is refunded to a charged player. Returns whether the
    /// player avoided a financial crisis; a board without a Hospital tile
    /// is an error and changes nothing.
    pub fn medical_care(&mut self, free: bool) -> (r: Result<bool, String>)
        requires
            old(self).wf(),
        ensures
            final(self).wf(),
            resolver_frame(*old(self), *final(self)),
            final(self).pending_chance_card_id == old(self).pending_chance_card_id,
            final(self).state.properties == old(self).state.properties,
            final(self).state.pending_ticket == old(self).state.pending_ticket,
            final(self).state.pandemic_counter == old(self).state.pandemic_counter,
            final(self).state.catastrophe_counter == old(self).state.catastrophe_counter,
            match spec_hospital_of(old(self).state) {
                None => r is Err && final(self).state == old(self).state && final(self).now == old(self).now,
                Some(h) => {
                    let idx = old(self).state.current_turn_idx as int;
                    let cost = spec_half(old(self).state.board@[h].amount as int);
                    let m0 = old(self).state.players@[idx].money as int;
                    let g0 = old(self).state.government_income as int;
                    let tmp = spec_sat_sub_i64(g0, cost);
                    let m1 = if !free {
                        spec_sat_sub_i64(m0, cost)
                    } else {
                        m0
                    };
                    let m2 = if tmp < 0 && !free {
                        spec_sat_sub_i64(m1, tmp)
                    } else {
                        m1
                    };
                    let g2 = if tmp < 0 {
                        0int
                    } else {
                        tmp
                    };
                    &&& r == Ok::<bool, String>(m2 >= 0)
                    &&& final(self).state.players@ == with_money(old(self).state.players@, idx, m2)
                    &&& final(self).state.government_income as int == g2
                    &&& final(self).now == if m2 < 0 {
                        GameSituation::PendingFinancialCrisisResponse
                    } else {
                        old(self).now
                    }
                },
            },
    {
        let hospital = match find_first_of_kind(&self.state.board, TileKind::Hospital) {
            Some(h) => h,
            None => {
                return Err("the board has no Hospital tile".to_owned());
            },
        };
        let cost = crate::board::half_amount(self.state.board[hospital].amount);
        let idx = self.state.current_turn_idx;
        self.state.log.push("Sent to Hospital!".to_owned());
        let tmp = sat_sub_i64(self.state.government_income, cost);
        if !free {
            let m = self.state.players[idx].money;
            self.state.players[idx].money = sat_sub_i64(m, cost);
        }
        if tmp < 0 {
            self.state.government_income = 0;
            if !free {
                let m = self.state.players[idx].money;
                self.state.players[idx].money = sat_sub_i64(m, tmp);
            }
        } else {
            self.state.government_income = tmp;
        }
        proof {
            if free {
                assert(self.state.players@ =~= with_money(
                    old(self).state.players@,
                    idx as int,
                    old(self).state.players@[idx as int].money as int,
                ));
            }
        }
        let crisis = self.state.players[idx].money < 0;
        if crisis {
            self.prompt_financial_crisis();
        }
        Ok(!crisis)
    }

    /// The cycle/payday computation: counts the lap, then lets the cycle
    /// script set the new treasury, a salary remainder for the acting
    /// player and a basic income for everyone; a held bonus ticket
    /// consumes one unit from the pending pool. On a script error only the
    /// lap has been counted.
    pub fn trigger_cycle(&mut self, script: &str) -> (r: Result<(), String>)
        requires
            old(self).wf(),
        ensures
            final(self).wf(),
            resolver_frame(*old(self), *final(self)),
            final(self).now == old(self).now,
            final(self).pending_chance_card_id == old(self).pending_chance_card_id,
            final(self).state.properties == old(self).state.properties,
            final(self).state.pandemic_counter == old(self).state.pandemic_counter,
            final(self).state.catastrophe_counter == old(self).state.catastrophe_counter,
            final(self).state.log == old(self).state.log,
            final(self).state.players@.len() == old(self).state.players@.len(),
            final(self).state.players@[old(self).state.current_turn_idx as int].cycles as nat
                == spec_sat_add_u32(
                old(self).state.players@[old(self).state.current_turn_idx as int].cycles as nat,
                1,
            ),
            forall|k: int|
                0 <= k < old(self).state.players@.len() && k != old(self).state.current_turn_idx
                    ==> (#[trigger] final(self).state.players@[k]).cycles == old(self).state.players@[k].cycles,
            forall|k: int|
                0 <= k < old(self).state.players@.len() ==> {
                    let a = #[trigger] old(self).state.players@[k];
                    let b = final(self).state.players@[k];
                    &&& b.id == a.id
                    &&& b.position == a.position
                    &&& b.remaining_loans == a.remaining_loans
                    &&& b.education_status == a.education_status
                    &&& b.remaining_jail_turns == a.remaining_jail_turns
                    &&& b.tickets_count == a.tickets_count
                },
            r is Err ==> {
                &&& forall|k: int|
                    0 <= k < old(self).state.players@.len() ==> (#[trigger] final(self).state.players@[k]).money == old(self).state.players@[k].money
                &&& final(self).state.government_income == old(self).state.government_income
                &&& final(self).state.pending_ticket == old(self).state.pending_ticket
            },
            r is Ok ==> {
                let idx = old(self).state.current_turn_idx as int;
                let bumped = old(self).state.players@.update(
                    idx,
                    (Player {
                        cycles: spec_sat_add_u32(
                            old(self).state.players@[idx].cycles as nat,
                            1,
                        ) as u32,
                        ..old(self).state.players@[idx]
                    }),
                );
                exists|oc: CycleOutcome|
                    #[trigger] spec_cycle_applied(
                        bumped,
                        old(self).state.pending_ticket,
                        final(self).state.players@,
                        final(self).state.government_income,
                        final(self).state.pending_ticket,
                        idx,
                        oc,
                    )
            },
    {
        let idx = self.state.current_turn_idx;
        let c = self.state.players[idx].cycles;
        self.state.players[idx].cycles = sat_add_u32(c, 1);
        let money = self.state.players[idx].money;
        let is_graduated = match self.state.players[idx].education_status {
            EducationStatus::Graduated => true,
            _ => false,
        };
        let has_bonus = self.state.players[idx].tickets_count.bonus > 0;
        let sum_of_all_taxes = tax_base(&self.state.board);
        let mut scope = bridge::scope_new();
        bridge::scope_push_const_i64(&mut scope, "salary", self.salary);
        bridge::scope_push_i64(&mut scope, "government_income", self.state.government_income);
        bridge::scope_push_const_i64(&mut scope, "sum_of_all_taxes", sum_of_all_taxes);
        bridge::scope_push_i64(&mut scope, "money", money);
        bridge::scope_push_const_bool(&mut scope, "is_graduated", is_graduated);
        bridge::scope_push_const_bool(&mut scope, "has_bonus", has_bonus);
        let map = bridge::eval_script_map(&self.engine, &mut scope, script)?;
        let outcome = parse_cycle_outcome(&map)?;
        let ghost bumped = self.state.players@;
        self.apply_cycle_outcome(&outcome);
        proof {
            assert(bumped =~= old(self).state.players@.update(
                idx as int,
                (Player {
                    cycles: spec_sat_add_u32(
                        old(self).state.players@[idx as int].cycles as nat,
                        1,
                    ) as u32,
                    ..old(self).state.players@[idx as int]
                }),
            ));
            assert(spec_cycle_applied(
                bumped,
                old(self).state.pending_ticket,
                self.state.players@,
                self.state.government_income,
                self.state.pending_ticket,
                idx as int,
                outcome,
            ));
        }
        Ok(())
    }
}


/// How one parsed cycle outcome lands on the players and the treasury:
/// the treasury takes the script's new balance, the acting player gains
/// the salary remainder and the basic income, every other player gains the
/// basic income, and a held bonus ticket consumes one unit from the
/// pending pool.
pub open spec fn spec_cycle_applied(
    pre_players: Seq<Player>,
    pre_pending: TicketCount,
    post_players: Seq<Player>,
    post_gov: i64,
    post_pending: TicketCount,
    idx: int,
    oc: CycleOutcome,
) -> bool {
    &&& post_gov == oc.new_government_income
    &&& post_players.len() == pre_players.len()
    &&& post_players[idx] == (Player {
        money: spec_sat_add_i64(
            spec_sat_add_i64(pre_players[idx].money as int, oc.remaining_salary as int),
            oc.basic_income as int,
        ) as i64,
        ..pre_players[idx]
    })
    &&& forall|k: int|
        0 <= k < pre_players.len() && k != idx ==> #[trigger] post_players[k] == (Player {
            money: spec_sat_add_i64(pre_players[k].money as int, oc.basic_income as int) as i64,
            ..pre_players[k]
        })
    &&& post_pending == if pre_players[idx].tickets_count.bonus > 0 {
        (TicketCount {
            bonus: spec_sub_floor_u32(pre_pending.bonus as nat, 1) as u32,
            ..pre_pending
        })
    } else {
        pre_pending
    }
}

impl GameEngine {
    /// Applies one parsed cycle outcome, exactly as the applied-outcome
    /// relation states; nothing else changes.
    pub fn apply_cycle_outcome(&mut self, outcome: &CycleOutcome)
        requires
            old(self).wf(),
        ensures
            final(self).wf(),
            resolver_frame(*old(self), *final(self)),
            final(self).now == old(self).now,
            final(self).pending_chance_card_id == old(self).pending_chance_card_id,
            final(self).state.properties == old(self).state.properties,
            final(self).state.pandemic_counter == old(self).state.pandemic_counter,
            final(self).state.catastrophe_counter == old(self).state.catastrophe_counter,
            final(self).state.log == old(self).state.log,
            spec_cycle_applied(
                old(self).state.players@,
                old(self).state.pending_ticket,
                final(self).state.players@,
                final(self).state.government_income,
                final(self).state.pending_ticket,
                old(self).state.current_turn_idx as int,
                *outcome,
            ),
    {
        let idx = self.state.current_turn_idx;
        let has_bonus = self.state.players[idx].tickets_count.bonus > 0;
        self.state.government_income = outcome.new_government_income;
        let m = self.state.players[idx].money;
        self.state.players[idx].money = sat_add_i64(m, outcome.remaining_salary);
        let n = self.state.players.len();
        let mut k: usize = 0;
        let ghost mid = self.state.players@;
        #[verifier::loop_isolation(false)]
        while k < n
            invariant
                0 <= k <= n,
                n == self.state.players@.len(),
                forall|j: int|
                    0 <= j < k ==> #[trigger] self.state.players@[j] == (Player {
                        money: spec_sat_add_i64(
                            mid[j].money as int,
                            outcome.basic_income as int,
                        ) as i64,
                        ..mid[j]
                    }),
                forall|j: int| k <= j < n ==> #[trigger] self.state.players@[j] == mid[j],
                self.state.board == old(self).state.board,
                self.state.consts == old(self).state.consts,
                self.state.properties == old(self).state.properties,
                self.state.chance_cards_inventory == old(self).state.chance_cards_inventory,
                self.state.log == old(self).state.log,
                self.now == old(self).now,
                self.pending_chance_card_id == old(self).pending_chance_card_id,
                self.salary == old(self).salary,
                self.building_cost == old(self).building_cost,
                self.state.dice_double == old(self).state.dice_double,
                self.state.current_turn_idx == old(self).state.current_turn_idx,
                self.state.pandemic_counter == old(self).state.pandemic_counter,
                self.state.catastrophe_counter == old(self).state.catastrophe_counter,
                self.state.luck_test_cache == old(self).state.luck_test_cache,
                self.state.pending_ticket == old(self).state.pending_ticket,
                self.state.government_income == outcome.new_government_income,
            decreases n - k,
        {
            let m2 = self.state.players[k].money;
            self.state.players[k].money = sat_add_i64(m2, outcome.basic_income);
            k = k + 1;
        }
        if has_bonus {
            let b = self.state.pending_ticket.bonus;
            self.state.pending_ticket.bonus = sub_floor_u32(b, 1);
        }
    }
}

/// The first Hospital tile of a state's board.
pub open spec fn spec_hospital_of(s: GameState) -> Option<int> {
    crate::board::spec_first_of_kind(s.board@, TileKind::Hospital, 0, s.board@.len() as int)
}

/// The per-variant effect of a tile action. `idx` is the acting player's
/// index, `skip` says whether the action already redirected the position
/// so the generic position update must be skipped.
pub open spec fn spec_tile_effect(
    pre: GameEngine,
    post: GameEngine,
    action: TileAction,
    skip: bool,
) -> bool {
    let idx = pre.state.current_turn_idx as int;
    let m0 = pre.state.players@[idx].money as int;
    let g0 = pre.state.government_income as int;
    let n = pre.state.players@.len() as int;
    match action {
        TileAction::PromptBuy { tile_name, price, free_flag, ticket_flag } => {
            let m1 = if !free_flag && !ticket_flag {
                spec_sat_sub_i64(m0, price as int)
            } else {
                m0
            };
            &&& !skip
            &&& post.state.players@ == with_money(pre.state.players@, idx, m1)
            &&& post.state.government_income == pre.state.government_income
            &&& post.state.properties == pre.state.properties
            &&& post.state.pending_ticket == pre.state.pending_ticket
            &&& post.now == if m1 >= pre.building_cost {
                GameSituation::PendingBuyResponse
            } else {
                GameSituation::InAction
            }
        },
        TileAction::PayTax { amount } => {
            let m1 = spec_sat_sub_i64(m0, amount as int);
            &&& !skip
            &&& post.state.players@ == with_money(pre.state.players@, idx, m1)
            &&& post.state.government_income as int == spec_sat_add_i64(g0, amount as int)
            &&& post.state.properties == pre.state.properties
            &&& post.state.pending_ticket == pre.state.pending_ticket
            &&& post.now == if m1 < 0 {
                GameSituation::PendingFinancialCrisisResponse
            } else {
                GameSituation::InAction
            }
        },
        TileAction::Imprison => {
            &&& skip
            &&& post.state.players == pre.state.players
            &&& post.state.government_income == pre.state.government_income
            &&& post.state.properties == pre.state.properties
            &&& post.state.pending_ticket == pre.state.pending_ticket
            &&& post.now == GameSituation::EndTurn
        },
        TileAction::WarpToPosition { position } => {
            &&& skip
            &&& 0 <= position < pre.state.board@.len()
            &&& post.state.players@ == pre.state.players@.update(
                idx,
                (Player { position: position as u32, ..pre.state.players@[idx] }),
            )
            &&& post.state.government_income == pre.state.government_income
            &&& post.state.properties == pre.state.properties
            &&& post.state.pending_ticket == pre.state.pending_ticket
            &&& post.now == GameSituation::EndTurn
        },
        TileAction::PayTo { gov_amount, market_amount, to_player, message } => {
            let out = spec_pay_to(pre.state.players@, g0, idx, gov_amount, market_amount, to_player);
            &&& !skip
            &&& post.state.players@ == out.0
            &&& post.state.government_income as int == out.1
            &&& post.state.properties == pre.state.properties
            &&& post.state.pending_ticket == pre.state.pending_ticket
            &&& post.now == if out.0[idx].money < 0 {
                GameSituation::PendingFinancialCrisisResponse
            } else {
                GameSituation::InAction
            }
        },
        TileAction::PayToAll { amount } => {
            &&& !skip
            &&& post.state.players@.len() == n
            &&& forall|k: int|
                0 <= k < n && k != idx ==> #[trigger] post.state.players@[k] == (Player {
                    money: spec_sat_add_i64(
                        pre.state.players@[k].money as int,
                        amount as int,
                    ) as i64,
                    ..pre.state.players@[k]
                })
            &&& post.state.players@[idx] == (Player {
                money: spec_sat_sub_i64(m0, spec_sat_mul_i64(amount as int, n)) as i64,
                ..pre.state.players@[idx]
            })
            &&& post.state.government_income as int == spec_sat_add_i64(g0, amount as int)
            &&& post.state.properties == pre.state.properties
            &&& post.state.pending_ticket == pre.state.pending_ticket
            &&& post.now == if post.state.players@[idx].money < 0 {
                GameSituation::PendingFinancialCrisisResponse
            } else {
                GameSituation::InAction
            }
        },
        TileAction::AllEarn { amount_unit } => {
            let doubled = spec_sat_add_i64(amount_unit as int, amount_unit as int);
            &&& !skip
            &&& post.state.players@.len() == n
            &&& forall|k: int|
                0 <= k < n && k != idx ==> #[trigger] post.state.players@[k] == (Player {
                    money: spec_sat_add_i64(
                        pre.state.players@[k].money as int,
                        amount_unit as int,
                    ) as i64,
                    ..pre.state.players@[k]
                })
            &&& post.state.players@[idx] == (Player {
                money: spec_sat_add_i64(m0, doubled) as i64,
                ..pre.state.players@[idx]
            })
            &&& post.state.government_income as int == spec_sat_add_i64(g0, amount_unit as int)
            &&& post.state.properties == pre.state.properties
            &&& post.state.pending_ticket == pre.state.pending_ticket
            &&& post.now == GameSituation::EndTurn
        },
        TileAction::PromptLuckTest => {
            &&& !skip
            &&& post.state == pre.state
            &&& post.now == GameSituation::PendingLuckTestResponse
        },
        TileAction::PromptFinancialCrisis { cost } => {
            &&& !skip
            &&& post.state.players@ == with_money(
                pre.state.players@,
                idx,
                spec_sat_sub_i64(m0, cost as int),
            )
            &&& post.state.government_income == pre.state.government_income
            &&& post.state.properties == pre.state.properties
            &&& post.state.pending_ticket == pre.state.pending_ticket
            &&& post.now == GameSituation::PendingFinancialCrisisResponse
        },
        TileAction::Educate => {
            &&& !skip
            &&& post.state.players@ == pre.state.players@.update(
                idx,
                (Player {
                    education_status: spec_educated(pre.state.players@[idx].education_status),
                    ..pre.state.players@[idx]
                }),
            )
            &&& post.state.government_income == pre.state.government_income
            &&& post.state.properties == pre.state.properties
            &&& post.state.pending_ticket == pre.state.pending_ticket
            &&& post.now == GameSituation::EndTurn
        },
        TileAction::MedicalCare { free } => {
            match crate::board::spec_first_of_kind(
                pre.state.board@,
                TileKind::Hospital,
                0,
                pre.state.board@.len() as int,
            ) {
                None => false,
                Some(h) => {
                    let cost = spec_half(pre.state.board@[h].amount as int);
                    let tmp = spec_sat_sub_i64(g0, cost);
                    let m1 = if !free {
                        spec_sat_sub_i64(m0, cost)
                    } else {
                        m0
                    };
                    let m2 = if tmp < 0 && !free {
                        spec_sat_sub_i64(m1, tmp)
                    } else {
                        m1
                    };
                    &&& !skip
                    &&& post.state.players@ == with_money(pre.state.players@, idx, m2)
                    &&& post.state.government_income as int == if tmp < 0 {
                        0int
                    } else {
                        tmp
                    }
                    &&& post.state.properties == pre.state.properties
                    &&& post.state.pending_ticket == pre.state.pending_ticket
                    &&& post.now == if m2 < 0 {
                        GameSituation::PendingFinancialCrisisResponse
                    } else {
                        GameSituation::InAction
                    }
                },
            }
        },
        TileAction::Concert { price } => {
            let m1 = spec_sat_sub_i64(m0, price as int);
            &&& !skip
            &&& post.state.players@ == with_money(pre.state.players@, idx, m1)
            &&& post.state.government_income as int == spec_sat_add_i64(
                g0,
                crate::num::spec_div10(price as int),
            )
            &&& post.state.properties == pre.state.properties
            &&& post.state.pending_ticket == pre.state.pending_ticket
            &&& post.now == if m1 < 0 {
                GameSituation::PendingFinancialCrisisResponse
            } else {
                GameSituation::InAction
            }
        },
        TileAction::GetRandomChanceCard => {
            &&& !skip
            &&& post.state == pre.state
            &&& post.now == GameSituation::PendingGetRandomChanceCardResponse
        },
        TileAction::PromptTicket { kind } => {
            let pending = spec_ticket_add(pre.state.pending_ticket, spec_one_ticket(kind@));
            &&& !skip
            &&& post.state.players == pre.state.players
            &&& post.state.government_income == pre.state.government_income
            &&& post.state.properties == pre.state.properties
            &&& post.state.pending_ticket == pending
            &&& post.now == if pending != spec_ticket_zero() {
                GameSituation::PendingUseTicketResponse
            } else {
                GameSituation::InAction
            }
        },
        TileAction::LogMessage { message } => {
            &&& !skip
            &&& post.state.players == pre.state.players
            &&& post.state.government_income == pre.state.government_income
            &&& post.state.properties == pre.state.properties
            &&& post.state.pending_ticket == pre.state.pending_ticket
            &&& post.now == GameSituation::InAction
        },
    }
}

impl GameEngine {
    /// Interprets one tile-landing action. On success the returned flag
    /// says whether the action already redirected the player so the
    /// generic position update is skipped; per-variant effects are pinned
    /// by the effect relation. The action fails exactly when a warp
    /// target is out of range or a medical admission finds no Hospital
    /// tile, and an error changes nothing.
    pub fn apply_tile_action(&mut self, action: TileAction) -> (r: Result<bool, String>)
        requires
            old(self).wf(),
            old(self).now == GameSituation::InAction,
        ensures
            final(self).wf(),
            resolver_frame(*old(self), *final(self)),
            final(self).pending_chance_card_id == old(self).pending_chance_card_id,
            final(self).state.players@.len() == old(self).state.players@.len(),
            forall|k: int|
                0 <= k < old(self).state.players@.len() ==> (#[trigger] final(self).state.players@[k]).cycles == old(self).state.players@[k].cycles,
            forall|k: int|
                0 <= k < old(self).state.players@.len() ==> (#[trigger] final(self).state.players@[k]).tickets_count == old(self).state.players@[k].tickets_count,
            r is Err <==> match action {
                TileAction::WarpToPosition { position } => !(0 <= position
                    < old(self).state.board@.len()),
                TileAction::MedicalCare { free } => spec_hospital_of(old(self).state) is None,
                _ => false,
            },
            match r {
                Ok(skip) => spec_tile_effect(*old(self), *final(self), action, skip),
                Err(_) => final(self).state == old(self).state && final(self).now == old(self).now,
            },
    {
        let idx = self.state.current_turn_idx;
        match action {
            TileAction::PromptBuy { tile_name, price, free_flag, ticket_flag } => {
                let mut msg: String = "Landed on ".to_owned();
                msg.append(tile_name.as_str());
                self.state.log.push(msg);
                if !free_flag && !ticket_flag {
                    let m = self.state.players[idx].money;
                    self.state.players[idx].money = sat_sub_i64(m, price);
                }
                proof {
                    if free_flag || ticket_flag {
                        assert(self.state.players@ =~= with_money(
                            old(self).state.players@,
                            idx as int,
                            old(self).state.players@[idx as int].money as int,
                        ));
                    }
                }
                if self.state.players[idx].money >= self.building_cost {
                    self.state.log.push("Buy a building?".to_owned());
                    self.now = GameSituation::PendingBuyResponse;
                } else {
                    self.state.log.push("Not enough money to buy.".to_owned());
                }
                return Ok(false);
            },
            TileAction::PayTax { amount } => {
                let m = self.state.players[idx].money;
                self.state.players[idx].money = sat_sub_i64(m, amount);
                let g = self.state.government_income;
                self.state.government_income = sat_add_i64(g, amount);
                self.state.log.push("Paid taxes.".to_owned());
                if self.state.players[idx].money < 0 {
                    self.prompt_financial_crisis();
                }
                return Ok(false);
            },
            TileAction::Imprison => {
                self.state.log.push("Imprisoned!".to_owned());
                self.now = GameSituation::EndTurn;
                return Ok(true);
            },
            TileAction::WarpToPosition { position } => {
                if position < 0 || position >= self.state.board.len() as i64 {
                    return Err("warp target is not a board position".to_owned());
                }
                let dest = position as u32;
                self.state.players[idx].position = dest;
                let mut msg: String = "Warped to ".to_owned();
                msg.append(self.state.board[dest as usize].name.as_str());
                self.state.log.push(msg);
                self.now = GameSituation::EndTurn;
                return Ok(true);
            },
            TileAction::PayTo { gov_amount, market_amount, to_player, message } => {
                self.state.log.push(message);
                self.pay_to(gov_amount, market_amount, to_player);
                if self.state.players[idx].money < 0 {
                    self.prompt_financial_crisis();
                }
                return Ok(false);
            },
            TileAction::PayToAll { amount } => {
                self.pay_to_all(amount);
                self.state.log.push("Paid every other player.".to_owned());
                if self.state.players[idx].money < 0 {
                    self.prompt_financial_crisis();
                }
                return Ok(false);
            },
            TileAction::AllEarn { amount_unit } => {
                self.all_earn(amount_unit);
                self.now = GameSituation::EndTurn;
                return Ok(false);
            },
            TileAction::PromptLuckTest => {
                self.now = GameSituation::PendingLuckTestResponse;
                return Ok(false);
            },
            TileAction::PromptFinancialCrisis { cost } => {
                let m = self.state.players[idx].money;
                self.state.players[idx].money = sat_sub_i64(m, cost);
                self.prompt_financial_crisis();
                return Ok(false);
            },
            TileAction::Educate => {
                self.state.players[idx].education_status.educate();
                self.now = GameSituation::EndTurn;
                return Ok(false);
            },
            TileAction::MedicalCare { free } => {
                let _ = self.medical_care(free)?;
                return Ok(false);
            },
            TileAction::Concert { price } => {
                let m = self.state.players[idx].money;
                self.state.players[idx].money = sat_sub_i64(m, price);
                let g = self.state.government_income;
                self.state.government_income = sat_add_i64(g, price / 10);
                if self.state.players[idx].money < 0 {
                    self.prompt_financial_crisis();
                }
                return Ok(false);
            },
            TileAction::GetRandomChanceCard => {
                self.now = GameSituation::PendingGetRandomChanceCardResponse;
                return Ok(false);
            },
            TileAction::PromptTicket { kind } => {
                let one = TicketCount::get_one_ticket(kind.as_str());
                let pending = self.state.pending_ticket.saturating_add(one);
                self.state.pending_ticket = pending;
                if !(pending == TicketCount::zero()) {
                    self.now = GameSituation::PendingUseTicketResponse;
                }
                return Ok(false);
            },
            TileAction::LogMessage { message } => {
                self.state.log.push(message);
                return Ok(false);
            },
        }
    }

    /// The shared pay action: an optional government debit, an optional
    /// market debit (a pure sink), and an optional transfer applied only
    /// if the destination player exists.
    fn pay_to(
        &mut self,
        gov_amount: Option<i64>,
        market_amount: Option<i64>,
        to_player: Option<(i64, u32)>,
    )
        requires
            old(self).wf(),
        ensures
            final(self).wf(),
            resolver_frame(*old(self), *final(self)),
            final(self).now == old(self).now,
            final(self).pending_chance_card_id == old(self).pending_chance_card_id,
            final(self).state.properties == old(self).state.properties,
            final(self).state.pending_ticket == old(self).state.pending_ticket,
            final(self).state.pandemic_counter == old(self).state.pandemic_counter,
            final(self).state.catastrophe_counter == old(self).state.catastrophe_counter,
            final(self).state.players@.len() == old(self).state.players@.len(),
            forall|k: int|
                0 <= k < old(self).state.players@.len() ==> player_same_but_money(
                    #[trigger] old(self).state.players@[k],
                    final(self).state.players@[k],
                ),
            final(self).state.players@ == spec_pay_to(
                old(self).state.players@,
                old(self).state.government_income as int,
                old(self).state.current_turn_idx as int,
                gov_amount,
                market_amount,
                to_player,
            ).0,
            final(self).state.government_income as int == spec_pay_to(
                old(self).state.players@,
                old(self).state.government_income as int,
                old(self).state.current_turn_idx as int,
                gov_amount,
                market_amount,
                to_player,
            ).1,
    {
        let idx = self.state.current_turn_idx;
        if let Some(a) = gov_amount {
            let g = self.state.government_income;
            self.state.government_income = sat_add_i64(g, a);
            let m = self.state.players[idx].money;
            self.state.players[idx].money = sat_sub_i64(m, a);
            self.state.log.push("Paid the government.".to_owned());
        }
        if let Some(a) = market_amount {
            let m = self.state.players[idx].money;
            self.state.players[idx].money = sat_sub_i64(m, a);
            self.state.log.push("Paid the market.".to_owned());
        }
        if let Some((a, pid)) = to_player {
            if let Some(t) = self.state.find_player(pid) {
                let tm = self.state.players[t].money;
                self.state.players[t].money = sat_add_i64(tm, a);
                let m = self.state.players[idx].money;
                self.state.players[idx].money = sat_sub_i64(m, a);
                self.state.log.push("Paid another player.".to_owned());
            }
        }
    }

    /// The acting player pays the amount once per player; every other
    /// player and the treasury each receive the amount.
    fn pay_to_all(&mut self, amount: i64)
        requires
            old(self).wf(),
        ensures
            final(self).wf(),
            resolver_frame(*old(self), *final(self)),
            final(self).now == old(self).now,
            final(self).pending_chance_card_id == old(self).pending_chance_card_id,
            final(self).state.properties == old(self).state.properties,
            final(self).state.pending_ticket == old(self).state.pending_ticket,
            final(self).state.pandemic_counter == old(self).state.pandemic_counter,
            final(self).state.catastrophe_counter == old(self).state.catastrophe_counter,
            final(self).state.log == old(self).state.log,
            final(self).state.players@.len() == old(self).state.players@.len(),
            forall|k: int|
                0 <= k < old(self).state.players@.len() && k != old(self).state.current_turn_idx
                    ==> #[trigger] final(self).state.players@[k] == (Player {
                    money: spec_sat_add_i64(
                        old(self).state.players@[k].money as int,
                        amount as int,
                    ) as i64,
                    ..old(self).state.players@[k]
                }),
            final(self).state.players@[old(self).state.current_turn_idx as int] == (Player {
                money: spec_sat_sub_i64(
                    old(self).state.players@[old(self).state.current_turn_idx as int].money as int,
                    spec_sat_mul_i64(amount as int, old(self).state.players@.len() as int),
                ) as i64,
                ..old(self).state.players@[old(self).state.current_turn_idx as int]
            }),
            final(self).state.government_income as int == spec_sat_add_i64(
                old(self).state.government_income as int,
                amount as int,
            ),
    {
        let idx = self.state.current_turn_idx;
        let n = self.state.players.len();
        let total = sat_mul_i64(amount, n as i64);
        let mut k: usize = 0;
        #[verifier::loop_isolation(false)]
        while k < n
            invariant
                0 <= k <= n,
                n == self.state.players@.len(),
                forall|j: int|
                    0 <= j < k && j != idx ==> #[trigger] self.state.players@[j] == (Player {
                        money: spec_sat_add_i64(
                            old(self).state.players@[j].money as int,
                            amount as int,
                        ) as i64,
                        ..old(self).state.players@[j]
                    }),
                idx < k ==> self.state.players@[idx as int] == (Player {
                    money: spec_sat_sub_i64(
                        old(self).state.players@[idx as int].money as int,
                        spec_sat_mul_i64(amount as int, n as int),
                    ) as i64,
                    ..old(self).state.players@[idx as int]
                }),
                forall|j: int|
                    k <= j < n ==> #[trigger] self.state.players@[j] == old(self).state.players@[j],
                self.state.board == old(self).state.board,
                self.state.consts == old(self).state.consts,
                self.state.properties == old(self).state.properties,
                self.state.chance_cards_inventory == old(self).state.chance_cards_inventory,
                self.state.log == old(self).state.log,
                self.now == old(self).now,
                self.pending_chance_card_id == old(self).pending_chance_card_id,
                self.salary == old(self).salary,
                self.building_cost == old(self).building_cost,
                self.state.dice_double == old(self).state.dice_double,
                self.state.current_turn_idx == old(self).state.current_turn_idx,
                self.state.pandemic_counter == old(self).state.pandemic_counter,
                self.state.catastrophe_counter == old(self).state.catastrophe_counter,
                self.state.luck_test_cache == old(self).state.luck_test_cache,
                self.state.pending_ticket == old(self).state.pending_ticket,
                self.state.government_income == old(self).state.government_income,
            decreases n - k,
        {
            let m = self.state.players[k].money;
            if k == idx {
                self.state.players[k].money = sat_sub_i64(m, total);
            } else {
                self.state.players[k].money = sat_add_i64(m, amount);
            }
            k = k + 1;
        }
        let g = self.state.government_income;
        self.state.government_income = sat_add_i64(g, amount);
    }

    /// Every player gains the unit, the acting player gains double, the
    /// treasury gains one unit.
    fn all_earn(&mut self, amount_unit: i64)
        requires
            old(self).wf(),
        ensures
            final(self).wf(),
            resolver_frame(*old(self), *final(self)),
            final(self).now == old(self).now,
            final(self).pending_chance_card_id == old(self).pending_chance_card_id,
            final(self).state.properties == old(self).state.properties,
            final(self).state.pending_ticket == old(self).state.pending_ticket,
            final(self).state.pandemic_counter == old(self).state.pandemic_counter,
            final(self).state.catastrophe_counter == old(self).state.catastrophe_counter,
            final(self).state.log == old(self).state.log,
            final(self).state.players@.len() == old(self).state.players@.len(),
            forall|k: int|
                0 <= k < old(self).state.players@.len() && k != old(self).state.current_turn_idx
                    ==> #[trigger] final(self).state.players@[k] == (Player {
                    money: spec_sat_add_i64(
                        old(self).state.players@[k].money as int,
                        amount_unit as int,
                    ) as i64,
                    ..old(self).state.players@[k]
                }),
            final(self).state.players@[old(self).state.current_turn_idx as int] == (Player {
                money: spec_sat_add_i64(
                    old(self).state.players@[old(self).state.current_turn_idx as int].money as int,
                    spec_sat_add_i64(amount_unit as int, amount_unit as int),
                ) as i64,
                ..old(self).state.players@[old(self).state.current_turn_idx as int]
            }),
            final(self).state.government_income as int == spec_sat_add_i64(
                old(self).state.government_income as int,
                amount_unit as int,
            ),
    {
        let idx = self.state.current_turn_idx;
        let n = self.state.players.len();
        let doubled = sat_add_i64(amount_unit, amount_unit);
        let mut k: usize = 0;
        #[verifier::loop_isolation(false)]
        while k < n
            invariant
                0 <= k <= n,
                n == self.state.players@.len(),
                forall|j: int|
                    0 <= j < k && j != idx ==> #[trigger] self.state.players@[j] == (Player {
                        money: spec_sat_add_i64(
                            old(self).state.players@[j].money as int,
                            amount_unit as int,
                        ) as i64,
                        ..old(self).state.players@[j]
                    }),
                idx < k ==> self.state.players@[idx as int] == (Player {
                    money: spec_sat_add_i64(
                        old(self).state.players@[idx as int].money as int,
                        spec_sat_add_i64(amount_unit as int, amount_unit as int),
                    ) as i64,
                    ..old(self).state.players@[idx as int]
                }),
                forall|j: int|
                    k <= j < n ==> #[trigger] self.state.players@[j] == old(self).state.players@[j],
                self.state.board == old(self).state.board,
                self.state.consts == old(self).state.consts,
                self.state.properties == old(self).state.properties,
                self.state.chance_cards_inventory == old(self).state.chance_cards_inventory,
                self.state.log == old(self).state.log,
                self.now == old(self).now,
                self.pending_chance_card_id == old(self).pending_chance_card_id,
                self.salary == old(self).salary,
                self.building_cost == old(self).building_cost,
                self.state.dice_double == old(self).state.dice_double,
                self.state.current_turn_idx == old(self).state.current_turn_idx,
                self.state.pandemic_counter == old(self).state.pandemic_counter,
                self.state.catastrophe_counter == old(self).state.catastrophe_counter,
                self.state.luck_test_cache == old(self).state.luck_test_cache,
                self.state.pending_ticket == old(self).state.pending_ticket,
                self.state.government_income == old(self).state.government_income,
            decreases n - k,
        {
            let m = self.state.players[k].money;
            if k == idx {
                self.state.players[k].money = sat_add_i64(m, doubled);
            } else {
                self.state.players[k].money = sat_add_i64(m, amount_unit);
            }
            k = k + 1;
        }
        let g = self.state.government_income;
        self.state.government_income = sat_add_i64(g, amount_unit);
    }
}


/// The per-variant effect of a chance-card action.
pub open spec fn spec_chance_effect(pre: GameEngine, post: GameEngine, action: ChanceAction) -> bool {
    let idx = pre.state.current_turn_idx as int;
    let m0 = pre.state.players@[idx].money as int;
    let g0 = pre.state.government_income as int;
    let n = pre.state.players@.len() as int;
    let board = pre.state.board@;
    match action {
        ChanceAction::Earn { amount } => {
            &&& post.state.players@ == with_money(pre.state.players@, idx, spec_sat_add_i64(m0, amount as int))
            &&& post.state.government_income == pre.state.government_income
            &&& post.state.properties == pre.state.properties
            &&& post.state.pending_ticket == pre.state.pending_ticket
            &&& post.now == GameSituation::EndTurn
        },
        ChanceAction::Earthquake => {
            &&& post.state.players == pre.state.players
            &&& post.state.government_income == pre.state.government_income
            &&& post.state.pending_ticket == pre.state.pending_ticket
            &&& post.state.properties@.len() == pre.state.properties@.len()
            &&& forall|k: int|
                0 <= k < pre.state.properties@.len() ==> post.state.properties@[k] == {
                    let e = #[trigger] pre.state.properties@[k];
                    if e.owner == pre.state.players@[idx].id && e.amount > 1 {
                        (Ownership { amount: (e.amount - 1) as u32, ..e })
                    } else {
                        e
                    }
                }
            &&& post.now == GameSituation::EndTurn
        },
        ChanceAction::GoToJail => {
            match crate::board::spec_first_of_kind(board, TileKind::Jail, 0, board.len() as int) {
                None => false,
                Some(j) => {
                    &&& post.state.players@ == pre.state.players@.update(
                        idx,
                        (Player { position: j as u32, ..pre.state.players@[idx] }),
                    )
                    &&& post.state.government_income == pre.state.government_income
                    &&& post.state.properties == pre.state.properties
                    &&& post.state.pending_ticket == pre.state.pending_ticket
                    &&& post.now == GameSituation::EndTurn
                },
            }
        },
        ChanceAction::GoToHospital => {
            match crate::board::spec_first_of_kind(board, TileKind::Hospital, 0, board.len() as int) {
                None => false,
                Some(h) => {
                    let moved = pre.state.players@.update(
                        idx,
                        (Player { position: h as u32, ..pre.state.players@[idx] }),
                    );
                    if pre.state.players@[idx].tickets_count.free_hospital > 0 {
                        &&& post.state.players@ == moved
                        &&& post.state.government_income == pre.state.government_income
                        &&& post.state.properties == pre.state.properties
                        &&& post.state.pending_ticket == pre.state.pending_ticket
                        &&& post.now == GameSituation::PendingUseTicketResponse
                    } else {
                        let cost = spec_half(board[h].amount as int);
                        let tmp = spec_sat_sub_i64(g0, cost);
                        let m1 = spec_sat_sub_i64(m0, cost);
                        let m2 = if tmp < 0 {
                            spec_sat_sub_i64(m1, tmp)
                        } else {
                            m1
                        };
                        &&& post.state.players@ == with_money(moved, idx, m2)
                        &&& post.state.government_income as int == if tmp < 0 {
                            0int
                        } else {
                            tmp
                        }
                        &&& post.state.properties == pre.state.properties
                        &&& post.state.pending_ticket == pre.state.pending_ticket
                        &&& post.now == if m2 < 0 {
                            GameSituation::EndGame
                        } else {
                            pre.now
                        }
                    }
                },
            }
        },
        ChanceAction::GoToUniversity => {
            match crate::board::spec_first_of_kind(board, TileKind::University, 0, board.len() as int) {
                None => false,
                Some(u) => {
                    &&& post.state.players@ == pre.state.players@.update(
                        idx,
                        (Player {
                            position: u as u32,
                            education_status: spec_educated(pre.state.players@[idx].education_status),
                            ..pre.state.players@[idx]
                        }),
                    )
                    &&& post.state.government_income == pre.state.government_income
                    &&& post.state.properties == pre.state.properties
                    &&& post.state.pending_ticket == pre.state.pending_ticket
                    &&& post.now == GameSituation::EndTurn
                },
            }
        },
        ChanceAction::GetTicket { kind } => {
            &&& post.state.players@ == pre.state.players@.update(
                idx,
                (Player {
                    tickets_count: spec_ticket_add(
                        pre.state.players@[idx].tickets_count,
                        spec_one_ticket(kind@),
                    ),
                    ..pre.state.players@[idx]
                }),
            )
            &&& post.state.government_income == pre.state.government_income
            &&& post.state.properties == pre.state.properties
            &&& post.state.pending_ticket == pre.state.pending_ticket
            &&& post.now == GameSituation::EndTurn
        },
        ChanceAction::TwistOfFate { dice_a, dice_b } => {
            let target = (idx + dice_a + dice_b) % n;
            if target == idx {
                &&& post.state == pre.state
                &&& post.now == pre.now
            } else {
                &&& post.state.players == pre.state.players
                &&& post.state.government_income == pre.state.government_income
                &&& post.state.pending_ticket == pre.state.pending_ticket
                &&& post.state.properties@.len() == pre.state.properties@.len()
                &&& forall|k: int|
                    0 <= k < pre.state.properties@.len() ==> post.state.properties@[k]
                        == crate::state::spec_swapped_entry(
                        #[trigger] pre.state.properties@[k],
                        pre.state.players@[idx].id,
                        pre.state.players@[target].id,
                    )
                &&& post.now == GameSituation::EndTurn
            }
        },
        ChanceAction::PayTo { gov_amount, market_amount, to_player, message } => {
            let out = spec_pay_to(pre.state.players@, g0, idx, gov_amount, market_amount, to_player);
            &&& post.state.players@ == out.0
            &&& post.state.government_income as int == out.1
            &&& post.state.properties == pre.state.properties
            &&& post.state.pending_ticket == pre.state.pending_ticket
            &&& post.now == if out.0[idx].money < 0 {
                GameSituation::PendingFinancialCrisisResponse
            } else {
                GameSituation::EndTurn
            }
        },
        ChanceAction::WarpToPosition { position } => {
            &&& 0 <= position < board.len()
            &&& post.state.players@ == pre.state.players@.update(
                idx,
                (Player { position: position as u32, ..pre.state.players@[idx] }),
            )
            &&& post.state.government_income == pre.state.government_income
            &&& post.state.properties == pre.state.properties
            &&& post.state.pending_ticket == pre.state.pending_ticket
            &&& post.now == GameSituation::EndTurn
        },
        ChanceAction::TravelToPosition { position } => {
            &&& 0 <= position < board.len()
            &&& post.state.players@.len() == n
            &&& post.state.players@[idx].position == position as u32
            &&& post.state.properties == pre.state.properties
            &&& post.now == GameSituation::EndTurn
            &&& (pre.state.players@[idx].position >= position ==> post.state.players@[idx].cycles
                as nat == spec_sat_add_u32(pre.state.players@[idx].cycles as nat, 1))
            &&& (pre.state.players@[idx].position < position ==> {
                &&& post.state.players@ == pre.state.players@.update(
                    idx,
                    (Player { position: position as u32, ..pre.state.players@[idx] }),
                )
                &&& post.state.government_income == pre.state.government_income
                &&& post.state.pending_ticket == pre.state.pending_ticket
            })
        },
        ChanceAction::DestructOnePerEach { targets } => {
            &&& post.state.players == pre.state.players
            &&& post.state.government_income == pre.state.government_income
            &&& post.state.pending_ticket == pre.state.pending_ticket
            &&& post.state.properties@.len() == pre.state.properties@.len()
            &&& forall|k: int|
                0 <= k < pre.state.properties@.len() ==> post.state.properties@[k] == {
                    let e = #[trigger] pre.state.properties@[k];
                    if crate::text::spec_name_in(targets@, board[e.tile as int].name@) && e.amount
                        > 0 {
                        (Ownership { amount: (e.amount - 1) as u32, ..e })
                    } else {
                        e
                    }
                }
            &&& post.now == GameSituation::EndTurn
        },
        ChanceAction::Pandemic => {
            &&& post.state.players == pre.state.players
            &&& post.state.government_income == pre.state.government_income
            &&& post.state.properties == pre.state.properties
            &&& post.state.pending_ticket == pre.state.pending_ticket
            &&& post.state.pandemic_counter as int == crate::num::spec_sat_add_usize(
                crate::num::spec_sat_add_usize(pre.state.pandemic_counter as int, n),
                1,
            )
            &&& post.state.catastrophe_counter == pre.state.catastrophe_counter
            &&& post.now == GameSituation::EndTurn
        },
        ChanceAction::FreeConstruction { target } => {
            let entry = match crate::board::spec_first_of_name(board, target@, 0, board.len() as int) {
                Some(t) => spec_first_entry(pre.state.properties@, t, 0),
                None => None,
            };
            match entry {
                Some(k) => {
                    let e = pre.state.properties@[k];
                    if e.owner == pre.state.players@[idx].id && e.amount < spec_max_buildings(
                        pre.state.consts@,
                    ) {
                        &&& post.state.players == pre.state.players
                        &&& post.state.government_income == pre.state.government_income
                        &&& post.state.pending_ticket == pre.state.pending_ticket
                        &&& post.state.properties@ == pre.state.properties@.update(
                            k,
                            (Ownership { amount: (e.amount + 1) as u32, ..e }),
                        )
                        &&& post.now == GameSituation::EndTurn
                    } else {
                        &&& post.state == pre.state
                        &&& post.now == pre.now
                    }
                },
                None => {
                    &&& post.state == pre.state
                    &&& post.now == pre.now
                },
            }
        },
        ChanceAction::Catastrophe => {
            &&& post.state.players == pre.state.players
            &&& post.state.government_income == pre.state.government_income
            &&& post.state.properties == pre.state.properties
            &&& post.state.pending_ticket == pre.state.pending_ticket
            &&& post.state.catastrophe_counter as int == crate::num::spec_sat_add_usize(
                crate::num::spec_sat_add_usize(pre.state.catastrophe_counter as int, n),
                1,
            )
            &&& post.state.pandemic_counter == pre.state.pandemic_counter
            &&& post.now == GameSituation::EndTurn
        },
        ChanceAction::Nop => {
            &&& post.state == pre.state
            &&& post.now == GameSituation::EndTurn
        },
        ChanceAction::GoToPayElectricityFee { using_ticket } => {
            match crate::board::spec_first_of_name(board, "Electricity"@, 0, board.len() as int) {
                None => false,
                Some(e) => {
                    let fee = board[e].amount;
                    let use_it = using_ticket && pre.state.players@[idx].tickets_count.no_tax > 0;
                    let moved = (Player { position: e as u32, ..pre.state.players@[idx] });
                    let p1 = if use_it {
                        (Player {
                            tickets_count: (TicketCount {
                                no_tax: spec_sub_floor_u32(
                                    pre.state.players@[idx].tickets_count.no_tax as nat,
                                    1,
                                ) as u32,
                                ..pre.state.players@[idx].tickets_count
                            }),
                            ..moved
                        })
                    } else {
                        (Player { money: spec_sat_sub_i64(m0, fee as int) as i64, ..moved })
                    };
                    &&& post.state.players@ == pre.state.players@.update(idx, p1)
                    &&& post.state.government_income == pre.state.government_income
                    &&& post.state.properties == pre.state.properties
                    &&& post.state.pending_ticket == pre.state.pending_ticket
                    &&& post.now == if p1.money < 0 {
                        GameSituation::PendingFinancialCrisisResponse
                    } else {
                        GameSituation::EndTurn
                    }
                },
            }
        },
        ChanceAction::GraduateNow => {
            &&& post.state.players@ == pre.state.players@.update(
                idx,
                (Player {
                    education_status: EducationStatus::Graduated,
                    ..pre.state.players@[idx]
                }),
            )
            &&& post.state.government_income == pre.state.government_income
            &&& post.state.properties == pre.state.properties
            &&& post.state.pending_ticket == pre.state.pending_ticket
            &&& post.now == GameSituation::EndTurn
        },
        ChanceAction::PropertySwap { to_give, to_get } => {
            let gi = match crate::board::spec_first_of_name(board, to_give@, 0, board.len() as int) {
                Some(t) => spec_first_entry(pre.state.properties@, t, 0),
                None => None,
            };
            let ki = match crate::board::spec_first_of_name(board, to_get@, 0, board.len() as int) {
                Some(t) => spec_first_entry(pre.state.properties@, t, 0),
                None => None,
            };
            match (gi, ki) {
                (Some(g), Some(k)) => {
                    &&& post.state.players == pre.state.players
                    &&& post.state.government_income == pre.state.government_income
                    &&& post.state.pending_ticket == pre.state.pending_ticket
                    &&& post.state.properties@.len() == pre.state.properties@.len()
                    &&& forall|j: int|
                        0 <= j < pre.state.properties@.len() && j != g && j != k
                            ==> #[trigger] post.state.properties@[j] == pre.state.properties@[j]
                    &&& post.state.properties@[g] == (Ownership {
                        owner: pre.state.properties@[k].owner,
                        ..pre.state.properties@[g]
                    })
                    &&& (g != k ==> post.state.properties@[k] == (Ownership {
                        owner: pre.state.properties@[g].owner,
                        ..pre.state.properties@[k]
                    }))
                    &&& post.now == GameSituation::EndTurn
                },
                _ => false,
            }
        },
        ChanceAction::Unknown => {
            &&& post.state == pre.state
            &&& post.now == pre.now
        },
    }
}



/// How a completed roll decomposes: from the post-cycle state `mid` (the
/// pre-roll state after the board-wrap payday, with the double flag set
/// and the situation opened), some action `a` taken from the script moved
/// the engine to `end`; then an unresolved situation defaulted to EndTurn
/// and, unless the action redirected the player, the generic position
/// update placed them on `(P + S) mod N`.
pub open spec fn spec_roll_resolution(
    pre: GameEngine,
    mid: GameEngine,
    end: GameEngine,
    post: GameEngine,
    a: TileAction,
    skip: bool,
    d0: u16,
    d1: u16,
) -> bool {
    let idx = pre.state.current_turn_idx as int;
    let len = pre.state.board@.len() as int;
    let next = spec_next_position(
        pre.state.players@[idx].position as int,
        d0 as int,
        d1 as int,
        len,
    );
    &&& mid.state.board == pre.state.board
    &&& mid.building_cost == pre.building_cost
    &&& mid.state.current_turn_idx == pre.state.current_turn_idx
    &&& mid.state.players@.len() == pre.state.players@.len()
    &&& mid.state.players@[idx].position == pre.state.players@[idx].position
    &&& mid.state.properties == pre.state.properties
    &&& (d0 == 0 && d1 == 0 || pre.state.players@[idx].position < next ==> {
        &&& mid.state.players@ == pre.state.players@
        &&& mid.state.government_income == pre.state.government_income
        &&& mid.state.pending_ticket == pre.state.pending_ticket
    })
    &&& mid.now == GameSituation::InAction
    &&& spec_tile_effect(mid, end, a, skip)
    &&& post.now == if end.now == GameSituation::InAction {
        GameSituation::EndTurn
    } else {
        end.now
    }
    &&& post.state.players@ == if skip {
        end.state.players@
    } else {
        end.state.players@.update(
            idx,
            (Player { position: next as u32, ..end.state.players@[idx] }),
        )
    }
    &&& post.state.properties == end.state.properties
    &&& post.state.government_income == end.state.government_income
    &&& post.state.pending_ticket == end.state.pending_ticket
}


/// The engine after a ticket was (or was declined to be) spent and before
/// the tile script re-runs: identical to `pre` but for the acting player's
/// ticket counters.
pub open spec fn spec_ticket_spent_state(
    pre: GameEngine,
    mid: GameEngine,
    tickets: TicketCount,
) -> bool {
    let idx = pre.state.current_turn_idx as int;
    &&& mid.salary == pre.salary
    &&& mid.building_cost == pre.building_cost
    &&& mid.pending_chance_card_id == pre.pending_chance_card_id
    &&& crate::state::only_players_changed(pre.state, mid.state)
    &&& mid.state.players@ == pre.state.players@.update(
        idx,
        (Player { tickets_count: tickets, ..pre.state.players@[idx] }),
    )
}

/// The clauses a roll operation guarantees whatever the scripts did: the
/// immutable data and the acting index stay; a `(0, 0)` replay never
/// counts a lap and leaves the double flag alone; a real roll sets the
/// double flag and, when it completes, counts a lap exactly on board wrap.
pub open spec fn spec_roll_outcome(
    pre: GameEngine,
    post: GameEngine,
    d0: u16,
    d1: u16,
    ok: bool,
) -> bool {
    let idx = pre.state.current_turn_idx as int;
    let zero = d0 == 0 && d1 == 0;
    let len = pre.state.board@.len() as int;
    let wrap = pre.state.players@[idx].position >= spec_next_position(
        pre.state.players@[idx].position as int,
        d0 as int,
        d1 as int,
        len,
    );
    &&& post.wf()
    &&& post.salary == pre.salary
    &&& post.building_cost == pre.building_cost
    &&& post.state.board == pre.state.board
    &&& post.state.chance_cards_inventory == pre.state.chance_cards_inventory
    &&& post.state.consts == pre.state.consts
    &&& post.state.current_turn_idx == pre.state.current_turn_idx
    &&& post.state.players@.len() == pre.state.players@.len()
    &&& forall|k: int|
        0 <= k < pre.state.players@.len() && k != idx ==> (#[trigger] post.state.players@[k]).cycles
            == pre.state.players@[k].cycles
    &&& (zero ==> post.state.players@[idx].cycles == pre.state.players@[idx].cycles)
    &&& forall|k: int|
        0 <= k < pre.state.players@.len() ==> (#[trigger] post.state.players@[k]).tickets_count
            == pre.state.players@[k].tickets_count
    &&& (zero ==> post.state.dice_double == pre.state.dice_double)
    &&& (!zero ==> post.state.dice_double == (d0 == d1))
    &&& (!zero ==> post.state.players@[idx].cycles as nat == if wrap {
        spec_sat_add_u32(pre.state.players@[idx].cycles as nat, 1)
    } else {
        pre.state.players@[idx].cycles as nat
    })
    &&& (ok ==> post.now != GameSituation::InAction)
    &&& (ok ==> exists|mid: GameEngine, end: GameEngine, a: TileAction, skip: bool|
        #[trigger] spec_roll_resolution(pre, mid, end, post, a, skip, d0, d1))
    // a failing roll keeps what was already applied and rolls nothing back:
    // the situation stays open, the position and the ownership table are
    // untouched, and the payday — when one was triggered — either stuck in
    // full or its script failed before handing anything out
    &&& (!ok ==> post.now == GameSituation::InAction)
    &&& (!ok ==> post.state.players@[idx].position == pre.state.players@[idx].position
        && post.state.properties == pre.state.properties)
    &&& (!ok && (zero || !wrap) ==> post.state.players == pre.state.players
        && post.state.government_income == pre.state.government_income
        && post.state.pending_ticket == pre.state.pending_ticket)
    &&& (!ok && !zero && wrap ==> {
        let bumped = pre.state.players@.update(
            idx,
            (Player {
                cycles: spec_sat_add_u32(pre.state.players@[idx].cycles as nat, 1) as u32,
                ..pre.state.players@[idx]
            }),
        );
        ||| exists|oc: CycleOutcome|
            #[trigger] spec_cycle_applied(
                bumped,
                pre.state.pending_ticket,
                post.state.players@,
                post.state.government_income,
                post.state.pending_ticket,
                idx,
                oc,
            )
        ||| {
            &&& forall|k: int|
                0 <= k < pre.state.players@.len() ==> (#[trigger] post.state.players@[k]).money
                    == pre.state.players@[k].money
            &&& post.state.government_income == pre.state.government_income
            &&& post.state.pending_ticket == pre.state.pending_ticket
        }
    })
}



/// What a failing lap-completing travel leaves behind: the move stood and
/// the lap may have been counted, but no money, buildings or tickets
/// changed hands and the situation is as it was.
pub open spec fn spec_travel_err_retained(pre: GameEngine, post: GameEngine) -> bool {
    let idx = pre.state.current_turn_idx as int;
    &&& post.now == pre.now
    &&& post.state.players@.len() == pre.state.players@.len()
    &&& post.state.players@[idx].position < pre.state.board@.len()
    &&& forall|k: int|
        0 <= k < pre.state.players@.len() ==> (#[trigger] post.state.players@[k]).money
            == pre.state.players@[k].money
    &&& forall|k: int|
        0 <= k < pre.state.players@.len() && k != idx ==> (#[trigger] post.state.players@[k]).position == pre.state.players@[k].position
    &&& post.state.properties == pre.state.properties
    &&& post.state.government_income == pre.state.government_income
    &&& post.state.pending_ticket == pre.state.pending_ticket
}

/// When a chance action other than TravelToPosition fails: the board lacks
/// the tile it needs, a warp target is out of range, or a swapped property
/// is unknown or unowned. All other actions always succeed.
pub open spec fn spec_chance_error(pre: GameEngine, action: ChanceAction) -> bool {
    let board = pre.state.board@;
    let len = board.len() as int;
    match action {
        ChanceAction::GoToJail => crate::board::spec_first_of_kind(
            board,
            TileKind::Jail,
            0,
            len,
        ) is None,
        ChanceAction::GoToHospital => crate::board::spec_first_of_kind(
            board,
            TileKind::Hospital,
            0,
            len,
        ) is None,
        ChanceAction::GoToUniversity => crate::board::spec_first_of_kind(
            board,
            TileKind::University,
            0,
            len,
        ) is None,
        ChanceAction::WarpToPosition { position } => !(0 <= position < len),
        ChanceAction::GoToPayElectricityFee { using_ticket } => crate::board::spec_first_of_name(
            board,
            "Electricity"@,
            0,
            len,
        ) is None,
        ChanceAction::PropertySwap { to_give, to_get } => {
            let gi = match crate::board::spec_first_of_name(board, to_give@, 0, len) {
                Some(t) => spec_first_entry(pre.state.properties@, t, 0),
                None => None,
            };
            let ki = match crate::board::spec_first_of_name(board, to_get@, 0, len) {
                Some(t) => spec_first_entry(pre.state.properties@, t, 0),
                None => None,
            };
            gi is None || ki is None
        },
        _ => false,
    }
}


impl GameEngine {
    /// The shared body of a roll and of a ticket-driven re-roll: computes
    /// the destination, sets the double flag, runs the cycle computation
    /// on board wrap, evaluates the action script over the fact scope and
    /// interprets the result, then defaults an unresolved situation to
    /// EndTurn and takes the position update unless the action redirected
    /// it.
    #[verifier::rlimit(60)]
    fn try_run_turn_script(
        &mut self,
        script_action: &str,
        dices: Option<DicePair>,
        script_cycle: &str,
        to_use_ticket: i64,
    ) -> (r: Result<(), String>)
        requires
            old(self).wf(),
        ensures
            final(self).wf(),
            spec_roll_outcome(
                *old(self),
                *final(self),
                match dices {
                    Some(d) => d.0,
                    None => 0u16,
                },
                match dices {
                    Some(d) => d.1,
                    None => 0u16,
                },
                r is Ok,
            ),
    {
        self.now = GameSituation::InAction;
        let idx = self.state.current_turn_idx;
        let d = match dices {
            Some(d) => d,
            None => DicePair::new(0, 0),
        };
        let zero = d.0 == 0 && d.1 == 0;
        let old_pos = self.state.players[idx].position;
        let len = self.state.board.len() as u32;
        let new_pos = next_position(old_pos, d.0, d.1, len);
        let player_id = self.state.players[idx].id;
        let tile = self.state.board[new_pos as usize].clone();
        let entry = self.state.find_property(new_pos as usize);
        let is_owned = match entry {
            Some(_) => true,
            None => false,
        };
        let owner_id = match entry {
            Some(k) => Some(self.state.properties[k].owner),
            None => None,
        };
        let owned_amount = match entry {
            Some(k) => Some(self.state.properties[k].amount),
            None => None,
        };
        if !zero {
            self.state.dice_double = d.0 == d.1;
        }
        if old_pos >= new_pos && !zero {
            self.trigger_cycle(script_cycle)?;
        }
        let max_buildings = self.state.max_buildings();
        let tickets = self.state.players[idx].tickets_count;
        let mut scope = bridge::scope_new();
        bridge::scope_push_u32(&mut scope, "player_id", player_id);
        bridge::scope_push_tile(&mut scope, "tile", tile);
        bridge::scope_push_bool(&mut scope, "is_owned", is_owned);
        bridge::scope_push_opt_u32(&mut scope, "owner_id", owner_id);
        bridge::scope_push_opt_u32(&mut scope, "owned_amount", owned_amount);
        bridge::scope_push_i64(&mut scope, "building_cost", self.building_cost);
        bridge::scope_push_const_u32(&mut scope, "MAX_BUILDINGS", max_buildings);
        bridge::scope_push_i64(&mut scope, "to_use_ticket", to_use_ticket);
        bridge::scope_push_tickets(&mut scope, "tickets", tickets);
        let map = bridge::eval_script_map(&self.engine, &mut scope, script_action)?;
        let action = parse_tile_action(&map)?;
        let ghost gmid = *self;
        let ghost gaction = action;
        let skip = self.apply_tile_action(action)?;
        let ghost gend = *self;
        if self.now == GameSituation::InAction {
            self.now = GameSituation::EndTurn;
        }
        if !skip {
            self.state.players[idx].position = new_pos;
        }
        proof {
            assert(spec_roll_resolution(*old(self), gmid, gend, *self, gaction, skip, d.0, d.1));
        }
        Ok(())
    }

    /// One roll of the active player, valid only while a roll is awaited;
    /// outside that situation nothing changes.
    pub fn run_turn_script(
        &mut self,
        script_action: &str,
        dices: DicePair,
        script_cycle: &str,
    ) -> (r: Result<(), String>)
        requires
            old(self).wf(),
        ensures
            final(self).wf(),
            old(self).now != GameSituation::PendingRollResponse ==> r is Ok && *final(self) == *old(self),
            old(self).now == GameSituation::PendingRollResponse ==> spec_roll_outcome(
                *old(self),
                *final(self),
                dices.0,
                dices.1,
                r is Ok,
            ),
    {
        if !(self.now == GameSituation::PendingRollResponse) {
            return Ok(());
        }
        self.try_run_turn_script(script_action, Some(dices), script_cycle, 0)
    }

    /// Spends (or declines to spend) a ticket while one is awaited; the
    /// effect dispatches on the type of the tile the player stands on.
    /// Outside that situation nothing changes. On a Jail tile a release
    /// ticket clears the jail turns; a LuckTest tile re-enters the luck
    /// test boosted; a Hospital tile runs the admission, waived when a
    /// free-hospital ticket is spent; Property, IndustrialComplex and Tax
    /// tiles re-run the tile script with the ticket-override fact; any
    /// other tile type is a no-op.
    pub fn use_ticket(
        &mut self,
        to_use: TicketCount,
        script_action: &str,
        script_cycle: &str,
    ) -> (r: Result<(), String>)
        requires
            old(self).wf(),
        ensures
            final(self).wf(),
            old(self).now != GameSituation::PendingUseTicketResponse ==> r is Ok && *final(self)
                == *old(self),
            old(self).now == GameSituation::PendingUseTicketResponse ==> {
                let idx = old(self).state.current_turn_idx as int;
                let kind = spec_kind_of(
                    old(self).state.board@[old(self).state.players@[idx].position as int].tile_type@,
                );
                &&& (kind == TileKind::Jail ==> r is Ok && final(self).now == GameSituation::EndTurn
                    && final(self).state.players@.len() == old(self).state.players@.len() && final(self).state.players@[idx].remaining_jail_turns == (if to_use.release_from_jail > 0 {
                    0u32
                } else {
                    old(self).state.players@[idx].remaining_jail_turns
                }) && final(self).state.players@[idx].tickets_count.release_from_jail as nat == (
                if to_use.release_from_jail > 0 {
                    spec_sub_floor_u32(
                        old(self).state.players@[idx].tickets_count.release_from_jail as nat,
                        1,
                    )
                } else {
                    old(self).state.players@[idx].tickets_count.release_from_jail as nat
                }))
                &&& (kind == TileKind::LuckTest ==> r is Ok && (if to_use.double_lotto > 0 {
                    &&& final(self).state.players@.len() == old(self).state.players@.len()
                    &&& final(self).state.players@[idx].tickets_count.double_lotto as nat == spec_sub_floor_u32(
                        old(self).state.players@[idx].tickets_count.double_lotto as nat,
                        1,
                    )
                    &&& exists|hit: bool|
                        final(self).state.luck_test_cache as int == #[trigger] spec_luck_step(
                            old(self).state.luck_test_cache as int,
                            hit,
                            true,
                        )
                    &&& final(self).now == if final(self).state.luck_test_cache == 0 {
                        GameSituation::EndTurn
                    } else {
                        GameSituation::PendingLuckTestResponse
                    }
                } else {
                    &&& final(self).state == old(self).state
                    &&& final(self).now == GameSituation::PendingLuckTestResponse
                }))
                &&& (kind == TileKind::Hospital ==> {
                    let h = crate::board::spec_first_of_kind(
                        old(self).state.board@,
                        TileKind::Hospital,
                        0,
                        old(self).state.board@.len() as int,
                    );
                    let waived = to_use.free_hospital > 0;
                    let cost = spec_half(old(self).state.board@[h->0].amount as int);
                    let tmp = spec_sat_sub_i64(
                        old(self).state.government_income as int,
                        cost,
                    );
                    let m1 = if !waived {
                        spec_sat_sub_i64(old(self).state.players@[idx].money as int, cost)
                    } else {
                        old(self).state.players@[idx].money as int
                    };
                    let m2 = if tmp < 0 && !waived {
                        spec_sat_sub_i64(m1, tmp)
                    } else {
                        m1
                    };
                    &&& r is Ok
                    &&& h is Some
                    &&& final(self).now == GameSituation::EndTurn
                    &&& final(self).state.players@ == old(self).state.players@.update(
                        idx,
                        (Player {
                            money: m2 as i64,
                            tickets_count: (TicketCount {
                                free_hospital: (if waived {
                                    spec_sub_floor_u32(
                                        old(
                                            self,
                                        ).state.players@[idx].tickets_count.free_hospital as nat,
                                        1,
                                    )
                                } else {
                                    old(
                                        self,
                                    ).state.players@[idx].tickets_count.free_hospital as nat
                                }) as u32,
                                ..old(self).state.players@[idx].tickets_count
                            }),
                            ..old(self).state.players@[idx]
                        }),
                    )
                    &&& final(self).state.government_income as int == if tmp < 0 {
                        0int
                    } else {
                        tmp
                    }
                    &&& final(self).state.properties == old(self).state.properties
                    &&& final(self).state.pending_ticket == old(self).state.pending_ticket
                })
                &&& ((kind == TileKind::Property || kind == TileKind::IndustrialComplex)
                    ==> exists|mid: GameEngine|
                    #[trigger] spec_roll_outcome(mid, *final(self), 0, 0, r is Ok)
                        && spec_ticket_spent_state(
                        *old(self),
                        mid,
                        (TicketCount {
                            free_property: (if to_use.free_property > 0 {
                                spec_sub_floor_u32(
                                    old(
                                        self,
                                    ).state.players@[idx].tickets_count.free_property as nat,
                                    1,
                                )
                            } else {
                                old(
                                    self,
                                ).state.players@[idx].tickets_count.free_property as nat
                            }) as u32,
                            ..old(self).state.players@[idx].tickets_count
                        }),
                    ))
                &&& (kind == TileKind::Tax ==> exists|mid: GameEngine|
                    #[trigger] spec_roll_outcome(mid, *final(self), 0, 0, r is Ok)
                        && spec_ticket_spent_state(
                        *old(self),
                        mid,
                        (TicketCount {
                            no_tax: (if to_use.no_tax > 0 {
                                spec_sub_floor_u32(
                                    old(self).state.players@[idx].tickets_count.no_tax as nat,
                                    1,
                                )
                            } else {
                                old(self).state.players@[idx].tickets_count.no_tax as nat
                            }) as u32,
                            ..old(self).state.players@[idx].tickets_count
                        }),
                    ))
                &&& (!(kind == TileKind::Jail || kind == TileKind::LuckTest || kind
                    == TileKind::Hospital || kind == TileKind::Property || kind
                    == TileKind::IndustrialComplex || kind == TileKind::Tax) ==> r is Ok && *final(self) == *old(self))
            },
    {
        if !(self.now == GameSituation::PendingUseTicketResponse) {
            return Ok(());
        }
        let idx = self.state.current_turn_idx;
        let pos = self.state.players[idx].position;
        let kind = self.state.board[pos as usize].kind();
        match kind {
            TileKind::LuckTest => {
                self.now = GameSituation::PendingLuckTestResponse;
                if to_use.double_lotto > 0 {
                    let t = self.state.players[idx].tickets_count.double_lotto;
                    self.state.players[idx].tickets_count.double_lotto = sub_floor_u32(t, 1);
                    self.luck_test(true);
                    proof {
                        // a spent cache stays spent: the miss step is a witness
                        if old(self).state.luck_test_cache == 0 {
                            assert(self.state.luck_test_cache as int == spec_luck_step(
                                old(self).state.luck_test_cache as int,
                                false,
                                true,
                            ));
                        }
                    }
                }
                Ok(())
            },
            TileKind::Jail => {
                if to_use.release_from_jail > 0 {
                    let t = self.state.players[idx].tickets_count.release_from_jail;
                    self.state.players[idx].tickets_count.release_from_jail = sub_floor_u32(t, 1);
                    self.state.players[idx].remaining_jail_turns = 0;
                }
                self.now = GameSituation::EndTurn;
                return Ok(());
            },
            TileKind::Hospital => {
                proof {
                    crate::board::lemma_kind_present_finds_first(
                        self.state.board@,
                        TileKind::Hospital,
                        self.state.players@[idx as int].position as int,
                    );
                }
                let waived = to_use.free_hospital > 0;
                if waived {
                    let t = self.state.players[idx].tickets_count.free_hospital;
                    self.state.players[idx].tickets_count.free_hospital = sub_floor_u32(t, 1);
                }
                let _ = self.medical_care(waived)?;
                proof {
                    assert(self.state.players@ =~= old(self).state.players@.update(
                        idx as int,
                        (Player {
                            money: self.state.players@[idx as int].money,
                            tickets_count: self.state.players@[idx as int].tickets_count,
                            ..old(self).state.players@[idx as int]
                        }),
                    ));
                }
                self.now = GameSituation::EndTurn;
                return Ok(());
            },
            TileKind::Property | TileKind::IndustrialComplex => {
                let override_flag: i64 = if to_use.free_property > 0 {
                    let t = self.state.players[idx].tickets_count.free_property;
                    self.state.players[idx].tickets_count.free_property = sub_floor_u32(t, 1);
                    1
                } else {
                    -1
                };
                proof {
                    assert(self.state.players@ =~= old(self).state.players@.update(
                        idx as int,
                        (Player {
                            tickets_count: self.state.players@[idx as int].tickets_count,
                            ..old(self).state.players@[idx as int]
                        }),
                    ));
                }
                let ghost mid = *self;
                let r = self.try_run_turn_script(script_action, None, script_cycle, override_flag);
                proof {
                    assert(spec_roll_outcome(mid, *self, 0, 0, r is Ok));
                }
                r
            },
            TileKind::Tax => {
                let override_flag: i64 = if to_use.no_tax > 0 {
                    let t = self.state.players[idx].tickets_count.no_tax;
                    self.state.players[idx].tickets_count.no_tax = sub_floor_u32(t, 1);
                    1
                } else {
                    -1
                };
                proof {
                    assert(self.state.players@ =~= old(self).state.players@.update(
                        idx as int,
                        (Player {
                            tickets_count: self.state.players@[idx as int].tickets_count,
                            ..old(self).state.players@[idx as int]
                        }),
                    ));
                }
                let ghost mid = *self;
                let r = self.try_run_turn_script(script_action, None, script_cycle, override_flag);
                proof {
                    assert(spec_roll_outcome(mid, *self, 0, 0, r is Ok));
                }
                r
            },
            _ => Ok(()),
        }
    }

    /// Interprets one chance-card action; per-variant effects are pinned
    /// by the effect relation, and the error relation pins exactly when an
    /// action fails: a board without the tile it needs, an out-of-range
    /// destination, an unowned property in a swap, or — for a
    /// lap-completing travel only — a failing cycle script, whose already
    /// applied mutations stay applied.
    #[verifier::rlimit(60)]
    pub fn apply_chance_action(&mut self, action: ChanceAction, script_cycle: &str) -> (r: Result<
        (),
        String,
    >)
        requires
            old(self).wf(),
        ensures
            final(self).wf(),
            resolver_frame(*old(self), *final(self)),
            final(self).pending_chance_card_id == old(self).pending_chance_card_id,
            r is Ok ==> spec_chance_effect(*old(self), *final(self), action),
            r is Err ==> (final(self).state == old(self).state && final(self).now == old(self).now)
                || spec_travel_err_retained(*old(self), *final(self)),
            match action {
                ChanceAction::TravelToPosition { position } => {
                    &&& (!(0 <= position < old(self).state.board@.len()) ==> r is Err)
                    &&& (r is Err && 0 <= position < old(self).state.board@.len() ==> {
                        let idx = old(self).state.current_turn_idx as int;
                        &&& final(self).state.players@.len() == old(self).state.players@.len()
                        &&& final(self).state.players@[idx].position == position as u32
                        &&& (old(self).state.players@[idx].position >= position
                            ==> final(self).state.players@[idx].cycles as nat == spec_sat_add_u32(
                            old(self).state.players@[idx].cycles as nat,
                            1,
                        ))
                        &&& final(self).state.properties == old(self).state.properties
                        &&& final(self).state.government_income == old(self).state.government_income
                        &&& final(self).state.pending_ticket == old(self).state.pending_ticket
                    })
                },
                _ => r is Err <==> spec_chance_error(*old(self), action),
            },
    {
        let idx = self.state.current_turn_idx;
        match action {
            ChanceAction::Earn { amount } => {
                let m = self.state.players[idx].money;
                self.state.players[idx].money = sat_add_i64(m, amount);
                self.now = GameSituation::EndTurn;
                return Ok(());
            },
            ChanceAction::Earthquake => {
                let pid = self.state.players[idx].id;
                self.state.earthquake(pid);
                proof {
                    assert forall|k: int| 0 <= k < self.state.properties@.len() implies {
                        &&& (#[trigger] self.state.properties@[k]).tile
                            < self.state.board@.len()
                        &&& self.state.properties@[k].amount <= spec_max_buildings(
                            self.state.consts@,
                        )
                    } by {
                        assert(old(self).state.properties@[k].tile < old(self).state.board@.len());
                    }
                    assert forall|i: int, j: int|
                        0 <= i < j < self.state.properties@.len() implies (
                    #[trigger] self.state.properties@[i]).tile != (
                    #[trigger] self.state.properties@[j]).tile by {
                        assert(old(self).state.properties@[i].tile != old(self).state.properties@[j].tile);
                    }
                }
                self.now = GameSituation::EndTurn;
                return Ok(());
            },
            ChanceAction::GoToJail => {
                let j = match find_first_of_kind(&self.state.board, TileKind::Jail) {
                    Some(j) => j,
                    None => {
                        return Err("the board has no Jail tile".to_owned());
                    },
                };
                self.state.players[idx].position = j as u32;
                self.state.log.push("Sent to Jail!".to_owned());
                self.now = GameSituation::EndTurn;
                return Ok(());
            },
            ChanceAction::GoToHospital => {
                let h = match find_first_of_kind(&self.state.board, TileKind::Hospital) {
                    Some(h) => h,
                    None => {
                        return Err("the board has no Hospital tile".to_owned());
                    },
                };
                self.state.players[idx].position = h as u32;
                if self.state.players[idx].tickets_count.free_hospital > 0 {
                    self.now = GameSituation::PendingUseTicketResponse;
                } else {
                    let avoided = self.medical_care(false)?;
                    if !avoided {
                        self.now = GameSituation::EndGame;
                    }
                }
                return Ok(());
            },
            ChanceAction::GoToUniversity => {
                let u = match find_first_of_kind(&self.state.board, TileKind::University) {
                    Some(u) => u,
                    None => {
                        return Err("the board has no University tile".to_owned());
                    },
                };
                self.state.players[idx].position = u as u32;
                self.state.log.push("Sent to University!".to_owned());
                self.state.players[idx].education_status.educate();
                proof {
                    assert(self.state.players@ =~= old(self).state.players@.update(
                        idx as int,
                        (Player {
                            position: u as u32,
                            education_status: spec_educated(
                                old(self).state.players@[idx as int].education_status,
                            ),
                            ..old(self).state.players@[idx as int]
                        }),
                    ));
                }
                self.now = GameSituation::EndTurn;
                return Ok(());
            },
            ChanceAction::GetTicket { kind } => {
                let one = TicketCount::get_one_ticket(kind.as_str());
                let t = self.state.players[idx].tickets_count;
                self.state.players[idx].tickets_count = t.saturating_add(one);
                self.now = GameSituation::EndTurn;
                return Ok(());
            },
            ChanceAction::TwistOfFate { dice_a, dice_b } => {
                let n = self.state.players.len();
                let target = ((idx as u64 + dice_a as u64 + dice_b as u64) % (n as u64)) as usize;
                if target != idx {
                    let a_id = self.state.players[idx].id;
                    let b_id = self.state.players[target].id;
                    self.state.swap_properties_between(a_id, b_id);
                    proof {
                        assert forall|k: int| 0 <= k < self.state.properties@.len() implies {
                            &&& (#[trigger] self.state.properties@[k]).tile
                                < self.state.board@.len()
                            &&& self.state.properties@[k].amount <= spec_max_buildings(
                                self.state.consts@,
                            )
                        } by {
                            assert(old(self).state.properties@[k].tile < old(self).state.board@.len());
                        }
                        assert forall|i: int, j: int|
                            0 <= i < j < self.state.properties@.len() implies (
                        #[trigger] self.state.properties@[i]).tile != (
                        #[trigger] self.state.properties@[j]).tile by {
                            assert(old(self).state.properties@[i].tile != old(self).state.properties@[j].tile);
                        }
                    }
                    self.now = GameSituation::EndTurn;
                }
                return Ok(());
            },
            ChanceAction::PayTo { gov_amount, market_amount, to_player, message } => {
                self.state.log.push(message);
                self.pay_to(gov_amount, market_amount, to_player);
                if self.state.players[idx].money < 0 {
                    self.prompt_financial_crisis();
                } else {
                    self.now = GameSituation::EndTurn;
                }
                return Ok(());
            },
            ChanceAction::WarpToPosition { position } => {
                if position < 0 || position >= self.state.board.len() as i64 {
                    return Err("warp target is not a board position".to_owned());
                }
                let dest = position as u32;
                self.state.players[idx].position = dest;
                let mut msg: String = "Warped to ".to_owned();
                msg.append(self.state.board[dest as usize].name.as_str());
                self.state.log.push(msg);
                self.now = GameSituation::EndTurn;
                return Ok(());
            },
            ChanceAction::TravelToPosition { position } => {
                if position < 0 || position >= self.state.board.len() as i64 {
                    return Err("travel target is not a board position".to_owned());
                }
                let dest = position as u32;
                let old_pos = self.state.players[idx].position;
                self.state.players[idx].position = dest;
                let mut msg: String = "Traveled to ".to_owned();
                msg.append(self.state.board[dest as usize].name.as_str());
                self.state.log.push(msg);
                if old_pos >= dest {
                    self.trigger_cycle(script_cycle)?;
                }
                self.now = GameSituation::EndTurn;
                return Ok(());
            },
            ChanceAction::DestructOnePerEach { targets } => {
                self.state.destruct_one_per_each(&targets);
                proof {
                    assert forall|k: int| 0 <= k < self.state.properties@.len() implies {
                        &&& (#[trigger] self.state.properties@[k]).tile
                            < self.state.board@.len()
                        &&& self.state.properties@[k].amount <= spec_max_buildings(
                            self.state.consts@,
                        )
                    } by {
                        assert(old(self).state.properties@[k].tile < old(self).state.board@.len());
                    }
                    assert forall|i: int, j: int|
                        0 <= i < j < self.state.properties@.len() implies (
                    #[trigger] self.state.properties@[i]).tile != (
                    #[trigger] self.state.properties@[j]).tile by {
                        assert(old(self).state.properties@[i].tile != old(self).state.properties@[j].tile);
                    }
                }
                self.now = GameSituation::EndTurn;
                return Ok(());
            },
            ChanceAction::Pandemic => {
                let n = self.state.players.len();
                proof {
                    assert(self.state.players@.len() <= u32::MAX);
                }
                let c = self.state.pandemic_counter;
                self.state.pandemic_counter = sat_add_usize(sat_add_usize(c, n), 1);
                self.now = GameSituation::EndTurn;
                return Ok(());
            },
            ChanceAction::FreeConstruction { target } => {
                let t = match find_first_of_name(&self.state.board, target.as_str()) {
                    Some(t) => t,
                    None => {
                        return Ok(());
                    },
                };
                let k = match self.state.find_property(t) {
                    Some(k) => k,
                    None => {
                        return Ok(());
                    },
                };
                let cap = self.state.max_buildings();
                let e = self.state.properties[k];
                if e.owner == self.state.players[idx].id && e.amount < cap {
                    self.state.properties[k].amount = e.amount + 1;
                    self.now = GameSituation::EndTurn;
                }
                return Ok(());
            },
            ChanceAction::Catastrophe => {
                let n = self.state.players.len();
                proof {
                    assert(self.state.players@.len() <= u32::MAX);
                }
                let c = self.state.catastrophe_counter;
                self.state.catastrophe_counter = sat_add_usize(sat_add_usize(c, n), 1);
                self.now = GameSituation::EndTurn;
                return Ok(());
            },
            ChanceAction::Nop => {
                self.now = GameSituation::EndTurn;
                return Ok(());
            },
            ChanceAction::GoToPayElectricityFee { using_ticket } => {
                let e = match find_first_of_name(&self.state.board, "Electricity") {
                    Some(e) => e,
                    None => {
                        return Err("the board has no tile named Electricity".to_owned());
                    },
                };
                let fee = self.state.board[e].amount;
                self.state.players[idx].position = e as u32;
                self.state.log.push("Sent to Electricity!".to_owned());
                if using_ticket && self.state.players[idx].tickets_count.no_tax > 0 {
                    let t = self.state.players[idx].tickets_count.no_tax;
                    self.state.players[idx].tickets_count.no_tax = sub_floor_u32(t, 1);
                    proof {
                        assert(self.state.players@ =~= old(self).state.players@.update(
                            idx as int,
                            (Player {
                                tickets_count: (TicketCount {
                                    no_tax: spec_sub_floor_u32(
                                        old(self).state.players@[idx as int].tickets_count.no_tax as nat,
                                        1,
                                    ) as u32,
                                    ..old(self).state.players@[idx as int].tickets_count
                                }),
                                position: e as u32,
                                ..old(self).state.players@[idx as int]
                            }),
                        ));
                    }
                } else {
                    let m = self.state.players[idx].money;
                    self.state.players[idx].money = sat_sub_i64(m, fee);
                    proof {
                        assert(self.state.players@ =~= old(self).state.players@.update(
                            idx as int,
                            (Player {
                                money: spec_sat_sub_i64(
                                    old(self).state.players@[idx as int].money as int,
                                    fee as int,
                                ) as i64,
                                position: e as u32,
                                ..old(self).state.players@[idx as int]
                            }),
                        ));
                    }
                }
                if self.state.players[idx].money < 0 {
                    self.prompt_financial_crisis();
                } else {
                    self.now = GameSituation::EndTurn;
                }
                return Ok(());
            },
            ChanceAction::GraduateNow => {
                self.state.players[idx].education_status = EducationStatus::Graduated;
                self.now = GameSituation::EndTurn;
                return Ok(());
            },
            ChanceAction::PropertySwap { to_give, to_get } => {
                let gt = match find_first_of_name(&self.state.board, to_give.as_str()) {
                    Some(t) => t,
                    None => {
                        return Err("a property in the swap is not on the board".to_owned());
                    },
                };
                let kt = match find_first_of_name(&self.state.board, to_get.as_str()) {
                    Some(t) => t,
                    None => {
                        return Err("a property in the swap is not on the board".to_owned());
                    },
                };
                let gi = match self.state.find_property(gt) {
                    Some(k) => k,
                    None => {
                        return Err("a property in the swap is unowned".to_owned());
                    },
                };
                let ki = match self.state.find_property(kt) {
                    Some(k) => k,
                    None => {
                        return Err("a property in the swap is unowned".to_owned());
                    },
                };
                self.state.swap_entry_owners(gi, ki);
                self.now = GameSituation::EndTurn;
                return Ok(());
            },
            ChanceAction::Unknown => Ok(()),
        }
    }

    /// Evaluates the pending chance card's script over the card facts and
    /// interprets the result; without a pending card nothing changes. The
    /// caller payload is parsed before anything else, so a malformed
    /// payload — like a failing script or a malformed result — changes
    /// nothing; the one failure that leaves a mark is a lap-completing
    /// travel whose cycle script failed, which keeps the move and the
    /// counted lap. On success the whole change is the effect of one
    /// chance action.
    pub fn check_chance_card(
        &mut self,
        script_chance_action: &str,
        script_cycle: &str,
        payload_json: Option<String>,
    ) -> (r: Result<(), String>)
        requires
            old(self).wf(),
        ensures
            final(self).wf(),
            old(self).pending_chance_card_id is None ==> r is Ok && *final(self) == *old(self),
            resolver_frame(*old(self), *final(self)),
            final(self).pending_chance_card_id == old(self).pending_chance_card_id,
            r is Ok && old(self).pending_chance_card_id is Some ==> exists|a: ChanceAction|
                #[trigger] spec_chance_effect(*old(self), *final(self), a),
            r is Err ==> (final(self).state == old(self).state && final(self).now == old(self).now)
                || spec_travel_err_retained(*old(self), *final(self)),
    {
        let cid = match &self.pending_chance_card_id {
            Some(c) => c.clone(),
            None => {
                return Ok(());
            },
        };
        let idx = self.state.current_turn_idx;
        let player_id = self.state.players[idx].id;
        let player_money = self.state.players[idx].money;
        let payload = match payload_json {
            Some(s) => bridge::parse_json_script_map(&self.engine, s.as_str())?,
            None => bridge::parse_json_script_map(&self.engine, "{}")?,
        };
        let pairs = self.state.owned_property_pairs(player_id);
        let (my_properties, others_properties) = pairs;
        let my_houses_countsum = self.state.property_houses_sum(player_id);
        let mut scope = bridge::scope_new();
        bridge::scope_push_string(&mut scope, "card_id", cid);
        bridge::scope_push_script_map(&mut scope, "payload", payload);
        bridge::scope_push_string_u32_map(&mut scope, "my_properties", my_properties);
        bridge::scope_push_i64(&mut scope, "my_houses_countsum", my_houses_countsum);
        bridge::scope_push_string_u32_map(&mut scope, "others_properties", others_properties);
        bridge::scope_push_i64(&mut scope, "player_money", player_money);
        let map = bridge::eval_script_map(&self.engine, &mut scope, script_chance_action)?;
        let action = parse_chance_action(&map)?;
        self.apply_chance_action(action, script_cycle)
    }
}


} // verus!
