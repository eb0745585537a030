use boardgame_core::engine::{luck_test_step, next_position};
use boardgame_core::{DicePair, GameEngine, GameSituation, Ownership, TicketCount};

fn board_json() -> String {
    // 20 tiles: a start, properties, Tax, Jail, Hospital, University,
    // Infrastructure, LuckTest, IndustrialComplex and a tile named
    // Electricity.
    let mut tiles: Vec<String> = Vec::new();
    tiles.push(r#"{"name":"Start","type":"Start"}"#.to_string());
    tiles.push(r#"{"name":"Alpha","type":"Property","price":100,"is_coastal":true}"#.to_string());
    tiles.push(r#"{"name":"Jailhouse","type":"Jail","amount":120}"#.to_string());
    tiles.push(r#"{"name":"Beta","type":"Property","price":150}"#.to_string());
    tiles.push(r#"{"name":"Clinic","type":"Hospital","amount":100}"#.to_string());
    tiles.push(r#"{"name":"Gamma","type":"Property","price":180,"is_coastal":true}"#.to_string());
    tiles.push(r#"{"name":"Customs","type":"Tax","amount":90}"#.to_string());
    tiles.push(r#"{"name":"Lakeside","type":"Property","price":200}"#.to_string());
    tiles.push(r#"{"name":"College","type":"University","price":300}"#.to_string());
    tiles.push(r#"{"name":"Roads","type":"Infrastructure","amount":40}"#.to_string());
    tiles.push(r#"{"name":"Casino","type":"LuckTest"}"#.to_string());
    tiles.push(r#"{"name":"Delta","type":"Property","price":130}"#.to_string());
    tiles.push(r#"{"name":"Mill","type":"IndustrialComplex","price":250}"#.to_string());
    tiles.push(r#"{"name":"Electricity","type":"Infrastructure","amount":80}"#.to_string());
    tiles.push(r#"{"name":"Epsilon","type":"Property","price":110}"#.to_string());
    tiles.push(r#"{"name":"Harbor","type":"Property","price":170,"is_coastal":true}"#.to_string());
    tiles.push(r#"{"name":"Opera","type":"Concert"}"#.to_string());
    tiles.push(r#"{"name":"Zeta","type":"Property","price":140}"#.to_string());
    tiles.push(r#"{"name":"Plaza","type":"Property","price":160}"#.to_string());
    tiles.push(r#"{"name":"Chance","type":"ChanceCard"}"#.to_string());
    format!("[{}]", tiles.join(","))
}

fn cards_json() -> &'static str {
    r#"{"c1":{"title":"A twist","descriptoin":"d","instruction":"i"}}"#
}

fn consts_json() -> &'static str {
    r#"{"MAX_BUILDINGS":3}"#
}

fn new_engine(players: usize, money: i64) -> GameEngine {
    GameEngine::new(&board_json(), cards_json(), consts_json(), players, money, 400, 50).unwrap()
}

const NO_CYCLE: &str =
    r#"#{ "new_government_income": 0, "remaining_salary": 0, "basic_income": 0 }"#;

#[test]
fn construction_sets_up_players_and_situation() {
    let e = new_engine(3, 1000);
    assert_eq!(e.situation(), GameSituation::PendingRollResponse);
    assert_eq!(e.state.players.len(), 3);
    assert_eq!(e.state.players[0].id, 1);
    assert_eq!(e.state.players[2].id, 3);
    assert_eq!(e.state.players[1].money, 1000);
    assert_eq!(e.state.players[0].position, 0);
    assert_eq!(e.state.luck_test_cache, -1);
    assert!(e.state.properties.is_empty());
}

#[test]
fn construction_rejects_malformed_input() {
    assert!(GameEngine::new("not json", cards_json(), consts_json(), 2, 0, 0, 0).is_err());
    assert!(GameEngine::new("[]", cards_json(), consts_json(), 2, 0, 0, 0).is_err());
    assert!(GameEngine::new(
        r#"[{"name":"A","type":"T"},{"name":"A","type":"T"}]"#,
        cards_json(),
        consts_json(),
        2,
        0,
        0,
        0,
    )
    .is_err());
    assert!(GameEngine::new(&board_json(), cards_json(), consts_json(), 0, 0, 0, 0).is_err());
    assert!(GameEngine::new(&board_json(), cards_json(), r#"{"X":-1}"#, 2, 0, 0, 0).is_err());
}

#[test]
fn roll_lands_on_sum_mod_board_length() {
    assert_eq!(next_position(0, 3, 4, 20), 7);
    assert_eq!(next_position(19, 3, 4, 20), 6);
    assert_eq!(next_position(5, 0, 0, 20), 5);
}

#[test]
fn prompt_buy_scenario_on_unowned_property() {
    // Player 1 at position 0 rolls (3, 4) and lands on tile 7, an unowned
    // Property priced 200, with money well above price + building cost.
    let mut e = new_engine(2, 1000);
    let script = r#"#{ "type": "PromptBuy", "tile_name": tile.name, "price": tile.price }"#;
    e.run_turn_script(script, DicePair::new(3, 4), NO_CYCLE).unwrap();
    assert_eq!(e.state.players[0].money, 800);
    assert_eq!(e.state.players[0].position, 7);
    assert_eq!(e.situation(), GameSituation::PendingBuyResponse);
    e.buy(7);
    assert_eq!(e.state.players[0].money, 750);
    assert_eq!(e.situation(), GameSituation::EndTurn);
    assert_eq!(e.state.properties.len(), 1);
    assert_eq!(e.state.properties[0], Ownership { tile: 7, owner: 1, amount: 1 });
}

#[test]
fn repeat_purchase_caps_at_max_buildings() {
    let mut e = new_engine(2, 100000);
    for _ in 0..5 {
        e.now = GameSituation::PendingBuyResponse;
        e.buy(7);
    }
    assert_eq!(e.state.properties[0].amount, 3);
}

#[test]
fn buy_and_card_draw_outside_their_situations_change_nothing() {
    let mut e = new_engine(2, 1000);
    e.buy(7);
    assert_eq!(e.state.players[0].money, 1000);
    assert!(e.state.properties.is_empty());
    assert_eq!(e.situation(), GameSituation::PendingRollResponse);
    e.get_random_chance_card();
    assert_eq!(e.pending_chance_card_id, None);
    assert_eq!(e.situation(), GameSituation::PendingRollResponse);
}

#[test]
fn pay_tax_debits_player_and_credits_treasury() {
    let mut e = new_engine(2, 500);
    let script = r#"#{ "type": "PayTax", "amount": 90 }"#;
    e.run_turn_script(script, DicePair::new(2, 4), NO_CYCLE).unwrap();
    assert_eq!(e.state.players[0].money, 410);
    assert_eq!(e.state.government_income, 90);
    assert_eq!(e.situation(), GameSituation::EndTurn);
}

#[test]
fn pay_tax_into_debt_opens_crisis_prompt() {
    let mut e = new_engine(2, 50);
    let script = r#"#{ "type": "PayTax", "amount": 90 }"#;
    e.run_turn_script(script, DicePair::new(2, 4), NO_CYCLE).unwrap();
    assert_eq!(e.state.players[0].money, -40);
    assert_eq!(e.situation(), GameSituation::PendingFinancialCrisisResponse);
}

#[test]
fn roll_outside_its_situation_is_a_silent_no_op() {
    let mut e = new_engine(2, 500);
    e.now = GameSituation::EndTurn;
    let script = r#"#{ "type": "PayTax", "amount": 90 }"#;
    e.run_turn_script(script, DicePair::new(2, 4), NO_CYCLE).unwrap();
    assert_eq!(e.state.players[0].money, 500);
    assert_eq!(e.state.players[0].position, 0);
    assert_eq!(e.situation(), GameSituation::EndTurn);
}

#[test]
fn malformed_script_result_is_an_error() {
    let mut e = new_engine(2, 500);
    let script = r#"#{ "type": "PayTax" }"#;
    assert!(e.run_turn_script(script, DicePair::new(2, 4), NO_CYCLE).is_err());
}

#[test]
fn board_wrap_triggers_the_cycle_computation() {
    let mut e = new_engine(2, 1000);
    e.state.players[0].position = 19;
    let cycle = r#"#{ "new_government_income": 700, "remaining_salary": 300, "basic_income": 10 }"#;
    let script = r#"#{ "type": "Log", "message": "landed" }"#;
    e.run_turn_script(script, DicePair::new(3, 4), cycle).unwrap();
    assert_eq!(e.state.players[0].cycles, 1);
    assert_eq!(e.state.players[0].position, 6);
    assert_eq!(e.state.players[0].money, 1310);
    assert_eq!(e.state.players[1].money, 1010);
    assert_eq!(e.state.government_income, 700);
}

#[test]
fn zero_zero_replay_never_triggers_payday() {
    let mut e = new_engine(2, 1000);
    e.state.players[0].position = 19;
    let cycle = r#"#{ "new_government_income": 700, "remaining_salary": 300, "basic_income": 10 }"#;
    let script = r#"#{ "type": "Log", "message": "landed" }"#;
    e.run_turn_script(script, DicePair::new(0, 0), cycle).unwrap();
    assert_eq!(e.state.players[0].cycles, 0);
    assert_eq!(e.state.players[0].money, 1000);
    assert_eq!(e.state.players[0].position, 19);
}

#[test]
fn pay_to_all_and_all_earn() {
    let mut e = new_engine(3, 1000);
    let script = r#"#{ "type": "PayToAll", "amount": 100 }"#;
    e.run_turn_script(script, DicePair::new(1, 2), NO_CYCLE).unwrap();
    assert_eq!(e.state.players[0].money, 700);
    assert_eq!(e.state.players[1].money, 1100);
    assert_eq!(e.state.players[2].money, 1100);
    assert_eq!(e.state.government_income, 100);

    let mut e2 = new_engine(3, 1000);
    let script2 = r#"#{ "type": "AllEarn", "amount_unit": 100 }"#;
    e2.run_turn_script(script2, DicePair::new(1, 2), NO_CYCLE).unwrap();
    assert_eq!(e2.state.players[0].money, 1200);
    assert_eq!(e2.state.players[1].money, 1100);
    assert_eq!(e2.state.players[2].money, 1100);
    assert_eq!(e2.state.government_income, 100);
    assert_eq!(e2.situation(), GameSituation::EndTurn);
}

#[test]
fn targeted_transfer_applies_only_if_the_player_exists() {
    let mut e = new_engine(2, 1000);
    let script = r#"#{ "type": "PayTo", "gov_amount": 50, "player_amount": 30, "to_player_id": 2, "message": "fees" }"#;
    e.run_turn_script(script, DicePair::new(1, 2), NO_CYCLE).unwrap();
    assert_eq!(e.state.players[0].money, 920);
    assert_eq!(e.state.players[1].money, 1030);
    assert_eq!(e.state.government_income, 50);

    let mut e2 = new_engine(2, 1000);
    let script2 = r#"#{ "type": "PayTo", "player_amount": 30, "to_player_id": 9, "message": "fees" }"#;
    e2.run_turn_script(script2, DicePair::new(1, 2), NO_CYCLE).unwrap();
    assert_eq!(e2.state.players[0].money, 1000);
    assert_eq!(e2.state.players[1].money, 1000);
}

#[test]
fn jailbreak_by_double_always_clears_jail_turns() {
    let mut e = new_engine(2, 1000);
    e.state.players[0].remaining_jail_turns = 3;
    e.try_to_jailbreak_by_dices(DicePair::new(4, 4));
    assert_eq!(e.state.players[0].remaining_jail_turns, 0);
    assert_eq!(e.situation(), GameSituation::EndTurn);

    let mut e2 = new_engine(2, 1000);
    e2.state.players[0].remaining_jail_turns = 3;
    e2.try_to_jailbreak_by_dices(DicePair::new(4, 5));
    assert_eq!(e2.state.players[0].remaining_jail_turns, 3);
    assert_eq!(e2.situation(), GameSituation::EndTurn);
}

#[test]
fn giving_up_jailbreak_decrements_by_exactly_one_with_floor_zero() {
    let mut e = new_engine(2, 1000);
    e.state.players[0].remaining_jail_turns = 2;
    e.give_up_jailbreak();
    assert_eq!(e.state.players[0].remaining_jail_turns, 1);
    e.give_up_jailbreak();
    assert_eq!(e.state.players[0].remaining_jail_turns, 0);
    e.give_up_jailbreak();
    assert_eq!(e.state.players[0].remaining_jail_turns, 0);
}

#[test]
fn jailbreak_by_money_pays_the_jail_fee_only_if_affordable() {
    let mut e = new_engine(2, 1000);
    e.state.players[0].remaining_jail_turns = 2;
    e.try_to_jailbreak_by_money();
    assert_eq!(e.state.players[0].money, 880);
    assert_eq!(e.state.players[0].remaining_jail_turns, 0);
    assert_eq!(e.situation(), GameSituation::EndTurn);

    let mut e2 = new_engine(2, 100);
    e2.state.players[0].remaining_jail_turns = 2;
    e2.try_to_jailbreak_by_money();
    assert_eq!(e2.state.players[0].money, 100);
    assert_eq!(e2.state.players[0].remaining_jail_turns, 2);
    assert_eq!(e2.situation(), GameSituation::PendingRollResponse);
}

#[test]
fn loan_ids_count_up_and_repayment_purges() {
    let mut e = new_engine(2, 1000);
    e.borrow_money(1, 500);
    assert_eq!(e.state.players[0].money, 1500);
    assert_eq!(e.state.players[0].remaining_loans.len(), 1);
    assert_eq!(e.state.players[0].remaining_loans[0].id, 0);
    assert_eq!(e.state.players[0].remaining_loans[0].remaining, 500);
    assert_eq!(e.state.players[0].remaining_loans[0].term, 4);
    e.borrow_money(1, 300);
    assert_eq!(e.state.players[0].remaining_loans[1].id, 1);
    // full repayment of the first loan purges it and charges 10% service
    e.repay_loan(1, 0, 500);
    assert_eq!(e.state.players[0].money, 1800 - 500 - 50);
    assert_eq!(e.state.players[0].remaining_loans.len(), 1);
    assert_eq!(e.state.players[0].remaining_loans[0].id, 1);
    // the next loan id goes past the highest id still in the ledger
    e.borrow_money(1, 200);
    assert_eq!(e.state.players[0].remaining_loans[1].id, 2);
    // non-positive amounts and unknown ids change nothing
    e.borrow_money(1, 0);
    e.repay_loan(1, 77, 10);
    assert_eq!(e.state.players[0].remaining_loans.len(), 2);
}

#[test]
fn loan_ids_are_never_reused_after_the_highest_is_purged() {
    let mut e = new_engine(2, 1000);
    e.borrow_money(1, 500);
    e.borrow_money(1, 300);
    assert_eq!(e.state.players[0].remaining_loans[0].id, 0);
    assert_eq!(e.state.players[0].remaining_loans[1].id, 1);
    // fully repaying the loan with the highest id purges it
    e.repay_loan(1, 1, 300);
    assert_eq!(e.state.players[0].remaining_loans.len(), 1);
    assert_eq!(e.state.players[0].remaining_loans[0].id, 0);
    // the next borrow still gets a fresh id, not the purged 1
    e.borrow_money(1, 100);
    assert_eq!(e.state.players[0].remaining_loans.len(), 2);
    assert_eq!(e.state.players[0].remaining_loans[1].id, 2);
}

#[test]
fn end_turn_collects_exactly_the_zero_amount_entries() {
    let mut e = new_engine(2, 1000);
    e.state.properties.push(Ownership { tile: 1, owner: 1, amount: 0 });
    e.state.properties.push(Ownership { tile: 3, owner: 2, amount: 2 });
    e.state.properties.push(Ownership { tile: 5, owner: 1, amount: 0 });
    e.now = GameSituation::InAction;
    e.end_turn();
    assert_eq!(e.state.properties.len(), 1);
    assert_eq!(e.state.properties[0], Ownership { tile: 3, owner: 2, amount: 2 });
    // off-situation: nothing else changed
    assert_eq!(e.situation(), GameSituation::InAction);
    assert_eq!(e.state.current_turn_idx, 0);
}

#[test]
fn turn_advance_continues_while_a_player_is_under_four_cycles() {
    let mut e = new_engine(3, 1000);
    e.state.players[0].cycles = 4;
    e.state.players[1].cycles = 4;
    e.state.players[2].cycles = 2;
    e.state.current_turn_idx = 1;
    e.now = GameSituation::EndTurn;
    e.end_turn();
    assert_eq!(e.state.current_turn_idx, 2);
    assert_eq!(e.situation(), GameSituation::PendingRollResponse);
}

#[test]
fn game_ends_once_every_player_has_four_cycles() {
    let mut e = new_engine(2, 1000);
    e.state.players[0].cycles = 4;
    e.state.players[1].cycles = 5;
    e.now = GameSituation::EndTurn;
    e.end_turn();
    assert_eq!(e.situation(), GameSituation::EndGame);
}

#[test]
fn luck_test_steps_seed_double_and_reset() {
    assert_eq!(luck_test_step(-1, true, true), 1000000);
    assert_eq!(luck_test_step(-1, true, false), 500000);
    assert_eq!(luck_test_step(1000000, true, true), 2000000);
    assert_eq!(luck_test_step(2000000, false, true), 0);
    assert_eq!(luck_test_step(-1, false, false), 0);
}

#[test]
fn luck_test_runs_until_a_miss_ends_the_turn() {
    let mut e = new_engine(2, 1000);
    e.now = GameSituation::PendingLuckTestResponse;
    let mut rounds: u32 = 0;
    while e.situation() != GameSituation::EndTurn && rounds < 10000 {
        e.luck_test(true);
        rounds += 1;
    }
    assert_eq!(e.situation(), GameSituation::EndTurn);
    assert_eq!(e.state.luck_test_cache, 0);
}

#[test]
fn drawing_a_chance_card_opens_the_check_prompt() {
    let mut e = new_engine(2, 1000);
    e.now = GameSituation::PendingGetRandomChanceCardResponse;
    e.get_random_chance_card();
    assert_eq!(e.pending_chance_card_id, Some("c1".to_string()));
    assert_eq!(e.situation(), GameSituation::PendingCheckChanceCardResponse);
}

#[test]
fn twist_of_fate_trades_all_built_properties_cyclically() {
    // dice 3 + 2 from seat 0 in a 4-player game targets seat (0+5)%4 = 1.
    let mut e = new_engine(4, 1000);
    e.state.properties.push(Ownership { tile: 1, owner: 1, amount: 2 });
    e.state.properties.push(Ownership { tile: 3, owner: 1, amount: 1 });
    e.state.properties.push(Ownership { tile: 5, owner: 2, amount: 1 });
    e.state.properties.push(Ownership { tile: 7, owner: 3, amount: 1 });
    e.pending_chance_card_id = Some("c1".to_string());
    let script = r#"#{ "type": "TwistOfFate", "dice_a": 3, "dice_b": 2 }"#;
    e.check_chance_card(script, NO_CYCLE, None).unwrap();
    assert_eq!(e.state.properties[0].owner, 2);
    assert_eq!(e.state.properties[1].owner, 2);
    assert_eq!(e.state.properties[2].owner, 1);
    assert_eq!(e.state.properties[3].owner, 3);
    assert_eq!(e.situation(), GameSituation::EndTurn);
}

#[test]
fn hospital_admission_subsidy_clamps_the_treasury() {
    // Fee is half the Hospital amount (50); with a treasury of 30 the
    // shortfall of 20 is refunded to the charged player.
    let mut e = new_engine(2, 1000);
    e.state.government_income = 30;
    e.pending_chance_card_id = Some("c1".to_string());
    let script = r#"#{ "type": "GoToHospital" }"#;
    e.check_chance_card(script, NO_CYCLE, None).unwrap();
    assert_eq!(e.state.players[0].position, 4);
    assert_eq!(e.state.players[0].money, 1000 - 50 + 20);
    assert_eq!(e.state.government_income, 0);
}

#[test]
fn earthquake_takes_one_building_from_multi_building_holdings() {
    let mut e = new_engine(2, 1000);
    e.state.properties.push(Ownership { tile: 1, owner: 1, amount: 3 });
    e.state.properties.push(Ownership { tile: 3, owner: 1, amount: 1 });
    e.state.properties.push(Ownership { tile: 5, owner: 2, amount: 3 });
    e.pending_chance_card_id = Some("c1".to_string());
    let script = r#"#{ "type": "Earthquake" }"#;
    e.check_chance_card(script, NO_CYCLE, None).unwrap();
    assert_eq!(e.state.properties[0].amount, 2);
    assert_eq!(e.state.properties[1].amount, 1);
    assert_eq!(e.state.properties[2].amount, 3);
}

#[test]
fn electricity_fee_is_charged_or_waived_by_a_ticket() {
    let mut e = new_engine(2, 1000);
    e.pending_chance_card_id = Some("c1".to_string());
    let script = r#"#{ "type": "GoToPayElectricityFee", "using_ticket": false }"#;
    e.check_chance_card(script, NO_CYCLE, None).unwrap();
    assert_eq!(e.state.players[0].position, 13);
    assert_eq!(e.state.players[0].money, 920);
    assert_eq!(e.situation(), GameSituation::EndTurn);

    let mut e2 = new_engine(2, 1000);
    e2.state.players[0].tickets_count.no_tax = 1;
    e2.pending_chance_card_id = Some("c1".to_string());
    let script2 = r#"#{ "type": "GoToPayElectricityFee", "using_ticket": true }"#;
    e2.check_chance_card(script2, NO_CYCLE, None).unwrap();
    assert_eq!(e2.state.players[0].money, 1000);
    assert_eq!(e2.state.players[0].tickets_count.no_tax, 0);
}

#[test]
fn chance_ticket_grant_education_and_unknown_tag() {
    let mut e = new_engine(2, 1000);
    e.pending_chance_card_id = Some("c1".to_string());
    let script = r#"#{ "type": "GetTicket", "kind": "Bonus" }"#;
    e.check_chance_card(script, NO_CYCLE, None).unwrap();
    assert_eq!(e.state.players[0].tickets_count.bonus, 1);

    e.pending_chance_card_id = Some("c1".to_string());
    let script2 = r#"#{ "type": "GraduateNow" }"#;
    e.check_chance_card(script2, NO_CYCLE, None).unwrap();
    assert_eq!(
        e.state.players[0].education_status,
        boardgame_core::EducationStatus::Graduated
    );

    let before = e.state.players[0].money;
    e.pending_chance_card_id = Some("c1".to_string());
    let script3 = r#"#{ "type": "NothingKnown" }"#;
    e.check_chance_card(script3, NO_CYCLE, None).unwrap();
    assert_eq!(e.state.players[0].money, before);
}

#[test]
fn free_construction_only_builds_on_own_property_under_the_cap() {
    let mut e = new_engine(2, 1000);
    e.state.properties.push(Ownership { tile: 1, owner: 1, amount: 2 });
    e.state.properties.push(Ownership { tile: 3, owner: 2, amount: 3 });
    e.pending_chance_card_id = Some("c1".to_string());
    let script = r#"#{ "type": "FreeConstruction", "target": "Alpha" }"#;
    e.check_chance_card(script, NO_CYCLE, None).unwrap();
    assert_eq!(e.state.properties[0].amount, 3);

    e.pending_chance_card_id = Some("c1".to_string());
    let script2 = r#"#{ "type": "FreeConstruction", "target": "Beta" }"#;
    e.check_chance_card(script2, NO_CYCLE, None).unwrap();
    assert_eq!(e.state.properties[1].amount, 3);
}

#[test]
fn property_swap_trades_two_named_entries() {
    let mut e = new_engine(2, 1000);
    e.state.properties.push(Ownership { tile: 1, owner: 1, amount: 2 });
    e.state.properties.push(Ownership { tile: 3, owner: 2, amount: 1 });
    e.pending_chance_card_id = Some("c1".to_string());
    let script = r#"#{ "type": "PropertySwap", "to_give": "Alpha", "to_get": "Beta" }"#;
    e.check_chance_card(script, NO_CYCLE, None).unwrap();
    assert_eq!(e.state.properties[0].owner, 2);
    assert_eq!(e.state.properties[1].owner, 1);
}

#[test]
fn destruct_one_per_each_floors_at_zero_regardless_of_owner() {
    let mut e = new_engine(2, 1000);
    e.state.properties.push(Ownership { tile: 1, owner: 1, amount: 2 });
    e.state.properties.push(Ownership { tile: 3, owner: 2, amount: 1 });
    e.state.properties.push(Ownership { tile: 5, owner: 2, amount: 2 });
    e.pending_chance_card_id = Some("c1".to_string());
    let script = r#"#{ "type": "DestructOnePerEach", "targets": ["Alpha", "Beta", "Nowhere"] }"#;
    e.check_chance_card(script, NO_CYCLE, None).unwrap();
    assert_eq!(e.state.properties[0].amount, 1);
    assert_eq!(e.state.properties[1].amount, 0);
    assert_eq!(e.state.properties[2].amount, 2);
}

#[test]
fn pandemic_and_catastrophe_count_players_plus_one() {
    let mut e = new_engine(3, 1000);
    e.pending_chance_card_id = Some("c1".to_string());
    e.check_chance_card(r#"#{ "type": "Pandemic" }"#, NO_CYCLE, None).unwrap();
    assert_eq!(e.state.pandemic_counter, 4);
    e.pending_chance_card_id = Some("c1".to_string());
    e.check_chance_card(r#"#{ "type": "Catastrophe" }"#, NO_CYCLE, None).unwrap();
    assert_eq!(e.state.catastrophe_counter, 4);
    // counters tick down by one at each turn advance, floor zero
    e.now = GameSituation::EndTurn;
    e.end_turn();
    assert_eq!(e.state.pandemic_counter, 3);
    assert_eq!(e.state.catastrophe_counter, 3);
}

#[test]
fn release_ticket_frees_a_jailed_player() {
    let mut e = new_engine(2, 1000);
    e.state.players[0].position = 2;
    e.state.players[0].remaining_jail_turns = 3;
    e.state.players[0].tickets_count.release_from_jail = 1;
    e.now = GameSituation::PendingUseTicketResponse;
    let to_use = TicketCount { release_from_jail: 1, ..TicketCount::zero() };
    e.use_ticket(to_use, "", "").unwrap();
    assert_eq!(e.state.players[0].remaining_jail_turns, 0);
    assert_eq!(e.state.players[0].tickets_count.release_from_jail, 0);
    assert_eq!(e.situation(), GameSituation::EndTurn);
}

#[test]
fn use_ticket_outside_its_situation_changes_nothing() {
    let mut e = new_engine(2, 1000);
    e.state.players[0].remaining_jail_turns = 3;
    let to_use = TicketCount { release_from_jail: 1, ..TicketCount::zero() };
    e.use_ticket(to_use, "", "").unwrap();
    assert_eq!(e.state.players[0].remaining_jail_turns, 3);
    assert_eq!(e.situation(), GameSituation::PendingRollResponse);
}

#[test]
fn prompt_ticket_accumulates_and_opens_the_use_prompt() {
    let mut e = new_engine(2, 1000);
    let script = r#"#{ "type": "PromptTicket", "kind": "DoubleLotto" }"#;
    e.run_turn_script(script, DicePair::new(4, 6), NO_CYCLE).unwrap();
    assert_eq!(e.state.pending_ticket.double_lotto, 1);
    assert_eq!(e.situation(), GameSituation::PendingUseTicketResponse);
}

#[test]
fn concert_credits_a_tenth_to_the_treasury() {
    let mut e = new_engine(2, 1000);
    let script = r#"#{ "type": "Concert", "price": 100 }"#;
    e.run_turn_script(script, DicePair::new(1, 2), NO_CYCLE).unwrap();
    assert_eq!(e.state.players[0].money, 900);
    assert_eq!(e.state.government_income, 10);
}

#[test]
fn warp_redirects_and_skips_the_generic_position_update() {
    let mut e = new_engine(2, 1000);
    let script = r#"#{ "type": "WarpToPosition", "position": 16 }"#;
    e.run_turn_script(script, DicePair::new(1, 2), NO_CYCLE).unwrap();
    assert_eq!(e.state.players[0].position, 16);
    assert_eq!(e.situation(), GameSituation::EndTurn);

    let mut e2 = new_engine(2, 1000);
    let script2 = r#"#{ "type": "WarpToPosition", "position": 99 }"#;
    assert!(e2.run_turn_script(script2, DicePair::new(1, 2), NO_CYCLE).is_err());
}

#[test]
fn double_roll_keeps_the_same_player_unless_jailed() {
    let mut e = new_engine(2, 1000);
    let script = r#"#{ "type": "Log", "message": "stay" }"#;
    e.run_turn_script(script, DicePair::new(3, 3), NO_CYCLE).unwrap();
    assert_eq!(e.situation(), GameSituation::EndTurn);
    e.end_turn();
    assert_eq!(e.state.current_turn_idx, 0);
    assert_eq!(e.situation(), GameSituation::PendingRollResponse);
}

#[test]
fn scripts_can_use_the_registered_helpers() {
    let mut e = new_engine(3, 1000);
    let script = r#"
        let n = get_player_count();
        let r = round100000(149999);
        let next = find_next_tile_of_type(player_id, "Hospital");
        let bonus = if next == find_next_tile_of_type(player_id, "Hospital") { 4 } else { 0 };
        #{ "type": "PayTax", "amount": n * 1000 + r / 100 + bonus }
    "#;
    e.run_turn_script(script, DicePair::new(1, 2), NO_CYCLE).unwrap();
    // 3 players and 149999 rounding to 100000; the wrapping tile search
    // answers consistently
    assert_eq!(e.state.government_income, 3000 + 1000 + 4);
}

#[test]
fn chance_go_to_jail_moves_the_player() {
    let mut e = new_engine(2, 1000);
    e.pending_chance_card_id = Some("c1".to_string());
    e.check_chance_card(r#"#{ "type": "GoToJail" }"#, NO_CYCLE, None).unwrap();
    assert_eq!(e.state.players[0].position, 2);
    assert_eq!(e.situation(), GameSituation::EndTurn);
}

#[test]
fn no_tax_ticket_reaches_the_tax_script_as_an_override() {
    let mut e = new_engine(2, 1000);
    e.state.players[0].position = 6;
    e.state.players[0].tickets_count.no_tax = 1;
    e.now = GameSituation::PendingUseTicketResponse;
    let script = r#"#{ "type": "PayTax", "amount": if to_use_ticket > 0 { 0 } else { 90 } }"#;
    let to_use = TicketCount { no_tax: 1, ..TicketCount::zero() };
    e.use_ticket(to_use, script, NO_CYCLE).unwrap();
    assert_eq!(e.state.players[0].money, 1000);
    assert_eq!(e.state.players[0].tickets_count.no_tax, 0);
}

#[test]
fn chance_payload_reaches_the_card_script() {
    let mut e = new_engine(2, 1000);
    e.pending_chance_card_id = Some("c1".to_string());
    let script = r#"#{ "type": "Earn", "amount": payload.bonus }"#;
    e.check_chance_card(script, NO_CYCLE, Some(r#"{"bonus": 77}"#.to_string())).unwrap();
    assert_eq!(e.state.players[0].money, 1077);
    assert_eq!(e.situation(), GameSituation::EndTurn);
}

#[test]
fn counters_tick_down_even_when_a_double_keeps_the_turn() {
    let mut e = new_engine(2, 1000);
    e.state.pandemic_counter = 1;
    e.state.catastrophe_counter = 2;
    e.state.dice_double = true;
    e.now = GameSituation::EndTurn;
    e.end_turn();
    assert_eq!(e.state.current_turn_idx, 0);
    assert_eq!(e.state.pandemic_counter, 0);
    assert_eq!(e.state.catastrophe_counter, 1);
    assert!(!e.state.dice_double);
}

#[test]
fn mistyped_tile_member_fails_construction() {
    assert!(GameEngine::new(
        r#"[{"name":"A","type":"T","price":"expensive"}]"#,
        cards_json(),
        consts_json(),
        2,
        0,
        0,
        0,
    )
    .is_err());
    assert!(GameEngine::new(&board_json(), r#"{"c1":{"title":"t"}}"#, consts_json(), 2, 0, 0, 0)
        .is_err());
}
