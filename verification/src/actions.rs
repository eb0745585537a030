//! The closed action vocabularies of the two resolvers and the cycle
//! computation, and the validation that turns a script's untyped object
//! map into a typed action. A missing or mistyped required field is a hard
//! evaluation error; optional fields fall back exactly as the resolver
//! protocol allows.
use vstd::prelude::*;
use vstd::string::StringExecFns;

use crate::bridge::{dyn_as_bool, dyn_as_i64, dyn_into_array, dyn_into_string, ScriptMap};

verus! {

/// What a tile-landing script can ask for.
pub enum TileAction {
    PromptBuy { tile_name: String, price: i64, free_flag: bool, ticket_flag: bool },
    PayTax { amount: i64 },
    Imprison,
    WarpToPosition { position: i64 },
    PayTo {
        gov_amount: Option<i64>,
        market_amount: Option<i64>,
        to_player: Option<(i64, u32)>,
        message: String,
    },
    PayToAll { amount: i64 },
    AllEarn { amount_unit: i64 },
    PromptLuckTest,
    PromptFinancialCrisis { cost: i64 },
    Educate,
    MedicalCare { free: bool },
    Concert { price: i64 },
    GetRandomChanceCard,
    PromptTicket { kind: String },
    LogMessage { message: String },
}

/// What a chance-card script can ask for; an unrecognized tag is a no-op.
pub enum ChanceAction {
    Earn { amount: i64 },
    Earthquake,
    GoToJail,
    GoToHospital,
    GoToUniversity,
    GetTicket { kind: String },
    TwistOfFate { dice_a: u32, dice_b: u32 },
    PayTo {
        gov_amount: Option<i64>,
        market_amount: Option<i64>,
        to_player: Option<(i64, u32)>,
        message: String,
    },
    WarpToPosition { position: i64 },
    TravelToPosition { position: i64 },
    DestructOnePerEach { targets: Vec<String> },
    Pandemic,
    FreeConstruction { target: String },
    Catastrophe,
    Nop,
    GoToPayElectricityFee { using_ticket: bool },
    GraduateNow,
    PropertySwap { to_give: String, to_get: String },
    Unknown,
}

/// What the cycle/payday script must return.
pub struct CycleOutcome {
    pub new_government_income: i64,
    pub remaining_salary: i64,
    pub basic_income: i64,
}

fn field_err(key: &str) -> (r: String) {
    let mut msg: String = "script result is missing or mistypes the field: ".to_owned();
    msg.append(key);
    msg
}

/// A required string field.
fn req_string(m: &ScriptMap, key: &str) -> (r: Result<String, String>) {
    match m.get_dyn(key) {
        Some(d) => match dyn_into_string(d) {
            Some(s) => Ok(s),
            None => Err(field_err(key)),
        },
        None => Err(field_err(key)),
    }
}

/// A required integer field.
fn req_i64(m: &ScriptMap, key: &str) -> (r: Result<i64, String>) {
    match m.get_dyn(key) {
        Some(d) => match dyn_as_i64(&d) {
            Some(v) => Ok(v),
            None => Err(field_err(key)),
        },
        None => Err(field_err(key)),
    }
}

/// A required boolean field.
fn req_bool(m: &ScriptMap, key: &str) -> (r: Result<bool, String>) {
    match m.get_dyn(key) {
        Some(d) => match dyn_as_bool(&d) {
            Some(v) => Ok(v),
            None => Err(field_err(key)),
        },
        None => Err(field_err(key)),
    }
}

/// An optional integer field: absent or mistyped means absent.
fn opt_i64(m: &ScriptMap, key: &str) -> (r: Option<i64>) {
    match m.get_dyn(key) {
        Some(d) => dyn_as_i64(&d),
        None => None,
    }
}

/// An optional boolean field: absent or mistyped means false.
fn opt_bool(m: &ScriptMap, key: &str) -> (r: bool) {
    match m.get_dyn(key) {
        Some(d) => match dyn_as_bool(&d) {
            Some(v) => v,
            None => false,
        },
        None => false,
    }
}

/// The optional targeted transfer of a pay action: present only when both
/// the amount and an id in player-id range are.
fn opt_transfer(m: &ScriptMap) -> (r: Option<(i64, u32)>) {
    let amount = match opt_i64(m, "player_amount") {
        Some(a) => a,
        None => {
            return None;
        },
    };
    match opt_i64(m, "to_player_id") {
        Some(pid) => if 0 <= pid && pid <= u32::MAX as i64 {
            Some((amount, pid as u32))
        } else {
            None
        },
        None => None,
    }
}

/// Validates a tile-landing script result into a typed action.
pub(crate) fn parse_tile_action(m: &ScriptMap) -> (r: Result<TileAction, String>) {
    let tag = req_string(m, "type")?;
    let t = tag.as_str();
    if crate::text::str_eq(t, "PromptBuy") {
        let tile_name = req_string(m, "tile_name")?;
        let price = req_i64(m, "price")?;
        let free_flag = opt_bool(m, "free_flag");
        let ticket_flag = opt_bool(m, "ticket_flag");
        Ok(TileAction::PromptBuy { tile_name, price, free_flag, ticket_flag })
    } else if crate::text::str_eq(t, "PayTax") {
        let amount = req_i64(m, "amount")?;
        Ok(TileAction::PayTax { amount })
    } else if crate::text::str_eq(t, "Imprison") {
        Ok(TileAction::Imprison)
    } else if crate::text::str_eq(t, "WarpToPosition") {
        let position = req_i64(m, "position")?;
        Ok(TileAction::WarpToPosition { position })
    } else if crate::text::str_eq(t, "PayTo") {
        let gov_amount = opt_i64(m, "gov_amount");
        let market_amount = opt_i64(m, "market_amount");
        let to_player = opt_transfer(m);
        let message = req_string(m, "message")?;
        Ok(TileAction::PayTo { gov_amount, market_amount, to_player, message })
    } else if crate::text::str_eq(t, "PayToAll") {
        let amount = req_i64(m, "amount")?;
        Ok(TileAction::PayToAll { amount })
    } else if crate::text::str_eq(t, "AllEarn") {
        let amount_unit = req_i64(m, "amount_unit")?;
        Ok(TileAction::AllEarn { amount_unit })
    } else if crate::text::str_eq(t, "PromptLuckTest") {
        Ok(TileAction::PromptLuckTest)
    } else if crate::text::str_eq(t, "PromptFinancialCrisis") {
        let cost = req_i64(m, "cost")?;
        Ok(TileAction::PromptFinancialCrisis { cost })
    } else if crate::text::str_eq(t, "Educate") {
        Ok(TileAction::Educate)
    } else if crate::text::str_eq(t, "MedicalCare") {
        let free = req_bool(m, "free")?;
        Ok(TileAction::MedicalCare { free })
    } else if crate::text::str_eq(t, "Concert") {
        let price = req_i64(m, "price")?;
        Ok(TileAction::Concert { price })
    } else if crate::text::str_eq(t, "GetRandomChanceCard") {
        Ok(TileAction::GetRandomChanceCard)
    } else if crate::text::str_eq(t, "PromptTicket") {
        let kind = req_string(m, "kind")?;
        Ok(TileAction::PromptTicket { kind })
    } else {
        let message = req_string(m, "message")?;
        Ok(TileAction::LogMessage { message })
    }
}

/// Validates a chance-card script result into a typed action.
pub(crate) fn parse_chance_action(m: &ScriptMap) -> (r: Result<ChanceAction, String>) {
    let tag = req_string(m, "type")?;
    let t = tag.as_str();
    if crate::text::str_eq(t, "Earn") {
        let amount = req_i64(m, "amount")?;
        Ok(ChanceAction::Earn { amount })
    } else if crate::text::str_eq(t, "Earthquake") {
        Ok(ChanceAction::Earthquake)
    } else if crate::text::str_eq(t, "GoToJail") {
        Ok(ChanceAction::GoToJail)
    } else if crate::text::str_eq(t, "GoToHospital") {
        Ok(ChanceAction::GoToHospital)
    } else if crate::text::str_eq(t, "GoToUniversity") {
        Ok(ChanceAction::GoToUniversity)
    } else if crate::text::str_eq(t, "GetTicket") {
        let kind = req_string(m, "kind")?;
        Ok(ChanceAction::GetTicket { kind })
    } else if crate::text::str_eq(t, "TwistOfFate") {
        let a = req_i64(m, "dice_a")?;
        let b = req_i64(m, "dice_b")?;
        if 0 <= a && a <= u32::MAX as i64 && 0 <= b && b <= u32::MAX as i64 {
            Ok(ChanceAction::TwistOfFate { dice_a: a as u32, dice_b: b as u32 })
        } else {
            Err(field_err("dice_a"))
        }
    } else if crate::text::str_eq(t, "PayTo") {
        let gov_amount = opt_i64(m, "gov_amount");
        let market_amount = opt_i64(m, "market_amount");
        let to_player = opt_transfer(m);
        let message = req_string(m, "message")?;
        Ok(ChanceAction::PayTo { gov_amount, market_amount, to_player, message })
    } else if crate::text::str_eq(t, "WarpToPosition") {
        let position = req_i64(m, "position")?;
        Ok(ChanceAction::WarpToPosition { position })
    } else if crate::text::str_eq(t, "TravelToPosition") {
        let position = req_i64(m, "position")?;
        Ok(ChanceAction::TravelToPosition { position })
    } else if crate::text::str_eq(t, "DestructOnePerEach") {
        let raw = match m.get_dyn("targets") {
            Some(d) => match dyn_into_array(d) {
                Some(a) => a,
                None => {
                    return Err(field_err("targets"));
                },
            },
            None => {
                return Err(field_err("targets"));
            },
        };
        let mut raw = raw;
        let mut targets: Vec<String> = Vec::new();
        while raw.len() > 0
            decreases raw@.len(),
        {
            let d = raw.remove(0);
            match dyn_into_string(d) {
                Some(s) => targets.push(s),
                None => (),
            }
        }
        Ok(ChanceAction::DestructOnePerEach { targets })
    } else if crate::text::str_eq(t, "Pandemic") {
        Ok(ChanceAction::Pandemic)
    } else if crate::text::str_eq(t, "FreeConstruction") {
        let target = req_string(m, "target")?;
        Ok(ChanceAction::FreeConstruction { target })
    } else if crate::text::str_eq(t, "Catastrophe") {
        Ok(ChanceAction::Catastrophe)
    } else if crate::text::str_eq(t, "NOP") {
        Ok(ChanceAction::Nop)
    } else if crate::text::str_eq(t, "GoToPayElectricityFee") {
        let using_ticket = req_bool(m, "using_ticket")?;
        Ok(ChanceAction::GoToPayElectricityFee { using_ticket })
    } else if crate::text::str_eq(t, "GraduateNow") {
        Ok(ChanceAction::GraduateNow)
    } else if crate::text::str_eq(t, "PropertySwap") {
        let to_get = req_string(m, "to_get")?;
        let to_give = req_string(m, "to_give")?;
        Ok(ChanceAction::PropertySwap { to_give, to_get })
    } else {
        Ok(ChanceAction::Unknown)
    }
}

/// Validates a cycle script result: all three amounts are required.
pub(crate) fn parse_cycle_outcome(m: &ScriptMap) -> (r: Result<CycleOutcome, String>) {
    let new_government_income = req_i64(m, "new_government_income")?;
    let remaining_salary = req_i64(m, "remaining_salary")?;
    let basic_income = req_i64(m, "basic_income")?;
    Ok(CycleOutcome { new_government_income, remaining_salary, basic_income })
}

} // verus!
