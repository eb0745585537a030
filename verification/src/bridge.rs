//! The trusted boundary to the outside crates: the rhai script engine that
//! evaluates rule scripts, serde_json for reading construction data, and
//! the process random source. Every function here is believed, not
//! verified; each does one outside call and converts values, nothing more.
//! A script's result is an opaque map: the verified resolvers read it field
//! by field through the accessors below and interpret it themselves, so
//! nothing about a script's output is assumed.
use vstd::prelude::*;

use crate::model::Tile;
use crate::tickets::TicketCount;

verus! {

#[verifier::external_type_specification]
#[verifier::external_body]
pub struct ExEngine(rhai::Engine);

#[verifier::external_type_specification]
#[verifier::external_body]
pub struct ExDynamic(rhai::Dynamic);

#[verifier::external_type_specification]
#[verifier::external_body]
pub struct ExScope<'a>(rhai::Scope<'a>);

#[verifier::external_type_specification]
#[verifier::external_body]
pub struct ExJsonValue(serde_json::Value);

/// An object map returned by a rule script. `rhai::Map` is a `BTreeMap`
/// keyed by a string type of another crate, whose declaration Verus
/// refuses, so the map rides opaquely inside this holder and is read only
/// through the trusted accessors below.
#[verifier::external_body]
pub struct ScriptMap {
    inner: rhai::Map,
}

/// Relies on rhai::Engine::new to build a fresh script engine.
#[verifier::external_body]
pub(crate) fn engine_new() -> rhai::Engine {
    rhai::Engine::new()
}

/// Relies on rhai::Engine::register_type_with_name to let scripts hold
/// tile values.
#[verifier::external_body]
pub(crate) fn register_tile_type(e: &mut rhai::Engine) {
    e.register_type_with_name::<Tile>("Tile");
}

/// Relies on rhai::Engine::register_get: each getter hands a tile field
/// through to the script unchanged.
#[verifier::external_body]
pub(crate) fn register_tile_getters(e: &mut rhai::Engine) {
    e.register_get("name", |t: &mut Tile| t.name.clone());
    e.register_get("type", |t: &mut Tile| t.tile_type.clone());
    e.register_get("price", |t: &mut Tile| t.price);
    e.register_get("amount", |t: &mut Tile| t.amount);
    e.register_get("is_coastal", |t: &mut Tile| t.is_coastal);
    e.register_get("is_megacity", |t: &mut Tile| t.is_megacity);
}

/// Relies on rhai::Engine::register_type_with_name to let scripts hold
/// ticket counters.
#[verifier::external_body]
pub(crate) fn register_ticket_type(e: &mut rhai::Engine) {
    e.register_type_with_name::<TicketCount>("TicketCount");
}

/// Relies on rhai::Engine::register_get: each getter hands a counter field
/// through to the script unchanged.
#[verifier::external_body]
pub(crate) fn register_ticket_getters(e: &mut rhai::Engine) {
    e.register_get("free_hospital", |tc: &mut TicketCount| tc.free_hospital);
    e.register_get("free_property", |tc: &mut TicketCount| tc.free_property);
    e.register_get("no_tax", |tc: &mut TicketCount| tc.no_tax);
    e.register_get("release_from_jail", |tc: &mut TicketCount| tc.release_from_jail);
    e.register_get("bonus", |tc: &mut TicketCount| tc.bonus);
}

/// Relies on rhai::Engine::register_fn: the closure returns the player
/// count fixed at construction.
#[verifier::external_body]
pub(crate) fn register_player_count(e: &mut rhai::Engine, n: i64) {
    e.register_fn("get_player_count", move || -> i64 { n });
}

/// Relies on rhai::Engine::register_fn: the closure only calls the
/// verified rounding helper with the fixed unit of 100 000.
#[verifier::external_body]
pub(crate) fn register_round100000(e: &mut rhai::Engine) {
    e.register_fn("round100000", |x: i64| -> i64 { crate::num::round_to(x, 100000) });
}

/// Relies on rhai::Engine::register_fn: the closure only calls the
/// verified wrapping forward search over the board frozen at
/// construction.
#[verifier::external_body]
pub(crate) fn register_find_next_tile(e: &mut rhai::Engine, board: &Vec<Tile>)
    requires
        board@.len() <= u32::MAX,
{
    let frozen = board.clone();
    e.register_fn("find_next_tile_of_type", move |pos: u32, t: String| -> u32 {
        crate::board::find_next_tile_of_type(&frozen, pos, t.as_str())
    });
}

/// Relies on rhai::Engine::register_fn: the closure returns the coastal
/// tile names computed by verified code at construction.
#[verifier::external_body]
pub(crate) fn register_coastal_cities(e: &mut rhai::Engine, names: Vec<String>) {
    e.register_fn("get_coastal_cities", move || -> Vec<String> { names.clone() });
}

/// Relies on rhai::Scope::new.
#[verifier::external_body]
pub(crate) fn scope_new() -> rhai::Scope<'static> {
    rhai::Scope::new()
}

/// Relies on rhai::Scope::push.
#[verifier::external_body]
pub(crate) fn scope_push_i64(s: &mut rhai::Scope<'static>, name: &str, v: i64) {
    s.push(name, v);
}

/// Relies on rhai::Scope::push.
#[verifier::external_body]
pub(crate) fn scope_push_u32(s: &mut rhai::Scope<'static>, name: &str, v: u32) {
    s.push(name, v);
}

/// Relies on rhai::Scope::push.
#[verifier::external_body]
pub(crate) fn scope_push_bool(s: &mut rhai::Scope<'static>, name: &str, v: bool) {
    s.push(name, v);
}

/// Relies on rhai::Scope::push.
#[verifier::external_body]
pub(crate) fn scope_push_string(s: &mut rhai::Scope<'static>, name: &str, v: String) {
    s.push(name, v);
}

/// Relies on rhai::Scope::push.
#[verifier::external_body]
pub(crate) fn scope_push_opt_u32(s: &mut rhai::Scope<'static>, name: &str, v: Option<u32>) {
    s.push(name, v);
}

/// Relies on rhai::Scope::push.
#[verifier::external_body]
pub(crate) fn scope_push_tile(s: &mut rhai::Scope<'static>, name: &str, v: Tile) {
    s.push(name, v);
}

/// Relies on rhai::Scope::push.
#[verifier::external_body]
pub(crate) fn scope_push_tickets(s: &mut rhai::Scope<'static>, name: &str, v: TicketCount) {
    s.push(name, v);
}

/// Relies on rhai::Scope::push; the name-to-amount pairs are handed over
/// as a string-keyed table.
#[verifier::external_body]
pub(crate) fn scope_push_string_u32_map(
    s: &mut rhai::Scope<'static>,
    name: &str,
    entries: Vec<(String, u32)>,
) {
    let m: std::collections::HashMap<String, u32> = entries.into_iter().collect();
    s.push(name, m);
}

/// Relies on rhai::Scope::push.
#[verifier::external_body]
pub(crate) fn scope_push_script_map(s: &mut rhai::Scope<'static>, name: &str, v: ScriptMap) {
    s.push(name, v.inner);
}

/// Relies on rhai::Scope::push_constant.
#[verifier::external_body]
pub(crate) fn scope_push_const_i64(s: &mut rhai::Scope<'static>, name: &str, v: i64) {
    s.push_constant(name, v);
}

/// Relies on rhai::Scope::push_constant.
#[verifier::external_body]
pub(crate) fn scope_push_const_u32(s: &mut rhai::Scope<'static>, name: &str, v: u32) {
    s.push_constant(name, v);
}

/// Relies on rhai::Scope::push_constant.
#[verifier::external_body]
pub(crate) fn scope_push_const_bool(s: &mut rhai::Scope<'static>, name: &str, v: bool) {
    s.push_constant(name, v);
}

/// Relies on rhai::Engine::eval_with_scope: evaluates a rule script to an
/// object map, or reports the evaluation error descriptively. Nothing is
/// assumed about the returned map.
#[verifier::external_body]
pub(crate) fn eval_script_map(
    e: &rhai::Engine,
    s: &mut rhai::Scope<'static>,
    script: &str,
) -> Result<ScriptMap, String> {
    match e.eval_with_scope::<rhai::Map>(s, script) {
        Ok(m) => Ok(ScriptMap { inner: m }),
        Err(err) => Err(err.to_string()),
    }
}

/// Relies on rhai::Engine::parse_json: parses a JSON object into a script
/// map, or reports the error descriptively.
#[verifier::external_body]
pub(crate) fn parse_json_script_map(e: &rhai::Engine, json: &str) -> Result<ScriptMap, String> {
    match e.parse_json(json, true) {
        Ok(m) => Ok(ScriptMap { inner: m }),
        Err(err) => Err(err.to_string()),
    }
}

impl ScriptMap {
    /// Relies on BTreeMap::get: a clone of the named field, if present.
    #[verifier::external_body]
    pub(crate) fn get_dyn(&self, key: &str) -> Option<rhai::Dynamic> {
        self.inner.get(key).cloned()
    }
}

/// Relies on rhai::Dynamic::as_int: the value as an integer, if it is one.
#[verifier::external_body]
pub(crate) fn dyn_as_i64(d: &rhai::Dynamic) -> Option<i64> {
    d.as_int().ok()
}

/// Relies on rhai::Dynamic::as_bool: the value as a boolean, if it is one.
#[verifier::external_body]
pub(crate) fn dyn_as_bool(d: &rhai::Dynamic) -> Option<bool> {
    d.as_bool().ok()
}

/// Relies on rhai::Dynamic::into_string: the value as a string, if it is
/// one.
#[verifier::external_body]
pub(crate) fn dyn_into_string(d: rhai::Dynamic) -> Option<String> {
    d.into_string().ok()
}

/// Relies on rhai::Dynamic::into_array: the value as an array, if it is
/// one.
#[verifier::external_body]
pub(crate) fn dyn_into_array(d: rhai::Dynamic) -> Option<Vec<rhai::Dynamic>> {
    d.into_array().ok()
}

/// Relies on rand::random: a fresh draw from the process random source;
/// nothing can be promised of the value.
#[verifier::external_body]
pub(crate) fn random_u32() -> u32 {
    rand::random::<u32>()
}

/// The shape of a parsed JSON value, as the accessors below read it.
/// A number carries exactly its signed and unsigned 64-bit readings (each
/// absent when the number does not fit); object members come in the
/// object's own order.
pub enum JsonData {
    Null,
    Bool(bool),
    Num { as_i64: Option<i64>, as_u64: Option<u64> },
    Str(Seq<char>),
    Arr(Seq<JsonData>),
    Obj(Seq<(Seq<char>, JsonData)>),
}

/// The first member of an object with the given key, in member order.
pub open spec fn spec_obj_member(es: Seq<(Seq<char>, JsonData)>, k: Seq<char>) -> Option<JsonData>
    decreases es.len(),
{
    if es.len() == 0 {
        None
    } else if es[0].0 == k {
        Some(es[0].1)
    } else {
        spec_obj_member(es.skip(1), k)
    }
}

/// What serde_json::from_str returns for a text: the shape of the parsed
/// document, or nothing when the text is not valid JSON. The result is a
/// function of the text alone.
pub uninterp spec fn json_doc_of(s: Seq<char>) -> Option<JsonData>;

/// The shape a JSON value holds, read field by field by the accessors
/// below.
pub uninterp spec fn json_data_of(v: serde_json::Value) -> JsonData;

/// Relies on serde_json::from_str: parses text into a JSON value exactly
/// when the text denotes one, or reports the parse error descriptively.
#[verifier::external_body]
pub(crate) fn json_parse(s: &str) -> (r: Result<serde_json::Value, String>)
    ensures
        match r {
            Ok(v) => json_doc_of(s@) == Some(json_data_of(v)),
            Err(_) => json_doc_of(s@) is None,
        },
{
    match serde_json::from_str::<serde_json::Value>(s) {
        Ok(v) => Ok(v),
        Err(e) => Err(e.to_string()),
    }
}

/// Relies on serde_json::Value::as_array: a clone of the elements, in
/// order, exactly when the value is an array.
#[verifier::external_body]
pub(crate) fn json_as_array(v: &serde_json::Value) -> (r: Option<Vec<serde_json::Value>>)
    ensures
        match r {
            Some(a) => json_data_of(*v) matches JsonData::Arr(es) && a@.map_values(
                |x: serde_json::Value| json_data_of(x),
            ) == es,
            None => !(json_data_of(*v) is Arr),
        },
{
    v.as_array().cloned()
}

/// Relies on serde_json::Value::get: a clone of the named member exactly
/// when the value is an object that has it.
#[verifier::external_body]
pub(crate) fn json_get(v: &serde_json::Value, key: &str) -> (r: Option<serde_json::Value>)
    ensures
        match r {
            Some(m) => json_data_of(*v) matches JsonData::Obj(es) && spec_obj_member(es, key@)
                == Some(json_data_of(m)),
            None => match json_data_of(*v) {
                JsonData::Obj(es) => spec_obj_member(es, key@) is None,
                _ => true,
            },
        },
{
    v.get(key).cloned()
}

/// Relies on serde_json::Value::as_i64: the signed reading exactly when
/// the value is a number that has one.
#[verifier::external_body]
pub(crate) fn json_as_i64(v: &serde_json::Value) -> (r: Option<i64>)
    ensures
        match r {
            Some(x) => json_data_of(*v) matches JsonData::Num { as_i64, as_u64 } && as_i64 == Some(
                x,
            ),
            None => match json_data_of(*v) {
                JsonData::Num { as_i64, as_u64 } => as_i64 is None,
                _ => true,
            },
        },
{
    v.as_i64()
}

/// Relies on serde_json::Value::as_u64: the unsigned reading exactly when
/// the value is a number that has one.
#[verifier::external_body]
pub(crate) fn json_as_u64(v: &serde_json::Value) -> (r: Option<u64>)
    ensures
        match r {
            Some(x) => json_data_of(*v) matches JsonData::Num { as_i64, as_u64 } && as_u64 == Some(
                x,
            ),
            None => match json_data_of(*v) {
                JsonData::Num { as_i64, as_u64 } => as_u64 is None,
                _ => true,
            },
        },
{
    v.as_u64()
}

/// Relies on serde_json::Value::as_bool: the boolean exactly when the
/// value is one.
#[verifier::external_body]
pub(crate) fn json_as_bool(v: &serde_json::Value) -> (r: Option<bool>)
    ensures
        match r {
            Some(x) => json_data_of(*v) == JsonData::Bool(x),
            None => !(json_data_of(*v) is Bool),
        },
{
    v.as_bool()
}

/// Relies on serde_json::Value::as_str: the owned string exactly when the
/// value is one.
#[verifier::external_body]
pub(crate) fn json_as_string(v: &serde_json::Value) -> (r: Option<String>)
    ensures
        match r {
            Some(st) => json_data_of(*v) == JsonData::Str(st@),
            None => !(json_data_of(*v) is Str),
        },
{
    v.as_str().map(|s| s.to_owned())
}

/// Relies on serde_json::Value::as_object: the members as owned pairs, in
/// the object's order, exactly when the value is an object.
#[verifier::external_body]
pub(crate) fn json_object_entries(v: &serde_json::Value) -> (r: Option<
    Vec<(String, serde_json::Value)>,
>)
    ensures
        match r {
            Some(es) => json_data_of(*v) matches JsonData::Obj(m) && es@.map_values(
                |p: (String, serde_json::Value)| (p.0@, json_data_of(p.1)),
            ) == m,
            None => !(json_data_of(*v) is Obj),
        },
{
    v.as_object().map(|m| m.iter().map(|(k, val)| (k.clone(), val.clone())).collect())
}

} // verus!
