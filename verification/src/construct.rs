//! Reading the construction data: the board, the chance-card inventory and
//! the numeric constants come as JSON text, are parsed into an untyped
//! value by the trusted bridge, and are validated field by field here.
//! Each reader's contract pins exactly when it succeeds, over the shape
//! the text denotes: malformed input fails with a descriptive error.
use vstd::prelude::*;

use crate::board::names_unique;
use crate::bridge::{
    json_as_array, json_as_bool, json_as_i64, json_as_string, json_as_u64, json_doc_of, json_get,
    json_object_entries, json_parse, spec_obj_member, JsonData,
};
use crate::model::{ChanceCard, Tile};

verus! {

/// The named member of an object value; nothing for non-objects.
pub open spec fn spec_member(d: JsonData, k: Seq<char>) -> Option<JsonData> {
    match d {
        JsonData::Obj(es) => spec_obj_member(es, k),
        _ => None,
    }
}

/// A required string member: its characters, or nothing when absent or
/// mistyped.
pub open spec fn spec_str_member(d: JsonData, k: Seq<char>) -> Option<Seq<char>> {
    match spec_member(d, k) {
        Some(JsonData::Str(s)) => Some(s),
        _ => None,
    }
}

/// An optional integer member: 0 when absent, its signed reading when it
/// has one, nothing when present but mistyped.
pub open spec fn spec_i64_member_or_zero(d: JsonData, k: Seq<char>) -> Option<i64> {
    match spec_member(d, k) {
        None => Some(0i64),
        Some(JsonData::Num { as_i64: Some(x), as_u64 }) => Some(x),
        Some(_) => None,
    }
}

/// An optional boolean member: false when absent, its value when it is a
/// boolean, nothing when present but mistyped.
pub open spec fn spec_bool_member_or_false(d: JsonData, k: Seq<char>) -> Option<bool> {
    match spec_member(d, k) {
        None => Some(false),
        Some(JsonData::Bool(b)) => Some(b),
        Some(_) => None,
    }
}

/// The six tile fields an array element denotes — name, type tag, price,
/// amount and the two flags — or nothing when the element is malformed.
pub open spec fn spec_tile_fields(d: JsonData) -> Option<
    (Seq<char>, Seq<char>, i64, i64, bool, bool),
> {
    match (
        spec_str_member(d, "name"@),
        spec_str_member(d, "type"@),
        spec_i64_member_or_zero(d, "price"@),
        spec_i64_member_or_zero(d, "amount"@),
        spec_bool_member_or_false(d, "is_coastal"@),
        spec_bool_member_or_false(d, "is_megacity"@),
    ) {
        (Some(name), Some(tt), Some(price), Some(amount), Some(coastal), Some(mega)) => Some(
            (name, tt, price, amount, coastal, mega),
        ),
        _ => None,
    }
}

/// The array of tile shapes the board text denotes, if it denotes one.
pub open spec fn spec_board_doc(s: Seq<char>) -> Option<Seq<JsonData>> {
    match json_doc_of(s) {
        Some(JsonData::Arr(es)) => Some(es),
        _ => None,
    }
}

/// When the board text is accepted: it denotes a non-empty array of
/// well-formed tiles, small enough for 32-bit positions, with pairwise
/// distinct names.
pub open spec fn spec_board_ok(s: Seq<char>) -> bool {
    match spec_board_doc(s) {
        Some(es) => {
            &&& forall|i: int| 0 <= i < es.len() ==> spec_tile_fields(#[trigger] es[i]) is Some
            &&& 1 <= es.len() <= u32::MAX
            &&& forall|i: int, j: int|
                0 <= i < j < es.len() ==> ((#[trigger] spec_tile_fields(es[i]))->0).0 != ((
                #[trigger] spec_tile_fields(es[j]))->0).0
        },
        None => false,
    }
}

/// The three text fields of a chance card, or nothing when malformed.
pub open spec fn spec_card_fields(d: JsonData) -> Option<(Seq<char>, Seq<char>, Seq<char>)> {
    match (
        spec_str_member(d, "title"@),
        spec_str_member(d, "descriptoin"@),
        spec_str_member(d, "instruction"@),
    ) {
        (Some(t), Some(de), Some(i)) => Some((t, de, i)),
        _ => None,
    }
}

/// The members a text denotes, if it denotes an object.
pub open spec fn spec_object_doc(s: Seq<char>) -> Option<Seq<(Seq<char>, JsonData)>> {
    match json_doc_of(s) {
        Some(JsonData::Obj(es)) => Some(es),
        None => None,
        Some(_) => None,
    }
}

/// When the inventory text is accepted: it denotes an object whose every
/// member is a well-formed card.
pub open spec fn spec_cards_ok(s: Seq<char>) -> bool {
    match spec_object_doc(s) {
        Some(es) => forall|i: int|
            0 <= i < es.len() ==> spec_card_fields((#[trigger] es[i]).1) is Some,
        None => false,
    }
}

/// When the constants text is accepted: it denotes an object whose every
/// member is an unsigned integer that fits 32 bits.
pub open spec fn spec_consts_ok(s: Seq<char>) -> bool {
    match spec_object_doc(s) {
        Some(es) => forall|i: int|
            0 <= i < es.len() ==> match (#[trigger] es[i]).1 {
                JsonData::Num { as_i64, as_u64 } => as_u64 is Some && as_u64->0
                    <= u32::MAX,
                _ => false,
            },
        None => false,
    }
}

fn bad(what: &str) -> (r: String) {
    what.to_owned()
}

fn req_str_member(v: &serde_json::Value, key: &str, what: &str) -> (r: Result<String, String>)
    ensures
        match r {
            Ok(s) => spec_str_member(crate::bridge::json_data_of(*v), key@) == Some(s@),
            Err(_) => spec_str_member(crate::bridge::json_data_of(*v), key@) is None,
        },
{
    match json_get(v, key) {
        Some(m) => match json_as_string(&m) {
            Some(s) => Ok(s),
            None => Err(bad(what)),
        },
        None => Err(bad(what)),
    }
}

/// An integer member that defaults to 0 when absent but must have a signed
/// reading when present.
fn opt_i64_member(v: &serde_json::Value, key: &str, what: &str) -> (r: Result<i64, String>)
    ensures
        match r {
            Ok(x) => spec_i64_member_or_zero(crate::bridge::json_data_of(*v), key@) == Some(x),
            Err(_) => spec_i64_member_or_zero(crate::bridge::json_data_of(*v), key@) is None,
        },
{
    match json_get(v, key) {
        Some(m) => match json_as_i64(&m) {
            Some(x) => Ok(x),
            None => Err(bad(what)),
        },
        None => Ok(0),
    }
}

/// A boolean member that defaults to false when absent but must be a
/// boolean when present.
fn opt_bool_member(v: &serde_json::Value, key: &str, what: &str) -> (r: Result<bool, String>)
    ensures
        match r {
            Ok(x) => spec_bool_member_or_false(crate::bridge::json_data_of(*v), key@) == Some(x),
            Err(_) => spec_bool_member_or_false(crate::bridge::json_data_of(*v), key@) is None,
        },
{
    match json_get(v, key) {
        Some(m) => match json_as_bool(&m) {
            Some(x) => Ok(x),
            None => Err(bad(what)),
        },
        None => Ok(false),
    }
}


/// Reads one tile from an array element; fails exactly when the element is
/// malformed.
fn parse_tile(item: &serde_json::Value) -> (r: Result<Tile, String>)
    ensures
        match r {
            Ok(t) => spec_tile_fields(crate::bridge::json_data_of(*item)) == Some(
                (t.name@, t.tile_type@, t.price, t.amount, t.is_coastal, t.is_megacity),
            ),
            Err(_) => spec_tile_fields(crate::bridge::json_data_of(*item)) is None,
        },
{
    let name = req_str_member(item, "name", "a tile needs a 'name' string")?;
    let tile_type = req_str_member(item, "type", "a tile needs a 'type' string")?;
    let price = opt_i64_member(item, "price", "a tile 'price' must be an integer")?;
    let amount = opt_i64_member(item, "amount", "a tile 'amount' must be an integer")?;
    let is_coastal = opt_bool_member(item, "is_coastal", "'is_coastal' must be a boolean")?;
    let is_megacity = opt_bool_member(item, "is_megacity", "'is_megacity' must be a boolean")?;
    Ok(Tile { name, tile_type, price, amount, is_coastal, is_megacity })
}

/// Reads one chance card from an object member; fails exactly when the
/// member is malformed.
fn parse_card(val: &serde_json::Value) -> (r: Result<ChanceCard, String>)
    ensures
        match r {
            Ok(c) => spec_card_fields(crate::bridge::json_data_of(*val)) == Some(
                (c.title@, c.descriptoin@, c.instruction@),
            ),
            Err(_) => spec_card_fields(crate::bridge::json_data_of(*val)) is None,
        },
{
    let title = req_str_member(val, "title", "a chance card needs a 'title' string")?;
    let descriptoin = req_str_member(
        val,
        "descriptoin",
        "a chance card needs a 'descriptoin' string",
    )?;
    let instruction = req_str_member(
        val,
        "instruction",
        "a chance card needs an 'instruction' string",
    )?;
    Ok(ChanceCard { title, descriptoin, instruction })
}

/// Parses and validates the board definition; accepts exactly the texts
/// that denote a non-empty array of well-formed tiles with unique names,
/// small enough that every position fits a 32-bit index, and returns the
/// tiles those shapes denote.
pub fn parse_board(json: &str) -> (r: Result<Vec<Tile>, String>)
    ensures
        r is Ok <==> spec_board_ok(json@),
        match r {
            Ok(board) => {
                let es = spec_board_doc(json@)->0;
                &&& 1 <= board@.len() <= u32::MAX
                &&& crate::board::spec_names_unique(board@)
                &&& board@.len() == es.len()
                &&& forall|i: int|
                    0 <= i < es.len() ==> spec_tile_fields(#[trigger] es[i]) == Some(
                        (
                            board@[i].name@,
                            board@[i].tile_type@,
                            board@[i].price,
                            board@[i].amount,
                            board@[i].is_coastal,
                            board@[i].is_megacity,
                        ),
                    )
            },
            Err(_) => true,
        },
{
    let v = match json_parse(json) {
        Ok(v) => v,
        Err(e) => {
            return Err(e);
        },
    };
    let items = match json_as_array(&v) {
        Some(a) => a,
        None => {
            return Err(bad("the board definition must be an array of tiles"));
        },
    };
    let ghost es = items@.map_values(|x: serde_json::Value| crate::bridge::json_data_of(x));
    proof {
        assert(spec_board_doc(json@) == Some(es));
    }
    let mut board: Vec<Tile> = Vec::new();
    let n = items.len();
    let mut i: usize = 0;
    while i < n
        invariant
            0 <= i <= n,
            n == items@.len(),
            n == es.len(),
            es == items@.map_values(|x: serde_json::Value| crate::bridge::json_data_of(x)),
            spec_board_doc(json@) == Some(es),
            board@.len() == i,
            forall|j: int|
                0 <= j < i ==> spec_tile_fields(#[trigger] es[j]) == Some(
                    (
                        board@[j].name@,
                        board@[j].tile_type@,
                        board@[j].price,
                        board@[j].amount,
                        board@[j].is_coastal,
                        board@[j].is_megacity,
                    ),
                ),
        decreases n - i,
    {
        proof {
            assert(es[i as int] == crate::bridge::json_data_of(items@[i as int]));
        }
        let tile = match parse_tile(&items[i]) {
            Ok(t) => t,
            Err(e) => {
                proof {
                    assert(spec_tile_fields(es[i as int]) is None);
                    assert(!spec_board_ok(json@));
                }
                return Err(e);
            },
        };
        board.push(tile);
        i = i + 1;
    }
    if board.len() == 0 {
        return Err(bad("the board must hold at least one tile"));
    }
    if board.len() > u32::MAX as usize {
        return Err(bad("the board is too large"));
    }
    if !names_unique(&board) {
        proof {
            let (a, b) = choose|a: int, b: int|
                0 <= a < b < board@.len() && board@[a].name@ == board@[b].name@;
            assert(((spec_tile_fields(es[a]))->0).0 == board@[a].name@);
            assert(((spec_tile_fields(es[b]))->0).0 == board@[b].name@);
            assert(!spec_board_ok(json@));
        }
        return Err(bad("tile names must be unique"));
    }
    proof {
        assert forall|a: int, b: int| 0 <= a < b < es.len() implies ((#[trigger] spec_tile_fields(
            es[a],
        ))->0).0 != ((#[trigger] spec_tile_fields(es[b]))->0).0 by {
            assert(board@[a].name@ != board@[b].name@);
        }
    }
    Ok(board)
}

/// Parses and validates the chance-card inventory; accepts exactly the
/// texts that denote an object of well-formed cards, and returns them
/// keyed by id in the object's order.
pub fn parse_cards(json: &str) -> (r: Result<Vec<(String, ChanceCard)>, String>)
    ensures
        r is Ok <==> spec_cards_ok(json@),
        match r {
            Ok(cards) => {
                let es = spec_object_doc(json@)->0;
                &&& cards@.len() == es.len()
                &&& forall|i: int|
                    0 <= i < es.len() ==> (#[trigger] es[i]).0 == cards@[i].0@
                        && spec_card_fields(es[i].1) == Some(
                        (cards@[i].1.title@, cards@[i].1.descriptoin@, cards@[i].1.instruction@),
                    )
            },
            Err(_) => true,
        },
{
    let v = match json_parse(json) {
        Ok(v) => v,
        Err(e) => {
            return Err(e);
        },
    };
    let entries = match json_object_entries(&v) {
        Some(e) => e,
        None => {
            return Err(bad("the chance cards must be an object keyed by card id"));
        },
    };
    let ghost es = entries@.map_values(
        |p: (String, serde_json::Value)| (p.0@, crate::bridge::json_data_of(p.1)),
    );
    proof {
        assert(spec_object_doc(json@) == Some(es));
    }
    let mut cards: Vec<(String, ChanceCard)> = Vec::new();
    let n = entries.len();
    let mut i: usize = 0;
    while i < n
        invariant
            0 <= i <= n,
            n == entries@.len(),
            n == es.len(),
            es == entries@.map_values(
                |p: (String, serde_json::Value)| (p.0@, crate::bridge::json_data_of(p.1)),
            ),
            spec_object_doc(json@) == Some(es),
            cards@.len() == i,
            forall|j: int|
                0 <= j < i ==> (#[trigger] es[j]).0 == cards@[j].0@ && spec_card_fields(es[j].1)
                    == Some(
                    (cards@[j].1.title@, cards@[j].1.descriptoin@, cards@[j].1.instruction@),
                ),
        decreases n - i,
    {
        proof {
            assert(es[i as int] == (entries@[i as int].0@, crate::bridge::json_data_of(
                entries@[i as int].1,
            )));
        }
        let card = match parse_card(&entries[i].1) {
            Ok(c) => c,
            Err(e) => {
                proof {
                    assert(spec_card_fields(es[i as int].1) is None);
                    assert(!spec_cards_ok(json@));
                }
                return Err(e);
            },
        };
        let key = entries[i].0.clone();
        cards.push((key, card));
        i = i + 1;
    }
    Ok(cards)
}

/// Parses and validates the numeric constants; accepts exactly the texts
/// that denote an object of unsigned integers fitting 32 bits, and returns
/// them in the object's order.
pub fn parse_consts(json: &str) -> (r: Result<Vec<(String, u32)>, String>)
    ensures
        r is Ok <==> spec_consts_ok(json@),
        match r {
            Ok(consts) => {
                let es = spec_object_doc(json@)->0;
                &&& consts@.len() == es.len()
                &&& forall|i: int|
                    0 <= i < es.len() ==> (#[trigger] es[i]).0 == consts@[i].0@ && (es[i].1
                        matches JsonData::Num { as_i64, as_u64 } && as_u64 == Some(
                        consts@[i].1 as u64,
                    ))
            },
            Err(_) => true,
        },
{
    let v = match json_parse(json) {
        Ok(v) => v,
        Err(e) => {
            return Err(e);
        },
    };
    let entries = match json_object_entries(&v) {
        Some(e) => e,
        None => {
            return Err(bad("the constants must be an object of integers"));
        },
    };
    let ghost es = entries@.map_values(
        |p: (String, serde_json::Value)| (p.0@, crate::bridge::json_data_of(p.1)),
    );
    proof {
        assert(spec_object_doc(json@) == Some(es));
    }
    let mut consts: Vec<(String, u32)> = Vec::new();
    let n = entries.len();
    let mut i: usize = 0;
    while i < n
        invariant
            0 <= i <= n,
            n == entries@.len(),
            n == es.len(),
            es == entries@.map_values(
                |p: (String, serde_json::Value)| (p.0@, crate::bridge::json_data_of(p.1)),
            ),
            spec_object_doc(json@) == Some(es),
            consts@.len() == i,
            forall|j: int|
                0 <= j < i ==> (#[trigger] es[j]).0 == consts@[j].0@ && (es[j].1 matches
                    JsonData::Num { as_i64, as_u64 } && as_u64 == Some(consts@[j].1 as u64)),
        decreases n - i,
    {
        proof {
            assert(es[i as int] == (entries@[i as int].0@, crate::bridge::json_data_of(
                entries@[i as int].1,
            )));
        }
        let raw = match json_as_u64(&entries[i].1) {
            Some(x) => x,
            None => {
                proof {
                    assert(!spec_consts_ok(json@));
                }
                return Err(bad("a constant must be a non-negative integer"));
            },
        };
        if raw > u32::MAX as u64 {
            proof {
                assert(!spec_consts_ok(json@));
            }
            return Err(bad("a constant does not fit 32 bits"));
        }
        let key = entries[i].0.clone();
        consts.push((key, raw as u32));
        i = i + 1;
    }
    Ok(consts)
}

} // verus!
