//! Pure, verified functions over the immutable board: the wrapping
//! forward search and the coastal listing offered to rule scripts, tile
//! lookups, and the cycle tax base.
use vstd::prelude::*;

use crate::model::{spec_kind_of, Tile, TileKind};
use crate::num::{clamp_i64, sat_add_i64};
use crate::text::str_eq;

verus! {

/// The first index in `[from, to)` whose tile has the given type tag.
pub open spec fn spec_first_of_type(board: Seq<Tile>, t: Seq<char>, from: int, to: int) -> Option<
    int,
>
    decreases to - from,
{
    if from >= to || from < 0 || to > board.len() {
        None
    } else if board[from].tile_type@ == t {
        Some(from)
    } else {
        spec_first_of_type(board, t, from + 1, to)
    }
}

/// The first index in `[from, to)` whose tile has the given kind.
pub open spec fn spec_first_of_kind(board: Seq<Tile>, k: TileKind, from: int, to: int) -> Option<
    int,
>
    decreases to - from,
{
    if from >= to || from < 0 || to > board.len() {
        None
    } else if spec_kind_of(board[from].tile_type@) == k {
        Some(from)
    } else {
        spec_first_of_kind(board, k, from + 1, to)
    }
}

/// The first index in `[from, to)` whose tile has the given name.
pub open spec fn spec_first_of_name(board: Seq<Tile>, name: Seq<char>, from: int, to: int) -> Option<
    int,
>
    decreases to - from,
{
    if from >= to || from < 0 || to > board.len() {
        None
    } else if board[from].name@ == name {
        Some(from)
    } else {
        spec_first_of_name(board, name, from + 1, to)
    }
}

/// Where the wrapping forward search from `pos` lands: the first index
/// strictly after `pos` with the given type tag, else the first one before
/// `pos`, else `pos` itself.
pub open spec fn spec_find_next_of_type(board: Seq<Tile>, pos: int, t: Seq<char>) -> int {
    let upper = spec_first_of_type(board, t, pos + 1, board.len() as int);
    let cap = if pos < board.len() as int {
        pos
    } else {
        board.len() as int
    };
    let lower = spec_first_of_type(board, t, 0, cap);
    match upper {
        Some(i) => i,
        None => match lower {
            Some(i) => i,
            None => pos,
        },
    }
}

/// The wrapping forward search for the next tile of a type after a
/// position; returns the same position if no other tile has the type.
/// Offered read-only to rule scripts.
pub fn find_next_tile_of_type(board: &Vec<Tile>, current_pos: u32, tile_type: &str) -> (r: u32)
    requires
        board@.len() <= u32::MAX,
    ensures
        r as int == spec_find_next_of_type(board@, current_pos as int, tile_type@),
{
    let len = board.len();
    let pos = current_pos as usize;
    let mut i: usize = if pos >= len {
        len
    } else {
        pos + 1
    };
    while i < len
        invariant
            board@.len() <= u32::MAX,
            pos + 1 <= i <= len || (pos >= len && i == len),
            len == board@.len(),
            pos == current_pos as int,
            spec_first_of_type(board@, tile_type@, pos + 1, len as int) == spec_first_of_type(
                board@,
                tile_type@,
                i as int,
                len as int,
            ),
        decreases len - i,
    {
        if str_eq(board[i].tile_type.as_str(), tile_type) {
            return i as u32;
        }
        i = i + 1;
    }
    let cap = if pos < len {
        pos
    } else {
        len
    };
    let mut j: usize = 0;
    while j < cap
        invariant
            board@.len() <= u32::MAX,
            0 <= j <= cap <= len,
            len == board@.len(),
            pos == current_pos as int,
            cap as int == if pos < len {
                pos as int
            } else {
                len as int
            },
            spec_first_of_type(board@, tile_type@, pos + 1, len as int) is None,
            spec_first_of_type(board@, tile_type@, 0, cap as int) == spec_first_of_type(
                board@,
                tile_type@,
                j as int,
                cap as int,
            ),
        decreases cap - j,
    {
        if str_eq(board[j].tile_type.as_str(), tile_type) {
            return j as u32;
        }
        j = j + 1;
    }
    current_pos
}

/// The first tile of the given kind, if the board has one.
pub fn find_first_of_kind(board: &Vec<Tile>, k: TileKind) -> (r: Option<usize>)
    ensures
        match r {
            Some(u) => spec_first_of_kind(board@, k, 0, board@.len() as int) == Some(u as int) && u
                < board@.len() && spec_kind_of(board@[u as int].tile_type@) == k,
            None => spec_first_of_kind(board@, k, 0, board@.len() as int) is None,
        },
{
    let len = board.len();
    let mut i: usize = 0;
    while i < len
        invariant
            0 <= i <= len,
            len == board@.len(),
            spec_first_of_kind(board@, k, 0, len as int) == spec_first_of_kind(
                board@,
                k,
                i as int,
                len as int,
            ),
        decreases len - i,
    {
        if board[i].kind() == k {
            return Some(i);
        }
        i = i + 1;
    }
    None
}


/// When the search over `[from, to)` finds nothing, no tile there has the
/// kind.
pub proof fn lemma_first_of_kind_none(board: Seq<Tile>, k: TileKind, from: int, to: int)
    requires
        0 <= from,
        to <= board.len(),
        spec_first_of_kind(board, k, from, to) is None,
    ensures
        forall|j: int| from <= j < to ==> spec_kind_of((#[trigger] board[j]).tile_type@) != k,
    decreases to - from,
{
    if from < to {
        lemma_first_of_kind_none(board, k, from + 1, to);
    }
}

/// A tile of the kind anywhere on the board means the search from the
/// start finds one.
pub proof fn lemma_kind_present_finds_first(board: Seq<Tile>, k: TileKind, i: int)
    requires
        0 <= i < board.len(),
        spec_kind_of(board[i].tile_type@) == k,
    ensures
        spec_first_of_kind(board, k, 0, board.len() as int) is Some,
{
    if spec_first_of_kind(board, k, 0, board.len() as int) is None {
        lemma_first_of_kind_none(board, k, 0, board.len() as int);
    }
}

/// The first tile with the given name, if the board has one.
pub fn find_first_of_name(board: &Vec<Tile>, name: &str) -> (r: Option<usize>)
    ensures
        match r {
            Some(u) => spec_first_of_name(board@, name@, 0, board@.len() as int) == Some(u as int)
                && u < board@.len() && board@[u as int].name@ == name@,
            None => spec_first_of_name(board@, name@, 0, board@.len() as int) is None,
        },
{
    let len = board.len();
    let mut i: usize = 0;
    while i < len
        invariant
            0 <= i <= len,
            len == board@.len(),
            spec_first_of_name(board@, name@, 0, len as int) == spec_first_of_name(
                board@,
                name@,
                i as int,
                len as int,
            ),
        decreases len - i,
    {
        if str_eq(board[i].name.as_str(), name) {
            return Some(i);
        }
        i = i + 1;
    }
    None
}

/// The names of the coastal tiles, in board order.
pub open spec fn spec_coastal_names(board: Seq<Tile>) -> Seq<Seq<char>>
    decreases board.len(),
{
    if board.len() == 0 {
        Seq::empty()
    } else {
        let rest = spec_coastal_names(board.drop_last());
        if board.last().is_coastal {
            rest.push(board.last().name@)
        } else {
            rest
        }
    }
}

/// Lists the coastal tile names in board order. Offered read-only to rule
/// scripts.
pub fn get_coastal_cities(board: &Vec<Tile>) -> (r: Vec<String>)
    ensures
        r@.map_values(|s: String| s@) == spec_coastal_names(board@),
{
    let len = board.len();
    let mut out: Vec<String> = Vec::new();
    let mut i: usize = 0;
    while i < len
        invariant
            0 <= i <= len,
            len == board@.len(),
            out@.map_values(|s: String| s@) == spec_coastal_names(board@.take(i as int)),
        decreases len - i,
    {
        proof {
            assert(board@.take(i + 1).drop_last() =~= board@.take(i as int));
            assert(board@.take(i + 1).last() == board@[i as int]);
        }
        if board[i].is_coastal {
            let name = board[i].name.clone();
            out.push(name);
            proof {
                assert(out@.map_values(|s: String| s@) =~= spec_coastal_names(
                    board@.take(i + 1),
                ));
            }
        } else {
            proof {
                assert(out@.map_values(|s: String| s@) =~= spec_coastal_names(
                    board@.take(i + 1),
                ));
            }
        }
        i = i + 1;
    }
    proof {
        assert(board@.take(len as int) =~= board@);
    }
    out
}

/// Half of an amount, rounded toward zero as the executable division
/// computes it.
pub open spec fn spec_half(x: int) -> int {
    if x >= 0 {
        x / 2
    } else {
        -((-x) / 2)
    }
}

/// Halves an amount, rounding toward zero.
pub fn half_amount(x: i64) -> (r: i64)
    ensures
        r as int == spec_half(x as int),
{
    x / 2
}

/// The cycle tax base: the sum of the Infrastructure tile amounts and half
/// of each Hospital tile amount, saturating in the signed 64-bit range.
pub open spec fn spec_tax_base(board: Seq<Tile>) -> int
    decreases board.len(),
{
    if board.len() == 0 {
        0
    } else {
        let rest = spec_tax_base(board.drop_last());
        let k = spec_kind_of(board.last().tile_type@);
        if k == TileKind::Infrastructure {
            clamp_i64(rest + board.last().amount)
        } else if k == TileKind::Hospital {
            clamp_i64(rest + spec_half(board.last().amount as int))
        } else {
            rest
        }
    }
}

pub fn tax_base(board: &Vec<Tile>) -> (r: i64)
    ensures
        r as int == spec_tax_base(board@),
{
    let len = board.len();
    let mut acc: i64 = 0;
    let mut i: usize = 0;
    while i < len
        invariant
            0 <= i <= len,
            len == board@.len(),
            acc as int == spec_tax_base(board@.take(i as int)),
        decreases len - i,
    {
        proof {
            assert(board@.take(i + 1).drop_last() =~= board@.take(i as int));
            assert(board@.take(i + 1).last() == board@[i as int]);
        }
        let k = board[i].kind();
        if k == TileKind::Infrastructure {
            acc = sat_add_i64(acc, board[i].amount);
        } else if k == TileKind::Hospital {
            acc = sat_add_i64(acc, half_amount(board[i].amount));
        }
        i = i + 1;
    }
    proof {
        assert(board@.take(len as int) =~= board@);
    }
    acc
}

/// Whether all tile names on the board are distinct.
pub open spec fn spec_names_unique(board: Seq<Tile>) -> bool {
    forall|i: int, j: int|
        0 <= i < j < board.len() ==> (#[trigger] board[i].name@) != (#[trigger] board[j].name@)
}

/// Checks that all tile names are distinct, as the board format requires.
pub fn names_unique(board: &Vec<Tile>) -> (r: bool)
    ensures
        r == spec_names_unique(board@),
{
    let len = board.len();
    let mut i: usize = 0;
    while i < len
        invariant
            0 <= i <= len,
            len == board@.len(),
            forall|a: int, b: int|
                0 <= a < b < board@.len() && a < i ==> (#[trigger] board@[a].name@) != (
                #[trigger] board@[b].name@),
        decreases len - i,
    {
        let mut j: usize = i + 1;
        while j < len
            invariant
                0 <= i < j <= len,
                len == board@.len(),
                forall|b: int| i < b < j ==> (#[trigger] board@[b].name@) != board@[i as int].name@,
            decreases len - j,
        {
            if str_eq(board[i].name.as_str(), board[j].name.as_str()) {
                return false;
            }
            j = j + 1;
        }
        i = i + 1;
    }
    true
}

} // verus!
