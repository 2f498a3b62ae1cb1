use std::collections::HashMap;
use vstd::prelude::*;
use vstd::std_specs::hash::obeys_key_model;
use crate::utils::Timestamp;
use crate::utils::decimal::{
    chars_of, decimal, lemma_decimal_digits, lemma_parse_decimal, parse_unsigned,
    parse_unsigned_text, push_char, push_decimal,
};

verus! {

broadcast use vstd::std_specs::hash::group_hash_axioms;

/// A room as stored: its id, the hash of its invite code and how many
/// players it has.
pub struct RoomDetails {
    pub id: i64,
    pub invite_code_hash: String,
    pub player_count: i64,
}

/// A room to be stored, by the hash of its invite code.
pub struct CreateRoom {
    pub invite_code_hash: String,
}

/// The answer to creating a room: its id and its invite code.
pub struct CreateRoomResponse {
    pub id: i64,
    pub invite_code: String,
}

/// A player as stored.
pub struct CurrentPlayer {
    pub id: i64,
    pub ref_no: i64,
    pub display_name: Option<String>,
}

/// A player in an answer, with the tokens of their session.
pub struct CurrentPlayerResponse {
    pub id: i64,
    pub display_name: Option<String>,
    pub access_token: String,
    pub access_token_expires_at: Timestamp,
    pub refresh_token: String,
    pub refresh_token_expires_at: Timestamp,
}

/// The answer to joining a room.
pub struct CurrentRoomResponse {
    pub id: i64,
    pub player_count: i64,
    pub current_player: CurrentPlayerResponse,
}

/// A request to refresh a session.
pub struct RefreshSessionRequest {
    pub access_token: String,
    pub refresh_token: String,
}

/// A request to drop a token into a column.
#[derive(Clone, Copy, Debug, PartialEq, Eq, Structural)]
pub struct MakeMoveRequest {
    pub column: u64,
}

/// A move by a player in a room.
#[derive(Clone, Copy, Debug, PartialEq, Eq, Structural)]
pub struct MakeMove {
    pub room_id: i64,
    pub player_id: i64,
    pub column: u64,
}

/// Number of distinct cell keys: every `(x, y)` with `x: u64`, `y: u8`.
pub open spec fn cell_key_bound() -> int {
    0x1_0000_0000_0000_0000_00int
}

/// The single integer under which cell `(x, y)` is stored.
pub open spec fn cell_key(x: u64, y: u8) -> u128 {
    (x as int * 256 + y as int) as u128
}

/// The abstract board: which player holds each occupied cell, and how
/// many tokens each column that has been played holds.
pub struct BoardView {
    pub positions: Map<(u64, u8), i64>,
    pub heights: Map<u64, u8>,
}

/// The height of column `x`: the number recorded for it, or 0.
pub open spec fn column_height(b: BoardView, x: u64) -> u8 {
    if b.heights.contains_key(x) {
        b.heights[x]
    } else {
        0
    }
}

/// A Connect Four board.
///
/// `positions` maps a cell to the id of the player whose token is there,
/// `heights` maps a column to the number of tokens it holds.
pub struct BoardState {
    positions: HashMap<u128, i64>,
    heights: HashMap<u64, u8>,
}

impl BoardState {
    /// Every stored cell key stands for a cell `(x, y)`.
    #[verifier::type_invariant]
    spec fn keys_in_range(self) -> bool {
        forall|k: u128| #[trigger] self.positions@.contains_key(k) ==> k < cell_key_bound()
    }
}

impl View for BoardState {
    type V = BoardView;

    closed spec fn view(&self) -> BoardView {
        BoardView {
            positions: Map::new(
                |c: (u64, u8)| self.positions@.contains_key(cell_key(c.0, c.1)),
                |c: (u64, u8)| self.positions@[cell_key(c.0, c.1)],
            ),
            heights: self.heights@,
        }
    }
}

impl Clone for BoardState {
    /// A copy of the board.
    fn clone(&self) -> (r: Self)
        ensures
            r@ == self@,
    {
        proof {
            use_type_invariant(self);
        }
        BoardState { positions: self.positions.clone(), heights: self.heights.clone() }
    }
}

proof fn lemma_cell_key_inverse(x: u64, y: u8)
    ensures
        cell_key(x, y) < cell_key_bound(),
        cell_key(x, y) / 256 == x,
        cell_key(x, y) % 256 == y,
{
}

proof fn lemma_cell_key_injective(x1: u64, y1: u8, x2: u64, y2: u8)
    ensures
        cell_key(x1, y1) == cell_key(x2, y2) ==> x1 == x2 && y1 == y2,
{
    lemma_cell_key_inverse(x1, y1);
    lemma_cell_key_inverse(x2, y2);
}

proof fn lemma_cell_key_decode(k: u128)
    requires
        k < cell_key_bound(),
    ensures
        (k / 256) as u64 == k / 256,
        (k % 256) as u8 == k % 256,
        cell_key((k / 256) as u64, (k % 256) as u8) == k,
{
}

fn key_of(x: u64, y: u8) -> (k: u128)
    ensures
        k == cell_key(x, y),
{
    (x as u128) * 256 + (y as u128)
}

impl BoardState {
    /// An empty board.
    pub fn new() -> (b: BoardState)
        ensures
            b@.positions == Map::<(u64, u8), i64>::empty(),
            b@.heights == Map::<u64, u8>::empty(),
    {
        assert(obeys_key_model::<u128>());
        let b = BoardState { positions: HashMap::new(), heights: HashMap::new() };
        assert(b@.positions =~= Map::<(u64, u8), i64>::empty());
        b
    }

    /// The player whose token is at `(x, y)`, if any.
    pub fn position(&self, x: u64, y: u8) -> (r: Option<i64>)
        ensures
            r == (if self@.positions.contains_key((x, y)) {
                Some(self@.positions[(x, y)])
            } else {
                None
            }),
    {
        let k = key_of(x, y);
        match self.positions.get(&k) {
            Some(p) => Some(*p),
            None => None,
        }
    }

    /// The number of tokens in column `x`.
    pub fn height(&self, x: u64) -> (r: u8)
        ensures
            r == column_height(self@, x),
    {
        match self.heights.get(&x) {
            Some(h) => *h,
            None => 0,
        }
    }

    /// Puts `player`'s token at `(x, y)`, replacing whatever was there.
    pub fn set_position(&mut self, x: u64, y: u8, player: i64)
        ensures
            final(self)@.positions == old(self)@.positions.insert((x, y), player),
            final(self)@.heights == old(self)@.heights,
    {
        proof {
            use_type_invariant(&*self);
            lemma_cell_key_inverse(x, y);
        }
        let k = key_of(x, y);
        let mut positions = HashMap::new();
        std::mem::swap(&mut positions, &mut self.positions);
        positions.insert(k, player);
        self.positions = positions;
        proof {
            assert forall|c: (u64, u8)|
                #![trigger self@.positions.contains_key(c)]
                self@.positions.contains_key(c) == old(self)@.positions.insert(
                    (x, y),
                    player,
                ).contains_key(c) by {
                lemma_cell_key_injective(c.0, c.1, x, y);
            }
            assert forall|c: (u64, u8)|
                #![trigger self@.positions[c]]
                self@.positions.contains_key(c) ==> self@.positions[c] == old(
                    self,
                )@.positions.insert((x, y), player)[c] by {
                lemma_cell_key_injective(c.0, c.1, x, y);
            }
            assert(self@.positions =~= old(self)@.positions.insert((x, y), player));
        }
    }

    /// Records that column `x` holds `height` tokens.
    pub fn set_height(&mut self, x: u64, height: u8)
        ensures
            final(self)@.positions == old(self)@.positions,
            final(self)@.heights == old(self)@.heights.insert(x, height),
    {
        proof {
            use_type_invariant(&*self);
        }
        let mut heights = HashMap::new();
        std::mem::swap(&mut heights, &mut self.heights);
        heights.insert(x, height);
        self.heights = heights;
        assert(self@.positions =~= old(self)@.positions);
    }
}

// ---------------------------------------------------------------------
// The stored form of a board
// ---------------------------------------------------------------------
/// The text under which cell `(x, y)` is stored: `x`, a comma, `y`.
pub open spec fn coordinate_text(x: u64, y: u8) -> Seq<char> {
    decimal(x as nat) + seq![','] + decimal(y as nat)
}

/// Why a stored cell key could not be read.
#[derive(PartialEq, Eq, Structural, Clone, Copy, Debug)]
pub enum CoordinateError {
    /// The key holds no comma.
    MissingDelimiter,
    /// The text before the first comma is no `u64`.
    InvalidX,
    /// The text after the first comma is no `u8`.
    InvalidY,
}

impl CoordinateError {
    /// The message that reading a stored board reports for this error.
    pub fn message(&self) -> (m: &'static str)
        ensures
            *self is MissingDelimiter ==> m@ == "invalid coordinate"@,
            *self is InvalidX ==> m@ == "invalid x coordinate"@,
            *self is InvalidY ==> m@ == "invalid y coordinate"@,
    {
        match self {
            CoordinateError::MissingDelimiter => "invalid coordinate",
            CoordinateError::InvalidX => "invalid x coordinate",
            CoordinateError::InvalidY => "invalid y coordinate",
        }
    }
}

/// Whether `i` is the first position of a comma in `s`.
pub open spec fn is_first_comma(s: Seq<char>, i: int) -> bool {
    0 <= i < s.len() && s[i] == ',' && forall|j: int| 0 <= j < i ==> s[j] != ','
}

/// What reading a stored cell key gives: the key is split at its first
/// comma, the part before it read as a `u64`, the part after it as a `u8`.
pub open spec fn read_coordinate(s: Seq<char>) -> Result<(u64, u8), CoordinateError> {
    if !s.contains(',') {
        Err(CoordinateError::MissingDelimiter)
    } else {
        let i = choose|i: int| is_first_comma(s, i);
        match parse_unsigned(s.take(i), u64::MAX as nat) {
            None => Err(CoordinateError::InvalidX),
            Some(x) => match parse_unsigned(s.skip(i + 1), u8::MAX as nat) {
                None => Err(CoordinateError::InvalidY),
                Some(y) => Ok((x as u64, y as u8)),
            },
        }
    }
}

proof fn lemma_first_comma_unique(s: Seq<char>, i: int, j: int)
    requires
        is_first_comma(s, i),
        is_first_comma(s, j),
    ensures
        i == j,
{
}

/// The stored key of a cell reads back as that cell.
pub proof fn coordinate_text_reads_back(x: u64, y: u8)
    ensures
        read_coordinate(coordinate_text(x, y)) == Ok::<(u64, u8), CoordinateError>((x, y)),
{
    let dx = decimal(x as nat);
    let dy = decimal(y as nat);
    let s = coordinate_text(x, y);
    lemma_decimal_digits(x as nat);
    lemma_decimal_digits(y as nat);
    let k = dx.len() as int;
    assert(s[k] == ',');
    assert forall|j: int| 0 <= j < k implies s[j] != ',' by {
        assert(s[j] == dx[j]);
    }
    assert(is_first_comma(s, k));
    assert(s.contains(','));
    let i = choose|i: int| is_first_comma(s, i);
    lemma_first_comma_unique(s, i, k);
    assert(s.take(k) =~= dx);
    assert(s.skip(k + 1) =~= dy);
    lemma_parse_decimal(x as nat, u64::MAX as nat);
    lemma_parse_decimal(y as nat, u8::MAX as nat);
}

/// Two cells with the same stored key are the same cell.
pub proof fn coordinate_text_is_injective(x1: u64, y1: u8, x2: u64, y2: u8)
    ensures
        coordinate_text(x1, y1) == coordinate_text(x2, y2) ==> x1 == x2 && y1 == y2,
{
    coordinate_text_reads_back(x1, y1);
    coordinate_text_reads_back(x2, y2);
}

/// `format!("{x},{y}")`.
pub fn format_coordinate(x: u64, y: u8) -> (r: String)
    ensures
        r@ == coordinate_text(x, y),
{
    let mut out = String::new();
    push_decimal(&mut out, x);
    push_char(&mut out, ',');
    push_decimal(&mut out, y as u64);
    proof {
        assert(out@ =~= coordinate_text(x, y));
    }
    out
}

/// Reads a stored cell key.
pub fn parse_coordinate(coords: &str) -> (r: Result<(u64, u8), CoordinateError>)
    ensures
        r == read_coordinate(coords@),
{
    let cs = chars_of(coords);
    let n = cs.len();
    let mut i: usize = 0;
    while i < n
        invariant
            i <= n == cs@.len(),
            cs@ == coords@,
            forall|j: int| 0 <= j < i ==> cs@[j] != ',',
        ensures
            i <= n == cs@.len(),
            cs@ == coords@,
            forall|j: int| 0 <= j < i ==> cs@[j] != ',',
            i < n ==> cs@[i as int] == ',',
        decreases n - i,
    {
        if cs[i] == ',' {
            break;
        }
        i += 1;
    }
    if i == n {
        proof {
            assert(!coords@.contains(','));
        }
        return Err(CoordinateError::MissingDelimiter);
    }
    proof {
        assert(is_first_comma(coords@, i as int));
        let k = choose|k: int| is_first_comma(coords@, k);
        lemma_first_comma_unique(coords@, k, i as int);
        assert(cs@.subrange(0, i as int) =~= coords@.take(i as int));
        assert(cs@.subrange(i + 1, n as int) =~= coords@.skip(i + 1));
    }
    let x = match parse_unsigned_text(&cs, 0, i, u64::MAX) {
        Some(x) => x,
        None => {
            return Err(CoordinateError::InvalidX);
        },
    };
    let y = match parse_unsigned_text(&cs, i + 1, n, u8::MAX as u64) {
        Some(y) => y,
        None => {
            return Err(CoordinateError::InvalidY);
        },
    };
    Ok((x, y as u8))
}

/// A board in the form in which it is stored: each occupied cell under
/// its coordinate text, and the column heights as they are.
pub struct StoredBoardState {
    pub positions: Vec<(String, i64)>,
    pub heights: HashMap<u64, u8>,
}

/// The stored cell entries, with their keys as character sequences.
pub open spec fn entries_view(entries: Seq<(String, i64)>) -> Seq<(Seq<char>, i64)> {
    entries.map_values(|e: (String, i64)| (e.0@, e.1))
}

/// What reading stored cell entries gives, entry by entry in order: the
/// first key that cannot be read is reported; otherwise each entry puts
/// its value at its cell, a later entry for a cell replacing an earlier.
pub open spec fn read_positions(entries: Seq<(Seq<char>, i64)>) -> Result<
    Map<(u64, u8), i64>,
    CoordinateError,
>
    decreases entries.len(),
{
    if entries.len() == 0 {
        Ok(Map::empty())
    } else {
        match read_positions(entries.drop_last()) {
            Err(e) => Err(e),
            Ok(m) => match read_coordinate(entries.last().0) {
                Err(e) => Err(e),
                Ok(c) => Ok(m.insert(c, entries.last().1)),
            },
        }
    }
}

/// Each entry holds an occupied cell of `positions`, under its
/// coordinate text and with its player.
pub open spec fn entries_are_cells(
    entries: Seq<(Seq<char>, i64)>,
    positions: Map<(u64, u8), i64>,
) -> bool {
    forall|i: int|
        #![trigger entries[i]]
        0 <= i < entries.len() ==> exists|c: (u64, u8)|
            #![trigger positions.contains_key(c)]
            positions.contains_key(c) && entries[i] == (coordinate_text(c.0, c.1), positions[c])
}

/// No two entries share a key.
pub open spec fn entry_keys_distinct(entries: Seq<(Seq<char>, i64)>) -> bool {
    forall|i: int, j: int|
        0 <= i < entries.len() && 0 <= j < entries.len() && i != j ==> entries[i].0
            != entries[j].0
}

/// The entries hold each occupied cell of `positions` exactly once, under
/// its coordinate text and with its player, and nothing else.
pub open spec fn lists_positions(
    entries: Seq<(Seq<char>, i64)>,
    positions: Map<(u64, u8), i64>,
) -> bool {
    &&& entries_are_cells(entries, positions)
    &&& forall|c: (u64, u8)|
        #![trigger positions.contains_key(c)]
        positions.contains_key(c) ==> exists|i: int|
            0 <= i < entries.len() && entries[i] == (coordinate_text(c.0, c.1), positions[c])
    &&& entry_keys_distinct(entries)
}

proof fn lemma_read_listed_prefix(
    entries: Seq<(Seq<char>, i64)>,
    positions: Map<(u64, u8), i64>,
    k: int,
)
    requires
        lists_positions(entries, positions),
        0 <= k <= entries.len(),
    ensures
        read_positions(entries.take(k)) == Ok::<Map<(u64, u8), i64>, CoordinateError>(
            positions.restrict(
                Set::new(
                    |c: (u64, u8)|
                        exists|i: int|
                            0 <= i < k && entries[i].0 == coordinate_text(c.0, c.1),
                ),
            ),
        ),
    decreases k,
{
    let dom_k = Set::new(
        |c: (u64, u8)| exists|i: int| 0 <= i < k && entries[i].0 == coordinate_text(c.0, c.1),
    );
    if k == 0 {
        assert(entries.take(0) =~= Seq::<(Seq<char>, i64)>::empty());
        assert(positions.restrict(dom_k) =~= Map::<(u64, u8), i64>::empty());
    } else {
        lemma_read_listed_prefix(entries, positions, k - 1);
        let dom_prev = Set::new(
            |c: (u64, u8)|
                exists|i: int| 0 <= i < k - 1 && entries[i].0 == coordinate_text(c.0, c.1),
        );
        assert(entries.take(k).drop_last() =~= entries.take(k - 1));
        let c = choose|c: (u64, u8)|
            #![trigger positions.contains_key(c)]
            positions.contains_key(c) && entries[k - 1] == (coordinate_text(c.0, c.1), positions[c]);
        coordinate_text_reads_back(c.0, c.1);
        assert(entries.take(k).last() == entries[k - 1]);
        assert forall|d: (u64, u8)| dom_k.contains(d) implies positions.contains_key(d) by {
            let i = choose|i: int| 0 <= i < k && entries[i].0 == coordinate_text(d.0, d.1);
            let e = choose|e: (u64, u8)|
                #![trigger positions.contains_key(e)]
                positions.contains_key(e) && entries[i] == (coordinate_text(e.0, e.1), positions[e]);
            coordinate_text_is_injective(d.0, d.1, e.0, e.1);
        }
        assert forall|d: (u64, u8)| #[trigger] dom_k.contains(d) == (dom_prev.contains(d) || d == c) by {
            if dom_k.contains(d) && d != c {
                let i = choose|i: int| 0 <= i < k && entries[i].0 == coordinate_text(d.0, d.1);
                if i == k - 1 {
                    coordinate_text_is_injective(d.0, d.1, c.0, c.1);
                }
            }
            if d == c {
                assert(entries[k - 1].0 == coordinate_text(d.0, d.1));
            }
        }
        assert(positions.restrict(dom_k) =~= positions.restrict(dom_prev).insert(c, positions[c]));
    }
}

/// Reading back the entries that list a board's cells gives the board's
/// cells.
pub proof fn listed_positions_read_back(
    entries: Seq<(Seq<char>, i64)>,
    positions: Map<(u64, u8), i64>,
)
    requires
        lists_positions(entries, positions),
    ensures
        read_positions(entries) == Ok::<Map<(u64, u8), i64>, CoordinateError>(positions),
{
    lemma_read_listed_prefix(entries, positions, entries.len() as int);
    assert(entries.take(entries.len() as int) =~= entries);
    let dom = Set::new(
        |c: (u64, u8)|
            exists|i: int| 0 <= i < entries.len() && entries[i].0 == coordinate_text(c.0, c.1),
    );
    assert forall|c: (u64, u8)| positions.contains_key(c) implies dom.contains(c) by {
        let i = choose|i: int|
            0 <= i < entries.len() && entries[i] == (coordinate_text(c.0, c.1), positions[c]);
        assert(entries[i].0 == coordinate_text(c.0, c.1));
    }
    assert(positions.restrict(dom) =~= positions);
}

impl BoardState {
    /// The stored form of the board: one entry per occupied cell, in the
    /// order in which the cell map hands them out, and the heights.
    pub fn to_stored(&self) -> (r: StoredBoardState)
        ensures
            lists_positions(entries_view(r.positions@), self@.positions),
            r.heights@ == self@.heights,
    {
        proof {
            use_type_invariant(self);
            assert(obeys_key_model::<u128>());
        }
        let mut entries: Vec<(String, i64)> = Vec::new();
        let ghost pos = self@.positions;
        for kv in it: self.positions.iter()
            invariant
                pos == self@.positions,
                forall|i: int|
                    0 <= i < it.seq().len() ==> self.positions@.contains_key(
                        *(#[trigger] it.seq()[i]).0,
                    ) && self.positions@[*it.seq()[i].0] == *it.seq()[i].1,
                forall|k: u128| #[trigger]
                    self.positions@.contains_key(k) ==> it.seq().contains((&k, &self.positions@[k])),
                it.seq().no_duplicates(),
                forall|k: u128| #[trigger] self.positions@.contains_key(k) ==> k < cell_key_bound(),
                entries@.len() == it.index(),
                forall|i: int|
                    0 <= i < it.index() ==> #[trigger] entries_view(entries@)[i] == (
                        coordinate_text(
                            (*it.seq()[i].0 / 256) as u64,
                            (*it.seq()[i].0 % 256) as u8,
                        ),
                        *it.seq()[i].1,
                    ),
                entries_are_cells(entries_view(entries@), pos),
                entry_keys_distinct(entries_view(entries@)),
                forall|c: (u64, u8)|
                    #![trigger pos.contains_key(c)]
                    pos.contains_key(c) ==> (exists|i: int|
                        0 <= i < entries@.len() && entries_view(entries@)[i] == (
                            coordinate_text(c.0, c.1),
                            pos[c],
                        )) || (exists|j: int|
                        it.index() <= j < it.seq().len() && *it.seq()[j].0 == cell_key(c.0, c.1)),
        {
            let (k, v) = kv;
            assert(kv == it.seq()[it.index() as int]);
            let ghost idx = it.index();
            let x = (*k / 256) as u64;
            let y = (*k % 256) as u8;
            let text = format_coordinate(x, y);
            let ghost before = entries@;
            entries.push((text, *v));
            proof {
                let ev = entries_view(entries@);
                let evb = entries_view(before);
                assert(ev =~= evb.push((text@, *v)));
                lemma_cell_key_decode(*k);
                let ck = (x, y);
                assert(pos.contains_key(ck));
                assert forall|i: int| 0 <= i < idx + 1 implies #[trigger] ev[i] == (
                    coordinate_text((*it.seq()[i].0 / 256) as u64, (*it.seq()[i].0 % 256) as u8),
                    *it.seq()[i].1,
                ) by {}
                assert forall|i: int| #![trigger ev[i]] 0 <= i < ev.len() implies exists|c: (u64, u8)|
                    #![trigger pos.contains_key(c)]
                    pos.contains_key(c) && ev[i] == (coordinate_text(c.0, c.1), pos[c]) by {
                    assert(entries_are_cells(evb, pos));
                    if i == idx {
                        assert(pos.contains_key(ck) && ev[i] == (coordinate_text(ck.0, ck.1), pos[ck]));
                    } else {
                        assert(ev[i] == evb[i]);
                    }
                }
                assert forall|i: int, j: int|
                    0 <= i < ev.len() && 0 <= j < ev.len() && i != j implies (#[trigger] ev[i]).0
                        != (#[trigger] ev[j]).0 by {
                    if i == idx || j == idx {
                        let o = if i == idx { j } else { i };
                        let ko = *it.seq()[o].0;
                        lemma_cell_key_decode(ko);
                        if ev[o].0 == ev[idx].0 {
                            coordinate_text_is_injective(
                                (ko / 256) as u64,
                                (ko % 256) as u8,
                                x,
                                y,
                            );
                            assert(ko == *k);
                            assert(it.seq()[o] == it.seq()[idx]);
                        }
                    } else {
                        assert(ev[i] == evb[i] && ev[j] == evb[j]);
                        assert(entry_keys_distinct(evb));
                    }
                }
                assert(entries_are_cells(ev, pos));
                assert(entry_keys_distinct(ev));
                assert forall|c: (u64, u8)| #![trigger pos.contains_key(c)] pos.contains_key(c) implies (
                exists|i: int|
                    0 <= i < ev.len() && ev[i] == (coordinate_text(c.0, c.1), pos[c])) || (exists|
                    j: int,
                |
                    idx + 1 <= j < it.seq().len() && *it.seq()[j].0 == cell_key(c.0, c.1)) by {
                    if exists|i: int|
                        0 <= i < evb.len() && evb[i] == (coordinate_text(c.0, c.1), pos[c]) {
                        let i = choose|i: int|
                            0 <= i < evb.len() && evb[i] == (coordinate_text(c.0, c.1), pos[c]);
                        assert(ev[i] == evb[i]);
                    } else {
                        let j = choose|j: int|
                            idx <= j < it.seq().len() && *it.seq()[j].0 == cell_key(c.0, c.1);
                        if j == idx {
                            lemma_cell_key_inverse(c.0, c.1);
                            assert(ck == c);
                            assert(ev[idx] == (coordinate_text(c.0, c.1), pos[c]));
                        }
                    }
                }
            }
        }
        let r = StoredBoardState { positions: entries, heights: self.heights.clone() };
        r
    }

    /// Reads a board back from its stored form.
    pub fn from_stored(stored: StoredBoardState) -> (r: Result<BoardState, CoordinateError>)
        ensures
            match read_positions(entries_view(stored.positions@)) {
                Err(e) => r == Err::<BoardState, CoordinateError>(e),
                Ok(m) => r is Ok && r->Ok_0@.positions == m && r->Ok_0@.heights == stored.heights@,
            },
    {
        let ghost ev = entries_view(stored.positions@);
        let StoredBoardState { positions, heights } = stored;
        let mut board = BoardState::new();
        let mut i: usize = 0;
        while i < positions.len()
            invariant
                i <= positions.len(),
                ev == entries_view(positions@),
                ev == entries_view(stored.positions@),
                heights@ == stored.heights@,
                read_positions(ev.take(i as int)) == Ok::<Map<(u64, u8), i64>, CoordinateError>(
                    board@.positions,
                ),
                board@.heights == Map::<u64, u8>::empty(),
            decreases positions.len() - i,
        {
            let (text, player) = &positions[i];
            proof {
                assert(ev.take(i + 1).drop_last() =~= ev.take(i as int));
                assert(ev.take(i + 1).last() == ev[i as int]);
                assert(ev[i as int] == (text@, *player));
            }
            match parse_coordinate(text.as_str()) {
                Err(e) => {
                    proof {
                        assert(read_positions(ev.take(i + 1)) == Err::<Map<(u64, u8), i64>, CoordinateError>(e));
                        lemma_read_error_persists(ev, i as int + 1);
                    }
                    return Err(e);
                },
                Ok((x, y)) => {
                    board.set_position(x, y, *player);
                },
            }
            i += 1;
        }
        proof {
            assert(ev.take(i as int) =~= ev);
        }
        proof {
            use_type_invariant(&board);
        }
        let BoardState { positions: cells, heights: _ } = board;
        Ok(BoardState { positions: cells, heights })
    }
}

/// Once reading entries fails, reading any longer prefix fails the same way.
proof fn lemma_read_error_persists(entries: Seq<(Seq<char>, i64)>, k: int)
    requires
        0 <= k <= entries.len(),
        read_positions(entries.take(k)) is Err,
    ensures
        read_positions(entries) == read_positions(entries.take(k)),
    decreases entries.len() - k,
{
    if k < entries.len() {
        assert(entries.take(k + 1).drop_last() =~= entries.take(k));
        lemma_read_error_persists(entries, k + 1);
    } else {
        assert(entries.take(k) =~= entries);
    }
}

} // verus!
