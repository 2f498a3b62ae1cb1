use crate::models::{column_height, BoardState, BoardView};
use vstd::prelude::*;

verus! {

/// The number of tokens a column holds at most.
pub const MAX_BOARD_HEIGHT: u8 = 6;

/// The run of equal neighbours that `make_move` looks for.
pub const CONSECUTIVE_FOR_WIN: u8 = 4;

/// A player dropping a token into column `x`.
pub struct PlayerMove {
    pub player_id: i64,
    pub x: u64,
}

/// What a move amounts to.
pub enum Connect4Result {
    WinningMove,
    AllowedMove,
    IllegalMove(&'static str),
}

// ---------------------------------------------------------------------
// The rules, as spec functions
// ---------------------------------------------------------------------
/// Whether a token can still be dropped into a column of height `h`.
pub open spec fn column_has_room(h: u8) -> bool {
    h + 1 <= MAX_BOARD_HEIGHT
}

/// The board after `player` drops a token into column `x`: the token
/// lands at the column's height, and the height grows by one.
pub open spec fn drop_token(b: BoardView, player: i64, x: u64) -> BoardView {
    let y = column_height(b, x);
    BoardView {
        positions: b.positions.insert((x, y), player),
        heights: b.heights.insert(x, (y + 1) as u8),
    }
}

/// `Some(player)` where cell `(x, y)` lies on the board's coordinate range
/// and holds `player`'s token, else `None`.
pub open spec fn owned_cell(positions: Map<(u64, u8), i64>, player: i64, x: int, y: int) -> Option<
    i64,
> {
    if 0 <= x <= u64::MAX && 0 <= y <= u8::MAX && positions.contains_key((x as u64, y as u8))
        && positions[(x as u64, y as u8)] == player {
        Some(player)
    } else {
        None
    }
}

/// The four offsets inspected along each of the four lines through a
/// cell: horizontal, vertical, rising diagonal, falling diagonal.
pub open spec fn line_offsets(line: int) -> Seq<(int, int)> {
    if line == 0 {
        seq![(-2int, 0int), (-1, 0), (1, 0), (2, 0)]
    } else if line == 1 {
        seq![(0int, -2int), (0, -1), (0, 1), (0, 2)]
    } else if line == 2 {
        seq![(1int, 1int), (2, 2), (-1, -1), (-2, -2)]
    } else {
        seq![(-1int, 1int), (-2, 2), (1, -1), (2, -2)]
    }
}

/// The cells around `(x, y)` along line `line`, each seen as
/// `owned_cell` sees it.
pub open spec fn line_window(
    positions: Map<(u64, u8), i64>,
    player: i64,
    x: u64,
    y: u8,
    line: int,
) -> Seq<Option<i64>> {
    line_offsets(line).map_values(
        |o: (int, int)| owned_cell(positions, player, x + o.0, y + o.1),
    )
}

/// The number of equal neighbouring pairs that end just before index `i`:
/// 0 for `i <= 1`; for larger `i`, one more than at `i - 1` when
/// `s[i - 1] == s[i - 2]`, and 0 otherwise.
pub open spec fn run_before(s: Seq<Option<i64>>, i: int) -> nat
    decreases i,
{
    if i <= 1 {
        0
    } else if s[i - 1] == s[i - 2] {
        run_before(s, i - 1) + 1
    } else {
        0
    }
}

/// Whether the run count reaches `target` at some index of `s`.
pub open spec fn reaches_run(s: Seq<Option<i64>>, target: int) -> bool {
    exists|i: int| 0 <= i < s.len() && run_before(s, i) == target
}

/// Whether dropping `player`'s token into column `x` of `b` is reported
/// as a winning move.
pub open spec fn is_reported_win(b: BoardView, player: i64, x: u64) -> bool {
    let after = drop_token(b, player, x);
    let y = column_height(b, x);
    exists|line: int|
        0 <= line < 4 && reaches_run(
            #[trigger] line_window(after.positions, player, x, y, line),
            CONSECUTIVE_FOR_WIN as int,
        )
}

/// A board on which every column is filled from the bottom without gaps
/// and holds at most `MAX_BOARD_HEIGHT` tokens.
pub open spec fn well_formed_board(b: BoardView) -> bool {
    &&& forall|x: u64| #[trigger] b.heights.contains_key(x) ==> b.heights[x] <= MAX_BOARD_HEIGHT
    &&& forall|c: (u64, u8)| #[trigger]
        b.positions.contains_key(c) ==> c.1 < column_height(b, c.0)
    &&& forall|x: u64, y: u8|
        y < column_height(b, x) ==> #[trigger] b.positions.contains_key((x, y))
}

// ---------------------------------------------------------------------
// Laws of the rules
// ---------------------------------------------------------------------
proof fn lemma_run_before_bound(s: Seq<Option<i64>>, i: int)
    requires
        i >= 1,
    ensures
        run_before(s, i) <= i - 1,
    decreases i,
{
    if i > 1 {
        lemma_run_before_bound(s, i - 1);
    }
}

/// The run count at an index of a sequence of length `n` stays below
/// `n - 1`, so a run of `target >= n - 1` is never reached.
pub proof fn short_sequences_never_reach_run(s: Seq<Option<i64>>, target: int)
    requires
        target >= s.len() - 1,
        target > 0,
    ensures
        !reaches_run(s, target),
{
    assert forall|i: int| 0 <= i < s.len() implies run_before(s, i) != target by {
        if i >= 1 {
            lemma_run_before_bound(s, i);
        }
    }
}

proof fn lemma_run_prefix(s: Seq<Option<i64>>, u: Seq<Option<i64>>, i: int)
    requires
        0 <= i <= s.len(),
    ensures
        run_before(s + u, i) == run_before(s, i),
    decreases i,
{
    if i > 1 {
        lemma_run_prefix(s, u, i - 1);
        assert((s + u)[i - 1] == s[i - 1]);
        assert((s + u)[i - 2] == s[i - 2]);
    }
}

proof fn lemma_run_suffix(w: Seq<Option<i64>>, v: Seq<Option<i64>>, i: int)
    requires
        0 <= i <= v.len(),
    ensures
        run_before(w + v, w.len() + i) >= run_before(v, i),
    decreases i,
{
    if i > 1 {
        lemma_run_suffix(w, v, i - 1);
        assert((w + v)[w.len() + i - 1] == v[i - 1]);
        assert((w + v)[w.len() + i - 2] == v[i - 2]);
    }
}

proof fn lemma_run_descends(s: Seq<Option<i64>>, m: int, j: int)
    requires
        0 <= j <= run_before(s, m),
        0 <= m <= s.len(),
    ensures
        0 <= m - (run_before(s, m) - j),
        run_before(s, m - (run_before(s, m) - j)) == j,
    decreases run_before(s, m) - j,
{
    let k = run_before(s, m);
    if k > j {
        assert(m > 1 && s[m - 1] == s[m - 2]);
        lemma_run_descends(s, m - 1, j);
    }
}

/// Once the run count reaches `target >= 1` in a sequence, it reaches it
/// in the sequence extended at either end, and it reaches `target - 1`.
pub proof fn runs_survive_extension(v: Seq<Option<i64>>, w: Seq<Option<i64>>, target: int)
    requires
        target >= 1,
        reaches_run(v, target),
    ensures
        reaches_run(v + w, target),
        reaches_run(w + v, target),
        reaches_run(v, target - 1),
{
    let i = choose|i: int| 0 <= i < v.len() && run_before(v, i) == target;
    lemma_run_prefix(v, w, i);
    assert((v + w).len() == v.len() + w.len());
    lemma_run_suffix(w, v, i);
    let m = w.len() + i;
    lemma_run_bound_any(w + v, m);
    lemma_run_descends(w + v, m, target);
    let at = m - (run_before(w + v, m) - target);
    assert(0 <= at < (w + v).len() && run_before(w + v, at) == target);
    lemma_run_bound_any(v, i);
    assert(i >= 2);
    assert(run_before(v, i - 1) == target - 1);
}

proof fn lemma_run_bound_any(s: Seq<Option<i64>>, i: int)
    ensures
        i >= 1 ==> run_before(s, i) <= i - 1,
        i < 1 ==> run_before(s, i) == 0,
{
    if i >= 1 {
        lemma_run_before_bound(s, i);
    }
}

/// No move is ever reported as winning: each line window holds four
/// cells, and a count of four equal neighbouring pairs needs five.
pub proof fn no_move_is_reported_as_win(b: BoardView, player: i64, x: u64)
    ensures
        !is_reported_win(b, player, x),
{
    let after = drop_token(b, player, x);
    let y = column_height(b, x);
    assert forall|line: int| 0 <= line < 4 implies !reaches_run(
        #[trigger] line_window(after.positions, player, x, y, line),
        CONSECUTIVE_FOR_WIN as int,
    ) by {
        short_sequences_never_reach_run(
            line_window(after.positions, player, x, y, line),
            CONSECUTIVE_FOR_WIN as int,
        );
    }
}

/// The empty board is well formed.
pub proof fn empty_board_is_well_formed()
    ensures
        well_formed_board(
            BoardView {
                positions: Map::<(u64, u8), i64>::empty(),
                heights: Map::<u64, u8>::empty(),
            },
        ),
{
}

/// A legal move keeps a board well formed, lands on a free cell and
/// leaves every other cell and every other column as it was.
pub proof fn legal_move_keeps_board_well_formed(b: BoardView, player: i64, x: u64)
    requires
        well_formed_board(b),
        column_has_room(column_height(b, x)),
    ensures
        well_formed_board(drop_token(b, player, x)),
        !b.positions.contains_key((x, column_height(b, x))),
        forall|c: (u64, u8)| #[trigger]
            b.positions.contains_key(c) ==> drop_token(b, player, x).positions.contains_key(c)
                && drop_token(b, player, x).positions[c] == b.positions[c],
        forall|c: (u64, u8)|
            c != (x, column_height(b, x)) ==> (#[trigger] drop_token(
                b,
                player,
                x,
            ).positions.contains_key(c) == b.positions.contains_key(c)),
        forall|z: u64| z != x ==> column_height(drop_token(b, player, x), z) == column_height(b, z),
        column_height(drop_token(b, player, x), x) == column_height(b, x) + 1,
{
    let after = drop_token(b, player, x);
    let h = column_height(b, x);
    assert(!b.positions.contains_key((x, h)));
    assert forall|z: u64| z != x implies column_height(after, z) == column_height(b, z) by {}
    assert forall|c: (u64, u8)| #[trigger]
        after.positions.contains_key(c) implies c.1 < column_height(after, c.0) by {
        if c != (x, h) {
            assert(b.positions.contains_key(c));
        }
    }
    assert forall|z: u64, w: u8| w < column_height(after, z) implies #[trigger]
        after.positions.contains_key((z, w)) by {
        if z != x {
            assert(b.positions.contains_key((z, w)));
        } else if w != h {
            assert(b.positions.contains_key((z, w)));
        }
    }
}

// ---------------------------------------------------------------------
// The engine
// ---------------------------------------------------------------------
/// Drops `current_move.player_id`'s token into column `current_move.x`.
///
/// A full column refuses the move and hands the board back unchanged;
/// otherwise the token lands on top of the column, and the move is
/// reported as winning when one of the four lines through the new token
/// shows the run that `has_consecutives` looks for. Four cells never show
/// it, so every legal move comes back as `AllowedMove`.
pub fn make_move(board_state: BoardState, current_move: PlayerMove) -> (r: (
    Connect4Result,
    BoardState,
))
    requires
        column_height(board_state@, current_move.x) < u8::MAX,
    ensures
        !column_has_room(column_height(board_state@, current_move.x)) ==> {
            &&& r.0 matches Connect4Result::IllegalMove(m) && m@ == "Exceeded board height"@
            &&& r.1@ == board_state@
        },
        column_has_room(column_height(board_state@, current_move.x)) ==> {
            &&& r.1@ == drop_token(board_state@, current_move.player_id, current_move.x)
            &&& (r.0 is WinningMove) == is_reported_win(
                board_state@,
                current_move.player_id,
                current_move.x,
            )
            &&& (r.0 is AllowedMove) == !is_reported_win(
                board_state@,
                current_move.player_id,
                current_move.x,
            )
            &&& r.0 is AllowedMove
        },
{
    let PlayerMove { player_id, x } = current_move;
    let y = board_state.height(x);
    if y + 1 > MAX_BOARD_HEIGHT {
        return (Connect4Result::IllegalMove("Exceeded board height"), board_state);
    }
    let ghost before = board_state@;
    let mut board = board_state;
    board.set_position(x, y, player_id);
    board.set_height(x, y + 1);
    proof {
        assert(board@.positions == drop_token(before, player_id, x).positions);
        assert(board@.heights == drop_token(before, player_id, x).heights);
    }

    let poi1 = vec![
        get_position(&board, player_id, (x, y), (-2, 0)),
        get_position(&board, player_id, (x, y), (-1, 0)),
        get_position(&board, player_id, (x, y), (1, 0)),
        get_position(&board, player_id, (x, y), (2, 0)),
    ];
    let poi2 = vec![
        get_position(&board, player_id, (x, y), (0, -2)),
        get_position(&board, player_id, (x, y), (0, -1)),
        get_position(&board, player_id, (x, y), (0, 1)),
        get_position(&board, player_id, (x, y), (0, 2)),
    ];
    let poi3 = vec![
        get_position(&board, player_id, (x, y), (1, 1)),
        get_position(&board, player_id, (x, y), (2, 2)),
        get_position(&board, player_id, (x, y), (-1, -1)),
        get_position(&board, player_id, (x, y), (-2, -2)),
    ];
    let poi4 = vec![
        get_position(&board, player_id, (x, y), (-1, 1)),
        get_position(&board, player_id, (x, y), (-2, 2)),
        get_position(&board, player_id, (x, y), (1, -1)),
        get_position(&board, player_id, (x, y), (2, -2)),
    ];
    proof {
        let pos = board@.positions;
        assert(poi1@ =~= line_window(pos, player_id, x, y, 0));
        assert(poi2@ =~= line_window(pos, player_id, x, y, 1));
        assert(poi3@ =~= line_window(pos, player_id, x, y, 2));
        assert(poi4@ =~= line_window(pos, player_id, x, y, 3));
    }
    let target = CONSECUTIVE_FOR_WIN as usize;
    let won = has_consecutives(&poi1, target) || has_consecutives(&poi2, target)
        || has_consecutives(&poi3, target) || has_consecutives(&poi4, target);
    proof {
        no_move_is_reported_as_win(before, player_id, x);
        let pos = board@.positions;
        if is_reported_win(before, player_id, x) {
            let line = choose|line: int|
                0 <= line < 4 && reaches_run(
                    #[trigger] line_window(pos, player_id, x, y, line),
                    CONSECUTIVE_FOR_WIN as int,
                );
            assert(line == 0 || line == 1 || line == 2 || line == 3);
        }
        if won {
            if reaches_run(poi1@, 4) {
                assert(line_window(pos, player_id, x, y, 0) == poi1@);
            } else if reaches_run(poi2@, 4) {
                assert(line_window(pos, player_id, x, y, 1) == poi2@);
            } else if reaches_run(poi3@, 4) {
                assert(line_window(pos, player_id, x, y, 2) == poi3@);
            } else {
                assert(line_window(pos, player_id, x, y, 3) == poi4@);
            }
        }
    }
    let result = if won {
        Connect4Result::WinningMove
    } else {
        Connect4Result::AllowedMove
    };
    (result, board)
}

/// The token at `coords` moved by `offset`, when that cell lies in the
/// coordinate range and holds `player_id`'s token.
pub fn get_position(
    positions: &BoardState,
    player_id: i64,
    coords: (u64, u8),
    offset: (i8, i8),
) -> (r: Option<i64>)
    ensures
        r == owned_cell(
            positions@.positions,
            player_id,
            coords.0 + offset.0,
            coords.1 + offset.1,
        ),
{
    let (x, y) = coords;
    let (offset_x, offset_y) = offset;
    let (x, y) = (x.checked_add_signed(offset_x as i64), y.checked_add_signed(offset_y));
    let x = match x {
        Some(x) => x,
        None => {
            return None;
        },
    };
    let y = match y {
        Some(y) => y,
        None => {
            return None;
        },
    };
    match positions.position(x, y) {
        Some(position) => {
            if position == player_id {
                Some(position)
            } else {
                None
            }
        },
        None => None,
    }
}

fn same_cell(a: Option<i64>, b: Option<i64>) -> (r: bool)
    ensures
        r == (a == b),
{
    match (a, b) {
        (Some(p), Some(q)) => p == q,
        (None, None) => true,
        _ => false,
    }
}

/// Scans `vec` from the front, counting equal neighbouring pairs and
/// resetting the count where two neighbours differ; true as soon as the
/// count stands at `target` when an element comes up for comparison.
pub fn has_consecutives(vec: &Vec<Option<i64>>, target: usize) -> (r: bool)
    ensures
        r == reaches_run(vec@, target as int),
{
    let mut previous: Option<Option<i64>> = None;
    let mut count: usize = 0;
    let mut i: usize = 0;
    while i < vec.len()
        invariant
            i <= vec.len(),
            count == run_before(vec@, i as int),
            count <= i,
            previous == (if i == 0 {
                None
            } else {
                Some(vec@[i - 1])
            }),
            forall|j: int| 0 <= j < i ==> run_before(vec@, j) != target,
        decreases vec.len() - i,
    {
        if count == target {
            return true;
        }
        let v = vec[i];
        match previous {
            None => {
                previous = Some(v);
            },
            Some(p) => {
                if same_cell(p, v) {
                    count += 1;
                } else {
                    count = 0;
                }
                previous = Some(v);
            },
        }
        i += 1;
    }
    false
}

} // verus!
