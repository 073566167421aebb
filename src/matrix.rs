//! Win and draw detection on a 3×3 grid of fields, used alike for a
//! sub-board and for the abstracted super-board.
use vstd::prelude::*;

use crate::field::Field;
use crate::game_state::GameState;
use crate::grid::{field_at, field_rows, has_shape, Grid};
use crate::player::Player;

verus! {

/// The player who holds every cell of `line`, if the line is non-empty and
/// all its cells are `Occupied` by the same player.
pub open spec fn line_winner(line: Seq<Field>) -> Option<Player> {
    if line.len() > 0 && (forall|i: int| 0 <= i < line.len() ==> #[trigger] line[i] == line[0]) {
        match line[0] {
            Field::Occupied { player } => Some(player),
            _ => None,
        }
    } else {
        None
    }
}

/// The lines of a 3×3 grid in scan order: main diagonal, anti-diagonal,
/// rows top to bottom, columns left to right.
pub open spec fn scan_lines(g: Seq<Seq<Field>>) -> Seq<Seq<Field>> {
    seq![
        seq![g[0][0], g[1][1], g[2][2]],
        seq![g[2][0], g[1][1], g[0][2]],
        seq![g[0][0], g[0][1], g[0][2]],
        seq![g[1][0], g[1][1], g[1][2]],
        seq![g[2][0], g[2][1], g[2][2]],
        seq![g[0][0], g[1][0], g[2][0]],
        seq![g[0][1], g[1][1], g[2][1]],
        seq![g[0][2], g[1][2], g[2][2]],
    ]
}

/// The first entry of `s` that names a player.
pub open spec fn first_some(s: Seq<Option<Player>>) -> Option<Player>
    decreases s.len(),
{
    if s.len() == 0 {
        None
    } else if first_some(s.drop_last()) is Some {
        first_some(s.drop_last())
    } else {
        s.last()
    }
}

/// The winner of the first complete line in scan order.
pub open spec fn grid_winner(g: Seq<Seq<Field>>) -> Option<Player> {
    first_some(scan_lines(g).map_values(|line: Seq<Field>| line_winner(line)))
}

/// No cell of the 3×3 grid is `Vacant`.
pub open spec fn is_full(g: Seq<Seq<Field>>) -> bool {
    forall|i: int, j: int| 0 <= i < 3 && 0 <= j < 3 ==> #[trigger] g[i][j] != Field::Vacant
}

/// The state of a 3×3 grid when `next` is to move.
pub open spec fn matrix_state(g: Seq<Seq<Field>>, next: Player) -> GameState {
    match grid_winner(g) {
        Some(winner) => GameState::Won { winner },
        None => if is_full(g) {
            GameState::Draw
        } else {
            GameState::InProgress { next_player: next }
        },
    }
}

/// Keeps the first player it is told of.
#[derive(Debug, Clone, Copy, PartialEq, Eq, Structural)]
pub struct WinnerRegisterer {
    pub winner: Option<Player>,
}

impl WinnerRegisterer {
    pub open spec fn registered(self) -> Option<Player> {
        self.winner
    }

    pub fn new() -> (r: WinnerRegisterer)
        ensures
            r.registered() is None,
    {
        WinnerRegisterer { winner: None }
    }

    pub fn register(&mut self, player: Option<Player>)
        ensures
            final(self).registered() == if old(self).registered() is Some {
                old(self).registered()
            } else {
                player
            },
    {
        if self.winner.is_none() && player.is_some() {
            self.winner = player;
        }
    }

    pub fn get_winner(&self) -> (r: Option<Player>)
        ensures
            r == self.registered(),
    {
        self.winner
    }
}

impl Default for WinnerRegisterer {
    fn default() -> (r: WinnerRegisterer)
        ensures
            r.registered() is None,
    {
        WinnerRegisterer::new()
    }
}

/// The player holding all of `line`, if any.
pub fn get_winner_in_row(line: &[Field]) -> (r: Option<Player>)
    ensures
        r == line_winner(line@),
{
    if line.len() == 0 {
        return None;
    }
    let first = line[0];
    let mut i: usize = 1;
    while i < line.len()
        invariant
            1 <= i <= line.len(),
            first == line@[0],
            forall|k: int| 0 <= k < i ==> #[trigger] line@[k] == first,
        decreases line.len() - i,
    {
        if line[i] != first {
            return None;
        }
        i += 1;
    }
    match first {
        Field::Occupied { player } => Some(player),
        _ => None,
    }
}

fn line_of(g: &Grid<Field>, a: (usize, usize), b: (usize, usize), c: (usize, usize)) -> (r: Option<
    Player,
>)
    requires
        has_shape(field_rows(*g), 3, 3),
        a.0 < 3 && a.1 < 3 && b.0 < 3 && b.1 < 3 && c.0 < 3 && c.1 < 3,
    ensures
        r == line_winner(
            seq![
                field_rows(*g)[a.0 as int][a.1 as int],
                field_rows(*g)[b.0 as int][b.1 as int],
                field_rows(*g)[c.0 as int][c.1 as int],
            ],
        ),
{
    let line = vec![field_at(g, a.0, a.1), field_at(g, b.0, b.1), field_at(g, c.0, c.1)];
    assert(line@ =~= seq![
        field_rows(*g)[a.0 as int][a.1 as int],
        field_rows(*g)[b.0 as int][b.1 as int],
        field_rows(*g)[c.0 as int][c.1 as int],
    ]);
    get_winner_in_row(line.as_slice())
}

/// The state of a 3×3 grid: the winner of the first complete line in scan
/// order; else a draw if no cell is vacant; else in progress with
/// `next_player` to move.
pub fn check_matrix(matrix: &Grid<Field>, next_player: Player) -> (r: GameState)
    requires
        has_shape(field_rows(*matrix), 3, 3),
    ensures
        r == matrix_state(field_rows(*matrix), next_player),
{
    let ghost g = field_rows(*matrix);
    let mut reg = WinnerRegisterer::new();
    // main diagonal, then anti-diagonal
    reg.register(line_of(matrix, (0, 0), (1, 1), (2, 2)));
    reg.register(line_of(matrix, (2, 0), (1, 1), (0, 2)));
    // rows
    reg.register(line_of(matrix, (0, 0), (0, 1), (0, 2)));
    reg.register(line_of(matrix, (1, 0), (1, 1), (1, 2)));
    reg.register(line_of(matrix, (2, 0), (2, 1), (2, 2)));
    // columns
    reg.register(line_of(matrix, (0, 0), (1, 0), (2, 0)));
    reg.register(line_of(matrix, (0, 1), (1, 1), (2, 1)));
    reg.register(line_of(matrix, (0, 2), (1, 2), (2, 2)));
    proof {
        let results = scan_lines(g).map_values(|line: Seq<Field>| line_winner(line));
        reveal_with_fuel(first_some, 9);
        assert(results.drop_last().drop_last().drop_last().drop_last().drop_last().drop_last(
        ).drop_last().drop_last().len() == 0);
    }
    if let Some(winner) = reg.get_winner() {
        return GameState::Won { winner };
    }
    let mut full = true;
    let mut i: usize = 0;
    while i < 3
        invariant
            i <= 3,
            g == field_rows(*matrix),
            has_shape(g, 3, 3),
            full == (forall|a: int, b: int|
                0 <= a < i && 0 <= b < 3 ==> #[trigger] g[a][b] != Field::Vacant),
        decreases 3 - i,
    {
        let mut j: usize = 0;
        while j < 3
            invariant
                i < 3,
                j <= 3,
                g == field_rows(*matrix),
                has_shape(g, 3, 3),
                full == ((forall|a: int, b: int|
                    0 <= a < i && 0 <= b < 3 ==> #[trigger] g[a][b] != Field::Vacant) && (forall|
                    b: int,
                | 0 <= b < j ==> #[trigger] g[i as int][b] != Field::Vacant)),
            decreases 3 - j,
        {
            if field_at(matrix, i, j) == Field::Vacant {
                full = false;
            }
            j += 1;
        }
        i += 1;
    }
    if full {
        GameState::Draw
    } else {
        GameState::InProgress { next_player }
    }
}

} // verus!
