use tictactoe_extreme::{
    check_matrix, get_winner_in_row, Field, GameState, Grid, Player, SubBoard, WinnerRegisterer,
};

fn grid(rows: Vec<Vec<Field>>) -> Grid<Field> {
    Grid::from_rows(&rows).unwrap()
}

const X: Field = Field::Occupied { player: Player::X };
const O: Field = Field::Occupied { player: Player::O };
const V: Field = Field::Vacant;
const D: Field = Field::Disabled;

#[test]
fn matrix_checker() {
    // O X X
    // O O O <-- O wins
    // X O X
    let matrix = grid(vec![
        vec![
            Field::Occupied { player: Player::O },
            Field::Occupied { player: Player::X },
            Field::Occupied { player: Player::X },
        ],
        vec![
            Field::Occupied { player: Player::O },
            Field::Occupied { player: Player::O },
            Field::Occupied { player: Player::O },
        ],
        vec![
            Field::Occupied { player: Player::X },
            Field::Occupied { player: Player::O },
            Field::Occupied { player: Player::X },
        ],
    ]);
    assert_eq!(check_matrix(&matrix, Player::X), GameState::Won { winner: Player::O });
}

#[test]
fn test_subboard() {
    let subboard = SubBoard::new();
    assert_eq!(subboard.data.to_rows(), vec![vec![Field::Vacant; 3]; 3]);
    assert_eq!(subboard.state, Field::Vacant);
}

#[test]
fn test_full_subboard() {
    let mut subboard = SubBoard::new();
    subboard.data = grid(vec![vec![Field::Occupied { player: Player::X }; 3]; 3]);
    assert_eq!(subboard.get_state(Player::X), GameState::Won { winner: Player::X });
}

#[test]
fn middle_row_with_mixed_cells_wins_for_o() {
    let matrix = grid(vec![vec![X, V, D], vec![O, O, O], vec![V, X, X]]);
    assert_eq!(check_matrix(&matrix, Player::X), GameState::Won { winner: Player::O });
}

#[test]
fn full_grid_without_line_is_a_draw() {
    let matrix = grid(vec![vec![X, O, X], vec![X, O, O], vec![O, X, X]]);
    assert_eq!(check_matrix(&matrix, Player::O), GameState::Draw);
    let disabled = grid(vec![vec![D, D, D], vec![D, D, D], vec![D, D, D]]);
    assert_eq!(check_matrix(&disabled, Player::O), GameState::Draw);
}

#[test]
fn open_grid_without_line_is_in_progress() {
    let matrix = grid(vec![vec![X, O, X], vec![X, O, O], vec![O, X, V]]);
    assert_eq!(check_matrix(&matrix, Player::O), GameState::InProgress { next_player: Player::O });
    let empty = grid(vec![vec![V; 3]; 3]);
    assert_eq!(check_matrix(&empty, Player::X), GameState::InProgress { next_player: Player::X });
}

#[test]
fn scan_order_decides_between_two_winners() {
    let diagonal = grid(vec![vec![X, V, O], vec![V, X, O], vec![V, V, X]]);
    assert_eq!(check_matrix(&diagonal, Player::O), GameState::Won { winner: Player::X });
    // the top row (X) comes before the middle row (O)
    let rows = grid(vec![vec![X, X, X], vec![O, O, O], vec![V, V, V]]);
    assert_eq!(check_matrix(&rows, Player::O), GameState::Won { winner: Player::X });
    // anti-diagonal and columns
    let anti = grid(vec![vec![V, V, O], vec![V, O, X], vec![O, X, V]]);
    assert_eq!(check_matrix(&anti, Player::X), GameState::Won { winner: Player::O });
    let column = grid(vec![vec![V, X, O], vec![V, X, O], vec![O, X, V]]);
    assert_eq!(check_matrix(&column, Player::O), GameState::Won { winner: Player::X });
}

#[test]
fn disabled_line_wins_nobody() {
    let matrix = grid(vec![vec![D, D, D], vec![V, V, V], vec![V, V, V]]);
    assert_eq!(check_matrix(&matrix, Player::O), GameState::InProgress { next_player: Player::O });
}

#[test]
fn winner_in_row() {
    assert_eq!(get_winner_in_row(&[O, O, O]), Some(Player::O));
    assert_eq!(get_winner_in_row(&[X, X, O]), None);
    assert_eq!(get_winner_in_row(&[V, V, V]), None);
    assert_eq!(get_winner_in_row(&[]), None);
    assert_eq!(get_winner_in_row(&[X]), Some(Player::X));
}

#[test]
fn registerer_keeps_the_first_winner() {
    let mut reg = WinnerRegisterer::default();
    assert_eq!(reg.get_winner(), None);
    reg.register(None);
    assert_eq!(reg.get_winner(), None);
    reg.register(Some(Player::O));
    reg.register(Some(Player::X));
    assert_eq!(reg.get_winner(), Some(Player::O));
}

#[test]
fn grid_from_rows_needs_three_by_three() {
    assert!(Grid::from_rows(&vec![vec![V; 3]; 2]).is_none());
    assert!(Grid::from_rows(&vec![vec![V; 2], vec![V; 3], vec![V; 3]]).is_none());
    let g = grid(vec![vec![X, O, V], vec![V, D, V], vec![V, V, O]]);
    assert_eq!(g.cell(0, 1), O);
    assert_eq!(g.cell(1, 1), D);
    assert_eq!(g.to_rows(), vec![vec![X, O, V], vec![V, D, V], vec![V, V, O]]);
}
