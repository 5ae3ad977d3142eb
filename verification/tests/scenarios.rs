use tic_tac_toe::play;
use tic_tac_toe::setup_game;
use tic_tac_toe::Game;
use tic_tac_toe::GameState;
use tic_tac_toe::Player;
use tic_tac_toe::Sign;
use tic_tac_toe::TicTactoeError;
use tic_tac_toe::Tile;

#[test]
fn setup_starts_fresh_match() {
    let p1 = Player { id: 7 };
    let p2 = Player { id: 9 };
    let g = setup_game(p1, p2);
    assert_eq!(g.players, [p1, p2]);
    assert_eq!(g.turn, 0);
    assert_eq!(g.board, [[None; 3]; 3]);
    assert_eq!(g.state, GameState::Active);
    assert_eq!(g.current_player(), p1);
    assert_eq!(g.players_sign(), Sign::X);
}

#[test]
fn default_state_is_active() {
    assert_eq!(GameState::default(), GameState::Active);
}

#[test]
fn switch_turn_alternates() {
    let mut g = setup_game(Player { id: 1 }, Player { id: 2 });
    assert_eq!(g.turn, 0);
    g.switch_turn();
    assert_eq!(g.turn, 1);
    g.switch_turn();
    assert_eq!(g.turn, 0);
}

#[test]
fn alternation_of_movers_and_signs() {
    let p1 = Player { id: 1 };
    let p2 = Player { id: 2 };
    let mut g = setup_game(p1, p2);
    let moves = [(0u8, 0u8), (1, 1), (0, 1), (2, 2), (1, 0)];
    for (k, (row, col)) in moves.iter().enumerate() {
        let expected_mover = if k % 2 == 0 { p1 } else { p2 };
        let expected_sign = if k % 2 == 0 { Sign::X } else { Sign::O };
        assert_eq!(g.current_player(), expected_mover);
        assert_eq!(g.players_sign(), expected_sign);
        g.play(expected_mover, &Tile { row: *row, col: *col }).unwrap();
        assert_eq!(g.board[*row as usize][*col as usize], Some(expected_sign));
    }
    assert_eq!(g.state, GameState::Active);
}

#[test]
fn not_players_turn_leaves_game_unchanged() {
    let p1 = Player { id: 1 };
    let p2 = Player { id: 2 };
    let mut g = setup_game(p1, p2);
    let res = g.play(p2, &Tile { row: 0, col: 0 });
    assert_eq!(res, Err(TicTactoeError::NotPlayersTurn));
    assert_eq!(g.board, [[None; 3]; 3]);
    assert_eq!(g.turn, 0);
    assert_eq!(g.state, GameState::Active);
}

#[test]
fn out_of_bounds_is_rejected_first() {
    let p1 = Player { id: 1 };
    let p2 = Player { id: 2 };
    let mut g = setup_game(p1, p2);
    assert_eq!(
        g.play(p1, &Tile { row: 3, col: 0 }),
        Err(TicTactoeError::TileOutOfBounds)
    );
    assert_eq!(
        g.play(p1, &Tile { row: 0, col: 3 }),
        Err(TicTactoeError::TileOutOfBounds)
    );
    assert_eq!(
        g.play(p1, &Tile { row: 255, col: 255 }),
        Err(TicTactoeError::TileOutOfBounds)
    );
    assert_eq!(g.board, [[None; 3]; 3]);
    assert_eq!(g.turn, 0);
    assert_eq!(g.state, GameState::Active);
}

#[test]
fn occupied_tile_is_rejected() {
    let p1 = Player { id: 1 };
    let p2 = Player { id: 2 };
    let mut g = setup_game(p1, p2);
    g.play(p1, &Tile { row: 1, col: 1 }).unwrap();
    let res = g.play(p2, &Tile { row: 1, col: 1 });
    assert_eq!(res, Err(TicTactoeError::TileAlreadySet));
    assert_eq!(g.board[1][1], Some(Sign::X));
    assert_eq!(g.turn, 1);
    g.play(p2, &Tile { row: 0, col: 0 }).unwrap();
    let res = g.play(p1, &Tile { row: 0, col: 0 });
    assert_eq!(res, Err(TicTactoeError::TileAlreadySet));
}

#[test]
fn finished_game_rejects_every_move() {
    let p1 = Player { id: 1 };
    let p2 = Player { id: 2 };
    let mut g = setup_game(p1, p2);
    // X takes column 0
    g.play(p1, &Tile { row: 0, col: 0 }).unwrap();
    g.play(p2, &Tile { row: 0, col: 1 }).unwrap();
    g.play(p1, &Tile { row: 1, col: 0 }).unwrap();
    g.play(p2, &Tile { row: 0, col: 2 }).unwrap();
    g.play(p1, &Tile { row: 2, col: 0 }).unwrap();
    assert_eq!(g.state, GameState::Won { winner: p1 });
    let snapshot = g.board;
    assert_eq!(
        g.play(p1, &Tile { row: 2, col: 2 }),
        Err(TicTactoeError::GameAlreadyOver)
    );
    assert_eq!(
        g.play(p2, &Tile { row: 2, col: 2 }),
        Err(TicTactoeError::GameAlreadyOver)
    );
    assert_eq!(g.board, snapshot);
    assert_eq!(g.state, GameState::Won { winner: p1 });
}

#[test]
fn second_player_wins_a_row() {
    let p1 = Player { id: 11 };
    let p2 = Player { id: 22 };
    let mut g = setup_game(p1, p2);
    g.play(p1, &Tile { row: 0, col: 0 }).unwrap();
    g.play(p2, &Tile { row: 1, col: 0 }).unwrap();
    g.play(p1, &Tile { row: 0, col: 1 }).unwrap();
    g.play(p2, &Tile { row: 1, col: 1 }).unwrap();
    g.play(p1, &Tile { row: 2, col: 2 }).unwrap();
    g.play(p2, &Tile { row: 1, col: 2 }).unwrap();
    assert_eq!(g.state, GameState::Won { winner: p2 });
    assert_eq!(g.turn, 1);
}

#[test]
fn anti_diagonal_win_through_play() {
    let p1 = Player { id: 1 };
    let p2 = Player { id: 2 };
    let mut g = setup_game(p1, p2);
    g.play(p1, &Tile { row: 0, col: 2 }).unwrap();
    g.play(p2, &Tile { row: 0, col: 0 }).unwrap();
    g.play(p1, &Tile { row: 1, col: 1 }).unwrap();
    g.play(p2, &Tile { row: 0, col: 1 }).unwrap();
    g.play(p1, &Tile { row: 2, col: 0 }).unwrap();
    assert_eq!(g.state, GameState::Won { winner: p1 });
    assert_eq!(g.turn, 0);
}

#[test]
fn full_board_without_line_is_a_tie() {
    let p1 = Player { id: 1 };
    let p2 = Player { id: 2 };
    let mut g = setup_game(p1, p2);
    let moves = [
        (p1, 0u8, 0u8),
        (p2, 0, 2),
        (p1, 0, 1),
        (p2, 1, 0),
        (p1, 1, 1),
        (p2, 2, 1),
        (p1, 1, 2),
        (p2, 2, 2),
        (p1, 2, 0),
    ];
    for (mover, row, col) in moves.iter() {
        assert_eq!(g.state, GameState::Active);
        g.play(*mover, &Tile { row: *row, col: *col }).unwrap();
    }
    assert_eq!(g.state, GameState::Tie);
    assert!(g.is_tie_condition());
    assert!(!g.is_win_condition(Sign::X));
    assert!(!g.is_win_condition(Sign::O));
    let board = [
        [Some(Sign::X), Some(Sign::X), Some(Sign::O)],
        [Some(Sign::O), Some(Sign::X), Some(Sign::X)],
        [Some(Sign::X), Some(Sign::O), Some(Sign::O)],
    ];
    assert_eq!(g.board, board);
}

#[test]
fn example_match_to_a_top_row_win() {
    let p1 = Player { id: 100 };
    let p2 = Player { id: 200 };
    let mut g = setup_game(p1, p2);

    assert_eq!(play(&mut g, p1, &Tile { row: 0, col: 0 }), Ok(()));
    assert_eq!(g.board[0][0], Some(Sign::X));
    assert_eq!(g.turn, 1);

    assert_eq!(
        play(&mut g, p1, &Tile { row: 1, col: 1 }),
        Err(TicTactoeError::NotPlayersTurn)
    );

    assert_eq!(play(&mut g, p2, &Tile { row: 1, col: 1 }), Ok(()));
    assert_eq!(g.turn, 0);

    assert_eq!(play(&mut g, p1, &Tile { row: 0, col: 1 }), Ok(()));
    assert_eq!(play(&mut g, p2, &Tile { row: 2, col: 2 }), Ok(()));
    assert_eq!(play(&mut g, p1, &Tile { row: 0, col: 2 }), Ok(()));
    assert_eq!(g.state, GameState::Won { winner: p1 });

    assert_eq!(
        play(&mut g, p2, &Tile { row: 1, col: 2 }),
        Err(TicTactoeError::GameAlreadyOver)
    );
}
