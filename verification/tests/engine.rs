use ric_rac_roe_game::game::Coords;
use ric_rac_roe_game::game::Game;
use ric_rac_roe_game::game::GameResult;
use ric_rac_roe_game::game::TileValue;
use ric_rac_roe_game::game::Turn;
use ric_rac_roe_game::game::TurnError;

fn xy(row: u8, col: u8) -> Coords {
    Coords::build(row, col).expect("is in bounds")
}

#[test]
fn fresh_game_is_in_progress() {
    let g = Game::new();
    assert_eq!(g.check_end(), None);
    assert_eq!(*g.result(), None);
    assert_eq!(*g.player_turn(), TileValue::X);
    assert!(g.turn_history().is_empty());
    for row in 0..3u8 {
        for col in 0..3u8 {
            assert_eq!(*g.board().value_at_coords(&xy(row, col)), None);
        }
    }
}

#[test]
fn take_turn_rejects_an_occupied_tile() {
    let mut g = Game::new();
    let turn = Turn::new(TileValue::X, xy(0, 0));
    assert!(g.take_turn(turn).expect("tile (0,0) is open").is_none());
    let turn2 = Turn::new(TileValue::O, xy(0, 0));
    assert!(matches!(g.take_turn(turn2), Err(TurnError::TileFull(TileValue::X))));
}

#[test]
fn occupied_tile_rejection_leaves_the_engine_unchanged() {
    let mut g = Game::new();
    g.play_coords(xy(0, 0)).expect("tile (0,0) is open");
    let rejected = g.play_coords(xy(0, 0));
    assert_eq!(rejected, Err(TurnError::TileFull(TileValue::X)));
    assert_eq!(*g.board().value_at_coords(&xy(0, 0)), Some(TileValue::X));
    assert_eq!(g.turn_history().len(), 1);
    assert_eq!(*g.result(), None);
    assert_eq!(*g.player_turn(), TileValue::O);
    let retried = g.play_coords(xy(0, 2)).expect("tile (0,2) is open");
    assert!(retried.is_none());
    assert_eq!(*g.board().value_at_coords(&xy(0, 2)), Some(TileValue::O));
}

#[test]
fn play_coords_alternates_marks_and_records_history() {
    let mut g = Game::new();
    g.play_coords(xy(0, 0)).expect("tile (0,0) is open");
    assert!(matches!(g.play_coords(xy(0, 0)), Err(TurnError::TileFull(TileValue::X))));
    g.play_coords(xy(0, 2)).expect("tile (0,2) is open for O after the rejection");
    g.play_coords(xy(2, 2)).expect("tile (2,2) is open");
    assert_eq!(*g.board().value_at_coords(&xy(2, 2)), Some(TileValue::X));
    let expected = vec![
        Turn::new(TileValue::X, xy(0, 0)),
        Turn::new(TileValue::O, xy(0, 2)),
        Turn::new(TileValue::X, xy(2, 2)),
    ];
    assert!(g.turn_history().iter().eq(expected.iter()));
}

#[test]
fn diagonal_win_for_x() {
    let mut g = Game::new();
    g.play_coords(xy(0, 0)).expect("open tile, game in progress");
    g.play_coords(xy(2, 0)).expect("open tile, game in progress");
    g.play_coords(xy(1, 1)).expect("open tile, game in progress");
    g.play_coords(xy(2, 1)).expect("open tile, game in progress");
    let fifth = g.play_coords(xy(2, 2)).expect("open tile, game in progress");
    assert_eq!(fifth, Some(GameResult::Winner(TileValue::X)));
    assert_eq!(g.check_end(), Some(GameResult::Winner(TileValue::X)));
    assert_eq!(*g.result(), Some(GameResult::Winner(TileValue::X)));
}

#[test]
fn top_row_win_for_x() {
    let mut g = Game::new();
    g.play_coords(xy(0, 0)).expect("open tile, game in progress");
    g.play_coords(xy(1, 0)).expect("open tile, game in progress");
    g.play_coords(xy(0, 1)).expect("open tile, game in progress");
    g.play_coords(xy(1, 1)).expect("open tile, game in progress");
    let fifth = g.play_coords(xy(0, 2)).expect("open tile, game in progress");
    assert_eq!(fifth, Some(GameResult::Winner(TileValue::X)));
    assert_eq!(*g.result(), Some(GameResult::Winner(TileValue::X)));
}

#[test]
fn first_column_win_for_o() {
    let mut g = Game::new();
    for (row, col) in [(1, 1), (0, 0), (1, 2), (1, 0), (0, 2), (2, 0)] {
        g.play_coords(xy(row, col)).expect("open tile, game not over yet");
    }
    assert_eq!(g.check_end(), Some(GameResult::Winner(TileValue::O)));
}

#[test]
fn full_board_without_a_line_is_a_tie() {
    let mut g = Game::new();
    let moves = [(1, 1), (0, 2), (2, 2), (0, 0), (0, 1), (2, 1), (1, 0), (1, 2), (2, 0)];
    for (row, col) in moves {
        g.play_coords(xy(row, col)).expect("open tile, game not over yet");
    }
    assert_eq!(g.check_end(), Some(GameResult::Tie));
    assert_eq!(*g.result(), Some(GameResult::Tie));
}

#[test]
fn moves_after_the_end_are_rejected_and_echo_the_result() {
    let mut g = Game::new();
    for (row, col) in [(0, 0), (2, 0), (1, 1), (2, 1), (2, 2)] {
        g.play_coords(xy(row, col)).expect("open tile, game in progress");
    }
    let won = GameResult::Winner(TileValue::X);
    assert_eq!(*g.result(), Some(won));
    assert_eq!(g.play_coords(xy(0, 1)), Err(TurnError::GameOver(won)));
    assert_eq!(g.take_turn(Turn::new(TileValue::O, xy(0, 1))), Err(TurnError::GameOver(won)));
    assert_eq!(g.turn_history().len(), 5);
    assert_eq!(*g.board().value_at_coords(&xy(0, 1)), None);
    assert_eq!(*g.player_turn(), TileValue::O);
    assert_eq!(*g.result(), Some(won));
}

#[test]
fn history_records_every_accepted_move_in_order() {
    let mut g = Game::new();
    let moves = [(1u8, 1u8), (0, 0), (2, 2), (0, 2)];
    for (row, col) in moves {
        g.play_coords(xy(row, col)).expect("open tile, game in progress");
    }
    assert_eq!(g.turn_history().len(), moves.len());
    let mut mark = TileValue::X;
    for (i, (row, col)) in moves.into_iter().enumerate() {
        assert_eq!(g.turn_history()[i], Turn::new(mark, xy(row, col)));
        mark = mark.toggle();
    }
}

#[test]
fn take_turn_does_not_enforce_alternation() {
    let mut g = Game::new();
    assert!(g.take_turn(Turn::new(TileValue::X, xy(0, 0))).expect("open tile").is_none());
    assert!(g.take_turn(Turn::new(TileValue::X, xy(0, 1))).expect("open tile").is_none());
    let third = g.take_turn(Turn::new(TileValue::X, xy(0, 2))).expect("open tile");
    assert_eq!(third, Some(GameResult::Winner(TileValue::X)));
    assert_eq!(*g.player_turn(), TileValue::X);
}

#[test]
fn check_and_update_result_caches_the_outcome() {
    let mut g = Game::new();
    assert_eq!(g.check_and_update_result(), None);
    assert_eq!(*g.result(), None);
    g.take_turn(Turn::new(TileValue::O, xy(1, 0))).expect("open tile");
    g.take_turn(Turn::new(TileValue::O, xy(1, 1))).expect("open tile");
    let ended = g.take_turn(Turn::new(TileValue::O, xy(1, 2))).expect("open tile");
    assert_eq!(ended, Some(GameResult::Winner(TileValue::O)));
    assert_eq!(g.check_and_update_result(), Some(GameResult::Winner(TileValue::O)));
    assert_eq!(*g.result(), Some(GameResult::Winner(TileValue::O)));
}
