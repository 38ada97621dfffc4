use tic_tac_toe::{Game, GameState, Player};

#[test]
fn test_new_game() {
    let game = Game::new();
    assert_eq!(game.current_player, Player::X);
    assert_eq!(game.state, GameState::Playing);
    for row in 0..3 {
        for col in 0..3 {
            assert_eq!(game.board[row][col], None);
        }
    }
}

#[test]
fn test_play_alternates_turns() {
    let mut game = Game::new();
    game.play(0, 0);
    assert_eq!(game.board[0][0], Some(Player::X));
    assert_eq!(game.current_player, Player::O);
    game.play(1, 1);
    assert_eq!(game.board[1][1], Some(Player::O));
    assert_eq!(game.current_player, Player::X);
    assert_eq!(game.state, GameState::Playing);
}

#[test]
fn test_play_ignores_occupied_and_out_of_range() {
    let mut game = Game::new();
    game.play(0, 0);
    let before = game;

    game.play(0, 0); // occupied
    assert_eq!(game, before);

    game.play(7, 1); // out of range
    assert_eq!(game, before);
}

#[test]
fn test_play_to_a_win_stops_the_game() {
    let mut game = Game::new();
    game.play(0, 0); // X
    game.play(1, 0); // O
    game.play(0, 1); // X
    game.play(1, 1); // O
    game.play(0, 2); // X completes the top row
    assert_eq!(game.state, GameState::Won(Player::X));
    // The turn does not pass once the game is over.
    assert_eq!(game.current_player, Player::X);

    let before = game;
    game.play(2, 2); // ignored: the game is over
    assert_eq!(game, before);
}

#[test]
fn test_play_to_a_draw() {
    let mut game = Game::new();
    // X O X / O O X / X X O, filled in an order that never completes a line.
    game.play(0, 0); // X
    game.play(0, 1); // O
    game.play(0, 2); // X
    game.play(1, 1); // O
    game.play(1, 2); // X
    game.play(1, 0); // O
    game.play(2, 0); // X
    game.play(2, 2); // O
    game.play(2, 1); // X fills the board
    assert_eq!(game.state, GameState::Draw);
}

#[test]
fn test_reset_restores_the_start() {
    let mut game = Game::new();
    game.play(0, 0);
    game.play(1, 1);
    game.reset();
    assert_eq!(game, Game::new());
}
