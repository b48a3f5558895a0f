use tictactoe::board::Board;
use tictactoe::board::CellMark;
use tictactoe::board::GameError;
use tictactoe::turn::Phase;
use tictactoe::turn::Player;
use tictactoe::turn::TurnController;

#[test]
fn fresh_controller() {
    let c = TurnController::new();
    assert_eq!(c.turn, Player::X);
    assert_eq!(c.phase, Phase::WaitingToStart);
}

#[test]
fn start_only_from_waiting() {
    let mut c = TurnController::new();
    c.start();
    assert_eq!(c.phase, Phase::Playing);
    c.enter_game_over();
    c.start();
    assert_eq!(c.phase, Phase::GameOver);
}

#[test]
fn commit_move_flips_turn_and_keeps_phase() {
    let mut c = TurnController::new();
    c.start();
    assert_eq!(c.commit_move(Player::X), Ok(()));
    assert_eq!(c.turn, Player::O);
    assert_eq!(c.phase, Phase::Playing);
    assert_eq!(c.commit_move(Player::O), Ok(()));
    assert_eq!(c.turn, Player::X);
}

#[test]
fn commit_move_by_the_wrong_player_is_illegal() {
    let mut c = TurnController::new();
    c.start();
    assert_eq!(c.commit_move(Player::O), Err(GameError::IllegalMove));
    // The rejected commit changed nothing.
    assert_eq!(c.turn, Player::X);
    assert_eq!(c.phase, Phase::Playing);
}

#[test]
fn game_over_is_idempotent() {
    let mut c = TurnController::new();
    c.enter_game_over();
    assert_eq!(c.phase, Phase::WaitingToStart);
    c.start();
    c.enter_game_over();
    assert_eq!(c.phase, Phase::GameOver);
    c.enter_game_over();
    assert_eq!(c.phase, Phase::GameOver);
}

#[test]
fn restart_resets_turn_phase_and_board() {
    let mut c = TurnController::new();
    c.start();
    c.commit_move(Player::X).unwrap();
    c.enter_game_over();
    c.request_restart();
    assert_eq!(c.phase, Phase::Restarting);
    let mut b = Board::new();
    b.set(4, CellMark::CommittedX);
    b.set(2, CellMark::PreviewO);
    c.restart(&mut b);
    assert_eq!(c.turn, Player::X);
    assert_eq!(c.phase, Phase::Playing);
    for i in 0..9 {
        assert_eq!(b.get(i), Ok(CellMark::Empty));
    }
}

#[test]
fn request_restart_only_from_game_over() {
    let mut c = TurnController::new();
    c.request_restart();
    assert_eq!(c.phase, Phase::WaitingToStart);
    c.start();
    c.request_restart();
    assert_eq!(c.phase, Phase::Playing);
}
