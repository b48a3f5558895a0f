use tictactoe::board::CellMark;
use tictactoe::board::GameError;
use tictactoe::engine::GameEngine;
use tictactoe::resolver::PointerState;
use tictactoe::turn::Phase;
use tictactoe::turn::Player;
use tictactoe::win::Line;
use tictactoe::win::Verdict;

/// A pointer resting in the middle of cell `index`.
fn pointer_over(index: usize) -> PointerState {
    let col = (index % 3) as i32;
    let row = (index / 3) as i32;
    PointerState { x: col * 100 + 50, y: row * 100 + 50, moved: true }
}

fn started() -> GameEngine {
    let mut e = GameEngine::new();
    e.start();
    e
}

#[test]
fn fresh_engine_waits_with_x_to_move() {
    let e = GameEngine::new();
    assert_eq!(e.current_phase(), Phase::WaitingToStart);
    assert_eq!(e.current_turn(), Player::X);
    assert_eq!(e.verdict(), Verdict::NoWinner);
    assert_eq!(e.status(), "waiting");
}

#[test]
fn start_is_ignored_outside_waiting() {
    let mut e = started();
    assert_eq!(e.current_phase(), Phase::Playing);
    e.start();
    assert_eq!(e.current_phase(), Phase::Playing);
    assert_eq!(e.status(), "X to move");
}

#[test]
fn three_commits_no_line() {
    // Empty board; X commits index 4, O commits index 0, X commits
    // index 8: no line is complete.
    let mut e = started();
    assert_eq!(e.commit(4), Ok(()));
    assert_eq!(e.commit(0), Ok(()));
    assert_eq!(e.commit(8), Ok(()));
    assert_eq!(e.verdict(), Verdict::NoWinner);
    assert_eq!(e.cell(4), Ok(CellMark::CommittedX));
    assert_eq!(e.cell(0), Ok(CellMark::CommittedO));
    assert_eq!(e.cell(8), Ok(CellMark::CommittedX));
}

#[test]
fn turn_alternates_with_commit_parity() {
    // After N successful commits it is X's move iff N is even.
    let mut e = started();
    let order = [4usize, 0, 8, 1, 7];
    for (n, idx) in order.iter().enumerate() {
        let expected = if n % 2 == 0 { Player::X } else { Player::O };
        assert_eq!(e.current_turn(), expected);
        assert_eq!(e.commit(*idx), Ok(()));
    }
    assert_eq!(e.current_turn(), Player::O);
}

#[test]
fn commit_out_of_range() {
    let mut e = started();
    assert_eq!(e.commit(9), Err(GameError::OutOfRange));
    assert_eq!(e.current_turn(), Player::X);
}

#[test]
fn commit_onto_committed_cell_is_illegal() {
    let mut e = started();
    assert_eq!(e.commit(4), Ok(()));
    assert_eq!(e.commit(4), Err(GameError::IllegalMove));
    // The rejected move neither flipped the turn nor touched the cell.
    assert_eq!(e.current_turn(), Player::O);
    assert_eq!(e.cell(4), Ok(CellMark::CommittedX));
}

#[test]
fn restart_clears_board_and_returns_to_play() {
    // restart() followed immediately by evaluation always yields
    // NoWinner and a board that is not full.
    let mut e = started();
    assert_eq!(e.commit(0), Ok(()));
    assert_eq!(e.commit(3), Ok(()));
    assert_eq!(e.commit(1), Ok(()));
    assert_eq!(e.commit(4), Ok(()));
    assert_eq!(e.commit(2), Ok(()));
    assert!(matches!(e.verdict(), Verdict::Winner { .. }));
    e.frame(pointer_over(0), false);
    assert_eq!(e.current_phase(), Phase::GameOver);
    e.request_restart();
    assert_eq!(e.current_phase(), Phase::Restarting);
    e.restart();
    assert_eq!(e.current_phase(), Phase::Playing);
    assert_eq!(e.current_turn(), Player::X);
    assert_eq!(e.verdict(), Verdict::NoWinner);
    assert!(!e.board_is_full());
    for i in 0..9 {
        assert_eq!(e.cell(i), Ok(CellMark::Empty));
    }
}

#[test]
fn frame_outside_playing_changes_nothing() {
    let mut e = GameEngine::new();
    let v = e.frame(pointer_over(4), true);
    assert_eq!(v, Verdict::NoWinner);
    assert_eq!(e.current_phase(), Phase::WaitingToStart);
    for i in 0..9 {
        assert_eq!(e.cell(i), Ok(CellMark::Empty));
    }
}

#[test]
fn full_game_through_frames_x_wins() {
    let mut e = started();
    // X takes the top row while O answers in the middle row.
    let moves = [0usize, 3, 1, 4, 2];
    for idx in moves.iter().take(4) {
        let v = e.frame(pointer_over(*idx), true);
        assert_eq!(v, Verdict::NoWinner);
        assert_eq!(e.current_phase(), Phase::Playing);
    }
    let v = e.frame(pointer_over(moves[4]), true);
    assert_eq!(
        v,
        Verdict::Winner { player: Player::X, line: Line { a: 0, b: 1, c: 2 } }
    );
    assert_eq!(e.current_phase(), Phase::GameOver);
    assert_eq!(e.status(), "X wins");
}

#[test]
fn o_win_status() {
    let mut e = started();
    // X plays 4, 5, 8; O takes the left column 0, 3, 6.
    for idx in [4usize, 0, 5, 3, 8] {
        e.frame(pointer_over(idx), true);
    }
    let v = e.frame(pointer_over(6), true);
    assert_eq!(
        v,
        Verdict::Winner { player: Player::O, line: Line { a: 0, b: 3, c: 6 } }
    );
    assert_eq!(e.status(), "O wins");
}

#[test]
fn draw_game_status() {
    // X O X / X O O / O X X filled move by move ends in a draw.
    let mut e = started();
    let x_moves = [0usize, 2, 3, 7, 8];
    let o_moves = [1usize, 4, 5, 6];
    for n in 0..4 {
        assert_eq!(e.frame(pointer_over(x_moves[n]), true), Verdict::NoWinner);
        let v = e.frame(pointer_over(o_moves[n]), true);
        if n < 3 {
            assert_eq!(v, Verdict::NoWinner);
        }
    }
    let v = e.frame(pointer_over(x_moves[4]), true);
    assert_eq!(v, Verdict::Draw);
    assert_eq!(e.current_phase(), Phase::GameOver);
    assert_eq!(e.status(), "draw");
    assert!(e.board_is_full());
}

#[test]
fn status_during_play_names_the_mover() {
    let mut e = started();
    assert_eq!(e.status(), "X to move");
    assert_eq!(e.commit(4), Ok(()));
    assert_eq!(e.status(), "O to move");
    e.request_restart();
    // Ignored outside GameOver: still O to move.
    assert_eq!(e.status(), "O to move");
}

#[test]
fn snapshot_highlights_the_winning_line_only() {
    let mut e = started();
    for idx in [0usize, 3, 1, 4, 2] {
        e.frame(pointer_over(idx), true);
    }
    let s = e.snapshot();
    assert_eq!(s.len(), 9);
    for (i, cell) in s.iter().enumerate() {
        assert_eq!(cell.highlighted, i < 3, "cell {}", i);
    }
    assert_eq!(s[0].mark, CellMark::CommittedX);
    assert_eq!(s[3].mark, CellMark::CommittedO);
}

#[test]
fn snapshot_of_a_plain_position_highlights_nothing() {
    let mut e = started();
    e.frame(pointer_over(4), false);
    let s = e.snapshot();
    assert_eq!(s.len(), 9);
    assert_eq!(s[4].mark, CellMark::PreviewX);
    for cell in s.iter() {
        assert!(!cell.highlighted);
    }
}

#[test]
fn preview_then_click_through_the_engine() {
    // Scenario: hover previews, the click on the previewed cell
    // commits it, and no second cell commits in the same frame.
    let mut e = started();
    e.frame(pointer_over(4), false);
    assert_eq!(e.cell(4), Ok(CellMark::PreviewX));
    assert_eq!(e.current_turn(), Player::X);
    e.frame(pointer_over(4), true);
    assert_eq!(e.cell(4), Ok(CellMark::CommittedX));
    assert_eq!(e.current_turn(), Player::O);
    let mut committed = 0;
    for i in 0..9 {
        match e.cell(i).unwrap() {
            CellMark::CommittedX | CellMark::CommittedO => committed += 1,
            _ => {},
        }
    }
    assert_eq!(committed, 1);
}

#[test]
fn verdict_is_idempotent_through_the_engine() {
    let mut e = started();
    assert_eq!(e.commit(4), Ok(()));
    let first = e.verdict();
    let second = e.verdict();
    assert_eq!(first, second);
    assert_eq!(e.cell(4), Ok(CellMark::CommittedX));
}
