use tictactoe_server::board::{new_board, Outcome};
use tictactoe_server::pool::{Client, WaitingPool};
use tictactoe_server::session::{MoveReply, Phase, ReplayDecision, Seat, Session};

fn fresh() -> Session {
    Session::new('X', 'O')
}

fn play(s: &mut Session, moves: &[(Seat, &str)]) -> MoveReply {
    let mut last = MoveReply::NotAccepting;
    for &(seat, line) in moves.iter() {
        last = s.handle_line(seat, line);
    }
    last
}

fn finished_round() -> Session {
    let mut s = fresh();
    let r = play(
        &mut s,
        &[
            (Seat::First, "1"),
            (Seat::Second, "4"),
            (Seat::First, "2"),
            (Seat::Second, "5"),
            (Seat::First, "3"),
        ],
    );
    assert_eq!(r, MoveReply::RoundOver(Outcome::Win('X')));
    s
}

#[test]
fn new_session_starts_empty_with_first_seat() {
    let s = fresh();
    assert_eq!(s.board, new_board());
    assert_eq!(s.turn, Seat::First);
    assert_eq!(s.starter, Seat::First);
    assert_eq!(s.phase, Phase::AwaitingMove);
    assert_eq!(s.symbol(Seat::First), 'X');
    assert_eq!(s.symbol(Seat::Second), 'O');
}

#[test]
fn moves_alternate_and_occupied_cell_is_rejected() {
    let mut s = fresh();
    assert_eq!(s.handle_line(Seat::First, "5"), MoveReply::Placed);
    assert_eq!(s.board[4], Some('X'));
    assert_eq!(s.turn, Seat::Second);
    assert_eq!(s.handle_line(Seat::Second, "5"), MoveReply::Occupied);
    assert_eq!(s.board[4], Some('X'));
    assert_eq!(s.turn, Seat::Second);
    assert_eq!(s.handle_line(Seat::Second, "1"), MoveReply::Placed);
    assert_eq!(s.board[0], Some('O'));
    assert_eq!(s.turn, Seat::First);
}

#[test]
fn invalid_moves_leave_session_unchanged() {
    let mut s = fresh();
    s.handle_line(Seat::First, "5");
    for line in ["abc", "0", "-3", "10", "", "  "].iter() {
        let before_board = s.board;
        assert_eq!(s.handle_line(Seat::Second, line), MoveReply::Invalid);
        assert_eq!(s.board, before_board);
        assert_eq!(s.turn, Seat::Second);
        assert_eq!(s.phase, Phase::AwaitingMove);
    }
}

#[test]
fn out_of_turn_line_is_refused() {
    let mut s = fresh();
    assert_eq!(s.handle_line(Seat::Second, "1"), MoveReply::NotYourTurn);
    assert_eq!(s.board, new_board());
    assert_eq!(s.turn, Seat::First);
    s.handle_line(Seat::First, "1");
    assert_eq!(s.handle_line(Seat::First, "2"), MoveReply::NotYourTurn);
    assert_eq!(s.board[1], None);
    assert_eq!(s.turn, Seat::Second);
}

#[test]
fn winning_move_ends_round_and_no_further_move_is_accepted() {
    let mut s = finished_round();
    assert_eq!(s.phase, Phase::AwaitingReplayVotes);
    let board = s.board;
    assert_eq!(s.handle_line(Seat::Second, "9"), MoveReply::NotAccepting);
    assert_eq!(s.handle_line(Seat::First, "9"), MoveReply::NotAccepting);
    assert_eq!(s.board, board);
}

#[test]
fn full_board_ends_round_in_draw() {
    let mut s = fresh();
    let r = play(
        &mut s,
        &[
            (Seat::First, "1"),
            (Seat::Second, "2"),
            (Seat::First, "3"),
            (Seat::Second, "5"),
            (Seat::First, "4"),
            (Seat::Second, "6"),
            (Seat::First, "8"),
            (Seat::Second, "7"),
            (Seat::First, "9"),
        ],
    );
    assert_eq!(r, MoveReply::RoundOver(Outcome::Draw));
    assert_eq!(s.phase, Phase::AwaitingReplayVotes);
}

#[test]
fn both_yes_restarts_with_same_players() {
    let mut s = finished_round();
    let d = s.settle_votes(&Some("yes".to_string()), &Some("YES".to_string()));
    assert_eq!(d, Some(ReplayDecision::Restart));
    assert_eq!(s.board, new_board());
    assert_eq!(s.turn, s.starter);
    assert_eq!(s.turn, Seat::First);
    assert_eq!(s.phase, Phase::AwaitingMove);
    assert_eq!(s.symbol(Seat::First), 'X');
    assert_eq!(s.symbol(Seat::Second), 'O');
}

#[test]
fn yes_then_close_requeues_the_yes_player() {
    let mut s = finished_round();
    let d = s.settle_votes(&Some("yes".to_string()), &None);
    assert_eq!(d, Some(ReplayDecision::Requeue(Seat::First)));
    assert_eq!(s.phase, Phase::Terminated);

    let mut pool: WaitingPool<Client<u32, u32>> = WaitingPool::new();
    let seated = Client { rx: 1u32, writer: 2u32 }.into_player('X');
    let client: Client<u32, u32> = Client::from(seated);
    pool.enqueue(client);
    assert_eq!(pool.len(), 1);
    pool.enqueue(Client { rx: 3, writer: 4 });
    let (a, b) = pool.try_dequeue_pair().unwrap();
    assert_eq!((a.rx, a.writer), (1, 2));
    assert_eq!((b.rx, b.writer), (3, 4));
}

#[test]
fn only_second_yes_requeues_second() {
    let mut s = finished_round();
    let d = s.settle_votes(&Some("nope".to_string()), &Some(" yes".to_string()));
    assert_eq!(d, Some(ReplayDecision::Requeue(Seat::Second)));
    assert_eq!(s.phase, Phase::Terminated);
}

#[test]
fn both_no_disbands() {
    let mut s = finished_round();
    assert_eq!(s.settle_votes(&None, &Some("no".to_string())), Some(ReplayDecision::Disband));
    assert_eq!(s.phase, Phase::Terminated);
    assert_eq!(s.handle_line(Seat::First, "1"), MoveReply::NotAccepting);
}

#[test]
fn apply_votes_covers_every_combination() {
    let cases = [
        (true, true, ReplayDecision::Restart, Phase::AwaitingMove),
        (true, false, ReplayDecision::Requeue(Seat::First), Phase::Terminated),
        (false, true, ReplayDecision::Requeue(Seat::Second), Phase::Terminated),
        (false, false, ReplayDecision::Disband, Phase::Terminated),
    ];
    for &(a, b, d, p) in cases.iter() {
        let mut s = finished_round();
        assert_eq!(s.apply_votes(a, b), Some(d));
        assert_eq!(s.phase, p);
    }
}

#[test]
fn votes_outside_negotiation_change_nothing() {
    let mut s = fresh();
    assert_eq!(s.apply_votes(true, true), None);
    assert_eq!(s.settle_votes(&Some("yes".to_string()), &None), None);
    assert_eq!(s.phase, Phase::AwaitingMove);
}

#[test]
fn disconnect_mid_round_terminates_and_names_survivor() {
    let mut s = fresh();
    s.handle_line(Seat::First, "5");
    let board = s.board;
    assert_eq!(s.handle_close(Seat::Second), Some(Seat::First));
    assert_eq!(s.phase, Phase::Terminated);
    assert_eq!(s.board, board);
    assert_eq!(s.handle_close(Seat::First), None);
    assert_eq!(s.handle_line(Seat::First, "1"), MoveReply::NotAccepting);
}

#[test]
fn disconnect_during_negotiation_is_left_to_votes() {
    let mut s = finished_round();
    assert_eq!(s.handle_close(Seat::First), None);
    assert_eq!(s.phase, Phase::AwaitingReplayVotes);
}

#[test]
fn seats_are_opposite() {
    assert_eq!(Seat::First.other(), Seat::Second);
    assert_eq!(Seat::Second.other(), Seat::First);
}

#[test]
fn move_text_is_read_as_given() {
    let mut s = fresh();
    assert_eq!(s.handle_move_text(Seat::First, " 5"), MoveReply::Invalid);
    assert_eq!(s.board, new_board());
    assert_eq!(s.handle_move_text(Seat::First, "5"), MoveReply::Placed);
    assert_eq!(s.board[4], Some('X'));
    assert_eq!(s.handle_move_text(Seat::First, "6"), MoveReply::NotYourTurn);
    assert_eq!(s.handle_move_text(Seat::Second, "5"), MoveReply::Occupied);
    assert_eq!(s.turn, Seat::Second);
}
