//! One pairing of two players: the turn arbiter, round-end detection,
//! disconnects and the replay negotiation, as a state machine driven by the
//! events its coordinator observes.
use vstd::prelude::*;
use crate::arbiter::{move_index, parse_move, read_vote, reply_view, trim_text, trimmed, vote_is_yes};
use crate::board::{
    apply_move, empty_board, evaluate, has_complete_line, lemma_completed_line_wins,
    line_complete, line_filled_with, new_board, round_outcome, Outcome,
};
use vstd::array::spec_array_update;

verus! {

/// One of the two places in a session.
#[derive(Clone, Copy, Debug, PartialEq, Eq, Structural)]
pub enum Seat {
    First,
    Second,
}

impl Seat {
    /// The seat across the board.
    pub open spec fn opposite(self) -> Seat {
        match self {
            Seat::First => Seat::Second,
            Seat::Second => Seat::First,
        }
    }

    /// The seat across the board.
    pub fn other(self) -> (r: Seat)
        ensures
            r == self.opposite(),
    {
        match self {
            Seat::First => Seat::Second,
            Seat::Second => Seat::First,
        }
    }
}

/// Where a session stands.
#[derive(Clone, Copy, Debug, PartialEq, Eq, Structural)]
pub enum Phase {
    /// A round is under way and the seat in `turn` is to move.
    AwaitingMove,
    /// A round is over; both players are asked whether to play again.
    AwaitingReplayVotes,
    /// The session is over; nothing changes it any more.
    Terminated,
}

/// The arbiter's answer to a line that arrived while a move was awaited.
#[derive(Clone, Copy, Debug, PartialEq, Eq, Structural)]
pub enum MoveReply {
    /// The move was placed; the round goes on with the other seat to move.
    Placed,
    /// The move was placed and ended the round.
    RoundOver(Outcome),
    /// The line came from the seat that is not to move; it is discarded.
    NotYourTurn,
    /// The line names no cell; the same seat is asked again.
    Invalid,
    /// The named cell is taken; the same seat is asked again.
    Occupied,
    /// No move is awaited in this phase; nothing changed.
    NotAccepting,
}

/// What a replay negotiation settled.
#[derive(Clone, Copy, Debug, PartialEq, Eq, Structural)]
pub enum ReplayDecision {
    /// Both said yes: a fresh round starts with the same players.
    Restart,
    /// Only this seat said yes: its player goes back to the waiting pool.
    Requeue(Seat),
    /// Neither said yes: both players are dropped.
    Disband,
}

/// The game state of one session: the board, whose turn it is, the phase,
/// the seat that starts each round, and the symbol of each seat.
pub struct Session {
    pub board: [Option<char>; 9],
    pub turn: Seat,
    pub phase: Phase,
    pub starter: Seat,
    pub first_symbol: char,
    pub second_symbol: char,
}

/// The cell a line names once trimmed, 0-based, if it names one.
pub open spec fn move_target(line: Seq<char>) -> Option<int> {
    move_index(trimmed(line))
}

impl Session {
    /// The symbol that the player in `seat` places.
    pub open spec fn symbol_of(self, seat: Seat) -> char {
        match seat {
            Seat::First => self.first_symbol,
            Seat::Second => self.second_symbol,
        }
    }

    /// The two seats carry distinct symbols.
    pub open spec fn wf(self) -> bool {
        self.first_symbol != self.second_symbol
    }

    /// The session and the reply after a line from `from`: what the turn
    /// arbiter decides once the line is trimmed.
    pub open spec fn after_line(self, from: Seat, line: Seq<char>) -> (Session, MoveReply) {
        self.after_move_text(from, trimmed(line))
    }

    /// The session and the reply after the trimmed text `text` from `from`.
    pub open spec fn after_move_text(self, from: Seat, text: Seq<char>) -> (Session, MoveReply) {
        if self.phase != Phase::AwaitingMove {
            (self, MoveReply::NotAccepting)
        } else if from != self.turn {
            (self, MoveReply::NotYourTurn)
        } else {
            match move_index(text) {
                None => (self, MoveReply::Invalid),
                Some(i) => if self.board@[i] is Some {
                    (self, MoveReply::Occupied)
                } else {
                    let board = spec_array_update(self.board, i, Some(self.symbol_of(from)));
                    match round_outcome(board@) {
                        Some(o) => (
                            Session {
                                board,
                                turn: from.opposite(),
                                phase: Phase::AwaitingReplayVotes,
                                ..self
                            },
                            MoveReply::RoundOver(o),
                        ),
                        None => (Session { board, turn: from.opposite(), ..self }, MoveReply::Placed),
                    }
                },
            }
        }
    }

    /// A session just paired: empty board, the first seat to move and to
    /// start every round.
    pub fn new(first_symbol: char, second_symbol: char) -> (r: Session)
        requires
            first_symbol != second_symbol,
        ensures
            r.wf(),
            r.board@ == empty_board(),
            r.turn == Seat::First,
            r.starter == Seat::First,
            r.phase == Phase::AwaitingMove,
            r.first_symbol == first_symbol,
            r.second_symbol == second_symbol,
    {
        Session {
            board: new_board(),
            turn: Seat::First,
            phase: Phase::AwaitingMove,
            starter: Seat::First,
            first_symbol,
            second_symbol,
        }
    }

    /// The symbol that the player in `seat` places.
    pub fn symbol(&self, seat: Seat) -> (r: char)
        ensures
            r == self.symbol_of(seat),
    {
        match seat {
            Seat::First => self.first_symbol,
            Seat::Second => self.second_symbol,
        }
    }

    /// Arbitrates a line from the player in `from` while a move is awaited.
    /// Only the seat to move may move, and only onto an empty cell named by
    /// its 1-based position; every rejection leaves the session unchanged.
    /// A placed move passes the turn, and ends the round on a completed line
    /// or a full board.
    pub fn handle_line(&mut self, from: Seat, line: &str) -> (r: MoveReply)
        ensures
            (*final(self), r) == old(self).after_line(from, line@),
            old(self).phase != Phase::AwaitingMove ==> r == MoveReply::NotAccepting
                && *final(self) == *old(self),
            old(self).phase == Phase::AwaitingMove && from != old(self).turn ==> r
                == MoveReply::NotYourTurn && *final(self) == *old(self),
            old(self).phase == Phase::AwaitingMove && from == old(self).turn && move_target(line@)
                is None ==> r == MoveReply::Invalid && *final(self) == *old(self),
            old(self).phase == Phase::AwaitingMove && from == old(self).turn && move_target(line@)
                is Some && old(self).board@[move_target(line@)->0] is Some ==> r
                == MoveReply::Occupied && *final(self) == *old(self),
            old(self).phase == Phase::AwaitingMove && from == old(self).turn && move_target(line@)
                is Some && old(self).board@[move_target(line@)->0] is None ==> ({
                let i = move_target(line@)->0;
                let b = old(self).board@.update(i, Some(old(self).symbol_of(from)));
                &&& final(self).board@ == b
                &&& final(self).turn == from.opposite()
                &&& final(self).starter == old(self).starter
                &&& final(self).first_symbol == old(self).first_symbol
                &&& final(self).second_symbol == old(self).second_symbol
                &&& match round_outcome(b) {
                    Some(o) => r == MoveReply::RoundOver(o) && final(self).phase
                        == Phase::AwaitingReplayVotes,
                    None => r == MoveReply::Placed && final(self).phase == Phase::AwaitingMove,
                }
            }),
    {
        self.handle_move_text(from, trim_text(line))
    }

    /// Arbitrates a move text that has already been trimmed, from the player
    /// in `from`: see `handle_line`.
    pub fn handle_move_text(&mut self, from: Seat, text: &str) -> (r: MoveReply)
        ensures
            (*final(self), r) == old(self).after_move_text(from, text@),
    {
        if self.phase != Phase::AwaitingMove {
            return MoveReply::NotAccepting;
        }
        if from != self.turn {
            return MoveReply::NotYourTurn;
        }
        let index = match parse_move(text) {
            Some(i) => i,
            None => {
                return MoveReply::Invalid;
            },
        };
        let symbol = self.symbol(from);
        match apply_move(&mut self.board, index, symbol) {
            Ok(()) => {},
            Err(_) => {
                return MoveReply::Occupied;
            },
        }
        self.turn = from.other();
        proof {
            broadcast use vstd::array::group_array_axioms;

            let i = index as int;
            assert(self.board == spec_array_update(old(self).board, i, Some(symbol)));
        }
        match evaluate(&self.board) {
            Some(o) => {
                self.phase = Phase::AwaitingReplayVotes;
                MoveReply::RoundOver(o)
            },
            None => MoveReply::Placed,
        }
    }

    /// The channel of the player in `seat` closed. During a round the session
    /// ends at once, with no replay negotiation, and the seat to be told that
    /// its opponent left is returned; that player is not put back in the
    /// waiting pool. In any other phase nothing changes (during the replay
    /// negotiation a closed channel counts as a no vote instead).
    pub fn handle_close(&mut self, seat: Seat) -> (r: Option<Seat>)
        ensures
            old(self).phase == Phase::AwaitingMove ==> r == Some(seat.opposite())
                && *final(self) == (Session { phase: Phase::Terminated, ..*old(self) }),
            old(self).phase != Phase::AwaitingMove ==> r is None && *final(self) == *old(self),
    {
        if self.phase != Phase::AwaitingMove {
            return None;
        }
        self.phase = Phase::Terminated;
        Some(seat.other())
    }

    /// The decision of a replay negotiation from the two votes: both yes
    /// restarts, a single yes requeues that seat's player, none disbands.
    pub open spec fn decision(first_yes: bool, second_yes: bool) -> ReplayDecision {
        if first_yes && second_yes {
            ReplayDecision::Restart
        } else if first_yes {
            ReplayDecision::Requeue(Seat::First)
        } else if second_yes {
            ReplayDecision::Requeue(Seat::Second)
        } else {
            ReplayDecision::Disband
        }
    }

    /// The session once the votes are counted: on a restart a fresh empty
    /// board with the starting seat to move, else terminated.
    pub open spec fn after_votes(self, first_yes: bool, second_yes: bool) -> Session {
        if first_yes && second_yes {
            Session { phase: Phase::AwaitingMove, turn: self.starter, ..self }
        } else {
            Session { phase: Phase::Terminated, ..self }
        }
    }

    /// Settles the replay negotiation from both votes, once a round is over.
    /// A restart empties the board and gives the move to the seat that starts
    /// every round, keeping both players and their symbols; anything else
    /// terminates the session. Outside the negotiation nothing changes.
    pub fn apply_votes(&mut self, first_yes: bool, second_yes: bool) -> (r: Option<ReplayDecision>)
        ensures
            old(self).phase != Phase::AwaitingReplayVotes ==> r is None && *final(self)
                == *old(self),
            old(self).phase == Phase::AwaitingReplayVotes ==> ({
                let s = old(self).after_votes(first_yes, second_yes);
                &&& r == Some(Session::decision(first_yes, second_yes))
                &&& final(self).phase == s.phase
                &&& final(self).turn == s.turn
                &&& final(self).starter == s.starter
                &&& final(self).first_symbol == s.first_symbol
                &&& final(self).second_symbol == s.second_symbol
                &&& final(self).board@ == if first_yes && second_yes {
                    empty_board()
                } else {
                    old(self).board@
                }
            }),
    {
        if self.phase != Phase::AwaitingReplayVotes {
            return None;
        }
        if first_yes && second_yes {
            self.board = new_board();
            self.turn = self.starter;
            self.phase = Phase::AwaitingMove;
            Some(ReplayDecision::Restart)
        } else {
            self.phase = Phase::Terminated;
            if first_yes {
                Some(ReplayDecision::Requeue(Seat::First))
            } else if second_yes {
                Some(ReplayDecision::Requeue(Seat::Second))
            } else {
                Some(ReplayDecision::Disband)
            }
        }
    }

    /// Settles the replay negotiation from the two replies as they came, each
    /// read case-insensitively as yes or no, a closed channel (`None`) as no.
    pub fn settle_votes(&mut self, first: &Option<String>, second: &Option<String>) -> (r: Option<
        ReplayDecision,
    >)
        ensures
            ({
                let y1 = vote_is_yes(reply_view(first));
                let y2 = vote_is_yes(reply_view(second));
                &&& old(self).phase != Phase::AwaitingReplayVotes ==> r is None && *final(self)
                    == *old(self)
                &&& old(self).phase == Phase::AwaitingReplayVotes ==> r == Some(
                    Session::decision(y1, y2),
                ) && final(self).phase == old(self).after_votes(y1, y2).phase
                    && final(self).turn == old(self).after_votes(y1, y2).turn
                    && final(self).starter == old(self).starter
                    && final(self).first_symbol == old(self).first_symbol
                    && final(self).second_symbol == old(self).second_symbol
                    && final(self).board@ == if y1 && y2 {
                    empty_board()
                } else {
                    old(self).board@
                }
            }),
    {
        let first_yes = read_vote(first);
        let second_yes = read_vote(second);
        self.apply_votes(first_yes, second_yes)
    }
}

/// A move that completes a line on a board where no line was complete wins
/// the round for the mover's symbol at once, and the session then accepts no
/// further move into that board, from either seat, whatever the line.
pub proof fn lemma_completing_move_wins(
    s: Session,
    from: Seat,
    line: Seq<char>,
    k: int,
    from2: Seat,
    line2: Seq<char>,
)
    requires
        s.phase == Phase::AwaitingMove,
        from == s.turn,
        move_target(line) is Some,
        s.board@[move_target(line)->0] is None,
        !has_complete_line(s.board@),
        0 <= k < 8,
        line_filled_with(
            s.board@.update(move_target(line)->0, Some(s.symbol_of(from))),
            k,
            s.symbol_of(from),
        ),
    ensures
        s.after_line(from, line).1 == MoveReply::RoundOver(Outcome::Win(s.symbol_of(from))),
        s.after_line(from, line).0.after_line(from2, line2) == (
            s.after_line(from, line).0,
            MoveReply::NotAccepting,
        ),
{
    broadcast use vstd::array::group_array_axioms;

    let i = move_target(line)->0;
    let sym = s.symbol_of(from);
    let b = s.board@;
    let b2 = b.update(i, Some(sym));
    assert(0 <= i < 9) by {
        crate::arbiter::lemma_move_index_in_range(trimmed(line));
    }
    assert(spec_array_update(s.board, i, Some(sym))@ == b2);
    assert forall|j: int| 0 <= j < 8 && #[trigger] line_complete(b2, j) implies line_filled_with(
        b2,
        j,
        sym,
    ) by {
        let (x, y, z) = crate::board::line(j);
        if x != i && y != i && z != i {
            assert(line_complete(b, j));
        }
    }
    lemma_completed_line_wins(b2, k, sym);
}

} // verus!
