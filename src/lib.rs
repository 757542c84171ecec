//! Matchmaking and session coordination for a two-player grid game served
//! over line-oriented text connections.
//!
//! The library holds the decisions: the board engine, the move arbiter, the
//! session state machine with its replay negotiation, and the first-in
//! first-out waiting pool. Sockets, tasks and locks live around it.
pub mod arbiter;
pub mod board;
pub mod pool;
pub mod session;
