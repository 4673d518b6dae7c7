//! A two-player quiz match: the session state machine, the round engine that
//! scores answers by arrival order, the wire codec and the question bank.

pub mod codec;
pub mod laws;
pub mod models;
pub mod quiz_data;
pub mod round;
pub mod session;
pub mod text;

pub use codec::{decode, encode, Inbound, InboundView, Outbound, OutboundView};
pub use models::{Address, Player, PlayerView, Question, QuestionView};
pub use quiz_data::{
    load_and_shuffle_questions, malformed_lines, parse_questions, reshuffle_questions, LoadError,
};
pub use round::{Outcome, Reply, Round, RoundView};
pub use session::{Action, ActionView, Config, Phase, Session, SessionView, Step};
