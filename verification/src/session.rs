//! The match session: two participants join, rounds are played until one of
//! them reaches the winning score or the questions run out, and both decide
//! whether to play again.

use crate::codec::{decode, decoded, Inbound, InboundView, Outbound, OutboundView};
use crate::models::{
    clone_questions, clone_strings, player_views, question_views, Address, Player, PlayerView, Question,
    QuestionView,
};
use crate::quiz_data::{reshuffle_questions, same_questions};
use crate::round::{lemma_after_keeps_shape, Outcome, Reply, Round, RoundView};
use vstd::prelude::*;

verus! {

/// Where a session stands between two datagrams.
#[derive(Clone, Copy, Debug, PartialEq, Eq, Structural)]
pub enum Phase {
    /// Waiting for two participants to join.
    Lobby,
    /// A round is open on the question under the cursor.
    Playing,
    /// The match is over and the participants vote on playing again.
    RestartVote,
    /// The session has ended; nothing is processed any more.
    Terminated,
}

/// The rules of a match that can be set.
#[derive(Clone, Copy, Debug, PartialEq, Eq)]
pub struct Config {
    /// The score that wins the match.
    pub win_threshold: i32,
    /// The points for a right first answer.
    pub first_bonus: i32,
    /// The points for a right answer after a wrong first one.
    pub second_bonus: i32,
    /// The pause before the next question, in seconds.
    pub pause_seconds: u64,
}

impl Config {
    /// The rules a session accepts: no bonus is negative, and a score below
    /// the winning score plus a bonus is a number a score can hold.
    pub open spec fn valid(self) -> bool {
        &&& 0 <= self.first_bonus
        &&& 0 <= self.second_bonus
        &&& self.win_threshold + self.first_bonus <= i32::MAX
        &&& self.win_threshold + self.second_bonus <= i32::MAX
    }

    /// The usual rules: 30 points win, 5 points for a right first answer, 3
    /// for a right second one, 2 seconds between rounds.
    pub fn standard() -> (config: Config)
        ensures
            config == (Config {
                win_threshold: 30,
                first_bonus: 5,
                second_bonus: 3,
                pause_seconds: 2,
            }),
            config.valid(),
    {
        Config { win_threshold: 30, first_bonus: 5, second_bonus: 3, pause_seconds: 2 }
    }

    /// Whether a session accepts these rules.
    pub fn is_valid(&self) -> (r: bool)
        ensures
            r == self.valid(),
    {
        self.first_bonus >= 0 && self.second_bonus >= 0 && self.win_threshold <= i32::MAX
            - self.first_bonus && self.win_threshold <= i32::MAX - self.second_bonus
    }
}

/// What a session asks the transport to do.
#[derive(Debug, PartialEq, Eq)]
pub enum Action {
    /// Send `message` to the participant at `to`.
    Send { to: Address, message: Outbound },
    /// Wait before going on.
    Pause { seconds: u64 },
}

/// What an `Action` holds, as mathematical values.
pub ghost enum ActionView {
    Send { to: Address, message: OutboundView },
    Pause { seconds: u64 },
}

impl View for Action {
    type V = ActionView;

    open spec fn view(&self) -> ActionView {
        match self {
            Action::Send { to, message } => ActionView::Send { to: *to, message: message@ },
            Action::Pause { seconds } => ActionView::Pause { seconds: *seconds },
        }
    }
}

/// The views of a sequence of actions, in order.
pub open spec fn action_views(actions: Seq<Action>) -> Seq<ActionView> {
    Seq::new(actions.len(), |i: int| actions[i]@)
}

/// The state of a session, as mathematical values.
pub ghost struct SessionView {
    pub config: Config,
    pub phase: Phase,
    /// The participants, in the order in which they joined.
    pub players: Seq<PlayerView>,
    pub questions: Seq<QuestionView>,
    /// The position of the question of the current round.
    pub cursor: nat,
    /// The open round, while playing.
    pub round: Option<RoundView>,
    /// The identities that voted to play again.
    pub yes_votes: Seq<Address>,
}

/// What a datagram does to a session: the state afterwards and the actions
/// asked for, in order.
pub ghost struct Step {
    pub state: SessionView,
    pub actions: Seq<ActionView>,
}

/// The question `question` as a message.
pub open spec fn question_notice(question: QuestionView) -> OutboundView {
    OutboundView::Question { prompt: question.text, choices: question.options }
}

/// The participants `players` with all scores at zero.
pub open spec fn cleared(players: Seq<PlayerView>) -> Seq<PlayerView> {
    Seq::new(players.len(), |i: int| PlayerView { score: 0, ..players[i] })
}

/// The participants `players` after the winner of `outcome`, if any, got its
/// points.
pub open spec fn scored(players: Seq<PlayerView>, outcome: Outcome) -> Seq<PlayerView> {
    Seq::new(
        players.len(),
        |i: int|
            if outcome.winner == Some(players[i].addr) {
                PlayerView { score: players[i].score + outcome.points, ..players[i] }
            } else {
                players[i]
            },
    )
}

/// Whether one of two participants has reached `threshold`.
pub open spec fn reached(players: Seq<PlayerView>, threshold: i32) -> bool {
    players[0].score >= threshold || players[1].score >= threshold
}

/// The participant in the lead, of two: the one with the higher score, the
/// one who joined first where the scores are equal.
pub open spec fn leader(players: Seq<PlayerView>) -> PlayerView {
    if players[0].score >= players[1].score {
        players[0]
    } else {
        players[1]
    }
}

impl SessionView {
    /// A session before anybody joined.
    pub open spec fn start(config: Config, questions: Seq<QuestionView>) -> SessionView {
        SessionView {
            config,
            phase: Phase::Lobby,
            players: Seq::empty(),
            questions,
            cursor: 0,
            round: None,
            yes_votes: Seq::empty(),
        }
    }

    /// Whether `who` is the identity of a participant.
    pub open spec fn registered(self, who: Address) -> bool {
        ||| self.players.len() > 0 && self.players[0].addr == who
        ||| self.players.len() > 1 && self.players[1].addr == who
    }

    /// The place of the participant `who` among the participants.
    pub open spec fn seat(self, who: Address) -> int {
        if self.players[0].addr == who {
            0
        } else {
            1
        }
    }

    /// The identity of the participant that is not `who`.
    pub open spec fn opponent(self, who: Address) -> Address {
        self.players[1 - self.seat(who)].addr
    }

    /// `message` sent to both participants, in the order in which they
    /// joined.
    pub open spec fn to_both(self, message: OutboundView) -> Seq<ActionView> {
        seq![
            ActionView::Send { to: self.players[0].addr, message },
            ActionView::Send { to: self.players[1].addr, message },
        ]
    }

    /// The question under the cursor, sent to both participants.
    pub open spec fn ask(self) -> Seq<ActionView> {
        self.to_both(question_notice(self.questions[self.cursor as int]))
    }

    /// A round on the question under the cursor, before any answer.
    pub open spec fn opening_round(self) -> RoundView {
        RoundView::start(
            self.questions[self.cursor as int].correct_option,
            self.config.first_bonus,
            self.config.second_bonus,
        )
    }

    /// The pause between rounds.
    pub open spec fn pause(self) -> Seq<ActionView> {
        seq![ActionView::Pause { seconds: self.config.pause_seconds }]
    }

    /// Nothing happens.
    pub open spec fn stay(self) -> Step {
        Step { state: self, actions: Seq::empty() }
    }

    /// What a join request under `name` from `from` does. Outside the lobby,
    /// and from an identity that has joined, nothing. Otherwise `from` becomes
    /// a participant with no points and is told how many there are; with the
    /// second one the match starts: both get the start notice and the first
    /// question.
    pub open spec fn joined(self, from: Address, name: Seq<char>) -> Step {
        if self.phase != Phase::Lobby || self.registered(from) {
            self.stay()
        } else {
            let players = self.players.push(PlayerView { addr: from, name, score: 0 });
            let welcome = seq![
                ActionView::Send {
                    to: from,
                    message: OutboundView::Status { count: players.len() },
                },
            ];
            if players.len() == 2 {
                let seated = SessionView { players, phase: Phase::Playing, ..self };
                let state = SessionView { round: Some(seated.opening_round()), ..seated };
                Step {
                    state,
                    actions: welcome + state.to_both(OutboundView::MatchStart) + state.ask(),
                }
            } else {
                Step { state: SessionView { players, ..self }, actions: welcome }
            }
        }
    }

    /// The scoreboard after a round that ended in `outcome`.
    pub open spec fn scoreboard(self, outcome: Outcome) -> OutboundView {
        OutboundView::Scoreboard {
            first_name: self.players[0].name,
            first_score: self.players[0].score,
            second_name: self.players[1].name,
            second_score: self.players[1].score,
            winner: match outcome.winner {
                Some(who) => Some(self.players[self.seat(who)].name),
                None => None,
            },
            points: outcome.points as int,
        }
    }

    /// What the end of a round with `outcome` does. The winner, if any, gets
    /// the points, both get the scoreboard, and the cursor moves on. Then, if
    /// a participant has reached the winning score, both are told who leads
    /// and are invited to vote; else, if no question is left, both are told so
    /// and are invited to vote; else, after a pause, both get the next
    /// question.
    pub open spec fn round_closed(self, outcome: Outcome) -> Step {
        let tallied = SessionView {
            players: scored(self.players, outcome),
            cursor: self.cursor + 1,
            ..self
        };
        let board = tallied.to_both(tallied.scoreboard(outcome));
        let voting = SessionView {
            phase: Phase::RestartVote,
            round: None,
            yes_votes: Seq::empty(),
            ..tallied
        };
        if reached(tallied.players, self.config.win_threshold) {
            Step {
                state: voting,
                actions: board + tallied.to_both(
                    OutboundView::GameOverWinner {
                        name: leader(tallied.players).name,
                        score: leader(tallied.players).score,
                    },
                ) + tallied.to_both(OutboundView::RestartInvite),
            }
        } else if tallied.cursor >= tallied.questions.len() {
            Step {
                state: voting,
                actions: board + tallied.to_both(OutboundView::GameOverExhausted)
                    + tallied.to_both(OutboundView::RestartInvite),
            }
        } else {
            Step {
                state: SessionView { round: Some(tallied.opening_round()), ..tallied },
                actions: board + tallied.pause() + tallied.ask(),
            }
        }
    }

    /// What the answer `label` from `from` does. Outside a round, and from an
    /// identity that is no participant, nothing. Otherwise the round takes
    /// the answer: an answer that it ignores changes nothing; after a wrong
    /// first answer its sender is told so and the opponent is offered the
    /// second bonus; an answer that finishes the round ends it.
    pub open spec fn answered(self, from: Address, label: char) -> Step {
        if self.phase != Phase::Playing || !self.registered(from) || self.round is None {
            self.stay()
        } else {
            let round = self.round->0;
            match round.reply(from, label) {
                Reply::Ignored => self.stay(),
                Reply::FirstWrong => Step {
                    state: SessionView { round: Some(round.after(from, label)), ..self },
                    actions: seq![
                        ActionView::Send { to: from, message: OutboundView::WrongAnswer },
                        ActionView::Send {
                            to: self.opponent(from),
                            message: OutboundView::SecondChance {
                                points: self.config.second_bonus as int,
                            },
                        },
                    ],
                },
                Reply::Finished(outcome) => self.round_closed(outcome),
            }
        }
    }

    /// Whether a vote for playing again from `from` is the second one: the
    /// vote is open, `from` is a participant that has not voted, and the
    /// opponent has.
    pub open spec fn completes_restart(self, from: Address) -> bool {
        &&& self.phase == Phase::RestartVote
        &&& self.registered(from)
        &&& !self.yes_votes.contains(from)
        &&& self.yes_votes.len() > 0
    }

    /// The match started over with the questions in the order `reshuffled`:
    /// the cursor at the first question, all scores at zero, a round open.
    pub open spec fn restarted(self, reshuffled: Seq<QuestionView>) -> SessionView {
        let reset = SessionView {
            players: cleared(self.players),
            questions: reshuffled,
            cursor: 0,
            phase: Phase::Playing,
            yes_votes: Seq::empty(),
            ..self
        };
        SessionView { round: Some(reset.opening_round()), ..reset }
    }

    /// What a vote from `from` does, where `reshuffled` is the order of the
    /// questions for a new match. Outside the vote, and from an identity
    /// that is no participant, nothing. A vote against ends the session. A
    /// vote for playing again counts once for each participant; with the
    /// second one the match starts over and, after a pause, both get the
    /// first question.
    pub open spec fn voted(self, from: Address, yes: bool, reshuffled: Seq<QuestionView>) -> Step {
        if self.phase != Phase::RestartVote || !self.registered(from) {
            self.stay()
        } else if !yes {
            Step {
                state: SessionView { phase: Phase::Terminated, ..self },
                actions: Seq::empty(),
            }
        } else if self.yes_votes.contains(from) {
            self.stay()
        } else if self.yes_votes.len() == 0 {
            Step { state: SessionView { yes_votes: seq![from], ..self }, actions: Seq::empty() }
        } else {
            let state = self.restarted(reshuffled);
            Step { state, actions: state.pause() + state.ask() }
        }
    }

    /// What the message `message` from `from` does, where `reshuffled` is
    /// the order of the questions for a new match.
    pub open spec fn step(
        self,
        from: Address,
        message: InboundView,
        reshuffled: Seq<QuestionView>,
    ) -> Step {
        match message {
            InboundView::Join { name } => self.joined(from, name),
            InboundView::Answer { label } => self.answered(from, label),
            InboundView::RestartVote { yes } => self.voted(from, yes, reshuffled),
            InboundView::Unrecognized => self.stay(),
        }
    }

    /// The session after the transport failed: ended, whatever the phase.
    pub open spec fn failed(self) -> SessionView {
        SessionView { phase: Phase::Terminated, round: None, ..self }
    }

    /// Whether the score of participant `i` is one a participant can have
    /// when a round opens: zero, or positive and below the winning score.
    pub open spec fn score_in_play(self, i: int) -> bool {
        self.players[i].score == 0 || 0 < self.players[i].score < self.config.win_threshold
    }

    /// Whether `round` is a round this session can have open: not finished,
    /// on the question under the cursor, with the bonuses of the rules, and
    /// answered by participants only.
    pub open spec fn round_fits(self, round: RoundView) -> bool {
        &&& round.wf()
        &&& !round.finished()
        &&& round.correct == self.questions[self.cursor as int].correct_option
        &&& round.first_bonus == self.config.first_bonus
        &&& round.second_bonus == self.config.second_bonus
        &&& (round.responded.len() > 0 ==> self.registered(round.responded[0]))
    }

    /// The states a session can be in. The rules are valid, there is a
    /// question, the cursor is not behind the end, there are at most two
    /// participants, with distinct identities and scores that are not
    /// negative. In the lobby fewer than two have joined and nothing has been
    /// played. While playing there are two, a fitting round is open on a
    /// question, and no score has reached the winning score. During the vote
    /// there are two, and at most one vote for playing again, from one of them.
    pub open spec fn wf(self) -> bool {
        &&& self.config.valid()
        &&& self.questions.len() > 0
        &&& self.cursor <= self.questions.len()
        &&& self.players.len() <= 2
        &&& (self.players.len() == 2 ==> self.players[0].addr != self.players[1].addr)
        &&& (self.players.len() > 0 ==> 0 <= self.players[0].score <= i32::MAX)
        &&& (self.players.len() > 1 ==> 0 <= self.players[1].score <= i32::MAX)
        &&& match self.phase {
            Phase::Lobby => {
                &&& self.players.len() < 2
                &&& (self.players.len() > 0 ==> self.players[0].score == 0)
                &&& self.cursor == 0
                &&& self.round is None
                &&& self.yes_votes.len() == 0
            },
            Phase::Playing => {
                &&& self.players.len() == 2
                &&& self.cursor < self.questions.len()
                &&& self.round is Some
                &&& self.round_fits(self.round->0)
                &&& self.score_in_play(0)
                &&& self.score_in_play(1)
                &&& self.yes_votes.len() == 0
            },
            Phase::RestartVote => {
                &&& self.players.len() == 2
                &&& self.round is None
                &&& self.yes_votes.len() <= 1
                &&& (self.yes_votes.len() == 1 ==> self.registered(self.yes_votes[0]))
            },
            Phase::Terminated => self.round is None,
        }
    }
}

/// A match session.
pub struct Session {
    config: Config,
    phase: Phase,
    players: Vec<Player>,
    questions: Vec<Question>,
    cursor: usize,
    /// The open round while playing; a round that nothing reads otherwise.
    round: Round,
    yes_votes: Vec<Address>,
}

impl View for Session {
    type V = SessionView;

    closed spec fn view(&self) -> SessionView {
        SessionView {
            config: self.config,
            phase: self.phase,
            players: player_views(self.players@),
            questions: question_views(self.questions@),
            cursor: self.cursor as nat,
            round: if self.phase == Phase::Playing {
                Some(self.round@)
            } else {
                None
            },
            yes_votes: self.yes_votes@,
        }
    }
}

impl Session {
    /// Whether the session is in one of the states a session can be in.
    pub open spec fn wf(&self) -> bool {
        self@.wf()
    }

    /// Whether a round that is finished can be closed with `outcome`: the
    /// session is as while playing, but for the round, and `outcome` is one
    /// that a round of this session gives.
    spec fn closable(&self, outcome: Outcome) -> bool {
        let s = self@;
        &&& (SessionView { round: Some(s.opening_round()), ..s }).wf()
        &&& match outcome.winner {
            Some(who) => s.registered(who) && (outcome.points == s.config.first_bonus
                || outcome.points == s.config.second_bonus),
            None => outcome.points == 0,
        }
    }

    /// A session on `questions` under the rules `config`, before anybody
    /// joined; none where the rules are not valid or there is no question.
    pub fn new(config: Config, questions: Vec<Question>) -> (out: Option<Session>)
        ensures
            out is Some <==> config.valid() && questions@.len() > 0,
            out is Some ==> out->0@ == SessionView::start(config, question_views(questions@))
                && out->0.wf(),
    {
        if !config.is_valid() || questions.len() == 0 {
            return None;
        }
        let session = Session {
            config,
            phase: Phase::Lobby,
            players: Vec::new(),
            questions,
            cursor: 0,
            round: Round::new(' ', config.first_bonus, config.second_bonus),
            yes_votes: Vec::new(),
        };
        assert(session@.players =~= Seq::<PlayerView>::empty());
        Some(session)
    }

    /// The place of the participant `who`, if `who` is one.
    fn seat_of(&self, who: Address) -> (out: Option<usize>)
        requires
            self@.players.len() <= 2,
        ensures
            out is Some <==> self@.registered(who),
            out is Some ==> out->0 == self@.seat(who) && out->0 < self@.players.len(),
    {
        if self.players.len() > 0 && self.players[0].addr == who {
            Some(0)
        } else if self.players.len() > 1 && self.players[1].addr == who {
            Some(1)
        } else {
            None
        }
    }

    /// Adds to `actions` the sending of `message` to both participants.
    fn send_both(&self, actions: &mut Vec<Action>, message: Outbound)
        requires
            self@.players.len() == 2,
        ensures
            action_views(final(actions)@) == action_views(old(actions)@) + self@.to_both(
                message@,
            ),
    {
        let copy = message.clone();
        actions.push(Action::Send { to: self.players[0].addr, message: copy });
        actions.push(Action::Send { to: self.players[1].addr, message });
        assert(action_views(actions@) =~= action_views(old(actions)@) + self@.to_both(message@));
    }

    /// The question under the cursor as a message.
    fn question_message(&self) -> (message: Outbound)
        requires
            self@.cursor < self@.questions.len(),
        ensures
            message@ == question_notice(self@.questions[self@.cursor as int]),
    {
        let question = &self.questions[self.cursor];
        Outbound::Question {
            prompt: question.text.clone(),
            choices: clone_strings(&question.options),
        }
    }

    /// Processes a join request under `name` that arrived from `from`.
    pub fn join(&mut self, from: Address, name: String) -> (actions: Vec<Action>)
        requires
            old(self).wf(),
        ensures
            final(self).wf(),
            final(self)@ == old(self)@.joined(from, name@).state,
            action_views(actions@) == old(self)@.joined(from, name@).actions,
    {
        let mut actions: Vec<Action> = Vec::new();
        assert(action_views(actions@) =~= Seq::<ActionView>::empty());
        if self.phase != Phase::Lobby {
            return actions;
        }
        if self.seat_of(from).is_some() {
            return actions;
        }
        let ghost before = self@;
        self.players.push(Player { addr: from, name, score: 0 });
        assert(self@.players =~= before.players.push(
            PlayerView { addr: from, name: name@, score: 0 },
        ));
        actions.push(
            Action::Send { to: from, message: Outbound::Status { count: self.players.len() } },
        );
        if self.players.len() == 2 {
            self.phase = Phase::Playing;
            self.round = Round::new(
                self.questions[self.cursor].correct_option,
                self.config.first_bonus,
                self.config.second_bonus,
            );
            self.send_both(&mut actions, Outbound::MatchStart);
            let question = self.question_message();
            self.send_both(&mut actions, question);
        }
        assert(action_views(actions@) =~= before.joined(from, name@).actions);
        actions
    }

    /// Closes a finished round with `outcome`.
    fn close_round(&mut self, outcome: Outcome) -> (actions: Vec<Action>)
        requires
            old(self).closable(outcome),
        ensures
            final(self).wf(),
            final(self)@ == old(self)@.round_closed(outcome).state,
            action_views(actions@) == old(self)@.round_closed(outcome).actions,
    {
        let ghost before = self@;
        let mut actions: Vec<Action> = Vec::new();
        let mut winner_name: Option<String> = None;
        match outcome.winner {
            Some(who) => {
                let seat: usize = if self.players[0].addr == who {
                    0
                } else {
                    1
                };
                let mut winner = self.players[seat].clone();
                winner.score = winner.score + outcome.points;
                winner_name = Some(winner.name.clone());
                self.players.set(seat, winner);
            },
            None => {},
        }
        assert(self@.players =~= scored(before.players, outcome));
        let total: usize = self.questions.len();
        assert(before.cursor < before.questions.len() == total);
        self.cursor = self.cursor + 1;
        let ghost tallied = self@;
        let board = Outbound::Scoreboard {
            first_name: self.players[0].name.clone(),
            first_score: self.players[0].score,
            second_name: self.players[1].name.clone(),
            second_score: self.players[1].score,
            winner: winner_name,
            points: outcome.points,
        };
        assert(board@ == tallied.scoreboard(outcome));
        self.send_both(&mut actions, board);
        let threshold = self.config.win_threshold;
        if self.players[0].score >= threshold || self.players[1].score >= threshold {
            self.phase = Phase::RestartVote;
            let lead: usize = if self.players[0].score >= self.players[1].score {
                0
            } else {
                1
            };
            let notice = Outbound::GameOverWinner {
                name: self.players[lead].name.clone(),
                score: self.players[lead].score,
            };
            self.send_both(&mut actions, notice);
            self.send_both(&mut actions, Outbound::RestartInvite);
        } else if self.cursor >= self.questions.len() {
            self.phase = Phase::RestartVote;
            self.send_both(&mut actions, Outbound::GameOverExhausted);
            self.send_both(&mut actions, Outbound::RestartInvite);
        } else {
            self.round = Round::new(
                self.questions[self.cursor].correct_option,
                self.config.first_bonus,
                self.config.second_bonus,
            );
            actions.push(Action::Pause { seconds: self.config.pause_seconds });
            let question = self.question_message();
            self.send_both(&mut actions, question);
        }
        assert(self@.yes_votes =~= Seq::<Address>::empty());
        assert(action_views(actions@) =~= before.round_closed(outcome).actions);
        actions
    }

    /// Processes the answer `label` that arrived from `from`.
    pub fn answer(&mut self, from: Address, label: char) -> (actions: Vec<Action>)
        requires
            old(self).wf(),
        ensures
            final(self).wf(),
            final(self)@ == old(self)@.answered(from, label).state,
            action_views(actions@) == old(self)@.answered(from, label).actions,
    {
        let ghost before = self@;
        let mut actions: Vec<Action> = Vec::new();
        assert(action_views(actions@) =~= Seq::<ActionView>::empty());
        if self.phase != Phase::Playing {
            return actions;
        }
        let seat: usize = match self.seat_of(from) {
            Some(seat) => seat,
            None => {
                return actions;
            },
        };
        proof {
            lemma_after_keeps_shape(before.round->0, from, label);
        }
        let reply = self.round.answer(from, label);
        match reply {
            Reply::Ignored => {},
            Reply::FirstWrong => {
                actions.push(Action::Send { to: from, message: Outbound::WrongAnswer });
                actions.push(
                    Action::Send {
                        to: self.players[1 - seat].addr,
                        message: Outbound::SecondChance { points: self.config.second_bonus },
                    },
                );
                assert(action_views(actions@) =~= before.answered(from, label).actions);
            },
            Reply::Finished(outcome) => {
                actions = self.close_round(outcome);
            },
        }
        actions
    }

    /// Whether a vote for playing again from `from` would be the second one.
    pub fn completes_restart(&self, from: Address) -> (r: bool)
        requires
            self.wf(),
        ensures
            r == self@.completes_restart(from),
    {
        self.phase == Phase::RestartVote && self.seat_of(from).is_some() && self.yes_votes.len()
            > 0 && self.yes_votes[0] != from
    }

    /// Processes a vote that arrived from `from`, with `reshuffled` as the
    /// questions for a new match. Where the vote starts no new match,
    /// `reshuffled` is not looked at.
    pub fn vote_with(&mut self, from: Address, yes: bool, reshuffled: Vec<Question>) -> (actions:
        Vec<Action>)
        requires
            old(self).wf(),
            yes && old(self)@.completes_restart(from) ==> same_questions(
                question_views(reshuffled@),
                old(self)@.questions,
            ),
        ensures
            final(self).wf(),
            final(self)@ == old(self)@.voted(from, yes, question_views(reshuffled@)).state,
            action_views(actions@) == old(self)@.voted(
                from,
                yes,
                question_views(reshuffled@),
            ).actions,
    {
        let ghost before = self@;
        let mut actions: Vec<Action> = Vec::new();
        assert(action_views(actions@) =~= Seq::<ActionView>::empty());
        if self.phase != Phase::RestartVote {
            return actions;
        }
        if self.seat_of(from).is_none() {
            return actions;
        }
        if !yes {
            self.phase = Phase::Terminated;
            return actions;
        }
        if self.yes_votes.len() == 0 {
            self.yes_votes.push(from);
            assert(self@.yes_votes =~= seq![from]);
            return actions;
        }
        if self.yes_votes[0] == from {
            return actions;
        }
        proof {
            question_views(reshuffled@).to_multiset_ensures();
            before.questions.to_multiset_ensures();
        }
        let mut first = self.players[0].clone();
        first.score = 0;
        self.players.set(0, first);
        let mut second = self.players[1].clone();
        second.score = 0;
        self.players.set(1, second);
        assert(self@.players =~= cleared(before.players));
        self.questions = reshuffled;
        self.cursor = 0;
        self.yes_votes = Vec::new();
        self.phase = Phase::Playing;
        self.round = Round::new(
            self.questions[0].correct_option,
            self.config.first_bonus,
            self.config.second_bonus,
        );
        actions.push(Action::Pause { seconds: self.config.pause_seconds });
        let question = self.question_message();
        self.send_both(&mut actions, question);
        assert(self@.yes_votes =~= Seq::<Address>::empty());
        assert(action_views(actions@) =~= before.voted(
            from,
            yes,
            question_views(reshuffled@),
        ).actions);
        actions
    }

    /// Processes the message `message` that arrived from `from`. Where a
    /// vote starts a new match, the questions are put in a random order.
    pub fn handle(&mut self, from: Address, message: Inbound) -> (actions: Vec<Action>)
        requires
            old(self).wf(),
        ensures
            final(self).wf(),
            same_questions(final(self)@.questions, old(self)@.questions),
            final(self)@ == old(self)@.step(from, message@, final(self)@.questions).state,
            action_views(actions@) == old(self)@.step(
                from,
                message@,
                final(self)@.questions,
            ).actions,
    {
        match message {
            Inbound::Join { name } => self.join(from, name),
            Inbound::Answer { label } => self.answer(from, label),
            Inbound::RestartVote { yes } => {
                if yes && self.completes_restart(from) {
                    let mut reshuffled = clone_questions(&self.questions);
                    reshuffle_questions(&mut reshuffled);
                    self.vote_with(from, yes, reshuffled)
                } else {
                    self.vote_with(from, yes, Vec::new())
                }
            },
            Inbound::Unrecognized => {
                let actions: Vec<Action> = Vec::new();
                assert(action_views(actions@) =~= Seq::<ActionView>::empty());
                actions
            },
        }
    }

    /// Processes the datagram text `text` that arrived from `from`.
    pub fn receive(&mut self, from: Address, text: &str) -> (actions: Vec<Action>)
        requires
            old(self).wf(),
        ensures
            final(self).wf(),
            same_questions(final(self)@.questions, old(self)@.questions),
            final(self)@ == old(self)@.step(from, decoded(text@), final(self)@.questions).state,
            action_views(actions@) == old(self)@.step(
                from,
                decoded(text@),
                final(self)@.questions,
            ).actions,
    {
        self.handle(from, decode(text))
    }

    /// The phase the session is in.
    pub fn phase(&self) -> (phase: Phase)
        ensures
            phase == self@.phase,
    {
        self.phase
    }

    /// The rules of the session.
    pub fn config(&self) -> (config: Config)
        ensures
            config == self@.config,
    {
        self.config
    }

    /// The position of the question of the current round.
    pub fn cursor(&self) -> (cursor: usize)
        ensures
            cursor == self@.cursor,
    {
        self.cursor
    }

    /// The participants, in the order in which they joined.
    pub fn players(&self) -> (players: &Vec<Player>)
        ensures
            player_views(players@) == self@.players,
    {
        &self.players
    }

    /// The questions, in the order in which the match asks them.
    pub fn questions(&self) -> (questions: &Vec<Question>)
        ensures
            question_views(questions@) == self@.questions,
    {
        &self.questions
    }

    /// The open round, while playing.
    pub fn round(&self) -> (round: Option<&Round>)
        ensures
            match round {
                Some(open) => self@.round == Some(open@),
                None => self@.round is None,
            },
    {
        if self.phase == Phase::Playing {
            Some(&self.round)
        } else {
            None
        }
    }

    /// Whether the session has ended.
    pub fn is_terminated(&self) -> (r: bool)
        ensures
            r == (self@.phase == Phase::Terminated),
    {
        self.phase == Phase::Terminated
    }

    /// Ends the session after the transport failed.
    pub fn fail(&mut self)
        requires
            old(self).wf(),
        ensures
            final(self).wf(),
            final(self)@ == old(self)@.failed(),
    {
        self.phase = Phase::Terminated;
    }
}

} // verus!
