//! What holds of every session, whatever arrives: proved over the model of
//! the session in which its operations are stated.

use crate::codec::InboundView;
use crate::models::{Address, QuestionView};
use crate::quiz_data::same_questions;
use crate::round::lemma_after_keeps_shape;
use crate::session::{reached, ActionView, Phase, SessionView};
use vstd::prelude::*;

verus! {

/// Whether `actions` tell anybody that a participant has won the match.
pub open spec fn names_winner(actions: Seq<ActionView>) -> bool {
    exists|i: int|
        0 <= i < actions.len() && (#[trigger] actions[i]) is Send
            && actions[i]->message is GameOverWinner
}

/// Whether the message `message` from `from` finishes the open round of
/// `session`.
pub open spec fn completes_round(session: SessionView, from: Address, message: InboundView) -> bool {
    &&& session.phase == Phase::Playing
    &&& message is Answer
    &&& session.registered(from)
    &&& session.round is Some
    &&& session.round->0.reply(from, message->label) is Finished
}

/// A message takes a session from one of the states a session can be in to
/// another: the cursor stays within the questions, there are never more than
/// two participants, and their identities stay distinct.
pub proof fn lemma_step_keeps_wf(
    session: SessionView,
    from: Address,
    message: InboundView,
    reshuffled: Seq<QuestionView>,
)
    requires
        session.wf(),
        same_questions(reshuffled, session.questions),
    ensures
        session.step(from, message, reshuffled).state.wf(),
{
    reshuffled.to_multiset_ensures();
    session.questions.to_multiset_ensures();
    if session.phase == Phase::Playing && message is Answer {
        lemma_after_keeps_shape(session.round->0, from, message->label);
    }
}

/// No message removes a participant, changes an identity or a name, or
/// touches the rules.
pub proof fn lemma_participants_stay(
    session: SessionView,
    from: Address,
    message: InboundView,
    reshuffled: Seq<QuestionView>,
)
    requires
        session.wf(),
    ensures
        ({
            let next = session.step(from, message, reshuffled).state;
            &&& next.config == session.config
            &&& session.players.len() <= next.players.len() <= 2
            &&& forall|i: int|
                0 <= i < session.players.len() ==> (#[trigger] next.players[i]).addr
                    == session.players[i].addr && next.players[i].name == session.players[i].name
        }),
{
}

/// In the lobby the match starts exactly with the join request of the
/// second distinct identity. A join request from a new identity adds one
/// participant; anything else leaves the session as it is.
pub proof fn lemma_lobby_fills_with_second_identity(
    session: SessionView,
    from: Address,
    message: InboundView,
    reshuffled: Seq<QuestionView>,
)
    requires
        session.wf(),
        session.phase == Phase::Lobby,
    ensures
        ({
            let next = session.step(from, message, reshuffled).state;
            let newcomer = message is Join && !session.registered(from);
            &&& next.phase == Phase::Playing <==> newcomer && session.players.len() == 1
            &&& next.phase == Phase::Playing || next.phase == Phase::Lobby
            &&& newcomer ==> next.players.len() == session.players.len() + 1
            &&& !newcomer ==> next == session
        }),
{
}

/// A join request from an identity that has joined changes nothing, in
/// any phase; nor does any join request once two have joined.
pub proof fn lemma_repeated_join_ignored(session: SessionView, from: Address, name: Seq<char>)
    requires
        session.wf(),
        session.registered(from) || session.players.len() == 2,
    ensures
        session.joined(from, name) == session.stay(),
{
}

/// Outside the lobby, whatever arrives from an identity that is no
/// participant changes nothing.
pub proof fn lemma_stranger_ignored(
    session: SessionView,
    from: Address,
    message: InboundView,
    reshuffled: Seq<QuestionView>,
)
    requires
        session.wf(),
        session.phase != Phase::Lobby,
        !session.registered(from),
    ensures
        session.step(from, message, reshuffled) == session.stay(),
{
}

/// An answer from a participant that has already answered in the open
/// round changes nothing in the session.
pub proof fn lemma_repeated_answer_ignored(session: SessionView, from: Address, label: char)
    requires
        session.wf(),
        session.phase == Phase::Playing,
        session.round->0.responded.contains(from),
    ensures
        session.answered(from, label) == session.stay(),
{
}

/// While playing, a participant is told that the match is won exactly when
/// a round has just been finished and a score has reached the winning
/// score. A message that finishes no round leaves phase, scores and cursor
/// as they are; one that finishes a round moves the cursor on by one, and
/// the match is over exactly if a score has reached the winning score or
/// no question is left.
pub proof fn lemma_game_over_exactly_at_threshold(
    session: SessionView,
    from: Address,
    message: InboundView,
    reshuffled: Seq<QuestionView>,
)
    requires
        session.wf(),
        session.phase == Phase::Playing,
    ensures
        ({
            let step = session.step(from, message, reshuffled);
            let completed = completes_round(session, from, message);
            let won = reached(step.state.players, session.config.win_threshold);
            &&& names_winner(step.actions) <==> completed && won
            &&& !completed ==> step.state.phase == Phase::Playing && step.state.players
                == session.players && step.state.cursor == session.cursor
            &&& completed ==> step.state.cursor == session.cursor + 1
            &&& completed ==> (step.state.phase == Phase::RestartVote <==> won || step.state.cursor
                == session.questions.len())
            &&& completed ==> step.state.phase == Phase::RestartVote || step.state.phase
                == Phase::Playing
        }),
{
    let step = session.step(from, message, reshuffled);
    let completed = completes_round(session, from, message);
    let won = reached(step.state.players, session.config.win_threshold);
    if completed {
        let outcome = session.round->0.reply(from, message->label)->Finished_0;
        assert(step == session.round_closed(outcome));
        if won {
            assert(step.actions[2] is Send && step.actions[2]->message is GameOverWinner);
        } else {
            assert forall|i: int| 0 <= i < step.actions.len() implies !((
            #[trigger] step.actions[i]) is Send && step.actions[i]->message is GameOverWinner) by {
                assert(step.actions.len() == 5 || step.actions.len() == 6);
            }
        }
    } else {
        assert forall|i: int| 0 <= i < step.actions.len() implies !((
        #[trigger] step.actions[i]) is Send && step.actions[i]->message is GameOverWinner) by {
            assert(step.actions.len() <= 2);
        }
    }
}

/// During the vote the match starts over exactly with a vote for playing
/// again from a participant whose opponent has voted for it before: then
/// the cursor is at the first question and the questions are in the new
/// order. Any vote against from a participant ends the session, before or
/// after a vote for playing again. Whatever starts no new match leaves the
/// questions, the cursor and the scores as they are.
pub proof fn lemma_restart_needs_both_votes(
    session: SessionView,
    from: Address,
    message: InboundView,
    reshuffled: Seq<QuestionView>,
)
    requires
        session.wf(),
        session.phase == Phase::RestartVote,
    ensures
        ({
            let step = session.step(from, message, reshuffled);
            let next = step.state;
            let second_yes = message == (InboundView::RestartVote { yes: true })
                && session.registered(from) && session.yes_votes == seq![session.opponent(from)];
            &&& next.phase == Phase::Playing <==> second_yes
            &&& second_yes ==> next.cursor == 0 && next.questions == reshuffled
            &&& !second_yes ==> next.cursor == session.cursor && next.questions
                == session.questions && next.players == session.players
            &&& message == (InboundView::RestartVote { yes: false }) && session.registered(from)
                ==> next.phase == Phase::Terminated
            &&& next.phase == Phase::Terminated ==> message == (InboundView::RestartVote {
                yes: false,
            }) && session.registered(from)
        }),
{
    if session.yes_votes.len() == 1 {
        assert(session.yes_votes =~= seq![session.yes_votes[0]]);
    }
}

/// A session that has ended stays as it is, whatever arrives.
pub proof fn lemma_terminated_is_final(
    session: SessionView,
    from: Address,
    message: InboundView,
    reshuffled: Seq<QuestionView>,
)
    requires
        session.phase == Phase::Terminated,
    ensures
        session.step(from, message, reshuffled) == session.stay(),
{
}

} // verus!
