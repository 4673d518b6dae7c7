//! The round engine: one question, answered by up to two distinct
//! identities, scored by the order in which their answers arrive.

use crate::models::Address;
use vstd::prelude::*;

verus! {

/// How a round ended: who won, if anybody, and the points awarded.
#[derive(Clone, Copy, Debug, PartialEq, Eq)]
pub struct Outcome {
    pub winner: Option<Address>,
    pub points: i32,
}

/// What the engine did with one answer.
#[derive(Clone, Copy, Debug, PartialEq, Eq)]
pub enum Reply {
    /// The answer changed nothing: its sender had answered before in this
    /// round, or the round was already finished.
    Ignored,
    /// The first answer of the round, and a wrong one: the round stays open
    /// for the other participant.
    FirstWrong,
    /// The answer finished the round with this outcome.
    Finished(Outcome),
}

/// The state of a round, as mathematical values.
pub ghost struct RoundView {
    /// The label of the right choice.
    pub correct: char,
    /// The points for a right first answer.
    pub first_bonus: i32,
    /// The points for a right answer after a wrong first one.
    pub second_bonus: i32,
    /// The identities whose answers were processed, in order of arrival.
    pub responded: Seq<Address>,
    /// Whether the first answer was right; `None` before any answer.
    pub first_was_correct: Option<bool>,
    /// The outcome, once the round is finished.
    pub outcome: Option<Outcome>,
}

impl RoundView {
    /// The round before any answer.
    pub open spec fn start(correct: char, first_bonus: i32, second_bonus: i32) -> RoundView {
        RoundView {
            correct,
            first_bonus,
            second_bonus,
            responded: Seq::empty(),
            first_was_correct: None,
            outcome: None,
        }
    }

    /// The win of `who` for `points`.
    pub open spec fn win(who: Address, points: i32) -> Outcome {
        Outcome { winner: Some(who), points }
    }

    /// The outcome of a round that nobody won.
    pub open spec fn draw() -> Outcome {
        Outcome { winner: None, points: 0 }
    }

    /// The states a round can be in: nobody answered yet; one identity
    /// answered wrongly and the round is open; one identity answered rightly
    /// and won the first bonus; or two distinct identities answered, the first
    /// wrongly, and the second won the second bonus or nobody won.
    pub open spec fn wf(self) -> bool {
        if self.responded.len() == 0 {
            self.first_was_correct is None && self.outcome is None
        } else if self.responded.len() == 1 {
            ||| self.first_was_correct == Some(false) && self.outcome is None
            ||| self.first_was_correct == Some(true) && self.outcome == Some(
                Self::win(self.responded[0], self.first_bonus),
            )
        } else {
            &&& self.responded.len() == 2
            &&& self.responded[0] != self.responded[1]
            &&& self.first_was_correct == Some(false)
            &&& (self.outcome == Some(Self::win(self.responded[1], self.second_bonus))
                || self.outcome == Some(Self::draw()))
        }
    }

    /// The first identity whose answer was processed.
    pub open spec fn first_responder(self) -> Option<Address> {
        if self.responded.len() > 0 {
            Some(self.responded[0])
        } else {
            None
        }
    }

    /// Whether the round has its outcome.
    pub open spec fn finished(self) -> bool {
        self.outcome is Some
    }

    /// Whether an answer of `who` is processed: the round is open and `who`
    /// has not answered in it.
    pub open spec fn accepts(self, who: Address) -> bool {
        !self.finished() && !self.responded.contains(who)
    }

    /// The round after the answer `label` of `who` has arrived.
    pub open spec fn after(self, who: Address, label: char) -> RoundView {
        if !self.accepts(who) {
            self
        } else if self.responded.len() == 0 {
            if label == self.correct {
                RoundView {
                    responded: seq![who],
                    first_was_correct: Some(true),
                    outcome: Some(Self::win(who, self.first_bonus)),
                    ..self
                }
            } else {
                RoundView { responded: seq![who], first_was_correct: Some(false), ..self }
            }
        } else if self.responded.len() == 1 && self.first_was_correct == Some(false) {
            RoundView {
                responded: self.responded.push(who),
                outcome: Some(
                    if label == self.correct {
                        Self::win(who, self.second_bonus)
                    } else {
                        Self::draw()
                    },
                ),
                ..self
            }
        } else {
            self
        }
    }

    /// What the engine reports of the answer `label` of `who`.
    pub open spec fn reply(self, who: Address, label: char) -> Reply {
        let next = self.after(who, label);
        if next == self {
            Reply::Ignored
        } else if next.outcome is Some {
            Reply::Finished(next.outcome->0)
        } else {
            Reply::FirstWrong
        }
    }

    /// The round after the answers of `answers` have arrived, in order.
    pub open spec fn after_all(self, answers: Seq<(Address, char)>) -> RoundView
        decreases answers.len(),
    {
        if answers.len() == 0 {
            self
        } else {
            self.after(answers[0].0, answers[0].1).after_all(answers.drop_first())
        }
    }
}

/// An answer leaves a round in one of the states a round can be in, with
/// every identity that had answered still there, in the same place.
pub proof fn lemma_after_keeps_shape(round: RoundView, who: Address, label: char)
    requires
        round.wf(),
    ensures
        round.after(who, label).wf(),
        round.responded.is_prefix_of(round.after(who, label).responded),
        round.after(who, label).correct == round.correct,
        round.after(who, label).first_bonus == round.first_bonus,
        round.after(who, label).second_bonus == round.second_bonus,
{
    let next = round.after(who, label);
    if next != round {
        if round.responded.len() == 0 {
            assert(next.responded =~= seq![who]);
        } else {
            assert(round.responded =~= next.responded.subrange(0, 1));
        }
    }
}

/// An answer from an identity that has already answered in the round
/// changes nothing: not who has responded, not the outcome, nothing else.
pub proof fn lemma_duplicate_answer_ignored(round: RoundView, who: Address, label: char)
    requires
        round.responded.contains(who),
    ensures
        round.after(who, label) == round,
        round.reply(who, label) == Reply::Ignored,
{
}

/// A finished round stays as it is, whatever arrives later.
pub proof fn lemma_finished_round_is_final(round: RoundView, later: Seq<(Address, char)>)
    requires
        round.finished(),
    ensures
        round.after_all(later) == round,
    decreases later.len(),
{
    if later.len() > 0 {
        lemma_finished_round_is_final(round, later.drop_first());
    }
}

/// If the first identity to answer chooses the right label, it is the sole
/// winner with the first bonus, whatever arrives later in the round from
/// the same or another identity.
pub proof fn lemma_first_correct_wins(
    round: RoundView,
    who: Address,
    label: char,
    later: Seq<(Address, char)>,
)
    requires
        round.wf(),
        round.responded.len() == 0,
        label == round.correct,
    ensures
        round.after(who, label).after_all(later).outcome == Some(
            RoundView::win(who, round.first_bonus),
        ),
        round.after(who, label).after_all(later).responded == seq![who],
{
    lemma_finished_round_is_final(round.after(who, label), later);
}

/// While the round is open after a wrong first answer, further answers of
/// the same identity change nothing.
pub proof fn lemma_repeats_ignored(round: RoundView, who: Address, repeats: Seq<(Address, char)>)
    requires
        round.responded.contains(who),
        forall|i: int| 0 <= i < repeats.len() ==> (#[trigger] repeats[i]).0 == who,
    ensures
        round.after_all(repeats) == round,
    decreases repeats.len(),
{
    if repeats.len() > 0 {
        assert(repeats[0].0 == who);
        assert forall|i: int| 0 <= i < repeats.drop_first().len() implies (
        #[trigger] repeats.drop_first()[i]).0 == who by {
            assert(repeats.drop_first()[i] == repeats[i + 1]);
        }
        lemma_repeats_ignored(round, who, repeats.drop_first());
    }
}

/// If the first identity to answer is wrong, the second distinct identity to
/// answer decides the round: with the right label it wins the second bonus,
/// with a wrong one nobody wins and no points are awarded. Repeated answers
/// of the first identity in between, and whatever arrives afterwards, change
/// nothing.
pub proof fn lemma_second_answer_decides(
    round: RoundView,
    first: Address,
    wrong: char,
    repeats: Seq<(Address, char)>,
    second: Address,
    label: char,
    later: Seq<(Address, char)>,
)
    requires
        round.wf(),
        round.responded.len() == 0,
        wrong != round.correct,
        forall|i: int| 0 <= i < repeats.len() ==> (#[trigger] repeats[i]).0 == first,
        second != first,
    ensures
        round.after(first, wrong).after_all(repeats).after(second, label).after_all(
            later,
        ).outcome == Some(
            if label == round.correct {
                RoundView::win(second, round.second_bonus)
            } else {
                RoundView::draw()
            },
        ),
        round.after(first, wrong).after_all(repeats).after(second, label).after_all(
            later,
        ).responded == seq![first, second],
{
    let open = round.after(first, wrong);
    assert(open.responded == seq![first]);
    assert(open.responded[0] == first);
    lemma_repeats_ignored(open, first, repeats);
    let done = open.after(second, label);
    assert(!open.responded.contains(second));
    assert(done.responded =~= seq![first, second]);
    lemma_finished_round_is_final(done, later);
}

/// A round in progress.
pub struct Round {
    correct: char,
    first_bonus: i32,
    second_bonus: i32,
    responded: Vec<Address>,
    first_was_correct: Option<bool>,
    outcome: Option<Outcome>,
}

impl View for Round {
    type V = RoundView;

    closed spec fn view(&self) -> RoundView {
        RoundView {
            correct: self.correct,
            first_bonus: self.first_bonus,
            second_bonus: self.second_bonus,
            responded: self.responded@,
            first_was_correct: self.first_was_correct,
            outcome: self.outcome,
        }
    }
}

impl Round {
    /// A round on a question whose right choice is `correct`, before any
    /// answer.
    pub fn new(correct: char, first_bonus: i32, second_bonus: i32) -> (round: Round)
        ensures
            round@ == RoundView::start(correct, first_bonus, second_bonus),
            round@.wf(),
    {
        Round {
            correct,
            first_bonus,
            second_bonus,
            responded: Vec::new(),
            first_was_correct: None,
            outcome: None,
        }
    }

    /// Whether `who` has answered in this round.
    pub fn has_responded(&self, who: Address) -> (r: bool)
        ensures
            r == self@.responded.contains(who),
    {
        let mut i: usize = 0;
        while i < self.responded.len()
            invariant
                i <= self.responded.len(),
                forall|k: int| 0 <= k < i ==> self.responded@[k] != who,
            decreases self.responded.len() - i,
        {
            if self.responded[i] == who {
                return true;
            }
            i += 1;
        }
        false
    }

    /// Processes the answer `label` that arrived from `who`.
    pub fn answer(&mut self, who: Address, label: char) -> (reply: Reply)
        requires
            old(self)@.wf(),
        ensures
            final(self)@ == old(self)@.after(who, label),
            reply == old(self)@.reply(who, label),
            final(self)@.wf(),
    {
        if self.outcome.is_some() || self.has_responded(who) {
            return Reply::Ignored;
        }
        if self.responded.len() == 0 {
            self.responded.push(who);
            assert(self.responded@ == seq![who]);
            if label == self.correct {
                let outcome = Outcome { winner: Some(who), points: self.first_bonus };
                self.first_was_correct = Some(true);
                self.outcome = Some(outcome);
                Reply::Finished(outcome)
            } else {
                self.first_was_correct = Some(false);
                Reply::FirstWrong
            }
        } else {
            let outcome = if label == self.correct {
                Outcome { winner: Some(who), points: self.second_bonus }
            } else {
                Outcome { winner: None, points: 0 }
            };
            self.responded.push(who);
            self.outcome = Some(outcome);
            Reply::Finished(outcome)
        }
    }

    /// The outcome, once the round is finished.
    pub fn outcome(&self) -> (r: Option<Outcome>)
        ensures
            r == self@.outcome,
    {
        self.outcome
    }

    /// Whether the round has its outcome.
    pub fn is_finished(&self) -> (r: bool)
        ensures
            r == self@.finished(),
    {
        self.outcome.is_some()
    }

    /// The number of identities whose answers were processed.
    pub fn responded_count(&self) -> (n: usize)
        ensures
            n == self@.responded.len(),
    {
        self.responded.len()
    }

    /// The first identity whose answer was processed.
    pub fn first_responder(&self) -> (r: Option<Address>)
        ensures
            r == self@.first_responder(),
    {
        if self.responded.len() > 0 {
            Some(self.responded[0])
        } else {
            None
        }
    }

    /// Whether the first answer was right; `None` before any answer.
    pub fn first_was_correct(&self) -> (r: Option<bool>)
        ensures
            r == self@.first_was_correct,
    {
        self.first_was_correct
    }
}

} // verus!
