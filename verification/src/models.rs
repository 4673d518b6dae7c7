//! The records a match is made of: a transport address, a participant and a
//! question.

use vstd::prelude::*;

verus! {

/// A transport address held as plain integers: the address family, the host
/// as a 128-bit number, the port, and the two extra fields of a version 6
/// socket address (zero for version 4). Two addresses are the same identity
/// exactly when all fields agree.
#[derive(Clone, Copy, Debug, PartialEq, Eq, Structural, Hash)]
pub struct Address {
    pub v6: bool,
    pub host: u128,
    pub port: u16,
    pub flowinfo: u32,
    pub scope_id: u32,
}

/// A participant of the match.
#[derive(Debug)]
pub struct Player {
    pub addr: Address,
    pub name: String,
    pub score: i32,
}

/// What a `Player` holds, as mathematical values.
pub ghost struct PlayerView {
    pub addr: Address,
    pub name: Seq<char>,
    pub score: int,
}

impl View for Player {
    type V = PlayerView;

    open spec fn view(&self) -> PlayerView {
        PlayerView { addr: self.addr, name: self.name@, score: self.score as int }
    }
}

/// A question of the bank: the prompt, the choices in the order they are
/// shown, and the label of the right choice.
#[derive(Debug)]
pub struct Question {
    pub text: String,
    pub options: Vec<String>,
    pub correct_option: char,
}

/// What a `Question` holds, as mathematical values.
pub ghost struct QuestionView {
    pub text: Seq<char>,
    pub options: Seq<Seq<char>>,
    pub correct_option: char,
}

impl View for Question {
    type V = QuestionView;

    open spec fn view(&self) -> QuestionView {
        QuestionView {
            text: self.text@,
            options: self.options.deep_view(),
            correct_option: self.correct_option,
        }
    }
}

impl Clone for Player {
    fn clone(&self) -> (out: Self)
        ensures
            out@ == self@,
    {
        Player { addr: self.addr, name: self.name.clone(), score: self.score }
    }
}

/// A copy of `texts`, string by string.
pub fn clone_strings(texts: &Vec<String>) -> (out: Vec<String>)
    ensures
        out.deep_view() == texts.deep_view(),
{
    let mut out: Vec<String> = Vec::new();
    let mut i: usize = 0;
    while i < texts.len()
        invariant
            i <= texts.len(),
            out@.len() == i,
            forall|k: int| 0 <= k < i ==> out@[k]@ == texts@[k]@,
        decreases texts.len() - i,
    {
        out.push(texts[i].clone());
        i += 1;
    }
    assert(out.deep_view() =~= texts.deep_view());
    out
}

impl Clone for Question {
    fn clone(&self) -> (out: Self)
        ensures
            out@ == self@,
    {
        Question {
            text: self.text.clone(),
            options: clone_strings(&self.options),
            correct_option: self.correct_option,
        }
    }
}

/// A copy of `questions`, question by question.
pub fn clone_questions(questions: &Vec<Question>) -> (out: Vec<Question>)
    ensures
        question_views(out@) == question_views(questions@),
{
    let mut out: Vec<Question> = Vec::new();
    let mut i: usize = 0;
    while i < questions.len()
        invariant
            i <= questions.len(),
            out@.len() == i,
            forall|k: int| 0 <= k < i ==> out@[k]@ == questions@[k]@,
        decreases questions.len() - i,
    {
        out.push(questions[i].clone());
        i += 1;
    }
    assert(question_views(out@) =~= question_views(questions@));
    out
}

/// The views of a sequence of players, in order.
pub open spec fn player_views(players: Seq<Player>) -> Seq<PlayerView> {
    Seq::new(players.len(), |i: int| players[i]@)
}

/// The views of a sequence of questions, in order.
pub open spec fn question_views(questions: Seq<Question>) -> Seq<QuestionView> {
    Seq::new(questions.len(), |i: int| questions[i]@)
}

} // verus!
