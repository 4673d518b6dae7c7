//! The wire codec: datagram text to inbound messages, outbound messages to
//! datagram text.

use crate::models::clone_strings;
use crate::text::{
    append_decimal, append_digits, chars_of, decimal, starts_with, string_of, tail_from, trim, trimmed,
};
use vstd::prelude::*;

verus! {

/// A message from a participant.
#[derive(Debug, PartialEq, Eq)]
pub enum Inbound {
    /// A request to join under a display name.
    Join { name: String },
    /// An answer to the question of the round.
    Answer { label: char },
    /// A vote on playing again.
    RestartVote { yes: bool },
    /// Anything else; it changes nothing wherever it arrives.
    Unrecognized,
}

/// What an `Inbound` holds, as mathematical values.
pub ghost enum InboundView {
    Join { name: Seq<char> },
    Answer { label: char },
    RestartVote { yes: bool },
    Unrecognized,
}

impl View for Inbound {
    type V = InboundView;

    open spec fn view(&self) -> InboundView {
        match self {
            Inbound::Join { name } => InboundView::Join { name: name@ },
            Inbound::Answer { label } => InboundView::Answer { label: *label },
            Inbound::RestartVote { yes } => InboundView::RestartVote { yes: *yes },
            Inbound::Unrecognized => InboundView::Unrecognized,
        }
    }
}

/// The tag of a join request.
pub open spec fn join_tag() -> Seq<char> {
    "LOGIN:"@
}

/// The tag of an answer.
pub open spec fn answer_tag() -> Seq<char> {
    "RESPOSTA:"@
}

/// The tag of a restart vote.
pub open spec fn vote_tag() -> Seq<char> {
    "REINICIAR:"@
}

/// The message that the datagram text `raw` carries. White space around the
/// text does not count. A join request carries everything behind its tag as the
/// name. An answer carries its last character as the label, and a vote its
/// last character as `S` for yes or `N` for no; either needs at least one
/// character behind the tag.
pub open spec fn decoded(raw: Seq<char>) -> InboundView {
    let text = trim(raw);
    if join_tag().is_prefix_of(text) {
        InboundView::Join { name: text.skip(join_tag().len() as int) }
    } else if answer_tag().is_prefix_of(text) {
        if text.len() > answer_tag().len() {
            InboundView::Answer { label: text.last() }
        } else {
            InboundView::Unrecognized
        }
    } else if vote_tag().is_prefix_of(text) {
        if text.len() > vote_tag().len() && text.last() == 'S' {
            InboundView::RestartVote { yes: true }
        } else if text.len() > vote_tag().len() && text.last() == 'N' {
            InboundView::RestartVote { yes: false }
        } else {
            InboundView::Unrecognized
        }
    } else {
        InboundView::Unrecognized
    }
}

/// Decodes the text of a datagram.
pub fn decode(raw: &str) -> (message: Inbound)
    ensures
        message@ == decoded(raw@),
{
    let text = trimmed(&chars_of(raw));
    let join = chars_of("LOGIN:");
    let answer = chars_of("RESPOSTA:");
    let vote = chars_of("REINICIAR:");
    if starts_with(&text, &join) {
        Inbound::Join { name: string_of(&tail_from(&text, join.len())) }
    } else if starts_with(&text, &answer) {
        if text.len() > answer.len() {
            Inbound::Answer { label: text[text.len() - 1] }
        } else {
            Inbound::Unrecognized
        }
    } else if starts_with(&text, &vote) {
        if text.len() > vote.len() && text[text.len() - 1] == 'S' {
            Inbound::RestartVote { yes: true }
        } else if text.len() > vote.len() && text[text.len() - 1] == 'N' {
            Inbound::RestartVote { yes: false }
        } else {
            Inbound::Unrecognized
        }
    } else {
        Inbound::Unrecognized
    }
}

/// A message to a participant.
#[derive(Debug, PartialEq, Eq)]
pub enum Outbound {
    /// The acknowledgment of a join, with the number of participants so far.
    Status { count: usize },
    /// The match starts.
    MatchStart,
    /// The question of the round.
    Question { prompt: String, choices: Vec<String> },
    /// To the first to answer: the answer was wrong.
    WrongAnswer,
    /// To the other participant: the first answer was wrong, and a right one
    /// now earns `points`.
    SecondChance { points: i32 },
    /// The scores after a round, with the round's winner, if any, and the
    /// points awarded.
    Scoreboard {
        first_name: String,
        first_score: i32,
        second_name: String,
        second_score: i32,
        winner: Option<String>,
        points: i32,
    },
    /// The match is over: a participant reached the winning score.
    GameOverWinner { name: String, score: i32 },
    /// The match is over: no question is left.
    GameOverExhausted,
    /// The invitation to vote on playing again.
    RestartInvite,
}

/// What an `Outbound` holds, as mathematical values.
pub ghost enum OutboundView {
    Status { count: nat },
    MatchStart,
    Question { prompt: Seq<char>, choices: Seq<Seq<char>> },
    WrongAnswer,
    SecondChance { points: int },
    Scoreboard {
        first_name: Seq<char>,
        first_score: int,
        second_name: Seq<char>,
        second_score: int,
        winner: Option<Seq<char>>,
        points: int,
    },
    GameOverWinner { name: Seq<char>, score: int },
    GameOverExhausted,
    RestartInvite,
}

/// The view of an optional string.
pub open spec fn optional_text(text: Option<String>) -> Option<Seq<char>> {
    match text {
        Some(t) => Some(t@),
        None => None,
    }
}

impl View for Outbound {
    type V = OutboundView;

    open spec fn view(&self) -> OutboundView {
        match self {
            Outbound::Status { count } => OutboundView::Status { count: *count as nat },
            Outbound::MatchStart => OutboundView::MatchStart,
            Outbound::Question { prompt, choices } => OutboundView::Question {
                prompt: prompt@,
                choices: choices.deep_view(),
            },
            Outbound::WrongAnswer => OutboundView::WrongAnswer,
            Outbound::SecondChance { points } => OutboundView::SecondChance {
                points: *points as int,
            },
            Outbound::Scoreboard {
                first_name,
                first_score,
                second_name,
                second_score,
                winner,
                points,
            } => OutboundView::Scoreboard {
                first_name: first_name@,
                first_score: *first_score as int,
                second_name: second_name@,
                second_score: *second_score as int,
                winner: optional_text(*winner),
                points: *points as int,
            },
            Outbound::GameOverWinner { name, score } => OutboundView::GameOverWinner {
                name: name@,
                score: *score as int,
            },
            Outbound::GameOverExhausted => OutboundView::GameOverExhausted,
            Outbound::RestartInvite => OutboundView::RestartInvite,
        }
    }
}

impl Clone for Outbound {
    fn clone(&self) -> (out: Self)
        ensures
            out@ == self@,
    {
        match self {
            Outbound::Status { count } => Outbound::Status { count: *count },
            Outbound::MatchStart => Outbound::MatchStart,
            Outbound::Question { prompt, choices } => Outbound::Question {
                prompt: prompt.clone(),
                choices: clone_strings(choices),
            },
            Outbound::WrongAnswer => Outbound::WrongAnswer,
            Outbound::SecondChance { points } => Outbound::SecondChance { points: *points },
            Outbound::Scoreboard {
                first_name,
                first_score,
                second_name,
                second_score,
                winner,
                points,
            } => Outbound::Scoreboard {
                first_name: first_name.clone(),
                first_score: *first_score,
                second_name: second_name.clone(),
                second_score: *second_score,
                winner: match winner {
                    Some(name) => Some(name.clone()),
                    None => None,
                },
                points: *points,
            },
            Outbound::GameOverWinner { name, score } => Outbound::GameOverWinner {
                name: name.clone(),
                score: *score,
            },
            Outbound::GameOverExhausted => Outbound::GameOverExhausted,
            Outbound::RestartInvite => Outbound::RestartInvite,
        }
    }
}

/// The texts of `parts` in order, with `sep` between each two.
pub open spec fn joined(parts: Seq<Seq<char>>, sep: Seq<char>) -> Seq<char>
    decreases parts.len(),
{
    if parts.len() == 0 {
        Seq::<char>::empty()
    } else if parts.len() == 1 {
        parts[0]
    } else {
        joined(parts.drop_last(), sep) + sep + parts.last()
    }
}

/// The name shown for the winner of a round: the winner's, or the word for
/// nobody.
pub open spec fn winner_text(winner: Option<Seq<char>>) -> Seq<char> {
    match winner {
        Some(name) => name,
        None => "Ninguem"@,
    }
}

/// The datagram text of `message`.
pub open spec fn encoded(message: OutboundView) -> Seq<char> {
    match message {
        OutboundView::Status { count } => "BEM-VINDO! Aguardando oponente... ("@ + decimal(
            count as int,
        ) + "/2)"@,
        OutboundView::MatchStart => "JOGO_INICIADO"@,
        OutboundView::Question { prompt, choices } => "PERGUNTA:"@ + prompt + "\n"@ + joined(
            choices,
            " | "@,
        ),
        OutboundView::WrongAnswer => "RESPOSTA INCORRETA! Aguarde o oponente."@,
        OutboundView::SecondChance { points } => "OPONENTE ERROU! Responda e ganhe (+"@ + decimal(
            points,
        ) + ")"@,
        OutboundView::Scoreboard {
            first_name,
            first_score,
            second_name,
            second_score,
            winner,
            points,
        } => "PLACAR: "@ + first_name + "="@ + decimal(first_score) + " | "@ + second_name + "="@
            + decimal(second_score) + "\nResultado da rodada: Vencedor: "@ + winner_text(winner)
            + " (+"@ + decimal(points) + ")"@,
        OutboundView::GameOverWinner { name, score } => "FIM DE JOGO! VENCEDOR: "@ + name
            + " com "@ + decimal(score) + " pontos."@,
        OutboundView::GameOverExhausted => "FIM DE JOGO: Todas as perguntas foram usadas."@,
        OutboundView::RestartInvite => "DESEJA JOGAR NOVAMENTE? (S/N)"@,
    }
}

/// Appends the texts of `parts` to `out`, with `sep` between each two.
pub fn append_joined(out: &mut String, parts: &Vec<String>, sep: &str)
    ensures
        final(out)@ == old(out)@ + joined(parts.deep_view(), sep@),
{
    let ghost all = parts.deep_view();
    let mut i: usize = 0;
    while i < parts.len()
        invariant
            i <= parts.len(),
            all == parts.deep_view(),
            out@ == old(out)@ + joined(all.take(i as int), sep@),
        decreases parts.len() - i,
    {
        let ghost grown = all.take(i as int + 1);
        assert(grown.drop_last() == all.take(i as int));
        assert(grown.last() == parts@[i as int]@);
        if i > 0 {
            out.append(sep);
        }
        out.append(parts[i].as_str());
        assert(out@ == old(out)@ + joined(grown, sep@));
        i += 1;
    }
    assert(all.take(i as int) == all);
}

/// Encodes `message` as the text of a datagram.
pub fn encode(message: &Outbound) -> (out: String)
    ensures
        out@ == encoded(message@),
{
    let mut out: String = String::new();
    match message {
        Outbound::Status { count } => {
            out.append("BEM-VINDO! Aguardando oponente... (");
            append_digits(&mut out, *count as u64);
            out.append("/2)");
            assert(out@ =~= encoded(message@));
        },
        Outbound::MatchStart => {
            out.append("JOGO_INICIADO");
            assert(out@ =~= encoded(message@));
        },
        Outbound::Question { prompt, choices } => {
            out.append("PERGUNTA:");
            out.append(prompt.as_str());
            out.append("\n");
            append_joined(&mut out, choices, " | ");
            assert(out@ =~= encoded(message@));
        },
        Outbound::WrongAnswer => {
            out.append("RESPOSTA INCORRETA! Aguarde o oponente.");
            assert(out@ =~= encoded(message@));
        },
        Outbound::SecondChance { points } => {
            out.append("OPONENTE ERROU! Responda e ganhe (+");
            append_decimal(&mut out, *points);
            out.append(")");
            assert(out@ =~= encoded(message@));
        },
        Outbound::Scoreboard {
            first_name,
            first_score,
            second_name,
            second_score,
            winner,
            points,
        } => {
            out.append("PLACAR: ");
            out.append(first_name.as_str());
            out.append("=");
            append_decimal(&mut out, *first_score);
            out.append(" | ");
            out.append(second_name.as_str());
            out.append("=");
            append_decimal(&mut out, *second_score);
            out.append("\nResultado da rodada: Vencedor: ");
            match winner {
                Some(name) => {
                    out.append(name.as_str());
                },
                None => {
                    out.append("Ninguem");
                },
            }
            out.append(" (+");
            append_decimal(&mut out, *points);
            out.append(")");
            assert(out@ =~= encoded(message@));
        },
        Outbound::GameOverWinner { name, score } => {
            out.append("FIM DE JOGO! VENCEDOR: ");
            out.append(name.as_str());
            out.append(" com ");
            append_decimal(&mut out, *score);
            out.append(" pontos.");
            assert(out@ =~= encoded(message@));
        },
        Outbound::GameOverExhausted => {
            out.append("FIM DE JOGO: Todas as perguntas foram usadas.");
            assert(out@ =~= encoded(message@));
        },
        Outbound::RestartInvite => {
            out.append("DESEJA JOGAR NOVAMENTE? (S/N)");
            assert(out@ =~= encoded(message@));
        },
    }
    out
}

} // verus!
