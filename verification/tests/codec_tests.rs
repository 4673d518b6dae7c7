use battle_quiz::codec::{decode, encode, Inbound, Outbound};

fn text(s: &str) -> String {
    s.to_string()
}

#[test]
fn decode_join_carries_the_name() {
    assert_eq!(decode("LOGIN:Ana"), Inbound::Join { name: text("Ana") });
}

#[test]
fn decode_join_ignores_surrounding_white_space() {
    assert_eq!(decode("  LOGIN:Bruno\r\n"), Inbound::Join { name: text("Bruno") });
}

#[test]
fn decode_join_keeps_what_follows_the_tag() {
    assert_eq!(decode("LOGIN: Ana Maria"), Inbound::Join { name: text(" Ana Maria") });
    assert_eq!(decode("LOGIN:aLOGIN:b"), Inbound::Join { name: text("aLOGIN:b") });
}

#[test]
fn decode_join_with_empty_name() {
    assert_eq!(decode("LOGIN:"), Inbound::Join { name: text("") });
}

#[test]
fn decode_join_with_name_outside_ascii() {
    assert_eq!(decode("LOGIN:João"), Inbound::Join { name: text("João") });
}

#[test]
fn decode_answer_takes_the_last_character() {
    assert_eq!(decode("RESPOSTA:B"), Inbound::Answer { label: 'B' });
    assert_eq!(decode("RESPOSTA:minha resposta e C"), Inbound::Answer { label: 'C' });
    assert_eq!(decode("RESPOSTA:B  \n"), Inbound::Answer { label: 'B' });
}

#[test]
fn decode_answer_without_label_is_unrecognized() {
    assert_eq!(decode("RESPOSTA:"), Inbound::Unrecognized);
    assert_eq!(decode("RESPOSTA:   "), Inbound::Unrecognized);
}

#[test]
fn decode_vote_yes_and_no() {
    assert_eq!(decode("REINICIAR:S"), Inbound::RestartVote { yes: true });
    assert_eq!(decode("REINICIAR:N"), Inbound::RestartVote { yes: false });
    assert_eq!(decode("REINICIAR:quero S"), Inbound::RestartVote { yes: true });
}

#[test]
fn decode_vote_with_other_letter_is_unrecognized() {
    assert_eq!(decode("REINICIAR:s"), Inbound::Unrecognized);
    assert_eq!(decode("REINICIAR:X"), Inbound::Unrecognized);
    assert_eq!(decode("REINICIAR:"), Inbound::Unrecognized);
}

#[test]
fn decode_is_total_on_garbage() {
    assert_eq!(decode(""), Inbound::Unrecognized);
    assert_eq!(decode("   "), Inbound::Unrecognized);
    assert_eq!(decode("LOGIN"), Inbound::Unrecognized);
    assert_eq!(decode("login:Ana"), Inbound::Unrecognized);
    assert_eq!(decode("xLOGIN:Ana"), Inbound::Unrecognized);
    assert_eq!(decode("RESPOST"), Inbound::Unrecognized);
    assert_eq!(decode("JOGO_INICIADO"), Inbound::Unrecognized);
}

#[test]
fn encode_status_reports_the_count() {
    assert_eq!(encode(&Outbound::Status { count: 1 }), "BEM-VINDO! Aguardando oponente... (1/2)");
    assert_eq!(encode(&Outbound::Status { count: 2 }), "BEM-VINDO! Aguardando oponente... (2/2)");
}

#[test]
fn encode_fixed_notices() {
    assert_eq!(encode(&Outbound::MatchStart), "JOGO_INICIADO");
    assert_eq!(encode(&Outbound::RestartInvite), "DESEJA JOGAR NOVAMENTE? (S/N)");
    assert_eq!(
        encode(&Outbound::GameOverExhausted),
        "FIM DE JOGO: Todas as perguntas foram usadas."
    );
    assert_eq!(encode(&Outbound::WrongAnswer), "RESPOSTA INCORRETA! Aguarde o oponente.");
}

#[test]
fn encode_second_chance_names_the_points() {
    assert_eq!(
        encode(&Outbound::SecondChance { points: 3 }),
        "OPONENTE ERROU! Responda e ganhe (+3)"
    );
}

#[test]
fn encode_question_joins_the_choices() {
    let message = Outbound::Question {
        prompt: text("2+2?"),
        choices: vec![text("A)3"), text("B)4"), text("C)5")],
    };
    assert_eq!(encode(&message), "PERGUNTA:2+2?\nA)3 | B)4 | C)5");
}

#[test]
fn encode_question_with_one_choice_and_none() {
    let one = Outbound::Question { prompt: text("p"), choices: vec![text("A) x")] };
    assert_eq!(encode(&one), "PERGUNTA:p\nA) x");
    let none = Outbound::Question { prompt: text("p"), choices: vec![] };
    assert_eq!(encode(&none), "PERGUNTA:p\n");
}

#[test]
fn encode_scoreboard_with_winner() {
    let message = Outbound::Scoreboard {
        first_name: text("Ana"),
        first_score: 5,
        second_name: text("Bruno"),
        second_score: 0,
        winner: Some(text("Ana")),
        points: 5,
    };
    assert_eq!(
        encode(&message),
        "PLACAR: Ana=5 | Bruno=0\nResultado da rodada: Vencedor: Ana (+5)"
    );
}

#[test]
fn encode_scoreboard_without_winner() {
    let message = Outbound::Scoreboard {
        first_name: text("Ana"),
        first_score: 10,
        second_name: text("Bruno"),
        second_score: 123,
        winner: None,
        points: 0,
    };
    assert_eq!(
        encode(&message),
        "PLACAR: Ana=10 | Bruno=123\nResultado da rodada: Vencedor: Ninguem (+0)"
    );
}

#[test]
fn encode_game_over_names_the_winner() {
    let message = Outbound::GameOverWinner { name: text("Ana"), score: 30 };
    assert_eq!(encode(&message), "FIM DE JOGO! VENCEDOR: Ana com 30 pontos.");
}

#[test]
fn encode_writes_numbers_in_decimal() {
    let message = Outbound::GameOverWinner { name: text("x"), score: i32::MAX };
    assert_eq!(encode(&message), "FIM DE JOGO! VENCEDOR: x com 2147483647 pontos.");
    let low = Outbound::GameOverWinner { name: text("x"), score: i32::MIN };
    assert_eq!(encode(&low), "FIM DE JOGO! VENCEDOR: x com -2147483648 pontos.");
    let small = Outbound::SecondChance { points: -7 };
    assert_eq!(encode(&small), "OPONENTE ERROU! Responda e ganhe (+-7)");
    let round = Outbound::SecondChance { points: 100 };
    assert_eq!(encode(&round), "OPONENTE ERROU! Responda e ganhe (+100)");
}

#[test]
fn encode_is_deterministic() {
    let message = Outbound::Question { prompt: text("q"), choices: vec![text("a"), text("b")] };
    assert_eq!(encode(&message), encode(&message.clone()));
}
