use battle_quiz::models::Address;
use battle_quiz::round::{Outcome, Reply, Round};

fn addr(port: u16) -> Address {
    Address { v6: false, host: 0x7f00_0001, port, flowinfo: 0, scope_id: 0 }
}

#[test]
fn new_round_is_open_and_empty() {
    let round = Round::new('B', 5, 3);
    assert!(!round.is_finished());
    assert_eq!(round.outcome(), None);
    assert_eq!(round.responded_count(), 0);
    assert_eq!(round.first_responder(), None);
    assert_eq!(round.first_was_correct(), None);
    assert!(!round.has_responded(addr(1)));
}

#[test]
fn first_right_answer_wins_first_bonus() {
    let mut round = Round::new('B', 5, 3);
    let expected = Outcome { winner: Some(addr(1)), points: 5 };
    assert_eq!(round.answer(addr(1), 'B'), Reply::Finished(expected));
    assert!(round.is_finished());
    assert_eq!(round.outcome(), Some(expected));
    assert_eq!(round.first_responder(), Some(addr(1)));
    assert_eq!(round.first_was_correct(), Some(true));
    assert_eq!(round.responded_count(), 1);
}

#[test]
fn later_answers_do_not_change_a_finished_round() {
    let mut round = Round::new('B', 5, 3);
    round.answer(addr(1), 'B');
    assert_eq!(round.answer(addr(2), 'B'), Reply::Ignored);
    assert_eq!(round.answer(addr(1), 'C'), Reply::Ignored);
    assert_eq!(round.answer(addr(3), 'B'), Reply::Ignored);
    assert_eq!(round.outcome(), Some(Outcome { winner: Some(addr(1)), points: 5 }));
    assert_eq!(round.responded_count(), 1);
    assert!(!round.has_responded(addr(2)));
}

#[test]
fn wrong_first_answer_keeps_the_round_open() {
    let mut round = Round::new('B', 5, 3);
    assert_eq!(round.answer(addr(1), 'C'), Reply::FirstWrong);
    assert!(!round.is_finished());
    assert_eq!(round.outcome(), None);
    assert_eq!(round.first_was_correct(), Some(false));
    assert_eq!(round.first_responder(), Some(addr(1)));
    assert!(round.has_responded(addr(1)));
}

#[test]
fn second_right_answer_wins_second_bonus() {
    let mut round = Round::new('B', 5, 3);
    round.answer(addr(1), 'C');
    let expected = Outcome { winner: Some(addr(2)), points: 3 };
    assert_eq!(round.answer(addr(2), 'B'), Reply::Finished(expected));
    assert_eq!(round.outcome(), Some(expected));
    assert_eq!(round.responded_count(), 2);
}

#[test]
fn two_wrong_answers_give_no_winner() {
    let mut round = Round::new('B', 5, 3);
    round.answer(addr(1), 'C');
    let expected = Outcome { winner: None, points: 0 };
    assert_eq!(round.answer(addr(2), 'A'), Reply::Finished(expected));
    assert_eq!(round.outcome(), Some(expected));
}

#[test]
fn duplicate_answer_is_not_a_second_responder() {
    let mut round = Round::new('B', 5, 3);
    assert_eq!(round.answer(addr(1), 'C'), Reply::FirstWrong);
    assert_eq!(round.answer(addr(1), 'B'), Reply::Ignored);
    assert_eq!(round.answer(addr(1), 'C'), Reply::Ignored);
    assert_eq!(round.responded_count(), 1);
    assert_eq!(round.outcome(), None);
    assert_eq!(
        round.answer(addr(2), 'B'),
        Reply::Finished(Outcome { winner: Some(addr(2)), points: 3 })
    );
}

#[test]
fn bonuses_come_from_the_round() {
    let mut round = Round::new('A', 7, 2);
    assert_eq!(
        round.answer(addr(9), 'A'),
        Reply::Finished(Outcome { winner: Some(addr(9)), points: 7 })
    );
    let mut other = Round::new('A', 7, 2);
    other.answer(addr(9), 'B');
    assert_eq!(
        other.answer(addr(8), 'A'),
        Reply::Finished(Outcome { winner: Some(addr(8)), points: 2 })
    );
}

#[test]
fn identities_differ_by_any_field() {
    let base = addr(1);
    let mut round = Round::new('B', 5, 3);
    round.answer(base, 'C');
    let other_family = Address { v6: true, ..base };
    assert!(!round.has_responded(other_family));
    assert!(!round.has_responded(Address { host: 1, ..base }));
    assert!(!round.has_responded(Address { flowinfo: 1, ..base }));
    assert!(!round.has_responded(Address { scope_id: 1, ..base }));
    assert!(round.has_responded(base));
}
