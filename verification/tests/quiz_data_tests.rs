use battle_quiz::models::Question;
use battle_quiz::quiz_data::{
    is_malformed, load_and_shuffle_questions, malformed_lines, parse_line, parse_questions,
    reshuffle_questions, LoadError,
};

fn chars(s: &str) -> Vec<char> {
    s.chars().collect()
}

fn key(question: &Question) -> (String, Vec<String>, char) {
    (question.text.clone(), question.options.clone(), question.correct_option)
}

fn bank(n: usize) -> String {
    let mut content = String::new();
    for i in 0..n {
        content.push_str(&format!("Pergunta {}?|A) {}|B) x|C) y|A\n", i, i));
    }
    content
}

#[test]
fn parse_line_reads_the_fields() {
    let question = parse_line(&chars(" 2+2? | A) 3 |B) 4| C) 5 |B")).unwrap();
    assert_eq!(question.text, "2+2?");
    assert_eq!(question.options, vec!["A) 3", "B) 4", "C) 5"]);
    assert_eq!(question.correct_option, 'B');
}

#[test]
fn parse_line_label_is_first_character_of_fifth_field() {
    assert_eq!(parse_line(&chars("q|a|b|c|Cxyz")).unwrap().correct_option, 'C');
    assert_eq!(parse_line(&chars("q|a|b|c| B")).unwrap().correct_option, ' ');
    assert_eq!(parse_line(&chars("q|a|b|c|")).unwrap().correct_option, ' ');
    assert_eq!(parse_line(&chars("q|a|b|c|A|more|fields")).unwrap().correct_option, 'A');
}

#[test]
fn parse_line_skips_blank_comment_and_short_lines() {
    assert!(parse_line(&chars("")).is_none());
    assert!(parse_line(&chars("   \t")).is_none());
    assert!(parse_line(&chars("# q|a|b|c|A")).is_none());
    assert!(parse_line(&chars("   # q|a|b|c|A")).is_none());
    assert!(parse_line(&chars("q|a|b|c")).is_none());
    assert!(parse_line(&chars("only text")).is_none());
}

#[test]
fn parse_questions_keeps_the_order_of_the_lines() {
    let content = "# banco\n\nUm?|A) 1|B) 2|C) 3|A\r\nquebrada|x\nDois?|A) a|B) b|C) c|C";
    let questions = parse_questions(content);
    assert_eq!(questions.len(), 2);
    assert_eq!(questions[0].text, "Um?");
    assert_eq!(questions[0].correct_option, 'A');
    assert_eq!(questions[1].text, "Dois?");
    assert_eq!(questions[1].options, vec!["A) a", "B) b", "C) c"]);
    assert_eq!(questions[1].correct_option, 'C');
}

#[test]
fn parse_questions_strips_the_return_before_a_line_feed_only() {
    let ended = parse_questions("q|a|b|c|\r\n");
    assert_eq!(ended[0].correct_option, ' ');
    let open = parse_questions("q|a|b|c|\r");
    assert_eq!(open[0].correct_option, '\r');
}

#[test]
fn parse_questions_of_empty_text() {
    assert_eq!(parse_questions("").len(), 0);
    assert_eq!(parse_questions("\n\n# nada\n").len(), 0);
}

#[test]
fn load_and_shuffle_keeps_every_question() {
    let content = bank(25);
    let mut expected: Vec<_> = parse_questions(&content).iter().map(key).collect();
    let loaded = load_and_shuffle_questions(&content).unwrap();
    let mut got: Vec<_> = loaded.iter().map(key).collect();
    assert_eq!(got.len(), 25);
    expected.sort();
    got.sort();
    assert_eq!(got, expected);
}

#[test]
fn reshuffle_changes_the_order_sooner_or_later() {
    let initial: Vec<_> = parse_questions(&bank(25)).iter().map(key).collect();
    let mut questions = parse_questions(&bank(25));
    let mut changed = false;
    for _ in 0..20 {
        reshuffle_questions(&mut questions);
        let now: Vec<_> = questions.iter().map(key).collect();
        if now != initial {
            changed = true;
        }
        let mut sorted = now.clone();
        sorted.sort();
        let mut reference = initial.clone();
        reference.sort();
        assert_eq!(sorted, reference);
    }
    assert!(changed);
}

#[test]
fn reshuffle_of_nothing_and_of_one() {
    let mut none: Vec<Question> = Vec::new();
    reshuffle_questions(&mut none);
    assert!(none.is_empty());
    let mut one = parse_questions("q|a|b|c|A");
    reshuffle_questions(&mut one);
    assert_eq!(one.len(), 1);
    assert_eq!(one[0].text, "q");
}

#[test]
fn load_of_an_empty_bank_fails() {
    assert_eq!(load_and_shuffle_questions("").err(), Some(LoadError::Empty));
    assert_eq!(load_and_shuffle_questions("\n\n  \n").err(), Some(LoadError::Empty));
}

#[test]
fn load_of_a_bank_of_comments_fails() {
    let content = "# primeira\n  # segunda|a|b|c|A\n#\n";
    assert_eq!(load_and_shuffle_questions(content).err(), Some(LoadError::Empty));
}

#[test]
fn load_of_a_bank_of_short_lines_fails() {
    let content = "so texto\nq|a|b|c\nq|a\n";
    assert_eq!(load_and_shuffle_questions(content).err(), Some(LoadError::Empty));
}

#[test]
fn load_of_one_valid_line_among_others_succeeds() {
    let content = "# banco\nquebrada|x\n\nUm?|A) 1|B) 2|C) 3|A\n";
    let loaded = load_and_shuffle_questions(content).unwrap();
    assert_eq!(loaded.len(), 1);
    assert_eq!(loaded[0].text, "Um?");
    assert_eq!(loaded[0].options, vec!["A) 1", "B) 2", "C) 3"]);
    assert_eq!(loaded[0].correct_option, 'A');
}

#[test]
fn malformed_line_is_neither_blank_nor_comment_nor_question() {
    assert!(is_malformed(&chars("so texto")));
    assert!(is_malformed(&chars("q|a|b|c")));
    assert!(is_malformed(&chars("  q|a  ")));
    assert!(!is_malformed(&chars("")));
    assert!(!is_malformed(&chars("   ")));
    assert!(!is_malformed(&chars("# q|a")));
    assert!(!is_malformed(&chars("  #")));
    assert!(!is_malformed(&chars("q|a|b|c|A")));
    assert!(!is_malformed(&chars("||||")));
}

#[test]
fn malformed_lines_are_numbered_from_one() {
    let content = "# banco\nquebrada|x\n\nUm?|A) 1|B) 2|C) 3|A\r\noutra quebrada\r\nq|a|b|c";
    assert_eq!(malformed_lines(content), vec![2, 5, 6]);
}

#[test]
fn malformed_lines_of_a_clean_bank_and_of_nothing() {
    assert_eq!(malformed_lines(""), Vec::<usize>::new());
    assert_eq!(malformed_lines("\n# so isto\nq|a|b|c|B\n"), Vec::<usize>::new());
    assert_eq!(malformed_lines("x"), vec![1]);
    assert_eq!(malformed_lines("\r\nx\n"), vec![2]);
}

#[test]
fn questions_and_malformed_lines_account_for_every_other_line() {
    let content = "a|b|c|d|e\nx\n# c\n\nf|g|h|i|j\ny|z\n";
    assert_eq!(parse_questions(content).len(), 2);
    assert_eq!(malformed_lines(content), vec![2, 6]);
}
