//! The question bank: its text format, and the random order in which a match
//! asks the questions.

use crate::models::{question_views, Question, QuestionView};
use crate::text::{chars_of, piece_views, split, split_on, string_of, trim, trimmed};
use rand::seq::SliceRandom;
use vstd::prelude::*;

verus! {

/// The random number generator of the current thread, from the `rand` crate.
#[verifier::external_type_specification]
#[verifier::external_body]
pub struct ExThreadRng(rand::rngs::ThreadRng);

/// `rand::thread_rng` hands out the generator of the current thread, seeded
/// by the operating system on first use. Nothing is claimed of the generator.
/// The first call in a thread panics where the operating system has no
/// entropy to give; no argument decides that, so no condition here rules it
/// out.
pub assume_specification[ rand::thread_rng ]() -> (rng: rand::rngs::ThreadRng)
;

/// Puts `questions` in a random order.
///
/// Calls `SliceRandom::shuffle` of the `rand` crate, which walks the slice
/// from its end and swaps each element with one at a random position not
/// behind it. Swaps only reorder: the contract says that the same questions
/// are there afterwards, each as often as before, and nothing of their order.
#[verifier::external_body]
fn shuffle(questions: &mut Vec<Question>, rng: &mut rand::rngs::ThreadRng)
    ensures
        same_questions(question_views(final(questions)@), question_views(old(questions)@)),
{
    questions.shuffle(rng);
}

/// Whether `a` holds the questions of `b`, each as often, in any order.
pub open spec fn same_questions(a: Seq<QuestionView>, b: Seq<QuestionView>) -> bool {
    a.to_multiset() == b.to_multiset()
}

/// `line` without one carriage return at its end.
pub open spec fn without_return(line: Seq<char>) -> Seq<char> {
    if line.len() > 0 && line.last() == '\r' {
        line.drop_last()
    } else {
        line
    }
}

/// Line `i` of a text whose pieces between line feeds are `pieces`: the
/// piece, without the carriage return that ends it where a line feed follows.
pub open spec fn line_at(pieces: Seq<Seq<char>>, i: int) -> Seq<char> {
    if i + 1 < pieces.len() {
        without_return(pieces[i])
    } else {
        pieces[i]
    }
}

/// The label that the fifth field of a line gives: its first character, a
/// space where it is empty.
pub open spec fn label_of(field: Seq<char>) -> char {
    if field.len() > 0 {
        field[0]
    } else {
        ' '
    }
}

/// Whether `line` is one that a bank may hold beside its questions: a blank
/// line, or a comment, whose first character that is not white space is `#`.
pub open spec fn ignorable(line: Seq<char>) -> bool {
    trim(line).len() == 0 || trim(line)[0] == '#'
}

/// The question that `line` holds, if any. A blank line and a line whose
/// first character that is not white space is `#` hold none. Any other line
/// is cut at each `|`: with five fields or more it holds the prompt, three
/// choices and the label, the first four without the white space around
/// them; with fewer it holds none.
pub open spec fn parsed_line(line: Seq<char>) -> Option<QuestionView> {
    let fields = split(line, '|');
    if ignorable(line) || fields.len() < 5 {
        None
    } else {
        Some(
            QuestionView {
                text: trim(fields[0]),
                options: seq![trim(fields[1]), trim(fields[2]), trim(fields[3])],
                correct_option: label_of(fields[4]),
            },
        )
    }
}

/// The questions of the first `n` lines of a text whose pieces between line
/// feeds are `pieces`, in order.
pub open spec fn parsed_lines(pieces: Seq<Seq<char>>, n: nat) -> Seq<QuestionView>
    decreases n,
{
    if n == 0 {
        Seq::<QuestionView>::empty()
    } else {
        let before = parsed_lines(pieces, (n - 1) as nat);
        match parsed_line(line_at(pieces, n - 1)) {
            Some(question) => before.push(question),
            None => before,
        }
    }
}

/// Whether `line` is malformed: neither blank nor a comment, and yet it
/// holds no question.
pub open spec fn malformed(line: Seq<char>) -> bool {
    !ignorable(line) && parsed_line(line) is None
}

/// The numbers of the malformed lines among the first `n` lines of a text
/// whose pieces between line feeds are `pieces`, in order. The first line
/// has the number 1.
pub open spec fn malformed_among(pieces: Seq<Seq<char>>, n: nat) -> Seq<nat>
    decreases n,
{
    if n == 0 {
        Seq::<nat>::empty()
    } else {
        let before = malformed_among(pieces, (n - 1) as nat);
        if malformed(line_at(pieces, n - 1)) {
            before.push(n)
        } else {
            before
        }
    }
}

/// The numbers of the malformed lines of a bank whose text is `content`, in
/// order. The first line has the number 1.
pub open spec fn malformed_numbers(content: Seq<char>) -> Seq<nat> {
    malformed_among(split(content, '\n'), split(content, '\n').len())
}

/// The numbers of `numbers` as mathematical values, in order.
pub open spec fn as_naturals(numbers: Seq<usize>) -> Seq<nat> {
    Seq::new(numbers.len(), |i: int| numbers[i] as nat)
}

/// The questions of a bank whose text is `content`, in the order of its
/// lines.
pub open spec fn parsed_bank(content: Seq<char>) -> Seq<QuestionView> {
    parsed_lines(split(content, '\n'), split(content, '\n').len())
}

/// Reads the question that `line` holds, if any.
pub fn parse_line(line: &Vec<char>) -> (out: Option<Question>)
    ensures
        match out {
            Some(question) => parsed_line(line@) == Some(question@),
            None => parsed_line(line@) is None,
        },
{
    let bare = trimmed(line);
    if bare.len() == 0 || bare[0] == '#' {
        return None;
    }
    let fields = split_on(line, '|');
    if fields.len() < 5 {
        return None;
    }
    proof {
        let views = piece_views(fields@);
        assert(views.len() == fields@.len());
        assert(forall|i: int| 0 <= i < 5 ==> views[i] == fields@[i]@);
    }
    let mut options: Vec<String> = Vec::new();
    options.push(string_of(&trimmed(&fields[1])));
    options.push(string_of(&trimmed(&fields[2])));
    options.push(string_of(&trimmed(&fields[3])));
    let label: char = if fields[4].len() > 0 {
        fields[4][0]
    } else {
        ' '
    };
    let question = Question {
        text: string_of(&trimmed(&fields[0])),
        options,
        correct_option: label,
    };
    assert(question@.options =~= seq![
        trim(fields@[1]@),
        trim(fields@[2]@),
        trim(fields@[3]@),
    ]);
    Some(question)
}

/// `line` without one carriage return at its end.
fn strip_return(line: &Vec<char>) -> (out: Vec<char>)
    ensures
        out@ == without_return(line@),
{
    let mut out: Vec<char> = Vec::new();
    let keep: usize = if line.len() > 0 && line[line.len() - 1] == '\r' {
        line.len() - 1
    } else {
        line.len()
    };
    let mut i: usize = 0;
    while i < keep
        invariant
            i <= keep <= line.len(),
            out@ == line@.take(i as int),
        decreases keep - i,
    {
        out.push(line[i]);
        i += 1;
    }
    assert(line@.take(line.len() as int) == line@);
    out
}

/// Reads the questions of a bank whose text is `content`, in the order of
/// its lines.
pub fn parse_questions(content: &str) -> (out: Vec<Question>)
    ensures
        question_views(out@) == parsed_bank(content@),
{
    let pieces = split_on(&chars_of(content), '\n');
    let ghost views = piece_views(pieces@);
    let mut out: Vec<Question> = Vec::new();
    let mut i: usize = 0;
    while i < pieces.len()
        invariant
            i <= pieces.len(),
            views == piece_views(pieces@),
            question_views(out@) == parsed_lines(views, i as nat),
        decreases pieces.len() - i,
    {
        assert(views[i as int] == pieces@[i as int]@);
        let found = if i + 1 < pieces.len() {
            parse_line(&strip_return(&pieces[i]))
        } else {
            parse_line(&pieces[i])
        };
        let ghost before = question_views(out@);
        match found {
            Some(question) => {
                out.push(question);
                assert(question_views(out@) =~= before.push(question@));
            },
            None => {},
        }
        i += 1;
    }
    out
}

/// Whether `line` is malformed: neither blank nor a comment, and yet it
/// holds no question.
pub fn is_malformed(line: &Vec<char>) -> (r: bool)
    ensures
        r == malformed(line@),
{
    let bare = trimmed(line);
    if bare.len() == 0 || bare[0] == '#' {
        return false;
    }
    let fields = split_on(line, '|');
    assert(piece_views(fields@).len() == fields@.len());
    fields.len() < 5
}

/// The numbers of the malformed lines of a bank whose text is `content`, in
/// order. The first line has the number 1.
pub fn malformed_lines(content: &str) -> (out: Vec<usize>)
    ensures
        as_naturals(out@) == malformed_numbers(content@),
{
    let pieces = split_on(&chars_of(content), '\n');
    let ghost views = piece_views(pieces@);
    let mut out: Vec<usize> = Vec::new();
    let mut i: usize = 0;
    assert(as_naturals(out@) =~= malformed_among(views, 0));
    while i < pieces.len()
        invariant
            i <= pieces.len(),
            views == piece_views(pieces@),
            as_naturals(out@) == malformed_among(views, i as nat),
        decreases pieces.len() - i,
    {
        assert(views[i as int] == pieces@[i as int]@);
        let bad = if i + 1 < pieces.len() {
            is_malformed(&strip_return(&pieces[i]))
        } else {
            is_malformed(&pieces[i])
        };
        let ghost before = as_naturals(out@);
        if bad {
            out.push(i + 1);
            assert(as_naturals(out@) =~= before.push((i + 1) as nat));
        }
        i += 1;
    }
    out
}

/// Puts `questions` in a new random order.
pub fn reshuffle_questions(questions: &mut Vec<Question>)
    ensures
        same_questions(question_views(final(questions)@), question_views(old(questions)@)),
        final(questions)@.len() == old(questions)@.len(),
{
    let mut rng = rand::thread_rng();
    shuffle(questions, &mut rng);
    proof {
        question_views(questions@).to_multiset_ensures();
        question_views(old(questions)@).to_multiset_ensures();
    }
}

/// Why a bank could not be loaded.
#[derive(Clone, Copy, Debug, PartialEq, Eq)]
pub enum LoadError {
    /// The bank holds no question.
    Empty,
}

/// Reads the questions of a bank whose text is `content` and puts them in a
/// random order. A bank that holds no question is an error.
pub fn load_and_shuffle_questions(content: &str) -> (out: Result<Vec<Question>, LoadError>)
    ensures
        out is Err <==> parsed_bank(content@).len() == 0,
        out is Err ==> out == Err::<Vec<Question>, LoadError>(LoadError::Empty),
        out is Ok ==> same_questions(question_views(out->Ok_0@), parsed_bank(content@))
            && out->Ok_0@.len() == parsed_bank(content@).len(),
{
    let mut questions = parse_questions(content);
    if questions.len() == 0 {
        return Err(LoadError::Empty);
    }
    reshuffle_questions(&mut questions);
    Ok(questions)
}

} // verus!
