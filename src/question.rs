//! Multiple-choice questions built from four records, and their grading.
use vstd::prelude::*;
use crate::error::QuizError;
use crate::record::{is_term_record, parse_record, record_keyword, record_meaning};
use crate::sampler::draw_in_range;
use crate::text::{same_text, trim, trim_text};

verus! {

/// One answer option: its letter and the meaning shown beside it.
pub struct QuestionOption {
    pub letter: String,
    pub meaning: String,
}

impl QuestionOption {
    pub fn new(letter: String, meaning: String) -> (r: QuestionOption)
        ensures
            r.letter@ == letter@,
            r.meaning@ == meaning@,
    {
        QuestionOption { letter, meaning }
    }
}

/// A question: its options in order, the prompt, and the letter graded correct.
pub struct MultipleChoice {
    pub options: Vec<QuestionOption>,
    pub question: String,
    pub correct: String,
}

impl MultipleChoice {
    pub fn new(options: Vec<QuestionOption>, question: String, correct: String) -> (r:
        MultipleChoice)
        ensures
            r.options@ == options@,
            r.question@ == question@,
            r.correct@ == correct@,
    {
        MultipleChoice { options, question, correct }
    }
}

/// The letter of the option at position `k`.
pub open spec fn letter(k: int) -> Seq<char> {
    if k == 0 {
        "A"@
    } else if k == 1 {
        "B"@
    } else if k == 2 {
        "C"@
    } else {
        "D"@
    }
}

/// The prompt that asks for the meaning of `keyword`.
pub open spec fn prompt(keyword: Seq<char>) -> Seq<char> {
    "What does "@ + keyword + " refer to?"@
}

/// Every record in `records` is well formed.
pub open spec fn all_term_records(records: Seq<Seq<char>>) -> bool {
    forall|k: int| 0 <= k < records.len() ==> is_term_record(#[trigger] records[k])
}

/// `q` is the question built from `records` with the option at `position`
/// graded correct: the options carry the records' meanings in the order given,
/// lettered A to D, and the prompt names the keyword of the correct record.
pub open spec fn is_question_for(q: MultipleChoice, records: Seq<Seq<char>>, position: int) -> bool {
    &&& q.options@.len() == records.len()
    &&& forall|k: int|
        0 <= k < records.len() ==> {
            &&& (#[trigger] q.options@[k]).letter@ == letter(k)
            &&& q.options@[k].meaning@ == record_meaning(records[k])
        }
    &&& q.correct@ == letter(position)
    &&& q.question@ == prompt(record_keyword(records[position]))
}

/// The views of the records.
pub open spec fn record_views(records: Seq<&String>) -> Seq<Seq<char>> {
    records.map_values(|s: &String| s@)
}

/// The letter of the option at position `k`, as text.
fn letter_text(k: usize) -> (r: String)
    requires
        k < 4,
    ensures
        r@ == letter(k as int),
{
    if k == 0 {
        String::from_str("A")
    } else if k == 1 {
        String::from_str("B")
    } else if k == 2 {
        String::from_str("C")
    } else {
        String::from_str("D")
    }
}

/// Builds the question over four records `[correct, decoy, decoy, decoy]`, with
/// the option at `correct_position` graded correct. The options keep the
/// records' order; a malformed record is refused.
pub fn build_question(answer_options: &Vec<&String>, correct_position: usize) -> (r: Result<
    MultipleChoice,
    QuizError,
>)
    requires
        answer_options@.len() == 4,
        correct_position < 4,
    ensures
        match r {
            Ok(q) => all_term_records(record_views(answer_options@)) && is_question_for(
                q,
                record_views(answer_options@),
                correct_position as int,
            ),
            Err(e) => !all_term_records(record_views(answer_options@)) && e
                == QuizError::MalformedRecord,
        },
{
    let ghost records = record_views(answer_options@);
    let mut options: Vec<QuestionOption> = Vec::new();
    let mut correct_letter = String::new();
    let mut correct_keyword = String::new();
    let mut index_num: usize = 0;
    while index_num < answer_options.len()
        invariant
            answer_options@.len() == 4,
            correct_position < 4,
            records == record_views(answer_options@),
            index_num <= 4,
            options@.len() == index_num,
            forall|k: int| 0 <= k < index_num ==> is_term_record(#[trigger] records[k]),
            forall|k: int|
                0 <= k < index_num ==> {
                    &&& (#[trigger] options@[k]).letter@ == letter(k)
                    &&& options@[k].meaning@ == record_meaning(records[k])
                },
            correct_position < index_num ==> correct_letter@ == letter(correct_position as int)
                && correct_keyword@ == record_keyword(records[correct_position as int]),
        decreases 4 - index_num,
    {
        let option: &String = answer_options[index_num];
        let term = match parse_record(option.as_str()) {
            Ok(t) => t,
            Err(e) => {
                assert(records[index_num as int] == option@);
                return Err(e);
            },
        };
        assert(records[index_num as int] == option@);
        if index_num == correct_position {
            correct_letter = letter_text(index_num);
            correct_keyword = term.keyword;
        }
        options.push(QuestionOption::new(letter_text(index_num), term.meaning));
        index_num = index_num + 1;
    }
    let mut question = String::from_str("What does ");
    question.append(correct_keyword.as_str());
    question.append(" refer to?");
    let q = MultipleChoice::new(options, question, correct_letter);
    assert(q.question@ == prompt(record_keyword(records[correct_position as int])));
    Ok(q)
}

/// Builds the question over four records `[correct, decoy, decoy, decoy]`. The
/// option graded correct is drawn uniformly from the first three positions;
/// the options keep the records' order. A malformed record is refused.
pub fn create_question(answer_options: Vec<&String>) -> (r: Result<MultipleChoice, QuizError>)
    requires
        answer_options@.len() == 4,
    ensures
        match r {
            Ok(q) => all_term_records(record_views(answer_options@)) && exists|position: int|
                0 <= position < 3 && is_question_for(q, record_views(answer_options@), position),
            Err(e) => !all_term_records(record_views(answer_options@)) && e
                == QuizError::MalformedRecord,
        },
{
    let position = draw_in_range(0, 3) as usize;
    let r = build_question(&answer_options, position);
    match r {
        Ok(q) => {
            assert(is_question_for(q, record_views(answer_options@), position as int));
            Ok(q)
        },
        Err(e) => Err(e),
    }
}

/// Relies on std's `str::to_lowercase`: the lowercase form of `s`, which depends
/// on the characters of `s` alone.
pub uninterp spec fn lower_of(s: Seq<char>) -> Seq<char>;

/// Relies on std's `str::to_lowercase`.
#[verifier::external_body]
pub(crate) fn lowercase(s: &str) -> (r: String)
    ensures
        r@ == lower_of(s@),
{
    s.to_lowercase()
}

/// Whether an answer, already trimmed and lowercased, names the correct letter,
/// also trimmed and lowercased.
pub fn answers_agree(answer: &str, correct: &str) -> (r: bool)
    ensures
        r == (answer@ == correct@),
{
    same_text(answer, correct)
}

/// Grades `user_input` against the question: both it and the correct letter
/// are trimmed and lowercased, then compared.
pub fn grade(user_input: &str, question: &MultipleChoice) -> (r: bool)
    ensures
        r == (lower_of(trim(user_input@)) == lower_of(trim(question.correct@))),
{
    let answer = lowercase(trim_text(user_input).as_str());
    let correct = lowercase(trim_text(question.correct.as_str()).as_str());
    answers_agree(answer.as_str(), correct.as_str())
}

} // verus!
