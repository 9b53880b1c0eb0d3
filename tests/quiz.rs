use glossary::config::{classify_action, continue_requested, topic_file_path, Action, Config};
use glossary::error::QuizError;
use glossary::question::{
    answers_agree, build_question, create_question, grade, MultipleChoice, QuestionOption,
};
use glossary::record::{format_record, parse_record};
use glossary::sampler::{eligible_indices, generate_random_number};
use glossary::session::Session;
use glossary::text::{is_space_char, same_text, trim_text};

fn chemistry(n: usize) -> Vec<String> {
    let all = [
        "Atom -$- smallest unit of matter",
        "Bond -$- link between atoms",
        "Molecule -$- two or more atoms",
        "Ion -$- charged atom",
        "Electron -$- negative particle",
        "Proton -$- positive particle",
    ];
    all[..n].iter().map(|s| s.to_string()).collect()
}

fn question_with_correct(letter: &str) -> MultipleChoice {
    let options = vec![
        QuestionOption::new("A".to_string(), "one".to_string()),
        QuestionOption::new("B".to_string(), "two".to_string()),
        QuestionOption::new("C".to_string(), "three".to_string()),
        QuestionOption::new("D".to_string(), "four".to_string()),
    ];
    MultipleChoice::new(options, "What does X refer to?".to_string(), letter.to_string())
}

#[test]
fn grade_ignores_case_and_spaces() {
    let q = question_with_correct("B");
    assert!(grade("b", &q));
    assert!(grade("B ", &q));
    assert!(grade("  b\t", &q));
    assert!(!grade("c", &q));
    assert!(!grade("", &q));
    assert!(!grade("bb", &q));
}

#[test]
fn answers_agree_compares_exactly() {
    assert!(answers_agree("b", "b"));
    assert!(!answers_agree("b", "c"));
    assert!(!answers_agree("b", "b "));
}

#[test]
fn too_few_records_are_refused() {
    for n in 0..4 {
        assert!(matches!(Session::start(chemistry(n)), Err(QuizError::InsufficientCorpus)));
    }
    assert!(Session::start(chemistry(4)).is_ok());
}

#[test]
fn four_records_cannot_hold_three_decoys() {
    // Index 0 is never drawn, so four records leave only three eligible indices.
    let mut s = Session::start(chemistry(4)).unwrap();
    assert_eq!(s.next_round(), Err(QuizError::InsufficientCorpus));
    // Nothing was recorded: the full set of correct indices is still available.
    let mut seen = Vec::new();
    for _ in 0..3 {
        seen.push(s.pick_correct_index().unwrap());
    }
    seen.sort();
    assert_eq!(seen, vec![1, 2, 3]);
}

#[test]
fn chemistry_round_never_asks_the_first_record() {
    let records = chemistry(5);
    for _ in 0..50 {
        let mut s = Session::start(records.clone()).unwrap();
        let round = s.next_round().unwrap();
        assert_eq!(round.len(), 4);
        assert!(round.iter().all(|&i| (1..5).contains(&i)));
        let q = s.question(&round).unwrap();
        assert!(!q.question.contains("Atom"));
        let named = ["Bond", "Molecule", "Ion", "Electron"]
            .iter()
            .filter(|k| q.question == format!("What does {} refer to?", k))
            .count();
        assert_eq!(named, 1);
        assert_eq!(q.options.len(), 4);
        for (k, i) in round.iter().enumerate() {
            let expected = records[*i as usize].split(" -$- ").nth(1).unwrap();
            assert_eq!(q.options[k].meaning, expected);
            assert_eq!(q.options[k].letter, ["A", "B", "C", "D"][k]);
        }
        assert!(["A", "B", "C"].contains(&q.correct.as_str()));
    }
}

#[test]
fn round_indices_are_distinct() {
    for _ in 0..100 {
        let mut s = Session::start(chemistry(5)).unwrap();
        let round = s.next_round().unwrap();
        let mut sorted = round.clone();
        sorted.sort();
        sorted.dedup();
        assert_eq!(sorted, vec![1, 2, 3, 4]);
    }
}

#[test]
fn session_never_repeats_a_correct_index() {
    let mut s = Session::start(chemistry(6)).unwrap();
    let mut correct = Vec::new();
    for _ in 0..5 {
        let round = s.next_round().unwrap();
        assert!(!correct.contains(&round[0]));
        correct.push(round[0]);
    }
    correct.sort();
    assert_eq!(correct, vec![1, 2, 3, 4, 5]);
    assert_eq!(s.next_round(), Err(QuizError::Exhausted));
    assert_eq!(s.pick_correct_index(), Err(QuizError::Exhausted));
    assert_eq!(s.corpus_len(), 6);
}

#[test]
fn parse_round_trip() {
    let record = format_record("  Atom ", " smallest unit of matter  ");
    assert_eq!(record, "  Atom  -$-  smallest unit of matter  ");
    let term = parse_record(&record).unwrap();
    assert_eq!(term.keyword, "Atom");
    assert_eq!(term.meaning, "smallest unit of matter");
}

#[test]
fn format_record_joins_with_delimiter() {
    assert_eq!(format_record("Ion", "charged atom"), "Ion -$- charged atom");
}

#[test]
fn malformed_records_are_refused() {
    for bad in [
        "",
        "Atom smallest unit",
        "Atom -$-smallest",
        "Atom -$- one -$- two",
        " -$- meaning",
        "keyword -$-  ",
        "Atom-$-smallest unit",
    ] {
        assert!(
            matches!(parse_record(bad), Err(QuizError::MalformedRecord)),
            "{:?}",
            bad
        );
    }
}

#[test]
fn build_question_marks_the_chosen_position() {
    let records = chemistry(4);
    let refs: Vec<&String> = vec![&records[1], &records[2], &records[3], &records[0]];
    let q = build_question(&refs, 2).unwrap();
    assert_eq!(q.correct, "C");
    assert_eq!(q.question, "What does Ion refer to?");
    let meanings: Vec<&str> = q.options.iter().map(|o| o.meaning.as_str()).collect();
    assert_eq!(
        meanings,
        vec!["link between atoms", "two or more atoms", "charged atom", "smallest unit of matter"]
    );
    let q = build_question(&refs, 3).unwrap();
    assert_eq!(q.correct, "D");
    assert_eq!(q.question, "What does Atom refer to?");
}

#[test]
fn build_question_refuses_a_malformed_decoy() {
    let records = chemistry(3);
    let bad = "no delimiter".to_string();
    let refs: Vec<&String> = vec![&records[0], &records[1], &bad, &records[2]];
    assert!(matches!(build_question(&refs, 0), Err(QuizError::MalformedRecord)));
    assert!(matches!(create_question(refs), Err(QuizError::MalformedRecord)));
}

#[test]
fn create_question_grades_one_of_the_first_three() {
    let records = chemistry(4);
    for _ in 0..50 {
        let refs: Vec<&String> = records.iter().collect();
        let q = create_question(refs).unwrap();
        let k = ["A", "B", "C"].iter().position(|l| *l == q.correct).unwrap();
        let keyword = records[k].split(" -$- ").next().unwrap();
        assert_eq!(q.question, format!("What does {} refer to?", keyword));
    }
}

#[test]
fn random_number_avoids_exclusions() {
    assert_eq!(generate_random_number(1, vec![]), Err(QuizError::InsufficientCorpus));
    assert_eq!(generate_random_number(0, vec![]), Err(QuizError::InsufficientCorpus));
    assert_eq!(generate_random_number(4, vec![1, 2, 3]), Err(QuizError::InsufficientCorpus));
    for _ in 0..50 {
        assert_eq!(generate_random_number(5, vec![1, 3, 2]), Ok(4));
        let v = generate_random_number(10, vec![5]).unwrap();
        assert!((1..10).contains(&v) && v != 5);
    }
}

#[test]
fn eligible_indices_lists_the_rest() {
    assert_eq!(eligible_indices(6, &vec![2, 4]), vec![1, 3, 5]);
    assert_eq!(eligible_indices(1, &vec![]), Vec::<u64>::new());
    assert_eq!(eligible_indices(4, &vec![]), vec![1, 2, 3]);
}

#[test]
fn trimming_follows_unicode_whitespace() {
    assert_eq!(trim_text("  a b \t\n"), "a b");
    assert_eq!(trim_text("\u{3000}x\u{a0}"), "x");
    assert_eq!(trim_text("   "), "");
    assert_eq!(trim_text(""), "");
    assert!(is_space_char('\u{2003}'));
    assert!(!is_space_char('\u{200b}'));
    assert!(same_text("ab", "ab"));
    assert!(!same_text("ab", "abc"));
}

#[test]
fn config_from_arguments() {
    let args: Vec<String> = vec!["app".into(), " practice ".into(), " Chemistry".into()];
    let c = Config::new(&args).unwrap();
    assert_eq!(c.option.as_deref(), Some("practice"));
    assert_eq!(c.topic.as_deref(), Some("Chemistry"));
    assert_eq!(c.action(), Action::Practice);

    let args: Vec<String> = vec!["app".into(), "add".into()];
    let c = Config::new(&args).unwrap();
    assert_eq!(c.option.as_deref(), Some("add"));
    assert_eq!(c.topic, None);
    assert_eq!(c.action(), Action::Add);

    let args: Vec<String> = vec!["app".into()];
    let c = Config::new(&args).unwrap();
    assert_eq!(c.option, None);
    assert_eq!(c.action(), Action::Unknown);
}

#[test]
fn actions_are_matched_exactly() {
    assert_eq!(classify_action("add"), Action::Add);
    assert_eq!(classify_action("practice"), Action::Practice);
    assert_eq!(classify_action("q"), Action::Quit);
    assert_eq!(classify_action("Add"), Action::Unknown);
    assert_eq!(classify_action(""), Action::Unknown);
}

#[test]
fn topic_path_is_lowercased() {
    assert_eq!(topic_file_path(" Chemistry "), "src/topics/chemistry.txt");
    assert_eq!(topic_file_path("math"), "src/topics/math.txt");
}

#[test]
fn continue_answer() {
    assert!(continue_requested("Y"));
    assert!(continue_requested("y"));
    assert!(!continue_requested("n"));
    assert!(!continue_requested("yes"));
}
