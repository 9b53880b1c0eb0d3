//! What the command line asks for: an activity and a topic.
use vstd::prelude::*;
use crate::question::{lower_of, lowercase};
use crate::text::{same_text, trim, trim_text};

verus! {

/// The activity and the topic given on the command line; a missing one is
/// asked for interactively by the caller.
pub struct Config {
    pub option: Option<String>,
    pub topic: Option<String>,
}

/// The text an optional string holds.
pub open spec fn text_of(o: Option<String>) -> Option<Seq<char>> {
    match o {
        Some(s) => Some(s@),
        None => None,
    }
}

/// What the user asked to do.
#[derive(Debug, Clone, Copy, PartialEq, Eq, Structural)]
pub enum Action {
    /// Add a new term to a topic.
    Add,
    /// Practise a topic.
    Practice,
    /// Leave the program.
    Quit,
    /// Anything else.
    Unknown,
}

/// The action named by `option`.
pub open spec fn action_of(option: Seq<char>) -> Action {
    if option == "add"@ {
        Action::Add
    } else if option == "practice"@ {
        Action::Practice
    } else if option == "q"@ {
        Action::Quit
    } else {
        Action::Unknown
    }
}

/// The action named by `option`, matched exactly.
pub fn classify_action(option: &str) -> (r: Action)
    ensures
        r == action_of(option@),
{
    if same_text(option, "add") {
        Action::Add
    } else if same_text(option, "practice") {
        Action::Practice
    } else if same_text(option, "q") {
        Action::Quit
    } else {
        Action::Unknown
    }
}

impl Config {
    /// Reads `program [option] [topic]`: with both, each is trimmed; with the
    /// option alone, the topic is left for the caller to ask; with neither,
    /// both are.
    pub fn new(args: &[String]) -> (r: Result<Config, &str>)
        ensures
            r is Ok,
            args@.len() == 3 ==> text_of(r->Ok_0.option) == Some(trim(args@[1]@)) && text_of(
                r->Ok_0.topic,
            ) == Some(trim(args@[2]@)),
            args@.len() == 2 ==> text_of(r->Ok_0.option) == Some(trim(args@[1]@))
                && r->Ok_0.topic is None,
            args@.len() != 2 && args@.len() != 3 ==> r->Ok_0.option is None
                && r->Ok_0.topic is None,
    {
        if args.len() == 3 {
            Ok(
                Config {
                    option: Some(trim_text(args[1].as_str())),
                    topic: Some(trim_text(args[2].as_str())),
                },
            )
        } else if args.len() == 2 {
            Ok(Config { option: Some(trim_text(args[1].as_str())), topic: None })
        } else {
            Ok(Config { option: None, topic: None })
        }
    }

    /// The action the option names; none when the option is missing.
    pub fn action(&self) -> (r: Action)
        ensures
            r == match self.option {
                Some(o) => action_of(o@),
                None => Action::Unknown,
            },
    {
        match &self.option {
            Some(o) => classify_action(o.as_str()),
            None => Action::Unknown,
        }
    }
}

/// The path of the file that stores a topic: its trimmed name, lowercased.
pub fn topic_file_path(topic: &str) -> (r: String)
    ensures
        r@ == "src/topics/"@ + lower_of(trim(topic@)) + ".txt"@,
{
    let name = lowercase(trim_text(topic).as_str());
    let mut r = String::from_str("src/topics/");
    r.append(name.as_str());
    r.append(".txt");
    r
}

/// Whether the answer to "Try another question?" asks for one more.
pub fn continue_requested(answer: &str) -> (r: bool)
    ensures
        r == (lower_of(answer@) == "y"@),
{
    let lowered = lowercase(answer);
    same_text(lowered.as_str(), "y")
}

} // verus!
