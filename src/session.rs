//! One practice session over a topic's records: each round draws a correct
//! index never drawn before in the session, and three decoys.
use vstd::prelude::*;
use crate::error::QuizError;
use crate::question::{
    all_term_records, create_question, is_question_for, record_views, MultipleChoice,
};
use crate::sampler::{eligible, generate_random_number};

verus! {

/// The state of a practice session: the topic's records and the indices that
/// have been the correct answer so far.
pub struct Session {
    records: Vec<String>,
    used: Vec<u64>,
}

/// Some index of a corpus of `max >= 5` records is eligible while at most
/// three are ruled out.
proof fn lemma_room_for_decoy(max: u64, exclude: Seq<u64>)
    requires
        max >= 5,
        exclude.len() <= 3,
    ensures
        exists|v: u64| eligible(max, exclude, v),
{
    if !eligible(max, exclude, 1) && !eligible(max, exclude, 2) && !eligible(max, exclude, 3)
        && !eligible(max, exclude, 4) {
        let k1 = choose|k: int| 0 <= k < exclude.len() && exclude[k] == 1;
        let k2 = choose|k: int| 0 <= k < exclude.len() && exclude[k] == 2;
        let k3 = choose|k: int| 0 <= k < exclude.len() && exclude[k] == 3;
        let k4 = choose|k: int| 0 <= k < exclude.len() && exclude[k] == 4;
        assert(k1 != k2 && k1 != k3 && k1 != k4 && k2 != k3 && k2 != k4 && k3 != k4);
    }
}

impl Session {
    /// The records of the session's topic.
    pub closed spec fn corpus(&self) -> Seq<Seq<char>> {
        self.records@.map_values(|s: String| s@)
    }

    /// The indices drawn as correct answers so far, in order.
    pub closed spec fn asked(&self) -> Seq<u64> {
        self.used@
    }

    /// More than three records; each asked index is an eligible one, asked once.
    pub closed spec fn wf(&self) -> bool {
        &&& self.records@.len() > 3
        &&& self.used@.no_duplicates()
        &&& forall|k: int| 0 <= k < self.used@.len() ==> 1 <= #[trigger] self.used@[k] < self.records@.len()
    }

    /// Starts a session over `records`; fewer than four records are refused
    /// before anything is drawn.
    pub fn start(records: Vec<String>) -> (r: Result<Session, QuizError>)
        ensures
            match r {
                Ok(s) => records@.len() > 3 && s.wf() && s.corpus() == records@.map_values(
                    |s: String| s@,
                ) && s.asked() == Seq::<u64>::empty(),
                Err(e) => records@.len() <= 3 && e == QuizError::InsufficientCorpus,
            },
    {
        if records.len() <= 3 {
            return Err(QuizError::InsufficientCorpus);
        }
        Ok(Session { records, used: Vec::new() })
    }

    /// The number of records.
    pub fn corpus_len(&self) -> (r: usize)
        ensures
            r == self.corpus().len(),
    {
        self.records.len()
    }

    /// Draws the correct index of a new round: one never drawn before in this
    /// session, and never 0. It is recorded as asked.
    pub fn pick_correct_index(&mut self) -> (r: Result<u64, QuizError>)
        requires
            old(self).wf(),
        ensures
            final(self).wf(),
            final(self).corpus() == old(self).corpus(),
            match r {
                Ok(v) => 1 <= v < old(self).corpus().len() && !old(self).asked().contains(v)
                    && final(self).asked() == old(self).asked().push(v),
                Err(e) => e == QuizError::Exhausted && final(self).asked() == old(self).asked()
                    && forall|v: u64|
                    1 <= v < old(self).corpus().len() ==> old(self).asked().contains(v),
            },
    {
        let max = self.records.len() as u64;
        let exclude = self.used.clone();
        assert(exclude@ =~= self.used@);
        match generate_random_number(max, exclude) {
            Ok(v) => {
                self.used.push(v);
                assert(forall|k: int| 0 <= k < old(self).used@.len() ==> self.used@[k] == old(self).used@[k]);
                Ok(v)
            },
            Err(_) => {
                assert forall|v: u64| 1 <= v < old(self).corpus().len() implies old(self).asked().contains(v) by {
                    assert(!eligible(max, exclude@, v));
                }
                Err(QuizError::Exhausted)
            },
        }
    }

    /// Draws a round: `[correct, decoy, decoy, decoy]`, four distinct eligible
    /// indices, the correct one never drawn before in this session. Decoys need
    /// at least five records; when the round cannot be drawn nothing changes.
    pub fn next_round(&mut self) -> (r: Result<Vec<u64>, QuizError>)
        requires
            old(self).wf(),
        ensures
            final(self).wf(),
            final(self).corpus() == old(self).corpus(),
            match r {
                Ok(ix) => {
                    &&& ix@.len() == 4
                    &&& forall|a: int| 0 <= a < 4 ==> 1 <= #[trigger] ix@[a] < old(self).corpus().len()
                    &&& forall|a: int, b: int| 0 <= a < b < 4 ==> ix@[a] != ix@[b]
                    &&& !old(self).asked().contains(ix@[0])
                    &&& final(self).asked() == old(self).asked().push(ix@[0])
                },
                Err(e) => {
                    &&& final(self).asked() == old(self).asked()
                    &&& e == QuizError::InsufficientCorpus <==> old(self).corpus().len() <= 4
                    &&& e == QuizError::Exhausted <==> (old(self).corpus().len() > 4 && forall|v: u64|
                        1 <= v < old(self).corpus().len() ==> old(self).asked().contains(v))
                    &&& e != QuizError::MalformedRecord
                },
            },
    {
        let max = self.records.len() as u64;
        if max <= 4 {
            return Err(QuizError::InsufficientCorpus);
        }
        let correct = match self.pick_correct_index() {
            Ok(v) => v,
            Err(e) => {
                return Err(e);
            },
        };
        let ex1 = vec![correct];
        proof { lemma_room_for_decoy(max, ex1@); }
        let first_decoy = match generate_random_number(max, ex1) {
            Ok(v) => v,
            Err(e) => {
                return Err(e);
            },
        };
        let ex2 = vec![correct, first_decoy];
        proof { lemma_room_for_decoy(max, ex2@); }
        let second_decoy = match generate_random_number(max, ex2) {
            Ok(v) => v,
            Err(e) => {
                return Err(e);
            },
        };
        let ex3 = vec![correct, first_decoy, second_decoy];
        proof { lemma_room_for_decoy(max, ex3@); }
        let third_decoy = match generate_random_number(max, ex3) {
            Ok(v) => v,
            Err(e) => {
                return Err(e);
            },
        };
        assert(ex1@.contains(ex1@[0]));
        assert(ex2@.contains(ex2@[0]) && ex2@.contains(ex2@[1]));
        assert(ex3@.contains(ex3@[0]) && ex3@.contains(ex3@[1]) && ex3@.contains(ex3@[2]));
        Ok(vec![correct, first_decoy, second_decoy, third_decoy])
    }

    /// Builds the question of a round: the records at `round`, in that order,
    /// with the correct option drawn among the first three.
    pub fn question(&self, round: &Vec<u64>) -> (r: Result<MultipleChoice, QuizError>)
        requires
            self.wf(),
            round@.len() == 4,
            forall|a: int| 0 <= a < 4 ==> #[trigger] round@[a] < self.corpus().len(),
        ensures
            match r {
                Ok(q) => all_term_records(chosen(self.corpus(), round@)) && exists|position: int|
                    0 <= position < 3 && is_question_for(q, chosen(self.corpus(), round@), position),
                Err(e) => !all_term_records(chosen(self.corpus(), round@)) && e
                    == QuizError::MalformedRecord,
            },
    {
        let mut answer_options: Vec<&String> = Vec::new();
        let mut k: usize = 0;
        while k < 4
            invariant
                self.wf(),
                round@.len() == 4,
                forall|a: int| 0 <= a < 4 ==> #[trigger] round@[a] < self.corpus().len(),
                k <= 4,
                answer_options@.len() == k,
                forall|a: int| 0 <= a < k ==> #[trigger] answer_options@[a]@ == self.records@[round@[a] as int]@,
            decreases 4 - k,
        {
            let n: usize = self.records.len();
            assert(round@[k as int] < n);
            let i = round[k] as usize;
            assert(i == round@[k as int]);
            answer_options.push(&self.records[i]);
            k = k + 1;
        }
        assert forall|k: int| 0 <= k < 4 implies #[trigger] record_views(answer_options@)[k] == chosen(
            self.corpus(),
            round@,
        )[k] by {
            assert(round@[k] < self.records@.len());
        }
        assert(record_views(answer_options@) =~= chosen(self.corpus(), round@));
        create_question(answer_options)
    }
}

/// The records of `corpus` at the indices of `round`, in order.
pub open spec fn chosen(corpus: Seq<Seq<char>>, round: Seq<u64>) -> Seq<Seq<char>> {
    round.map_values(|i: u64| corpus[i as int])
}

/// Within one session no index is the correct answer of two rounds: the
/// indices asked so far are pairwise distinct, and each round appends its
/// correct index to them.
pub proof fn lemma_session_non_repeat(s: &Session, earlier: int, later: int)
    requires
        s.wf(),
        0 <= earlier < later < s.asked().len(),
    ensures
        s.asked()[earlier] != s.asked()[later],
{
}

} // verus!
