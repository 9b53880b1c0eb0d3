//! Term records: `keyword -$- meaning`.
use vstd::prelude::*;
use crate::error::QuizError;
use crate::text::{trim, trim_text};

verus! {

/// The delimiter between a keyword and its meaning: ` -$- `.
pub open spec fn delimiter() -> Seq<char> {
    seq![' ', '-', '$', '-', ' ']
}

/// The delimiter begins at position `i` of `s`.
pub open spec fn delimiter_at(s: Seq<char>, i: int) -> bool {
    0 <= i && i + 5 <= s.len() && s.subrange(i, i + 5) == delimiter()
}

/// The delimiter occurs in `s` at `i` and nowhere else.
pub open spec fn splits_once_at(s: Seq<char>, i: int) -> bool {
    delimiter_at(s, i) && forall|j: int| #[trigger] delimiter_at(s, j) ==> j == i
}

/// `s` is a well-formed record: exactly one delimiter, and two non-empty
/// fields once trimmed.
pub open spec fn is_term_record(s: Seq<char>) -> bool {
    exists|i: int|
        #![trigger splits_once_at(s, i)]
        splits_once_at(s, i) && trim(s.subrange(0, i)).len() > 0 && trim(
            s.subrange(i + 5, s.len() as int),
        ).len() > 0
}

/// Where the delimiter of a well-formed record stands.
pub open spec fn split_point(s: Seq<char>) -> int {
    choose|i: int| splits_once_at(s, i)
}

/// The trimmed keyword of a well-formed record.
pub open spec fn record_keyword(s: Seq<char>) -> Seq<char> {
    trim(s.subrange(0, split_point(s)))
}

/// The trimmed meaning of a well-formed record.
pub open spec fn record_meaning(s: Seq<char>) -> Seq<char> {
    trim(s.subrange(split_point(s) + 5, s.len() as int))
}

/// A keyword and its meaning, as read from a record.
pub struct Term {
    pub keyword: String,
    pub meaning: String,
}

/// Whether the delimiter begins at position `i` of `s`.
fn delimiter_at_index(s: &str, i: usize) -> (r: bool)
    requires
        i + 5 <= s@.len() <= usize::MAX,
    ensures
        r == delimiter_at(s@, i as int),
{
    let r = s.get_char(i) == ' ' && s.get_char(i + 1) == '-' && s.get_char(i + 2) == '$'
        && s.get_char(i + 3) == '-' && s.get_char(i + 4) == ' ';
    assert(r ==> s@.subrange(i as int, i + 5) =~= delimiter());
    r
}

/// Reads the keyword and the meaning of a record, each trimmed.
pub fn parse_record(record: &str) -> (r: Result<Term, QuizError>)
    ensures
        match r {
            Ok(t) => is_term_record(record@) && t.keyword@ == record_keyword(record@)
                && t.meaning@ == record_meaning(record@),
            Err(e) => !is_term_record(record@) && e == QuizError::MalformedRecord,
        },
{
    let n = record.unicode_len();
    let mut found: Option<usize> = None;
    let mut i: usize = 0;
    while n - i >= 5
        invariant
            n == record@.len(),
            i <= n,
            match found {
                None => forall|j: int| 0 <= j < i ==> !delimiter_at(record@, j),
                Some(p) => p < i && delimiter_at(record@, p as int) && forall|j: int|
                    0 <= j < i && j != p ==> !delimiter_at(record@, j),
            },
        decreases n - i,
    {
        if delimiter_at_index(record, i) {
            if let Some(p) = found {
                assert(!is_term_record(record@)) by {
                    if is_term_record(record@) {
                        let k = choose|k: int| #[trigger] splits_once_at(record@, k);
                        assert(delimiter_at(record@, p as int));
                        assert(delimiter_at(record@, i as int));
                    }
                }
                return Err(QuizError::MalformedRecord);
            }
            found = Some(i);
        }
        i = i + 1;
    }
    match found {
        None => {
            assert(!is_term_record(record@)) by {
                if is_term_record(record@) {
                    let k = choose|k: int| #[trigger] splits_once_at(record@, k);
                    assert(delimiter_at(record@, k));
                }
            }
            Err(QuizError::MalformedRecord)
        },
        Some(p) => {
            assert(splits_once_at(record@, p as int));
            assert(split_point(record@) == p as int);
            let keyword = trim_text(record.substring_char(0, p));
            let meaning = trim_text(record.substring_char(p + 5, n));
            if keyword.unicode_len() == 0 || meaning.unicode_len() == 0 {
                assert(!is_term_record(record@)) by {
                    if is_term_record(record@) {
                        let k = choose|k: int|
                            #![trigger splits_once_at(record@, k)]
                            splits_once_at(record@, k) && trim(record@.subrange(0, k)).len() > 0
                                && trim(record@.subrange(k + 5, record@.len() as int)).len() > 0;
                        assert(delimiter_at(record@, k));
                    }
                }
                Err(QuizError::MalformedRecord)
            } else {
                Ok(Term { keyword, meaning })
            }
        },
    }
}

/// A record written as `keyword -$- meaning` reads back as the trimmed
/// keyword and the trimmed meaning, whenever it is well formed.
pub proof fn lemma_parse_round_trip(keyword: Seq<char>, meaning: Seq<char>)
    requires
        is_term_record(keyword + delimiter() + meaning),
    ensures
        record_keyword(keyword + delimiter() + meaning) == trim(keyword),
        record_meaning(keyword + delimiter() + meaning) == trim(meaning),
{
    let s = keyword + delimiter() + meaning;
    let i = keyword.len() as int;
    assert(s.subrange(i, i + 5) =~= delimiter());
    assert(delimiter_at(s, i));
    let k = choose|k: int|
        #![trigger splits_once_at(s, k)]
        splits_once_at(s, k) && trim(s.subrange(0, k)).len() > 0 && trim(
            s.subrange(k + 5, s.len() as int),
        ).len() > 0;
    assert(splits_once_at(s, k));
    assert(splits_once_at(s, split_point(s)));
    assert(split_point(s) == i);
    assert(s.subrange(0, i) =~= keyword);
    assert(s.subrange(i + 5, s.len() as int) =~= meaning);
}

/// The record that stores `keyword` with `meaning`.
pub fn format_record(keyword: &str, meaning: &str) -> (r: String)
    ensures
        r@ == keyword@ + delimiter() + meaning@,
{
    let mut r = String::from_str(keyword);
    r.append(" -$- ");
    proof {
        reveal_strlit(" -$- ");
    }
    assert(" -$- "@ =~= delimiter());
    r.append(meaning);
    r
}

} // verus!
