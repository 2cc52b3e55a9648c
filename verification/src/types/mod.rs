//! The record kinds, and the filters that a request selects for each of them.

pub mod comment;
pub mod note;
pub mod punch;
pub mod user;

use vstd::prelude::*;
use vstd::string::*;
use vstd::std_specs::convert::TryFromSpecImpl;
use crate::criteria::{all_plain_predicates, Predicate, Query};
use crate::store::predicates_of;
use crate::types::comment::{comment_filter, lemma_comment_filter_plain, CommentQuery};
use crate::types::note::{lemma_note_filter_plain, note_filter, NoteQuery};
use crate::types::punch::{lemma_punch_filter_plain, punch_filter, PunchQuery};
use crate::types::user::{lemma_user_filter_plain, user_filter, UserQuery};
use crate::value::Value;

verus! {

/// A record kind, as a request names it.
#[derive(Debug, Clone, Copy, PartialEq, Eq, Structural)]
pub enum DataType {
    User,
    Note,
    Comment,
    Punch,
}

impl DataType {
    /// The name of the kind in the path of a request.
    pub open spec fn spec_name(self) -> Seq<char> {
        match self {
            DataType::User => "user"@,
            DataType::Note => "note"@,
            DataType::Comment => "comment"@,
            DataType::Punch => "punch"@,
        }
    }

    /// The name of the kind in the path of a request.
    pub fn name(&self) -> (r: &'static str)
        ensures
            r@ == self.spec_name(),
    {
        match self {
            DataType::User => "user",
            DataType::Note => "note",
            DataType::Comment => "comment",
            DataType::Punch => "punch",
        }
    }

    /// The kind that `name` names, if it names one.
    pub fn from_name(name: &str) -> (r: Option<DataType>)
        ensures
            match r {
                Some(kind) => name@ == kind.spec_name(),
                None => forall|kind: DataType| name@ != kind.spec_name(),
            },
    {
        let name = String::from_str(name);
        if name == String::from_str("user") {
            Some(DataType::User)
        } else if name == String::from_str("note") {
            Some(DataType::Note)
        } else if name == String::from_str("comment") {
            Some(DataType::Comment)
        } else if name == String::from_str("punch") {
            Some(DataType::Punch)
        } else {
            None
        }
    }
}

/// The filter that the key `key` with the value `val` selects for records of
/// the kind `kind`, if it selects one.
pub open spec fn filter_of(kind: DataType, key: Seq<char>, val: Seq<char>) -> Option<Predicate> {
    match kind {
        DataType::User => user_filter(key, val),
        DataType::Note => note_filter(key, val),
        DataType::Comment => comment_filter(key, val),
        DataType::Punch => punch_filter(key, val),
    }
}

/// No filter of any kind names a column with a placeholder in it.
pub proof fn lemma_filter_plain(kind: DataType, key: Seq<char>, val: Seq<char>)
    ensures
        filter_of(kind, key, val) matches Some(p) ==> p.plain(),
{
    lemma_user_filter_plain(key, val);
    lemma_note_filter_plain(key, val);
    lemma_comment_filter_plain(key, val);
    lemma_punch_filter_plain(key, val);
}

/// A filter of any record kind.
#[derive(Debug)]
pub enum QueryTypes {
    UserQuery(UserQuery),
    NoteQuery(NoteQuery),
    CommentQuery(CommentQuery),
    PunchQuery(PunchQuery),
}

impl Query for QueryTypes {
    open spec fn predicate(&self) -> Predicate {
        match self {
            QueryTypes::UserQuery(inner) => inner.predicate(),
            QueryTypes::NoteQuery(inner) => inner.predicate(),
            QueryTypes::CommentQuery(inner) => inner.predicate(),
            QueryTypes::PunchQuery(inner) => inner.predicate(),
        }
    }

    fn build(&self) -> (r: (String, Vec<Value>)) {
        match self {
            QueryTypes::UserQuery(inner) => inner.build(),
            QueryTypes::NoteQuery(inner) => inner.build(),
            QueryTypes::CommentQuery(inner) => inner.build(),
            QueryTypes::PunchQuery(inner) => inner.build(),
        }
    }
}

impl TryFrom<(&DataType, (&String, &String))> for QueryTypes {
    type Error = ();

    /// The filter that a key and its value select for a kind; an error where
    /// they select none.
    fn try_from(from: (&DataType, (&String, &String))) -> (r: Result<Self, ()>)
        ensures
            match r {
                Ok(q) => filter_of(*from.0, from.1.0@, from.1.1@) == Some(q.predicate()),
                Err(_) => filter_of(*from.0, from.1.0@, from.1.1@) is None,
            },
    {
        let (dt, (query, val)) = from;
        match dt {
            DataType::User => match UserQuery::try_from((query, val)) {
                Ok(q) => Ok(QueryTypes::UserQuery(q)),
                Err(_) => Err(()),
            },
            DataType::Note => match NoteQuery::try_from((query, val)) {
                Ok(q) => Ok(QueryTypes::NoteQuery(q)),
                Err(_) => Err(()),
            },
            DataType::Comment => match CommentQuery::try_from((query, val)) {
                Ok(q) => Ok(QueryTypes::CommentQuery(q)),
                Err(_) => Err(()),
            },
            DataType::Punch => match PunchQuery::try_from((query, val)) {
                Ok(q) => Ok(QueryTypes::PunchQuery(q)),
                Err(_) => Err(()),
            },
        }
    }
}

impl TryFromSpecImpl<(&DataType, (&String, &String))> for QueryTypes {
    /// Two filters are the same where they apply the same predicate, which
    /// equality of values does not express: the conversion is specified by
    /// the contract of `try_from`, not by a value.
    open spec fn obeys_try_from_spec() -> bool {
        false
    }

    open spec fn try_from_spec(from: (&DataType, (&String, &String))) -> Result<Self, ()> {
        arbitrary()
    }
}

/// The filters that the pairs of key and value select for the kind `kind`, in
/// the order of the pairs. A pair that selects none is left out.
pub open spec fn selected_filters(kind: DataType, pairs: Seq<(Seq<char>, Seq<char>)>) -> Seq<
    Predicate,
>
    decreases pairs.len(),
{
    if pairs.len() == 0 {
        Seq::empty()
    } else {
        let before = selected_filters(kind, pairs.drop_last());
        match filter_of(kind, pairs.last().0, pairs.last().1) {
            Some(p) => before.push(p),
            None => before,
        }
    }
}

/// Every selected filter is free of placeholders in its column names.
pub proof fn lemma_selected_filters_plain(kind: DataType, pairs: Seq<(Seq<char>, Seq<char>)>)
    ensures
        all_plain_predicates(selected_filters(kind, pairs)),
    decreases pairs.len(),
{
    if pairs.len() > 0 {
        let before = selected_filters(kind, pairs.drop_last());
        lemma_selected_filters_plain(kind, pairs.drop_last());
        lemma_filter_plain(kind, pairs.last().0, pairs.last().1);
        assert forall|i: int| 0 <= i < selected_filters(kind, pairs).len() implies (
        #[trigger] selected_filters(kind, pairs)[i]).plain() by {
            if i < before.len() {
                assert(selected_filters(kind, pairs)[i] == before[i]);
            }
        }
    }
}

/// The filters that the query parameters of a request select.
pub struct ExtractGlonkQueries(pub Vec<QueryTypes>);

impl ExtractGlonkQueries {
    /// Reads the filters of the kind `data_type` from the pairs of key and
    /// value. Keys that the kind does not know, and values that cannot be read,
    /// are dropped without an error.
    pub fn from_pairs(data_type: &DataType, pairs: &Vec<(String, String)>) -> (r: Self)
        ensures
            predicates_of(r.0@) == selected_filters(*data_type, pairs.deep_view()),
            all_plain_predicates(predicates_of(r.0@)),
    {
        proof {
            lemma_selected_filters_plain(*data_type, pairs.deep_view());
        }
        let mut out: Vec<QueryTypes> = Vec::new();
        let mut i: usize = 0;
        while i < pairs.len()
            invariant
                i <= pairs.len(),
                predicates_of(out@) == selected_filters(
                    *data_type,
                    pairs.deep_view().take(i as int),
                ),
            decreases pairs.len() - i,
        {
            let ghost before = out@;
            assert(pairs.deep_view().take(i + 1).drop_last() =~= pairs.deep_view().take(i as int));
            assert(pairs.deep_view().take(i + 1).last() == (pairs[i as int].0@, pairs[i as int].1@));
            match QueryTypes::try_from((data_type, (&pairs[i].0, &pairs[i].1))) {
                Ok(q) => {
                    out.push(q);
                    assert(predicates_of(out@) =~= predicates_of(before).push(q.predicate()));
                },
                Err(_) => {},
            }
            i += 1;
        }
        assert(pairs.deep_view().take(pairs.len() as int) =~= pairs.deep_view());
        ExtractGlonkQueries(out)
    }
}

} // verus!
