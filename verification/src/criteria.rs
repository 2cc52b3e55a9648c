//! The criteria algebra: predicates over the columns of a record kind that
//! render as a fragment of a statement with `?` in place of every literal, and
//! the literals as an ordered list of values to bind.

use vstd::prelude::*;
use vstd::string::*;
use crate::text::{count_placeholders, is_plain, lemma_count_concat, lemma_plain_counts_zero, placeholder, count_char};
use crate::value::{extend_values, Value, ValueView};

verus! {

/// A predicate as a mathematical value.
pub enum Predicate {
    /// The column `field` equals `value`.
    Equals { field: Seq<char>, value: ValueView },
    /// The text column `field` contains `needle`.
    Contains { field: Seq<char>, needle: Seq<char> },
    /// Both hold.
    And(Box<Predicate>, Box<Predicate>),
    /// At least one holds.
    Or(Box<Predicate>, Box<Predicate>),
}

/// The pattern that matches every text containing `needle`. The needle is not
/// escaped: a `%` or `_` in it acts as a wildcard.
pub open spec fn like_pattern(needle: Seq<char>) -> Seq<char> {
    seq!['%'] + needle + seq!['%']
}

/// `((left) word (right))`
pub open spec fn combined(left: Seq<char>, word: Seq<char>, right: Seq<char>) -> Seq<char> {
    "(("@ + left + ") "@ + word + " ("@ + right + "))"@
}

impl Predicate {
    /// The fragment of a statement that states the predicate, with a
    /// placeholder for every literal.
    pub open spec fn fragment(self) -> Seq<char>
        decreases self,
    {
        match self {
            Predicate::Equals { field, value } => field + " = ?"@,
            Predicate::Contains { field, needle } => field + " LIKE ?"@,
            Predicate::And(l, r) => combined(l.fragment(), "and"@, r.fragment()),
            Predicate::Or(l, r) => combined(l.fragment(), "or"@, r.fragment()),
        }
    }

    /// The values to bind, in the order of the fragment's placeholders.
    pub open spec fn values(self) -> Seq<ValueView>
        decreases self,
    {
        match self {
            Predicate::Equals { field, value } => seq![value],
            Predicate::Contains { field, needle } => seq![ValueView::Text(like_pattern(needle))],
            Predicate::And(l, r) => l.values() + r.values(),
            Predicate::Or(l, r) => l.values() + r.values(),
        }
    }

    /// No column name of the predicate holds a placeholder.
    pub open spec fn plain(self) -> bool
        decreases self,
    {
        match self {
            Predicate::Equals { field, value } => is_plain(field),
            Predicate::Contains { field, needle } => is_plain(field),
            Predicate::And(l, r) => l.plain() && r.plain(),
            Predicate::Or(l, r) => l.plain() && r.plain(),
        }
    }
}

/// No column name of any predicate of the list holds a placeholder.
pub open spec fn all_plain_predicates(predicates: Seq<Predicate>) -> bool {
    forall|i: int| 0 <= i < predicates.len() ==> (#[trigger] predicates[i]).plain()
}

/// The fixed pieces of text in a fragment and the placeholders they hold.
pub proof fn lemma_fragment_pieces()
    ensures
        count_placeholders(" = ?"@) == 1,
        count_placeholders(" LIKE ?"@) == 1,
        count_placeholders("(("@) == 0,
        count_placeholders(") "@) == 0,
        count_placeholders(" ("@) == 0,
        count_placeholders("))"@) == 0,
        count_placeholders("and"@) == 0,
        count_placeholders("or"@) == 0,
{
    reveal_strlit(" = ?");
    reveal_strlit(" LIKE ?");
    reveal_strlit("((");
    reveal_strlit(") ");
    reveal_strlit(" (");
    reveal_strlit("))");
    reveal_strlit("and");
    reveal_strlit("or");
    reveal_with_fuel(count_char, 9);
    assert(" = ?"@ =~= seq![' ', '=', ' ', '?']);
    assert(" LIKE ?"@ =~= seq![' ', 'L', 'I', 'K', 'E', ' ', '?']);
    lemma_plain_counts_zero("(("@);
    lemma_plain_counts_zero(") "@);
    lemma_plain_counts_zero(" ("@);
    lemma_plain_counts_zero("))"@);
    lemma_plain_counts_zero("and"@);
    lemma_plain_counts_zero("or"@);
    lemma_count_concat(seq![' ', '=', ' '], seq!['?'], placeholder());
    lemma_plain_counts_zero(seq![' ', '=', ' ']);
    lemma_count_concat(seq![' ', 'L', 'I', 'K', 'E', ' '], seq!['?'], placeholder());
    lemma_plain_counts_zero(seq![' ', 'L', 'I', 'K', 'E', ' ']);
    assert(seq![' ', '=', ' '] + seq!['?'] =~= seq![' ', '=', ' ', '?']);
    assert(seq![' ', 'L', 'I', 'K', 'E', ' '] + seq!['?'] =~= seq![
        ' ',
        'L',
        'I',
        'K',
        'E',
        ' ',
        '?',
    ]);
    assert(seq!['?'].drop_last() =~= Seq::<char>::empty());
}

/// A combination holds the placeholders of its two sides, and those of the
/// connecting word, and no other.
pub proof fn lemma_combined_count(left: Seq<char>, word: Seq<char>, right: Seq<char>)
    ensures
        count_placeholders(combined(left, word, right)) == count_placeholders(left)
            + count_placeholders(word) + count_placeholders(right),
{
    lemma_fragment_pieces();
    let q = placeholder();
    lemma_count_concat("(("@, left, q);
    lemma_count_concat("(("@ + left, ") "@, q);
    lemma_count_concat("(("@ + left + ") "@, word, q);
    lemma_count_concat("(("@ + left + ") "@ + word, " ("@, q);
    lemma_count_concat("(("@ + left + ") "@ + word + " ("@, right, q);
    lemma_count_concat("(("@ + left + ") "@ + word + " ("@ + right, "))"@, q);
}

/// Every predicate whose column names are free of placeholders renders a
/// fragment with exactly as many placeholders as it has values to bind,
/// however deep it nests.
pub proof fn lemma_placeholders_match_values(p: Predicate)
    requires
        p.plain(),
    ensures
        count_placeholders(p.fragment()) == p.values().len(),
    decreases p,
{
    lemma_fragment_pieces();
    match p {
        Predicate::Equals { field, value } => {
            lemma_plain_counts_zero(field);
            lemma_count_concat(field, " = ?"@, placeholder());
        },
        Predicate::Contains { field, needle } => {
            lemma_plain_counts_zero(field);
            lemma_count_concat(field, " LIKE ?"@, placeholder());
        },
        Predicate::And(l, r) => {
            lemma_placeholders_match_values(*l);
            lemma_placeholders_match_values(*r);
            lemma_combined_count(l.fragment(), "and"@, r.fragment());
        },
        Predicate::Or(l, r) => {
            lemma_placeholders_match_values(*l);
            lemma_placeholders_match_values(*r);
            lemma_combined_count(l.fragment(), "or"@, r.fragment());
        },
    }
}

/// Combining two predicates keeps the order from left to right: the values of
/// the left side come first and unchanged, those of the right side follow, and
/// the fragment holds the placeholders of the left fragment, then those of the
/// right one, and no other.
pub proof fn lemma_combination_keeps_order(l: Predicate, r: Predicate)
    ensures
        Predicate::And(Box::new(l), Box::new(r)).values() == l.values() + r.values(),
        Predicate::Or(Box::new(l), Box::new(r)).values() == l.values() + r.values(),
        Predicate::And(Box::new(l), Box::new(r)).fragment() == combined(
            l.fragment(),
            "and"@,
            r.fragment(),
        ),
        Predicate::Or(Box::new(l), Box::new(r)).fragment() == combined(
            l.fragment(),
            "or"@,
            r.fragment(),
        ),
        count_placeholders(Predicate::And(Box::new(l), Box::new(r)).fragment())
            == count_placeholders(l.fragment()) + count_placeholders(r.fragment()),
        count_placeholders(Predicate::Or(Box::new(l), Box::new(r)).fragment())
            == count_placeholders(l.fragment()) + count_placeholders(r.fragment()),
{
    lemma_fragment_pieces();
    lemma_combined_count(l.fragment(), "and"@, r.fragment());
    lemma_combined_count(l.fragment(), "or"@, r.fragment());
}

/// An equality and a containment joined by `and` render two placeholders and
/// bind the equality's value first, then the needle between two `%`.
pub proof fn lemma_equals_and_contains(
    f1: Seq<char>,
    v1: ValueView,
    f2: Seq<char>,
    v2: Seq<char>,
)
    requires
        is_plain(f1),
        is_plain(f2),
    ensures
        ({
            let p = Predicate::And(
                Box::new(Predicate::Equals { field: f1, value: v1 }),
                Box::new(Predicate::Contains { field: f2, needle: v2 }),
            );
            &&& p.fragment() == "(("@ + f1 + " = ?"@ + ") and ("@ + f2 + " LIKE ?"@ + "))"@
            &&& count_placeholders(p.fragment()) == 2
            &&& p.values() == seq![v1, ValueView::Text(seq!['%'] + v2 + seq!['%'])]
        }),
{
    let l = Predicate::Equals { field: f1, value: v1 };
    let r = Predicate::Contains { field: f2, needle: v2 };
    let p = Predicate::And(Box::new(l), Box::new(r));
    assert(l.plain() && r.plain());
    assert(l.fragment() == f1 + " = ?"@);
    assert(r.fragment() == f2 + " LIKE ?"@);
    assert(l.values() == seq![v1]);
    assert(r.values() == seq![ValueView::Text(like_pattern(v2))]);
    assert(p.plain());
    assert(p.fragment() == combined(l.fragment(), "and"@, r.fragment()));
    assert(p.values() == l.values() + r.values());
    lemma_placeholders_match_values(p);
    reveal_strlit(") ");
    reveal_strlit(" (");
    reveal_strlit("and");
    reveal_strlit(") and (");
    assert(") "@ + "and"@ + " ("@ =~= ") and ("@);
    assert(p.fragment() =~= "(("@ + f1 + " = ?"@ + ") and ("@ + f2 + " LIKE ?"@ + "))"@);
    assert(p.values() =~= seq![v1, ValueView::Text(seq!['%'] + v2 + seq!['%'])]);
}

/// A predicate that renders itself.
pub trait Criteria {
    /// The predicate that the value stands for.
    spec fn predicate(&self) -> Predicate;

    /// The fragment and the values to bind to its placeholders, in order.
    fn build(&self) -> (r: (String, Vec<Value>))
        ensures
            r.0@ == self.predicate().fragment(),
            r.1.deep_view() == self.predicate().values(),
    ;
}

/// A filter of a record kind, which renders as the criteria it is made of.
pub trait Query {
    /// The predicate that the filter applies.
    spec fn predicate(&self) -> Predicate;

    /// The fragment and the values to bind to its placeholders, in order.
    fn build(&self) -> (r: (String, Vec<Value>))
        ensures
            r.0@ == self.predicate().fragment(),
            r.1.deep_view() == self.predicate().values(),
    ;
}

/// The text column `field` contains `val`.
#[derive(Debug)]
pub struct ContainsCriteria {
    pub field: String,
    pub val: String,
}

impl Criteria for ContainsCriteria {
    open spec fn predicate(&self) -> Predicate {
        Predicate::Contains { field: self.field@, needle: self.val@ }
    }

    fn build(&self) -> (r: (String, Vec<Value>)) {
        let mut fragment = self.field.clone();
        fragment.append(" LIKE ?");
        let mut pattern = String::from_str("%");
        pattern.append(self.val.as_str());
        pattern.append("%");
        proof {
            reveal_strlit("%");
            assert("%"@ =~= seq!['%']);
        }
        let mut values: Vec<Value> = Vec::new();
        values.push(Value::Text(pattern));
        assert(values.deep_view() =~= self.predicate().values());
        (fragment, values)
    }
}

/// The column `field` equals `val`.
#[derive(Debug)]
pub struct EqualsCriteria {
    pub field: String,
    pub val: Value,
}

impl Criteria for EqualsCriteria {
    open spec fn predicate(&self) -> Predicate {
        Predicate::Equals { field: self.field@, value: self.val@ }
    }

    fn build(&self) -> (r: (String, Vec<Value>)) {
        let mut fragment = self.field.clone();
        fragment.append(" = ?");
        let mut values: Vec<Value> = Vec::new();
        values.push(self.val.clone());
        assert(values.deep_view() =~= self.predicate().values());
        (fragment, values)
    }
}

/// Renders `((left) word (right))` with the values of the left side followed
/// by those of the right side.
fn combine(left: (String, Vec<Value>), word: &str, right: (String, Vec<Value>)) -> (r: (
    String,
    Vec<Value>,
))
    ensures
        r.0@ == combined(left.0@, word@, right.0@),
        r.1.deep_view() == left.1.deep_view() + right.1.deep_view(),
{
    let (lq, lv) = left;
    let (rq, rv) = right;
    let mut fragment = String::from_str("((");
    fragment.append(lq.as_str());
    fragment.append(") ");
    fragment.append(word);
    fragment.append(" (");
    fragment.append(rq.as_str());
    fragment.append("))");
    let mut values = lv;
    extend_values(&mut values, &rv);
    (fragment, values)
}

/// Both `left` and `right` hold.
#[derive(Debug)]
pub struct AndCriteria<L, R> where L: Criteria, R: Criteria {
    pub left: L,
    pub right: R,
}

impl<L, R> Criteria for AndCriteria<L, R> where L: Criteria, R: Criteria {
    open spec fn predicate(&self) -> Predicate {
        Predicate::And(Box::new(self.left.predicate()), Box::new(self.right.predicate()))
    }

    fn build(&self) -> (r: (String, Vec<Value>)) {
        combine(self.left.build(), "and", self.right.build())
    }
}

/// At least one of `left` and `right` holds.
#[derive(Debug)]
pub struct OrCriteria<L, R> where L: Criteria, R: Criteria {
    pub left: L,
    pub right: R,
}

impl<L, R> Criteria for OrCriteria<L, R> where L: Criteria, R: Criteria {
    open spec fn predicate(&self) -> Predicate {
        Predicate::Or(Box::new(self.left.predicate()), Box::new(self.right.predicate()))
    }

    fn build(&self) -> (r: (String, Vec<Value>)) {
        combine(self.left.build(), "or", self.right.build())
    }
}

} // verus!
