//! The values that a statement binds to its placeholders and that a row holds.

use vstd::prelude::*;

verus! {

/// A value bound to a placeholder, or read from a column of a row.
#[derive(Debug, PartialEq, Eq)]
pub enum Value {
    Integer(i64),
    Text(String),
}

/// What a `Value` stands for: an integer, or a text as its characters.
pub enum ValueView {
    Integer(int),
    Text(Seq<char>),
}

impl View for Value {
    type V = ValueView;

    open spec fn view(&self) -> ValueView {
        match self {
            Value::Integer(i) => ValueView::Integer(*i as int),
            Value::Text(s) => ValueView::Text(s@),
        }
    }
}

impl DeepView for Value {
    type V = ValueView;

    open spec fn deep_view(&self) -> ValueView {
        self@
    }
}

impl Clone for Value {
    fn clone(&self) -> (r: Self)
        ensures
            r == *self,
    {
        match self {
            Value::Integer(i) => Value::Integer(*i),
            Value::Text(s) => Value::Text(s.clone()),
        }
    }
}

/// The view of an optional integer column.
pub open spec fn integer_view(v: Option<i64>) -> Option<ValueView> {
    match v {
        Some(i) => Some(ValueView::Integer(i as int)),
        None => None,
    }
}

/// The view of an optional text column.
pub open spec fn text_view(v: Option<String>) -> Option<ValueView> {
    match v {
        Some(s) => Some(ValueView::Text(s@)),
        None => None,
    }
}

/// Appends the values of `more` to `values`, keeping their order.
pub fn extend_values(values: &mut Vec<Value>, more: &Vec<Value>)
    ensures
        final(values).deep_view() == old(values).deep_view() + more.deep_view(),
{
    let ghost all = more.deep_view();
    let ghost start = values.deep_view();
    let mut i: usize = 0;
    while i < more.len()
        invariant
            i <= more.len(),
            more.deep_view() == all,
            values.deep_view() == start + all.take(i as int),
        decreases more.len() - i,
    {
        let v = more[i].clone();
        let ghost before = values.deep_view();
        values.push(v);
        assert(values.deep_view() =~= before.push(all[i as int]));
        assert(all.take(i + 1) =~= all.take(i as int).push(all[i as int]));
        assert(values.deep_view() =~= start + all.take(i + 1));
        i += 1;
    }
    assert(all.take(more.len() as int) =~= all);
}

} // verus!
