use grundit::criteria::{AndCriteria, ContainsCriteria, Criteria, EqualsCriteria, OrCriteria};
use grundit::value::Value;

fn equals(field: &str, val: Value) -> EqualsCriteria {
    EqualsCriteria { field: field.to_string(), val }
}

fn contains(field: &str, val: &str) -> ContainsCriteria {
    ContainsCriteria { field: field.to_string(), val: val.to_string() }
}

#[test]
fn equals_renders_one_placeholder() {
    let (fragment, values) = equals("owner_id", Value::Integer(5)).build();
    assert_eq!(fragment, "owner_id = ?");
    assert_eq!(values, vec![Value::Integer(5)]);
}

#[test]
fn contains_wraps_the_needle_in_wildcards() {
    let (fragment, values) = contains("contents", "milk").build();
    assert_eq!(fragment, "contents LIKE ?");
    assert_eq!(values, vec![Value::Text("%milk%".to_string())]);
}

#[test]
fn contains_does_not_escape_wildcards() {
    let (_, values) = contains("contents", "50%_off").build();
    assert_eq!(values, vec![Value::Text("%50%_off%".to_string())]);
}

#[test]
fn and_of_equals_and_contains() {
    let both = AndCriteria {
        left: equals("owner_id", Value::Integer(5)),
        right: contains("contents", "milk"),
    };
    let (fragment, values) = both.build();
    assert_eq!(fragment, "((owner_id = ?) and (contents LIKE ?))");
    assert_eq!(fragment.matches('?').count(), 2);
    assert_eq!(values, vec![Value::Integer(5), Value::Text("%milk%".to_string())]);
}

#[test]
fn or_keeps_left_before_right() {
    let either = OrCriteria {
        left: contains("contents", "a"),
        right: equals("guid", Value::Text("google/1".to_string())),
    };
    let (fragment, values) = either.build();
    assert_eq!(fragment, "((contents LIKE ?) or (guid = ?))");
    assert_eq!(
        values,
        vec![Value::Text("%a%".to_string()), Value::Text("google/1".to_string())]
    );
}

#[test]
fn nesting_preserves_order() {
    let nested = AndCriteria {
        left: OrCriteria {
            left: equals("a", Value::Integer(1)),
            right: AndCriteria {
                left: equals("b", Value::Integer(2)),
                right: contains("c", "three"),
            },
        },
        right: OrCriteria {
            left: contains("d", "four"),
            right: equals("e", Value::Integer(5)),
        },
    };
    let (fragment, values) = nested.build();
    assert_eq!(
        fragment,
        "((((a = ?) or (((b = ?) and (c LIKE ?))))) and (((d LIKE ?) or (e = ?))))"
    );
    assert_eq!(fragment.matches('?').count(), values.len());
    assert_eq!(
        values,
        vec![
            Value::Integer(1),
            Value::Integer(2),
            Value::Text("%three%".to_string()),
            Value::Text("%four%".to_string()),
            Value::Integer(5),
        ]
    );
}

#[test]
fn a_placeholder_in_a_column_name_is_not_bound() {
    let (fragment, values) = equals("why?", Value::Integer(1)).build();
    assert_eq!(fragment, "why? = ?");
    assert_eq!(fragment.matches('?').count(), 2);
    assert_eq!(values.len(), 1);
}

#[test]
fn a_placeholder_in_a_value_stays_in_the_value() {
    let (fragment, values) = contains("contents", "really?").build();
    assert_eq!(fragment, "contents LIKE ?");
    assert_eq!(values, vec![Value::Text("%really?%".to_string())]);
    let (fragment, values) = equals("guid", Value::Text("?".to_string())).build();
    assert_eq!(fragment, "guid = ?");
    assert_eq!(values, vec![Value::Text("?".to_string())]);
}

#[test]
fn and_of_and() {
    let inner = AndCriteria { left: equals("a", Value::Integer(1)), right: equals("b", Value::Integer(2)) };
    let outer = AndCriteria { left: inner, right: equals("c", Value::Integer(3)) };
    let (fragment, values) = outer.build();
    assert_eq!(fragment, "((((a = ?) and (b = ?))) and (c = ?))");
    assert_eq!(values, vec![Value::Integer(1), Value::Integer(2), Value::Integer(3)]);
}
