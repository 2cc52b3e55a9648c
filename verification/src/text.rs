//! Text as sequences of characters: counting, joining, placeholder lists, and
//! the decimal notation of 64-bit integers.

use vstd::prelude::*;
use vstd::string::*;

verus! {

/// How often `c` occurs in `s`.
pub open spec fn count_char(s: Seq<char>, c: char) -> nat
    decreases s.len(),
{
    if s.len() == 0 {
        0
    } else {
        count_char(s.drop_last(), c) + if s.last() == c {
            1nat
        } else {
            0nat
        }
    }
}

/// The character that marks a bound parameter in a statement.
pub open spec fn placeholder() -> char {
    '?'
}

/// How many parameter placeholders `s` holds.
pub open spec fn count_placeholders(s: Seq<char>) -> nat {
    count_char(s, placeholder())
}

/// `s` holds no parameter placeholder.
pub open spec fn is_plain(s: Seq<char>) -> bool {
    forall|i: int| 0 <= i < s.len() ==> s[i] != placeholder()
}

/// Every text of `parts` is free of placeholders.
pub open spec fn all_plain(parts: Seq<Seq<char>>) -> bool {
    forall|i: int| 0 <= i < parts.len() ==> is_plain(#[trigger] parts[i])
}

/// The texts of `parts` in order, with `sep` between neighbours.
pub open spec fn join(parts: Seq<Seq<char>>, sep: Seq<char>) -> Seq<char>
    decreases parts.len(),
{
    if parts.len() == 0 {
        Seq::empty()
    } else if parts.len() == 1 {
        parts[0]
    } else {
        join(parts.drop_last(), sep) + sep + parts.last()
    }
}

/// The separator of the items of a list.
pub open spec fn comma() -> Seq<char> {
    seq![',']
}

/// `n` placeholders separated by commas: the empty text for 0, `?,?,?` for 3.
pub open spec fn placeholder_list(n: nat) -> Seq<char> {
    join(Seq::new(n, |i: int| seq![placeholder()]), comma())
}

/// Counting distributes over concatenation.
pub proof fn lemma_count_concat(a: Seq<char>, b: Seq<char>, c: char)
    ensures
        count_char(a + b, c) == count_char(a, c) + count_char(b, c),
    decreases b.len(),
{
    if b.len() == 0 {
        assert(a + b =~= a);
    } else {
        assert((a + b).drop_last() =~= a + b.drop_last());
        lemma_count_concat(a, b.drop_last(), c);
    }
}

/// A text without placeholders counts zero of them, and the other way round.
pub proof fn lemma_plain_counts_zero(s: Seq<char>)
    ensures
        is_plain(s) <==> count_placeholders(s) == 0,
    decreases s.len(),
{
    if s.len() > 0 {
        lemma_plain_counts_zero(s.drop_last());
        if is_plain(s) {
            assert forall|i: int| 0 <= i < s.drop_last().len() implies s.drop_last()[i]
                != placeholder() by {
                assert(s.drop_last()[i] == s[i]);
            }
        }
        if count_placeholders(s) == 0 {
            assert forall|i: int| 0 <= i < s.len() implies s[i] != placeholder() by {
                if i < s.len() - 1 {
                    assert(s.drop_last()[i] == s[i]);
                }
            }
        }
    }
}

/// Joining plain texts with a plain separator gives a plain text.
pub proof fn lemma_join_plain(parts: Seq<Seq<char>>, sep: Seq<char>)
    requires
        all_plain(parts),
        is_plain(sep),
    ensures
        is_plain(join(parts, sep)),
    decreases parts.len(),
{
    if parts.len() == 1 {
        assert(is_plain(parts[0]));
    } else if parts.len() > 1 {
        assert forall|i: int| 0 <= i < parts.drop_last().len() implies is_plain(
            #[trigger] parts.drop_last()[i],
        ) by {
            assert(parts.drop_last()[i] == parts[i]);
        }
        lemma_join_plain(parts.drop_last(), sep);
        assert(is_plain(parts.last()));
    }
}

/// A list of `n` placeholders holds exactly `n` of them.
pub proof fn lemma_placeholder_list_count(n: nat)
    ensures
        count_placeholders(placeholder_list(n)) == n,
    decreases n,
{
    let one = seq![placeholder()];
    let comma = comma();
    let parts = Seq::new(n, |i: int| one);
    assert(one.drop_last() =~= Seq::<char>::empty());
    assert(count_placeholders(one) == 1) by {
        assert(count_char(one.drop_last(), placeholder()) == 0);
    }
    if n == 1 {
        assert(join(parts, comma) == one);
    } else if n > 1 {
        let shorter = Seq::new((n - 1) as nat, |i: int| one);
        assert(parts.drop_last() =~= shorter);
        lemma_placeholder_list_count((n - 1) as nat);
        assert(comma.drop_last() =~= Seq::<char>::empty());
        assert(count_placeholders(comma) == 0) by {
            assert(count_char(comma.drop_last(), placeholder()) == 0);
        }
        lemma_count_concat(join(shorter, comma), comma, placeholder());
        lemma_count_concat(join(shorter, comma) + comma, one, placeholder());
    }
}

/// Joins `parts` with `sep` between neighbours.
pub fn join_strings(parts: &Vec<String>, sep: &str) -> (r: String)
    ensures
        r@ == join(parts.deep_view(), sep@),
{
    let mut out = String::new();
    let mut i: usize = 0;
    while i < parts.len()
        invariant
            i <= parts.len(),
            out@ == join(parts.deep_view().take(i as int), sep@),
        decreases parts.len() - i,
    {
        let ghost before = parts.deep_view().take(i as int);
        let ghost after = parts.deep_view().take(i + 1);
        assert(after.drop_last() =~= before);
        assert(after.last() == parts[i as int]@);
        if i > 0 {
            out.append(sep);
        } else {
            assert(out@ + parts[i as int]@ =~= parts[i as int]@);
        }
        out.append(parts[i].as_str());
        i += 1;
    }
    assert(parts.deep_view().take(parts.len() as int) =~= parts.deep_view());
    out
}

/// The comma-separated list of `n` placeholders.
pub fn placeholders(n: usize) -> (r: String)
    ensures
        r@ == placeholder_list(n as nat),
{
    let mut out = String::new();
    let mut i: usize = 0;
    let ghost one = seq![placeholder()];
    while i < n
        invariant
            i <= n,
            one == seq![placeholder()],
            out@ == placeholder_list(i as nat),
        decreases n - i,
    {
        let ghost before = Seq::new(i as nat, |k: int| one);
        let ghost after = Seq::new((i + 1) as nat, |k: int| one);
        assert(after.drop_last() =~= before);
        proof {
            reveal_strlit("?");
            reveal_strlit(",");
        }
        assert("?"@ =~= one);
        assert(","@ =~= comma());
        if i > 0 {
            out.append(",");
        } else {
            assert(out@ + one =~= one);
        }
        out.append("?");
        i += 1;
    }
    out
}

/// Whether `c` is one of the ten decimal digits.
pub open spec fn is_digit(c: char) -> bool {
    '0' <= c <= '9'
}

/// Every character of `s` is a decimal digit.
pub open spec fn all_digits(s: Seq<char>) -> bool {
    forall|i: int| 0 <= i < s.len() ==> is_digit(#[trigger] s[i])
}

/// The number that the digits of `s` write in base ten; 0 for the empty text.
pub open spec fn digits_value(s: Seq<char>) -> int
    decreases s.len(),
{
    if s.len() == 0 {
        0
    } else {
        digits_value(s.drop_last()) * 10 + (s.last() as int - '0' as int)
    }
}

/// The 64-bit integer that `s` writes in decimal notation: an optional `+` or
/// `-`, then one or more digits and nothing else, the number within the range
/// of `i64`. `None` for every other text.
pub open spec fn decimal_i64(s: Seq<char>) -> Option<i64> {
    let signed = s.len() > 0 && (s[0] == '-' || s[0] == '+');
    let negative = s.len() > 0 && s[0] == '-';
    let digits = if signed {
        s.skip(1)
    } else {
        s
    };
    let number = if negative {
        -digits_value(digits)
    } else {
        digits_value(digits)
    };
    if digits.len() > 0 && all_digits(digits) && i64::MIN <= number <= i64::MAX {
        Some(number as i64)
    } else {
        None
    }
}

/// `a` and `b` are the same character, or the same ASCII letter in upper and
/// in lower case.
pub open spec fn same_letter(a: char, b: char) -> bool {
    ||| a == b
    ||| 'A' <= a <= 'Z' && b as int == a as int + 32
    ||| 'A' <= b <= 'Z' && a as int == b as int + 32
}

/// `a` and `b` are the same text but for the case of their ASCII letters.
pub open spec fn same_ignoring_ascii_case(a: Seq<char>, b: Seq<char>) -> bool {
    a.len() == b.len() && forall|i: int| 0 <= i < a.len() ==> same_letter(a[i], b[i])
}

} // verus!
