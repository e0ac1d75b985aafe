//! Query parameters: optional fields, and numbers in decimal.

use vstd::prelude::*;
use vstd::string::*;

use crate::request::pairs_view;

verus! {

/// The character that stands for a digit.
pub open spec fn digit(d: nat) -> char
    recommends
        d < 10,
{
    if d == 0 {
        '0'
    } else if d == 1 {
        '1'
    } else if d == 2 {
        '2'
    } else if d == 3 {
        '3'
    } else if d == 4 {
        '4'
    } else if d == 5 {
        '5'
    } else if d == 6 {
        '6'
    } else if d == 7 {
        '7'
    } else if d == 8 {
        '8'
    } else {
        '9'
    }
}

/// The digit that a character stands for; 0 for any other character.
pub open spec fn digit_value(c: char) -> nat {
    if c == '1' {
        1
    } else if c == '2' {
        2
    } else if c == '3' {
        3
    } else if c == '4' {
        4
    } else if c == '5' {
        5
    } else if c == '6' {
        6
    } else if c == '7' {
        7
    } else if c == '8' {
        8
    } else if c == '9' {
        9
    } else {
        0
    }
}

/// A number in decimal, most significant digit first, without sign or
/// leading zeros.
pub open spec fn decimal(n: nat) -> Seq<char>
    decreases n,
{
    if n < 10 {
        seq![digit(n)]
    } else {
        decimal(n / 10).push(digit(n % 10))
    }
}

/// The number that a sequence of digits denotes.
pub open spec fn decimal_value(digits: Seq<char>) -> nat
    decreases digits.len(),
{
    if digits.len() == 0 {
        0
    } else {
        decimal_value(digits.drop_last()) * 10 + digit_value(digits.last())
    }
}

/// Whether a character is one of the ten digits.
pub open spec fn is_digit(c: char) -> bool {
    c == '0' || c == '1' || c == '2' || c == '3' || c == '4' || c == '5' || c == '6' || c == '7'
        || c == '8' || c == '9'
}

/// The decimal form of a number is made of digits, starts with no zero
/// unless the number is zero, and denotes that number.
pub proof fn decimal_reads_back(n: nat)
    ensures
        decimal(n).len() >= 1,
        forall|i: int| 0 <= i < decimal(n).len() ==> is_digit(#[trigger] decimal(n)[i]),
        decimal(n)[0] == '0' <==> n == 0,
        n == 0 ==> decimal(n).len() == 1,
        decimal_value(decimal(n)) == n,
    decreases n,
{
    if n < 10 {
        let s = decimal(n);
        assert(s.drop_last() =~= Seq::<char>::empty());
        assert(decimal_value(s.drop_last()) == 0);
        assert(s.last() == digit(n));
    } else {
        decimal_reads_back(n / 10);
        let head = decimal(n / 10);
        let s = decimal(n);
        assert(s == head.push(digit(n % 10)));
        assert(s.drop_last() =~= head);
        assert(s.last() == digit(n % 10));
        assert(s[0] == head[0]);
        assert forall|i: int| 0 <= i < s.len() implies is_digit(#[trigger] s[i]) by {
            if i < head.len() {
                assert(s[i] == head[i]);
            }
        }
    }
}

fn digit_text(d: u32) -> (text: &'static str)
    requires
        d < 10,
    ensures
        text@ == seq![digit(d as nat)],
{
    proof {
        reveal_strlit("0");
        reveal_strlit("1");
        reveal_strlit("2");
        reveal_strlit("3");
        reveal_strlit("4");
        reveal_strlit("5");
        reveal_strlit("6");
        reveal_strlit("7");
        reveal_strlit("8");
        reveal_strlit("9");
    }
    let text = if d == 0 {
        "0"
    } else if d == 1 {
        "1"
    } else if d == 2 {
        "2"
    } else if d == 3 {
        "3"
    } else if d == 4 {
        "4"
    } else if d == 5 {
        "5"
    } else if d == 6 {
        "6"
    } else if d == 7 {
        "7"
    } else if d == 8 {
        "8"
    } else {
        "9"
    };
    assert(text@ =~= seq![digit(d as nat)]);
    text
}

/// A number as the text that stands for it in a query.
pub fn decimal_string(n: u32) -> (text: String)
    ensures
        text@ == decimal(n as nat),
    decreases n,
{
    if n < 10 {
        digit_text(n).to_owned()
    } else {
        let mut text = decimal_string(n / 10);
        text.append(digit_text(n % 10));
        assert(text@ =~= decimal(n as nat));
        text
    }
}

/// A field of a parameter object: its name in the query, and its value where
/// it has one.
pub type Field = (Seq<char>, Option<Seq<char>>);

/// The parameter that a field gives: one where the field has a value, none
/// where it has not.
pub open spec fn entry(field: Field) -> Seq<(Seq<char>, Seq<char>)> {
    match field.1 {
        Some(value) => seq![(field.0, value)],
        None => Seq::empty(),
    }
}

/// The parameters that a sequence of fields gives: those that have a value,
/// each with its value, in the order of the fields.
pub open spec fn set_fields(fields: Seq<Field>) -> Seq<(Seq<char>, Seq<char>)>
    decreases fields.len(),
{
    if fields.len() == 0 {
        Seq::empty()
    } else {
        set_fields(fields.drop_last()) + entry(fields.last())
    }
}

/// Whether no name occurs twice among the fields.
pub open spec fn names_differ(fields: Seq<Field>) -> bool {
    forall|i: int, j: int| 0 <= i < j < fields.len() ==> fields[i].0 != fields[j].0
}

/// One more field adds its parameter behind the others.
pub proof fn set_fields_push(fields: Seq<Field>, field: Field)
    ensures
        set_fields(fields.push(field)) == set_fields(fields) + entry(field),
{
    assert(fields.push(field).drop_last() =~= fields);
}

/// The parameters of the first `k + 1` fields are those of the first `k`,
/// and behind them the parameter of the next field.
pub proof fn set_fields_step(fields: Seq<Field>, k: int)
    requires
        0 <= k < fields.len(),
    ensures
        set_fields(fields.take(k + 1)) == set_fields(fields.take(k)) + entry(fields[k]),
{
    assert(fields.take(k + 1) =~= fields.take(k).push(fields[k]));
    set_fields_push(fields.take(k), fields[k]);
}

/// The parameters are exactly the fields that have a value: each parameter
/// comes from such a field, each such field gives a parameter, and a field
/// without a value gives none, not even an empty one. Where the fields' names
/// differ, so do the parameters' names.
pub proof fn set_fields_are_exact(fields: Seq<Field>)
    ensures
        forall|name: Seq<char>, value: Seq<char>|
            set_fields(fields).contains((name, value)) <==> fields.contains((name, Some(value))),
        set_fields(fields).len() <= fields.len(),
        names_differ(fields) ==> forall|i: int, j: int|
            0 <= i < j < set_fields(fields).len() ==> set_fields(fields)[i].0 != set_fields(
                fields,
            )[j].0,
        names_differ(fields) ==> forall|k: int, i: int|
            0 <= k < fields.len() && fields[k].1 is None && 0 <= i < set_fields(fields).len()
                ==> set_fields(fields)[i].0 != fields[k].0,
    decreases fields.len(),
{
    let params = set_fields(fields);
    if fields.len() == 0 {
    } else {
        let front = fields.drop_last();
        let last = fields.last();
        set_fields_are_exact(front);
        let before = set_fields(front);
        assert(params == before + entry(last));
        assert forall|name: Seq<char>, value: Seq<char>|
            params.contains((name, value)) <==> fields.contains((name, Some(value))) by {
            let pair = (name, value);
            let field: Field = (name, Some(value));
            if params.contains(pair) {
                let i = choose|i: int| 0 <= i < params.len() && params[i] == pair;
                if i < before.len() {
                    assert(before[i] == pair);
                    assert(before.contains(pair));
                    assert(front.contains(field));
                    let k = choose|k: int| 0 <= k < front.len() && front[k] == field;
                    assert(fields[k] == field);
                } else {
                    assert(entry(last)[i - before.len()] == pair);
                    assert(last == field);
                    assert(fields[fields.len() - 1] == field);
                }
            }
            if fields.contains(field) {
                let k = choose|k: int| 0 <= k < fields.len() && fields[k] == field;
                if k < front.len() {
                    assert(front[k] == field);
                    assert(front.contains(field));
                    assert(before.contains(pair));
                    let i = choose|i: int| 0 <= i < before.len() && before[i] == pair;
                    assert(params[i] == pair);
                } else {
                    assert(last == field);
                    assert(params[before.len() as int] == pair);
                }
            }
        }
        if names_differ(fields) {
            assert(names_differ(front)) by {
                assert forall|i: int, j: int| 0 <= i < j < front.len() implies front[i].0
                    != front[j].0 by {
                    assert(front[i] == fields[i] && front[j] == fields[j]);
                }
            }
            assert forall|i: int, j: int| 0 <= i < j < params.len() implies params[i].0
                != params[j].0 by {
                if j < before.len() {
                    assert(params[i] == before[i] && params[j] == before[j]);
                } else {
                    assert(params[i] == before[i]);
                    assert(params[j] == (last.0, last.1->Some_0));
                    assert(before.contains(before[i]));
                    assert(front.contains((before[i].0, Some(before[i].1))));
                    let k = choose|k: int|
                        0 <= k < front.len() && front[k] == (before[i].0, Some(before[i].1));
                    assert(fields[k].0 != fields[fields.len() - 1].0);
                }
            }
            assert forall|k: int, i: int|
                0 <= k < fields.len() && fields[k].1 is None && 0 <= i < params.len()
                    implies params[i].0 != fields[k].0 by {
                assert(params.contains(params[i]));
                let field: Field = (params[i].0, Some(params[i].1));
                assert(fields.contains(field));
                let m = choose|m: int| 0 <= m < fields.len() && fields[m] == field;
                if m < k {
                    assert(fields[m].0 != fields[k].0);
                } else if k < m {
                    assert(fields[k].0 != fields[m].0);
                }
            }
        }
    }
}

/// The value of an optional string, as a sequence of characters.
pub open spec fn text_view(value: Option<String>) -> Option<Seq<char>> {
    match value {
        Some(text) => Some(text@),
        None => None,
    }
}

/// Puts the parameter of one field behind those already collected.
pub(crate) fn push_field(query: &mut Vec<(String, String)>, name: &str, value: &Option<String>)
    ensures
        pairs_view(final(query)@) == pairs_view(old(query)@)
            + entry((name@, text_view(*value))),
{
    match value {
        Some(text) => {
            query.push((name.to_owned(), text.clone()));
            assert(pairs_view(query@) =~= pairs_view(old(query)@)
                + entry((name@, text_view(*value))));
        },
        None => {
            assert(pairs_view(query@) =~= pairs_view(old(query)@)
                + entry((name@, text_view(*value))));
        },
    }
}

} // verus!
