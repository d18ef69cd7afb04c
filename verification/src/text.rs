//! Text renderings of a queue's state: `Name(size out of capacity)` and
//! `Name { field: value, ... }`.

use vstd::prelude::*;

verus! {

/// The character of the decimal digit `d`.
pub open spec fn digit_char(d: nat) -> char {
    (d + 48) as char
}

/// `n` written in decimal, most significant digit first, without leading
/// zeros.
pub open spec fn decimal(n: nat) -> Seq<char>
    decreases n,
{
    if n < 10 {
        seq![digit_char(n)]
    } else {
        decimal(n / 10).push(digit_char(n % 10))
    }
}

/// `name(size out of capacity)`.
pub open spec fn occupancy_text(name: Seq<char>, size: nat, capacity: nat) -> Seq<char> {
    name + "("@ + decimal(size) + " out of "@ + decimal(capacity) + ")"@
}

/// `name: value` for each field, separated by `, `.
pub open spec fn fields_text(fields: Seq<(Seq<char>, nat)>) -> Seq<char>
    decreases fields.len(),
{
    if fields.len() == 0 {
        Seq::empty()
    } else if fields.len() == 1 {
        fields[0].0 + ": "@ + decimal(fields[0].1)
    } else {
        fields_text(fields.drop_last()) + ", "@ + fields.last().0 + ": "@ + decimal(fields.last().1)
    }
}

/// `name { field: value, ... }`.
pub open spec fn record_text(name: Seq<char>, fields: Seq<(Seq<char>, nat)>) -> Seq<char> {
    name + " { "@ + fields_text(fields) + " }"@
}

/// The one-character text of the decimal digit `d`.
fn digit_text(d: usize) -> (s: &'static str)
    requires
        d < 10,
    ensures
        s@ == seq![digit_char(d as nat)],
{
    match d {
        0 => {
            proof { reveal_strlit("0"); }
            "0"
        },
        1 => {
            proof { reveal_strlit("1"); }
            "1"
        },
        2 => {
            proof { reveal_strlit("2"); }
            "2"
        },
        3 => {
            proof { reveal_strlit("3"); }
            "3"
        },
        4 => {
            proof { reveal_strlit("4"); }
            "4"
        },
        5 => {
            proof { reveal_strlit("5"); }
            "5"
        },
        6 => {
            proof { reveal_strlit("6"); }
            "6"
        },
        7 => {
            proof { reveal_strlit("7"); }
            "7"
        },
        8 => {
            proof { reveal_strlit("8"); }
            "8"
        },
        _ => {
            proof { reveal_strlit("9"); }
            "9"
        },
    }
}

/// Appends `n`, written in decimal, to `s`.
fn append_decimal(s: &mut String, n: usize)
    ensures
        final(s)@ == old(s)@ + decimal(n as nat),
    decreases n,
{
    if n < 10 {
        s.append(digit_text(n));
    } else {
        append_decimal(s, n / 10);
        s.append(digit_text(n % 10));
        assert(old(s)@ + decimal((n / 10) as nat) + seq![digit_char((n % 10) as nat)]
            =~= old(s)@ + decimal(n as nat));
    }
}

/// `name(size out of capacity)` as a `String`.
pub fn occupancy(name: &str, size: usize, capacity: usize) -> (s: String)
    ensures
        s@ == occupancy_text(name@, size as nat, capacity as nat),
{
    let mut s = String::from_str(name);
    s.append("(");
    append_decimal(&mut s, size);
    s.append(" out of ");
    append_decimal(&mut s, capacity);
    s.append(")");
    s
}

/// `name { field: value, ... }` as a `String`, for at least one field.
pub fn record(name: &str, fields: &[(&str, usize)]) -> (s: String)
    requires
        fields@.len() > 0,
    ensures
        s@ == record_text(name@, fields@.map_values(|f: (&str, usize)| (f.0@, f.1 as nat))),
{
    let ghost model = fields@.map_values(|f: (&str, usize)| (f.0@, f.1 as nat));
    let mut s = String::from_str(name);
    s.append(" { ");
    let ghost start = s@;
    let mut i: usize = 0;
    while i < fields.len()
        invariant
            0 <= i <= fields@.len(),
            fields@.len() > 0,
            model == fields@.map_values(|f: (&str, usize)| (f.0@, f.1 as nat)),
            start == name@ + " { "@,
            s@ == start + fields_text(model.take(i as int)),
        decreases fields@.len() - i,
    {
        let (field_name, value) = fields[i];
        if i > 0 {
            s.append(", ");
        }
        s.append(field_name);
        s.append(": ");
        append_decimal(&mut s, value);
        proof {
            let next = model.take(i + 1);
            assert(next.drop_last() =~= model.take(i as int));
            assert(next.last() == (field_name@, value as nat));
            if i == 0 {
                assert(fields_text(model.take(0)) =~= Seq::<char>::empty());
            }
        }
        i = i + 1;
    }
    assert(model.take(fields@.len() as int) =~= model);
    s.append(" }");
    s
}

} // verus!
