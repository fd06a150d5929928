//! The items domain: its per-domain sub-state and the conversion of fetched
//! item records into table rows. The network fetch itself is performed by
//! the surrounding program; this module only formats what came back.

use vstd::prelude::*;

verus! {

/// Sub-state of the items view.
#[derive(Debug, Clone, Copy, PartialEq, Eq, Structural)]
pub enum States {
    Default,
    New,
    Searched,
    Error,
}

/// An item record as the backend delivers it.
pub struct ItemsORM {
    pub id: i64,
    pub name: String,
    pub quantity: i64,
    pub description: String,
}

pub struct Items;

impl Items {
    /// Column headers of the items table.
    pub fn headers() -> (r: [&'static str; 3])
        ensures
            r@.len() == 3,
            r@[0]@ == "Name"@,
            r@[1]@ == "Quantity"@,
            r@[2]@ == "Note"@,
    {
        ["Name", "Quantity", "Note"]
    }
}

/// The decimal digit character for `d`, which must lie in `0..10`.
pub open spec fn spec_digit_char(d: int) -> char {
    if d == 0 {
        '0'
    } else if d == 1 {
        '1'
    } else if d == 2 {
        '2'
    } else if d == 3 {
        '3'
    } else if d == 4 {
        '4'
    } else if d == 5 {
        '5'
    } else if d == 6 {
        '6'
    } else if d == 7 {
        '7'
    } else if d == 8 {
        '8'
    } else {
        '9'
    }
}

/// The decimal representation of a natural number, without leading zeros
/// (a single `'0'` for zero).
pub open spec fn spec_nat_string(n: nat) -> Seq<char>
    decreases n,
{
    if n < 10 {
        seq![spec_digit_char(n as int)]
    } else {
        spec_nat_string(n / 10) + seq![spec_digit_char((n % 10) as int)]
    }
}

/// The decimal representation of an integer: a leading `'-'` for negative
/// values, then the digits of the absolute value.
pub open spec fn spec_i64_string(n: int) -> Seq<char> {
    if n < 0 {
        seq!['-'] + spec_nat_string((-n) as nat)
    } else {
        spec_nat_string(n as nat)
    }
}

/// The one-character string for a single decimal digit.
fn digit_str(d: u64) -> (r: &'static str)
    requires
        d < 10,
    ensures
        r@ == seq![spec_digit_char(d as int)],
{
    proof {
        reveal_strlit("0");
        reveal_strlit("1");
        reveal_strlit("2");
        reveal_strlit("3");
        reveal_strlit("4");
        reveal_strlit("5");
        reveal_strlit("6");
        reveal_strlit("7");
        reveal_strlit("8");
        reveal_strlit("9");
    }
    let r = match d {
        0 => "0",
        1 => "1",
        2 => "2",
        3 => "3",
        4 => "4",
        5 => "5",
        6 => "6",
        7 => "7",
        8 => "8",
        _ => "9",
    };
    proof {
        assert(r@ =~= seq![spec_digit_char(d as int)]);
    }
    r
}

/// The decimal string of an unsigned number.
fn u64_to_string(n: u64) -> (s: String)
    ensures
        s@ == spec_nat_string(n as nat),
    decreases n,
{
    if n < 10 {
        String::from_str(digit_str(n))
    } else {
        let mut s = u64_to_string(n / 10);
        s.append(digit_str(n % 10));
        s
    }
}

/// The decimal string of a signed number, with a leading `'-'` when it is
/// negative.
pub fn i64_to_string(n: i64) -> (s: String)
    ensures
        s@ == spec_i64_string(n as int),
{
    if n >= 0 {
        u64_to_string(n as u64)
    } else {
        proof {
            reveal_strlit("-");
        }
        let mut s = String::from_str("-");
        proof {
            assert(s@ =~= seq!['-']);
        }
        let abs: u64 = (-(n as i128)) as u64;
        let digits = u64_to_string(abs);
        s.append(digits.as_str());
        proof {
            assert(abs as nat == (-(n as int)) as nat);
        }
        s
    }
}

/// The table row for one fetched item: its name, its quantity in decimal,
/// and its description.
pub open spec fn spec_item_row(item: ItemsORM) -> Seq<Seq<char>> {
    seq![item.name@, spec_i64_string(item.quantity as int), item.description@]
}

/// The table built from a sequence of fetched items, one row per item.
pub open spec fn spec_item_rows(items: Seq<ItemsORM>) -> Seq<Seq<Seq<char>>> {
    items.map_values(|item: ItemsORM| spec_item_row(item))
}

/// Turn fetched item records into table rows, one per record, in order.
pub fn rows_of(items: &Vec<ItemsORM>) -> (r: Vec<Vec<String>>)
    ensures
        r.deep_view() == spec_item_rows(items@),
{
    let mut r: Vec<Vec<String>> = Vec::new();
    let mut idx: usize = 0;
    while idx < items.len()
        invariant
            idx <= items@.len(),
            r@.len() == idx as int,
            forall|j: int| 0 <= j < idx as int ==> r.deep_view()[j] == spec_item_row(items@[j]),
        decreases items@.len() - idx,
    {
        let item = &items[idx];
        let mut row: Vec<String> = Vec::new();
        row.push(item.name.clone());
        row.push(i64_to_string(item.quantity));
        row.push(item.description.clone());
        proof {
            assert(row.deep_view() =~~= spec_item_row(items@[idx as int]));
        }
        let ghost prev_vals = r@;
        let ghost prev_deep = r.deep_view();
        r.push(row);
        idx += 1;
        proof {
            assert forall|j: int| 0 <= j < idx as int implies r.deep_view()[j] == spec_item_row(
                items@[j],
            ) by {
                assert(r.deep_view()[j] == r@[j].deep_view());
                if j < idx as int - 1 {
                    assert(prev_deep[j] == prev_vals[j].deep_view());
                    assert(r@[j] == prev_vals[j]);
                } else {
                    assert(r@[j] == row);
                }
            }
        }
    }
    proof {
        assert(r.deep_view() =~~= spec_item_rows(items@));
    }
    r
}

} // verus!
