//! Rendering of audit-log lines.
//!
//! Every mutation of the store appends one line of text; the exact character
//! sequence of each line is pinned down here, over a caller-supplied
//! timestamp string.

use vstd::prelude::*;
use vstd::string::StringExecFns;

verus! {

/// The decimal digit character for `d` (meaningful for `d < 10`).
pub open spec fn digit_char(d: nat) -> char {
    if d == 0 {
        '0'
    } else if d == 1 {
        '1'
    } else if d == 2 {
        '2'
    } else if d == 3 {
        '3'
    } else if d == 4 {
        '4'
    } else if d == 5 {
        '5'
    } else if d == 6 {
        '6'
    } else if d == 7 {
        '7'
    } else if d == 8 {
        '8'
    } else {
        '9'
    }
}

/// The usual decimal rendering of `n`: most significant digit first,
/// no leading zeroes (a single `'0'` for zero itself).
pub open spec fn dec_digits(n: nat) -> Seq<char>
    decreases n,
{
    if n < 10 {
        seq![digit_char(n)]
    } else {
        dec_digits(n / 10).push(digit_char(n % 10))
    }
}

fn digit_str(d: u32) -> (r: &'static str)
    requires
        d < 10,
    ensures
        r@ == seq![digit_char(d as nat)],
{
    let r = match d {
        0 => "0",
        1 => "1",
        2 => "2",
        3 => "3",
        4 => "4",
        5 => "5",
        6 => "6",
        7 => "7",
        8 => "8",
        _ => "9",
    };
    proof {
        reveal_strlit("0");
        reveal_strlit("1");
        reveal_strlit("2");
        reveal_strlit("3");
        reveal_strlit("4");
        reveal_strlit("5");
        reveal_strlit("6");
        reveal_strlit("7");
        reveal_strlit("8");
        reveal_strlit("9");
        assert(r@ =~= seq![digit_char(d as nat)]);
    }
    r
}

/// Renders `n` in decimal.
pub fn u32_to_dec(n: u32) -> (r: String)
    ensures
        r@ == dec_digits(n as nat),
    decreases n,
{
    if n < 10 {
        digit_str(n).to_owned()
    } else {
        let prefix = u32_to_dec(n / 10);
        let r = prefix.concat(digit_str(n % 10));
        proof {
            assert(r@ =~= dec_digits(n as nat));
        }
        r
    }
}

/// The log line recording that the item with identifier `id` was added,
/// stamped with the timestamp text `ts`.
pub open spec fn add_msg(id: u32, ts: Seq<char>) -> Seq<char> {
    "Item "@ + dec_digits(id as nat) + " added at "@ + ts
}

/// The log line recording that the item with identifier `id` had its
/// quantity set to `quantity`, stamped with the timestamp text `ts`.
pub open spec fn update_msg(id: u32, quantity: u32, ts: Seq<char>) -> Seq<char> {
    "Item "@ + dec_digits(id as nat) + " quantity updated to "@ + dec_digits(quantity as nat)
        + " at "@ + ts
}

/// The log line recording that the item with identifier `id` was removed,
/// stamped with the timestamp text `ts`.
pub open spec fn remove_msg(id: u32, ts: Seq<char>) -> Seq<char> {
    "Item "@ + dec_digits(id as nat) + " removed at "@ + ts
}

/// Builds the addition log line for `id` and `timestamp`.
pub fn add_msg_str(id: u32, timestamp: &str) -> (r: String)
    ensures
        r@ == add_msg(id, timestamp@),
{
    let mut s = "Item ".to_owned();
    let digits = u32_to_dec(id);
    s.append(digits.as_str());
    s.append(" added at ");
    s.append(timestamp);
    proof {
        assert(s@ =~= add_msg(id, timestamp@));
    }
    s
}

/// Builds the quantity-update log line for `id`, `quantity` and `timestamp`.
pub fn update_msg_str(id: u32, quantity: u32, timestamp: &str) -> (r: String)
    ensures
        r@ == update_msg(id, quantity, timestamp@),
{
    let mut s = "Item ".to_owned();
    let digits = u32_to_dec(id);
    s.append(digits.as_str());
    s.append(" quantity updated to ");
    let qty_digits = u32_to_dec(quantity);
    s.append(qty_digits.as_str());
    s.append(" at ");
    s.append(timestamp);
    proof {
        assert(s@ =~= update_msg(id, quantity, timestamp@));
    }
    s
}

/// Builds the removal log line for `id` and `timestamp`.
pub fn remove_msg_str(id: u32, timestamp: &str) -> (r: String)
    ensures
        r@ == remove_msg(id, timestamp@),
{
    let mut s = "Item ".to_owned();
    let digits = u32_to_dec(id);
    s.append(digits.as_str());
    s.append(" removed at ");
    s.append(timestamp);
    proof {
        assert(s@ =~= remove_msg(id, timestamp@));
    }
    s
}

} // verus!
