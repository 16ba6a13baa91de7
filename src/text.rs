//! Decimal rendering of counts and the confirmation lines built from it.
use vstd::prelude::*;

verus! {

/// The character of a decimal digit.
pub open spec fn digit_char(d: nat) -> char {
    if d == 0 { '0' }
    else if d == 1 { '1' }
    else if d == 2 { '2' }
    else if d == 3 { '3' }
    else if d == 4 { '4' }
    else if d == 5 { '5' }
    else if d == 6 { '6' }
    else if d == 7 { '7' }
    else if d == 8 { '8' }
    else { '9' }
}

/// The decimal writing of `n`, without leading zeros.
pub open spec fn decimal(n: nat) -> Seq<char>
    decreases n,
{
    if n < 10 {
        seq![digit_char(n)]
    } else {
        decimal(n / 10).push(digit_char(n % 10))
    }
}

fn digit_str(d: u64) -> (r: &'static str)
    requires
        d < 10,
    ensures
        r@ == seq![digit_char(d as nat)],
{
    if d == 0 {
        proof { reveal_strlit("0"); }
        "0"
    } else if d == 1 {
        proof { reveal_strlit("1"); }
        "1"
    } else if d == 2 {
        proof { reveal_strlit("2"); }
        "2"
    } else if d == 3 {
        proof { reveal_strlit("3"); }
        "3"
    } else if d == 4 {
        proof { reveal_strlit("4"); }
        "4"
    } else if d == 5 {
        proof { reveal_strlit("5"); }
        "5"
    } else if d == 6 {
        proof { reveal_strlit("6"); }
        "6"
    } else if d == 7 {
        proof { reveal_strlit("7"); }
        "7"
    } else if d == 8 {
        proof { reveal_strlit("8"); }
        "8"
    } else {
        proof { reveal_strlit("9"); }
        "9"
    }
}

/// Appends the decimal writing of `n` to `out`.
pub fn push_decimal(out: &mut String, n: u64)
    ensures
        final(out)@ == old(out)@ + decimal(n as nat),
    decreases n,
{
    if n >= 10 {
        push_decimal(out, n / 10);
    }
    out.append(digit_str(n % 10));
    assert(final(out)@ =~= old(out)@ + decimal(n as nat));
}

/// Confirmation of a store of a bare record.
pub open spec fn stored_message(id: Seq<char>) -> Seq<char> {
    "Strategy '"@ + id + "' stored successfully!"@
}

/// Confirmation of a store of a complete record, with the count after it.
pub open spec fn complete_stored_message(id: Seq<char>, total: nat) -> Seq<char> {
    "Complete strategy '"@ + id + "' stored successfully! Total strategies: "@ + decimal(total)
}

/// Confirmation of an update.
pub open spec fn updated_message(id: Seq<char>) -> Seq<char> {
    "Strategy '"@ + id + "' updated successfully!"@
}

/// Confirmation of a delete, with the count after it.
pub open spec fn deleted_message(id: Seq<char>, total: nat) -> Seq<char> {
    "Strategy '"@ + id + "' deleted successfully! Total strategies: "@ + decimal(total)
}

/// The summary line of the catalog.
pub open spec fn info_message(total: nat) -> Seq<char> {
    "Yetify Strategy Storage - Total strategies: "@ + decimal(total)
}

/// `prefix`, then `middle`, then `suffix`.
pub(crate) fn framed(prefix: &str, middle: &str, suffix: &str) -> (r: String)
    ensures
        r@ == prefix@ + middle@ + suffix@,
{
    let mut r = String::from_str(prefix);
    r.append(middle);
    r.append(suffix);
    r
}

/// `prefix`, then `middle`, then `suffix`, then the decimal writing of `n`.
pub(crate) fn framed_count(prefix: &str, middle: &str, suffix: &str, n: u64) -> (r: String)
    ensures
        r@ == prefix@ + middle@ + suffix@ + decimal(n as nat),
{
    let mut r = framed(prefix, middle, suffix);
    push_decimal(&mut r, n);
    r
}

} // verus!
