//! Text that the runtime renders, and text that the standard library renders
//! for it.

use vstd::prelude::*;
use vstd::string::StringExecFns;

verus! {

/// The path that names `name` inside the directory `folder`, as the
/// platform's path rules join the two.
pub uninterp spec fn joined_path(folder: Seq<char>, name: Seq<char>) -> Seq<char>;

/// Joins a directory and a name with `std::path::Path::join`, between text
/// and text. The contract only gives the joined path its name: one pair of
/// texts always joins to the same path.
#[verifier::external_body]
pub(crate) fn join_path(folder: &str, name: &str) -> (path: String)
    ensures
        path@ == joined_path(folder@, name@),
{
    std::path::Path::new(folder).join(name).to_string_lossy().into_owned()
}

/// The text `s` in quotes, with the escapes of the debug form of a string.
pub uninterp spec fn quoted(s: Seq<char>) -> Seq<char>;

/// Renders a text in its debug form with `format!`. The contract only gives
/// the rendering its name.
#[verifier::external_body]
pub(crate) fn quote(s: &str) -> (q: String)
    ensures
        q@ == quoted(s@),
{
    format!("{:?}", s)
}

/// The character of the decimal digit `d`.
pub open spec fn digit_char(d: nat) -> char {
    if d == 0 {
        '0'
    } else if d == 1 {
        '1'
    } else if d == 2 {
        '2'
    } else if d == 3 {
        '3'
    } else if d == 4 {
        '4'
    } else if d == 5 {
        '5'
    } else if d == 6 {
        '6'
    } else if d == 7 {
        '7'
    } else if d == 8 {
        '8'
    } else {
        '9'
    }
}

/// The number `n` in decimal digits, without leading zeros.
pub open spec fn decimal(n: nat) -> Seq<char>
    decreases n,
{
    if n < 10 {
        seq![digit_char(n)]
    } else {
        decimal(n / 10).push(digit_char(n % 10))
    }
}

/// The text of one decimal digit.
fn digit_text(d: usize) -> (s: &'static str)
    requires
        d < 10,
    ensures
        s@ == seq![digit_char(d as nat)],
{
    proof {
        reveal_strlit("0");
        reveal_strlit("1");
        reveal_strlit("2");
        reveal_strlit("3");
        reveal_strlit("4");
        reveal_strlit("5");
        reveal_strlit("6");
        reveal_strlit("7");
        reveal_strlit("8");
        reveal_strlit("9");
    }
    let s = if d == 0 {
        "0"
    } else if d == 1 {
        "1"
    } else if d == 2 {
        "2"
    } else if d == 3 {
        "3"
    } else if d == 4 {
        "4"
    } else if d == 5 {
        "5"
    } else if d == 6 {
        "6"
    } else if d == 7 {
        "7"
    } else if d == 8 {
        "8"
    } else {
        "9"
    };
    s
}

/// Renders a number in decimal digits.
pub fn decimal_text(n: usize) -> (s: String)
    ensures
        s@ == decimal(n as nat),
    decreases n,
{
    if n < 10 {
        String::from_str(digit_text(n))
    } else {
        let mut s = decimal_text(n / 10);
        s.append(digit_text(n % 10));
        s
    }
}

} // verus!
