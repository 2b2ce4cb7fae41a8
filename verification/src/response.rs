//! The outcome of an accepted operation: a response that holds an ordered
//! list of attributes, and the decimal rendering of the numbers in it.

use vstd::prelude::*;
use vstd::string::*;
use cosmwasm_std::Response;

verus! {

/// `cosmwasm_std::Response`, what an entry point of a contract hands back
/// to the chain. It is carried through as it is; what it holds is spoken
/// of through [`attributes_of`] and [`carries_more`].
#[verifier::external_type_specification]
#[verifier::external_body]
#[verifier::reject_recursive_types(T)]
pub struct ExResponse<T>(cosmwasm_std::Response<T>);

/// `cosmwasm_std::Empty`, the kind of message that a response of these
/// ledgers could carry and never does.
#[verifier::external_type_specification]
#[verifier::external_body]
pub struct ExEmpty(cosmwasm_std::Empty);

/// The attributes that a response holds, in the order in which they were
/// added, as pairs of key and value.
pub uninterp spec fn attributes_of(response: Response) -> Seq<(Seq<char>, Seq<char>)>;

/// Whether a response holds anything besides attributes: a message to
/// another ledger, an event of its own, or data.
pub uninterp spec fn carries_more(response: Response) -> bool;

/// A key that the attribute list does not take: one that starts with an
/// underscore.
pub open spec fn reserved(key: Seq<char>) -> bool {
    key.len() > 0 && key[0] == '_'
}

/// `response` reports exactly `attributes`, and nothing else.
pub open spec fn reports(response: Response, attributes: Seq<(Seq<char>, Seq<char>)>) -> bool {
    &&& attributes_of(response) == attributes
    &&& !carries_more(response)
}

/// `cosmwasm_std::Response::new`: the result has no attributes, no
/// messages, no events and no data.
#[verifier::external_body]
pub(crate) fn new_response() -> (r: Response)
    ensures
        reports(r, Seq::empty()),
{
    Response::new()
}

/// `cosmwasm_std::Response::add_attribute`: the result is `response` with
/// the pair of `key` and `value` behind its other attributes; messages,
/// events and data are those of `response`. The outside function refuses a
/// key that starts with an underscore, so such a key is left out here.
#[verifier::external_body]
pub(crate) fn with_attribute(response: Response, key: &str, value: String) -> (r: Response)
    requires
        !reserved(key@),
    ensures
        attributes_of(r) == attributes_of(response).push((key@, value@)),
        carries_more(r) == carries_more(response),
{
    response.add_attribute(key, value)
}

/// The character of the decimal digit `d`.
pub open spec fn digit_char(d: nat) -> char {
    if d == 0 {
        '0'
    } else if d == 1 {
        '1'
    } else if d == 2 {
        '2'
    } else if d == 3 {
        '3'
    } else if d == 4 {
        '4'
    } else if d == 5 {
        '5'
    } else if d == 6 {
        '6'
    } else if d == 7 {
        '7'
    } else if d == 8 {
        '8'
    } else {
        '9'
    }
}

/// The decimal numeral of `n`, most significant digit first, without
/// leading zeros.
pub open spec fn decimal_digits(n: nat) -> Seq<char>
    decreases n,
{
    if n < 10 {
        seq![digit_char(n)]
    } else {
        decimal_digits(n / 10).push(digit_char(n % 10))
    }
}

/// The one-character text of the decimal digit `d`.
fn digit_str(d: u8) -> (s: &'static str)
    requires
        d < 10,
    ensures
        s@ == seq![digit_char(d as nat)],
{
    proof {
        reveal_strlit("0");
        reveal_strlit("1");
        reveal_strlit("2");
        reveal_strlit("3");
        reveal_strlit("4");
        reveal_strlit("5");
        reveal_strlit("6");
        reveal_strlit("7");
        reveal_strlit("8");
        reveal_strlit("9");
    }
    let s = if d == 0 {
        "0"
    } else if d == 1 {
        "1"
    } else if d == 2 {
        "2"
    } else if d == 3 {
        "3"
    } else if d == 4 {
        "4"
    } else if d == 5 {
        "5"
    } else if d == 6 {
        "6"
    } else if d == 7 {
        "7"
    } else if d == 8 {
        "8"
    } else {
        "9"
    };
    assert(s@ =~= seq![digit_char(d as nat)]);
    s
}

/// Renders `n` as its decimal numeral.
pub fn decimal_string(n: u128) -> (s: String)
    ensures
        s@ == decimal_digits(n as nat),
    decreases n,
{
    if n < 10 {
        String::from_str(digit_str(n as u8))
    } else {
        let head = decimal_string(n / 10);
        let s = head.concat(digit_str((n % 10) as u8));
        assert(s@ =~= decimal_digits(n as nat));
        s
    }
}

} // verus!
