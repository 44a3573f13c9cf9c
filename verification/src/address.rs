//! Request addresses: a base address and the query pairs appended to it.

use vstd::prelude::*;

verus! {

/// The address that the URL parser makes of `url` with the pair `name`,
/// `value` appended to its query in form encoding; `None` where the parser
/// refuses `url`.
pub uninterp spec fn url_with_pair(url: Seq<char>, name: Seq<char>, value: Seq<char>) -> Option<
    Seq<char>,
>;

/// The longest address, name or value, in bytes, that is handed to the URL
/// parser. The parser counts positions in 32 bits; this limit keeps every
/// address that it builds far below what it can count.
pub const PART_LIMIT: usize = 0x10_0000;

/// Whether a text is short enough to be handed to the URL parser.
pub open spec fn fits(text: Seq<char>) -> bool {
    vstd::utf8::encode_utf8(text).len() <= PART_LIMIT
}

/// An optional string, taken by its view.
pub open spec fn text_of(s: Option<String>) -> Option<Seq<char>> {
    match s {
        Some(text) => Some(text@),
        None => None,
    }
}

/// Appends a pair to the query of an address, where there is an address.
/// There is none afterwards where there was none before, where the address,
/// the name or the value is longer than the limit, and where the parser
/// refuses the address.
pub open spec fn then_pair(url: Option<Seq<char>>, name: Seq<char>, value: Seq<char>) -> Option<
    Seq<char>,
> {
    match url {
        Some(text) => if fits(text) && fits(name) && fits(value) {
            url_with_pair(text, name, value)
        } else {
            None
        },
        None => None,
    }
}

/// The character of one decimal digit.
pub open spec fn digit_char(d: nat) -> char {
    if d == 0 {
        '0'
    } else if d == 1 {
        '1'
    } else if d == 2 {
        '2'
    } else if d == 3 {
        '3'
    } else if d == 4 {
        '4'
    } else if d == 5 {
        '5'
    } else if d == 6 {
        '6'
    } else if d == 7 {
        '7'
    } else if d == 8 {
        '8'
    } else {
        '9'
    }
}

/// A number in decimal, without sign or leading zeros.
pub open spec fn decimal_text(n: nat) -> Seq<char>
    decreases n,
{
    if n < 10 {
        seq![digit_char(n)]
    } else {
        decimal_text(n / 10).push(digit_char(n % 10))
    }
}

/// Parses `url` with `reqwest::Url::parse`, appends the pair with
/// `append_pair` on its `query_pairs_mut`, and returns the serialization. The
/// contract claims that the result is determined by the three strings, and
/// is absent exactly where the parser refuses `url`; what the address looks
/// like is left to the parser. The three strings are kept short because
/// `query_pairs_mut` panics on an address of more than `u32::MAX` bytes.
#[verifier::external_body]
fn with_query_pair(url: &str, name: &str, value: &str) -> (r: Option<String>)
    requires
        fits(url@),
        fits(name@),
        fits(value@),
    ensures
        text_of(r) == url_with_pair(url@, name@, value@),
{
    let mut address = reqwest::Url::parse(url).ok()?;
    address.query_pairs_mut().append_pair(name, value);
    Some(String::from(address))
}

/// Appends a pair to the query of an address, where there is an address and
/// neither it nor the pair is longer than the limit.
pub fn add_pair(url: Option<String>, name: &str, value: &str) -> (r: Option<String>)
    ensures
        text_of(r) == then_pair(text_of(url), name@, value@),
{
    match url {
        Some(text) => {
            if text.as_str().as_bytes().len() <= PART_LIMIT && name.as_bytes().len()
                <= PART_LIMIT && value.as_bytes().len() <= PART_LIMIT {
                with_query_pair(text.as_str(), name, value)
            } else {
                None
            }
        },
        None => None,
    }
}

/// The text of one decimal digit.
fn digit(d: u64) -> (r: &'static str)
    requires
        d < 10,
    ensures
        r@ == seq![digit_char(d as nat)],
{
    proof {
        reveal_strlit("0");
        reveal_strlit("1");
        reveal_strlit("2");
        reveal_strlit("3");
        reveal_strlit("4");
        reveal_strlit("5");
        reveal_strlit("6");
        reveal_strlit("7");
        reveal_strlit("8");
        reveal_strlit("9");
    }
    let r = if d == 0 {
        "0"
    } else if d == 1 {
        "1"
    } else if d == 2 {
        "2"
    } else if d == 3 {
        "3"
    } else if d == 4 {
        "4"
    } else if d == 5 {
        "5"
    } else if d == 6 {
        "6"
    } else if d == 7 {
        "7"
    } else if d == 8 {
        "8"
    } else {
        "9"
    };
    assert(r@ =~= seq![digit_char(d as nat)]);
    r
}

/// Writes a number in decimal, without sign or leading zeros.
pub fn decimal(n: u64) -> (r: String)
    ensures
        r@ == decimal_text(n as nat),
    decreases n,
{
    if n < 10 {
        digit(n).to_owned()
    } else {
        let r = decimal(n / 10).concat(digit(n % 10));
        assert(r@ =~= decimal_text(n as nat));
        r
    }
}

} // verus!
