//! Decoding the block height that a node sends back as a JSON-RPC quantity.
use vstd::prelude::*;
use vstd::string::StrSliceExecFns;

verus! {

/// Whether `c` is a hexadecimal digit, in either case.
pub open spec fn is_hex_digit(c: char) -> bool {
    ('0' <= c && c <= '9') || ('a' <= c && c <= 'f') || ('A' <= c && c <= 'F')
}

/// The value of a hexadecimal digit.
pub open spec fn hex_digit_value(c: char) -> nat {
    if '0' <= c && c <= '9' {
        (c as int - 48) as nat
    } else if 'a' <= c && c <= 'f' {
        (c as int - 87) as nat
    } else {
        (c as int - 55) as nat
    }
}

/// The number that a string of hexadecimal digits denotes.
pub open spec fn hex_value(s: Seq<char>) -> nat
    decreases s.len(),
{
    if s.len() == 0 {
        0
    } else {
        hex_value(s.drop_last()) * 16 + hex_digit_value(s.last())
    }
}

/// `0x` followed by one or more hexadecimal digits: the usual shape of a
/// JSON-RPC quantity.
pub open spec fn is_hex_quantity(s: Seq<char>) -> bool {
    &&& s.len() >= 3
    &&& s[0] == '0'
    &&& s[1] == 'x'
    &&& forall|i: int| 2 <= i < s.len() ==> is_hex_digit(#[trigger] s[i])
}

/// A JSON-RPC quantity whose value fits in 64 bits.
pub open spec fn is_fitting_quantity(s: Seq<char>) -> bool {
    is_hex_quantity(s) && hex_value(s.skip(2)) < 0x1_0000_0000_0000_0000
}

/// What the quantity decoder hands back: the value, or its error's text.
pub type Decoded = Result<u64, String>;

/// A decoder's outcome with its error text as a sequence of characters.
pub open spec fn decoded_view(d: Decoded) -> Result<u64, Seq<char>> {
    match d {
        Ok(n) => Ok(n),
        Err(m) => Err(m@),
    }
}

/// What alloy's 64-bit quantity decoder makes of a text: the value, or
/// the text of the error with which it refuses the text.
pub uninterp spec fn quantity_of(text: Seq<char>) -> Result<u64, Seq<char>>;

/// Relies on `FromStr` of alloy's `U64` (ruint's `Uint<64, 1>`), the type
/// that alloy decodes an `eth_blockNumber` answer into, and on `Display` of
/// its `ParseError`: a `0x` prefix selects base 16, digits of either case
/// are read, and a value of 2^64 or more is refused as an overflow. A `U64`
/// always fits a `u64`.
#[verifier::external_body]
pub(crate) fn parse_u64_quantity(text: &str) -> (r: Decoded)
    ensures
        decoded_view(r) == quantity_of(text@),
        is_fitting_quantity(text@) ==> r == Decoded::Ok(hex_value(text@.skip(2)) as u64),
        is_hex_quantity(text@) && !is_fitting_quantity(text@) ==> r is Err,
{
    text.parse::<alloy::primitives::U64>().map(|q| q.to::<u64>()).map_err(|e| e.to_string())
}

/// Whether `c` is a hexadecimal digit, tested on the character itself.
fn hex_digit_char(c: char) -> (r: bool)
    ensures
        r == is_hex_digit(c),
{
    ('0' <= c && c <= '9') || ('a' <= c && c <= 'f') || ('A' <= c && c <= 'F')
}

/// Whether a node's answer has the shape of a JSON-RPC quantity: `0x`
/// followed by one or more hexadecimal digits.
pub fn is_quantity_text(text: &str) -> (r: bool)
    ensures
        r == is_hex_quantity(text@),
{
    let n = text.unicode_len();
    if n < 3 || text.get_char(0) != '0' || text.get_char(1) != 'x' {
        return false;
    }
    let mut i: usize = 2;
    while i < n
        invariant
            2 <= i <= n,
            n == text@.len(),
            text@[0] == '0',
            text@[1] == 'x',
            forall|j: int| 2 <= j < i ==> is_hex_digit(#[trigger] text@[j]),
        decreases n - i,
    {
        if !hex_digit_char(text.get_char(i)) {
            return false;
        }
        i = i + 1;
    }
    true
}

} // verus!
