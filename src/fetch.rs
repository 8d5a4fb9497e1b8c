//! From the node's answer to the block height handed to the caller.
use vstd::prelude::*;
use vstd::string::StringExecFns;
use crate::decimal::{decimal_digits, decimal_text, is_canonical_decimal, decimal_value};
use crate::quantity::{
    decoded_view, hex_value, Decoded, is_fitting_quantity, is_hex_quantity, is_quantity_text, parse_u64_quantity,
    quantity_of,
};

verus! {

/// Why the latest block height could not be had.
pub enum FetchError {
    /// The endpoint's address is no valid URL; holds the parser's message.
    InvalidEndpoint(String),
    /// The request failed in transport or was answered with an RPC error;
    /// holds that failure's description.
    RpcCall(String),
    /// The node answered with a text that is no block height; holds why.
    MalformedResponse(String),
}

/// The text that `message` gives for an error.
pub open spec fn message_of(e: FetchError) -> Seq<char> {
    match e {
        FetchError::InvalidEndpoint(m) => m@,
        FetchError::RpcCall(m) => m@,
        FetchError::MalformedResponse(m) => m@,
    }
}

/// Placed before a node's answer that the decoder read but that is not
/// written as a quantity (`0x` and hexadecimal digits).
pub const NOT_A_QUANTITY: &'static str = "not a hex quantity: ";

impl FetchError {
    /// A readable description, the form in which the error leaves the
    /// library at a boundary that carries text only.
    pub fn message(&self) -> (r: String)
        ensures
            r@ == message_of(*self),
    {
        match self {
            FetchError::InvalidEndpoint(m) => m.clone(),
            FetchError::RpcCall(m) => m.clone(),
            FetchError::MalformedResponse(m) => m.clone(),
        }
    }
}

/// `r` is the success that carries the decimal text of `n`.
pub open spec fn is_height(r: Result<String, FetchError>, n: u64) -> bool {
    r matches Ok(s) && s@ == decimal_digits(n as nat)
}

/// `r` is the error for a node answer that is no height, described by `m`.
pub open spec fn is_malformed(r: Result<String, FetchError>, m: Seq<char>) -> bool {
    r matches Err(FetchError::MalformedResponse(t)) && t@ == m
}

/// `r` is the error for a request that failed with description `m`.
pub open spec fn is_rpc_failure(r: Result<String, FetchError>, m: Seq<char>) -> bool {
    r matches Err(FetchError::RpcCall(e)) && e@ == m
}

/// What the library returns for a node answer `text` that decoded to
/// `decoded`: the decoder's error, the height where the answer is written as
/// a quantity, and otherwise an error that quotes the answer.
pub open spec fn settled(
    text: Seq<char>,
    decoded: Result<u64, Seq<char>>,
    r: Result<String, FetchError>,
) -> bool {
    match decoded {
        Err(m) => is_malformed(r, m),
        Ok(n) => if is_hex_quantity(text) {
            is_height(r, n)
        } else {
            is_malformed(r, NOT_A_QUANTITY@ + text)
        },
    }
}

/// Turns a decoded node answer into the caller's result.
pub fn settle_quantity(text: &str, decoded: Decoded) -> (r: Result<String, FetchError>)
    ensures
        settled(text@, decoded_view(decoded), r),
{
    match decoded {
        Err(m) => Err(FetchError::MalformedResponse(m)),
        Ok(n) => {
            if is_quantity_text(text) {
                Ok(decimal_text(n))
            } else {
                Err(FetchError::MalformedResponse(String::from_str(NOT_A_QUANTITY).concat(text)))
            }
        },
    }
}

/// Interprets the outcome of one `eth_blockNumber` request: the quantity
/// text that the node sent back, or the description of the failure.
///
/// An answer gives a height exactly when it is `0x` and hexadecimal digits
/// whose value fits in 64 bits; the height is then that value.
pub fn interpret_response(response: Result<String, String>) -> (r: Result<String, FetchError>)
    ensures
        match response {
            Ok(text) => settled(text@, quantity_of(text@), r),
            Err(m) => is_rpc_failure(r, m@),
        },
        match response {
            Ok(text) => (r is Ok <==> is_fitting_quantity(text@)),
            Err(_) => r is Err,
        },
        match response {
            Ok(text) => is_fitting_quantity(text@) ==> is_height(r, hex_value(text@.skip(2)) as u64),
            Err(_) => true,
        },
        r matches Ok(s) ==> is_canonical_decimal(s@),
{
    match response {
        Ok(text) => {
            let decoded = parse_u64_quantity(text.as_str());
            let ghost outcome = decoded_view(decoded);
            let r = settle_quantity(text.as_str(), decoded);
            proof {
                if let Ok(n) = outcome {
                    crate::decimal::lemma_decimal_digits(n as nat);
                }
            }
            r
        },
        Err(m) => Err(FetchError::RpcCall(m)),
    }
}

/// Two successful answers keep the order of the heights they report:
/// their texts read back as numbers in the same order.
pub proof fn lemma_heights_keep_order(
    a: u64,
    b: u64,
    ra: Result<String, FetchError>,
    rb: Result<String, FetchError>,
)
    requires
        is_height(ra, a),
        is_height(rb, b),
        a <= b,
    ensures
        ra matches Ok(sa) && rb matches Ok(sb) && decimal_value(sa@) <= decimal_value(sb@),
{
    crate::decimal::lemma_decimal_digits(a as nat);
    crate::decimal::lemma_decimal_digits(b as nat);
}

} // verus!
