//! Text helpers: decimal rendering of integers and conversion of native byte
//! strings to `String`.

use crate::result::Error;
use vstd::prelude::*;
use vstd::string::*;
use vstd::utf8::*;

verus! {

/// The text that `String::from_utf8_lossy` produces for `bytes`.
pub uninterp spec fn utf8_lossy(bytes: Seq<u8>) -> Seq<char>;

/// The message of the error that `std::str::from_utf8` reports for `bytes`.
pub uninterp spec fn utf8_error_text(bytes: Seq<u8>) -> Seq<char>;

/// The character of a decimal digit.
pub open spec fn digit_char(d: int) -> char {
    if d == 0 {
        '0'
    } else if d == 1 {
        '1'
    } else if d == 2 {
        '2'
    } else if d == 3 {
        '3'
    } else if d == 4 {
        '4'
    } else if d == 5 {
        '5'
    } else if d == 6 {
        '6'
    } else if d == 7 {
        '7'
    } else if d == 8 {
        '8'
    } else {
        '9'
    }
}

/// The decimal digits of a natural number, most significant first, without
/// leading zeros.
pub open spec fn natural_decimal(n: nat) -> Seq<char>
    decreases n,
{
    if n < 10 {
        seq![digit_char(n as int)]
    } else {
        natural_decimal(n / 10).push(digit_char((n % 10) as int))
    }
}

/// The decimal rendering of an integer: a minus sign for a negative number,
/// then the digits of its magnitude.
pub open spec fn decimal(n: int) -> Seq<char> {
    if n < 0 {
        seq!['-'] + natural_decimal((-n) as nat)
    } else {
        natural_decimal(n as nat)
    }
}

/// Converts bytes to text, replacing what is not UTF-8.
///
/// Trusted: calls `String::from_utf8_lossy` of the standard library. The
/// contract names its result, and states what its documentation says of valid
/// input: the text is the decoding of the bytes, unchanged.
#[verifier::external_body]
pub(crate) fn lossy_string(bytes: &Vec<u8>) -> (r: String)
    ensures
        r@ == utf8_lossy(bytes@),
        valid_utf8(bytes@) ==> r@ == decode_utf8(bytes@),
{
    String::from_utf8_lossy(bytes).into_owned()
}

/// Converts bytes to text if they are UTF-8.
///
/// Trusted: calls `std::str::from_utf8`, which succeeds exactly on valid UTF-8
/// and then yields the decoded text. On failure the message of the library's
/// error is handed back, under its name.
#[verifier::external_body]
fn strict_string(bytes: &Vec<u8>) -> (r: Result<String, String>)
    ensures
        r is Ok <==> valid_utf8(bytes@),
        r matches Ok(s) ==> s@ == decode_utf8(bytes@),
        r matches Err(m) ==> m@ == utf8_error_text(bytes@),
{
    match std::str::from_utf8(bytes) {
        Ok(s) => Ok(s.to_owned()),
        Err(e) => Err(e.to_string()),
    }
}

/// Whether `text` is the result of converting `bytes` to text: the decoded
/// text where the bytes are UTF-8, and otherwise [`Error::Other`] with the
/// message of the failed conversion.
pub open spec fn is_text_of(text: Result<String, Box<Error>>, bytes: Seq<u8>) -> bool {
    if valid_utf8(bytes) {
        text matches Ok(s) && s@ == decode_utf8(bytes)
    } else {
        text matches Err(e) && *e matches Error::Other(m) && m@ == utf8_error_text(bytes)
    }
}

/// Converts bytes of the simulator to text.
pub fn text_of(bytes: &Vec<u8>) -> (r: Result<String, Box<Error>>)
    ensures
        is_text_of(r, bytes@),
{
    match strict_string(bytes) {
        Ok(s) => Ok(s),
        Err(message) => Err(Box::new(Error::other(message))),
    }
}

fn digit_str(d: u64) -> (r: &'static str)
    requires
        d < 10,
    ensures
        r@ == seq![digit_char(d as int)],
{
    proof {
        reveal_strlit("0");
        reveal_strlit("1");
        reveal_strlit("2");
        reveal_strlit("3");
        reveal_strlit("4");
        reveal_strlit("5");
        reveal_strlit("6");
        reveal_strlit("7");
        reveal_strlit("8");
        reveal_strlit("9");
    }
    let r = if d == 0 {
        "0"
    } else if d == 1 {
        "1"
    } else if d == 2 {
        "2"
    } else if d == 3 {
        "3"
    } else if d == 4 {
        "4"
    } else if d == 5 {
        "5"
    } else if d == 6 {
        "6"
    } else if d == 7 {
        "7"
    } else if d == 8 {
        "8"
    } else {
        "9"
    };
    assert(r@ =~= seq![digit_char(d as int)]);
    r
}

fn push_natural(out: &mut String, n: u64)
    ensures
        final(out)@ == old(out)@ + natural_decimal(n as nat),
    decreases n,
{
    if n >= 10 {
        push_natural(out, n / 10);
    }
    out.append(digit_str(n % 10));
    proof {
        if n >= 10 {
            assert(final(out)@ =~= old(out)@ + natural_decimal((n / 10) as nat).push(
                digit_char((n % 10) as int),
            ));
        }
    }
}

/// Appends the decimal rendering of `n` to `out`.
pub fn push_decimal(out: &mut String, n: i32)
    ensures
        final(out)@ == old(out)@ + decimal(n as int),
{
    let wide: i64 = n as i64;
    if wide < 0 {
        proof {
            reveal_strlit("-");
        }
        out.append("-");
        assert(out@ =~= old(out)@ + seq!['-']);
        let magnitude: u64 = (-wide) as u64;
        push_natural(out, magnitude);
        assert(out@ =~= old(out)@ + decimal(n as int));
    } else {
        push_natural(out, wide as u64);
    }
}

} // verus!
