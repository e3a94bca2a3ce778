//! Decimal notation of integers.

use vstd::prelude::*;
use vstd::string::StringSliceAdditionalSpecFns;
use vstd::utf8::{decode_utf8, valid_utf8};

verus! {

/// The character of a decimal digit.
pub open spec fn digit_char(d: nat) -> char
    recommends
        d < 10,
{
    ((48 + d) as u8) as char
}

/// The decimal notation of a natural number, without leading zeros.
pub open spec fn decimal(n: nat) -> Seq<char>
    decreases n,
{
    if n < 10 {
        seq![digit_char(n)]
    } else {
        decimal(n / 10).push(digit_char(n % 10))
    }
}

/// The decimal notation of an integer: a minus sign before the digits of a
/// negative number.
pub open spec fn signed_decimal(i: int) -> Seq<char> {
    if i < 0 {
        seq!['-'] + decimal((-i) as nat)
    } else {
        decimal(i as nat)
    }
}

/// The text of one decimal digit.
pub fn digit_str(d: u8) -> (s: &'static str)
    requires
        d < 10,
    ensures
        s@ == seq![digit_char(d as nat)],
{
    proof {
        reveal_strlit("0");
        reveal_strlit("1");
        reveal_strlit("2");
        reveal_strlit("3");
        reveal_strlit("4");
        reveal_strlit("5");
        reveal_strlit("6");
        reveal_strlit("7");
        reveal_strlit("8");
        reveal_strlit("9");
    }
    let s = match d {
        0 => "0",
        1 => "1",
        2 => "2",
        3 => "3",
        4 => "4",
        5 => "5",
        6 => "6",
        7 => "7",
        8 => "8",
        _ => "9",
    };
    assert(s@ =~= seq![digit_char(d as nat)]);
    s
}

/// Appends the decimal notation of `n` to `buffer`.
pub fn append_decimal(buffer: &mut String, n: u128)
    ensures
        final(buffer)@ == old(buffer)@ + decimal(n as nat),
    decreases n,
{
    if n < 10 {
        buffer.append(digit_str(n as u8));
    } else {
        append_decimal(buffer, n / 10);
        buffer.append(digit_str((n % 10) as u8));
        assert(buffer@ =~= old(buffer)@ + decimal(n as nat));
    }
}

/// Appends the decimal notation of `i` to `buffer`, with a minus sign where
/// `i` is negative.
pub fn append_signed_decimal(buffer: &mut String, i: i128)
    ensures
        final(buffer)@ == old(buffer)@ + signed_decimal(i as int),
{
    if i < 0 {
        proof {
            reveal_strlit("-");
        }
        buffer.append("-");
        let magnitude: u128 = if i == i128::MIN {
            0x8000_0000_0000_0000_0000_0000_0000_0000
        } else {
            (-i) as u128
        };
        append_decimal(buffer, magnitude);
        assert(buffer@ =~= old(buffer)@ + signed_decimal(i as int));
    } else {
        append_decimal(buffer, i as u128);
    }
}

/// The index of the first NUL byte at or behind `start`, or the length of
/// `bytes` where there is none.
pub open spec fn nul_index(bytes: Seq<u8>, start: int) -> int
    decreases bytes.len() - start,
{
    if start >= bytes.len() {
        bytes.len() as int
    } else if bytes[start] == 0 {
        start
    } else {
        nul_index(bytes, start + 1)
    }
}

/// Finds the first NUL byte at or behind `start`.
pub fn find_nul(bytes: &[u8], start: usize) -> (end: usize)
    requires
        start <= bytes@.len(),
    ensures
        end == nul_index(bytes@, start as int),
        start <= end <= bytes@.len(),
{
    let mut end: usize = start;
    while end < bytes.len() && bytes[end] != 0
        invariant
            start <= end <= bytes@.len(),
            nul_index(bytes@, start as int) == nul_index(bytes@, end as int),
        decreases bytes@.len() - end,
    {
        end = end + 1;
    }
    end
}

/// `std::str::from_utf8`, with what it gives copied into a `String`: the
/// text that the bytes encode, where they are valid UTF-8, and `None` where
/// they are not.
#[verifier::external_body]
pub(crate) fn utf8_to_string(bytes: &[u8]) -> (text: Option<String>)
    ensures
        text.is_some() == valid_utf8(bytes@),
        match text {
            Some(s) => s@ == decode_utf8(bytes@),
            None => true,
        },
{
    match std::str::from_utf8(bytes) {
        Ok(s) => Some(s.to_string()),
        Err(_) => None,
    }
}

/// The text of a string of the host's: the bytes of `buffer` before its
/// first NUL byte, or all of them where there is none.
pub open spec fn c_str_bytes(buffer: Seq<u8>) -> Seq<u8> {
    buffer.subrange(0, nul_index(buffer, 0))
}

/// Copies `bytes[start..end]`.
pub fn copy_range(bytes: &[u8], start: usize, end: usize) -> (copy: Vec<u8>)
    requires
        start <= end <= bytes@.len(),
    ensures
        copy@ == bytes@.subrange(start as int, end as int),
{
    let mut copy: Vec<u8> = Vec::new();
    let mut i: usize = start;
    while i < end
        invariant
            start <= i <= end <= bytes@.len(),
            copy@ == bytes@.subrange(start as int, i as int),
        decreases end - i,
    {
        copy.push(bytes[i]);
        assert(bytes@.subrange(start as int, i + 1) =~= bytes@.subrange(start as int, i as int).push(
            bytes@[i as int],
        ));
        i = i + 1;
    }
    copy
}

/// Converts a string of the host's to text. `None` where it is not valid
/// UTF-8: such a string must never be taken for an identifier.
pub fn c_str_to_string(buffer: &[u8]) -> (text: Option<String>)
    ensures
        text.is_some() == valid_utf8(c_str_bytes(buffer@)),
        match text {
            Some(s) => s@ == decode_utf8(c_str_bytes(buffer@)),
            None => true,
        },
{
    let end = find_nul(buffer, 0);
    let bytes = copy_range(buffer, 0, end);
    utf8_to_string(bytes.as_slice())
}

/// Whether the text holds a NUL byte, which ends a string on the host's
/// side.
pub fn has_nul(text: &str) -> (r: bool)
    ensures
        r == text.spec_bytes().contains(0u8),
{
    let bytes = text.as_bytes();
    let mut i: usize = 0;
    while i < bytes.len()
        invariant
            i <= bytes@.len(),
            bytes@ == text.spec_bytes(),
            forall|k: int| 0 <= k < i ==> bytes@[k] != 0u8,
        decreases bytes@.len() - i,
    {
        if bytes[i] == 0 {
            return true;
        }
        i = i + 1;
    }
    false
}

} // verus!
