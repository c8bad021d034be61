//! Building NMEA XDR sentences: the XOR checksum over the sentence body and
//! the `$<data>*<checksum>` framing around it.

use vstd::prelude::*;
use vstd::string::*;

use crate::strutil::{push_two_digit_hex_upper, two_digit_hex_upper};

verus! {

/// The XOR fold of a byte sequence: the checksum NMEA sentences carry.
pub open spec fn xor_checksum(bytes: Seq<u8>) -> u8
    decreases bytes.len(),
{
    if bytes.len() == 0 {
        0
    } else {
        xor_checksum(bytes.drop_last()) ^ bytes.last()
    }
}

/// The XOR of all bytes of `data`, starting from zero.
pub fn calculate_checksum(data: &str) -> (r: u8)
    ensures
        r == xor_checksum(data.spec_bytes()),
{
    let bytes = data.as_bytes();
    let mut sum: u8 = 0;
    let mut i: usize = 0;
    proof {
        assert(bytes@.subrange(0, 0) =~= Seq::<u8>::empty());
    }
    while i < bytes.len()
        invariant
            i <= bytes@.len(),
            bytes@ == data.spec_bytes(),
            sum == xor_checksum(bytes@.subrange(0, i as int)),
        decreases bytes@.len() - i,
    {
        sum = sum ^ bytes[i];
        i += 1;
        proof {
            assert(bytes@.subrange(0, i as int).drop_last() =~= bytes@.subrange(0, i - 1));
            assert(bytes@.subrange(0, i as int).last() == bytes@[i - 1]);
        }
    }
    proof {
        assert(bytes@.subrange(0, bytes@.len() as int) =~= bytes@);
    }
    sum
}

/// Frames sentence data as `$<data>*<checksum>`, the checksum being the XOR
/// fold of the data bytes rendered as two upper-case hexadecimal digits.
pub fn frame_sentence(data: &str) -> (r: String)
    ensures
        r@ == seq!['$'] + data@ + seq!['*'] + two_digit_hex_upper(
            xor_checksum(data.spec_bytes()),
        ),
{
    let checksum = calculate_checksum(data);
    let mut out = String::from_str("$");
    out.append(data);
    out.append("*");
    push_two_digit_hex_upper(&mut out, checksum);
    proof {
        reveal_strlit("$");
        reveal_strlit("*");
        assert(out@ =~= seq!['$'] + data@ + seq!['*'] + two_digit_hex_upper(
            xor_checksum(data.spec_bytes()),
        ));
    }
    out
}

} // verus!
