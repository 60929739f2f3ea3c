//! Big-endian encoding of 32-bit numbers.

use vstd::arithmetic::power::pow;
use vstd::prelude::*;

verus! {

/// The four bytes of `x`, most significant first.
pub open spec fn be_bytes(x: u32) -> Seq<u8> {
    seq![
        (x / 0x100_0000) as u8,
        (x / 0x1_0000 % 0x100) as u8,
        (x / 0x100 % 0x100) as u8,
        (x % 0x100) as u8,
    ]
}

/// The number whose bytes, most significant first, are the first four of `s`.
pub open spec fn be_value(s: Seq<u8>) -> u32 {
    (s[0] * 0x100_0000 + s[1] * 0x1_0000 + s[2] * 0x100 + s[3]) as u32
}

/// Decoding gives back the number that was encoded.
pub proof fn be_value_of_be_bytes(x: u32)
    ensures
        be_bytes(x).len() == 4,
        be_value(be_bytes(x)) == x,
{
}

/// Encoding gives back the four bytes that were decoded.
pub proof fn be_bytes_of_be_value(s: Seq<u8>)
    requires
        s.len() == 4,
    ensures
        be_bytes(be_value(s)) == s,
{
    let (a, b, c, d) = (s[0] as int, s[1] as int, s[2] as int, s[3] as int);
    let x = be_value(s) as int;
    assert(x == a * 0x100_0000 + b * 0x1_0000 + c * 0x100 + d);
    assert(x / 0x100 == a * 0x1_0000 + b * 0x100 + c && x % 0x100 == d);
    assert(x / 0x1_0000 == a * 0x100 + b && x / 0x100 % 0x100 == c);
    assert(x / 0x100_0000 == a && x / 0x1_0000 % 0x100 == b);
    assert(be_bytes(be_value(s)) =~= s);
}

/// The powers of 256 that a 32-bit number is made of.
pub proof fn byte_powers()
    ensures
        pow(256, 0) == 1,
        pow(256, 1) == 256,
        pow(256, 2) == 65_536,
        pow(256, 3) == 16_777_216,
{
    reveal_with_fuel(pow, 5);
}

/// The most significant byte comes first: the byte at `i` is the digit of weight 256 to
/// the power of `3 - i` of the number in base 256.
pub proof fn most_significant_byte_first(x: u32, i: int)
    requires
        0 <= i < 4,
    ensures
        be_bytes(x).len() == 4,
        be_bytes(x)[i] == (x as int / pow(256, (3 - i) as nat)) % 256,
{
    byte_powers();
}

/// Four bytes stand for the sum of their digits in base 256, the first of the highest
/// weight.
pub proof fn bytes_are_weighed(s: Seq<u8>)
    requires
        s.len() >= 4,
    ensures
        be_value(s) == s[0] * pow(256, 3) + s[1] * pow(256, 2) + s[2] * pow(256, 1) + s[3] * pow(
            256,
            0,
        ),
{
    byte_powers();
}

/// Appends the four bytes of `x`, most significant first.
pub fn push_be(buf: &mut Vec<u8>, x: u32)
    ensures
        final(buf)@ == old(buf)@ + be_bytes(x),
        final(buf)@.len() == old(buf)@.len() + 4,
        final(buf)@.take(old(buf)@.len() as int) == old(buf)@,
        forall|i: int|
            0 <= i < 4 ==> #[trigger] final(buf)@[old(buf)@.len() + i] == (x as int / pow(
                256,
                (3 - i) as nat,
            )) % 256,
{
    proof {
        byte_powers();
    }
    buf.push((x / 0x100_0000) as u8);
    buf.push((x / 0x1_0000 % 0x100) as u8);
    buf.push((x / 0x100 % 0x100) as u8);
    buf.push((x % 0x100) as u8);
    assert(buf@ =~= old(buf)@ + be_bytes(x));
}

/// Reads the number stored at `at`, most significant byte first.
pub fn read_be(buf: &[u8], at: usize) -> (x: u32)
    requires
        at + 4 <= buf@.len(),
    ensures
        x == be_value(buf@.subrange(at as int, at + 4)),
        x == buf@[at as int] * 16_777_216 + buf@[at + 1] * 65_536 + buf@[at + 2] * 256 + buf@[at
            + 3],
{
    let a: u32 = buf[at] as u32;
    let b: u32 = buf[at + 1] as u32;
    let c: u32 = buf[at + 2] as u32;
    let d: u32 = buf[at + 3] as u32;
    a * 0x100_0000 + b * 0x1_0000 + c * 0x100 + d
}

} // verus!
