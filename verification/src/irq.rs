//! The words exchanged with the control file to switch and await interrupts.

use vstd::prelude::*;

verus! {

/// Number of bytes in one interrupt word.
pub const IRQ_WORD_LEN: usize = 4;

/// The four bytes of `v`, least significant first.
pub open spec fn le_bytes(v: u32) -> Seq<u8> {
    seq![
        (v % 256) as u8,
        (v / 256 % 256) as u8,
        (v / 65536 % 256) as u8,
        (v / 16777216) as u8,
    ]
}

/// The four bytes of `v`, most significant first.
pub open spec fn be_bytes(v: u32) -> Seq<u8> {
    seq![
        (v / 16777216) as u8,
        (v / 65536 % 256) as u8,
        (v / 256 % 256) as u8,
        (v % 256) as u8,
    ]
}

/// The number whose bytes, least significant first, are `b`.
pub open spec fn le_value(b: Seq<u8>) -> int {
    b[0] + 256 * b[1] + 65536 * b[2] + 16777216 * b[3]
}

/// The number whose bytes, most significant first, are `b`.
pub open spec fn be_value(b: Seq<u8>) -> int {
    b[3] + 256 * b[2] + 65536 * b[1] + 16777216 * b[0]
}

/// `u32::to_ne_bytes` gives the bytes of the integer in the byte order of the
/// machine, which is one of the two orders.
#[verifier::external_body]
fn native_bytes(v: u32) -> (b: [u8; 4])
    ensures
        b@ == le_bytes(v) || b@ == be_bytes(v),
{
    v.to_ne_bytes()
}

/// `u32::from_ne_bytes` reads four bytes as an integer in the byte order of
/// the machine, which is one of the two orders.
#[verifier::external_body]
pub(crate) fn native_value(b: [u8; 4]) -> (v: u32)
    ensures
        v == le_value(b@) || v == be_value(b@),
{
    u32::from_ne_bytes(b)
}

/// The integer that switches interrupts on (1) or off (0).
pub open spec fn command_word(enable: bool) -> u32 {
    if enable {
        1
    } else {
        0
    }
}

/// The bytes to write to the control file to switch interrupts on or off:
/// the command word in the byte order of the machine.
pub fn irq_command(enable: bool) -> (b: [u8; 4])
    ensures
        b@ == le_bytes(command_word(enable)) || b@ == be_bytes(command_word(enable)),
        !enable ==> b@ == seq![0u8, 0u8, 0u8, 0u8],
        enable ==> b@ == seq![1u8, 0u8, 0u8, 0u8] || b@ == seq![0u8, 0u8, 0u8, 1u8],
{
    let word: u32 = if enable {
        1
    } else {
        0
    };
    native_bytes(word)
}

/// Either byte order reads back the number that it wrote.
pub proof fn lemma_bytes_round_trip(v: u32)
    ensures
        le_value(le_bytes(v)) == v,
        be_value(be_bytes(v)) == v,
{
}

} // verus!
