//! Console output: text becomes one legacy `console_putchar` call per byte of
//! its UTF-8 encoding, in order.
use vstd::prelude::*;
use vstd::string::StringSliceAdditionalSpecFns;
use crate::sbi::{console_putchar, putchar_call, SbiCall, SBI_CONSOLE_PUTCHAR};

verus! {

/// The calls that deliver `bytes` to the console, one byte each, in order.
pub open spec fn putchar_calls(bytes: Seq<u8>) -> Seq<SbiCall> {
    bytes.map_values(|b: u8| putchar_call(b))
}

/// The bytes that a console sink receives from a run of calls: the low byte
/// of the argument of every legacy put-character call, in order.
pub open spec fn delivered(calls: Seq<SbiCall>) -> Seq<u8>
    decreases calls.len(),
{
    if calls.len() == 0 {
        Seq::empty()
    } else {
        let rest = delivered(calls.drop_last());
        match calls.last() {
            SbiCall::Legacy { which, arg0, .. } => if which == SBI_CONSOLE_PUTCHAR {
                rest.push(arg0 as u8)
            } else {
                rest
            },
            SbiCall::Standard { .. } => rest,
        }
    }
}

/// The console sink, as seen by the kernel.
#[derive(Clone, Copy, Debug)]
pub struct Stdout;

impl Stdout {
    /// The calls that write `s`: one `console_putchar` per byte of its UTF-8
    /// encoding, in order.
    pub fn write_str(&self, s: &str) -> (r: Vec<SbiCall>)
        ensures
            r@ == putchar_calls(s.spec_bytes()),
    {
        let bytes = s.as_bytes();
        let mut calls: Vec<SbiCall> = Vec::new();
        let mut i: usize = 0;
        while i < bytes.len()
            invariant
                bytes@ == s.spec_bytes(),
                i <= bytes@.len(),
                calls@ == putchar_calls(bytes@.subrange(0, i as int)),
            decreases bytes@.len() - i,
        {
            calls.push(console_putchar(bytes[i] as usize));
            proof {
                assert(bytes@.subrange(0, i + 1) == bytes@.subrange(0, i as int).push(bytes@[i as int]));
            }
            i = i + 1;
        }
        proof {
            assert(bytes@.subrange(0, i as int) == bytes@);
        }
        calls
    }
}

/// Prints `s` on the console: the calls to issue, in order, while the console
/// is held.
pub fn print(s: &str) -> (r: Vec<SbiCall>)
    ensures
        r@ == putchar_calls(s.spec_bytes()),
{
    Stdout.write_str(s)
}

/// What the console receives from the put-character calls of `bytes` is
/// `bytes` itself, in order.
pub proof fn lemma_putchar_delivers(bytes: Seq<u8>)
    ensures
        delivered(putchar_calls(bytes)) == bytes,
    decreases bytes.len(),
{
    if bytes.len() > 0 {
        let calls = putchar_calls(bytes);
        assert(calls.drop_last() == putchar_calls(bytes.drop_last()));
        lemma_putchar_delivers(bytes.drop_last());
        assert(bytes.drop_last().push(bytes.last()) == bytes);
    } else {
        assert(putchar_calls(bytes) == Seq::<SbiCall>::empty());
    }
}

/// Printing an ASCII string delivers to the console exactly its characters,
/// one byte each, in order.
pub proof fn lemma_print_ascii_round_trip(s: &str)
    requires
        vstd::string::is_ascii(s),
    ensures
        delivered(putchar_calls(s.spec_bytes())) == s@.map_values(|c: char| c as u8),
{
    broadcast use vstd::string::is_ascii_spec_bytes;

    lemma_putchar_delivers(s.spec_bytes());
    assert(s.spec_bytes() == s@.map_values(|c: char| c as u8));
}

} // verus!
