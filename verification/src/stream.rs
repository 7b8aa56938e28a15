//! The stream-form callback result: bytes written or a foreign error code.
//!
//! In the stream form the foreign callback answers each message with a
//! signed count: a non-negative value is the number of bytes it accepted,
//! a negative value is a foreign-defined error code. This module turns
//! that raw count into the write operation's result, and renders the code
//! of a failed write as decimal text so the failure can be reported with
//! the code in it. A failed write never panics and is never retried; the
//! error stays local to the one write that saw it.

use vstd::prelude::*;

verus! {

/// The ASCII byte of the decimal digit `d`.
pub open spec fn digit_byte(d: nat) -> u8
    recommends
        d < 10,
{
    (0x30 + d) as u8
}

/// The ASCII decimal rendering of `n`, most significant digit first.
pub open spec fn spec_udecimal(n: nat) -> Seq<u8>
    decreases n,
{
    if n < 10 {
        seq![digit_byte(n)]
    } else {
        spec_udecimal(n / 10).push(digit_byte(n % 10))
    }
}

/// The ASCII decimal rendering of `v`, with a leading minus sign when `v`
/// is negative.
pub open spec fn spec_decimal(v: int) -> Seq<u8> {
    if v < 0 {
        seq![0x2du8] + spec_udecimal((-v) as nat)
    } else {
        spec_udecimal(v as nat)
    }
}

/// Appends the decimal digits of `n` to `out`.
fn push_udecimal(n: u64, out: &mut Vec<u8>)
    ensures
        final(out)@ == old(out)@ + spec_udecimal(n as nat),
    decreases n,
{
    if n < 10 {
        out.push(0x30 + (n as u8));
        assert(out@ =~= old(out)@ + spec_udecimal(n as nat));
    } else {
        push_udecimal(n / 10, out);
        out.push(0x30 + ((n % 10) as u8));
        assert(out@ =~= old(out)@ + spec_udecimal(n as nat));
    }
}

/// A failed stream-form write: the foreign callback answered with a
/// negative code of its own definition.
#[derive(Clone, Copy, Debug)]
pub struct WriteError {
    code: isize,
}

impl WriteError {
    /// The foreign error code, always negative.
    pub closed spec fn code_spec(&self) -> isize {
        self.code
    }

    /// The foreign error code the callback answered with.
    pub fn code(&self) -> (r: isize)
        ensures
            r == self.code_spec(),
    {
        self.code
    }

    /// The error code rendered as ASCII decimal text, sign included, so a
    /// report of the failure carries the code itself.
    pub fn code_text(&self) -> (r: Vec<u8>)
        ensures
            r@ == spec_decimal(self.code_spec() as int),
    {
        let mut out: Vec<u8> = Vec::new();
        if self.code < 0 {
            out.push(0x2d);
            let magnitude: i128 = -(self.code as i128);
            push_udecimal(magnitude as u64, &mut out);
            assert(out@ =~= spec_decimal(self.code_spec() as int));
        } else {
            push_udecimal(self.code as u64, &mut out);
            assert(out@ =~= spec_decimal(self.code_spec() as int));
        }
        out
    }
}

/// Turns the raw signed count a stream-form callback answered with into
/// the write operation's result: a non-negative count is that many bytes
/// written, a negative count is a failure carrying the code verbatim.
pub fn interpret_write(ret: isize) -> (r: Result<usize, WriteError>)
    ensures
        ret >= 0 ==> (r matches Ok(n) && n as int == ret as int),
        ret < 0 ==> (r matches Err(e) && e.code_spec() == ret),
{
    if ret >= 0 {
        Ok(ret as usize)
    } else {
        Err(WriteError { code: ret })
    }
}

} // verus!
