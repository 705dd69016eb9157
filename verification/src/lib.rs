//! Encoders and transmitters for two 433 MHz remote-control protocols.
//!
//! A logical command (which device, which action) is translated into a
//! sequence of timed high/low levels on a single shared output line.  The
//! library models that line as a trace of `(level, duration)` events, so that
//! every encoder's output is pinned down exactly; the binary around the
//! library replays a finished trace onto the physical pin.

pub mod dispatch;
pub mod line;
pub mod nexa;
pub mod repo;
pub mod rollo;

use vstd::prelude::*;

verus! {

/// Why a codec could not be constructed.
#[derive(Clone, Copy, Debug, PartialEq, Eq, Structural)]
pub enum CodecError {
    /// The sender id does not have exactly 26 symbols.
    InvalidSenderId,
    /// A symbol outside the codec's alphabet.
    IllegalSymbol,
}

/// Character-by-character string equality, usable wherever a contract needs
/// `a@ == b@`.
pub fn str_eq(a: &str, b: &str) -> (r: bool)
    ensures
        r == (a@ == b@),
{
    let alen = a.unicode_len();
    let blen = b.unicode_len();
    if alen != blen {
        return false;
    }
    let mut i: usize = 0;
    while i < alen
        invariant
            alen == a@.len(),
            alen == b@.len(),
            i <= alen,
            forall|j: int| 0 <= j < i ==> a@[j] == b@[j],
        decreases alen - i,
    {
        if a.get_char(i) != b.get_char(i) {
            return false;
        }
        i = i + 1;
    }
    proof {
        assert(a@ =~= b@);
    }
    true
}

} // verus!
