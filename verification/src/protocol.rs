//! The acknowledgement framing of the echo protocol: every message is
//! answered with the ASCII prefix `ACK` followed by the exact bytes of the
//! message text.

use vstd::prelude::*;

verus! {

/// The bytes of the ASCII reply prefix `ACK`.
pub open spec fn ack_prefix() -> Seq<u8> {
    seq![65u8, 67u8, 75u8]
}

/// The reply owed to a message `m`: the prefix `ACK` followed by the exact
/// bytes of `m`, neither re-encoded nor trimmed.
pub open spec fn ack_payload(m: Seq<u8>) -> Seq<u8> {
    ack_prefix() + m
}

/// Builds the reply payload for the message bytes `m`.
pub fn build_ack(m: &[u8]) -> (r: Vec<u8>)
    ensures
        r@ == ack_payload(m@),
{
    let mut r: Vec<u8> = Vec::new();
    r.push(65);
    r.push(67);
    r.push(75);
    let n = m.len();
    let mut i: usize = 0;
    while i < n
        invariant
            n == m@.len(),
            i <= n,
            r@ == ack_prefix() + m@.subrange(0, i as int),
        decreases n - i,
    {
        r.push(m[i]);
        assert(m@.subrange(0, i + 1) =~= m@.subrange(0, i as int) + seq![m@[i as int]]);
        assert(r@ =~= ack_prefix() + m@.subrange(0, i + 1));
        i += 1;
    }
    assert(m@.subrange(0, n as int) =~= m@);
    assert(r@ =~= ack_payload(m@));
    r
}

} // verus!
