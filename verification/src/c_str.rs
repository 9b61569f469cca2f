//! Text in fixed-size byte buffers that a zero byte terminates.
//!
//! The bytes are text in whatever encoding the system wrote them. Nothing
//! here converts them: the text is the bytes before the first zero byte.

use vstd::prelude::*;
use vstd::slice::slice_subrange;

verus! {

/// Whether the text in `buf` ends at `n`: no byte before `n` is zero, and
/// `n` is where the first zero byte lies, or the end of a buffer without one.
pub open spec fn ends_at(buf: Seq<u8>, n: int) -> bool {
    &&& 0 <= n <= buf.len()
    &&& forall|i: int| 0 <= i < n ==> buf[i] != 0
    &&& n < buf.len() ==> buf[n] == 0
}

/// The length of the text in `buf`.
pub open spec fn text_len(buf: Seq<u8>) -> int {
    choose|n: int| ends_at(buf, n)
}

/// The text in `buf`: its bytes before the first zero byte.
pub open spec fn text(buf: Seq<u8>) -> Seq<u8> {
    buf.take(text_len(buf))
}

/// Whether a zero byte terminates the text in `buf`.
pub open spec fn is_terminated(buf: Seq<u8>) -> bool {
    exists|i: int| 0 <= i < buf.len() && buf[i] == 0
}

/// The text in a buffer ends at one place only.
pub proof fn lemma_ends_at_once(buf: Seq<u8>, n: int)
    requires
        ends_at(buf, n),
    ensures
        text_len(buf) == n,
        text(buf) == buf.take(n),
        is_terminated(buf) <==> n < buf.len(),
{
    let m = text_len(buf);
    assert(ends_at(buf, m));
    if m < n {
        assert(buf[m] != 0);
    } else if n < m {
        assert(buf[n] != 0);
    }
    if is_terminated(buf) {
        let i = choose|i: int| 0 <= i < buf.len() && buf[i] == 0;
        assert(!(i < n));
    }
}

/// The text of a terminated buffer is shorter than the buffer, holds no
/// zero byte, and is followed by one.
pub proof fn lemma_text_of_terminated(buf: Seq<u8>)
    requires
        is_terminated(buf),
    ensures
        0 <= text_len(buf) < buf.len(),
        buf[text_len(buf)] == 0,
        text(buf).len() == text_len(buf),
        forall|i: int| 0 <= i < text(buf).len() ==> text(buf)[i] != 0,
{
    let i = choose|i: int| 0 <= i < buf.len() && buf[i] == 0;
    lemma_text_ends(buf, i);
    let n = text_len(buf);
    assert(ends_at(buf, n));
    assert(!(i < n));
}

/// Text ends somewhere in every buffer, at or before any given zero byte.
proof fn lemma_text_ends(buf: Seq<u8>, bound: int)
    requires
        0 <= bound <= buf.len(),
        bound < buf.len() ==> buf[bound] == 0,
    ensures
        exists|n: int| ends_at(buf, n),
    decreases bound,
{
    if forall|i: int| 0 <= i < bound ==> buf[i] != 0 {
        assert(ends_at(buf, bound));
    } else {
        let i = choose|i: int| 0 <= i < bound && buf[i] == 0;
        lemma_text_ends(buf, i);
    }
}

/// Finds where the text in `buf` ends.
pub fn len_until_nul(buf: &[u8]) -> (n: usize)
    ensures
        ends_at(buf@, n as int),
        n == text_len(buf@),
        is_terminated(buf@) <==> n < buf@.len(),
{
    let mut n: usize = 0;
    while n < buf.len() && buf[n] != 0
        invariant
            0 <= n <= buf@.len(),
            forall|i: int| 0 <= i < n ==> buf@[i] != 0,
        decreases buf@.len() - n,
    {
        n = n + 1;
    }
    proof {
        lemma_ends_at_once(buf@, n as int);
    }
    n
}

/// The text in `buf`, borrowed from it.
pub fn until_nul(buf: &[u8]) -> (r: &[u8])
    ensures
        r@ == text(buf@),
{
    let n: usize = len_until_nul(buf);
    slice_subrange(buf, 0, n)
}

} // verus!
