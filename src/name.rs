//! Interface names held in fixed, null-terminated buffers.
use vstd::prelude::*;
use crate::abi::IFNAMSIZ;

verus! {

/// `n` is the name that `buf` holds: the bytes before its first zero byte.
pub open spec fn is_name_of(buf: Seq<u8>, n: Seq<u8>) -> bool {
    &&& n.len() < buf.len()
    &&& buf[n.len() as int] == 0
    &&& forall|j: int| 0 <= j < n.len() ==> buf[j] == n[j] && n[j] != 0
}

/// `buf` holds a zero byte somewhere, so it holds a name.
pub open spec fn terminated(buf: Seq<u8>) -> bool {
    exists|i: int| 0 <= i < buf.len() && buf[i] == 0
}

/// No byte of `s` is zero.
pub open spec fn nul_free(s: Seq<u8>) -> bool {
    forall|j: int| 0 <= j < s.len() ==> s[j] != 0
}

/// The name buffer built from a requested name: its bytes, then zeros up to the capacity.
pub open spec fn padded(n: Seq<u8>) -> Seq<u8> {
    n + Seq::new((IFNAMSIZ - n.len()) as nat, |i: int| 0u8)
}

/// A buffer holds at most one name.
pub proof fn lemma_name_unique(buf: Seq<u8>, a: Seq<u8>, b: Seq<u8>)
    requires
        is_name_of(buf, a),
        is_name_of(buf, b),
    ensures
        a == b,
{
    if a.len() < b.len() {
        assert(buf[a.len() as int] == b[a.len() as int]);
    } else if b.len() < a.len() {
        assert(buf[b.len() as int] == a[b.len() as int]);
    }
    assert(a =~= b);
}

/// A requested name of at most `IFNAMSIZ - 1` bytes, none of them zero, is
/// exactly the name that its buffer holds, and the buffer is terminated.
pub proof fn lemma_padded_name(n: Seq<u8>)
    requires
        n.len() < IFNAMSIZ,
        nul_free(n),
    ensures
        padded(n).len() == IFNAMSIZ,
        is_name_of(padded(n), n),
        terminated(padded(n)),
        forall|m: Seq<u8>| is_name_of(padded(n), m) ==> m == n,
{
    let p = padded(n);
    assert(p[n.len() as int] == 0);
    assert forall|m: Seq<u8>| is_name_of(p, m) implies m == n by {
        lemma_name_unique(p, m, n);
    }
}

/// Builds the name buffer for a requested name; `None` when the name and its
/// terminator do not fit in `IFNAMSIZ` bytes.
pub fn name_buffer(name: &[u8]) -> (r: Option<[u8; 16]>)
    requires
        nul_free(name@),
    ensures
        r is Some <==> name@.len() < IFNAMSIZ,
        r matches Some(b) ==> b@ == padded(name@),
{
    if name.len() >= IFNAMSIZ {
        return None;
    }
    let mut buf = [0u8; 16];
    let mut i: usize = 0;
    while i < name.len()
        invariant
            i <= name@.len() < IFNAMSIZ,
            buf@.len() == IFNAMSIZ,
            forall|j: int| 0 <= j < i ==> buf@[j] == name@[j],
            forall|j: int| i <= j < IFNAMSIZ ==> buf@[j] == 0,
        decreases name@.len() - i,
    {
        buf[i] = name[i];
        i = i + 1;
    }
    assert(buf@ =~= padded(name@));
    Some(buf)
}

/// Whether `buf` holds a terminated name.
pub fn is_terminated(buf: &[u8; 16]) -> (r: bool)
    ensures
        r == terminated(buf@),
{
    let mut i: usize = 0;
    while i < IFNAMSIZ
        invariant
            i <= IFNAMSIZ,
            buf@.len() == IFNAMSIZ,
            forall|j: int| 0 <= j < i ==> buf@[j] != 0,
        decreases IFNAMSIZ - i,
    {
        if buf[i] == 0 {
            return true;
        }
        i = i + 1;
    }
    false
}

/// The name that a terminated buffer holds.
pub fn name_bytes(buf: &[u8; 16]) -> (r: Vec<u8>)
    requires
        terminated(buf@),
    ensures
        is_name_of(buf@, r@),
{
    let mut out: Vec<u8> = Vec::new();
    let mut i: usize = 0;
    while buf[i] != 0
        invariant
            i < IFNAMSIZ,
            buf@.len() == IFNAMSIZ,
            terminated(buf@),
            out@.len() == i,
            forall|j: int| 0 <= j < i ==> buf@[j] != 0 && out@[j] == buf@[j],
        decreases IFNAMSIZ - i,
    {
        out.push(buf[i]);
        proof {
            // The zero byte lies beyond `i`, so `i + 1` stays inside the buffer.
            let k = choose|k: int| 0 <= k < buf@.len() && buf@[k] == 0;
            assert(k > i);
        }
        i = i + 1;
    }
    out
}

} // verus!
