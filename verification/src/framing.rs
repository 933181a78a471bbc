//! Length-prefixed framing of a sequence of byte strings.
//!
//! Every part is written as its length, an 8-byte big-endian integer,
//! followed by its bytes. The parts follow each other in call order. Unlike
//! plain concatenation this encoding is injective: the framed bytes determine
//! the sequence of parts.

use vstd::prelude::*;

verus! {

/// The eight bytes of `n`, most significant first.
pub open spec fn be_bytes(n: u64) -> Seq<u8> {
    seq![
        ((n >> 56) & 0xff) as u8,
        ((n >> 48) & 0xff) as u8,
        ((n >> 40) & 0xff) as u8,
        ((n >> 32) & 0xff) as u8,
        ((n >> 24) & 0xff) as u8,
        ((n >> 16) & 0xff) as u8,
        ((n >> 8) & 0xff) as u8,
        (n & 0xff) as u8,
    ]
}

/// One framed part: its length as eight big-endian bytes, then its bytes.
pub open spec fn frame_part(part: Seq<u8>) -> Seq<u8> {
    be_bytes(part.len() as u64) + part
}

/// The framed encoding of `parts`: each part framed, in order.
pub open spec fn frame(parts: Seq<Seq<u8>>) -> Seq<u8>
    decreases parts.len(),
{
    if parts.len() == 0 {
        Seq::empty()
    } else {
        frame_part(parts[0]) + frame(parts.drop_first())
    }
}

/// The byte strings that a slice of borrowed messages stands for.
pub open spec fn message_bytes(messages: Seq<&[u8]>) -> Seq<Seq<u8>> {
    Seq::new(messages.len(), |i: int| messages[i]@)
}

/// A length is determined by its big-endian bytes.
pub proof fn lemma_be_bytes_injective(a: u64, b: u64)
    requires
        be_bytes(a) == be_bytes(b),
    ensures
        a == b,
{
    assert(a == b) by (bit_vector)
        requires
            ((a >> 56) & 0xff) as u8 == ((b >> 56) & 0xff) as u8,
            ((a >> 48) & 0xff) as u8 == ((b >> 48) & 0xff) as u8,
            ((a >> 40) & 0xff) as u8 == ((b >> 40) & 0xff) as u8,
            ((a >> 32) & 0xff) as u8 == ((b >> 32) & 0xff) as u8,
            ((a >> 24) & 0xff) as u8 == ((b >> 24) & 0xff) as u8,
            ((a >> 16) & 0xff) as u8 == ((b >> 16) & 0xff) as u8,
            ((a >> 8) & 0xff) as u8 == ((b >> 8) & 0xff) as u8,
            (a & 0xff) as u8 == (b & 0xff) as u8,
    ;
}

/// Framing one more part appends its frame.
pub proof fn lemma_frame_push(parts: Seq<Seq<u8>>, part: Seq<u8>)
    ensures
        frame(parts.push(part)) == frame(parts) + frame_part(part),
    decreases parts.len(),
{
    if parts.len() == 0 {
        let one = parts.push(part);
        assert(frame(one.drop_first()) =~= Seq::<u8>::empty());
    } else {
        let rest = parts.drop_first();
        lemma_frame_push(rest, part);
        assert(parts.push(part).drop_first() =~= rest.push(part));
    }
}

/// True when the length of every part fits the 8-byte length prefix.
pub open spec fn framable(parts: Seq<Seq<u8>>) -> bool {
    forall|i: int| 0 <= i < parts.len() ==> (#[trigger] parts[i]).len() <= u64::MAX
}

/// Framing is injective: two sequences of parts whose lengths fit the prefix
/// and whose framed encodings are equal are the same sequence.
pub proof fn lemma_frame_injective(a: Seq<Seq<u8>>, b: Seq<Seq<u8>>)
    requires
        framable(a),
        framable(b),
        frame(a) == frame(b),
    ensures
        a == b,
    decreases a.len(),
{
    if a.len() == 0 || b.len() == 0 {
        if a.len() > 0 {
            assert(frame(a).len() >= be_bytes(a[0].len() as u64).len());
        }
        if b.len() > 0 {
            assert(frame(b).len() >= be_bytes(b[0].len() as u64).len());
        }
    } else {
        let fa = frame(a);
        let fb = frame(b);
        let (a0, b0) = (a[0], b[0]);
        let (ra, rb) = (a.drop_first(), b.drop_first());
        // The first eight bytes give the length of the first part.
        assert(fa.subrange(0, 8) =~= be_bytes(a0.len() as u64));
        assert(fb.subrange(0, 8) =~= be_bytes(b0.len() as u64));
        lemma_be_bytes_injective(a0.len() as u64, b0.len() as u64);
        // The bytes after them give the first part, and what is left frames
        // the other parts.
        let n = a0.len() as int;
        assert(fa.subrange(8, 8 + n) =~= a0);
        assert(fb.subrange(8, 8 + n) =~= b0);
        assert(fa.subrange(8 + n, fa.len() as int) =~= frame(ra));
        assert(fb.subrange(8 + n, fb.len() as int) =~= frame(rb));
        assert(framable(ra) && framable(rb)) by {
            assert(forall|i: int| 0 <= i < ra.len() ==> ra[i] == a[i + 1]);
            assert(forall|i: int| 0 <= i < rb.len() ==> rb[i] == b[i + 1]);
        }
        lemma_frame_injective(ra, rb);
        assert(a =~= seq![a0] + ra);
        assert(b =~= seq![b0] + rb);
    }
}

/// Writes the eight big-endian bytes of `n` at the end of `out`.
fn push_be_bytes(out: &mut Vec<u8>, n: u64)
    ensures
        final(out)@ == old(out)@ + be_bytes(n),
{
    assert(((n >> 56) & 0xff) < 256 && ((n >> 48) & 0xff) < 256 && ((n >> 40) & 0xff) < 256
        && ((n >> 32) & 0xff) < 256 && ((n >> 24) & 0xff) < 256 && ((n >> 16) & 0xff) < 256
        && ((n >> 8) & 0xff) < 256 && (n & 0xff) < 256) by (bit_vector);
    out.push(((n >> 56) & 0xff) as u8);
    out.push(((n >> 48) & 0xff) as u8);
    out.push(((n >> 40) & 0xff) as u8);
    out.push(((n >> 32) & 0xff) as u8);
    out.push(((n >> 24) & 0xff) as u8);
    out.push(((n >> 16) & 0xff) as u8);
    out.push(((n >> 8) & 0xff) as u8);
    out.push((n & 0xff) as u8);
}

/// Writes `bytes` at the end of `out`.
pub(crate) fn push_bytes(out: &mut Vec<u8>, bytes: &[u8])
    ensures
        final(out)@ == old(out)@ + bytes@,
{
    let mut i: usize = 0;
    while i < bytes.len()
        invariant
            i <= bytes.len(),
            out@ == old(out)@ + bytes@.subrange(0, i as int),
        decreases bytes.len() - i,
    {
        out.push(bytes[i]);
        i = i + 1;
    }
}

/// Compares two byte strings.
pub(crate) fn bytes_equal(a: &[u8], b: &[u8]) -> (same: bool)
    ensures
        same == (a@ == b@),
{
    if a.len() != b.len() {
        return false;
    }
    let mut i: usize = 0;
    while i < a.len()
        invariant
            i <= a.len(),
            a.len() == b.len(),
            a@.subrange(0, i as int) == b@.subrange(0, i as int),
        decreases a.len() - i,
    {
        if a[i] != b[i] {
            return false;
        }
        i = i + 1;
    }
    assert(a@ =~= a@.subrange(0, i as int));
    assert(b@ =~= b@.subrange(0, i as int));
    true
}

/// Frames `messages` for hashing and signing: for each message its length as
/// eight big-endian bytes followed by the message itself, in order.
pub fn prepare_hash_multiple(messages: &[&[u8]]) -> (res: Vec<u8>)
    ensures
        res@ == frame(message_bytes(messages@)),
{
    let ghost parts = message_bytes(messages@);
    let mut res: Vec<u8> = Vec::new();
    let mut i: usize = 0;
    while i < messages.len()
        invariant
            i <= messages.len(),
            parts == message_bytes(messages@),
            res@ == frame(parts.subrange(0, i as int)),
        decreases messages.len() - i,
    {
        let msg: &[u8] = messages[i];
        push_be_bytes(&mut res, msg.len() as u64);
        push_bytes(&mut res, msg);
        proof {
            let done = parts.subrange(0, i as int);
            lemma_frame_push(done, msg@);
            assert(done.push(msg@) =~= parts.subrange(0, i + 1));
        }
        i = i + 1;
    }
    assert(parts.subrange(0, i as int) =~= parts);
    res
}

} // verus!
