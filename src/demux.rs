//! Recovery of the per-source byte stream from the 16-byte frames that the
//! trace formatter writes into the FIFO.
//!
//! A frame holds fifteen bytes of ID and data and, last, an auxiliary byte.
//! Bytes at even positions are ID bytes where their low bit is 1 (the new
//! routing tag is the upper seven bits) and data bytes otherwise; their low
//! bit then comes from the auxiliary byte, bit `i` for the byte at `2 * i`.
//! Bytes at odd positions are always data. When an ID byte's auxiliary bit is
//! set, the data byte right after it still belongs to the previous tag.
use vstd::prelude::*;

verus! {

/// Number of bytes in a formatter frame.
pub const FRAME_BYTES: usize = 16;

/// One payload byte with the routing tag that was active when it was read.
#[derive(Clone, Copy, PartialEq, Eq, Debug)]
pub struct TaggedByte {
    pub tag: u8,
    pub byte: u8,
}

/// The four bytes of a FIFO word, least significant first.
pub open spec fn word_le_bytes(w: u32) -> Seq<u8> {
    seq![(w & 0xff) as u8, ((w >> 8) & 0xff) as u8, ((w >> 16) & 0xff) as u8, ((w >> 24) & 0xff) as u8]
}

/// The bytes of a sequence of FIFO words, in drain order.
pub open spec fn words_le_bytes(ws: Seq<u32>) -> Seq<u8>
    decreases ws.len(),
{
    if ws.len() == 0 {
        Seq::empty()
    } else {
        words_le_bytes(ws.drop_last()) + word_le_bytes(ws.last())
    }
}

/// The auxiliary bit for the byte at position `2 * i` of `frame`.
pub open spec fn aux_bit(frame: Seq<u8>, i: int) -> u8 {
    (frame[15] >> (i as u8)) & 1u8
}

/// The tag after the pair at `2 * i`, `2 * i + 1` of `frame` and the bytes the
/// pair yields, starting from `tag`. The last pair has no odd byte: position
/// 15 is the auxiliary byte.
pub open spec fn pair_out(tag: u8, frame: Seq<u8>, i: int) -> (u8, Seq<TaggedByte>) {
    let b = frame[2 * i];
    let flag = aux_bit(frame, i);
    if b & 1u8 == 1u8 {
        let id = b >> 1u8;
        if i == 7 {
            (id, Seq::empty())
        } else if flag == 1u8 {
            (id, seq![TaggedByte { tag, byte: frame[2 * i + 1] }])
        } else {
            (id, seq![TaggedByte { tag: id, byte: frame[2 * i + 1] }])
        }
    } else {
        let d = TaggedByte { tag, byte: b | flag };
        if i == 7 {
            (tag, seq![d])
        } else {
            (tag, seq![d, TaggedByte { tag, byte: frame[2 * i + 1] }])
        }
    }
}

/// The tag after the first `n` pairs of `frame` and the bytes they yield.
pub open spec fn pairs_out(tag: u8, frame: Seq<u8>, n: nat) -> (u8, Seq<TaggedByte>)
    decreases n,
{
    if n == 0 {
        (tag, Seq::empty())
    } else {
        let (t, out) = pairs_out(tag, frame, (n - 1) as nat);
        let (t2, more) = pair_out(t, frame, n - 1);
        (t2, out + more)
    }
}

/// The tag after a whole frame and the bytes it yields.
pub open spec fn frame_out(tag: u8, frame: Seq<u8>) -> (u8, Seq<TaggedByte>) {
    pairs_out(tag, frame, 8)
}

/// The tag after the first `n` frames of `bytes` and the bytes they yield.
pub open spec fn frames_out(tag: u8, bytes: Seq<u8>, n: nat) -> (u8, Seq<TaggedByte>)
    decreases n,
{
    if n == 0 {
        (tag, Seq::empty())
    } else {
        let (t, out) = frames_out(tag, bytes, (n - 1) as nat);
        let start = 16 * (n - 1);
        let (t2, more) = frame_out(t, bytes.subrange(start, start + 16));
        (t2, out + more)
    }
}

/// The tag after every whole frame of `bytes` and the bytes they yield; a
/// trailing partial frame yields nothing.
pub open spec fn demux_bytes(tag: u8, bytes: Seq<u8>) -> (u8, Seq<TaggedByte>) {
    frames_out(tag, bytes, bytes.len() / 16)
}

/// The bytes of `words` in drain order, four per word, least significant first.
pub fn words_to_le_bytes(words: &Vec<u32>) -> (r: Vec<u8>)
    requires
        words.len() * 4 <= usize::MAX,
    ensures
        r@ == words_le_bytes(words@),
{
    let mut out: Vec<u8> = Vec::new();
    let mut i: usize = 0;
    while i < words.len()
        invariant
            i <= words.len(),
            out@ == words_le_bytes(words@.subrange(0, i as int)),
        decreases words.len() - i,
    {
        let w = words[i];
        out.push((w & 0xff) as u8);
        out.push(((w >> 8) & 0xff) as u8);
        out.push(((w >> 16) & 0xff) as u8);
        out.push(((w >> 24) & 0xff) as u8);
        assert(words@.subrange(0, i + 1).drop_last() =~= words@.subrange(0, i as int));
        assert(out@ =~= words_le_bytes(words@.subrange(0, i + 1)));
        i = i + 1;
    }
    assert(words@.subrange(0, words.len() as int) =~= words@);
    out
}

/// Stateful frame demultiplexer: carries the routing tag from one frame to the next.
pub struct Demultiplexer {
    tag: u8,
}

impl Demultiplexer {
    /// The routing tag in effect for the next frame.
    pub closed spec fn current_tag(&self) -> u8 {
        self.tag
    }

    /// A demultiplexer whose first frame starts with `initial_tag` in effect.
    pub fn new(initial_tag: u8) -> (r: Self)
        ensures
            r.current_tag() == initial_tag,
    {
        Demultiplexer { tag: initial_tag }
    }

    /// The routing tag in effect for the next frame.
    pub fn tag(&self) -> (r: u8)
        ensures
            r == self.current_tag(),
    {
        self.tag
    }

    /// Demultiplex the 16-byte frame at `bytes[start..start + 16]`, appending
    /// each (tag, byte) pair to `out` in order.
    pub fn feed_frame(&mut self, bytes: &Vec<u8>, start: usize, out: &mut Vec<TaggedByte>)
        requires
            start + 16 <= bytes.len(),
        ensures
            ({
                let (t, more) = frame_out(old(self).current_tag(), bytes@.subrange(start as int, start + 16));
                final(self).current_tag() == t && final(out)@ == old(out)@ + more
            }),
    {
        let ghost frame = bytes@.subrange(start as int, start + 16);
        let ghost out0 = out@;
        let aux = bytes[start + 15];
        let mut i: usize = 0;
        while i < 8
            invariant
                i <= 8,
                start + 16 <= bytes.len(),
                frame == bytes@.subrange(start as int, start + 16),
                aux == frame[15],
                ({
                    let (t, more) = pairs_out(old(self).current_tag(), frame, i as nat);
                    self.tag == t && out@ == out0 + more
                }),
            decreases 8 - i,
        {
            let b = bytes[start + 2 * i];
            let flag = (aux >> (i as u8)) & 1;
            let ghost t0 = self.tag;
            let ghost prev = out@;
            assert(b == frame[2 * i]);
            if b & 1 == 1 {
                let id = b >> 1;
                if i == 7 {
                    self.tag = id;
                } else if flag == 1 {
                    out.push(TaggedByte { tag: self.tag, byte: bytes[start + 2 * i + 1] });
                    self.tag = id;
                } else {
                    self.tag = id;
                    out.push(TaggedByte { tag: id, byte: bytes[start + 2 * i + 1] });
                }
            } else {
                out.push(TaggedByte { tag: self.tag, byte: b | flag });
                if i < 7 {
                    out.push(TaggedByte { tag: self.tag, byte: bytes[start + 2 * i + 1] });
                }
            }
            proof {
                let (t1, more1) = pair_out(t0, frame, i as int);
                assert(self.tag == t1);
                assert(out@ =~= prev + more1);
            }
            i = i + 1;
        }
    }

    /// Demultiplex every whole frame of `words`, in drain order. A trailing
    /// partial frame is not consumed.
    pub fn feed_words(&mut self, words: &Vec<u32>) -> (r: Vec<TaggedByte>)
        requires
            words.len() * 4 <= usize::MAX,
        ensures
            ({
                let (t, out) = demux_bytes(old(self).current_tag(), words_le_bytes(words@));
                final(self).current_tag() == t && r@ == out
            }),
    {
        let bytes = words_to_le_bytes(words);
        let mut out: Vec<TaggedByte> = Vec::new();
        let n = bytes.len() / FRAME_BYTES;
        let mut k: usize = 0;
        while k < n
            invariant
                k <= n,
                n == bytes.len() / 16,
                ({
                    let (t, o) = frames_out(old(self).current_tag(), bytes@, k as nat);
                    self.tag == t && out@ == o
                }),
            decreases n - k,
        {
            self.feed_frame(&bytes, FRAME_BYTES * k, &mut out);
            k = k + 1;
        }
        out
    }
}

/// Demultiplex every whole frame of `words`, starting with `initial_tag` in
/// effect: the (tag, byte) pairs in drain order and the tag in effect after
/// the last whole frame.
pub fn demultiplex(words: &Vec<u32>, initial_tag: u8) -> (r: (Vec<TaggedByte>, u8))
    requires
        words.len() * 4 <= usize::MAX,
    ensures
        ({
            let (t, out) = demux_bytes(initial_tag, words_le_bytes(words@));
            r.0@ == out && r.1 == t
        }),
{
    let mut d = Demultiplexer::new(initial_tag);
    let out = d.feed_words(words);
    (out, d.tag())
}

/// The bytes of `pairs` that carry `tag`, in order.
pub open spec fn bytes_with_tag(pairs: Seq<TaggedByte>, tag: u8) -> Seq<u8>
    decreases pairs.len(),
{
    if pairs.len() == 0 {
        Seq::empty()
    } else {
        let prev = bytes_with_tag(pairs.drop_last(), tag);
        if pairs.last().tag == tag {
            prev.push(pairs.last().byte)
        } else {
            prev
        }
    }
}

/// The stream of one trace source: the bytes of `pairs` tagged `tag`, in
/// order, and how many bytes carried another tag.
pub fn select_tag(pairs: &Vec<TaggedByte>, tag: u8) -> (r: (Vec<u8>, usize))
    ensures
        r.0@ == bytes_with_tag(pairs@, tag),
        r.0@.len() + r.1 == pairs@.len(),
{
    let mut out: Vec<u8> = Vec::new();
    let mut others: usize = 0;
    let mut i: usize = 0;
    while i < pairs.len()
        invariant
            i <= pairs.len(),
            out@ == bytes_with_tag(pairs@.subrange(0, i as int), tag),
            out@.len() + others == i,
        decreases pairs.len() - i,
    {
        let p = pairs[i];
        assert(pairs@.subrange(0, i + 1).drop_last() =~= pairs@.subrange(0, i as int));
        if p.tag == tag {
            out.push(p.byte);
        } else {
            others = others + 1;
        }
        i = i + 1;
    }
    assert(pairs@.subrange(0, pairs.len() as int) =~= pairs@);
    (out, others)
}

/// The first `n` frames depend on the first `16 * n` bytes alone.
proof fn lemma_frames_prefix(tag: u8, x: Seq<u8>, y: Seq<u8>, n: nat)
    requires
        16 * (n as int) <= x.len(),
        16 * (n as int) <= y.len(),
        x.subrange(0, 16 * (n as int)) == y.subrange(0, 16 * (n as int)),
    ensures
        frames_out(tag, x, n) == frames_out(tag, y, n),
    decreases n,
{
    if n > 0 {
        let m = (n - 1) as nat;
        assert(x.subrange(0, 16 * (m as int)) =~= x.subrange(0, 16 * (n as int)).subrange(0, 16 * (m as int)));
        assert(y.subrange(0, 16 * (m as int)) =~= y.subrange(0, 16 * (n as int)).subrange(0, 16 * (m as int)));
        lemma_frames_prefix(tag, x, y, m);
        let s = 16 * (m as int);
        assert(x.subrange(s, s + 16) =~= x.subrange(0, 16 * (n as int)).subrange(s, s + 16));
        assert(y.subrange(s, s + 16) =~= y.subrange(0, 16 * (n as int)).subrange(s, s + 16));
    }
}

/// The first `na + k` frames of `a + b`, where `a` holds exactly `na` frames.
proof fn lemma_frames_concat(tag: u8, a: Seq<u8>, b: Seq<u8>, k: nat)
    requires
        a.len() % 16 == 0,
        16 * (k as int) <= b.len(),
    ensures
        ({
            let na = a.len() / 16;
            let (ta, oa) = frames_out(tag, a, na);
            let (tb, ob) = frames_out(ta, b, k);
            frames_out(tag, a + b, na + k) == (tb, oa + ob)
        }),
    decreases k,
{
    let na = a.len() / 16;
    let (ta, oa) = frames_out(tag, a, na);
    if k == 0 {
        assert((a + b).subrange(0, 16 * (na as int)) =~= a.subrange(0, 16 * (na as int)));
        lemma_frames_prefix(tag, a + b, a, na);
        assert(oa + Seq::<TaggedByte>::empty() =~= oa);
    } else {
        let m = (k - 1) as nat;
        lemma_frames_concat(tag, a, b, m);
        let s = 16 * (na + m) as int;
        assert((a + b).subrange(s, s + 16) =~= b.subrange(16 * (m as int), 16 * (m as int) + 16));
        let (tm, om) = frames_out(ta, b, m);
        let (t2, more) = frame_out(tm, b.subrange(16 * (m as int), 16 * (m as int) + 16));
        assert(oa + om + more =~= oa + (om + more));
        assert(na + k - 1 == na + m);
    }
}

/// Demultiplexing composes at frame boundaries: a stream `a` of whole frames
/// followed by `b` yields the pairs of `a`, then the pairs of `b` read with
/// the tag that `a` left in effect; the tag after both is the tag after `b`.
pub proof fn lemma_demux_concat(tag: u8, a: Seq<u8>, b: Seq<u8>)
    requires
        a.len() % 16 == 0,
    ensures
        ({
            let (ta, oa) = demux_bytes(tag, a);
            let (tb, ob) = demux_bytes(ta, b);
            demux_bytes(tag, a + b) == (tb, oa + ob)
        }),
{
    let k = b.len() / 16;
    lemma_frames_concat(tag, a, b, k);
    assert((a + b).len() / 16 == a.len() / 16 + k);
}

/// The bytes of words drained in two parts are the bytes of the first part,
/// then those of the second.
pub proof fn lemma_words_le_bytes_concat(a: Seq<u32>, b: Seq<u32>)
    ensures
        words_le_bytes(a + b) == words_le_bytes(a) + words_le_bytes(b),
        words_le_bytes(a).len() == 4 * a.len(),
    decreases b.len(),
{
    lemma_words_le_bytes_len(a);
    if b.len() == 0 {
        assert(a + b =~= a);
        assert(words_le_bytes(a) + words_le_bytes(b) =~= words_le_bytes(a));
    } else {
        lemma_words_le_bytes_concat(a, b.drop_last());
        assert((a + b).drop_last() =~= a + b.drop_last());
        assert((a + b).last() == b.last());
        assert(words_le_bytes(a) + words_le_bytes(b.drop_last()) + word_le_bytes(b.last())
            =~= words_le_bytes(a) + (words_le_bytes(b.drop_last()) + word_le_bytes(b.last())));
    }
}

/// Four bytes per word.
pub proof fn lemma_words_le_bytes_len(ws: Seq<u32>)
    ensures
        words_le_bytes(ws).len() == 4 * ws.len(),
    decreases ws.len(),
{
    if ws.len() > 0 {
        lemma_words_le_bytes_len(ws.drop_last());
    }
}

/// Feeding a demultiplexer `a` (whole frames) and then `b` gives the same
/// pairs, in the same order, and leaves the same tag as feeding `a + b` at
/// once: the routing tag is carried from one frame to the next.
pub proof fn lemma_feed_words_concat(tag: u8, a: Seq<u32>, b: Seq<u32>)
    requires
        a.len() % 4 == 0,
    ensures
        ({
            let (ta, oa) = demux_bytes(tag, words_le_bytes(a));
            let (tb, ob) = demux_bytes(ta, words_le_bytes(b));
            demux_bytes(tag, words_le_bytes(a + b)) == (tb, oa + ob)
        }),
{
    lemma_words_le_bytes_concat(a, b);
    lemma_demux_concat(tag, words_le_bytes(a), words_le_bytes(b));
}

} // verus!
