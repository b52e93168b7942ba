//! Vertex buffer layouts and the byte codec they describe.
//!
//! A vertex record is modelled by the sequence of 32-bit words its fields
//! occupy, in declaration order; each word holds the raw bit pattern of one
//! scalar.  A `VertexLayout` describes where each attribute of such a record
//! sits inside a GPU buffer.  Encoding writes the words of every vertex back
//! to back in little-endian order; decoding reads them back through the
//! offsets the layout declares, so a round trip exercises the layout itself.

use vstd::prelude::*;
use vstd::arithmetic::div_mod::lemma_fundamental_div_mod;
use vstd::bytes::lemma_auto_spec_u32_to_from_le_bytes;
use vstd::bytes::spec_u16_to_le_bytes;
use vstd::bytes::u16_to_le_bytes;
use vstd::bytes::spec_u32_from_le_bytes;
use vstd::bytes::spec_u32_to_le_bytes;
use vstd::bytes::u32_from_le_bytes;
use vstd::bytes::u32_to_le_bytes;
use vstd::slice::slice_subrange;

verus! {

/// Scalar shape of one vertex attribute, as the shader input declares it.
#[derive(Clone, Copy, PartialEq, Eq, Structural, Debug)]
pub enum VertexFormat {
    Float32x2,
    Float32x3,
}

impl VertexFormat {
    /// Number of 32-bit words an attribute of this format occupies.
    pub open spec fn spec_word_count(self) -> nat {
        match self {
            VertexFormat::Float32x2 => 2,
            VertexFormat::Float32x3 => 3,
        }
    }

    /// Size of an attribute of this format, in bytes.
    pub open spec fn spec_size(self) -> nat {
        4 * self.spec_word_count()
    }

    pub fn word_count(&self) -> (r: usize)
        ensures
            r == self.spec_word_count(),
    {
        match self {
            VertexFormat::Float32x2 => 2,
            VertexFormat::Float32x3 => 3,
        }
    }

    pub fn size(&self) -> (r: usize)
        ensures
            r == self.spec_size(),
    {
        4 * self.word_count()
    }
}

/// One attribute of a vertex layout: where its bytes start inside a record,
/// which shader input location receives it, and its scalar shape.
#[derive(Clone, Copy, PartialEq, Eq, Structural, Debug)]
pub struct VertexAttribute {
    pub offset: usize,
    pub shader_location: u32,
    pub format: VertexFormat,
}

/// Whether records advance per vertex or per instance.
#[derive(Clone, Copy, PartialEq, Eq, Structural, Debug)]
pub enum VertexStepMode {
    Vertex,
    Instance,
}

/// How vertices of one record type are laid out in a GPU buffer.
#[derive(Clone, Debug)]
pub struct VertexLayout {
    pub array_stride: usize,
    pub step_mode: VertexStepMode,
    pub attributes: Vec<VertexAttribute>,
}

/// Total size in bytes of `attrs` laid end to end.
pub open spec fn packed_size(attrs: Seq<VertexAttribute>) -> nat
    decreases attrs.len(),
{
    if attrs.len() == 0 {
        0
    } else {
        packed_size(attrs.drop_last()) + attrs.last().format.spec_size()
    }
}

/// Total number of 32-bit words of `attrs` laid end to end.
pub open spec fn packed_word_count(attrs: Seq<VertexAttribute>) -> nat
    decreases attrs.len(),
{
    if attrs.len() == 0 {
        0
    } else {
        packed_word_count(attrs.drop_last()) + attrs.last().format.spec_word_count()
    }
}

pub proof fn lemma_packed_size_is_words(attrs: Seq<VertexAttribute>)
    ensures
        packed_size(attrs) == 4 * packed_word_count(attrs),
    decreases attrs.len(),
{
    if attrs.len() > 0 {
        lemma_packed_size_is_words(attrs.drop_last());
    }
}

/// Each attribute, together with the ones before it, fits in the record.
pub proof fn lemma_packed_prefix_bound(attrs: Seq<VertexAttribute>, a: int)
    requires
        0 <= a < attrs.len(),
    ensures
        packed_size(attrs.take(a)) + attrs[a].format.spec_size() <= packed_size(attrs),
    decreases attrs.len(),
{
    if a == attrs.len() - 1 {
        assert(attrs.take(a) =~= attrs.drop_last());
    } else {
        lemma_packed_prefix_bound(attrs.drop_last(), a);
        assert(attrs.drop_last().take(a) =~= attrs.take(a));
        assert(attrs.drop_last()[a] == attrs[a]);
    }
}

impl VertexLayout {
    /// The layout matches a record whose fields stand back to back from
    /// offset zero and fill the whole stride, attribute `i` feeding shader
    /// input location `i`.  This is the bit-exact contract between a vertex
    /// record and its shader declaration.
    pub open spec fn wf(self) -> bool {
        &&& 0 < self.attributes@.len()
        &&& forall|i: int|
            0 <= i < self.attributes@.len() ==> (#[trigger] self.attributes@[i]).offset
                == packed_size(self.attributes@.take(i))
        &&& forall|i: int|
            0 <= i < self.attributes@.len() ==> (#[trigger] self.attributes@[i]).shader_location
                == i
        &&& self.array_stride == packed_size(self.attributes@)
    }

    /// Number of 32-bit words one record occupies under this layout.
    pub open spec fn spec_word_count(self) -> nat {
        packed_word_count(self.attributes@)
    }

    /// A well-formed layout covers at least one attribute, so a record is
    /// never empty.
    pub proof fn lemma_wf_positive(self)
        requires
            self.wf(),
        ensures
            self.array_stride == 4 * self.spec_word_count(),
            0 < self.spec_word_count(),
            0 < self.array_stride,
    {
        lemma_packed_size_is_words(self.attributes@);
        assert(packed_word_count(self.attributes@) == packed_word_count(
            self.attributes@.drop_last(),
        ) + self.attributes@.last().format.spec_word_count());
        assert(self.attributes@.last().format.spec_word_count() >= 2);
    }
}

/// Build the layout of a record of two attributes packed back to back,
/// advancing per vertex, attribute `i` feeding shader input location `i`.
pub fn two_attribute_layout(f0: VertexFormat, f1: VertexFormat) -> (r: VertexLayout)
    ensures
        r.wf(),
        r.step_mode == VertexStepMode::Vertex,
        r.attributes@.len() == 2,
        r.attributes@[0] == (VertexAttribute { offset: 0, shader_location: 0, format: f0 }),
        r.attributes@[1] == (VertexAttribute {
            offset: f0.spec_size() as usize,
            shader_location: 1,
            format: f1,
        }),
        r.array_stride == f0.spec_size() + f1.spec_size(),
        r.spec_word_count() == f0.spec_word_count() + f1.spec_word_count(),
{
    let a0 = VertexAttribute { offset: 0, shader_location: 0, format: f0 };
    let a1 = VertexAttribute { offset: f0.size(), shader_location: 1, format: f1 };
    let mut attributes: Vec<VertexAttribute> = Vec::new();
    attributes.push(a0);
    attributes.push(a1);
    let r = VertexLayout {
        array_stride: f0.size() + f1.size(),
        step_mode: VertexStepMode::Vertex,
        attributes,
    };
    proof {
        let s = r.attributes@;
        assert(s =~= seq![a0, a1]);
        assert(s.drop_last() =~= seq![a0]);
        assert(s.last() == a1);
        assert(seq![a0].drop_last() =~= Seq::<VertexAttribute>::empty());
        assert(seq![a0].last() == a0);
        assert(packed_size(Seq::<VertexAttribute>::empty()) == 0);
        assert(packed_word_count(Seq::<VertexAttribute>::empty()) == 0);
        assert(packed_size(seq![a0]) == f0.spec_size());
        assert(packed_size(s) == f0.spec_size() + f1.spec_size());
        assert(packed_word_count(seq![a0]) == f0.spec_word_count());
        assert(packed_word_count(s) == f0.spec_word_count() + f1.spec_word_count());
        assert forall|i: int| 0 <= i < s.len() implies (#[trigger] s[i]).offset == packed_size(
            s.take(i),
        ) by {
            if i == 0 {
                assert(s.take(0) =~= Seq::<VertexAttribute>::empty());
            } else {
                assert(s.take(1) =~= seq![a0]);
            }
        }
    }
    r
}

/// The little-endian byte image of an index sequence.
pub open spec fn le_indices(indices: Seq<u16>) -> Seq<u8>
    decreases indices.len(),
{
    if indices.len() == 0 {
        Seq::<u8>::empty()
    } else {
        le_indices(indices.drop_last()) + spec_u16_to_le_bytes(indices.last())
    }
}

/// Encode indices back to back, each little-endian.
pub fn encode_indices(indices: &Vec<u16>) -> (r: Vec<u8>)
    ensures
        r@ == le_indices(indices@),
{
    let mut out: Vec<u8> = Vec::new();
    let mut i: usize = 0;
    while i < indices.len()
        invariant
            i <= indices.len(),
            out@ == le_indices(indices@.take(i as int)),
        decreases indices.len() - i,
    {
        let ghost pre = out@;
        let bs = u16_to_le_bytes(indices[i]);
        let b0 = bs[0];
        let b1 = bs[1];
        out.push(b0);
        out.push(b1);
        proof {
            assert(out@ =~= pre + spec_u16_to_le_bytes(indices@[i as int]));
            assert(indices@.take(i as int + 1).drop_last() =~= indices@.take(i as int));
            assert(indices@.take(i as int + 1).last() == indices@[i as int]);
        }
        i += 1;
    }
    proof {
        assert(indices@.take(indices@.len() as int) =~= indices@);
    }
    out
}

/// The little-endian byte image of a word sequence.
pub open spec fn le_words(ws: Seq<u32>) -> Seq<u8>
    decreases ws.len(),
{
    if ws.len() == 0 {
        Seq::<u8>::empty()
    } else {
        le_words(ws.drop_last()) + spec_u32_to_le_bytes(ws.last())
    }
}

/// All vertex words, vertex after vertex, in buffer order.
pub open spec fn word_stream(vs: Seq<Seq<u32>>) -> Seq<u32>
    decreases vs.len(),
{
    if vs.len() == 0 {
        Seq::<u32>::empty()
    } else {
        word_stream(vs.drop_last()) + vs.last()
    }
}

pub proof fn lemma_le_words_len(ws: Seq<u32>)
    ensures
        le_words(ws).len() == 4 * ws.len(),
    decreases ws.len(),
{
    lemma_auto_spec_u32_to_from_le_bytes();
    if ws.len() > 0 {
        lemma_le_words_len(ws.drop_last());
    }
}

/// Appending one word appends its four bytes.
pub proof fn lemma_le_words_snoc(ws: Seq<u32>, w: u32)
    ensures
        le_words(ws.push(w)) == le_words(ws) + spec_u32_to_le_bytes(w),
{
    assert(ws.push(w).drop_last() =~= ws);
    assert(ws.push(w).last() == w);
}

/// Word `j` of the image sits at bytes `4 * j .. 4 * j + 4`.
pub proof fn lemma_le_words_index(ws: Seq<u32>, j: int)
    requires
        0 <= j < ws.len(),
    ensures
        le_words(ws).subrange(4 * j, 4 * j + 4) == spec_u32_to_le_bytes(ws[j]),
    decreases ws.len(),
{
    lemma_auto_spec_u32_to_from_le_bytes();
    lemma_le_words_len(ws);
    lemma_le_words_len(ws.drop_last());
    if j == ws.len() - 1 {
        assert(le_words(ws).subrange(4 * j, 4 * j + 4) =~= spec_u32_to_le_bytes(ws.last()));
    } else {
        lemma_le_words_index(ws.drop_last(), j);
        assert(le_words(ws).subrange(4 * j, 4 * j + 4) =~= le_words(ws.drop_last()).subrange(
            4 * j,
            4 * j + 4,
        ));
    }
}

pub proof fn lemma_word_stream_uniform_len(vs: Seq<Seq<u32>>, w: nat)
    requires
        forall|i: int| 0 <= i < vs.len() ==> (#[trigger] vs[i]).len() == w,
    ensures
        word_stream(vs).len() == vs.len() * w,
    decreases vs.len(),
{
    if vs.len() > 0 {
        lemma_word_stream_uniform_len(vs.drop_last(), w);
        assert((vs.len() - 1) * w + w == vs.len() * w) by (nonlinear_arith);
    }
}

/// Word `j` of vertex `i` sits at position `i * w + j` of the stream.
pub proof fn lemma_word_stream_index(vs: Seq<Seq<u32>>, w: nat, i: int, j: int)
    requires
        forall|k: int| 0 <= k < vs.len() ==> (#[trigger] vs[k]).len() == w,
        0 <= i < vs.len(),
        0 <= j < w,
    ensures
        word_stream(vs)[i * w + j] == vs[i][j],
    decreases vs.len(),
{
    lemma_word_stream_uniform_len(vs, w);
    lemma_word_stream_uniform_len(vs.drop_last(), w);
    if i == vs.len() - 1 {
        assert(i * w + j - word_stream(vs.drop_last()).len() == j) by (nonlinear_arith)
            requires
                word_stream(vs.drop_last()).len() == i * w,
        ;
    } else {
        lemma_word_stream_index(vs.drop_last(), w, i, j);
        assert(i * w + j < (vs.len() - 1) * w) by (nonlinear_arith)
            requires
                0 <= i < vs.len() - 1,
                0 <= j < w,
        ;
    }
}

/// Append the little-endian bytes of `w` to `out`.
fn push_word(out: &mut Vec<u8>, w: u32)
    ensures
        final(out)@ == old(out)@ + spec_u32_to_le_bytes(w),
{
    let bs = u32_to_le_bytes(w);
    let b0 = bs[0];
    let b1 = bs[1];
    let b2 = bs[2];
    let b3 = bs[3];
    out.push(b0);
    out.push(b1);
    out.push(b2);
    out.push(b3);
    proof {
        assert(out@ =~= old(out)@ + spec_u32_to_le_bytes(w));
    }
}

/// Encode a flat word sequence, each word little-endian.
pub fn encode_words(ws: &Vec<u32>) -> (r: Vec<u8>)
    ensures
        r@ == le_words(ws@),
{
    let mut out: Vec<u8> = Vec::new();
    let mut i: usize = 0;
    while i < ws.len()
        invariant
            i <= ws.len(),
            out@ == le_words(ws@.take(i as int)),
        decreases ws.len() - i,
    {
        proof {
            lemma_le_words_snoc(ws@.take(i as int), ws@[i as int]);
            assert(ws@.take(i as int).push(ws@[i as int]) =~= ws@.take(i as int + 1));
        }
        push_word(&mut out, ws[i]);
        i += 1;
    }
    proof {
        assert(ws@.take(ws@.len() as int) =~= ws@);
    }
    out
}

/// Encode vertices, given as their word records, back to back in buffer
/// order, each word little-endian.
pub fn encode_vertices(vs: &Vec<Vec<u32>>) -> (r: Vec<u8>)
    ensures
        r@ == le_words(word_stream(vs@.map_values(|v: Vec<u32>| v@))),
{
    let ghost all = vs@.map_values(|v: Vec<u32>| v@);
    let mut out: Vec<u8> = Vec::new();
    let mut i: usize = 0;
    while i < vs.len()
        invariant
            i <= vs.len(),
            all == vs@.map_values(|v: Vec<u32>| v@),
            out@ == le_words(word_stream(all.take(i as int))),
        decreases vs.len() - i,
    {
        let v = &vs[i];
        let mut j: usize = 0;
        while j < v.len()
            invariant
                j <= v.len(),
                i < vs.len(),
                all == vs@.map_values(|v2: Vec<u32>| v2@),
                v@ == all[i as int],
                out@ == le_words(word_stream(all.take(i as int)) + v@.take(j as int)),
            decreases v.len() - j,
        {
            proof {
                let pre = word_stream(all.take(i as int)) + v@.take(j as int);
                lemma_le_words_snoc(pre, v@[j as int]);
                assert(pre.push(v@[j as int]) =~= word_stream(all.take(i as int)) + v@.take(
                    j as int + 1,
                ));
            }
            push_word(&mut out, v[j]);
            j += 1;
        }
        proof {
            assert(v@.take(v@.len() as int) =~= v@);
            assert(word_stream(all.take(i as int + 1)) == word_stream(all.take(i as int))
                + all[i as int]) by {
                assert(all.take(i as int + 1).drop_last() =~= all.take(i as int));
            };
        }
        i += 1;
    }
    proof {
        assert(all.take(vs@.len() as int) =~= all);
    }
    out
}

/// What a successful decode guarantees: the byte buffer holds exactly the
/// decoded records, and word `j` of record `i` was read back from the four
/// bytes at `i * stride + 4 * j`.
pub open spec fn decode_post(out: Seq<Seq<u32>>, bytes: Seq<u8>, layout: VertexLayout) -> bool {
    &&& bytes.len() == out.len() * layout.array_stride
    &&& forall|i: int| 0 <= i < out.len() ==> (#[trigger] out[i]).len() == layout.spec_word_count()
    &&& forall|i: int, j: int|
        0 <= i < out.len() && 0 <= j < layout.spec_word_count() ==> #[trigger] out[i][j]
            == spec_u32_from_le_bytes(
            bytes.subrange(
                i * layout.array_stride + 4 * j,
                i * layout.array_stride + 4 * j + 4,
            ),
        )
}

/// Read vertices back through the declared layout: vertex `i`, attribute
/// `a`, word `j` comes from the four bytes at
/// `i * array_stride + a.offset + 4 * j`.  Returns `None` exactly when the
/// buffer is not a whole number of records.
pub fn decode_vertices(bytes: &Vec<u8>, layout: &VertexLayout) -> (r: Option<Vec<Vec<u32>>>)
    requires
        layout.wf(),
    ensures
        r is Some <==> (bytes@.len() as int) % (layout.array_stride as int) == 0,
        r matches Some(vs) ==> decode_post(vs@.map_values(|v: Vec<u32>| v@), bytes@, *layout),
{
    proof {
        layout.lemma_wf_positive();
    }
    let stride = layout.array_stride;
    let n = bytes.len();
    if n % stride != 0 {
        return None;
    }
    let count = n / stride;
    proof {
        lemma_fundamental_div_mod(n as int, stride as int);
        assert(count * stride == n) by (nonlinear_arith)
            requires
                n as int == stride as int * (n as int / stride as int) + (n as int
                    % stride as int),
                (n as int) % (stride as int) == 0,
                count == n as int / stride as int,
        ;
    }
    let mut out: Vec<Vec<u32>> = Vec::new();
    let mut i: usize = 0;
    while i < count
        invariant
            i <= count,
            stride == layout.array_stride,
            layout.wf(),
            stride == 4 * layout.spec_word_count(),
            n == bytes@.len(),
            count * stride == n,
            out@.len() == i,
            forall|k: int|
                0 <= k < out@.len() ==> (#[trigger] out@[k])@.len() == layout.spec_word_count(),
            forall|k: int, j: int|
                0 <= k < out@.len() && 0 <= j < layout.spec_word_count() ==> #[trigger] out@[k]@[j]
                    == spec_u32_from_le_bytes(
                    bytes@.subrange(k * stride + 4 * j, k * stride + 4 * j + 4),
                ),
        decreases count - i,
    {
        assert(i * stride + stride <= n) by (nonlinear_arith)
            requires
                i < count,
                stride > 0,
                count * stride == n,
        ;
        let base = i * stride;
        let mut rec: Vec<u32> = Vec::new();
        let mut a: usize = 0;
        while a < layout.attributes.len()
            invariant
                a <= layout.attributes@.len(),
                layout.wf(),
                stride == layout.array_stride,
                stride == 4 * layout.spec_word_count(),
                base == i as int * stride,
                base + stride <= n <= bytes@.len(),
                4 * rec@.len() == packed_size(layout.attributes@.take(a as int)),
                forall|j: int|
                    0 <= j < rec@.len() ==> #[trigger] rec@[j] == spec_u32_from_le_bytes(
                        bytes@.subrange(base + 4 * j, base + 4 * j + 4),
                    ),
            decreases layout.attributes@.len() - a,
        {
            proof {
                lemma_packed_prefix_bound(layout.attributes@, a as int);
            }
            let attr = layout.attributes[a];
            let wc = attr.format.word_count();
            let mut j: usize = 0;
            while j < wc
                invariant
                    j <= wc,
                    layout.wf(),
                    a < layout.attributes@.len(),
                    attr == layout.attributes@[a as int],
                    wc == attr.format.spec_word_count(),
                    stride == layout.array_stride,
                    base + stride <= n <= bytes@.len(),
                    attr.offset + attr.format.spec_size() <= stride,
                    4 * rec@.len() == attr.offset + 4 * j,
                    forall|k: int|
                        0 <= k < rec@.len() ==> #[trigger] rec@[k] == spec_u32_from_le_bytes(
                            bytes@.subrange(base + 4 * k, base + 4 * k + 4),
                        ),
                decreases wc - j,
            {
                let pos = base + attr.offset + 4 * j;
                let chunk = slice_subrange(bytes.as_slice(), pos, pos + 4);
                let w = u32_from_le_bytes(chunk);
                rec.push(w);
                j += 1;
            }
            proof {
                assert(layout.attributes@.take(a as int + 1).drop_last() =~= layout.attributes@
                    .take(a as int));
                assert(packed_size(layout.attributes@.take(a as int + 1)) == attr.offset
                    + attr.format.spec_size());
            }
            a += 1;
        }
        proof {
            assert(layout.attributes@.take(layout.attributes@.len() as int)
                =~= layout.attributes@);
            lemma_packed_size_is_words(layout.attributes@);
        }
        out.push(rec);
        i += 1;
    }
    proof {
        let m = out@.map_values(|v: Vec<u32>| v@);
        assert forall|k: int| 0 <= k < m.len() implies (#[trigger] m[k]).len()
            == layout.spec_word_count() by {
            assert(m[k] == out@[k]@);
        }
        assert forall|k: int, j: int|
            0 <= k < m.len() && 0 <= j < layout.spec_word_count() implies #[trigger] m[k][j]
            == spec_u32_from_le_bytes(
            bytes@.subrange(
                k * layout.array_stride + 4 * j,
                k * layout.array_stride + 4 * j + 4,
            ),
        ) by {
            assert(m[k] == out@[k]@);
        }
    }
    Some(out)
}

/// The words of an encoded stream are recovered at their sequential
/// positions: reading four bytes at `4 * (i * w + j)` of the image of
/// uniform `w`-word records gives back word `j` of record `i`.
pub proof fn lemma_encoded_words_recovered(vs: Seq<Seq<u32>>, w: nat, i: int, j: int)
    requires
        forall|k: int| 0 <= k < vs.len() ==> (#[trigger] vs[k]).len() == w,
        0 <= i < vs.len(),
        0 <= j < w,
    ensures
        spec_u32_from_le_bytes(
            le_words(word_stream(vs)).subrange(4 * (i * w + j), 4 * (i * w + j) + 4),
        ) == vs[i][j],
{
    lemma_auto_spec_u32_to_from_le_bytes();
    let stream = word_stream(vs);
    let idx = i * w + j;
    lemma_word_stream_uniform_len(vs, w);
    assert(0 <= idx < vs.len() * w) by (nonlinear_arith)
        requires
            idx == i * w + j,
            0 <= i < vs.len(),
            0 <= j < w,
    ;
    lemma_le_words_index(stream, idx);
    lemma_word_stream_index(vs, w, i, j);
    assert(spec_u32_to_le_bytes(vs[i][j]).len() == 4);
    assert(le_words(stream).subrange(4 * idx, 4 * idx + 4) == spec_u32_to_le_bytes(vs[i][j]));
    assert(spec_u32_from_le_bytes(spec_u32_to_le_bytes(vs[i][j])) == vs[i][j]);
}

/// Law: decoding an encoded buffer through a well-formed layout whose word
/// count matches the records restores every vertex bit for bit.
pub proof fn lemma_layout_round_trip(
    vs: Seq<Seq<u32>>,
    layout: VertexLayout,
    decoded: Seq<Seq<u32>>,
)
    requires
        layout.wf(),
        forall|k: int| 0 <= k < vs.len() ==> (#[trigger] vs[k]).len() == layout.spec_word_count(),
        decode_post(decoded, le_words(word_stream(vs)), layout),
    ensures
        decoded == vs,
{
    let w = layout.spec_word_count();
    let bytes = le_words(word_stream(vs));
    layout.lemma_wf_positive();
    lemma_word_stream_uniform_len(vs, w);
    lemma_le_words_len(word_stream(vs));
    assert(bytes.len() == vs.len() * (4 * w)) by (nonlinear_arith)
        requires
            bytes.len() == 4 * (vs.len() * w),
    ;
    assert(decoded.len() == vs.len()) by (nonlinear_arith)
        requires
            decoded.len() * (4 * w) == vs.len() * (4 * w),
            w > 0,
            decoded.len() >= 0,
            vs.len() >= 0,
    ;
    assert forall|i: int, j: int| 0 <= i < vs.len() && 0 <= j < w implies decoded[i][j] == vs[i][j]
        by {
        lemma_encoded_words_recovered(vs, w, i, j);
        assert(i * (4 * w) + 4 * j == 4 * (i * w + j)) by (nonlinear_arith);
        assert(decoded[i][j] == spec_u32_from_le_bytes(
            bytes.subrange(i * layout.array_stride + 4 * j, i * layout.array_stride + 4 * j + 4),
        ));
    }
    assert forall|i: int| 0 <= i < vs.len() implies decoded[i] =~= vs[i] by {
        assert(decoded[i].len() == w);
        assert(vs[i].len() == w);
    }
    assert(decoded =~~= vs);
}

} // verus!
