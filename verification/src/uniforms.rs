//! Byte staging areas for named uniform buffers.
//!
//! Each uniform buffer has a byte region accumulated on the host and pushed
//! to the device in one piece, together with tables giving each named
//! uniform's byte offset and, for array uniforms, its element stride. A
//! scalar or vector update writes little-endian words into the region; an
//! array update performs one contiguous copy when the stride is zero or the
//! natural element width, and otherwise scatters element `i` to
//! `offset + i * stride`. A name the tables do not know, or a write that
//! would pass the end of the region, skips the update: missing uniforms are
//! an expected product of shader optimisation, not an error.

use vstd::prelude::*;
use vstd::arithmetic::mul::lemma_mul_inequality;
use vstd::arithmetic::mul::lemma_mul_nonnegative;
use vstd::bytes::lemma_auto_spec_u32_to_from_le_bytes;
use vstd::bytes::spec_u32_to_le_bytes;
use vstd::bytes::u32_to_le_bytes;

use crate::batch::Vec3Bits;
use crate::resources::UniformBlockSpec;

verus! {

/// The word a two's-complement `i32` occupies in a uniform buffer.
pub open spec fn spec_i32_word(v: i32) -> u32 {
    if v >= 0 {
        v as u32
    } else {
        (v + 0x1_0000_0000) as u32
    }
}

/// The value a name resolves to in an offset or stride table; a name
/// recorded twice resolves to its latest entry.
pub open spec fn spec_lookup(entries: Seq<(String, usize)>, name: Seq<char>) -> Option<usize>
    decreases entries.len(),
{
    if entries.len() == 0 {
        None
    } else if entries.last().0@ == name {
        Some(entries.last().1)
    } else {
        spec_lookup(entries.drop_last(), name)
    }
}

/// A byte region with one 4-byte little-endian word stored at `off`.
pub open spec fn spec_store_word(s: Seq<u8>, off: int, w: u32) -> Seq<u8> {
    s.update(off, spec_u32_to_le_bytes(w)[0]).update(off + 1, spec_u32_to_le_bytes(w)[1]).update(
        off + 2,
        spec_u32_to_le_bytes(w)[2],
    ).update(off + 3, spec_u32_to_le_bytes(w)[3])
}

/// A byte region with the words `ws` stored from `off` on, each `stride`
/// bytes after the one before.
pub open spec fn spec_store_words(s: Seq<u8>, off: int, stride: int, ws: Seq<u32>) -> Seq<u8>
    decreases ws.len(),
{
    if ws.len() == 0 {
        s
    } else {
        spec_store_words(spec_store_word(s, off, ws[0]), off + stride, stride, ws.drop_first())
    }
}

/// Storing one more word extends a stored prefix: the words `ws.take(i + 1)`
/// are the words `ws.take(i)` followed by `ws[i]` at `off + i * stride`.
#[verifier::spinoff_prover]
pub proof fn lemma_store_words_snoc(s: Seq<u8>, off: int, stride: int, ws: Seq<u32>, i: int)
    requires
        0 <= i < ws.len(),
    ensures
        spec_store_words(s, off, stride, ws.take(i + 1)) == spec_store_word(
            spec_store_words(s, off, stride, ws.take(i)),
            off + i * stride,
            ws[i],
        ),
    decreases i,
{
    if i == 0 {
        assert(ws.take(1).drop_first() =~= ws.take(0));
        assert(ws.take(0) =~= Seq::<u32>::empty());
        assert(ws.take(1)[0] == ws[0]);
        assert(spec_store_words(s, off, stride, ws.take(0)) == s);
        assert(spec_store_words(s, off, stride, ws.take(1)) == spec_store_words(
            spec_store_word(s, off, ws[0]),
            off + stride,
            stride,
            ws.take(0),
        ));
    } else {
        let s1 = spec_store_word(s, off, ws[0]);
        let tail = ws.drop_first();
        assert(ws.take(i + 1).drop_first() =~= tail.take(i));
        assert(ws.take(i).drop_first() =~= tail.take(i - 1));
        assert(ws.take(i + 1)[0] == ws[0]);
        assert(ws.take(i)[0] == ws[0]);
        assert(spec_store_words(s, off, stride, ws.take(i + 1)) == spec_store_words(
            s1,
            off + stride,
            stride,
            tail.take(i),
        ));
        assert(spec_store_words(s, off, stride, ws.take(i)) == spec_store_words(
            s1,
            off + stride,
            stride,
            tail.take(i - 1),
        ));
        lemma_store_words_snoc(s1, off + stride, stride, tail, i - 1);
        assert(tail[i - 1] == ws[i]);
        assert((i - 1) * stride + stride == i * stride) by (nonlinear_arith);
    }
}

/// Storing words does not change the region's length, as long as every word
/// lands inside it.
pub proof fn lemma_store_words_len(s: Seq<u8>, off: int, stride: int, ws: Seq<u32>)
    requires
        stride >= 1,
        0 <= off,
        ws.len() == 0 || off + (ws.len() - 1) * stride + 4 <= s.len(),
    ensures
        spec_store_words(s, off, stride, ws).len() == s.len(),
    decreases ws.len(),
{
    if ws.len() > 0 {
        lemma_mul_nonnegative(ws.len() - 1, stride);
        let s1 = spec_store_word(s, off, ws[0]);
        assert(s1.len() == s.len());
        assert((ws.len() - 2) * stride + stride == (ws.len() - 1) * stride) by (nonlinear_arith);
        lemma_store_words_len(s1, off + stride, stride, ws.drop_first());
    }
}


/// Whether a one-word update of `name` lands: the name has an offset and
/// four bytes fit there.
pub open spec fn spec_word_applies(b: UniformBufferDesc, name: Seq<char>, word: u32) -> bool {
    match spec_lookup(b.offsets@, name) {
        Some(off) => off + 4 <= b.size,
        None => false,
    }
}

/// The effect of a one-word update of `name` on a staging descriptor: the
/// word stored at the recorded offset when it lands, nothing otherwise, and
/// the tables and size untouched either way.
pub open spec fn spec_word_update(
    before: UniformBufferDesc,
    after: UniformBufferDesc,
    name: Seq<char>,
    word: u32,
) -> bool {
    &&& after.size == before.size
    &&& after.offsets == before.offsets
    &&& after.strides == before.strides
    &&& after.bytes@ == (if spec_word_applies(before, name, word) {
        spec_store_word(before.bytes@, spec_lookup(before.offsets@, name)->0 as int, word)
    } else {
        before.bytes@
    })
}

/// Whether a contiguous multi-word update of `name` lands: the name has an
/// offset and all its words fit there.
pub open spec fn spec_words_apply(b: UniformBufferDesc, name: Seq<char>, ws: Seq<u32>) -> bool {
    match spec_lookup(b.offsets@, name) {
        Some(off) => off + 4 * ws.len() <= b.size,
        None => false,
    }
}

/// The effect of a contiguous multi-word update of `name` on a staging
/// descriptor.
pub open spec fn spec_words_update(
    before: UniformBufferDesc,
    after: UniformBufferDesc,
    name: Seq<char>,
    ws: Seq<u32>,
) -> bool {
    &&& after.size == before.size
    &&& after.offsets == before.offsets
    &&& after.strides == before.strides
    &&& after.bytes@ == (if spec_words_apply(before, name, ws) {
        spec_store_words(before.bytes@, spec_lookup(before.offsets@, name)->0 as int, 4, ws)
    } else {
        before.bytes@
    })
}

/// The stride an array update walks with: a recorded stride of zero or of
/// the natural element width means the elements are contiguous.
pub open spec fn spec_effective_stride(st: usize) -> int {
    if st == 0 || st == 4 {
        4
    } else {
        st as int
    }
}

/// Whether an array update of `name` lands: the name has both an offset and
/// a stride recorded, and every element lands inside the region.
pub open spec fn spec_vector_applies(b: UniformBufferDesc, name: Seq<char>, ws: Seq<u32>) -> bool {
    match (spec_lookup(b.offsets@, name), spec_lookup(b.strides@, name)) {
        (Some(off), Some(st)) => ws.len() == 0 || off + (ws.len() - 1) * spec_effective_stride(st)
            + 4 <= b.size,
        _ => false,
    }
}

/// The effect of an array update of `name` on a staging descriptor: each
/// element stored one effective stride after the one before when the update
/// lands, nothing otherwise.
pub open spec fn spec_vector_update(
    before: UniformBufferDesc,
    after: UniformBufferDesc,
    name: Seq<char>,
    ws: Seq<u32>,
) -> bool {
    &&& after.size == before.size
    &&& after.offsets == before.offsets
    &&& after.strides == before.strides
    &&& after.bytes@ == (if spec_vector_applies(before, name, ws) {
        spec_store_words(
            before.bytes@,
            spec_lookup(before.offsets@, name)->0 as int,
            spec_effective_stride(spec_lookup(before.strides@, name)->0),
            ws,
        )
    } else {
        before.bytes@
    })
}

/// One uniform buffer's host staging state: the region's size, its bytes,
/// and the byte offset and array stride of each named uniform in it.
pub struct UniformBufferDesc {
    /// The size of the device buffer, and of the staged region.
    pub size: usize,
    /// The staged bytes, pushed to the device as one piece.
    pub bytes: Vec<u8>,
    /// Byte offset of each named uniform.
    pub offsets: Vec<(String, usize)>,
    /// Array stride of each named array uniform.
    pub strides: Vec<(String, usize)>,
}

/// Look a name up in an offset or stride table; the latest entry wins.
pub fn lookup_entry(entries: &Vec<(String, usize)>, name: &str) -> (r: Option<usize>)
    ensures
        r == spec_lookup(entries@, name@),
{
    let key: String = name.to_owned();
    let mut i: usize = entries.len();
    proof {
        assert(entries@.take(i as int) =~= entries@);
    }
    while i > 0
        invariant
            i <= entries@.len(),
            key@ == name@,
            spec_lookup(entries@, name@) == spec_lookup(entries@.take(i as int), name@),
        decreases i,
    {
        i = i - 1;
        let e = &entries[i];
        proof {
            assert(entries@.take(i + 1).last() == entries@[i as int]);
            assert(entries@.take(i + 1).drop_last() =~= entries@.take(i as int));
        }
        if e.0 == key {
            return Some(e.1);
        }
    }
    proof {
        assert(entries@.take(0) =~= Seq::<(String, usize)>::empty());
    }
    None
}

impl UniformBufferDesc {
    /// The staged region always has exactly the declared size.
    pub open spec fn wf(self) -> bool {
        self.bytes@.len() == self.size
    }

    /// A zero-filled staging region for a block of the given size, with the
    /// given offset and stride tables.
    pub fn from_layout(
        size: usize,
        offsets: Vec<(String, usize)>,
        strides: Vec<(String, usize)>,
    ) -> (d: UniformBufferDesc)
        ensures
            d.wf(),
            d.size == size,
            d.offsets == offsets,
            d.strides == strides,
            forall|j: int| 0 <= j < d.bytes@.len() ==> d.bytes@[j] == 0u8,
    {
        let mut bytes: Vec<u8> = Vec::with_capacity(size);
        let mut i: usize = 0;
        while i < size
            invariant
                i <= size,
                bytes@.len() == i,
                forall|j: int| 0 <= j < i ==> bytes@[j] == 0u8,
            decreases size - i,
        {
            bytes.push(0u8);
            i = i + 1;
        }
        UniformBufferDesc { size, bytes, offsets, strides }
    }

    /// The staged bytes, to be pushed to the device-visible buffer.
    pub fn contents(&self) -> (r: &Vec<u8>)
        ensures
            r@ == self.bytes@,
    {
        &self.bytes
    }

    /// Write the 4 little-endian bytes of `w` at `off`.
    fn write_word(&mut self, off: usize, w: u32)
        requires
            old(self).wf(),
            off + 4 <= old(self).size,
        ensures
            final(self).wf(),
            final(self).size == old(self).size,
            final(self).offsets == old(self).offsets,
            final(self).strides == old(self).strides,
            final(self).bytes@ == spec_store_word(old(self).bytes@, off as int, w),
    {
        proof {
            lemma_auto_spec_u32_to_from_le_bytes();
        }
        let b = u32_to_le_bytes(w);
        self.bytes.set(off, b[0]);
        self.bytes.set(off + 1, b[1]);
        self.bytes.set(off + 2, b[2]);
        self.bytes.set(off + 3, b[3]);
    }

    /// Write `words` from `off` on, each `stride` bytes after the one
    /// before.
    fn write_words(&mut self, off: usize, stride: usize, words: &Vec<u32>)
        requires
            old(self).wf(),
            stride >= 1,
            words@.len() == 0 || off + (words@.len() - 1) * stride + 4 <= old(self).size,
        ensures
            final(self).wf(),
            final(self).size == old(self).size,
            final(self).offsets == old(self).offsets,
            final(self).strides == old(self).strides,
            final(self).bytes@ == spec_store_words(
                old(self).bytes@,
                off as int,
                stride as int,
                words@,
            ),
    {
        let n = words.len();
        let mut i: usize = 0;
        while i < n
            invariant
                self.wf(),
                self.size == old(self).size,
                self.offsets == old(self).offsets,
                self.strides == old(self).strides,
                i <= n,
                n == words@.len(),
                stride >= 1,
                n == 0 || off + (n - 1) * stride + 4 <= self.size,
                self.bytes@ == spec_store_words(
                    old(self).bytes@,
                    off as int,
                    stride as int,
                    words@.take(i as int),
                ),
            decreases n - i,
        {
            proof {
                lemma_mul_inequality(i as int, n - 1, stride as int);
                lemma_mul_nonnegative(i as int, stride as int);
                lemma_store_words_snoc(
                    old(self).bytes@,
                    off as int,
                    stride as int,
                    words@,
                    i as int,
                );
            }
            let pos = off + i * stride;
            self.write_word(pos, words[i]);
            i = i + 1;
        }
        proof {
            assert(words@.take(n as int) =~= words@);
        }
    }

    /// Set a named integer uniform: store its two's-complement word at the
    /// uniform's offset. Returns whether the write happened; an unknown name
    /// or a word that would not fit leaves the region untouched.
    pub fn set_uniform_buffer_int(&mut self, uniform_name: &str, value: i32) -> (r: bool)
        requires
            old(self).wf(),
        ensures
            final(self).wf(),
            spec_word_update(*old(self), *final(self), uniform_name@, spec_i32_word(value)),
            r == spec_word_applies(*old(self), uniform_name@, spec_i32_word(value)),
    {
        let word: u32 = if value >= 0 {
            value as u32
        } else {
            ((value as i64) + 0x1_0000_0000i64) as u32
        };
        self.set_word(uniform_name, word)
    }

    /// Set a named single-precision uniform, handed as the word of its bit
    /// pattern. Returns whether the write happened.
    pub fn set_uniform_buffer_float(&mut self, uniform_name: &str, value_bits: u32) -> (r: bool)
        requires
            old(self).wf(),
        ensures
            final(self).wf(),
            spec_word_update(*old(self), *final(self), uniform_name@, value_bits),
            r == spec_word_applies(*old(self), uniform_name@, value_bits),
    {
        self.set_word(uniform_name, value_bits)
    }

    /// Store one word at a named uniform's offset when it fits.
    fn set_word(&mut self, uniform_name: &str, word: u32) -> (r: bool)
        requires
            old(self).wf(),
        ensures
            final(self).wf(),
            spec_word_update(*old(self), *final(self), uniform_name@, word),
            r == spec_word_applies(*old(self), uniform_name@, word),
    {
        match lookup_entry(&self.offsets, uniform_name) {
            Some(off) => {
                if off < self.size && self.size - off >= 4 {
                    self.write_word(off, word);
                    true
                } else {
                    false
                }
            },
            None => false,
        }
    }

    /// Set a named 3-component vector uniform from the bit patterns of its
    /// components, stored as three consecutive words at the uniform's
    /// offset. Returns whether the write happened.
    pub fn set_uniform_buffer_vec3(&mut self, uniform_name: &str, value: &Vec3Bits) -> (r: bool)
        requires
            old(self).wf(),
        ensures
            final(self).wf(),
            spec_words_update(
                *old(self),
                *final(self),
                uniform_name@,
                seq![value.x, value.y, value.z],
            ),
            r == spec_words_apply(*old(self), uniform_name@, seq![value.x, value.y, value.z]),
    {
        match lookup_entry(&self.offsets, uniform_name) {
            Some(off) => {
                if off < self.size && self.size - off >= 12 {
                    let mut words: Vec<u32> = Vec::with_capacity(3);
                    words.push(value.x);
                    words.push(value.y);
                    words.push(value.z);
                    assert(words@ =~= seq![value.x, value.y, value.z]);
                    self.write_words(off, 4, &words);
                    true
                } else {
                    false
                }
            },
            None => false,
        }
    }

    /// Set a named 4×4 matrix uniform from the bit patterns of its 16
    /// entries, stored as sixteen consecutive words at the uniform's offset.
    /// Returns whether the write happened.
    pub fn set_uniform_buffer_matrix(&mut self, uniform_name: &str, matrix: &Vec<u32>) -> (r: bool)
        requires
            old(self).wf(),
            matrix@.len() == 16,
        ensures
            final(self).wf(),
            spec_words_update(*old(self), *final(self), uniform_name@, matrix@),
            r == spec_words_apply(*old(self), uniform_name@, matrix@),
    {
        match lookup_entry(&self.offsets, uniform_name) {
            Some(off) => {
                if off < self.size && self.size - off >= 64 {
                    self.write_words(off, 4, matrix);
                    true
                } else {
                    false
                }
            },
            None => false,
        }
    }

    /// Set a named array uniform from the bit patterns of its elements.
    /// A stride of zero or of the natural element width means the elements
    /// are contiguous and are stored as one run of words; any other stride
    /// scatters element `i` to `offset + i * stride`. Returns whether the
    /// write happened: the name must have both an offset and a stride
    /// recorded, and every element must land inside the region.
    pub fn set_uniform_buffer_float_vector(&mut self, uniform_name: &str, vector: &Vec<u32>) -> (r:
        bool)
        requires
            old(self).wf(),
        ensures
            final(self).wf(),
            spec_vector_update(*old(self), *final(self), uniform_name@, vector@),
            r == spec_vector_applies(*old(self), uniform_name@, vector@),
    {
        let off = match lookup_entry(&self.offsets, uniform_name) {
            Some(o) => o,
            None => {
                return false;
            },
        };
        let st = match lookup_entry(&self.strides, uniform_name) {
            Some(s) => s,
            None => {
                return false;
            },
        };
        let eff: usize = if st == 0 || st == 4 {
            4
        } else {
            st
        };
        if vector.len() == 0 {
            proof {
                assert(vector@.take(0) =~= vector@);
            }
            return true;
        }
        let last_off = match (vector.len() - 1).checked_mul(eff) {
            Some(p) => p,
            None => {
                return false;
            },
        };
        let end = match off.checked_add(last_off) {
            Some(e) => match e.checked_add(4) {
                Some(e4) => e4,
                None => {
                    return false;
                },
            },
            None => {
                return false;
            },
        };
        if end <= self.size {
            self.write_words(off, eff, vector);
            true
        } else {
            false
        }
    }
}


impl UniformBufferDesc {
    /// The staging descriptor of a uniform block: a zero-filled region of
    /// the block's size, with one offset and one stride entry per uniform
    /// the block declares.
    pub fn from_block_spec(block: &UniformBlockSpec) -> (d: UniformBufferDesc)
        ensures
            d.wf(),
            d.size == block.size,
            forall|j: int| 0 <= j < d.bytes@.len() ==> d.bytes@[j] == 0u8,
            d.offsets@.len() == block.uniforms@.len(),
            d.strides@.len() == block.uniforms@.len(),
            forall|j: int|
                0 <= j < block.uniforms@.len() ==> (#[trigger] d.offsets@[j]).0
                    == block.uniforms@[j].name && d.offsets@[j].1 == block.uniforms@[j].offset,
            forall|j: int|
                0 <= j < block.uniforms@.len() ==> (#[trigger] d.strides@[j]).0
                    == block.uniforms@[j].name && d.strides@[j].1 == block.uniforms@[j].stride,
    {
        let n = block.uniforms.len();
        let mut offsets: Vec<(String, usize)> = Vec::with_capacity(n);
        let mut strides: Vec<(String, usize)> = Vec::with_capacity(n);
        let mut j: usize = 0;
        while j < n
            invariant
                j <= n,
                n == block.uniforms@.len(),
                offsets@.len() == j,
                strides@.len() == j,
                forall|t: int|
                    0 <= t < j ==> (#[trigger] offsets@[t]).0 == block.uniforms@[t].name
                        && offsets@[t].1 == block.uniforms@[t].offset,
                forall|t: int|
                    0 <= t < j ==> (#[trigger] strides@[t]).0 == block.uniforms@[t].name
                        && strides@[t].1 == block.uniforms@[t].stride,
            decreases n - j,
        {
            let u = &block.uniforms[j];
            offsets.push((u.name.clone(), u.offset));
            strides.push((u.name.clone(), u.stride));
            j = j + 1;
        }
        UniformBufferDesc::from_layout(block.size, offsets, strides)
    }
}

/// The index of the first buffer of the given name, if any.
pub open spec fn spec_find_buffer(
    bufs: Seq<(String, UniformBufferDesc)>,
    name: Seq<char>,
) -> Option<int>
    decreases bufs.len(),
{
    if bufs.len() == 0 {
        None
    } else if bufs[0].0@ == name {
        Some(0)
    } else {
        match spec_find_buffer(bufs.drop_first(), name) {
            Some(i) => Some(i + 1),
            None => None,
        }
    }
}

/// What finding a buffer means: the index holds the name and no earlier one
/// does; `None` means no buffer has the name.
pub proof fn lemma_find_buffer_props(bufs: Seq<(String, UniformBufferDesc)>, name: Seq<char>)
    ensures
        match spec_find_buffer(bufs, name) {
            Some(i) => 0 <= i < bufs.len() && bufs[i].0@ == name && forall|t: int|
                0 <= t < i ==> bufs[t].0@ != name,
            None => forall|t: int| 0 <= t < bufs.len() ==> bufs[t].0@ != name,
        },
    decreases bufs.len(),
{
    if bufs.len() > 0 && bufs[0].0@ != name {
        let tail = bufs.drop_first();
        lemma_find_buffer_props(tail, name);
        match spec_find_buffer(tail, name) {
            Some(i) => {
                assert forall|t: int| 0 <= t < i + 1 implies bufs[t].0@ != name by {
                    if t > 0 {
                        assert(tail[t - 1].0@ != name);
                    }
                }
            },
            None => {
                assert forall|t: int| 0 <= t < bufs.len() implies bufs[t].0@ != name by {
                    if t > 0 {
                        assert(tail[t - 1].0@ != name);
                    }
                }
            },
        }
    }
}

/// The named staging regions of one backend, one per uniform block, each
/// pushed to its device buffer in one piece when synchronised.
pub struct UniformBuffers {
    /// The staging descriptors, keyed by block name; names are unique, as
    /// the original tables are keyed by name.
    pub buffers: Vec<(String, UniformBufferDesc)>,
}

/// How an update through the named-buffer interface relates the buffer
/// tables before and after: everything but the named buffer's bytes is kept.
pub open spec fn spec_buffers_framed(
    before: Seq<(String, UniformBufferDesc)>,
    after: Seq<(String, UniformBufferDesc)>,
    buffer_name: Seq<char>,
) -> bool {
    &&& after.len() == before.len()
    &&& forall|i: int| 0 <= i < before.len() ==> (#[trigger] after[i]).0 == before[i].0
    &&& forall|i: int|
        0 <= i < before.len() && i != spec_find_buffer(before, buffer_name)->0 ==> (
        #[trigger] after[i]).1 == before[i].1
    &&& spec_find_buffer(before, buffer_name) is None ==> after == before
}

impl UniformBuffers {
    /// Every staging region has its declared size.
    pub open spec fn wf(self) -> bool {
        forall|i: int| 0 <= i < self.buffers@.len() ==> (#[trigger] self.buffers@[i]).1.wf()
    }

    /// An empty set of staging regions.
    pub fn new() -> (r: UniformBuffers)
        ensures
            r.wf(),
            r.buffers@.len() == 0,
    {
        UniformBuffers { buffers: Vec::new() }
    }

    /// Add the staging region of a uniform block.
    pub fn insert_buffer(&mut self, name: String, desc: UniformBufferDesc)
        requires
            old(self).wf(),
            desc.wf(),
        ensures
            final(self).wf(),
            final(self).buffers@ == old(self).buffers@.push((name, desc)),
    {
        self.buffers.push((name, desc));
    }

    /// The index of the first buffer of the given name.
    fn find_buffer(&self, name: &str) -> (r: Option<usize>)
        ensures
            match r {
                Some(i) => i < self.buffers@.len() && Some(i as int) == spec_find_buffer(
                    self.buffers@,
                    name@,
                ),
                None => spec_find_buffer(self.buffers@, name@) is None,
            },
    {
        proof {
            lemma_find_buffer_props(self.buffers@, name@);
        }
        let n = self.buffers.len();
        let mut i: usize = 0;
        while i < n
            invariant
                i <= n,
                n == self.buffers@.len(),
                forall|t: int| 0 <= t < i ==> (#[trigger] self.buffers@[t]).0@ != name@,
            decreases n - i,
        {
            if crate::resources::str_eq(self.buffers[i].0.as_str(), name) {
                proof {
                    lemma_find_buffer_props(self.buffers@, name@);
                }
                return Some(i);
            }
            i = i + 1;
        }
        proof {
            lemma_find_buffer_props(self.buffers@, name@);
        }
        None
    }

    /// The staged bytes of the named buffer, for the device push.
    pub fn contents_of(&self, buffer_name: &str) -> (r: Option<&Vec<u8>>)
        ensures
            match r {
                Some(bytes) => {
                    let i = spec_find_buffer(self.buffers@, buffer_name@);
                    i is Some && bytes@ == self.buffers@[i->0].1.bytes@
                },
                None => spec_find_buffer(self.buffers@, buffer_name@) is None,
            },
    {
        match self.find_buffer(buffer_name) {
            Some(i) => Some(self.buffers[i].1.contents()),
            None => None,
        }
    }

    /// Set a named integer uniform in the named buffer. Returns whether the
    /// write happened.
    pub fn set_uniform_buffer_int(
        &mut self,
        buffer_name: &str,
        uniform_name: &str,
        value: i32,
    ) -> (r: bool)
        requires
            old(self).wf(),
        ensures
            final(self).wf(),
            spec_buffers_framed(old(self).buffers@, final(self).buffers@, buffer_name@),
            ({
                match spec_find_buffer(old(self).buffers@, buffer_name@) {
                    Some(i) => spec_word_update(
                        old(self).buffers@[i].1,
                        final(self).buffers@[i].1,
                        uniform_name@,
                        spec_i32_word(value),
                    ) && r == spec_word_applies(
                        old(self).buffers@[i].1,
                        uniform_name@,
                        spec_i32_word(value),
                    ),
                    None => !r,
                }
            }),
    {
        match self.find_buffer(buffer_name) {
            Some(i) => {
                let mut entry = self.buffers.remove(i);
                let r = entry.1.set_uniform_buffer_int(uniform_name, value);
                self.buffers.insert(i, entry);
                proof {
                    lemma_find_buffer_props(old(self).buffers@, buffer_name@);
                    self.lemma_put_back(*old(self), i as int);
                }
                r
            },
            None => false,
        }
    }

    /// Set a named single-precision uniform, handed as its bit pattern, in
    /// the named buffer. Returns whether the write happened.
    pub fn set_uniform_buffer_float(
        &mut self,
        buffer_name: &str,
        uniform_name: &str,
        value_bits: u32,
    ) -> (r: bool)
        requires
            old(self).wf(),
        ensures
            final(self).wf(),
            spec_buffers_framed(old(self).buffers@, final(self).buffers@, buffer_name@),
            ({
                match spec_find_buffer(old(self).buffers@, buffer_name@) {
                    Some(i) => spec_word_update(
                        old(self).buffers@[i].1,
                        final(self).buffers@[i].1,
                        uniform_name@,
                        value_bits,
                    ) && r == spec_word_applies(
                        old(self).buffers@[i].1,
                        uniform_name@,
                        value_bits,
                    ),
                    None => !r,
                }
            }),
    {
        match self.find_buffer(buffer_name) {
            Some(i) => {
                let mut entry = self.buffers.remove(i);
                let r = entry.1.set_uniform_buffer_float(uniform_name, value_bits);
                self.buffers.insert(i, entry);
                proof {
                    lemma_find_buffer_props(old(self).buffers@, buffer_name@);
                    self.lemma_put_back(*old(self), i as int);
                }
                r
            },
            None => false,
        }
    }

    /// Set a named 3-component vector uniform in the named buffer. Returns
    /// whether the write happened.
    pub fn set_uniform_buffer_vec3(
        &mut self,
        buffer_name: &str,
        uniform_name: &str,
        value: &Vec3Bits,
    ) -> (r: bool)
        requires
            old(self).wf(),
        ensures
            final(self).wf(),
            spec_buffers_framed(old(self).buffers@, final(self).buffers@, buffer_name@),
            ({
                match spec_find_buffer(old(self).buffers@, buffer_name@) {
                    Some(i) => spec_words_update(
                        old(self).buffers@[i].1,
                        final(self).buffers@[i].1,
                        uniform_name@,
                        seq![value.x, value.y, value.z],
                    ) && r == spec_words_apply(
                        old(self).buffers@[i].1,
                        uniform_name@,
                        seq![value.x, value.y, value.z],
                    ),
                    None => !r,
                }
            }),
    {
        match self.find_buffer(buffer_name) {
            Some(i) => {
                let mut entry = self.buffers.remove(i);
                let r = entry.1.set_uniform_buffer_vec3(uniform_name, value);
                self.buffers.insert(i, entry);
                proof {
                    lemma_find_buffer_props(old(self).buffers@, buffer_name@);
                    self.lemma_put_back(*old(self), i as int);
                }
                r
            },
            None => false,
        }
    }

    /// Set a named 4×4 matrix uniform, handed as its sixteen entry words, in
    /// the named buffer. Returns whether the write happened.
    pub fn set_uniform_buffer_matrix(
        &mut self,
        buffer_name: &str,
        uniform_name: &str,
        matrix: &Vec<u32>,
    ) -> (r: bool)
        requires
            old(self).wf(),
            matrix@.len() == 16,
        ensures
            final(self).wf(),
            spec_buffers_framed(old(self).buffers@, final(self).buffers@, buffer_name@),
            ({
                match spec_find_buffer(old(self).buffers@, buffer_name@) {
                    Some(i) => spec_words_update(
                        old(self).buffers@[i].1,
                        final(self).buffers@[i].1,
                        uniform_name@,
                        matrix@,
                    ) && r == spec_words_apply(old(self).buffers@[i].1, uniform_name@, matrix@),
                    None => !r,
                }
            }),
    {
        match self.find_buffer(buffer_name) {
            Some(i) => {
                let mut entry = self.buffers.remove(i);
                let r = entry.1.set_uniform_buffer_matrix(uniform_name, matrix);
                self.buffers.insert(i, entry);
                proof {
                    lemma_find_buffer_props(old(self).buffers@, buffer_name@);
                    self.lemma_put_back(*old(self), i as int);
                }
                r
            },
            None => false,
        }
    }

    /// Set a named array uniform, handed as its element bit patterns, in the
    /// named buffer, honouring the recorded stride. Returns whether the
    /// write happened.
    pub fn set_uniform_buffer_float_vector(
        &mut self,
        buffer_name: &str,
        uniform_name: &str,
        vector: &Vec<u32>,
    ) -> (r: bool)
        requires
            old(self).wf(),
        ensures
            final(self).wf(),
            spec_buffers_framed(old(self).buffers@, final(self).buffers@, buffer_name@),
            ({
                match spec_find_buffer(old(self).buffers@, buffer_name@) {
                    Some(i) => spec_vector_update(
                        old(self).buffers@[i].1,
                        final(self).buffers@[i].1,
                        uniform_name@,
                        vector@,
                    ) && r == spec_vector_applies(old(self).buffers@[i].1, uniform_name@, vector@),
                    None => !r,
                }
            }),
    {
        match self.find_buffer(buffer_name) {
            Some(i) => {
                let mut entry = self.buffers.remove(i);
                let r = entry.1.set_uniform_buffer_float_vector(uniform_name, vector);
                self.buffers.insert(i, entry);
                proof {
                    lemma_find_buffer_props(old(self).buffers@, buffer_name@);
                    self.lemma_put_back(*old(self), i as int);
                }
                r
            },
            None => false,
        }
    }

    /// After removing entry `i`, updating it and inserting it back, every
    /// other entry is as it was.
    proof fn lemma_put_back(self, before: UniformBuffers, i: int)
        requires
            0 <= i < before.buffers@.len(),
            self.buffers@.len() == before.buffers@.len(),
            self.buffers@ == before.buffers@.remove(i).insert(i, self.buffers@[i]),
        ensures
            forall|t: int|
                0 <= t < before.buffers@.len() && t != i ==> #[trigger] self.buffers@[t]
                    == before.buffers@[t],
    {
        assert forall|t: int|
            0 <= t < before.buffers@.len() && t != i implies #[trigger] self.buffers@[t]
            == before.buffers@[t] by {
            if t < i {
                assert(before.buffers@.remove(i)[t] == before.buffers@[t]);
            } else {
                assert(before.buffers@.remove(i)[t - 1] == before.buffers@[t]);
            }
        }
    }
}

} // verus!
