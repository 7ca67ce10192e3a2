//! The fixed-layout records that the shaders read.
//!
//! Every record is a run of 32-bit words with no gaps other than the padding
//! words named here. A record's `layout` is the exact run of words; its size
//! in bytes is four times the length of that run.

use crate::scalar::Scalar;
use vstd::prelude::*;

verus! {

/// Words in a [`FrameUniforms`] record.
pub const FRAME_UNIFORMS_WORDS: usize = 40;

/// Bytes in a [`FrameUniforms`] record.
pub const FRAME_UNIFORMS_BYTES: u64 = 160;

/// Words in a [`RaymarchParams`] record.
pub const RAYMARCH_PARAMS_WORDS: usize = 16;

/// Bytes in a [`RaymarchParams`] record.
pub const RAYMARCH_PARAMS_BYTES: u64 = 64;

/// Alignment, in bytes, that a uniform record's size has to respect.
pub const UNIFORM_ALIGNMENT: u64 = 16;

/// The encodings of a run of scalars, in order.
pub open spec fn bits_of(scalars: Seq<Scalar>) -> Seq<u32> {
    Seq::new(scalars.len(), |i: int| scalars[i].bits)
}

/// Appends the encodings of `scalars` to `out`.
pub fn push_scalars(out: &mut Vec<u32>, scalars: &[Scalar])
    ensures
        final(out)@ == old(out)@ + bits_of(scalars@),
{
    let ghost before = out@;
    let mut i: usize = 0;
    while i < scalars.len()
        invariant
            i <= scalars@.len(),
            out@ == before + bits_of(scalars@.subrange(0, i as int)),
        decreases scalars@.len() - i,
    {
        out.push(scalars[i].bits);
        i = i + 1;
        assert(out@ =~= before + bits_of(scalars@.subrange(0, i as int)));
    }
    assert(scalars@.subrange(0, i as int) =~= scalars@);
}

/// Byte `k` of `word`, counted from the least significant.
pub open spec fn byte_of(word: u32, k: int) -> u8 {
    if k == 0 {
        (word % 0x100) as u8
    } else if k == 1 {
        (word / 0x100 % 0x100) as u8
    } else if k == 2 {
        (word / 0x1_0000 % 0x100) as u8
    } else {
        (word / 0x100_0000) as u8
    }
}

/// The words in order, each with its least significant byte first.
pub open spec fn little_endian(words: Seq<u32>) -> Seq<u8> {
    Seq::new(4 * words.len(), |i: int| byte_of(words[i / 4], i % 4))
}

/// The words in order, each with its most significant byte first.
pub open spec fn big_endian(words: Seq<u32>) -> Seq<u8> {
    Seq::new(4 * words.len(), |i: int| byte_of(words[i / 4], 3 - i % 4))
}

/// `bytes` is how `words` lie in memory on a machine of either byte order.
pub open spec fn is_memory_image(bytes: Seq<u8>, words: Seq<u32>) -> bool {
    bytes == little_endian(words) || bytes == big_endian(words)
}

/// The bytes that `words` occupy in this machine's memory.
///
/// Calls `bytemuck::cast_slice` from `u32` to `u8` and copies the result.
/// Believed of it, not proved: the cast keeps address and content and
/// quarters the element size, so every word contributes its four bytes in the
/// machine's own order, which is one of the two orders for all words alike.
/// The cast cannot fail in this direction: a byte needs no alignment and any
/// length in bytes is a whole number of bytes.
#[verifier::external_body]
pub(crate) fn memory_image(words: &[u32]) -> (bytes: Vec<u8>)
    ensures
        is_memory_image(bytes@, words@),
{
    bytemuck::cast_slice::<u32, u8>(words).to_vec()
}

/// Camera and clock state of one frame.
#[derive(Clone, Copy, Debug)]
pub struct FrameUniforms {
    /// Projection times view, sixteen scalars column by column.
    pub view_proj: [Scalar; 16],
    /// Inverse of `view_proj`, in the same order.
    pub inv_view_proj: [Scalar; 16],
    /// Eye position in world space.
    pub camera_position: [Scalar; 3],
    /// Seconds since start; fills the fourth word of the eye's block.
    pub time: Scalar,
    /// Width and height of the target, in texels.
    pub resolution: [Scalar; 2],
    /// Near plane distance.
    pub near: Scalar,
    /// Far plane distance.
    pub far: Scalar,
}

impl FrameUniforms {
    /// The record as the shader sees it: both matrices, then the eye with the
    /// time in its fourth word, then resolution, near and far.
    pub open spec fn layout(self) -> Seq<u32> {
        bits_of(self.view_proj@) + bits_of(self.inv_view_proj@) + bits_of(self.camera_position@)
            + seq![self.time.bits] + bits_of(self.resolution@) + seq![self.near.bits, self.far.bits]
    }

    /// The words of the record, ready to overwrite the whole uniform buffer.
    pub fn to_words(&self) -> (words: Vec<u32>)
        ensures
            words@ == self.layout(),
            words@.len() == FRAME_UNIFORMS_WORDS,
    {
        let mut words: Vec<u32> = Vec::new();
        push_scalars(&mut words, &self.view_proj);
        push_scalars(&mut words, &self.inv_view_proj);
        push_scalars(&mut words, &self.camera_position);
        words.push(self.time.bits);
        push_scalars(&mut words, &self.resolution);
        words.push(self.near.bits);
        words.push(self.far.bits);
        assert(words@ =~= self.layout());
        words
    }

    /// The record as bytes in this machine's order, as a buffer write takes it.
    pub fn to_bytes(&self) -> (bytes: Vec<u8>)
        ensures
            is_memory_image(bytes@, self.layout()),
            bytes@.len() == FRAME_UNIFORMS_BYTES,
    {
        let words = self.to_words();
        memory_image(words.as_slice())
    }
}

/// Tunable state of the volume march for one frame.
#[derive(Clone, Copy, Debug)]
pub struct RaymarchParams {
    /// Lower corner of the volume's bounding box.
    pub volume_min: [Scalar; 3],
    /// Upper corner of the volume's bounding box.
    pub volume_max: [Scalar; 3],
    /// Upper bound on the steps taken along one ray.
    pub max_steps: u32,
    /// Length of one step.
    pub step_size: Scalar,
    /// Thickness of the membrane between two regions.
    pub membrane_thickness: Scalar,
    /// Glow intensity of the membrane.
    pub membrane_glow: Scalar,
    /// Factor applied to every phase's density.
    pub density_multiplier: Scalar,
    /// `1.0` when neighbouring membranes are coupled, `0.0` when not.
    pub enable_coupling: Scalar,
    /// Which palette the shader colours with.
    pub palette: u32,
}

impl RaymarchParams {
    /// The record as the shader sees it: each corner padded to four words,
    /// then the seven tunables and one closing padding word.
    pub open spec fn layout(self) -> Seq<u32> {
        bits_of(self.volume_min@) + seq![0u32] + bits_of(self.volume_max@) + seq![
            0u32,
            self.max_steps,
            self.step_size.bits,
            self.membrane_thickness.bits,
            self.membrane_glow.bits,
            self.density_multiplier.bits,
            self.enable_coupling.bits,
            self.palette,
            0u32,
        ]
    }

    /// The words of the record, ready to overwrite the whole uniform buffer.
    pub fn to_words(&self) -> (words: Vec<u32>)
        ensures
            words@ == self.layout(),
            words@.len() == RAYMARCH_PARAMS_WORDS,
    {
        let mut words: Vec<u32> = Vec::new();
        push_scalars(&mut words, &self.volume_min);
        words.push(0);
        push_scalars(&mut words, &self.volume_max);
        words.push(0);
        words.push(self.max_steps);
        words.push(self.step_size.bits);
        words.push(self.membrane_thickness.bits);
        words.push(self.membrane_glow.bits);
        words.push(self.density_multiplier.bits);
        words.push(self.enable_coupling.bits);
        words.push(self.palette);
        words.push(0);
        assert(words@ =~= self.layout());
        words
    }

    /// The record as bytes in this machine's order, as a buffer write takes it.
    pub fn to_bytes(&self) -> (bytes: Vec<u8>)
        ensures
            is_memory_image(bytes@, self.layout()),
            bytes@.len() == RAYMARCH_PARAMS_BYTES,
    {
        let words = self.to_words();
        memory_image(words.as_slice())
    }
}

/// Both uniform records fill a whole number of alignment units.
pub proof fn lemma_uniform_records_aligned(frame: FrameUniforms, march: RaymarchParams)
    ensures
        4 * frame.layout().len() == FRAME_UNIFORMS_BYTES,
        4 * march.layout().len() == RAYMARCH_PARAMS_BYTES,
        FRAME_UNIFORMS_BYTES % UNIFORM_ALIGNMENT == 0,
        RAYMARCH_PARAMS_BYTES % UNIFORM_ALIGNMENT == 0,
{
}

} // verus!
