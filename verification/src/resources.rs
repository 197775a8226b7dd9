//! The resource tables: shader and uniform-block descriptions, and their
//! update from parsed reflection listings.
//!
//! The tables are built once by the application and consumed read-only by
//! both backends, except that — before any frame renders — the offsets,
//! sizes and binding points read from the shader compiler's reflection
//! listings are written into them. Block names are unique, as the tables are
//! keyed by name.

use vstd::prelude::*;
use vstd::utf8::encode_utf8;

use crate::layout::VertexArrayType;
use crate::reflect::ReflectionData;
use crate::reflect::lookup_u32;
use crate::reflect::lookup_usize;
use crate::reflect::spec_lookup_u32;
use crate::reflect::spec_lookup_usize;
use crate::bytesutil::bytes_eq;

verus! {

/// The kinds of uniform resources a shader can declare, in the order of the
/// descriptor-type codes both backends share.
#[derive(Clone, Copy, PartialEq, Eq, Structural, Debug)]
pub enum UniformType {
    Sampler,
    CombinedImageSampler,
    SampledImage,
    StorageImage,
    UniformTexelBuffer,
    StorageTexelBuffer,
    UniformBuffer,
    StorageBuffer,
    UniformBufferDynamic,
    StorageBufferDynamic,
    InputAttachment,
    RangeSize,
}

/// The descriptor-type code of a uniform kind.
pub open spec fn spec_uniform_type_code(t: UniformType) -> u32 {
    match t {
        UniformType::Sampler => 0,
        UniformType::CombinedImageSampler => 1,
        UniformType::SampledImage => 2,
        UniformType::StorageImage => 3,
        UniformType::UniformTexelBuffer => 4,
        UniformType::StorageTexelBuffer => 5,
        UniformType::UniformBuffer => 6,
        UniformType::StorageBuffer => 7,
        UniformType::UniformBufferDynamic => 8,
        UniformType::StorageBufferDynamic => 9,
        UniformType::InputAttachment => 10,
        UniformType::RangeSize => 11,
    }
}

impl UniformType {
    /// The descriptor-type code of this uniform kind.
    pub fn code(self) -> (c: u32)
        ensures
            c == spec_uniform_type_code(self),
    {
        match self {
            UniformType::Sampler => 0,
            UniformType::CombinedImageSampler => 1,
            UniformType::SampledImage => 2,
            UniformType::StorageImage => 3,
            UniformType::UniformTexelBuffer => 4,
            UniformType::StorageTexelBuffer => 5,
            UniformType::UniformBuffer => 6,
            UniformType::StorageBuffer => 7,
            UniformType::UniformBufferDynamic => 8,
            UniformType::StorageBufferDynamic => 9,
            UniformType::InputAttachment => 10,
            UniformType::RangeSize => 11,
        }
    }
}

/// Which attachment a pass renders into.
#[derive(Clone, Copy, PartialEq, Eq, Structural, Debug)]
pub enum RenderTargetId {
    Swapchain,
    Offscreen,
}

/// The stages a shader program can hold.
#[derive(Clone, Copy, PartialEq, Eq, Structural, Debug)]
pub enum ShaderStage {
    VertexShader,
    TessControlShader,
    TessEvalShader,
    GeometryShader,
    FragmentShader,
}

/// The source, bytecode and reflection files of one shader stage.
#[derive(Clone, Debug)]
pub struct ShaderFilesSpecification {
    /// The stage's source file.
    pub filename: String,
    /// The stage it is compiled for.
    pub shader_stage: ShaderStage,
    /// Where its compiled bytecode is written.
    pub spirv_out: String,
    /// Where its reflection listing is written.
    pub reflect_out: String,
}

/// One named uniform inside a uniform block.
#[derive(Clone, Debug)]
pub struct BlockUniformSpec {
    /// The uniform's name.
    pub name: String,
    /// Its byte offset inside the block, updated from reflection.
    pub offset: usize,
    /// Its array stride, zero for non-arrays.
    pub stride: usize,
}

/// One named uniform block.
#[derive(Clone, Debug)]
pub struct UniformBlockSpec {
    /// The block's name.
    pub name: String,
    /// Its data size in bytes, updated from reflection.
    pub size: usize,
    /// The descriptor set it belongs to.
    pub set: u32,
    /// Its binding point, updated from reflection.
    pub binding: u32,
    /// The kind of buffer backing it.
    pub block_type: UniformType,
    /// The uniforms it holds.
    pub uniforms: Vec<BlockUniformSpec>,
}

/// One named uniform outside any block.
#[derive(Clone, Debug)]
pub struct UniformSpec {
    /// The uniform's name.
    pub name: String,
    /// The descriptor set it belongs to.
    pub set: u32,
    /// Its binding point, updated from reflection.
    pub binding: u32,
    /// The kind of resource it names.
    pub uniform_type: UniformType,
}

/// Everything one shader pass needs described.
#[derive(Clone, Debug)]
pub struct ShaderSpec {
    /// The shader's name.
    pub name: String,
    /// Shared source files compiled into every stage.
    pub library_files: Vec<String>,
    /// The per-stage files.
    pub shader_files: Vec<ShaderFilesSpecification>,
    /// The names of the uniform blocks the shader uses.
    pub uniform_block_names: Vec<String>,
    /// The uniforms it declares outside blocks.
    pub uniform_specs: Vec<UniformSpec>,
    /// The vertex layout its passes accumulate.
    pub vertex_array_type: VertexArrayType,
    /// Its vertex attribute names.
    pub attributes: Vec<String>,
    /// The fragment output variable.
    pub fragment_out: String,
    /// Whether depth testing is on for its passes.
    pub depth_test_enabled: bool,
    /// Whether alpha blending is on for its passes.
    pub alpha_blending_enabled: bool,
    /// Which render pass configuration it draws in.
    pub pass_identifier: u32,
}

/// How one uniform of a block relates to its pre-reflection state: its
/// offset becomes the listed one when the listing has its name, and nothing
/// else changes.
pub open spec fn uniform_updated(
    before: BlockUniformSpec,
    after: BlockUniformSpec,
    refl: ReflectionData,
) -> bool {
    &&& after.name == before.name
    &&& after.stride == before.stride
    &&& after.offset == (match spec_lookup_usize(
        refl.offsets.deep_view(),
        encode_utf8(before.name@),
    ) {
        Some(o) => o,
        None => before.offset,
    })
}

/// How a block relates to its pre-reflection state: its binding and size
/// become the listed ones when the listing has them, each of its uniforms'
/// offsets becomes the listed one, and nothing else changes.
pub open spec fn block_updated(
    before: UniformBlockSpec,
    after: UniformBlockSpec,
    refl: ReflectionData,
) -> bool {
    &&& after.name == before.name
    &&& after.set == before.set
    &&& after.block_type == before.block_type
    &&& after.binding == (match spec_lookup_u32(
        refl.block_bindings.deep_view(),
        encode_utf8(before.name@),
    ) {
        Some(b) => b,
        None => before.binding,
    })
    &&& after.size == (if spec_lookup_u32(
        refl.block_bindings.deep_view(),
        encode_utf8(before.name@),
    ) is Some {
        match spec_lookup_usize(refl.block_sizes.deep_view(), encode_utf8(before.name@)) {
            Some(s) => s,
            None => before.size,
        }
    } else {
        before.size
    })
    &&& after.uniforms@.len() == before.uniforms@.len()
    &&& forall|j: int|
        0 <= j < before.uniforms@.len() ==> uniform_updated(
            before.uniforms@[j],
            #[trigger] after.uniforms@[j],
            refl,
        )
}

impl UniformBlockSpec {
    /// Update this block from a reflection listing: take the listed binding
    /// point and size, and the listed offset of each uniform the listing
    /// names. The size is only read when the binding is listed, as a listing
    /// that omits a block's binding says nothing reliable about it.
    pub fn apply_reflection(&mut self, refl: &ReflectionData)
        ensures
            block_updated(*old(self), *final(self), *refl),
    {
        let name_bytes = self.name.as_str().as_bytes();
        match lookup_u32(&refl.block_bindings, name_bytes) {
            Some(b) => {
                self.binding = b;
                match lookup_usize(&refl.block_sizes, name_bytes) {
                    Some(s) => {
                        self.size = s;
                    },
                    None => {},
                }
            },
            None => {},
        }
        let n = self.uniforms.len();
        let mut j: usize = 0;
        while j < n
            invariant
                j <= n,
                n == self.uniforms@.len(),
                self.name == old(self).name,
                self.set == old(self).set,
                self.block_type == old(self).block_type,
                self.binding == (match spec_lookup_u32(
                    refl.block_bindings.deep_view(),
                    encode_utf8(old(self).name@),
                ) {
                    Some(b) => b,
                    None => old(self).binding,
                }),
                self.size == (if spec_lookup_u32(
                    refl.block_bindings.deep_view(),
                    encode_utf8(old(self).name@),
                ) is Some {
                    match spec_lookup_usize(
                        refl.block_sizes.deep_view(),
                        encode_utf8(old(self).name@),
                    ) {
                        Some(s) => s,
                        None => old(self).size,
                    }
                } else {
                    old(self).size
                }),
                forall|t: int|
                    0 <= t < j ==> uniform_updated(
                        old(self).uniforms@[t],
                        #[trigger] self.uniforms@[t],
                        *refl,
                    ),
                forall|t: int| j <= t < n ==> #[trigger] self.uniforms@[t] == old(self).uniforms@[t],
            decreases n - j,
        {
            let mut u = self.uniforms.remove(j);
            match lookup_usize(&refl.offsets, u.name.as_str().as_bytes()) {
                Some(o) => {
                    u.offset = o;
                },
                None => {},
            }
            self.uniforms.insert(j, u);
            proof {
                assert forall|t: int| 0 <= t < n && t != j implies self.uniforms@[t] == old(
                    self,
                ).uniforms@[t] || (0 <= t < j && uniform_updated(
                    old(self).uniforms@[t],
                    self.uniforms@[t],
                    *refl,
                )) by {
                    if t < j {
                    } else {
                    }
                }
            }
            j = j + 1;
        }
    }
}

/// The resource tables both backends read: the uniform blocks and the shader
/// descriptions, each keyed by name.
pub struct ResourceManager {
    /// The uniform block descriptions.
    pub uniform_block_specs: Vec<UniformBlockSpec>,
    /// The shader descriptions.
    pub shader_specs: Vec<ShaderSpec>,
}

impl ResourceManager {
    /// Build the tables from the given descriptions.
    pub fn new(
        uniform_block_specs: Vec<UniformBlockSpec>,
        shader_specs: Vec<ShaderSpec>,
    ) -> (m: ResourceManager)
        ensures
            m.uniform_block_specs == uniform_block_specs,
            m.shader_specs == shader_specs,
    {
        ResourceManager { uniform_block_specs, shader_specs }
    }

    /// The shader description of the given name, if the tables know one:
    /// the first with that name.
    pub fn get_shader_spec(&self, name: &str) -> (r: Option<&ShaderSpec>)
        ensures
            match r {
                Some(s) => exists|i: int|
                    0 <= i < self.shader_specs@.len() && #[trigger] self.shader_specs@[i].name@
                        == name@ && *s == self.shader_specs@[i],
                None => forall|i: int|
                    0 <= i < self.shader_specs@.len() ==> #[trigger] self.shader_specs@[i].name@
                        != name@,
            },
    {
        let n = self.shader_specs.len();
        let mut i: usize = 0;
        while i < n
            invariant
                i <= n,
                n == self.shader_specs@.len(),
                forall|t: int| 0 <= t < i ==> #[trigger] self.shader_specs@[t].name@ != name@,
            decreases n - i,
        {
            if str_eq(self.shader_specs[i].name.as_str(), name) {
                return Some(&self.shader_specs[i]);
            }
            i = i + 1;
        }
        None
    }

    /// Update the block named `block_name` from a reflection listing.
    /// Returns whether the tables know such a block; every other block, and
    /// every shader description, stays as it was.
    pub fn apply_reflection_to_block(&mut self, block_name: &str, refl: &ReflectionData) -> (found:
        bool)
        ensures
            final(self).shader_specs == old(self).shader_specs,
            final(self).uniform_block_specs@.len() == old(self).uniform_block_specs@.len(),
            found == exists|i: int|
                0 <= i < old(self).uniform_block_specs@.len() && #[trigger] old(
                    self,
                ).uniform_block_specs@[i].name@ == block_name@,
            forall|i: int|
                0 <= i < old(self).uniform_block_specs@.len() && old(
                    self,
                ).uniform_block_specs@[i].name@ != block_name@ ==> #[trigger] final(self).uniform_block_specs@[i] == old(self).uniform_block_specs@[i],
            forall|i: int|
                0 <= i < old(self).uniform_block_specs@.len() && #[trigger] old(
                    self,
                ).uniform_block_specs@[i].name@ == block_name@ && (forall|t: int|
                    0 <= t < i ==> old(self).uniform_block_specs@[t].name@ != block_name@)
                    ==> block_updated(
                    old(self).uniform_block_specs@[i],
                    final(self).uniform_block_specs@[i],
                    *refl,
                ),
    {
        let n = self.uniform_block_specs.len();
        let mut i: usize = 0;
        while i < n
            invariant
                i <= n,
                n == self.uniform_block_specs@.len(),
                self.shader_specs == old(self).shader_specs,
                self.uniform_block_specs == old(self).uniform_block_specs,
                forall|t: int|
                    0 <= t < i ==> #[trigger] self.uniform_block_specs@[t].name@ != block_name@,
            decreases n - i,
        {
            if str_eq(self.uniform_block_specs[i].name.as_str(), block_name) {
                let mut b = self.uniform_block_specs.remove(i);
                b.apply_reflection(refl);
                self.uniform_block_specs.insert(i, b);
                proof {
                    assert forall|t: int|
                        0 <= t < n && t != i implies self.uniform_block_specs@[t] == old(
                        self,
                    ).uniform_block_specs@[t] by {
                        if t < i {
                        } else {
                        }
                    }
                }
                return true;
            }
            i = i + 1;
        }
        false
    }
}


/// How one opaque uniform of a shader relates to its pre-reflection state:
/// its binding point becomes the listed one when the listing has its name,
/// and nothing else changes.
pub open spec fn uniform_spec_updated(
    before: UniformSpec,
    after: UniformSpec,
    refl: ReflectionData,
) -> bool {
    &&& after.name == before.name
    &&& after.set == before.set
    &&& after.uniform_type == before.uniform_type
    &&& after.binding == (match spec_lookup_u32(
        refl.uniform_bindings.deep_view(),
        encode_utf8(before.name@),
    ) {
        Some(b) => b,
        None => before.binding,
    })
}

impl ResourceManager {
    /// Update the binding points of the opaque uniforms of the shader named
    /// `shader_name` from a reflection listing. Returns whether the tables
    /// know such a shader; every other shader, and every block, stays as it
    /// was, and only the first shader of that name is touched.
    pub fn apply_reflection_to_shader_uniforms(
        &mut self,
        shader_name: &str,
        refl: &ReflectionData,
    ) -> (found: bool)
        ensures
            final(self).uniform_block_specs == old(self).uniform_block_specs,
            final(self).shader_specs@.len() == old(self).shader_specs@.len(),
            found == exists|i: int|
                0 <= i < old(self).shader_specs@.len() && #[trigger] old(
                    self,
                ).shader_specs@[i].name@ == shader_name@,
            forall|i: int|
                0 <= i < old(self).shader_specs@.len() && old(self).shader_specs@[i].name@
                    != shader_name@ ==> #[trigger] final(self).shader_specs@[i] == old(
                    self,
                ).shader_specs@[i],
            forall|i: int|
                0 <= i < old(self).shader_specs@.len() && #[trigger] old(
                    self,
                ).shader_specs@[i].name@ == shader_name@ && (forall|t: int|
                    0 <= t < i ==> old(self).shader_specs@[t].name@ != shader_name@) ==> ({
                    let before = old(self).shader_specs@[i];
                    let after = final(self).shader_specs@[i];
                    &&& after.name == before.name
                    &&& after.library_files == before.library_files
                    &&& after.shader_files == before.shader_files
                    &&& after.uniform_block_names == before.uniform_block_names
                    &&& after.vertex_array_type == before.vertex_array_type
                    &&& after.attributes == before.attributes
                    &&& after.fragment_out == before.fragment_out
                    &&& after.depth_test_enabled == before.depth_test_enabled
                    &&& after.alpha_blending_enabled == before.alpha_blending_enabled
                    &&& after.pass_identifier == before.pass_identifier
                    &&& after.uniform_specs@.len() == before.uniform_specs@.len()
                    &&& forall|j: int|
                        0 <= j < before.uniform_specs@.len() ==> uniform_spec_updated(
                            before.uniform_specs@[j],
                            #[trigger] after.uniform_specs@[j],
                            *refl,
                        )
                }),
    {
        let n = self.shader_specs.len();
        let mut i: usize = 0;
        while i < n
            invariant
                i <= n,
                n == self.shader_specs@.len(),
                self.uniform_block_specs == old(self).uniform_block_specs,
                self.shader_specs == old(self).shader_specs,
                forall|t: int| 0 <= t < i ==> #[trigger] self.shader_specs@[t].name@ != shader_name@,
            decreases n - i,
        {
            if str_eq(self.shader_specs[i].name.as_str(), shader_name) {
                let mut s = self.shader_specs.remove(i);
                let m = s.uniform_specs.len();
                let mut j: usize = 0;
                while j < m
                    invariant
                        j <= m,
                        m == s.uniform_specs@.len(),
                        s.name == old(self).shader_specs@[i as int].name,
                        s.library_files == old(self).shader_specs@[i as int].library_files,
                        s.shader_files == old(self).shader_specs@[i as int].shader_files,
                        s.uniform_block_names == old(
                            self,
                        ).shader_specs@[i as int].uniform_block_names,
                        s.vertex_array_type == old(self).shader_specs@[i as int].vertex_array_type,
                        s.attributes == old(self).shader_specs@[i as int].attributes,
                        s.fragment_out == old(self).shader_specs@[i as int].fragment_out,
                        s.depth_test_enabled == old(
                            self,
                        ).shader_specs@[i as int].depth_test_enabled,
                        s.alpha_blending_enabled == old(
                            self,
                        ).shader_specs@[i as int].alpha_blending_enabled,
                        s.pass_identifier == old(self).shader_specs@[i as int].pass_identifier,
                        m == old(self).shader_specs@[i as int].uniform_specs@.len(),
                        forall|t: int|
                            0 <= t < j ==> uniform_spec_updated(
                                old(self).shader_specs@[i as int].uniform_specs@[t],
                                #[trigger] s.uniform_specs@[t],
                                *refl,
                            ),
                        forall|t: int|
                            j <= t < m ==> #[trigger] s.uniform_specs@[t] == old(
                                self,
                            ).shader_specs@[i as int].uniform_specs@[t],
                    decreases m - j,
                {
                    let mut u = s.uniform_specs.remove(j);
                    match lookup_u32(&refl.uniform_bindings, u.name.as_str().as_bytes()) {
                        Some(b) => {
                            u.binding = b;
                        },
                        None => {},
                    }
                    s.uniform_specs.insert(j, u);
                    j = j + 1;
                }
                self.shader_specs.insert(i, s);
                proof {
                    assert forall|t: int|
                        0 <= t < n && t != i implies self.shader_specs@[t] == old(
                        self,
                    ).shader_specs@[t] by {
                        if t < i {
                        } else {
                        }
                    }
                }
                return true;
            }
            i = i + 1;
        }
        false
    }
}

/// Whether two strings hold the same characters.
pub fn str_eq(a: &str, b: &str) -> (r: bool)
    ensures
        r == (a@ == b@),
{
    let av: String = a.to_owned();
    let bv: String = b.to_owned();
    av == bv
}

} // verus!
