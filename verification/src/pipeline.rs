//! Accumulation of graphics pipeline state and its validation.
//!
//! A `PipelineBuilder` collects vertex layout, shader stages and fixed-function
//! state in any order. `build` checks that every required piece is there and
//! hands out one immutable description, from which the pipeline object is
//! created. The fixed-function descriptors are `gfx_hal`'s own; the builder
//! carries them through without looking inside.

use vstd::prelude::*;
use gfx_hal::pso::{
    AttributeDesc, BakedStates, BlendDesc, DepthStencilDesc, DescriptorSetLayoutBinding,
    InputAssemblerDesc, PipelineCreationFlags, Rasterizer, VertexBufferDesc,
};
use crate::gfx_utils::Extent2D;
use crate::utils::{
    first_match, lemma_first_match_found, lemma_first_match_none, Build, With, WithError,
};

verus! {

/// `gfx_hal`'s description of one vertex attribute, carried through unread.
#[verifier::external_type_specification]
#[verifier::external_body]
pub struct ExAttributeDesc(gfx_hal::pso::AttributeDesc);

/// `gfx_hal`'s baked viewport, scissor and blend constants, carried through
/// unread.
#[verifier::external_type_specification]
#[verifier::external_body]
pub struct ExBakedStates(gfx_hal::pso::BakedStates);

/// `gfx_hal`'s blend state, carried through unread.
#[verifier::external_type_specification]
#[verifier::external_body]
pub struct ExBlendDesc(gfx_hal::pso::BlendDesc);

/// `gfx_hal`'s depth and stencil state, carried through unread.
#[verifier::external_type_specification]
#[verifier::external_body]
pub struct ExDepthStencilDesc(gfx_hal::pso::DepthStencilDesc);

/// `gfx_hal`'s binding of a descriptor set layout, carried through unread.
#[verifier::external_type_specification]
#[verifier::external_body]
pub struct ExDescriptorSetLayoutBinding(gfx_hal::pso::DescriptorSetLayoutBinding);

/// `gfx_hal`'s input assembly description, carried through unread.
#[verifier::external_type_specification]
#[verifier::external_body]
pub struct ExInputAssemblerDesc(gfx_hal::pso::InputAssemblerDesc);

/// `gfx_hal`'s pipeline creation flags, carried through unread.
#[verifier::external_type_specification]
#[verifier::external_body]
pub struct ExPipelineCreationFlags(gfx_hal::pso::PipelineCreationFlags);

/// `gfx_hal`'s rasterizer state, carried through unread.
#[verifier::external_type_specification]
#[verifier::external_body]
pub struct ExRasterizer(gfx_hal::pso::Rasterizer);

/// `gfx_hal`'s description of one vertex buffer binding, carried through
/// unread.
#[verifier::external_type_specification]
#[verifier::external_body]
pub struct ExVertexBufferDesc(gfx_hal::pso::VertexBufferDesc);

/// The pipeline stage that a shader is written for.
#[derive(Clone, Copy, Debug, PartialEq, Eq, Structural)]
pub enum ShaderKind {
    Vertex,
    Fragment,
    Geometry,
    TessControl,
    TessEvaluation,
    Compute,
}

/// Handle of a device shader module. The device layer keeps the module itself
/// and finds it again by this number.
#[derive(Clone, Copy, Debug, PartialEq, Eq, Structural)]
pub struct ShaderModule {
    pub id: u64,
}

/// Name of the function at which every shader stage is entered.
pub const ENTRY_NAME: &'static str = "main";

/// A shader stage as the pipeline refers to it: a module and the function to
/// enter it at, without specialisation constants.
#[derive(Clone, Copy, Debug, PartialEq, Eq)]
pub struct EntryPoint {
    pub entry: &'static str,
    pub module: ShaderModule,
}

/// One compiled shader held by the builder.
#[derive(Clone, Copy, Debug, PartialEq, Eq, Structural)]
pub struct ShaderEntry {
    pub shader_module: ShaderModule,
    pub shader_type: ShaderKind,
}

impl ShaderEntry {
    /// The entry for a module compiled from a shader of stage `shader_type`.
    pub fn new(shader_module: ShaderModule, shader_type: ShaderKind) -> (r: Self)
        ensures
            r == (ShaderEntry { shader_module, shader_type }),
    {
        ShaderEntry { shader_module, shader_type }
    }

    /// The entry point of this shader: its module, entered at `ENTRY_NAME`.
    pub fn compute_entry(&self) -> (r: EntryPoint)
        ensures
            r == (EntryPoint { entry: ENTRY_NAME, module: self.shader_module }),
    {
        EntryPoint { entry: ENTRY_NAME, module: self.shader_module }
    }
}

/// The shader stages of a graphics pipeline. Only the vertex stage is
/// mandatory; a pipeline without a fragment stage writes depth only.
#[derive(Clone, Copy, Debug, PartialEq, Eq)]
pub struct GraphicsShaderSet {
    pub vertex: EntryPoint,
    pub hull: Option<EntryPoint>,
    pub domain: Option<EntryPoint>,
    pub geometry: Option<EntryPoint>,
    pub fragment: Option<EntryPoint>,
}

/// A piece of state that a pipeline cannot be built without.
#[derive(Clone, Copy, Debug, PartialEq, Eq, Structural)]
pub enum PipelineField {
    VertexShader,
    Rasterizer,
    InputAssembler,
    Blender,
    DepthStencil,
    BakedStates,
}

impl PipelineField {
    /// The field's name as a sequence of characters.
    pub open spec fn spec_name(self) -> Seq<char> {
        match self {
            PipelineField::VertexShader => "vertex shader"@,
            PipelineField::Rasterizer => "rasterizer"@,
            PipelineField::InputAssembler => "input assembler"@,
            PipelineField::Blender => "blender"@,
            PipelineField::DepthStencil => "depth stencil"@,
            PipelineField::BakedStates => "baked states"@,
        }
    }

    /// The field's name, for messages.
    pub fn name(&self) -> (r: &'static str)
        ensures
            r@ == self.spec_name(),
    {
        match self {
            PipelineField::VertexShader => "vertex shader",
            PipelineField::Rasterizer => "rasterizer",
            PipelineField::InputAssembler => "input assembler",
            PipelineField::Blender => "blender",
            PipelineField::DepthStencil => "depth stencil",
            PipelineField::BakedStates => "baked states",
        }
    }
}

/// Why a pipeline could not be described. None of these is recoverable.
#[derive(Clone, Debug, PartialEq, Eq)]
pub enum PipelineError {
    /// No shader compiler could be had.
    CompilerUnavailable,
    /// A shader did not compile.
    ShaderCompilationError { source_name: String, diagnostic: String },
    /// `build` was called before this piece of state was given.
    MissingPipelineState(PipelineField),
}

/// A failed step of pipeline construction, with the shader modules that the
/// builder held. They serve no further purpose and are to be destroyed.
#[derive(Clone, Debug, PartialEq, Eq)]
pub struct BuildFailure {
    pub error: PipelineError,
    pub released: Vec<ShaderModule>,
}

/// What a shader source came to: its stage, its name for messages, and the
/// module made from it or the compiler's diagnostic.
#[derive(Debug, PartialEq, Eq)]
pub struct CompiledShader {
    pub kind: ShaderKind,
    pub source_name: String,
    pub module: Result<ShaderModule, String>,
}

/// The validated description of a graphics pipeline. Nothing in it changes
/// after `build`.
#[derive(Debug)]
pub struct Pipeline {
    pub shaders: GraphicsShaderSet,
    pub rasterizer: Rasterizer,
    pub vertex_buffers: Vec<VertexBufferDesc>,
    pub attributes: Vec<AttributeDesc>,
    pub input_assembler: InputAssemblerDesc,
    pub blender: BlendDesc,
    pub depth_stencil: DepthStencilDesc,
    pub baked_states: BakedStates,
    pub descriptor_set_layout_binding: Vec<DescriptorSetLayoutBinding>,
    pub flags: Option<PipelineCreationFlags>,
    pub extent: Extent2D,
    /// The builder's shader modules, to be destroyed as soon as the pipeline
    /// object has been created from this description, or failed to be.
    pub released: Vec<ShaderModule>,
}

/// Collects the state that a graphics pipeline is made of.
pub struct PipelineBuilder {
    pub extent: Extent2D,
    pub pipeline_creation_flags: Option<PipelineCreationFlags>,
    pub attributes_desc: Vec<AttributeDesc>,
    pub descriptor_set_layout_binding: Vec<DescriptorSetLayoutBinding>,
    pub shader_entries: Vec<ShaderEntry>,
    pub vertex_buffers: Vec<VertexBufferDesc>,
    pub input_assembler_desc: Option<InputAssemblerDesc>,
    pub rasterizer: Option<Rasterizer>,
    pub depth_stencil_desc: Option<DepthStencilDesc>,
    pub blender_desc: Option<BlendDesc>,
    pub baked_states: Option<BakedStates>,
}

/// The modules of `entries`, in order.
pub open spec fn modules_of(entries: Seq<ShaderEntry>) -> Seq<ShaderModule> {
    entries.map_values(|e: ShaderEntry| e.shader_module)
}

/// The entry point of the first shader of `kind` among `entries`.
pub open spec fn stage_of(entries: Seq<ShaderEntry>, kind: ShaderKind) -> Option<EntryPoint> {
    match first_match(entries, |e: ShaderEntry| e.shader_type == kind) {
        Some(i) => Some(EntryPoint { entry: ENTRY_NAME, module: entries[i].shader_module }),
        None => None,
    }
}

/// The shader set that `entries` give: the first vertex shader and, if there is
/// one, the first fragment shader.
pub open spec fn spec_shader_set(entries: Seq<ShaderEntry>) -> Result<
    GraphicsShaderSet,
    PipelineError,
> {
    match stage_of(entries, ShaderKind::Vertex) {
        Some(vertex) => Ok(
            GraphicsShaderSet {
                vertex,
                hull: None,
                domain: None,
                geometry: None,
                fragment: stage_of(entries, ShaderKind::Fragment),
            },
        ),
        None => Err(PipelineError::MissingPipelineState(PipelineField::VertexShader)),
    }
}

fn find_stage(from: &Vec<ShaderEntry>, kind: ShaderKind) -> (r: Option<EntryPoint>)
    ensures
        r == stage_of(from@, kind),
{
    let ghost wanted = |e: ShaderEntry| e.shader_type == kind;
    let mut i: usize = 0;
    while i < from.len()
        invariant
            i <= from.len(),
            wanted == (|e: ShaderEntry| e.shader_type == kind),
            forall|j: int| 0 <= j < i ==> !wanted(#[trigger] from@[j]),
        decreases from.len() - i,
    {
        if from[i].shader_type == kind {
            proof {
                lemma_first_match_found(from@, wanted, i as int);
            }
            return Some(from[i].compute_entry());
        }
        i += 1;
    }
    proof {
        lemma_first_match_none(from@, wanted);
    }
    None
}

/// Picks the stages of a graphics pipeline out of the compiled shaders: the
/// first vertex shader, which must exist, and the first fragment shader, which
/// need not.
pub fn vec_shader_entry_into_graphicset(from: &Vec<ShaderEntry>) -> (r: Result<
    GraphicsShaderSet,
    PipelineError,
>)
    ensures
        r == spec_shader_set(from@),
{
    match find_stage(from, ShaderKind::Vertex) {
        Some(vertex) => {
            let fragment = find_stage(from, ShaderKind::Fragment);
            Ok(GraphicsShaderSet { vertex, hull: None, domain: None, geometry: None, fragment })
        },
        None => Err(PipelineError::MissingPipelineState(PipelineField::VertexShader)),
    }
}

fn collect_modules(entries: &Vec<ShaderEntry>) -> (r: Vec<ShaderModule>)
    ensures
        r@ == modules_of(entries@),
{
    let mut released: Vec<ShaderModule> = Vec::new();
    let mut i: usize = 0;
    while i < entries.len()
        invariant
            i <= entries.len(),
            released@ == modules_of(entries@.take(i as int)),
        decreases entries.len() - i,
    {
        released.push(entries[i].shader_module);
        proof {
            assert(entries@.take(i + 1) == entries@.take(i as int).push(entries@[i as int]));
        }
        i += 1;
    }
    assert(entries@.take(i as int) == entries@);
    released
}

impl PipelineBuilder {
    /// The required piece of state that `build` misses first, in the order
    /// vertex shader, rasterizer, input assembler, blender, depth stencil,
    /// baked states.
    pub open spec fn first_missing(self) -> Option<PipelineField> {
        if stage_of(self.shader_entries@, ShaderKind::Vertex) is None {
            Some(PipelineField::VertexShader)
        } else if self.rasterizer is None {
            Some(PipelineField::Rasterizer)
        } else if self.input_assembler_desc is None {
            Some(PipelineField::InputAssembler)
        } else if self.blender_desc is None {
            Some(PipelineField::Blender)
        } else if self.depth_stencil_desc is None {
            Some(PipelineField::DepthStencil)
        } else if self.baked_states is None {
            Some(PipelineField::BakedStates)
        } else {
            None
        }
    }

    /// The same pieces of state are present in `self` and in `other`, whatever
    /// their values and whenever they were given.
    pub open spec fn same_pieces(self, other: Self) -> bool {
        &&& stage_of(self.shader_entries@, ShaderKind::Vertex) is Some <==> stage_of(
            other.shader_entries@,
            ShaderKind::Vertex,
        ) is Some
        &&& self.rasterizer is Some <==> other.rasterizer is Some
        &&& self.input_assembler_desc is Some <==> other.input_assembler_desc is Some
        &&& self.blender_desc is Some <==> other.blender_desc is Some
        &&& self.depth_stencil_desc is Some <==> other.depth_stencil_desc is Some
        &&& self.baked_states is Some <==> other.baked_states is Some
    }

    /// Whether `build` succeeds, and which piece it misses, depends on which
    /// pieces were given only: not on their order, nor on their values.
    pub proof fn lemma_order_independent(self, other: Self)
        requires
            self.same_pieces(other),
        ensures
            self.first_missing() == other.first_missing(),
    {
    }

    /// A builder that holds nothing yet. `compiler_found` says whether a shader
    /// compiler could be had; without one no builder is made.
    pub fn new(extent: Extent2D, compiler_found: bool) -> (r: Result<Self, PipelineError>)
        ensures
            r is Ok <==> compiler_found,
            r matches Err(e) ==> e == PipelineError::CompilerUnavailable,
            r matches Ok(b) ==> {
                &&& b.extent == extent
                &&& b.pipeline_creation_flags is None
                &&& b.attributes_desc@.len() == 0
                &&& b.descriptor_set_layout_binding@.len() == 0
                &&& b.shader_entries@.len() == 0
                &&& b.vertex_buffers@.len() == 0
                &&& b.input_assembler_desc is None
                &&& b.rasterizer is None
                &&& b.depth_stencil_desc is None
                &&& b.blender_desc is None
                &&& b.baked_states is None
            },
    {
        if !compiler_found {
            return Err(PipelineError::CompilerUnavailable);
        }
        Ok(
            PipelineBuilder {
                extent,
                pipeline_creation_flags: None,
                attributes_desc: Vec::new(),
                descriptor_set_layout_binding: Vec::new(),
                shader_entries: Vec::new(),
                vertex_buffers: Vec::new(),
                input_assembler_desc: None,
                rasterizer: None,
                depth_stencil_desc: None,
                blender_desc: None,
                baked_states: None,
            },
        )
    }

    /// Everything but the shader entries is the same in `self` and `other`.
    pub open spec fn same_state(self, other: Self) -> bool {
        &&& self.extent == other.extent
        &&& self.pipeline_creation_flags == other.pipeline_creation_flags
        &&& self.attributes_desc == other.attributes_desc
        &&& self.descriptor_set_layout_binding == other.descriptor_set_layout_binding
        &&& self.vertex_buffers == other.vertex_buffers
        &&& self.input_assembler_desc == other.input_assembler_desc
        &&& self.rasterizer == other.rasterizer
        &&& self.depth_stencil_desc == other.depth_stencil_desc
        &&& self.blender_desc == other.blender_desc
        &&& self.baked_states == other.baked_states
    }

    /// What adding a shader of `kind` comes to: with a module, the builder with
    /// one more entry; with a diagnostic, a failure that names the source and
    /// releases every module held so far.
    pub open spec fn shader_added(
        self,
        kind: ShaderKind,
        source_name: String,
        module: Result<ShaderModule, String>,
        r: Result<Self, BuildFailure>,
    ) -> bool {
        match module {
            Ok(shader_module) => {
                &&& r matches Ok(b)
                &&& b.same_state(self)
                &&& b.shader_entries@ == self.shader_entries@.push(
                    ShaderEntry { shader_module, shader_type: kind },
                )
            },
            Err(diagnostic) => {
                &&& r matches Err(failure)
                &&& failure.error == (PipelineError::ShaderCompilationError {
                    source_name,
                    diagnostic,
                })
                &&& failure.released@ == modules_of(self.shader_entries@)
            },
        }
    }

    fn with_shader(
        self,
        kind: ShaderKind,
        source_name: String,
        module: Result<ShaderModule, String>,
    ) -> (r: Result<Self, BuildFailure>)
        ensures
            self.shader_added(kind, source_name, module, r),
    {
        match module {
            Ok(shader_module) => {
                let mut builder = self;
                builder.shader_entries.push(ShaderEntry::new(shader_module, kind));
                Ok(builder)
            },
            Err(diagnostic) => Err(
                BuildFailure {
                    error: PipelineError::ShaderCompilationError { source_name, diagnostic },
                    released: collect_modules(&self.shader_entries),
                },
            ),
        }
    }

    /// Adds the fragment shader that was compiled from the source named
    /// `source_name`, or fails with the compiler's diagnostic.
    pub fn with_fragment(self, source_name: String, module: Result<ShaderModule, String>) -> (r:
        Result<Self, BuildFailure>)
        ensures
            self.shader_added(ShaderKind::Fragment, source_name, module, r),
    {
        self.with_shader(ShaderKind::Fragment, source_name, module)
    }

    /// Adds the vertex shader that was compiled from the source named
    /// `source_name`, or fails with the compiler's diagnostic.
    pub fn with_vertex(self, source_name: String, module: Result<ShaderModule, String>) -> (r:
        Result<Self, BuildFailure>)
        ensures
            self.shader_added(ShaderKind::Vertex, source_name, module, r),
    {
        self.with_shader(ShaderKind::Vertex, source_name, module)
    }
}

impl WithError<CompiledShader, BuildFailure> for PipelineBuilder {
    /// Adds a compiled shader of any stage.
    fn with_error(self, data: CompiledShader) -> (r: Result<Self, BuildFailure>)
        ensures
            self.shader_added(data.kind, data.source_name, data.module, r),
    {
        self.with_shader(data.kind, data.source_name, data.module)
    }
}

impl Build<Result<Pipeline, BuildFailure>> for PipelineBuilder {
    /// Checks that every required piece of state is there and hands out the
    /// pipeline description. On success and on failure alike, every shader
    /// module that the builder held is handed back for destruction.
    fn build(self) -> (r: Result<Pipeline, BuildFailure>)
        ensures
            r is Ok <==> self.first_missing() is None,
            r matches Err(failure) ==> {
                &&& self.first_missing() matches Some(field)
                &&& failure.error == PipelineError::MissingPipelineState(field)
                &&& failure.released@ == modules_of(self.shader_entries@)
            },
            r matches Ok(p) ==> {
                &&& Ok::<GraphicsShaderSet, PipelineError>(p.shaders) == spec_shader_set(
                    self.shader_entries@,
                )
                &&& Some(p.rasterizer) == self.rasterizer
                &&& p.vertex_buffers == self.vertex_buffers
                &&& p.attributes == self.attributes_desc
                &&& Some(p.input_assembler) == self.input_assembler_desc
                &&& Some(p.blender) == self.blender_desc
                &&& Some(p.depth_stencil) == self.depth_stencil_desc
                &&& Some(p.baked_states) == self.baked_states
                &&& p.descriptor_set_layout_binding == self.descriptor_set_layout_binding
                &&& p.flags == self.pipeline_creation_flags
                &&& p.extent == self.extent
                &&& p.released@ == modules_of(self.shader_entries@)
            },
    {
        let released = collect_modules(&self.shader_entries);
        let shaders = match vec_shader_entry_into_graphicset(&self.shader_entries) {
            Ok(shaders) => shaders,
            Err(error) => {
                return Err(BuildFailure { error, released });
            },
        };
        let rasterizer = match self.rasterizer {
            Some(rasterizer) => rasterizer,
            None => {
                return Err(
                    BuildFailure {
                        error: PipelineError::MissingPipelineState(PipelineField::Rasterizer),
                        released,
                    },
                );
            },
        };
        let input_assembler = match self.input_assembler_desc {
            Some(input_assembler) => input_assembler,
            None => {
                return Err(
                    BuildFailure {
                        error: PipelineError::MissingPipelineState(PipelineField::InputAssembler),
                        released,
                    },
                );
            },
        };
        let blender = match self.blender_desc {
            Some(blender) => blender,
            None => {
                return Err(
                    BuildFailure {
                        error: PipelineError::MissingPipelineState(PipelineField::Blender),
                        released,
                    },
                );
            },
        };
        let depth_stencil = match self.depth_stencil_desc {
            Some(depth_stencil) => depth_stencil,
            None => {
                return Err(
                    BuildFailure {
                        error: PipelineError::MissingPipelineState(PipelineField::DepthStencil),
                        released,
                    },
                );
            },
        };
        let baked_states = match self.baked_states {
            Some(baked_states) => baked_states,
            None => {
                return Err(
                    BuildFailure {
                        error: PipelineError::MissingPipelineState(PipelineField::BakedStates),
                        released,
                    },
                );
            },
        };
        Ok(
            Pipeline {
                shaders,
                rasterizer,
                vertex_buffers: self.vertex_buffers,
                attributes: self.attributes_desc,
                input_assembler,
                blender,
                depth_stencil,
                baked_states,
                descriptor_set_layout_binding: self.descriptor_set_layout_binding,
                flags: self.pipeline_creation_flags,
                extent: self.extent,
                released,
            },
        )
    }
}

impl With<AttributeDesc> for PipelineBuilder {
    /// Adds one vertex attribute.
    fn with(self, data: AttributeDesc) -> (r: Self)
        ensures
            r.attributes_desc@ == self.attributes_desc@.push(data),
            r == (PipelineBuilder { attributes_desc: r.attributes_desc, ..self }),
    {
        let mut builder = self;
        builder.attributes_desc.push(data);
        builder
    }
}

impl With<DescriptorSetLayoutBinding> for PipelineBuilder {
    /// Adds one binding of the descriptor set layout.
    fn with(self, data: DescriptorSetLayoutBinding) -> (r: Self)
        ensures
            r.descriptor_set_layout_binding@ == self.descriptor_set_layout_binding@.push(data),
            r == (PipelineBuilder {
                descriptor_set_layout_binding: r.descriptor_set_layout_binding,
                ..self
            }),
    {
        let mut builder = self;
        builder.descriptor_set_layout_binding.push(data);
        builder
    }
}

impl With<VertexBufferDesc> for PipelineBuilder {
    /// Adds one vertex buffer binding.
    fn with(self, data: VertexBufferDesc) -> (r: Self)
        ensures
            r.vertex_buffers@ == self.vertex_buffers@.push(data),
            r == (PipelineBuilder { vertex_buffers: r.vertex_buffers, ..self }),
    {
        let mut builder = self;
        builder.vertex_buffers.push(data);
        builder
    }
}

impl With<InputAssemblerDesc> for PipelineBuilder {
    /// Sets the input assembly description.
    fn with(self, data: InputAssemblerDesc) -> (r: Self)
        ensures
            r == (PipelineBuilder { input_assembler_desc: Some(data), ..self }),
    {
        let mut builder = self;
        builder.input_assembler_desc = Some(data);
        builder
    }
}

impl With<PipelineCreationFlags> for PipelineBuilder {
    /// Sets the creation flags.
    fn with(self, data: PipelineCreationFlags) -> (r: Self)
        ensures
            r == (PipelineBuilder { pipeline_creation_flags: Some(data), ..self }),
    {
        let mut builder = self;
        builder.pipeline_creation_flags = Some(data);
        builder
    }
}

impl With<Rasterizer> for PipelineBuilder {
    /// Sets the rasterizer state.
    fn with(self, data: Rasterizer) -> (r: Self)
        ensures
            r == (PipelineBuilder { rasterizer: Some(data), ..self }),
    {
        let mut builder = self;
        builder.rasterizer = Some(data);
        builder
    }
}

impl With<DepthStencilDesc> for PipelineBuilder {
    /// Sets the depth and stencil state.
    fn with(self, data: DepthStencilDesc) -> (r: Self)
        ensures
            r == (PipelineBuilder { depth_stencil_desc: Some(data), ..self }),
    {
        let mut builder = self;
        builder.depth_stencil_desc = Some(data);
        builder
    }
}

impl With<BlendDesc> for PipelineBuilder {
    /// Sets the blend state.
    fn with(self, data: BlendDesc) -> (r: Self)
        ensures
            r == (PipelineBuilder { blender_desc: Some(data), ..self }),
    {
        let mut builder = self;
        builder.blender_desc = Some(data);
        builder
    }
}

impl With<BakedStates> for PipelineBuilder {
    /// Sets the baked viewport and scissor state.
    fn with(self, data: BakedStates) -> (r: Self)
        ensures
            r == (PipelineBuilder { baked_states: Some(data), ..self }),
    {
        let mut builder = self;
        builder.baked_states = Some(data);
        builder
    }
}

} // verus!
