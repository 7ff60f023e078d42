use vstd::prelude::*;

verus! {

/// Flag bits of the device's shader formats.
pub const SHADER_FORMAT_SPIRV: u32 = 2;

pub const SHADER_FORMAT_DXIL: u32 = 8;

pub const SHADER_FORMAT_MSL: u32 = 16;

pub const SHADER_FORMAT_METALLIB: u32 = 32;

/// Shader formats that a program can be loaded in.
#[derive(Clone, Copy, Debug, PartialEq, Eq, Structural)]
pub enum ShaderFormat {
    /// Compiled Metal library: one file for both stages.
    MetalLib,
    /// Metal source: one file for both stages.
    Msl,
    /// SPIR-V: one file per stage.
    Spirv,
    /// DXIL: one file per stage.
    Dxil,
}

/// The pipeline stage that a shader runs in.
#[derive(Clone, Copy, Debug, PartialEq, Eq, Structural)]
pub enum ShaderStage {
    Vertex,
    Fragment,
}

/// Whether every bit of `flag` is set in `available`.
pub open spec fn has_flag(available: u32, flag: u32) -> bool {
    available & flag == flag
}

/// The formats to try, in order, for a device that accepts the shader
/// formats `available`: the Metal family first, compiled library before
/// source, then SPIR-V, then DXIL. Only the Metal formats have a fallback.
pub open spec fn formats_to_try(available: u32) -> Seq<ShaderFormat> {
    if available & (SHADER_FORMAT_METALLIB | SHADER_FORMAT_MSL) != 0 {
        (if has_flag(available, SHADER_FORMAT_METALLIB) {
            seq![ShaderFormat::MetalLib]
        } else {
            seq![]
        }) + (if has_flag(available, SHADER_FORMAT_MSL) {
            seq![ShaderFormat::Msl]
        } else {
            seq![]
        })
    } else if has_flag(available, SHADER_FORMAT_SPIRV) {
        seq![ShaderFormat::Spirv]
    } else if has_flag(available, SHADER_FORMAT_DXIL) {
        seq![ShaderFormat::Dxil]
    } else {
        seq![]
    }
}

/// The shader formats to try, in order, on a device that accepts the formats
/// whose flags are set in `available`. Empty where none is supported.
pub fn shader_formats_to_try(available: u32) -> (r: Vec<ShaderFormat>)
    ensures
        r@ == formats_to_try(available),
{
    let mut r: Vec<ShaderFormat> = Vec::new();
    if available & (SHADER_FORMAT_METALLIB | SHADER_FORMAT_MSL) != 0 {
        if available & SHADER_FORMAT_METALLIB == SHADER_FORMAT_METALLIB {
            r.push(ShaderFormat::MetalLib);
        }
        if available & SHADER_FORMAT_MSL == SHADER_FORMAT_MSL {
            r.push(ShaderFormat::Msl);
        }
    } else if available & SHADER_FORMAT_SPIRV == SHADER_FORMAT_SPIRV {
        r.push(ShaderFormat::Spirv);
    } else if available & SHADER_FORMAT_DXIL == SHADER_FORMAT_DXIL {
        r.push(ShaderFormat::Dxil);
    }
    proof {
        assert(r@ =~= formats_to_try(available));
    }
    r
}

/// The device's flag for format `f`.
pub open spec fn format_flag(f: ShaderFormat) -> u32 {
    match f {
        ShaderFormat::MetalLib => SHADER_FORMAT_METALLIB,
        ShaderFormat::Msl => SHADER_FORMAT_MSL,
        ShaderFormat::Spirv => SHADER_FORMAT_SPIRV,
        ShaderFormat::Dxil => SHADER_FORMAT_DXIL,
    }
}

/// The file extension of the given stage's code in format `f`.
pub open spec fn file_extension(f: ShaderFormat, stage: ShaderStage) -> Seq<char> {
    match (f, stage) {
        (ShaderFormat::MetalLib, _) => "metallib"@,
        (ShaderFormat::Msl, _) => "metal"@,
        (ShaderFormat::Spirv, ShaderStage::Vertex) => "vtx.spv"@,
        (ShaderFormat::Spirv, ShaderStage::Fragment) => "frg.spv"@,
        (ShaderFormat::Dxil, ShaderStage::Vertex) => "vtx.dxb"@,
        (ShaderFormat::Dxil, ShaderStage::Fragment) => "pxl.dxb"@,
    }
}

/// The name of the given stage's entry point in format `f`.
pub open spec fn entry_point(f: ShaderFormat, stage: ShaderStage) -> Seq<char> {
    match (f, stage) {
        (_, ShaderStage::Vertex) => "VertexMain"@,
        (ShaderFormat::Dxil, ShaderStage::Fragment) => "PixelMain"@,
        (_, ShaderStage::Fragment) => "FragmentMain"@,
    }
}

impl ShaderFormat {
    /// The device's flag for this format.
    pub fn flag(&self) -> (r: u32)
        ensures
            r == format_flag(*self),
    {
        match self {
            ShaderFormat::MetalLib => SHADER_FORMAT_METALLIB,
            ShaderFormat::Msl => SHADER_FORMAT_MSL,
            ShaderFormat::Spirv => SHADER_FORMAT_SPIRV,
            ShaderFormat::Dxil => SHADER_FORMAT_DXIL,
        }
    }

    /// Whether both stages are read from one file.
    pub fn single_file(&self) -> (r: bool)
        ensures
            r == (file_extension(*self, ShaderStage::Vertex) == file_extension(
                *self,
                ShaderStage::Fragment,
            )),
    {
        proof {
            reveal_strlit("vtx.spv");
            reveal_strlit("frg.spv");
            reveal_strlit("vtx.dxb");
            reveal_strlit("pxl.dxb");
        }
        match self {
            ShaderFormat::MetalLib => true,
            ShaderFormat::Msl => true,
            ShaderFormat::Spirv => {
                assert("vtx.spv"@[0] != "frg.spv"@[0]);
                false
            },
            ShaderFormat::Dxil => {
                assert("vtx.dxb"@[0] != "pxl.dxb"@[0]);
                false
            },
        }
    }

    /// The extension of the file that holds `stage`'s code.
    pub fn file_extension(&self, stage: ShaderStage) -> (r: &'static str)
        ensures
            r@ == file_extension(*self, stage),
    {
        match (self, stage) {
            (ShaderFormat::MetalLib, _) => "metallib",
            (ShaderFormat::Msl, _) => "metal",
            (ShaderFormat::Spirv, ShaderStage::Vertex) => "vtx.spv",
            (ShaderFormat::Spirv, ShaderStage::Fragment) => "frg.spv",
            (ShaderFormat::Dxil, ShaderStage::Vertex) => "vtx.dxb",
            (ShaderFormat::Dxil, ShaderStage::Fragment) => "pxl.dxb",
        }
    }

    /// The entry point of `stage`'s code.
    pub fn entry_point(&self, stage: ShaderStage) -> (r: &'static str)
        ensures
            r@ == entry_point(*self, stage),
    {
        match (self, stage) {
            (_, ShaderStage::Vertex) => "VertexMain",
            (ShaderFormat::Dxil, ShaderStage::Fragment) => "PixelMain",
            (_, ShaderStage::Fragment) => "FragmentMain",
        }
    }
}

/// What a program's shaders bind.
#[derive(Clone, Copy, Debug, PartialEq, Eq, Structural)]
pub struct ShaderBindings {
    pub vertex_uniforms: u32,
    pub vertex_storage: u32,
    pub fragment_samplers: u32,
}

/// The resources that one stage declares.
#[derive(Clone, Copy, Debug, PartialEq, Eq, Structural)]
pub struct StageResources {
    pub num_samplers: u32,
    pub num_storage_textures: u32,
    pub num_storage_buffers: u32,
    pub num_uniform_buffers: u32,
}

/// The resources that `stage` declares: samplers belong to the fragment
/// stage, storage and uniform buffers to the vertex stage.
pub fn stage_resources(b: &ShaderBindings, stage: ShaderStage) -> (r: StageResources)
    ensures
        r.num_samplers == (if stage == ShaderStage::Fragment {
            b.fragment_samplers
        } else {
            0
        }),
        r.num_storage_textures == 0,
        r.num_storage_buffers == (if stage == ShaderStage::Vertex {
            b.vertex_storage
        } else {
            0
        }),
        r.num_uniform_buffers == (if stage == ShaderStage::Vertex {
            b.vertex_uniforms
        } else {
            0
        }),
{
    match stage {
        ShaderStage::Vertex => StageResources {
            num_samplers: 0,
            num_storage_textures: 0,
            num_storage_buffers: b.vertex_storage,
            num_uniform_buffers: b.vertex_uniforms,
        },
        ShaderStage::Fragment => StageResources {
            num_samplers: b.fragment_samplers,
            num_storage_textures: 0,
            num_storage_buffers: 0,
            num_uniform_buffers: 0,
        },
    }
}

} // verus!
