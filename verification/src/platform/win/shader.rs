//! The shader path from NV12 to BGRA: a fixed pipeline of two shaders, one
//! sampler and two triangles that cover the viewport.
//!
//! Coordinates are kept as whole numbers here. Each of them is exactly
//! representable as a float, which is what the GPU is handed.

use vstd::prelude::*;
use crate::platform::win::texture::{
    TextureDesc,
    DXGI_FORMAT_B8G8R8A8_UNORM,
    DXGI_FORMAT_R32G32B32_FLOAT,
    DXGI_FORMAT_R32G32_FLOAT,
    DXGI_FORMAT_R8G8_UNORM,
    DXGI_FORMAT_R8_UNORM,
    D3D11_BIND_VERTEX_BUFFER,
    D3D11_USAGE_DEFAULT,
};

verus! {

pub const D3D11_SRV_DIMENSION_TEXTURE2D: i32 = 4;

pub const D3D11_RTV_DIMENSION_TEXTURE2D: i32 = 4;

pub const D3D11_FILTER_MIN_MAG_MIP_LINEAR: i32 = 21;

pub const D3D11_TEXTURE_ADDRESS_CLAMP: i32 = 3;

pub const D3D11_COMPARISON_NEVER: i32 = 1;

pub const D3D11_INPUT_PER_VERTEX_DATA: i32 = 0;

pub const D3D_PRIMITIVE_TOPOLOGY_TRIANGLELIST: i32 = 4;

/// Vertices of the two triangles.
pub const NUM_VERTICES: u32 = 6;

/// Bytes of one vertex on the GPU: three floats of position, two of texture
/// coordinate.
pub const VERTEX_STRIDE: u32 = 20;

/// What a vertex attribute means to the vertex shader.
#[derive(Debug, Clone, Copy, PartialEq, Eq, Structural)]
pub enum Semantic {
    Position,
    TexCoord,
}

/// One attribute of the vertex layout.
#[derive(Debug, Clone, Copy, PartialEq, Eq, Structural)]
pub struct InputElement {
    pub semantic: Semantic,
    pub semantic_index: u32,
    pub format: i32,
    pub input_slot: u32,
    pub aligned_byte_offset: u32,
    pub input_slot_class: i32,
    pub instance_data_step_rate: u32,
}

/// The vertex layout: a position of three floats at byte 0, then a texture
/// coordinate of two floats at byte 12, both per vertex from slot 0.
pub open spec fn input_layout() -> Seq<InputElement> {
    seq![
        InputElement {
            semantic: Semantic::Position,
            semantic_index: 0,
            format: DXGI_FORMAT_R32G32B32_FLOAT,
            input_slot: 0,
            aligned_byte_offset: 0,
            input_slot_class: D3D11_INPUT_PER_VERTEX_DATA,
            instance_data_step_rate: 0,
        },
        InputElement {
            semantic: Semantic::TexCoord,
            semantic_index: 0,
            format: DXGI_FORMAT_R32G32_FLOAT,
            input_slot: 0,
            aligned_byte_offset: 12,
            input_slot_class: D3D11_INPUT_PER_VERTEX_DATA,
            instance_data_step_rate: 0,
        },
    ]
}

/// Builds the vertex layout.
pub fn create_input_layout() -> (layout: Vec<InputElement>)
    ensures
        layout@ == input_layout(),
{
    let mut layout: Vec<InputElement> = Vec::new();
    layout.push(
        InputElement {
            semantic: Semantic::Position,
            semantic_index: 0,
            format: DXGI_FORMAT_R32G32B32_FLOAT,
            input_slot: 0,
            aligned_byte_offset: 0,
            input_slot_class: D3D11_INPUT_PER_VERTEX_DATA,
            instance_data_step_rate: 0,
        },
    );
    layout.push(
        InputElement {
            semantic: Semantic::TexCoord,
            semantic_index: 0,
            format: DXGI_FORMAT_R32G32_FLOAT,
            input_slot: 0,
            aligned_byte_offset: 12,
            input_slot_class: D3D11_INPUT_PER_VERTEX_DATA,
            instance_data_step_rate: 0,
        },
    );
    assert(layout@ =~= input_layout());
    layout
}

/// A vertex: a position in normalized device coordinates and the texture
/// coordinate sampled there.
#[derive(Debug, Clone, Copy, PartialEq, Eq, Structural)]
pub struct Vertex {
    pub x: i32,
    pub y: i32,
    pub z: i32,
    pub u: i32,
    pub v: i32,
}

impl Vertex {
    /// The vertex at a corner of the viewport. `x` and `y` are -1 or 1; the
    /// texture runs from 0 at the left and top to 1 at the right and bottom.
    pub open spec fn corner(x: int, y: int) -> Vertex {
        Vertex { x: x as i32, y: y as i32, z: 0, u: ((x + 1) / 2) as i32, v: ((1 - y) / 2) as i32 }
    }

    /// Whether the vertex is one of the viewport's four corners, with the
    /// texture coordinate that belongs there.
    pub open spec fn is_corner(self) -> bool {
        exists|x: int, y: int|
            (x == -1 || x == 1) && (y == -1 || y == 1) && self == #[trigger] Self::corner(x, y)
    }
}

/// The two triangles: bottom-left, top-left, bottom-right; then
/// bottom-right, top-left, top-right.
pub open spec fn quad() -> Seq<Vertex> {
    seq![
        Vertex::corner(-1, -1),
        Vertex::corner(-1, 1),
        Vertex::corner(1, -1),
        Vertex::corner(1, -1),
        Vertex::corner(-1, 1),
        Vertex::corner(1, 1),
    ]
}

/// Builds the two triangles.
pub fn quad_vertices() -> (vertices: Vec<Vertex>)
    ensures
        vertices@ == quad(),
        vertices.len() == NUM_VERTICES,
{
    let mut vertices: Vec<Vertex> = Vec::new();
    vertices.push(Vertex { x: -1, y: -1, z: 0, u: 0, v: 1 });
    vertices.push(Vertex { x: -1, y: 1, z: 0, u: 0, v: 0 });
    vertices.push(Vertex { x: 1, y: -1, z: 0, u: 1, v: 1 });
    vertices.push(Vertex { x: 1, y: -1, z: 0, u: 1, v: 1 });
    vertices.push(Vertex { x: -1, y: 1, z: 0, u: 0, v: 0 });
    vertices.push(Vertex { x: 1, y: 1, z: 0, u: 1, v: 0 });
    assert(vertices@ =~= quad());
    vertices
}

/// The two triangles cover the viewport: every vertex is a corner, every
/// corner is a vertex, and the triangles meet along the diagonal from
/// bottom-right to top-left.
pub proof fn lemma_quad_covers_viewport()
    ensures
        quad().len() == NUM_VERTICES,
        forall|i: int| 0 <= i < quad().len() ==> (#[trigger] quad()[i]).is_corner(),
        forall|x: int, y: int|
            (x == -1 || x == 1) && (y == -1 || y == 1) ==> quad().contains(
                #[trigger] Vertex::corner(x, y),
            ),
        quad()[2] == quad()[3],
        quad()[1] == quad()[4],
{
    let q = quad();
    assert(q[0] == Vertex::corner(-1, -1));
    assert(q[1] == Vertex::corner(-1, 1));
    assert(q[2] == Vertex::corner(1, -1));
    assert(q[3] == Vertex::corner(1, -1));
    assert(q[4] == Vertex::corner(-1, 1));
    assert(q[5] == Vertex::corner(1, 1));
    assert forall|i: int| 0 <= i < q.len() implies (#[trigger] q[i]).is_corner() by {
        if i == 0 {
            assert(q[i] == Vertex::corner(-1, -1));
        } else if i == 1 || i == 4 {
            assert(q[i] == Vertex::corner(-1, 1));
        } else if i == 2 || i == 3 {
            assert(q[i] == Vertex::corner(1, -1));
        } else {
            assert(q[i] == Vertex::corner(1, 1));
        }
    }
}

/// A buffer on the GPU.
#[derive(Debug, Clone, Copy, PartialEq, Eq, Structural)]
pub struct BufferDesc {
    pub byte_width: u32,
    pub usage: i32,
    pub bind_flags: u32,
    pub cpu_access_flags: u32,
    pub misc_flags: u32,
    pub structure_byte_stride: u32,
}

/// How the vertex buffer is created and bound.
#[derive(Debug, Clone, Copy, PartialEq, Eq, Structural)]
pub struct VertexBufferSetup {
    pub buffer: BufferDesc,
    pub stride: u32,
    pub offset: u32,
    pub sample_mask: u32,
    pub topology: i32,
}

/// A shader's view of one plane of a texture.
#[derive(Debug, Clone, Copy, PartialEq, Eq, Structural)]
pub struct PlaneViewDesc {
    pub format: i32,
    pub view_dimension: i32,
    pub most_detailed_mip: u32,
    pub mip_levels: u32,
}

/// The sampler, as far as it is not floats: linear filtering, clamped in
/// every direction. Its bias, border and least level of detail are zero and
/// its greatest level of detail is unbounded.
#[derive(Debug, Clone, Copy, PartialEq, Eq, Structural)]
pub struct SamplerDesc {
    pub filter: i32,
    pub address_u: i32,
    pub address_v: i32,
    pub address_w: i32,
    pub max_anisotropy: u32,
    pub comparison_func: i32,
}

/// The viewport: its corner, its size in pixels and its depth range.
#[derive(Debug, Clone, Copy, PartialEq, Eq, Structural)]
pub struct Viewport {
    pub top_left_x: u32,
    pub top_left_y: u32,
    pub width: u32,
    pub height: u32,
    pub min_depth: u32,
    pub max_depth: u32,
}

/// All state of the shader path that depends on the frame size, to be built
/// in this order: source texture and its two plane views, viewport, sampler,
/// the shader pair with the vertex layout, the vertex buffer.
#[derive(Debug, Clone, Copy, PartialEq, Eq, Structural)]
pub struct ShaderSetup {
    pub source: TextureDesc,
    pub luma_view: PlaneViewDesc,
    pub chroma_view: PlaneViewDesc,
    pub viewport: Viewport,
    pub sampler: SamplerDesc,
    pub vertex_buffer: VertexBufferSetup,
}

impl ShaderSetup {
    /// The setup for frames of `width` by `height`.
    pub open spec fn for_size(width: u32, height: u32) -> ShaderSetup {
        ShaderSetup {
            source: TextureDesc::nv12_source(width, height),
            luma_view: PlaneViewDesc {
                format: DXGI_FORMAT_R8_UNORM,
                view_dimension: D3D11_SRV_DIMENSION_TEXTURE2D,
                most_detailed_mip: 0,
                mip_levels: 1,
            },
            chroma_view: PlaneViewDesc {
                format: DXGI_FORMAT_R8G8_UNORM,
                view_dimension: D3D11_SRV_DIMENSION_TEXTURE2D,
                most_detailed_mip: 0,
                mip_levels: 1,
            },
            viewport: Viewport {
                top_left_x: 0,
                top_left_y: 0,
                width,
                height,
                min_depth: 0,
                max_depth: 1,
            },
            sampler: SamplerDesc {
                filter: D3D11_FILTER_MIN_MAG_MIP_LINEAR,
                address_u: D3D11_TEXTURE_ADDRESS_CLAMP,
                address_v: D3D11_TEXTURE_ADDRESS_CLAMP,
                address_w: D3D11_TEXTURE_ADDRESS_CLAMP,
                max_anisotropy: 1,
                comparison_func: D3D11_COMPARISON_NEVER,
            },
            vertex_buffer: VertexBufferSetup {
                buffer: BufferDesc {
                    byte_width: 120,
                    usage: D3D11_USAGE_DEFAULT,
                    bind_flags: D3D11_BIND_VERTEX_BUFFER,
                    cpu_access_flags: 0,
                    misc_flags: 0,
                    structure_byte_stride: 0,
                },
                stride: VERTEX_STRIDE,
                offset: 0,
                sample_mask: 0xffff_ffff,
                topology: D3D_PRIMITIVE_TOPOLOGY_TRIANGLELIST,
            },
        }
    }

    /// Builds `for_size(width, height)`.
    pub fn new(width: u32, height: u32) -> (setup: ShaderSetup)
        ensures
            setup == Self::for_size(width, height),
            setup.vertex_buffer.buffer.byte_width == VERTEX_STRIDE * NUM_VERTICES,
    {
        ShaderSetup {
            source: TextureDesc::new_nv12_source(width, height),
            luma_view: PlaneViewDesc {
                format: DXGI_FORMAT_R8_UNORM,
                view_dimension: D3D11_SRV_DIMENSION_TEXTURE2D,
                most_detailed_mip: 0,
                mip_levels: 1,
            },
            chroma_view: PlaneViewDesc {
                format: DXGI_FORMAT_R8G8_UNORM,
                view_dimension: D3D11_SRV_DIMENSION_TEXTURE2D,
                most_detailed_mip: 0,
                mip_levels: 1,
            },
            viewport: Viewport {
                top_left_x: 0,
                top_left_y: 0,
                width,
                height,
                min_depth: 0,
                max_depth: 1,
            },
            sampler: SamplerDesc {
                filter: D3D11_FILTER_MIN_MAG_MIP_LINEAR,
                address_u: D3D11_TEXTURE_ADDRESS_CLAMP,
                address_v: D3D11_TEXTURE_ADDRESS_CLAMP,
                address_w: D3D11_TEXTURE_ADDRESS_CLAMP,
                max_anisotropy: 1,
                comparison_func: D3D11_COMPARISON_NEVER,
            },
            vertex_buffer: VertexBufferSetup {
                buffer: BufferDesc {
                    byte_width: VERTEX_STRIDE * NUM_VERTICES,
                    usage: D3D11_USAGE_DEFAULT,
                    bind_flags: D3D11_BIND_VERTEX_BUFFER,
                    cpu_access_flags: 0,
                    misc_flags: 0,
                    structure_byte_stride: 0,
                },
                stride: VERTEX_STRIDE,
                offset: 0,
                sample_mask: 0xffff_ffff,
                topology: D3D_PRIMITIVE_TOPOLOGY_TRIANGLELIST,
            },
        }
    }
}

/// The view through which the destination is rendered to.
#[derive(Debug, Clone, Copy, PartialEq, Eq, Structural)]
pub struct RenderTargetDesc {
    pub format: i32,
    pub view_dimension: i32,
    pub mip_slice: u32,
}

/// A box of texels, half open: `left <= x < right` and so on.
#[derive(Debug, Clone, Copy, PartialEq, Eq, Structural)]
pub struct TexelBox {
    pub left: u32,
    pub top: u32,
    pub front: u32,
    pub right: u32,
    pub bottom: u32,
    pub back: u32,
}

/// The copy of one array slice of the decoder's NV12 texture into the
/// private source texture.
#[derive(Debug, Clone, Copy, PartialEq, Eq, Structural)]
pub struct CopyRegion {
    pub dst_subresource: u32,
    pub dst_x: u32,
    pub dst_y: u32,
    pub dst_z: u32,
    pub src_subresource: u32,
    pub src_box: TexelBox,
}

/// The draw call.
#[derive(Debug, Clone, Copy, PartialEq, Eq, Structural)]
pub struct DrawCall {
    pub vertex_count: u32,
    pub start_vertex: u32,
}

/// Everything one conversion from NV12 to BGRA asks of the platform, in
/// order: the setup if there is one; the copy of the source slice into the
/// private texture that the plane views are bound to; the render target on
/// the destination, cleared to zero and bound; the draw; a flush.
#[derive(Debug, Clone, Copy, PartialEq, Eq)]
pub struct ConvertPlan {
    pub width: u32,
    pub height: u32,
    pub setup: Option<ShaderSetup>,
    pub render_target: RenderTargetDesc,
    pub copy: CopyRegion,
    pub draw: DrawCall,
}

/// The frame size that the shader path was last set up for; 0 by 0 before
/// the first setup.
#[derive(Debug, Clone, Copy, PartialEq, Eq, Structural)]
pub struct ShaderCache {
    pub last_width: u32,
    pub last_height: u32,
}

/// The steps of a conversion that can fail: some part of the setup, or the
/// creation of the render target view.
#[derive(Debug, Clone, Copy, PartialEq, Eq, Structural)]
pub enum ConvertStage {
    Setup,
    RenderTarget,
}

/// How the platform fared with a conversion plan.
#[derive(Debug, Clone, Copy, PartialEq, Eq, Structural)]
pub enum ConvertOutcome {
    Completed,
    Failed { stage: ConvertStage, hresult: i32 },
}

impl ShaderCache {
    /// The plan of a conversion of `width` by `height` from array slice
    /// `nv12_array_index`: the setup is in it if and only if the size differs
    /// from the one last set up.
    pub open spec fn plan(self, width: u32, height: u32, nv12_array_index: u32) -> ConvertPlan {
        ConvertPlan {
            width,
            height,
            setup: if width != self.last_width || height != self.last_height {
                Some(ShaderSetup::for_size(width, height))
            } else {
                None
            },
            render_target: RenderTargetDesc {
                format: DXGI_FORMAT_B8G8R8A8_UNORM,
                view_dimension: D3D11_RTV_DIMENSION_TEXTURE2D,
                mip_slice: 0,
            },
            copy: CopyRegion {
                dst_subresource: 0,
                dst_x: 0,
                dst_y: 0,
                dst_z: 0,
                src_subresource: nv12_array_index,
                src_box: TexelBox {
                    left: 0,
                    top: 0,
                    front: 0,
                    right: width,
                    bottom: height,
                    back: 1,
                },
            },
            draw: DrawCall { vertex_count: NUM_VERTICES, start_vertex: 0 },
        }
    }

    /// The cache after the platform has worked through `plan`: the plan's
    /// size is remembered unless the setup itself failed.
    pub open spec fn after(self, plan: ConvertPlan, outcome: ConvertOutcome) -> ShaderCache {
        match outcome {
            ConvertOutcome::Failed { stage: ConvertStage::Setup, .. } => self,
            _ => ShaderCache { last_width: plan.width, last_height: plan.height },
        }
    }

    /// A cache that was never set up.
    pub fn new() -> (cache: ShaderCache)
        ensures
            cache == (ShaderCache { last_width: 0, last_height: 0 }),
    {
        ShaderCache { last_width: 0, last_height: 0 }
    }

    /// Builds `self.plan(..)`.
    pub fn make_plan(&self, width: u32, height: u32, nv12_array_index: u32) -> (plan: ConvertPlan)
        ensures
            plan == self.plan(width, height, nv12_array_index),
    {
        let setup = if width != self.last_width || height != self.last_height {
            Some(ShaderSetup::new(width, height))
        } else {
            None
        };
        ConvertPlan {
            width,
            height,
            setup,
            render_target: RenderTargetDesc {
                format: DXGI_FORMAT_B8G8R8A8_UNORM,
                view_dimension: D3D11_RTV_DIMENSION_TEXTURE2D,
                mip_slice: 0,
            },
            copy: CopyRegion {
                dst_subresource: 0,
                dst_x: 0,
                dst_y: 0,
                dst_z: 0,
                src_subresource: nv12_array_index,
                src_box: TexelBox {
                    left: 0,
                    top: 0,
                    front: 0,
                    right: width,
                    bottom: height,
                    back: 1,
                },
            },
            draw: DrawCall { vertex_count: NUM_VERTICES, start_vertex: 0 },
        }
    }

    /// Records how a plan fared.
    pub fn record(&mut self, plan: &ConvertPlan, outcome: ConvertOutcome)
        ensures
            *final(self) == old(self).after(*plan, outcome),
    {
        match outcome {
            ConvertOutcome::Failed { stage: ConvertStage::Setup, hresult: _ } => {},
            _ => {
                self.last_width = plan.width;
                self.last_height = plan.height;
            },
        }
    }
}

} // verus!
