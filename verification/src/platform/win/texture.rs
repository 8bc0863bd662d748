//! Textures as the device manager sees them: a native handle and a description.

use vstd::prelude::*;

verus! {

/// An opaque native object, by its address. The manager never looks behind it.
pub type Handle = usize;

pub const DXGI_FORMAT_R32G32B32_FLOAT: i32 = 6;

pub const DXGI_FORMAT_R32G32_FLOAT: i32 = 16;

pub const DXGI_FORMAT_R8G8_UNORM: i32 = 49;

pub const DXGI_FORMAT_R8_UNORM: i32 = 61;

pub const DXGI_FORMAT_B8G8R8A8_UNORM: i32 = 87;

pub const DXGI_FORMAT_NV12: i32 = 103;

pub const D3D11_USAGE_DEFAULT: i32 = 0;

pub const D3D11_USAGE_STAGING: i32 = 3;

pub const D3D11_BIND_VERTEX_BUFFER: u32 = 0x1;

pub const D3D11_BIND_SHADER_RESOURCE: u32 = 0x8;

pub const D3D11_BIND_RENDER_TARGET: u32 = 0x20;

pub const D3D11_CPU_ACCESS_READ: u32 = 0x20000;

pub const D3D11_RESOURCE_MISC_SHARED: u32 = 0x2;

/// The description of a 2D texture, field for field as the platform has it.
#[derive(Debug, Clone, Copy, PartialEq, Eq, Structural)]
pub struct TextureDesc {
    pub width: u32,
    pub height: u32,
    pub mip_levels: u32,
    pub array_size: u32,
    pub format: i32,
    pub sample_count: u32,
    pub sample_quality: u32,
    pub usage: i32,
    pub bind_flags: u32,
    pub cpu_access_flags: u32,
    pub misc_flags: u32,
}

/// A texture that exists on the GPU: its handle, and its description as the
/// platform reports it.
#[derive(Debug, Clone, Copy, PartialEq, Eq, Structural)]
pub struct Texture {
    pub handle: Handle,
    pub desc: TextureDesc,
}

/// Width and height of a texture.
pub fn get_texture_width_height(texture: &Texture) -> (size: (u32, u32))
    ensures
        size == (texture.desc.width, texture.desc.height),
{
    (texture.desc.width, texture.desc.height)
}

/// Whether the shared flag is among a texture's miscellaneous flags.
pub open spec fn is_shared(misc_flags: u32) -> bool {
    misc_flags & D3D11_RESOURCE_MISC_SHARED != 0
}

impl TextureDesc {
    /// The description of a pool texture of the given size: one BGRA surface,
    /// shareable, usable both as shader input and as render target.
    pub open spec fn pooled(width: u32, height: u32) -> TextureDesc {
        TextureDesc {
            width,
            height,
            mip_levels: 1,
            array_size: 1,
            format: DXGI_FORMAT_B8G8R8A8_UNORM,
            sample_count: 1,
            sample_quality: 0,
            usage: D3D11_USAGE_DEFAULT,
            bind_flags: 0x28,
            cpu_access_flags: 0,
            misc_flags: D3D11_RESOURCE_MISC_SHARED,
        }
    }

    /// Whether a texture of this description can serve in a pool of the given
    /// size: same dimensions, BGRA, shareable, default usage.
    pub open spec fn fits_pool(self, width: u32, height: u32) -> bool {
        &&& self.width == width
        &&& self.height == height
        &&& self.format == DXGI_FORMAT_B8G8R8A8_UNORM
        &&& is_shared(self.misc_flags)
        &&& self.usage == D3D11_USAGE_DEFAULT
    }

    /// The private NV12 texture that the shader path samples from.
    pub open spec fn nv12_source(width: u32, height: u32) -> TextureDesc {
        TextureDesc {
            width,
            height,
            mip_levels: 1,
            array_size: 1,
            format: DXGI_FORMAT_NV12,
            sample_count: 1,
            sample_quality: 0,
            usage: D3D11_USAGE_DEFAULT,
            bind_flags: D3D11_BIND_SHADER_RESOURCE,
            cpu_access_flags: 0,
            misc_flags: 0,
        }
    }

    /// The CPU-readable copy of a texture, for a dump: same size, format and
    /// sampling, `array_size` layers, staging usage, no binding.
    pub open spec fn staging_of(self, array_size: u32) -> TextureDesc {
        TextureDesc {
            width: self.width,
            height: self.height,
            mip_levels: 1,
            array_size,
            format: self.format,
            sample_count: self.sample_count,
            sample_quality: self.sample_quality,
            usage: D3D11_USAGE_STAGING,
            bind_flags: 0,
            cpu_access_flags: D3D11_CPU_ACCESS_READ,
            misc_flags: 0,
        }
    }

    /// Builds `pooled(width, height)`.
    pub fn new_pooled(width: u32, height: u32) -> (desc: TextureDesc)
        ensures
            desc == Self::pooled(width, height),
            desc.bind_flags == D3D11_BIND_SHADER_RESOURCE | D3D11_BIND_RENDER_TARGET,
            desc.fits_pool(width, height),
    {
        assert(0x8u32 | 0x20u32 == 0x28u32) by (bit_vector);
        assert(0x2u32 & 0x2u32 != 0) by (bit_vector);
        TextureDesc {
            width,
            height,
            mip_levels: 1,
            array_size: 1,
            format: DXGI_FORMAT_B8G8R8A8_UNORM,
            sample_count: 1,
            sample_quality: 0,
            usage: D3D11_USAGE_DEFAULT,
            bind_flags: D3D11_BIND_SHADER_RESOURCE | D3D11_BIND_RENDER_TARGET,
            cpu_access_flags: 0,
            misc_flags: D3D11_RESOURCE_MISC_SHARED,
        }
    }

    /// Decides `fits_pool(width, height)`.
    pub fn matches_pool(&self, width: u32, height: u32) -> (fits: bool)
        ensures
            fits == self.fits_pool(width, height),
    {
        self.width == width && self.height == height && self.format == DXGI_FORMAT_B8G8R8A8_UNORM
            && (self.misc_flags & D3D11_RESOURCE_MISC_SHARED) != 0 && self.usage
            == D3D11_USAGE_DEFAULT
    }

    /// Builds `nv12_source(width, height)`.
    pub fn new_nv12_source(width: u32, height: u32) -> (desc: TextureDesc)
        ensures
            desc == Self::nv12_source(width, height),
    {
        TextureDesc {
            width,
            height,
            mip_levels: 1,
            array_size: 1,
            format: DXGI_FORMAT_NV12,
            sample_count: 1,
            sample_quality: 0,
            usage: D3D11_USAGE_DEFAULT,
            bind_flags: D3D11_BIND_SHADER_RESOURCE,
            cpu_access_flags: 0,
            misc_flags: 0,
        }
    }

    /// Builds `self.staging_of(array_size)`.
    pub fn staging(&self, array_size: u32) -> (desc: TextureDesc)
        ensures
            desc == self.staging_of(array_size),
    {
        TextureDesc {
            width: self.width,
            height: self.height,
            mip_levels: 1,
            array_size,
            format: self.format,
            sample_count: self.sample_count,
            sample_quality: self.sample_quality,
            usage: D3D11_USAGE_STAGING,
            bind_flags: 0,
            cpu_access_flags: D3D11_CPU_ACCESS_READ,
            misc_flags: 0,
        }
    }
}

} // verus!
