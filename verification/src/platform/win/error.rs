//! Errors of the Direct3D 11 layer.

use vstd::prelude::*;

verus! {

/// What was wrong with a caller-supplied size or state.
#[derive(Debug, Clone, Copy, PartialEq, Eq)]
pub enum ParameterFault {
    /// The pool has no slot at the cursor.
    NoTextureAvailable,
    /// The slot at the cursor holds no texture.
    NoTextureAtCurrentIndex,
    /// The BGRA texture is smaller than the area to convert.
    BgraTextureTooSmall { texture_width: u32, texture_height: u32, width: u32, height: u32 },
    /// The NV12 texture is smaller than the area to convert.
    Nv12TextureTooSmall { texture_width: u32, texture_height: u32, width: u32, height: u32 },
}

/// An error of the Direct3D 11 layer. Platform failures carry the `HRESULT`
/// of the call that failed.
#[derive(Debug, Clone, Copy, PartialEq, Eq)]
pub enum WinPlatformError {
    /// A platform device or adapter call failed.
    DeviceCreationFailed(i32),
    /// No adapter has the wanted LUID or vendor.
    AdapterNotFound,
    /// The device came up at the feature level given, below the required one.
    UnsupportedFeatureLevel(i32),
    TextureCreationFailed(i32),
    VideoProcessorCreationFailed(i32),
    ShaderCreationFailed(i32),
    ResourceMappingFailed(i32),
    /// A debug dump could not be written; carries the OS error code, if any.
    FileOperationFailed(Option<i32>),
    InvalidParameter(ParameterFault),
    UnsupportedFormat,
    MultithreadProtectionFailed,
}

/// Whether an `HRESULT` reports success: the non-negative ones do.
pub open spec fn hresult_ok(hr: i32) -> bool {
    hr >= 0
}

/// Turns an `HRESULT` into a result: success for a success code, else
/// `DeviceCreationFailed` with the code.
pub fn check_hresult(hr: i32) -> (r: Result<(), WinPlatformError>)
    ensures
        hresult_ok(hr) ==> r == Ok::<(), WinPlatformError>(()),
        !hresult_ok(hr) ==> r == Err::<(), WinPlatformError>(
            WinPlatformError::DeviceCreationFailed(hr),
        ),
{
    if hr >= 0 {
        Ok(())
    } else {
        Err(WinPlatformError::DeviceCreationFailed(hr))
    }
}

} // verus!
