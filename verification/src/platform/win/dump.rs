//! Debug dump of an NV12 texture: the cropped luma plane followed by the
//! cropped chroma plane, as raw bytes.

use vstd::prelude::*;
use crate::platform::win::texture::DXGI_FORMAT_NV12;

verus! {

/// The first `rows` rows of a plane that begins at `offset` in mapped
/// texture memory, each cut to `crop_w` bytes. Rows are `row_pitch` bytes
/// apart.
pub open spec fn cropped_rows(
    mapped: Seq<u8>,
    offset: int,
    row_pitch: int,
    crop_w: int,
    rows: nat,
) -> Seq<u8>
    decreases rows,
{
    if rows == 0 {
        Seq::empty()
    } else {
        let start = offset + (rows - 1) * row_pitch;
        cropped_rows(mapped, offset, row_pitch, crop_w, (rows - 1) as nat) + mapped.subrange(
            start,
            start + crop_w,
        )
    }
}

/// What a dump of a texture holds. For an NV12 texture of `height` rows:
/// `crop_h` rows of luma, then `crop_h / 2` rows of interleaved chroma,
/// which begin `height` rows into the memory, every row cut to `crop_w`
/// bytes. For a texture of any other format: nothing.
pub open spec fn dump_bytes(
    format: i32,
    mapped: Seq<u8>,
    row_pitch: u32,
    height: u32,
    crop_w: u32,
    crop_h: u32,
) -> Seq<u8> {
    if format == DXGI_FORMAT_NV12 {
        cropped_rows(mapped, 0, row_pitch as int, crop_w as int, crop_h as nat) + cropped_rows(
            mapped,
            height * row_pitch,
            row_pitch as int,
            crop_w as int,
            (crop_h / 2) as nat,
        )
    } else {
        Seq::empty()
    }
}

fn append_cropped_rows(
    out: &mut Vec<u8>,
    mapped: &[u8],
    offset: usize,
    row_pitch: usize,
    crop_w: usize,
    rows: usize,
)
    requires
        crop_w <= row_pitch,
        offset + rows * row_pitch <= mapped@.len(),
    ensures
        final(out)@ == old(out)@ + cropped_rows(
            mapped@,
            offset as int,
            row_pitch as int,
            crop_w as int,
            rows as nat,
        ),
{
    let len: usize = mapped.len();
    let mut row: usize = 0;
    let mut start: usize = offset;
    while row < rows
        invariant
            row <= rows,
            len == mapped@.len(),
            crop_w <= row_pitch,
            offset + rows * row_pitch <= mapped@.len(),
            start == offset + row * row_pitch,
            out@ == old(out)@ + cropped_rows(
                mapped@,
                offset as int,
                row_pitch as int,
                crop_w as int,
                row as nat,
            ),
        decreases rows - row,
    {
        assert(row * row_pitch + row_pitch <= rows * row_pitch) by (nonlinear_arith)
            requires
                row + 1 <= rows,
                row_pitch >= 0,
        ;
        assert((row + 1) * row_pitch == row * row_pitch + row_pitch) by (nonlinear_arith);
        let ghost before = out@;
        out.extend_from_slice(&mapped[start..start + crop_w]);
        assert(out@ =~= before + mapped@.subrange(start as int, start + crop_w));
        row += 1;
        start += row_pitch;
    }
}

/// Builds the bytes of a dump from the mapped memory of a texture of
/// `format` with `height` rows.
pub fn dump_texture(
    format: i32,
    mapped: &[u8],
    row_pitch: u32,
    height: u32,
    crop_w: u32,
    crop_h: u32,
) -> (bytes: Vec<u8>)
    requires
        crop_w <= row_pitch,
        crop_h <= height,
        mapped@.len() >= height * row_pitch + (crop_h / 2) * row_pitch,
    ensures
        bytes@ == dump_bytes(format, mapped@, row_pitch, height, crop_w, crop_h),
{
    let mut bytes: Vec<u8> = Vec::new();
    if format == DXGI_FORMAT_NV12 {
        let len: usize = mapped.len();
        assert(crop_h * row_pitch <= height * row_pitch) by (nonlinear_arith)
            requires
                crop_h <= height,
                row_pitch >= 0,
        ;
        let pitch = row_pitch as usize;
        assert(height * row_pitch <= len);
        let uv_offset: usize = (height as usize) * pitch;
        append_cropped_rows(&mut bytes, mapped, 0, pitch, crop_w as usize, crop_h as usize);
        append_cropped_rows(
            &mut bytes,
            mapped,
            uv_offset,
            pitch,
            crop_w as usize,
            (crop_h / 2) as usize,
        );
    }
    bytes
}

} // verus!
