//! Debug export of a BGRA texture as a 24-bit BMP file: the bytes of the
//! file, and when a periodic export is due.

use vstd::prelude::*;

verus! {

/// Bytes of the file header and the image header together.
pub const BMP_HEADER_SIZE: u32 = 54;

/// One byte of a 32-bit number, counted from the least significant.
pub open spec fn le_byte(x: u32, k: int) -> u8 {
    if k == 0 {
        (x % 256) as u8
    } else if k == 1 {
        ((x / 0x100) % 256) as u8
    } else if k == 2 {
        ((x / 0x1_0000) % 256) as u8
    } else {
        ((x / 0x100_0000) % 256) as u8
    }
}

/// Bytes of pixel data in an image of `width` by `height`: three for each
/// pixel, rows unpadded.
pub open spec fn image_size(width: u32, height: u32) -> int {
    width * height * 3
}

/// The header of the file for an image of `width` by `height`: the magic
/// "BM", the file size, the offset of the pixel data, then the image header
/// with its own size, the width, the height, one plane and 24 bits a pixel,
/// and the size of the pixel data. Numbers are little endian; every other
/// byte is zero.
pub open spec fn bmp_header(width: u32, height: u32) -> Seq<u8> {
    let image = image_size(width, height) as u32;
    let file = (image_size(width, height) + BMP_HEADER_SIZE) as u32;
    Seq::new(
        54,
        |i: int|
            if i == 0 {
                0x42u8
            } else if i == 1 {
                0x4Du8
            } else if 2 <= i < 6 {
                le_byte(file, i - 2)
            } else if i == 10 {
                54u8
            } else if i == 14 {
                40u8
            } else if 18 <= i < 22 {
                le_byte(width, i - 18)
            } else if 22 <= i < 26 {
                le_byte(height, i - 22)
            } else if i == 26 {
                1u8
            } else if i == 28 {
                24u8
            } else if 34 <= i < 38 {
                le_byte(image, i - 34)
            } else {
                0u8
            },
    )
}

/// The last `rows` rows of an image of `height` rows, the last row first.
/// A row is `stride` bytes.
pub open spec fn rows_bottom_up(data: Seq<u8>, stride: int, height: int, rows: nat) -> Seq<u8>
    decreases rows,
{
    if rows == 0 {
        Seq::empty()
    } else {
        rows_bottom_up(data, stride, height, (rows - 1) as nat) + data.subrange(
            (height - rows) * stride,
            (height - rows + 1) * stride,
        )
    }
}

/// The whole file: the header, then the rows from the bottom one up.
pub open spec fn bmp_file(data: Seq<u8>, width: u32, height: u32) -> Seq<u8> {
    bmp_header(width, height) + rows_bottom_up(data, width * 3, height as int, height as nat)
}

fn le_bytes_of(x: u32) -> (bytes: (u8, u8, u8, u8))
    ensures
        bytes.0 == le_byte(x, 0),
        bytes.1 == le_byte(x, 1),
        bytes.2 == le_byte(x, 2),
        bytes.3 == le_byte(x, 3),
{
    let b0: u32 = x & 0xff;
    let b1: u32 = (x >> 8) & 0xff;
    let b2: u32 = (x >> 16) & 0xff;
    let b3: u32 = (x >> 24) & 0xff;
    assert(x & 0xff == x % 256) by (bit_vector);
    assert((x >> 8) & 0xff == (x / 0x100) % 256) by (bit_vector);
    assert((x >> 16) & 0xff == (x / 0x1_0000) % 256) by (bit_vector);
    assert((x >> 24) & 0xff == (x / 0x100_0000) % 256) by (bit_vector);
    (b0 as u8, b1 as u8, b2 as u8, b3 as u8)
}

/// Builds the header of the file.
pub fn create_bmp_header(width: u32, height: u32) -> (header: Vec<u8>)
    requires
        image_size(width, height) + BMP_HEADER_SIZE <= u32::MAX,
    ensures
        header@ == bmp_header(width, height),
{
    assert(width * height * 3 + 54 <= u32::MAX);
    assert(width * height <= u32::MAX) by (nonlinear_arith)
        requires
            width * height * 3 + 54 <= u32::MAX,
            width >= 0,
            height >= 0,
    ;
    let image: u32 = width * height * 3;
    let file: u32 = image + BMP_HEADER_SIZE;
    let f = le_bytes_of(file);
    let w = le_bytes_of(width);
    let h = le_bytes_of(height);
    let m = le_bytes_of(image);
    let mut header: Vec<u8> = Vec::new();
    let mut i: usize = 0;
    while i < 54
        invariant
            i <= 54,
            header@.len() == i,
            forall|j: int| 0 <= j < i ==> header@[j] == 0u8,
        decreases 54 - i,
    {
        header.push(0u8);
        i += 1;
    }
    header[0] = 0x42;
    header[1] = 0x4D;
    header[2] = f.0;
    header[3] = f.1;
    header[4] = f.2;
    header[5] = f.3;
    header[10] = 54;
    header[14] = 40;
    header[18] = w.0;
    header[19] = w.1;
    header[20] = w.2;
    header[21] = w.3;
    header[22] = h.0;
    header[23] = h.1;
    header[24] = h.2;
    header[25] = h.3;
    header[26] = 1;
    header[28] = 24;
    header[34] = m.0;
    header[35] = m.1;
    header[36] = m.2;
    header[37] = m.3;
    assert(header@ =~= bmp_header(width, height));
    header
}

/// Builds the bytes of a 24-bit BMP file from BGR pixel data given top row
/// first, three bytes a pixel and rows unpadded.
pub fn create_bmp_file(data: &[u8], width: u32, height: u32) -> (file: Vec<u8>)
    requires
        image_size(width, height) + BMP_HEADER_SIZE <= u32::MAX,
        data@.len() >= image_size(width, height),
    ensures
        file@ == bmp_file(data@, width, height),
        file@.len() == BMP_HEADER_SIZE + image_size(width, height),
{
    let mut file = create_bmp_header(width, height);
    if height == 0 {
        assert(image_size(width, height) == 0) by (nonlinear_arith)
            requires
                height == 0,
        ;
        assert(file@ =~= bmp_file(data@, width, height));
        return file;
    }
    assert(width * 3 <= width * height * 3) by (nonlinear_arith)
        requires
            height >= 1,
            width >= 0,
    ;
    assert((width * 3) * height == width * height * 3) by (nonlinear_arith);
    let stride: usize = (width as usize) * 3;
    let rows: usize = height as usize;
    let mut done: usize = 0;
    while done < rows
        invariant
            done <= rows,
            rows == height,
            stride == width * 3,
            data@.len() >= stride * rows,
            stride * rows <= u32::MAX,
            file@ == bmp_header(width, height) + rows_bottom_up(
                data@,
                stride as int,
                rows as int,
                done as nat,
            ),
            file@.len() == 54 + done * stride,
        decreases rows - done,
    {
        let row: usize = rows - 1 - done;
        assert(row * stride + stride <= stride * rows) by (nonlinear_arith)
            requires
                row + 1 <= rows,
                stride >= 0,
        ;
        assert((done + 1) * stride == done * stride + stride) by (nonlinear_arith);
        assert((rows - (done + 1) + 1) * stride == row * stride + stride) by (nonlinear_arith)
            requires
                row == rows - 1 - done,
        ;
        let start: usize = row * stride;
        let end: usize = start + stride;
        let ghost before = file@;
        file.extend_from_slice(&data[start..end]);
        assert(file@ =~= before + data@.subrange(start as int, end as int));
        done += 1;
    }
    assert(stride * rows == image_size(width, height)) by (nonlinear_arith)
        requires
            stride == width * 3,
            rows == height,
    ;
    assert(done * stride == stride * rows) by (nonlinear_arith)
        requires
            done == rows,
    ;
    file
}

/// The three colour bytes of the pixel at `at` in mapped texture memory, in
/// the order blue, green, red. In a BGRA texture they lie in that order;
/// in any other they are taken to lie as red, green, blue.
pub open spec fn bgr_pixel(mapped: Seq<u8>, at: int, is_bgra: bool) -> Seq<u8> {
    if is_bgra {
        seq![mapped[at], mapped[at + 1], mapped[at + 2]]
    } else {
        seq![mapped[at + 2], mapped[at + 1], mapped[at]]
    }
}

/// The first `pixels` pixels of the row that begins at `row_start`, as BGR.
pub open spec fn bgr_row(mapped: Seq<u8>, row_start: int, pixels: nat, is_bgra: bool) -> Seq<u8>
    decreases pixels,
{
    if pixels == 0 {
        Seq::empty()
    } else {
        bgr_row(mapped, row_start, (pixels - 1) as nat, is_bgra) + bgr_pixel(
            mapped,
            row_start + (pixels - 1) * 4,
            is_bgra,
        )
    }
}

/// The first `rows` rows of a mapped texture of `width` pixels a row and
/// `row_pitch` bytes from row to row, as BGR, top row first.
pub open spec fn bgr_rows(
    mapped: Seq<u8>,
    row_pitch: int,
    width: nat,
    rows: nat,
    is_bgra: bool,
) -> Seq<u8>
    decreases rows,
{
    if rows == 0 {
        Seq::empty()
    } else {
        bgr_rows(mapped, row_pitch, width, (rows - 1) as nat, is_bgra) + bgr_row(
            mapped,
            (rows - 1) * row_pitch,
            width,
            is_bgra,
        )
    }
}

/// Drops the alpha channel of a mapped four-byte-a-pixel texture: the BGR
/// pixel data of the image, top row first, rows unpadded.
pub fn bgr_from_mapped(mapped: &[u8], row_pitch: u32, width: u32, height: u32, is_bgra: bool) -> (bgr:
    Vec<u8>)
    requires
        row_pitch >= width * 4,
        mapped@.len() >= height * row_pitch,
    ensures
        bgr@ == bgr_rows(mapped@, row_pitch as int, width as nat, height as nat, is_bgra),
{
    let mut bgr: Vec<u8> = Vec::new();
    let pitch: usize = row_pitch as usize;
    let len: usize = mapped.len();
    let mut row: usize = 0;
    let mut row_start: usize = 0;
    while row < height as usize
        invariant
            row <= height,
            len == mapped@.len(),
            pitch == row_pitch,
            row_pitch >= width * 4,
            mapped@.len() >= height * row_pitch,
            row_start == row * pitch,
            bgr@ == bgr_rows(mapped@, row_pitch as int, width as nat, row as nat, is_bgra),
        decreases height - row,
    {
        assert(row * pitch + pitch <= height * pitch) by (nonlinear_arith)
            requires
                row + 1 <= height,
                pitch >= 0,
        ;
        assert((row + 1) * pitch == row * pitch + pitch) by (nonlinear_arith);
        let ghost before = bgr@;
        let mut col: usize = 0;
        while col < width as usize
            invariant
                col <= width,
                len == mapped@.len(),
                row_start + pitch <= mapped@.len(),
                pitch >= width * 4,
                bgr@ == before + bgr_row(mapped@, row_start as int, col as nat, is_bgra),
            decreases width - col,
        {
            let at: usize = row_start + col * 4;
            let ghost sofar = bgr@;
            if is_bgra {
                bgr.push(mapped[at]);
                bgr.push(mapped[at + 1]);
                bgr.push(mapped[at + 2]);
            } else {
                bgr.push(mapped[at + 2]);
                bgr.push(mapped[at + 1]);
                bgr.push(mapped[at]);
            }
            assert(bgr@ =~= sofar + bgr_pixel(mapped@, at as int, is_bgra));
            assert(bgr@ =~= before + bgr_row(mapped@, row_start as int, (col + 1) as nat, is_bgra));
            col += 1;
        }
        assert(bgr@ =~= bgr_rows(mapped@, row_pitch as int, width as nat, (row + 1) as nat, is_bgra));
        row += 1;
        row_start += pitch;
    }
    bgr
}

/// Counts the calls of a periodic export.
#[derive(Debug, Clone, Copy, PartialEq, Eq, Structural)]
pub struct DumpCounter {
    pub index: u32,
}

/// Whether the call with number `index` is one to export at: every
/// `cycle`-th is, counted from call 0.
pub open spec fn export_due(index: u32, cycle: u32) -> bool {
    index % cycle == 0
}

impl DumpCounter {
    /// A counter that has seen no call.
    pub fn new() -> (counter: DumpCounter)
        ensures
            counter.index == 0,
    {
        DumpCounter { index: 0 }
    }

    /// Counts one call of `save_bgra_bmps` and says whether to export at it:
    /// the call's number if so. Without a texture nothing is counted.
    pub fn save_bgra_bmps(&mut self, has_texture: bool, cycle: u32) -> (due: Option<u32>)
        requires
            cycle > 0,
            old(self).index < u32::MAX,
        ensures
            !has_texture ==> due is None && *final(self) == *old(self),
            has_texture ==> final(self).index == old(self).index + 1 && due == (if export_due(
                old(self).index,
                cycle,
            ) {
                Some(old(self).index)
            } else {
                None
            }),
    {
        if !has_texture {
            return None;
        }
        let index = self.index;
        self.index = index + 1;
        if index % cycle == 0 {
            Some(index)
        } else {
            None
        }
    }
}

} // verus!
