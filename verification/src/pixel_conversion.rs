use vstd::prelude::*;
use crate::error::CaptureError;
use vstd::arithmetic::div_mod::lemma_div_pos_is_pos;
use vstd::arithmetic::div_mod::lemma_fundamental_div_mod_converse;
use vstd::arithmetic::div_mod::lemma_multiply_divide_lt;
use vstd::arithmetic::mul::lemma_mul_inequality;
use vstd::arithmetic::mul::lemma_mul_is_commutative;
use vstd::arithmetic::mul::lemma_mul_nonnegative;
use vstd::arithmetic::mul::lemma_mul_strict_inequality;

verus! {

/// Bytes that one pixel occupies, in native and in converted buffers alike.
pub const BYTES_PER_PIXEL: usize = 4;

/// Four-character code `'BGRA'` of the one native layout that is accepted:
/// 32 bits per pixel, blue first.
pub const PIXEL_FORMAT_32BGRA: u32 = 0x4247_5241;

/// Width of every converted frame.
pub const TARGET_WIDTH: usize = 1920;

/// Height of every converted frame.
pub const TARGET_HEIGHT: usize = 1080;

/// Byte length of every converted frame.
pub const TARGET_FRAME_BYTES: usize = 8_294_400;

/// Channel of a source pixel that ends up in channel `channel` of the
/// output pixel. With `swap` the first and third channel trade places;
/// the second and fourth always stay.
pub open spec fn source_channel(channel: int, swap: bool) -> int {
    if swap && channel == 0 {
        2
    } else if swap && channel == 2 {
        0
    } else {
        channel
    }
}

/// The whole pixels of `src` with the first and third channel of each
/// exchanged. Bytes after the last whole pixel are dropped.
pub open spec fn swizzled(src: Seq<u8>) -> Seq<u8> {
    Seq::new(
        ((src.len() / 4) * 4) as nat,
        |i: int| src[i - i % 4 + source_channel(i % 4, true)],
    )
}

/// Reorders every whole 4-byte pixel of `bgra_data` from blue-green-red-alpha
/// to red-green-blue-alpha. A trailing partial pixel is ignored.
pub fn bgra_to_rgba_slice(bgra_data: &[u8]) -> (rgba: Vec<u8>)
    ensures
        rgba@ == swizzled(bgra_data@),
{
    let pixels: usize = bgra_data.len() / 4;
    let mut rgba: Vec<u8> = Vec::with_capacity(pixels * 4);
    let mut p: usize = 0;
    while p < pixels
        invariant
            pixels == bgra_data@.len() / 4,
            pixels * 4 <= bgra_data@.len() <= usize::MAX,
            p <= pixels,
            rgba@.len() == p * 4,
            forall|i: int| 0 <= i < rgba@.len() ==> rgba@[i] == swizzled(bgra_data@)[i],
        decreases pixels - p,
    {
        let base: usize = p * 4;
        rgba.push(bgra_data[base + 2]);
        rgba.push(bgra_data[base + 1]);
        rgba.push(bgra_data[base]);
        rgba.push(bgra_data[base + 3]);
        p = p + 1;
    }
    rgba
}

/// Source coordinate that nearest-neighbour sampling reads for destination
/// coordinate `dst_pos`: `floor(dst_pos * src_extent / dst_extent)`, clamped
/// to `[0, src_extent - 1]`.
pub open spec fn nearest_source(dst_pos: int, src_extent: int, dst_extent: int) -> int {
    let scaled = (dst_pos * src_extent) / dst_extent;
    if scaled < 0 {
        0
    } else if scaled > src_extent - 1 {
        src_extent - 1
    } else {
        scaled
    }
}

/// Byte `i` of a resampled image: the pixel `i / 4` of the destination, at
/// column `(i / 4) % dst_width` and row `(i / 4) / dst_width`, takes its
/// channel `i % 4` from the nearest source pixel, whose row starts every
/// `stride` bytes.
pub open spec fn sampled_byte(
    src: Seq<u8>,
    src_width: int,
    src_height: int,
    stride: int,
    dst_width: int,
    dst_height: int,
    swap: bool,
    i: int,
) -> u8 {
    let pixel = i / 4;
    let row = nearest_source(pixel / dst_width, src_height, dst_height);
    let column = nearest_source(pixel % dst_width, src_width, dst_width);
    src[row * stride + column * 4 + source_channel(i % 4, swap)]
}

/// The `dst_width` x `dst_height` image, tightly packed, that
/// nearest-neighbour sampling makes of a source whose rows are `stride`
/// bytes apart.
pub open spec fn resampled(
    src: Seq<u8>,
    src_width: int,
    src_height: int,
    stride: int,
    dst_width: int,
    dst_height: int,
    swap: bool,
) -> Seq<u8> {
    Seq::new(
        (dst_width * dst_height * 4) as nat,
        |i: int| sampled_byte(src, src_width, src_height, stride, dst_width, dst_height, swap, i),
    )
}

/// An all-zero (transparent black) image of the given size.
pub open spec fn blank_frame(width: int, height: int) -> Seq<u8> {
    Seq::new((width * height * 4) as nat, |i: int| 0u8)
}

/// Sampling never leaves the source: for a destination coordinate inside
/// the destination, the clamp in `nearest_source` changes nothing.
pub proof fn lemma_nearest_source_in_range(dst_pos: int, src_extent: int, dst_extent: int)
    requires
        0 <= dst_pos < dst_extent,
        0 < src_extent,
    ensures
        nearest_source(dst_pos, src_extent, dst_extent) == (dst_pos * src_extent) / dst_extent,
        0 <= nearest_source(dst_pos, src_extent, dst_extent) < src_extent,
{
    lemma_mul_nonnegative(dst_pos, src_extent);
    lemma_div_pos_is_pos(dst_pos * src_extent, dst_extent);
    lemma_mul_strict_inequality(dst_pos, dst_extent, src_extent);
    lemma_mul_is_commutative(dst_extent, src_extent);
    lemma_multiply_divide_lt(dst_pos * src_extent, dst_extent, src_extent);
}

/// Pixel number `row * width + column` lies in that row and column.
proof fn lemma_pixel_position(column: int, row: int, width: int)
    requires
        0 <= column < width,
    ensures
        (row * width + column) / width == row,
        (row * width + column) % width == column,
{
    lemma_fundamental_div_mod_converse(row * width + column, width, row, column);
}

fn nearest_index(dst_pos: usize, src_extent: usize, dst_extent: usize) -> (src_pos: usize)
    requires
        dst_pos < dst_extent,
        0 < src_extent,
    ensures
        src_pos == nearest_source(dst_pos as int, src_extent as int, dst_extent as int),
        src_pos < src_extent,
{
    proof {
        lemma_nearest_source_in_range(dst_pos as int, src_extent as int, dst_extent as int);
        assert(dst_pos * src_extent <= 0xffff_ffff_ffff_ffff * 0xffff_ffff_ffff_ffff)
            by (nonlinear_arith)
            requires
                0 <= dst_pos <= 0xffff_ffff_ffff_ffff,
                0 <= src_extent <= 0xffff_ffff_ffff_ffff,
        ;
    }
    let scaled: u128 = (dst_pos as u128) * (src_extent as u128) / (dst_extent as u128);
    scaled as usize
}

/// For every destination coordinate, the source coordinate it samples.
fn sample_positions(src_extent: usize, dst_extent: usize) -> (positions: Vec<usize>)
    requires
        0 < src_extent,
    ensures
        positions@.len() == dst_extent,
        forall|k: int|
            0 <= k < dst_extent ==> positions@[k] == nearest_source(
                k,
                src_extent as int,
                dst_extent as int,
            ),
        forall|k: int| 0 <= k < dst_extent ==> positions@[k] < src_extent,
{
    let mut positions: Vec<usize> = Vec::with_capacity(dst_extent);
    let mut k: usize = 0;
    while k < dst_extent
        invariant
            0 < src_extent,
            k <= dst_extent,
            positions@.len() == k,
            forall|j: int|
                0 <= j < k ==> positions@[j] == nearest_source(
                    j,
                    src_extent as int,
                    dst_extent as int,
                ),
            forall|j: int| 0 <= j < k ==> positions@[j] < src_extent,
        decreases dst_extent - k,
    {
        positions.push(nearest_index(k, src_extent, dst_extent));
        k = k + 1;
    }
    positions
}

/// Whether a source image of the stated size and stride can be read out of
/// `len` bytes.
pub open spec fn source_readable(len: int, src_width: int, src_height: int, stride: int) -> bool {
    &&& 0 < src_width
    &&& 0 < src_height
    &&& src_width * 4 <= stride
    &&& stride * src_height <= len
}

/// Every byte that `resampled` reads lies inside a readable source.
proof fn lemma_sample_in_bounds(
    len: int,
    src_width: int,
    src_height: int,
    stride: int,
    row: int,
    column: int,
)
    requires
        source_readable(len, src_width, src_height, stride),
        0 <= row < src_height,
        0 <= column < src_width,
    ensures
        0 <= row * stride,
        row * stride + stride <= len,
        row * stride + column * 4 + 3 < len,
{
    lemma_mul_nonnegative(row, stride);
    lemma_mul_inequality(row + 1, src_height, stride);
    lemma_mul_is_commutative(stride, src_height);
    assert((row + 1) * stride == row * stride + stride) by (nonlinear_arith);
}

/// Nearest-neighbour resampling of a readable source into a tightly packed
/// destination, with or without the red/blue exchange.
fn resample(
    src: &[u8],
    src_width: usize,
    src_height: usize,
    stride: usize,
    dst_width: usize,
    dst_height: usize,
    swap: bool,
) -> (out: Vec<u8>)
    requires
        source_readable(src@.len() as int, src_width as int, src_height as int, stride as int),
        0 < dst_width,
        0 < dst_height,
        dst_width * dst_height * 4 <= usize::MAX,
    ensures
        out@ == resampled(
            src@,
            src_width as int,
            src_height as int,
            stride as int,
            dst_width as int,
            dst_height as int,
            swap,
        ),
{
    let columns = sample_positions(src_width, dst_width);
    let available: usize = src.len();
    proof {
        assert(dst_width * dst_height <= dst_width * dst_height * 4) by (nonlinear_arith)
            requires
                0 < dst_width,
                0 < dst_height,
        ;
    }
    let mut out: Vec<u8> = Vec::with_capacity(dst_width * dst_height * 4);
    let mut y: usize = 0;
    while y < dst_height
        invariant
            source_readable(src@.len() as int, src_width as int, src_height as int, stride as int),
            src@.len() == available,
            0 < dst_width,
            y <= dst_height,
            columns@.len() == dst_width,
            forall|k: int|
                0 <= k < dst_width ==> columns@[k] == nearest_source(
                    k,
                    src_width as int,
                    dst_width as int,
                ),
            forall|k: int| 0 <= k < dst_width ==> columns@[k] < src_width,
            out@.len() == y * dst_width * 4,
            forall|i: int|
                0 <= i < out@.len() ==> out@[i] == sampled_byte(
                    src@,
                    src_width as int,
                    src_height as int,
                    stride as int,
                    dst_width as int,
                    dst_height as int,
                    swap,
                    i,
                ),
        decreases dst_height - y,
    {
        let row = nearest_index(y, src_height, dst_height);
        proof {
            lemma_sample_in_bounds(
                src@.len() as int,
                src_width as int,
                src_height as int,
                stride as int,
                row as int,
                0,
            );
        }
        let row_base: usize = row * stride;
        let mut x: usize = 0;
        while x < dst_width
            invariant
                source_readable(
                    src@.len() as int,
                    src_width as int,
                    src_height as int,
                    stride as int,
                ),
                src@.len() == available,
                0 < dst_width,
                y < dst_height,
                x <= dst_width,
                row < src_height,
                row == nearest_source(y as int, src_height as int, dst_height as int),
                row_base == row * stride,
                columns@.len() == dst_width,
                forall|k: int|
                    0 <= k < dst_width ==> columns@[k] == nearest_source(
                        k,
                        src_width as int,
                        dst_width as int,
                    ),
                forall|k: int| 0 <= k < dst_width ==> columns@[k] < src_width,
                out@.len() == (y * dst_width + x) * 4,
                forall|i: int|
                    0 <= i < out@.len() ==> out@[i] == sampled_byte(
                        src@,
                        src_width as int,
                        src_height as int,
                        stride as int,
                        dst_width as int,
                        dst_height as int,
                        swap,
                        i,
                    ),
            decreases dst_width - x,
        {
            let column = columns[x];
            proof {
                lemma_sample_in_bounds(
                    src@.len() as int,
                    src_width as int,
                    src_height as int,
                    stride as int,
                    row as int,
                    column as int,
                );
                lemma_pixel_position(x as int, y as int, dst_width as int);
            }
            let at: usize = row_base + column * 4;
            let ghost before = out@;
            let ghost pixel = y * dst_width + x;
            if swap {
                out.push(src[at + 2]);
                out.push(src[at + 1]);
                out.push(src[at]);
                out.push(src[at + 3]);
            } else {
                out.push(src[at]);
                out.push(src[at + 1]);
                out.push(src[at + 2]);
                out.push(src[at + 3]);
            }
            proof {
                assert forall|i: int| 0 <= i < out@.len() implies out@[i] == sampled_byte(
                    src@,
                    src_width as int,
                    src_height as int,
                    stride as int,
                    dst_width as int,
                    dst_height as int,
                    swap,
                    i,
                ) by {
                    if i < before.len() {
                        assert(out@[i] == before[i]);
                    } else {
                        assert(i / 4 == pixel);
                        assert(out@[i] == src@[at + source_channel(i % 4, swap)]);
                    }
                }
            }
            x = x + 1;
        }
        proof {
            assert((y * dst_width + dst_width) * 4 == (y + 1) * dst_width * 4)
                by (nonlinear_arith);
        }
        y = y + 1;
    }
    proof {
        lemma_mul_is_commutative(dst_width as int, dst_height as int);
    }
    out
}

fn blank(width: usize, height: usize) -> (out: Vec<u8>)
    requires
        width * height * 4 <= usize::MAX,
    ensures
        out@ == blank_frame(width as int, height as int),
{
    proof {
        assert(0 <= width * height <= width * height * 4) by (nonlinear_arith);
    }
    vec![0u8; width * height * 4]
}

/// What nearest-neighbour scaling makes of a tightly packed RGBA image.
/// Where either image has no pixels, or `src` holds fewer than
/// `src_width * src_height * 4` bytes, the result is blank.
pub open spec fn scaled(
    src: Seq<u8>,
    src_width: int,
    src_height: int,
    dst_width: int,
    dst_height: int,
) -> Seq<u8> {
    if 0 < src_width && 0 < src_height && 0 < dst_width && 0 < dst_height && src_width
        * src_height * 4 <= src.len() {
        resampled(src, src_width, src_height, src_width * 4, dst_width, dst_height, false)
    } else {
        blank_frame(dst_width, dst_height)
    }
}

/// Scales a tightly packed RGBA image to `dst_width` x `dst_height` by
/// nearest-neighbour sampling. The result always has
/// `dst_width * dst_height * 4` bytes; it is all zero where the source is
/// empty or shorter than its stated size.
pub fn scale_rgba_nearest_neighbor(
    src_data: &[u8],
    src_width: usize,
    src_height: usize,
    dst_width: usize,
    dst_height: usize,
) -> (dst: Vec<u8>)
    requires
        dst_width * dst_height * 4 <= usize::MAX,
    ensures
        dst@ == scaled(
            src_data@,
            src_width as int,
            src_height as int,
            dst_width as int,
            dst_height as int,
        ),
        dst@.len() == dst_width * dst_height * 4,
{
    if dst_width == 0 || dst_height == 0 || src_width == 0 || src_height == 0 {
        return blank(dst_width, dst_height);
    }
    let available: usize = src_data.len();
    let stride = match src_width.checked_mul(4) {
        Some(stride) => stride,
        None => {
            proof {
                assert(src_width * 4 <= src_width * src_height * 4) by (nonlinear_arith)
                    requires
                        0 < src_width,
                        0 < src_height,
                ;
            }
            return blank(dst_width, dst_height);
        },
    };
    proof {
        assert(stride * src_height == src_width * src_height * 4) by (nonlinear_arith)
            requires
                stride == src_width * 4,
        ;
    }
    match stride.checked_mul(src_height) {
        Some(needed) => {
            if available < needed {
                return blank(dst_width, dst_height);
            }
        },
        None => {
            return blank(dst_width, dst_height);
        },
    }
    resample(src_data, src_width, src_height, stride, dst_width, dst_height, false)
}

/// Accepts the one supported native pixel format and refuses every other
/// with a message that names the code delivered.
pub fn validate_pixel_format(format: u32) -> (result: Result<(), String>)
    ensures
        match result {
            Ok(_) => format == PIXEL_FORMAT_32BGRA,
            Err(message) => format != PIXEL_FORMAT_32BGRA && message@
                == CaptureError::UnsupportedPixelFormat(format).message_text(),
        },
{
    if format == PIXEL_FORMAT_32BGRA {
        Ok(())
    } else {
        Err(CaptureError::UnsupportedPixelFormat(format).message())
    }
}

/// A captured buffer as the operating system describes it. Rows are
/// `bytes_per_row` apart, which may be more than `width * 4`. `data` is
/// `None` where the buffer has no base address.
pub struct NativeFrame<'a> {
    pub width: usize,
    pub height: usize,
    pub bytes_per_row: usize,
    pub pixel_format: u32,
    pub data: Option<&'a [u8]>,
}

/// The reason, if any, for which a native buffer is refused before any of
/// its bytes is read: first its format, then a missing base address, then
/// rows too short for their pixels.
pub open spec fn layout_error(
    pixel_format: u32,
    base_is_null: bool,
    width: int,
    bytes_per_row: int,
) -> Option<CaptureError> {
    if pixel_format != PIXEL_FORMAT_32BGRA {
        Some(CaptureError::UnsupportedPixelFormat(pixel_format))
    } else if base_is_null {
        Some(CaptureError::NullBaseAddress)
    } else if bytes_per_row < width * 4 {
        Some(CaptureError::StrideTooSmall)
    } else {
        None
    }
}

/// Decides from a native buffer's description alone whether it can be
/// converted.
pub fn check_layout(pixel_format: u32, base_is_null: bool, width: usize, bytes_per_row: usize) -> (result:
    Result<(), CaptureError>)
    ensures
        match layout_error(pixel_format, base_is_null, width as int, bytes_per_row as int) {
            Some(e) => result == Err::<(), CaptureError>(e),
            None => result is Ok,
        },
{
    if pixel_format != PIXEL_FORMAT_32BGRA {
        return Err(CaptureError::UnsupportedPixelFormat(pixel_format));
    }
    if base_is_null {
        return Err(CaptureError::NullBaseAddress);
    }
    match width.checked_mul(4) {
        Some(row_bytes) => {
            if bytes_per_row < row_bytes {
                return Err(CaptureError::StrideTooSmall);
            }
        },
        None => {
            return Err(CaptureError::StrideTooSmall);
        },
    }
    Ok(())
}

/// Bytes that a native buffer of `height` rows occupies, where that number
/// can be represented.
pub fn source_len(bytes_per_row: usize, height: usize) -> (len: Option<usize>)
    ensures
        len == if bytes_per_row * height <= usize::MAX {
            Some((bytes_per_row * height) as usize)
        } else {
            None
        },
{
    bytes_per_row.checked_mul(height)
}

/// Tells a lock status of zero, which grants read access to a native
/// buffer, from every other.
pub fn check_lock_result(status: i32) -> (result: Result<(), CaptureError>)
    ensures
        result == if status == 0 {
            Ok::<(), CaptureError>(())
        } else {
            Err(CaptureError::BufferLockFailure)
        },
{
    if status == 0 {
        Ok(())
    } else {
        Err(CaptureError::BufferLockFailure)
    }
}

/// The RGBA image that a blue-first native buffer with the given stride
/// converts to. Where either image has no pixels, or `data` holds fewer than
/// `stride * height` bytes, the result is blank.
pub open spec fn converted(
    data: Seq<u8>,
    width: int,
    height: int,
    stride: int,
    target_width: int,
    target_height: int,
) -> Seq<u8> {
    if 0 < width && 0 < height && 0 < target_width && 0 < target_height && stride * height
        <= data.len() {
        resampled(data, width, height, stride, target_width, target_height, true)
    } else {
        blank_frame(target_width, target_height)
    }
}

/// What converting `frame` to `target_width` x `target_height` yields: the
/// error that `layout_error` names, or else the converted image.
pub open spec fn conversion_outcome(
    frame: NativeFrame,
    target_width: int,
    target_height: int,
) -> Result<Seq<u8>, CaptureError> {
    match layout_error(
        frame.pixel_format,
        frame.data is None,
        frame.width as int,
        frame.bytes_per_row as int,
    ) {
        Some(e) => Err(e),
        None => Ok(
            converted(
                frame.data->0@,
                frame.width as int,
                frame.height as int,
                frame.bytes_per_row as int,
                target_width,
                target_height,
            ),
        ),
    }
}

/// Converts a native blue-first buffer into a tightly packed RGBA image of
/// `target_width` x `target_height`, reordering channels and resampling in
/// one pass over the destination.
pub fn convert_frame(frame: &NativeFrame, target_width: usize, target_height: usize) -> (result:
    Result<Vec<u8>, CaptureError>)
    requires
        target_width * target_height * 4 <= usize::MAX,
    ensures
        match result {
            Ok(rgba) => conversion_outcome(*frame, target_width as int, target_height as int)
                == Ok::<Seq<u8>, CaptureError>(rgba@),
            Err(e) => conversion_outcome(*frame, target_width as int, target_height as int)
                == Err::<Seq<u8>, CaptureError>(e),
        },
{
    match check_layout(frame.pixel_format, frame.data.is_none(), frame.width, frame.bytes_per_row) {
        Err(e) => {
            return Err(e);
        },
        Ok(_) => {},
    }
    let data: &[u8] = match frame.data {
        Some(data) => data,
        None => {
            return Err(CaptureError::NullBaseAddress);
        },
    };
    if frame.width == 0 || frame.height == 0 || target_width == 0 || target_height == 0 {
        return Ok(blank(target_width, target_height));
    }
    let available: usize = data.len();
    match source_len(frame.bytes_per_row, frame.height) {
        Some(needed) => {
            if available < needed {
                return Ok(blank(target_width, target_height));
            }
        },
        None => {
            return Ok(blank(target_width, target_height));
        },
    }
    Ok(
        resample(
            data,
            frame.width,
            frame.height,
            frame.bytes_per_row,
            target_width,
            target_height,
            true,
        ),
    )
}

/// Converts a native buffer into the fixed 1920 x 1080 RGBA frame that the
/// renderer uploads. `None` where the buffer is refused.
pub fn convert_sample_buffer_to_rgba(sample_buffer: &NativeFrame) -> (rgba: Option<Vec<u8>>)
    ensures
        match rgba {
            Some(bytes) => conversion_outcome(
                *sample_buffer,
                TARGET_WIDTH as int,
                TARGET_HEIGHT as int,
            ) == Ok::<Seq<u8>, CaptureError>(bytes@) && bytes@.len() == TARGET_FRAME_BYTES,
            None => conversion_outcome(*sample_buffer, TARGET_WIDTH as int, TARGET_HEIGHT as int)
                is Err,
        },
{
    match convert_frame(sample_buffer, TARGET_WIDTH, TARGET_HEIGHT) {
        Ok(bytes) => Some(bytes),
        Err(_) => None,
    }
}

} // verus!
