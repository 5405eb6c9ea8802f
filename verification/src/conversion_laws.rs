//! What holds of channel reordering, scaling and conversion for every
//! input, proved from their definitions.

use vstd::prelude::*;
use crate::pixel_conversion::blank_frame;
use crate::pixel_conversion::converted;
use crate::pixel_conversion::lemma_nearest_source_in_range;
use crate::pixel_conversion::nearest_source;
use crate::pixel_conversion::resampled;
use crate::pixel_conversion::sampled_byte;
use crate::pixel_conversion::scaled;
use crate::pixel_conversion::source_channel;
use crate::pixel_conversion::swizzled;
use vstd::arithmetic::div_mod::lemma_div_multiples_vanish;
use vstd::arithmetic::div_mod::lemma_div_pos_is_pos;
use vstd::arithmetic::div_mod::lemma_fundamental_div_mod;
use vstd::arithmetic::div_mod::lemma_fundamental_div_mod_converse;
use vstd::arithmetic::div_mod::lemma_mod_bound;
use vstd::arithmetic::div_mod::lemma_multiply_divide_lt;
use vstd::arithmetic::mul::lemma_mul_is_commutative;
use vstd::arithmetic::mul::lemma_mul_nonnegative;

verus! {

/// Channel reordering keeps every whole pixel in place, exchanges its first
/// and third channel and leaves its second and fourth as they were.
pub proof fn lemma_swizzle_exchanges_first_and_third(src: Seq<u8>, pixel: int)
    requires
        0 <= pixel < src.len() / 4,
    ensures
        swizzled(src).len() == (src.len() / 4) * 4,
        swizzled(src)[4 * pixel] == src[4 * pixel + 2],
        swizzled(src)[4 * pixel + 1] == src[4 * pixel + 1],
        swizzled(src)[4 * pixel + 2] == src[4 * pixel],
        swizzled(src)[4 * pixel + 3] == src[4 * pixel + 3],
{
}

/// Reordering twice gives back the whole pixels of the input.
pub proof fn lemma_swizzle_twice_restores(src: Seq<u8>)
    ensures
        swizzled(swizzled(src)) == src.subrange(0, ((src.len() / 4) * 4) as int),
{
    let once = swizzled(src);
    let twice = swizzled(once);
    assert(once.len() / 4 == src.len() / 4);
    assert forall|i: int| 0 <= i < twice.len() implies twice[i] == src[i] by {
        let j = i - i % 4 + source_channel(i % 4, true);
        assert(j % 4 == source_channel(i % 4, true));
        assert(j - j % 4 == i - i % 4);
        assert(twice[i] == once[j]);
    }
    assert(twice =~= src.subrange(0, ((src.len() / 4) * 4) as int));
}

/// Pixel number `pixel` of an image `width` wide and `height` high lies in
/// a row and a column of that image.
proof fn lemma_pixel_in_image(pixel: int, width: int, height: int)
    requires
        0 <= pixel < width * height,
        0 < width,
    ensures
        0 <= pixel / width < height,
        0 <= pixel % width < width,
        pixel == (pixel / width) * width + pixel % width,
{
    lemma_div_pos_is_pos(pixel, width);
    lemma_multiply_divide_lt(pixel, width, height);
    lemma_mod_bound(pixel, width);
    lemma_fundamental_div_mod(pixel, width);
    lemma_mul_is_commutative(width, pixel / width);
}

/// Byte `i` of an image of `pixels` pixels belongs to one of its pixels.
proof fn lemma_byte_in_pixel(i: int, pixels: int)
    requires
        0 <= i < pixels * 4,
    ensures
        0 <= i / 4 < pixels,
        0 <= i % 4 < 4,
        i == (i / 4) * 4 + i % 4,
{
}

/// Scaling always yields `dst_width * dst_height * 4` bytes, none at all
/// where either destination extent is zero.
pub proof fn lemma_scaled_len(
    src: Seq<u8>,
    src_width: int,
    src_height: int,
    dst_width: int,
    dst_height: int,
)
    requires
        0 <= dst_width,
        0 <= dst_height,
    ensures
        scaled(src, src_width, src_height, dst_width, dst_height).len() == dst_width * dst_height
            * 4,
        dst_width == 0 || dst_height == 0 ==> scaled(
            src,
            src_width,
            src_height,
            dst_width,
            dst_height,
        ).len() == 0,
{
    lemma_mul_nonnegative(dst_width, dst_height);
    assert(dst_width == 0 || dst_height == 0 ==> dst_width * dst_height == 0)
        by (nonlinear_arith);
}

/// Scaling an image to its own size returns the image.
pub proof fn lemma_scale_identity(src: Seq<u8>, width: int, height: int)
    requires
        0 <= width,
        0 <= height,
        src.len() == width * height * 4,
    ensures
        scaled(src, width, height, width, height) == src,
{
    let out = scaled(src, width, height, width, height);
    lemma_scaled_len(src, width, height, width, height);
    if 0 < width && 0 < height {
        assert forall|i: int| 0 <= i < out.len() implies out[i] == src[i] by {
            lemma_byte_in_pixel(i, width * height);
            let pixel = i / 4;
            lemma_pixel_in_image(pixel, width, height);
            let x = pixel % width;
            let y = pixel / width;
            lemma_div_multiples_vanish(x, width);
            lemma_mul_is_commutative(x, width);
            lemma_nearest_source_in_range(x, width, width);
            lemma_div_multiples_vanish(y, height);
            lemma_mul_is_commutative(y, height);
            lemma_nearest_source_in_range(y, height, height);
            assert(nearest_source(x, width, width) == x);
            assert(nearest_source(y, height, height) == y);
            assert(y * (width * 4) + x * 4 == (y * width + x) * 4) by (nonlinear_arith);
            assert(out[i] == sampled_byte(src, width, height, width * 4, width, height, false, i));
        }
    }
    assert(out =~= src);
}

/// The source pixel that destination pixel `pixel` of a scaled image is a
/// copy of.
pub open spec fn sampled_pixel(
    pixel: int,
    src_width: int,
    src_height: int,
    dst_width: int,
    dst_height: int,
) -> int {
    nearest_source(pixel / dst_width, src_height, dst_height) * src_width + nearest_source(
        pixel % dst_width,
        src_width,
        dst_width,
    )
}

/// Every pixel of a scaled image is a copy, channel for channel, of one
/// pixel of the source, and which one depends on the two sizes alone.
pub proof fn lemma_scaled_pixel_is_source_pixel(
    src: Seq<u8>,
    src_width: int,
    src_height: int,
    dst_width: int,
    dst_height: int,
    pixel: int,
    channel: int,
)
    requires
        0 < src_width,
        0 < src_height,
        0 < dst_width,
        0 < dst_height,
        src_width * src_height * 4 <= src.len(),
        0 <= pixel < dst_width * dst_height,
        0 <= channel < 4,
    ensures
        0 <= sampled_pixel(pixel, src_width, src_height, dst_width, dst_height) < src_width
            * src_height,
        scaled(src, src_width, src_height, dst_width, dst_height)[4 * pixel + channel] == src[4
            * sampled_pixel(pixel, src_width, src_height, dst_width, dst_height) + channel],
{
    lemma_pixel_in_image(pixel, dst_width, dst_height);
    let x = pixel % dst_width;
    let y = pixel / dst_width;
    lemma_nearest_source_in_range(x, src_width, dst_width);
    lemma_nearest_source_in_range(y, src_height, dst_height);
    let column = nearest_source(x, src_width, dst_width);
    let row = nearest_source(y, src_height, dst_height);
    assert(0 <= row * src_width + column < src_width * src_height) by (nonlinear_arith)
        requires
            0 <= row < src_height,
            0 <= column < src_width,
    ;
    assert(row * (src_width * 4) + column * 4 == 4 * (row * src_width + column))
        by (nonlinear_arith);
    let i = 4 * pixel + channel;
    assert(i / 4 == pixel && i % 4 == channel);
    assert(0 <= i < dst_width * dst_height * 4);
    assert(scaled(src, src_width, src_height, dst_width, dst_height)[i] == sampled_byte(
        src,
        src_width,
        src_height,
        src_width * 4,
        dst_width,
        dst_height,
        false,
        i,
    ));
}

/// Scaling a single pixel up fills the destination with that pixel.
pub proof fn lemma_upscale_single_pixel(src: Seq<u8>, dst_width: int, dst_height: int, i: int)
    requires
        4 <= src.len(),
        0 <= i < dst_width * dst_height * 4,
        0 < dst_width,
        0 < dst_height,
    ensures
        scaled(src, 1, 1, dst_width, dst_height).len() == dst_width * dst_height * 4,
        scaled(src, 1, 1, dst_width, dst_height)[i] == src[i % 4],
{
    lemma_byte_in_pixel(i, dst_width * dst_height);
    lemma_scaled_pixel_is_source_pixel(src, 1, 1, dst_width, dst_height, i / 4, i % 4);
}

/// A source shorter than its stated size scales to an image of the right
/// length in which every byte is zero.
pub proof fn lemma_short_source_scales_to_blank(
    src: Seq<u8>,
    src_width: int,
    src_height: int,
    dst_width: int,
    dst_height: int,
)
    requires
        src.len() < src_width * src_height * 4,
        0 <= dst_width,
        0 <= dst_height,
    ensures
        scaled(src, src_width, src_height, dst_width, dst_height).len() == dst_width * dst_height
            * 4,
        forall|i: int|
            0 <= i < dst_width * dst_height * 4 ==> scaled(
                src,
                src_width,
                src_height,
                dst_width,
                dst_height,
            )[i] == 0,
{
    lemma_mul_nonnegative(dst_width, dst_height);
}

/// Converting a native buffer whose rows carry no padding is reordering
/// its channels and then scaling.
pub proof fn lemma_conversion_is_swizzle_then_scale(
    data: Seq<u8>,
    width: int,
    height: int,
    target_width: int,
    target_height: int,
)
    requires
        0 <= width,
        0 <= height,
        0 <= target_width,
        0 <= target_height,
    ensures
        converted(data, width, height, width * 4, target_width, target_height) == scaled(
            swizzled(data),
            width,
            height,
            target_width,
            target_height,
        ),
{
    let direct = converted(data, width, height, width * 4, target_width, target_height);
    let staged = scaled(swizzled(data), width, height, target_width, target_height);
    lemma_mul_nonnegative(target_width, target_height);
    lemma_mul_nonnegative(width, height);
    assert(width * 4 * height == width * height * 4) by (nonlinear_arith);
    assert(swizzled(data).len() == (data.len() / 4) * 4);
    assert((width * height * 4 <= data.len()) == (width * height * 4 <= swizzled(data).len()));
    if 0 < width && 0 < height && 0 < target_width && 0 < target_height && width * height * 4
        <= data.len() {
        assert forall|i: int| 0 <= i < direct.len() implies direct[i] == staged[i] by {
            lemma_byte_in_pixel(i, target_width * target_height);
            let pixel = i / 4;
            lemma_pixel_in_image(pixel, target_width, target_height);
            let column = nearest_source(pixel % target_width, width, target_width);
            let row = nearest_source(pixel / target_width, height, target_height);
            lemma_nearest_source_in_range(pixel % target_width, width, target_width);
            lemma_nearest_source_in_range(pixel / target_width, height, target_height);
            assert(0 <= row * width + column < width * height) by (nonlinear_arith)
                requires
                    0 <= row < height,
                    0 <= column < width,
            ;
            assert(row * (width * 4) + column * 4 == 4 * (row * width + column))
                by (nonlinear_arith);
            let k = row * (width * 4) + column * 4 + (i % 4);
            assert(k - k % 4 == 4 * (row * width + column));
            assert(k % 4 == i % 4);
            assert(0 <= k < swizzled(data).len());
            assert(staged[i] == swizzled(data)[k]);
            assert(direct[i] == sampled_byte(
                data,
                width,
                height,
                width * 4,
                target_width,
                target_height,
                true,
                i,
            ));
        }
        assert(direct =~= staged);
    } else {
        assert(direct =~= staged);
    }
}

/// The pixels of an image whose rows lie `stride` bytes apart, row after
/// row with the padding between them left out.
pub open spec fn packed_rows(data: Seq<u8>, width: int, height: int, stride: int) -> Seq<u8> {
    Seq::new(
        (width * height * 4) as nat,
        |i: int| data[(i / (width * 4)) * stride + i % (width * 4)],
    )
}

/// Conversion reads pixels through the stride and never the padding: a
/// padded buffer converts to what its pixels alone convert to.
pub proof fn lemma_conversion_ignores_row_padding(
    data: Seq<u8>,
    width: int,
    height: int,
    stride: int,
    target_width: int,
    target_height: int,
)
    requires
        0 <= width,
        0 <= height,
        width * 4 <= stride,
        stride * height <= data.len(),
        0 <= target_width,
        0 <= target_height,
    ensures
        converted(data, width, height, stride, target_width, target_height) == converted(
            packed_rows(data, width, height, stride),
            width,
            height,
            width * 4,
            target_width,
            target_height,
        ),
{
    let packed = packed_rows(data, width, height, stride);
    let padded_result = converted(data, width, height, stride, target_width, target_height);
    let packed_result = converted(packed, width, height, width * 4, target_width, target_height);
    lemma_mul_nonnegative(target_width, target_height);
    lemma_mul_nonnegative(width, height);
    assert(width * 4 * height == width * height * 4) by (nonlinear_arith);
    if 0 < width && 0 < height && 0 < target_width && 0 < target_height {
        assert forall|i: int| 0 <= i < padded_result.len() implies padded_result[i]
            == packed_result[i] by {
            lemma_byte_in_pixel(i, target_width * target_height);
            let pixel = i / 4;
            lemma_pixel_in_image(pixel, target_width, target_height);
            let column = nearest_source(pixel % target_width, width, target_width);
            let row = nearest_source(pixel / target_width, height, target_height);
            lemma_nearest_source_in_range(pixel % target_width, width, target_width);
            lemma_nearest_source_in_range(pixel / target_width, height, target_height);
            let within = column * 4 + source_channel(i % 4, true);
            let k = row * (width * 4) + within;
            assert(0 <= within < width * 4);
            lemma_fundamental_div_mod_converse(k, width * 4, row, within);
            assert(0 <= k < width * height * 4) by (nonlinear_arith)
                requires
                    0 <= row < height,
                    0 <= within < width * 4,
                    k == row * (width * 4) + within,
            ;
            assert(packed[k] == data[row * stride + within]);
            assert(padded_result[i] == sampled_byte(
                data,
                width,
                height,
                stride,
                target_width,
                target_height,
                true,
                i,
            ));
            assert(packed_result[i] == sampled_byte(
                packed,
                width,
                height,
                width * 4,
                target_width,
                target_height,
                true,
                i,
            ));
        }
    }
    assert(padded_result =~= packed_result);
}

} // verus!
