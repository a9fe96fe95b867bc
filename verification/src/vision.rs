//! The geometry of image preprocessing: to what size an image is brought,
//! what is cut out of it, and how many patch tokens it contributes.

use candle_core::{DType, Device, Tensor};
use image::DynamicImage;
use vstd::prelude::*;
use crate::backend::{
    broadcast_shape,
    castable,
    decoded_image,
    device_of,
    dtype_of,
    is_float,
    on_cpu,
    stretches,
    image_bytes,
    image_crop,
    image_extent,
    image_decode,
    image_height,
    image_resize,
    image_to_rgb,
    image_width,
    tensor_dims,
    tensor_shape,
    values_tensor,
};
use crate::error::{EngineError, InputError};
use crate::tensor_ops::{
    lemma_small_counts,
    lemma_three_counts,
    broadcast_add,
    broadcast_div,
    cast,
    cast_like,
    cat,
    divided,
    neg,
    permute,
    reshape,
    scaled,
    settled,
    shape_fault,
    to_floats,
    unsqueezed,
    values_like,
};

verus! {

/// How the pixels of a resized image are computed from the pixels around
/// them.
#[derive(Debug, Clone, Copy, PartialEq, Eq, Structural)]
pub enum ResizeFilter {
    Lanczos3,
    CatmullRom,
}

/// The most pixels of an image that is resized.
pub const LARGEST_IMAGE: u64 = 67_108_864;

/// Why an image cannot be brought to size.
#[derive(Debug, Clone, Copy, PartialEq, Eq, Structural)]
pub enum GeometryError {
    /// The image has no pixels.
    EmptyImage,
    /// The size to round to is zero.
    ZeroFactor,
    /// A side of the result does not fit 32 bits.
    TooLarge,
}

/// `r` is the square root of `n`, rounded down.
pub open spec fn is_int_sqrt(r: nat, n: nat) -> bool {
    r * r <= n < (r + 1) * (r + 1)
}

/// The square root of `n`, rounded down.
pub open spec fn int_sqrt(n: nat) -> nat {
    choose|r: nat| is_int_sqrt(r, n)
}

/// Only one number is the rounded-down square root of `n`.
pub proof fn lemma_int_sqrt_unique(r: nat, n: nat)
    requires
        is_int_sqrt(r, n),
    ensures
        int_sqrt(n) == r,
{
    let s = int_sqrt(n);
    assert(is_int_sqrt(s, n));
    if s < r {
        assert((s + 1) * (s + 1) <= r * r) by (nonlinear_arith)
            requires
                s + 1 <= r,
        ;
    }
    if r < s {
        assert((r + 1) * (r + 1) <= s * s) by (nonlinear_arith)
            requires
                r + 1 <= s,
        ;
    }
}

/// The square root of `n`, rounded down.
pub fn isqrt(n: u64) -> (r: u64)
    ensures
        r == int_sqrt(n as nat),
        is_int_sqrt(r as nat, n as nat),
        r <= u32::MAX,
{
    let mut low: u64 = 0;
    let mut high: u64 = 0x1_0000_0000;
    assert(0x1_0000_0000 * 0x1_0000_0000 > n) by (nonlinear_arith)
        requires
            n <= 0xFFFF_FFFF_FFFF_FFFF,
    ;
    while high - low > 1
        invariant
            low < high <= 0x1_0000_0000,
            low * low <= n < high * high,
        decreases high - low,
    {
        let mid = low + (high - low) / 2;
        assert(mid * mid <= 0xFFFF_FFFF * 0xFFFF_FFFF) by (nonlinear_arith)
            requires
                mid <= 0xFFFF_FFFF,
        ;
        if mid * mid <= n {
            low = mid;
        } else {
            high = mid;
        }
    }
    proof {
        lemma_int_sqrt_unique(low as nat, n as nat);
    }
    low
}

/// A side of an image after its area was brought to `area` pixels with the
/// proportions kept: the side times the square root of `area` over the old
/// area, rounded down.
pub open spec fn scaled_side(side: nat, other: nat, area: nat) -> nat {
    int_sqrt(side * area / other)
}

/// The multiple of `factor` nearest to `side`, the larger of two that are
/// equally near, and never less than `factor` itself.
pub open spec fn nearest_multiple(side: nat, factor: nat) -> nat {
    let multiple = (2 * side + factor) / (2 * factor) * factor;
    if multiple < factor {
        factor
    } else {
        multiple
    }
}

/// A side of an image of `side` by `other` pixels after the resize: scaled
/// up where the image has fewer than `min_pixels`, scaled down where it has
/// more than `max_pixels`, and then rounded to a multiple of `factor`.
pub open spec fn resized_side(
    side: nat,
    other: nat,
    factor: nat,
    min_pixels: nat,
    max_pixels: nat,
) -> nat {
    let pixels = side * other;
    let grown = if pixels < min_pixels {
        scaled_side(side, other, min_pixels)
    } else {
        side
    };
    let shrunk = if pixels > max_pixels {
        scaled_side(grown, other, max_pixels)
    } else {
        grown
    };
    nearest_multiple(shrunk, factor)
}

fn scale_side(side: u32, other: u32, area: u32) -> (r: u64)
    requires
        other > 0,
    ensures
        r == scaled_side(side as nat, other as nat, area as nat),
        r <= u32::MAX,
{
    assert(side as nat * area as nat <= 0xFFFF_FFFF * 0xFFFF_FFFF) by (nonlinear_arith)
        requires
            side <= 0xFFFF_FFFF,
            area <= 0xFFFF_FFFF,
    ;
    isqrt((side as u64) * (area as u64) / (other as u64))
}

fn round_side(side: u64, factor: u32) -> (r: u64)
    requires
        factor > 0,
        side <= u32::MAX,
    ensures
        r == nearest_multiple(side as nat, factor as nat),
        r % (factor as u64) == 0,
        r >= factor,
{
    let f = factor as u64;
    let count = (2 * side + f) / (2 * f);
    assert(count * f * 2 <= 2 * side + f && count * f >= 0) by (nonlinear_arith)
        requires
            count == (2 * side + f) as int / (2 * f) as int,
            f > 0,
            side >= 0,
    ;
    let multiple = count * f;
    assert(multiple as int % f as int == 0) by (nonlinear_arith)
        requires
            multiple == count * f,
            f > 0,
    ;
    assert(f as int % f as int == 0) by (nonlinear_arith)
        requires
            f > 0,
    ;
    if multiple < f {
        f
    } else {
        multiple
    }
}

/// The size to which an image of `h` by `w` pixels is brought before it is
/// cut into patches: its area is brought into the range from `min_pixels` to
/// `max_pixels`, with the proportions kept, and each side is then rounded to
/// the nearest multiple of `factor`. An image without pixels, a factor of
/// zero and a result beyond 32 bits are refused.
pub fn img_smart_resize(h: u32, w: u32, factor: u32, min_pixels: u32, max_pixels: u32) -> (r:
    Result<(u32, u32), GeometryError>)
    ensures
        factor == 0 ==> r == Err::<(u32, u32), GeometryError>(GeometryError::ZeroFactor),
        factor > 0 && (h == 0 || w == 0) ==> r == Err::<(u32, u32), GeometryError>(
            GeometryError::EmptyImage,
        ),
        factor > 0 && h > 0 && w > 0 ==> {
            let rh = resized_side(
                h as nat,
                w as nat,
                factor as nat,
                min_pixels as nat,
                max_pixels as nat,
            );
            let rw = resized_side(
                w as nat,
                h as nat,
                factor as nat,
                min_pixels as nat,
                max_pixels as nat,
            );
            if rh <= u32::MAX && rw <= u32::MAX {
                r == Ok::<(u32, u32), GeometryError>((rh as u32, rw as u32))
            } else {
                r == Err::<(u32, u32), GeometryError>(GeometryError::TooLarge)
            }
        },
        r matches Ok(size) ==> size.0 % factor == 0 && size.1 % factor == 0 && size.0 >= factor
            && size.1 >= factor,
{
    if factor == 0 {
        return Err(GeometryError::ZeroFactor);
    }
    if h == 0 || w == 0 {
        return Err(GeometryError::EmptyImage);
    }
    assert(h as nat * w as nat <= 0xFFFF_FFFF * 0xFFFF_FFFF) by (nonlinear_arith)
        requires
            h <= 0xFFFF_FFFF,
            w <= 0xFFFF_FFFF,
    ;
    let pixels: u64 = (h as u64) * (w as u64);
    let mut rh: u64 = h as u64;
    let mut rw: u64 = w as u64;
    if pixels < min_pixels as u64 {
        rh = scale_side(h, w, min_pixels);
        rw = scale_side(w, h, min_pixels);
    }
    if pixels > max_pixels as u64 {
        rh = scale_side(rh as u32, w, max_pixels);
        rw = scale_side(rw as u32, h, max_pixels);
    }
    let rh = round_side(rh, factor);
    let rw = round_side(rw, factor);
    if rh > u32::MAX as u64 || rw > u32::MAX as u64 {
        return Err(GeometryError::TooLarge);
    }
    Ok((rh as u32, rw as u32))
}

/// The number of patch tokens that one image contributes, by axis.
#[derive(Debug, Clone, Copy, PartialEq, Eq, Structural)]
pub struct VisionGridTHW {
    /// Number of frames.
    pub temporal: u32,
    /// Number of merged patches from top to bottom.
    pub height: u32,
    /// Number of merged patches from left to right.
    pub width: u32,
}

/// An image brought to size, and the grid of patch tokens it gives.
#[derive(Debug, Clone, Copy, PartialEq, Eq, Structural)]
pub struct ImageLayout {
    pub resized_height: u32,
    pub resized_width: u32,
    pub grid: VisionGridTHW,
}

/// The fewest pixels to which an image is scaled up.
pub const MIN_PIXELS: u32 = 28;

/// The most pixels to which an image is scaled down.
pub const MAX_PIXELS: u32 = 1_048_576;

/// The size to which a still image of `h` by `w` pixels is brought for a
/// vision tower with the given patch size and spatial merge size, and its
/// grid: one frame, and along each side one token for every merged patch.
/// Each side of the result is a whole number of merged patches, so that the
/// number of patches along it is a multiple of the merge size.
pub fn image_layout(h: u32, w: u32, patch_size: u32, spatial_merge_size: u32) -> (r: Result<
    ImageLayout,
    GeometryError,
>)
    ensures
        patch_size * spatial_merge_size == 0 ==> r == Err::<ImageLayout, GeometryError>(
            GeometryError::ZeroFactor,
        ),
        patch_size * spatial_merge_size > u32::MAX ==> r == Err::<ImageLayout, GeometryError>(
            GeometryError::TooLarge,
        ),
        0 < patch_size * spatial_merge_size <= u32::MAX ==> match resized_for(
            h,
            w,
            (patch_size * spatial_merge_size) as u32,
        ) {
            Ok(size) => r is Ok && r.unwrap().resized_height == size.0 && r.unwrap().resized_width
                == size.1,
            Err(e) => r == Err::<ImageLayout, GeometryError>(e),
        },
        r matches Ok(layout) ==> {
            &&& layout.grid.temporal == 1
            &&& layout.grid.height * patch_size * spatial_merge_size == layout.resized_height
            &&& layout.grid.width * patch_size * spatial_merge_size == layout.resized_width
            &&& layout.grid.height >= 1
            &&& layout.grid.width >= 1
            &&& layout.resized_height >= 1
            &&& layout.resized_width >= 1
        },
        r == layout_of(h, w, patch_size, spatial_merge_size),
{
    assert(patch_size as nat * spatial_merge_size as nat <= 0xFFFF_FFFF * 0xFFFF_FFFF)
        by (nonlinear_arith)
        requires
            patch_size <= 0xFFFF_FFFF,
            spatial_merge_size <= 0xFFFF_FFFF,
    ;
    let factor: u64 = (patch_size as u64) * (spatial_merge_size as u64);
    if factor == 0 {
        return Err(GeometryError::ZeroFactor);
    }
    if factor > u32::MAX as u64 {
        return Err(GeometryError::TooLarge);
    }
    let factor = factor as u32;
    let (rh, rw) = match img_smart_resize(h, w, factor, MIN_PIXELS, MAX_PIXELS) {
        Ok(size) => size,
        Err(e) => {
            return Err(e);
        },
    };
    let grid = VisionGridTHW { temporal: 1, height: rh / factor, width: rw / factor };
    assert(grid.height * factor == rh && grid.height >= 1) by (nonlinear_arith)
        requires
            grid.height == rh / factor,
            rh % factor == 0,
            rh >= factor,
            factor > 0,
    ;
    assert(grid.width * factor == rw && grid.width >= 1) by (nonlinear_arith)
        requires
            grid.width == rw / factor,
            rw % factor == 0,
            rw >= factor,
            factor > 0,
    ;
    assert(grid.height * patch_size * spatial_merge_size == grid.height * (patch_size
        * spatial_merge_size)) by (nonlinear_arith);
    assert(grid.width * patch_size * spatial_merge_size == grid.width * (patch_size
        * spatial_merge_size)) by (nonlinear_arith);
    Ok(ImageLayout { resized_height: rh, resized_width: rw, grid })
}

/// The layout of a still image of `h` by `w` pixels for a vision tower with
/// the given patch size and spatial merge size: the size that the resize
/// gives for the product of the two as the factor, and a grid of one frame
/// with as many tokens along each side as the factor goes into it.
pub open spec fn layout_of(h: u32, w: u32, patch_size: u32, spatial_merge_size: u32) -> Result<
    ImageLayout,
    GeometryError,
> {
    let factor = patch_size as nat * spatial_merge_size as nat;
    if factor == 0 {
        Err(GeometryError::ZeroFactor)
    } else if factor > u32::MAX {
        Err(GeometryError::TooLarge)
    } else {
        match resized_for(h, w, factor as u32) {
            Ok(size) => Ok(
                ImageLayout {
                    resized_height: size.0,
                    resized_width: size.1,
                    grid: VisionGridTHW {
                        temporal: 1,
                        height: (size.0 as nat / factor) as u32,
                        width: (size.1 as nat / factor) as u32,
                    },
                },
            ),
            Err(e) => Err(e),
        }
    }
}

/// What `img_smart_resize` gives for a still image and a factor that is not
/// zero, with the limits on the number of pixels that `image_layout` uses.
pub open spec fn resized_for(h: u32, w: u32, factor: u32) -> Result<
    (u32, u32),
    GeometryError,
> {
    if h == 0 || w == 0 {
        Err(GeometryError::EmptyImage)
    } else {
        let rh = resized_side(
            h as nat,
            w as nat,
            factor as nat,
            MIN_PIXELS as nat,
            MAX_PIXELS as nat,
        );
        let rw = resized_side(
            w as nat,
            h as nat,
            factor as nat,
            MIN_PIXELS as nat,
            MAX_PIXELS as nat,
        );
        if rh <= u32::MAX && rw <= u32::MAX {
            Ok((rh as u32, rw as u32))
        } else {
            Err(GeometryError::TooLarge)
        }
    }
}

/// How an image is normalised: the side of the square it is cut to, and the
/// mean and the standard deviation of each colour channel, in millionths.
#[derive(Debug, Clone, Copy, PartialEq, Eq)]
pub struct ImagePreprocessConfig {
    pub image_size: usize,
    pub mean: [u32; 3],
    pub std: [u32; 3],
}

impl Default for ImagePreprocessConfig {
    /// Squares of 448 pixels, with the channel statistics of ImageNet.
    fn default() -> (config: ImagePreprocessConfig)
        ensures
            config.image_size == 448,
            config.mean@ == seq![485_000u32, 456_000u32, 406_000u32],
            config.std@ == seq![229_000u32, 224_000u32, 225_000u32],
    {
        ImagePreprocessConfig {
            image_size: 448,
            mean: [485_000, 456_000, 406_000],
            std: [229_000, 224_000, 225_000],
        }
    }
}

/// How an image is brought to a square: the size it is resized to, and the
/// corner and the side of the square that is cut out of the result.
#[derive(Debug, Clone, Copy, PartialEq, Eq, Structural)]
pub struct CropPlan {
    pub resized_width: u32,
    pub resized_height: u32,
    pub left: u32,
    pub top: u32,
    pub side: u32,
}

/// The plan for an image of `width` by `height` pixels and a square of
/// `target` pixels: the image is resized so that its shorter side is
/// `target`, the longer in proportion and rounded down, and the square is
/// cut from the middle.
pub open spec fn crop_plan_for(width: u32, height: u32, target: u32) -> CropPlan {
    let shorter = if width <= height {
        width
    } else {
        height
    };
    let resized_width = (width as nat * target as nat / shorter as nat) as u32;
    let resized_height = (height as nat * target as nat / shorter as nat) as u32;
    CropPlan {
        resized_width,
        resized_height,
        left: ((resized_width - target) / 2) as u32,
        top: ((resized_height - target) / 2) as u32,
        side: target,
    }
}

/// Prepares images for a model that takes squares of a fixed size.
#[derive(Debug, Clone, Copy, PartialEq, Eq)]
pub struct ImagePreprocessor {
    config: ImagePreprocessConfig,
}

impl ImagePreprocessor {
    pub closed spec fn spec_config(&self) -> ImagePreprocessConfig {
        self.config
    }

    pub fn new(config: ImagePreprocessConfig) -> (r: ImagePreprocessor)
        ensures
            r.spec_config() == config,
    {
        ImagePreprocessor { config }
    }

    /// A preprocessor with the default configuration.
    pub fn default() -> (r: ImagePreprocessor)
        ensures
            r.spec_config().image_size == 448,
    {
        ImagePreprocessor { config: ImagePreprocessConfig::default() }
    }

    pub fn config(&self) -> (r: &ImagePreprocessConfig)
        ensures
            *r == self.spec_config(),
    {
        &self.config
    }

    /// How an image of `width` by `height` pixels is resized and cut to the
    /// square that the model takes. An image without pixels is refused, and
    /// so is a resized side beyond 32 bits.
    pub fn resize_and_center_crop(&self, width: u32, height: u32) -> (r: Result<
        CropPlan,
        GeometryError,
    >)
        ensures
            width == 0 || height == 0 ==> r == Err::<CropPlan, GeometryError>(
                GeometryError::EmptyImage,
            ),
            width > 0 && height > 0 ==> {
                let target = self.spec_config().image_size;
                let longer = if width <= height {
                    height
                } else {
                    width
                };
                let shorter = if width <= height {
                    width
                } else {
                    height
                };
                if target <= u32::MAX && longer as nat * target as nat / shorter as nat
                    <= u32::MAX {
                    r == Ok::<CropPlan, GeometryError>(
                        crop_plan_for(width, height, target as u32),
                    )
                } else {
                    r == Err::<CropPlan, GeometryError>(GeometryError::TooLarge)
                }
            },
            r matches Ok(plan) ==> plan.left + plan.side <= plan.resized_width && plan.top
                + plan.side <= plan.resized_height,
    {
        if width == 0 || height == 0 {
            return Err(GeometryError::EmptyImage);
        }
        if self.config.image_size > u32::MAX as usize {
            return Err(GeometryError::TooLarge);
        }
        let target = self.config.image_size as u64;
        let shorter = if width <= height {
            width as u64
        } else {
            height as u64
        };
        let longer = if width <= height {
            height as u64
        } else {
            width as u64
        };
        assert(longer * target <= 0xFFFF_FFFF * 0xFFFF_FFFF) by (nonlinear_arith)
            requires
                longer <= 0xFFFF_FFFF,
                target <= 0xFFFF_FFFF,
        ;
        assert(shorter * target <= longer * target) by (nonlinear_arith)
            requires
                shorter <= longer,
                0 <= target,
        ;
        assert((shorter * target) as int / shorter as int == target) by (nonlinear_arith)
            requires
                shorter > 0,
                target >= 0,
        ;
        let long_side = longer * target / shorter;
        assert(long_side >= target) by (nonlinear_arith)
            requires
                long_side == (longer * target) as int / shorter as int,
                shorter * target <= longer * target,
                shorter > 0,
        ;
        if long_side > u32::MAX as u64 {
            return Err(GeometryError::TooLarge);
        }
        let side = target as u32;
        let (resized_width, resized_height) = if width <= height {
            (side, long_side as u32)
        } else {
            (long_side as u32, side)
        };
        Ok(
            CropPlan {
                resized_width,
                resized_height,
                left: (resized_width - side) / 2,
                top: (resized_height - side) / 2,
                side,
            },
        )
    }
}

/// A geometry that cannot be had, as a failure of the request.
pub fn image_fault(e: GeometryError) -> (r: EngineError)
    ensures
        r == EngineError::Input(InputError::Image(e)),
{
    EngineError::Input(InputError::Image(e))
}

/// The bytes as numbers.
pub fn widen(bytes: &Vec<u8>) -> (r: Vec<u32>)
    ensures
        r.len() == bytes.len(),
        forall|i: int| 0 <= i < bytes.len() ==> r[i] == bytes[i],
{
    let mut values: Vec<u32> = Vec::new();
    let mut i: usize = 0;
    while i < bytes.len()
        invariant
            i <= bytes.len(),
            values.len() == i,
            forall|j: int| 0 <= j < i ==> values[j] == bytes[j],
        decreases bytes.len() - i,
    {
        values.push(bytes[i] as u32);
        i = i + 1;
    }
    values
}

/// An image resized to exactly the given size. A size without pixels is
/// refused, and so is one with more pixels than the largest image, on the
/// way or in the end: the image is first brought to the new height.
pub fn resized(image: &DynamicImage, width: u32, height: u32, filter: ResizeFilter) -> (r: Result<
    DynamicImage,
    EngineError,
>)
    ensures
        width == 0 || height == 0 ==> r == Err::<DynamicImage, EngineError>(
            EngineError::Input(InputError::Image(GeometryError::EmptyImage)),
        ),
        width > 0 && height > 0 && (width as nat * height as nat > LARGEST_IMAGE
            || image_extent(*image).0 as nat * height as nat > LARGEST_IMAGE) ==> r == Err::<
            DynamicImage,
            EngineError,
        >(EngineError::Input(InputError::Image(GeometryError::TooLarge))),
        width > 0 && height > 0 && width as nat * height as nat <= LARGEST_IMAGE
            && image_extent(*image).0 as nat * height as nat <= LARGEST_IMAGE ==> r is Ok,
        r matches Ok(whole) ==> image_extent(whole) == (width, height),
        r matches Err(e) ==> e.is_image_fault(),
{
    let before = image_width(image);
    assert(width as nat * height as nat <= 0xFFFF_FFFF * 0xFFFF_FFFF) by (nonlinear_arith)
        requires
            width <= 0xFFFF_FFFF,
            height <= 0xFFFF_FFFF,
    ;
    assert(before as nat * height as nat <= 0xFFFF_FFFF * 0xFFFF_FFFF) by (nonlinear_arith)
        requires
            before <= 0xFFFF_FFFF,
            height <= 0xFFFF_FFFF,
    ;
    if width == 0 || height == 0 {
        return Err(image_fault(GeometryError::EmptyImage));
    }
    if (width as u64) * (height as u64) > LARGEST_IMAGE || (before as u64) * (height as u64)
        > LARGEST_IMAGE {
        return Err(image_fault(GeometryError::TooLarge));
    }
    Ok(image_resize(image, width, height, filter))
}

/// The colours of an image as a tensor of rows by columns by the three
/// channels, each colour as a float between 0 and 255.
pub fn colour_tensor(image: &DynamicImage, device: &Device) -> (r: Result<Tensor, EngineError>)
    ensures
        r matches Ok(t) ==> tensor_shape(t) == seq![
            image_extent(*image).1 as usize,
            image_extent(*image).0 as usize,
            3usize,
        ] && is_float(dtype_of(t)) && device_of(t) == *device,
        on_cpu(*device) && 3 * image_extent(*image).0 * image_extent(*image).1 <= usize::MAX
            ==> r is Ok,
        r matches Err(e) ==> e.is_backend_fault(),
{
    let rgb = image_to_rgb(image);
    let width = image_width(&rgb) as usize;
    let height = image_height(&rgb) as usize;
    let values = widen(&image_bytes(&rgb));
    let flat = settled(values_tensor(&values, device))?;
    let mut dims: Vec<usize> = Vec::new();
    dims.push(height);
    dims.push(width);
    dims.push(3);
    assert(dims@ =~= seq![height, width, 3usize]);
    proof {
        lemma_three_counts(height, width, 3);
        lemma_small_counts(values.len(), 1);
        assert(tensor_shape(flat) =~= seq![values.len()]);
        if 3 * width * height <= usize::MAX {
            assert(height * width <= 3 * width * height && height * width * 3 == 3 * width
                * height) by (nonlinear_arith)
                requires
                    width >= 0,
                    height >= 0,
            ;
        }
    }
    let whole = reshape(&flat, &dims)?;
    to_floats(&whole)
}

/// Three numbers as one value for each channel of an image that is laid out
/// by channel, row and column, in the type and on the device of `like`.
pub fn channel_values(values: &[u32; 3], like: &Tensor) -> (r: Result<Tensor, EngineError>)
    ensures
        r matches Ok(t) ==> tensor_shape(t) == seq![3usize, 1usize, 1usize] && dtype_of(t)
            == dtype_of(*like) && device_of(t) == device_of(*like),
        on_cpu(device_of(*like)) && castable(dtype_of(*like)) ==> r is Ok,
        r matches Err(e) ==> e.is_backend_fault(),
{
    let mut list: Vec<u32> = Vec::new();
    list.push(values[0]);
    list.push(values[1]);
    list.push(values[2]);
    let whole = values_like(&list, like)?;
    let floats = cast_like(&whole, like)?;
    let mut dims: Vec<usize> = Vec::new();
    dims.push(3);
    dims.push(1);
    dims.push(1);
    proof {
        assert(dims@ =~= seq![3usize, 1usize, 1usize]);
        assert(tensor_shape(floats) =~= seq![3usize]);
        lemma_three_counts(3, 1, 1);
        lemma_small_counts(3, 1);
    }
    reshape(&floats, &dims)
}

/// The colours of an image, normalised: every colour is brought to the
/// range from 0 to 1, the mean of its channel is taken off, and the rest is
/// divided by the standard deviation of its channel. `colours` holds the
/// image by row, column and channel; the result holds it by channel, row and
/// column. `mean` and `std` are in parts of `unit`.
pub fn normalize_image(colours: &Tensor, mean: &[u32; 3], std: &[u32; 3], unit: u32) -> (r: Result<
    Tensor,
    EngineError,
>)
    ensures
        r matches Ok(t) ==> tensor_shape(*colours).len() == 3 && tensor_shape(*colours)[2] == 3
            && tensor_shape(t) == seq![
            3usize,
            tensor_shape(*colours)[0],
            tensor_shape(*colours)[1],
        ],
        tensor_shape(*colours).len() == 3 && tensor_shape(*colours)[2] == 3 && is_float(
            dtype_of(*colours),
        ) && on_cpu(device_of(*colours)) ==> r is Ok,
        r matches Err(e) ==> e.is_backend_fault(),
{
    let dims = tensor_dims(colours);
    if dims.len() != 3 || dims[2] != 3 {
        return Err(shape_fault());
    }
    let mut order: Vec<usize> = Vec::new();
    order.push(2);
    order.push(0);
    order.push(1);
    proof {
        assert forall|d: usize| d < 3 implies #[trigger] order@.contains(d) by {
            if d == 0 {
                assert(order@[1] == d);
            } else if d == 1 {
                assert(order@[2] == d);
            } else {
                assert(order@[0] == d);
            }
        }
    }
    let by_channel = permute(colours, &order)?;
    assert(tensor_shape(by_channel) =~= seq![3usize, dims[0], dims[1]]);
    let raised = scaled(&by_channel, unit)?;
    let parts = divided(&raised, 255)?;
    let means = channel_values(mean, &parts)?;
    let stds = channel_values(std, &parts)?;
    let shift = neg(&means)?;
    assert(stretches(tensor_shape(parts), tensor_shape(shift)));
    let centred = broadcast_add(&parts, &shift)?;
    assert(tensor_shape(centred) =~= seq![3usize, dims[0], dims[1]]);
    assert(stretches(tensor_shape(centred), tensor_shape(stds)));
    let normal = broadcast_div(&centred, &stds)?;
    assert(tensor_shape(normal) =~= seq![3usize, dims[0], dims[1]]);
    Ok(normal)
}

/// The colours of an image, normalised by the given means and standard
/// deviations, which hold one value for each channel: by channel, row and
/// column, in the type `dtype`.
pub fn img_transform(
    img: &DynamicImage,
    mean: &Tensor,
    std: &Tensor,
    device: &Device,
    dtype: DType,
) -> (r: Result<Tensor, EngineError>)
    ensures
        r matches Ok(t) ==> tensor_shape(t).len() == 3 && dtype_of(t) == dtype && device_of(t)
            == *device && (tensor_shape(*mean) == seq![3usize, 1usize, 1usize] && tensor_shape(*std) == seq![
            3usize,
            1usize,
            1usize,
        ] ==> tensor_shape(t) == seq![
            3usize,
            image_extent(*img).1 as usize,
            image_extent(*img).0 as usize,
        ]),
        on_cpu(*device) && on_cpu(device_of(*mean)) && on_cpu(device_of(*std)) && is_float(
            dtype_of(*mean),
        ) && dtype_of(*std) == dtype_of(*mean) && castable(dtype) && tensor_shape(*mean) == seq![
            3usize,
            1usize,
            1usize,
        ] && tensor_shape(*std) == seq![3usize, 1usize, 1usize] && 3 * image_extent(*img).0
            * image_extent(*img).1 <= usize::MAX ==> r is Ok,
        r matches Err(e) ==> e.is_backend_fault(),
{
    let colours = colour_tensor(img, device)?;
    let colours = cast_like(&colours, mean)?;
    let mut order: Vec<usize> = Vec::new();
    order.push(2);
    order.push(0);
    order.push(1);
    proof {
        assert(order@[1] == 0 && order@[2] == 1 && order@[0] == 2);
        assert forall|d: usize| d < 3 implies #[trigger] order@.contains(d) by {
            if d == 0 {
                assert(order@[1] == d);
            } else if d == 1 {
                assert(order@[2] == d);
            } else {
                assert(order@[0] == d);
            }
        }
    }
    let by_channel = permute(&colours, &order)?;
    let ghost height = image_extent(*img).1 as usize;
    let ghost width = image_extent(*img).0 as usize;
    assert(tensor_shape(by_channel) =~= seq![3usize, height, width]);
    let parts = divided(&by_channel, 255)?;
    let shift = neg(mean)?;
    proof {
        if tensor_shape(*mean) == seq![3usize, 1usize, 1usize] {
            assert(stretches(tensor_shape(parts), tensor_shape(shift)));
            assert(broadcast_shape(tensor_shape(parts), tensor_shape(shift)) =~= seq![
                3usize,
                height,
                width,
            ]);
        }
    }
    let centred = broadcast_add(&parts, &shift)?;
    proof {
        if tensor_shape(*mean) == seq![3usize, 1usize, 1usize] && tensor_shape(*std) == seq![
            3usize,
            1usize,
            1usize,
        ] {
            assert(stretches(tensor_shape(centred), tensor_shape(*std)));
            assert(broadcast_shape(tensor_shape(centred), tensor_shape(*std)) =~= seq![
                3usize,
                height,
                width,
            ]);
        }
    }
    let normal = broadcast_div(&centred, std)?;
    if tensor_dims(&normal).len() != 3 {
        return Err(shape_fault());
    }
    cast(&normal, dtype)
}

impl ImagePreprocessor {
    /// An image prepared for the model: brought to the square of the model,
    /// with the colours normalised; one batch of channels by rows by columns.
    pub fn preprocess(&self, image: &DynamicImage, device: &Device) -> (r: Result<
        Tensor,
        EngineError,
    >)
        ensures
            r matches Ok(t) ==> tensor_shape(t) == seq![
                1usize,
                3usize,
                self.spec_config().image_size,
                self.spec_config().image_size,
            ],
            r matches Err(e) ==> e.is_image_fault(),
    {
        let rgb = image_to_rgb(image);
        let plan = match self.resize_and_center_crop(image_width(&rgb), image_height(&rgb)) {
            Ok(plan) => plan,
            Err(e) => {
                return Err(image_fault(e));
            },
        };
        let whole = resized(&rgb, plan.resized_width, plan.resized_height, ResizeFilter::Lanczos3)?;
        let square = image_crop(&whole, plan.left, plan.top, plan.side, plan.side);
        let colours = colour_tensor(&square, device)?;
        let normal = normalize_image(&colours, &self.config.mean, &self.config.std, 1_000_000)?;
        let batch = unsqueezed(&normal, 0)?;
        assert(tensor_shape(batch) =~= seq![
            1usize,
            3usize,
            self.config.image_size,
            self.config.image_size,
        ]);
        Ok(batch)
    }
}

/// The image that the bytes encode. Bytes that encode no image are refused.
pub fn decode(image_data: &[u8]) -> (r: Result<DynamicImage, EngineError>)
    ensures
        r matches Ok(image) ==> decoded_image(image_data@) == Some(image),
        r is Err <==> decoded_image(image_data@) is None,
        r matches Err(e) ==> e matches EngineError::Input(InputError::ImageDecoding(_)),
{
    match image_decode(image_data) {
        Ok(image) => Ok(image),
        Err(text) => Err(EngineError::Input(InputError::ImageDecoding(text))),
    }
}

impl ImagePreprocessor {
    /// The image that the bytes encode, prepared for the model.
    pub fn preprocess_from_bytes(&self, image_data: &[u8], device: &Device) -> (r: Result<
        Tensor,
        EngineError,
    >)
        ensures
            r matches Ok(t) ==> tensor_shape(t) == seq![
                1usize,
                3usize,
                self.spec_config().image_size,
                self.spec_config().image_size,
            ],
            r matches Err(e) ==> e.is_image_fault(),
    {
        let image = decode(image_data)?;
        self.preprocess(&image, device)
    }
}

/// Several images prepared as one batch: for every image one batch of
/// channels by rows by columns.
pub fn preprocess_images_batch(
    images: &Vec<DynamicImage>,
    config: ImagePreprocessConfig,
    device: &Device,
) -> (r: Result<Tensor, EngineError>)
    ensures
        images.len() == 0 ==> r is Err,
        r matches Ok(t) ==> tensor_shape(t) == seq![
            images.len(),
            1usize,
            3usize,
            config.image_size,
            config.image_size,
        ],
        r matches Err(e) ==> e.is_image_fault(),
{
    let preprocessor = ImagePreprocessor::new(config);
    if images.len() == 0 {
        return Err(shape_fault());
    }
    let first = preprocessor.preprocess(&images[0], device)?;
    let mut batch = unsqueezed(&first, 0)?;
    assert(tensor_shape(batch) =~= seq![
        1usize,
        1usize,
        3usize,
        config.image_size,
        config.image_size,
    ]);
    let mut i: usize = 1;
    while i < images.len()
        invariant
            1 <= i <= images.len(),
            preprocessor.spec_config() == config,
            tensor_shape(batch) == seq![i, 1usize, 3usize, config.image_size, config.image_size],
        decreases images.len() - i,
    {
        let next = preprocessor.preprocess(&images[i], device)?;
        let next = unsqueezed(&next, 0)?;
        assert(tensor_shape(next) =~= seq![
            1usize,
            1usize,
            3usize,
            config.image_size,
            config.image_size,
        ]);
        batch = cat(&batch, &next, 0)?;
        i = i + 1;
        assert(tensor_shape(batch) =~= seq![
            i,
            1usize,
            3usize,
            config.image_size,
            config.image_size,
        ]);
    }
    Ok(batch)
}

} // verus!
