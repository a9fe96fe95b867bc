//! The vision tower of a vision-language model: patches are embedded, run
//! through blocks of self-attention, and merged into tokens for the language
//! model. Every stage checks the shapes it is handed and the shapes it hands
//! on, so that no output of a wrong shape leaves the tower.

use candle_core::{DType, Device, Tensor};
use candle_nn::{Embedding, LayerNorm, Linear};
use image::DynamicImage;
use tokenizers::Tokenizer;
use vstd::prelude::*;
use crate::backend::{
    agree_but_at,
    castable,
    countable,
    device_of,
    dtype_of,
    is_float,
    entry_count,
    float_entries,
    on_cpu,
    image_extent,
    tensor_dims,
    tensor_entries,
    tensor_shape,
    tokenizer_encode,
    values_tensor,
};
use crate::error::{EngineError, InputError, LoadError};
use crate::rope::Qwen3VLTextRotaryEmbedding;
use crate::tensor_ops::{
    cast,
    added,
    broadcast_add,
    broadcast_mul,
    cast_like,
    cat,
    contiguous,
    divided_by_root,
    embed,
    flattened,
    gelu,
    index_add_rows,
    integers,
    layer_norm,
    linear,
    matmul,
    permute,
    reshape,
    shape_fault,
    softmax,
    taken,
    transposed,
    unsqueezed,
    values_like,
};
use crate::tensor_ops::{divided, row_of, settled, to_floats};
use crate::vision::{
    LARGEST_IMAGE,
    image_fault,
    image_layout,
    layout_of,
    img_transform,
    resized,
    GeometryError,
    ImageLayout,
    ResizeFilter,
    VisionGridTHW,
};

verus! {

/// The sizes of the vision tower.
#[derive(Debug, Clone, Copy, PartialEq, Eq, Structural)]
pub struct Qwen3VLVisionConfig {
    /// Number of blocks.
    pub depth: usize,
    /// Width of the tower.
    pub hidden_size: usize,
    /// Number of colour channels of a pixel.
    pub in_channels: usize,
    /// Number of attention heads.
    pub num_heads: usize,
    /// Width of the tokens handed to the language model.
    pub out_hidden_size: usize,
    /// Side of a patch, in pixels.
    pub patch_size: usize,
    /// Number of patches along a side that are merged into one token.
    pub spatial_merge_size: usize,
    /// Number of frames in a patch.
    pub temporal_patch_size: usize,
}

/// The sizes of the language model, as far as the tower needs them.
#[derive(Debug, Clone, Copy, PartialEq, Eq, Structural)]
pub struct Qwen3VLTextConfig {
    pub vocab_size: usize,
    pub hidden_size: usize,
    /// Width of one attention head.
    pub head_dim: usize,
    /// Base of the rotation frequencies.
    pub rope_theta: u32,
}

/// The sizes of a vision-language model.
#[derive(Debug, Clone, Copy, PartialEq, Eq, Structural)]
pub struct Qwen3VLConfig {
    pub vision_config: Qwen3VLVisionConfig,
    pub text_config: Qwen3VLTextConfig,
    /// The token that holds the place of one token of an image in a prompt.
    pub image_token_id: u32,
}

/// The positions at which `token` stands in `ids`, in rising order.
pub open spec fn positions_of(ids: Seq<u32>, token: u32) -> Seq<u32>
    decreases ids.len(),
{
    if ids.len() == 0 {
        Seq::empty()
    } else if ids.last() == token {
        positions_of(ids.drop_last(), token).push((ids.len() - 1) as u32)
    } else {
        positions_of(ids.drop_last(), token)
    }
}

/// For every id a flag: 0 where `token` stands, 1 elsewhere.
pub open spec fn flags_of(ids: Seq<u32>, token: u32) -> Seq<u32> {
    Seq::new(
        ids.len(),
        |i: int|
            if ids[i] == token {
                0u32
            } else {
                1u32
            },
    )
}

/// The positions of a token among ids, and for every id whether another
/// token stands there.
pub fn token_positions(ids: &Vec<u32>, token: u32) -> (r: (Vec<u32>, Vec<u32>))
    requires
        ids.len() <= u32::MAX,
    ensures
        r.0@ == positions_of(ids@, token),
        r.1@ == flags_of(ids@, token),
{
    let mut found: Vec<u32> = Vec::new();
    let mut flags: Vec<u32> = Vec::new();
    let mut i: usize = 0;
    while i < ids.len()
        invariant
            i <= ids.len() <= u32::MAX,
            found@ == positions_of(ids@.take(i as int), token),
            flags@ == flags_of(ids@.take(i as int), token),
        decreases ids.len() - i,
    {
        assert(ids@.take(i + 1).drop_last() =~= ids@.take(i as int));
        if ids[i] == token {
            found.push(i as u32);
            flags.push(0);
        } else {
            flags.push(1);
        }
        i = i + 1;
        assert(flags@ =~= flags_of(ids@.take(i as int), token));
    }
    assert(ids@.take(i as int) =~= ids@);
    (found, flags)
}

impl Qwen3VLVisionConfig {
    /// Number of values in one patch: channels, frames, and pixels in both
    /// directions.
    pub open spec fn patch_len(self) -> nat {
        self.in_channels as nat * self.temporal_patch_size as nat * self.patch_size as nat
            * self.patch_size as nat
    }

    /// Number of patches that are merged into one token.
    pub open spec fn merge_area(self) -> nat {
        self.spatial_merge_size as nat * self.spatial_merge_size as nat
    }

    /// Width of the merged patches of one token.
    pub open spec fn merged_width(self) -> nat {
        self.hidden_size as nat * self.merge_area()
    }

    /// The sizes fit together and fit the machine word: there is at least one
    /// attention head and the heads divide the width; patches are merged at
    /// least one by one.
    pub open spec fn coherent(self) -> bool {
        &&& self.num_heads > 0
        &&& self.hidden_size % self.num_heads == 0
        &&& self.hidden_size / self.num_heads <= u32::MAX
        &&& self.hidden_size / self.num_heads > 0
        &&& self.spatial_merge_size > 0
        &&& self.patch_len() <= usize::MAX
        &&& self.merged_width() <= usize::MAX
        &&& 3 * self.hidden_size <= usize::MAX
    }

    /// Number of values in one patch, where it fits the machine word.
    pub fn patch_values(&self) -> (r: Option<usize>)
        ensures
            r == (if self.patch_len() <= usize::MAX {
                Some(self.patch_len() as usize)
            } else {
                None::<usize>
            }),
    {
        let (c, t, p) = (self.in_channels, self.temporal_patch_size, self.patch_size);
        if c == 0 || t == 0 || p == 0 {
            assert(c as nat * t as nat * p as nat * p as nat == 0) by (nonlinear_arith)
                requires
                    c == 0 || t == 0 || p == 0,
            ;
            return Some(0);
        }
        proof {
            let ct = c as nat * t as nat;
            let ctp = ct * p as nat;
            assert(0 < ct <= ctp <= ctp * p as nat) by (nonlinear_arith)
                requires
                    ct == c as nat * t as nat,
                    ctp == ct * p as nat,
                    c > 0,
                    t > 0,
                    p > 0,
            ;
        }
        times_more(times_more(times(c, t), p), p)
    }

    /// Width of the merged patches of one token, where it fits the machine
    /// word.
    pub fn merged_hidden_size(&self) -> (r: Option<usize>)
        ensures
            r == (if self.merged_width() <= usize::MAX {
                Some(self.merged_width() as usize)
            } else {
                None::<usize>
            }),
    {
        let (h, m) = (self.hidden_size, self.spatial_merge_size);
        if h == 0 || m == 0 {
            assert(h as nat * (m as nat * m as nat) == 0) by (nonlinear_arith)
                requires
                    h == 0 || m == 0,
            ;
            return Some(0);
        }
        proof {
            let mm = m as nat * m as nat;
            assert(0 < mm <= h as nat * mm && h as nat * mm == mm * h as nat) by (nonlinear_arith)
                requires
                    mm == m as nat * m as nat,
                    h > 0,
                    m > 0,
            ;
        }
        times_more(times(m, m), h)
    }

    /// Checks that the sizes fit together.
    pub fn is_coherent(&self) -> (r: bool)
        ensures
            r == self.coherent(),
    {
        self.num_heads > 0 && self.hidden_size % self.num_heads == 0 && self.hidden_size
            / self.num_heads <= u32::MAX as usize && self.hidden_size / self.num_heads > 0
            && self.spatial_merge_size > 0 && self.patch_values().is_some()
            && self.merged_hidden_size().is_some() && self.hidden_size <= usize::MAX / 3
    }

    /// The layout of an image of `height` by `width` pixels for this tower:
    /// what `image_layout` gives for its patch size and its spatial merge
    /// size, which must fit 32 bits.
    pub open spec fn layout_for(self, height: u32, width: u32) -> Result<
        ImageLayout,
        GeometryError,
    > {
        if self.patch_size > u32::MAX || self.spatial_merge_size > u32::MAX {
            Err(GeometryError::TooLarge)
        } else {
            layout_of(height, width, self.patch_size as u32, self.spatial_merge_size as u32)
        }
    }

    /// The size to which an image is brought for this tower, and the grid of
    /// tokens it gives.
    pub fn layout(&self, height: u32, width: u32) -> (r: Result<ImageLayout, GeometryError>)
        ensures
            r == self.layout_for(height, width),
            self.patch_size > u32::MAX || self.spatial_merge_size > u32::MAX ==> r == Err::<
                ImageLayout,
                GeometryError,
            >(GeometryError::TooLarge),
            r matches Ok(layout) ==> {
                &&& layout.grid.temporal == 1
                &&& layout.grid.height * self.patch_size * self.spatial_merge_size
                    == layout.resized_height
                &&& layout.grid.width * self.patch_size * self.spatial_merge_size
                    == layout.resized_width
                &&& layout.resized_height >= 1
                &&& layout.resized_width >= 1
            },
    {
        if self.patch_size > u32::MAX as usize || self.spatial_merge_size > u32::MAX as usize {
            return Err(GeometryError::TooLarge);
        }
        image_layout(height, width, self.patch_size as u32, self.spatial_merge_size as u32)
    }
}

impl Qwen3VLVisionConfig {
    /// The pixels of an image can be cut into the patches of a grid: no size
    /// is zero, the values of all patches together fit the machine word, and
    /// the pixels are laid out by channel, row and column in the size that
    /// the grid asks for.
    pub open spec fn can_patchify(self, pixels_shape: Seq<usize>, grid: VisionGridTHW) -> bool {
        let side = self.spatial_merge_size * self.patch_size;
        &&& self.in_channels >= 1 && self.temporal_patch_size >= 1 && self.patch_size >= 1
            && self.spatial_merge_size >= 1 && grid.height >= 1 && grid.width >= 1
        &&& grid.height * grid.width * self.merge_area() * self.patch_len() <= usize::MAX
        &&& pixels_shape == seq![
            self.in_channels,
            (grid.height * side) as usize,
            (grid.width * side) as usize,
        ]
    }

    /// The patches of an image, one row of values for each, in the order in
    /// which the tower merges them: the patches of one token follow one
    /// another. `pixels` holds the image by channel, row and column, in the
    /// size that fits `grid`; a still image fills every frame of a patch.
    pub fn patchify(&self, pixels: &Tensor, grid: &VisionGridTHW) -> (r: Result<
        Tensor,
        EngineError,
    >)
        ensures
            r matches Ok(patches) ==> {
                let m = self.spatial_merge_size;
                let side = m * self.patch_size;
                &&& tensor_shape(*pixels) == seq![
                    self.in_channels,
                    (grid.height * side) as usize,
                    (grid.width * side) as usize,
                ]
                &&& self.patch_len() <= usize::MAX
                &&& grid.height * grid.width * self.merge_area() <= usize::MAX
                &&& tensor_shape(patches) == seq![
                    (grid.height * grid.width * self.merge_area()) as usize,
                    self.patch_len() as usize,
                ]
            },
            self.can_patchify(tensor_shape(*pixels), *grid) && on_cpu(device_of(*pixels))
                ==> r is Ok,
            r matches Err(e) ==> e.is_backend_fault(),
    {
        let ghost fits = self.can_patchify(tensor_shape(*pixels), *grid) && on_cpu(
            device_of(*pixels),
        );
        let ghost total = (grid.height * grid.width * self.merge_area() * self.patch_len()) as nat;
        proof {
            if fits {
                let (c, t, p, m, gh, gw) = (
                    self.in_channels as nat,
                    self.temporal_patch_size as nat,
                    self.patch_size as nat,
                    self.spatial_merge_size as nat,
                    grid.height as nat,
                    grid.width as nat,
                );
                assert(total == gh * gw * (m * m) * (c * t * p * p));
                assert(m * p <= total && m * p * gh <= total && m * p * gw <= total && m * m
                    <= total && m * m * gh <= total && m * m * gh * gw <= total && p * p <= total
                    && p * p * c <= total && c * t <= total && c * t * p <= total && c * t * p * p
                    <= total) by (nonlinear_arith)
                    requires
                        total == gh * gw * (m * m) * (c * t * p * p),
                        c >= 1,
                        t >= 1,
                        p >= 1,
                        m >= 1,
                        gh >= 1,
                        gw >= 1,
                ;
            }
        }
        let (c, t, p, m) = (
            self.in_channels,
            self.temporal_patch_size,
            self.patch_size,
            self.spatial_merge_size,
        );
        let (gh, gw) = (grid.height as usize, grid.width as usize);
        let side = times(m, p);
        let height = times_more(side, gh);
        let width = times_more(side, gw);
        let area = times(m, m);
        let count = times_more(times_more(area, gh), gw);
        let pp = times(p, p);
        let cpp = times_more(pp, c);
        let len = self.patch_values();
        let (height, width, count, pp, len) = match (height, width, count, pp, len, cpp) {
            (Some(h), Some(w), Some(n), Some(pp), Some(len), Some(_)) => (h, w, n, pp, len),
            _ => {
                return Err(shape_fault());
            },
        };
        if t == 0 {
            return Err(shape_fault());
        }
        let dims = tensor_dims(pixels);
        if !(dims.len() == 3 && dims[0] == c && dims[1] == height && dims[2] == width) {
            return Err(shape_fault());
        }
        assert(tensor_shape(*pixels) =~= seq![c, height, width]);
        proof {
            let mp = m as nat * p as nat;
            assert(gh as nat * mp == mp * gh as nat && gw as nat * mp == mp * gw as nat)
                by (nonlinear_arith);
            let mm = m as nat * m as nat;
            assert(gh as nat * gw as nat * mm == mm * gh as nat * gw as nat) by (nonlinear_arith);
            assert(c as nat * t as nat * p as nat * p as nat == (p as nat * p as nat) * c as nat
                * t as nat) by (nonlinear_arith);
        }
        let mut cut: Vec<usize> = Vec::new();
        cut.push(c);
        cut.push(gh);
        cut.push(m);
        cut.push(p);
        cut.push(gw);
        cut.push(m);
        cut.push(p);
        let ghost whole = (c * height * width) as nat;
        proof {
            assert(cut@ =~= seq![c, gh, m, p, gw, m, p]);
            if fits {
                crate::tensor_ops::lemma_seven_counts(c, gh, m, p, gw, m, p);
                crate::tensor_ops::lemma_three_counts(c, height, width);
                let side = (m * p) as nat;
                let cnt = (m * m * gh * gw) as nat;
                let sq = (p * p) as nat;
                assert(height == side * gh && width == side * gw);
                assert(side >= 1 && cnt >= 1 && sq >= 1 && side * gh >= 1 && side * gw >= 1)
                    by (nonlinear_arith)
                    requires
                        side == m * p,
                        cnt == m * m * gh * gw,
                        sq == p * p,
                        p >= 1,
                        m >= 1,
                        gh >= 1,
                        gw >= 1,
                ;
                assert(side * side == (m * m) * sq) by (nonlinear_arith)
                    requires
                        side == m * p,
                        sq == p * p,
                ;
                assert((side * gh) * (side * gw) == (side * side) * (gh * gw)) by (nonlinear_arith);
                assert(((m * m) * sq) * (gh * gw) == cnt * sq) by (nonlinear_arith)
                    requires
                        cnt == m * m * gh * gw,
                ;
                assert(c * height * width == c * (cnt * sq)) by (nonlinear_arith)
                    requires
                        height * width == cnt * sq,
                ;
                assert(whole == c * (cnt * sq));
                assert(c * (cnt * sq) == cnt * c * 1 * sq) by (nonlinear_arith);
                assert(total == cnt * (c * t * sq)) by (nonlinear_arith)
                    requires
                        total == grid.height * grid.width * (m * m) * (c * t * p * p),
                        gh == grid.height,
                        gw == grid.width,
                        cnt == m * m * gh * gw,
                        sq == p * p,
                ;
                assert(c * (cnt * sq) <= cnt * (c * t * sq)) by (nonlinear_arith)
                    requires
                        t >= 1,
                        c >= 0,
                        cnt >= 0,
                        sq >= 0,
                ;
                // the sizes of the cut image, multiplied up from the first
                let x1 = (c * gh) as nat;
                assert(x1 * m * p == c * (side * gh)) by (nonlinear_arith)
                    requires
                        x1 == c * gh,
                        side == m * p,
                ;
                let x3 = (x1 * m * p) as nat;
                assert(x3 * gw * m * p == x3 * (side * gw)) by (nonlinear_arith)
                    requires
                        side == m * p,
                ;
                assert(c * gh * m * p * gw * m * p == x3 * gw * m * p);
                assert(c * gh * m * p * gw * m * p == whole);
                // the sizes of the blocks, multiplied up from the first
                let y1 = (gh * gw * m * m) as nat;
                assert(y1 == cnt) by (nonlinear_arith)
                    requires
                        y1 == gh * gw * m * m,
                        cnt == m * m * gh * gw,
                ;
                assert(y1 * c * p * p == cnt * c * 1 * sq) by (nonlinear_arith)
                    requires
                        y1 == cnt,
                        sq == p * p,
                ;
                assert(gh * gw * m * m * c * p * p == whole);
                assert(entry_count(cut@) == whole);
                assert(entry_count(tensor_shape(*pixels)) == whole);
                crate::tensor_ops::lemma_full_shape_countable(cut@);
                crate::tensor_ops::lemma_full_shape_countable(tensor_shape(*pixels));
            }
        }
        let blocks = reshape(pixels, &cut)?;
        let mut order: Vec<usize> = Vec::new();
        order.push(1);
        order.push(4);
        order.push(2);
        order.push(5);
        order.push(0);
        order.push(3);
        order.push(6);
        proof {
            assert(order@ =~= seq![1usize, 4usize, 2usize, 5usize, 0usize, 3usize, 6usize]);
            assert forall|d: usize| d < 7 implies #[trigger] order@.contains(d) by {
                if d == 0 {
                    assert(order@[4] == d);
                } else if d == 1 {
                    assert(order@[0] == d);
                } else if d == 2 {
                    assert(order@[2] == d);
                } else if d == 3 {
                    assert(order@[5] == d);
                } else if d == 4 {
                    assert(order@[1] == d);
                } else if d == 5 {
                    assert(order@[3] == d);
                } else {
                    assert(order@[6] == d);
                }
            }
        }
        let blocks = permute(&blocks, &order)?;
        let mut single: Vec<usize> = Vec::new();
        single.push(count);
        single.push(c);
        single.push(1);
        single.push(pp);
        proof {
            assert(single@ =~= seq![count, c, 1usize, pp]);
            assert(tensor_shape(blocks) =~= seq![gh, gw, m, m, c, p, p]);
            if fits {
                crate::tensor_ops::lemma_seven_counts(gh, gw, m, m, c, p, p);
                crate::tensor_ops::lemma_four_counts(count, c, 1, pp);
                assert(count == m * m * gh * gw && pp == p * p);
                assert(entry_count(tensor_shape(blocks)) == whole);
                assert(entry_count(single@) == whole);
                assert(count >= 1 && pp >= 1);
                crate::tensor_ops::lemma_full_shape_countable(tensor_shape(blocks));
                crate::tensor_ops::lemma_full_shape_countable(single@);
            }
        }
        let frame = reshape(&blocks, &single)?;
        let mut frames = contiguous(&frame)?;
        let mut k: usize = 1;
        while k < t
            invariant
                1 <= k <= t,
                tensor_shape(frame) == seq![count, c, 1usize, pp],
                tensor_shape(frames) == seq![count, c, k, pp],
                fits ==> on_cpu(device_of(frame)) && on_cpu(device_of(frames)) && dtype_of(frames)
                    == dtype_of(frame),
                fits == (self.can_patchify(tensor_shape(*pixels), *grid) && on_cpu(
                    device_of(*pixels),
                )),
            decreases t - k,
        {
            assert(agree_but_at(tensor_shape(frames), tensor_shape(frame), 2));
            frames = cat(&frames, &frame, 2)?;
            k = k + 1;
            assert(tensor_shape(frames) =~= seq![count, c, k, pp]);
        }
        let mut rows: Vec<usize> = Vec::new();
        rows.push(count);
        rows.push(len);
        proof {
            assert(rows@ =~= seq![count, len]);
            if fits {
                crate::tensor_ops::lemma_four_counts(count, c, t, pp);
                crate::tensor_ops::lemma_small_counts(count, len);
                assert(count == m * m * gh * gw && pp == p * p && len == c * t * p * p);
                assert(len == c * t * pp) by (nonlinear_arith)
                    requires
                        len == c * t * p * p,
                        pp == p * p,
                ;
                assert(count * c * t * pp == count * (c * t * pp)) by (nonlinear_arith);
                assert(total == count * (c * t * pp));
                assert(len >= 1) by (nonlinear_arith)
                    requires
                        len == c * t * pp,
                        c >= 1,
                        t >= 1,
                        pp >= 1,
                ;
                crate::tensor_ops::lemma_full_shape_countable(tensor_shape(frames));
            }
        }
        let patches = reshape(&frames, &rows)?;
        assert(tensor_shape(patches) =~= seq![count, len]);
        Ok(patches)
    }
}

/// The product of two sizes, where it fits the machine word.
pub fn times(a: usize, b: usize) -> (r: Option<usize>)
    ensures
        r == (if a as nat * b as nat <= usize::MAX {
            Some((a as nat * b as nat) as usize)
        } else {
            None::<usize>
        }),
{
    a.checked_mul(b)
}

/// The product of a size that may be missing and another size.
pub fn times_more(a: Option<usize>, b: usize) -> (r: Option<usize>)
    ensures
        r == (match a {
            Some(a) => if a as nat * b as nat <= usize::MAX {
                Some((a as nat * b as nat) as usize)
            } else {
                None::<usize>
            },
            None => None::<usize>,
        }),
{
    match a {
        Some(a) => times(a, b),
        None => None,
    }
}

/// A shape that does not fit the architecture, as a failure of loading.
pub fn architecture_mismatch() -> (r: EngineError)
    ensures
        r matches EngineError::Load(LoadError::ArchitectureMismatch(_)),
{
    EngineError::Load(LoadError::ArchitectureMismatch("tensor shapes do not fit the sizes".to_owned()))
}

/// The tensor has two dimensions of the given sizes.
pub fn is_matrix(t: &Tensor, rows: usize, cols: usize) -> (r: bool)
    ensures
        r == (tensor_shape(*t) == seq![rows, cols]),
{
    let dims = tensor_dims(t);
    let r = dims.len() == 2 && dims[0] == rows && dims[1] == cols;
    proof {
        if r {
            assert(tensor_shape(*t) =~= seq![rows, cols]);
        }
    }
    r
}

/// The number of rows of a tensor of two dimensions with `cols` columns.
pub fn matrix_rows(t: &Tensor, cols: usize) -> (r: Option<usize>)
    ensures
        r matches Some(rows) ==> tensor_shape(*t) == seq![rows, cols],
        r is None ==> tensor_shape(*t).len() != 2 || tensor_shape(*t)[1] != cols,
{
    let dims = tensor_dims(t);
    if dims.len() == 2 && dims[1] == cols {
        assert(tensor_shape(*t) =~= seq![dims[0], cols]);
        Some(dims[0])
    } else {
        None
    }
}

/// Turns every patch into one embedding, by one linear map.
pub struct Qwen3VLVisionPatchEmbed {
    conv3d_weight: Tensor,
    conv3d_bias: Tensor,
    patch_values: usize,
    embed_dim: usize,
}

impl Qwen3VLVisionPatchEmbed {
    #[verifier::type_invariant]
    spec fn well_formed(&self) -> bool {
        &&& tensor_shape(self.conv3d_weight) == seq![self.patch_values, self.embed_dim]
        &&& tensor_shape(self.conv3d_bias) == seq![1usize, self.embed_dim]
    }

    /// Number of values in a patch.
    pub closed spec fn patch_len(&self) -> usize {
        self.patch_values
    }

    /// Width of an embedding.
    pub closed spec fn width(&self) -> usize {
        self.embed_dim
    }

    /// The embedding for the weights of a convolution over whole patches:
    /// `weight` has one kernel of channels by frames by pixels by pixels for
    /// every feature, `bias` one value. Weights of any other shape are
    /// refused.
    pub fn new(cfg: &Qwen3VLVisionConfig, weight: Tensor, bias: Tensor) -> (r: Result<
        Qwen3VLVisionPatchEmbed,
        EngineError,
    >)
        ensures
            r matches Ok(embed) ==> cfg.patch_len() == embed.patch_len() && embed.width()
                == cfg.hidden_size && tensor_shape(weight) == seq![
                cfg.hidden_size,
                cfg.in_channels,
                cfg.temporal_patch_size,
                cfg.patch_size,
                cfg.patch_size,
            ] && tensor_shape(bias) == seq![cfg.hidden_size],
            cfg.patch_len() <= usize::MAX && tensor_shape(weight) == seq![
                cfg.hidden_size,
                cfg.in_channels,
                cfg.temporal_patch_size,
                cfg.patch_size,
                cfg.patch_size,
            ] && tensor_shape(bias) == seq![cfg.hidden_size] && countable(tensor_shape(weight))
                && on_cpu(device_of(weight)) && on_cpu(device_of(bias)) ==> r is Ok,
            r matches Err(e) ==> e matches EngineError::Load(LoadError::ArchitectureMismatch(_)),
    {
        let patch_values = match cfg.patch_values() {
            Some(n) => n,
            None => {
                return Err(architecture_mismatch());
            },
        };
        let dims = tensor_dims(&weight);
        if !(dims.len() == 5 && dims[0] == cfg.hidden_size && dims[1] == cfg.in_channels
            && dims[2] == cfg.temporal_patch_size && dims[3] == cfg.patch_size && dims[4]
            == cfg.patch_size) {
            return Err(architecture_mismatch());
        }
        assert(tensor_shape(weight) =~= seq![
            cfg.hidden_size,
            cfg.in_channels,
            cfg.temporal_patch_size,
            cfg.patch_size,
            cfg.patch_size,
        ]);
        let bias_dims = tensor_dims(&bias);
        if !(bias_dims.len() == 1 && bias_dims[0] == cfg.hidden_size) {
            return Err(architecture_mismatch());
        }
        assert(tensor_shape(bias) =~= seq![cfg.hidden_size]);
        let mut flat: Vec<usize> = Vec::new();
        flat.push(cfg.hidden_size);
        flat.push(patch_values);
        proof {
            let (h, c, t, p) = (
                cfg.hidden_size as nat,
                cfg.in_channels as nat,
                cfg.temporal_patch_size as nat,
                cfg.patch_size as nat,
            );
            let shape = tensor_shape(weight);
            reveal_with_fuel(entry_count, 6);
            reveal_with_fuel(countable, 6);
            assert(shape.drop_last() =~= seq![dims[0], dims[1], dims[2], dims[3]]);
            assert(shape.drop_last().drop_last() =~= seq![dims[0], dims[1], dims[2]]);
            assert(shape.drop_last().drop_last().drop_last() =~= seq![dims[0], dims[1]]);
            assert(shape.drop_last().drop_last().drop_last().drop_last() =~= seq![dims[0]]);
            assert(shape.drop_last().drop_last().drop_last().drop_last().drop_last()
                =~= Seq::<usize>::empty());
            assert(entry_count(shape) == h * c * t * p * p);
            assert(flat@.drop_last() =~= seq![cfg.hidden_size]);
            assert(flat@.drop_last().drop_last() =~= Seq::<usize>::empty());
            assert(entry_count(flat@) == h * (c * t * p * p));
            assert(h * c * t * p * p == h * (c * t * p * p)) by (nonlinear_arith);
            assert(countable(shape) ==> countable(flat@));
        }
        let prepared = Self::prepare(&weight, &bias, &flat);
        let (conv3d_weight, conv3d_bias) = match prepared {
            Ok(pair) => pair,
            Err(_) => {
                return Err(architecture_mismatch());
            },
        };
        assert(tensor_shape(conv3d_weight) =~= seq![patch_values, cfg.hidden_size]);
        assert(tensor_shape(conv3d_bias) =~= seq![1usize, cfg.hidden_size]);
        Ok(
            Qwen3VLVisionPatchEmbed {
                conv3d_weight,
                conv3d_bias,
                patch_values,
                embed_dim: cfg.hidden_size,
            },
        )
    }

    /// The kernels as one matrix that maps a patch to its embedding, and the
    /// bias as one row.
    fn prepare(weight: &Tensor, bias: &Tensor, flat: &Vec<usize>) -> (r: Result<
        (Tensor, Tensor),
        EngineError,
    >)
        requires
            flat.len() == 2,
            tensor_shape(*bias).len() == 1,
        ensures
            r matches Ok(pair) ==> tensor_shape(pair.0) == seq![flat[1], flat[0]] && tensor_shape(
                pair.1,
            ) == seq![1usize, tensor_shape(*bias)[0]],
            on_cpu(device_of(*weight)) && on_cpu(device_of(*bias)) && countable(
                tensor_shape(*weight),
            ) && countable(flat@) && entry_count(flat@) == entry_count(tensor_shape(*weight))
                ==> r is Ok,
    {
        let kernels = reshape(weight, flat)?;
        let turned = transposed(&kernels, 0, 1)?;
        let matrix = contiguous(&turned)?;
        let mut one_row: Vec<usize> = Vec::new();
        one_row.push(1);
        one_row.push(tensor_dims(bias)[0]);
        proof {
            let shape = tensor_shape(*bias);
            assert(shape =~= seq![shape[0]]);
            assert(one_row@ =~= seq![1usize, shape[0]]);
            crate::tensor_ops::lemma_small_counts(shape[0], 1);
            crate::tensor_ops::lemma_small_counts(1, shape[0]);
        }
        let row = reshape(bias, &one_row)?;
        assert(tensor_shape(matrix) =~= seq![flat[1], flat[0]]);
        assert(tensor_shape(row) =~= seq![1usize, tensor_shape(*bias)[0]]);
        Ok((matrix, row))
    }

    /// One embedding for every patch: `hidden_states` holds one row of values
    /// for every patch.
    pub fn forward(&self, hidden_states: &Tensor) -> (r: Result<Tensor, EngineError>)
        ensures
            r matches Ok(out) ==> tensor_shape(*hidden_states).len() == 2 && tensor_shape(
                *hidden_states,
            )[1] == self.patch_len() && tensor_shape(out) == seq![
                tensor_shape(*hidden_states)[0],
                self.width(),
            ],
            r matches Err(e) ==> e.is_backend_fault(),
    {
        proof {
            use_type_invariant(self);
        }
        let rows = match matrix_rows(hidden_states, self.patch_values) {
            Some(rows) => rows,
            None => {
                return Err(shape_fault());
            },
        };
        let projected = matmul(hidden_states, &self.conv3d_weight)?;
        let out = broadcast_add(&projected, &self.conv3d_bias)?;
        if !is_matrix(&out, rows, self.embed_dim) {
            return Err(shape_fault());
        }
        Ok(out)
    }
}

/// Merges neighbouring patches into one token of the language model.
pub struct Qwen3VLVisionPatchMerger {
    hidden_size: usize,
    out_hidden_size: usize,
    use_postshuffle_norm: bool,
    norm: LayerNorm,
    linear_fc1: Linear,
    linear_fc2: Linear,
}

impl Qwen3VLVisionPatchMerger {
    /// Width of the merged patches of one token.
    pub closed spec fn merged_width(&self) -> usize {
        self.hidden_size
    }

    /// Width of a token.
    pub closed spec fn out_width(&self) -> usize {
        self.out_hidden_size
    }

    /// The merger for the given layers. Sizes whose merged width does not fit
    /// the machine word, or is zero, are refused.
    pub fn from_parts(
        config: &Qwen3VLVisionConfig,
        norm: LayerNorm,
        linear_fc1: Linear,
        linear_fc2: Linear,
        use_postshuffle_norm: bool,
    ) -> (r: Result<Qwen3VLVisionPatchMerger, EngineError>)
        ensures
            r matches Ok(merger) ==> merger.merged_width() == config.merged_width()
                && merger.merged_width() > 0 && merger.out_width() == config.out_hidden_size,
            r matches Err(e) ==> e matches EngineError::Load(LoadError::ArchitectureMismatch(_)),
            0 < config.merged_width() <= usize::MAX ==> r is Ok,
    {
        let hidden_size = match config.merged_hidden_size() {
            Some(n) => n,
            None => {
                return Err(architecture_mismatch());
            },
        };
        if hidden_size == 0 {
            return Err(architecture_mismatch());
        }
        Ok(
            Qwen3VLVisionPatchMerger {
                hidden_size,
                out_hidden_size: config.out_hidden_size,
                use_postshuffle_norm,
                norm,
                linear_fc1,
                linear_fc2,
            },
        )
    }

    /// One token for every group of merged patches: the rows of `xs` are put
    /// side by side in groups, normalised before or after that, and mapped
    /// through two linear layers with an activation between them. Rows that
    /// do not fill whole groups are refused.
    pub fn forward(&self, xs: &Tensor) -> (r: Result<Tensor, EngineError>)
        ensures
            r matches Ok(out) ==> {
                let shape = tensor_shape(*xs);
                &&& shape.len() == 2
                &&& self.merged_width() > 0
                &&& (shape[0] * shape[1]) % (self.merged_width() as int) == 0
                &&& tensor_shape(out) == seq![
                    ((shape[0] * shape[1]) / (self.merged_width() as int)) as usize,
                    self.out_width(),
                ]
            },
            r matches Err(e) ==> e.is_backend_fault(),
    {
        let dims = tensor_dims(xs);
        if dims.len() != 2 || self.hidden_size == 0 {
            return Err(shape_fault());
        }
        let total = match times(dims[0], dims[1]) {
            Some(n) => n,
            None => {
                return Err(shape_fault());
            },
        };
        if total % self.hidden_size != 0 {
            return Err(shape_fault());
        }
        let rows = total / self.hidden_size;
        let grouped = if self.use_postshuffle_norm {
            self.group(xs, rows)?
        } else {
            contiguous(xs)?
        };
        let normed = layer_norm(&self.norm, &grouped)?;
        let grouped = self.group(&normed, rows)?;
        let wide = linear(&self.linear_fc1, &grouped)?;
        let active = gelu(&wide)?;
        let out = linear(&self.linear_fc2, &active)?;
        if !is_matrix(&out, rows, self.out_hidden_size) {
            return Err(shape_fault());
        }
        Ok(out)
    }

    /// The entries of a tensor in `rows` rows of the merged width.
    fn group(&self, xs: &Tensor, rows: usize) -> (r: Result<Tensor, EngineError>)
        ensures
            r matches Ok(out) ==> tensor_shape(out) == seq![rows, self.merged_width()],
            on_cpu(device_of(*xs)) && countable(tensor_shape(*xs)) && rows * self.merged_width()
                == entry_count(tensor_shape(*xs)) ==> r is Ok,
            r matches Err(e) ==> e.is_backend_fault(),
    {
        let mut shape: Vec<usize> = Vec::new();
        shape.push(rows);
        shape.push(self.hidden_size);
        proof {
            assert(shape@ =~= seq![rows, self.merged_width()]);
            crate::tensor_ops::lemma_small_counts(rows, self.merged_width());
            if countable(tensor_shape(*xs)) && tensor_shape(*xs).len() > 0 {
                assert(entry_count(tensor_shape(*xs)) <= usize::MAX);
            }
            if tensor_shape(*xs).len() == 0 {
                assert(entry_count(tensor_shape(*xs)) == 1);
            }
        }
        let grouped = reshape(xs, &shape)?;
        assert(tensor_shape(grouped) =~= seq![rows, self.merged_width()]);
        Ok(grouped)
    }
}

/// Self-attention of every patch to every patch, without a mask.
pub struct Qwen3VLVisionAttention {
    hidden_size: usize,
    num_heads: usize,
    head_dim: usize,
    qkv: Linear,
    proj: Linear,
}

impl Qwen3VLVisionAttention {
    #[verifier::type_invariant]
    spec fn well_formed(&self) -> bool {
        &&& self.num_heads > 0
        &&& 0 < self.head_dim <= u32::MAX
        &&& self.hidden_size == self.num_heads * self.head_dim
        &&& 3 * self.hidden_size <= usize::MAX
    }

    /// Width of the rows that the attention takes and gives.
    pub closed spec fn width(&self) -> usize {
        self.hidden_size
    }

    /// The attention for the given layers. Sizes that do not fit together are
    /// refused.
    pub fn from_parts(config: &Qwen3VLVisionConfig, qkv: Linear, proj: Linear) -> (r: Result<
        Qwen3VLVisionAttention,
        EngineError,
    >)
        ensures
            config.coherent() ==> r is Ok,
            !config.coherent() ==> r is Err,
            r matches Ok(attention) ==> attention.width() == config.hidden_size,
            r matches Err(e) ==> e matches EngineError::Load(LoadError::ArchitectureMismatch(_)),
    {
        if !config.is_coherent() {
            return Err(architecture_mismatch());
        }
        let head_dim = config.hidden_size / config.num_heads;
        assert(config.hidden_size == config.num_heads * head_dim) by (nonlinear_arith)
            requires
                head_dim == config.hidden_size / config.num_heads,
                config.hidden_size % config.num_heads == 0,
                config.num_heads > 0,
        ;
        Ok(
            Qwen3VLVisionAttention {
                hidden_size: config.hidden_size,
                num_heads: config.num_heads,
                head_dim,
                qkv,
                proj,
            },
        )
    }

    /// The attention of every row of `xs` to every row: queries, keys and
    /// values are taken from the rows, head by head; each query is weighed
    /// against all keys, the weights are turned into shares, and the values
    /// are summed by these shares.
    pub fn forward(&self, xs: &Tensor) -> (r: Result<Tensor, EngineError>)
        ensures
            r matches Ok(out) ==> tensor_shape(out) == tensor_shape(*xs) && tensor_shape(
                out,
            ).len() == 2 && tensor_shape(out)[1] == self.width(),
            r matches Err(e) ==> e.is_backend_fault(),
    {
        proof {
            use_type_invariant(self);
        }
        let seq_len = match matrix_rows(xs, self.hidden_size) {
            Some(rows) => rows,
            None => {
                return Err(shape_fault());
            },
        };
        if seq_len == 0 {
            return Err(shape_fault());
        }
        let qkv = linear(&self.qkv, xs)?;
        if !is_matrix(&qkv, seq_len, 3 * self.hidden_size) {
            return Err(shape_fault());
        }
        let mut split: Vec<usize> = Vec::new();
        split.push(seq_len);
        split.push(3);
        split.push(self.num_heads);
        split.push(self.head_dim);
        let qkv = reshape(&qkv, &split)?;
        let mut order: Vec<usize> = Vec::new();
        order.push(1);
        order.push(2);
        order.push(0);
        order.push(3);
        let qkv = permute(&qkv, &order)?;
        assert(tensor_shape(qkv)[0] == 3 && tensor_shape(qkv)[1] == self.num_heads
            && tensor_shape(qkv)[2] == seq_len && tensor_shape(qkv)[3] == self.head_dim
            && tensor_shape(qkv).len() == 4);
        let q = self.head_rows(&qkv, 0)?;
        let k = self.head_rows(&qkv, 1)?;
        let v = self.head_rows(&qkv, 2)?;
        let q = divided_by_root(&q, self.head_dim as u32)?;
        let keys = transposed(&k, 1, 2)?;
        let keys = contiguous(&keys)?;
        let weights = matmul(&q, &keys)?;
        assert(tensor_shape(weights).last() == seq_len);
        let shares = softmax(&weights)?;
        let mixed = matmul(&shares, &v)?;
        let mixed = transposed(&mixed, 0, 1)?;
        let mut joined: Vec<usize> = Vec::new();
        joined.push(seq_len);
        joined.push(self.hidden_size);
        let mixed = reshape(&mixed, &joined)?;
        let out = linear(&self.proj, &mixed)?;
        if !is_matrix(&out, seq_len, self.hidden_size) {
            return Err(shape_fault());
        }
        Ok(out)
    }

    /// The queries, the keys or the values of all heads, laid out row by row.
    fn head_rows(&self, qkv: &Tensor, which: usize) -> (r: Result<Tensor, EngineError>)
        requires
            tensor_shape(*qkv).len() == 4,
        ensures
            r matches Ok(part) ==> tensor_shape(part) == tensor_shape(*qkv).subrange(1, 4),
            which < tensor_shape(*qkv)[0] && on_cpu(device_of(*qkv)) && countable(
                tensor_shape(*qkv),
            ) ==> r is Ok,
            r matches Err(e) ==> e.is_backend_fault(),
    {
        let part = taken(qkv, which)?;
        contiguous(&part)
    }
}

/// One block of the tower: attention and a feed-forward layer, each on the
/// normalised rows and each added to what it was given.
pub struct Qwen3VLVisionBlock {
    norm1: LayerNorm,
    norm2: LayerNorm,
    attn: Qwen3VLVisionAttention,
    mlp: Linear,
}

impl Qwen3VLVisionBlock {
    /// Width of the rows that the block takes and gives.
    pub closed spec fn width(&self) -> usize {
        self.attn.width()
    }

    pub fn from_parts(
        norm1: LayerNorm,
        norm2: LayerNorm,
        attn: Qwen3VLVisionAttention,
        mlp: Linear,
    ) -> (r: Qwen3VLVisionBlock)
        ensures
            r.width() == attn.width(),
    {
        Qwen3VLVisionBlock { norm1, norm2, attn, mlp }
    }

    /// The rows after the block: `xs` plus the attention on its normalised
    /// rows, and that plus the feed-forward layer on its normalised rows.
    pub fn forward(&self, xs: &Tensor) -> (r: Result<Tensor, EngineError>)
        ensures
            r matches Ok(out) ==> tensor_shape(out) == tensor_shape(*xs) && tensor_shape(
                out,
            ).len() == 2 && tensor_shape(out)[1] == self.width(),
            r matches Err(e) ==> e.is_backend_fault(),
    {
        let normed = layer_norm(&self.norm1, xs)?;
        let attended = self.attn.forward(&normed)?;
        let xs = added(xs, &attended)?;
        let normed = layer_norm(&self.norm2, &xs)?;
        let fed = linear(&self.mlp, &normed)?;
        added(&xs, &fed)
    }
}

/// The vision tower.
pub struct Qwen3VLVisionModel {
    patch_embed: Qwen3VLVisionPatchEmbed,
    blocks: Vec<Qwen3VLVisionBlock>,
    merger: Qwen3VLVisionPatchMerger,
}

impl Qwen3VLVisionModel {
    /// Number of values in a patch.
    pub closed spec fn patch_len(&self) -> usize {
        self.patch_embed.patch_len()
    }

    /// Width of a token.
    pub closed spec fn out_width(&self) -> usize {
        self.merger.out_width()
    }

    /// Width of the embedding of a patch.
    pub closed spec fn embed_width(&self) -> usize {
        self.patch_embed.width()
    }

    /// Width of the merged patches of one token.
    pub closed spec fn merged_width(&self) -> usize {
        self.merger.merged_width()
    }

    /// Number of blocks.
    pub closed spec fn depth(&self) -> nat {
        self.blocks@.len()
    }

    pub fn from_parts(
        patch_embed: Qwen3VLVisionPatchEmbed,
        blocks: Vec<Qwen3VLVisionBlock>,
        merger: Qwen3VLVisionPatchMerger,
    ) -> (r: Qwen3VLVisionModel)
        ensures
            r.patch_len() == patch_embed.patch_len(),
            r.embed_width() == patch_embed.width(),
            r.merged_width() == merger.merged_width(),
            r.out_width() == merger.out_width(),
            r.depth() == blocks@.len(),
    {
        Qwen3VLVisionModel { patch_embed, blocks, merger }
    }

    /// The tokens for the patches of an image: `hidden_states` holds one row
    /// of values for every patch. The patches are embedded, run through all
    /// blocks in turn, and merged.
    pub fn forward(&self, hidden_states: &Tensor) -> (r: Result<Tensor, EngineError>)
        ensures
            r matches Ok(out) ==> {
                let patches = tensor_shape(*hidden_states);
                &&& patches.len() == 2
                &&& patches[1] == self.patch_len()
                &&& self.merged_width() > 0
                &&& (patches[0] * self.embed_width()) % (self.merged_width() as int) == 0
                &&& tensor_shape(out) == seq![
                    ((patches[0] * self.embed_width()) / (self.merged_width() as int)) as usize,
                    self.out_width(),
                ]
            },
            r matches Err(e) ==> e.is_backend_fault(),
    {
        let mut xs = self.patch_embed.forward(hidden_states)?;
        let mut i: usize = 0;
        while i < self.blocks.len()
            invariant
                i <= self.blocks.len(),
                tensor_shape(*hidden_states).len() == 2,
                tensor_shape(*hidden_states)[1] == self.patch_len(),
                tensor_shape(xs) == seq![tensor_shape(*hidden_states)[0], self.embed_width()],
            decreases self.blocks.len() - i,
        {
            xs = self.blocks[i].forward(&xs)?;
            i = i + 1;
        }
        self.merger.forward(&xs)
    }

    /// The tokens for an image: its pixels are cut into patches and run
    /// through the tower. The image gives one token for every cell of its
    /// grid. A tower whose parts do not have the sizes of `config` is
    /// refused.
    pub fn encode_image(
        &self,
        config: &Qwen3VLVisionConfig,
        pixels: &Tensor,
        grid: &VisionGridTHW,
    ) -> (r: Result<Tensor, EngineError>)
        ensures
            r matches Ok(tokens) ==> tensor_shape(tokens) == seq![
                (grid.height * grid.width) as usize,
                self.out_width(),
            ],
            r matches Err(e) ==> e.is_backend_fault(),
    {
        let fits = match (config.patch_values(), config.merged_hidden_size()) {
            (Some(len), Some(merged)) => len == self.patch_embed.patch_values
                && config.hidden_size == self.patch_embed.embed_dim && merged
                == self.merger.hidden_size,
            _ => false,
        };
        if !fits || config.hidden_size == 0 || config.spatial_merge_size == 0 {
            return Err(shape_fault());
        }
        let patches = config.patchify(pixels, grid)?;
        let tokens = self.forward(&patches)?;
        proof {
            let cells = grid.height as nat * grid.width as nat;
            let area = config.merge_area();
            let h = config.hidden_size as nat;
            let n = tensor_shape(patches)[0] as nat;
            assert(n == cells * area);
            assert(area > 0) by (nonlinear_arith)
                requires
                    area == config.spatial_merge_size as nat * config.spatial_merge_size as nat,
                    config.spatial_merge_size > 0,
            ;
            assert((n * h) / (h * area) == cells) by (nonlinear_arith)
                requires
                    n == cells * area,
                    h > 0,
                    area > 0,
            ;
        }
        Ok(tokens)
    }
}

/// A vision-language model, as far as its input goes: the vision tower, the
/// embeddings of the text tokens, and the table of rotation frequencies.
pub struct Qwen3VLModel {
    vision_model: Qwen3VLVisionModel,
    embedding: Embedding,
    rope: Qwen3VLTextRotaryEmbedding,
    config: Qwen3VLConfig,
}

impl Qwen3VLModel {
    pub fn from_parts(
        config: Qwen3VLConfig,
        vision_model: Qwen3VLVisionModel,
        embedding: Embedding,
        rope: Qwen3VLTextRotaryEmbedding,
    ) -> (r: Qwen3VLModel)
        ensures
            r.spec_config() == config,
            r.spec_rope() == rope,
    {
        Qwen3VLModel { vision_model, embedding, rope, config }
    }

    pub closed spec fn spec_config(&self) -> Qwen3VLConfig {
        self.config
    }

    /// The table of rotation frequencies that the model was made with.
    pub closed spec fn spec_rope(&self) -> Qwen3VLTextRotaryEmbedding {
        self.rope
    }

    pub fn config(&self) -> (r: &Qwen3VLConfig)
        ensures
            *r == self.spec_config(),
    {
        &self.config
    }

    /// The table of rotation frequencies of the text model.
    pub fn rope(&self) -> (rope: &Qwen3VLTextRotaryEmbedding)
        ensures
            *rope == self.spec_rope(),
    {
        &self.rope
    }

    /// The embeddings that the language model starts from. Without an image
    /// these are the embeddings of the text tokens, whatever the shape of the
    /// ids. With the pixels of an image and their grid, the ids are one row;
    /// the tower turns the pixels into tokens, and these take the places of
    /// the image tokens in the row, in order. A row that does not hold as
    /// many image tokens as the grid has cells is refused.
    pub fn forward(
        &self,
        input_ids: &Tensor,
        pixel_values: Option<&Tensor>,
        image_grid_thw: Option<&Tensor>,
    ) -> (r: Result<Tensor, EngineError>)
        ensures
            r matches Ok(out) ==> pixel_values is Some && image_grid_thw is Some ==> tensor_shape(
                out,
            ).len() == 3 && tensor_shape(out)[0] == 1,
            r matches Err(e) ==> e.is_backend_fault(),
    {
        let inputs_embeds = embed(&self.embedding, input_ids)?;
        match (pixel_values, image_grid_thw) {
            (Some(pixels), Some(grid)) => self.splice(input_ids, inputs_embeds, pixels, grid),
            _ => Ok(inputs_embeds),
        }
    }

    /// The grid that a tensor of three counts names: one frame, then the
    /// tokens from top to bottom and from left to right. Any other number of
    /// counts, and any other number of frames, is refused.
    fn read_grid(grid: &Tensor) -> (r: Result<VisionGridTHW, EngineError>)
        ensures
            r matches Ok(cells) ==> cells.temporal == 1 && tensor_entries(*grid) == seq![
                1u32,
                cells.height,
                cells.width,
            ],
            on_cpu(device_of(*grid)) && countable(tensor_shape(*grid)) && castable(dtype_of(*grid))
                && tensor_entries(*grid).len() == 3 && tensor_entries(*grid)[0] == 1 ==> r is Ok,
            r matches Err(e) ==> e.is_backend_fault(),
    {
        let flat = flattened(grid)?;
        let counts = integers(&flat)?;
        if counts.len() != 3 || counts[0] != 1 {
            return Err(shape_fault());
        }
        assert(counts@ =~= seq![1u32, counts[1], counts[2]]);
        Ok(VisionGridTHW { temporal: counts[0], height: counts[1], width: counts[2] })
    }

    /// The pixels of one image by channel, row and column: a batch of one
    /// image without its first dimension, and an image as it is. Pixels in
    /// any other shape are refused.
    fn single_image(pixels: &Tensor) -> (r: Result<Tensor, EngineError>)
        ensures
            r matches Ok(image) ==> {
                let shape = tensor_shape(*pixels);
                if shape.len() == 4 {
                    shape[0] == 1 && tensor_shape(image) == shape.subrange(1, 4)
                } else {
                    shape.len() == 3 && tensor_shape(image) == shape
                }
            },
            !(tensor_shape(*pixels).len() == 4 && tensor_shape(*pixels)[0] == 1) && tensor_shape(
                *pixels,
            ).len() != 3 ==> r is Err,
            on_cpu(device_of(*pixels)) && countable(tensor_shape(*pixels)) && ((tensor_shape(
                *pixels,
            ).len() == 4 && tensor_shape(*pixels)[0] == 1) || tensor_shape(*pixels).len() == 3)
                ==> r is Ok,
            r matches Err(e) ==> e.is_backend_fault(),
    {
        let dims = tensor_dims(pixels);
        if dims.len() == 4 && dims[0] == 1 {
            let mut inner: Vec<usize> = Vec::new();
            inner.push(dims[1]);
            inner.push(dims[2]);
            inner.push(dims[3]);
            assert(inner@ =~= dims@.subrange(1, 4));
            proof {
                let rest = dims@.subrange(1, 4);
                assert(dims@ =~= rest.insert(0, 1usize));
                crate::tensor_ops::lemma_insert_one(rest, 0);
            }
            reshape(pixels, &inner)
        } else if dims.len() == 3 {
            contiguous(pixels)
        } else {
            Err(shape_fault())
        }
    }

    fn splice(&self, input_ids: &Tensor, embeds: Tensor, pixels: &Tensor, grid: &Tensor) -> (r:
        Result<Tensor, EngineError>)
        ensures
            r matches Ok(out) ==> tensor_shape(out).len() == 3 && tensor_shape(out)[0] == 1,
            r matches Err(e) ==> e.is_backend_fault(),
    {
        let grid = Self::read_grid(grid)?;
        let image = Self::single_image(pixels)?;
        let features = self.vision_model.encode_image(&self.config.vision_config, &image, &grid)?;
        let flat_ids = flattened(input_ids)?;
        let ids = integers(&flat_ids)?;
        if ids.len() > u32::MAX as usize {
            return Err(shape_fault());
        }
        let seq_len = ids.len();
        let dims = tensor_dims(&embeds);
        if !(dims.len() == 3 && dims[0] == 1 && dims[1] == seq_len) {
            return Err(shape_fault());
        }
        let width = dims[2];
        let (positions, flags) = token_positions(&ids, self.config.image_token_id);
        let feature_dims = tensor_dims(&features);
        if !(feature_dims.len() == 2 && feature_dims[0] == positions.len() && feature_dims[1]
            == width) {
            return Err(shape_fault());
        }
        let mut flat: Vec<usize> = Vec::new();
        flat.push(seq_len);
        flat.push(width);
        let rows = reshape(&embeds, &flat)?;
        let keep = values_like(&flags, &embeds)?;
        let keep = cast_like(&keep, &embeds)?;
        let keep = unsqueezed(&keep, 1)?;
        let text = broadcast_mul(&rows, &keep)?;
        let places = values_like(&positions, &embeds)?;
        let features = cast_like(&features, &embeds)?;
        let joined = index_add_rows(&text, &places, &features)?;
        let mut whole: Vec<usize> = Vec::new();
        whole.push(1);
        whole.push(seq_len);
        whole.push(width);
        reshape(&joined, &whole)
    }
}

/// An image made ready for the vision tower.
pub struct ProcessedImage {
    /// The normalised colours: one batch of channels by rows by columns.
    pub pixel_values: Tensor,
    /// The grid of the image: one row of the three counts.
    pub image_grid_thw: Tensor,
    /// The size to which the image was brought, and its grid.
    pub layout: ImageLayout,
}

/// Makes images ready for the vision tower.
pub struct Qwen3VLProcessor {
    config: Qwen3VLConfig,
    image_mean: Tensor,
    image_std: Tensor,
}

impl Qwen3VLProcessor {
    /// The sizes that the processor works for.
    pub closed spec fn spec_config(&self) -> Qwen3VLConfig {
        self.config
    }

    #[verifier::type_invariant]
    spec fn well_formed(&self) -> bool {
        &&& tensor_shape(self.image_mean) == seq![3usize, 1usize, 1usize]
        &&& tensor_shape(self.image_std) == seq![3usize, 1usize, 1usize]
        &&& is_float(dtype_of(self.image_mean))
        &&& dtype_of(self.image_std) == dtype_of(self.image_mean)
    }

    /// The statistics of the processor lie on the processor of the machine.
    pub closed spec fn at_home(&self) -> bool {
        on_cpu(device_of(self.image_mean)) && on_cpu(device_of(self.image_std))
    }

    /// The statistics of a channel, given in parts of a hundred million, as
    /// one value for each channel, in floats of the type `dtype`.
    fn statistics(parts: [u32; 3], device: &Device, dtype: DType) -> (r: Result<
        Tensor,
        EngineError,
    >)
        ensures
            r matches Ok(t) ==> tensor_shape(t) == seq![3usize, 1usize, 1usize] && dtype_of(t)
                == dtype && device_of(t) == *device,
            on_cpu(*device) && is_float(dtype) ==> r is Ok,
            r matches Err(e) ==> e.is_backend_fault(),
    {
        let mut list: Vec<u32> = Vec::new();
        list.push(parts[0]);
        list.push(parts[1]);
        list.push(parts[2]);
        let whole = settled(values_tensor(&list, device))?;
        let floats = cast(&whole, dtype)?;
        let shares = divided(&floats, 100_000_000)?;
        let mut dims: Vec<usize> = Vec::new();
        dims.push(3);
        dims.push(1);
        dims.push(1);
        proof {
            assert(dims@ =~= seq![3usize, 1usize, 1usize]);
            assert(tensor_shape(shares) =~= seq![3usize]);
            crate::tensor_ops::lemma_three_counts(3, 1, 1);
            crate::tensor_ops::lemma_small_counts(3, 1);
        }
        reshape(&shares, &dims)
    }

    /// The processor for a model, with the colour statistics that its vision
    /// tower was trained on. On the processor of the machine it is always
    /// made.
    pub fn new(config: &Qwen3VLConfig, device: &Device) -> (r: Result<
        Qwen3VLProcessor,
        EngineError,
    >)
        ensures
            r matches Ok(p) ==> p.spec_config() == *config && p.at_home() == on_cpu(*device),
            on_cpu(*device) ==> r is Ok,
            r matches Err(e) ==> e.is_backend_fault(),
    {
        let dtype = float_entries();
        let image_mean = Self::statistics([48_145_466, 45_782_750, 40_821_073], device, dtype)?;
        let image_std = Self::statistics([26_862_954, 26_130_258, 27_577_710], device, dtype)?;
        Ok(Qwen3VLProcessor { config: *config, image_mean, image_std })
    }

    /// The image has a layout for the tower, and neither the image in its
    /// new size nor the image on the way to it, which has the old width and
    /// the new height, has more pixels than the largest image.
    pub open spec fn is_within_reach(&self, img: DynamicImage) -> bool {
        match self.spec_config().vision_config.layout_for(
            image_extent(img).1,
            image_extent(img).0,
        ) {
            Ok(layout) => layout.resized_width * layout.resized_height <= LARGEST_IMAGE
                && image_extent(img).0 * layout.resized_height <= LARGEST_IMAGE,
            Err(_) => false,
        }
    }

    /// The pixels of an image, brought to the size of the tower and
    /// normalised, and the grid of tokens they give. On the processor of the
    /// machine every image within reach is processed.
    pub fn process_image(&self, img: &DynamicImage, device: &Device) -> (r: Result<
        ProcessedImage,
        EngineError,
    >)
        ensures
            self.spec_config().vision_config.layout_for(
                image_extent(*img).1,
                image_extent(*img).0,
            ) matches Err(e) ==> r == Err::<ProcessedImage, EngineError>(
                EngineError::Input(InputError::Image(e)),
            ),
            r matches Ok(done) ==> {
                let vision = self.spec_config().vision_config;
                &&& Ok::<ImageLayout, GeometryError>(done.layout) == vision.layout_for(
                    image_extent(*img).1,
                    image_extent(*img).0,
                )
                &&& tensor_entries(done.image_grid_thw) == seq![
                    1u32,
                    done.layout.grid.height,
                    done.layout.grid.width,
                ]
                &&& tensor_shape(done.pixel_values) == seq![
                    1usize,
                    3usize,
                    done.layout.resized_height as usize,
                    done.layout.resized_width as usize,
                ]
                &&& tensor_shape(done.image_grid_thw) == seq![1usize, 3usize]
                &&& done.layout.grid.temporal == 1
                &&& done.layout.grid.height * vision.patch_size * vision.spatial_merge_size
                    == done.layout.resized_height
                &&& done.layout.grid.width * vision.patch_size * vision.spatial_merge_size
                    == done.layout.resized_width
            },
            self.at_home() && on_cpu(*device) && self.is_within_reach(*img) ==> r is Ok,
            r matches Err(e) ==> e.is_image_fault(),
    {
        proof {
            use_type_invariant(self);
        }
        let rgb = crate::backend::image_to_rgb(img);
        let height = crate::backend::image_height(&rgb);
        let width = crate::backend::image_width(&rgb);
        let layout = match self.config.vision_config.layout(height, width) {
            Ok(layout) => layout,
            Err(e) => {
                return Err(image_fault(e));
            },
        };
        let sized = resized(
            &rgb,
            layout.resized_width,
            layout.resized_height,
            ResizeFilter::CatmullRom,
        )?;
        proof {
            let (h, w) = (layout.resized_height as nat, layout.resized_width as nat);
            if w * h <= LARGEST_IMAGE {
                assert(3 * w * h <= usize::MAX) by (nonlinear_arith)
                    requires
                        w * h <= 67_108_864,
                        usize::MAX >= 0xFFFF_FFFF,
                ;
            }
        }
        let pixels = img_transform(
            &sized,
            &self.image_mean,
            &self.image_std,
            device,
            float_entries(),
        )?;
        let mut batch: Vec<usize> = Vec::new();
        batch.push(1);
        batch.push(3);
        batch.push(layout.resized_height as usize);
        batch.push(layout.resized_width as usize);
        proof {
            let (h, w) = (layout.resized_height as usize, layout.resized_width as usize);
            assert(batch@ =~= seq![1usize, 3usize, h, w]);
            assert(tensor_shape(pixels) =~= seq![3usize, h, w]);
            crate::tensor_ops::lemma_three_counts(3, h, w);
            crate::tensor_ops::lemma_four_counts(1, 3, h, w);
            assert(3 * h <= 3 * w * h && 3 * h * w == 3 * w * h && 1 * 3 * h == 3 * h && 1 * 3 * h
                * w == 3 * h * w && 1 * 3 == 3) by (nonlinear_arith)
                requires
                    w >= 1,
                    h >= 1,
            ;
            if w * h <= LARGEST_IMAGE {
                assert(3 * w * h <= usize::MAX) by (nonlinear_arith)
                    requires
                        w * h <= 67_108_864,
                        usize::MAX >= 0xFFFF_FFFF,
                ;
            }
        }
        let pixel_values = reshape(&pixels, &batch)?;
        let dims = tensor_dims(&pixel_values);
        if !(dims.len() == 4 && dims[0] == 1 && dims[1] == 3 && dims[2]
            == layout.resized_height as usize && dims[3] == layout.resized_width as usize) {
            return Err(shape_fault());
        }
        assert(tensor_shape(pixel_values) =~= seq![
            1usize,
            3usize,
            layout.resized_height as usize,
            layout.resized_width as usize,
        ]);
        let mut counts: Vec<u32> = Vec::new();
        counts.push(layout.grid.temporal);
        counts.push(layout.grid.height);
        counts.push(layout.grid.width);
        let flat = settled(values_tensor(&counts, device))?;
        let mut row: Vec<usize> = Vec::new();
        row.push(1);
        row.push(3);
        proof {
            assert(row@ =~= seq![1usize, 3usize]);
            assert(tensor_shape(flat) =~= seq![3usize]);
            crate::tensor_ops::lemma_small_counts(1, 3);
            crate::tensor_ops::lemma_small_counts(3, 1);
        }
        let image_grid_thw = reshape(&flat, &row)?;
        Ok(ProcessedImage { pixel_values, image_grid_thw, layout })
    }
}

/// A vision-language model with its tokenizer and its image processor, on
/// the device it computes on.
pub struct Qwen3VLInferenceEngine {
    model: Qwen3VLModel,
    tokenizer: Tokenizer,
    processor: Qwen3VLProcessor,
    device: Device,
}

impl Qwen3VLInferenceEngine {
    /// An engine on a model whose weights were read, with the processor for
    /// its images. On the processor of the machine it is always made.
    pub fn from_parts(model: Qwen3VLModel, tokenizer: Tokenizer, device: Device) -> (r: Result<
        Qwen3VLInferenceEngine,
        EngineError,
    >)
        ensures
            on_cpu(device) ==> r is Ok,
            r matches Err(e) ==> e.is_backend_fault(),
    {
        let processor = Qwen3VLProcessor::new(model.config(), &device)?;
        Ok(Qwen3VLInferenceEngine { model, tokenizer, processor, device })
    }

    /// The embeddings that the language model starts from for a prompt and,
    /// where one is given, an image: the image is made ready first, then the
    /// prompt is turned into tokens, and the tokens of the image take the
    /// places of the image tokens of the prompt.
    pub fn embed_prompt(&self, prompt: &str, image: Option<&DynamicImage>) -> (r: Result<
        Tensor,
        EngineError,
    >)
        ensures
            r matches Ok(embeddings) ==> image is Some ==> tensor_shape(embeddings).len() == 3
                && tensor_shape(embeddings)[0] == 1,
            r matches Err(e) ==> e.is_image_fault() || e matches EngineError::Input(
                InputError::Encoding(_),
            ),
    {
        let done = match image {
            Some(img) => Some(self.processor.process_image(img, &self.device)?),
            None => None,
        };
        let ids = match tokenizer_encode(&self.tokenizer, prompt, true) {
            Ok(ids) => ids,
            Err(text) => {
                return Err(EngineError::Input(InputError::Encoding(text)));
            },
        };
        let input_ids = row_of(&ids, &self.device)?;
        match &done {
            Some(done) => self.model.forward(
                &input_ids,
                Some(&done.pixel_values),
                Some(&done.image_grid_thw),
            ),
            None => self.model.forward(&input_ids, None, None),
        }
    }
}

} // verus!
