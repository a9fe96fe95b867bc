//! Rotary position embeddings, for text and for the three axes of images.

use candle_core::{DType, Device, Tensor};
use vstd::prelude::*;
use crate::backend::{
    countable,
    agree_but_at,
    broadcast_shape,
    cast_to,
    castable,
    device_of,
    on_cpu,
    stretches,
    dtype_of,
    is_float,
    joined,
    laid_out,
    narrowed,
    negated,
    product,
    sum_of,
    tensor_dims,
    tensor_shape,
    values_tensor,
};
use crate::error::{EngineError, LoadError};
use crate::tensor_ops::{
    added,
    broadcast_matmul,
    broadcast_mul,
    cast,
    cast_like,
    cat,
    contiguous,
    cos,
    divided,
    exp,
    lemma_broadcast_one,
    log,
    narrow,
    neg,
    reshape,
    scalar_like,
    settled,
    shape_fault,
    sin,
    taken,
    to_floats,
    transposed,
    unsqueezed,
};

verus! {

/// The part of the rotation frequencies that one axis of positions fills.
#[derive(Debug, Clone, Copy, PartialEq, Eq, Structural)]
pub struct Section {
    /// The axis: 0 for time, 1 for height, 2 for width.
    pub axis: usize,
    /// The first frequency of the part.
    pub start: usize,
    /// The number of frequencies in the part.
    pub len: usize,
}

/// The sum of the first `n` sizes.
pub open spec fn sizes_before(sizes: Seq<usize>, n: int) -> nat
    decreases n,
{
    if n <= 0 {
        0
    } else {
        sizes_before(sizes, n - 1) + sizes[n - 1] as nat
    }
}

/// The three parts for a partition of the frequencies into sizes by axis:
/// the part of an axis starts where the parts of the axes before it end.
/// Only the first three sizes count. Fewer than three sizes are refused, and
/// so are sizes whose sum does not fit the machine word.
pub fn mrope_sections(sizes: &Vec<usize>) -> (r: Option<[Section; 3]>)
    ensures
        sizes.len() < 3 || sizes_before(sizes@, 3) > usize::MAX ==> r is None,
        sizes.len() >= 3 && sizes_before(sizes@, 3) <= usize::MAX ==> r is Some && forall|i: int|
            0 <= i < 3 ==> (#[trigger] r.unwrap()[i]) == (Section {
                axis: i as usize,
                start: sizes_before(sizes@, i) as usize,
                len: sizes[i],
            }),
{
    if sizes.len() < 3 {
        return None;
    }
    assert(sizes_before(sizes@, 1) == sizes[0]) by {
        reveal_with_fuel(sizes_before, 2);
    }
    assert(sizes_before(sizes@, 2) == sizes[0] + sizes[1]) by {
        reveal_with_fuel(sizes_before, 3);
    }
    assert(sizes_before(sizes@, 3) == sizes[0] + sizes[1] + sizes[2]) by {
        reveal_with_fuel(sizes_before, 4);
    }
    if sizes[0] > usize::MAX - sizes[1] {
        return None;
    }
    let second = sizes[0] + sizes[1];
    if second > usize::MAX - sizes[2] {
        return None;
    }
    Some(
        [
            Section { axis: 0, start: 0, len: sizes[0] },
            Section { axis: 1, start: sizes[0], len: sizes[1] },
            Section { axis: 2, start: second, len: sizes[2] },
        ],
    )
}

/// The shape of a tensor with its last dimension brought to an even size:
/// two halves of the size of the last dimension halved and rounded down.
pub open spec fn halved_twice(shape: Seq<usize>) -> Seq<usize> {
    shape.update(shape.len() - 1, (2 * (shape.last() / 2)) as usize)
}

/// A tensor with the two halves of its last dimension in each other's
/// place, and the sign turned of what was the second half: the second half
/// of the last dimension, with its sign turned, and after it the first half,
/// laid out row by row.
pub open spec fn half_turned(x: Tensor) -> Tensor {
    let last = (tensor_shape(x).len() - 1) as usize;
    let half = tensor_shape(x)[last as int] / 2;
    laid_out(joined(negated(narrowed(x, last, half, half)), narrowed(x, last, 0, half), last))
}

/// One tensor rotated by cosines and sines: the tensor times the cosines,
/// plus the tensor with its halves turned times the sines.
pub open spec fn rotated(x: Tensor, cos: Tensor, sin: Tensor) -> Tensor {
    sum_of(product(x, cos), product(half_turned(x), sin))
}

/// The shapes are such that a tensor of the first can be rotated by cosines
/// of the second and sines of the third: the tensor stretches to the
/// cosines, the tensor with its halves turned to the sines, and both
/// products have one shape.
pub open spec fn can_rotate(x: Seq<usize>, cos: Seq<usize>, sin: Seq<usize>) -> bool {
    x.len() > 0 && stretches(x, cos) && stretches(halved_twice(x), sin) && broadcast_shape(x, cos)
        == broadcast_shape(halved_twice(x), sin)
}

/// Swaps the two halves of the last dimension and turns the sign of what was
/// the second half: the pairing by which a rotation of pairs is computed. A
/// last dimension of odd size loses its last entry. Entries that are no
/// floats are refused; on the processor of the machine every tensor of
/// floats that has a dimension is turned.
pub fn rotate_half(x: &Tensor) -> (r: Result<Tensor, EngineError>)
    ensures
        tensor_shape(*x).len() == 0 ==> r is Err,
        r matches Ok(turned) ==> tensor_shape(*x).len() > 0 && tensor_shape(turned)
            == halved_twice(tensor_shape(*x)) && turned == half_turned(*x) && dtype_of(turned)
            == dtype_of(*x) && device_of(turned) == device_of(*x),
        tensor_shape(*x).len() > 0 && is_float(dtype_of(*x)) && on_cpu(device_of(*x)) ==> r is Ok,
        r matches Err(e) ==> e.is_backend_fault(),
{
    let dims = tensor_dims(x);
    if dims.len() == 0 {
        return Err(shape_fault());
    }
    let last = dims.len() - 1;
    let half = dims[last] / 2;
    let first = narrow(x, last, 0, half)?;
    let second = narrow(x, last, half, half)?;
    let second = neg(&second)?;
    assert(agree_but_at(tensor_shape(second), tensor_shape(first), last as int));
    let joined = cat(&second, &first, last)?;
    let r = contiguous(&joined)?;
    assert(tensor_shape(r) =~= halved_twice(tensor_shape(*x)));
    Ok(r)
}

/// Rotates one tensor by the given cosines and sines: `x * cos` plus
/// `rotate_half(x) * sin`, with the cosines and sines stretched to the
/// tensor.
pub fn rotate(x: &Tensor, cos: &Tensor, sin: &Tensor) -> (r: Result<Tensor, EngineError>)
    ensures
        r matches Ok(out) ==> out == rotated(*x, *cos, *sin) && tensor_shape(out)
            == broadcast_shape(tensor_shape(*x), tensor_shape(*cos)),
        is_float(dtype_of(*x)) && dtype_of(*cos) == dtype_of(*x) && dtype_of(*sin) == dtype_of(*x)
            && on_cpu(device_of(*x)) && on_cpu(device_of(*cos)) && on_cpu(device_of(*sin))
            && can_rotate(tensor_shape(*x), tensor_shape(*cos), tensor_shape(*sin)) ==> r is Ok,
        r matches Err(e) ==> e.is_backend_fault(),
{
    let straight = broadcast_mul(x, cos)?;
    let turned = rotate_half(x)?;
    let turned = broadcast_mul(&turned, sin)?;
    added(&straight, &turned)
}

/// Rotates queries and keys by the cosines and sines of their positions. The
/// cosines and sines are first brought to the type of the entries of the
/// queries.
pub fn apply_rotary_pos_emb(q: &Tensor, k: &Tensor, cos: &Tensor, sin: &Tensor) -> (r: Result<
    (Tensor, Tensor),
    EngineError,
>)
    ensures
        r matches Ok(pair) ==> pair.0 == rotated(
            *q,
            cast_to(*cos, dtype_of(*q)),
            cast_to(*sin, dtype_of(*q)),
        ) && pair.1 == rotated(*k, cast_to(*cos, dtype_of(*q)), cast_to(*sin, dtype_of(*q)))
            && tensor_shape(pair.0) == broadcast_shape(tensor_shape(*q), tensor_shape(*cos))
            && tensor_shape(pair.1) == broadcast_shape(tensor_shape(*k), tensor_shape(*cos)),
        is_float(dtype_of(*q)) && dtype_of(*k) == dtype_of(*q) && castable(dtype_of(*cos))
            && castable(dtype_of(*sin)) && on_cpu(device_of(*q)) && on_cpu(device_of(*k))
            && on_cpu(device_of(*cos)) && on_cpu(device_of(*sin)) && can_rotate(
            tensor_shape(*q),
            tensor_shape(*cos),
            tensor_shape(*sin),
        ) && can_rotate(tensor_shape(*k), tensor_shape(*cos), tensor_shape(*sin)) ==> r is Ok,
        r matches Err(e) ==> e.is_backend_fault(),
{
    let cos = cast_like(cos, q)?;
    let sin = cast_like(sin, q)?;
    let q_embed = rotate(q, &cos, &sin)?;
    let k_embed = rotate(k, &cos, &sin)?;
    Ok((q_embed, k_embed))
}

/// The first `count` even numbers, from zero on.
pub fn even_numbers(count: u32) -> (r: Vec<u32>)
    requires
        2 * count <= u32::MAX,
    ensures
        r.len() == count,
        forall|i: int| 0 <= i < count ==> r[i] == 2 * i,
{
    let mut values: Vec<u32> = Vec::new();
    let mut i: u32 = 0;
    while i < count
        invariant
            i <= count,
            2 * count <= u32::MAX,
            values.len() == i,
            forall|j: int| 0 <= j < i ==> values[j] == 2 * j,
        decreases count - i,
    {
        values.push(2 * i);
        i = i + 1;
    }
    values
}

/// The inverse frequencies for heads of `dim` features and the base
/// `theta_base`: for every pair of features, that is for `i` below `dim / 2`,
/// one over the base to the power `2 * i / dim`, computed as the exponential
/// of minus `2 * i / dim` times the logarithm of the base. A base of zero is
/// refused, and so are more features than 32 bits count.
pub fn inverse_frequencies(dim: usize, theta_base: u32, device: &Device) -> (r: Result<
    Tensor,
    EngineError,
>)
    ensures
        theta_base == 0 || dim > u32::MAX ==> r matches Err(
            EngineError::Load(LoadError::ArchitectureMismatch(_)),
        ),
        r matches Ok(t) ==> tensor_shape(t) == seq![dim / 2],
        r matches Err(e) ==> e.is_backend_fault() || e matches EngineError::Load(
            LoadError::ArchitectureMismatch(_),
        ),
{
    if theta_base == 0 {
        return Err(
            EngineError::Load(LoadError::ArchitectureMismatch("no rotary base".to_owned())),
        );
    }
    if dim > u32::MAX as usize {
        return Err(
            EngineError::Load(LoadError::ArchitectureMismatch("too many features".to_owned())),
        );
    }
    let numbers = even_numbers((dim / 2) as u32);
    let whole = settled(values_tensor(&numbers, device))?;
    let whole = to_floats(&whole)?;
    let exponents = divided(&whole, dim as u32)?;
    let base = scalar_like(theta_base, &exponents)?;
    let scale = log(&base)?;
    proof {
        lemma_broadcast_one(tensor_shape(exponents));
    }
    let products = broadcast_mul(&exponents, &scale)?;
    let turned = neg(&products)?;
    exp(&turned)
}

/// The table of rotation frequencies of a text model that also places the
/// patches of images: one inverse frequency for every pair of features of a
/// head.
pub struct Qwen3VLTextRotaryEmbedding {
    inv_freq: Tensor,
    count: usize,
}

impl Qwen3VLTextRotaryEmbedding {
    #[verifier::type_invariant]
    spec fn well_formed(&self) -> bool {
        tensor_shape(self.inv_freq) == seq![self.count]
    }

    /// The number of inverse frequencies.
    pub closed spec fn frequencies(&self) -> usize {
        self.count
    }

    /// The table for heads of `dim` features and the base `theta_base`.
    pub fn new(dim: usize, theta_base: u32, device: &Device) -> (r: Result<
        Qwen3VLTextRotaryEmbedding,
        EngineError,
    >)
        ensures
            theta_base == 0 || dim > u32::MAX ==> r matches Err(
                EngineError::Load(LoadError::ArchitectureMismatch(_)),
            ),
            r matches Ok(table) ==> table.frequencies() == dim / 2,
            r matches Err(e) ==> e.is_backend_fault() || e matches EngineError::Load(
                LoadError::ArchitectureMismatch(_),
            ),
    {
        let inv_freq = inverse_frequencies(dim, theta_base, device)?;
        Ok(Qwen3VLTextRotaryEmbedding { inv_freq, count: dim / 2 })
    }

    /// The inverse frequencies of the table, one row of them.
    pub fn inv_freq(&self) -> (r: &Tensor)
        ensures
            tensor_shape(*r) == seq![self.frequencies()],
    {
        proof {
            use_type_invariant(self);
        }
        &self.inv_freq
    }

    /// The table for the given inverse frequencies, which must be a tensor of
    /// one dimension.
    pub fn from_frequencies(inv_freq: Tensor) -> (r: Result<Qwen3VLTextRotaryEmbedding, EngineError>)
        ensures
            tensor_shape(inv_freq).len() != 1 ==> r is Err,
            tensor_shape(inv_freq).len() == 1 ==> r is Ok && r.unwrap().frequencies()
                == tensor_shape(inv_freq)[0],
            r matches Err(e) ==> e.is_backend_fault(),
    {
        let dims = tensor_dims(&inv_freq);
        if dims.len() != 1 {
            return Err(shape_fault());
        }
        assert(tensor_shape(inv_freq) =~= seq![dims[0]]);
        Ok(Qwen3VLTextRotaryEmbedding { inv_freq, count: dims[0] })
    }

    /// The cosines and sines for positions on three axes. `position_ids`
    /// holds, for each axis, one row of positions for each item of the batch.
    /// The frequencies are multiplied with the positions of each axis; from
    /// the products of each axis the part is taken that `mrope_section` gives
    /// to it; the parts are put one after the other and then doubled along
    /// the features. The result is in the type `dtype`.
    pub fn forward(&self, position_ids: &Tensor, dtype: DType, mrope_section: &Vec<usize>) -> (r:
        Result<(Tensor, Tensor), EngineError>)
        ensures
            mrope_section.len() < 3 ==> r is Err,
            tensor_shape(*position_ids).len() != 3 ==> r is Err,
            r matches Ok(pair) ==> tensor_shape(*position_ids).len() == 3 && tensor_shape(pair.1)
                == tensor_shape(pair.0) && tensor_shape(pair.0) == seq![
                tensor_shape(*position_ids)[1],
                tensor_shape(*position_ids)[2],
                (2 * sizes_before(mrope_section@, 3)) as usize,
            ],
            r matches Err(e) ==> e.is_backend_fault(),
    {
        proof {
            use_type_invariant(self);
        }
        let sections = match mrope_sections(mrope_section) {
            Some(sections) => sections,
            None => {
                return Err(shape_fault());
            },
        };
        let positions = to_floats(position_ids)?;
        let mut column: Vec<usize> = Vec::new();
        column.push(1);
        column.push(1);
        column.push(self.count);
        column.push(1);
        let column = reshape(&self.inv_freq, &column)?;
        let rank = tensor_dims(&positions).len();
        if rank == 0 {
            return Err(shape_fault());
        }
        if rank != 3 {
            return Err(shape_fault());
        }
        let rows = unsqueezed(&positions, rank - 1)?;
        let freqs = broadcast_matmul(&column, &rows)?;
        proof {
            let p = tensor_shape(*position_ids);
            assert(tensor_shape(rows) =~= seq![p[0], p[1], 1usize, p[2]]);
            assert(tensor_shape(column).take(2) =~= seq![1usize, 1usize]);
            assert(tensor_shape(rows).take(2) =~= seq![p[0], p[1]]);
            assert(broadcast_shape(seq![1usize, 1usize], seq![p[0], p[1]]) =~= seq![p[0], p[1]]);
            assert(tensor_shape(freqs) =~= seq![p[0], p[1], self.count, p[2]]);
        }
        let freqs = transposed(&freqs, 2, 3)?;
        assert(tensor_shape(freqs) =~= seq![
            tensor_shape(*position_ids)[0],
            tensor_shape(*position_ids)[1],
            tensor_shape(*position_ids)[2],
            self.count,
        ]);
        self.apply_mrope(&freqs, &sections, dtype)
    }

    fn apply_mrope(&self, freqs: &Tensor, sections: &[Section; 3], dtype: DType) -> (r: Result<
        (Tensor, Tensor),
        EngineError,
    >)
        requires
            sections[0].len + sections[1].len + sections[2].len <= usize::MAX,
        ensures
            r matches Ok(pair) ==> tensor_shape(*freqs).len() == 4 && tensor_shape(pair.1)
                == tensor_shape(pair.0) && tensor_shape(pair.0) == seq![
                tensor_shape(*freqs)[1],
                tensor_shape(*freqs)[2],
                (2 * (sections[0].len + sections[1].len + sections[2].len)) as usize,
            ],
            r matches Err(e) ==> e.is_backend_fault(),
    {
        if tensor_dims(freqs).len() != 4 {
            return Err(shape_fault());
        }
        if sections[0].len + sections[1].len + sections[2].len > usize::MAX / 2 {
            return Err(shape_fault());
        }
        let time = self.axis_part(freqs, &sections[0])?;
        let height = self.axis_part(freqs, &sections[1])?;
        let width = self.axis_part(freqs, &sections[2])?;
        let joined = cat(&time, &height, 2)?;
        let joined = cat(&joined, &width, 2)?;
        let doubled = cat(&joined, &joined, 2)?;
        let cosines = cos(&doubled)?;
        let sines = sin(&doubled)?;
        let cosines = cast(&cosines, dtype)?;
        let sines = cast(&sines, dtype)?;
        Ok((cosines, sines))
    }

    /// The frequencies of one axis, cut down to the part of that axis.
    fn axis_part(&self, freqs: &Tensor, section: &Section) -> (r: Result<Tensor, EngineError>)
        requires
            tensor_shape(*freqs).len() == 4,
        ensures
            r matches Ok(part) ==> tensor_shape(part).len() == 3 && tensor_shape(part)[2]
                == section.len && tensor_shape(part)[0] == tensor_shape(*freqs)[1]
                && tensor_shape(part)[1] == tensor_shape(*freqs)[2],
            section.axis < tensor_shape(*freqs)[0] && section.start + section.len <= tensor_shape(
                *freqs,
            )[3] && on_cpu(device_of(*freqs)) && countable(tensor_shape(*freqs)) ==> r is Ok,
            r matches Err(e) ==> e.is_backend_fault(),
    {
        let axis = taken(freqs, section.axis)?;
        narrow(&axis, 2, section.start, section.len)
    }
}

} // verus!
