//! Helpers on tensors of indices and sizes.

use candle_core::{Device, Tensor};
use vstd::prelude::*;
use crate::backend::{
    holds_unsigned,
    castable,
    device_of,
    dtype_of,
    on_cpu,
    tensor_entries,
    tensor_shape,
    values_tensor,
};
use crate::error::EngineError;
use crate::tensor_ops::{
    cast,
    above,
    added,
    cast_like,
    expand,
    index_add_rows,
    integers,
    log,
    narrow,
    reshape,
    settled,
    shape_fault,
    to_floats,
    to_unsigned,
    values_like,
};

verus! {

/// The positions of the entries that are not zero, in rising order.
pub open spec fn nonzero_positions(mask: Seq<u32>) -> Seq<u32>
    decreases mask.len(),
{
    if mask.len() == 0 {
        Seq::empty()
    } else if mask.last() != 0 {
        nonzero_positions(mask.drop_last()).push((mask.len() - 1) as u32)
    } else {
        nonzero_positions(mask.drop_last())
    }
}

/// The positions of the entries of `mask` that are not zero.
pub fn nonzero_indices(mask: &Vec<u32>) -> (r: Vec<u32>)
    requires
        mask.len() <= u32::MAX,
    ensures
        r@ == nonzero_positions(mask@),
{
    let mut found: Vec<u32> = Vec::new();
    let mut i: usize = 0;
    while i < mask.len()
        invariant
            i <= mask.len() <= u32::MAX,
            found@ == nonzero_positions(mask@.take(i as int)),
        decreases mask.len() - i,
    {
        assert(mask@.take(i + 1).drop_last() =~= mask@.take(i as int));
        if mask[i] != 0 {
            found.push(i as u32);
        }
        i = i + 1;
    }
    assert(mask@.take(i as int) =~= mask@);
    found
}

/// The product of the entries.
pub open spec fn product_of(values: Seq<u32>) -> nat
    decreases values.len(),
{
    if values.len() == 0 {
        1
    } else {
        product_of(values.drop_last()) * values.last() as nat
    }
}

/// The product of the entries, where it fits 32 bits.
pub fn product(values: &Vec<u32>) -> (r: Option<u32>)
    ensures
        r matches Some(p) ==> p == product_of(values@),
        r is None ==> product_of(values@) > u32::MAX,
{
    let mut total: u32 = 1;
    let mut zero = false;
    let mut overflow = false;
    let mut i: usize = 0;
    while i < values.len()
        invariant
            i <= values.len(),
            zero ==> product_of(values@.take(i as int)) == 0,
            !zero && !overflow ==> total == product_of(values@.take(i as int)),
            !zero && overflow ==> product_of(values@.take(i as int)) > u32::MAX,
            !zero ==> product_of(values@.take(i as int)) > 0,
        decreases values.len() - i,
    {
        assert(values@.take(i + 1).drop_last() =~= values@.take(i as int));
        let ghost before = product_of(values@.take(i as int));
        let v = values[i];
        if v == 0 {
            zero = true;
            assert(before * 0 == 0) by (nonlinear_arith);
        } else if !zero {
            assert(before * v as nat >= before && before * v as nat > 0) by (nonlinear_arith)
                requires
                    before > 0,
                    v >= 1,
            ;
            if !overflow {
                match total.checked_mul(v) {
                    Some(p) => {
                        total = p;
                    },
                    None => {
                        overflow = true;
                    },
                }
            }
        } else {
            assert(0 * v as nat == 0) by (nonlinear_arith);
        }
        i = i + 1;
    }
    assert(values@.take(i as int) =~= values@);
    if zero {
        Some(0)
    } else if overflow {
        None
    } else {
        Some(total)
    }
}

/// The sum of the first `n` entries.
pub open spec fn sum_before(values: Seq<u32>, n: int) -> nat
    decreases n,
{
    if n <= 0 {
        0
    } else {
        sum_before(values, n - 1) + values[n - 1] as nat
    }
}

/// For each entry the sum of all entries before it: where each of several
/// runs of the given lengths starts. `None` where a start does not fit 32
/// bits.
pub fn exclusive_prefix_sums(lens: &Vec<u32>) -> (r: Option<Vec<u32>>)
    ensures
        r matches Some(starts) ==> starts.len() == lens.len() && forall|i: int|
            0 <= i < lens.len() ==> starts[i] == sum_before(lens@, i),
        r is None ==> exists|i: int| 0 <= i < lens.len() && sum_before(lens@, i) > u32::MAX,
{
    let mut starts: Vec<u32> = Vec::new();
    let mut current: u64 = 0;
    let mut i: usize = 0;
    while i < lens.len()
        invariant
            i <= lens.len(),
            starts.len() == i,
            current == sum_before(lens@, i as int),
            current <= i * 0xFFFF_FFFF,
            forall|j: int| 0 <= j < i ==> starts[j] == sum_before(lens@, j),
        decreases lens.len() - i,
    {
        if current > u32::MAX as u64 {
            return None;
        }
        starts.push(current as u32);
        if current > u64::MAX - lens[i] as u64 {
            assert(i * 0xFFFF_FFFF >= 0xFFFF_FFFF_0000_0000);
            return None;
        }
        current = current + lens[i] as u64;
        i = i + 1;
    }
    Some(starts)
}

/// Where each of several pieces of the given lengths starts, and where the
/// last one ends. `None` where the end does not fit the machine word.
pub fn split_offsets(splits: &Vec<usize>) -> (r: Option<Vec<usize>>)
    ensures
        r matches Some(starts) ==> starts.len() == splits.len() + 1 && forall|i: int|
            0 <= i <= splits.len() ==> starts[i] == offset_before(splits@, i),
        r is None ==> offset_before(splits@, splits.len() as int) > usize::MAX,
{
    let mut starts: Vec<usize> = Vec::new();
    let mut current: usize = 0;
    starts.push(0);
    let mut i: usize = 0;
    while i < splits.len()
        invariant
            i <= splits.len(),
            starts.len() == i + 1,
            current == offset_before(splits@, i as int),
            forall|j: int| 0 <= j <= i ==> starts[j] == offset_before(splits@, j),
        decreases splits.len() - i,
    {
        if current > usize::MAX - splits[i] {
            proof {
                lemma_offsets_grow(splits@, i + 1, splits.len() as int);
            }
            return None;
        }
        current = current + splits[i];
        starts.push(current);
        i = i + 1;
    }
    Some(starts)
}

/// The sum of the first `n` lengths.
pub open spec fn offset_before(splits: Seq<usize>, n: int) -> nat
    decreases n,
{
    if n <= 0 {
        0
    } else {
        offset_before(splits, n - 1) + splits[n - 1] as nat
    }
}

/// Later pieces start no earlier.
pub proof fn lemma_offsets_grow(splits: Seq<usize>, i: int, j: int)
    requires
        0 <= i <= j,
    ensures
        offset_before(splits, i) <= offset_before(splits, j),
    decreases j,
{
    if i < j {
        lemma_offsets_grow(splits, i, j - 1);
    }
}

/// Cuts a tensor along dimension `dim` into consecutive pieces of the given
/// lengths.
pub fn split_tensor(t: &Tensor, splits: &Vec<usize>, dim: usize) -> (r: Result<
    Vec<Tensor>,
    EngineError,
>)
    ensures
        r matches Ok(parts) ==> parts.len() == splits.len() && forall|i: int|
            0 <= i < splits.len() ==> tensor_shape(#[trigger] parts[i]) == tensor_shape(
                *t,
            ).update(dim as int, splits[i]),
        dim < tensor_shape(*t).len() && offset_before(splits@, splits.len() as int)
            <= tensor_shape(*t)[dim as int] ==> r is Ok,
        r matches Err(e) ==> e.is_backend_fault(),
{
    let starts = match split_offsets(splits) {
        Some(starts) => starts,
        None => {
            return Err(shape_fault());
        },
    };
    let mut parts: Vec<Tensor> = Vec::new();
    let mut i: usize = 0;
    while i < splits.len()
        invariant
            i <= splits.len(),
            starts.len() == splits.len() + 1,
            forall|j: int| 0 <= j <= splits.len() ==> starts[j] == offset_before(splits@, j),
            parts.len() == i,
            forall|j: int|
                0 <= j < i ==> tensor_shape(#[trigger] parts[j]) == tensor_shape(*t).update(
                    dim as int,
                    splits[j],
                ),
        decreases splits.len() - i,
    {
        proof {
            lemma_offsets_grow(splits@, i + 1, splits.len() as int);
            assert(offset_before(splits@, i + 1) == offset_before(splits@, i as int)
                + splits@[i as int]);
        }
        let part = narrow(t, dim, starts[i], splits[i])?;
        parts.push(part);
        i = i + 1;
    }
    Ok(parts)
}

/// The positions of the entries of a mask of one dimension that are not
/// zero. A mask of any other number of dimensions is refused.
pub fn nonzero_index_vec(mask: &Tensor) -> (r: Result<Vec<u32>, EngineError>)
    ensures
        tensor_shape(*mask).len() != 1 ==> r is Err,
        r matches Ok(found) ==> tensor_shape(*mask).len() == 1 && tensor_entries(*mask).len()
            == tensor_shape(*mask)[0] && found@ == nonzero_positions(tensor_entries(*mask)),
        tensor_shape(*mask).len() == 1 && tensor_shape(*mask)[0] <= u32::MAX && castable(
            dtype_of(*mask),
        ) && on_cpu(device_of(*mask)) ==> r is Ok,
        r matches Err(e) ==> e.is_backend_fault(),
{
    let values = integers(mask)?;
    if values.len() > u32::MAX as usize {
        return Err(shape_fault());
    }
    Ok(nonzero_indices(&values))
}

/// The positions of the entries of a mask that are not zero, as a tensor on
/// the device of the mask.
pub fn nonzero_index(mask: &Tensor) -> (r: Result<Tensor, EngineError>)
    ensures
        r matches Ok(found) ==> tensor_entries(found) == nonzero_positions(
            tensor_entries(*mask),
        ),
        tensor_shape(*mask).len() == 1 && tensor_shape(*mask)[0] <= u32::MAX && castable(
            dtype_of(*mask),
        ) && on_cpu(device_of(*mask)) ==> r is Ok,
        r matches Err(e) ==> e.is_backend_fault(),
{
    let found = nonzero_index_vec(mask)?;
    values_like(&found, mask)
}

/// Adds the rows of `src`, one after the other, to the rows of `t` at which
/// the mask is not zero.
pub fn masked_scatter_dim0(t: &Tensor, src: &Tensor, mask: &Tensor) -> (r: Result<
    Tensor,
    EngineError,
>)
    ensures
        r matches Ok(sum) ==> tensor_shape(sum) == tensor_shape(*t),
        r matches Err(e) ==> e.is_backend_fault(),
{
    let indices = nonzero_index(mask)?;
    index_add_rows(t, &indices, src)
}

/// For every entry whether it is set in either of two tensors of one shape:
/// 1 where an entry of `a` or of `b` is not zero, 0 elsewhere, in the type
/// of the entries of `a`.
pub fn bitor_tensor(a: &Tensor, b: &Tensor) -> (r: Result<Tensor, EngineError>)
    ensures
        r matches Ok(either) ==> tensor_shape(either) == tensor_shape(*a) && tensor_shape(*b)
            == tensor_shape(*a),
        tensor_shape(*a) == tensor_shape(*b) && castable(dtype_of(*a)) && castable(dtype_of(*b))
            && on_cpu(device_of(*a)) && on_cpu(device_of(*b)) ==> r is Ok,
        r matches Err(e) ==> e.is_backend_fault(),
{
    let a_whole = to_unsigned(a)?;
    let b_whole = to_unsigned(b)?;
    let kind = crate::backend::float_entries();
    let a_set = cast(&above(&a_whole, 0)?, kind)?;
    let b_set = cast(&above(&b_whole, 0)?, kind)?;
    let sum = added(&a_set, &b_set)?;
    let flags = above(&sum, 0)?;
    cast_like(&flags, a)
}

/// The product of the entries of a tensor of one dimension, as a tensor of
/// one entry. A product beyond 32 bits is refused.
pub fn prod_tensor_last_dim(t: &Tensor) -> (r: Result<Tensor, EngineError>)
    ensures
        r matches Ok(p) ==> product_of(tensor_entries(*t)) <= u32::MAX && tensor_entries(p)
            == seq![product_of(tensor_entries(*t)) as u32] && tensor_shape(p) == seq![1usize]
            && holds_unsigned(dtype_of(p)) && device_of(p) == device_of(*t),
        tensor_shape(*t).len() == 1 && castable(dtype_of(*t)) && on_cpu(device_of(*t))
            && product_of(tensor_entries(*t)) <= u32::MAX ==> r is Ok,
        r matches Err(e) ==> e.is_backend_fault(),
{
    let values = integers(t)?;
    let p = match product(&values) {
        Some(p) => p,
        None => {
            return Err(shape_fault());
        },
    };
    let mut one: Vec<u32> = Vec::new();
    one.push(p);
    values_like(&one, t)
}

/// Where the patch tokens of each image start in the sequence of all patch
/// tokens: for a grid of counts by axis, the number of tokens of the images
/// before.
pub fn get_vision_next_indices(grid_thw: &Tensor) -> (r: Result<Tensor, EngineError>)
    ensures
        r matches Ok(starts) ==> tensor_entries(starts) == seq![0u32],
        tensor_shape(*grid_thw).len() == 1 && castable(dtype_of(*grid_thw)) && on_cpu(
            device_of(*grid_thw),
        ) && product_of(tensor_entries(*grid_thw)) <= u32::MAX ==> r is Ok,
        r matches Err(e) ==> e.is_backend_fault(),
{
    let seq_lens = prod_tensor_last_dim(grid_thw)?;
    let lens = integers(&seq_lens)?;
    let starts = match exclusive_prefix_sums(&lens) {
        Some(starts) => starts,
        None => {
            return Err(shape_fault());
        },
    };
    assert(starts@ =~= seq![0u32]);
    values_like(&starts, grid_thw)
}

/// In a causal attention mask for `tgt_len` new positions after
/// `seqlen_offset` cached ones, the entry in row `row` and column `col` is
/// blocked: the column lies after the row's own position.
pub open spec fn is_blocked(row: nat, col: nat, seqlen_offset: nat) -> bool {
    col > row + seqlen_offset
}

/// Whether a new position may not attend to a column of the mask.
pub fn causal_mask_blocks(row: usize, col: usize, seqlen_offset: usize) -> (blocked: bool)
    ensures
        blocked == is_blocked(row as nat, col as nat, seqlen_offset as nat),
{
    col > seqlen_offset && col - seqlen_offset > row
}

/// The shape of a causal attention mask: one mask of `tgt_len` rows and
/// `tgt_len + seqlen_offset` columns for each item of the batch. `None` where
/// the number of columns does not fit the machine word.
pub fn causal_mask_dims(b_size: usize, tgt_len: usize, seqlen_offset: usize) -> (r: Option<
    Vec<usize>,
>)
    ensures
        tgt_len + seqlen_offset <= usize::MAX ==> r is Some && r.unwrap()@ == seq![
            b_size,
            1usize,
            tgt_len,
            (tgt_len + seqlen_offset) as usize,
        ],
        tgt_len + seqlen_offset > usize::MAX ==> r is None,
{
    if tgt_len > usize::MAX - seqlen_offset {
        None
    } else {
        let mut dims: Vec<usize> = Vec::new();
        dims.push(b_size);
        dims.push(1);
        dims.push(tgt_len);
        dims.push(tgt_len + seqlen_offset);
        assert(dims@ =~= seq![b_size, 1usize, tgt_len, (tgt_len + seqlen_offset) as usize]);
        Some(dims)
    }
}

/// The entries of a causal attention mask of `columns` columns, row by row,
/// as flags: 1 where a position may attend, 0 where it is blocked.
pub open spec fn open_flags(count: nat, columns: nat, seqlen_offset: nat) -> Seq<u32> {
    Seq::new(
        count,
        |k: int|
            if is_blocked((k / columns as int) as nat, (k % columns as int) as nat, seqlen_offset) {
                0u32
            } else {
                1u32
            },
    )
}

/// The flags of a causal attention mask of `count` entries in rows of
/// `columns`.
pub fn causal_mask_flags(count: usize, columns: usize, seqlen_offset: usize) -> (flags: Vec<u32>)
    requires
        columns > 0,
    ensures
        flags@ == open_flags(count as nat, columns as nat, seqlen_offset as nat),
{
    let mut flags: Vec<u32> = Vec::new();
    let mut k: usize = 0;
    while k < count
        invariant
            k <= count,
            columns > 0,
            flags@ == open_flags(k as nat, columns as nat, seqlen_offset as nat),
        decreases count - k,
    {
        let blocked = causal_mask_blocks(k / columns, k % columns, seqlen_offset);
        flags.push(
            if blocked {
                0
            } else {
                1
            },
        );
        k = k + 1;
        assert(flags@ =~= open_flags(k as nat, columns as nat, seqlen_offset as nat));
    }
    flags
}

/// The causal attention mask for `tgt_len` new positions after
/// `seqlen_offset` cached ones, for a batch of `b_size`: zero where a
/// position may attend, and the logarithm of zero, which is negative
/// infinity, where it is blocked.
pub fn prepare_causal_attention_mask(
    b_size: usize,
    tgt_len: usize,
    seqlen_offset: usize,
    device: &Device,
) -> (r: Result<Tensor, EngineError>)
    ensures
        r matches Ok(mask) ==> tgt_len + seqlen_offset <= usize::MAX && tensor_shape(mask)
            == seq![b_size, 1usize, tgt_len, (tgt_len + seqlen_offset) as usize],
        r matches Err(e) ==> e.is_backend_fault(),
{
    let dims = match causal_mask_dims(b_size, tgt_len, seqlen_offset) {
        Some(dims) => dims,
        None => {
            return Err(shape_fault());
        },
    };
    let columns = dims[3];
    let count = match tgt_len.checked_mul(columns) {
        Some(n) => n,
        None => {
            return Err(shape_fault());
        },
    };
    let flags = if columns == 0 {
        Vec::new()
    } else {
        causal_mask_flags(count, columns, seqlen_offset)
    };
    let flat = settled(values_tensor(&flags, device))?;
    let mut square: Vec<usize> = Vec::new();
    square.push(tgt_len);
    square.push(columns);
    let open = reshape(&flat, &square)?;
    let open = to_floats(&open)?;
    let mask = log(&open)?;
    expand(&mask, &dims)
}

} // verus!
