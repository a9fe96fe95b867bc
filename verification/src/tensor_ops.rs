//! Operations on tensors, with the shapes they give. Each failure of the
//! backend becomes a failure of the request.

use candle_core::{DType, Device, Tensor};
use candle_nn::{Embedding, LayerNorm, Linear};
use vstd::prelude::*;
use crate::backend::{
    stretches_to,
    agree_but_at,
    broadcast_shape,
    cast_to,
    castable,
    stretches,
    countable,
    device_of,
    dtype_is_float,
    dtype_of,
    held,
    is_float,
    is_order,
    joined,
    laid_out,
    largest,
    narrowed,
    negated,
    on_cpu,
    product,
    quotient,
    reshaped,
    softmax_gives,
    sum_of,
    embedding_forward,
    entry_count,
    error_text,
    float_entries,
    holds_unsigned,
    layer_norm_forward,
    linear_forward,
    matmul_shape,
    softmax_last_dim,
    tensor_above,
    tensor_add,
    tensor_broadcast_add,
    tensor_broadcast_div,
    tensor_broadcast_matmul,
    tensor_broadcast_mul,
    tensor_cast,
    tensor_cat,
    tensor_contiguous,
    tensor_cos,
    tensor_device,
    tensor_dims,
    tensor_dtype,
    tensor_entries,
    tensor_exp,
    tensor_gelu,
    tensor_expand,
    tensor_index_add,
    tensor_log,
    tensor_matmul,
    tensor_max_of_row,
    tensor_narrow,
    tensor_neg,
    tensor_permute,
    tensor_reshape,
    tensor_shape,
    tensor_sin,
    tensor_sqrt,
    tensor_values,
    unsigned_entries,
    values_tensor,
};
use crate::error::{EngineError, RuntimeError};

verus! {

/// A fault of the tensor backend, as a failure of the request.
pub fn backend_fault(e: &candle_core::Error) -> (r: EngineError)
    ensures
        r.is_backend_fault(),
{
    EngineError::Runtime(RuntimeError::Backend(error_text(e)))
}

/// A shape that the engine cannot use, as a failure of the request.
pub fn shape_fault() -> (r: EngineError)
    ensures
        r.is_backend_fault(),
{
    EngineError::Runtime(RuntimeError::Backend("unexpected tensor shape".to_owned()))
}

/// The outcome of a call into the backend, as the outcome of the request.
pub fn settled(r: Result<Tensor, candle_core::Error>) -> (out: Result<Tensor, EngineError>)
    ensures
        r is Ok ==> out == Ok::<Tensor, EngineError>(r.unwrap()),
        r is Err ==> out is Err,
        out matches Err(e) ==> e.is_backend_fault(),
{
    match r {
        Ok(t) => Ok(t),
        Err(e) => Err(backend_fault(&e)),
    }
}

/// Entries of a type on which the backend has no arithmetic, as a failure of
/// the request.
pub fn type_fault() -> (r: EngineError)
    ensures
        r.is_backend_fault(),
{
    EngineError::Runtime(RuntimeError::Backend("unexpected type of entries".to_owned()))
}

/// Whether the entries of a tensor are floats.
pub fn holds_floats(t: &Tensor) -> (r: bool)
    ensures
        r == is_float(dtype_of(*t)),
{
    dtype_is_float(tensor_dtype(t))
}

/// One entry that holds `k`, in the type and on the device of `like`.
pub open spec fn scalar_of(k: u32, like: Tensor) -> Tensor {
    cast_to(held(seq![k], device_of(like)), dtype_of(like))
}

/// Every entry of a tensor times `k`.
pub open spec fn times(t: Tensor, k: u32) -> Tensor {
    product(t, scalar_of(k, t))
}

/// Every entry of a tensor divided by `k`.
pub open spec fn over(t: Tensor, k: u32) -> Tensor {
    quotient(t, scalar_of(k, t))
}

/// A row with every entry divided by the largest of the row; a row of one
/// entry is divided by itself.
pub open spec fn relative(t: Tensor) -> Tensor {
    if tensor_shape(t)[0] == 1 {
        quotient(t, laid_out(t))
    } else {
        quotient(t, largest(t))
    }
}

/// A shape stretched to one entry is itself, and every shape can be
/// stretched to one entry.
pub proof fn lemma_broadcast_one(a: Seq<usize>)
    requires
        a.len() >= 1,
    ensures
        broadcast_shape(a, seq![1usize]) == a,
        stretches(a, seq![1usize]),
{
    assert(broadcast_shape(a, seq![1usize]) =~= a);
}

/// The part of a tensor that holds, along dimension `dim`, the `len` entries
/// from `start` on.
pub fn narrow(t: &Tensor, dim: usize, start: usize, len: usize) -> (r: Result<Tensor, EngineError>)
    ensures
        r matches Ok(part) ==> part == narrowed(*t, dim, start, len) && dim < tensor_shape(
            *t,
        ).len() && start + len <= tensor_shape(*t)[dim as int] && tensor_shape(part)
            == tensor_shape(*t).update(dim as int, len) && dtype_of(part) == dtype_of(*t)
            && device_of(part) == device_of(*t),
        r is Ok <==> dim < tensor_shape(*t).len() && start + len <= tensor_shape(*t)[dim as int],
        r matches Err(e) ==> e.is_backend_fault(),
{
    settled(tensor_narrow(t, dim, start, len))
}

/// A shape of one size has as many entries as the size says, and they can
/// be counted; a shape of two sizes has their product.
pub proof fn lemma_small_counts(a: usize, b: usize)
    ensures
        entry_count(seq![a]) == a,
        countable(seq![a]),
        entry_count(seq![a, b]) == a * b,
        countable(seq![a, b]) == (a * b <= usize::MAX),
{
    reveal_with_fuel(entry_count, 3);
    reveal_with_fuel(countable, 3);
    assert(seq![a].drop_last() =~= Seq::<usize>::empty());
    assert(seq![a, b].drop_last() =~= seq![a]);
    assert(entry_count(seq![a]) == 1 * a);
    assert(entry_count(seq![a, b]) == entry_count(seq![a]) * b);
}

/// A shape of three sizes has their product for its entries, and they can be
/// counted exactly if the products on the way fit the machine word.
pub proof fn lemma_three_counts(a: usize, b: usize, c: usize)
    ensures
        entry_count(seq![a, b, c]) == a * b * c,
        countable(seq![a, b, c]) == (a * b <= usize::MAX && a * b * c <= usize::MAX),
{
    reveal_with_fuel(entry_count, 2);
    reveal_with_fuel(countable, 2);
    lemma_small_counts(a, b);
    assert(seq![a, b, c].drop_last() =~= seq![a, b]);
}

/// A shape of four sizes has their product for its entries, and they can be
/// counted exactly if the products on the way fit the machine word.
pub proof fn lemma_four_counts(a: usize, b: usize, c: usize, d: usize)
    ensures
        entry_count(seq![a, b, c, d]) == a * b * c * d,
        countable(seq![a, b, c, d]) == (a * b <= usize::MAX && a * b * c <= usize::MAX && a * b * c
            * d <= usize::MAX),
{
    reveal_with_fuel(entry_count, 2);
    reveal_with_fuel(countable, 2);
    lemma_three_counts(a, b, c);
    assert(seq![a, b, c, d].drop_last() =~= seq![a, b, c]);
}

/// A dimension of size one, put in anywhere, changes neither the number of
/// entries nor whether they can be counted.
pub proof fn lemma_insert_one(s: Seq<usize>, i: int)
    requires
        0 <= i <= s.len(),
    ensures
        entry_count(s.insert(i, 1usize)) == entry_count(s),
        countable(s.insert(i, 1usize)) == countable(s),
    decreases s.len(),
{
    let wide = s.insert(i, 1usize);
    if i == s.len() {
        assert(wide.drop_last() =~= s);
        assert(wide.last() == 1);
        assert(entry_count(wide) == entry_count(s) * 1);
        if s.len() > 0 {
            assert(countable(s) ==> entry_count(s) <= usize::MAX);
        }
    } else {
        assert(wide.drop_last() =~= s.drop_last().insert(i, 1usize));
        assert(wide.last() == s.last());
        lemma_insert_one(s.drop_last(), i);
    }
}

/// Without its first dimension, where that is not empty, a shape has no more
/// entries than with it, and they can be counted if those of the shape can.
pub proof fn lemma_without_first(s: Seq<usize>)
    requires
        s.len() > 0,
        s[0] >= 1,
        countable(s),
    ensures
        countable(s.subrange(1, s.len() as int)),
        entry_count(s.subrange(1, s.len() as int)) <= entry_count(s),
    decreases s.len(),
{
    let rest = s.subrange(1, s.len() as int);
    if s.len() == 1 {
        assert(s.drop_last() =~= Seq::<usize>::empty());
        assert(rest =~= Seq::<usize>::empty());
        assert(s.last() == s[0]);
        assert(entry_count(Seq::<usize>::empty()) == 1);
        assert(entry_count(s) == entry_count(s.drop_last()) * s.last());
        assert(entry_count(rest) == 1);
        assert(entry_count(s) == s[0]) by (nonlinear_arith)
            requires
                entry_count(s) == 1 * s.last(),
                s.last() == s[0],
        ;
    } else {
        let front = s.drop_last();
        let last = s.last();
        assert(front.subrange(1, front.len() as int) =~= rest.drop_last());
        assert(rest.last() == last);
        assert(countable(front));
        assert(front[0] == s[0]);
        lemma_without_first(front);
        let small = entry_count(rest.drop_last());
        let big = entry_count(front);
        assert(entry_count(rest) == small * last);
        assert(entry_count(s) == big * last);
        assert(small * last <= big * last) by (nonlinear_arith)
            requires
                small <= big,
                last >= 0,
        ;
        assert(entry_count(s) <= usize::MAX);
        assert(countable(rest.drop_last()));
        assert(countable(rest));
    }
}

/// A shape of seven sizes has their product for its entries.
pub proof fn lemma_seven_counts(a: usize, b: usize, c: usize, d: usize, e: usize, f: usize, g: usize)
    ensures
        entry_count(seq![a, b, c, d, e, f, g]) == a * b * c * d * e * f * g,
{
    lemma_four_counts(a, b, c, d);
    lemma_count_push(seq![a, b, c, d], e);
    lemma_count_push(seq![a, b, c, d, e], f);
    lemma_count_push(seq![a, b, c, d, e, f], g);
    assert(seq![a, b, c, d].push(e) =~= seq![a, b, c, d, e]);
    assert(seq![a, b, c, d, e].push(f) =~= seq![a, b, c, d, e, f]);
    assert(seq![a, b, c, d, e, f].push(g) =~= seq![a, b, c, d, e, f, g]);
}

/// One more size at the end multiplies the number of entries by it.
pub proof fn lemma_count_push(s: Seq<usize>, x: usize)
    ensures
        entry_count(s.push(x)) == entry_count(s) * x,
{
    assert(s.push(x).drop_last() =~= s);
    assert(s.push(x).last() == x);
}

/// The entries of a shape without an empty dimension can be counted if their
/// number fits the machine word.
pub proof fn lemma_full_shape_countable(s: Seq<usize>)
    requires
        forall|i: int| 0 <= i < s.len() ==> s[i] >= 1,
        entry_count(s) <= usize::MAX,
    ensures
        countable(s),
        entry_count(s) >= 1,
    decreases s.len(),
{
    if s.len() > 0 {
        let front = s.drop_last();
        let last = s.last();
        assert(entry_count(s) == entry_count(front) * last);
        assert forall|i: int| 0 <= i < front.len() implies front[i] >= 1 by {
            assert(front[i] == s[i]);
        }
        if entry_count(front) > usize::MAX {
            assert(entry_count(front) * last >= entry_count(front)) by (nonlinear_arith)
                requires
                    last >= 1,
                    entry_count(front) >= 0,
            ;
        }
        lemma_full_shape_countable(front);
        assert(entry_count(front) * last >= 1) by (nonlinear_arith)
            requires
                last >= 1,
                entry_count(front) >= 1,
        ;
    }
}

/// A shape whose entries can be counted begins with such a shape.
pub proof fn lemma_countable_prefix(dims: Seq<usize>, n: int)
    requires
        countable(dims),
        0 <= n <= dims.len(),
    ensures
        countable(dims.take(n)),
    decreases dims.len(),
{
    if n == dims.len() {
        assert(dims.take(n) =~= dims);
    } else {
        assert(dims.drop_last().take(n) =~= dims.take(n));
        lemma_countable_prefix(dims.drop_last(), n);
    }
}

/// Whether the entries of a shape can be counted.
pub fn is_countable(dims: &Vec<usize>) -> (r: bool)
    ensures
        r == countable(dims@),
{
    let mut total: usize = 1;
    let mut i: usize = 0;
    while i < dims.len()
        invariant
            i <= dims.len(),
            countable(dims@.take(i as int)),
            total == entry_count(dims@.take(i as int)),
        decreases dims.len() - i,
    {
        assert(dims@.take(i + 1).drop_last() =~= dims@.take(i as int));
        match total.checked_mul(dims[i]) {
            Some(next) => {
                total = next;
            },
            None => {
                proof {
                    if countable(dims@) {
                        lemma_countable_prefix(dims@, i + 1);
                    }
                }
                return false;
            },
        }
        i = i + 1;
    }
    assert(dims@.take(dims.len() as int) =~= dims@);
    true
}

/// The entries of a tensor, row by row, in a new shape. A shape whose
/// entries cannot be counted is refused.
pub fn reshape(t: &Tensor, dims: &Vec<usize>) -> (r: Result<Tensor, EngineError>)
    ensures
        r matches Ok(u) ==> u == reshaped(*t, dims@) && tensor_shape(u) == dims@
            && tensor_entries(u) == tensor_entries(*t) && dtype_of(u) == dtype_of(*t)
            && device_of(u) == device_of(*t),
        on_cpu(device_of(*t)) && countable(tensor_shape(*t)) && countable(dims@) && entry_count(
            dims@,
        ) == entry_count(tensor_shape(*t)) ==> r is Ok,
        r matches Err(e) ==> e.is_backend_fault(),
{
    if !is_countable(dims) {
        return Err(shape_fault());
    }
    settled(tensor_reshape(t, dims))
}

/// A tensor with its dimensions in another order.
pub fn permute(t: &Tensor, order: &Vec<usize>) -> (r: Result<Tensor, EngineError>)
    ensures
        r matches Ok(u) ==> order.len() == tensor_shape(*t).len() && tensor_shape(u).len()
            == order.len() && forall|i: int|
            0 <= i < order.len() ==> #[trigger] tensor_shape(u)[i] == tensor_shape(
                *t,
            )[order[i] as int],
        r matches Ok(u) ==> dtype_of(u) == dtype_of(*t) && device_of(u) == device_of(*t),
        is_order(order@, tensor_shape(*t).len()) ==> r is Ok,
        r matches Err(e) ==> e.is_backend_fault(),
{
    settled(tensor_permute(t, order))
}

/// The same tensor, laid out row by row.
pub fn contiguous(t: &Tensor) -> (r: Result<Tensor, EngineError>)
    ensures
        r matches Ok(c) ==> c == laid_out(*t) && tensor_shape(c) == tensor_shape(*t)
            && dtype_of(c) == dtype_of(*t) && device_of(c) == device_of(*t),
        on_cpu(device_of(*t)) ==> r is Ok,
        r matches Err(e) ==> e.is_backend_fault(),
{
    settled(tensor_contiguous(t))
}

/// Two tensors, the second after the first along dimension `dim`. Sizes
/// whose sum does not fit the machine word are refused.
pub fn cat(a: &Tensor, b: &Tensor, dim: usize) -> (r: Result<Tensor, EngineError>)
    ensures
        r matches Ok(c) ==> dtype_of(c) == dtype_of(*a) && device_of(c) == device_of(*a),
        on_cpu(device_of(*a)) && on_cpu(device_of(*b)) && dtype_of(*a) == dtype_of(*b) && dim
            < tensor_shape(*a).len() && agree_but_at(tensor_shape(*a), tensor_shape(*b), dim as int)
            && tensor_shape(*a)[dim as int] + tensor_shape(*b)[dim as int] <= usize::MAX
            ==> r is Ok,
        r matches Ok(c) ==> c == joined(*a, *b, dim) && dim < tensor_shape(*a).len()
            && tensor_shape(*b).len() == tensor_shape(*a).len() && tensor_shape(*a)[dim as int]
            + tensor_shape(*b)[dim as int] <= usize::MAX && tensor_shape(c) == tensor_shape(
            *a,
        ).update(
            dim as int,
            (tensor_shape(*a)[dim as int] + tensor_shape(*b)[dim as int]) as usize,
        ),
        r matches Err(e) ==> e.is_backend_fault(),
{
    let da = tensor_dims(a);
    let db = tensor_dims(b);
    if dim < da.len() && dim < db.len() && da[dim] > usize::MAX - db[dim] {
        return Err(shape_fault());
    }
    settled(tensor_cat(a, b, dim))
}

/// Every entry with its sign turned. Entries that are no floats are refused.
pub fn neg(t: &Tensor) -> (r: Result<Tensor, EngineError>)
    ensures
        !is_float(dtype_of(*t)) ==> r is Err,
        r matches Ok(n) ==> tensor_shape(n) == tensor_shape(*t) && dtype_of(n) == dtype_of(
            *t,
        ) && n == negated(*t) && device_of(n) == device_of(*t),
        is_float(dtype_of(*t)) && on_cpu(device_of(*t)) ==> r is Ok,
        r matches Err(e) ==> e.is_backend_fault(),
{
    if !holds_floats(t) {
        return Err(type_fault());
    }
    settled(tensor_neg(t))
}

/// The cosine of every entry. Entries that are no floats are refused.
pub fn cos(t: &Tensor) -> (r: Result<Tensor, EngineError>)
    ensures
        !is_float(dtype_of(*t)) ==> r is Err,
        r matches Ok(c) ==> tensor_shape(c) == tensor_shape(*t) && dtype_of(c) == dtype_of(
            *t,
        ),
        r matches Err(e) ==> e.is_backend_fault(),
{
    if !holds_floats(t) {
        return Err(type_fault());
    }
    settled(tensor_cos(t))
}

/// The sine of every entry. Entries that are no floats are refused.
pub fn sin(t: &Tensor) -> (r: Result<Tensor, EngineError>)
    ensures
        !is_float(dtype_of(*t)) ==> r is Err,
        r matches Ok(s) ==> tensor_shape(s) == tensor_shape(*t) && dtype_of(s) == dtype_of(
            *t,
        ),
        r matches Err(e) ==> e.is_backend_fault(),
{
    if !holds_floats(t) {
        return Err(type_fault());
    }
    settled(tensor_sin(t))
}

/// The natural logarithm of every entry. Entries that are no floats are refused.
pub fn log(t: &Tensor) -> (r: Result<Tensor, EngineError>)
    ensures
        !is_float(dtype_of(*t)) ==> r is Err,
        r matches Ok(l) ==> tensor_shape(l) == tensor_shape(*t) && dtype_of(l) == dtype_of(
            *t,
        ),
        r matches Err(e) ==> e.is_backend_fault(),
{
    if !holds_floats(t) {
        return Err(type_fault());
    }
    settled(tensor_log(t))
}

/// The exponential of every entry. Entries that are no floats are refused.
pub fn exp(t: &Tensor) -> (r: Result<Tensor, EngineError>)
    ensures
        !is_float(dtype_of(*t)) ==> r is Err,
        r matches Ok(e) ==> tensor_shape(e) == tensor_shape(*t) && dtype_of(e) == dtype_of(
            *t,
        ),
        r matches Err(e) ==> e.is_backend_fault(),
{
    if !holds_floats(t) {
        return Err(type_fault());
    }
    settled(tensor_exp(t))
}

/// A tensor stretched to a larger shape. A shape whose entries cannot be
/// counted is refused.
pub fn expand(t: &Tensor, dims: &Vec<usize>) -> (r: Result<Tensor, EngineError>)
    ensures
        r matches Ok(e) ==> tensor_shape(e) == dims@ && dtype_of(e) == dtype_of(*t) && device_of(e)
            == device_of(*t),
        r is Ok <==> countable(dims@) && stretches_to(tensor_shape(*t), dims@),
        r matches Err(e) ==> e.is_backend_fault(),
{
    if !is_countable(dims) {
        return Err(shape_fault());
    }
    settled(tensor_expand(t, dims))
}

/// The activation between the two layers of a feed-forward block.
pub fn gelu(t: &Tensor) -> (r: Result<Tensor, EngineError>)
    ensures
        r matches Ok(g) ==> tensor_shape(g) == tensor_shape(*t),
        r matches Err(e) ==> e.is_backend_fault(),
{
    settled(tensor_gelu(t))
}

/// The product entry by entry, with the shapes stretched to one another.
/// Entries that are no floats are refused.
pub fn broadcast_mul(a: &Tensor, b: &Tensor) -> (r: Result<Tensor, EngineError>)
    ensures
        !is_float(dtype_of(*a)) || !is_float(dtype_of(*b)) ==> r is Err,
        r matches Ok(c) ==> device_of(c) == device_of(*a),
        is_float(dtype_of(*a)) && dtype_of(*a) == dtype_of(*b) && on_cpu(device_of(*a)) && on_cpu(
            device_of(*b),
        ) && stretches(tensor_shape(*a), tensor_shape(*b)) ==> r is Ok,
        r matches Ok(c) ==> tensor_shape(c) == broadcast_shape(
            tensor_shape(*a),
            tensor_shape(*b),
        ) && dtype_of(c) == dtype_of(*a) && c == product(*a, *b),
        r matches Err(e) ==> e.is_backend_fault(),
{
    if !holds_floats(a) || !holds_floats(b) {
        return Err(type_fault());
    }
    settled(tensor_broadcast_mul(a, b))
}

/// The quotient entry by entry, with the shapes stretched to one another.
/// Entries that are no floats are refused.
pub fn broadcast_div(a: &Tensor, b: &Tensor) -> (r: Result<Tensor, EngineError>)
    ensures
        !is_float(dtype_of(*a)) || !is_float(dtype_of(*b)) ==> r is Err,
        r matches Ok(c) ==> device_of(c) == device_of(*a),
        is_float(dtype_of(*a)) && dtype_of(*a) == dtype_of(*b) && on_cpu(device_of(*a)) && on_cpu(
            device_of(*b),
        ) && stretches(tensor_shape(*a), tensor_shape(*b)) ==> r is Ok,
        r matches Ok(c) ==> tensor_shape(c) == broadcast_shape(
            tensor_shape(*a),
            tensor_shape(*b),
        ) && dtype_of(c) == dtype_of(*a) && c == quotient(*a, *b),
        r matches Err(e) ==> e.is_backend_fault(),
{
    if !holds_floats(a) || !holds_floats(b) {
        return Err(type_fault());
    }
    settled(tensor_broadcast_div(a, b))
}

/// The sum entry by entry, with the shapes stretched to one another.
/// Entries that are no floats are refused.
pub fn broadcast_add(a: &Tensor, b: &Tensor) -> (r: Result<Tensor, EngineError>)
    ensures
        !is_float(dtype_of(*a)) || !is_float(dtype_of(*b)) ==> r is Err,
        r matches Ok(c) ==> device_of(c) == device_of(*a),
        is_float(dtype_of(*a)) && dtype_of(*a) == dtype_of(*b) && on_cpu(device_of(*a)) && on_cpu(
            device_of(*b),
        ) && stretches(tensor_shape(*a), tensor_shape(*b)) ==> r is Ok,
        r matches Ok(c) ==> tensor_shape(c) == broadcast_shape(
            tensor_shape(*a),
            tensor_shape(*b),
        ) && dtype_of(c) == dtype_of(*a),
        r matches Err(e) ==> e.is_backend_fault(),
{
    if !holds_floats(a) || !holds_floats(b) {
        return Err(type_fault());
    }
    settled(tensor_broadcast_add(a, b))
}

/// The sum entry by entry of two tensors of one shape. Entries that are no
/// floats are refused.
pub fn added(a: &Tensor, b: &Tensor) -> (r: Result<Tensor, EngineError>)
    ensures
        !is_float(dtype_of(*a)) || !is_float(dtype_of(*b)) ==> r is Err,
        r matches Ok(sum) ==> sum == sum_of(*a, *b) && tensor_shape(sum) == tensor_shape(*a)
            && tensor_shape(*b) == tensor_shape(*a) && dtype_of(sum) == dtype_of(*a) && device_of(
            sum,
        ) == device_of(*a),
        is_float(dtype_of(*a)) && dtype_of(*a) == dtype_of(*b) && on_cpu(device_of(*a)) && on_cpu(
            device_of(*b),
        ) && tensor_shape(*a) == tensor_shape(*b) ==> r is Ok,
        r matches Err(e) ==> e.is_backend_fault(),
{
    if !holds_floats(a) || !holds_floats(b) {
        return Err(type_fault());
    }
    settled(tensor_add(a, b))
}

/// The matrix product over the last two dimensions of two tensors of one
/// rank.
pub fn matmul(a: &Tensor, b: &Tensor) -> (r: Result<Tensor, EngineError>)
    ensures
        r matches Ok(c) ==> tensor_shape(*a).len() >= 2 && tensor_shape(*b).len()
            == tensor_shape(*a).len() && tensor_shape(c) == tensor_shape(*a).update(
            tensor_shape(*a).len() - 1,
            tensor_shape(*b).last(),
        ),
        r matches Err(e) ==> e.is_backend_fault(),
{
    settled(tensor_matmul(a, b))
}

/// The matrix product over the last two dimensions, with the dimensions
/// before them stretched to one another: the result has the rows of the
/// first tensor and the columns of the second.
pub fn broadcast_matmul(a: &Tensor, b: &Tensor) -> (r: Result<Tensor, EngineError>)
    ensures
        r matches Ok(c) ==> tensor_shape(*a).len() >= 2 && tensor_shape(*b).len() >= 2
            && tensor_shape(*a).last() == tensor_shape(*b)[tensor_shape(*b).len() - 2]
            && tensor_shape(c) == matmul_shape(tensor_shape(*a), tensor_shape(*b)),
        r matches Err(e) ==> e.is_backend_fault(),
{
    settled(tensor_broadcast_matmul(a, b))
}

/// The rows of `source` added to the rows of `t` that `indexes` names.
/// Entries that are no floats are refused.
pub fn index_add_rows(t: &Tensor, indexes: &Tensor, source: &Tensor) -> (r: Result<
    Tensor,
    EngineError,
>)
    ensures
        !is_float(dtype_of(*t)) || !is_float(dtype_of(*source)) ==> r is Err,
        r matches Ok(sum) ==> tensor_shape(sum) == tensor_shape(*t),
        r matches Err(e) ==> e.is_backend_fault(),
{
    if !holds_floats(t) || !holds_floats(source) {
        return Err(type_fault());
    }
    settled(tensor_index_add(t, indexes, source, 0))
}

/// Along the last dimension the entries become probabilities. A tensor
/// without a last dimension, or with an empty one, is refused.
pub fn softmax(t: &Tensor) -> (r: Result<Tensor, EngineError>)
    ensures
        r matches Ok(probs) ==> softmax_gives(*t, probs) && tensor_shape(probs) == tensor_shape(
            *t,
        ) && tensor_shape(*t).len() > 0 && tensor_shape(*t).last() > 0,
        r matches Err(e) ==> e.is_backend_fault(),
{
    let dims = tensor_dims(t);
    if dims.len() == 0 || dims[dims.len() - 1] == 0 {
        return Err(shape_fault());
    }
    settled(softmax_last_dim(t))
}

/// A row with every entry divided by the largest of the row, so that the
/// largest becomes one. A tensor that is no row, and an empty row, are
/// refused.
pub fn relative_to_largest(t: &Tensor) -> (r: Result<Tensor, EngineError>)
    ensures
        r matches Ok(parts) ==> parts == relative(*t) && tensor_shape(parts) == tensor_shape(*t)
            && tensor_shape(*t).len() == 1 && tensor_shape(*t)[0] > 0 && dtype_of(parts)
            == dtype_of(*t) && device_of(parts) == device_of(*t),
        r is Ok <== tensor_shape(*t).len() == 1 && tensor_shape(*t)[0] > 0 && is_float(
            dtype_of(*t),
        ) && on_cpu(device_of(*t)),
        r matches Err(e) ==> e.is_backend_fault(),
{
    let dims = tensor_dims(t);
    if dims.len() != 1 || dims[0] == 0 {
        return Err(shape_fault());
    }
    let top = if dims[0] == 1 {
        contiguous(t)?
    } else {
        settled(tensor_max_of_row(t))?
    };
    assert(tensor_shape(top) =~= seq![1usize]);
    proof {
        lemma_broadcast_one(tensor_shape(*t));
    }
    broadcast_div(t, &top)
}

/// The entries turned into the given type.
pub fn cast(t: &Tensor, dtype: DType) -> (r: Result<Tensor, EngineError>)
    ensures
        r matches Ok(c) ==> c == cast_to(*t, dtype) && tensor_shape(c) == tensor_shape(*t)
            && dtype_of(c) == dtype && device_of(c) == device_of(*t),
        on_cpu(device_of(*t)) && castable(dtype_of(*t)) && castable(dtype) ==> r is Ok,
        r matches Err(e) ==> e.is_backend_fault(),
{
    settled(tensor_cast(t, dtype))
}

/// The entries turned into the type of the entries of `like`.
pub fn cast_like(t: &Tensor, like: &Tensor) -> (r: Result<Tensor, EngineError>)
    ensures
        r matches Ok(c) ==> c == cast_to(*t, dtype_of(*like)) && tensor_shape(c) == tensor_shape(
            *t,
        ) && dtype_of(c) == dtype_of(*like) && device_of(c) == device_of(*t),
        on_cpu(device_of(*t)) && castable(dtype_of(*t)) && castable(dtype_of(*like)) ==> r is Ok,
        r matches Err(e) ==> e.is_backend_fault(),
{
    settled(tensor_cast(t, tensor_dtype(like)))
}

/// The entries turned into floats of 32 bits.
pub fn to_floats(t: &Tensor) -> (r: Result<Tensor, EngineError>)
    ensures
        r matches Ok(c) ==> tensor_shape(c) == tensor_shape(*t) && is_float(dtype_of(c))
            && device_of(c) == device_of(*t),
        on_cpu(device_of(*t)) && castable(dtype_of(*t)) ==> r is Ok,
        r matches Err(e) ==> e.is_backend_fault(),
{
    settled(tensor_cast(t, float_entries()))
}

/// The entries turned into unsigned integers of 32 bits.
pub fn to_unsigned(t: &Tensor) -> (r: Result<Tensor, EngineError>)
    ensures
        r matches Ok(c) ==> tensor_shape(c) == tensor_shape(*t) && tensor_entries(c)
            == tensor_entries(*t) && holds_unsigned(dtype_of(c)) && device_of(c) == device_of(*t),
        on_cpu(device_of(*t)) && castable(dtype_of(*t)) ==> r is Ok,
        r matches Err(e) ==> e.is_backend_fault(),
{
    settled(tensor_cast(t, unsigned_entries()))
}

/// For every entry a flag: 1 where it is above `k`, 0 elsewhere.
pub fn above(t: &Tensor, k: u32) -> (r: Result<Tensor, EngineError>)
    ensures
        r matches Ok(flags) ==> tensor_shape(flags) == tensor_shape(*t) && castable(
            dtype_of(flags),
        ) && device_of(flags) == device_of(*t),
        on_cpu(device_of(*t)) && castable(dtype_of(*t)) ==> r is Ok,
        r matches Err(e) ==> e.is_backend_fault(),
{
    settled(tensor_above(t, k))
}

/// The entries of a tensor of one dimension, each cut down to an unsigned
/// integer of 32 bits.
pub fn integers(t: &Tensor) -> (r: Result<Vec<u32>, EngineError>)
    ensures
        r matches Ok(values) ==> tensor_shape(*t) == seq![values.len()] && values@
            == tensor_entries(*t),
        on_cpu(device_of(*t)) && castable(dtype_of(*t)) && tensor_shape(*t).len() == 1
            ==> r is Ok,
        r matches Err(e) ==> e.is_backend_fault(),
{
    let whole = to_unsigned(t)?;
    match tensor_values(&whole) {
        Ok(values) => Ok(values),
        Err(e) => Err(backend_fault(&e)),
    }
}

/// A tensor of one dimension that holds the values, on the device of `like`.
pub fn values_like(values: &Vec<u32>, like: &Tensor) -> (r: Result<Tensor, EngineError>)
    ensures
        r matches Ok(t) ==> t == held(values@, device_of(*like)) && tensor_shape(t)
            == seq![values.len()] && tensor_entries(t) == values@ && device_of(t) == device_of(
            *like,
        ) && holds_unsigned(dtype_of(t)),
        on_cpu(device_of(*like)) ==> r is Ok,
        r matches Err(e) ==> e.is_backend_fault(),
{
    settled(values_tensor(values, tensor_device(like)))
}

/// One row that holds the values: a batch of one sequence.
pub fn row_of(values: &Vec<u32>, device: &Device) -> (r: Result<Tensor, EngineError>)
    ensures
        r matches Ok(t) ==> tensor_shape(t) == seq![1usize, values.len()] && tensor_entries(t)
            == values@ && t == reshaped(held(values@, *device), seq![1usize, values.len()])
            && device_of(t) == *device,
        on_cpu(*device) ==> r is Ok,
        r matches Err(e) ==> e.is_backend_fault(),
{
    let flat = settled(values_tensor(values, device))?;
    let mut dims: Vec<usize> = Vec::new();
    dims.push(1);
    dims.push(values.len());
    assert(dims@ =~= seq![1usize, values.len()]);
    proof {
        lemma_small_counts(1, values.len());
        lemma_small_counts(values.len(), 1);
    }
    reshape(&flat, &dims)
}

/// The numbers below `len`, in rising order.
pub fn count_up(len: u32) -> (r: Vec<u32>)
    ensures
        r.len() == len,
        forall|i: int| 0 <= i < len ==> r[i] == i,
{
    let mut values: Vec<u32> = Vec::new();
    let mut i: u32 = 0;
    while i < len
        invariant
            i <= len,
            values.len() == i,
            forall|j: int| 0 <= j < i ==> values[j] == j,
        decreases len - i,
    {
        values.push(i);
        i = i + 1;
    }
    values
}

/// All entries of a tensor in one dimension.
pub fn flattened(t: &Tensor) -> (r: Result<Tensor, EngineError>)
    ensures
        r matches Ok(flat) ==> tensor_shape(flat).len() == 1 && (tensor_shape(*t).len() == 1
            ==> tensor_shape(flat) == tensor_shape(*t)) && (tensor_shape(*t).len() == 2
            ==> tensor_shape(flat)[0] == tensor_shape(*t)[0] * tensor_shape(*t)[1])
            && tensor_shape(flat)[0] == entry_count(tensor_shape(*t)) && tensor_entries(flat)
            == tensor_entries(*t) && flat == reshaped(*t, tensor_shape(flat)) && dtype_of(flat)
            == dtype_of(*t) && device_of(flat) == device_of(*t),
        on_cpu(device_of(*t)) && countable(tensor_shape(*t)) ==> r is Ok,
        r matches Err(e) ==> e.is_backend_fault(),
{
    let dims = tensor_dims(t);
    let mut count: usize = 1;
    let mut i: usize = 0;
    assert(entry_count(dims@.take(0)) == 1);
    while i < dims.len()
        invariant
            i <= dims.len(),
            i == 0 ==> count == 1,
            i == 1 ==> count == dims[0],
            i == 2 ==> count == dims[0] * dims[1],
            count == entry_count(dims@.take(i as int)),
            dims@ == tensor_shape(*t),
        decreases dims.len() - i,
    {
        assert(dims@.take(i + 1).drop_last() =~= dims@.take(i as int));
        count = match count.checked_mul(dims[i]) {
            Some(n) => n,
            None => {
                proof {
                    if countable(dims@) {
                        lemma_countable_prefix(dims@, i + 1);
                        assert(dims@.take(i + 1).last() == dims@[i as int]);
                        assert(entry_count(dims@.take(i + 1)) == entry_count(
                            dims@.take(i as int),
                        ) * dims@[i as int]);
                        assert(countable(dims@.take(i + 1)));
                        assert(entry_count(dims@.take(i + 1)) <= usize::MAX);
                    }
                }
                return Err(shape_fault());
            },
        };
        i = i + 1;
    }
    assert(dims@.take(dims.len() as int) =~= dims@);
    let mut flat: Vec<usize> = Vec::new();
    flat.push(count);
    proof {
        assert(flat@ =~= seq![count]);
        lemma_small_counts(count, 1);
    }
    let r = reshape(t, &flat);
    proof {
        if r is Ok && dims.len() == 1 {
            assert(tensor_shape(r.unwrap()) =~= tensor_shape(*t));
        }
    }
    r
}

/// A tensor with a dimension of size one put in at `dim`.
pub fn unsqueezed(t: &Tensor, dim: usize) -> (r: Result<Tensor, EngineError>)
    ensures
        r matches Ok(u) ==> dim <= tensor_shape(*t).len() && tensor_shape(u) == tensor_shape(
            *t,
        ).insert(dim as int, 1usize) && dtype_of(u) == dtype_of(*t) && device_of(u) == device_of(
            *t,
        ),
        dim <= tensor_shape(*t).len() && on_cpu(device_of(*t)) && countable(tensor_shape(*t))
            ==> r is Ok,
        r matches Err(e) ==> e.is_backend_fault(),
{
    let mut dims = tensor_dims(t);
    if dim > dims.len() {
        return Err(shape_fault());
    }
    proof {
        lemma_insert_one(dims@, dim as int);
    }
    dims.insert(dim, 1);
    reshape(t, &dims)
}

/// A tensor with two of its dimensions in each other's place.
pub fn transposed(t: &Tensor, dim1: usize, dim2: usize) -> (r: Result<Tensor, EngineError>)
    ensures
        r matches Ok(u) ==> dim1 < tensor_shape(*t).len() && dim2 < tensor_shape(*t).len()
            && tensor_shape(u) == tensor_shape(*t).update(
            dim1 as int,
            tensor_shape(*t)[dim2 as int],
        ).update(dim2 as int, tensor_shape(*t)[dim1 as int]),
        r matches Ok(u) ==> dtype_of(u) == dtype_of(*t) && device_of(u) == device_of(*t),
        r is Ok <==> dim1 < tensor_shape(*t).len() && dim2 < tensor_shape(*t).len(),
        r matches Err(e) ==> e.is_backend_fault(),
{
    let rank = tensor_dims(t).len();
    if dim1 >= rank || dim2 >= rank {
        return Err(shape_fault());
    }
    let mut order: Vec<usize> = Vec::new();
    let mut i: usize = 0;
    while i < rank
        invariant
            i <= rank,
            dim1 < rank,
            dim2 < rank,
            order.len() == i,
            forall|j: int|
                0 <= j < i ==> order[j] == (if j == dim1 {
                    dim2
                } else if j == dim2 {
                    dim1
                } else {
                    j as usize
                }),
        decreases rank - i,
    {
        let from = if i == dim1 {
            dim2
        } else if i == dim2 {
            dim1
        } else {
            i
        };
        order.push(from);
        i = i + 1;
    }
    proof {
        assert forall|d: usize| d < rank implies #[trigger] order@.contains(d) by {
            if d == dim1 {
                assert(order@[dim2 as int] == d);
            } else if d == dim2 {
                assert(order@[dim1 as int] == d);
            } else {
                assert(order@[d as int] == d);
            }
        }
    }
    let r = permute(t, &order);
    proof {
        if r is Ok {
            let want = tensor_shape(*t).update(dim1 as int, tensor_shape(*t)[dim2 as int]).update(
                dim2 as int,
                tensor_shape(*t)[dim1 as int],
            );
            assert(tensor_shape(r.unwrap()) =~= want);
        }
    }
    r
}

/// The part of a tensor at index `i` of its first dimension, without that
/// dimension.
pub fn taken(t: &Tensor, i: usize) -> (r: Result<Tensor, EngineError>)
    ensures
        r matches Ok(part) ==> tensor_shape(*t).len() > 0 && i < tensor_shape(*t)[0]
            && tensor_shape(part) == tensor_shape(*t).subrange(
            1,
            tensor_shape(*t).len() as int,
        ) && dtype_of(part) == dtype_of(*t) && device_of(part) == device_of(*t),
        tensor_shape(*t).len() > 0 && i < tensor_shape(*t)[0] && on_cpu(device_of(*t))
            && countable(tensor_shape(*t)) ==> r is Ok,
        r matches Err(e) ==> e.is_backend_fault(),
{
    let dims = tensor_dims(t);
    if dims.len() == 0 {
        return Err(shape_fault());
    }
    let slice = narrow(t, 0, i, 1)?;
    proof {
        let rest = dims@.subrange(1, dims.len() as int);
        assert(tensor_shape(slice) =~= rest.insert(0, 1usize));
        lemma_insert_one(rest, 0);
        if countable(dims@) {
            lemma_without_first(dims@);
        }
    }
    let mut rest: Vec<usize> = Vec::new();
    let mut k: usize = 1;
    while k < dims.len()
        invariant
            1 <= k <= dims.len(),
            rest@ == dims@.subrange(1, k as int),
            dims@ == tensor_shape(*t),
        decreases dims.len() - k,
    {
        rest.push(dims[k]);
        k = k + 1;
        assert(rest@ =~= dims@.subrange(1, k as int));
    }
    reshape(&slice, &rest)
}

/// One entry that holds `k`, in the type and on the device of `like`.
pub fn scalar_like(k: u32, like: &Tensor) -> (r: Result<Tensor, EngineError>)
    ensures
        r matches Ok(t) ==> t == scalar_of(k, *like) && tensor_shape(t) == seq![1usize]
            && dtype_of(t) == dtype_of(*like) && device_of(t) == device_of(*like),
        on_cpu(device_of(*like)) && castable(dtype_of(*like)) ==> r is Ok,
        r matches Err(e) ==> e.is_backend_fault(),
{
    let mut one: Vec<u32> = Vec::new();
    one.push(k);
    assert(one@ =~= seq![k]);
    let whole = values_like(&one, like)?;
    cast_like(&whole, like)
}

/// Every entry of a tensor times `k`. The tensor has at least one
/// dimension.
pub fn scaled(t: &Tensor, k: u32) -> (r: Result<Tensor, EngineError>)
    ensures
        !is_float(dtype_of(*t)) ==> r is Err,
        r matches Ok(s) ==> s == times(*t, k) && tensor_shape(s) == tensor_shape(*t)
            && dtype_of(s) == dtype_of(*t) && device_of(s) == device_of(*t),
        is_float(dtype_of(*t)) && on_cpu(device_of(*t)) && tensor_shape(*t).len() > 0
            ==> r is Ok,
        r matches Err(e) ==> e.is_backend_fault(),
{
    if tensor_dims(t).len() == 0 {
        return Err(shape_fault());
    }
    let factor = scalar_like(k, t)?;
    proof {
        lemma_broadcast_one(tensor_shape(*t));
    }
    broadcast_mul(t, &factor)
}

/// Every entry of a tensor divided by `k`. The tensor has at least one
/// dimension.
pub fn divided(t: &Tensor, k: u32) -> (r: Result<Tensor, EngineError>)
    ensures
        !is_float(dtype_of(*t)) ==> r is Err,
        r matches Ok(s) ==> s == over(*t, k) && tensor_shape(s) == tensor_shape(*t) && dtype_of(
            s,
        ) == dtype_of(*t) && device_of(s) == device_of(*t),
        is_float(dtype_of(*t)) && on_cpu(device_of(*t)) && tensor_shape(*t).len() > 0
            ==> r is Ok,
        r matches Err(e) ==> e.is_backend_fault(),
{
    if tensor_dims(t).len() == 0 {
        return Err(shape_fault());
    }
    let divisor = scalar_like(k, t)?;
    proof {
        lemma_broadcast_one(tensor_shape(*t));
    }
    broadcast_div(t, &divisor)
}

/// Every entry of a tensor divided by the square root of `k`. The tensor has
/// at least one dimension.
pub fn divided_by_root(t: &Tensor, k: u32) -> (r: Result<Tensor, EngineError>)
    ensures
        !is_float(dtype_of(*t)) ==> r is Err,
        r matches Ok(s) ==> tensor_shape(s) == tensor_shape(*t) && dtype_of(s) == dtype_of(*t)
            && device_of(s) == device_of(*t),
        is_float(dtype_of(*t)) && on_cpu(device_of(*t)) && tensor_shape(*t).len() > 0
            ==> r is Ok,
        r matches Err(e) ==> e.is_backend_fault(),
{
    if tensor_dims(t).len() == 0 {
        return Err(shape_fault());
    }
    if !holds_floats(t) {
        return Err(type_fault());
    }
    let whole = scalar_like(k, t)?;
    let root = settled(tensor_sqrt(&whole))?;
    proof {
        lemma_broadcast_one(tensor_shape(*t));
    }
    broadcast_div(t, &root)
}

/// Two shapes agree in their first `n` sizes.
pub fn agree_upto(a: &Vec<usize>, b: &Vec<usize>, n: usize) -> (r: bool)
    ensures
        r == (n <= a.len() && n <= b.len() && a@.take(n as int) == b@.take(n as int)),
{
    if n > a.len() || n > b.len() {
        return false;
    }
    let mut i: usize = 0;
    while i < n
        invariant
            i <= n <= a.len(),
            n <= b.len(),
            a@.take(i as int) == b@.take(i as int),
        decreases n - i,
    {
        if a[i] != b[i] {
            assert(a@.take(n as int)[i as int] != b@.take(n as int)[i as int]);
            return false;
        }
        assert(a@.take(i + 1) =~= a@.take(i as int).push(a[i as int]));
        assert(b@.take(i + 1) =~= b@.take(i as int).push(b[i as int]));
        i = i + 1;
    }
    true
}

/// A linear layer on the rows of a tensor: every row of the input gives one
/// row of the result, so that the two agree in all sizes but the last. A
/// layer that gives anything else is refused.
pub fn linear(layer: &Linear, x: &Tensor) -> (r: Result<Tensor, EngineError>)
    ensures
        r matches Ok(y) ==> tensor_shape(*x).len() > 0 && tensor_shape(y).len() == tensor_shape(
            *x,
        ).len() && tensor_shape(y).drop_last() == tensor_shape(*x).drop_last(),
        r matches Err(e) ==> e.is_backend_fault(),
{
    let y = settled(linear_forward(layer, x))?;
    let before = tensor_dims(x);
    let after = tensor_dims(&y);
    if before.len() == 0 || after.len() != before.len() || !agree_upto(
        &after,
        &before,
        before.len() - 1,
    ) {
        return Err(shape_fault());
    }
    assert(after@.drop_last() =~= after@.take(before.len() - 1));
    assert(before@.drop_last() =~= before@.take(before.len() - 1));
    Ok(y)
}

/// A layer normalisation on the rows of a tensor: the result has the shape
/// of the input. A layer that gives another shape is refused, and so is an
/// input without rows or with empty rows.
pub fn layer_norm(layer: &LayerNorm, x: &Tensor) -> (r: Result<Tensor, EngineError>)
    ensures
        !is_float(dtype_of(*x)) ==> r is Err,
        tensor_shape(*x).len() == 0 || tensor_shape(*x).last() == 0 ==> r is Err,
        r matches Ok(y) ==> tensor_shape(y) == tensor_shape(*x),
        r matches Err(e) ==> e.is_backend_fault(),
{
    if !holds_floats(x) {
        return Err(type_fault());
    }
    let before = tensor_dims(x);
    if before.len() == 0 || before[before.len() - 1] == 0 {
        return Err(shape_fault());
    }
    let y = settled(layer_norm_forward(layer, x))?;
    let after = tensor_dims(&y);
    if after.len() != before.len() || !agree_upto(&after, &before, before.len()) {
        return Err(shape_fault());
    }
    assert(after@.take(before.len() as int) =~= after@);
    assert(before@.take(before.len() as int) =~= before@);
    Ok(y)
}

/// The rows of an embedding table that the ids name: one row for every id,
/// in the shape of the ids. A table that gives anything else is refused.
pub fn embed(table: &Embedding, ids: &Tensor) -> (r: Result<Tensor, EngineError>)
    ensures
        r matches Ok(rows) ==> tensor_shape(rows).len() == tensor_shape(*ids).len() + 1
            && tensor_shape(rows).drop_last() == tensor_shape(*ids),
        r matches Err(e) ==> e.is_backend_fault(),
{
    let rows = settled(embedding_forward(table, ids))?;
    let before = tensor_dims(ids);
    let after = tensor_dims(&rows);
    if after.len() == 0 || after.len() - 1 != before.len() || !agree_upto(
        &after,
        &before,
        before.len(),
    ) {
        return Err(shape_fault());
    }
    assert(after@.drop_last() =~= after@.take(before.len() as int));
    assert(before@.take(before.len() as int) =~= before@);
    Ok(rows)
}

} // verus!
