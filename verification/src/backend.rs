//! The tensor backend, the tokenizer and the random source, as the engine
//! sees them.
//!
//! Everything in this file is taken on trust: the types are opaque, and each
//! function states, without proof, what the outside function it calls does.

use candle_core::{DType, Device, Module, Tensor};
use image::imageops::FilterType;
use image::DynamicImage;
use crate::vision::ResizeFilter;
use candle_nn::{Embedding, LayerNorm, Linear, VarBuilder};
use crate::text::decimal_digits;
use candle_transformers::models::llama::{Cache, Config, Llama};
use candle_transformers::models::quantized_llama::ModelWeights;
use rand::Rng;
use tokenizers::Tokenizer;
use vstd::prelude::*;

verus! {

#[verifier::external_type_specification]
#[verifier::external_body]
pub struct ExTensor(Tensor);

#[verifier::external_type_specification]
#[verifier::external_body]
pub struct ExDevice(Device);

#[verifier::external_type_specification]
#[verifier::external_body]
pub struct ExDType(DType);

#[verifier::external_type_specification]
#[verifier::external_body]
pub struct ExBackendError(candle_core::Error);

#[verifier::external_type_specification]
#[verifier::external_body]
pub struct ExLinear(Linear);

#[verifier::external_type_specification]
#[verifier::external_body]
pub struct ExLayerNorm(LayerNorm);

#[verifier::external_type_specification]
#[verifier::external_body]
pub struct ExEmbedding(Embedding);

#[verifier::external_type_specification]
#[verifier::external_body]
pub struct ExTokenizer(Tokenizer);

#[verifier::external_type_specification]
#[verifier::external_body]
pub struct ExDynamicImage(DynamicImage);

#[verifier::external_type_specification]
#[verifier::external_body]
pub struct ExModelWeights(ModelWeights);

#[verifier::external_type_specification]
#[verifier::external_body]
pub struct ExLlama(Llama);

#[verifier::external_type_specification]
#[verifier::external_body]
pub struct ExCache(Cache);

#[verifier::external_type_specification]
#[verifier::external_body]
pub struct ExConfig(Config);

/// The sizes of the dimensions of a tensor, outermost first.
pub uninterp spec fn tensor_shape(t: Tensor) -> Seq<usize>;

/// The entries of a tensor, row by row, each as the unsigned integer of 32
/// bits that the backend turns it into: itself where it is such an integer.
pub uninterp spec fn tensor_entries(t: Tensor) -> Seq<u32>;

/// The entries of tensors of this type are unsigned integers of 32 bits.
pub uninterp spec fn holds_unsigned(dtype: DType) -> bool;

/// The number of attention heads that a dense model configuration names.
pub uninterp spec fn attention_heads(config: Config) -> usize;

/// The type of the entries of a tensor.
pub uninterp spec fn dtype_of(t: Tensor) -> DType;

/// The device that holds a tensor.
pub uninterp spec fn device_of(t: Tensor) -> Device;

/// The entries of tensors of this type are floats of 16, 32 or 64 bits, on
/// which the backend has all its arithmetic.
pub uninterp spec fn is_float(dtype: DType) -> bool;

/// The tensor of one dimension that holds the values, on a device.
pub uninterp spec fn held(values: Seq<u32>, device: Device) -> Tensor;

/// A tensor with its entries turned into a type.
pub uninterp spec fn cast_to(t: Tensor, dtype: DType) -> Tensor;

/// A tensor with its entries, row by row, in another shape.
pub uninterp spec fn reshaped(t: Tensor, dims: Seq<usize>) -> Tensor;

/// The part of a tensor that holds, along a dimension, `len` entries from
/// `start` on.
pub uninterp spec fn narrowed(t: Tensor, dim: usize, start: usize, len: usize) -> Tensor;

/// A tensor with the sign of every entry turned.
pub uninterp spec fn negated(t: Tensor) -> Tensor;

/// Two tensors, the second after the first along a dimension.
pub uninterp spec fn joined(a: Tensor, b: Tensor, dim: usize) -> Tensor;

/// A tensor laid out row by row.
pub uninterp spec fn laid_out(t: Tensor) -> Tensor;

/// The product of two tensors of floats entry by entry, with the shapes
/// stretched to one another; every product is rounded as the standard of
/// floating point says.
pub uninterp spec fn product(a: Tensor, b: Tensor) -> Tensor;

/// The quotient of two tensors of floats entry by entry, with the shapes
/// stretched to one another, rounded as the standard says.
pub uninterp spec fn quotient(a: Tensor, b: Tensor) -> Tensor;

/// The sum of two tensors of floats of one shape entry by entry, rounded as
/// the standard says.
pub uninterp spec fn sum_of(a: Tensor, b: Tensor) -> Tensor;

/// The largest entry of a row, as a row of one entry.
pub uninterp spec fn largest(t: Tensor) -> Tensor;

/// `output` is what the softmax along the last dimension gave for `input`.
/// The exponentials in it are those of the machine, so that two machines may
/// give two outputs for one input.
pub uninterp spec fn softmax_gives(input: Tensor, output: Tensor) -> bool;

/// The id that a tokenizer has for a token, if its vocabulary holds the
/// token.
pub uninterp spec fn token_id_of(tokenizer: Tokenizer, token: Seq<char>) -> Option<u32>;

/// The size of the vocabulary of a tokenizer, with or without the tokens
/// that were added to its model.
pub uninterp spec fn vocab_size_of(tokenizer: Tokenizer, with_added_tokens: bool) -> usize;

/// The text that a tokenizer decodes ids to, with or without the tokens that
/// only mark something; nothing where it cannot decode them.
pub uninterp spec fn decoded_text(
    tokenizer: Tokenizer,
    ids: Seq<u32>,
    skip_special_tokens: bool,
) -> Option<Seq<char>>;

/// The image that bytes encode, in one of the formats that the image
/// library reads; nothing where they encode none.
pub uninterp spec fn decoded_image(bytes: Seq<u8>) -> Option<DynamicImage>;

/// The width of the model that a dense model configuration names.
pub uninterp spec fn hidden_size_of(config: Config) -> usize;

/// The width of the feed-forward blocks that a dense model configuration
/// names.
pub uninterp spec fn intermediate_size_of(config: Config) -> usize;

/// The size of the vocabulary that a dense model configuration names.
pub uninterp spec fn model_vocab_of(config: Config) -> usize;

/// A dense model configuration says that the output layer is the table of
/// embeddings.
pub uninterp spec fn ties_embeddings(config: Config) -> bool;

/// The number of layers that a dense model configuration names.
pub uninterp spec fn layers_of(config: Config) -> usize;

/// The quantized model was read from a file that names these counts: the
/// number of attention heads, the number of key/value heads, and the width
/// of the model.
pub uninterp spec fn read_with(model: ModelWeights, heads: usize, keys: usize, width: usize) -> bool;

/// The model was built for the configuration: it has the layers, the heads
/// and the attention that the configuration names.
pub uninterp spec fn built_for(model: Llama, config: Config) -> bool;

/// The cache was made for the configuration: it has room for the layers
/// that the configuration names.
pub uninterp spec fn cache_for(cache: Cache, config: Config) -> bool;

/// The device is the processor itself, on which a tensor is made wherever
/// there is memory for it.
pub uninterp spec fn on_cpu(device: Device) -> bool;

/// The image holds a red, a green and a blue byte for every pixel.
pub uninterp spec fn image_is_rgb(image: DynamicImage) -> bool;

/// The entries of tensors of this type are the bytes in which the backend
/// hands out the flags of a comparison.
pub uninterp spec fn holds_flags(dtype: DType) -> bool;

/// The entries of tensors of this type are floats, unsigned integers of 32
/// bits or flags: the types between which the library turns entries.
pub open spec fn castable(dtype: DType) -> bool {
    is_float(dtype) || holds_unsigned(dtype) || holds_flags(dtype)
}

/// A shape to which a tensor of another shape can be stretched: it has as
/// many dimensions or more, and lined up at the last dimensions the sizes
/// are equal wherever the size of the tensor is not one.
pub open spec fn stretches_to(from: Seq<usize>, to: Seq<usize>) -> bool {
    from.len() <= to.len() && forall|i: int|
        #![trigger from[from.len() - 1 - i]]
        0 <= i < from.len() ==> from[from.len() - 1 - i] == to[to.len() - 1 - i] || from[from.len()
            - 1 - i] == 1
}

/// Two shapes can be stretched to one another: lined up at their last
/// dimensions, every two sizes are equal, or one of them is one.
pub open spec fn stretches(a: Seq<usize>, b: Seq<usize>) -> bool {
    forall|i: int|
        #![trigger a[a.len() - 1 - i]]
        #![trigger b[b.len() - 1 - i]]
        0 <= i < a.len() && i < b.len() ==> a[a.len() - 1 - i] == b[b.len() - 1 - i] || a[a.len()
            - 1 - i] == 1 || b[b.len() - 1 - i] == 1
}

/// Two shapes of one rank agree in every size but that of one dimension.
pub open spec fn agree_but_at(a: Seq<usize>, b: Seq<usize>, dim: int) -> bool {
    a.len() == b.len() && forall|i: int| 0 <= i < a.len() && i != dim ==> a[i] == b[i]
}

/// An order of the dimensions of a tensor of the given rank: as many places
/// as the tensor has dimensions, and every dimension in one of them.
pub open spec fn is_order(order: Seq<usize>, rank: nat) -> bool {
    order.len() == rank && forall|d: usize| d < rank ==> #[trigger] order.contains(d)
}

/// Two devices are the same place.
pub uninterp spec fn same_place(a: Device, b: Device) -> bool;

/// The name of a tensor of a layer of a dense model: `model.layers.`, the
/// number of the layer, and the name of the tensor in the layer.
pub open spec fn layer_name(layer: nat, part: Seq<char>) -> Seq<char> {
    "model.layers."@ + decimal_digits(layer) + part
}

/// The weights hold a tensor under a name, and whatever they hold under the
/// name has the given shape, holds floats and lies on the device.
pub open spec fn weight_fits(
    weights: Seq<(String, Tensor)>,
    name: Seq<char>,
    shape: Seq<usize>,
    device: Device,
) -> bool {
    &&& exists|i: int| 0 <= i < weights.len() && (#[trigger] weights[i]).0@ == name
    &&& forall|i: int|
        0 <= i < weights.len() && (#[trigger] weights[i]).0@ == name ==> tensor_shape(
            weights[i].1,
        ) == shape && is_float(dtype_of(weights[i].1)) && same_place(
            device_of(weights[i].1),
            device,
        )
}

/// The weights hold the nine tensors of a layer of a dense model, each in
/// its shape: the four projections of the attention, the three of the
/// feed-forward block, and the two normalisations. `hidden` is the width of
/// the model, `inner` that of the feed-forward block, `queries` and `keys`
/// the widths of the queries and of the keys and values.
pub open spec fn layer_fits(
    weights: Seq<(String, Tensor)>,
    device: Device,
    layer: nat,
    hidden: usize,
    inner: usize,
    queries: usize,
    keys: usize,
) -> bool {
    &&& weight_fits(
        weights,
        layer_name(layer, ".self_attn.q_proj.weight"@),
        seq![queries, hidden],
        device,
    )
    &&& weight_fits(
        weights,
        layer_name(layer, ".self_attn.k_proj.weight"@),
        seq![keys, hidden],
        device,
    )
    &&& weight_fits(
        weights,
        layer_name(layer, ".self_attn.v_proj.weight"@),
        seq![keys, hidden],
        device,
    )
    &&& weight_fits(
        weights,
        layer_name(layer, ".self_attn.o_proj.weight"@),
        seq![hidden, queries],
        device,
    )
    &&& weight_fits(weights, layer_name(layer, ".mlp.gate_proj.weight"@), seq![inner, hidden], device)
    &&& weight_fits(weights, layer_name(layer, ".mlp.up_proj.weight"@), seq![inner, hidden], device)
    &&& weight_fits(weights, layer_name(layer, ".mlp.down_proj.weight"@), seq![hidden, inner], device)
    &&& weight_fits(weights, layer_name(layer, ".input_layernorm.weight"@), seq![hidden], device)
    &&& weight_fits(
        weights,
        layer_name(layer, ".post_attention_layernorm.weight"@),
        seq![hidden],
        device,
    )
}

/// The weights hold what a dense model has beside its layers, each tensor in
/// its shape: the table of embeddings, the last normalisation, and the
/// output layer unless that is the table of embeddings.
pub open spec fn head_fits(weights: Seq<(String, Tensor)>, config: Config, device: Device) -> bool {
    &&& weight_fits(
        weights,
        "model.embed_tokens.weight"@,
        seq![model_vocab_of(config), hidden_size_of(config)],
        device,
    )
    &&& weight_fits(weights, "model.norm.weight"@, seq![hidden_size_of(config)], device)
    &&& ties_embeddings(config) || weight_fits(
        weights,
        "lm_head.weight"@,
        seq![model_vocab_of(config), hidden_size_of(config)],
        device,
    )
}

/// The width of the queries of a dense model: the width of a head times the
/// number of heads.
pub open spec fn queries_of(config: Config) -> int {
    (hidden_size_of(config) / attention_heads(config)) * attention_heads(config)
}

/// The width of the keys and values of a dense model: the width of a head
/// times the number of key/value heads.
pub open spec fn keys_of(config: Config) -> int {
    (hidden_size_of(config) / attention_heads(config)) * key_value_heads(config)
}

/// The number of key/value heads that a dense model configuration names.
pub uninterp spec fn key_value_heads(config: Config) -> usize;

/// A dense model configuration asks for the fused attention kernel, which
/// is not built into the backend.
pub uninterp spec fn wants_fused_attention(config: Config) -> bool;

/// The number of entries of a tensor of the given shape: the product of the
/// sizes.
pub open spec fn entry_count(dims: Seq<usize>) -> nat
    decreases dims.len(),
{
    if dims.len() == 0 {
        1
    } else {
        entry_count(dims.drop_last()) * dims.last() as nat
    }
}

/// The entries of a shape can be counted: multiplied up from the first size
/// on, the product never leaves the machine's range.
pub open spec fn countable(dims: Seq<usize>) -> bool
    decreases dims.len(),
{
    dims.len() == 0 || (countable(dims.drop_last()) && entry_count(dims) <= usize::MAX)
}

/// The width and the height of an image, in pixels.
pub uninterp spec fn image_extent(image: DynamicImage) -> (u32, u32);

/// The smaller of two numbers.
pub open spec fn lesser(a: int, b: int) -> int {
    if a <= b {
        a
    } else {
        b
    }
}

/// The size that two sizes give when one is stretched to the other: equal
/// sizes stay, and a size of one gives way.
pub open spec fn broadcast_size(l: usize, r: usize) -> usize {
    if l == r {
        l
    } else if l == 1 {
        r
    } else {
        l
    }
}

/// The shape to which two shapes are stretched for an operation entry by
/// entry: the shapes are lined up at their last dimensions, and a missing
/// dimension counts as one of size one.
pub open spec fn broadcast_shape(a: Seq<usize>, b: Seq<usize>) -> Seq<usize> {
    let n = if a.len() >= b.len() {
        a.len()
    } else {
        b.len()
    };
    Seq::new(
        n,
        |i: int|
            broadcast_size(
                if i < n - a.len() {
                    1usize
                } else {
                    a[i - (n - a.len())]
                },
                if i < n - b.len() {
                    1usize
                } else {
                    b[i - (n - b.len())]
                },
            ),
    )
}

/// Calls `Tensor::dims` and copies the sizes out.
#[verifier::external_body]
pub(crate) fn tensor_dims(t: &Tensor) -> (dims: Vec<usize>)
    ensures
        dims@ == tensor_shape(*t),
{
    t.dims().to_vec()
}

/// Calls `Tensor::device`.
#[verifier::external_body]
pub(crate) fn tensor_device(t: &Tensor) -> (device: &Device)
    ensures
        *device == device_of(*t),
{
    t.device()
}

/// Calls `Tensor::dtype`: the type of the entries.
#[verifier::external_body]
pub(crate) fn tensor_dtype(t: &Tensor) -> (dtype: DType)
    ensures
        dtype == dtype_of(*t),
{
    t.dtype()
}

/// Tells the types `BF16`, `F16`, `F32` and `F64` of `DType` from the
/// others: the floats on which the backend has all its arithmetic.
#[verifier::external_body]
pub(crate) fn dtype_is_float(dtype: DType) -> (r: bool)
    ensures
        r == is_float(dtype),
{
    match dtype {
        DType::BF16 => true,
        DType::F16 => true,
        DType::F32 => true,
        DType::F64 => true,
        _ => false,
    }
}

/// The type `DType::U32` of entries.
#[verifier::external_body]
pub(crate) fn unsigned_entries() -> (dtype: DType)
    ensures
        holds_unsigned(dtype),
        !is_float(dtype),
{
    DType::U32
}

/// The type `DType::F32` of entries.
#[verifier::external_body]
pub(crate) fn float_entries() -> (dtype: DType)
    ensures
        is_float(dtype),
{
    DType::F32
}

/// Calls `Display` on an error of the backend, for its message.
#[verifier::external_body]
pub(crate) fn error_text(e: &candle_core::Error) -> (text: String) {
    e.to_string()
}

/// Calls `Tensor::from_slice`: a tensor of one dimension that holds the
/// values. On the processor it is always made.
#[verifier::external_body]
pub(crate) fn values_tensor(values: &Vec<u32>, device: &Device) -> (r: Result<
    Tensor,
    candle_core::Error,
>)
    ensures
        r matches Ok(t) ==> t == held(values@, *device) && tensor_shape(t) == seq![values.len()]
            && tensor_entries(t) == values@ && device_of(t) == *device && !is_float(dtype_of(t))
            && holds_unsigned(dtype_of(t)),
        on_cpu(*device) ==> r is Ok,
{
    Tensor::from_slice(values.as_slice(), values.len(), device)
}

/// Calls `Tensor::to_vec1` for unsigned integers of 32 bits: the entries of
/// a tensor of one dimension that holds such integers.
#[verifier::external_body]
pub(crate) fn tensor_values(t: &Tensor) -> (r: Result<Vec<u32>, candle_core::Error>)
    ensures
        r matches Ok(values) ==> tensor_shape(*t) == seq![values.len()] && values@
            == tensor_entries(*t),
        on_cpu(device_of(*t)) && holds_unsigned(dtype_of(*t)) && tensor_shape(*t).len() == 1
            ==> r is Ok,
{
    t.to_vec1::<u32>()
}

/// Calls `Tensor::to_dtype`: the entries are turned into the given type, in
/// the same shape. On the processor floats and unsigned integers of 32 bits
/// are always turned into one another. Turned into unsigned integers of 32 bits, every entry is
/// cut down to that.
#[verifier::external_body]
pub(crate) fn tensor_cast(t: &Tensor, dtype: DType) -> (r: Result<Tensor, candle_core::Error>)
    ensures
        r matches Ok(c) ==> c == cast_to(*t, dtype) && tensor_shape(c) == tensor_shape(*t)
            && dtype_of(c) == dtype && device_of(c) == device_of(*t) && (holds_unsigned(dtype)
            ==> tensor_entries(c) == tensor_entries(*t)),
        on_cpu(device_of(*t)) && castable(dtype_of(*t)) && castable(dtype) ==> r is Ok,
{
    t.to_dtype(dtype)
}

/// Calls `Tensor::narrow`: the part of the tensor that holds, along
/// dimension `dim`, the `len` entries from `start` on. It fails where the
/// dimension or the range lies outside the tensor.
#[verifier::external_body]
pub(crate) fn tensor_narrow(t: &Tensor, dim: usize, start: usize, len: usize) -> (r: Result<
    Tensor,
    candle_core::Error,
>)
    ensures
        r matches Ok(part) ==> part == narrowed(*t, dim, start, len) && dim < tensor_shape(
            *t,
        ).len() && start + len <= tensor_shape(*t)[dim as int] && tensor_shape(part)
            == tensor_shape(*t).update(dim as int, len) && dtype_of(part) == dtype_of(*t)
            && device_of(part) == device_of(*t),
        dim < tensor_shape(*t).len() && start + len <= tensor_shape(*t)[dim as int] ==> r is Ok,
{
    t.narrow(dim, start, len)
}

/// Calls `Tensor::reshape` with the given sizes: the same entries, row by
/// row, in the new shape. The outside function multiplies the sizes up. It
/// fails only where the new shape has another number of entries, or where
/// a device other than the processor has no room for a copy.
#[verifier::external_body]
pub(crate) fn tensor_reshape(t: &Tensor, dims: &Vec<usize>) -> (r: Result<
    Tensor,
    candle_core::Error,
>)
    requires
        countable(dims@),
    ensures
        r matches Ok(u) ==> u == reshaped(*t, dims@) && tensor_shape(u) == dims@
            && tensor_entries(u) == tensor_entries(*t) && dtype_of(u) == dtype_of(*t)
            && device_of(u) == device_of(*t),
        on_cpu(device_of(*t)) && countable(tensor_shape(*t)) && entry_count(dims@) == entry_count(
            tensor_shape(*t),
        ) ==> r is Ok,
{
    t.reshape(dims.as_slice())
}

/// Calls `Tensor::permute`: the dimensions in the given order. It fails
/// only where that is no order of the dimensions.
#[verifier::external_body]
pub(crate) fn tensor_permute(t: &Tensor, order: &Vec<usize>) -> (r: Result<
    Tensor,
    candle_core::Error,
>)
    ensures
        r matches Ok(u) ==> order.len() == tensor_shape(*t).len() && tensor_shape(u).len()
            == order.len() && forall|i: int|
            0 <= i < order.len() ==> order[i] < order.len() && #[trigger] tensor_shape(u)[i]
                == tensor_shape(*t)[order[i] as int],
        r matches Ok(u) ==> dtype_of(u) == dtype_of(*t) && device_of(u) == device_of(*t),
        is_order(order@, tensor_shape(*t).len()) ==> r is Ok,
{
    t.permute(order.as_slice())
}

/// Calls `Tensor::contiguous`: the same tensor, laid out row by row. It
/// fails only where a device other than the processor has no room for a
/// copy.
#[verifier::external_body]
pub(crate) fn tensor_contiguous(t: &Tensor) -> (r: Result<Tensor, candle_core::Error>)
    ensures
        r matches Ok(c) ==> c == laid_out(*t) && tensor_shape(c) == tensor_shape(*t)
            && dtype_of(c) == dtype_of(*t) && device_of(c) == device_of(*t),
        on_cpu(device_of(*t)) ==> r is Ok,
{
    t.contiguous()
}

/// Calls `Tensor::cat` on two tensors: the second after the first along
/// dimension `dim`. The outside function adds the two sizes up.
#[verifier::external_body]
pub(crate) fn tensor_cat(a: &Tensor, b: &Tensor, dim: usize) -> (r: Result<
    Tensor,
    candle_core::Error,
>)
    requires
        dim < tensor_shape(*a).len() && dim < tensor_shape(*b).len() ==> tensor_shape(
            *a,
        )[dim as int] + tensor_shape(*b)[dim as int] <= usize::MAX,
    ensures
        r matches Ok(c) ==> dtype_of(c) == dtype_of(*a) && device_of(c) == device_of(*a),
        on_cpu(device_of(*a)) && on_cpu(device_of(*b)) && dtype_of(*a) == dtype_of(*b) && dim
            < tensor_shape(*a).len() && agree_but_at(tensor_shape(*a), tensor_shape(*b), dim as int)
            ==> r is Ok,
        r matches Ok(c) ==> c == joined(*a, *b, dim) && dim < tensor_shape(*a).len()
            && tensor_shape(*b).len() == tensor_shape(*a).len() && tensor_shape(c)
            == tensor_shape(*a).update(
            dim as int,
            (tensor_shape(*a)[dim as int] + tensor_shape(*b)[dim as int]) as usize,
        ),
{
    Tensor::cat(&[a, b], dim)
}

/// Calls `Tensor::neg`: every entry with its sign turned, in the same shape. The backend
/// has this for floats only.
#[verifier::external_body]
pub(crate) fn tensor_neg(t: &Tensor) -> (r: Result<Tensor, candle_core::Error>)
    requires
        is_float(dtype_of(*t)),
    ensures
        r matches Ok(n) ==> tensor_shape(n) == tensor_shape(*t) && dtype_of(n) == dtype_of(
            *t,
        ) && n == negated(*t) && device_of(n) == device_of(*t),
        on_cpu(device_of(*t)) ==> r is Ok,
{
    t.neg()
}

/// Calls `Tensor::cos`: the cosine of every entry, in the same shape. The backend
/// has this for floats only.
#[verifier::external_body]
pub(crate) fn tensor_cos(t: &Tensor) -> (r: Result<Tensor, candle_core::Error>)
    requires
        is_float(dtype_of(*t)),
    ensures
        r matches Ok(c) ==> tensor_shape(c) == tensor_shape(*t) && dtype_of(c) == dtype_of(
            *t,
        ),
{
    t.cos()
}

/// Calls `Tensor::sin`: the sine of every entry, in the same shape. The backend
/// has this for floats only.
#[verifier::external_body]
pub(crate) fn tensor_sin(t: &Tensor) -> (r: Result<Tensor, candle_core::Error>)
    requires
        is_float(dtype_of(*t)),
    ensures
        r matches Ok(s) ==> tensor_shape(s) == tensor_shape(*t) && dtype_of(s) == dtype_of(
            *t,
        ),
{
    t.sin()
}

/// Calls `Tensor::log`: the natural logarithm of every entry, in the same
/// shape.
/// The backend has this for floats only.
#[verifier::external_body]
pub(crate) fn tensor_log(t: &Tensor) -> (r: Result<Tensor, candle_core::Error>)
    requires
        is_float(dtype_of(*t)),
    ensures
        r matches Ok(l) ==> tensor_shape(l) == tensor_shape(*t) && dtype_of(l) == dtype_of(
            *t,
        ),
{
    t.log()
}

/// Calls `Tensor::exp`: the exponential of every entry, in the same shape.
/// The backend has this for floats only.
#[verifier::external_body]
pub(crate) fn tensor_exp(t: &Tensor) -> (r: Result<Tensor, candle_core::Error>)
    requires
        is_float(dtype_of(*t)),
    ensures
        r matches Ok(e) ==> tensor_shape(e) == tensor_shape(*t) && dtype_of(e) == dtype_of(
            *t,
        ),
{
    t.exp()
}

/// Calls `Tensor::expand`: the tensor stretched to the given shape. What
/// works on the result multiplies the sizes up.
#[verifier::external_body]
pub(crate) fn tensor_expand(t: &Tensor, dims: &Vec<usize>) -> (r: Result<
    Tensor,
    candle_core::Error,
>)
    requires
        countable(dims@),
    ensures
        r matches Ok(e) ==> tensor_shape(e) == dims@ && dtype_of(e) == dtype_of(*t) && device_of(e)
            == device_of(*t),
        r is Ok <==> stretches_to(tensor_shape(*t), dims@),
{
    t.expand(dims.as_slice())
}

/// Calls `Tensor::sqrt`: the square root of every entry, in the same shape. The backend
/// has this for floats only.
#[verifier::external_body]
pub(crate) fn tensor_sqrt(t: &Tensor) -> (r: Result<Tensor, candle_core::Error>)
    requires
        is_float(dtype_of(*t)),
    ensures
        r matches Ok(s) ==> tensor_shape(s) == tensor_shape(*t) && dtype_of(s) == dtype_of(
            *t,
        ) && device_of(s) == device_of(*t),
        on_cpu(device_of(*t)) ==> r is Ok,
{
    t.sqrt()
}

/// Calls `Tensor::gelu_erf`, the activation that `Activation::Gelu` applies:
/// entry by entry, in the same shape.
#[verifier::external_body]
pub(crate) fn tensor_gelu(t: &Tensor) -> (r: Result<Tensor, candle_core::Error>)
    ensures
        r matches Ok(g) ==> tensor_shape(g) == tensor_shape(*t),
{
    t.gelu_erf()
}

/// Calls `Tensor::broadcast_mul`: the product entry by entry, with the
/// shapes stretched to one another.
/// The tensors hold floats: on integers the backend may leave their range
/// or divide by zero.
#[verifier::external_body]
pub(crate) fn tensor_broadcast_mul(a: &Tensor, b: &Tensor) -> (r: Result<
    Tensor,
    candle_core::Error,
>)
    requires
        is_float(dtype_of(*a)),
        is_float(dtype_of(*b)),
    ensures
        r matches Ok(c) ==> tensor_shape(c) == broadcast_shape(
            tensor_shape(*a),
            tensor_shape(*b),
        ) && dtype_of(c) == dtype_of(*a) && c == product(*a, *b),
        r matches Ok(c) ==> device_of(c) == device_of(*a),
        on_cpu(device_of(*a)) && on_cpu(device_of(*b)) && dtype_of(*a) == dtype_of(*b) && stretches(
            tensor_shape(*a),
            tensor_shape(*b),
        ) ==> r is Ok,
{
    a.broadcast_mul(b)
}

/// Calls `Tensor::broadcast_div`: the quotient entry by entry, with the
/// shapes stretched to one another.
/// The tensors hold floats: on integers the backend may leave their range
/// or divide by zero.
#[verifier::external_body]
pub(crate) fn tensor_broadcast_div(a: &Tensor, b: &Tensor) -> (r: Result<
    Tensor,
    candle_core::Error,
>)
    requires
        is_float(dtype_of(*a)),
        is_float(dtype_of(*b)),
    ensures
        r matches Ok(c) ==> tensor_shape(c) == broadcast_shape(
            tensor_shape(*a),
            tensor_shape(*b),
        ) && dtype_of(c) == dtype_of(*a) && c == quotient(*a, *b),
        r matches Ok(c) ==> device_of(c) == device_of(*a),
        on_cpu(device_of(*a)) && on_cpu(device_of(*b)) && dtype_of(*a) == dtype_of(*b) && stretches(
            tensor_shape(*a),
            tensor_shape(*b),
        ) ==> r is Ok,
{
    a.broadcast_div(b)
}

/// Calls `Tensor::broadcast_add`: the sum entry by entry, with the shapes
/// stretched to one another.
/// The tensors hold floats: on integers the backend may leave their range
/// or divide by zero.
#[verifier::external_body]
pub(crate) fn tensor_broadcast_add(a: &Tensor, b: &Tensor) -> (r: Result<
    Tensor,
    candle_core::Error,
>)
    requires
        is_float(dtype_of(*a)),
        is_float(dtype_of(*b)),
    ensures
        r matches Ok(c) ==> tensor_shape(c) == broadcast_shape(
            tensor_shape(*a),
            tensor_shape(*b),
        ) && dtype_of(c) == dtype_of(*a),
        r matches Ok(c) ==> device_of(c) == device_of(*a),
        on_cpu(device_of(*a)) && on_cpu(device_of(*b)) && dtype_of(*a) == dtype_of(*b) && stretches(
            tensor_shape(*a),
            tensor_shape(*b),
        ) ==> r is Ok,
{
    a.broadcast_add(b)
}

/// Calls `Tensor::add`: the sum entry by entry of two tensors of one shape.
/// The tensors hold floats: on integers the backend may leave their range
/// or divide by zero.
#[verifier::external_body]
pub(crate) fn tensor_add(a: &Tensor, b: &Tensor) -> (r: Result<Tensor, candle_core::Error>)
    requires
        is_float(dtype_of(*a)),
        is_float(dtype_of(*b)),
    ensures
        r matches Ok(sum) ==> sum == sum_of(*a, *b) && tensor_shape(sum) == tensor_shape(*a)
            && tensor_shape(*b) == tensor_shape(*a) && dtype_of(sum) == dtype_of(*a) && device_of(
            sum,
        ) == device_of(*a),
        on_cpu(device_of(*a)) && on_cpu(device_of(*b)) && dtype_of(*a) == dtype_of(*b)
            && tensor_shape(*a) == tensor_shape(*b) ==> r is Ok,
{
    a.add(b)
}

/// Calls `Tensor::gt` with a number: 1 where an entry is above the number, 0
/// elsewhere, in the same shape, as bytes. On the processor floats, unsigned
/// integers of 32 bits and bytes are always compared.
#[verifier::external_body]
pub(crate) fn tensor_above(t: &Tensor, k: u32) -> (r: Result<Tensor, candle_core::Error>)
    ensures
        r matches Ok(flags) ==> tensor_shape(flags) == tensor_shape(*t) && holds_flags(
            dtype_of(flags),
        ) && device_of(flags) == device_of(*t),
        on_cpu(device_of(*t)) && castable(dtype_of(*t)) ==> r is Ok,
{
    t.gt(k)
}

/// Calls `Tensor::matmul`: the matrix product over the last two dimensions
/// of two tensors of one rank.
#[verifier::external_body]
pub(crate) fn tensor_matmul(a: &Tensor, b: &Tensor) -> (r: Result<Tensor, candle_core::Error>)
    ensures
        r matches Ok(c) ==> tensor_shape(*a).len() >= 2 && tensor_shape(*b).len()
            == tensor_shape(*a).len() && tensor_shape(c) == tensor_shape(*a).update(
            tensor_shape(*a).len() - 1,
            tensor_shape(*b).last(),
        ),
{
    a.matmul(b)
}

/// The shape of the matrix product of tensors of two shapes: the dimensions
/// before the last two stretched to one another, then the rows of the first
/// and the columns of the second.
pub open spec fn matmul_shape(a: Seq<usize>, b: Seq<usize>) -> Seq<usize> {
    broadcast_shape(a.take(a.len() - 2), b.take(b.len() - 2)).push(a[a.len() - 2]).push(
        b.last(),
    )
}

/// Calls `Tensor::broadcast_matmul`: the matrix product over the last two
/// dimensions, with the dimensions before them stretched to one another.
/// Both tensors have two dimensions or more, and the first has as many
/// columns as the second has rows.
#[verifier::external_body]
pub(crate) fn tensor_broadcast_matmul(a: &Tensor, b: &Tensor) -> (r: Result<
    Tensor,
    candle_core::Error,
>)
    ensures
        r matches Ok(c) ==> tensor_shape(*a).len() >= 2 && tensor_shape(*b).len() >= 2
            && tensor_shape(*a).last() == tensor_shape(*b)[tensor_shape(*b).len() - 2]
            && tensor_shape(c) == matmul_shape(tensor_shape(*a), tensor_shape(*b)),
{
    a.broadcast_matmul(b)
}

/// Calls `Tensor::index_add`: along dimension `dim`, the slices of `source`
/// are added to the slices of `t` that `indexes` names. The result has the
/// shape of `t`.
/// The tensors hold floats: on integers the backend may leave their range
/// or divide by zero.
#[verifier::external_body]
pub(crate) fn tensor_index_add(t: &Tensor, indexes: &Tensor, source: &Tensor, dim: usize) -> (r:
    Result<Tensor, candle_core::Error>)
    requires
        is_float(dtype_of(*t)),
        is_float(dtype_of(*source)),
    ensures
        r matches Ok(sum) ==> tensor_shape(sum) == tensor_shape(*t),
{
    t.index_add(indexes, source, dim)
}

/// Calls `Tensor::max_keepdim` along the one dimension of a row: the
/// largest entry, as a row of one entry. The row has two entries or more.
#[verifier::external_body]
pub(crate) fn tensor_max_of_row(t: &Tensor) -> (r: Result<Tensor, candle_core::Error>)
    requires
        tensor_shape(*t).len() == 1,
        tensor_shape(*t)[0] >= 2,
    ensures
        r matches Ok(top) ==> top == largest(*t) && tensor_shape(top) == seq![1usize]
            && dtype_of(top) == dtype_of(*t) && device_of(top) == device_of(*t),
        on_cpu(device_of(*t)) && castable(dtype_of(*t)) ==> r is Ok,
{
    t.max_keepdim(0)
}

/// Calls `candle_nn::ops::softmax_last_dim`: along the last dimension the
/// entries become probabilities, in the same shape. The outside function
/// indexes the last dimension and cuts the data into rows of its size, so the
/// tensor must have a last dimension and that must not be empty.
#[verifier::external_body]
pub(crate) fn softmax_last_dim(t: &Tensor) -> (r: Result<Tensor, candle_core::Error>)
    requires
        tensor_shape(*t).len() > 0,
        tensor_shape(*t).last() > 0,
    ensures
        r matches Ok(probs) ==> softmax_gives(*t, probs) && tensor_shape(probs) == tensor_shape(
            *t,
        ),
{
    candle_nn::ops::softmax_last_dim(t)
}

/// Calls `forward` of a linear layer.
#[verifier::external_body]
pub(crate) fn linear_forward(layer: &Linear, x: &Tensor) -> (r: Result<
    Tensor,
    candle_core::Error,
>) {
    layer.forward(x)
}

/// Calls `forward` of a layer normalisation, which squares its input and
/// cuts it into rows of the size of its last dimension: the input holds
/// floats and has a last dimension that is not empty.
#[verifier::external_body]
pub(crate) fn layer_norm_forward(layer: &LayerNorm, x: &Tensor) -> (r: Result<
    Tensor,
    candle_core::Error,
>)
    requires
        is_float(dtype_of(*x)),
        tensor_shape(*x).len() > 0,
        tensor_shape(*x).last() > 0,
{
    layer.forward(x)
}

/// Calls `forward` of an embedding table: the row of every index.
#[verifier::external_body]
pub(crate) fn embedding_forward(table: &Embedding, ids: &Tensor) -> (r: Result<
    Tensor,
    candle_core::Error,
>) {
    table.forward(ids)
}

/// Calls `image::load_from_memory`: the image that the bytes encode; an
/// error is handed on as its message.
#[verifier::external_body]
pub(crate) fn image_decode(bytes: &[u8]) -> (r: Result<DynamicImage, String>)
    ensures
        r matches Ok(image) ==> decoded_image(bytes@) == Some(image),
        r is Err ==> decoded_image(bytes@) is None,
{
    match image::load_from_memory(bytes) {
        Ok(image) => Ok(image),
        Err(e) => Err(e.to_string()),
    }
}

/// Calls `DynamicImage::width`.
#[verifier::external_body]
pub(crate) fn image_width(image: &DynamicImage) -> (width: u32)
    ensures
        width == image_extent(*image).0,
{
    image.width()
}

/// Calls `DynamicImage::height`.
#[verifier::external_body]
pub(crate) fn image_height(image: &DynamicImage) -> (height: u32)
    ensures
        height == image_extent(*image).1,
{
    image.height()
}

/// Calls `DynamicImage::to_rgb8`: the image with a red, a green and a blue
/// byte for every pixel, in the same size.
#[verifier::external_body]
pub(crate) fn image_to_rgb(image: &DynamicImage) -> (rgb: DynamicImage)
    ensures
        image_extent(rgb) == image_extent(*image),
        image_is_rgb(rgb),
{
    DynamicImage::ImageRgb8(image.to_rgb8())
}

/// Calls `DynamicImage::resize_exact`: the image in the given size. The
/// outside function first brings the image to the new height, with four
/// numbers of four bytes for every pixel, and then to the new width; it
/// panics where it cannot make room for one of the two, so neither may be
/// too large for that.
#[verifier::external_body]
pub(crate) fn image_resize(image: &DynamicImage, width: u32, height: u32, filter: ResizeFilter) -> (r:
    DynamicImage)
    requires
        image_extent(*image).0 as nat * height as nat <= usize::MAX / 32,
        width as nat * height as nat <= usize::MAX / 32,
    ensures
        image_extent(r) == (width, height),
        image_is_rgb(r) == image_is_rgb(*image),
{
    let filter = match filter {
        ResizeFilter::Lanczos3 => FilterType::Lanczos3,
        ResizeFilter::CatmullRom => FilterType::CatmullRom,
    };
    image.resize_exact(width, height, filter)
}

/// Calls `DynamicImage::crop_imm`: the part of the image in the given
/// rectangle, as far as that lies in the image. A corner outside the image
/// is moved to its edge, and the rectangle is cut where the image ends.
#[verifier::external_body]
pub(crate) fn image_crop(image: &DynamicImage, x: u32, y: u32, width: u32, height: u32) -> (r:
    DynamicImage)
    ensures
        image_extent(r).0 == lesser(
            width as int,
            image_extent(*image).0 - lesser(x as int, image_extent(*image).0 as int),
        ),
        image_extent(r).1 == lesser(
            height as int,
            image_extent(*image).1 - lesser(y as int, image_extent(*image).1 as int),
        ),
{
    image.crop_imm(x, y, width, height)
}

/// Calls `DynamicImage::as_bytes` and copies the bytes out: for an image of
/// red, green and blue bytes, three bytes for every pixel.
#[verifier::external_body]
pub(crate) fn image_bytes(image: &DynamicImage) -> (bytes: Vec<u8>)
    ensures
        image_is_rgb(*image) ==> bytes.len() == 3 * image_extent(*image).0 * image_extent(
            *image,
        ).1,
{
    image.as_bytes().to_vec()
}

/// Calls `ModelWeights::forward` of the quantized model on one row of token
/// ids that starts at position `index_pos`. The outside function takes the
/// entry before the end of the row, so the row must not be empty. It divides
/// the attention heads by the key/value heads and cuts the data into rows of
/// the width of the model, with the counts that the model was read with:
/// none of them is zero, and every head has a width. The model stays one
/// that was read with these counts. The counts themselves are not handed to
/// the outside function.
#[verifier::external_body]
pub(crate) fn quantized_forward(
    model: &mut ModelWeights,
    heads: usize,
    keys: usize,
    width: usize,
    input: &Tensor,
    index_pos: usize,
) -> (r: Result<Tensor, candle_core::Error>)
    requires
        read_with(*old(model), heads, keys, width),
        heads > 0,
        keys > 0,
        width / heads > 0,
        tensor_shape(*input).len() == 2,
        tensor_shape(*input)[1] > 0,
    ensures
        read_with(*final(model), heads, keys, width),
{
    model.forward(input, index_pos)
}

/// Picks the field `num_attention_heads` of a dense model configuration.
#[verifier::external_body]
pub(crate) fn config_attention_heads(config: &Config) -> (heads: usize)
    ensures
        heads == attention_heads(*config),
{
    config.num_attention_heads
}

/// Picks the field `num_key_value_heads` of a dense model configuration.
#[verifier::external_body]
pub(crate) fn config_key_value_heads(config: &Config) -> (heads: usize)
    ensures
        heads == key_value_heads(*config),
{
    config.num_key_value_heads
}

/// Picks the field `use_flash_attn` of a dense model configuration.
#[verifier::external_body]
pub(crate) fn config_fused_attention(config: &Config) -> (wanted: bool)
    ensures
        wanted == wants_fused_attention(*config),
{
    config.use_flash_attn
}

/// Picks the field `hidden_size` of a dense model configuration.
#[verifier::external_body]
pub(crate) fn config_hidden_size(config: &Config) -> (size: usize)
    ensures
        size == hidden_size_of(*config),
{
    config.hidden_size
}

/// Picks the field `intermediate_size` of a dense model configuration.
#[verifier::external_body]
pub(crate) fn config_intermediate_size(config: &Config) -> (size: usize)
    ensures
        size == intermediate_size_of(*config),
{
    config.intermediate_size
}

/// Picks the field `vocab_size` of a dense model configuration.
#[verifier::external_body]
pub(crate) fn config_vocab_size(config: &Config) -> (size: usize)
    ensures
        size == model_vocab_of(*config),
{
    config.vocab_size
}

/// Picks the field `tie_word_embeddings` of a dense model configuration.
#[verifier::external_body]
pub(crate) fn config_ties_embeddings(config: &Config) -> (tied: bool)
    ensures
        tied == ties_embeddings(*config),
{
    config.tie_word_embeddings
}

/// Picks the field `num_hidden_layers` of a dense model configuration.
#[verifier::external_body]
pub(crate) fn config_layers(config: &Config) -> (layers: usize)
    ensures
        layers == layers_of(*config),
{
    config.num_hidden_layers
}

/// Calls `Device::is_cpu`.
#[verifier::external_body]
pub(crate) fn device_is_cpu(device: &Device) -> (r: bool)
    ensures
        r == on_cpu(*device),
{
    device.is_cpu()
}

/// Calls `Device::same_device`.
#[verifier::external_body]
pub(crate) fn device_same(a: &Device, b: &Device) -> (r: bool)
    ensures
        r == same_place(*a, *b),
{
    a.same_device(b)
}

/// Calls `Llama::load` on the weights, which `VarBuilder::from_tensors`
/// hands to it by name. The outside function divides by the number of
/// attention heads, multiplies the width of a head by the numbers of heads,
/// and takes for granted that every layer finds its nine tensors in their
/// shapes, as floats on the device: all that is asked of the caller. What
/// else is missing or misshapen is a failure, and on the processor nothing
/// else is: with the table of embeddings, the last normalisation and the
/// output layer in their shapes the model is built.
#[verifier::external_body]
pub(crate) fn dense_model(weights: Vec<(String, Tensor)>, config: &Config, device: &Device) -> (r:
    Result<Llama, candle_core::Error>)
    requires
        attention_heads(*config) > 0,
        keys_of(*config) <= usize::MAX,
        forall|layer: nat|
            layer < layers_of(*config) ==> #[trigger] layer_fits(
                weights@,
                *device,
                layer,
                hidden_size_of(*config),
                intermediate_size_of(*config),
                queries_of(*config) as usize,
                keys_of(*config) as usize,
            ),
    ensures
        r matches Ok(model) ==> built_for(model, *config),
        on_cpu(*device) && head_fits(weights@, *config, *device) ==> r is Ok,
{
    let vb = VarBuilder::from_tensors(weights.into_iter().collect(), DType::F32, device);
    Llama::load(vb, config)
}

/// Calls `Cache::new` of the dense model. The outside function divides by
/// the number of attention heads.
#[verifier::external_body]
pub(crate) fn dense_cache(use_kv_cache: bool, dtype: DType, config: &Config, device: &Device) -> (r:
    Result<Cache, candle_core::Error>)
    requires
        attention_heads(*config) > 0,
    ensures
        r matches Ok(cache) ==> cache_for(cache, *config),
{
    Cache::new(use_kv_cache, dtype, config, device)
}

/// Calls `Llama::forward` of the dense model on one row of token ids that
/// starts at position `index_pos`. The outside function takes the entry
/// before the end of the row, so the row must not be empty. It looks up the
/// cache by layer, divides the attention heads by the key/value heads, and
/// has no fused attention kernel: the model and the cache were made for the
/// configuration, which has key/value heads and asks for no fused kernel.
/// Its normalisation cuts the data into rows of the width of the model, so
/// that width is not zero: every head has a width. The configuration itself
/// is not handed to the outside function.
#[verifier::external_body]
pub(crate) fn dense_forward(
    model: &Llama,
    config: &Config,
    input: &Tensor,
    index_pos: usize,
    cache: &mut Cache,
) -> (r: Result<Tensor, candle_core::Error>)
    requires
        built_for(*model, *config),
        cache_for(*old(cache), *config),
        attention_heads(*config) > 0,
        hidden_size_of(*config) / attention_heads(*config) > 0,
        key_value_heads(*config) > 0,
        !wants_fused_attention(*config),
        tensor_shape(*input).len() == 2,
        tensor_shape(*input)[1] > 0,
    ensures
        cache_for(*final(cache), *config),
{
    model.forward(input, index_pos, cache)
}

/// Calls `Tokenizer::encode` and copies the ids out; an error is handed on
/// as its message.
#[verifier::external_body]
pub(crate) fn tokenizer_encode(tokenizer: &Tokenizer, text: &str, add_special_tokens: bool) -> (r:
    Result<Vec<u32>, String>) {
    match tokenizer.encode(text, add_special_tokens) {
        Ok(encoding) => Ok(encoding.get_ids().to_vec()),
        Err(e) => Err(e.to_string()),
    }
}

/// Calls `Tokenizer::decode`; an error is handed on as its message.
#[verifier::external_body]
pub(crate) fn tokenizer_decode(tokenizer: &Tokenizer, ids: &Vec<u32>, skip_special_tokens: bool) -> (r:
    Result<String, String>)
    ensures
        r matches Ok(text) ==> decoded_text(*tokenizer, ids@, skip_special_tokens) == Some(text@),
        r is Err ==> decoded_text(*tokenizer, ids@, skip_special_tokens) is None,
{
    match tokenizer.decode(ids.as_slice(), skip_special_tokens) {
        Ok(text) => Ok(text),
        Err(e) => Err(e.to_string()),
    }
}

/// Calls `Tokenizer::token_to_id`: the id of a token, if the vocabulary
/// holds it.
#[verifier::external_body]
pub(crate) fn tokenizer_token_id(tokenizer: &Tokenizer, token: &str) -> (id: Option<u32>)
    ensures
        id == token_id_of(*tokenizer, token@),
{
    tokenizer.token_to_id(token)
}

/// Calls `Tokenizer::get_vocab_size`.
#[verifier::external_body]
pub(crate) fn tokenizer_vocab_size(tokenizer: &Tokenizer, with_added_tokens: bool) -> (size: usize)
    ensures
        size == vocab_size_of(*tokenizer, with_added_tokens),
{
    tokenizer.get_vocab_size(with_added_tokens)
}

/// Calls `Rng::gen_range` on the thread's generator: a number below `bound`,
/// each as likely as the other. The outside function panics on an empty
/// range.
#[verifier::external_body]
pub(crate) fn uniform_below(bound: u64) -> (draw: u64)
    requires
        bound > 0,
    ensures
        draw < bound,
{
    rand::thread_rng().gen_range(0..bound)
}

} // verus!
