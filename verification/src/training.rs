//! The training engine: tensors on the CPU that record how they were
//! computed, so that a loss can be differentiated with respect to every
//! parameter that led to it. Dropout layers are active.

use vstd::prelude::*;
use burn::module::Param;
use burn::nn::conv::{Conv2d, Conv2dConfig};
use burn::nn::loss::CrossEntropyLoss;
use burn::nn::pool::MaxPool2d;
use burn::nn::{Dropout, Linear, LinearConfig};
use burn::tensor::activation::relu;
use burn::tensor::backend::ADBackend;
use burn::tensor::Tensor;
use burn_autodiff::ADBackendDecorator;
use crate::engine::{
    drops, label_values, labels_in_range, numbers, numeric, pool_layer_geometry, pool_numbers,
    rate_is_probability, rectified, Engine, Labels,
};
use crate::inference::Cpu;
use crate::shape::{
    conv_accepts, conv_geometry_ok, conv_shape, dense_accepts, dense_geometry_ok, dense_shape,
    extents2, extents3, extents4, pool_accepts, pool_shape,
};

verus! {

/// The CPU backend, decorated so that every operation is recorded.
pub type Recording = ADBackendDecorator<Cpu>;

/// A batch of single-channel images: `[batch, height, width]`.
#[verifier::external_body]
pub struct Images {
    pub inner: Tensor<Recording, 3>,
}

/// A batch of feature maps: `[batch, channels, height, width]`.
#[verifier::external_body]
pub struct FeatureMaps {
    pub inner: Tensor<Recording, 4>,
}

/// A batch of feature vectors: `[batch, features]`.
#[verifier::external_body]
pub struct Features {
    pub inner: Tensor<Recording, 2>,
}

/// A loss: a tensor of one number.
#[verifier::external_body]
pub struct Loss {
    pub inner: Tensor<Recording, 1>,
}

/// A convolution layer with its weights and bias.
#[verifier::external_body]
pub struct Conv {
    pub inner: Param<Conv2d<Recording>>,
}

/// A dense layer with its weights and bias.
#[verifier::external_body]
pub struct Dense {
    pub inner: Param<Linear<Recording>>,
}

/// What differentiating a loss yields: a gradient for every tensor that led
/// to the loss, found again through the tensor itself.
#[verifier::external_body]
pub struct Gradients {
    pub inner: <Recording as ADBackend>::Gradients,
}

/// The extents of a batch of images, outermost first.
pub uninterp spec fn images_shape(x: Images) -> Seq<int>;

/// The extents of a batch of feature maps, outermost first.
pub uninterp spec fn maps_shape(x: FeatureMaps) -> Seq<int>;

/// The extents of a batch of feature vectors, outermost first.
pub uninterp spec fn features_shape(x: Features) -> Seq<int>;

/// The extents of a loss, outermost first.
pub uninterp spec fn loss_shape(x: Loss) -> Seq<int>;

/// The numbers of a batch of images in order: the bit pattern of each
/// element, every not-a-number written in one pattern.
pub uninterp spec fn images_numbers(x: Images) -> Seq<u32>;

/// The numbers of a batch of feature maps in order.
pub uninterp spec fn maps_numbers(x: FeatureMaps) -> Seq<u32>;

/// The numbers of a batch of feature vectors in order.
pub uninterp spec fn features_numbers(x: Features) -> Seq<u32>;

/// Channels read, channels produced, window height and window width that a
/// convolution layer was made with. It stands for layers of unit stride
/// that pad nothing: no other is made here.
pub uninterp spec fn conv_geometry(layer: Conv) -> Seq<int>;

/// Features read and features produced that a dense layer was made with.
pub uninterp spec fn dense_geometry(layer: Dense) -> Seq<int>;

/// The numbers that a convolution layer makes of the numbers of feature
/// maps of the given shape: at every position where the window fits, the
/// sum over the input channels of the products of window and input, summed
/// in a fixed order, plus the bias.
pub uninterp spec fn conv_numbers(layer: Conv, input: Seq<u32>, shape: Seq<int>) -> Seq<u32>;

/// Whether `output` may be what a dense layer makes of the numbers of
/// feature vectors of the given shape: their product with the weight matrix
/// plus the bias in every row, rounded as the machine's kernel rounds.
pub uninterp spec fn dense_maps(
    layer: Dense,
    input: Seq<u32>,
    shape: Seq<int>,
    output: Seq<u32>,
) -> bool;

/// Whether `loss` may be the cross-entropy between these logits and these
/// class indices over `classes` classes: the mean over the examples of the
/// negative log-softmax at each example's class, without class weights.
pub uninterp spec fn loss_is_cross_entropy(
    loss: Loss,
    logits: Features,
    targets: Labels,
    classes: int,
) -> bool;

/// Whether the recording holds anything of how the feature maps were
/// computed: whether they are the result of a recorded operation, and not
/// the point at which a recording starts.
pub uninterp spec fn maps_have_history(x: FeatureMaps) -> bool;

/// Whether every pooling in the recording behind the feature maps read
/// maps that were at least as wide as high. The pooling's backward pass
/// finds the largest element of a window again by an index that fits only
/// such maps.
pub uninterp spec fn maps_walk(x: FeatureMaps) -> bool;

/// Whether every pooling in the recording behind the feature vectors read
/// maps that were at least as wide as high.
pub uninterp spec fn features_walk(x: Features) -> bool;

/// Whether every pooling in the recording behind the loss read maps that
/// were at least as wide as high.
pub uninterp spec fn loss_walk(x: Loss) -> bool;

/// Whether the weights and the bias of a convolution layer are points at
/// which a recording starts.
pub uninterp spec fn conv_is_rooted(layer: Conv) -> bool;

/// Whether the weights and the bias of a dense layer are points at which a
/// recording starts.
pub uninterp spec fn dense_is_rooted(layer: Dense) -> bool;

/// Whether `gradients` may be what walking the recording back from `loss`
/// yields: an entry for every tensor that the walk passes, holding what the
/// operations recorded after it handed back. The walk steps over the
/// operations that were recorded at some distance from a root; what was
/// computed from roots alone hands nothing back, and its operands keep an
/// entry of zeros.
pub uninterp spec fn are_gradients_of(gradients: Gradients, loss: Loss) -> bool;

/// `Conv2d::new` on a `Conv2dConfig` made by `Conv2dConfig::new`, wrapped by
/// `Param::new`. The layer draws a weight tensor of extents `[channels[1],
/// channels[0], window[0], window[1]]` and a bias, has unit stride and pads
/// nothing. Freshly drawn tensors are points at which a recording
/// starts.
#[verifier::external_body]
fn conv2d_new(channels: [usize; 2], window: [usize; 2]) -> (layer: Conv)
    requires
        conv_geometry_ok(
            seq![channels[0] as int, channels[1] as int, window[0] as int, window[1] as int],
        ),
        channels[0] * channels[1] * window[0] * window[1] <= i32::MAX,
    ensures
        conv_geometry(layer) == seq![
            channels[0] as int,
            channels[1] as int,
            window[0] as int,
            window[1] as int,
        ],
        conv_is_rooted(layer),
{
    Conv { inner: Param::new(Conv2d::new(&Conv2dConfig::new(channels, window))) }
}

/// `Linear::new` on a `LinearConfig` made by `LinearConfig::new`, wrapped by
/// `Param::new`. The layer draws a weight matrix of extents `[inputs,
/// outputs]` and a bias. Freshly drawn tensors are points at which a recording
/// starts.
#[verifier::external_body]
fn linear_new(inputs: usize, outputs: usize) -> (layer: Dense)
    requires
        dense_geometry_ok(seq![inputs as int, outputs as int]),
        inputs * outputs <= i32::MAX,
    ensures
        dense_geometry(layer) == seq![inputs as int, outputs as int],
        dense_is_rooted(layer),
{
    Dense { inner: Param::new(Linear::new(&LinearConfig::new(inputs, outputs))) }
}

/// `Tensor::dims` on a batch of images.
#[verifier::external_body]
fn images_dims(x: &Images) -> (dims: [usize; 3])
    ensures
        images_shape(*x) == extents3(dims),
{
    x.inner.dims()
}

/// `Tensor::dims` on a batch of feature maps.
#[verifier::external_body]
fn maps_dims(x: &FeatureMaps) -> (dims: [usize; 4])
    ensures
        maps_shape(*x) == extents4(dims),
{
    x.inner.dims()
}

/// `Tensor::to_data` on a batch of feature maps, and of the `value` field of
/// what it returns the bit pattern of each element, in order.
#[verifier::external_body]
fn maps_to_bits(x: &FeatureMaps) -> (bits: Vec<u32>)
    ensures
        numbers(bits@) == maps_numbers(*x),
{
    x.inner.to_data().value.iter().map(|element| element.to_bits()).collect()
}

/// `Tensor::reshape` from rank three to rank four. It keeps the elements in
/// order and fails unless the new extents hold as many.
#[verifier::external_body]
fn images_reshape(x: &Images, dims: [usize; 4]) -> (y: FeatureMaps)
    requires
        images_shape(*x).len() == 3,
        dims[0] >= 1 && dims[1] >= 1 && dims[2] >= 1 && dims[3] >= 1,
        dims[0] * dims[1] * dims[2] * dims[3] == images_shape(*x)[0] * images_shape(*x)[1]
            * images_shape(*x)[2],
    ensures
        maps_shape(y) == extents4(dims),
        maps_numbers(y) == images_numbers(*x),
{
    FeatureMaps { inner: x.inner.reshape(dims) }
}

/// `Tensor::detach`, which on this engine starts a new recording from a copy
/// of the numbers: the result is a root of the recording, with no operation
/// and no parent behind it.
#[verifier::external_body]
fn maps_detach(x: FeatureMaps) -> (y: FeatureMaps)
    ensures
        maps_shape(y) == maps_shape(x),
        maps_numbers(y) == maps_numbers(x),
        !maps_have_history(y),
        maps_walk(y),
{
    FeatureMaps { inner: x.inner.detach() }
}

/// `Conv2d::forward`. Each output channel sums, over the input channels, the
/// products of the window with the input at every position where the window
/// fits, and adds the bias.
#[verifier::external_body]
fn conv2d_forward(layer: &Conv, x: FeatureMaps) -> (y: FeatureMaps)
    requires
        conv_accepts(maps_shape(x), conv_geometry(*layer)),
    ensures
        maps_shape(y) == conv_shape(maps_shape(x), conv_geometry(*layer)),
        maps_numbers(y) == conv_numbers(*layer, maps_numbers(x), maps_shape(x)),
        conv_is_rooted(*layer) && maps_walk(x) ==> maps_walk(y),
{
    FeatureMaps { inner: layer.inner.forward(x.inner) }
}

/// `burn::tensor::activation::relu` on feature maps. Element by element it
/// multiplies what is at most zero by zero and the rest by one, and adds
/// zero.
#[verifier::external_body]
fn maps_relu(x: &FeatureMaps) -> (y: FeatureMaps)
    ensures
        maps_shape(y) == maps_shape(*x),
        maps_numbers(y) == rectified(maps_numbers(*x)),
        maps_walk(*x) ==> maps_walk(y),
{
    FeatureMaps { inner: relu(&x.inner) }
}

/// `MaxPool2d::forward`. Per example and channel it takes the largest
/// element of the window at every position that the strides reach and where
/// the window fits. It looks for the largest element by comparing, and
/// fails where a window holds a not-a-number. The layer records
/// with each result the index of the element it took, counted as if the
/// maps were as wide as high.
#[verifier::external_body]
fn max_pool2d_forward(layer: &MaxPool2d, x: FeatureMaps) -> (y: FeatureMaps)
    requires
        pool_accepts(maps_shape(x), pool_layer_geometry(*layer)),
        numeric(maps_numbers(x)),
    ensures
        maps_shape(y) == pool_shape(maps_shape(x), pool_layer_geometry(*layer)),
        maps_numbers(y) == pool_numbers(
            pool_layer_geometry(*layer),
            maps_numbers(x),
            maps_shape(x),
        ),
        maps_walk(x) && maps_shape(x)[2] <= maps_shape(x)[3] ==> maps_walk(y),
{
    FeatureMaps { inner: layer.forward(x.inner) }
}

/// `Dropout::forward` on feature maps. On a backend with automatic
/// differentiation it draws a mask of the input's extents, one Bernoulli
/// trial per element, zeroes the masked elements and rescales the others.
/// The draw fails unless the layer's rate is a probability.
#[verifier::external_body]
fn maps_dropout(layer: &Dropout, x: FeatureMaps) -> (y: FeatureMaps)
    requires
        rate_is_probability(*layer),
    ensures
        maps_shape(y) == maps_shape(x),
        drops(*layer, maps_numbers(x), maps_numbers(y)),
        maps_walk(x) ==> maps_walk(y),
{
    FeatureMaps { inner: layer.forward(x.inner) }
}

/// `Tensor::reshape` from rank four to rank two. It keeps the elements in
/// order and fails unless the new extents hold as many.
#[verifier::external_body]
fn maps_reshape(x: &FeatureMaps, dims: [usize; 2]) -> (y: Features)
    requires
        maps_shape(*x).len() == 4,
        dims[0] >= 1 && dims[1] >= 1,
        dims[0] * dims[1] == maps_shape(*x)[0] * maps_shape(*x)[1] * maps_shape(*x)[2]
            * maps_shape(*x)[3],
    ensures
        features_shape(y) == extents2(dims),
        features_numbers(y) == maps_numbers(*x),
        maps_walk(*x) ==> features_walk(y),
{
    Features { inner: x.inner.reshape(dims) }
}

/// `Linear::forward` at rank two: the input times the weight matrix, plus
/// the bias in every row.
#[verifier::external_body]
fn linear_forward(layer: &Dense, x: Features) -> (y: Features)
    requires
        dense_accepts(features_shape(x), dense_geometry(*layer)),
    ensures
        features_shape(y) == dense_shape(features_shape(x), dense_geometry(*layer)),
        dense_maps(*layer, features_numbers(x), features_shape(x), features_numbers(y)),
        dense_is_rooted(*layer) && features_walk(x) ==> features_walk(y),
{
    Features { inner: layer.inner.forward(x.inner) }
}

/// `burn::tensor::activation::relu` on feature vectors. Element by element
/// it multiplies what is at most zero by zero and the rest by one, and adds
/// zero.
#[verifier::external_body]
fn features_relu(x: &Features) -> (y: Features)
    ensures
        features_shape(y) == features_shape(*x),
        features_numbers(y) == rectified(features_numbers(*x)),
        features_walk(*x) ==> features_walk(y),
{
    Features { inner: relu(&x.inner) }
}

/// `Dropout::forward` on feature vectors. On a backend with automatic
/// differentiation it draws a mask of the input's extents, one Bernoulli
/// trial per element, zeroes the masked elements and rescales the others.
/// The draw fails unless the layer's rate is a probability.
#[verifier::external_body]
fn features_dropout(layer: &Dropout, x: Features) -> (y: Features)
    requires
        rate_is_probability(*layer),
    ensures
        features_shape(y) == features_shape(x),
        drops(*layer, features_numbers(x), features_numbers(y)),
        features_walk(x) ==> features_walk(y),
{
    Features { inner: layer.forward(x.inner) }
}

/// `CrossEntropyLoss::forward` of a criterion made by
/// `CrossEntropyLoss::new` for `classes` classes and the given padding
/// index. Without a padding index it fails on a class index outside the
/// classes and on logits whose extents are not `[number of labels,
/// classes]`. It ends in a mean over all examples, which is a tensor of one
/// element.
#[verifier::external_body]
fn cross_entropy_forward(
    logits: &Features,
    targets: &Labels,
    classes: usize,
    pad_index: Option<usize>,
) -> (loss: Loss)
    requires
        pad_index is None,
        classes >= 1,
        features_shape(*logits).len() == 2,
        features_shape(*logits)[0] >= 1,
        features_shape(*logits)[0] == label_values(*targets).len(),
        features_shape(*logits)[1] == classes,
        labels_in_range(label_values(*targets), classes as int),
    ensures
        loss_shape(loss) == seq![1int],
        loss_is_cross_entropy(loss, *logits, *targets, classes as int),
        features_walk(*logits) ==> loss_walk(loss),
{
    Loss { inner: CrossEntropyLoss::new(classes, pad_index).forward(&logits.inner, &targets.inner) }
}

/// `Tensor::backward`: walks the recording back from the loss and collects
/// what each operation hands back to its operands. Where the walk passes a
/// pooling, it needs the maps that the pooling read to have been at least as
/// wide as high.
#[verifier::external_body]
pub(crate) fn loss_backward(loss: &Loss) -> (gradients: Gradients)
    requires
        loss_walk(*loss),
    ensures
        are_gradients_of(gradients, *loss),
{
    Gradients { inner: loss.inner.backward() }
}

/// The training mode of the network.
pub struct Training;

impl Engine for Training {
    type Images = Images;

    type FeatureMaps = FeatureMaps;

    type Features = Features;

    type Loss = Loss;

    type Conv = Conv;

    type Dense = Dense;

    open spec fn dropout_active() -> bool {
        true
    }

    open spec fn records_history() -> bool {
        true
    }

    open spec fn has_history(x: &FeatureMaps) -> bool {
        maps_have_history(*x)
    }

    open spec fn maps_walkable(x: &FeatureMaps) -> bool {
        maps_walk(*x)
    }

    open spec fn features_walkable(x: &Features) -> bool {
        features_walk(*x)
    }

    open spec fn loss_walkable(x: &Loss) -> bool {
        loss_walk(*x)
    }

    open spec fn conv_rooted(layer: &Conv) -> bool {
        conv_is_rooted(*layer)
    }

    open spec fn dense_rooted(layer: &Dense) -> bool {
        dense_is_rooted(*layer)
    }

    open spec fn images_shape(x: &Images) -> Seq<int> {
        images_shape(*x)
    }

    open spec fn maps_shape(x: &FeatureMaps) -> Seq<int> {
        maps_shape(*x)
    }

    open spec fn features_shape(x: &Features) -> Seq<int> {
        features_shape(*x)
    }

    open spec fn loss_shape(x: &Loss) -> Seq<int> {
        loss_shape(*x)
    }

    open spec fn images_numbers(x: &Images) -> Seq<u32> {
        images_numbers(*x)
    }

    open spec fn maps_numbers(x: &FeatureMaps) -> Seq<u32> {
        maps_numbers(*x)
    }

    open spec fn features_numbers(x: &Features) -> Seq<u32> {
        features_numbers(*x)
    }

    open spec fn conv_geometry(layer: &Conv) -> Seq<int> {
        conv_geometry(*layer)
    }

    open spec fn dense_geometry(layer: &Dense) -> Seq<int> {
        dense_geometry(*layer)
    }

    open spec fn conv_numbers(layer: &Conv, input: Seq<u32>, shape: Seq<int>) -> Seq<u32> {
        conv_numbers(*layer, input, shape)
    }

    open spec fn dense_maps(
        layer: &Dense,
        input: Seq<u32>,
        shape: Seq<int>,
        output: Seq<u32>,
    ) -> bool {
        dense_maps(*layer, input, shape, output)
    }

    open spec fn is_cross_entropy(
        loss: &Loss,
        logits: &Features,
        targets: &Labels,
        classes: int,
    ) -> bool {
        loss_is_cross_entropy(*loss, *logits, *targets, classes)
    }

    fn conv_layer(channels: [usize; 2], window: [usize; 2]) -> (layer: Conv) {
        conv2d_new(channels, window)
    }

    fn dense_layer(inputs: usize, outputs: usize) -> (layer: Dense) {
        linear_new(inputs, outputs)
    }

    fn image_extents(x: &Images) -> (dims: [usize; 3]) {
        images_dims(x)
    }

    fn map_extents(x: &FeatureMaps) -> (dims: [usize; 4]) {
        maps_dims(x)
    }

    fn map_bits(x: &FeatureMaps) -> (bits: Vec<u32>) {
        maps_to_bits(x)
    }

    fn images_to_maps(x: &Images, dims: [usize; 4]) -> (y: FeatureMaps) {
        images_reshape(x, dims)
    }

    fn detach(x: FeatureMaps) -> (y: FeatureMaps) {
        maps_detach(x)
    }

    fn convolve(layer: &Conv, x: FeatureMaps) -> (y: FeatureMaps) {
        conv2d_forward(layer, x)
    }

    fn rectify_maps(x: &FeatureMaps) -> (y: FeatureMaps) {
        maps_relu(x)
    }

    fn pool(layer: &MaxPool2d, x: FeatureMaps) -> (y: FeatureMaps) {
        max_pool2d_forward(layer, x)
    }

    fn drop_maps(layer: &Dropout, x: FeatureMaps) -> (y: FeatureMaps) {
        maps_dropout(layer, x)
    }

    fn maps_to_features(x: &FeatureMaps, dims: [usize; 2]) -> (y: Features) {
        maps_reshape(x, dims)
    }

    fn project(layer: &Dense, x: Features) -> (y: Features) {
        linear_forward(layer, x)
    }

    fn rectify_features(x: &Features) -> (y: Features) {
        features_relu(x)
    }

    fn drop_features(layer: &Dropout, x: Features) -> (y: Features) {
        features_dropout(layer, x)
    }

    fn cross_entropy(logits: &Features, targets: &Labels, classes: usize) -> (loss: Loss) {
        cross_entropy_forward(logits, targets, classes, None)
    }
}

} // verus!
