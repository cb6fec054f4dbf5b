//! What the network needs from a tensor engine.
//!
//! The network runs in one of two modes, and the mode is a type: an
//! [`Engine`]. `Inference` computes on plain tensors, and its dropout layers
//! hand their input on untouched. `Training` computes on tensors that record
//! how they were made, and its dropout layers are active. The network itself
//! holds no mode flag; it is written once, against this trait.
//!
//! The contracts of the trait speak of shapes, of the numbers in a tensor,
//! and of the recording behind it. A number is the bit pattern of a
//! single-precision value, with every not-a-number written in one pattern.
//! What a convolution, a rectifier and a pooling layer compute is the same
//! on every machine and is stated as a function of the numbers they read.
//! What a dense layer and the loss compute is rounded as the machine's
//! kernels round, and is stated as a relation.

use vstd::prelude::*;
use burn::nn::pool::{MaxPool2d, MaxPool2dConfig};
use burn::nn::{Dropout, DropoutConfig};
use burn::tensor::Tensor;
use burn_ndarray::NdArrayBackend;
use crate::shape::{
    conv_accepts, conv_geometry_ok, conv_shape, dense_accepts, dense_geometry_ok, dense_shape,
    extents2, extents3, extents4, pool_accepts, pool_shape,
};

verus! {

/// `burn::nn::Dropout`, a layer that holds nothing but its rate.
#[verifier::external_type_specification]
#[verifier::external_body]
pub struct ExDropout(Dropout);

/// `burn::nn::pool::MaxPool2d`, a layer that holds its window, its strides
/// and its padding rule.
#[verifier::external_type_specification]
#[verifier::external_body]
pub struct ExMaxPool2d(MaxPool2d);

/// Class indices of a batch, one per example: a rank-one tensor of 64-bit
/// integers on the CPU. Both engines read the same kind.
#[verifier::external_body]
pub struct Labels {
    pub inner: Tensor<NdArrayBackend<i64>, 1>,
}

/// The one pattern in which every not-a-number is written.
pub const NOT_A_NUMBER: u32 = 0x7fc0_0000;

/// The pattern of negative infinity.
pub const NEGATIVE_INFINITY: u32 = 0xff80_0000;

/// Whether a single-precision bit pattern is a not-a-number: all exponent
/// bits set and a fraction that is not zero.
pub open spec fn is_nan(bits: u32) -> bool {
    (bits & 0x7f80_0000u32) == 0x7f80_0000u32 && (bits & 0x007f_ffffu32) != 0u32
}

/// A bit pattern as a number: itself, unless it is a not-a-number.
pub open spec fn number(bits: u32) -> u32 {
    if is_nan(bits) {
        NOT_A_NUMBER
    } else {
        bits
    }
}

/// Bit patterns as numbers, element by element.
pub open spec fn numbers(bits: Seq<u32>) -> Seq<u32> {
    Seq::new(bits.len(), |i: int| number(bits[i]))
}

/// Whether no number is a not-a-number.
pub open spec fn numeric(numbers: Seq<u32>) -> bool {
    forall|i: int| 0 <= i < numbers.len() ==> #[trigger] numbers[i] != NOT_A_NUMBER
}

/// What the rectifier makes of one number. It multiplies what is at most
/// zero by zero and everything else by one: a positive number stays, zero
/// and a negative number give zero, and negative infinity, like a
/// not-a-number, gives a not-a-number.
pub open spec fn rectify(number: u32) -> u32 {
    if number == NOT_A_NUMBER || number == NEGATIVE_INFINITY {
        NOT_A_NUMBER
    } else if (number & 0x8000_0000u32) != 0u32 {
        0
    } else {
        number
    }
}

/// What the rectifier makes of numbers, element by element.
pub open spec fn rectified(numbers: Seq<u32>) -> Seq<u32> {
    Seq::new(numbers.len(), |i: int| rectify(numbers[i]))
}

/// The notation of a quarter, the rate of the dropout after the pooling
/// layer.
pub open spec fn quarter() -> Seq<char> {
    seq!['0', '.', '2', '5']
}

/// The notation of a half, the rate of the dropout between the dense
/// layers.
pub open spec fn half() -> Seq<char> {
    seq!['0', '.', '5']
}

/// The class indices that a label tensor holds, in order.
pub uninterp spec fn label_values(labels: Labels) -> Seq<i64>;

/// Window height, window width, vertical stride and horizontal stride that a
/// pooling layer was made with. It stands for layers that pad nothing: no
/// other is made here.
pub uninterp spec fn pool_layer_geometry(layer: MaxPool2d) -> Seq<int>;

/// Whether the rate that a dropout layer was made with lies between zero and
/// one, both included.
pub uninterp spec fn rate_is_probability(layer: Dropout) -> bool;

/// Whether the rate that a dropout layer was made with is the number that
/// `text` writes in decimal notation.
pub uninterp spec fn rate_is_written(layer: Dropout, text: Seq<char>) -> bool;

/// The numbers that an unpadded max-pooling layer of the given geometry
/// makes of the numbers of feature maps of the given shape, none of them a
/// not-a-number: per example and channel the largest of each window.
pub uninterp spec fn pool_numbers(geometry: Seq<int>, input: Seq<u32>, shape: Seq<int>) -> Seq<
    u32,
>;

/// Whether `output` may be what an active dropout layer makes of `input`:
/// some elements zeroed, as the layer's rate and chance have it, and the
/// others divided by one minus the rate.
pub uninterp spec fn drops(layer: Dropout, input: Seq<u32>, output: Seq<u32>) -> bool;

/// Whether `text` is a zero, a point and then at least one decimal digit:
/// the notation of a number that is at least zero and less than one.
pub open spec fn is_decimal_fraction(text: Seq<char>) -> bool {
    &&& text.len() >= 3
    &&& text[0] == '0'
    &&& text[1] == '.'
    &&& forall|i: int| 2 <= i < text.len() ==> '0' <= #[trigger] text[i] <= '9'
}

/// Whether every class index is one of `classes` classes.
pub open spec fn labels_in_range(values: Seq<i64>, classes: int) -> bool {
    forall|i: int| 0 <= i < values.len() ==> 0 <= #[trigger] values[i] < classes
}

/// `Tensor::to_data` on a label tensor, and the `value` field of what it
/// returns: a copy of the elements in order.
#[verifier::external_body]
pub(crate) fn labels_to_data(labels: &Labels) -> (values: Vec<i64>)
    ensures
        values@ == label_values(*labels),
{
    labels.inner.to_data().value
}

/// `MaxPool2d::new` on a `MaxPool2dConfig` made by `MaxPool2dConfig::new`
/// and `with_strides`. The layer keeps the window and the strides it is
/// given and pads nothing; the channel count is part of the configuration
/// only.
#[verifier::external_body]
pub(crate) fn max_pool2d_new(
    channels: usize,
    window: [usize; 2],
    strides: [usize; 2],
) -> (layer: MaxPool2d)
    ensures
        pool_layer_geometry(layer) == seq![
            window[0] as int,
            window[1] as int,
            strides[0] as int,
            strides[1] as int,
        ],
{
    MaxPool2d::new(&MaxPool2dConfig::new(channels, window).with_strides(strides))
}

/// `str::parse` to a double-precision number, then `Dropout::new` on a
/// `DropoutConfig` with that rate. A zero, a point and decimal digits always
/// parse, to a number from zero to one, and the layer keeps that number as
/// its rate.
#[verifier::external_body]
pub(crate) fn dropout_new(rate: &str) -> (layer: Dropout)
    requires
        is_decimal_fraction(rate@),
    ensures
        rate_is_probability(layer),
        rate_is_written(layer, rate@),
{
    Dropout::new(&DropoutConfig::new(rate.parse().unwrap()))
}

/// A not-a-number is written in the pattern `NOT_A_NUMBER`, and nothing
/// else is.
pub proof fn lemma_number_of_nan(bits: u32)
    ensures
        is_nan(bits) <==> number(bits) == NOT_A_NUMBER,
{
    assert((0x7fc0_0000u32 & 0x7f80_0000u32) == 0x7f80_0000u32 && (0x7fc0_0000u32 & 0x007f_ffffu32)
        != 0u32) by (bit_vector);
}

/// Whether any of the bit patterns is a not-a-number.
pub fn holds_nan(bits: &Vec<u32>) -> (found: bool)
    ensures
        found == !numeric(numbers(bits@)),
{
    let mut i: usize = 0;
    while i < bits.len()
        invariant
            i <= bits.len(),
            forall|j: int| 0 <= j < i ==> !is_nan(#[trigger] bits@[j]),
        decreases bits.len() - i,
    {
        let pattern: u32 = bits[i];
        if (pattern & 0x7f80_0000u32) == 0x7f80_0000u32 && (pattern & 0x007f_ffffu32) != 0u32 {
            proof {
                lemma_number_of_nan(pattern);
                assert(numbers(bits@)[i as int] == NOT_A_NUMBER);
            }
            return true;
        }
        i += 1;
    }
    proof {
        assert forall|j: int| 0 <= j < numbers(bits@).len() implies #[trigger] numbers(bits@)[j]
            != NOT_A_NUMBER by {
            lemma_number_of_nan(bits@[j]);
        }
    }
    false
}

/// A tensor engine: the tensors of one mode of operation, and the layer
/// operations on them.
pub trait Engine: Sized {
    /// A batch of single-channel images: `[batch, height, width]`.
    type Images;

    /// A batch of feature maps: `[batch, channels, height, width]`.
    type FeatureMaps;

    /// A batch of feature vectors, logits among them: `[batch, features]`.
    type Features;

    /// A loss: a single number.
    type Loss;

    /// A convolution layer with its weights.
    type Conv;

    /// A dense layer with its weights.
    type Dense;

    /// Whether dropout layers are active on this engine. Where they are
    /// not, they hand their input on as it is.
    spec fn dropout_active() -> bool;

    /// Whether this engine records, with every result, how it was computed,
    /// so that a loss can be differentiated.
    spec fn records_history() -> bool;

    /// Whether anything is recorded of how these feature maps were
    /// computed. Where nothing is, no gradient flows back past them.
    spec fn has_history(x: &Self::FeatureMaps) -> bool;

    /// Whether the recording behind these feature maps can be walked back:
    /// every pooling in it read maps that were at least as wide as high.
    spec fn maps_walkable(x: &Self::FeatureMaps) -> bool;

    /// Whether the recording behind these feature vectors can be walked
    /// back.
    spec fn features_walkable(x: &Self::Features) -> bool;

    /// Whether the recording behind this loss can be walked back.
    spec fn loss_walkable(x: &Self::Loss) -> bool;

    /// Whether nothing is recorded behind the parameters of a convolution
    /// layer.
    spec fn conv_rooted(layer: &Self::Conv) -> bool;

    /// Whether nothing is recorded behind the parameters of a dense layer.
    spec fn dense_rooted(layer: &Self::Dense) -> bool;

    /// Shape of a batch of images.
    spec fn images_shape(x: &Self::Images) -> Seq<int>;

    /// Shape of a batch of feature maps.
    spec fn maps_shape(x: &Self::FeatureMaps) -> Seq<int>;

    /// Shape of a batch of feature vectors.
    spec fn features_shape(x: &Self::Features) -> Seq<int>;

    /// Shape of a loss.
    spec fn loss_shape(x: &Self::Loss) -> Seq<int>;

    /// The numbers of a batch of images, in order.
    spec fn images_numbers(x: &Self::Images) -> Seq<u32>;

    /// The numbers of a batch of feature maps, in order.
    spec fn maps_numbers(x: &Self::FeatureMaps) -> Seq<u32>;

    /// The numbers of a batch of feature vectors, in order.
    spec fn features_numbers(x: &Self::Features) -> Seq<u32>;

    /// Channels read, channels produced, window height and window width of a
    /// convolution layer.
    spec fn conv_geometry(layer: &Self::Conv) -> Seq<int>;

    /// Features read and features produced of a dense layer.
    spec fn dense_geometry(layer: &Self::Dense) -> Seq<int>;

    /// The numbers that a convolution layer makes of the numbers of feature
    /// maps of the given shape.
    spec fn conv_numbers(layer: &Self::Conv, input: Seq<u32>, shape: Seq<int>) -> Seq<u32>;

    /// Whether `output` may be what a dense layer makes of the numbers of
    /// feature vectors of the given shape: their product with the weights
    /// plus the bias, rounded as the machine's kernel rounds.
    spec fn dense_maps(
        layer: &Self::Dense,
        input: Seq<u32>,
        shape: Seq<int>,
        output: Seq<u32>,
    ) -> bool;

    /// Whether `loss` may be the cross-entropy between these logits and
    /// these class indices over `classes` classes: the mean over the
    /// examples of the negative log-softmax at each example's class, without
    /// class weights.
    spec fn is_cross_entropy(
        loss: &Self::Loss,
        logits: &Self::Features,
        targets: &Labels,
        classes: int,
    ) -> bool;

    /// A convolution layer with freshly drawn weights, unit stride and no
    /// padding.
    fn conv_layer(channels: [usize; 2], window: [usize; 2]) -> (layer: Self::Conv)
        requires
            conv_geometry_ok(seq![
                channels[0] as int,
                channels[1] as int,
                window[0] as int,
                window[1] as int,
            ]),
            channels[0] * channels[1] * window[0] * window[1] <= i32::MAX,
        ensures
            Self::conv_geometry(&layer) == seq![
                channels[0] as int,
                channels[1] as int,
                window[0] as int,
                window[1] as int,
            ],
            Self::conv_rooted(&layer),
    ;

    /// A dense layer with freshly drawn weights.
    fn dense_layer(inputs: usize, outputs: usize) -> (layer: Self::Dense)
        requires
            dense_geometry_ok(seq![inputs as int, outputs as int]),
            inputs * outputs <= i32::MAX,
        ensures
            Self::dense_geometry(&layer) == seq![inputs as int, outputs as int],
            Self::dense_rooted(&layer),
    ;

    /// The extents of a batch of images.
    fn image_extents(x: &Self::Images) -> (dims: [usize; 3])
        ensures
            Self::images_shape(x) == extents3(dims),
    ;

    /// The extents of a batch of feature maps.
    fn map_extents(x: &Self::FeatureMaps) -> (dims: [usize; 4])
        ensures
            Self::maps_shape(x) == extents4(dims),
    ;

    /// The bit patterns of a batch of feature maps, in order.
    fn map_bits(x: &Self::FeatureMaps) -> (bits: Vec<u32>)
        ensures
            numbers(bits@) == Self::maps_numbers(x),
    ;

    /// The same images as feature maps of the given extents, which must
    /// hold as many numbers as the images do.
    fn images_to_maps(x: &Self::Images, dims: [usize; 4]) -> (y: Self::FeatureMaps)
        requires
            Self::images_shape(x).len() == 3,
            dims[0] >= 1 && dims[1] >= 1 && dims[2] >= 1 && dims[3] >= 1,
            dims[0] * dims[1] * dims[2] * dims[3] == Self::images_shape(x)[0] * Self::images_shape(
                x,
            )[1] * Self::images_shape(x)[2],
        ensures
            Self::maps_shape(&y) == extents4(dims),
            Self::maps_numbers(&y) == Self::images_numbers(x),
    ;

    /// The same feature maps, cut off from whatever produced them: no
    /// gradient flows back past this point. An engine that records nothing
    /// has nothing to cut off, and hands its input on as it is.
    fn detach(x: Self::FeatureMaps) -> (y: Self::FeatureMaps)
        ensures
            Self::maps_shape(&y) == Self::maps_shape(&x),
            Self::maps_numbers(&y) == Self::maps_numbers(&x),
            !Self::has_history(&y),
            Self::maps_walkable(&y),
            !Self::records_history() ==> y == x,
    ;

    /// Applies a convolution layer.
    fn convolve(layer: &Self::Conv, x: Self::FeatureMaps) -> (y: Self::FeatureMaps)
        requires
            conv_accepts(Self::maps_shape(&x), Self::conv_geometry(layer)),
        ensures
            Self::maps_shape(&y) == conv_shape(Self::maps_shape(&x), Self::conv_geometry(layer)),
            Self::maps_numbers(&y) == Self::conv_numbers(
                layer,
                Self::maps_numbers(&x),
                Self::maps_shape(&x),
            ),
            Self::conv_rooted(layer) && Self::maps_walkable(&x) ==> Self::maps_walkable(&y),
    ;

    /// Clips the negative numbers of feature maps to zero.
    fn rectify_maps(x: &Self::FeatureMaps) -> (y: Self::FeatureMaps)
        ensures
            Self::maps_shape(&y) == Self::maps_shape(x),
            Self::maps_numbers(&y) == rectified(Self::maps_numbers(x)),
            Self::maps_walkable(x) ==> Self::maps_walkable(&y),
    ;

    /// Applies a max-pooling layer. The recording can be walked back past it
    /// only where the maps are at least as wide as high.
    fn pool(layer: &MaxPool2d, x: Self::FeatureMaps) -> (y: Self::FeatureMaps)
        requires
            pool_accepts(Self::maps_shape(&x), pool_layer_geometry(*layer)),
            numeric(Self::maps_numbers(&x)),
        ensures
            Self::maps_shape(&y) == pool_shape(Self::maps_shape(&x), pool_layer_geometry(*layer)),
            Self::maps_numbers(&y) == pool_numbers(
                pool_layer_geometry(*layer),
                Self::maps_numbers(&x),
                Self::maps_shape(&x),
            ),
            Self::maps_walkable(&x) && Self::maps_shape(&x)[2] <= Self::maps_shape(&x)[3]
                ==> Self::maps_walkable(&y),
    ;

    /// Applies a dropout layer to feature maps.
    fn drop_maps(layer: &Dropout, x: Self::FeatureMaps) -> (y: Self::FeatureMaps)
        requires
            rate_is_probability(*layer),
        ensures
            Self::maps_shape(&y) == Self::maps_shape(&x),
            Self::dropout_active() ==> drops(
                *layer,
                Self::maps_numbers(&x),
                Self::maps_numbers(&y),
            ),
            !Self::dropout_active() ==> y == x,
            Self::maps_walkable(&x) ==> Self::maps_walkable(&y),
    ;

    /// The same feature maps as feature vectors of the given extents, which
    /// must hold as many numbers as the maps do.
    fn maps_to_features(x: &Self::FeatureMaps, dims: [usize; 2]) -> (y: Self::Features)
        requires
            Self::maps_shape(x).len() == 4,
            dims[0] >= 1 && dims[1] >= 1,
            dims[0] * dims[1] == Self::maps_shape(x)[0] * Self::maps_shape(x)[1] * Self::maps_shape(
                x,
            )[2] * Self::maps_shape(x)[3],
        ensures
            Self::features_shape(&y) == extents2(dims),
            Self::features_numbers(&y) == Self::maps_numbers(x),
            Self::maps_walkable(x) ==> Self::features_walkable(&y),
    ;

    /// Applies a dense layer.
    fn project(layer: &Self::Dense, x: Self::Features) -> (y: Self::Features)
        requires
            dense_accepts(Self::features_shape(&x), Self::dense_geometry(layer)),
        ensures
            Self::features_shape(&y) == dense_shape(
                Self::features_shape(&x),
                Self::dense_geometry(layer),
            ),
            Self::dense_maps(
                layer,
                Self::features_numbers(&x),
                Self::features_shape(&x),
                Self::features_numbers(&y),
            ),
            Self::dense_rooted(layer) && Self::features_walkable(&x) ==> Self::features_walkable(
                &y,
            ),
    ;

    /// Clips the negative numbers of feature vectors to zero.
    fn rectify_features(x: &Self::Features) -> (y: Self::Features)
        ensures
            Self::features_shape(&y) == Self::features_shape(x),
            Self::features_numbers(&y) == rectified(Self::features_numbers(x)),
            Self::features_walkable(x) ==> Self::features_walkable(&y),
    ;

    /// Applies a dropout layer to feature vectors.
    fn drop_features(layer: &Dropout, x: Self::Features) -> (y: Self::Features)
        requires
            rate_is_probability(*layer),
        ensures
            Self::features_shape(&y) == Self::features_shape(&x),
            Self::dropout_active() ==> drops(
                *layer,
                Self::features_numbers(&x),
                Self::features_numbers(&y),
            ),
            !Self::dropout_active() ==> y == x,
            Self::features_walkable(&x) ==> Self::features_walkable(&y),
    ;

    /// Cross-entropy between logits and class indices, averaged over the
    /// batch: the mean of the negative log-softmax of each example's logits
    /// at its class. However many examples there are, the loss is one
    /// number.
    fn cross_entropy(logits: &Self::Features, targets: &Labels, classes: usize) -> (loss:
        Self::Loss)
        requires
            classes >= 1,
            Self::features_shape(logits).len() == 2,
            Self::features_shape(logits)[0] >= 1,
            Self::features_shape(logits)[0] == label_values(*targets).len(),
            Self::features_shape(logits)[1] == classes,
            labels_in_range(label_values(*targets), classes as int),
        ensures
            Self::loss_shape(&loss) == seq![1int],
            Self::is_cross_entropy(&loss, logits, targets, classes as int),
            Self::features_walkable(logits) ==> Self::loss_walkable(&loss),
    ;
}

} // verus!
