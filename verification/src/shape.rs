//! Shape arithmetic of the digit classifier.
//!
//! A shape is a sequence of extents, outermost first. Everything here is
//! plain integer reasoning: how many positions a sliding window has, what a
//! convolution or a pooling layer does to the extents it is given, and why
//! images of 28 by 28 pixels lead to exactly the number of features that the
//! first dense layer was built for.

use vstd::prelude::*;

verus! {

/// Number of classes, one logit each.
pub const CLASSES: usize = 10;

/// Side of the square window of both convolutions.
pub const KERNEL_SIDE: usize = 3;

/// Channels that the first convolution reads.
pub const IMAGE_CHANNELS: usize = 1;

/// Channels that the first convolution produces.
pub const CONV1_CHANNELS: usize = 32;

/// Channels that the second convolution produces.
pub const CONV2_CHANNELS: usize = 64;

/// Side of the pooling window.
pub const POOL_SIDE: usize = 2;

/// Step of the pooling window.
pub const POOL_STRIDE: usize = 2;

/// Features per example that the first dense layer reads.
pub const FEATURES: usize = 9216;

/// Features per example between the two dense layers.
pub const HIDDEN: usize = 128;

/// Side of the images the network was laid out for.
pub const IMAGE_SIDE: usize = 28;

/// Extents from here on are not counted exactly by the tensor engines, which
/// count window positions in single precision.
pub const EXTENT_LIMIT: usize = 16_777_216;

/// Side of the pooled feature maps of an image of `IMAGE_SIDE` by
/// `IMAGE_SIDE` pixels.
pub const POOLED_SIDE: usize = 12;

/// Why a batch of images cannot be run through the network.
#[derive(Clone, Copy, Debug, PartialEq, Eq, Structural)]
pub enum ShapeError {
    /// The batch holds no image.
    EmptyBatch,
    /// The images are not `IMAGE_SIDE` by `IMAGE_SIDE` pixels, the one size
    /// whose pooled feature maps fill the first dense layer without a row
    /// or a column being dropped.
    DimensionMismatch,
}

/// The extents of an array, as mathematical integers.
pub open spec fn extents3(d: [usize; 3]) -> Seq<int> {
    seq![d[0] as int, d[1] as int, d[2] as int]
}

/// The extents of an array, as mathematical integers.
pub open spec fn extents4(d: [usize; 4]) -> Seq<int> {
    seq![d[0] as int, d[1] as int, d[2] as int, d[3] as int]
}

/// The extents of an array, as mathematical integers.
pub open spec fn extents2(d: [usize; 2]) -> Seq<int> {
    seq![d[0] as int, d[1] as int]
}

/// Number of positions at which a window of `window` cells fits into
/// `extent` cells when it moves `stride` cells at a time.
pub open spec fn window_positions(extent: int, window: int, stride: int) -> int {
    if window < 1 || stride < 1 || extent < window {
        0
    } else {
        (extent - window) / stride + 1
    }
}

/// Geometry of a convolution: channels read, channels produced, window
/// height, window width.
pub open spec fn conv_geometry_ok(geometry: Seq<int>) -> bool {
    &&& geometry.len() == 4
    &&& geometry[0] >= 1
    &&& geometry[1] >= 1
    &&& geometry[2] >= 1
    &&& geometry[3] >= 1
}

/// Whether an unpadded convolution of the given geometry can read feature
/// maps of shape `input`.
pub open spec fn conv_accepts(input: Seq<int>, geometry: Seq<int>) -> bool {
    &&& conv_geometry_ok(geometry)
    &&& input.len() == 4
    &&& input[0] >= 1
    &&& input[1] == geometry[0]
    &&& geometry[2] <= input[2] < EXTENT_LIMIT
    &&& geometry[3] <= input[3] < EXTENT_LIMIT
}

/// Shape that an unpadded convolution with unit stride produces.
pub open spec fn conv_shape(input: Seq<int>, geometry: Seq<int>) -> Seq<int> {
    seq![
        input[0],
        geometry[1],
        window_positions(input[2], geometry[2], 1),
        window_positions(input[3], geometry[3], 1),
    ]
}

/// Geometry of a pooling layer: window height, window width, vertical step,
/// horizontal step.
pub open spec fn pool_geometry_ok(geometry: Seq<int>) -> bool {
    &&& geometry.len() == 4
    &&& 1 <= geometry[0] < EXTENT_LIMIT
    &&& 1 <= geometry[1] < EXTENT_LIMIT
    &&& 1 <= geometry[2] < EXTENT_LIMIT
    &&& 1 <= geometry[3] < EXTENT_LIMIT
}

/// Whether an unpadded pooling layer of the given geometry can read feature
/// maps of shape `input`.
pub open spec fn pool_accepts(input: Seq<int>, geometry: Seq<int>) -> bool {
    &&& pool_geometry_ok(geometry)
    &&& input.len() == 4
    &&& input[0] >= 1
    &&& input[1] >= 1
    &&& geometry[0] <= input[2] < EXTENT_LIMIT
    &&& geometry[1] <= input[3] < EXTENT_LIMIT
}

/// Shape that an unpadded pooling layer produces.
pub open spec fn pool_shape(input: Seq<int>, geometry: Seq<int>) -> Seq<int> {
    seq![
        input[0],
        input[1],
        window_positions(input[2], geometry[0], geometry[2]),
        window_positions(input[3], geometry[1], geometry[3]),
    ]
}

/// Geometry of a dense layer: features read, features produced.
pub open spec fn dense_geometry_ok(geometry: Seq<int>) -> bool {
    &&& geometry.len() == 2
    &&& geometry[0] >= 1
    &&& geometry[1] >= 1
}

/// Whether a dense layer of the given geometry can read features of shape
/// `input`.
pub open spec fn dense_accepts(input: Seq<int>, geometry: Seq<int>) -> bool {
    &&& dense_geometry_ok(geometry)
    &&& input.len() == 2
    &&& input[0] >= 1
    &&& input[1] == geometry[0]
}

/// Shape that a dense layer produces.
pub open spec fn dense_shape(input: Seq<int>, geometry: Seq<int>) -> Seq<int> {
    seq![input[0], geometry[1]]
}

/// Geometry of the first convolution.
pub open spec fn conv1_geometry() -> Seq<int> {
    seq![IMAGE_CHANNELS as int, CONV1_CHANNELS as int, KERNEL_SIDE as int, KERNEL_SIDE as int]
}

/// Geometry of the second convolution.
pub open spec fn conv2_geometry() -> Seq<int> {
    seq![CONV1_CHANNELS as int, CONV2_CHANNELS as int, KERNEL_SIDE as int, KERNEL_SIDE as int]
}

/// Geometry of the pooling layer.
pub open spec fn pool_geometry() -> Seq<int> {
    seq![POOL_SIDE as int, POOL_SIDE as int, POOL_STRIDE as int, POOL_STRIDE as int]
}

/// Geometry of the first dense layer.
pub open spec fn dense1_geometry() -> Seq<int> {
    seq![FEATURES as int, HIDDEN as int]
}

/// Geometry of the second dense layer.
pub open spec fn dense2_geometry() -> Seq<int> {
    seq![HIDDEN as int, CLASSES as int]
}

/// Images of shape `[batch, height, width]` with their single channel made
/// explicit: `[batch, 1, height, width]`.
pub open spec fn stem_shape(images: Seq<int>) -> Seq<int> {
    seq![images[0], IMAGE_CHANNELS as int, images[1], images[2]]
}

/// Shape of the feature maps after both convolutions and the pooling layer.
pub open spec fn pooled_shape(images: Seq<int>) -> Seq<int> {
    pool_shape(
        conv_shape(conv_shape(stem_shape(images), conv1_geometry()), conv2_geometry()),
        pool_geometry(),
    )
}

/// Values per example in the pooled feature maps.
pub open spec fn feature_count(images: Seq<int>) -> int {
    let pooled = pooled_shape(images);
    pooled[1] * pooled[2] * pooled[3]
}

/// Whether the network can run on images of this shape: a batch that is not
/// empty, of images of `IMAGE_SIDE` by `IMAGE_SIDE` pixels.
pub open spec fn accepts(images: Seq<int>) -> bool {
    &&& images.len() == 3
    &&& images[0] >= 1
    &&& images[1] == IMAGE_SIDE
    &&& images[2] == IMAGE_SIDE
}

/// Shape of the logits for images of this shape: one row per example, one
/// column per class.
pub open spec fn logits_shape(images: Seq<int>) -> Seq<int> {
    seq![images[0], CLASSES as int]
}

/// Shape of the feature maps that the pooling layer reads.
pub open spec fn pooling_input_shape(images: Seq<int>) -> Seq<int> {
    conv_shape(conv_shape(stem_shape(images), conv1_geometry()), conv2_geometry())
}

/// On accepted images every layer reads a shape that it can read, the
/// pooling window drops no row and no column, and the pooled feature maps
/// hold exactly `FEATURES` values per example.
pub proof fn lemma_accepted_shapes(images: Seq<int>)
    requires
        accepts(images),
    ensures
        conv_accepts(stem_shape(images), conv1_geometry()),
        conv_accepts(conv_shape(stem_shape(images), conv1_geometry()), conv2_geometry()),
        pool_accepts(pooling_input_shape(images), pool_geometry()),
        pooling_input_shape(images) =~= seq![
            images[0],
            CONV2_CHANNELS as int,
            2 * POOLED_SIDE,
            2 * POOLED_SIDE,
        ],
        pooled_shape(images) =~= seq![
            images[0],
            CONV2_CHANNELS as int,
            POOLED_SIDE as int,
            POOLED_SIDE as int,
        ],
        feature_count(images) == FEATURES,
{
    let first = conv_shape(stem_shape(images), conv1_geometry());
    assert(first =~= seq![images[0], CONV1_CHANNELS as int, 26, 26]);
    assert(pooling_input_shape(images) =~= seq![images[0], CONV2_CHANNELS as int, 24, 24]);
    assert(pooled_shape(images) =~= seq![images[0], CONV2_CHANNELS as int, 12, 12]);
}

/// Every batch of at least one image of `IMAGE_SIDE` by `IMAGE_SIDE` pixels
/// is accepted, and its logits have one row per image and `CLASSES` columns.
pub proof fn lemma_digit_images_accepted(batch: int)
    requires
        batch >= 1,
    ensures
        accepts(seq![batch, IMAGE_SIDE as int, IMAGE_SIDE as int]),
        logits_shape(seq![batch, IMAGE_SIDE as int, IMAGE_SIDE as int]) =~= seq![
            batch,
            CLASSES as int,
        ],
{
}

/// What `check_image_dims` makes of images of the given shape: the first of
/// the two faults that applies, or none.
pub open spec fn verdict(images: Seq<int>) -> Result<(), ShapeError> {
    if images[0] == 0 {
        Err(ShapeError::EmptyBatch)
    } else if images[1] != IMAGE_SIDE || images[2] != IMAGE_SIDE {
        Err(ShapeError::DimensionMismatch)
    } else {
        Ok(())
    }
}

/// The verdict on a shape of three extents, none of them negative, is
/// favourable exactly when the network accepts the shape.
pub proof fn lemma_verdict_decides(images: Seq<int>)
    requires
        images.len() == 3,
        images[0] >= 0,
    ensures
        verdict(images) is Ok <==> accepts(images),
{
}

/// Decides whether the network can run on images with these extents, and
/// says why not.
pub fn check_image_dims(dims: [usize; 3]) -> (outcome: Result<(), ShapeError>)
    ensures
        outcome == verdict(extents3(dims)),
{
    if dims[0] == 0 {
        return Err(ShapeError::EmptyBatch);
    }
    if dims[1] != IMAGE_SIDE || dims[2] != IMAGE_SIDE {
        return Err(ShapeError::DimensionMismatch);
    }
    Ok(())
}

} // verus!
