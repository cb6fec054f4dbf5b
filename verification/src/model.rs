//! The network: two convolutions, a pooling layer, two dense layers, and
//! dropout in between.

use vstd::prelude::*;
use burn::nn::pool::MaxPool2d;
use burn::nn::Dropout;
use crate::engine::{
    drops, dropout_new, half, holds_nan, label_values, labels_in_range, labels_to_data,
    max_pool2d_new, numeric, pool_layer_geometry, pool_numbers, quarter, rate_is_probability,
    rate_is_written, rectified, Engine, Labels,
};
use crate::inference::Inference;
use crate::shape::{
    accepts, check_image_dims, conv1_geometry, conv2_geometry, conv_shape, dense1_geometry,
    dense2_geometry, lemma_accepted_shapes, lemma_digit_images_accepted, lemma_verdict_decides,
    logits_shape, pool_geometry, pooling_input_shape, stem_shape, verdict, ShapeError, CLASSES,
    CONV1_CHANNELS, CONV2_CHANNELS, FEATURES, HIDDEN, IMAGE_CHANNELS, IMAGE_SIDE, KERNEL_SIDE,
    POOLED_SIDE, POOL_SIDE, POOL_STRIDE,
};
use crate::training::{are_gradients_of, loss_backward, Gradients, Training};

verus! {

/// A batch: images and the class of each.
pub struct Batch<E: Engine> {
    /// The images, `[batch, height, width]`.
    pub images: E::Images,
    /// The class index of each image, `[batch]`.
    pub targets: Labels,
}

/// What classifying a batch yields.
pub struct ClassificationOutput<E: Engine> {
    /// Cross-entropy between `output` and `targets`, averaged over the
    /// batch.
    pub loss: E::Loss,
    /// The logits, `[batch, CLASSES]`.
    pub output: E::Features,
    /// The targets of the batch, as they came in.
    pub targets: Labels,
}

/// What a training step yields: the gradients of the loss, and the
/// classification they were computed from.
pub struct TrainOutput {
    /// What walking back from the loss yielded for every tensor that led to
    /// it.
    pub grads: Gradients,
    /// Loss, logits and targets of the step.
    pub item: ClassificationOutput<Training>,
}

/// Why images cannot be run through the network.
#[derive(Clone, Copy, Debug, PartialEq, Eq, Structural)]
pub enum ForwardError {
    /// The images do not have the shape that the network is laid out for.
    Shape(ShapeError),
    /// The feature maps that the pooling layer would read hold a
    /// not-a-number, among which it finds no largest element.
    NotANumber,
}

/// Why a batch cannot be classified.
#[derive(Clone, Copy, Debug, PartialEq, Eq, Structural)]
pub enum BatchError {
    /// The images do not have the shape that the network is laid out for.
    Shape(ShapeError),
    /// There are not as many targets as images.
    TargetCount,
    /// A target is not the index of a class.
    TargetOutOfRange,
    /// The feature maps that the pooling layer would read hold a
    /// not-a-number.
    NotANumber,
}

/// Whether every target is the index of a class.
pub fn targets_in_range(targets: &Vec<i64>) -> (all: bool)
    ensures
        all == labels_in_range(targets@, CLASSES as int),
{
    let mut i: usize = 0;
    while i < targets.len()
        invariant
            i <= targets.len(),
            forall|j: int| 0 <= j < i ==> 0 <= #[trigger] targets@[j] < CLASSES,
        decreases targets.len() - i,
    {
        if targets[i] < 0 || targets[i] >= CLASSES as i64 {
            return false;
        }
        i += 1;
    }
    true
}

impl<E: Engine> Batch<E> {
    /// Whether the batch is sound: the images have the shape that the
    /// network is laid out for, every image has its target, and every
    /// target is the index of a class.
    pub open spec fn wf(&self) -> bool {
        &&& accepts(E::images_shape(&self.images))
        &&& label_values(self.targets).len() == E::images_shape(&self.images)[0]
        &&& labels_in_range(label_values(self.targets), CLASSES as int)
    }
}

/// The layers of the network, in the order in which they are held.
pub struct Layers<E: Engine> {
    /// First convolution.
    pub conv1: E::Conv,
    /// Second convolution.
    pub conv2: E::Conv,
    /// Dropout after the pooling layer.
    pub dropout1: Dropout,
    /// Dropout between the dense layers.
    pub dropout2: Dropout,
    /// First dense layer.
    pub linear1: E::Dense,
    /// Second dense layer, which produces the logits.
    pub linear2: E::Dense,
    /// Pooling layer after the second convolution.
    pub max_pool: MaxPool2d,
}

impl<E: Engine> Layers<E> {
    /// Whether the layers fit together as the network needs them: every
    /// layer has the geometry that the network is laid out for, nothing is
    /// recorded behind a parameter, the dropout after the pooling layer has
    /// a rate of a quarter and the dropout between the dense layers a rate
    /// of a half.
    pub open spec fn fit(&self) -> bool {
        &&& E::conv_geometry(&self.conv1) == conv1_geometry()
        &&& E::conv_geometry(&self.conv2) == conv2_geometry()
        &&& E::dense_geometry(&self.linear1) == dense1_geometry()
        &&& E::dense_geometry(&self.linear2) == dense2_geometry()
        &&& pool_layer_geometry(self.max_pool) == pool_geometry()
        &&& E::conv_rooted(&self.conv1)
        &&& E::conv_rooted(&self.conv2)
        &&& E::dense_rooted(&self.linear1)
        &&& E::dense_rooted(&self.linear2)
        &&& rate_is_probability(self.dropout1)
        &&& rate_is_probability(self.dropout2)
        &&& rate_is_written(self.dropout1, quarter())
        &&& rate_is_written(self.dropout2, half())
    }
}

/// The numbers of the feature maps that the pooling layer reads, for images
/// of the given numbers and shape: the images with their channel made
/// explicit, through the first convolution, the rectifier, the second
/// convolution and the rectifier again.
pub open spec fn pooling_input<E: Engine>(
    layers: &Layers<E>,
    images: Seq<u32>,
    shape: Seq<int>,
) -> Seq<u32> {
    let first = rectified(E::conv_numbers(&layers.conv1, images, stem_shape(shape)));
    rectified(
        E::conv_numbers(&layers.conv2, first, conv_shape(stem_shape(shape), conv1_geometry())),
    )
}

/// The numbers of the pooled feature maps, for images of the given numbers
/// and shape.
pub open spec fn pooled<E: Engine>(layers: &Layers<E>, images: Seq<u32>, shape: Seq<int>) -> Seq<
    u32,
> {
    pool_numbers(pool_geometry(), pooling_input(layers, images, shape), pooling_input_shape(shape))
}

/// Whether `output` may be what a dropout layer makes of `input` on this
/// engine: the input itself where dropout is not active.
pub open spec fn dropout_gives<E: Engine>(
    layer: Dropout,
    input: Seq<u32>,
    output: Seq<u32>,
) -> bool {
    if E::dropout_active() {
        drops(layer, input, output)
    } else {
        output == input
    }
}

/// Whether the numbers `logits` come from the pooled numbers by way of
/// `dropped`, `hidden` and `redropped`: the first dropout, the first dense
/// layer, the rectifier, the second dropout and the second dense layer, in
/// this order and with nothing after.
pub open spec fn head_trace<E: Engine>(
    layers: &Layers<E>,
    pooled: Seq<u32>,
    batch: int,
    dropped: Seq<u32>,
    hidden: Seq<u32>,
    redropped: Seq<u32>,
    logits: Seq<u32>,
) -> bool {
    &&& dropout_gives::<E>(layers.dropout1, pooled, dropped)
    &&& E::dense_maps(&layers.linear1, dropped, seq![batch, FEATURES as int], hidden)
    &&& dropout_gives::<E>(layers.dropout2, rectified(hidden), redropped)
    &&& E::dense_maps(&layers.linear2, redropped, seq![batch, HIDDEN as int], logits)
}

/// Whether `logits` may be what the layers after the pooling make of pooled
/// feature maps of the given numbers: one row per example, one column per
/// class, unnormalized, and reached by the dropouts, the dense layers and
/// the rectifier in their order.
pub open spec fn head_yields<E: Engine>(
    layers: &Layers<E>,
    pooled: Seq<u32>,
    batch: int,
    logits: &E::Features,
) -> bool {
    &&& E::features_shape(logits) == seq![batch, CLASSES as int]
    &&& exists|dropped: Seq<u32>, hidden: Seq<u32>, redropped: Seq<u32>| #[trigger]
        head_trace::<E>(
            layers,
            pooled,
            batch,
            dropped,
            hidden,
            redropped,
            E::features_numbers(logits),
        )
}

/// Whether `logits` may be what `Model::forward` returns on `input` with
/// these layers.
pub open spec fn forward_yields<E: Engine>(
    layers: &Layers<E>,
    input: &E::Images,
    logits: &E::Features,
) -> bool {
    &&& E::features_walkable(logits)
    &&& head_yields::<E>(
        layers,
        pooled(layers, E::images_numbers(input), E::images_shape(input)),
        E::images_shape(input)[0],
        logits,
    )
}

/// Whether `result` may be what `Model::forward_classification` returns on
/// `item` with these layers: the targets as they came in, the logits of
/// `forward` on the images, and as loss one number, the cross-entropy
/// between these logits and these targets over `CLASSES` classes.
pub open spec fn classification_yields<E: Engine>(
    layers: &Layers<E>,
    item: &Batch<E>,
    result: &ClassificationOutput<E>,
) -> bool {
    &&& result.targets == item.targets
    &&& forward_yields::<E>(layers, &item.images, &result.output)
    &&& E::loss_shape(&result.loss) == seq![1int]
    &&& E::is_cross_entropy(&result.loss, &result.output, &result.targets, CLASSES as int)
    &&& E::loss_walkable(&result.loss)
}

/// What `Model::try_forward` makes of images of the given numbers and
/// shape: the first of the faults that applies, or none.
pub open spec fn forward_verdict<E: Engine>(
    layers: &Layers<E>,
    images: Seq<u32>,
    shape: Seq<int>,
) -> Result<(), ForwardError> {
    match verdict(shape) {
        Err(fault) => Err(ForwardError::Shape(fault)),
        Ok(_) => if !numeric(pooling_input(layers, images, shape)) {
            Err(ForwardError::NotANumber)
        } else {
            Ok(())
        },
    }
}

/// What `Model::try_forward_classification` makes of images of the given
/// numbers and shape with the given targets: the first of the faults that
/// applies, or none.
pub open spec fn batch_verdict<E: Engine>(
    layers: &Layers<E>,
    images: Seq<u32>,
    shape: Seq<int>,
    targets: Seq<i64>,
) -> Result<(), BatchError> {
    match verdict(shape) {
        Err(fault) => Err(BatchError::Shape(fault)),
        Ok(_) => if targets.len() != shape[0] {
            Err(BatchError::TargetCount)
        } else if !labels_in_range(targets, CLASSES as int) {
            Err(BatchError::TargetOutOfRange)
        } else if !numeric(pooling_input(layers, images, shape)) {
            Err(BatchError::NotANumber)
        } else {
            Ok(())
        },
    }
}

/// The network, on one engine.
pub struct Model<E: Engine> {
    layers: Layers<E>,
}

impl<E: Engine> Model<E> {
    #[verifier::type_invariant]
    spec fn wf(&self) -> bool {
        self.layers.fit()
    }

    /// The layers that the network holds.
    pub closed spec fn parts(&self) -> Layers<E> {
        self.layers
    }

    /// Whether the network can run on these images: they have the shape
    /// that it is laid out for, and the feature maps that its pooling layer
    /// reads hold no not-a-number.
    pub open spec fn runs_on(&self, input: &E::Images) -> bool {
        &&& accepts(E::images_shape(input))
        &&& numeric(
            pooling_input(&self.parts(), E::images_numbers(input), E::images_shape(input)),
        )
    }

    /// A network with freshly drawn weights, a dropout rate of a quarter
    /// after the pooling layer and of a half between the dense layers.
    pub fn new() -> (model: Self)
        ensures
            model.parts().fit(),
    {
        proof {
            reveal_strlit("0.25");
            reveal_strlit("0.5");
            assert("0.25"@ =~= quarter());
            assert("0.5"@ =~= half());
        }
        let conv1 = E::conv_layer([IMAGE_CHANNELS, CONV1_CHANNELS], [KERNEL_SIDE, KERNEL_SIDE]);
        let conv2 = E::conv_layer([CONV1_CHANNELS, CONV2_CHANNELS], [KERNEL_SIDE, KERNEL_SIDE]);
        let dropout1 = dropout_new("0.25");
        let dropout2 = dropout_new("0.5");
        let linear1 = E::dense_layer(FEATURES, HIDDEN);
        let linear2 = E::dense_layer(HIDDEN, CLASSES);
        let max_pool = max_pool2d_new(
            CONV2_CHANNELS,
            [POOL_SIDE, POOL_SIDE],
            [POOL_STRIDE, POOL_STRIDE],
        );
        Model { layers: Layers { conv1, conv2, dropout1, dropout2, linear1, linear2, max_pool } }
    }

    /// A network of the given layers, such as the layers of a network whose
    /// parameters an optimizer has updated.
    pub fn from_layers(layers: Layers<E>) -> (model: Self)
        requires
            layers.fit(),
        ensures
            model.parts() == layers,
    {
        Model { layers }
    }

    /// The layers of the network.
    pub fn layers(&self) -> (layers: &Layers<E>)
        ensures
            *layers == self.parts(),
            layers.fit(),
    {
        proof {
            use_type_invariant(self);
        }
        &self.layers
    }

    /// Takes the network apart.
    pub fn into_layers(self) -> (layers: Layers<E>)
        ensures
            layers == self.parts(),
            layers.fit(),
    {
        proof {
            use_type_invariant(&self);
        }
        self.layers
    }

    /// The images as feature maps of one channel, cut off from whatever
    /// produced the images: no gradient flows back past this point.
    pub fn stem(input: E::Images) -> (maps: E::FeatureMaps)
        requires
            accepts(E::images_shape(&input)),
        ensures
            E::maps_shape(&maps) == stem_shape(E::images_shape(&input)),
            E::maps_numbers(&maps) == E::images_numbers(&input),
            !E::has_history(&maps),
            E::maps_walkable(&maps),
    {
        let dims = E::image_extents(&input);
        let batch_size = dims[0];
        let height = dims[1];
        let width = dims[2];
        assert(batch_size * IMAGE_CHANNELS * height * width == batch_size * height * width)
            by (nonlinear_arith);
        let maps = E::images_to_maps(&input, [batch_size, IMAGE_CHANNELS, height, width]);
        let maps = E::detach(maps);
        assert(E::maps_shape(&maps) =~= stem_shape(E::images_shape(&input)));
        maps
    }

    /// The feature maps that the pooling layer reads: the stem, then the
    /// first convolution, the rectifier, the second convolution and the
    /// rectifier again.
    pub fn feature_maps(&self, input: E::Images) -> (maps: E::FeatureMaps)
        requires
            accepts(E::images_shape(&input)),
        ensures
            E::maps_shape(&maps) == pooling_input_shape(E::images_shape(&input)),
            E::maps_numbers(&maps) == pooling_input(
                &self.parts(),
                E::images_numbers(&input),
                E::images_shape(&input),
            ),
            E::maps_walkable(&maps),
    {
        proof {
            use_type_invariant(self);
            lemma_accepted_shapes(E::images_shape(&input));
        }
        let x = Self::stem(input);
        let x = E::convolve(&self.layers.conv1, x);
        let x = E::rectify_maps(&x);
        let x = E::convolve(&self.layers.conv2, x);
        let x = E::rectify_maps(&x);
        x
    }

    /// The logits of feature maps that the pooling layer can read: the
    /// pooling, the first dropout, the flattening, the first dense layer, the
    /// rectifier, the second dropout and the second dense layer.
    pub fn head(&self, maps: E::FeatureMaps) -> (logits: E::Features)
        requires
            E::maps_shape(&maps).len() == 4,
            E::maps_shape(&maps)[0] >= 1,
            E::maps_shape(&maps)[1] == CONV2_CHANNELS,
            E::maps_shape(&maps)[2] == 2 * POOLED_SIDE,
            E::maps_shape(&maps)[3] == 2 * POOLED_SIDE,
            numeric(E::maps_numbers(&maps)),
        ensures
            head_yields::<E>(
                &self.parts(),
                pool_numbers(pool_geometry(), E::maps_numbers(&maps), E::maps_shape(&maps)),
                E::maps_shape(&maps)[0],
                &logits,
            ),
            E::maps_walkable(&maps) ==> E::features_walkable(&logits),
    {
        proof {
            use_type_invariant(self);
        }
        let ghost batch = E::maps_shape(&maps)[0];
        let ghost pooled = pool_numbers(
            pool_geometry(),
            E::maps_numbers(&maps),
            E::maps_shape(&maps),
        );
        let dims = E::map_extents(&maps);
        let batch_size = dims[0];
        let x = E::pool(&self.layers.max_pool, maps);
        assert(E::maps_shape(&x) =~= seq![
            batch,
            CONV2_CHANNELS as int,
            POOLED_SIDE as int,
            POOLED_SIDE as int,
        ]);
        let x = E::drop_maps(&self.layers.dropout1, x);
        let ghost dropped = E::maps_numbers(&x);
        assert(batch_size * FEATURES == batch_size * CONV2_CHANNELS * POOLED_SIDE * POOLED_SIDE)
            by (nonlinear_arith);
        let x = E::maps_to_features(&x, [batch_size, FEATURES]);
        assert(E::features_shape(&x) =~= seq![batch, FEATURES as int]);
        let x = E::project(&self.layers.linear1, x);
        let ghost hidden = E::features_numbers(&x);
        assert(E::features_shape(&x) =~= seq![batch, HIDDEN as int]);
        let x = E::rectify_features(&x);
        let x = E::drop_features(&self.layers.dropout2, x);
        let ghost redropped = E::features_numbers(&x);
        let logits = E::project(&self.layers.linear2, x);
        assert(E::features_shape(&logits) =~= seq![batch, CLASSES as int]);
        assert(head_trace::<E>(
            &self.parts(),
            pooled,
            batch,
            dropped,
            hidden,
            redropped,
            E::features_numbers(&logits),
        ));
        logits
    }

    /// Maps a batch of images to logits, one row per image and one column
    /// per class.
    pub fn forward(&self, input: E::Images) -> (logits: E::Features)
        requires
            self.runs_on(&input),
        ensures
            forward_yields::<E>(&self.parts(), &input, &logits),
    {
        proof {
            lemma_accepted_shapes(E::images_shape(&input));
        }
        let maps = self.feature_maps(input);
        self.head(maps)
    }

    /// Runs `forward` where the network can run on the images, and says why
    /// it cannot where it cannot.
    pub fn try_forward(&self, input: E::Images) -> (outcome: Result<E::Features, ForwardError>)
        ensures
            match outcome {
                Ok(logits) => self.runs_on(&input) && forward_yields::<E>(
                    &self.parts(),
                    &input,
                    &logits,
                ),
                Err(fault) => forward_verdict(
                    &self.parts(),
                    E::images_numbers(&input),
                    E::images_shape(&input),
                ) == Err::<(), ForwardError>(fault),
            },
    {
        let dims = E::image_extents(&input);
        proof {
            lemma_verdict_decides(E::images_shape(&input));
        }
        match check_image_dims(dims) {
            Err(fault) => Err(ForwardError::Shape(fault)),
            Ok(_) => {
                proof {
                    lemma_accepted_shapes(E::images_shape(&input));
                }
                let maps = self.feature_maps(input);
                let bits = E::map_bits(&maps);
                if holds_nan(&bits) {
                    Err(ForwardError::NotANumber)
                } else {
                    Ok(self.head(maps))
                }
            },
        }
    }

    /// Classifies a batch: the logits of its images, and the cross-entropy
    /// between them and its targets.
    pub fn forward_classification(&self, item: Batch<E>) -> (result: ClassificationOutput<E>)
        requires
            item.wf(),
            self.runs_on(&item.images),
        ensures
            classification_yields(&self.parts(), &item, &result),
    {
        proof {
            lemma_accepted_shapes(E::images_shape(&item.images));
        }
        let targets = item.targets;
        let maps = self.feature_maps(item.images);
        self.classify_maps(maps, targets)
    }

    /// Runs `forward_classification` where the batch is sound and the
    /// network can run on its images, and says why it cannot where it
    /// cannot.
    pub fn try_forward_classification(&self, item: Batch<E>) -> (outcome: Result<
        ClassificationOutput<E>,
        BatchError,
    >)
        ensures
            match outcome {
                Ok(result) => {
                    &&& item.wf()
                    &&& self.runs_on(&item.images)
                    &&& classification_yields(&self.parts(), &item, &result)
                },
                Err(fault) => batch_verdict(
                    &self.parts(),
                    E::images_numbers(&item.images),
                    E::images_shape(&item.images),
                    label_values(item.targets),
                ) == Err::<(), BatchError>(fault),
            },
    {
        let dims = E::image_extents(&item.images);
        proof {
            lemma_verdict_decides(E::images_shape(&item.images));
        }
        match check_image_dims(dims) {
            Err(fault) => Err(BatchError::Shape(fault)),
            Ok(_) => {
                let values = labels_to_data(&item.targets);
                if values.len() != dims[0] {
                    Err(BatchError::TargetCount)
                } else if !targets_in_range(&values) {
                    Err(BatchError::TargetOutOfRange)
                } else {
                    proof {
                        lemma_accepted_shapes(E::images_shape(&item.images));
                    }
                    let targets = item.targets;
                    let maps = self.feature_maps(item.images);
                    let bits = E::map_bits(&maps);
                    if holds_nan(&bits) {
                        Err(BatchError::NotANumber)
                    } else {
                        Ok(self.classify_maps(maps, targets))
                    }
                }
            },
        }
    }

    /// Classifies feature maps that the pooling layer can read against the
    /// given targets.
    fn classify_maps(&self, maps: E::FeatureMaps, targets: Labels) -> (result:
        ClassificationOutput<E>)
        requires
            E::maps_shape(&maps).len() == 4,
            E::maps_shape(&maps)[0] >= 1,
            E::maps_shape(&maps)[1] == CONV2_CHANNELS,
            E::maps_shape(&maps)[2] == 2 * POOLED_SIDE,
            E::maps_shape(&maps)[3] == 2 * POOLED_SIDE,
            numeric(E::maps_numbers(&maps)),
            E::maps_walkable(&maps),
            label_values(targets).len() == E::maps_shape(&maps)[0],
            labels_in_range(label_values(targets), CLASSES as int),
        ensures
            result.targets == targets,
            E::features_walkable(&result.output),
            head_yields::<E>(
                &self.parts(),
                pool_numbers(pool_geometry(), E::maps_numbers(&maps), E::maps_shape(&maps)),
                E::maps_shape(&maps)[0],
                &result.output,
            ),
            E::loss_shape(&result.loss) == seq![1int],
            E::is_cross_entropy(&result.loss, &result.output, &result.targets, CLASSES as int),
            E::loss_walkable(&result.loss),
    {
        let output = self.head(maps);
        let loss = E::cross_entropy(&output, &targets, CLASSES);
        ClassificationOutput { loss, output, targets }
    }
}

impl Model<Training> {
    /// A training step: classifies the batch with dropout active, then
    /// walks the recording back from the loss of this very pass. Updating
    /// the parameters is left to the caller.
    pub fn step(&self, item: Batch<Training>) -> (result: TrainOutput)
        requires
            item.wf(),
            self.runs_on(&item.images),
        ensures
            classification_yields(&self.parts(), &item, &result.item),
            are_gradients_of(result.grads, result.item.loss),
    {
        let item = self.forward_classification(item);
        let grads = loss_backward(&item.loss);
        TrainOutput { grads, item }
    }

    /// Runs a training step where the batch is sound and the network can
    /// run on its images, and says why it cannot where it cannot.
    pub fn try_step(&self, item: Batch<Training>) -> (outcome: Result<TrainOutput, BatchError>)
        ensures
            match outcome {
                Ok(result) => {
                    &&& item.wf()
                    &&& self.runs_on(&item.images)
                    &&& classification_yields(&self.parts(), &item, &result.item)
                    &&& are_gradients_of(result.grads, result.item.loss)
                },
                Err(fault) => batch_verdict(
                    &self.parts(),
                    Training::images_numbers(&item.images),
                    Training::images_shape(&item.images),
                    label_values(item.targets),
                ) == Err::<(), BatchError>(fault),
            },
    {
        match self.try_forward_classification(item) {
            Ok(item) => {
                let grads = loss_backward(&item.loss);
                Ok(TrainOutput { grads, item })
            },
            Err(fault) => Err(fault),
        }
    }
}

impl Model<Inference> {
    /// A validation step: classifies the batch with dropout switched off
    /// and nothing recorded.
    pub fn step(&self, item: Batch<Inference>) -> (result: ClassificationOutput<Inference>)
        requires
            item.wf(),
            self.runs_on(&item.images),
        ensures
            classification_yields(&self.parts(), &item, &result),
    {
        self.forward_classification(item)
    }
}

/// On either engine, and whatever the dropout layers draw, two runs of
/// `forward` on images of one shape return logits of one shape.
pub proof fn lemma_forward_shape_repeats<E: Engine>(
    first_layers: &Layers<E>,
    first_input: &E::Images,
    first: &E::Features,
    second_layers: &Layers<E>,
    second_input: &E::Images,
    second: &E::Features,
)
    requires
        E::images_shape(first_input) == E::images_shape(second_input),
        forward_yields::<E>(first_layers, first_input, first),
        forward_yields::<E>(second_layers, second_input, second),
    ensures
        E::features_shape(first) == E::features_shape(second),
{
}

/// On a batch of at least one image of `IMAGE_SIDE` by `IMAGE_SIDE` pixels
/// the shape is the one that the network is laid out for, and what `forward`
/// returns has one row per image and `CLASSES` columns.
pub proof fn lemma_forward_on_digit_images<E: Engine>(
    layers: &Layers<E>,
    input: &E::Images,
    logits: &E::Features,
    batch: int,
)
    requires
        batch >= 1,
        E::images_shape(input) == seq![batch, IMAGE_SIDE as int, IMAGE_SIDE as int],
        forward_yields::<E>(layers, input, logits),
    ensures
        accepts(E::images_shape(input)),
        E::features_shape(logits) == seq![batch, CLASSES as int],
        E::features_shape(logits) == logits_shape(E::images_shape(input)),
{
    lemma_digit_images_accepted(batch);
}

/// On either engine the feature maps that the pooling layer reads, and the
/// pooled feature maps, hold the same numbers in every run on images of the
/// same numbers and shape with the same layers.
pub proof fn lemma_feature_maps_repeat<E: Engine>(
    layers: &Layers<E>,
    first_input: &E::Images,
    second_input: &E::Images,
)
    requires
        E::images_numbers(first_input) == E::images_numbers(second_input),
        E::images_shape(first_input) == E::images_shape(second_input),
    ensures
        pooling_input(layers, E::images_numbers(first_input), E::images_shape(first_input))
            == pooling_input(
            layers,
            E::images_numbers(second_input),
            E::images_shape(second_input),
        ),
        pooled(layers, E::images_numbers(first_input), E::images_shape(first_input)) == pooled(
            layers,
            E::images_numbers(second_input),
            E::images_shape(second_input),
        ),
{
}

} // verus!
