use burn::module::Module;
use burn::nn::pool::{MaxPool2d, MaxPool2dConfig};
use burn::nn::{Dropout, DropoutConfig};
use burn::tensor::{Data, Shape, Tensor};
use burn_ndarray::NdArrayBackend;
use simple_mnist::engine::{holds_nan, Engine, Labels};
use simple_mnist::inference::{self, Cpu, Inference};
use simple_mnist::training::{self, Recording, Training};

fn ramp(count: usize) -> Vec<f32> {
    (0..count).map(|i| i as f32 - 3.0).collect()
}

fn labels(values: Vec<i64>) -> Labels {
    let count = values.len();
    Labels { inner: Tensor::<NdArrayBackend<i64>, 1>::from_data(Data::new(values, Shape::new([count]))) }
}

#[test]
fn inference_reports_image_extents() {
    let images = inference::Images { inner: Tensor::<Cpu, 3>::zeros([2, 3, 4]) };
    assert_eq!(Inference::image_extents(&images), [2, 3, 4]);
}

#[test]
fn training_reports_image_extents() {
    let images = training::Images { inner: Tensor::<Recording, 3>::zeros([5, 1, 7]) };
    assert_eq!(Training::image_extents(&images), [5, 1, 7]);
}

#[test]
fn inference_reshapes_in_order() {
    let values = ramp(24);
    let images = inference::Images {
        inner: Tensor::<Cpu, 3>::from_data(Data::new(values.clone(), Shape::new([2, 3, 4]))),
    };
    let maps = Inference::images_to_maps(&images, [2, 1, 3, 4]);
    assert_eq!(maps.inner.dims(), [2, 1, 3, 4]);
    assert_eq!(maps.inner.to_data().value, values);
    let features = Inference::maps_to_features(&maps, [2, 12]);
    assert_eq!(features.inner.dims(), [2, 12]);
    assert_eq!(features.inner.to_data().value, values);
}

#[test]
fn training_reshapes_in_order() {
    let values = ramp(24);
    let images = training::Images {
        inner: Tensor::<Recording, 3>::from_data(Data::new(values.clone(), Shape::new([2, 3, 4]))),
    };
    let maps = Training::images_to_maps(&images, [2, 1, 3, 4]);
    assert_eq!(maps.inner.dims(), [2, 1, 3, 4]);
    assert_eq!(maps.inner.to_data().value, values);
    let features = Training::maps_to_features(&maps, [2, 12]);
    assert_eq!(features.inner.dims(), [2, 12]);
    assert_eq!(features.inner.to_data().value, values);
}

#[test]
fn detach_keeps_shape_and_numbers() {
    let values = ramp(8);
    let maps = inference::FeatureMaps {
        inner: Tensor::<Cpu, 4>::from_data(Data::new(values.clone(), Shape::new([1, 2, 2, 2]))),
    };
    let detached = Inference::detach(maps);
    assert_eq!(detached.inner.dims(), [1, 2, 2, 2]);
    assert_eq!(detached.inner.to_data().value, values);
    let maps = training::FeatureMaps {
        inner: Tensor::<Recording, 4>::from_data(Data::new(values.clone(), Shape::new([1, 2, 2, 2]))),
    };
    let detached = Training::detach(maps);
    assert_eq!(detached.inner.dims(), [1, 2, 2, 2]);
    assert_eq!(detached.inner.to_data().value, values);
}

#[test]
fn convolution_layers_have_the_weights_of_their_geometry() {
    // weights: out * in * height * width, and one bias per output channel
    assert_eq!(Inference::conv_layer([1, 32], [3, 3]).inner.num_params(), 32 * 9 + 32);
    assert_eq!(Training::conv_layer([32, 64], [3, 3]).inner.num_params(), 64 * 32 * 9 + 64);
    assert_eq!(Inference::conv_layer([2, 3], [3, 2]).inner.num_params(), 3 * 2 * 6 + 3);
}

#[test]
fn dense_layers_have_the_weights_of_their_geometry() {
    assert_eq!(Inference::dense_layer(128, 10).inner.num_params(), 128 * 10 + 10);
    assert_eq!(Training::dense_layer(4, 5).inner.num_params(), 4 * 5 + 5);
}

#[test]
fn inference_convolution_shrinks_by_the_window() {
    let layer = Inference::conv_layer([2, 3], [3, 2]);
    let maps = inference::FeatureMaps { inner: Tensor::<Cpu, 4>::ones([2, 2, 5, 6]) };
    let out = Inference::convolve(&layer, maps);
    assert_eq!(out.inner.dims(), [2, 3, 3, 5]);
}

#[test]
fn training_convolution_shrinks_by_the_window() {
    let layer = Training::conv_layer([2, 3], [3, 2]);
    let maps = training::FeatureMaps { inner: Tensor::<Recording, 4>::ones([2, 2, 5, 6]) };
    let out = Training::convolve(&layer, maps);
    assert_eq!(out.inner.dims(), [2, 3, 3, 5]);
}

#[test]
fn convolution_window_as_large_as_the_input_gives_one_position() {
    let layer = Inference::conv_layer([1, 1], [3, 3]);
    let maps = inference::FeatureMaps { inner: Tensor::<Cpu, 4>::ones([1, 1, 3, 3]) };
    let out = Inference::convolve(&layer, maps);
    assert_eq!(out.inner.dims(), [1, 1, 1, 1]);
}

#[test]
fn rectifier_clips_negative_numbers() {
    let maps = inference::FeatureMaps {
        inner: Tensor::<Cpu, 4>::from_data(Data::new(
            vec![-2.0, -0.5, 0.0, 0.5, 1.0, -7.0, 3.0, 4.0],
            Shape::new([1, 2, 2, 2]),
        )),
    };
    let out = Inference::rectify_maps(&maps);
    assert_eq!(out.inner.dims(), [1, 2, 2, 2]);
    assert_eq!(out.inner.to_data().value, vec![0.0, 0.0, 0.0, 0.5, 1.0, 0.0, 3.0, 4.0]);
    let features = training::Features {
        inner: Tensor::<Recording, 2>::from_data(Data::new(
            vec![-1.0, 2.0, -3.0, 4.0, 5.0, -6.0],
            Shape::new([2, 3]),
        )),
    };
    let out = Training::rectify_features(&features);
    assert_eq!(out.inner.dims(), [2, 3]);
    assert_eq!(out.inner.to_data().value, vec![0.0, 2.0, 0.0, 4.0, 5.0, 0.0]);
    let features = inference::Features {
        inner: Tensor::<Cpu, 2>::from_data(Data::new(vec![-1.0, 2.0], Shape::new([1, 2]))),
    };
    assert_eq!(Inference::rectify_features(&features).inner.to_data().value, vec![0.0, 2.0]);
    let maps = training::FeatureMaps {
        inner: Tensor::<Recording, 4>::from_data(Data::new(vec![-1.0, 2.0], Shape::new([1, 1, 1, 2]))),
    };
    assert_eq!(Training::rectify_maps(&maps).inner.to_data().value, vec![0.0, 2.0]);
}

#[test]
fn pooling_takes_the_largest_of_each_window() {
    let layer = MaxPool2d::new(&MaxPool2dConfig::new(1, [2, 2]).with_strides([2, 2]));
    let values = vec![
        1.0, 2.0, 5.0, 6.0, //
        3.0, 4.0, 8.0, 7.0, //
        9.0, 1.0, 0.0, 0.0, //
        1.0, 1.0, 0.0, -1.0,
    ];
    let maps = inference::FeatureMaps {
        inner: Tensor::<Cpu, 4>::from_data(Data::new(values.clone(), Shape::new([1, 1, 4, 4]))),
    };
    let out = Inference::pool(&layer, maps);
    assert_eq!(out.inner.dims(), [1, 1, 2, 2]);
    assert_eq!(out.inner.to_data().value, vec![4.0, 8.0, 9.0, 0.0]);
    let maps = training::FeatureMaps {
        inner: Tensor::<Recording, 4>::from_data(Data::new(values, Shape::new([1, 1, 4, 4]))),
    };
    let out = Training::pool(&layer, maps);
    assert_eq!(out.inner.dims(), [1, 1, 2, 2]);
    assert_eq!(out.inner.to_data().value, vec![4.0, 8.0, 9.0, 0.0]);
}

#[test]
fn pooling_drops_what_no_window_covers() {
    let layer = MaxPool2d::new(&MaxPool2dConfig::new(2, [2, 2]).with_strides([2, 2]));
    let maps = inference::FeatureMaps { inner: Tensor::<Cpu, 4>::ones([3, 2, 5, 7]) };
    assert_eq!(Inference::pool(&layer, maps).inner.dims(), [3, 2, 2, 3]);
    // a window of three by two that moves one down and three to the right
    let layer = MaxPool2d::new(&MaxPool2dConfig::new(1, [3, 2]).with_strides([1, 3]));
    let maps = training::FeatureMaps { inner: Tensor::<Recording, 4>::ones([1, 1, 5, 9]) };
    assert_eq!(Training::pool(&layer, maps).inner.dims(), [1, 1, 3, 3]);
}

#[test]
fn dense_layer_maps_features_to_outputs() {
    let layer = Inference::dense_layer(4, 5);
    let features = inference::Features { inner: Tensor::<Cpu, 2>::ones([3, 4]) };
    assert_eq!(Inference::project(&layer, features).inner.dims(), [3, 5]);
    let layer = Training::dense_layer(4, 5);
    let features = training::Features { inner: Tensor::<Recording, 2>::ones([3, 4]) };
    assert_eq!(Training::project(&layer, features).inner.dims(), [3, 5]);
}

#[test]
fn inference_dropout_hands_its_input_on() {
    let layer = Dropout::new(&DropoutConfig::new(0.5));
    let values = ramp(200);
    let maps = inference::FeatureMaps {
        inner: Tensor::<Cpu, 4>::from_data(Data::new(values.clone(), Shape::new([2, 1, 10, 10]))),
    };
    let out = Inference::drop_maps(&layer, maps);
    assert_eq!(out.inner.dims(), [2, 1, 10, 10]);
    assert_eq!(out.inner.to_data().value, values);
    let features = inference::Features {
        inner: Tensor::<Cpu, 2>::from_data(Data::new(values.clone(), Shape::new([2, 100]))),
    };
    let out = Inference::drop_features(&layer, features);
    assert_eq!(out.inner.dims(), [2, 100]);
    assert_eq!(out.inner.to_data().value, values);
}

#[test]
fn training_dropout_zeroes_some_and_rescales_the_rest() {
    let layer = Dropout::new(&DropoutConfig::new(0.5));
    let maps = training::FeatureMaps { inner: Tensor::<Recording, 4>::ones([1, 1, 40, 40]) };
    let out = Training::drop_maps(&layer, maps);
    assert_eq!(out.inner.dims(), [1, 1, 40, 40]);
    let values = out.inner.to_data().value;
    let zeroes = values.iter().filter(|v| **v == 0.0).count();
    let doubled = values.iter().filter(|v| **v == 2.0).count();
    assert_eq!(zeroes + doubled, 1600);
    assert!(zeroes > 0);
    assert!(doubled > 0);
    let layer = Dropout::new(&DropoutConfig::new(0.25));
    let features = training::Features { inner: Tensor::<Recording, 2>::ones([4, 400]) };
    let out = Training::drop_features(&layer, features);
    assert_eq!(out.inner.dims(), [4, 400]);
    let values = out.inner.to_data().value;
    let zeroes = values.iter().filter(|v| **v == 0.0).count();
    let kept = values.iter().filter(|v| (**v - 1.0 / 0.75).abs() < 1e-6).count();
    assert_eq!(zeroes + kept, 1600);
    assert!(zeroes > 0);
    assert!(kept > zeroes);
}

#[test]
fn training_dropout_draws_anew_each_time() {
    let layer = Dropout::new(&DropoutConfig::new(0.5));
    let first = Training::drop_features(
        &layer,
        training::Features { inner: Tensor::<Recording, 2>::ones([4, 400]) },
    );
    let second = Training::drop_features(
        &layer,
        training::Features { inner: Tensor::<Recording, 2>::ones([4, 400]) },
    );
    assert_eq!(first.inner.dims(), second.inner.dims());
    assert_ne!(first.inner.to_data().value, second.inner.to_data().value);
}

#[test]
fn cross_entropy_of_two_examples_and_three_classes() {
    // softmax of (1, 2, 3) is (0.09003057, 0.24472847, 0.66524096);
    // -ln 0.66524096 = 0.40760596 and -ln 0.09003057 = 2.40760596,
    // and their mean is 1.40760596
    let logits = vec![1.0, 2.0, 3.0, 1.0, 2.0, 3.0];
    let features = inference::Features {
        inner: Tensor::<Cpu, 2>::from_data(Data::new(logits.clone(), Shape::new([2, 3]))),
    };
    let loss = Inference::cross_entropy(&features, &labels(vec![2, 0]), 3);
    assert_eq!(loss.inner.dims(), [1]);
    assert!((loss.inner.to_data().value[0] - 1.407_606).abs() < 1e-5);
    let features = training::Features {
        inner: Tensor::<Recording, 2>::from_data(Data::new(logits, Shape::new([2, 3]))),
    };
    let loss = Training::cross_entropy(&features, &labels(vec![2, 0]), 3);
    assert_eq!(loss.inner.dims(), [1]);
    assert!((loss.inner.to_data().value[0] - 1.407_606).abs() < 1e-5);
}

#[test]
fn cross_entropy_of_uniform_logits_is_the_log_of_the_classes() {
    let features = inference::Features { inner: Tensor::<Cpu, 2>::zeros([3, 10]) };
    let loss = Inference::cross_entropy(&features, &labels(vec![0, 9, 4]), 10);
    // ln 10
    assert!((loss.inner.to_data().value[0] - 2.302_585).abs() < 1e-5);
}

#[test]
fn cross_entropy_tends_to_zero_as_the_true_class_dominates() {
    let mut previous = f32::INFINITY;
    for scale in [1.0f32, 4.0, 8.0, 16.0] {
        let mut logits = vec![0.0; 20];
        logits[3] = scale;
        logits[10 + 7] = scale;
        let features = inference::Features {
            inner: Tensor::<Cpu, 2>::from_data(Data::new(logits, Shape::new([2, 10]))),
        };
        let loss = Inference::cross_entropy(&features, &labels(vec![3, 7]), 10);
        let value = loss.inner.to_data().value[0];
        assert!(value >= 0.0);
        assert!(value < previous);
        previous = value;
    }
    assert!(previous < 1e-5);
}

#[test]
fn training_detach_cuts_the_recording() {
    let source = Tensor::<Recording, 4>::ones([1, 1, 2, 2]);
    let computed = source.mul_scalar(3.0);
    // what was computed from the source hands its gradient back to it
    let gradients = computed.sum().backward();
    assert!(source.grad(&gradients).is_some());
    // what was detached does not
    let detached = Training::detach(training::FeatureMaps { inner: computed });
    assert_eq!(detached.inner.dims(), [1, 1, 2, 2]);
    assert_eq!(detached.inner.to_data().value, vec![3.0; 4]);
    let gradients = detached.inner.mul_scalar(2.0).sum().backward();
    assert!(source.grad(&gradients).is_none());
    assert_eq!(detached.inner.grad(&gradients).map(|g| g.to_data().value), Some(vec![2.0; 4]));
}

#[test]
fn the_loss_is_one_number_whatever_the_batch() {
    for batch in [1usize, 2, 5] {
        let features = inference::Features { inner: Tensor::<Cpu, 2>::ones([batch, 4]) };
        let loss = Inference::cross_entropy(&features, &labels(vec![1; batch]), 4);
        assert_eq!(loss.inner.dims(), [1]);
        let features = training::Features { inner: Tensor::<Recording, 2>::ones([batch, 4]) };
        let loss = Training::cross_entropy(&features, &labels(vec![3; batch]), 4);
        assert_eq!(loss.inner.dims(), [1]);
    }
}

#[test]
fn rectifier_multiplies_what_is_at_most_zero_by_zero() {
    let values = vec![f32::NEG_INFINITY, f32::NAN, -1.5, -0.0, 0.0, 2.5, f32::INFINITY, -1e-40];
    let maps = inference::FeatureMaps {
        inner: Tensor::<Cpu, 4>::from_data(Data::new(values.clone(), Shape::new([1, 2, 2, 2]))),
    };
    let out = Inference::map_bits(&Inference::rectify_maps(&maps));
    // negative infinity times zero is no number
    assert_eq!(out[0] & 0x7f80_0000, 0x7f80_0000);
    assert_ne!(out[0] & 0x007f_ffff, 0);
    assert_eq!(out[1] & 0x7f80_0000, 0x7f80_0000);
    assert_ne!(out[1] & 0x007f_ffff, 0);
    // what is negative or zero becomes positive zero
    assert_eq!(out[2], 0);
    assert_eq!(out[3], 0);
    assert_eq!(out[4], 0);
    assert_eq!(out[7], 0);
    // what is positive stays
    assert_eq!(out[5], 2.5f32.to_bits());
    assert_eq!(out[6], f32::INFINITY.to_bits());
    let features = training::Features {
        inner: Tensor::<Recording, 2>::from_data(Data::new(values, Shape::new([2, 4]))),
    };
    let out = Training::rectify_features(&features).inner.to_data().value;
    assert!(out[0].is_nan() && out[1].is_nan());
    assert_eq!(
        out[2..].iter().map(|v| v.to_bits()).collect::<Vec<u32>>(),
        vec![0, 0, 0, 2.5f32.to_bits(), f32::INFINITY.to_bits(), 0]
    );
}

#[test]
fn feature_maps_hand_out_their_extents_and_bit_patterns() {
    let values = vec![1.0, -2.0, 0.5, f32::INFINITY, 0.0, -0.0];
    let bits: Vec<u32> = values.iter().map(|v: &f32| v.to_bits()).collect();
    let maps = inference::FeatureMaps {
        inner: Tensor::<Cpu, 4>::from_data(Data::new(values.clone(), Shape::new([1, 1, 2, 3]))),
    };
    assert_eq!(Inference::map_extents(&maps), [1, 1, 2, 3]);
    assert_eq!(Inference::map_bits(&maps), bits);
    let maps = training::FeatureMaps {
        inner: Tensor::<Recording, 4>::from_data(Data::new(values, Shape::new([3, 2, 1, 1]))),
    };
    assert_eq!(Training::map_extents(&maps), [3, 2, 1, 1]);
    assert_eq!(Training::map_bits(&maps), bits);
}

#[test]
fn not_a_number_is_found_among_bit_patterns() {
    assert!(!holds_nan(&vec![]));
    assert!(!holds_nan(&vec![0, 1, 0x3f80_0000, 0x7f80_0000, 0xff80_0000, 0x8000_0000, 0x007f_ffff]));
    assert!(holds_nan(&vec![0, f32::NAN.to_bits()]));
    assert!(holds_nan(&vec![0x7f80_0001]));
    assert!(holds_nan(&vec![0xffc0_0000, 0]));
    assert!(holds_nan(&vec![1, 2, 0x7fff_ffff]));
    assert!(holds_nan(&vec![(f32::INFINITY - f32::INFINITY).to_bits()]));
}

#[test]
fn reshaping_and_detaching_keep_every_bit_pattern() {
    let values = vec![f32::NAN, -0.0, 1e-40, f32::NEG_INFINITY, 3.0, -7.25];
    let bits: Vec<u32> = values.iter().map(|v: &f32| v.to_bits()).collect();
    let images = training::Images {
        inner: Tensor::<Recording, 3>::from_data(Data::new(values, Shape::new([1, 2, 3]))),
    };
    let maps = Training::detach(Training::images_to_maps(&images, [1, 1, 2, 3]));
    assert_eq!(Training::map_bits(&maps), bits);
    let features = Training::maps_to_features(&maps, [2, 3]);
    assert_eq!(
        features.inner.to_data().value.iter().map(|v| v.to_bits()).collect::<Vec<u32>>(),
        bits
    );
}

#[test]
fn walking_back_past_a_pooling_of_square_maps_gives_gradients() {
    let layer = MaxPool2d::new(&MaxPool2dConfig::new(1, [2, 2]).with_strides([2, 2]));
    let source = Tensor::<Recording, 4>::from_data(Data::new(ramp(32), Shape::new([1, 2, 4, 4])));
    let pooled = Training::pool(&layer, training::FeatureMaps { inner: source.clone() });
    assert_eq!(pooled.inner.dims(), [1, 2, 2, 2]);
    let gradients = pooled.inner.sum().backward();
    let gradient = source.grad(&gradients).map(|g| g.to_data().value);
    // the largest of each window is its last element, which alone gets the gradient
    let mut expected = vec![0.0; 32];
    for channel in 0..2 {
        for index in [5, 7, 13, 15] {
            expected[channel * 16 + index] = 1.0;
        }
    }
    assert_eq!(gradient, Some(expected));
}
