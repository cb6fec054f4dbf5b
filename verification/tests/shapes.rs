use simple_mnist::shape::{check_image_dims, ShapeError};

#[test]
fn digit_images_are_accepted() {
    assert_eq!(check_image_dims([1, 28, 28]), Ok(()));
    assert_eq!(check_image_dims([64, 28, 28]), Ok(()));
    assert_eq!(check_image_dims([10_000, 28, 28]), Ok(()));
    assert_eq!(check_image_dims([usize::MAX, 28, 28]), Ok(()));
}

#[test]
fn empty_batch_is_rejected_first() {
    assert_eq!(check_image_dims([0, 28, 28]), Err(ShapeError::EmptyBatch));
    assert_eq!(check_image_dims([0, 2, 2]), Err(ShapeError::EmptyBatch));
    assert_eq!(check_image_dims([0, 30, 30]), Err(ShapeError::EmptyBatch));
}

#[test]
fn every_other_size_is_a_mismatch() {
    assert_eq!(check_image_dims([1, 27, 27]), Err(ShapeError::DimensionMismatch));
    assert_eq!(check_image_dims([1, 30, 30]), Err(ShapeError::DimensionMismatch));
    assert_eq!(check_image_dims([1, 28, 27]), Err(ShapeError::DimensionMismatch));
    assert_eq!(check_image_dims([1, 27, 28]), Err(ShapeError::DimensionMismatch));
    assert_eq!(check_image_dims([1, 5, 28]), Err(ShapeError::DimensionMismatch));
    assert_eq!(check_image_dims([1, 0, 0]), Err(ShapeError::DimensionMismatch));
    assert_eq!(
        check_image_dims([usize::MAX, usize::MAX, usize::MAX]),
        Err(ShapeError::DimensionMismatch)
    );
}

#[test]
fn sizes_that_would_fill_the_dense_layer_by_truncation_are_a_mismatch() {
    // 29 -> 27 -> 25 -> 12: the pooling would drop the odd row and column
    assert_eq!(check_image_dims([1, 29, 29]), Err(ShapeError::DimensionMismatch));
    assert_eq!(check_image_dims([1, 28, 29]), Err(ShapeError::DimensionMismatch));
    assert_eq!(check_image_dims([1, 29, 28]), Err(ShapeError::DimensionMismatch));
    // pooled areas of 144 that are not 12 by 12
    assert_eq!(check_image_dims([1, 6, 292]), Err(ShapeError::DimensionMismatch));
    assert_eq!(check_image_dims([1, 292, 6]), Err(ShapeError::DimensionMismatch));
    assert_eq!(check_image_dims([3, 20, 40]), Err(ShapeError::DimensionMismatch));
    assert_eq!(check_image_dims([3, 40, 20]), Err(ShapeError::DimensionMismatch));
    assert_eq!(check_image_dims([3, 22, 36]), Err(ShapeError::DimensionMismatch));
}
