use mnist_net::shape::{NetworkShape, ShapeError};

#[test]
fn weight_and_bias_dims_follow_layer_sizes() {
    let s = NetworkShape::new(vec![2, 3, 1]).unwrap();
    assert_eq!(s.weight_dims(), vec![(3, 2), (1, 3)]);
    assert_eq!(s.bias_dims(), vec![(3, 1), (1, 1)]);
}

#[test]
fn dims_for_wider_network() {
    let s = NetworkShape::new(vec![4, 5, 3]).unwrap();
    assert_eq!(s.weight_dims(), vec![(5, 4), (3, 5)]);
    assert_eq!(s.bias_dims(), vec![(5, 1), (3, 1)]);
}

#[test]
fn gradient_dims_match_parameter_dims() {
    for sizes in [vec![2, 3, 1], vec![4, 5, 3], vec![784, 16, 16, 10]] {
        let s = NetworkShape::new(sizes).unwrap();
        let (nabla_b, nabla_w) = s.backprop_dims();
        assert_eq!(nabla_b, s.bias_dims());
        assert_eq!(nabla_w, s.weight_dims());
    }
}

#[test]
fn forward_pass_output_dims() {
    let s = NetworkShape::new(vec![4, 5, 3]).unwrap();
    assert_eq!(s.feedforward_dims((4, 1)), (3, 1));
    let s = NetworkShape::new(vec![784, 16, 16, 10]).unwrap();
    assert_eq!(s.feedforward_dims((784, 1)), (10, 1));
}

#[test]
fn too_few_layers_rejected() {
    assert_eq!(NetworkShape::new(vec![]).unwrap_err(), ShapeError::TooFewLayers);
    assert_eq!(NetworkShape::new(vec![5]).unwrap_err(), ShapeError::TooFewLayers);
}

#[test]
fn empty_layer_rejected() {
    assert_eq!(NetworkShape::new(vec![3, 0, 2]).unwrap_err(), ShapeError::EmptyLayer);
    assert_eq!(NetworkShape::new(vec![0, 2]).unwrap_err(), ShapeError::EmptyLayer);
}

#[test]
fn size_getters() {
    let s = NetworkShape::new(vec![784, 16, 16, 10]).unwrap();
    assert_eq!(s.input_size(), 784);
    assert_eq!(s.output_size(), 10);
    assert_eq!(s.num_layers(), 4);
    assert_eq!(s.layer_size(1), 16);
}
