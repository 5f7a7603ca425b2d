use compositor::error::CompositeError;
use compositor::stage::Layer;
use compositor::stage::flatten_layers;

#[test]
fn filled_layer_holds_width_times_height_copies() {
    let layer = Layer::filled(4, 4, 0xFF0000FF);
    assert_eq!(layer.pixel_count(), 16);
    for i in 0..16 {
        assert_eq!(layer.pixel(i), 0xFF0000FF);
    }
}

#[test]
fn two_uniform_layers_flatten_to_two_contiguous_blocks() {
    let layers = vec![Layer::filled(4, 4, 0xFFFFFFFF), Layer::filled(4, 4, 0xFF00FFFF)];
    let buf = flatten_layers(&layers, 4, 4).unwrap();
    assert_eq!(buf.len(), 32);
    for i in 0..16 {
        assert_eq!(buf[i], 0xFFFFFFFF);
    }
    for i in 16..32 {
        assert_eq!(buf[i], 0xFF00FFFF);
    }
}

#[test]
fn flatten_keeps_layer_order_and_pixel_order() {
    let layers = vec![
        Layer::new(vec![1, 2]),
        Layer::new(vec![3, 4]),
        Layer::new(vec![5, 6]),
    ];
    let buf = flatten_layers(&layers, 2, 1).unwrap();
    assert_eq!(buf, vec![1, 2, 3, 4, 5, 6]);
}

#[test]
fn short_layer_is_rejected_with_shape_mismatch() {
    let layers = vec![Layer::filled(4, 4, 0xFFFFFFFF), Layer::new(vec![0xFF00FFFF; 15])];
    let r = flatten_layers(&layers, 4, 4);
    assert_eq!(r, Err(CompositeError::ShapeMismatch));
}

#[test]
fn long_layer_is_rejected_with_shape_mismatch() {
    let layers = vec![Layer::new(vec![7; 17])];
    let r = flatten_layers(&layers, 4, 4);
    assert_eq!(r, Err(CompositeError::ShapeMismatch));
}

#[test]
fn single_matching_layer_flattens_to_itself() {
    let layers = vec![Layer::new(vec![9, 8, 7, 6])];
    let buf = flatten_layers(&layers, 2, 2).unwrap();
    assert_eq!(buf, vec![9, 8, 7, 6]);
}

#[test]
fn one_by_one_layers_flatten_to_single_pixels() {
    let layers = vec![Layer::new(vec![0xAA]), Layer::new(vec![0xBB]), Layer::new(vec![0xCC])];
    let buf = flatten_layers(&layers, 1, 1).unwrap();
    assert_eq!(buf, vec![0xAA, 0xBB, 0xCC]);
}

#[test]
fn empty_layer_is_rejected_when_extent_is_positive() {
    let layers = vec![Layer::new(Vec::new())];
    let r = flatten_layers(&layers, 1, 1);
    assert_eq!(r, Err(CompositeError::ShapeMismatch));
}
