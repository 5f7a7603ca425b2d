use compositor::dispatch::DispatchDescriptor;
use compositor::dispatch::KernelArg;
use compositor::error::CompositeError;
use compositor::pipeline::stage;
use compositor::stage::Layer;

#[test]
fn arguments_are_bound_in_the_fixed_order() {
    let desc = DispatchDescriptor { width: 7, height: 3, layer_count: 2 };
    let plan = desc.arg_bindings();
    assert_eq!(
        plan,
        vec![
            KernelArg::InputBuffer,
            KernelArg::OutputBuffer,
            KernelArg::Scalar(7),
            KernelArg::Scalar(3),
            KernelArg::Scalar(2),
        ]
    );
}

#[test]
fn argument_order_ignores_configuration_order() {
    // However the request's configuration orders the values, the plan is a
    // function of the descriptor alone, scalars at slots two to four.
    let layer_count: u32 = 3;
    let height: u32 = 9;
    let width: u32 = 5;
    let desc = DispatchDescriptor { layer_count, height, width };
    let plan = desc.arg_bindings();
    assert_eq!(plan[0], KernelArg::InputBuffer);
    assert_eq!(plan[1], KernelArg::OutputBuffer);
    assert_eq!(plan[2], KernelArg::Scalar(5));
    assert_eq!(plan[3], KernelArg::Scalar(9));
    assert_eq!(plan[4], KernelArg::Scalar(3));
}

#[test]
fn global_work_size_is_the_spatial_extent() {
    let desc = DispatchDescriptor { width: 1024, height: 768, layer_count: 2 };
    assert_eq!(desc.global_work_size(), (1024, 768));
}

#[test]
fn output_count_is_one_value_per_location() {
    let desc = DispatchDescriptor { width: 4, height: 4, layer_count: 2 };
    assert_eq!(desc.output_count(), 16);
}

#[test]
fn staging_two_uniform_layers_builds_both_blocks() {
    let layers = vec![Layer::filled(4, 4, 0xFFFFFFFF), Layer::filled(4, 4, 0xFF00FFFF)];
    let staged = stage(&layers, 4, 4).unwrap();
    let desc = staged.descriptor();
    assert_eq!(desc, DispatchDescriptor { width: 4, height: 4, layer_count: 2 });
    let buf = staged.buffer();
    assert_eq!(buf.len(), 32);
    assert!(buf[..16].iter().all(|&p| p == 0xFFFFFFFF));
    assert!(buf[16..].iter().all(|&p| p == 0xFF00FFFF));
}

#[test]
fn staging_a_fifteen_pixel_layer_fails_with_shape_mismatch() {
    let layers = vec![Layer::new(vec![0xFF00FFFF; 15]), Layer::filled(4, 4, 0xFFFFFFFF)];
    let r = stage(&layers, 4, 4);
    assert!(r.is_err());
    assert_eq!(r.err().unwrap(), CompositeError::ShapeMismatch);
}

#[test]
fn error_kinds_describe_themselves() {
    assert_eq!(CompositeError::ShapeMismatch.describe(), "shape mismatch");
    assert_eq!(CompositeError::AllocationFailure.describe(), "allocation failure");
    assert_eq!(CompositeError::DispatchFailure.describe(), "dispatch failure");
    assert_eq!(CompositeError::ReadbackFailure.describe(), "readback failure");
}
