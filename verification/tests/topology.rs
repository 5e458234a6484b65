use autoenc::topology::{layer_dims, model_topology, LayerId, Stage};

/// Runtime shadow of the pipeline's shape behaviour: the shape each
/// stage produces, or `None` on a mismatch.
fn apply_stage(stage: &Stage, shape: &[u64]) -> Option<Vec<u64>> {
    match stage {
        Stage::Flatten => {
            if shape.len() < 2 {
                return None;
            }
            let trailing: u64 = shape[1..].iter().product();
            Some(vec![shape[0], trailing])
        }
        Stage::Affine { layer } => {
            let (in_dim, out_dim) = layer_dims(*layer);
            if shape.is_empty() || *shape.last().unwrap() != in_dim {
                return None;
            }
            let mut out = shape.to_vec();
            *out.last_mut().unwrap() = out_dim;
            Some(out)
        }
        Stage::Sigmoid => Some(shape.to_vec()),
        Stage::Unflatten { rows, cols } => {
            if shape.is_empty() || *shape.last().unwrap() != rows * cols {
                return None;
            }
            let mut out = shape[..shape.len() - 1].to_vec();
            out.push(*rows);
            out.push(*cols);
            Some(out)
        }
    }
}

fn pipeline_output_shape(input: &[u64]) -> Option<Vec<u64>> {
    let mut shape = input.to_vec();
    for stage in model_topology() {
        shape = apply_stage(&stage, &shape)?;
    }
    Some(shape)
}

#[test]
fn model_maps_images_to_images() {
    // For any batch size, [b, 28, 28] in gives [b, 28, 28] out.
    for b in [0u64, 1, 5, 64, 10000] {
        assert_eq!(pipeline_output_shape(&[b, 28, 28]), Some(vec![b, 28, 28]));
    }
}

#[test]
fn model_rejects_wrong_image_shapes() {
    assert_eq!(pipeline_output_shape(&[1, 27, 28]), None);
    assert_eq!(pipeline_output_shape(&[784]), None);
}

#[test]
fn topology_is_the_fixed_ten_stage_pipeline() {
    let stages = model_topology();
    assert_eq!(
        stages,
        vec![
            Stage::Flatten,
            Stage::Affine { layer: LayerId::EncoderL1 },
            Stage::Sigmoid,
            Stage::Affine { layer: LayerId::EncoderL2 },
            Stage::Sigmoid,
            Stage::Affine { layer: LayerId::DecoderL1 },
            Stage::Sigmoid,
            Stage::Affine { layer: LayerId::DecoderL2 },
            Stage::Sigmoid,
            Stage::Unflatten { rows: 28, cols: 28 },
        ]
    );
}

#[test]
fn topology_is_deterministic() {
    // Two builds of the topology are identical, stage for stage; with
    // an identical parameter store the forward pass is then the same
    // function both times.
    assert_eq!(model_topology(), model_topology());
}

#[test]
fn layer_widths_chain() {
    // 784 -> 256 -> 128 -> 256 -> 784: each layer consumes what the
    // previous one produces.
    assert_eq!(layer_dims(LayerId::EncoderL1), (784, 256));
    assert_eq!(layer_dims(LayerId::EncoderL2), (256, 128));
    assert_eq!(layer_dims(LayerId::DecoderL1), (128, 256));
    assert_eq!(layer_dims(LayerId::DecoderL2), (256, 784));
    let stages = model_topology();
    let mut width: u64 = autoenc::topology::IMAGE_PIXELS;
    for stage in &stages {
        if let Stage::Affine { layer } = stage {
            let (in_dim, out_dim) = layer_dims(*layer);
            assert_eq!(in_dim, width);
            width = out_dim;
        }
    }
    assert_eq!(width, autoenc::topology::IMAGE_PIXELS);
}

#[test]
fn image_constants() {
    assert_eq!(autoenc::topology::IMAGE_SIDE, 28);
    assert_eq!(autoenc::topology::IMAGE_PIXELS, 784);
    assert_eq!(autoenc::topology::OUTER_HIDDEN, 256);
    assert_eq!(autoenc::topology::CODE_WIDTH, 128);
}
