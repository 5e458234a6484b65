//! The fixed encoder/decoder network topology and its shape behaviour.
//!
//! The network is a pure pipeline of stages over the parameter store:
//! flatten, four affine layers each followed by an elementwise sigmoid,
//! and a final reshape back to the two-dimensional image shape. Nothing
//! here computes on tensor values; the pipeline is described as data so
//! that the driver can hand it to the tensor engine, and its shape
//! behaviour is stated and proved over that description.

use vstd::prelude::*;

verus! {

/// Images are square grayscale bitmaps with this side length.
pub const IMAGE_SIDE: u64 = 28;

/// Number of pixels per image, the width of the flattened input.
pub const IMAGE_PIXELS: u64 = 28 * 28;

/// Width of the hidden layer nearest to the input and to the output.
pub const OUTER_HIDDEN: u64 = 256;

/// Width of the innermost code layer between encoder and decoder.
pub const CODE_WIDTH: u64 = 128;

/// The four affine layers of the network, two in the encoder and two in
/// the decoder.
#[derive(Clone, Copy, Debug, PartialEq, Eq, Structural)]
pub enum LayerId {
    EncoderL1,
    EncoderL2,
    DecoderL1,
    DecoderL2,
}

/// Input width of an affine layer.
pub open spec fn layer_in_dim(l: LayerId) -> u64 {
    match l {
        LayerId::EncoderL1 => IMAGE_PIXELS,
        LayerId::EncoderL2 => OUTER_HIDDEN,
        LayerId::DecoderL1 => CODE_WIDTH,
        LayerId::DecoderL2 => OUTER_HIDDEN,
    }
}

/// Output width of an affine layer.
pub open spec fn layer_out_dim(l: LayerId) -> u64 {
    match l {
        LayerId::EncoderL1 => OUTER_HIDDEN,
        LayerId::EncoderL2 => CODE_WIDTH,
        LayerId::DecoderL1 => OUTER_HIDDEN,
        LayerId::DecoderL2 => IMAGE_PIXELS,
    }
}

/// Input and output width of an affine layer, for the driver that
/// instantiates the layer in the tensor engine.
pub fn layer_dims(l: LayerId) -> (r: (u64, u64))
    ensures
        r.0 == layer_in_dim(l),
        r.1 == layer_out_dim(l),
{
    match l {
        LayerId::EncoderL1 => (IMAGE_PIXELS, OUTER_HIDDEN),
        LayerId::EncoderL2 => (OUTER_HIDDEN, CODE_WIDTH),
        LayerId::DecoderL1 => (CODE_WIDTH, OUTER_HIDDEN),
        LayerId::DecoderL2 => (OUTER_HIDDEN, IMAGE_PIXELS),
    }
}

/// One stage of the forward pipeline.
#[derive(Clone, Copy, Debug, PartialEq, Eq, Structural)]
pub enum Stage {
    /// Collapse all trailing axes of the input into one.
    Flatten,
    /// Apply the named affine layer to the last axis.
    Affine { layer: LayerId },
    /// Elementwise sigmoid; every result lies strictly between 0 and 1.
    Sigmoid,
    /// Split the last axis back into a `rows` by `cols` image.
    Unflatten { rows: u64, cols: u64 },
}

/// Product of the entries of a shape.
pub open spec fn dim_product(s: Seq<int>) -> int
    decreases s.len(),
{
    if s.len() == 0 {
        1
    } else {
        s[0] * dim_product(s.skip(1))
    }
}

/// The shape a single stage produces from an input of shape `s`, or
/// `None` when the stage cannot accept that shape.
pub open spec fn stage_shape(st: Stage, s: Seq<int>) -> Option<Seq<int>> {
    match st {
        Stage::Flatten => if s.len() >= 2 {
            Some(seq![s[0], dim_product(s.skip(1))])
        } else {
            None
        },
        Stage::Affine { layer } => if s.len() >= 1 && s.last() == layer_in_dim(layer) as int {
            Some(s.update(s.len() - 1, layer_out_dim(layer) as int))
        } else {
            None
        },
        Stage::Sigmoid => Some(s),
        Stage::Unflatten { rows, cols } => if s.len() >= 1 && s.last() == rows as int * cols as int {
            Some(s.drop_last().push(rows as int).push(cols as int))
        } else {
            None
        },
    }
}

/// The shape that the pipeline suffix starting at stage `i` produces
/// from an input of shape `s`.
pub open spec fn pipeline_shape_from(stages: Seq<Stage>, i: int, s: Seq<int>) -> Option<Seq<int>>
    decreases stages.len() - i,
{
    if i < 0 || i >= stages.len() {
        Some(s)
    } else {
        match stage_shape(stages[i], s) {
            Some(t) => pipeline_shape_from(stages, i + 1, t),
            None => None,
        }
    }
}

/// The shape a whole pipeline produces from an input of shape `s`.
pub open spec fn pipeline_shape(stages: Seq<Stage>, s: Seq<int>) -> Option<Seq<int>> {
    pipeline_shape_from(stages, 0, s)
}

/// The fixed topology: flatten, encoder (784 -> 256 -> 128), decoder
/// (128 -> 256 -> 784), each affine layer followed by a sigmoid, and a
/// reshape back to the image.
pub open spec fn model_stages() -> Seq<Stage> {
    seq![
        Stage::Flatten,
        Stage::Affine { layer: LayerId::EncoderL1 },
        Stage::Sigmoid,
        Stage::Affine { layer: LayerId::EncoderL2 },
        Stage::Sigmoid,
        Stage::Affine { layer: LayerId::DecoderL1 },
        Stage::Sigmoid,
        Stage::Affine { layer: LayerId::DecoderL2 },
        Stage::Sigmoid,
        Stage::Unflatten { rows: IMAGE_SIDE, cols: IMAGE_SIDE },
    ]
}

/// The topology as a value for the driver, stage by stage in forward
/// order.
pub fn model_topology() -> (r: Vec<Stage>)
    ensures
        r@ == model_stages(),
{
    let mut r: Vec<Stage> = Vec::new();
    r.push(Stage::Flatten);
    r.push(Stage::Affine { layer: LayerId::EncoderL1 });
    r.push(Stage::Sigmoid);
    r.push(Stage::Affine { layer: LayerId::EncoderL2 });
    r.push(Stage::Sigmoid);
    r.push(Stage::Affine { layer: LayerId::DecoderL1 });
    r.push(Stage::Sigmoid);
    r.push(Stage::Affine { layer: LayerId::DecoderL2 });
    r.push(Stage::Sigmoid);
    r.push(Stage::Unflatten { rows: IMAGE_SIDE, cols: IMAGE_SIDE });
    proof {
        assert(r@ =~= model_stages());
    }
    r
}

/// For every batch size `b`, the model maps an input of shape
/// [b, 28, 28] to an output of the same shape [b, 28, 28].
pub proof fn lemma_model_output_shape(b: int)
    ensures
        pipeline_shape(model_stages(), seq![b, 28int, 28int]) == Some(seq![b, 28int, 28int]),
{
    let st = model_stages();
    let s0 = seq![b, 28int, 28int];
    let s1 = seq![b, 784int];
    let s2 = seq![b, 256int];
    let s3 = seq![b, 128int];
    let s4 = seq![b, 256int];
    let s5 = seq![b, 784int];

    assert(stage_shape(st[0], s0) == Some(s1)) by {
        assert(dim_product(Seq::<int>::empty()) == 1);
        assert(seq![28int].skip(1) =~= Seq::<int>::empty());
        assert(dim_product(seq![28int]) == 28);
        assert(s0.skip(1) =~= seq![28int, 28int]);
        assert(s0.skip(1).skip(1) =~= seq![28int]);
        assert(dim_product(s0.skip(1)) == 784);
        assert(seq![s0[0], dim_product(s0.skip(1))] =~= s1);
    }
    assert(stage_shape(st[1], s1) == Some(s2)) by {
        assert(s1.update(1, 256int) =~= s2);
    }
    assert(stage_shape(st[2], s2) == Some(s2));
    assert(stage_shape(st[3], s2) == Some(s3)) by {
        assert(s2.update(1, 128int) =~= s3);
    }
    assert(stage_shape(st[4], s3) == Some(s3));
    assert(stage_shape(st[5], s3) == Some(s4)) by {
        assert(s3.update(1, 256int) =~= s4);
    }
    assert(stage_shape(st[6], s4) == Some(s4));
    assert(stage_shape(st[7], s4) == Some(s5)) by {
        assert(s4.update(1, 784int) =~= s5);
    }
    assert(stage_shape(st[8], s5) == Some(s5));
    assert(stage_shape(st[9], s5) == Some(s0)) by {
        assert(s5.drop_last() =~= seq![b]);
        assert(seq![b].push(28int).push(28int) =~= s0);
    }

    assert(pipeline_shape_from(st, 10, s0) == Some(s0));
    assert(pipeline_shape_from(st, 9, s5) == Some(s0));
    assert(pipeline_shape_from(st, 8, s5) == Some(s0));
    assert(pipeline_shape_from(st, 7, s4) == Some(s0));
    assert(pipeline_shape_from(st, 6, s4) == Some(s0));
    assert(pipeline_shape_from(st, 5, s3) == Some(s0));
    assert(pipeline_shape_from(st, 4, s3) == Some(s0));
    assert(pipeline_shape_from(st, 3, s2) == Some(s0));
    assert(pipeline_shape_from(st, 2, s2) == Some(s0));
    assert(pipeline_shape_from(st, 1, s1) == Some(s0));
    assert(pipeline_shape_from(st, 0, s0) == Some(s0));
}

/// A stage that only rearranges entries and leaves every value as it is.
pub open spec fn shape_only_stage(st: Stage) -> bool {
    match st {
        Stage::Flatten => true,
        Stage::Unflatten { .. } => true,
        Stage::Affine { .. } => false,
        Stage::Sigmoid => false,
    }
}

/// Every output value of the pipeline is the image of a sigmoid: some
/// stage is a sigmoid and only shape rearrangements follow it. Since a
/// sigmoid yields values strictly between 0 and 1, so does the whole
/// pipeline; the numeric fact about the sigmoid itself belongs to the
/// tensor engine.
pub open spec fn ends_in_sigmoid(stages: Seq<Stage>) -> bool {
    exists|i: int|
        0 <= i < stages.len() && stages[i] == Stage::Sigmoid && (forall|j: int|
            i < j < stages.len() ==> shape_only_stage(stages[j]))
}

/// The model's output values lie strictly between 0 and 1: its last
/// value-transforming stage is a sigmoid.
pub proof fn lemma_model_output_in_unit_interval()
    ensures
        ends_in_sigmoid(model_stages()),
{
    let st = model_stages();
    assert(st[8] == Stage::Sigmoid);
    assert(forall|j: int| 8 < j < st.len() ==> shape_only_stage(st[j]));
}

} // verus!
