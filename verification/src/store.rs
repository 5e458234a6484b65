//! The named parameter store that the model builder fills.
//!
//! The store models the trainable state of the network: which parameters
//! exist, under which hierarchical name, and with which shape. The tensor
//! values themselves live in the tensor engine; the driver keeps its
//! engine-side store in step with this one. Names are unique within the
//! store, and declaring the model is idempotent, which is what makes a
//! checkpoint round trip reproduce the same store.

use vstd::prelude::*;

use crate::topology::{layer_in_dim, layer_out_dim, LayerId};

verus! {

/// The two parameters of an affine layer: the weight matrix and the
/// bias vector.
#[derive(Clone, Copy, Debug, PartialEq, Eq, Structural)]
pub enum ParamKind {
    Weight,
    Bias,
}

/// A parameter of the model, identified by its layer and its kind.
#[derive(Clone, Copy, Debug, PartialEq, Eq, Structural)]
pub struct ParamId {
    pub layer: LayerId,
    pub kind: ParamKind,
}

/// Shape of a parameter: a weight is [out, in], a bias is [out].
pub open spec fn param_dims(p: ParamId) -> Seq<u64> {
    match p.kind {
        ParamKind::Weight => seq![layer_out_dim(p.layer), layer_in_dim(p.layer)],
        ParamKind::Bias => seq![layer_out_dim(p.layer)],
    }
}

/// Shape of a parameter as a value, for allocation by the driver.
pub fn param_shape(p: ParamId) -> (r: Vec<u64>)
    ensures
        r@ == param_dims(p),
{
    let out_dim = crate::topology::layer_dims(p.layer).1;
    let mut r: Vec<u64> = Vec::new();
    r.push(out_dim);
    match p.kind {
        ParamKind::Weight => {
            r.push(crate::topology::layer_dims(p.layer).0);
        },
        ParamKind::Bias => {},
    }
    proof {
        assert(r@ =~= param_dims(p));
    }
    r
}

/// Hierarchical name of a parameter, mirroring the module nesting:
/// encoder or decoder, then the layer, then the parameter kind.
pub open spec fn param_name_spec(p: ParamId) -> Seq<char> {
    match (p.layer, p.kind) {
        (LayerId::EncoderL1, ParamKind::Weight) => "encoder/l1.weight"@,
        (LayerId::EncoderL1, ParamKind::Bias) => "encoder/l1.bias"@,
        (LayerId::EncoderL2, ParamKind::Weight) => "encoder/l2.weight"@,
        (LayerId::EncoderL2, ParamKind::Bias) => "encoder/l2.bias"@,
        (LayerId::DecoderL1, ParamKind::Weight) => "decoder/l1.weight"@,
        (LayerId::DecoderL1, ParamKind::Bias) => "decoder/l1.bias"@,
        (LayerId::DecoderL2, ParamKind::Weight) => "decoder/l2.weight"@,
        (LayerId::DecoderL2, ParamKind::Bias) => "decoder/l2.bias"@,
    }
}

/// Name of a parameter as a value, for the driver and the checkpoint.
pub fn param_name(p: ParamId) -> (r: &'static str)
    ensures
        r@ == param_name_spec(p),
{
    match (p.layer, p.kind) {
        (LayerId::EncoderL1, ParamKind::Weight) => "encoder/l1.weight",
        (LayerId::EncoderL1, ParamKind::Bias) => "encoder/l1.bias",
        (LayerId::EncoderL2, ParamKind::Weight) => "encoder/l2.weight",
        (LayerId::EncoderL2, ParamKind::Bias) => "encoder/l2.bias",
        (LayerId::DecoderL1, ParamKind::Weight) => "decoder/l1.weight",
        (LayerId::DecoderL1, ParamKind::Bias) => "decoder/l1.bias",
        (LayerId::DecoderL2, ParamKind::Weight) => "decoder/l2.weight",
        (LayerId::DecoderL2, ParamKind::Bias) => "decoder/l2.bias",
    }
}

/// A parameter's name determines it: its length gives the kind, its
/// first character the encoder or decoder half, its tenth character the
/// layer within that half.
pub proof fn lemma_param_name_chars(p: ParamId)
    ensures
        param_name_spec(p).len() == (if p.kind == ParamKind::Weight {
            17int
        } else {
            15int
        }),
        param_name_spec(p)[0] == (if p.layer == LayerId::EncoderL1 || p.layer
            == LayerId::EncoderL2 {
            'e'
        } else {
            'd'
        }),
        param_name_spec(p)[9] == (if p.layer == LayerId::EncoderL1 || p.layer
            == LayerId::DecoderL1 {
            '1'
        } else {
            '2'
        }),
{
    reveal_strlit("encoder/l1.weight");
    reveal_strlit("encoder/l1.bias");
    reveal_strlit("encoder/l2.weight");
    reveal_strlit("encoder/l2.bias");
    reveal_strlit("decoder/l1.weight");
    reveal_strlit("decoder/l1.bias");
    reveal_strlit("decoder/l2.weight");
    reveal_strlit("decoder/l2.bias");
    match (p.layer, p.kind) {
        (LayerId::EncoderL1, ParamKind::Weight) => {
            assert(param_name_spec(p) == "encoder/l1.weight"@);
        },
        (LayerId::EncoderL1, ParamKind::Bias) => {
            assert(param_name_spec(p) == "encoder/l1.bias"@);
        },
        (LayerId::EncoderL2, ParamKind::Weight) => {
            assert(param_name_spec(p) == "encoder/l2.weight"@);
        },
        (LayerId::EncoderL2, ParamKind::Bias) => {
            assert(param_name_spec(p) == "encoder/l2.bias"@);
        },
        (LayerId::DecoderL1, ParamKind::Weight) => {
            assert(param_name_spec(p) == "decoder/l1.weight"@);
        },
        (LayerId::DecoderL1, ParamKind::Bias) => {
            assert(param_name_spec(p) == "decoder/l1.bias"@);
        },
        (LayerId::DecoderL2, ParamKind::Weight) => {
            assert(param_name_spec(p) == "decoder/l2.weight"@);
        },
        (LayerId::DecoderL2, ParamKind::Bias) => {
            assert(param_name_spec(p) == "decoder/l2.bias"@);
        },
    }
}

/// Distinct parameters have distinct names.
pub proof fn lemma_param_names_injective(a: ParamId, b: ParamId)
    requires
        param_name_spec(a) == param_name_spec(b),
    ensures
        a == b,
{
    lemma_param_name_chars(a);
    lemma_param_name_chars(b);
    assert(a.kind == b.kind);
    assert(a.layer == b.layer);
}

/// One registered parameter: its identity and its shape.
pub struct ParamEntry {
    pub id: ParamId,
    pub dims: Vec<u64>,
}

/// The parameter store. Entries appear in registration order; the
/// checkpoint writer serializes them under their names.
pub struct ParamStore {
    pub entries: Vec<ParamEntry>,
}

impl View for ParamStore {
    type V = Seq<(ParamId, Seq<u64>)>;

    open spec fn view(&self) -> Seq<(ParamId, Seq<u64>)> {
        self.entries@.map(|i: int, e: ParamEntry| (e.id, e.dims@))
    }
}

/// Whether the store contents `s` holds a parameter with identity `id`.
pub open spec fn store_contains(s: Seq<(ParamId, Seq<u64>)>, id: ParamId) -> bool {
    exists|i: int| 0 <= i < s.len() && s[i].0 == id
}

/// The store invariant: no identity occurs twice, so every parameter
/// name is unique within the store.
pub open spec fn store_ids_unique(s: Seq<(ParamId, Seq<u64>)>) -> bool {
    forall|i: int, j: int| 0 <= i < j < s.len() ==> s[i].0 != s[j].0
}

/// Unique identities give unique names within the store.
pub proof fn lemma_store_names_unique(s: Seq<(ParamId, Seq<u64>)>)
    requires
        store_ids_unique(s),
    ensures
        forall|i: int, j: int|
            0 <= i < j < s.len() ==> param_name_spec(s[i].0) != param_name_spec(s[j].0),
{
    assert forall|i: int, j: int|
        0 <= i < j < s.len() implies param_name_spec(s[i].0) != param_name_spec(s[j].0) by {
        if param_name_spec(s[i].0) == param_name_spec(s[j].0) {
            lemma_param_names_injective(s[i].0, s[j].0);
            assert(s[i].0 != s[j].0);
        }
    }
}

/// Declaring one parameter: keep the store as it is when the parameter
/// is already present (it then came from a checkpoint), otherwise
/// append it with its default shape.
pub open spec fn declare_param(s: Seq<(ParamId, Seq<u64>)>, id: ParamId) -> Seq<
    (ParamId, Seq<u64>),
> {
    if store_contains(s, id) {
        s
    } else {
        s.push((id, param_dims(id)))
    }
}

/// Declaring the parameters `ids[i..]` in order.
pub open spec fn declare_params_from(
    s: Seq<(ParamId, Seq<u64>)>,
    ids: Seq<ParamId>,
    i: int,
) -> Seq<(ParamId, Seq<u64>)>
    decreases ids.len() - i,
{
    if i < 0 || i >= ids.len() {
        s
    } else {
        declare_params_from(declare_param(s, ids[i]), ids, i + 1)
    }
}

/// The model's eight parameters in declaration order.
pub open spec fn model_param_ids() -> Seq<ParamId> {
    seq![
        ParamId { layer: LayerId::EncoderL1, kind: ParamKind::Weight },
        ParamId { layer: LayerId::EncoderL1, kind: ParamKind::Bias },
        ParamId { layer: LayerId::EncoderL2, kind: ParamKind::Weight },
        ParamId { layer: LayerId::EncoderL2, kind: ParamKind::Bias },
        ParamId { layer: LayerId::DecoderL1, kind: ParamKind::Weight },
        ParamId { layer: LayerId::DecoderL1, kind: ParamKind::Bias },
        ParamId { layer: LayerId::DecoderL2, kind: ParamKind::Weight },
        ParamId { layer: LayerId::DecoderL2, kind: ParamKind::Bias },
    ]
}

/// Effect of building the whole model against store contents `s`.
pub open spec fn declare_model_params(s: Seq<(ParamId, Seq<u64>)>) -> Seq<(ParamId, Seq<u64>)> {
    declare_params_from(s, model_param_ids(), 0)
}

/// Declaring a parameter keeps every parameter that was present, and
/// afterwards the declared one is present.
pub proof fn lemma_declare_param_contains(s: Seq<(ParamId, Seq<u64>)>, id: ParamId, x: ParamId)
    ensures
        store_contains(s, x) ==> store_contains(declare_param(s, id), x),
        store_contains(declare_param(s, id), id),
{
    if store_contains(s, x) {
        let i = choose|i: int| 0 <= i < s.len() && s[i].0 == x;
        assert(declare_param(s, id)[i].0 == x);
    }
    if !store_contains(s, id) {
        assert(declare_param(s, id)[s.len() as int].0 == id);
    }
}

/// Declaring a list of parameters keeps every parameter that was
/// present.
pub proof fn lemma_declare_params_from_preserves(
    s: Seq<(ParamId, Seq<u64>)>,
    ids: Seq<ParamId>,
    i: int,
    x: ParamId,
)
    requires
        store_contains(s, x),
    ensures
        store_contains(declare_params_from(s, ids, i), x),
    decreases ids.len() - i,
{
    if 0 <= i < ids.len() {
        lemma_declare_param_contains(s, ids[i], x);
        lemma_declare_params_from_preserves(declare_param(s, ids[i]), ids, i + 1, x);
    }
}

/// After declaring the parameters `ids[i..]`, each of them is present.
pub proof fn lemma_declare_params_from_contains(
    s: Seq<(ParamId, Seq<u64>)>,
    ids: Seq<ParamId>,
    i: int,
    k: int,
)
    requires
        0 <= i <= k < ids.len(),
    ensures
        store_contains(declare_params_from(s, ids, i), ids[k]),
    decreases ids.len() - i,
{
    lemma_declare_param_contains(s, ids[i], ids[i]);
    if k == i {
        lemma_declare_params_from_preserves(declare_param(s, ids[i]), ids, i + 1, ids[i]);
    } else {
        lemma_declare_params_from_contains(declare_param(s, ids[i]), ids, i + 1, k);
    }
}

/// Declaring parameters that are all already present changes nothing.
pub proof fn lemma_declare_params_from_noop(
    s: Seq<(ParamId, Seq<u64>)>,
    ids: Seq<ParamId>,
    i: int,
)
    requires
        forall|k: int| i <= k < ids.len() ==> store_contains(s, ids[k]),
    ensures
        declare_params_from(s, ids, i) == s,
    decreases ids.len() - i,
{
    if 0 <= i < ids.len() {
        assert(store_contains(s, ids[i]));
        assert(declare_param(s, ids[i]) == s);
        lemma_declare_params_from_noop(s, ids, i + 1);
    }
}

/// A freshly constructed store, after the model is built against it,
/// holds exactly the eight parameters in declaration order, each with
/// its default shape.
pub proof fn lemma_fresh_store_contents()
    ensures
        declare_model_params(Seq::<(ParamId, Seq<u64>)>::empty()) == model_param_ids().map(
            |i: int, id: ParamId| (id, param_dims(id)),
        ),
{
    let ids = model_param_ids();
    let t0 = Seq::<(ParamId, Seq<u64>)>::empty();
    let t1 = t0.push((ids[0], param_dims(ids[0])));
    let t2 = t1.push((ids[1], param_dims(ids[1])));
    let t3 = t2.push((ids[2], param_dims(ids[2])));
    let t4 = t3.push((ids[3], param_dims(ids[3])));
    let t5 = t4.push((ids[4], param_dims(ids[4])));
    let t6 = t5.push((ids[5], param_dims(ids[5])));
    let t7 = t6.push((ids[6], param_dims(ids[6])));
    let t8 = t7.push((ids[7], param_dims(ids[7])));
    assert(!store_contains(t0, ids[0]));
    assert(!store_contains(t1, ids[1])) by {
        assert(t1[0].0 == ids[0]);
    }
    assert(!store_contains(t2, ids[2])) by {
        assert(t2[0].0 == ids[0] && t2[1].0 == ids[1]);
    }
    assert(!store_contains(t3, ids[3])) by {
        assert(t3[0].0 == ids[0] && t3[1].0 == ids[1] && t3[2].0 == ids[2]);
    }
    assert(!store_contains(t4, ids[4])) by {
        assert(t4[0].0 == ids[0] && t4[1].0 == ids[1] && t4[2].0 == ids[2] && t4[3].0 == ids[3]);
    }
    assert(!store_contains(t5, ids[5])) by {
        assert(t5[0].0 == ids[0] && t5[1].0 == ids[1] && t5[2].0 == ids[2] && t5[3].0 == ids[3]
            && t5[4].0 == ids[4]);
    }
    assert(!store_contains(t6, ids[6])) by {
        assert(t6[0].0 == ids[0] && t6[1].0 == ids[1] && t6[2].0 == ids[2] && t6[3].0 == ids[3]
            && t6[4].0 == ids[4] && t6[5].0 == ids[5]);
    }
    assert(!store_contains(t7, ids[7])) by {
        assert(t7[0].0 == ids[0] && t7[1].0 == ids[1] && t7[2].0 == ids[2] && t7[3].0 == ids[3]
            && t7[4].0 == ids[4] && t7[5].0 == ids[5] && t7[6].0 == ids[6]);
    }
    assert(declare_params_from(t8, ids, 8) == t8);
    assert(declare_params_from(t7, ids, 7) == t8);
    assert(declare_params_from(t6, ids, 6) == t8);
    assert(declare_params_from(t5, ids, 5) == t8);
    assert(declare_params_from(t4, ids, 4) == t8);
    assert(declare_params_from(t3, ids, 3) == t8);
    assert(declare_params_from(t2, ids, 2) == t8);
    assert(declare_params_from(t1, ids, 1) == t8);
    assert(declare_params_from(t0, ids, 0) == t8);
    assert(t8 =~= ids.map(|i: int, id: ParamId| (id, param_dims(id))));
}

/// Checkpoint round trip at the store level: build the model against
/// any prior contents and save the store; loading the saved entries
/// into a fresh store and building the model again reproduces the
/// store unchanged, entry for entry. The tensor values ride along in
/// the engine's checkpoint under the same unique names.
pub proof fn lemma_checkpoint_round_trip(s: Seq<(ParamId, Seq<u64>)>)
    ensures
        declare_model_params(declare_model_params(s)) == declare_model_params(s),
{
    let ids = model_param_ids();
    let d = declare_model_params(s);
    assert forall|k: int| 0 <= k < ids.len() implies store_contains(d, ids[k]) by {
        lemma_declare_params_from_contains(s, ids, 0, k);
    }
    lemma_declare_params_from_noop(d, ids, 0);
}

impl ParamStore {
    /// A fresh, empty store.
    pub fn new() -> (r: ParamStore)
        ensures
            r@ == Seq::<(ParamId, Seq<u64>)>::empty(),
    {
        let r = ParamStore { entries: Vec::new() };
        proof {
            assert(r@ =~= Seq::<(ParamId, Seq<u64>)>::empty());
        }
        r
    }

    /// Number of registered parameters.
    pub fn len(&self) -> (n: usize)
        ensures
            n == self@.len(),
    {
        self.entries.len()
    }

    /// Whether a parameter with identity `id` is registered.
    pub fn contains_id(&self, id: ParamId) -> (r: bool)
        ensures
            r == store_contains(self@, id),
    {
        let mut i: usize = 0;
        while i < self.entries.len()
            invariant
                0 <= i <= self.entries.len(),
                forall|k: int| 0 <= k < i ==> self@[k].0 != id,
            decreases self.entries.len() - i,
        {
            if self.entries[i].id == id {
                proof {
                    assert(self@[i as int].0 == id);
                }
                return true;
            }
            i = i + 1;
        }
        false
    }

    /// Register a parameter: keep the existing entry when the identity
    /// is already present, otherwise append the new one. Uniqueness of
    /// identities is preserved either way.
    pub fn register(&mut self, id: ParamId, dims: Vec<u64>)
        ensures
            final(self)@ == declare_one_with(old(self)@, id, dims@),
            store_ids_unique(old(self)@) ==> store_ids_unique(final(self)@),
    {
        if !self.contains_id(id) {
            let ghost pre = self@;
            self.entries.push(ParamEntry { id, dims });
            proof {
                assert(self@ =~= pre.push((id, dims@)));
                if store_ids_unique(pre) {
                    assert forall|i: int, j: int|
                        0 <= i < j < self@.len() implies self@[i].0 != self@[j].0 by {
                        if j == self@.len() - 1 {
                            assert(self@[i].0 == pre[i].0);
                            assert(!store_contains(pre, id));
                        }
                    }
                }
            }
        }
    }
}

/// Registering `id` with shape `dims`: kept as is when present,
/// appended otherwise.
pub open spec fn declare_one_with(
    s: Seq<(ParamId, Seq<u64>)>,
    id: ParamId,
    dims: Seq<u64>,
) -> Seq<(ParamId, Seq<u64>)> {
    if store_contains(s, id) {
        s
    } else {
        s.push((id, dims))
    }
}

/// Build the model against the store: declare the eight parameters in
/// order, each with its default shape unless a checkpoint already
/// provided it, and hand back the forward pipeline.
pub fn declare_model(store: &mut ParamStore) -> (topology: Vec<crate::topology::Stage>)
    ensures
        final(store)@ == declare_model_params(old(store)@),
        store_ids_unique(old(store)@) ==> store_ids_unique(final(store)@),
        topology@ == crate::topology::model_stages(),
{
    let ghost ids = model_param_ids();
    let ghost s0 = store@;
    let l1w = ParamId { layer: LayerId::EncoderL1, kind: ParamKind::Weight };
    let l1b = ParamId { layer: LayerId::EncoderL1, kind: ParamKind::Bias };
    let l2w = ParamId { layer: LayerId::EncoderL2, kind: ParamKind::Weight };
    let l2b = ParamId { layer: LayerId::EncoderL2, kind: ParamKind::Bias };
    let d1w = ParamId { layer: LayerId::DecoderL1, kind: ParamKind::Weight };
    let d1b = ParamId { layer: LayerId::DecoderL1, kind: ParamKind::Bias };
    let d2w = ParamId { layer: LayerId::DecoderL2, kind: ParamKind::Weight };
    let d2b = ParamId { layer: LayerId::DecoderL2, kind: ParamKind::Bias };
    store.register(l1w, param_shape(l1w));
    let ghost s1 = store@;
    store.register(l1b, param_shape(l1b));
    let ghost s2 = store@;
    store.register(l2w, param_shape(l2w));
    let ghost s3 = store@;
    store.register(l2b, param_shape(l2b));
    let ghost s4 = store@;
    store.register(d1w, param_shape(d1w));
    let ghost s5 = store@;
    store.register(d1b, param_shape(d1b));
    let ghost s6 = store@;
    store.register(d2w, param_shape(d2w));
    let ghost s7 = store@;
    store.register(d2b, param_shape(d2b));
    let ghost s8 = store@;
    proof {
        assert(ids.len() == 8);
        assert(s1 == declare_param(s0, ids[0]));
        assert(s2 == declare_param(s1, ids[1]));
        assert(s3 == declare_param(s2, ids[2]));
        assert(s4 == declare_param(s3, ids[3]));
        assert(s5 == declare_param(s4, ids[4]));
        assert(s6 == declare_param(s5, ids[5]));
        assert(s7 == declare_param(s6, ids[6]));
        assert(s8 == declare_param(s7, ids[7]));
        assert(declare_params_from(s8, ids, 8) == s8);
        assert(declare_params_from(s7, ids, 7) == s8);
        assert(declare_params_from(s6, ids, 6) == s8);
        assert(declare_params_from(s5, ids, 5) == s8);
        assert(declare_params_from(s4, ids, 4) == s8);
        assert(declare_params_from(s3, ids, 3) == s8);
        assert(declare_params_from(s2, ids, 2) == s8);
        assert(declare_params_from(s1, ids, 1) == s8);
        assert(declare_params_from(s0, ids, 0) == s8);
    }
    crate::topology::model_topology()
}

} // verus!
