//! Which views a splat is drawn in, and with which pipeline key.

use vstd::prelude::*;
use crate::pipeline::{blend_key, blend_key_spec, BlendKey};
use crate::gpu_material::GpuSplatMaterial;
use crate::splat_material::{SplatBlend, SplatMaterial};

verus! {

/// The render layers of a view or an entity, as the layer numbers it is on.
#[derive(Debug)]
pub struct RenderLayerSet {
    pub layers: Vec<usize>,
}

impl View for RenderLayerSet {
    type V = Set<usize>;

    open spec fn view(&self) -> Set<usize> {
        self.layers@.to_set()
    }
}

/// Whether two sets of layers share a layer.
pub open spec fn share_layer(a: Set<usize>, b: Set<usize>) -> bool {
    exists|l: usize| a.contains(l) && b.contains(l)
}

impl RenderLayerSet {
    /// Layer 0 alone: the layers of a view or entity that names none.
    pub fn default_layers() -> (s: Self)
        ensures
            s@ == set![0usize],
    {
        let s = RenderLayerSet { layers: vec![0] };
        proof {
            assert forall|l: usize| s@.contains(l) == set![0usize].contains(l) by {
                if l == 0 {
                    assert(s.layers@[0] == 0);
                }
            }
            assert(s@ =~= set![0usize]);
        }
        s
    }

    /// Whether `l` is one of the layers.
    pub fn contains(&self, l: usize) -> (b: bool)
        ensures
            b == self@.contains(l),
    {
        let n: usize = self.layers.len();
        let mut i: usize = 0;
        while i < n
            invariant
                n == self.layers@.len(),
                i <= n,
                forall|j: int| 0 <= j < i ==> self.layers@[j] != l,
            decreases n - i,
        {
            if self.layers[i] == l {
                assert(self.layers@[i as int] == l);
                return true;
            }
            i = i + 1;
        }
        false
    }

    /// Whether the two sets share a layer.
    pub fn intersects(&self, other: &RenderLayerSet) -> (b: bool)
        ensures
            b == share_layer(self@, other@),
            b == exists|l: usize| self@.contains(l) && other@.contains(l),
    {
        let n: usize = self.layers.len();
        let mut i: usize = 0;
        while i < n
            invariant
                n == self.layers@.len(),
                i <= n,
                forall|j: int| 0 <= j < i ==> !other@.contains(#[trigger] self.layers@[j]),
            decreases n - i,
        {
            let l: usize = self.layers[i];
            if other.contains(l) {
                assert(self@.contains(self.layers@[i as int]));
                return true;
            }
            i = i + 1;
        }
        proof {
            if share_layer(self@, other@) {
                let l = choose|l: usize| self@.contains(l) && other@.contains(l);
                let j = choose|j: int| 0 <= j < self.layers@.len() && self.layers@[j] == l;
                assert(!other@.contains(self.layers@[j]));
            }
        }
        false
    }
}

impl Default for RenderLayerSet {
    fn default() -> (s: Self)
        ensures
            s@ == set![0usize],
    {
        RenderLayerSet::default_layers()
    }
}

/// The layers an entity or view is on: the given ones, or layer 0 alone
/// when none are given.
pub fn layers_or_default(layers: Option<RenderLayerSet>) -> (s: RenderLayerSet)
    ensures
        layers is None ==> s@ == set![0usize],
        layers is Some ==> s@ == layers->0@,
{
    match layers {
        Some(l) => l,
        None => RenderLayerSet::default_layers(),
    }
}

/// Whether a splat is drawn in a view and with which blend setting in the
/// pipeline key: only when the two share a render layer, keyed by the
/// splat's blend mode.
pub fn queue_blend_key(view_layers: &RenderLayerSet, splat_layers: &RenderLayerSet, blend: SplatBlend) -> (k: Option<BlendKey>)
    ensures
        k == if share_layer(view_layers@, splat_layers@) {
            Some(blend_key_spec(blend))
        } else {
            None
        },
        k is Some == exists|l: usize| view_layers@.contains(l) && splat_layers@.contains(l),
{
    if view_layers.intersects(splat_layers) {
        Some(blend_key(blend))
    } else {
        None
    }
}

/// What the render world keeps of a splat entity's settings each frame:
/// its uniform, its blend mode and its render layers.
#[derive(Debug)]
pub struct ExtractedSplatParams {
    pub uniform: GpuSplatMaterial,
    pub blend: SplatBlend,
    pub render_layers: RenderLayerSet,
}

/// The settings extracted for an entity: none while its material is not
/// available; otherwise the material's uniform at the entity's transform,
/// its blend mode, and the entity's layers (layer 0 when it names none).
pub fn extract_splat_params(
    material: Option<&SplatMaterial>,
    world_from_local: [u32; 16],
    render_layers: Option<RenderLayerSet>,
) -> (p: Option<ExtractedSplatParams>)
    ensures
        material is None ==> p is None,
        material is Some ==> p is Some && p->0.blend == material->0.blend
            && p->0.uniform == GpuSplatMaterial::new_spec(*material->0, world_from_local)
            && (render_layers is None ==> p->0.render_layers@ == set![0usize])
            && (render_layers is Some ==> p->0.render_layers@ == render_layers->0@),
{
    match material {
        None => None,
        Some(m) => Some(ExtractedSplatParams {
            uniform: GpuSplatMaterial::new(m, world_from_local),
            blend: m.blend,
            render_layers: layers_or_default(render_layers),
        }),
    }
}

/// A splat queued in a view: the blend setting of its pipeline key and the
/// translation (as `f32` bit patterns) it is sorted by.
#[derive(Clone, Copy, Debug, PartialEq, Eq)]
pub struct QueuedSplat {
    pub key: BlendKey,
    pub translation: [u32; 3],
}

/// Whether a splat is queued in a view with layers `view_layers`: only when
/// they share a layer with the splat's, keyed by its blend mode and sorted
/// by the translation of its world transform.
pub fn queue_splat(view_layers: &RenderLayerSet, splat: &ExtractedSplatParams) -> (q: Option<QueuedSplat>)
    ensures
        q is Some == share_layer(view_layers@, splat.render_layers@),
        q is Some ==> q->0.key == blend_key_spec(splat.blend)
            && q->0.translation@ == seq![
                splat.uniform.world_from_local@[12],
                splat.uniform.world_from_local@[13],
                splat.uniform.world_from_local@[14],
            ],
{
    match queue_blend_key(view_layers, &splat.render_layers, splat.blend) {
        None => None,
        Some(key) => Some(QueuedSplat { key, translation: splat.uniform.translation() }),
    }
}

/// A splat is queued in a view exactly when some layer is on both: any
/// common layer, whichever it is, is enough; with none in common it is not
/// queued; and which of the two sets is the view's does not matter.
pub proof fn law_queued_on_any_common_layer(a: Set<usize>, b: Set<usize>, l: usize)
    ensures
        a.contains(l) && b.contains(l) ==> share_layer(a, b),
        !share_layer(a, b) ==> !(a.contains(l) && b.contains(l)),
        share_layer(a, b) == share_layer(b, a),
{
    if a.contains(l) && b.contains(l) {
        assert(a.contains(l) && b.contains(l));
    }
    if share_layer(a, b) {
        let m = choose|m: usize| a.contains(m) && b.contains(m);
        assert(b.contains(m) && a.contains(m));
    }
    if share_layer(b, a) {
        let m = choose|m: usize| b.contains(m) && a.contains(m);
        assert(a.contains(m) && b.contains(m));
    }
}

} // verus!
