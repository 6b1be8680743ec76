//! The scene: an arena of nodes, cameras, the per-frame transform update and
//! the nearest-hit search.

use vstd::prelude::*;

use crate::camera::{cam_wf, Camera};
use crate::fixed::{fx_wf, Fx};
use crate::node::{node_static_eq, node_wf, Node};
use crate::ray::{ray_wf, Ray};
use crate::renderable::{hit_wf, HitRecord};
use crate::transform::Transform;

verus! {

/// The render-time world: a forest of nodes in an arena addressed by index,
/// and the cameras. A node's parent always has a smaller index.
#[derive(Clone, Debug)]
pub struct Scene {
    pub nodes: Vec<Node>,
    pub cameras: Vec<Camera>,
}

pub open spec fn scene_wf(s: Scene) -> bool {
    &&& forall|i: int| 0 <= i < s.nodes@.len() ==> node_wf(#[trigger] s.nodes@[i])
    &&& forall|i: int|
        0 <= i < s.nodes@.len() && (#[trigger] s.nodes@[i]).parent is Some
            ==> (s.nodes@[i].parent->Some_0 as int) < i
    &&& forall|i: int| 0 <= i < s.cameras@.len() ==> cam_wf(#[trigger] s.cameras@[i])
}

/// The world transform node `i` carries after the update for frame `f`: its
/// animated local transform, composed under its parent's world transform.
/// Recursion terminates because parents precede children in the arena.
pub open spec fn spec_world_transform(s: Scene, f: Fx, i: int) -> Transform
    decreases i,
{
    if 0 <= i < s.nodes@.len() {
        let n = s.nodes@[i];
        match n.parent {
            Some(p) => if (p as int) < i {
                Transform::spec_compose(
                    spec_world_transform(s, f, p as int),
                    n.spec_local_transform_at(f),
                )
            } else {
                n.spec_local_transform_at(f)
            },
            None => n.spec_local_transform_at(f),
        }
    } else {
        Transform::spec_identity()
    }
}

/// How one node narrows the best hit found so far: a node without a
/// renderable changes nothing; otherwise the primitive is intersected with
/// `t_max` narrowed to the closest hit so far, and a strictly closer hit
/// replaces it (ties keep the earlier hit).
pub open spec fn spec_trace_child(
    node: Node,
    ray: Ray,
    t_min: Fx,
    t_max: Fx,
    hit_opt: Option<HitRecord>,
    f: Fx,
) -> Option<HitRecord> {
    match node.renderable {
        None => hit_opt,
        Some(rend) => {
            let cur_max = match hit_opt {
                Some(h) => h.t,
                None => t_max,
            };
            match rend.spec_trace(ray, t_min, cur_max, f) {
                None => hit_opt,
                Some(nh) => match hit_opt {
                    None => Some(nh),
                    Some(h) => if nh.t.raw < h.t.raw {
                        Some(nh)
                    } else {
                        Some(h)
                    },
                },
            }
        },
    }
}

/// The best hit after scanning the first `n` nodes in arena order.
pub open spec fn spec_trace_upto(
    s: Scene,
    ray: Ray,
    t_min: Fx,
    t_max: Fx,
    f: Fx,
    n: int,
) -> Option<HitRecord>
    decreases n,
{
    if n <= 0 {
        None
    } else {
        let prev = spec_trace_upto(s, ray, t_min, t_max, f, n - 1);
        spec_trace_child(s.nodes@[n - 1], ray, t_min, t_max, prev, f)
    }
}

/// What tracing the whole scene returns.
pub open spec fn spec_scene_trace(s: Scene, ray: Ray, t_min: Fx, t_max: Fx, f: Fx) -> Option<
    HitRecord,
> {
    spec_trace_upto(s, ray, t_min, t_max, f, s.nodes@.len() as int)
}

impl Scene {
    pub fn new() -> (r: Scene)
        ensures
            r.nodes@.len() == 0,
            r.cameras@.len() == 0,
            scene_wf(r),
    {
        Scene { nodes: Vec::new(), cameras: Vec::new() }
    }

    /// Add a root node to the forest and return its index.
    pub fn add_child(&mut self, child: Node) -> (idx: usize)
        requires
            scene_wf(*old(self)),
            node_wf(child),
            child.parent is None,
        ensures
            final(self).nodes@ == old(self).nodes@.push(child),
            final(self).cameras@ == old(self).cameras@,
            idx == old(self).nodes@.len(),
            scene_wf(*final(self)),
    {
        let idx = self.nodes.len();
        self.nodes.push(child);
        idx
    }

    /// Add a node as a child of `parent`: the node joins the arena with its
    /// parent link set, and the parent's child list gains the new index.
    pub fn add_child_to(&mut self, parent: usize, child: Node) -> (idx: usize)
        requires
            scene_wf(*old(self)),
            node_wf(child),
            parent < old(self).nodes@.len(),
        ensures
            idx == old(self).nodes@.len(),
            final(self).nodes@.len() == old(self).nodes@.len() + 1,
            final(self).nodes@[idx as int] == (Node { parent: Some(parent), ..child }),
            ({
                let pn = final(self).nodes@[parent as int];
                let on = old(self).nodes@[parent as int];
                pn.children@ == on.children@.push(idx) && pn == (Node {
                    children: pn.children,
                    ..on
                })
            }),
            forall|k: int|
                0 <= k < old(self).nodes@.len() && k != parent ==> final(self).nodes@[k] == old(
                    self,
                ).nodes@[k],
            final(self).cameras@ == old(self).cameras@,
            scene_wf(*final(self)),
    {
        let idx = self.nodes.len();
        let mut c = child;
        c.set_parent(parent);
        self.nodes.push(c);
        self.nodes[parent].children.push(idx);
        idx
    }

    pub fn add_camera(&mut self, camera: Camera)
        requires
            scene_wf(*old(self)),
            cam_wf(camera),
        ensures
            final(self).cameras@ == old(self).cameras@.push(camera),
            final(self).nodes@ == old(self).nodes@,
            scene_wf(*final(self)),
    {
        self.cameras.push(camera);
    }

    pub fn get_camera(&self, index: usize) -> (r: Option<&Camera>)
        ensures
            r == if (index as int) < self.cameras@.len() {
                Some(&self.cameras@[index as int])
            } else {
                None::<&Camera>
            },
    {
        if index < self.cameras.len() {
            Some(&self.cameras[index])
        } else {
            None
        }
    }

    /// Recompute every node's world transform for frame `f`, parents before
    /// children, leaving all other node data untouched.
    #[verifier::rlimit(100)]
    pub fn update_transforms(&mut self, f: Fx)
        requires
            scene_wf(*old(self)),
            fx_wf(f),
        ensures
            final(self).nodes@.len() == old(self).nodes@.len(),
            final(self).cameras@ == old(self).cameras@,
            forall|k: int|
                0 <= k < old(self).nodes@.len() ==> node_static_eq(
                    #[trigger] final(self).nodes@[k],
                    old(self).nodes@[k],
                ),
            forall|k: int|
                0 <= k < old(self).nodes@.len() ==> (#[trigger] final(self).nodes@[k]).transform
                    == spec_world_transform(*old(self), f, k),
            scene_wf(*final(self)),
    {
        let n = self.nodes.len();
        let mut i: usize = 0;
        while i < n
            invariant
                0 <= i <= n,
                n == self.nodes@.len(),
                self.nodes@.len() == old(self).nodes@.len(),
                self.cameras@ == old(self).cameras@,
                fx_wf(f),
                scene_wf(*old(self)),
                forall|k: int|
                    0 <= k < n ==> node_static_eq(
                        #[trigger] self.nodes@[k],
                        old(self).nodes@[k],
                    ),
                forall|k: int| i <= k < n ==> #[trigger] self.nodes@[k] == old(self).nodes@[k],
                forall|k: int|
                    0 <= k < i ==> (#[trigger] self.nodes@[k]).transform == spec_world_transform(
                        *old(self),
                        f,
                        k,
                    ),
                forall|k: int| 0 <= k < n ==> node_wf(#[trigger] self.nodes@[k]),
            decreases n - i,
        {
            let parent_opt = self.nodes[i].parent;
            let pt: Option<Transform> = match parent_opt {
                Some(p) => {
                    proof {
                        assert(node_static_eq(self.nodes@[i as int], old(self).nodes@[i as int]));
                        assert(old(self).nodes@[i as int].parent is Some);
                    }
                    Some(self.nodes[p].transform)
                },
                None => None,
            };
            let ghost before = self.nodes@[i as int];
            match &pt {
                Some(t) => self.nodes[i].update_transforms_per_frame(f, Some(t)),
                None => self.nodes[i].update_transforms_per_frame(f, None),
            }
            proof {
                assert(node_static_eq(before, old(self).nodes@[i as int]));
                crate::node::lemma_local_transform_congruence(
                    before,
                    old(self).nodes@[i as int],
                    f,
                );
                assert(self.nodes@[i as int].transform == spec_world_transform(
                    *old(self),
                    f,
                    i as int,
                ));
            }
            i += 1;
        }
    }

    fn trace_child(
        node: &Node,
        ray: &Ray,
        t_min: Fx,
        t_max: Fx,
        hit_opt: Option<HitRecord>,
        f: Fx,
    ) -> (r: Option<HitRecord>)
        requires
            node_wf(*node),
            ray_wf(*ray),
            fx_wf(t_min),
            fx_wf(t_max),
            fx_wf(f),
            hit_opt is Some ==> hit_wf(hit_opt->Some_0),
            hit_opt is Some ==> t_min.raw <= hit_opt->Some_0.t.raw <= t_max.raw,
        ensures
            r == spec_trace_child(*node, *ray, t_min, t_max, hit_opt, f),
            r is Some ==> hit_wf(r->Some_0),
            r is Some ==> t_min.raw <= r->Some_0.t.raw <= t_max.raw,
    {
        match &node.renderable {
            None => hit_opt,
            Some(rend) => {
                let cur_max = match &hit_opt {
                    Some(h) => h.t,
                    None => t_max,
                };
                let new_hit_opt = rend.trace(ray, t_min, cur_max, f);
                match new_hit_opt {
                    None => hit_opt,
                    Some(nh) => match hit_opt {
                        None => Some(nh),
                        Some(h) => if nh.t.raw < h.t.raw {
                            Some(nh)
                        } else {
                            Some(h)
                        },
                    },
                }
            },
        }
    }

    /// Find the closest hit of `ray` in `[t_min, t_max]` for frame `f` by a
    /// linear scan of the arena, narrowing `t_max` to the best hit so far;
    /// ties on the exact same distance keep the earlier node's hit.
    pub fn trace(&self, ray: &Ray, t_min: Fx, t_max: Fx, f: Fx) -> (r: Option<HitRecord>)
        requires
            scene_wf(*self),
            ray_wf(*ray),
            fx_wf(t_min),
            fx_wf(t_max),
            fx_wf(f),
        ensures
            r == spec_scene_trace(*self, *ray, t_min, t_max, f),
            r is Some ==> hit_wf(r->Some_0),
            r is Some ==> t_min.raw <= r->Some_0.t.raw <= t_max.raw,
    {
        let n = self.nodes.len();
        let mut hit_opt: Option<HitRecord> = None;
        let mut i: usize = 0;
        while i < n
            invariant
                0 <= i <= n,
                n == self.nodes@.len(),
                scene_wf(*self),
                ray_wf(*ray),
                fx_wf(t_min),
                fx_wf(t_max),
                fx_wf(f),
                hit_opt == spec_trace_upto(*self, *ray, t_min, t_max, f, i as int),
                hit_opt is Some ==> hit_wf(hit_opt->Some_0),
                hit_opt is Some ==> t_min.raw <= hit_opt->Some_0.t.raw <= t_max.raw,
            decreases n - i,
        {
            hit_opt = Scene::trace_child(&self.nodes[i], ray, t_min, t_max, hit_opt, f);
            i += 1;
        }
        hit_opt
    }
}

/// Transform updates do not drift: the world transforms of a frame are a
/// function of the nodes' static data alone, which the update leaves
/// untouched, so updating twice with the same frame yields the same world
/// transforms as updating once.
pub proof fn lemma_update_transforms_idempotent(a: Scene, b: Scene, f: Fx, i: int)
    requires
        a.nodes@.len() == b.nodes@.len(),
        forall|k: int|
            0 <= k < a.nodes@.len() ==> node_static_eq(
                #[trigger] a.nodes@[k],
                b.nodes@[k],
            ),
    ensures
        spec_world_transform(a, f, i) == spec_world_transform(b, f, i),
    decreases i,
{
    if 0 <= i < a.nodes@.len() {
        assert(node_static_eq(a.nodes@[i], b.nodes@[i]));
        crate::node::lemma_local_transform_congruence(a.nodes@[i], b.nodes@[i], f);
        match a.nodes@[i].parent {
            Some(p) => {
                if (p as int) < i {
                    lemma_update_transforms_idempotent(a, b, f, p as int);
                }
            },
            None => {},
        }
    }
}

} // verus!
