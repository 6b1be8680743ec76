//! Scene-graph nodes.
//!
//! Nodes live in an arena owned by the scene and refer to each other by
//! index: a node's parent always has a smaller index, so a single in-order
//! pass updates every world transform after its parent's and cycles are
//! structurally impossible.

use vstd::prelude::*;

use crate::animation::{channel_wf, opt_channel_wf, spec_axis_value, AnimationChannel};
use crate::fixed::{fx_wf, Fx};
use crate::renderable::{renderable_wf, Renderable};
use crate::transform::{transform_wf, Transform};
use crate::vector3::{v3_wf, Vector3};

verus! {

/// The animatable scalar slots of a node: one per axis of the translation,
/// rotation and scale.
#[derive(Clone, Copy, Debug, PartialEq, Eq, Structural)]
pub enum NodeChannelTarget {
    TranslationX,
    TranslationY,
    TranslationZ,
    RotationX,
    RotationY,
    RotationZ,
    ScaleX,
    ScaleY,
    ScaleZ,
}

/// One scene-graph element: an optional renderable, static
/// translation/rotation/scale with their optional animation channels, the
/// derived world transform, and parent/child links by arena index.
#[derive(Clone, Debug)]
pub struct Node {
    pub renderable: Option<Renderable>,
    pub translation: Vector3,
    pub rotation: Vector3,
    pub scale: Vector3,
    pub transform: Transform,
    pub ch_translation_x: Option<AnimationChannel>,
    pub ch_translation_y: Option<AnimationChannel>,
    pub ch_translation_z: Option<AnimationChannel>,
    pub ch_rotation_x: Option<AnimationChannel>,
    pub ch_rotation_y: Option<AnimationChannel>,
    pub ch_rotation_z: Option<AnimationChannel>,
    pub ch_scale_x: Option<AnimationChannel>,
    pub ch_scale_y: Option<AnimationChannel>,
    pub ch_scale_z: Option<AnimationChannel>,
    pub parent: Option<usize>,
    pub children: Vec<usize>,
}

pub open spec fn node_wf(n: Node) -> bool {
    &&& match n.renderable {
        Some(r) => renderable_wf(r),
        None => true,
    }
    &&& v3_wf(n.translation) && v3_wf(n.rotation) && v3_wf(n.scale)
    &&& transform_wf(n.transform)
    &&& opt_channel_wf(n.ch_translation_x) && opt_channel_wf(n.ch_translation_y)
        && opt_channel_wf(n.ch_translation_z)
    &&& opt_channel_wf(n.ch_rotation_x) && opt_channel_wf(n.ch_rotation_y) && opt_channel_wf(
        n.ch_rotation_z,
    )
    &&& opt_channel_wf(n.ch_scale_x) && opt_channel_wf(n.ch_scale_y) && opt_channel_wf(
        n.ch_scale_z,
    )
}

/// Everything but the derived transform and the links: what the per-frame
/// transform update reads.
pub open spec fn node_static_eq(a: Node, b: Node) -> bool {
    &&& a.translation == b.translation && a.rotation == b.rotation && a.scale == b.scale
    &&& a.ch_translation_x == b.ch_translation_x && a.ch_translation_y == b.ch_translation_y
        && a.ch_translation_z == b.ch_translation_z
    &&& a.ch_rotation_x == b.ch_rotation_x && a.ch_rotation_y == b.ch_rotation_y
        && a.ch_rotation_z == b.ch_rotation_z
    &&& a.ch_scale_x == b.ch_scale_x && a.ch_scale_y == b.ch_scale_y && a.ch_scale_z
        == b.ch_scale_z
    &&& a.parent == b.parent
    &&& a.renderable == b.renderable
    &&& a.children == b.children
}

/// Two nodes with the same static data have the same local transform at
/// every frame.
pub proof fn lemma_local_transform_congruence(a: Node, b: Node, f: Fx)
    requires
        node_static_eq(a, b),
    ensures
        a.spec_local_transform_at(f) == b.spec_local_transform_at(f),
{
    assert(a.spec_animated_translation(f) == b.spec_animated_translation(f));
    assert(a.spec_animated_rotation(f) == b.spec_animated_rotation(f));
    assert(a.spec_animated_scale(f) == b.spec_animated_scale(f));
}

impl Node {
    /// A fresh unlinked node: identity transform, unit scale, no renderable.
    pub fn new() -> (r: Node)
        ensures
            r.renderable is None,
            r.translation == Vector3::spec_zero(),
            r.rotation == Vector3::spec_zero(),
            r.scale == (Vector3 { x: Fx { raw: 65536 }, y: Fx { raw: 65536 }, z: Fx { raw: 65536 } }),
            r.transform == Transform::spec_identity(),
            r.ch_translation_x is None && r.ch_translation_y is None && r.ch_translation_z is None,
            r.ch_rotation_x is None && r.ch_rotation_y is None && r.ch_rotation_z is None,
            r.ch_scale_x is None && r.ch_scale_y is None && r.ch_scale_z is None,
            r.parent is None,
            r.children@.len() == 0,
            node_wf(r),
    {
        Node {
            renderable: None,
            translation: Vector3::zero(),
            rotation: Vector3::zero(),
            scale: Vector3 { x: Fx { raw: 65536 }, y: Fx { raw: 65536 }, z: Fx { raw: 65536 } },
            transform: Transform::identity(),
            ch_translation_x: None,
            ch_translation_y: None,
            ch_translation_z: None,
            ch_rotation_x: None,
            ch_rotation_y: None,
            ch_rotation_z: None,
            ch_scale_x: None,
            ch_scale_y: None,
            ch_scale_z: None,
            parent: None,
            children: Vec::new(),
        }
    }

    pub fn set_parent(&mut self, p: usize)
        ensures
            *final(self) == (Node { parent: Some(p), ..*old(self) }),
    {
        self.parent = Some(p);
    }

    pub fn get_parent(&self) -> (r: Option<usize>)
        ensures
            r == self.parent,
    {
        self.parent
    }

    pub fn get_children(&self) -> (r: &Vec<usize>)
        ensures
            *r == self.children,
    {
        &self.children
    }

    /// The node's local transform from its static values.
    pub open spec fn spec_local_transform(self) -> Transform {
        Transform::spec_from_srt(self.translation, self.rotation, self.scale)
    }

    /// Set the translation and rebuild the (local) transform.
    pub fn set_translation(&mut self, t: Vector3)
        requires
            node_wf(*old(self)),
            v3_wf(t),
        ensures
            *final(self) == (Node {
                translation: t,
                transform: (Node { translation: t, ..*old(self) }).spec_local_transform(),
                ..*old(self)
            }),
            node_wf(*final(self)),
    {
        self.translation = t;
        self.transform = Transform::from_srt(&self.translation, &self.rotation, &self.scale);
    }

    /// Set the Euler rotation (degrees) and rebuild the (local) transform.
    pub fn set_rotation(&mut self, r: Vector3)
        requires
            node_wf(*old(self)),
            v3_wf(r),
        ensures
            *final(self) == (Node {
                rotation: r,
                transform: (Node { rotation: r, ..*old(self) }).spec_local_transform(),
                ..*old(self)
            }),
            node_wf(*final(self)),
    {
        self.rotation = r;
        self.transform = Transform::from_srt(&self.translation, &self.rotation, &self.scale);
    }

    /// Set the scale and rebuild the (local) transform.
    pub fn set_scale(&mut self, s: Vector3)
        requires
            node_wf(*old(self)),
            v3_wf(s),
        ensures
            *final(self) == (Node {
                scale: s,
                transform: (Node { scale: s, ..*old(self) }).spec_local_transform(),
                ..*old(self)
            }),
            node_wf(*final(self)),
    {
        self.scale = s;
        self.transform = Transform::from_srt(&self.translation, &self.rotation, &self.scale);
    }

    /// Rebuild the (local) transform from the static values.
    pub fn update_transform_matrix(&mut self)
        requires
            node_wf(*old(self)),
        ensures
            *final(self) == (Node { transform: old(self).spec_local_transform(), ..*old(self) }),
            node_wf(*final(self)),
    {
        self.transform = Transform::from_srt(&self.translation, &self.rotation, &self.scale);
    }

    /// Attach `ch` to the slot `target`, replacing any channel already there.
    pub fn set_animation_channel(&mut self, target: NodeChannelTarget, ch: AnimationChannel)
        requires
            node_wf(*old(self)),
            channel_wf(ch),
        ensures
            final(self).ch_translation_x == if target is TranslationX {
                Some(ch)
            } else {
                old(self).ch_translation_x
            },
            final(self).ch_translation_y == if target is TranslationY {
                Some(ch)
            } else {
                old(self).ch_translation_y
            },
            final(self).ch_translation_z == if target is TranslationZ {
                Some(ch)
            } else {
                old(self).ch_translation_z
            },
            final(self).ch_rotation_x == if target is RotationX {
                Some(ch)
            } else {
                old(self).ch_rotation_x
            },
            final(self).ch_rotation_y == if target is RotationY {
                Some(ch)
            } else {
                old(self).ch_rotation_y
            },
            final(self).ch_rotation_z == if target is RotationZ {
                Some(ch)
            } else {
                old(self).ch_rotation_z
            },
            final(self).ch_scale_x == if target is ScaleX {
                Some(ch)
            } else {
                old(self).ch_scale_x
            },
            final(self).ch_scale_y == if target is ScaleY {
                Some(ch)
            } else {
                old(self).ch_scale_y
            },
            final(self).ch_scale_z == if target is ScaleZ {
                Some(ch)
            } else {
                old(self).ch_scale_z
            },
            final(self).renderable == old(self).renderable,
            final(self).translation == old(self).translation,
            final(self).rotation == old(self).rotation,
            final(self).scale == old(self).scale,
            final(self).transform == old(self).transform,
            final(self).parent == old(self).parent,
            final(self).children == old(self).children,
            node_wf(*final(self)),
    {
        match target {
            NodeChannelTarget::TranslationX => self.ch_translation_x = Some(ch),
            NodeChannelTarget::TranslationY => self.ch_translation_y = Some(ch),
            NodeChannelTarget::TranslationZ => self.ch_translation_z = Some(ch),
            NodeChannelTarget::RotationX => self.ch_rotation_x = Some(ch),
            NodeChannelTarget::RotationY => self.ch_rotation_y = Some(ch),
            NodeChannelTarget::RotationZ => self.ch_rotation_z = Some(ch),
            NodeChannelTarget::ScaleX => self.ch_scale_x = Some(ch),
            NodeChannelTarget::ScaleY => self.ch_scale_y = Some(ch),
            NodeChannelTarget::ScaleZ => self.ch_scale_z = Some(ch),
        }
    }

    pub fn get_transform_matrix(&self) -> (r: &Transform)
        ensures
            *r == self.transform,
    {
        &self.transform
    }

    /// The animated translation, rotation and scale for frame `f`, each axis
    /// falling back to its static value.
    pub open spec fn spec_animated_translation(self, f: Fx) -> Vector3 {
        Vector3 {
            x: spec_axis_value(self.ch_translation_x, f, self.translation.x),
            y: spec_axis_value(self.ch_translation_y, f, self.translation.y),
            z: spec_axis_value(self.ch_translation_z, f, self.translation.z),
        }
    }

    pub open spec fn spec_animated_rotation(self, f: Fx) -> Vector3 {
        Vector3 {
            x: spec_axis_value(self.ch_rotation_x, f, self.rotation.x),
            y: spec_axis_value(self.ch_rotation_y, f, self.rotation.y),
            z: spec_axis_value(self.ch_rotation_z, f, self.rotation.z),
        }
    }

    pub open spec fn spec_animated_scale(self, f: Fx) -> Vector3 {
        Vector3 {
            x: spec_axis_value(self.ch_scale_x, f, self.scale.x),
            y: spec_axis_value(self.ch_scale_y, f, self.scale.y),
            z: spec_axis_value(self.ch_scale_z, f, self.scale.z),
        }
    }

    /// The node's local transform for frame `f`, from the animated values.
    pub open spec fn spec_local_transform_at(self, f: Fx) -> Transform {
        Transform::spec_from_srt(
            self.spec_animated_translation(f),
            self.spec_animated_rotation(f),
            self.spec_animated_scale(f),
        )
    }

    /// Recompute this node's world transform for frame `f`: the animated
    /// local transform, composed under the parent's already-updated world
    /// transform when there is one.
    pub fn update_transforms_per_frame(&mut self, f: Fx, parent_transform: Option<&Transform>)
        requires
            node_wf(*old(self)),
            fx_wf(f),
            match parent_transform {
                Some(t) => transform_wf(*t),
                None => true,
            },
        ensures
            *final(self) == (Node {
                transform: match parent_transform {
                    Some(t) => Transform::spec_compose(*t, old(self).spec_local_transform_at(f)),
                    None => old(self).spec_local_transform_at(f),
                },
                ..*old(self)
            }),
            node_wf(*final(self)),
    {
        let t = AnimationChannel::get_vector_by_frame(
            self.ch_translation_x.as_ref(),
            self.ch_translation_y.as_ref(),
            self.ch_translation_z.as_ref(),
            &self.translation,
            f,
        );
        let r = AnimationChannel::get_vector_by_frame(
            self.ch_rotation_x.as_ref(),
            self.ch_rotation_y.as_ref(),
            self.ch_rotation_z.as_ref(),
            &self.rotation,
            f,
        );
        let s = AnimationChannel::get_vector_by_frame(
            self.ch_scale_x.as_ref(),
            self.ch_scale_y.as_ref(),
            self.ch_scale_z.as_ref(),
            &self.scale,
            f,
        );
        let m = Transform::from_srt(&t, &r, &s);
        match parent_transform {
            Some(pm) => {
                self.transform = Transform::compose(pm, &m);
            },
            None => {
                self.transform = m;
            },
        }
    }

    pub fn set_renderable(&mut self, r: Renderable)
        ensures
            *final(self) == (Node { renderable: Some(r), ..*old(self) }),
    {
        self.renderable = Some(r);
    }

    pub fn renderable(&self) -> (r: &Option<Renderable>)
        ensures
            *r == self.renderable,
    {
        &self.renderable
    }
}

} // verus!
