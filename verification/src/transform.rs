//! Affine transforms: a 3×3 basis plus a translation, composed down the
//! scene graph.

use vstd::prelude::*;

use crate::fixed::{fx_wf, Fx};
use crate::matrix3::{m3_wf, Matrix3};
use crate::vector3::{v3_wf, Vector3};

verus! {

/// An affine transform. Applied to a point it computes
/// `basis · p + translation`; composing transforms composes these maps.
#[derive(Clone, Copy, Debug, PartialEq, Eq, Structural)]
pub struct Transform {
    pub basis: Matrix3,
    pub translation: Vector3,
}

pub open spec fn transform_wf(t: Transform) -> bool {
    m3_wf(t.basis) && v3_wf(t.translation)
}

impl Transform {
    pub open spec fn spec_identity() -> Transform {
        Transform { basis: Matrix3::spec_identity(), translation: Vector3::spec_zero() }
    }

    pub fn identity() -> (r: Transform)
        ensures
            r == Transform::spec_identity(),
            transform_wf(r),
    {
        Transform { basis: Matrix3::identity(), translation: Vector3::zero() }
    }

    /// The local transform of a translation, Euler rotation (degrees) and
    /// scale: the rotation's columns scaled componentwise, translated by `t`.
    pub open spec fn spec_from_srt(t: Vector3, r: Vector3, s: Vector3) -> Transform {
        let rot = Matrix3::spec_rotation_matrix(r.x, r.y, r.z);
        Transform {
            basis: Matrix3 {
                a11: rot.a11.spec_mul(s.x),
                a12: rot.a12.spec_mul(s.y),
                a13: rot.a13.spec_mul(s.z),
                a21: rot.a21.spec_mul(s.x),
                a22: rot.a22.spec_mul(s.y),
                a23: rot.a23.spec_mul(s.z),
                a31: rot.a31.spec_mul(s.x),
                a32: rot.a32.spec_mul(s.y),
                a33: rot.a33.spec_mul(s.z),
            },
            translation: t,
        }
    }

    pub fn from_srt(t: &Vector3, r: &Vector3, s: &Vector3) -> (res: Transform)
        requires
            v3_wf(*t),
            v3_wf(*r),
            v3_wf(*s),
        ensures
            res == Transform::spec_from_srt(*t, *r, *s),
            transform_wf(res),
    {
        let rot = Matrix3::rotation_matrix(r.x, r.y, r.z);
        Transform {
            basis: Matrix3 {
                a11: rot.a11.mul(s.x),
                a12: rot.a12.mul(s.y),
                a13: rot.a13.mul(s.z),
                a21: rot.a21.mul(s.x),
                a22: rot.a22.mul(s.y),
                a23: rot.a23.mul(s.z),
                a31: rot.a31.mul(s.x),
                a32: rot.a32.mul(s.y),
                a33: rot.a33.mul(s.z),
            },
            translation: *t,
        }
    }

    /// The composition `parent ∘ local`: first the local map, then the
    /// parent's.
    pub open spec fn spec_compose(parent: Transform, local: Transform) -> Transform {
        Transform {
            basis: Matrix3::spec_mul_mat(parent.basis, local.basis),
            translation: Vector3::spec_sum(
                Matrix3::spec_mul_vector(parent.basis, local.translation),
                parent.translation,
            ),
        }
    }

    pub fn compose(parent: &Transform, local: &Transform) -> (r: Transform)
        requires
            transform_wf(*parent),
            transform_wf(*local),
        ensures
            r == Transform::spec_compose(*parent, *local),
            transform_wf(r),
    {
        let moved = parent.basis.mul_vector(&local.translation);
        Transform {
            basis: Matrix3::mul_mat(&parent.basis, &local.basis),
            translation: Vector3::sum(&moved, &parent.translation),
        }
    }
}

} // verus!
