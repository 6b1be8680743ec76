//! 3×3 matrices: rotation construction and vector application.

use vstd::prelude::*;

use crate::fixed::{fx_wf, Fx};
use crate::trig::{spec_cos, spec_deg_to_rad, spec_sin};
use crate::vector3::{v3_wf, Vector3};

verus! {

/// A row-major 3×3 matrix of scalars.
#[derive(Clone, Copy, Debug, PartialEq, Eq, Structural)]
pub struct Matrix3 {
    pub a11: Fx,
    pub a12: Fx,
    pub a13: Fx,
    pub a21: Fx,
    pub a22: Fx,
    pub a23: Fx,
    pub a31: Fx,
    pub a32: Fx,
    pub a33: Fx,
}

pub open spec fn m3_wf(m: Matrix3) -> bool {
    &&& fx_wf(m.a11) && fx_wf(m.a12) && fx_wf(m.a13)
    &&& fx_wf(m.a21) && fx_wf(m.a22) && fx_wf(m.a23)
    &&& fx_wf(m.a31) && fx_wf(m.a32) && fx_wf(m.a33)
}

impl Matrix3 {
    pub open spec fn spec_identity() -> Matrix3 {
        Matrix3 {
            a11: Fx { raw: 65536 },
            a12: Fx { raw: 0 },
            a13: Fx { raw: 0 },
            a21: Fx { raw: 0 },
            a22: Fx { raw: 65536 },
            a23: Fx { raw: 0 },
            a31: Fx { raw: 0 },
            a32: Fx { raw: 0 },
            a33: Fx { raw: 65536 },
        }
    }

    pub fn identity() -> (r: Matrix3)
        ensures
            r == Matrix3::spec_identity(),
            m3_wf(r),
    {
        Matrix3 {
            a11: Fx { raw: 65536 },
            a12: Fx { raw: 0 },
            a13: Fx { raw: 0 },
            a21: Fx { raw: 0 },
            a22: Fx { raw: 65536 },
            a23: Fx { raw: 0 },
            a31: Fx { raw: 0 },
            a32: Fx { raw: 0 },
            a33: Fx { raw: 65536 },
        }
    }

    /// The intrinsic z·y·x Euler rotation for angles given in degrees.
    /// Opaque: callers relate rotations by congruence, not by the entries.
    #[verifier::opaque]
    pub open spec fn spec_rotation_matrix(x: Fx, y: Fx, z: Fx) -> Matrix3 {
        let rx = spec_deg_to_rad(x);
        let ry = spec_deg_to_rad(y);
        let rz = spec_deg_to_rad(z);
        let sinx = spec_sin(rx);
        let siny = spec_sin(ry);
        let sinz = spec_sin(rz);
        let cosx = spec_cos(rx);
        let cosy = spec_cos(ry);
        let cosz = spec_cos(rz);
        Matrix3 {
            a11: cosy.spec_mul(cosz),
            a12: sinx.spec_mul(siny).spec_mul(cosz).spec_sub(cosx.spec_mul(sinz)),
            a13: cosx.spec_mul(siny).spec_mul(cosz).spec_add(sinx.spec_mul(sinz)),
            a21: cosy.spec_mul(sinz),
            a22: sinx.spec_mul(siny).spec_mul(sinz).spec_add(cosx.spec_mul(cosz)),
            a23: cosx.spec_mul(siny).spec_mul(sinz).spec_sub(sinx.spec_mul(cosz)),
            a31: siny.spec_neg(),
            a32: sinx.spec_mul(cosy),
            a33: cosx.spec_mul(cosy),
        }
    }

    pub fn rotation_matrix(x: Fx, y: Fx, z: Fx) -> (r: Matrix3)
        requires
            fx_wf(x),
            fx_wf(y),
            fx_wf(z),
        ensures
            r == Matrix3::spec_rotation_matrix(x, y, z),
            m3_wf(r),
    {
        proof {
            reveal(Matrix3::spec_rotation_matrix);
        }
        let rx = crate::trig::deg_to_rad(x);
        let ry = crate::trig::deg_to_rad(y);
        let rz = crate::trig::deg_to_rad(z);
        let sinx = crate::trig::fx_sin(rx);
        let siny = crate::trig::fx_sin(ry);
        let sinz = crate::trig::fx_sin(rz);
        let cosx = crate::trig::fx_cos(rx);
        let cosy = crate::trig::fx_cos(ry);
        let cosz = crate::trig::fx_cos(rz);
        Matrix3 {
            a11: cosy.mul(cosz),
            a12: sinx.mul(siny).mul(cosz).sub(cosx.mul(sinz)),
            a13: cosx.mul(siny).mul(cosz).add(sinx.mul(sinz)),
            a21: cosy.mul(sinz),
            a22: sinx.mul(siny).mul(sinz).add(cosx.mul(cosz)),
            a23: cosx.mul(siny).mul(sinz).sub(sinx.mul(cosz)),
            a31: siny.neg(),
            a32: sinx.mul(cosy),
            a33: cosx.mul(cosy),
        }
    }

    /// The matrix applied to a column vector, rows summed left to right.
    pub open spec fn spec_mul_vector(m: Matrix3, v: Vector3) -> Vector3 {
        Vector3 {
            x: m.a11.spec_mul(v.x).spec_add(m.a12.spec_mul(v.y)).spec_add(m.a13.spec_mul(v.z)),
            y: m.a21.spec_mul(v.x).spec_add(m.a22.spec_mul(v.y)).spec_add(m.a23.spec_mul(v.z)),
            z: m.a31.spec_mul(v.x).spec_add(m.a32.spec_mul(v.y)).spec_add(m.a33.spec_mul(v.z)),
        }
    }

    pub fn mul_vector(&self, v: &Vector3) -> (r: Vector3)
        requires
            m3_wf(*self),
            v3_wf(*v),
        ensures
            r == Matrix3::spec_mul_vector(*self, *v),
            v3_wf(r),
    {
        Vector3 {
            x: self.a11.mul(v.x).add(self.a12.mul(v.y)).add(self.a13.mul(v.z)),
            y: self.a21.mul(v.x).add(self.a22.mul(v.y)).add(self.a23.mul(v.z)),
            z: self.a31.mul(v.x).add(self.a32.mul(v.y)).add(self.a33.mul(v.z)),
        }
    }

    /// The matrix product `m · o`, each entry summed left to right.
    pub open spec fn spec_mul_mat(m: Matrix3, o: Matrix3) -> Matrix3 {
        Matrix3 {
            a11: m.a11.spec_mul(o.a11).spec_add(m.a12.spec_mul(o.a21)).spec_add(
                m.a13.spec_mul(o.a31),
            ),
            a12: m.a11.spec_mul(o.a12).spec_add(m.a12.spec_mul(o.a22)).spec_add(
                m.a13.spec_mul(o.a32),
            ),
            a13: m.a11.spec_mul(o.a13).spec_add(m.a12.spec_mul(o.a23)).spec_add(
                m.a13.spec_mul(o.a33),
            ),
            a21: m.a21.spec_mul(o.a11).spec_add(m.a22.spec_mul(o.a21)).spec_add(
                m.a23.spec_mul(o.a31),
            ),
            a22: m.a21.spec_mul(o.a12).spec_add(m.a22.spec_mul(o.a22)).spec_add(
                m.a23.spec_mul(o.a32),
            ),
            a23: m.a21.spec_mul(o.a13).spec_add(m.a22.spec_mul(o.a23)).spec_add(
                m.a23.spec_mul(o.a33),
            ),
            a31: m.a31.spec_mul(o.a11).spec_add(m.a32.spec_mul(o.a21)).spec_add(
                m.a33.spec_mul(o.a31),
            ),
            a32: m.a31.spec_mul(o.a12).spec_add(m.a32.spec_mul(o.a22)).spec_add(
                m.a33.spec_mul(o.a32),
            ),
            a33: m.a31.spec_mul(o.a13).spec_add(m.a32.spec_mul(o.a23)).spec_add(
                m.a33.spec_mul(o.a33),
            ),
        }
    }

    pub fn mul_mat(m: &Matrix3, o: &Matrix3) -> (r: Matrix3)
        requires
            m3_wf(*m),
            m3_wf(*o),
        ensures
            r == Matrix3::spec_mul_mat(*m, *o),
            m3_wf(r),
    {
        Matrix3 {
            a11: m.a11.mul(o.a11).add(m.a12.mul(o.a21)).add(m.a13.mul(o.a31)),
            a12: m.a11.mul(o.a12).add(m.a12.mul(o.a22)).add(m.a13.mul(o.a32)),
            a13: m.a11.mul(o.a13).add(m.a12.mul(o.a23)).add(m.a13.mul(o.a33)),
            a21: m.a21.mul(o.a11).add(m.a22.mul(o.a21)).add(m.a23.mul(o.a31)),
            a22: m.a21.mul(o.a12).add(m.a22.mul(o.a22)).add(m.a23.mul(o.a32)),
            a23: m.a21.mul(o.a13).add(m.a22.mul(o.a23)).add(m.a23.mul(o.a33)),
            a31: m.a31.mul(o.a11).add(m.a32.mul(o.a21)).add(m.a33.mul(o.a31)),
            a32: m.a31.mul(o.a12).add(m.a32.mul(o.a22)).add(m.a33.mul(o.a32)),
            a33: m.a31.mul(o.a13).add(m.a32.mul(o.a23)).add(m.a33.mul(o.a33)),
        }
    }
}

} // verus!
