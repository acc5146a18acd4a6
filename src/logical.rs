//! The per-frame camera snapshot: the render basis, its inverse, and the
//! camera position split into an integer world cell and a sub-cell offset.
use vstd::prelude::*;
use crate::bits::{IVec3, Mat3Bits, Vec3Bits};

verus! {

#[derive(Clone, Copy, Debug, PartialEq, Eq, Structural)]
pub struct LogicalCamera {
    pub camera_rot: Mat3Bits,
    pub camera_rot_invert: Mat3Bits,
    pub camera_origin_int: IVec3,
    pub camera_origin_sub: Vec3Bits,
    pub focal_length: u32,
}

impl LogicalCamera {
    /// A snapshot is well formed when its inverse basis is the exact
    /// transpose of its basis.
    pub open spec fn wf(self) -> bool {
        self.camera_rot_invert == self.camera_rot.transpose_spec()
    }

    /// Builds the snapshot from the orthonormal render basis, the world cell,
    /// the sub-cell offset and the focal length; the inverse basis is the
    /// transpose of `camera_rot`, never a general inversion.
    pub fn new(
        camera_rot: Mat3Bits,
        camera_origin_int: IVec3,
        camera_origin_sub: Vec3Bits,
        focal_length: u32,
    ) -> (r: LogicalCamera)
        ensures
            r.wf(),
            r.camera_rot == camera_rot,
            r.camera_rot_invert == camera_rot.transpose_spec(),
            r.camera_origin_int == camera_origin_int,
            r.camera_origin_sub == camera_origin_sub,
            r.focal_length == focal_length,
    {
        LogicalCamera {
            camera_rot,
            camera_rot_invert: camera_rot.transpose(),
            camera_origin_int,
            camera_origin_sub,
            focal_length,
        }
    }
}

/// In a well-formed snapshot the inverse basis is the exact transpose of the
/// basis, entry by entry, and the basis is in turn the transpose of its
/// inverse.
pub proof fn lemma_rot_invert_is_transpose(cam: LogicalCamera)
    requires
        cam.wf(),
    ensures
        forall|c: int, r: int|
            0 <= c < 3 && 0 <= r < 3 ==> #[trigger] cam.camera_rot_invert.entry(c, r)
                == cam.camera_rot.entry(r, c),
        cam.camera_rot == cam.camera_rot_invert.transpose_spec(),
{
    assert forall|c: int, r: int| 0 <= c < 3 && 0 <= r < 3 implies #[trigger] cam.camera_rot_invert.entry(c, r)
        == cam.camera_rot.entry(r, c) by {
        assert(0 <= c < 3);
    }
    crate::bits::lemma_transpose_involution(cam.camera_rot);
}

} // verus!
