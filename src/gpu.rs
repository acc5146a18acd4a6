//! The two camera blocks uploaded to the GPU, with the padding that keeps
//! every 3-vector inside one 16-byte slot. The layout is fixed here, field by
//! field, and serialised explicitly (little-endian words), independent of how
//! the host compiler lays out the structs.
use vstd::prelude::*;
use crate::bits::{IVec3, Mat3Bits, Mat4Bits, Vec3Bits, Vec4Bits};
use crate::logical::LogicalCamera;

verus! {

/// Size in bytes of one serialised `GPUMat3`.
pub const GPU_MAT3_SIZE: usize = 48;

/// Byte offsets of the fields of `GpuCamera`, and its size.
pub const GPU_CAMERA_ROT_OFFSET: usize = 0;
pub const GPU_CAMERA_ROT_INVERT_OFFSET: usize = 48;
pub const GPU_CAMERA_ORIGIN_INT_OFFSET: usize = 96;
pub const GPU_CAMERA_FOCAL_LENGTH_OFFSET: usize = 108;
pub const GPU_CAMERA_ORIGIN_SUB_OFFSET: usize = 112;
pub const GPU_CAMERA_PAD_OFFSET: usize = 124;
pub const GPU_CAMERA_SIZE: usize = 128;

/// Byte offsets of the fields of `GpuCameraNormal`, and its size.
pub const GPU_NORMAL_ROT_OFFSET: usize = 0;
pub const GPU_NORMAL_ROT_INVERT_OFFSET: usize = 48;
pub const GPU_NORMAL_ORIGIN_OFFSET: usize = 96;
pub const GPU_NORMAL_FOCAL_LENGTH_OFFSET: usize = 108;
pub const GPU_NORMAL_CAMERA_4_OFFSET: usize = 112;
pub const GPU_NORMAL_PROJ_OFFSET: usize = 176;
pub const GPU_NORMAL_CAMERA_4_INVERT_OFFSET: usize = 240;
pub const GPU_NORMAL_SIZE: usize = 304;

/// The word written into each padding slot of a `GPUMat3`.
pub const MAT3_PAD: u32 = 0xFF;

/// A 3x3 matrix as three 16-byte column slots: 12 bytes of column, 4 of pad.
#[derive(Clone, Copy, Debug, PartialEq, Eq, Structural)]
pub struct GPUMat3 {
    pub x_axis: Vec3Bits,
    pub _pad0: u32,
    pub y_axis: Vec3Bits,
    pub _pad1: u32,
    pub z_axis: Vec3Bits,
    pub _pad2: u32,
}

/// The camera block of the rasterisation pass, packed from a `LogicalCamera`.
#[derive(Clone, Copy, Debug, PartialEq, Eq, Structural)]
pub struct GpuCamera {
    pub camera_rot: GPUMat3,
    pub camera_rot_invert: GPUMat3,
    pub camera_origin_int: IVec3,
    pub focal_length: u32,
    pub camera_origin_sub: Vec3Bits,
    pub _pad: u32,
}

/// The camera block of the normal pass: flipped basis, absolute origin, and
/// three 4x4 matrices (view, projection, inverse view).
#[derive(Clone, Copy, Debug, PartialEq, Eq, Structural)]
pub struct GpuCameraNormal {
    pub camera_rot: GPUMat3,
    pub camera_rot_invert: GPUMat3,
    pub camera_origin: Vec3Bits,
    pub focal_length: u32,
    pub camera_4: Mat4Bits,
    pub camera_proj: Mat4Bits,
    pub camera_4_invert: Mat4Bits,
}

impl Mat4Bits {
    /// The 16 words, column after column.
    pub open spec fn words(self) -> Seq<u32> {
        self.x_axis.words() + self.y_axis.words() + self.z_axis.words() + self.w_axis.words()
    }
}

impl GPUMat3 {
    /// The 12 words of the slot, pads included, in memory order.
    pub open spec fn words(self) -> Seq<u32> {
        self.x_axis.words() + seq![self._pad0] + self.y_axis.words() + seq![self._pad1]
            + self.z_axis.words() + seq![self._pad2]
    }

    pub open spec fn from_mat3_spec(m: Mat3Bits) -> GPUMat3 {
        GPUMat3 {
            x_axis: m.x_axis,
            _pad0: MAT3_PAD,
            y_axis: m.y_axis,
            _pad1: MAT3_PAD,
            z_axis: m.z_axis,
            _pad2: MAT3_PAD,
        }
    }
}

impl From<Mat3Bits> for GPUMat3 {
    /// Copies the three columns and fills each pad with `MAT3_PAD`.
    fn from(m: Mat3Bits) -> (r: GPUMat3)
        ensures
            r == GPUMat3::from_mat3_spec(m),
    {
        GPUMat3 {
            x_axis: m.x_axis,
            _pad0: MAT3_PAD,
            y_axis: m.y_axis,
            _pad1: MAT3_PAD,
            z_axis: m.z_axis,
            _pad2: MAT3_PAD,
        }
    }
}

impl vstd::std_specs::convert::FromSpecImpl<Mat3Bits> for GPUMat3 {
    open spec fn obeys_from_spec() -> bool {
        true
    }

    open spec fn from_spec(m: Mat3Bits) -> GPUMat3 {
        GPUMat3::from_mat3_spec(m)
    }
}


/// Byte `k` (0 to 3) of `w`, least significant first.
pub open spec fn byte_of(w: u32, k: int) -> u8 {
    if k == 0 {
        (w & 0xff) as u8
    } else if k == 1 {
        ((w >> 8u32) & 0xff) as u8
    } else if k == 2 {
        ((w >> 16u32) & 0xff) as u8
    } else {
        ((w >> 24u32) & 0xff) as u8
    }
}

/// The little-endian bytes of a sequence of words: four per word.
pub open spec fn le_bytes(ws: Seq<u32>) -> Seq<u8> {
    Seq::new((4 * ws.len()) as nat, |i: int| byte_of(ws[i / 4], i % 4))
}

/// Writes each word as four little-endian bytes.
pub fn words_to_bytes(ws: &Vec<u32>) -> (r: Vec<u8>)
    requires
        4 * ws@.len() <= usize::MAX,
    ensures
        r@ == le_bytes(ws@),
{
    let mut out: Vec<u8> = Vec::new();
    let mut i: usize = 0;
    while i < ws.len()
        invariant
            i <= ws@.len(),
            4 * ws@.len() <= usize::MAX,
            out@.len() == 4 * i,
            forall|j: int| 0 <= j < out@.len() ==> #[trigger] out@[j] == byte_of(ws@[j / 4], j % 4),
        decreases ws@.len() - i,
    {
        let w = ws[i];
        out.push((w & 0xff) as u8);
        out.push(((w >> 8u32) & 0xff) as u8);
        out.push(((w >> 16u32) & 0xff) as u8);
        out.push(((w >> 24u32) & 0xff) as u8);
        assert forall|j: int| 0 <= j < out@.len() implies #[trigger] out@[j] == byte_of(
            ws@[j / 4],
            j % 4,
        ) by {
            if j >= 4 * i {
                assert(j / 4 == i as int);
            }
        }
        i = i + 1;
    }
    assert(out@ =~= le_bytes(ws@));
    out
}

fn push_vec3(out: &mut Vec<u32>, v: &Vec3Bits)
    ensures
        final(out)@ == old(out)@ + v.words(),
{
    out.push(v.x);
    out.push(v.y);
    out.push(v.z);
    assert(final(out)@ =~= old(out)@ + v.words());
}

fn push_vec4(out: &mut Vec<u32>, v: &Vec4Bits)
    ensures
        final(out)@ == old(out)@ + v.words(),
{
    out.push(v.x);
    out.push(v.y);
    out.push(v.z);
    out.push(v.w);
    assert(final(out)@ =~= old(out)@ + v.words());
}

fn push_ivec3(out: &mut Vec<u32>, v: &IVec3)
    ensures
        final(out)@ == old(out)@ + v.words(),
{
    out.push(v.x as u32);
    out.push(v.y as u32);
    out.push(v.z as u32);
    assert(final(out)@ =~= old(out)@ + v.words());
}

fn push_gpu_mat3(out: &mut Vec<u32>, m: &GPUMat3)
    ensures
        final(out)@ == old(out)@ + m.words(),
{
    push_vec3(out, &m.x_axis);
    out.push(m._pad0);
    push_vec3(out, &m.y_axis);
    out.push(m._pad1);
    push_vec3(out, &m.z_axis);
    out.push(m._pad2);
    assert(final(out)@ =~= old(out)@ + m.words());
}

fn push_mat4(out: &mut Vec<u32>, m: &Mat4Bits)
    ensures
        final(out)@ == old(out)@ + m.words(),
{
    push_vec4(out, &m.x_axis);
    push_vec4(out, &m.y_axis);
    push_vec4(out, &m.z_axis);
    push_vec4(out, &m.w_axis);
    assert(final(out)@ =~= old(out)@ + m.words());
}

impl GpuCamera {
    /// The 32 words of the block in memory order.
    pub open spec fn words(self) -> Seq<u32> {
        self.camera_rot.words() + self.camera_rot_invert.words() + self.camera_origin_int.words()
            + seq![self.focal_length] + self.camera_origin_sub.words() + seq![self._pad]
    }

    pub open spec fn from_logical_spec(cam: LogicalCamera) -> GpuCamera {
        GpuCamera {
            camera_rot: GPUMat3::from_mat3_spec(cam.camera_rot),
            camera_rot_invert: GPUMat3::from_mat3_spec(cam.camera_rot_invert),
            camera_origin_int: cam.camera_origin_int,
            focal_length: cam.focal_length,
            camera_origin_sub: cam.camera_origin_sub,
            _pad: 0,
        }
    }

    /// The block as words, in memory order.
    pub fn to_words(&self) -> (r: Vec<u32>)
        ensures
            r@ == self.words(),
    {
        let mut out: Vec<u32> = Vec::new();
        push_gpu_mat3(&mut out, &self.camera_rot);
        push_gpu_mat3(&mut out, &self.camera_rot_invert);
        push_ivec3(&mut out, &self.camera_origin_int);
        out.push(self.focal_length);
        push_vec3(&mut out, &self.camera_origin_sub);
        out.push(self._pad);
        assert(out@ =~= self.words());
        out
    }

    /// The block as the bytes uploaded to the GPU.
    pub fn to_bytes(&self) -> (r: Vec<u8>)
        ensures
            r@ == le_bytes(self.words()),
            r@.len() == GPU_CAMERA_SIZE,
    {
        let ws = self.to_words();
        words_to_bytes(&ws)
    }
}

impl<'a> From<&'a LogicalCamera> for GpuCamera {
    /// Packs both bases into padded slots and copies the origin split and the
    /// focal length; the trailing pad is zero.
    fn from(cam: &'a LogicalCamera) -> (r: GpuCamera)
        ensures
            r == GpuCamera::from_logical_spec(*cam),
    {
        GpuCamera {
            camera_rot: GPUMat3::from(cam.camera_rot),
            camera_rot_invert: GPUMat3::from(cam.camera_rot_invert),
            camera_origin_int: cam.camera_origin_int,
            focal_length: cam.focal_length,
            camera_origin_sub: cam.camera_origin_sub,
            _pad: 0,
        }
    }
}

impl<'a> vstd::std_specs::convert::FromSpecImpl<&'a LogicalCamera> for GpuCamera {
    open spec fn obeys_from_spec() -> bool {
        true
    }

    open spec fn from_spec(cam: &'a LogicalCamera) -> GpuCamera {
        GpuCamera::from_logical_spec(*cam)
    }
}


impl GpuCameraNormal {
    /// The 76 words of the block in memory order.
    pub open spec fn words(self) -> Seq<u32> {
        self.camera_rot.words() + self.camera_rot_invert.words() + self.camera_origin.words()
            + seq![self.focal_length] + self.camera_4.words() + self.camera_proj.words()
            + self.camera_4_invert.words()
    }

    /// Packs the normal-pass block from the flipped render basis `camera_rot`,
    /// the flipped absolute origin, the focal length and the three 4x4
    /// matrices; the inverse basis is the exact transpose of `camera_rot`.
    pub fn new(
        camera_rot: Mat3Bits,
        camera_origin: Vec3Bits,
        focal_length: u32,
        camera_4: Mat4Bits,
        camera_proj: Mat4Bits,
        camera_4_invert: Mat4Bits,
    ) -> (r: GpuCameraNormal)
        ensures
            r.camera_rot == GPUMat3::from_mat3_spec(camera_rot),
            r.camera_rot_invert == GPUMat3::from_mat3_spec(camera_rot.transpose_spec()),
            r.camera_origin == camera_origin,
            r.focal_length == focal_length,
            r.camera_4 == camera_4,
            r.camera_proj == camera_proj,
            r.camera_4_invert == camera_4_invert,
    {
        GpuCameraNormal {
            camera_rot: GPUMat3::from(camera_rot),
            camera_rot_invert: GPUMat3::from(camera_rot.transpose()),
            camera_origin,
            focal_length,
            camera_4,
            camera_proj,
            camera_4_invert,
        }
    }

    /// The block as words, in memory order.
    pub fn to_words(&self) -> (r: Vec<u32>)
        ensures
            r@ == self.words(),
    {
        let mut out: Vec<u32> = Vec::new();
        push_gpu_mat3(&mut out, &self.camera_rot);
        push_gpu_mat3(&mut out, &self.camera_rot_invert);
        push_vec3(&mut out, &self.camera_origin);
        out.push(self.focal_length);
        push_mat4(&mut out, &self.camera_4);
        push_mat4(&mut out, &self.camera_proj);
        push_mat4(&mut out, &self.camera_4_invert);
        assert(out@ =~= self.words());
        out
    }

    /// The block as the bytes uploaded to the GPU.
    pub fn to_bytes(&self) -> (r: Vec<u8>)
        ensures
            r@ == le_bytes(self.words()),
            r@.len() == GPU_NORMAL_SIZE,
    {
        let ws = self.to_words();
        words_to_bytes(&ws)
    }
}

/// The words of a field that starts at byte `offset` and spans `n` words.
pub open spec fn field_words(ws: Seq<u32>, offset: int, n: int) -> Seq<u32> {
    ws.subrange(offset / 4, offset / 4 + n)
}

/// Within a padded 3x3 slot each column starts on a 16-byte boundary and is
/// followed by one pad word.
pub proof fn lemma_gpu_mat3_layout(m: GPUMat3)
    ensures
        m.words().len() * 4 == GPU_MAT3_SIZE,
        field_words(m.words(), 0, 3) == m.x_axis.words(),
        m.words()[3] == m._pad0,
        field_words(m.words(), 16, 3) == m.y_axis.words(),
        m.words()[7] == m._pad1,
        field_words(m.words(), 32, 3) == m.z_axis.words(),
        m.words()[11] == m._pad2,
{
    assert(field_words(m.words(), 0, 3) =~= m.x_axis.words());
    assert(field_words(m.words(), 16, 3) =~= m.y_axis.words());
    assert(field_words(m.words(), 32, 3) =~= m.z_axis.words());
}

/// The byte layout of `GpuCamera`: 128 bytes, each field at its fixed offset,
/// every 3-vector inside one 16-byte slot, the size a multiple of 16.
pub proof fn lemma_gpu_camera_layout(c: GpuCamera)
    ensures
        le_bytes(c.words()).len() == GPU_CAMERA_SIZE,
        GPU_CAMERA_SIZE % 16 == 0,
        field_words(c.words(), GPU_CAMERA_ROT_OFFSET as int, 12) == c.camera_rot.words(),
        field_words(c.words(), GPU_CAMERA_ROT_INVERT_OFFSET as int, 12)
            == c.camera_rot_invert.words(),
        field_words(c.words(), GPU_CAMERA_ORIGIN_INT_OFFSET as int, 3)
            == c.camera_origin_int.words(),
        c.words()[(GPU_CAMERA_FOCAL_LENGTH_OFFSET / 4) as int] == c.focal_length,
        field_words(c.words(), GPU_CAMERA_ORIGIN_SUB_OFFSET as int, 3)
            == c.camera_origin_sub.words(),
        c.words()[(GPU_CAMERA_PAD_OFFSET / 4) as int] == c._pad,
        GPU_CAMERA_ROT_OFFSET % 16 == 0,
        GPU_CAMERA_ROT_INVERT_OFFSET % 16 == 0,
        GPU_CAMERA_ORIGIN_INT_OFFSET % 16 == 0,
        GPU_CAMERA_ORIGIN_SUB_OFFSET % 16 == 0,
{
    let ws = c.words();
    assert(field_words(ws, 0, 12) =~= c.camera_rot.words());
    assert(field_words(ws, 48, 12) =~= c.camera_rot_invert.words());
    assert(field_words(ws, 96, 3) =~= c.camera_origin_int.words());
    assert(field_words(ws, 112, 3) =~= c.camera_origin_sub.words());
}

/// The byte layout of `GpuCameraNormal`: 304 bytes, each field at its fixed
/// offset, every 3-vector and matrix on a 16-byte boundary, the size a
/// multiple of 16.
pub proof fn lemma_gpu_camera_normal_layout(c: GpuCameraNormal)
    ensures
        le_bytes(c.words()).len() == GPU_NORMAL_SIZE,
        GPU_NORMAL_SIZE % 16 == 0,
        field_words(c.words(), GPU_NORMAL_ROT_OFFSET as int, 12) == c.camera_rot.words(),
        field_words(c.words(), GPU_NORMAL_ROT_INVERT_OFFSET as int, 12)
            == c.camera_rot_invert.words(),
        field_words(c.words(), GPU_NORMAL_ORIGIN_OFFSET as int, 3) == c.camera_origin.words(),
        c.words()[(GPU_NORMAL_FOCAL_LENGTH_OFFSET / 4) as int] == c.focal_length,
        field_words(c.words(), GPU_NORMAL_CAMERA_4_OFFSET as int, 16) == c.camera_4.words(),
        field_words(c.words(), GPU_NORMAL_PROJ_OFFSET as int, 16) == c.camera_proj.words(),
        field_words(c.words(), GPU_NORMAL_CAMERA_4_INVERT_OFFSET as int, 16)
            == c.camera_4_invert.words(),
        GPU_NORMAL_ROT_OFFSET % 16 == 0,
        GPU_NORMAL_ROT_INVERT_OFFSET % 16 == 0,
        GPU_NORMAL_ORIGIN_OFFSET % 16 == 0,
        GPU_NORMAL_CAMERA_4_OFFSET % 16 == 0,
        GPU_NORMAL_PROJ_OFFSET % 16 == 0,
        GPU_NORMAL_CAMERA_4_INVERT_OFFSET % 16 == 0,
{
    let ws = c.words();
    assert(field_words(ws, 0, 12) =~= c.camera_rot.words());
    assert(field_words(ws, 48, 12) =~= c.camera_rot_invert.words());
    assert(field_words(ws, 96, 3) =~= c.camera_origin.words());
    assert(field_words(ws, 112, 16) =~= c.camera_4.words());
    assert(field_words(ws, 176, 16) =~= c.camera_proj.words());
    assert(field_words(ws, 240, 16) =~= c.camera_4_invert.words());
}

} // verus!
