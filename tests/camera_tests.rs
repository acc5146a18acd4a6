use camera::bits::{IVec3, Mat3Bits, Mat4Bits, Vec3Bits, Vec4Bits};
use camera::gpu::{
    words_to_bytes, GPUMat3, GpuCamera, GpuCameraNormal, GPU_CAMERA_FOCAL_LENGTH_OFFSET,
    GPU_CAMERA_ORIGIN_INT_OFFSET, GPU_CAMERA_ORIGIN_SUB_OFFSET, GPU_CAMERA_PAD_OFFSET,
    GPU_CAMERA_ROT_INVERT_OFFSET, GPU_CAMERA_SIZE, GPU_NORMAL_CAMERA_4_INVERT_OFFSET,
    GPU_NORMAL_CAMERA_4_OFFSET, GPU_NORMAL_FOCAL_LENGTH_OFFSET, GPU_NORMAL_ORIGIN_OFFSET,
    GPU_NORMAL_PROJ_OFFSET, GPU_NORMAL_SIZE, MAT3_PAD,
};
use camera::input::{plan_input, InputState};
use camera::logical::LogicalCamera;

fn v3(x: f32, y: f32, z: f32) -> Vec3Bits {
    Vec3Bits { x: x.to_bits(), y: y.to_bits(), z: z.to_bits() }
}

fn v4(x: f32, y: f32, z: f32, w: f32) -> Vec4Bits {
    Vec4Bits { x: x.to_bits(), y: y.to_bits(), z: z.to_bits(), w: w.to_bits() }
}

/// A matrix whose entry in column c, row r is 10 * c + r.
fn numbered_mat3() -> Mat3Bits {
    Mat3Bits {
        x_axis: v3(0.0, 1.0, 2.0),
        y_axis: v3(10.0, 11.0, 12.0),
        z_axis: v3(20.0, 21.0, 22.0),
    }
}

fn numbered_mat4(base: f32) -> Mat4Bits {
    Mat4Bits {
        x_axis: v4(base, base + 1.0, base + 2.0, base + 3.0),
        y_axis: v4(base + 10.0, base + 11.0, base + 12.0, base + 13.0),
        z_axis: v4(base + 20.0, base + 21.0, base + 22.0, base + 23.0),
        w_axis: v4(base + 30.0, base + 31.0, base + 32.0, base + 33.0),
    }
}

fn word_at(bytes: &[u8], offset: usize) -> u32 {
    u32::from_le_bytes([bytes[offset], bytes[offset + 1], bytes[offset + 2], bytes[offset + 3]])
}

#[test]
fn transpose_swaps_rows_and_columns() {
    let t = numbered_mat3().transpose();
    assert_eq!(t.x_axis, v3(0.0, 10.0, 20.0));
    assert_eq!(t.y_axis, v3(1.0, 11.0, 21.0));
    assert_eq!(t.z_axis, v3(2.0, 12.0, 22.0));
    assert_eq!(t.transpose(), numbered_mat3());
}

#[test]
fn logical_camera_inverse_is_transpose() {
    let rot = numbered_mat3();
    let cam = LogicalCamera::new(rot, IVec3 { x: 1, y: 0, z: 0 }, v3(0.0, 0.0, 0.0), 1.0f32.to_bits());
    assert_eq!(cam.camera_rot, rot);
    assert_eq!(cam.camera_rot_invert, rot.transpose());
    assert_eq!(cam.camera_rot_invert.y_axis, v3(1.0, 11.0, 21.0));
    assert_eq!(cam.camera_origin_int, IVec3 { x: 1, y: 0, z: 0 });
    assert_eq!(cam.camera_origin_sub, v3(0.0, 0.0, 0.0));
    assert_eq!(f32::from_bits(cam.focal_length), 1.0);
}

#[test]
fn logical_camera_keeps_negative_zero_bits() {
    let rot = Mat3Bits {
        x_axis: v3(-0.0, 1.0, 0.0),
        y_axis: v3(0.0, 0.0, 1.0),
        z_axis: v3(1.0, -0.0, 0.0),
    };
    let cam = LogicalCamera::new(rot, IVec3 { x: 0, y: 0, z: 0 }, v3(0.5, 0.25, 0.0), 2.0f32.to_bits());
    assert_eq!(cam.camera_rot_invert.x_axis, v3(-0.0, 0.0, 1.0));
    assert_eq!(cam.camera_rot_invert.y_axis.z, (-0.0f32).to_bits());
}

#[test]
fn gpu_mat3_fills_pads() {
    let m = GPUMat3::from(numbered_mat3());
    assert_eq!(m.x_axis, v3(0.0, 1.0, 2.0));
    assert_eq!(m.y_axis, v3(10.0, 11.0, 12.0));
    assert_eq!(m.z_axis, v3(20.0, 21.0, 22.0));
    assert_eq!(m._pad0, MAT3_PAD);
    assert_eq!(m._pad1, 0xFF);
    assert_eq!(m._pad2, 0xFF);
}

#[test]
fn gpu_camera_from_logical_camera() {
    let cam = LogicalCamera::new(
        numbered_mat3(),
        IVec3 { x: -3, y: 7, z: 1 << 20 },
        v3(0.5, 0.25, 0.125),
        1.5f32.to_bits(),
    );
    let g = GpuCamera::from(&cam);
    assert_eq!(g.camera_rot, GPUMat3::from(cam.camera_rot));
    assert_eq!(g.camera_rot_invert, GPUMat3::from(cam.camera_rot_invert));
    assert_eq!(g.camera_origin_int, IVec3 { x: -3, y: 7, z: 1 << 20 });
    assert_eq!(g.camera_origin_sub, v3(0.5, 0.25, 0.125));
    assert_eq!(g.focal_length, 1.5f32.to_bits());
    assert_eq!(g._pad, 0);
}

#[test]
fn gpu_camera_layout_offsets() {
    let cam = LogicalCamera::new(
        numbered_mat3(),
        IVec3 { x: -3, y: 7, z: 9 },
        v3(0.5, 0.25, 0.125),
        1.5f32.to_bits(),
    );
    let g = GpuCamera::from(&cam);
    let words = g.to_words();
    assert_eq!(words.len(), 32);
    let bytes = g.to_bytes();
    assert_eq!(GPU_CAMERA_SIZE, 128);
    assert_eq!(bytes.len(), 128);
    // camera_rot at 0: columns at 0, 16, 32, pads at 12, 28, 44
    assert_eq!(word_at(&bytes, 0), 0.0f32.to_bits());
    assert_eq!(word_at(&bytes, 4), 1.0f32.to_bits());
    assert_eq!(word_at(&bytes, 12), 0xFF);
    assert_eq!(word_at(&bytes, 16), 10.0f32.to_bits());
    assert_eq!(word_at(&bytes, 28), 0xFF);
    assert_eq!(word_at(&bytes, 40), 22.0f32.to_bits());
    assert_eq!(word_at(&bytes, 44), 0xFF);
    // camera_rot_invert at 48: the transpose
    assert_eq!(GPU_CAMERA_ROT_INVERT_OFFSET, 48);
    assert_eq!(word_at(&bytes, 48), 0.0f32.to_bits());
    assert_eq!(word_at(&bytes, 52), 10.0f32.to_bits());
    assert_eq!(word_at(&bytes, 56), 20.0f32.to_bits());
    assert_eq!(word_at(&bytes, 60), 0xFF);
    assert_eq!(word_at(&bytes, 64), 1.0f32.to_bits());
    // origin int at 96, focal length at 108, origin sub at 112, pad at 124
    assert_eq!(GPU_CAMERA_ORIGIN_INT_OFFSET, 96);
    assert_eq!(word_at(&bytes, 96) as i32, -3);
    assert_eq!(word_at(&bytes, 100) as i32, 7);
    assert_eq!(word_at(&bytes, 104) as i32, 9);
    assert_eq!(GPU_CAMERA_FOCAL_LENGTH_OFFSET, 108);
    assert_eq!(f32::from_bits(word_at(&bytes, 108)), 1.5);
    assert_eq!(GPU_CAMERA_ORIGIN_SUB_OFFSET, 112);
    assert_eq!(f32::from_bits(word_at(&bytes, 112)), 0.5);
    assert_eq!(f32::from_bits(word_at(&bytes, 116)), 0.25);
    assert_eq!(f32::from_bits(word_at(&bytes, 120)), 0.125);
    assert_eq!(GPU_CAMERA_PAD_OFFSET, 124);
    assert_eq!(word_at(&bytes, 124), 0);
    for (i, w) in words.iter().enumerate() {
        assert_eq!(word_at(&bytes, 4 * i), *w);
    }
}

#[test]
fn gpu_camera_normal_layout_offsets() {
    let rot = numbered_mat3();
    let n = GpuCameraNormal::new(
        rot,
        v3(4.0, 5.0, 6.0),
        2.0f32.to_bits(),
        numbered_mat4(100.0),
        numbered_mat4(200.0),
        numbered_mat4(300.0),
    );
    assert_eq!(n.camera_rot, GPUMat3::from(rot));
    assert_eq!(n.camera_rot_invert, GPUMat3::from(rot.transpose()));
    let words = n.to_words();
    assert_eq!(words.len(), 76);
    let bytes = n.to_bytes();
    assert_eq!(GPU_NORMAL_SIZE, 304);
    assert_eq!(bytes.len(), 304);
    assert_eq!(word_at(&bytes, 52), 10.0f32.to_bits());
    assert_eq!(GPU_NORMAL_ORIGIN_OFFSET, 96);
    assert_eq!(f32::from_bits(word_at(&bytes, 96)), 4.0);
    assert_eq!(f32::from_bits(word_at(&bytes, 104)), 6.0);
    assert_eq!(GPU_NORMAL_FOCAL_LENGTH_OFFSET, 108);
    assert_eq!(f32::from_bits(word_at(&bytes, 108)), 2.0);
    assert_eq!(GPU_NORMAL_CAMERA_4_OFFSET, 112);
    assert_eq!(f32::from_bits(word_at(&bytes, 112)), 100.0);
    assert_eq!(f32::from_bits(word_at(&bytes, 112 + 60)), 133.0);
    assert_eq!(GPU_NORMAL_PROJ_OFFSET, 176);
    assert_eq!(f32::from_bits(word_at(&bytes, 176)), 200.0);
    assert_eq!(f32::from_bits(word_at(&bytes, 176 + 16)), 210.0);
    assert_eq!(GPU_NORMAL_CAMERA_4_INVERT_OFFSET, 240);
    assert_eq!(f32::from_bits(word_at(&bytes, 240)), 300.0);
    assert_eq!(f32::from_bits(word_at(&bytes, 300)), 333.0);
}

#[test]
fn words_to_bytes_is_little_endian() {
    let bytes = words_to_bytes(&vec![0x3F80_0000, 0x0102_0304, 0xFFFF_FFFD]);
    assert_eq!(
        bytes,
        vec![0x00, 0x00, 0x80, 0x3F, 0x04, 0x03, 0x02, 0x01, 0xFD, 0xFF, 0xFF, 0xFF]
    );
    assert!(words_to_bytes(&vec![]).is_empty());
}

#[test]
fn idle_input_plans_nothing() {
    let plan = plan_input(&InputState::idle());
    assert_eq!(plan.wish_dir, IVec3 { x: 0, y: 0, z: 0 });
    assert!(!plan.look);
}

#[test]
fn sprint_alone_plans_nothing() {
    let mut s = InputState::idle();
    s.sprint = true;
    let plan = plan_input(&s);
    assert_eq!(plan.wish_dir, IVec3 { x: 0, y: 0, z: 0 });
    assert!(!plan.look);
}

#[test]
fn movement_keys_map_to_axes() {
    let mut s = InputState::idle();
    s.forward = true;
    s.left = true;
    s.up = true;
    assert_eq!(plan_input(&s).wish_dir, IVec3 { x: 1, y: -1, z: 1 });
    let mut s = InputState::idle();
    s.back = true;
    s.right = true;
    s.down = true;
    assert_eq!(plan_input(&s).wish_dir, IVec3 { x: -1, y: 1, z: -1 });
}

#[test]
fn sprint_multiplies_by_ten() {
    let mut s = InputState::idle();
    s.sprint = true;
    s.forward = true;
    s.right = true;
    s.down = true;
    assert_eq!(plan_input(&s).wish_dir, IVec3 { x: 10, y: 10, z: -10 });
}

#[test]
fn opposite_keys_cancel() {
    let mut s = InputState::idle();
    s.forward = true;
    s.back = true;
    s.left = true;
    s.right = true;
    s.up = true;
    s.down = true;
    s.sprint = true;
    assert_eq!(plan_input(&s).wish_dir, IVec3 { x: 0, y: 0, z: 0 });
}

#[test]
fn look_button_turns_on_look() {
    let mut s = InputState::idle();
    s.look = true;
    let plan = plan_input(&s);
    assert!(plan.look);
    assert_eq!(plan.wish_dir, IVec3 { x: 0, y: 0, z: 0 });
}
