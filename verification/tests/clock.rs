use std::cell::Cell;

use render_harness::camera::CameraRaw;
use render_harness::resource::{BindingKind, BufferUsages, ShaderStages};
use render_harness::uniform::{Time, Uniform};

fn camera(seed: u32) -> CameraRaw {
    let mut view = [0u32; 16];
    let mut projection = [0u32; 16];
    for i in 0..16 {
        view[i] = seed + i as u32;
        projection[i] = seed + 100 + i as u32;
    }
    CameraRaw::new(view, projection)
}

fn native(words: &[u32]) -> Vec<u8> {
    let mut out = Vec::new();
    for w in words {
        out.extend_from_slice(&w.to_ne_bytes());
    }
    out
}

#[test]
fn a_new_clock_has_seen_no_frame() {
    let time = Time::new(1_000);
    assert_eq!(time, Time { start: 1_000, prev_frame: 1_000, elapsed_frame: 0 });
    assert_eq!(time.elapsed(1_000), 0);
    assert_eq!(time.elapsed(1_250), 250);
}

#[test]
fn update_measures_the_time_between_frames() {
    let mut time = Time::new(1_000);
    time.update(1_016);
    assert_eq!(time.elapsed_frame, 16);
    assert_eq!(time.prev_frame, 1_016);
    time.update(1_049);
    assert_eq!(time.elapsed_frame, 33);
    assert_eq!(time.prev_frame, 1_049);
    assert_eq!(time.start, 1_000);
    assert_eq!(time.elapsed(1_049), 49);
}

#[test]
fn frame_times_add_up_to_the_elapsed_time() {
    let mut time = Time::new(7);
    let mut sum = 0u64;
    for now in [7u64, 10, 10, 25, 1_000, 1_000_000_007] {
        time.update(now);
        sum += time.elapsed_frame;
        assert_eq!(sum, time.elapsed(now));
    }
}

#[test]
fn a_reading_from_the_past_counts_as_no_time() {
    let mut time = Time::new(100);
    time.update(150);
    time.update(120);
    assert_eq!(time, Time { start: 100, prev_frame: 150, elapsed_frame: 0 });
    assert_eq!(time.elapsed(50), 0);
}

#[test]
fn clock_readings_up_to_the_largest() {
    let mut time = Time::new(0);
    time.update(u64::MAX);
    assert_eq!(time.elapsed_frame, u64::MAX);
    assert_eq!(time.elapsed(u64::MAX), u64::MAX);
}

#[test]
fn a_new_uniform_describes_its_buffer_and_binding() {
    let uniform = Uniform::new(5, camera(1));
    assert_eq!(uniform.time, Time::new(5));
    assert_eq!(uniform.camera, camera(1));
    assert_eq!(uniform.seconds, 0);
    assert_eq!(uniform.buffer.size, 144);
    assert_eq!(
        uniform.buffer.usage,
        BufferUsages { vertex: false, index: false, uniform: true, copy_dst: true }
    );
    assert!(!uniform.buffer.mapped_at_creation);
    assert_eq!(uniform.bind_group_layout.len(), 1);
    assert_eq!(uniform.bind_group_layout[0].binding, 0);
    assert_eq!(
        uniform.bind_group_layout[0].visibility,
        ShaderStages { vertex: true, fragment: true, compute: true }
    );
    assert_eq!(uniform.bind_group_layout[0].kind, BindingKind::UniformBuffer);
}

#[test]
fn as_raw_packs_camera_time_and_zero_padding() {
    let uniform = Uniform::new(5, camera(9));
    let raw = uniform.as_raw();
    assert_eq!(raw.camera, camera(9));
    assert_eq!(raw.time, 0);
    assert_eq!(raw.padding, [0, 0, 0]);
}

fn whole_seconds(nanos: u64) -> u32 {
    ((nanos / 1_000_000_000) as f32).to_bits()
}

#[test]
fn update_steps_the_camera_with_the_frame_time_and_lays_out_the_block() {
    let mut uniform = Uniform::new(1_000, camera(1));
    let stepped_with = Cell::new(Vec::new());
    let converted = Cell::new(Vec::new());
    let bytes = uniform.update(
        1_500,
        |frame| {
            stepped_with.set(vec![frame]);
            camera(50)
        },
        |total| {
            converted.set(vec![total]);
            2.5f32.to_bits()
        },
    );
    assert_eq!(stepped_with.take(), vec![500]);
    assert_eq!(converted.take(), vec![500]);
    assert_eq!(uniform.time, Time { start: 1_000, prev_frame: 1_500, elapsed_frame: 500 });
    assert_eq!(uniform.camera, camera(50));
    assert_eq!(uniform.seconds, 2.5f32.to_bits());
    assert_eq!(bytes.len(), 144);
    assert_eq!(bytes[0..64], native(&camera(50).view_matrix)[..]);
    assert_eq!(bytes[64..128], native(&camera(50).perspective_matrix)[..]);
    assert_eq!(bytes[128..132], 2.5f32.to_ne_bytes());
    assert_eq!(bytes[132..144], [0u8; 12]);
    assert_eq!(bytes, uniform.as_raw().to_bytes());
}

#[test]
fn the_camera_moves_by_the_frame_time_and_the_block_holds_the_total() {
    let second = 1_000_000_000u64;
    let start = 7 * second;
    let mut uniform = Uniform::new(start, camera(1));
    uniform.update(start + second, |_| camera(2), whole_seconds);
    assert_eq!(uniform.seconds, 1.0f32.to_bits());

    // The previous frame was one second after the start; this one is three
    // seconds after it.
    let steps = Cell::new(0u32);
    let bytes = uniform.update(
        start + 3 * second,
        |frame| {
            steps.set(steps.get() + 1);
            assert_eq!(frame, 2 * second);
            camera(3)
        },
        whole_seconds,
    );
    assert_eq!(steps.get(), 1);
    assert_eq!(uniform.time.prev_frame, start + 3 * second);
    assert_eq!(uniform.time.elapsed_frame, 2 * second);
    assert_eq!(uniform.seconds, 3.0f32.to_bits());
    assert_eq!(uniform.as_raw().time, 3.0f32.to_bits());
    assert_eq!(uniform.as_raw().padding, [0, 0, 0]);
    assert_eq!(bytes[128..132], 3.0f32.to_ne_bytes());
    assert_eq!(bytes[132..144], [0u8; 12]);
    assert_eq!(bytes[0..64], native(&camera(3).view_matrix)[..]);
}
