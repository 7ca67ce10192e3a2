use vendek::records::{
    FrameUniforms, RaymarchParams, FRAME_UNIFORMS_BYTES, FRAME_UNIFORMS_WORDS,
    RAYMARCH_PARAMS_BYTES, RAYMARCH_PARAMS_WORDS, UNIFORM_ALIGNMENT,
};
use vendek::scalar::Scalar;

fn s(x: f32) -> Scalar {
    Scalar::from_bits(x.to_bits())
}

fn sample_frame() -> FrameUniforms {
    let mut view_proj = [s(0.0); 16];
    let mut inv_view_proj = [s(0.0); 16];
    for i in 0..16 {
        view_proj[i] = s(100.0 + i as f32);
        inv_view_proj[i] = s(200.0 + i as f32);
    }
    FrameUniforms {
        view_proj,
        inv_view_proj,
        camera_position: [s(1.5), s(-2.5), s(3.5)],
        time: s(4.25),
        resolution: [s(800.0), s(600.0)],
        near: s(0.1),
        far: s(100.0),
    }
}

fn sample_march() -> RaymarchParams {
    RaymarchParams {
        volume_min: [s(-12.0), s(-11.0), s(-10.0)],
        volume_max: [s(12.0), s(11.0), s(10.0)],
        max_steps: 128,
        step_size: s(0.15),
        membrane_thickness: s(0.4),
        membrane_glow: s(0.5),
        density_multiplier: s(1.0),
        enable_coupling: s(1.0),
        palette: 3,
    }
}

fn native_bytes(words: &[u32]) -> Vec<u8> {
    let mut bytes = Vec::new();
    for w in words {
        bytes.extend_from_slice(&w.to_ne_bytes());
    }
    bytes
}

#[test]
fn record_sizes_fill_whole_alignment_units() {
    assert_eq!(FRAME_UNIFORMS_WORDS, 40);
    assert_eq!(FRAME_UNIFORMS_BYTES, 160);
    assert_eq!(RAYMARCH_PARAMS_WORDS, 16);
    assert_eq!(RAYMARCH_PARAMS_BYTES, 64);
    assert_eq!(UNIFORM_ALIGNMENT, 16);
    assert_eq!(FRAME_UNIFORMS_BYTES % UNIFORM_ALIGNMENT, 0);
    assert_eq!(RAYMARCH_PARAMS_BYTES % UNIFORM_ALIGNMENT, 0);
}

#[test]
fn frame_uniforms_lay_out_matrices_eye_time_resolution_planes() {
    let words = sample_frame().to_words();
    assert_eq!(words.len(), 40);
    for i in 0..16 {
        assert_eq!(f32::from_bits(words[i]), 100.0 + i as f32);
        assert_eq!(f32::from_bits(words[16 + i]), 200.0 + i as f32);
    }
    assert_eq!(f32::from_bits(words[32]), 1.5);
    assert_eq!(f32::from_bits(words[33]), -2.5);
    assert_eq!(f32::from_bits(words[34]), 3.5);
    assert_eq!(f32::from_bits(words[35]), 4.25);
    assert_eq!(f32::from_bits(words[36]), 800.0);
    assert_eq!(f32::from_bits(words[37]), 600.0);
    assert_eq!(f32::from_bits(words[38]), 0.1);
    assert_eq!(f32::from_bits(words[39]), 100.0);
}

#[test]
fn raymarch_params_pad_each_corner_and_the_end() {
    let words = sample_march().to_words();
    assert_eq!(words.len(), 16);
    assert_eq!(f32::from_bits(words[0]), -12.0);
    assert_eq!(f32::from_bits(words[1]), -11.0);
    assert_eq!(f32::from_bits(words[2]), -10.0);
    assert_eq!(words[3], 0);
    assert_eq!(f32::from_bits(words[4]), 12.0);
    assert_eq!(f32::from_bits(words[5]), 11.0);
    assert_eq!(f32::from_bits(words[6]), 10.0);
    assert_eq!(words[7], 0);
    assert_eq!(words[8], 128);
    assert_eq!(f32::from_bits(words[9]), 0.15);
    assert_eq!(f32::from_bits(words[10]), 0.4);
    assert_eq!(f32::from_bits(words[11]), 0.5);
    assert_eq!(f32::from_bits(words[12]), 1.0);
    assert_eq!(f32::from_bits(words[13]), 1.0);
    assert_eq!(words[14], 3);
    assert_eq!(words[15], 0);
}

#[test]
fn frame_uniform_bytes_are_the_words_in_memory_order() {
    let frame = sample_frame();
    let bytes = frame.to_bytes();
    assert_eq!(bytes.len(), 160);
    assert_eq!(bytes, native_bytes(&frame.to_words()));
    // The time, 4.25, is 0x40880000: its bytes differ from each other, so a
    // copy of the words would not pass for their bytes.
    assert_eq!(&bytes[140..144], &4.25f32.to_ne_bytes());
}

#[test]
fn raymarch_param_bytes_are_the_words_in_memory_order() {
    let march = sample_march();
    let bytes = march.to_bytes();
    assert_eq!(bytes.len(), 64);
    assert_eq!(bytes, native_bytes(&march.to_words()));
    assert_eq!(&bytes[32..36], &128u32.to_ne_bytes());
}

#[test]
fn push_scalars_appends_encodings_in_order() {
    let mut out = vec![7u32];
    vendek::records::push_scalars(&mut out, &[s(1.0), s(2.0)]);
    assert_eq!(out, vec![7, 1.0f32.to_bits(), 2.0f32.to_bits()]);
    vendek::records::push_scalars(&mut out, &[]);
    assert_eq!(out.len(), 3);
}
