use subject_sim::codec::{decode_input, encode_input, encode_signal, truncate_to_byte, InputSample};

fn sample(x0: f32, x1: f32) -> InputSample {
    InputSample { x0: x0.to_bits(), x1: x1.to_bits() }
}

#[test]
fn truncation_matches_narrowing_cast() {
    let values: Vec<f32> = vec![
        0.0, -0.0, 0.4, 0.6, 0.999, 1.0, 1.5, 2.0, 25.5, 127.9, 128.0, 200.25, 254.99, 255.0,
        255.5, 256.0, 300.0, 1.0e6, 3.0e38, -0.5, -1.0, -300.0, 1.0e-40, 1.0e-3,
        f32::INFINITY, f32::NEG_INFINITY, f32::NAN, f32::MAX, f32::MIN_POSITIVE, 8388607.5,
        8388608.0, 16777216.0,
    ];
    for v in values {
        assert_eq!(truncate_to_byte(v.to_bits()), v as u8, "value {}", v);
    }
}

#[test]
fn truncation_exhaustive_over_small_range() {
    let mut v: f32 = -10.0;
    while v < 300.0 {
        assert_eq!(truncate_to_byte(v.to_bits()), v as u8, "value {}", v);
        v += 0.37;
    }
}

#[test]
fn truncation_discards_fraction_without_rounding() {
    assert_eq!(truncate_to_byte(0.4f32.to_bits()), 0);
    assert_eq!(truncate_to_byte(0.6f32.to_bits()), 0);
    assert_eq!(truncate_to_byte(7.99f32.to_bits()), 7);
}

#[test]
fn truncation_saturates_out_of_range() {
    assert_eq!(truncate_to_byte(1000.0f32.to_bits()), 255);
    assert_eq!(truncate_to_byte((-5.0f32).to_bits()), 0);
    assert_eq!(truncate_to_byte(f32::NAN.to_bits()), 0);
}

#[test]
fn signal_payload_has_one_byte_per_channel() {
    let z: Vec<u32> = vec![0.4f32, 12.7, 255.0, 256.5, -3.0, 99.99].iter().map(|v| v.to_bits()).collect();
    let p = encode_signal(&z);
    assert_eq!(p, vec![0u8, 12, 255, 255, 0, 99]);
}

#[test]
fn signal_payload_empty() {
    let z: Vec<u32> = Vec::new();
    assert!(encode_signal(&z).is_empty());
}

#[test]
fn input_payload_is_big_endian_pair() {
    let x = sample(0.4, 0.6);
    let p = encode_input(x);
    let mut expected = 0.4f32.to_be_bytes().to_vec();
    expected.extend(0.6f32.to_be_bytes());
    assert_eq!(p, expected);
    assert_eq!(p.len(), 8);
    assert_eq!(encode_input(sample(1.0, 0.0)), vec![0x3f, 0x80, 0, 0, 0, 0, 0, 0]);
}

#[test]
fn input_payload_round_trip() {
    for (a, b) in [(0.4f32, 0.6f32), (0.0, 1.0), (1.999, -0.0), (f32::MAX, f32::MIN_POSITIVE)] {
        let x = sample(a, b);
        let back = decode_input(&encode_input(x)).unwrap();
        assert_eq!(back, x);
        assert_eq!(f32::from_bits(back.x0), a);
        assert_eq!(f32::from_bits(back.x1), b);
    }
    let nan = InputSample { x0: 0x7fc0_0001, x1: 0xffff_ffff };
    assert_eq!(decode_input(&encode_input(nan)), Some(nan));
}

#[test]
fn decode_rejects_wrong_length() {
    assert_eq!(decode_input(&vec![0u8; 7]), None);
    assert_eq!(decode_input(&vec![0u8; 9]), None);
    assert_eq!(decode_input(&Vec::new()), None);
}

#[test]
fn scenario_truncation_hazard() {
    // Channels 0 and 1 follow the input exactly, every other channel is 0.
    let n: usize = 30;
    let mut z: Vec<f32> = vec![0.0; n];
    z[0] = 0.4;
    z[1] = 0.6;
    let bits: Vec<u32> = z.iter().map(|v| v.to_bits()).collect();
    let p = encode_signal(&bits);
    assert_eq!(p.len(), n);
    assert_eq!(p, vec![0u8; n]);
}
