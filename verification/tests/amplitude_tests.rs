use eeg_pipeline::amplitude::{clip, INFINITY, LIMIT, MAGNITUDE_BITS, SIGN_BIT};

fn reference(value: f32) -> f32 {
    if value.abs() > 300.0 {
        value.signum() * 300.0
    } else {
        value
    }
}

fn clip_value(value: f32) -> f32 {
    f32::from_bits(clip(value.to_bits()))
}

#[test]
fn constants_are_the_encodings_they_stand_for() {
    assert_eq!(LIMIT, 300.0f32.to_bits());
    assert_eq!(INFINITY, f32::INFINITY.to_bits());
    assert_eq!(SIGN_BIT, (-0.0f32).to_bits());
    assert_eq!(MAGNITUDE_BITS, !SIGN_BIT);
}

#[test]
fn values_within_range_are_unchanged() {
    for value in [0.0f32, -0.0, 1.0, -1.0, 299.99997, -299.99997, 300.0, -300.0, 1e-40, -1e-40] {
        assert_eq!(clip(value.to_bits()), value.to_bits());
    }
}

#[test]
fn values_beyond_range_are_clipped_with_their_sign() {
    assert_eq!(clip_value(300.00003), 300.0);
    assert_eq!(clip_value(-300.00003), -300.0);
    assert_eq!(clip_value(1000.0), 300.0);
    assert_eq!(clip_value(-1000.0), -300.0);
    assert_eq!(clip_value(f32::MAX), 300.0);
    assert_eq!(clip_value(f32::MIN), -300.0);
    assert_eq!(clip_value(f32::INFINITY), 300.0);
    assert_eq!(clip_value(f32::NEG_INFINITY), -300.0);
}

#[test]
fn undefined_values_are_left_alone() {
    let nan = f32::NAN.to_bits();
    assert_eq!(clip(nan), nan);
    assert_eq!(clip(nan | SIGN_BIT), nan | SIGN_BIT);
    assert_eq!(clip(0x7f80_0001), 0x7f80_0001);
    assert_eq!(clip(0xffff_ffff), 0xffff_ffff);
}

#[test]
fn clip_agrees_with_floating_point_clipping() {
    let mut bits: u32 = 0;
    loop {
        let value = f32::from_bits(bits);
        if !value.is_nan() {
            assert_eq!(clip(bits), reference(value).to_bits(), "at {bits:#x}");
        } else {
            assert_eq!(clip(bits), bits);
        }
        match bits.checked_add(0x0000_fff1) {
            Some(next) => bits = next,
            None => break,
        }
    }
}

#[test]
fn clip_agrees_with_floating_point_clipping_around_the_limit() {
    for offset in 0..2000u32 {
        for base in [LIMIT - 1000, (LIMIT | SIGN_BIT) - 1000, INFINITY - 1000] {
            let bits = base + offset;
            let value = f32::from_bits(bits);
            if value.is_nan() {
                assert_eq!(clip(bits), bits);
            } else {
                assert_eq!(clip(bits), reference(value).to_bits());
            }
        }
    }
}

#[test]
fn clipping_twice_is_clipping_once() {
    for value in [0.5f32, 299.0, 301.0, -301.0, 1e30, -1e30, f32::INFINITY] {
        let once = clip(value.to_bits());
        assert_eq!(clip(once), once);
    }
}
