use cosmic_theme_bridge::CHANNEL_ONE;
use cosmic_theme_bridge::CosmicColor;
use cosmic_theme_bridge::NormalizedColor;
use cosmic_theme_bridge::quantize;

#[test]
fn quantize_zero_is_zero() {
    assert_eq!(quantize(0), 0);
}

#[test]
fn quantize_truncates_toward_zero() {
    // Values below 1/256 all truncate to 0.
    assert_eq!(quantize(1), 0);
    assert_eq!(quantize(255), 0);
    // 1/256 exactly reaches 1.
    assert_eq!(quantize(256), 1);
    assert_eq!(quantize(257), 1);
    // One half scales to exactly 128.
    assert_eq!(quantize(CHANNEL_ONE / 2), 128);
    // 255/256 scales to exactly 255.
    assert_eq!(quantize(65280), 255);
    // The largest channel below one still truncates to 255.
    assert_eq!(quantize(CHANNEL_ONE - 1), 255);
}

#[test]
fn quantize_at_one_wraps_to_zero() {
    // A channel of exactly one scales to 256, which does not fit in 8 bits;
    // the narrowing wraps it to 0. This boundary is pinned deliberately.
    assert_eq!(quantize(CHANNEL_ONE), 0);
}

#[test]
fn quantize_agrees_with_float_scaling() {
    // The fixed-point channel of a float value v is floor(v * 65536), and
    // quantizing it agrees with scaling v by 256 and truncating.
    let values: [f32; 6] = [0.0, 0.125, 0.25, 0.5, 0.75, 0.99609375];
    for v in values {
        let channel = (v * 65536.0f32).trunc() as u32;
        let expected = (((v * 256.0f32).trunc() as u32) % 256) as u8;
        assert_eq!(quantize(channel), expected);
    }
}

#[test]
fn from_normalized_quantizes_each_channel() {
    let c = NormalizedColor::new(0, 256, 32768, 65280);
    let q = CosmicColor::from_normalized(&c);
    assert_eq!(q.red, 0);
    assert_eq!(q.green, 1);
    assert_eq!(q.blue, 128);
    assert_eq!(q.alpha, 255);
}
