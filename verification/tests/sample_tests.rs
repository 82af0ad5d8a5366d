use oatmeal_audio::sample::{downmix, i16_to_sample, normalize_i16, normalize_u16, u16_to_sample};
use oatmeal_audio::FULL_SCALE;

#[test]
fn i16_zero_maps_to_silence() {
    assert_eq!(i16_to_sample(0), 0);
}

#[test]
fn i16_conversion_exact_values() {
    assert_eq!(i16_to_sample(1), 30);
    assert_eq!(i16_to_sample(-1), -30);
    assert_eq!(i16_to_sample(100), 3051);
    assert_eq!(i16_to_sample(i16::MAX), 999_969);
    assert_eq!(i16_to_sample(i16::MIN), -FULL_SCALE);
}

#[test]
fn i16_conversion_is_injective() {
    let mut prev = i16_to_sample(i16::MIN);
    let mut s: i32 = i16::MIN as i32 + 1;
    while s <= i16::MAX as i32 {
        let cur = i16_to_sample(s as i16);
        assert!(cur > prev, "conversion collided at {}", s);
        prev = cur;
        s += 1;
    }
}

#[test]
fn u16_conversion_exact_values() {
    assert_eq!(u16_to_sample(0), -FULL_SCALE);
    assert_eq!(u16_to_sample(1), -999_970);
    assert_eq!(u16_to_sample(u16::MAX), FULL_SCALE);
    // The unsigned format has no representable exact midpoint: the two
    // values around it land one conversion step on either side of silence.
    assert_eq!(u16_to_sample(32767), -16);
    assert_eq!(u16_to_sample(32768), 15);
}

#[test]
fn u16_conversion_is_injective() {
    let mut prev = u16_to_sample(0);
    let mut v: u32 = 1;
    while v <= u16::MAX as u32 {
        let cur = u16_to_sample(v as u16);
        assert!(cur > prev, "conversion collided at {}", v);
        prev = cur;
        v += 1;
    }
}

#[test]
fn downmix_equal_channels_preserves_amplitude() {
    for &v in &[0i64, 1, -1, 250_000, -250_000, FULL_SCALE, -FULL_SCALE] {
        for n in 1usize..=8 {
            let frame: Vec<i64> = vec![v; n];
            let out = downmix(&frame, n);
            assert_eq!(out, vec![v]);
        }
    }
}

#[test]
fn downmix_averages_and_drops_remainder() {
    let data: Vec<i64> = vec![100, 300, -100, -300, 7];
    assert_eq!(downmix(&data, 2), vec![200, -200]);
}

#[test]
fn downmix_truncates_toward_zero() {
    let data: Vec<i64> = vec![-1, -2];
    assert_eq!(downmix(&data, 2), vec![-1]);
    let data2: Vec<i64> = vec![1, 2];
    assert_eq!(downmix(&data2, 2), vec![1]);
}

#[test]
fn normalize_i16_mono_is_plain_conversion() {
    let data: Vec<i16> = vec![0, 1, -1, i16::MAX, i16::MIN];
    let out = normalize_i16(&data, 1);
    assert_eq!(out, vec![0, 30, -30, 999_969, -FULL_SCALE]);
}

#[test]
fn normalize_i16_downmixes_stereo() {
    let data: Vec<i16> = vec![16384, -16384, 16384, 16384];
    let out = normalize_i16(&data, 2);
    assert_eq!(out, vec![0, 500_000]);
}

#[test]
fn normalize_u16_downmixes_stereo() {
    let data: Vec<u16> = vec![0, u16::MAX];
    let out = normalize_u16(&data, 2);
    assert_eq!(out, vec![0]);
}
