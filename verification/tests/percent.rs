use system_monitor::percent::FULL;
use system_monitor::Percent;

fn from_reading(reading: f32) -> u64 {
    Percent::from_single_bits(reading.to_bits()).hundredths
}

#[test]
fn share_of_a_third_is_rounded_down() {
    assert_eq!(Percent::of(1, 3).hundredths, 3333);
    assert_eq!(Percent::of(2, 3).hundredths, 6666);
}

#[test]
fn share_of_exact_fractions() {
    assert_eq!(Percent::of(1, 2).hundredths, 5000);
    assert_eq!(Percent::of(1, 8).hundredths, 1250);
    assert_eq!(Percent::of(3, 4).hundredths, 7500);
    assert_eq!(Percent::of(0, 7).hundredths, 0);
}

#[test]
fn share_of_the_whole_is_full() {
    assert_eq!(FULL, 10_000);
    assert_eq!(Percent::of(7, 7).hundredths, FULL);
    assert_eq!(Percent::of(u64::MAX, u64::MAX).hundredths, FULL);
}

#[test]
fn share_of_an_empty_whole_is_zero() {
    assert_eq!(Percent::of(0, 0), Percent::zero());
    assert_eq!(Percent::of(5, 0), Percent::zero());
    assert_eq!(Percent::of(u64::MAX, 0).hundredths, 0);
}

#[test]
fn share_beyond_the_whole_passes_full() {
    assert_eq!(Percent::of(2, 1).hundredths, 20_000);
    assert_eq!(Percent::of(3, 2).hundredths, 15_000);
}

#[test]
fn share_too_large_for_the_type_is_held_at_the_largest() {
    assert_eq!(Percent::of(u64::MAX, 1).hundredths, u64::MAX);
    assert_eq!(Percent::of(u64::MAX, 10_000).hundredths, u64::MAX);
    assert_eq!(Percent::of(u64::MAX, 10_001).hundredths, 18_444_899_583_751_176_497);
}

#[test]
fn share_within_the_whole_stays_within_full() {
    let wholes = [1u64, 2, 3, 7, 100, 1 << 20, u64::MAX];
    for whole in wholes {
        for part in [0, 1, whole / 3, whole / 2, whole - 1, whole] {
            if part <= whole {
                assert!(Percent::of(part, whole).hundredths <= FULL);
            }
        }
    }
}

#[test]
fn single_precision_readings_in_hundredths() {
    assert_eq!(from_reading(0.0), 0);
    assert_eq!(from_reading(12.5), 1250);
    assert_eq!(from_reading(100.0), 10_000);
    assert_eq!(from_reading(1.0), 100);
    assert_eq!(from_reading(0.5), 50);
    assert_eq!(from_reading(0.25), 25);
    assert_eq!(from_reading(99.75), 9975);
    assert_eq!(from_reading(3.0), 300);
}

#[test]
fn single_precision_readings_are_rounded_toward_zero() {
    assert_eq!(from_reading(0.125), 12);
    assert_eq!(from_reading(0.009), 0);
    assert_eq!(from_reading(33.333332), 3333);
    assert_eq!(from_reading(99.999), 9999);
}

#[test]
fn single_precision_bit_patterns() {
    // 12.5 is 1.5625 * 2^3: exponent 130, fraction 0x48_0000.
    assert_eq!(12.5f32.to_bits(), 0x4148_0000);
    assert_eq!(Percent::from_single_bits(0x4148_0000).hundredths, 1250);
    // 1.0: exponent 127, no fraction.
    assert_eq!(Percent::from_single_bits(0x3f80_0000).hundredths, 100);
    // 2^23 = 8388608.0: exponent 150, the first that shifts left.
    assert_eq!(Percent::from_single_bits(0x4b00_0000).hundredths, 838_860_800);
    // 2^22: exponent 149, the last that shifts right.
    assert_eq!(Percent::from_single_bits(0x4a80_0000).hundredths, 419_430_400);
}

#[test]
fn single_precision_readings_that_are_not_percentages() {
    assert_eq!(from_reading(-0.0), 0);
    assert_eq!(from_reading(-12.5), 0);
    assert_eq!(from_reading(f32::NAN), 0);
    assert_eq!(from_reading(-f32::NAN), 0);
    assert_eq!(from_reading(f32::NEG_INFINITY), 0);
    assert_eq!(from_reading(f32::INFINITY), u64::MAX);
    assert_eq!(from_reading(f32::MIN_POSITIVE), 0);
    assert_eq!(from_reading(f32::MIN_POSITIVE / 4.0), 0);
    assert_eq!(from_reading(f32::MAX), u64::MAX);
}

#[test]
fn single_precision_readings_near_the_largest_value() {
    // 2^57: 100 * 2^57 still fits.
    assert_eq!(from_reading(144_115_188_075_855_872.0), 14_411_518_807_585_587_200);
    // 2^58: 100 * 2^58 does not.
    assert_eq!(from_reading(288_230_376_151_711_744.0), u64::MAX);
    // 2^64 and beyond.
    assert_eq!(from_reading(18_446_744_073_709_551_616.0), u64::MAX);
    assert_eq!(from_reading(1.0e30), u64::MAX);
}

#[test]
fn single_precision_readings_agree_with_floating_point() {
    let readings = [0.01f32, 0.1, 1.5, 7.25, 42.42, 50.0, 63.9, 87.654, 100.0, 250.5, 799.99];
    for reading in readings {
        let expected = (f64::from(reading) * 100.0).floor() as u64;
        assert_eq!(from_reading(reading), expected, "reading {reading}");
    }
}
