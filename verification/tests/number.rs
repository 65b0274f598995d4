use ai_voice::{Double, Single};

fn samples() -> Vec<f32> {
    let mut values = vec![
        0.0,
        -0.0,
        1.0,
        -1.0,
        0.1,
        -0.1,
        1.9999999,
        2.0,
        2.0000002,
        3.9999998,
        4.0,
        4.0000005,
        4.9999995,
        5.0,
        5.0000005,
        9.9,
        -9.9,
        1.0e-45,
        -1.0e-45,
        1.1754942e-38,
        1.1754944e-38,
        f32::MAX,
        f32::MIN,
        f32::MIN_POSITIVE,
        f32::EPSILON,
        f32::INFINITY,
        f32::NEG_INFINITY,
        f32::NAN,
        -f32::NAN,
    ];
    values.push(f32::from_bits(0x7f80_0001));
    values.push(f32::from_bits(0xffff_ffff));
    values.push(f32::from_bits(0x0000_0001));
    values.push(f32::from_bits(0x8000_0001));
    values.push(f32::from_bits(0x007f_ffff));
    values
}

fn same(left: f32, right: f32) -> bool {
    left.to_bits() == right.to_bits()
}

#[test]
fn single_keeps_its_bits() {
    for value in samples() {
        assert_eq!(Single::from_bits(value.to_bits()).to_bits(), value.to_bits());
    }
    assert_eq!(Single::from_bits(0x40a0_0000), Single { bits: 5.0f32.to_bits() });
    assert_eq!(Double::from_bits(0.8f64.to_bits()).to_bits(), 0x3fe9_9999_9999_999a);
}

#[test]
fn single_nan_agrees_with_the_machine() {
    for value in samples() {
        assert_eq!(Single::from_bits(value.to_bits()).nan(), value.is_nan(), "{:?}", value);
    }
}

#[test]
fn single_order_agrees_with_the_machine() {
    for left in samples() {
        for right in samples() {
            let ours = Single::from_bits(left.to_bits()).less_than(Single::from_bits(right.to_bits()));
            assert_eq!(ours, left < right, "{:?} < {:?}", left, right);
        }
    }
}

#[test]
fn single_order_holds_both_zeros_equal() {
    let positive = Single::from_bits(0.0f32.to_bits());
    let negative = Single::from_bits((-0.0f32).to_bits());
    assert!(!positive.less_than(negative));
    assert!(!negative.less_than(positive));
}

#[test]
fn single_clamp_agrees_with_the_machine() {
    let ranges = [(0.0f32, 5.0f32), (0.0, 4.0), (0.0, 2.0), (-1.5, 1.5), (-0.0, 0.0), (3.0, 3.0)];
    for (low, high) in ranges {
        for value in samples() {
            let ours = Single::from_bits(value.to_bits())
                .clamp(Single::from_bits(low.to_bits()), Single::from_bits(high.to_bits()));
            let theirs = if value.is_nan() { low } else { value.clamp(low, high) };
            assert!(
                same(f32::from_bits(ours.to_bits()), theirs),
                "{:?} into [{:?}, {:?}]: {:?} and {:?}",
                value,
                low,
                high,
                f32::from_bits(ours.to_bits()),
                theirs
            );
        }
    }
}

#[test]
fn single_clamp_saturates_at_the_bounds() {
    let low = Single::from_bits(0.0f32.to_bits());
    let high = Single::from_bits(5.0f32.to_bits());
    assert_eq!(f32::from_bits(Single::from_bits(9.9f32.to_bits()).clamp(low, high).to_bits()), 5.0);
    assert_eq!(f32::from_bits(Single::from_bits((-3.0f32).to_bits()).clamp(low, high).to_bits()), 0.0);
    assert_eq!(f32::from_bits(Single::from_bits(2.5f32.to_bits()).clamp(low, high).to_bits()), 2.5);
    assert_eq!(
        f32::from_bits(Single::from_bits(f32::INFINITY.to_bits()).clamp(low, high).to_bits()),
        5.0
    );
}

#[test]
fn single_clamp_puts_a_nan_on_the_lower_bound() {
    let low = Single::from_bits(0.0f32.to_bits());
    let high = Single::from_bits(5.0f32.to_bits());
    for bits in [0x7fc0_1234u32, 0x7f80_0001, 0xffc0_0000, 0xffff_ffff, f32::NAN.to_bits()] {
        assert!(f32::from_bits(bits).is_nan());
        assert_eq!(Single::from_bits(bits).clamp(low, high), low);
    }
    let raised = Single::from_bits(1.5f32.to_bits());
    assert_eq!(Single::from_bits(f32::NAN.to_bits()).clamp(raised, high), raised);
}

#[test]
fn single_clamp_keeps_the_sign_of_zero() {
    let low = Single::from_bits(0.0f32.to_bits());
    let high = Single::from_bits(5.0f32.to_bits());
    let negative_zero = Single::from_bits((-0.0f32).to_bits());
    assert_eq!(negative_zero.clamp(low, high), negative_zero);
}

#[test]
fn single_clamp_gives_a_number_of_the_range_for_every_input() {
    let low = Single::from_bits(0.0f32.to_bits());
    let high = Single::from_bits(5.0f32.to_bits());
    for value in samples() {
        let clamped = f32::from_bits(Single::from_bits(value.to_bits()).clamp(low, high).to_bits());
        assert!(0.0 <= clamped && clamped <= 5.0, "{:?} gave {:?}", value, clamped);
    }
}

#[test]
fn single_clamp_is_idempotent() {
    let low = Single::from_bits(0.0f32.to_bits());
    let high = Single::from_bits(4.0f32.to_bits());
    for value in samples() {
        let once = Single::from_bits(value.to_bits()).clamp(low, high);
        assert_eq!(once.clamp(low, high), once);
    }
}

fn patterns(count: usize) -> Vec<u32> {
    let mut state: u64 = 0x2545_f491_4f6c_dd1d;
    let mut out = Vec::with_capacity(count);
    for _ in 0..count {
        state ^= state << 13;
        state ^= state >> 7;
        state ^= state << 17;
        out.push((state >> 16) as u32);
    }
    out
}

#[test]
fn single_order_agrees_with_the_machine_on_many_patterns() {
    let values = patterns(20001);
    for pair in values.windows(2) {
        let (left, right) = (pair[0], pair[1]);
        let ours = Single::from_bits(left).less_than(Single::from_bits(right));
        assert_eq!(ours, f32::from_bits(left) < f32::from_bits(right), "{:#x} {:#x}", left, right);
        let near = left ^ (right & 3);
        let ours = Single::from_bits(left).less_than(Single::from_bits(near));
        assert_eq!(ours, f32::from_bits(left) < f32::from_bits(near), "{:#x} {:#x}", left, near);
    }
}

#[test]
fn single_clamp_agrees_with_the_machine_on_many_patterns() {
    let low = Single::from_bits(0.0f32.to_bits());
    for high in [5.0f32, 4.0, 2.0] {
        for bits in patterns(20000) {
            let ours = Single::from_bits(bits).clamp(low, Single::from_bits(high.to_bits()));
            let value = f32::from_bits(bits);
            let theirs = if value.is_nan() { 0.0 } else { value.clamp(0.0, high) };
            assert_eq!(ours.to_bits(), theirs.to_bits(), "{:#x}", bits);
        }
    }
}
